use fhir_view::error::{ErrorKind, Shape};
use fhir_view::node::{node_count, Node, NodeKind};
use fhir_view::status::TestScriptStatus;
use fhir_view::test_script::TestScript;

fn obj(entries: Vec<(&str, Node)>) -> Node {
    Node::Object(entries.into_iter().map(|(k, v)| (k.to_string(), v)).collect())
}

fn s(text: &str) -> Node {
    Node::Str(text.to_string())
}

fn num(text: &str) -> Node {
    Node::Number(text.to_string())
}

#[test]
fn from_string_maps_the_exact_lexicon() {
    assert_eq!(
        TestScriptStatus::from_string("draft"),
        Some(TestScriptStatus::Draft)
    );
    assert_eq!(
        TestScriptStatus::from_string("active"),
        Some(TestScriptStatus::Active)
    );
    assert_eq!(
        TestScriptStatus::from_string("retired"),
        Some(TestScriptStatus::Retired)
    );
    assert_eq!(
        TestScriptStatus::from_string("unknown"),
        Some(TestScriptStatus::Unknown)
    );
}

#[test]
fn from_string_is_case_sensitive_and_exact() {
    assert_eq!(TestScriptStatus::from_string("Draft"), None);
    assert_eq!(TestScriptStatus::from_string(""), None);
    assert_eq!(TestScriptStatus::from_string(" draft"), None);
    assert_eq!(TestScriptStatus::from_string("draft "), None);
    assert_eq!(TestScriptStatus::from_string("ACTIVE"), None);
    assert_eq!(TestScriptStatus::from_string("entered-in-error"), None);
}

#[test]
fn validate_on_an_empty_document_reports_nothing() {
    let doc = obj(vec![]);
    let ts = TestScript { value: &doc };
    assert_eq!(ts.validate(), Vec::new());
}

#[test]
fn validate_on_a_well_shaped_document_reports_nothing() {
    let doc = obj(vec![
        ("description", s("checks the server")),
        ("status", s("draft")),
        ("experimental", Node::Bool(false)),
        ("text", obj(vec![("status", s("generated"))])),
        (
            "test",
            Node::Array(vec![obj(vec![]), obj(vec![]), obj(vec![])]),
        ),
    ]);
    let ts = TestScript { value: &doc };
    assert_eq!(ts.validate(), Vec::new());
}

#[test]
fn validate_surfaces_a_status_type_mismatch() {
    let doc = obj(vec![("status", num("4"))]);
    let ts = TestScript { value: &doc };
    assert_eq!(
        ts.validate(),
        vec![ErrorKind::SchemaTypeMismatch {
            field: "status".to_string(),
            expected: Shape::Code,
            actual: NodeKind::Number,
        }]
    );
}

#[test]
fn validate_surfaces_an_unrecognized_status_value() {
    let doc = obj(vec![("status", s("invalid-tag"))]);
    let ts = TestScript { value: &doc };
    assert_eq!(
        ts.validate(),
        vec![ErrorKind::UnrecognizedEnumValue {
            field: "status".to_string(),
            value: "invalid-tag".to_string(),
        }]
    );
}

#[test]
fn validate_aggregates_every_violation_in_field_order() {
    let doc = obj(vec![
        ("description", num("1")),
        ("status", s("invalid-tag")),
        ("experimental", s("yes")),
        ("publisher", Node::Null),
    ]);
    let ts = TestScript { value: &doc };
    assert_eq!(
        ts.validate(),
        vec![
            ErrorKind::SchemaTypeMismatch {
                field: "description".to_string(),
                expected: Shape::Str,
                actual: NodeKind::Number,
            },
            ErrorKind::UnrecognizedEnumValue {
                field: "status".to_string(),
                value: "invalid-tag".to_string(),
            },
            ErrorKind::SchemaTypeMismatch {
                field: "experimental".to_string(),
                expected: Shape::Bool,
                actual: NodeKind::Str,
            },
            ErrorKind::SchemaTypeMismatch {
                field: "publisher".to_string(),
                expected: Shape::Str,
                actual: NodeKind::Null,
            },
        ]
    );
}

#[test]
fn validate_checks_nested_entity_and_sequence_shapes() {
    let doc = obj(vec![
        ("text", s("should be a mapping")),
        ("contained", Node::Bool(true)),
        (
            "test",
            Node::Array(vec![obj(vec![]), s("not an entity"), obj(vec![])]),
        ),
    ]);
    let ts = TestScript { value: &doc };
    assert_eq!(
        ts.validate(),
        vec![
            ErrorKind::SchemaTypeMismatch {
                field: "text".to_string(),
                expected: Shape::Entity,
                actual: NodeKind::Str,
            },
            ErrorKind::SchemaTypeMismatch {
                field: "contained".to_string(),
                expected: Shape::EntityList,
                actual: NodeKind::Bool,
            },
            ErrorKind::SchemaTypeMismatch {
                field: "test".to_string(),
                expected: Shape::Entity,
                actual: NodeKind::Str,
            },
        ]
    );
}

#[test]
fn validate_reports_each_bad_sequence_element_in_element_order() {
    let doc = obj(vec![(
        "fixture",
        Node::Array(vec![s("one"), obj(vec![]), Node::Null, obj(vec![])]),
    )]);
    let ts = TestScript { value: &doc };
    assert_eq!(
        ts.validate(),
        vec![
            ErrorKind::SchemaTypeMismatch {
                field: "fixture".to_string(),
                expected: Shape::Entity,
                actual: NodeKind::Str,
            },
            ErrorKind::SchemaTypeMismatch {
                field: "fixture".to_string(),
                expected: Shape::Entity,
                actual: NodeKind::Null,
            },
        ]
    );
}

#[test]
fn deep_walk_terminates_and_visits_every_node_once() {
    // A document with a `test` array of three entries, each holding nested
    // assertion entities of its own.
    let assertion = |label: &str| {
        obj(vec![(
            "assert",
            obj(vec![("description", s(label)), ("warningOnly", Node::Bool(false))]),
        )])
    };
    let doc = obj(vec![
        ("status", s("active")),
        (
            "test",
            Node::Array(vec![
                obj(vec![("action", Node::Array(vec![assertion("a")]))]),
                obj(vec![("action", Node::Array(vec![assertion("b")]))]),
                obj(vec![("action", Node::Array(vec![assertion("c")]))]),
            ]),
        ),
    ]);
    // Nodes: root (1) + status string (1) + test array (1)
    //   + 3 * (entry object + action array + assertion object + assert object
    //          + description string + warningOnly bool) = 3 * 6 = 18.
    assert_eq!(node_count(&doc), 21);
    let ts = TestScript { value: &doc };
    assert_eq!(ts.validate(), Vec::new());
}

#[test]
fn node_count_counts_each_kind_of_leaf() {
    assert_eq!(node_count(&Node::Null), 1);
    assert_eq!(node_count(&Node::Bool(true)), 1);
    assert_eq!(node_count(&num("3.5")), 1);
    assert_eq!(node_count(&s("x")), 1);
    assert_eq!(node_count(&Node::Array(vec![Node::Null, Node::Null])), 3);
    assert_eq!(node_count(&obj(vec![("a", Node::Array(vec![s("y")]))])), 3);
}
