use fhir_view::engine::EntityView;
use fhir_view::error::{ErrorKind, Shape};
use fhir_view::node::{Node, NodeKind};
use fhir_view::status::TestScriptStatus;
use fhir_view::test_script::TestScript;

fn obj(entries: Vec<(&str, Node)>) -> Node {
    Node::Object(entries.into_iter().map(|(k, v)| (k.to_string(), v)).collect())
}

fn s(text: &str) -> Node {
    Node::Str(text.to_string())
}

fn num(text: &str) -> Node {
    Node::Number(text.to_string())
}

#[test]
fn absent_fields_read_as_no_value() {
    let doc = obj(vec![]);
    let ts = TestScript { value: &doc };
    assert_eq!(ts.description().unwrap(), None);
    assert_eq!(ts.id().unwrap(), None);
    assert_eq!(ts.name().unwrap(), None);
    assert_eq!(ts.implicit_rules().unwrap(), None);
    assert_eq!(ts.version().unwrap(), None);
    assert_eq!(ts.language().unwrap(), None);
    assert_eq!(ts.purpose().unwrap(), None);
    assert_eq!(ts.copyright().unwrap(), None);
    assert_eq!(ts.date().unwrap(), None);
    assert_eq!(ts.title().unwrap(), None);
    assert_eq!(ts.url().unwrap(), None);
    assert_eq!(ts.publisher().unwrap(), None);
    assert_eq!(ts.experimental().unwrap(), None);
    assert_eq!(ts.status().unwrap(), None);
    assert!(ts.text().is_none());
    assert!(ts._description().is_none());
    assert!(ts._url().is_none());
    assert!(ts._implicit_rules().is_none());
    assert!(ts._title().is_none());
    assert!(ts._date().is_none());
    assert!(ts._purpose().is_none());
    assert!(ts._name().is_none());
    assert!(ts._language().is_none());
    assert!(ts._status().is_none());
    assert!(ts._copyright().is_none());
    assert!(ts._publisher().is_none());
    assert!(ts._version().is_none());
    assert!(ts._experimental().is_none());
    assert!(ts.metadata().is_none());
    assert!(ts.identifier().is_none());
    assert!(ts.teardown().is_none());
    assert!(ts.meta().is_none());
    assert!(ts.setup().is_none());
    assert!(ts.contained().unwrap().is_none());
    assert!(ts.variable().unwrap().is_none());
    assert!(ts.destination().unwrap().is_none());
    assert!(ts.extension().unwrap().is_none());
    assert!(ts.profile().unwrap().is_none());
    assert!(ts.modifier_extension().unwrap().is_none());
    assert!(ts.contact().unwrap().is_none());
    assert!(ts.origin().unwrap().is_none());
    assert!(ts.test().unwrap().is_none());
    assert!(ts.jurisdiction().unwrap().is_none());
    assert!(ts.use_context().unwrap().is_none());
    assert!(ts.fixture().unwrap().is_none());
}

#[test]
fn accessors_on_non_mapping_node_read_as_no_value() {
    let doc = s("not a mapping");
    let ts = TestScript { value: &doc };
    assert_eq!(ts.description().unwrap(), None);
    assert_eq!(ts.status().unwrap(), None);
    assert!(ts.text().is_none());
    assert!(ts.test().unwrap().is_none());
}

#[test]
fn present_primitives_are_extracted_without_loss() {
    let doc = obj(vec![
        ("description", s("a consumer's view of the tests")),
        ("id", s("ts-1")),
        ("name", s("SmokeTests")),
        ("title", s("Smoke tests")),
        ("url", s("http://example.org/TestScript/ts-1")),
        ("experimental", Node::Bool(true)),
    ]);
    let ts = TestScript { value: &doc };
    assert_eq!(
        ts.description().unwrap(),
        Some("a consumer's view of the tests")
    );
    assert_eq!(ts.id().unwrap(), Some("ts-1"));
    assert_eq!(ts.name().unwrap(), Some("SmokeTests"));
    assert_eq!(ts.title().unwrap(), Some("Smoke tests"));
    assert_eq!(ts.url().unwrap(), Some("http://example.org/TestScript/ts-1"));
    assert_eq!(ts.experimental().unwrap(), Some(true));
}

#[test]
fn nested_view_reads_through_to_the_source_subtree() {
    let doc = obj(vec![(
        "text",
        obj(vec![("status", s("generated")), ("div", s("<div/>"))]),
    )]);
    let ts = TestScript { value: &doc };
    let narrative = ts.text().expect("text is present");
    match narrative.value {
        Node::Object(entries) => {
            assert_eq!(entries.len(), 2);
            assert_eq!(entries[0].0, "status");
            assert!(matches!(&entries[0].1, Node::Str(v) if v == "generated"));
            assert_eq!(entries[1].0, "div");
            assert!(matches!(&entries[1].1, Node::Str(v) if v == "<div/>"));
        }
        other => panic!("expected a mapping, found {:?}", other),
    }
    assert!(narrative.validate());
}

#[test]
fn sequence_field_yields_one_view_per_element_in_order() {
    let doc = obj(vec![(
        "test",
        Node::Array(vec![
            obj(vec![("name", s("first"))]),
            obj(vec![("name", s("second"))]),
            obj(vec![("name", s("first"))]),
        ]),
    )]);
    let ts = TestScript { value: &doc };
    let tests = ts.test().unwrap().expect("test is present");
    assert_eq!(tests.len(), 3);
    let names: Vec<&str> = tests
        .iter()
        .map(|t| match t.value {
            Node::Object(entries) => match &entries[0].1 {
                Node::Str(v) => v.as_str(),
                other => panic!("expected a string, found {:?}", other),
            },
            other => panic!("expected a mapping, found {:?}", other),
        })
        .collect();
    assert_eq!(names, vec!["first", "second", "first"]);
}

#[test]
fn empty_sequence_is_a_present_empty_collection_not_absence() {
    let doc = obj(vec![("profile", Node::Array(vec![]))]);
    let ts = TestScript { value: &doc };
    let profiles = ts.profile().unwrap();
    assert!(profiles.is_some());
    assert_eq!(profiles.unwrap().len(), 0);
}

#[test]
fn extension_annotation_resolves_without_its_sibling() {
    let doc = obj(vec![(
        "_description",
        obj(vec![("id", s("ann-1"))]),
    )]);
    let ts = TestScript { value: &doc };
    assert_eq!(ts.description().unwrap(), None);
    let ann = ts._description().expect("_description is present");
    assert!(ann.validate());
    match ann.value {
        Node::Object(entries) => {
            assert_eq!(entries[0].0, "id");
            assert!(matches!(&entries[0].1, Node::Str(v) if v == "ann-1"));
        }
        other => panic!("expected a mapping, found {:?}", other),
    }
}

#[test]
fn string_field_with_wrong_tag_is_a_typed_mismatch() {
    let doc = obj(vec![("description", num("7"))]);
    let ts = TestScript { value: &doc };
    assert_eq!(
        ts.description().unwrap_err(),
        ErrorKind::SchemaTypeMismatch {
            field: "description".to_string(),
            expected: Shape::Str,
            actual: NodeKind::Number,
        }
    );
}

#[test]
fn bool_field_with_wrong_tag_is_a_typed_mismatch() {
    let doc = obj(vec![("experimental", s("yes"))]);
    let ts = TestScript { value: &doc };
    assert_eq!(
        ts.experimental().unwrap_err(),
        ErrorKind::SchemaTypeMismatch {
            field: "experimental".to_string(),
            expected: Shape::Bool,
            actual: NodeKind::Str,
        }
    );
}

#[test]
fn sequence_field_with_wrong_tag_is_a_typed_mismatch() {
    let doc = obj(vec![("contained", obj(vec![]))]);
    let ts = TestScript { value: &doc };
    assert_eq!(
        ts.contained().unwrap_err(),
        ErrorKind::SchemaTypeMismatch {
            field: "contained".to_string(),
            expected: Shape::EntityList,
            actual: NodeKind::Object,
        }
    );
}

#[test]
fn status_accessor_parses_the_closed_tag_set() {
    let doc = obj(vec![("status", s("active"))]);
    let ts = TestScript { value: &doc };
    assert_eq!(ts.status().unwrap(), Some(TestScriptStatus::Active));
}

#[test]
fn status_accessor_surfaces_mismatch_and_unrecognized_value() {
    let doc = obj(vec![("status", num("3"))]);
    let ts = TestScript { value: &doc };
    assert_eq!(
        ts.status().unwrap_err(),
        ErrorKind::SchemaTypeMismatch {
            field: "status".to_string(),
            expected: Shape::Code,
            actual: NodeKind::Number,
        }
    );
    let doc2 = obj(vec![("status", s("invalid-tag"))]);
    let ts2 = TestScript { value: &doc2 };
    assert_eq!(
        ts2.status().unwrap_err(),
        ErrorKind::UnrecognizedEnumValue {
            field: "status".to_string(),
            value: "invalid-tag".to_string(),
        }
    );
}

#[test]
fn duplicate_keys_resolve_to_the_first_entry() {
    let doc = obj(vec![("name", s("first")), ("name", s("second"))]);
    let ts = TestScript { value: &doc };
    assert_eq!(ts.name().unwrap(), Some("first"));
}

#[test]
fn entity_view_validate_checks_the_mapping_shape() {
    let good = obj(vec![]);
    let bad = s("plain");
    assert!(EntityView { value: &good }.validate());
    assert!(!EntityView { value: &bad }.validate());
}
