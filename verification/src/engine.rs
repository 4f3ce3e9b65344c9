//! The generic accessor and validation engine: per-field lookup, shape
//! check, and extraction or wrapping, shared by every typed view.

use vstd::prelude::*;

use crate::error::{mismatch, unrecognized, ErrorKind, ErrorKindView, Shape};
use crate::node::{get_field, items_view, Node, NodeView};
use crate::status::{spec_status_from, TestScriptStatus};

verus! {

/// A read-only view of one node as a nested schema entity whose own field
/// table is outside this library's scope. Validation of such an entity
/// checks only that the node is a mapping.
#[derive(Debug, Clone, Copy)]
pub struct EntityView<'a> {
    pub value: &'a Node,
}

impl<'a> EntityView<'a> {
    /// A nested entity is well-shaped exactly when its node is a mapping.
    pub fn validate(&self) -> (ok: bool)
        ensures
            ok == (self.value@ is Object),
    {
        match self.value {
            Node::Object(_) => true,
            _ => false,
        }
    }
}

/// What reading a string field of `n` yields: absence, the string, or a
/// shape mismatch.
pub open spec fn str_field_spec(n: NodeView, key: Seq<char>) -> Result<
    Option<Seq<char>>,
    ErrorKindView,
> {
    match get_field(n, key) {
        None => Ok(None),
        Some(v) => match v {
            NodeView::Str(s) => Ok(Some(s)),
            _ => Err(mismatch(key, Shape::Str, v.kind())),
        },
    }
}

/// The exec result `r` agrees with [`str_field_spec`].
pub open spec fn str_field_matches(
    n: NodeView,
    key: Seq<char>,
    r: Result<Option<&str>, ErrorKind>,
) -> bool {
    match r {
        Ok(Some(s)) => str_field_spec(n, key) == Ok::<Option<Seq<char>>, ErrorKindView>(
            Some(s@),
        ),
        Ok(None) => str_field_spec(n, key) == Ok::<Option<Seq<char>>, ErrorKindView>(None),
        Err(e) => str_field_spec(n, key) == Err::<Option<Seq<char>>, ErrorKindView>(e@),
    }
}

/// What reading a boolean field of `n` yields.
pub open spec fn bool_field_spec(n: NodeView, key: Seq<char>) -> Result<
    Option<bool>,
    ErrorKindView,
> {
    match get_field(n, key) {
        None => Ok(None),
        Some(v) => match v {
            NodeView::Bool(b) => Ok(Some(b)),
            _ => Err(mismatch(key, Shape::Bool, v.kind())),
        },
    }
}

/// The exec result `r` agrees with [`bool_field_spec`].
pub open spec fn bool_field_matches(
    n: NodeView,
    key: Seq<char>,
    r: Result<Option<bool>, ErrorKind>,
) -> bool {
    match r {
        Ok(b) => bool_field_spec(n, key) == Ok::<Option<bool>, ErrorKindView>(b),
        Err(e) => bool_field_spec(n, key) == Err::<Option<bool>, ErrorKindView>(e@),
    }
}

/// What reading an enumerated status field of `n` yields: absence, a tag
/// of the closed set, or a typed error.
pub open spec fn status_field_spec(n: NodeView, key: Seq<char>) -> Result<
    Option<TestScriptStatus>,
    ErrorKindView,
> {
    match get_field(n, key) {
        None => Ok(None),
        Some(v) => match v {
            NodeView::Str(s) => match spec_status_from(s) {
                Some(tag) => Ok(Some(tag)),
                None => Err(unrecognized(key, s)),
            },
            _ => Err(mismatch(key, Shape::Code, v.kind())),
        },
    }
}

/// The exec result `r` agrees with [`status_field_spec`].
pub open spec fn status_field_matches(
    n: NodeView,
    key: Seq<char>,
    r: Result<Option<TestScriptStatus>, ErrorKind>,
) -> bool {
    match r {
        Ok(t) => status_field_spec(n, key) == Ok::<Option<TestScriptStatus>, ErrorKindView>(t),
        Err(e) => status_field_spec(n, key) == Err::<
            Option<TestScriptStatus>,
            ErrorKindView,
        >(e@),
    }
}

/// What reading a nested-entity field of `n` yields: the sub-node when the
/// key is present, absence otherwise. No shape check happens at access
/// time; `validate` performs it.
pub open spec fn entity_field_spec(n: NodeView, key: Seq<char>) -> Option<NodeView> {
    get_field(n, key)
}

/// The exec result `r` agrees with [`entity_field_spec`]: a returned view
/// reads through to the very sub-node bound to the key.
pub open spec fn entity_field_matches(n: NodeView, key: Seq<char>, r: Option<EntityView>) -> bool {
    match r {
        Some(v) => entity_field_spec(n, key) == Some(v.value@),
        None => entity_field_spec(n, key) is None,
    }
}

/// What reading a sequence-of-entities field of `n` yields: absence, the
/// element sequence, or a shape mismatch. An empty sequence is a present
/// empty collection, never absence.
pub open spec fn entity_list_field_spec(n: NodeView, key: Seq<char>) -> Result<
    Option<Seq<NodeView>>,
    ErrorKindView,
> {
    match get_field(n, key) {
        None => Ok(None),
        Some(v) => match v {
            NodeView::Array(items) => Ok(Some(items)),
            _ => Err(mismatch(key, Shape::EntityList, v.kind())),
        },
    }
}

/// The exec result `r` agrees with [`entity_list_field_spec`]: one view per
/// source element, in source order.
pub open spec fn entity_list_matches(
    n: NodeView,
    key: Seq<char>,
    r: Result<Option<Vec<EntityView>>, ErrorKind>,
) -> bool {
    match r {
        Ok(Some(vs)) => entity_list_field_spec(n, key) matches Ok(Some(items)) && vs@.len()
            == items.len() && (forall|k: int| 0 <= k < items.len() ==> vs@[k].value@ == items[k]),
        Ok(None) => entity_list_field_spec(n, key) == Ok::<Option<Seq<NodeView>>, ErrorKindView>(
            None,
        ),
        Err(e) => entity_list_field_spec(n, key) == Err::<
            Option<Seq<NodeView>>,
            ErrorKindView,
        >(e@),
    }
}

/// Reads a string field: `Ok(None)` when `key` is absent, the borrowed
/// string when it holds one, a mismatch error otherwise.
pub fn str_field<'a>(n: &'a Node, key: &str) -> (r: Result<Option<&'a str>, ErrorKind>)
    ensures
        str_field_matches(n@, key@, r),
{
    match n.get(key) {
        None => Ok(None),
        Some(v) => match v {
            Node::Str(s) => Ok(Some(s.as_str())),
            _ => Err(
                ErrorKind::SchemaTypeMismatch {
                    field: key.to_owned(),
                    expected: Shape::Str,
                    actual: v.kind(),
                },
            ),
        },
    }
}

/// Reads a boolean field.
pub fn bool_field(n: &Node, key: &str) -> (r: Result<Option<bool>, ErrorKind>)
    ensures
        bool_field_matches(n@, key@, r),
{
    match n.get(key) {
        None => Ok(None),
        Some(v) => match v {
            Node::Bool(b) => Ok(Some(*b)),
            _ => Err(
                ErrorKind::SchemaTypeMismatch {
                    field: key.to_owned(),
                    expected: Shape::Bool,
                    actual: v.kind(),
                },
            ),
        },
    }
}

/// Reads an enumerated status field against the closed tag set.
pub fn status_field(n: &Node, key: &str) -> (r: Result<Option<TestScriptStatus>, ErrorKind>)
    ensures
        status_field_matches(n@, key@, r),
{
    match n.get(key) {
        None => Ok(None),
        Some(v) => match v {
            Node::Str(s) => match TestScriptStatus::from_string(s.as_str()) {
                Some(tag) => Ok(Some(tag)),
                None => Err(
                    ErrorKind::UnrecognizedEnumValue { field: key.to_owned(), value: s.clone() },
                ),
            },
            _ => Err(
                ErrorKind::SchemaTypeMismatch {
                    field: key.to_owned(),
                    expected: Shape::Code,
                    actual: v.kind(),
                },
            ),
        },
    }
}

/// Reads a nested-entity field: wraps the sub-node without copying it.
pub fn entity_field<'a>(n: &'a Node, key: &str) -> (r: Option<EntityView<'a>>)
    ensures
        entity_field_matches(n@, key@, r),
{
    match n.get(key) {
        None => None,
        Some(v) => Some(EntityView { value: v }),
    }
}

/// Reads a sequence-of-entities field: wraps each element independently,
/// preserving source order.
pub fn entity_list_field<'a>(n: &'a Node, key: &str) -> (r: Result<
    Option<Vec<EntityView<'a>>>,
    ErrorKind,
>)
    ensures
        entity_list_matches(n@, key@, r),
{
    match n.get(key) {
        None => Ok(None),
        Some(v) => match v {
            Node::Array(items) => {
                let ghost iv = items_view(*items);
                let mut vs: Vec<EntityView<'a>> = Vec::new();
                let mut j: usize = 0;
                while j < items.len()
                    invariant
                        j <= items@.len(),
                        iv == items_view(*items),
                        iv.len() == items@.len(),
                        vs@.len() == j,
                        forall|k: int| 0 <= k < j ==> vs@[k].value@ == iv[k],
                    decreases items@.len() - j,
                {
                    vs.push(EntityView { value: &items[j] });
                    j = j + 1;
                }
                Ok(Some(vs))
            },
            _ => Err(
                ErrorKind::SchemaTypeMismatch {
                    field: key.to_owned(),
                    expected: Shape::EntityList,
                    actual: v.kind(),
                },
            ),
        },
    }
}

/// Validation errors of one element of a sequence-of-entities field: an
/// element must itself be a mapping.
pub open spec fn elem_error(key: Seq<char>, v: NodeView) -> Seq<ErrorKindView> {
    if v is Object {
        Seq::empty()
    } else {
        seq![mismatch(key, Shape::Entity, v.kind())]
    }
}

/// Validation errors of the elements `items[i..]` of a
/// sequence-of-entities field, in element order.
pub open spec fn elems_errors(key: Seq<char>, items: Seq<NodeView>, i: int) -> Seq<ErrorKindView>
    decreases items.len() - i,
{
    if i < 0 || i >= items.len() {
        Seq::empty()
    } else {
        elem_error(key, items[i]) + elems_errors(key, items, i + 1)
    }
}

/// Validation errors of a present field value `v` declared with `shape`.
/// Primitives and enums are checked for their tag (and, for an enum, its
/// lexicon); a nested entity must be a mapping; a sequence must be a
/// sequence of mappings.
pub open spec fn shape_errors(v: NodeView, key: Seq<char>, shape: Shape) -> Seq<ErrorKindView> {
    match shape {
        Shape::Str => if v is Str {
            Seq::empty()
        } else {
            seq![mismatch(key, Shape::Str, v.kind())]
        },
        Shape::Bool => if v is Bool {
            Seq::empty()
        } else {
            seq![mismatch(key, Shape::Bool, v.kind())]
        },
        Shape::Code => match v {
            NodeView::Str(s) => if spec_status_from(s) is Some {
                Seq::empty()
            } else {
                seq![unrecognized(key, s)]
            },
            _ => seq![mismatch(key, Shape::Code, v.kind())],
        },
        Shape::Entity => if v is Object {
            Seq::empty()
        } else {
            seq![mismatch(key, Shape::Entity, v.kind())]
        },
        Shape::EntityList => match v {
            NodeView::Array(items) => elems_errors(key, items, 0),
            _ => seq![mismatch(key, Shape::EntityList, v.kind())],
        },
    }
}

/// Validation errors contributed by field `key` of declared `shape` in
/// document `n`: none when the field is absent.
pub open spec fn field_errors(n: NodeView, key: Seq<char>, shape: Shape) -> Seq<ErrorKindView> {
    match get_field(n, key) {
        None => Seq::empty(),
        Some(v) => shape_errors(v, key, shape),
    }
}

/// Checks one field of `n` against its declared shape and appends every
/// violation found, in order, to `errs`.
pub fn check_field(n: &Node, key: &str, shape: Shape, errs: &mut Vec<ErrorKind>)
    ensures
        final(errs).deep_view() == old(errs).deep_view() + field_errors(n@, key@, shape),
{
    let ghost base = old(errs).deep_view();
    match n.get(key) {
        None => {
            proof {
                assert(errs.deep_view() =~= base + field_errors(n@, key@, shape));
            }
        },
        Some(v) => {
            let ghost fe = field_errors(n@, key@, shape);
            proof {
                assert(fe == shape_errors(v@, key@, shape));
            }
            match shape {
                Shape::Str => match v {
                    Node::Str(_) => {
                        proof {
                            assert(errs.deep_view() =~= base + fe);
                        }
                    },
                    _ => {
                        let e = ErrorKind::SchemaTypeMismatch {
                            field: key.to_owned(),
                            expected: Shape::Str,
                            actual: v.kind(),
                        };
                        errs.push(e);
                        proof {
                            assert(errs.deep_view() =~= base + fe);
                        }
                    },
                },
                Shape::Bool => match v {
                    Node::Bool(_) => {
                        proof {
                            assert(errs.deep_view() =~= base + fe);
                        }
                    },
                    _ => {
                        let e = ErrorKind::SchemaTypeMismatch {
                            field: key.to_owned(),
                            expected: Shape::Bool,
                            actual: v.kind(),
                        };
                        errs.push(e);
                        proof {
                            assert(errs.deep_view() =~= base + fe);
                        }
                    },
                },
                Shape::Code => match v {
                    Node::Str(s) => {
                        if TestScriptStatus::from_string(s.as_str()).is_some() {
                            proof {
                                assert(errs.deep_view() =~= base + fe);
                            }
                        } else {
                            let e = ErrorKind::UnrecognizedEnumValue {
                                field: key.to_owned(),
                                value: s.clone(),
                            };
                            errs.push(e);
                            proof {
                                assert(errs.deep_view() =~= base + fe);
                            }
                        }
                    },
                    _ => {
                        let e = ErrorKind::SchemaTypeMismatch {
                            field: key.to_owned(),
                            expected: Shape::Code,
                            actual: v.kind(),
                        };
                        errs.push(e);
                        proof {
                            assert(errs.deep_view() =~= base + fe);
                        }
                    },
                },
                Shape::Entity => match v {
                    Node::Object(_) => {
                        proof {
                            assert(errs.deep_view() =~= base + fe);
                        }
                    },
                    _ => {
                        let e = ErrorKind::SchemaTypeMismatch {
                            field: key.to_owned(),
                            expected: Shape::Entity,
                            actual: v.kind(),
                        };
                        errs.push(e);
                        proof {
                            assert(errs.deep_view() =~= base + fe);
                        }
                    },
                },
                Shape::EntityList => match v {
                    Node::Array(items) => {
                        let ghost iv = items_view(*items);
                        let mut j: usize = 0;
                        while j < items.len()
                            invariant
                                j <= items@.len(),
                                iv == items_view(*items),
                                iv.len() == items@.len(),
                                errs.deep_view() + elems_errors(key@, iv, j as int) == base
                                    + elems_errors(key@, iv, 0),
                            decreases items@.len() - j,
                        {
                            let ghost before = errs.deep_view();
                            let ghost step = elem_error(key@, iv[j as int]);
                            let ghost rest = elems_errors(key@, iv, j as int + 1);
                            proof {
                                assert(iv[j as int] == items@[j as int]@);
                                assert(elems_errors(key@, iv, j as int) == step + rest);
                            }
                            match &items[j] {
                                Node::Object(_) => {
                                    proof {
                                        assert(step =~= Seq::<ErrorKindView>::empty());
                                        assert(before + (step + rest) =~= before + rest);
                                    }
                                },
                                other => {
                                    let e = ErrorKind::SchemaTypeMismatch {
                                        field: key.to_owned(),
                                        expected: Shape::Entity,
                                        actual: other.kind(),
                                    };
                                    let ghost ee = e@;
                                    errs.push(e);
                                    proof {
                                        assert(errs.deep_view() =~= before + seq![ee]);
                                        assert(step =~= seq![ee]);
                                        assert((before + seq![ee]) + rest =~= before + (step
                                            + rest));
                                    }
                                },
                            }
                            j = j + 1;
                        }
                        proof {
                            assert(elems_errors(key@, iv, items@.len() as int)
                                =~= Seq::<ErrorKindView>::empty());
                            assert(errs.deep_view() + Seq::<ErrorKindView>::empty()
                                =~= errs.deep_view());
                            assert(errs.deep_view() =~= base + fe);
                        }
                    },
                    _ => {
                        let e = ErrorKind::SchemaTypeMismatch {
                            field: key.to_owned(),
                            expected: Shape::EntityList,
                            actual: v.kind(),
                        };
                        errs.push(e);
                        proof {
                            assert(errs.deep_view() =~= base + fe);
                        }
                    },
                },
            }
        },
    }
}

} // verus!
