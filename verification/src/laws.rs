//! General properties of the accessor and validation protocol, stated and
//! proved once for every field.

use vstd::prelude::*;

use crate::engine::{
    bool_field_spec, entity_field_spec, entity_list_field_spec, field_errors, status_field_spec,
    str_field_spec,
};
use crate::error::{mismatch, unrecognized, ErrorKindView, Shape};
use crate::node::{get_field, NodeView};
use crate::status::{spec_status_from, TestScriptStatus};
use crate::test_script::test_script_errors;

verus! {

/// A document that lacks a key reads as "no value" at that key, whatever
/// shape the field declares, and the field contributes no validation
/// error. Absence is never an error.
pub proof fn lemma_absent_field_reads_no_value(n: NodeView, key: Seq<char>, shape: Shape)
    requires
        get_field(n, key) is None,
    ensures
        str_field_spec(n, key) == Ok::<Option<Seq<char>>, ErrorKindView>(None),
        bool_field_spec(n, key) == Ok::<Option<bool>, ErrorKindView>(None),
        status_field_spec(n, key) == Ok::<Option<TestScriptStatus>, ErrorKindView>(None),
        entity_field_spec(n, key) is None,
        entity_list_field_spec(n, key) == Ok::<Option<Seq<NodeView>>, ErrorKindView>(None),
        field_errors(n, key, shape) =~= Seq::<ErrorKindView>::empty(),
{
}

/// What a field reads as is determined by its own key's binding alone: two
/// documents that bind `key` alike read alike at `key`, whatever their
/// other entries hold. In particular an extension-annotation field `_f`
/// resolves independently of its sibling primitive field `f`.
pub proof fn lemma_field_access_independent(
    n1: NodeView,
    n2: NodeView,
    key: Seq<char>,
    shape: Shape,
)
    requires
        get_field(n1, key) == get_field(n2, key),
    ensures
        str_field_spec(n1, key) == str_field_spec(n2, key),
        bool_field_spec(n1, key) == bool_field_spec(n2, key),
        status_field_spec(n1, key) == status_field_spec(n2, key),
        entity_field_spec(n1, key) == entity_field_spec(n2, key),
        entity_list_field_spec(n1, key) == entity_list_field_spec(n2, key),
        field_errors(n1, key, shape) == field_errors(n2, key, shape),
{
}

/// A primitive or enumerated field reads successfully exactly when
/// validation contributes no error for it.
pub proof fn lemma_read_ok_iff_no_error(n: NodeView, key: Seq<char>)
    ensures
        str_field_spec(n, key) is Ok <==> field_errors(n, key, Shape::Str)
            =~= Seq::<ErrorKindView>::empty(),
        bool_field_spec(n, key) is Ok <==> field_errors(n, key, Shape::Bool)
            =~= Seq::<ErrorKindView>::empty(),
        status_field_spec(n, key) is Ok <==> field_errors(n, key, Shape::Code)
            =~= Seq::<ErrorKindView>::empty(),
{
    match get_field(n, key) {
        None => {
        },
        Some(v) => {
            assert(field_errors(n, key, Shape::Str).len() == if v is Str {
                0int
            } else {
                1int
            });
            assert(field_errors(n, key, Shape::Bool).len() == if v is Bool {
                0int
            } else {
                1int
            });
            match v {
                NodeView::Str(s) => {
                    assert(field_errors(n, key, Shape::Code).len() == if spec_status_from(s)
                        is Some {
                        0int
                    } else {
                        1int
                    });
                },
                _ => {
                    assert(field_errors(n, key, Shape::Code).len() == 1);
                },
            }
        },
    }
}

/// Malformed enumerated input surfaces a typed error instead of aborting:
/// a status field holding a non-string reads as a schema-type mismatch,
/// and a string outside the closed tag set reads as an unrecognized enum
/// value, naming the offending string.
pub proof fn lemma_malformed_status(n: NodeView, key: Seq<char>)
    ensures
        (match get_field(n, key) {
            Some(v) => !(v is Str) ==> status_field_spec(n, key) == Err::<
                Option<TestScriptStatus>,
                ErrorKindView,
            >(mismatch(key, Shape::Code, v.kind())),
            None => true,
        }),
        (match get_field(n, key) {
            Some(NodeView::Str(s)) => spec_status_from(s) is None ==> status_field_spec(n, key)
                == Err::<Option<TestScriptStatus>, ErrorKindView>(unrecognized(key, s)),
            _ => true,
        }),
{
}


/// A validation walk that reports nothing is a guarantee for the reader:
/// every primitive and enumerated field of the entity then reads
/// successfully (as "no value" or as a well-shaped value), so no accessor
/// can surface an error afterwards.
pub proof fn lemma_clean_validate_reads_ok(n: NodeView)
    requires
        test_script_errors(n).len() == 0,
    ensures
        str_field_spec(n, "description"@) is Ok,
        str_field_spec(n, "id"@) is Ok,
        str_field_spec(n, "name"@) is Ok,
        str_field_spec(n, "implicitRules"@) is Ok,
        str_field_spec(n, "version"@) is Ok,
        str_field_spec(n, "language"@) is Ok,
        str_field_spec(n, "purpose"@) is Ok,
        str_field_spec(n, "copyright"@) is Ok,
        str_field_spec(n, "date"@) is Ok,
        str_field_spec(n, "title"@) is Ok,
        str_field_spec(n, "url"@) is Ok,
        str_field_spec(n, "publisher"@) is Ok,
        bool_field_spec(n, "experimental"@) is Ok,
        status_field_spec(n, "status"@) is Ok,
{
    assert(field_errors(n, "description"@, Shape::Str).len() == 0);
    assert(field_errors(n, "description"@, Shape::Str) =~= Seq::<ErrorKindView>::empty());
    lemma_read_ok_iff_no_error(n, "description"@);
    assert(field_errors(n, "id"@, Shape::Str).len() == 0);
    assert(field_errors(n, "id"@, Shape::Str) =~= Seq::<ErrorKindView>::empty());
    lemma_read_ok_iff_no_error(n, "id"@);
    assert(field_errors(n, "name"@, Shape::Str).len() == 0);
    assert(field_errors(n, "name"@, Shape::Str) =~= Seq::<ErrorKindView>::empty());
    lemma_read_ok_iff_no_error(n, "name"@);
    assert(field_errors(n, "implicitRules"@, Shape::Str).len() == 0);
    assert(field_errors(n, "implicitRules"@, Shape::Str) =~= Seq::<ErrorKindView>::empty());
    lemma_read_ok_iff_no_error(n, "implicitRules"@);
    assert(field_errors(n, "version"@, Shape::Str).len() == 0);
    assert(field_errors(n, "version"@, Shape::Str) =~= Seq::<ErrorKindView>::empty());
    lemma_read_ok_iff_no_error(n, "version"@);
    assert(field_errors(n, "language"@, Shape::Str).len() == 0);
    assert(field_errors(n, "language"@, Shape::Str) =~= Seq::<ErrorKindView>::empty());
    lemma_read_ok_iff_no_error(n, "language"@);
    assert(field_errors(n, "purpose"@, Shape::Str).len() == 0);
    assert(field_errors(n, "purpose"@, Shape::Str) =~= Seq::<ErrorKindView>::empty());
    lemma_read_ok_iff_no_error(n, "purpose"@);
    assert(field_errors(n, "copyright"@, Shape::Str).len() == 0);
    assert(field_errors(n, "copyright"@, Shape::Str) =~= Seq::<ErrorKindView>::empty());
    lemma_read_ok_iff_no_error(n, "copyright"@);
    assert(field_errors(n, "date"@, Shape::Str).len() == 0);
    assert(field_errors(n, "date"@, Shape::Str) =~= Seq::<ErrorKindView>::empty());
    lemma_read_ok_iff_no_error(n, "date"@);
    assert(field_errors(n, "title"@, Shape::Str).len() == 0);
    assert(field_errors(n, "title"@, Shape::Str) =~= Seq::<ErrorKindView>::empty());
    lemma_read_ok_iff_no_error(n, "title"@);
    assert(field_errors(n, "url"@, Shape::Str).len() == 0);
    assert(field_errors(n, "url"@, Shape::Str) =~= Seq::<ErrorKindView>::empty());
    lemma_read_ok_iff_no_error(n, "url"@);
    assert(field_errors(n, "publisher"@, Shape::Str).len() == 0);
    assert(field_errors(n, "publisher"@, Shape::Str) =~= Seq::<ErrorKindView>::empty());
    lemma_read_ok_iff_no_error(n, "publisher"@);
    assert(field_errors(n, "experimental"@, Shape::Bool).len() == 0);
    assert(field_errors(n, "experimental"@, Shape::Bool) =~= Seq::<ErrorKindView>::empty());
    lemma_read_ok_iff_no_error(n, "experimental"@);
    assert(field_errors(n, "status"@, Shape::Code).len() == 0);
    assert(field_errors(n, "status"@, Shape::Code) =~= Seq::<ErrorKindView>::empty());
    lemma_read_ok_iff_no_error(n, "status"@);
}

} // verus!
