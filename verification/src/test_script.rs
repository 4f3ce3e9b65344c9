//! The typed view for the test-script schema entity.
//!
//! A structured set of tests against a server or client implementation to
//! determine compliance against a structured-data standard.

use vstd::prelude::*;

use crate::engine::{
    bool_field, bool_field_matches, check_field, entity_field, entity_field_matches,
    entity_list_field, entity_list_matches, field_errors, status_field, status_field_matches,
    str_field, str_field_matches, EntityView,
};
use crate::error::{ErrorKind, ErrorKindView, Shape};
use crate::node::{Node, NodeView};
use crate::status::TestScriptStatus;

verus! {

/// Every validation error contributed by the entity's fields, in field
/// order: absent fields contribute nothing; each present field is checked
/// against its declared shape (and, for `status`, its closed tag set).
pub open spec fn test_script_errors(n: NodeView) -> Seq<ErrorKindView> {
        field_errors(n, "description"@, Shape::Str)
        + field_errors(n, "_description"@, Shape::Entity)
        + field_errors(n, "text"@, Shape::Entity)
        + field_errors(n, "contained"@, Shape::EntityList)
        + field_errors(n, "variable"@, Shape::EntityList)
        + field_errors(n, "_url"@, Shape::Entity)
        + field_errors(n, "metadata"@, Shape::Entity)
        + field_errors(n, "destination"@, Shape::EntityList)
        + field_errors(n, "extension"@, Shape::EntityList)
        + field_errors(n, "id"@, Shape::Str)
        + field_errors(n, "_implicitRules"@, Shape::Entity)
        + field_errors(n, "name"@, Shape::Str)
        + field_errors(n, "implicitRules"@, Shape::Str)
        + field_errors(n, "version"@, Shape::Str)
        + field_errors(n, "_title"@, Shape::Entity)
        + field_errors(n, "_date"@, Shape::Entity)
        + field_errors(n, "profile"@, Shape::EntityList)
        + field_errors(n, "language"@, Shape::Str)
        + field_errors(n, "modifierExtension"@, Shape::EntityList)
        + field_errors(n, "purpose"@, Shape::Str)
        + field_errors(n, "copyright"@, Shape::Str)
        + field_errors(n, "date"@, Shape::Str)
        + field_errors(n, "_purpose"@, Shape::Entity)
        + field_errors(n, "identifier"@, Shape::Entity)
        + field_errors(n, "status"@, Shape::Code)
        + field_errors(n, "_name"@, Shape::Entity)
        + field_errors(n, "title"@, Shape::Str)
        + field_errors(n, "url"@, Shape::Str)
        + field_errors(n, "_language"@, Shape::Entity)
        + field_errors(n, "_status"@, Shape::Entity)
        + field_errors(n, "_copyright"@, Shape::Entity)
        + field_errors(n, "contact"@, Shape::EntityList)
        + field_errors(n, "origin"@, Shape::EntityList)
        + field_errors(n, "teardown"@, Shape::Entity)
        + field_errors(n, "test"@, Shape::EntityList)
        + field_errors(n, "meta"@, Shape::Entity)
        + field_errors(n, "_publisher"@, Shape::Entity)
        + field_errors(n, "jurisdiction"@, Shape::EntityList)
        + field_errors(n, "_version"@, Shape::Entity)
        + field_errors(n, "useContext"@, Shape::EntityList)
        + field_errors(n, "experimental"@, Shape::Bool)
        + field_errors(n, "_experimental"@, Shape::Entity)
        + field_errors(n, "fixture"@, Shape::EntityList)
        + field_errors(n, "setup"@, Shape::Entity)
        + field_errors(n, "publisher"@, Shape::Str)
}

/// A non-owning, read-only view of one document node as a test-script
/// entity. The document outlives the view; several views may share one
/// node.
#[derive(Debug, Clone, Copy)]
pub struct TestScript<'a> {
    pub value: &'a Node,
}

impl<'a> TestScript<'a> {
    /// A free text natural language description of the test script from a consumer's perspective.
    pub fn description(&self) -> (r: Result<Option<&'a str>, ErrorKind>)
        ensures
            str_field_matches(self.value@, "description"@, r),
    {
        str_field(self.value, "description")
    }
    /// Extension annotations for `description`.
    pub fn _description(&self) -> (r: Option<EntityView<'a>>)
        ensures
            entity_field_matches(self.value@, "_description"@, r),
    {
        entity_field(self.value, "_description")
    }
    /// A human-readable narrative summarizing the resource.
    pub fn text(&self) -> (r: Option<EntityView<'a>>)
        ensures
            entity_field_matches(self.value@, "text"@, r),
    {
        entity_field(self.value, "text")
    }
    /// Resources contained in this resource, with no independent existence.
    pub fn contained(&self) -> (r: Result<Option<Vec<EntityView<'a>>>, ErrorKind>)
        ensures
            entity_list_matches(self.value@, "contained"@, r),
    {
        entity_list_field(self.value, "contained")
    }
    /// Variables set from response bodies or response headers.
    pub fn variable(&self) -> (r: Result<Option<Vec<EntityView<'a>>>, ErrorKind>)
        ensures
            entity_list_matches(self.value@, "variable"@, r),
    {
        entity_list_field(self.value, "variable")
    }
    /// Extension annotations for `url`.
    pub fn _url(&self) -> (r: Option<EntityView<'a>>)
        ensures
            entity_field_matches(self.value@, "_url"@, r),
    {
        entity_field(self.value, "_url")
    }
    /// The required capabilities, assumed to function on the server being tested.
    pub fn metadata(&self) -> (r: Option<EntityView<'a>>)
        ensures
            entity_field_matches(self.value@, "metadata"@, r),
    {
        entity_field(self.value, "metadata")
    }
    /// Abstract servers used in operations as destinations.
    pub fn destination(&self) -> (r: Result<Option<Vec<EntityView<'a>>>, ErrorKind>)
        ensures
            entity_list_matches(self.value@, "destination"@, r),
    {
        entity_list_field(self.value, "destination")
    }
    /// Additional information that is not part of the basic definition.
    pub fn extension(&self) -> (r: Result<Option<Vec<EntityView<'a>>>, ErrorKind>)
        ensures
            entity_list_matches(self.value@, "extension"@, r),
    {
        entity_list_field(self.value, "extension")
    }
    /// The logical id of the resource, as used in its URL; never changes once assigned.
    pub fn id(&self) -> (r: Result<Option<&'a str>, ErrorKind>)
        ensures
            str_field_matches(self.value@, "id"@, r),
    {
        str_field(self.value, "id")
    }
    /// Extension annotations for `implicitRules`.
    pub fn _implicit_rules(&self) -> (r: Option<EntityView<'a>>)
        ensures
            entity_field_matches(self.value@, "_implicitRules"@, r),
    {
        entity_field(self.value, "_implicitRules")
    }
    /// A natural language name identifying the test script, usable as a machine identifier.
    pub fn name(&self) -> (r: Result<Option<&'a str>, ErrorKind>)
        ensures
            str_field_matches(self.value@, "name"@, r),
    {
        str_field(self.value, "name")
    }
    /// A reference to the set of rules followed when the resource was constructed.
    pub fn implicit_rules(&self) -> (r: Result<Option<&'a str>, ErrorKind>)
        ensures
            str_field_matches(self.value@, "implicitRules"@, r),
    {
        str_field(self.value, "implicitRules")
    }
    /// The business version of the test script.
    pub fn version(&self) -> (r: Result<Option<&'a str>, ErrorKind>)
        ensures
            str_field_matches(self.value@, "version"@, r),
    {
        str_field(self.value, "version")
    }
    /// Extension annotations for `title`.
    pub fn _title(&self) -> (r: Option<EntityView<'a>>)
        ensures
            entity_field_matches(self.value@, "_title"@, r),
    {
        entity_field(self.value, "_title")
    }
    /// Extension annotations for `date`.
    pub fn _date(&self) -> (r: Option<EntityView<'a>>)
        ensures
            entity_field_matches(self.value@, "_date"@, r),
    {
        entity_field(self.value, "_date")
    }
    /// References to the profiles to be used for validation.
    pub fn profile(&self) -> (r: Result<Option<Vec<EntityView<'a>>>, ErrorKind>)
        ensures
            entity_list_matches(self.value@, "profile"@, r),
    {
        entity_list_field(self.value, "profile")
    }
    /// The base language in which the resource is written.
    pub fn language(&self) -> (r: Result<Option<&'a str>, ErrorKind>)
        ensures
            str_field_matches(self.value@, "language"@, r),
    {
        str_field(self.value, "language")
    }
    /// Extensions that modify the understanding of the containing element.
    pub fn modifier_extension(&self) -> (r: Result<Option<Vec<EntityView<'a>>>, ErrorKind>)
        ensures
            entity_list_matches(self.value@, "modifierExtension"@, r),
    {
        entity_list_field(self.value, "modifierExtension")
    }
    /// Explanation of why this test script is needed.
    pub fn purpose(&self) -> (r: Result<Option<&'a str>, ErrorKind>)
        ensures
            str_field_matches(self.value@, "purpose"@, r),
    {
        str_field(self.value, "purpose")
    }
    /// A copyright statement relating to the test script.
    pub fn copyright(&self) -> (r: Result<Option<&'a str>, ErrorKind>)
        ensures
            str_field_matches(self.value@, "copyright"@, r),
    {
        str_field(self.value, "copyright")
    }
    /// The date (and optionally time) when the test script was published.
    pub fn date(&self) -> (r: Result<Option<&'a str>, ErrorKind>)
        ensures
            str_field_matches(self.value@, "date"@, r),
    {
        str_field(self.value, "date")
    }
    /// Extension annotations for `purpose`.
    pub fn _purpose(&self) -> (r: Option<EntityView<'a>>)
        ensures
            entity_field_matches(self.value@, "_purpose"@, r),
    {
        entity_field(self.value, "_purpose")
    }
    /// A formal identifier for this test script in other formats or references.
    pub fn identifier(&self) -> (r: Option<EntityView<'a>>)
        ensures
            entity_field_matches(self.value@, "identifier"@, r),
    {
        entity_field(self.value, "identifier")
    }
    /// The status of this test script; tracks the life-cycle of the content.
    pub fn status(&self) -> (r: Result<Option<TestScriptStatus>, ErrorKind>)
        ensures
            status_field_matches(self.value@, "status"@, r),
    {
        status_field(self.value, "status")
    }
    /// Extension annotations for `name`.
    pub fn _name(&self) -> (r: Option<EntityView<'a>>)
        ensures
            entity_field_matches(self.value@, "_name"@, r),
    {
        entity_field(self.value, "_name")
    }
    /// A short, descriptive, user-friendly title for the test script.
    pub fn title(&self) -> (r: Result<Option<&'a str>, ErrorKind>)
        ensures
            str_field_matches(self.value@, "title"@, r),
    {
        str_field(self.value, "title")
    }
    /// An absolute URI identifying this test script; its canonical identifier.
    pub fn url(&self) -> (r: Result<Option<&'a str>, ErrorKind>)
        ensures
            str_field_matches(self.value@, "url"@, r),
    {
        str_field(self.value, "url")
    }
    /// Extension annotations for `language`.
    pub fn _language(&self) -> (r: Option<EntityView<'a>>)
        ensures
            entity_field_matches(self.value@, "_language"@, r),
    {
        entity_field(self.value, "_language")
    }
    /// Extension annotations for `status`.
    pub fn _status(&self) -> (r: Option<EntityView<'a>>)
        ensures
            entity_field_matches(self.value@, "_status"@, r),
    {
        entity_field(self.value, "_status")
    }
    /// Extension annotations for `copyright`.
    pub fn _copyright(&self) -> (r: Option<EntityView<'a>>)
        ensures
            entity_field_matches(self.value@, "_copyright"@, r),
    {
        entity_field(self.value, "_copyright")
    }
    /// Contact details to assist a user in finding and communicating with the publisher.
    pub fn contact(&self) -> (r: Result<Option<Vec<EntityView<'a>>>, ErrorKind>)
        ensures
            entity_list_matches(self.value@, "contact"@, r),
    {
        entity_list_field(self.value, "contact")
    }
    /// Abstract servers used in operations as origins.
    pub fn origin(&self) -> (r: Result<Option<Vec<EntityView<'a>>>, ErrorKind>)
        ensures
            entity_list_matches(self.value@, "origin"@, r),
    {
        entity_list_field(self.value, "origin")
    }
    /// Operations required to clean up after all tests are executed.
    pub fn teardown(&self) -> (r: Option<EntityView<'a>>)
        ensures
            entity_field_matches(self.value@, "teardown"@, r),
    {
        entity_field(self.value, "teardown")
    }
    /// The tests in this script.
    pub fn test(&self) -> (r: Result<Option<Vec<EntityView<'a>>>, ErrorKind>)
        ensures
            entity_list_matches(self.value@, "test"@, r),
    {
        entity_list_field(self.value, "test")
    }
    /// Metadata about the resource, maintained by the infrastructure.
    pub fn meta(&self) -> (r: Option<EntityView<'a>>)
        ensures
            entity_field_matches(self.value@, "meta"@, r),
    {
        entity_field(self.value, "meta")
    }
    /// Extension annotations for `publisher`.
    pub fn _publisher(&self) -> (r: Option<EntityView<'a>>)
        ensures
            entity_field_matches(self.value@, "_publisher"@, r),
    {
        entity_field(self.value, "_publisher")
    }
    /// Legal or geographic regions in which the test script is intended to be used.
    pub fn jurisdiction(&self) -> (r: Result<Option<Vec<EntityView<'a>>>, ErrorKind>)
        ensures
            entity_list_matches(self.value@, "jurisdiction"@, r),
    {
        entity_list_field(self.value, "jurisdiction")
    }
    /// Extension annotations for `version`.
    pub fn _version(&self) -> (r: Option<EntityView<'a>>)
        ensures
            entity_field_matches(self.value@, "_version"@, r),
    {
        entity_field(self.value, "_version")
    }
    /// The contexts the content was developed to support.
    pub fn use_context(&self) -> (r: Result<Option<Vec<EntityView<'a>>>, ErrorKind>)
        ensures
            entity_list_matches(self.value@, "useContext"@, r),
    {
        entity_list_field(self.value, "useContext")
    }
    /// Whether this test script is authored for testing purposes only.
    pub fn experimental(&self) -> (r: Result<Option<bool>, ErrorKind>)
        ensures
            bool_field_matches(self.value@, "experimental"@, r),
    {
        bool_field(self.value, "experimental")
    }
    /// Extension annotations for `experimental`.
    pub fn _experimental(&self) -> (r: Option<EntityView<'a>>)
        ensures
            entity_field_matches(self.value@, "_experimental"@, r),
    {
        entity_field(self.value, "_experimental")
    }
    /// Fixtures required for the test script to execute, by reference.
    pub fn fixture(&self) -> (r: Result<Option<Vec<EntityView<'a>>>, ErrorKind>)
        ensures
            entity_list_matches(self.value@, "fixture"@, r),
    {
        entity_list_field(self.value, "fixture")
    }
    /// Operations required before the tests are executed.
    pub fn setup(&self) -> (r: Option<EntityView<'a>>)
        ensures
            entity_field_matches(self.value@, "setup"@, r),
    {
        entity_field(self.value, "setup")
    }
    /// The name of the organization or individual that published the test script.
    pub fn publisher(&self) -> (r: Result<Option<&'a str>, ErrorKind>)
        ensures
            str_field_matches(self.value@, "publisher"@, r),
    {
        str_field(self.value, "publisher")
    }
    /// Walks every declared field of this entity and returns every shape
    /// violation found, in field order; an empty result means the document
    /// is well-shaped for this entity. Absent fields are not errors.
    #[verifier::rlimit(30)]
    pub fn validate(&self) -> (errs: Vec<ErrorKind>)
        ensures
            errs.deep_view() == test_script_errors(self.value@),
    {
        let mut errs: Vec<ErrorKind> = Vec::new();
        proof {
            assert(errs.deep_view() =~= Seq::<ErrorKindView>::empty());
        }
        check_field(self.value, "description", Shape::Str, &mut errs);
        proof {
            assert(Seq::<ErrorKindView>::empty() + field_errors(self.value@, "description"@, Shape::Str) =~= field_errors(self.value@, "description"@, Shape::Str));
        }
        check_field(self.value, "_description", Shape::Entity, &mut errs);
        check_field(self.value, "text", Shape::Entity, &mut errs);
        check_field(self.value, "contained", Shape::EntityList, &mut errs);
        check_field(self.value, "variable", Shape::EntityList, &mut errs);
        check_field(self.value, "_url", Shape::Entity, &mut errs);
        check_field(self.value, "metadata", Shape::Entity, &mut errs);
        check_field(self.value, "destination", Shape::EntityList, &mut errs);
        check_field(self.value, "extension", Shape::EntityList, &mut errs);
        check_field(self.value, "id", Shape::Str, &mut errs);
        check_field(self.value, "_implicitRules", Shape::Entity, &mut errs);
        check_field(self.value, "name", Shape::Str, &mut errs);
        check_field(self.value, "implicitRules", Shape::Str, &mut errs);
        check_field(self.value, "version", Shape::Str, &mut errs);
        check_field(self.value, "_title", Shape::Entity, &mut errs);
        check_field(self.value, "_date", Shape::Entity, &mut errs);
        check_field(self.value, "profile", Shape::EntityList, &mut errs);
        check_field(self.value, "language", Shape::Str, &mut errs);
        check_field(self.value, "modifierExtension", Shape::EntityList, &mut errs);
        check_field(self.value, "purpose", Shape::Str, &mut errs);
        check_field(self.value, "copyright", Shape::Str, &mut errs);
        check_field(self.value, "date", Shape::Str, &mut errs);
        check_field(self.value, "_purpose", Shape::Entity, &mut errs);
        check_field(self.value, "identifier", Shape::Entity, &mut errs);
        check_field(self.value, "status", Shape::Code, &mut errs);
        check_field(self.value, "_name", Shape::Entity, &mut errs);
        check_field(self.value, "title", Shape::Str, &mut errs);
        check_field(self.value, "url", Shape::Str, &mut errs);
        check_field(self.value, "_language", Shape::Entity, &mut errs);
        check_field(self.value, "_status", Shape::Entity, &mut errs);
        check_field(self.value, "_copyright", Shape::Entity, &mut errs);
        check_field(self.value, "contact", Shape::EntityList, &mut errs);
        check_field(self.value, "origin", Shape::EntityList, &mut errs);
        check_field(self.value, "teardown", Shape::Entity, &mut errs);
        check_field(self.value, "test", Shape::EntityList, &mut errs);
        check_field(self.value, "meta", Shape::Entity, &mut errs);
        check_field(self.value, "_publisher", Shape::Entity, &mut errs);
        check_field(self.value, "jurisdiction", Shape::EntityList, &mut errs);
        check_field(self.value, "_version", Shape::Entity, &mut errs);
        check_field(self.value, "useContext", Shape::EntityList, &mut errs);
        check_field(self.value, "experimental", Shape::Bool, &mut errs);
        check_field(self.value, "_experimental", Shape::Entity, &mut errs);
        check_field(self.value, "fixture", Shape::EntityList, &mut errs);
        check_field(self.value, "setup", Shape::Entity, &mut errs);
        check_field(self.value, "publisher", Shape::Str, &mut errs);
        proof {
            assert(errs.deep_view() =~= test_script_errors(self.value@));
        }
        errs
    }
}

} // verus!
