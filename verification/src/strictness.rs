//! What the decoder guarantees of every document: that the schema is
//! closed, that required members are required, and that what decodes is a
//! pair of mappings.

use vstd::prelude::*;
use crate::json::Json;
use crate::scan::{lemma_first_some_exists, lemma_first_some_none};
use crate::schema::{
    decoded_document, decoded_project, decoded_projects, decoded_sources, document_fault_at,
    is_document_field, is_project_field, keys_distinct, lemma_document_fields_differ,
    lemma_member_value_in_some, lemma_member_value_index, project_fault_at,
    projects_fault_at, source_fault_at,
};

verus! {

/// Whether an object has a member of that name.
pub open spec fn has_member(members: Seq<(String, Json)>, name: Seq<char>) -> bool {
    exists|i: int| 0 <= i < members.len() && (#[trigger] members[i]).0@ == name
}

/// Whether a value is a project object with a member that the schema of a
/// project does not know.
pub open spec fn has_unknown_project_field(project: Json) -> bool {
    project matches Json::Object(fields) && exists|k: int|
        0 <= k < fields@.len() && !is_project_field((#[trigger] fields@[k]).0@)
}

/// Whether a value is an object of projects, one of which has a member that
/// the schema does not know.
pub open spec fn holds_unknown_project_field(projects: Json) -> bool {
    projects matches Json::Object(entries) && exists|p: int|
        0 <= p < entries@.len() && has_unknown_project_field((#[trigger] entries@[p]).1)
}

/// Whether a document has a member that the schema does not know, at the
/// top level or in one of its projects.
pub open spec fn has_unknown_field(document: Json) -> bool {
    document matches Json::Object(members) && exists|i: int|
        0 <= i < members@.len() && (!is_document_field((#[trigger] members@[i]).0@) || (
        members@[i].0@ == "projects"@ && holds_unknown_project_field(members@[i].1)))
}

/// Whether a value is a project object without the member `schema`.
pub open spec fn lacks_schema(project: Json) -> bool {
    project matches Json::Object(fields) && !has_member(fields@, "schema"@)
}

/// Whether a value is an object of projects, one of which has no `schema`.
pub open spec fn holds_project_without_schema(projects: Json) -> bool {
    projects matches Json::Object(entries) && exists|p: int|
        0 <= p < entries@.len() && lacks_schema((#[trigger] entries@[p]).1)
}

/// Whether a document lacks a required member: `sources` or `projects` at
/// the top level, or `schema` in one of its projects.
pub open spec fn lacks_required_field(document: Json) -> bool {
    document matches Json::Object(members) && (!has_member(members@, "sources"@) || !has_member(
        members@,
        "projects"@,
    ) || exists|i: int|
        0 <= i < members@.len() && (#[trigger] members@[i]).0@ == "projects"@
            && holds_project_without_schema(members@[i].1))
}

/// A project with a member outside the schema does not decode.
pub proof fn lemma_unknown_project_field_is_rejected(project: Json, name: Seq<char>)
    requires
        has_unknown_project_field(project),
    ensures
        decoded_project(project, name) is Err,
{
    let fields = project->Object_0@;
    let k = choose|k: int| 0 <= k < fields.len() && !is_project_field((#[trigger] fields[k]).0@);
    lemma_first_some_exists(|i: int| project_fault_at(fields, i), fields.len(), k);
}

/// A project without `schema` does not decode.
pub proof fn lemma_project_without_schema_is_rejected(project: Json, name: Seq<char>)
    requires
        lacks_schema(project),
    ensures
        decoded_project(project, name) is Err,
{
    let fields = project->Object_0@;
    lemma_member_value_in_some(fields, "schema"@, fields.len());
}

/// An object of projects does not decode where one of them does not.
pub proof fn lemma_faulty_project_is_rejected(projects: Json, p: int)
    requires
        projects is Object,
        0 <= p < projects->Object_0@.len(),
        decoded_project(projects->Object_0@[p].1, projects->Object_0@[p].0@) is Err,
    ensures
        decoded_projects(projects) is Err,
{
    let entries = projects->Object_0@;
    lemma_first_some_exists(|i: int| projects_fault_at(entries, i), entries.len(), p);
}

/// A document does not decode where the value of a member called
/// `projects` does not decode as the projects.
pub proof fn lemma_faulty_projects_are_rejected(document: Json, i: int)
    requires
        document is Object,
        0 <= i < document->Object_0@.len(),
        document->Object_0@[i].0@ == "projects"@,
        decoded_projects(document->Object_0@[i].1) is Err,
    ensures
        decoded_document(document) is Err,
{
    let members = document->Object_0@;
    lemma_document_fields_differ();
    lemma_first_some_exists(|k: int| document_fault_at(members, k), members.len(), i);
}

/// The schema is closed: a document with a member that the schema does not
/// know, at the top level or in a project, does not decode.
pub proof fn lemma_unknown_field_is_rejected(document: Json)
    requires
        has_unknown_field(document),
    ensures
        decoded_document(document) is Err,
{
    let members = document->Object_0@;
    let i = choose|i: int|
        0 <= i < members.len() && (!is_document_field((#[trigger] members[i]).0@) || (
        members[i].0@ == "projects"@ && holds_unknown_project_field(members[i].1)));
    if !is_document_field(members[i].0@) {
        lemma_first_some_exists(|k: int| document_fault_at(members, k), members.len(), i);
    } else {
        let projects = members[i].1;
        let entries = projects->Object_0@;
        let p = choose|p: int|
            0 <= p < entries.len() && has_unknown_project_field((#[trigger] entries[p]).1);
        lemma_unknown_project_field_is_rejected(entries[p].1, entries[p].0@);
        lemma_faulty_project_is_rejected(projects, p);
        lemma_faulty_projects_are_rejected(document, i);
    }
}

/// Required members are required: a document without `sources` or
/// `projects`, or with a project without `schema`, does not decode.
pub proof fn lemma_missing_field_is_rejected(document: Json)
    requires
        lacks_required_field(document),
    ensures
        decoded_document(document) is Err,
{
    let members = document->Object_0@;
    lemma_member_value_in_some(members, "sources"@, members.len());
    lemma_member_value_in_some(members, "projects"@, members.len());
    if has_member(members, "sources"@) && has_member(members, "projects"@) {
        let i = choose|i: int|
            0 <= i < members.len() && (#[trigger] members[i]).0@ == "projects"@
                && holds_project_without_schema(members[i].1);
        let projects = members[i].1;
        let entries = projects->Object_0@;
        let p = choose|p: int| 0 <= p < entries.len() && lacks_schema((#[trigger] entries[p]).1);
        lemma_project_without_schema_is_rejected(entries[p].1, entries[p].0@);
        lemma_faulty_project_is_rejected(projects, p);
        lemma_faulty_projects_are_rejected(document, i);
    }
}

/// The source directories that decode are a mapping: none stands twice.
pub proof fn lemma_decoded_sources_distinct(sources: Json)
    requires
        decoded_sources(sources) is Ok,
    ensures
        keys_distinct(decoded_sources(sources)->Ok_0),
{
    let members = sources->Object_0@;
    let decoded = decoded_sources(sources)->Ok_0;
    assert forall|i: int, j: int| 0 <= i < j < decoded.len() implies (#[trigger] decoded[i]).0 != (
    #[trigger] decoded[j]).0 by {
        lemma_first_some_none(|k: int| source_fault_at(members, k), members.len(), j);
    }
}

/// The projects that decode are a mapping: no name stands twice.
pub proof fn lemma_decoded_projects_distinct(projects: Json)
    requires
        decoded_projects(projects) is Ok,
    ensures
        keys_distinct(decoded_projects(projects)->Ok_0),
{
    let members = projects->Object_0@;
    let decoded = decoded_projects(projects)->Ok_0;
    assert forall|i: int, j: int| 0 <= i < j < decoded.len() implies (#[trigger] decoded[i]).0 != (
    #[trigger] decoded[j]).0 by {
        lemma_first_some_none(|k: int| projects_fault_at(members, k), members.len(), j);
    }
}

/// A document that decodes is well formed.
pub proof fn lemma_decoded_document_well_formed(document: Json)
    requires
        decoded_document(document) is Ok,
    ensures
        decoded_document(document)->Ok_0.well_formed(),
{
    let members = document->Object_0@;
    let fault_at = |k: int| document_fault_at(members, k);
    lemma_document_fields_differ();
    let s = lemma_member_value_index(members, "sources"@);
    lemma_first_some_none(fault_at, members.len(), s);
    lemma_decoded_sources_distinct(members[s].1);
    let p = lemma_member_value_index(members, "projects"@);
    lemma_first_some_none(fault_at, members.len(), p);
    lemma_decoded_projects_distinct(members[p].1);
}

} // verus!
