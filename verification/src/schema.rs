//! The schema of a configuration document: what a JSON value means as a
//! configuration.
//!
//! A document is a JSON object with the members `sources`, `blacklist` and
//! `projects`; a project is an object with the members `base`, `output`,
//! `extensions` and `schema`. The schema is closed: a member of any other
//! name is a fault, and so is a member that stands twice, a value of the
//! wrong type, and a required member that is absent.
//!
//! A member that stands twice is a fault of a [`Json`] value. The parser
//! keeps only the last of the members of one name that a text holds, so a
//! name repeated in a text is not seen here, and `DuplicateField` arises
//! only for a value that was built by hand.

use vstd::prelude::*;
use crate::errors::{ParseFault, SchemaFault};
use crate::json::{json_text_value, Json};
use crate::scan::{first_some, lemma_first_some_index, lemma_first_some_none};

verus! {

/// One project of a configuration document.
#[derive(Debug, PartialEq, Eq)]
pub struct ConfigProject {
    /// Source sets that the project may read but produces no output for;
    /// another project has to produce them.
    pub base: Vec<String>,
    /// Where generated files go. Without it they are written next to each
    /// input file, in a directory reserved for generated files.
    pub output: Option<String>,
    /// Directories that hold schema extensions.
    pub extensions: Vec<String>,
    /// Path to the project's schema.
    pub schema: String,
}

/// The mathematical content of a [`ConfigProject`].
pub struct ProjectModel {
    pub base: Seq<Seq<char>>,
    pub output: Option<Seq<char>>,
    pub extensions: Seq<Seq<char>>,
    pub schema: Seq<char>,
}

impl View for ConfigProject {
    type V = ProjectModel;

    open spec fn view(&self) -> ProjectModel {
        ProjectModel {
            base: self.base.deep_view(),
            output: self.output.deep_view(),
            extensions: self.extensions.deep_view(),
            schema: self.schema@,
        }
    }
}

impl DeepView for ConfigProject {
    type V = ProjectModel;

    open spec fn deep_view(&self) -> ProjectModel {
        self@
    }
}

/// A configuration document, decoded and not yet validated.
#[derive(Debug, PartialEq, Eq)]
pub struct ConfigFile {
    /// Source directories, relative to the root, each with the source set
    /// that its files belong to. No directory stands twice. Where one
    /// directory lies inside another, the more specific one decides the
    /// source set of a file.
    pub sources: Vec<(String, String)>,
    /// Glob patterns of files that belong to no source set, wherever they
    /// lie.
    pub blacklist: Vec<String>,
    /// The projects to compile, by name. No name stands twice.
    pub projects: Vec<(String, ConfigProject)>,
}

/// The mathematical content of a [`ConfigFile`].
pub struct DocumentModel {
    pub sources: Seq<(Seq<char>, Seq<char>)>,
    pub blacklist: Seq<Seq<char>>,
    pub projects: Seq<(Seq<char>, ProjectModel)>,
}

impl View for ConfigFile {
    type V = DocumentModel;

    open spec fn view(&self) -> DocumentModel {
        DocumentModel {
            sources: self.sources.deep_view(),
            blacklist: self.blacklist.deep_view(),
            projects: self.projects.deep_view(),
        }
    }
}

/// Whether no two entries stand under the same key.
pub open spec fn keys_distinct<V>(entries: Seq<(Seq<char>, V)>) -> bool {
    forall|i: int, j: int|
        0 <= i < j < entries.len() ==> (#[trigger] entries[i]).0 != (#[trigger] entries[j]).0
}

impl DocumentModel {
    /// Whether the document is a pair of mappings: no source directory and
    /// no project name stands twice.
    pub open spec fn well_formed(self) -> bool {
        keys_distinct(self.sources) && keys_distinct(self.projects)
    }
}

/// The value of member `i` where that member is called `name`.
pub open spec fn named_value_at(members: Seq<(String, Json)>, name: Seq<char>, i: int) -> Option<
    Json,
> {
    if members[i].0@ == name {
        Some(members[i].1)
    } else {
        None
    }
}

/// The value of the first member called `name` among the first `n` members.
pub open spec fn member_value_in(members: Seq<(String, Json)>, name: Seq<char>, n: nat) -> Option<
    Json,
> {
    first_some(|i: int| named_value_at(members, name, i), n)
}

/// The value of the first member called `name`, or `None` where the object
/// has no such member.
pub open spec fn member_value(members: Seq<(String, Json)>, name: Seq<char>) -> Option<Json> {
    member_value_in(members, name, members.len())
}

/// Whether the name of member `i` already stands at a smaller index.
pub open spec fn name_occurs_before(members: Seq<(String, Json)>, i: int) -> bool {
    exists|j: int| 0 <= j < i && (#[trigger] members[j]).0@ == members[i].0@
}

/// Whether a value is an array of strings.
pub open spec fn is_text_list(value: Json) -> bool {
    value matches Json::Array(items) && forall|i: int|
        0 <= i < items@.len() ==> (#[trigger] items@[i]) is Text
}

/// The strings of an array of strings, in order.
pub open spec fn text_list(value: Json) -> Seq<Seq<char>>
    recommends
        is_text_list(value),
{
    Seq::new(value->Array_0@.len(), |i: int| value->Array_0@[i]->Text_0@)
}

/// The strings of the member `name`, or none where the member is absent.
pub open spec fn text_list_or_empty(members: Seq<(String, Json)>, name: Seq<char>) -> Seq<
    Seq<char>,
> {
    match member_value(members, name) {
        Some(value) => text_list(value),
        None => Seq::empty(),
    }
}

/// What is wrong with member `i` of the `sources` object: its value is not
/// a string, or its name stood before.
pub open spec fn source_fault_at(members: Seq<(String, Json)>, i: int) -> Option<SchemaFault> {
    if !(members[i].1 is Text) {
        Some(SchemaFault::InvalidType { field: members[i].0@ })
    } else if name_occurs_before(members, i) {
        Some(SchemaFault::DuplicateField { field: members[i].0@ })
    } else {
        None
    }
}

/// The mapping from source directories to source sets that a value
/// denotes: every member of the object, in order, as a pair of directory
/// and source set; or the fault of its first faulty member.
pub open spec fn decoded_sources(value: Json) -> Result<Seq<(Seq<char>, Seq<char>)>, SchemaFault> {
    match value {
        Json::Object(members) => match first_some(
            |i: int| source_fault_at(members@, i),
            members@.len(),
        ) {
            Some(fault) => Err(fault),
            None => Ok(
                Seq::new(members@.len(), |i: int| (members@[i].0@, members@[i].1->Text_0@)),
            ),
        },
        _ => Err(SchemaFault::InvalidType { field: "sources"@ }),
    }
}

/// Whether the schema of a project has a member of that name.
pub open spec fn is_project_field(name: Seq<char>) -> bool {
    name == "base"@ || name == "output"@ || name == "extensions"@ || name == "schema"@
}

/// Whether a value has the type that the project member `name` asks for:
/// an array of strings for `base` and `extensions`, a string or `null` for
/// `output`, a string for `schema`.
pub open spec fn project_value_fits(name: Seq<char>, value: Json) -> bool {
    if name == "base"@ || name == "extensions"@ {
        is_text_list(value)
    } else if name == "output"@ {
        value is Text || value is Null
    } else {
        value is Text
    }
}

/// What is wrong with member `i` of a project: its name is not in the
/// schema, it stood before, or its value has the wrong type.
pub open spec fn project_fault_at(members: Seq<(String, Json)>, i: int) -> Option<SchemaFault> {
    let name = members[i].0@;
    if !is_project_field(name) {
        Some(SchemaFault::UnknownField { field: name })
    } else if name_occurs_before(members, i) {
        Some(SchemaFault::DuplicateField { field: name })
    } else if !project_value_fits(name, members[i].1) {
        Some(SchemaFault::InvalidType { field: name })
    } else {
        None
    }
}

/// The project that a value denotes, or the fault that rules it out: the
/// first faulty member, else the absence of `schema`. `project` is the name
/// under which the value stands; a value that is no object is reported
/// under it.
pub open spec fn decoded_project(value: Json, project: Seq<char>) -> Result<
    ProjectModel,
    SchemaFault,
> {
    match value {
        Json::Object(members) => match first_some(
            |i: int| project_fault_at(members@, i),
            members@.len(),
        ) {
            Some(fault) => Err(fault),
            None => match member_value(members@, "schema"@) {
                None => Err(SchemaFault::MissingField { field: "schema"@ }),
                Some(schema) => Ok(
                    ProjectModel {
                        base: text_list_or_empty(members@, "base"@),
                        output: match member_value(members@, "output"@) {
                            Some(Json::Text(output)) => Some(output@),
                            _ => None,
                        },
                        extensions: text_list_or_empty(members@, "extensions"@),
                        schema: schema->Text_0@,
                    },
                ),
            },
        },
        _ => Err(SchemaFault::InvalidType { field: project }),
    }
}

/// What is wrong with member `i` of the `projects` object: its value is no
/// well-formed project, or its name stood before.
pub open spec fn projects_fault_at(members: Seq<(String, Json)>, i: int) -> Option<SchemaFault> {
    match decoded_project(members[i].1, members[i].0@) {
        Err(fault) => Some(fault),
        Ok(_) => if name_occurs_before(members, i) {
            Some(SchemaFault::DuplicateField { field: members[i].0@ })
        } else {
            None
        },
    }
}

/// The projects that a value denotes: every member of the object, in
/// order, as a pair of project name and project; or the fault of its first
/// faulty member.
pub open spec fn decoded_projects(value: Json) -> Result<
    Seq<(Seq<char>, ProjectModel)>,
    SchemaFault,
> {
    match value {
        Json::Object(members) => match first_some(
            |i: int| projects_fault_at(members@, i),
            members@.len(),
        ) {
            Some(fault) => Err(fault),
            None => Ok(
                Seq::new(
                    members@.len(),
                    |i: int| (members@[i].0@, decoded_project(members@[i].1, members@[i].0@)->Ok_0),
                ),
            ),
        },
        _ => Err(SchemaFault::InvalidType { field: "projects"@ }),
    }
}

/// Whether the schema of a document has a member of that name.
pub open spec fn is_document_field(name: Seq<char>) -> bool {
    name == "sources"@ || name == "blacklist"@ || name == "projects"@
}

/// What is wrong with a value as the document member `name`.
pub open spec fn document_value_fault(name: Seq<char>, value: Json) -> Option<SchemaFault> {
    if name == "sources"@ {
        match decoded_sources(value) {
            Err(fault) => Some(fault),
            Ok(_) => None,
        }
    } else if name == "blacklist"@ {
        if is_text_list(value) {
            None
        } else {
            Some(SchemaFault::InvalidType { field: name })
        }
    } else {
        match decoded_projects(value) {
            Err(fault) => Some(fault),
            Ok(_) => None,
        }
    }
}

/// What is wrong with member `i` of a document: its name is not in the
/// schema, it stood before, or its value is faulty.
pub open spec fn document_fault_at(members: Seq<(String, Json)>, i: int) -> Option<SchemaFault> {
    let name = members[i].0@;
    if !is_document_field(name) {
        Some(SchemaFault::UnknownField { field: name })
    } else if name_occurs_before(members, i) {
        Some(SchemaFault::DuplicateField { field: name })
    } else {
        document_value_fault(name, members[i].1)
    }
}

/// The configuration that a JSON value denotes, or the fault that rules it
/// out: that it is no object, else its first faulty member, else the
/// absence of `sources`, else the absence of `projects`. An absent
/// `blacklist` is empty.
pub open spec fn decoded_document(document: Json) -> Result<DocumentModel, SchemaFault> {
    match document {
        Json::Object(members) => match first_some(
            |i: int| document_fault_at(members@, i),
            members@.len(),
        ) {
            Some(fault) => Err(fault),
            None => match member_value(members@, "sources"@) {
                None => Err(SchemaFault::MissingField { field: "sources"@ }),
                Some(sources) => match member_value(members@, "projects"@) {
                    None => Err(SchemaFault::MissingField { field: "projects"@ }),
                    Some(projects) => Ok(
                        DocumentModel {
                            sources: decoded_sources(sources)->Ok_0,
                            blacklist: text_list_or_empty(members@, "blacklist"@),
                            projects: decoded_projects(projects)->Ok_0,
                        },
                    ),
                },
            },
        },
        _ => Err(SchemaFault::NotAnObject),
    }
}

/// The document that a text denotes, or why it denotes none: it is not
/// well-formed JSON, or the JSON value does not fit the schema.
pub open spec fn decoded_text(text: Seq<char>) -> Result<DocumentModel, ParseFault> {
    match json_text_value(text) {
        None => Err(ParseFault::Syntax),
        Some(document) => match decoded_document(document) {
            Ok(decoded) => Ok(decoded),
            Err(fault) => Err(ParseFault::Schema(fault)),
        },
    }
}

/// The four member names of a project differ from each other.
pub proof fn lemma_project_fields_differ()
    ensures
        "base"@ != "output"@,
        "base"@ != "extensions"@,
        "base"@ != "schema"@,
        "output"@ != "extensions"@,
        "output"@ != "schema"@,
        "extensions"@ != "schema"@,
{
    reveal_strlit("base");
    reveal_strlit("output");
    reveal_strlit("extensions");
    reveal_strlit("schema");
    assert("base"@.len() == 4 && "extensions"@.len() == 10);
    assert("output"@[0] != "schema"@[0]);
}

/// The three member names of a document differ from each other.
pub proof fn lemma_document_fields_differ()
    ensures
        "sources"@ != "blacklist"@,
        "sources"@ != "projects"@,
        "blacklist"@ != "projects"@,
{
    reveal_strlit("sources");
    reveal_strlit("blacklist");
    reveal_strlit("projects");
    assert("sources"@.len() == 7 && "blacklist"@.len() == 9 && "projects"@.len() == 8);
}

/// A member found by name stands at some index, under that name.
pub proof fn lemma_member_value_index(members: Seq<(String, Json)>, name: Seq<char>) -> (i: int)
    requires
        member_value(members, name) is Some,
    ensures
        0 <= i < members.len(),
        members[i].0@ == name,
        member_value(members, name) == Some(members[i].1),
{
    lemma_first_some_index(|k: int| named_value_at(members, name, k), members.len())
}

/// A member of some name is found in a prefix exactly where the name
/// stands in it.
pub proof fn lemma_member_value_in_some(members: Seq<(String, Json)>, name: Seq<char>, n: nat)
    requires
        n <= members.len(),
    ensures
        member_value_in(members, name, n) is Some <==> exists|j: int|
            0 <= j < n && (#[trigger] members[j]).0@ == name,
{
    let named = |k: int| named_value_at(members, name, k);
    if member_value_in(members, name, n) is Some {
        let j = lemma_first_some_index(named, n);
    } else {
        assert forall|j: int| 0 <= j < n implies (#[trigger] members[j]).0@ != name by {
            lemma_first_some_none(named, n, j);
        }
    }
}

/// The keys of a list of entries are distinct exactly where the strings
/// that stand first in the entries differ.
pub proof fn lemma_keys_of_entries<V: DeepView>(entries: Vec<(String, V)>)
    ensures
        keys_distinct(entries.deep_view()) <==> forall|i: int, j: int|
            0 <= i < j < entries@.len() ==> (#[trigger] entries@[i]).0@ != (
            #[trigger] entries@[j]).0@,
{
    let keyed = entries.deep_view();
    assert forall|i: int| 0 <= i < entries@.len() implies (#[trigger] keyed[i]).0
        == entries@[i].0@ by {}
    if keys_distinct(keyed) {
        assert forall|i: int, j: int| 0 <= i < j < entries@.len() implies (
        #[trigger] entries@[i]).0@ != (#[trigger] entries@[j]).0@ by {
            assert(keyed[i].0 != keyed[j].0);
        }
    }
}

} // verus!
