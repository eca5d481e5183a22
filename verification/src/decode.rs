//! The strict decoder: from JSON values, and from text, to a configuration
//! document.

use vstd::prelude::*;
use crate::errors::{ConfigError, ConfigParseError, LoadFault, ParseFault, SchemaError, SchemaFault};
use crate::json::{json_text_value, parse_json, Json};
use crate::scan::{first_some, lemma_first_some_none, lemma_first_some_stable};
use crate::schema::{
    decoded_document, decoded_project, decoded_projects, decoded_sources, decoded_text,
    document_fault_at, is_text_list, lemma_document_fields_differ, lemma_member_value_in_some,
    lemma_member_value_index, lemma_project_fields_differ, member_value, member_value_in,
    name_occurs_before, named_value_at, project_fault_at, projects_fault_at, source_fault_at,
    text_list, text_list_or_empty, ConfigFile, ConfigProject, DocumentModel, ProjectModel,
};
use crate::strictness::{
    has_unknown_field, lacks_required_field, lemma_decoded_document_well_formed,
    lemma_missing_field_is_rejected, lemma_unknown_field_is_rejected,
};

verus! {

/// Whether a string holds exactly the characters of `literal`.
fn text_is(text: &String, literal: &str) -> (same: bool)
    ensures
        same == (text@ == literal@),
{
    let owned = literal.to_owned();
    *text == owned
}

/// Looks a member up by name.
fn find_member<'a>(members: &'a Vec<(String, Json)>, name: &str) -> (found: Option<&'a Json>)
    ensures
        match found {
            Some(value) => member_value(members@, name@) == Some(*value),
            None => member_value(members@, name@) is None,
        },
{
    let mut i: usize = 0;
    while i < members.len()
        invariant
            i <= members.len(),
            member_value_in(members@, name@, i as nat) is None,
        decreases members.len() - i,
    {
        if text_is(&members[i].0, name) {
            proof {
                lemma_first_some_stable(
                    |k: int| named_value_at(members@, name@, k),
                    (i + 1) as nat,
                    members@.len(),
                );
            }
            return Some(&members[i].1);
        }
        i += 1;
    }
    None
}

/// Tells whether the name of member `i` stands at a smaller index too.
fn occurs_before(members: &Vec<(String, Json)>, i: usize) -> (repeated: bool)
    requires
        i < members.len(),
    ensures
        repeated == name_occurs_before(members@, i as int),
{
    let mut j: usize = 0;
    while j < i
        invariant
            j <= i,
            i < members.len(),
            forall|k: int| 0 <= k < j ==> (#[trigger] members@[k]).0@ != members@[i as int].0@,
        decreases i - j,
    {
        if members[j].0 == members[i].0 {
            return true;
        }
        j += 1;
    }
    false
}

/// Decodes an array of strings; `None` for any other value.
pub fn decode_text_list(value: &Json) -> (decoded: Option<Vec<String>>)
    ensures
        decoded is Some <==> is_text_list(*value),
        decoded matches Some(texts) ==> texts.deep_view() == text_list(*value),
{
    match value {
        Json::Array(items) => {
            let mut texts: Vec<String> = Vec::new();
            let mut i: usize = 0;
            while i < items.len()
                invariant
                    *value is Array,
                    value->Array_0@ == items@,
                    i <= items.len(),
                    texts@.len() == i,
                    forall|k: int| 0 <= k < i ==> (#[trigger] items@[k]) is Text,
                    forall|k: int| 0 <= k < i ==> (#[trigger] texts@[k])@ == items@[k]->Text_0@,
                decreases items.len() - i,
            {
                match &items[i] {
                    Json::Text(text) => {
                        texts.push(text.clone());
                    },
                    _ => {
                        return None;
                    },
                }
                i += 1;
            }
            Some(texts)
        },
        _ => None,
    }
}

/// Decodes the value of the `sources` member.
pub fn decode_sources(value: &Json) -> (decoded: Result<Vec<(String, String)>, SchemaError>)
    ensures
        match decoded {
            Ok(sources) => decoded_sources(*value) == Ok::<_, SchemaFault>(sources.deep_view()),
            Err(error) => decoded_sources(*value) == Err::<Seq<(Seq<char>, Seq<char>)>, _>(error@),
        },
{
    match value {
        Json::Object(members) => {
            let ghost fault_at = |k: int| source_fault_at(members@, k);
            let mut sources: Vec<(String, String)> = Vec::new();
            let mut i: usize = 0;
            while i < members.len()
                invariant
                    *value is Object,
                    value->Object_0@ == members@,
                    fault_at == |k: int| source_fault_at(members@, k),
                    i <= members.len(),
                    sources@.len() == i,
                    first_some(fault_at, i as nat) is None,
                    forall|k: int|
                        0 <= k < i ==> (#[trigger] members@[k]).1 is Text && sources@[k].0@
                            == members@[k].0@ && sources@[k].1@ == members@[k].1->Text_0@,
                decreases members.len() - i,
            {
                match &members[i].1 {
                    Json::Text(source_set) => {
                        if occurs_before(members, i) {
                            proof {
                                lemma_first_some_stable(fault_at, (i + 1) as nat, members@.len());
                            }
                            return Err(SchemaError::DuplicateField { field: members[i].0.clone() });
                        }
                        sources.push((members[i].0.clone(), source_set.clone()));
                    },
                    _ => {
                        proof {
                            lemma_first_some_stable(fault_at, (i + 1) as nat, members@.len());
                        }
                        return Err(SchemaError::InvalidType { field: members[i].0.clone() });
                    },
                }
                i += 1;
            }
            assert(sources.deep_view() =~= decoded_sources(*value)->Ok_0);
            Ok(sources)
        },
        _ => Err(SchemaError::InvalidType { field: "sources".to_owned() }),
    }
}

/// Finds the fault of member `i` of a project.
fn project_member_fault(members: &Vec<(String, Json)>, i: usize) -> (fault: Option<SchemaError>)
    requires
        i < members.len(),
    ensures
        fault.deep_view() == project_fault_at(members@, i as int),
{
    let name = &members[i].0;
    let value = &members[i].1;
    let fits = if text_is(name, "base") || text_is(name, "extensions") {
        decode_text_list(value).is_some()
    } else if text_is(name, "output") {
        match value {
            Json::Text(_) => true,
            Json::Null => true,
            _ => false,
        }
    } else if text_is(name, "schema") {
        match value {
            Json::Text(_) => true,
            _ => false,
        }
    } else {
        return Some(SchemaError::UnknownField { field: name.clone() });
    };
    if occurs_before(members, i) {
        Some(SchemaError::DuplicateField { field: name.clone() })
    } else if !fits {
        Some(SchemaError::InvalidType { field: name.clone() })
    } else {
        None
    }
}

/// Finds the first faulty member of a project.
fn project_fault(members: &Vec<(String, Json)>) -> (fault: Option<SchemaError>)
    ensures
        fault.deep_view() == first_some(|i: int| project_fault_at(members@, i), members@.len()),
{
    let ghost fault_at = |k: int| project_fault_at(members@, k);
    let mut i: usize = 0;
    while i < members.len()
        invariant
            fault_at == |k: int| project_fault_at(members@, k),
            i <= members.len(),
            first_some(fault_at, i as nat) is None,
        decreases members.len() - i,
    {
        let fault = project_member_fault(members, i);
        if fault.is_some() {
            proof {
                lemma_first_some_stable(fault_at, (i + 1) as nat, members@.len());
            }
            return fault;
        }
        i += 1;
    }
    None
}

/// Decodes the member `name` of a project as a list of strings; an absent
/// member gives the empty list.
fn text_list_member(members: &Vec<(String, Json)>, name: &str) -> (texts: Vec<String>)
    requires
        member_value(members@, name@) matches Some(value) ==> is_text_list(value),
    ensures
        texts.deep_view() == text_list_or_empty(members@, name@),
{
    let listed = match find_member(members, name) {
        Some(value) => decode_text_list(value),
        None => None,
    };
    match listed {
        Some(texts) => texts,
        None => Vec::new(),
    }
}

/// Decodes one project. `project` is the name under which it stands.
pub fn decode_project(value: &Json, project: &String) -> (decoded: Result<
    ConfigProject,
    SchemaError,
>)
    ensures
        match decoded {
            Ok(config_project) => decoded_project(*value, project@) == Ok::<_, SchemaFault>(
                config_project@,
            ),
            Err(error) => decoded_project(*value, project@) == Err::<ProjectModel, _>(error@),
        },
{
    match value {
        Json::Object(members) => {
            match project_fault(members) {
                Some(error) => {
                    return Err(error);
                },
                None => {},
            }
            proof {
                lemma_project_fields_differ();
                let fault_at = |i: int| project_fault_at(members@, i);
                if member_value(members@, "schema"@) is Some {
                    let at = lemma_member_value_index(members@, "schema"@);
                    lemma_first_some_none(fault_at, members@.len(), at);
                }
                if member_value(members@, "base"@) is Some {
                    let at = lemma_member_value_index(members@, "base"@);
                    lemma_first_some_none(fault_at, members@.len(), at);
                }
                if member_value(members@, "extensions"@) is Some {
                    let at = lemma_member_value_index(members@, "extensions"@);
                    lemma_first_some_none(fault_at, members@.len(), at);
                }
            }
            let schema = match find_member(members, "schema") {
                Some(Json::Text(schema)) => schema.clone(),
                _ => {
                    return Err(SchemaError::MissingField { field: "schema".to_owned() });
                },
            };
            let output = match find_member(members, "output") {
                Some(Json::Text(output)) => Some(output.clone()),
                _ => None,
            };
            let base = text_list_member(members, "base");
            let extensions = text_list_member(members, "extensions");
            Ok(ConfigProject { base, output, extensions, schema })
        },
        _ => Err(SchemaError::InvalidType { field: project.clone() }),
    }
}

/// Decodes the value of the `projects` member.
pub fn decode_projects(value: &Json) -> (decoded: Result<
    Vec<(String, ConfigProject)>,
    SchemaError,
>)
    ensures
        match decoded {
            Ok(projects) => decoded_projects(*value) == Ok::<_, SchemaFault>(projects.deep_view()),
            Err(error) => decoded_projects(*value) == Err::<Seq<(Seq<char>, ProjectModel)>, _>(
                error@,
            ),
        },
{
    match value {
        Json::Object(members) => {
            let ghost fault_at = |k: int| projects_fault_at(members@, k);
            let mut projects: Vec<(String, ConfigProject)> = Vec::new();
            let mut i: usize = 0;
            while i < members.len()
                invariant
                    *value is Object,
                    value->Object_0@ == members@,
                    fault_at == |k: int| projects_fault_at(members@, k),
                    i <= members.len(),
                    projects@.len() == i,
                    first_some(fault_at, i as nat) is None,
                    forall|k: int|
                        0 <= k < i ==> (#[trigger] projects@[k]).0@ == members@[k].0@
                            && decoded_project(members@[k].1, members@[k].0@) == Ok::<
                            _,
                            SchemaFault,
                        >(projects@[k].1@),
                decreases members.len() - i,
            {
                let project = match decode_project(&members[i].1, &members[i].0) {
                    Ok(project) => project,
                    Err(error) => {
                        proof {
                            lemma_first_some_stable(fault_at, (i + 1) as nat, members@.len());
                        }
                        return Err(error);
                    },
                };
                if occurs_before(members, i) {
                    proof {
                        lemma_first_some_stable(fault_at, (i + 1) as nat, members@.len());
                    }
                    return Err(SchemaError::DuplicateField { field: members[i].0.clone() });
                }
                projects.push((members[i].0.clone(), project));
                i += 1;
            }
            assert(projects.deep_view() =~= decoded_projects(*value)->Ok_0);
            Ok(projects)
        },
        _ => Err(SchemaError::InvalidType { field: "projects".to_owned() }),
    }
}

/// Decodes a JSON value as a configuration document.
pub fn decode_document(document: &Json) -> (decoded: Result<ConfigFile, SchemaError>)
    ensures
        match decoded {
            Ok(config_file) => decoded_document(*document) == Ok::<_, SchemaFault>(config_file@)
                && config_file@.well_formed(),
            Err(error) => decoded_document(*document) == Err::<DocumentModel, _>(error@),
        },
        has_unknown_field(*document) ==> decoded is Err,
        lacks_required_field(*document) ==> decoded is Err,
{
    proof {
        if has_unknown_field(*document) {
            lemma_unknown_field_is_rejected(*document);
        }
        if lacks_required_field(*document) {
            lemma_missing_field_is_rejected(*document);
        }
        if decoded_document(*document) is Ok {
            lemma_decoded_document_well_formed(*document);
        }
    }
    let members = match document {
        Json::Object(members) => members,
        _ => {
            return Err(SchemaError::NotAnObject);
        },
    };
    let ghost fault_at = |k: int| document_fault_at(members@, k);
    let mut sources: Option<Vec<(String, String)>> = None;
    let mut blacklist: Option<Vec<String>> = None;
    let mut projects: Option<Vec<(String, ConfigProject)>> = None;
    let mut i: usize = 0;
    proof {
        lemma_document_fields_differ();
    }
    while i < members.len()
        invariant
            *document is Object,
            document->Object_0@ == members@,
            fault_at == |k: int| document_fault_at(members@, k),
            "sources"@ != "blacklist"@,
            "sources"@ != "projects"@,
            "blacklist"@ != "projects"@,
            i <= members.len(),
            first_some(fault_at, i as nat) is None,
            match sources {
                Some(found) => member_value_in(members@, "sources"@, i as nat) matches Some(value)
                    && decoded_sources(value) == Ok::<_, SchemaFault>(found.deep_view()),
                None => member_value_in(members@, "sources"@, i as nat) is None,
            },
            match blacklist {
                Some(found) => member_value_in(members@, "blacklist"@, i as nat) matches Some(value)
                    && is_text_list(value) && found.deep_view() == text_list(value),
                None => member_value_in(members@, "blacklist"@, i as nat) is None,
            },
            match projects {
                Some(found) => member_value_in(members@, "projects"@, i as nat) matches Some(value)
                    && decoded_projects(value) == Ok::<_, SchemaFault>(found.deep_view()),
                None => member_value_in(members@, "projects"@, i as nat) is None,
            },
        decreases members.len() - i,
    {
        let name = &members[i].0;
        let value = &members[i].1;
        proof {
            lemma_member_value_in_some(members@, name@, i as nat);
        }
        let fault = if text_is(name, "sources") {
            if sources.is_some() {
                Some(SchemaError::DuplicateField { field: name.clone() })
            } else {
                match decode_sources(value) {
                    Ok(found) => {
                        sources = Some(found);
                        None
                    },
                    Err(error) => Some(error),
                }
            }
        } else if text_is(name, "blacklist") {
            if blacklist.is_some() {
                Some(SchemaError::DuplicateField { field: name.clone() })
            } else {
                match decode_text_list(value) {
                    Some(found) => {
                        blacklist = Some(found);
                        None
                    },
                    None => Some(SchemaError::InvalidType { field: name.clone() }),
                }
            }
        } else if text_is(name, "projects") {
            if projects.is_some() {
                Some(SchemaError::DuplicateField { field: name.clone() })
            } else {
                match decode_projects(value) {
                    Ok(found) => {
                        projects = Some(found);
                        None
                    },
                    Err(error) => Some(error),
                }
            }
        } else {
            Some(SchemaError::UnknownField { field: name.clone() })
        };
        match fault {
            Some(error) => {
                proof {
                    lemma_first_some_stable(fault_at, (i + 1) as nat, members@.len());
                }
                return Err(error);
            },
            None => {},
        }
        i += 1;
    }
    let sources = match sources {
        Some(sources) => sources,
        None => {
            return Err(SchemaError::MissingField { field: "sources".to_owned() });
        },
    };
    let projects = match projects {
        Some(projects) => projects,
        None => {
            return Err(SchemaError::MissingField { field: "projects".to_owned() });
        },
    };
    let blacklist = match blacklist {
        Some(blacklist) => blacklist,
        None => Vec::new(),
    };
    assert(blacklist.deep_view() =~= text_list_or_empty(members@, "blacklist"@));
    Ok(ConfigFile { sources, blacklist, projects })
}

impl ConfigFile {
    /// Decodes the text of a configuration document.
    ///
    /// Decoding is strict: it fails on a member that the schema does not
    /// know and on the absence of a required one, and it never yields part
    /// of a document. A member name that the text repeats within one object
    /// is not seen: the parser keeps the last occurrence, and that one is
    /// decoded.
    pub fn decode(config_string: &str) -> (decoded: Result<ConfigFile, ConfigParseError>)
        ensures
            match decoded {
                Ok(config_file) => decoded_text(config_string@) == Ok::<_, ParseFault>(
                    config_file@,
                ) && config_file@.well_formed(),
                Err(error) => decoded_text(config_string@) == Err::<DocumentModel, _>(error@),
            },
            json_text_value(config_string@) matches Some(document) && has_unknown_field(document)
                ==> decoded is Err,
            json_text_value(config_string@) matches Some(document) && lacks_required_field(
                document,
            ) ==> decoded is Err,
    {
        let document = match parse_json(config_string) {
            Ok(document) => document,
            Err(error) => {
                return Err(ConfigParseError::Syntax(error));
            },
        };
        match decode_document(&document) {
            Ok(config_file) => Ok(config_file),
            Err(error) => Err(ConfigParseError::Schema(error)),
        }
    }

    /// Decodes the configuration document at `config_path` from the
    /// outcome of reading it. A failure names that path and carries the
    /// cause: that of the read, or that of the decoding.
    pub fn from_read(config_path: String, read: Result<String, std::io::Error>) -> (parsed: Result<
        ConfigFile,
        ConfigError,
    >)
        ensures
            match read {
                Ok(config_string) => match parsed {
                    Ok(config_file) => decoded_text(config_string@) == Ok::<_, ParseFault>(
                        config_file@,
                    ) && config_file@.well_formed(),
                    Err(error) => decoded_text(config_string@) matches Err(cause) && error@ == (
                    LoadFault::ConfigFileParse { config_path: config_path@, source: cause }),
                },
                Err(cause) => parsed matches Err(
                    ConfigError::ConfigFileRead { config_path: failed_path, source },
                ) && failed_path == config_path && source == cause,
            },
    {
        let config_string = match read {
            Ok(config_string) => config_string,
            Err(source) => {
                return Err(ConfigError::ConfigFileRead { config_path, source });
            },
        };
        match ConfigFile::decode(config_string.as_str()) {
            Ok(config_file) => Ok(config_file),
            Err(source) => Err(ConfigError::ConfigFileParse { config_path, source }),
        }
    }
}

} // verus!
