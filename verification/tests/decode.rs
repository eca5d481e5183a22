use relay_config::errors::{ConfigError, ConfigParseError, SchemaError};
use relay_config::json::{parse_json, Json};
use relay_config::decode::{decode_document, decode_project};
use relay_config::schema::{ConfigFile, ConfigProject};

fn text(value: &str) -> Json {
    Json::Text(value.to_string())
}

fn object(members: Vec<(&str, Json)>) -> Json {
    Json::Object(members.into_iter().map(|(name, value)| (name.to_string(), value)).collect())
}

fn schema_error(config_string: &str) -> SchemaError {
    match ConfigFile::decode(config_string) {
        Err(ConfigParseError::Schema(error)) => error,
        other => panic!("expected a schema error, got {:?}", other),
    }
}

fn field(name: &str) -> String {
    name.to_string()
}

const MINIMAL: &str = r#"{
    "sources": { "src/foo": "foo" },
    "projects": { "foo": { "schema": "schema.graphql" } }
}"#;

#[test]
fn parses_scalars_arrays_and_objects() {
    let parsed = parse_json(r#"{"b": [null, true, 3, "x"], "a": {}}"#).unwrap();
    let expected = object(vec![
        ("a", object(vec![])),
        ("b", Json::Array(vec![Json::Null, Json::Bool(true), Json::Number, text("x")])),
    ]);
    assert_eq!(parsed, expected);
}

#[test]
fn parse_rejects_malformed_text() {
    assert!(parse_json("{").is_err());
    assert!(parse_json("").is_err());
    assert!(parse_json("{} trailing").is_err());
}

#[test]
fn parse_keeps_the_last_of_repeated_members() {
    let parsed = parse_json(r#"{"a": "first", "a": "second"}"#).unwrap();
    assert_eq!(parsed, object(vec![("a", text("second"))]));
}

#[test]
fn decodes_minimal_document() {
    let config_file = ConfigFile::decode(MINIMAL).unwrap();
    let expected = ConfigFile {
        sources: vec![(field("src/foo"), field("foo"))],
        blacklist: vec![],
        projects: vec![(
            field("foo"),
            ConfigProject {
                base: vec![],
                output: None,
                extensions: vec![],
                schema: field("schema.graphql"),
            },
        )],
    };
    assert_eq!(config_file, expected);
}

#[test]
fn decodes_every_member() {
    let config_file = ConfigFile::decode(
        r#"{
            "sources": { "src/web": "web", "src/common": "common" },
            "blacklist": ["**/__generated__/**", "**/node_modules/**"],
            "projects": {
                "web": {
                    "base": ["common"],
                    "output": "generated/web",
                    "extensions": ["ext/a", "ext/b"],
                    "schema": "web.graphql"
                }
            }
        }"#,
    )
    .unwrap();
    assert_eq!(
        config_file.sources,
        vec![(field("src/common"), field("common")), (field("src/web"), field("web"))]
    );
    assert_eq!(config_file.blacklist, vec![field("**/__generated__/**"), field("**/node_modules/**")]);
    assert_eq!(
        config_file.projects,
        vec![(
            field("web"),
            ConfigProject {
                base: vec![field("common")],
                output: Some(field("generated/web")),
                extensions: vec![field("ext/a"), field("ext/b")],
                schema: field("web.graphql"),
            },
        )]
    );
}

#[test]
fn optional_members_default_when_omitted() {
    let config_file = ConfigFile::decode(MINIMAL).unwrap();
    assert!(config_file.blacklist.is_empty());
    let project = &config_file.projects[0].1;
    assert!(project.base.is_empty());
    assert!(project.extensions.is_empty());
    assert_eq!(project.output, None);
}

#[test]
fn null_output_is_absent() {
    let config_file = ConfigFile::decode(
        r#"{"sources": {"src": "p"}, "projects": {"p": {"schema": "s", "output": null}}}"#,
    )
    .unwrap();
    assert_eq!(config_file.projects[0].1.output, None);
}

#[test]
fn unknown_top_level_field_is_rejected() {
    let error = schema_error(
        r#"{"sources": {"src/foo": "foo"}, "projects": {"foo": {"schema": "s"}}, "extra": 1}"#,
    );
    assert_eq!(error, SchemaError::UnknownField { field: field("extra") });
}

#[test]
fn unknown_project_field_is_rejected() {
    let error = schema_error(
        r#"{"sources": {"src/foo": "foo"}, "projects": {"foo": {"schema": "s", "shcema": "t"}}}"#,
    );
    assert_eq!(error, SchemaError::UnknownField { field: field("shcema") });
}

#[test]
fn missing_sources_is_rejected() {
    let error = schema_error(r#"{"projects": {"foo": {"schema": "s"}}}"#);
    assert_eq!(error, SchemaError::MissingField { field: field("sources") });
}

#[test]
fn missing_projects_is_rejected() {
    let error = schema_error(r#"{"sources": {"src/foo": "foo"}}"#);
    assert_eq!(error, SchemaError::MissingField { field: field("projects") });
}

#[test]
fn missing_sources_is_reported_before_missing_projects() {
    assert_eq!(schema_error("{}"), SchemaError::MissingField { field: field("sources") });
}

#[test]
fn missing_schema_is_rejected() {
    let error = schema_error(r#"{"sources": {"src/foo": "foo"}, "projects": {"foo": {}}}"#);
    assert_eq!(error, SchemaError::MissingField { field: field("schema") });
}

#[test]
fn document_must_be_an_object() {
    assert_eq!(schema_error("[]"), SchemaError::NotAnObject);
    assert_eq!(schema_error("\"sources\""), SchemaError::NotAnObject);
    assert_eq!(schema_error("null"), SchemaError::NotAnObject);
}

#[test]
fn wrong_types_are_rejected() {
    assert_eq!(
        schema_error(r#"{"sources": ["src"], "projects": {}}"#),
        SchemaError::InvalidType { field: field("sources") }
    );
    assert_eq!(
        schema_error(r#"{"sources": {"src": 1}, "projects": {}}"#),
        SchemaError::InvalidType { field: field("src") }
    );
    assert_eq!(
        schema_error(r#"{"sources": {}, "blacklist": ["a", 2], "projects": {}}"#),
        SchemaError::InvalidType { field: field("blacklist") }
    );
    assert_eq!(
        schema_error(r#"{"sources": {}, "blacklist": null, "projects": {}}"#),
        SchemaError::InvalidType { field: field("blacklist") }
    );
    assert_eq!(
        schema_error(r#"{"sources": {}, "projects": []}"#),
        SchemaError::InvalidType { field: field("projects") }
    );
    assert_eq!(
        schema_error(r#"{"sources": {}, "projects": {"p": "schema.graphql"}}"#),
        SchemaError::InvalidType { field: field("p") }
    );
    assert_eq!(
        schema_error(r#"{"sources": {}, "projects": {"p": {"schema": "s", "output": 7}}}"#),
        SchemaError::InvalidType { field: field("output") }
    );
    assert_eq!(
        schema_error(r#"{"sources": {}, "projects": {"p": {"schema": null}}}"#),
        SchemaError::InvalidType { field: field("schema") }
    );
    assert_eq!(
        schema_error(r#"{"sources": {}, "projects": {"p": {"schema": "s", "base": "common"}}}"#),
        SchemaError::InvalidType { field: field("base") }
    );
    assert_eq!(
        schema_error(r#"{"sources": {}, "projects": {"p": {"schema": "s", "extensions": [[]]}}}"#),
        SchemaError::InvalidType { field: field("extensions") }
    );
}

#[test]
fn malformed_text_is_a_syntax_error() {
    match ConfigFile::decode(r#"{"sources": "#) {
        Err(ConfigParseError::Syntax(error)) => assert!(error.is_eof()),
        other => panic!("expected a syntax error, got {:?}", other),
    }
    assert!(matches!(
        ConfigFile::decode(r#"{"sources": {},, "projects": {}}"#),
        Err(ConfigParseError::Syntax(_))
    ));
}

#[test]
fn repeated_members_of_a_value_are_rejected() {
    let project = || object(vec![("schema", text("s"))]);
    let repeated_field = object(vec![
        ("sources", object(vec![])),
        ("projects", object(vec![])),
        ("sources", object(vec![])),
    ]);
    assert_eq!(
        decode_document(&repeated_field),
        Err(SchemaError::DuplicateField { field: field("sources") })
    );
    let repeated_source = object(vec![
        ("sources", object(vec![("src", text("a")), ("src", text("b"))])),
        ("projects", object(vec![])),
    ]);
    assert_eq!(
        decode_document(&repeated_source),
        Err(SchemaError::DuplicateField { field: field("src") })
    );
    let repeated_project = object(vec![
        ("sources", object(vec![])),
        ("projects", object(vec![("p", project()), ("p", project())])),
    ]);
    assert_eq!(
        decode_document(&repeated_project),
        Err(SchemaError::DuplicateField { field: field("p") })
    );
    let repeated_project_field = object(vec![("schema", text("s")), ("schema", text("t"))]);
    assert_eq!(
        decode_project(&repeated_project_field, &field("p")),
        Err(SchemaError::DuplicateField { field: field("schema") })
    );
}

#[test]
fn first_fault_in_member_order_is_reported() {
    let document = object(vec![
        ("projects", Json::Null),
        ("bogus", Json::Null),
        ("sources", Json::Null),
    ]);
    assert_eq!(
        decode_document(&document),
        Err(SchemaError::InvalidType { field: field("projects") })
    );
    let document = object(vec![("bogus", Json::Null), ("projects", Json::Null)]);
    assert_eq!(
        decode_document(&document),
        Err(SchemaError::UnknownField { field: field("bogus") })
    );
}

#[test]
fn decode_document_keeps_member_order() {
    let document = object(vec![
        ("projects", object(vec![])),
        ("sources", object(vec![("z", text("one")), ("a", text("two"))])),
    ]);
    let config_file = decode_document(&document).unwrap();
    assert_eq!(config_file.sources, vec![(field("z"), field("one")), (field("a"), field("two"))]);
}

#[test]
fn from_read_names_the_document_in_its_error() {
    match ConfigFile::from_read(field("/work/relay.config.json"), Ok(field("{"))) {
        Err(ConfigError::ConfigFileParse { config_path, source }) => {
            assert_eq!(config_path, "/work/relay.config.json");
            assert!(matches!(source, ConfigParseError::Syntax(_)));
        },
        other => panic!("expected a parse error, got {:?}", other),
    }
    match ConfigFile::from_read(field("relay.config.json"), Ok(field(r#"{"sources": {}}"#))) {
        Err(ConfigError::ConfigFileParse { config_path, source }) => {
            assert_eq!(config_path, "relay.config.json");
            match source {
                ConfigParseError::Schema(error) => {
                    assert_eq!(error, SchemaError::MissingField { field: field("projects") })
                },
                other => panic!("expected a schema error, got {:?}", other),
            }
        },
        other => panic!("expected a parse error, got {:?}", other),
    }
}

#[test]
fn from_read_decodes_what_was_read() {
    assert_eq!(
        ConfigFile::from_read(field("relay.config.json"), Ok(field(MINIMAL))).unwrap(),
        ConfigFile::decode(MINIMAL).unwrap()
    );
}

#[test]
fn from_read_passes_a_failed_read_on() {
    let cause = std::io::Error::new(std::io::ErrorKind::NotFound, "no such file");
    match ConfigFile::from_read(field("missing.json"), Err(cause)) {
        Err(ConfigError::ConfigFileRead { config_path, source }) => {
            assert_eq!(config_path, "missing.json");
            assert_eq!(source.kind(), std::io::ErrorKind::NotFound);
            assert_eq!(source.to_string(), "no such file");
        },
        other => panic!("expected a read error, got {:?}", other),
    }
}
