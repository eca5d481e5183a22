use relay_config::config::Config;
use relay_config::errors::{ConfigError, ConfigParseError, ConfigValidationError, SchemaError};
use relay_config::filesystem::{path_kind, Filesystem, PathKind};
use relay_config::schema::{ConfigFile, ConfigProject};

fn field(name: &str) -> String {
    name.to_string()
}

fn project(schema: &str) -> ConfigProject {
    ConfigProject { base: vec![], output: None, extensions: vec![], schema: field(schema) }
}

fn minimal() -> ConfigFile {
    ConfigFile {
        sources: vec![(field("src/foo"), field("foo"))],
        blacklist: vec![],
        projects: vec![(field("foo"), project("schema.graphql"))],
    }
}

fn directories(paths: &[&str]) -> Filesystem {
    Filesystem { directories: paths.iter().map(|path| path.to_string()).collect(), files: vec![] }
}

fn config(root_dir: &str, config_file: ConfigFile) -> Config {
    Config {
        root_dir: field(root_dir),
        sources: config_file.sources,
        blacklist: config_file.blacklist,
        projects: config_file.projects,
    }
}

#[test]
fn record_and_look_up() {
    let mut filesystem = Filesystem::new();
    assert_eq!(filesystem.kind_of(&field("/a")), PathKind::Missing);
    filesystem.record(field("/a"), PathKind::Directory);
    filesystem.record(field("/a/file.txt"), PathKind::NotDirectory);
    filesystem.record(field("/gone"), PathKind::Missing);
    assert_eq!(filesystem.kind_of(&field("/a")), PathKind::Directory);
    assert_eq!(filesystem.kind_of(&field("/a/file.txt")), PathKind::NotDirectory);
    assert_eq!(filesystem.kind_of(&field("/gone")), PathKind::Missing);
    assert_eq!(filesystem.kind_of(&field("/a/")), PathKind::Missing);
    assert_eq!(filesystem.directories, vec![field("/a")]);
    assert_eq!(filesystem.files, vec![field("/a/file.txt")]);
}

#[test]
fn a_path_recorded_both_ways_is_a_directory() {
    let filesystem = Filesystem { directories: vec![field("/a")], files: vec![field("/a")] };
    assert_eq!(filesystem.kind_of(&field("/a")), PathKind::Directory);
}

#[test]
fn probe_paths_are_the_sources_below_a_root_that_is_a_directory() {
    let config_file = ConfigFile {
        sources: vec![
            (field("src/foo"), field("foo")),
            (field("lib"), field("foo")),
            (field("/opt/shared"), field("shared")),
        ],
        blacklist: vec![],
        projects: vec![],
    };
    assert_eq!(
        config_file.probe_paths(&field("/work"), PathKind::Directory),
        vec![field("/work/src/foo"), field("/work/lib"), field("/opt/shared")]
    );
    assert_eq!(
        config_file.probe_paths(&field("/work/"), PathKind::Directory),
        vec![field("/work/src/foo"), field("/work/lib"), field("/opt/shared")]
    );
    assert_eq!(config_file.probe_paths(&field("/work"), PathKind::Missing), Vec::<String>::new());
    assert_eq!(
        config_file.probe_paths(&field("/work"), PathKind::NotDirectory),
        Vec::<String>::new()
    );
}

#[test]
fn valid_configuration_has_no_faults() {
    let filesystem = directories(&["/work", "/work/src/foo"]);
    let config = config("/work", minimal());
    assert_eq!(config.validate(true, &filesystem), vec![]);
    assert_eq!(config.validate(false, &filesystem), vec![]);
}

#[test]
fn root_that_is_no_directory_is_reported_alone() {
    let config_file = ConfigFile {
        sources: vec![(field("src/foo"), field("foo")), (field("src/bar"), field("bar"))],
        blacklist: vec![],
        projects: vec![(field("orphan"), project("schema.graphql"))],
    };
    let config = config("/work", config_file);
    let expected = vec![ConfigValidationError::RootNotDirectory { root_dir: field("/work") }];
    assert_eq!(config.validate(true, &Filesystem::new()), expected);
    let root_is_a_file = Filesystem { directories: vec![], files: vec![field("/work")] };
    assert_eq!(config.validate(true, &root_is_a_file), expected);
}

#[test]
fn two_missing_sources_are_both_reported() {
    let config_file = ConfigFile {
        sources: vec![
            (field("src/foo"), field("foo")),
            (field("src/bar"), field("bar")),
            (field("src/baz"), field("baz")),
        ],
        blacklist: vec![],
        projects: vec![
            (field("foo"), project("foo.graphql")),
            (field("orphan"), project("orphan.graphql")),
        ],
    };
    let filesystem = directories(&["/work", "/work/src/bar"]);
    let errors = config("/work", config_file).validate(true, &filesystem);
    assert_eq!(
        errors,
        vec![
            ConfigValidationError::SourceNotExistent { source_dir: field("/work/src/foo") },
            ConfigValidationError::SourceNotExistent { source_dir: field("/work/src/baz") },
            ConfigValidationError::ProjectWithoutSource { project_name: field("orphan") },
        ]
    );
    let missing = errors
        .iter()
        .filter(|error| matches!(error, ConfigValidationError::SourceNotExistent { .. }))
        .count();
    assert_eq!(missing, 2);
}

#[test]
fn source_that_is_a_file_is_reported() {
    let filesystem =
        Filesystem { directories: vec![field("/work")], files: vec![field("/work/src/foo")] };
    assert_eq!(
        config("/work", minimal()).validate(true, &filesystem),
        vec![ConfigValidationError::SourceNotDirectory { source_dir: field("/work/src/foo") }]
    );
}

#[test]
fn absolute_source_directory_is_not_moved_below_the_root() {
    let config_file = ConfigFile {
        sources: vec![(field("/opt/shared"), field("foo"))],
        blacklist: vec![],
        projects: vec![(field("foo"), project("schema.graphql"))],
    };
    let config = config("/work", config_file);
    assert_eq!(config.validate(true, &directories(&["/work", "/opt/shared"])), vec![]);
    assert_eq!(
        config.validate(true, &directories(&["/work", "/work/opt/shared"])),
        vec![ConfigValidationError::SourceNotExistent { source_dir: field("/opt/shared") }]
    );
}

#[test]
fn project_without_source_is_reported() {
    let config_file = ConfigFile {
        sources: vec![(field("src/bar"), field("bar"))],
        blacklist: vec![],
        projects: vec![(field("foo"), project("schema.graphql"))],
    };
    let expected = vec![ConfigValidationError::ProjectWithoutSource { project_name: field("foo") }];
    let config = config("/work", config_file);
    assert_eq!(config.validate(false, &Filesystem::new()), expected);
    assert_eq!(config.validate(true, &directories(&["/work", "/work/src/bar"])), expected);
}

#[test]
fn source_set_is_matched_by_value_not_by_directory() {
    let config_file = ConfigFile {
        sources: vec![(field("foo"), field("bar"))],
        blacklist: vec![],
        projects: vec![(field("foo"), project("schema.graphql"))],
    };
    assert_eq!(
        config("/work", config_file).validate(false, &Filesystem::new()),
        vec![ConfigValidationError::ProjectWithoutSource { project_name: field("foo") }]
    );
}

#[test]
fn several_directories_may_feed_one_source_set() {
    let config_file = ConfigFile {
        sources: vec![(field("a"), field("foo")), (field("b"), field("foo"))],
        blacklist: vec![],
        projects: vec![(field("foo"), project("schema.graphql"))],
    };
    assert_eq!(config("/work", config_file).validate(false, &Filesystem::new()), vec![]);
}

#[test]
fn without_filesystem_checks_the_disk_does_not_matter() {
    let config_file = || ConfigFile {
        sources: vec![(field("src/foo"), field("foo"))],
        blacklist: vec![],
        projects: vec![
            (field("foo"), project("foo.graphql")),
            (field("bar"), project("bar.graphql")),
            (field("baz"), project("baz.graphql")),
        ],
    };
    let expected = vec![
        ConfigValidationError::ProjectWithoutSource { project_name: field("bar") },
        ConfigValidationError::ProjectWithoutSource { project_name: field("baz") },
    ];
    let on_empty_disk = config("/nowhere", config_file()).validate(false, &Filesystem::new());
    let on_full_disk = config("/nowhere", config_file())
        .validate(false, &directories(&["/nowhere", "/nowhere/src/foo"]));
    assert_eq!(on_empty_disk, expected);
    assert_eq!(on_full_disk, expected);
}

#[test]
fn load_without_filesystem_checks_succeeds_on_an_empty_disk() {
    let loaded = Config::load(field("/nowhere"), minimal(), false, &Filesystem::new()).unwrap();
    assert_eq!(loaded, config("/nowhere", minimal()));
}

#[test]
fn load_round_trips_the_document() {
    let filesystem = directories(&["/work", "/work/src/foo"]);
    let loaded = Config::load(field("/work"), minimal(), true, &filesystem).unwrap();
    assert_eq!(loaded.root_dir, "/work");
    assert_eq!(loaded.sources, minimal().sources);
    assert_eq!(loaded.projects, minimal().projects);
    assert_eq!(loaded.blacklist, minimal().blacklist);
}

#[test]
fn load_round_trips_the_decoded_text() {
    let config_string = r#"{
        "sources": { "src/foo": "foo" },
        "projects": { "foo": { "schema": "schema.graphql" } }
    }"#;
    let filesystem = directories(&["/work", "/work/src/foo"]);
    let config_file = ConfigFile::decode(config_string).unwrap();
    let loaded = Config::load(field("/work"), config_file, true, &filesystem).unwrap();
    assert_eq!(loaded.sources, vec![(field("src/foo"), field("foo"))]);
    assert_eq!(loaded.projects, vec![(field("foo"), project("schema.graphql"))]);
}

#[test]
fn load_twice_gives_equal_configurations() {
    let filesystem = directories(&["/work", "/work/src/foo"]);
    let first = Config::load(field("/work"), minimal(), true, &filesystem).unwrap();
    let second = Config::load(field("/work"), minimal(), true, &filesystem).unwrap();
    assert_eq!(first, second);
}

#[test]
fn load_returns_every_fault() {
    let config_file = ConfigFile {
        sources: vec![(field("src/foo"), field("foo")), (field("src/bar"), field("bar"))],
        blacklist: vec![],
        projects: vec![(field("orphan"), project("schema.graphql"))],
    };
    let filesystem =
        Filesystem { directories: vec![field("/work")], files: vec![field("/work/src/bar")] };
    assert_eq!(
        Config::load(field("/work"), config_file, true, &filesystem),
        Err(vec![
            ConfigValidationError::SourceNotExistent { source_dir: field("/work/src/foo") },
            ConfigValidationError::SourceNotDirectory { source_dir: field("/work/src/bar") },
            ConfigValidationError::ProjectWithoutSource { project_name: field("orphan") },
        ])
    );
}

#[test]
fn load_stops_at_a_root_that_is_no_directory() {
    assert_eq!(
        Config::load(field("/work"), minimal(), true, &Filesystem::new()),
        Err(vec![ConfigValidationError::RootNotDirectory { root_dir: field("/work") }])
    );
}

#[test]
fn load_document_names_the_document_in_its_error() {
    let config_file = ConfigFile {
        sources: vec![],
        blacklist: vec![],
        projects: vec![(field("foo"), project("schema.graphql"))],
    };
    let filesystem = directories(&["/work"]);
    match Config::load_document(field("/work"), field("relay.config.json"), config_file, &filesystem)
    {
        Err(ConfigError::ConfigFileValidation { config_path, validation_errors }) => {
            assert_eq!(config_path, "relay.config.json");
            assert_eq!(
                validation_errors,
                vec![ConfigValidationError::ProjectWithoutSource { project_name: field("foo") }]
            );
        },
        other => panic!("expected validation errors, got {:?}", other),
    }
}

#[test]
fn load_document_checks_the_filesystem() {
    let filesystem = directories(&["/work", "/work/src/foo"]);
    let loaded =
        Config::load_document(field("/work"), field("relay.config.json"), minimal(), &filesystem)
            .unwrap();
    assert_eq!(loaded, config("/work", minimal()));
    match Config::load_document(
        field("/work"),
        field("relay.config.json"),
        minimal(),
        &Filesystem::new(),
    ) {
        Err(ConfigError::ConfigFileValidation { validation_errors, .. }) => assert_eq!(
            validation_errors,
            vec![ConfigValidationError::RootNotDirectory { root_dir: field("/work") }]
        ),
        other => panic!("expected validation errors, got {:?}", other),
    }
}

#[test]
fn from_string_for_test_loads_at_the_virtual_root() {
    let config = Config::from_string_for_test(
        r#"{
            "sources": { "src/foo": "foo" },
            "blacklist": ["**/*.tmp"],
            "projects": { "foo": { "schema": "schema.graphql" } }
        }"#,
    )
    .unwrap();
    assert_eq!(config.root_dir, "/virtual/root");
    assert_eq!(config.sources, vec![(field("src/foo"), field("foo"))]);
    assert_eq!(config.blacklist, vec![field("**/*.tmp")]);
    assert_eq!(config.projects, vec![(field("foo"), project("schema.graphql"))]);
}

#[test]
fn from_string_for_test_returns_a_parse_error() {
    let loaded = Config::from_string_for_test(
        r#"{"sources":{"src/foo":"foo"},"projects":{"foo":{"schema":"schema.graphql"}},"extra":1}"#,
    );
    match loaded {
        Err(ConfigError::ConfigFileParse { config_path, source }) => {
            assert_eq!(config_path, "");
            match source {
                ConfigParseError::Schema(error) => {
                    assert_eq!(error, SchemaError::UnknownField { field: field("extra") })
                },
                other => panic!("expected a schema error, got {:?}", other),
            }
        },
        other => panic!("expected a parse error, got {:?}", other),
    }
    assert!(matches!(
        Config::from_string_for_test("{"),
        Err(ConfigError::ConfigFileParse { source: ConfigParseError::Syntax(_), .. })
    ));
    assert!(matches!(
        Config::from_string_for_test(r#"{"sources": {}}"#),
        Err(ConfigError::ConfigFileParse { source: ConfigParseError::Schema(_), .. })
    ));
}

#[test]
fn from_string_for_test_returns_projects_without_source() {
    let loaded = Config::from_string_for_test(
        r#"{"sources":{"src/bar":"bar"},"projects":{"foo":{"schema":"schema.graphql"}}}"#,
    );
    match loaded {
        Err(ConfigError::ConfigFileValidation { config_path, validation_errors }) => {
            assert_eq!(config_path, "");
            assert_eq!(
                validation_errors,
                vec![ConfigValidationError::ProjectWithoutSource { project_name: field("foo") }]
            );
        },
        other => panic!("expected validation errors, got {:?}", other),
    }
}

#[test]
fn path_kind_reads_the_two_answers_of_the_disk() {
    assert_eq!(path_kind(false, false), PathKind::Missing);
    assert_eq!(path_kind(false, true), PathKind::Missing);
    assert_eq!(path_kind(true, false), PathKind::NotDirectory);
    assert_eq!(path_kind(true, true), PathKind::Directory);
}

#[test]
fn repeated_keys_are_told_apart_from_mappings() {
    assert!(minimal().is_well_formed());
    assert!(ConfigFile { sources: vec![], blacklist: vec![], projects: vec![] }.is_well_formed());
    let repeated_source = ConfigFile {
        sources: vec![
            (field("src/foo"), field("foo")),
            (field("src/bar"), field("bar")),
            (field("src/foo"), field("baz")),
        ],
        blacklist: vec![],
        projects: vec![],
    };
    assert!(!repeated_source.is_well_formed());
    let repeated_project = ConfigFile {
        sources: vec![(field("src/foo"), field("foo"))],
        blacklist: vec![],
        projects: vec![(field("foo"), project("a.graphql")), (field("foo"), project("b.graphql"))],
    };
    assert!(!repeated_project.is_well_formed());
    assert!(config("/work", minimal()).has_unique_keys());
    assert!(!config("/work", repeated_source).has_unique_keys());
    assert!(!config("/work", repeated_project).has_unique_keys());
}

#[test]
fn same_source_set_under_two_directories_is_a_mapping() {
    let config_file = ConfigFile {
        sources: vec![(field("a"), field("foo")), (field("b"), field("foo"))],
        blacklist: vec![],
        projects: vec![(field("foo"), project("schema.graphql"))],
    };
    assert!(config_file.is_well_formed());
}
