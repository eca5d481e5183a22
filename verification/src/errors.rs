//! Why a configuration could not be loaded.

use vstd::prelude::*;

verus! {

#[verifier::external_type_specification]
#[verifier::external_body]
pub struct ExIoError(std::io::Error);

/// Why a JSON value does not fit the schema.
#[derive(Debug, PartialEq, Eq)]
pub enum SchemaError {
    /// The document is not a JSON object.
    NotAnObject,
    /// The value of the member `field` has the wrong JSON type.
    InvalidType { field: String },
    /// The schema has no member called `field`.
    UnknownField { field: String },
    /// The member `field` stands more than once in its object.
    DuplicateField { field: String },
    /// The required member `field` is absent.
    MissingField { field: String },
}

/// The mathematical content of a [`SchemaError`].
pub enum SchemaFault {
    NotAnObject,
    InvalidType { field: Seq<char> },
    UnknownField { field: Seq<char> },
    DuplicateField { field: Seq<char> },
    MissingField { field: Seq<char> },
}

impl DeepView for SchemaError {
    type V = SchemaFault;

    open spec fn deep_view(&self) -> SchemaFault {
        self@
    }
}

impl View for SchemaError {
    type V = SchemaFault;

    open spec fn view(&self) -> SchemaFault {
        match *self {
            SchemaError::NotAnObject => SchemaFault::NotAnObject,
            SchemaError::InvalidType { field } => SchemaFault::InvalidType { field: field@ },
            SchemaError::UnknownField { field } => SchemaFault::UnknownField { field: field@ },
            SchemaError::DuplicateField { field } => SchemaFault::DuplicateField { field: field@ },
            SchemaError::MissingField { field } => SchemaFault::MissingField { field: field@ },
        }
    }
}

/// One rule of validation that a configuration breaks.
#[derive(Debug, PartialEq, Eq)]
pub enum ConfigValidationError {
    /// The root is no existing directory.
    RootNotDirectory { root_dir: String },
    /// Nothing exists where a source directory should be.
    SourceNotExistent { source_dir: String },
    /// What stands at the place of a source directory is no directory.
    SourceNotDirectory { source_dir: String },
    /// No source directory belongs to the source set of the project.
    ProjectWithoutSource { project_name: String },
}

/// The mathematical content of a [`ConfigValidationError`].
pub enum ValidationFault {
    RootNotDirectory { root_dir: Seq<char> },
    SourceNotExistent { source_dir: Seq<char> },
    SourceNotDirectory { source_dir: Seq<char> },
    ProjectWithoutSource { project_name: Seq<char> },
}

impl View for ConfigValidationError {
    type V = ValidationFault;

    open spec fn view(&self) -> ValidationFault {
        match *self {
            ConfigValidationError::RootNotDirectory { root_dir } => ValidationFault::RootNotDirectory {
                root_dir: root_dir@,
            },
            ConfigValidationError::SourceNotExistent {
                source_dir,
            } => ValidationFault::SourceNotExistent { source_dir: source_dir@ },
            ConfigValidationError::SourceNotDirectory {
                source_dir,
            } => ValidationFault::SourceNotDirectory { source_dir: source_dir@ },
            ConfigValidationError::ProjectWithoutSource {
                project_name,
            } => ValidationFault::ProjectWithoutSource { project_name: project_name@ },
        }
    }
}

impl DeepView for ConfigValidationError {
    type V = ValidationFault;

    open spec fn deep_view(&self) -> ValidationFault {
        self@
    }
}

/// Why a text is no configuration document.
#[derive(Debug)]
pub enum ConfigParseError {
    /// The text is not well-formed JSON; the parser's own error says where.
    Syntax(serde_json::Error),
    /// The text is JSON that does not fit the schema.
    Schema(SchemaError),
}

/// The mathematical content of a [`ConfigParseError`].
pub enum ParseFault {
    Syntax,
    Schema(SchemaFault),
}

impl View for ConfigParseError {
    type V = ParseFault;

    open spec fn view(&self) -> ParseFault {
        match *self {
            ConfigParseError::Syntax(_) => ParseFault::Syntax,
            ConfigParseError::Schema(error) => ParseFault::Schema(error@),
        }
    }
}

/// Why loading the configuration at `config_path` failed.
#[derive(Debug)]
#[allow(inconsistent_fields)]
pub enum ConfigError {
    /// The document could not be read.
    ConfigFileRead { config_path: String, source: std::io::Error },
    /// The document does not decode.
    ConfigFileParse { config_path: String, source: ConfigParseError },
    /// The document decodes and breaks rules of validation: all of them that
    /// were found.
    ConfigFileValidation { config_path: String, validation_errors: Vec<ConfigValidationError> },
}

/// The mathematical content of a [`ConfigError`].
pub enum LoadFault {
    ConfigFileRead { config_path: Seq<char> },
    ConfigFileParse { config_path: Seq<char>, source: ParseFault },
    ConfigFileValidation { config_path: Seq<char>, validation_errors: Seq<ValidationFault> },
}

impl View for ConfigError {
    type V = LoadFault;

    open spec fn view(&self) -> LoadFault {
        match *self {
            ConfigError::ConfigFileRead { config_path, source } => LoadFault::ConfigFileRead {
                config_path: config_path@,
            },
            ConfigError::ConfigFileParse { config_path, source } => LoadFault::ConfigFileParse {
                config_path: config_path@,
                source: source@,
            },
            ConfigError::ConfigFileValidation {
                config_path,
                validation_errors,
            } => LoadFault::ConfigFileValidation {
                config_path: config_path@,
                validation_errors: validation_errors.deep_view(),
            },
        }
    }
}

} // verus!
