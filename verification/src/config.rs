//! The runtime configuration: assembling it from a decoded document and
//! validating it.

use vstd::prelude::*;
use crate::errors::{ConfigError, ConfigValidationError, LoadFault, ValidationFault};
use crate::filesystem::{join_path, joined_path, Filesystem, PathKind};
use crate::json::json_text_value;
use crate::laws::{
    lemma_accepted_on_disk, lemma_accepted_projects_have_sources,
    lemma_unchecked_ignores_filesystem,
};
use crate::scan::collect_some;
use crate::schema::{
    decoded_text, keys_distinct, lemma_keys_of_entries, ConfigFile, ConfigProject,
    DocumentModel, ProjectModel,
};
use crate::strictness::{has_unknown_field, lacks_required_field};

verus! {

/// The full configuration of the compiler: a configuration document
/// together with the root of the projects it describes.
#[derive(Debug, PartialEq, Eq)]
pub struct Config {
    /// Root directory of all projects. Every other path is relative to it
    /// unless it is absolute.
    pub root_dir: String,
    /// Source directories, relative to the root, each with its source set.
    pub sources: Vec<(String, String)>,
    /// Glob patterns of files that belong to no source set.
    pub blacklist: Vec<String>,
    /// The projects to compile, by name.
    pub projects: Vec<(String, ConfigProject)>,
}

/// The mathematical content of a [`Config`].
pub struct ConfigModel {
    pub root_dir: Seq<char>,
    pub sources: Seq<(Seq<char>, Seq<char>)>,
    pub blacklist: Seq<Seq<char>>,
    pub projects: Seq<(Seq<char>, ProjectModel)>,
}

impl View for Config {
    type V = ConfigModel;

    open spec fn view(&self) -> ConfigModel {
        ConfigModel {
            root_dir: self.root_dir@,
            sources: self.sources.deep_view(),
            blacklist: self.blacklist.deep_view(),
            projects: self.projects.deep_view(),
        }
    }
}

impl ConfigModel {
    /// Whether `sources` and `projects` are mappings: no source directory
    /// and no project name stands twice.
    pub open spec fn keys_unique(self) -> bool {
        keys_distinct(self.sources) && keys_distinct(self.projects)
    }

    /// Whether the configuration keeps what every later stage relies on:
    /// no source directory and no project name stands twice, and every
    /// project has a source directory of its own source set.
    pub open spec fn well_formed(self) -> bool {
        &&& self.keys_unique()
        &&& forall|i: int|
            0 <= i < self.projects.len() ==> has_source_set(
                self.sources,
                (#[trigger] self.projects[i]).0,
            )
    }

    /// Whether, by the record, the root and every source directory below
    /// it is a directory.
    pub open spec fn on_disk(self, filesystem: Filesystem) -> bool {
        &&& filesystem.kind_at(self.root_dir) is Directory
        &&& forall|i: int|
            0 <= i < self.sources.len() ==> filesystem.kind_at(
                joined_path(self.root_dir, (#[trigger] self.sources[i]).0),
            ) is Directory
    }
}

/// The configuration that a document gives at a root: the document's three
/// parts as they are, and the root.
pub open spec fn assembled(root_dir: Seq<char>, document: DocumentModel) -> ConfigModel {
    ConfigModel {
        root_dir,
        sources: document.sources,
        blacklist: document.blacklist,
        projects: document.projects,
    }
}

/// What is wrong with a source directory: nothing exists where it should
/// be, below the root, or what exists there is no directory.
pub open spec fn source_fault(
    root_dir: Seq<char>,
    source_dir: Seq<char>,
    filesystem: Filesystem,
) -> Option<ValidationFault> {
    let location = joined_path(root_dir, source_dir);
    match filesystem.kind_at(location) {
        PathKind::Missing => Some(ValidationFault::SourceNotExistent { source_dir: location }),
        PathKind::NotDirectory => Some(
            ValidationFault::SourceNotDirectory { source_dir: location },
        ),
        PathKind::Directory => None,
    }
}

/// Whether some source directory belongs to the source set.
pub open spec fn has_source_set(sources: Seq<(Seq<char>, Seq<char>)>, source_set: Seq<char>) -> bool {
    exists|i: int| 0 <= i < sources.len() && (#[trigger] sources[i]).1 == source_set
}

/// What is wrong with a project: no source directory belongs to its own
/// source set, the one that shares the project's name.
pub open spec fn project_fault(
    sources: Seq<(Seq<char>, Seq<char>)>,
    project_name: Seq<char>,
) -> Option<ValidationFault> {
    if has_source_set(sources, project_name) {
        None
    } else {
        Some(ValidationFault::ProjectWithoutSource { project_name })
    }
}

/// The faults of the source directories, in the order of the directories.
pub open spec fn source_faults(config: ConfigModel, filesystem: Filesystem) -> Seq<ValidationFault> {
    collect_some(
        |i: int| source_fault(config.root_dir, config.sources[i].0, filesystem),
        config.sources.len(),
    )
}

/// The faults of the projects, in the order of the projects.
pub open spec fn project_faults(config: ConfigModel) -> Seq<ValidationFault> {
    collect_some(|i: int| project_fault(config.sources, config.projects[i].0), config.projects.len())
}

/// Everything that validation reports of a configuration.
///
/// With filesystem checks, a root that is no directory is reported alone:
/// nothing else is looked at. Otherwise the faults of all source
/// directories come first, where the filesystem is checked, and the faults
/// of all projects follow.
pub open spec fn validation_faults(
    config: ConfigModel,
    validate_filesystem: bool,
    filesystem: Filesystem,
) -> Seq<ValidationFault> {
    if validate_filesystem && !(filesystem.kind_at(config.root_dir) is Directory) {
        seq![ValidationFault::RootNotDirectory { root_dir: config.root_dir }]
    } else if validate_filesystem {
        source_faults(config, filesystem) + project_faults(config)
    } else {
        project_faults(config)
    }
}

/// Where on disk the source directories lie: each adjoined to the root, in
/// the order of the document.
pub open spec fn source_locations(root_dir: Seq<char>, sources: Seq<(Seq<char>, Seq<char>)>) -> Seq<
    Seq<char>,
> {
    Seq::new(sources.len(), |i: int| joined_path(root_dir, sources[i].0))
}

/// The paths that validation reads once it knows what stands at the root:
/// the places of the source directories below a root that is a directory,
/// and nothing below any other root.
pub open spec fn probed_paths(
    root_dir: Seq<char>,
    sources: Seq<(Seq<char>, Seq<char>)>,
    root_kind: PathKind,
) -> Seq<Seq<char>> {
    if root_kind is Directory {
        source_locations(root_dir, sources)
    } else {
        Seq::empty()
    }
}

/// What loading yields: the assembled configuration where validation
/// reports nothing, else everything that it reports.
pub open spec fn load_outcome(
    root_dir: Seq<char>,
    document: DocumentModel,
    validate_filesystem: bool,
    filesystem: Filesystem,
) -> Result<ConfigModel, Seq<ValidationFault>> {
    let config = assembled(root_dir, document);
    let faults = validation_faults(config, validate_filesystem, filesystem);
    if faults.len() == 0 {
        Ok(config)
    } else {
        Err(faults)
    }
}

/// The mathematical content of what [`Config::load`] returns.
pub open spec fn outcome_model(loaded: Result<Config, Vec<ConfigValidationError>>) -> Result<
    ConfigModel,
    Seq<ValidationFault>,
> {
    match loaded {
        Ok(config) => Ok(config@),
        Err(errors) => Err(errors.deep_view()),
    }
}

/// What loading from a string yields. The root is `/virtual/root` and the
/// filesystem is not checked, so the text alone decides. A text that does
/// not decode gives `ConfigFileParse` with the cause; a document with
/// projects without a source gives `ConfigFileValidation` with all of
/// them. A text has no path: the path in both is empty.
pub open spec fn string_load_outcome(text: Seq<char>) -> Result<ConfigModel, LoadFault> {
    match decoded_text(text) {
        Err(cause) => Err(
            LoadFault::ConfigFileParse { config_path: Seq::empty(), source: cause },
        ),
        Ok(document) => {
            let config = assembled("/virtual/root"@, document);
            if project_faults(config).len() == 0 {
                Ok(config)
            } else {
                Err(
                    LoadFault::ConfigFileValidation {
                        config_path: Seq::empty(),
                        validation_errors: project_faults(config),
                    },
                )
            }
        },
    }
}

/// Tells whether no two entries stand under the same key.
fn keys_differ<V>(entries: &Vec<(String, V)>) -> (distinct: bool)
    ensures
        distinct == (forall|i: int, j: int|
            0 <= i < j < entries@.len() ==> (#[trigger] entries@[i]).0@ != (
            #[trigger] entries@[j]).0@),
{
    let mut j: usize = 0;
    while j < entries.len()
        invariant
            j <= entries.len(),
            forall|a: int, b: int|
                0 <= a < b < j ==> (#[trigger] entries@[a]).0@ != (#[trigger] entries@[b]).0@,
        decreases entries.len() - j,
    {
        let mut i: usize = 0;
        while i < j
            invariant
                i <= j < entries.len(),
                forall|a: int| 0 <= a < i ==> (#[trigger] entries@[a]).0@ != entries@[j as int].0@,
            decreases j - i,
        {
            if entries[i].0 == entries[j].0 {
                return false;
            }
            i += 1;
        }
        j += 1;
    }
    true
}

/// Tells whether some source directory belongs to the source set.
fn source_set_has_directory(sources: &Vec<(String, String)>, source_set: &String) -> (found:
    bool)
    ensures
        found == has_source_set(sources.deep_view(), source_set@),
{
    let mut i: usize = 0;
    while i < sources.len()
        invariant
            i <= sources.len(),
            forall|k: int| 0 <= k < i ==> (#[trigger] sources@[k]).1@ != source_set@,
        decreases sources.len() - i,
    {
        if sources[i].1 == *source_set {
            assert(sources.deep_view()[i as int].1 == source_set@);
            return true;
        }
        i += 1;
    }
    false
}

impl ConfigFile {
    /// Tells whether the document is a pair of mappings.
    pub fn is_well_formed(&self) -> (well_formed: bool)
        ensures
            well_formed == self@.well_formed(),
    {
        let distinct = keys_differ(&self.sources) && keys_differ(&self.projects);
        proof {
            lemma_keys_of_entries(self.sources);
            lemma_keys_of_entries(self.projects);
        }
        distinct
    }

    /// Lists the paths that validation with filesystem checks reads besides
    /// the root, for the caller to look at. `root_kind` is what the caller
    /// found at `root_dir`: below a root that is no directory there is
    /// nothing to look at.
    pub fn probe_paths(&self, root_dir: &String, root_kind: PathKind) -> (paths: Vec<String>)
        ensures
            paths.deep_view() == probed_paths(root_dir@, self@.sources, root_kind),
    {
        let mut paths: Vec<String> = Vec::new();
        match root_kind {
            PathKind::Directory => {
                let mut i: usize = 0;
                while i < self.sources.len()
                    invariant
                        i <= self.sources.len(),
                        paths@.len() == i,
                        forall|k: int|
                            0 <= k < i ==> (#[trigger] paths@[k])@ == joined_path(
                                root_dir@,
                                self.sources@[k].0@,
                            ),
                    decreases self.sources.len() - i,
                {
                    paths.push(join_path(root_dir, &self.sources[i].0));
                    i += 1;
                }
            },
            _ => {},
        }
        paths
    }
}

impl Config {
    /// Tells whether `sources` and `projects` are mappings.
    pub fn has_unique_keys(&self) -> (unique: bool)
        ensures
            unique == self@.keys_unique(),
    {
        let unique = keys_differ(&self.sources) && keys_differ(&self.projects);
        proof {
            lemma_keys_of_entries(self.sources);
            lemma_keys_of_entries(self.projects);
        }
        unique
    }

    /// Checks the configuration and returns every fault found.
    ///
    /// `validate_fs` turns the filesystem checks on; without it the
    /// filesystem record is not read. `sources` and `projects` are
    /// mappings: no key stands twice.
    pub fn validate(&self, validate_fs: bool, filesystem: &Filesystem) -> (errors: Vec<
        ConfigValidationError,
    >)
        requires
            self@.keys_unique(),
        ensures
            errors.deep_view() == validation_faults(self@, validate_fs, *filesystem),
            validate_fs && !(filesystem.kind_at(self@.root_dir) is Directory) ==> errors.deep_view()
                == seq![ValidationFault::RootNotDirectory { root_dir: self@.root_dir }],
            !validate_fs ==> forall|k: int|
                0 <= k < errors@.len() ==> (#[trigger] errors@[k]) is ProjectWithoutSource,
    {
        let mut errors: Vec<ConfigValidationError> = Vec::new();
        if validate_fs {
            match filesystem.kind_of(&self.root_dir) {
                PathKind::Directory => {},
                _ => {
                    errors.push(
                        ConfigValidationError::RootNotDirectory { root_dir: self.root_dir.clone() },
                    );
                    return errors;
                },
            }
            let ghost fault_of = |k: int|
                source_fault(self@.root_dir, self@.sources[k].0, *filesystem);
            let mut i: usize = 0;
            while i < self.sources.len()
                invariant
                    fault_of == |k: int|
                        source_fault(self@.root_dir, self@.sources[k].0, *filesystem),
                    i <= self.sources.len(),
                    errors.deep_view() == collect_some(fault_of, i as nat),
                decreases self.sources.len() - i,
            {
                let location = join_path(&self.root_dir, &self.sources[i].0);
                match filesystem.kind_of(&location) {
                    PathKind::Missing => {
                        errors.push(
                            ConfigValidationError::SourceNotExistent { source_dir: location },
                        );
                    },
                    PathKind::NotDirectory => {
                        errors.push(
                            ConfigValidationError::SourceNotDirectory { source_dir: location },
                        );
                    },
                    PathKind::Directory => {},
                }
                i += 1;
            }
        }
        let ghost checked = errors.deep_view();
        let ghost fault_of = |k: int| project_fault(self@.sources, self@.projects[k].0);
        let mut i: usize = 0;
        while i < self.projects.len()
            invariant
                fault_of == |k: int| project_fault(self@.sources, self@.projects[k].0),
                i <= self.projects.len(),
                errors.deep_view() == checked + collect_some(fault_of, i as nat),
            decreases self.projects.len() - i,
        {
            let ghost before = errors.deep_view();
            let project_name = &self.projects[i].0;
            if !source_set_has_directory(&self.sources, project_name) {
                errors.push(
                    ConfigValidationError::ProjectWithoutSource {
                        project_name: project_name.clone(),
                    },
                );
                assert(errors.deep_view() =~= before.push(
                    ValidationFault::ProjectWithoutSource { project_name: project_name@ },
                ));
            }
            i += 1;
        }
        proof {
            if !validate_fs {
                lemma_unchecked_ignores_filesystem(self@, *filesystem, *filesystem);
                assert forall|k: int| 0 <= k < errors@.len() implies (
                #[trigger] errors@[k]) is ProjectWithoutSource by {
                    assert(errors.deep_view()[k] == errors@[k]@);
                }
            }
        }
        errors
    }

    /// Assembles the configuration of a decoded document at `root_dir` and
    /// validates it.
    ///
    /// Returns the configuration where validation finds no fault, else all
    /// the faults found: a root that is no directory alone, every other
    /// fault together with all the others. The document is a pair of
    /// mappings, as every decoded document is.
    pub fn load(
        root_dir: String,
        config_file: ConfigFile,
        validate_filesystem: bool,
        filesystem: &Filesystem,
    ) -> (loaded: Result<Config, Vec<ConfigValidationError>>)
        requires
            config_file@.well_formed(),
        ensures
            outcome_model(loaded) == load_outcome(
                root_dir@,
                config_file@,
                validate_filesystem,
                *filesystem,
            ),
            loaded matches Ok(config) ==> {
                &&& config@.well_formed()
                &&& validate_filesystem ==> config@.on_disk(*filesystem)
            },
            validate_filesystem && !(filesystem.kind_at(root_dir@) is Directory) ==> outcome_model(
                loaded,
            ) == Err::<ConfigModel, _>(
                seq![ValidationFault::RootNotDirectory { root_dir: root_dir@ }],
            ),
            !validate_filesystem ==> (loaded matches Err(errors) ==> forall|k: int|
                0 <= k < errors@.len() ==> (#[trigger] errors@[k]) is ProjectWithoutSource),
    {
        let config = Config {
            root_dir,
            sources: config_file.sources,
            blacklist: config_file.blacklist,
            projects: config_file.projects,
        };
        let errors = config.validate(validate_filesystem, filesystem);
        if errors.len() == 0 {
            proof {
                lemma_accepted_projects_have_sources(config@, validate_filesystem, *filesystem);
                if validate_filesystem {
                    lemma_accepted_on_disk(config@, *filesystem);
                }
            }
            Ok(config)
        } else {
            Err(errors)
        }
    }

    /// Loads the decoded document that was read from `config_path`, with
    /// filesystem checks. A failure names that path and carries every
    /// fault that validation found.
    pub fn load_document(
        root_dir: String,
        config_path: String,
        config_file: ConfigFile,
        filesystem: &Filesystem,
    ) -> (loaded: Result<Config, ConfigError>)
        requires
            config_file@.well_formed(),
        ensures
            match loaded {
                Ok(config) => load_outcome(root_dir@, config_file@, true, *filesystem) == Ok::<
                    _,
                    Seq<ValidationFault>,
                >(config@) && config@.on_disk(*filesystem) && config@.well_formed(),
                Err(error) => load_outcome(root_dir@, config_file@, true, *filesystem) matches Err(
                    faults,
                ) && error@ == (LoadFault::ConfigFileValidation {
                    config_path: config_path@,
                    validation_errors: faults,
                }),
            },
    {
        match Config::load(root_dir, config_file, true, filesystem) {
            Ok(config) => Ok(config),
            Err(validation_errors) => Err(
                ConfigError::ConfigFileValidation { config_path, validation_errors },
            ),
        }
    }

    /// Loads a configuration from the text of a document, at the root
    /// `/virtual/root` and without filesystem checks.
    ///
    /// A text that does not decode and a document with a project without a
    /// source are returned as errors. A text has no path, so the path in
    /// these errors is empty.
    pub fn from_string_for_test(config_string: &str) -> (loaded: Result<Config, ConfigError>)
        ensures
            match loaded {
                Ok(config) => string_load_outcome(config_string@) == Ok::<_, LoadFault>(config@)
                    && config@.well_formed(),
                Err(error) => string_load_outcome(config_string@) == Err::<ConfigModel, _>(
                    error@,
                ),
            },
            decoded_text(config_string@) is Err <==> loaded matches Err(
                ConfigError::ConfigFileParse { .. },
            ),
            json_text_value(config_string@) matches Some(document) && (has_unknown_field(document)
                || lacks_required_field(document)) ==> loaded matches Err(
                ConfigError::ConfigFileParse { .. },
            ),
            loaded matches Err(
                ConfigError::ConfigFileValidation { validation_errors, .. },
            ) ==> validation_errors@.len() > 0 && forall|k: int|
                0 <= k < validation_errors@.len() ==> (
                #[trigger] validation_errors@[k]) is ProjectWithoutSource,
    {
        let config_file = match ConfigFile::decode(config_string) {
            Ok(config_file) => config_file,
            Err(source) => {
                return Err(ConfigError::ConfigFileParse { config_path: String::new(), source });
            },
        };
        let filesystem = Filesystem::new();
        match Config::load("/virtual/root".to_owned(), config_file, false, &filesystem) {
            Ok(config) => Ok(config),
            Err(validation_errors) => Err(
                ConfigError::ConfigFileValidation { config_path: String::new(), validation_errors },
            ),
        }
    }
}

} // verus!
