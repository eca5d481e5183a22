//! What validation guarantees of every configuration.

use vstd::prelude::*;
use crate::config::{
    has_source_set, load_outcome, probed_paths, project_fault, project_faults, source_fault,
    source_faults, source_locations, validation_faults, Config, ConfigModel,
};
use crate::errors::ValidationFault;
use crate::filesystem::{joined_path, Filesystem};
use crate::scan::{
    lemma_collect_some_agree, lemma_collect_some_contains, lemma_collect_some_in_order,
    lemma_collect_some_origin,
};
use crate::schema::DocumentModel;

verus! {

/// A configuration of which validation reports nothing has, for every
/// project, a source directory of the project's own source set.
pub proof fn lemma_accepted_projects_have_sources(
    config: ConfigModel,
    validate_filesystem: bool,
    filesystem: Filesystem,
)
    requires
        validation_faults(config, validate_filesystem, filesystem).len() == 0,
    ensures
        forall|i: int|
            0 <= i < config.projects.len() ==> has_source_set(
                config.sources,
                (#[trigger] config.projects[i]).0,
            ),
{
    assert forall|i: int| 0 <= i < config.projects.len() implies has_source_set(
        config.sources,
        (#[trigger] config.projects[i]).0,
    ) by {
        if !has_source_set(config.sources, config.projects[i].0) {
            lemma_collect_some_contains(
                |k: int| project_fault(config.sources, config.projects[k].0),
                config.projects.len(),
                i,
            );
        }
    }
}

/// A configuration of which validation with filesystem checks reports
/// nothing has a root and source directories that are directories.
pub proof fn lemma_accepted_on_disk(config: ConfigModel, filesystem: Filesystem)
    requires
        validation_faults(config, true, filesystem).len() == 0,
    ensures
        config.on_disk(filesystem),
{
    assert forall|i: int| 0 <= i < config.sources.len() implies filesystem.kind_at(
        joined_path(config.root_dir, (#[trigger] config.sources[i]).0),
    ) is Directory by {
        if source_fault(config.root_dir, config.sources[i].0, filesystem) is Some {
            lemma_collect_some_contains(
                |k: int| source_fault(config.root_dir, config.sources[k].0, filesystem),
                config.sources.len(),
                i,
            );
        }
    }
}

/// Without filesystem checks validation does not depend on the
/// filesystem, and all it reports is projects without a source.
pub proof fn lemma_unchecked_ignores_filesystem(
    config: ConfigModel,
    first: Filesystem,
    second: Filesystem,
)
    ensures
        validation_faults(config, false, first) == validation_faults(config, false, second),
        forall|k: int|
            0 <= k < validation_faults(config, false, first).len() ==> (
            #[trigger] validation_faults(config, false, first)[k]) is ProjectWithoutSource,
{
    let faults = validation_faults(config, false, first);
    assert forall|k: int| 0 <= k < faults.len() implies (
    #[trigger] faults[k]) is ProjectWithoutSource by {
        lemma_collect_some_origin(
            |i: int| project_fault(config.sources, config.projects[i].0),
            config.projects.len(),
            k,
        );
    }
}

/// With filesystem checks, a root that is no directory is all that
/// validation reports.
pub proof fn lemma_bad_root_is_reported_alone(config: ConfigModel, filesystem: Filesystem)
    requires
        !(filesystem.kind_at(config.root_dir) is Directory),
    ensures
        validation_faults(config, true, filesystem) == seq![
            ValidationFault::RootNotDirectory { root_dir: config.root_dir },
        ],
{
}

/// Below a root that is a directory, every source directory that is
/// missing or no directory is reported, whatever else is wrong.
pub proof fn lemma_bad_source_is_reported(config: ConfigModel, filesystem: Filesystem, i: int)
    requires
        filesystem.kind_at(config.root_dir) is Directory,
        0 <= i < config.sources.len(),
        !(filesystem.kind_at(joined_path(config.root_dir, config.sources[i].0)) is Directory),
    ensures
        validation_faults(config, true, filesystem).contains(
            source_fault(config.root_dir, config.sources[i].0, filesystem)->Some_0,
        ),
{
    let fault = source_fault(config.root_dir, config.sources[i].0, filesystem)->Some_0;
    lemma_collect_some_contains(
        |k: int| source_fault(config.root_dir, config.sources[k].0, filesystem),
        config.sources.len(),
        i,
    );
    let checked = source_faults(config, filesystem);
    let at = choose|k: int| 0 <= k < checked.len() && checked[k] == fault;
    assert(validation_faults(config, true, filesystem)[at] == fault);
}

/// Every source directory that validation reports is one of the
/// configuration, and is missing or no directory as reported.
pub proof fn lemma_reported_source_is_bad(config: ConfigModel, filesystem: Filesystem, k: int) -> (i:
    int)
    requires
        0 <= k < source_faults(config, filesystem).len(),
    ensures
        0 <= i < config.sources.len(),
        source_fault(config.root_dir, config.sources[i].0, filesystem) == Some(
            source_faults(config, filesystem)[k],
        ),
{
    lemma_collect_some_origin(
        |j: int| source_fault(config.root_dir, config.sources[j].0, filesystem),
        config.sources.len(),
        k,
    )
}

/// Source directories are reported in their order, each bad one once: of
/// two reports, the earlier one is about an earlier source directory.
pub proof fn lemma_reported_sources_in_order(
    config: ConfigModel,
    filesystem: Filesystem,
    k: int,
    l: int,
) -> (origin: (int, int))
    requires
        0 <= k < l < source_faults(config, filesystem).len(),
    ensures
        0 <= origin.0 < origin.1 < config.sources.len(),
        source_fault(config.root_dir, config.sources[origin.0].0, filesystem) == Some(
            source_faults(config, filesystem)[k],
        ),
        source_fault(config.root_dir, config.sources[origin.1].0, filesystem) == Some(
            source_faults(config, filesystem)[l],
        ),
{
    lemma_collect_some_in_order(
        |j: int| source_fault(config.root_dir, config.sources[j].0, filesystem),
        config.sources.len(),
        k,
        l,
    )
}

/// A project without a source directory of its own source set is
/// reported, unless a root that is no directory is reported alone.
pub proof fn lemma_project_without_source_is_reported(
    config: ConfigModel,
    validate_filesystem: bool,
    filesystem: Filesystem,
    i: int,
)
    requires
        validate_filesystem ==> filesystem.kind_at(config.root_dir) is Directory,
        0 <= i < config.projects.len(),
        !has_source_set(config.sources, config.projects[i].0),
    ensures
        validation_faults(config, validate_filesystem, filesystem).contains(
            ValidationFault::ProjectWithoutSource { project_name: config.projects[i].0 },
        ),
{
    let fault = ValidationFault::ProjectWithoutSource { project_name: config.projects[i].0 };
    lemma_collect_some_contains(
        |k: int| project_fault(config.sources, config.projects[k].0),
        config.projects.len(),
        i,
    );
    let unsourced = project_faults(config);
    let at = choose|k: int| 0 <= k < unsourced.len() && unsourced[k] == fault;
    if validate_filesystem {
        let checked = source_faults(config, filesystem);
        assert(validation_faults(config, validate_filesystem, filesystem)[checked.len() + at]
            == fault);
    }
}

/// Validation reads the filesystem at the root and at the probed paths
/// only: two records that agree there give the same report.
pub proof fn lemma_validation_reads_probed_paths(
    config: ConfigModel,
    first: Filesystem,
    second: Filesystem,
)
    requires
        first.kind_at(config.root_dir) == second.kind_at(config.root_dir),
        forall|p: int|
            0 <= p < probed_paths(
                config.root_dir,
                config.sources,
                first.kind_at(config.root_dir),
            ).len() ==> first.kind_at(
                (#[trigger] source_locations(config.root_dir, config.sources)[p]),
            ) == second.kind_at(source_locations(config.root_dir, config.sources)[p]),
    ensures
        validation_faults(config, true, first) == validation_faults(config, true, second),
{
    if first.kind_at(config.root_dir) is Directory {
        let places = source_locations(config.root_dir, config.sources);
        let in_first = |k: int| source_fault(config.root_dir, config.sources[k].0, first);
        let in_second = |k: int| source_fault(config.root_dir, config.sources[k].0, second);
        assert forall|k: int| 0 <= k < config.sources.len() implies (#[trigger] in_first(k))
            == in_second(k) by {
            assert(places[k] == joined_path(config.root_dir, config.sources[k].0));
        }
        lemma_collect_some_agree(in_first, in_second, config.sources.len());
    }
}

/// Loading is repeatable: two configurations loaded from the same
/// document, at the same root and against the same record, have the same
/// content.
pub proof fn lemma_load_is_repeatable(
    first: Config,
    second: Config,
    root_dir: Seq<char>,
    document: DocumentModel,
    validate_filesystem: bool,
    filesystem: Filesystem,
)
    requires
        load_outcome(root_dir, document, validate_filesystem, filesystem) == Ok::<
            _,
            Seq<ValidationFault>,
        >(first@),
        load_outcome(root_dir, document, validate_filesystem, filesystem) == Ok::<
            _,
            Seq<ValidationFault>,
        >(second@),
    ensures
        first@ == second@,
        first.root_dir@ == second.root_dir@,
        first.sources.deep_view() == second.sources.deep_view(),
        first.blacklist.deep_view() == second.blacklist.deep_view(),
        first.projects.deep_view() == second.projects.deep_view(),
{
}

} // verus!
