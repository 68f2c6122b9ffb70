//! Create: capture a directory tree under a name.

use vstd::prelude::*;
use crate::archive::{select_entries, selected};
use crate::cli::{Task, TaskView};
use crate::definition::{
    merge, merged, CreateConfig, CreateConfigView, DefinitionInput, DefinitionInputView,
};
use crate::error::{Error, ErrorView};
use crate::filter::{compile_outcome, GlobFilter};
use crate::protocol::{
    broken, complete, completed, give_up, refuse, refused, Reply, ReplyView, Request, RequestView,
    Stage, StageView,
};
use crate::template::{Template, TemplateView, Timestamp};

verus! {

/// The record of a template that was just captured: the merged fields, the
/// size of its artifact and the time of its creation. It was never used.
pub open spec fn new_record(config: CreateConfigView, size: u64, now: Timestamp) -> TemplateView {
    TemplateView {
        name: config.name,
        description: config.description,
        commands: config.commands,
        compressed_size: size,
        ignore: config.ignore,
        created: now,
        used: None,
    }
}

/// Builds the record of a template that was just captured.
pub fn make_record(config: CreateConfig, size: u64, now: Timestamp) -> (record: Template)
    ensures
        record@ == new_record(config@, size, now),
{
    Template {
        name: config.name,
        description: config.description,
        commands: config.commands,
        compressed_size: size,
        ignore: config.ignore,
        created: now,
        used: None,
    }
}

/// What Create does once it knows what became of the definition document:
/// it merges the fields and asks whether the name is taken. A capture that
/// is given no name, of a source whose path has no last component to name it
/// after, is refused.
pub open spec fn create_merged(
    task: TaskView,
    definition: DefinitionInputView,
    base_name: Option<Seq<char>>,
) -> (StageView, RequestView)
    recommends
        task is Create,
{
    match merged(
        task->Create_name,
        task->Create_description,
        task->Create_commands,
        task->Create_ignore,
        definition,
        base_name,
    ) {
        Some(config) => (
            StageView::CreateChecking { config },
            RequestView::HasRecord { name: config.name },
        ),
        None => refused(ErrorView::NoFileName(task->Create_path)),
    }
}

/// The step of Create: what it asks next, given where it stands and what the
/// host reports.
///
/// The source has to be a directory. The fields are merged, and a name that
/// is taken is refused unless overwriting is asked for. The ignore patterns
/// are checked before anything is written. The archive is written with the
/// paths that no pattern matches, and only when the host has reported its
/// size is the record made and stored.
pub open spec fn create_next(task: TaskView, stage: StageView, reply: ReplyView) -> (
    StageView,
    RequestView,
) {
    match task {
        TaskView::Create { path, definition_file, force, .. } => match (stage, reply) {
            (StageView::Start, ReplyView::Begin) => (
                StageView::CreateProbing,
                RequestView::ProbeSource { path },
            ),
            (StageView::CreateProbing, ReplyView::Source { is_directory, base_name }) => {
                if !is_directory {
                    refused(ErrorView::InvalidTemplateDir(path))
                } else {
                    match definition_file {
                        Some(file) => (
                            StageView::CreateLoading { base_name },
                            RequestView::LoadDefinition { path: file },
                        ),
                        None => create_merged(task, DefinitionInputView::Absent, base_name),
                    }
                }
            },
            (StageView::CreateLoading { base_name }, ReplyView::Definition(definition)) => {
                create_merged(task, definition, base_name)
            },
            (StageView::CreateChecking { config }, ReplyView::Flag(taken)) => {
                if taken && !force {
                    refused(ErrorView::TemplateExists(config.name))
                } else {
                    match compile_outcome(config.ignore) {
                        Ok(patterns) => (
                            StageView::CreateWalking { config, patterns },
                            RequestView::WalkSource { path },
                        ),
                        Err(e) => refused(e),
                    }
                }
            },
            (StageView::CreateWalking { config, patterns }, ReplyView::Paths(walked)) => (
                StageView::CreateArchiving { config },
                RequestView::WriteArchive {
                    name: config.name,
                    entries: selected(patterns, walked),
                },
            ),
            (StageView::CreateArchiving { config }, ReplyView::Size(size)) => (
                StageView::CreateStamping { config, size },
                RequestView::ReadClock,
            ),
            (StageView::CreateStamping { config, size }, ReplyView::Time(now)) => (
                StageView::CreateStoring,
                RequestView::PutRecord { key: config.name, record: new_record(config, size, now) },
            ),
            (StageView::CreateStoring, ReplyView::Done) => completed(),
            _ => broken(),
        },
        _ => broken(),
    }
}

/// Merges the fields of a capture and asks whether the name is taken.
fn create_merge(task: &Task, definition: &DefinitionInput, base_name: &Option<String>) -> (r: (
    Stage,
    Request,
))
    requires
        task is Create,
    ensures
        (r.0@, r.1@) == create_merged(task@, definition@, base_name.deep_view()),
{
    match task {
        Task::Create { path, name, description, commands, ignore, .. } => {
            match merge(name, description, commands, ignore, definition, base_name) {
                Some(config) => {
                    let name = config.name.clone();
                    (Stage::CreateChecking { config }, Request::HasRecord { name })
                },
                None => refuse(Error::NoFileName(path.clone())),
            }
        },
        _ => give_up(),
    }
}

/// Takes one step of Create.
pub fn create_template(task: &Task, stage: Stage, reply: Reply) -> (r: (Stage, Request))
    ensures
        (r.0@, r.1@) == create_next(task@, stage@, reply@),
{
    match task {
        Task::Create { path, definition_file, force, .. } => match (stage, reply) {
            (Stage::Start, Reply::Begin) => (
                Stage::CreateProbing,
                Request::ProbeSource { path: path.clone() },
            ),
            (Stage::CreateProbing, Reply::Source { is_directory, base_name }) => {
                if !is_directory {
                    refuse(Error::InvalidTemplateDir(path.clone()))
                } else {
                    match definition_file {
                        Some(file) => (
                            Stage::CreateLoading { base_name },
                            Request::LoadDefinition { path: file.clone() },
                        ),
                        None => create_merge(task, &DefinitionInput::Absent, &base_name),
                    }
                }
            },
            (Stage::CreateLoading { base_name }, Reply::Definition(definition)) => {
                create_merge(task, &definition, &base_name)
            },
            (Stage::CreateChecking { config }, Reply::Flag(taken)) => {
                if taken && !*force {
                    refuse(Error::TemplateExists(config.name))
                } else {
                    match GlobFilter::compile(&config.ignore) {
                        Ok(filter) => (
                            Stage::CreateWalking { config, filter },
                            Request::WalkSource { path: path.clone() },
                        ),
                        Err(e) => refuse(e),
                    }
                }
            },
            (Stage::CreateWalking { config, filter }, Reply::Paths(walked)) => {
                let entries = select_entries(&filter, &walked);
                let name = config.name.clone();
                (Stage::CreateArchiving { config }, Request::WriteArchive { name, entries })
            },
            (Stage::CreateArchiving { config }, Reply::Size(size)) => (
                Stage::CreateStamping { config, size },
                Request::ReadClock,
            ),
            (Stage::CreateStamping { config, size }, Reply::Time(now)) => {
                let key = config.name.clone();
                let record = make_record(config, size, now);
                (Stage::CreateStoring, Request::PutRecord { key, record })
            },
            (Stage::CreateStoring, Reply::Done) => complete(),
            _ => give_up(),
        },
        _ => give_up(),
    }
}

} // verus!
