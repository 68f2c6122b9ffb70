//! Expand: materialise a template in a new directory and run its commands
//! there.

use vstd::prelude::*;
use crate::cli::{Task, TaskView};
use crate::error::{Error, ErrorView};
use crate::protocol::{
    broken, complete, completed, give_up, refuse, refused, Outcome, OutcomeView, Reply, ReplyView,
    Request, RequestView, Stage, StageView,
};
use crate::runner::{command_of, dispatch, dispatched, Platform};
use crate::template::{Template, TemplateView, Timestamp};
use crate::text::words;

verus! {

/// The record after an expansion at time `now`: it was last used then, and
/// nothing else has changed.
pub open spec fn touched(record: TemplateView, now: Timestamp) -> TemplateView {
    TemplateView {
        name: record.name,
        description: record.description,
        commands: record.commands,
        compressed_size: record.compressed_size,
        ignore: record.ignore,
        created: record.created,
        used: Some(now),
    }
}

/// Marks a record as used at time `now`.
pub fn touch(record: Template, now: Timestamp) -> (updated: Template)
    ensures
        updated@ == touched(record@, now),
{
    Template {
        name: record.name,
        description: record.description,
        commands: record.commands,
        compressed_size: record.compressed_size,
        ignore: record.ignore,
        created: record.created,
        used: Some(now),
    }
}

/// The name by which a failed command line is reported: its first word, or
/// the line itself where it holds no word.
pub open spec fn failed_command(line: Seq<char>) -> Seq<char> {
    if words(line).len() == 0 {
        line
    } else {
        words(line)[0]
    }
}

/// Expand goes back to the directory it came from, and will end with `outcome`.
pub open spec fn leaving(outcome: OutcomeView) -> (StageView, RequestView) {
    (StageView::ExpandLeaving { outcome }, RequestView::LeaveDirectory)
}

/// What the runner does when command `index` is next: it starts the command,
/// or leaves with success when no command is left. A line that names no
/// executable counts as a command that failed.
pub open spec fn run_from(
    platform: Platform,
    commands: Seq<Seq<char>>,
    envs: Seq<Seq<char>>,
    index: nat,
) -> (StageView, RequestView) {
    if index >= commands.len() {
        leaving(OutcomeView::Completed)
    } else {
        match dispatched(platform, commands[index as int], envs) {
            Some(invocation) => (
                StageView::ExpandRunning { commands, index },
                RequestView::Spawn(invocation),
            ),
            None => leaving(
                OutcomeView::Refused(ErrorView::CreateTemplate(commands[index as int])),
            ),
        }
    }
}

/// The parent directory of an expansion: the one asked for, else the current one.
pub open spec fn target_parent(path: Option<Seq<char>>) -> Seq<char> {
    match path {
        Some(p) => p,
        None => "."@,
    }
}

/// The name of the directory that an expansion makes: the one asked for,
/// else the name of the template.
pub open spec fn target_directory(create_as: Option<Seq<char>>, name: Seq<char>) -> Seq<char> {
    match create_as {
        Some(d) => d,
        None => name,
    }
}

/// The step of Expand: what it asks next, given where it stands and what the
/// host reports.
///
/// The record is looked up and at once marked as used and stored again, so
/// that the mark stands whatever happens afterwards. A destination that is
/// there already is refused. The archive is extracted; unless commands are
/// switched off they run inside the destination, one after the other, and
/// the first that does not exit with success ends the run. However the run
/// ends, Expand leaves the destination before it finishes.
pub open spec fn expand_next(
    platform: Platform,
    task: TaskView,
    stage: StageView,
    reply: ReplyView,
) -> (StageView, RequestView) {
    match task {
        TaskView::Expand { name, path, envs, create_as, no_exec } => match (stage, reply) {
            (StageView::Start, ReplyView::Begin) => (
                StageView::ExpandFetching,
                RequestView::GetRecord { name },
            ),
            (StageView::ExpandFetching, ReplyView::Record(found)) => match found {
                Some(record) => (StageView::ExpandStamping { record }, RequestView::ReadClock),
                None => refused(ErrorView::TemplateNotFound(name)),
            },
            (StageView::ExpandStamping { record }, ReplyView::Time(now)) => (
                StageView::ExpandTouching { commands: record.commands },
                RequestView::PutRecord { key: name, record: touched(record, now) },
            ),
            (StageView::ExpandTouching { commands }, ReplyView::Done) => (
                StageView::ExpandLocating { commands },
                RequestView::LocateTarget {
                    parent: target_parent(path),
                    directory: target_directory(create_as, name),
                },
            ),
            (StageView::ExpandLocating { commands }, ReplyView::Target { path, exists }) => {
                if exists {
                    refused(ErrorView::InvalidTemplateDir(path))
                } else {
                    (
                        StageView::ExpandUnpacking { commands, destination: path },
                        RequestView::Unpack { name, destination: path },
                    )
                }
            },
            (StageView::ExpandUnpacking { commands, destination }, ReplyView::Done) => {
                if no_exec {
                    completed()
                } else {
                    (
                        StageView::ExpandEntering { commands },
                        RequestView::EnterDirectory { path: destination },
                    )
                }
            },
            (StageView::ExpandEntering { commands }, ReplyView::Done) => run_from(
                platform,
                commands,
                envs,
                0,
            ),
            (StageView::ExpandRunning { commands, index }, ReplyView::Exit(success)) => {
                if index >= commands.len() {
                    leaving(OutcomeView::Broken)
                } else if success {
                    run_from(platform, commands, envs, index + 1)
                } else {
                    leaving(
                        OutcomeView::Refused(
                            ErrorView::CreateTemplate(failed_command(commands[index as int])),
                        ),
                    )
                }
            },
            (StageView::ExpandRunning { .. }, _) => leaving(OutcomeView::Broken),
            (StageView::ExpandLeaving { outcome }, ReplyView::Done) => (
                StageView::Finished,
                RequestView::Finish(outcome),
            ),
            (StageView::ExpandLeaving { outcome }, _) => (
                StageView::Finished,
                RequestView::Finish(
                    if outcome is Completed {
                        OutcomeView::Broken
                    } else {
                        outcome
                    },
                ),
            ),
            _ => broken(),
        },
        _ => broken(),
    }
}

/// Leaves the destination, to end with `outcome`.
fn leave(outcome: Outcome) -> (r: (Stage, Request))
    ensures
        (r.0@, r.1@) == leaving(outcome@),
{
    (Stage::ExpandLeaving { outcome }, Request::LeaveDirectory)
}

/// Starts command `index`, or leaves when no command is left.
fn run_command_at(
    platform: Platform,
    commands: Vec<String>,
    envs: &Vec<String>,
    index: usize,
) -> (r: (Stage, Request))
    ensures
        (r.0@, r.1@) == run_from(platform, commands.deep_view(), envs.deep_view(), index as nat),
{
    if index >= commands.len() {
        return leave(Outcome::Completed);
    }
    assert(commands.deep_view()[index as int] == commands[index as int]@);
    match dispatch(platform, commands[index].as_str(), envs) {
        Some(invocation) => (Stage::ExpandRunning { commands, index }, Request::Spawn(invocation)),
        None => leave(Outcome::Refused(Error::CreateTemplate(commands[index].clone()))),
    }
}

/// Names the command line that failed.
fn name_failed(line: &String) -> (name: String)
    ensures
        name@ == failed_command(line@),
{
    match command_of(line.as_str()) {
        Some(first) => first,
        None => line.clone(),
    }
}

/// Takes one step of Expand.
pub fn expand_template(platform: Platform, task: &Task, stage: Stage, reply: Reply) -> (r: (
    Stage,
    Request,
))
    ensures
        (r.0@, r.1@) == expand_next(platform, task@, stage@, reply@),
{
    match task {
        Task::Expand { name, path, envs, create_as, no_exec } => match (stage, reply) {
            (Stage::Start, Reply::Begin) => (
                Stage::ExpandFetching,
                Request::GetRecord { name: name.clone() },
            ),
            (Stage::ExpandFetching, Reply::Record(found)) => match found {
                Some(record) => (Stage::ExpandStamping { record }, Request::ReadClock),
                None => refuse(Error::TemplateNotFound(name.clone())),
            },
            (Stage::ExpandStamping { record }, Reply::Time(now)) => {
                let commands = crate::template::clone_strings(&record.commands);
                let record = touch(record, now);
                (
                    Stage::ExpandTouching { commands },
                    Request::PutRecord { key: name.clone(), record },
                )
            },
            (Stage::ExpandTouching { commands }, Reply::Done) => {
                let parent = match path {
                    Some(p) => p.clone(),
                    None => ".".to_owned(),
                };
                let directory = match create_as {
                    Some(d) => d.clone(),
                    None => name.clone(),
                };
                (Stage::ExpandLocating { commands }, Request::LocateTarget { parent, directory })
            },
            (Stage::ExpandLocating { commands }, Reply::Target { path, exists }) => {
                if exists {
                    refuse(Error::InvalidTemplateDir(path))
                } else {
                    let destination = path.clone();
                    (
                        Stage::ExpandUnpacking { commands, destination },
                        Request::Unpack { name: name.clone(), destination: path },
                    )
                }
            },
            (Stage::ExpandUnpacking { commands, destination }, Reply::Done) => {
                if *no_exec {
                    complete()
                } else {
                    (
                        Stage::ExpandEntering { commands },
                        Request::EnterDirectory { path: destination },
                    )
                }
            },
            (Stage::ExpandEntering { commands }, Reply::Done) => run_command_at(
                platform,
                commands,
                envs,
                0,
            ),
            (Stage::ExpandRunning { commands, index }, Reply::Exit(success)) => {
                if index >= commands.len() {
                    leave(Outcome::Broken)
                } else if success {
                    run_command_at(platform, commands, envs, index + 1)
                } else {
                    assert(commands.deep_view()[index as int] == commands[index as int]@);
                    leave(Outcome::Refused(Error::CreateTemplate(name_failed(&commands[index]))))
                }
            },
            (Stage::ExpandRunning { .. }, _) => leave(Outcome::Broken),
            (Stage::ExpandLeaving { outcome }, Reply::Done) => (
                Stage::Finished,
                Request::Finish(outcome),
            ),
            (Stage::ExpandLeaving { outcome }, _) => {
                let last = match outcome {
                    Outcome::Completed => Outcome::Broken,
                    other => other,
                };
                (Stage::Finished, Request::Finish(last))
            },
            _ => give_up(),
        },
        _ => give_up(),
    }
}

} // verus!
