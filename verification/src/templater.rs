//! The lifecycle manager: Create, Expand, List, Delete and Edit, each as a
//! conversation with the host.

pub mod create;
pub mod delete;
pub mod edit;
pub mod expand;
pub mod list;

use vstd::prelude::*;
use crate::cli::{context_of, operation_context, Command, Task, TaskView};
use crate::protocol::{Reply, ReplyView, Request, RequestView, Stage, StageView};
use crate::runner::Platform;

verus! {

/// The step of the engine: what it asks next, given the operation, where it
/// stands and what the host reports. Each operation has its own step.
pub open spec fn next_step(
    platform: Platform,
    task: TaskView,
    stage: StageView,
    reply: ReplyView,
) -> (StageView, RequestView) {
    match task {
        TaskView::Create { .. } => create::create_next(task, stage, reply),
        TaskView::Expand { .. } => expand::expand_next(platform, task, stage, reply),
        TaskView::List { .. } => list::list_next(task, stage, reply),
        TaskView::Delete { .. } => delete::delete_next(task, stage, reply),
        TaskView::Edit { .. } => edit::edit_next(task, stage, reply),
    }
}

/// The engine, serving one request.
///
/// The host starts the conversation with [`Reply::Begin`], performs each
/// [`Request`] that comes back and reports what became of it, until the
/// request is [`Request::Finish`].
#[derive(Debug)]
pub struct Templater {
    command: Command,
    platform: Platform,
    stage: Stage,
}

impl Templater {
    /// The operation that is served.
    pub closed spec fn task(&self) -> TaskView {
        self.command.task@
    }

    /// Whether each step is to be reported.
    pub closed spec fn talkative(&self) -> bool {
        self.command.verbose
    }

    /// The platform that commands are run on.
    pub closed spec fn platform(&self) -> Platform {
        self.platform
    }

    /// Where the operation stands.
    pub closed spec fn stage(&self) -> StageView {
        self.stage@
    }

    /// Sets the engine up to serve `command`, with nothing asked yet.
    pub fn run_command(command: Command, platform: Platform) -> (engine: Templater)
        ensures
            engine.task() == command@.task,
            engine.talkative() == command.verbose,
            engine.platform() == platform,
            engine.stage() == StageView::Start,
    {
        Templater { command, platform, stage: Stage::Start }
    }

    /// Takes the host's reply and says what to do next.
    pub fn run(&mut self, reply: Reply) -> (request: Request)
        ensures
            (final(self).stage(), request@) == next_step(
                old(self).platform(),
                old(self).task(),
                old(self).stage(),
                reply@,
            ),
            final(self).task() == old(self).task(),
            final(self).talkative() == old(self).talkative(),
            final(self).platform() == old(self).platform(),
    {
        let mut stage = Stage::Finished;
        core::mem::swap(&mut self.stage, &mut stage);
        let (next, request) = match &self.command.task {
            Task::Create { .. } => create::create_template(&self.command.task, stage, reply),
            Task::Expand { .. } => expand::expand_template(
                self.platform,
                &self.command.task,
                stage,
                reply,
            ),
            Task::List { .. } => list::list(&self.command.task, stage, reply),
            Task::Delete { .. } => delete::delete_template(&self.command.task, stage, reply),
            Task::Edit { .. } => edit::edit_template(&self.command.task, stage, reply),
        };
        self.stage = next;
        request
    }

    /// Names the operation that is served, for the top of an error chain.
    pub fn context(&self) -> (text: String)
        ensures
            text@ == context_of(self.task()),
    {
        operation_context(&self.command.task)
    }

    /// Whether each step is to be reported.
    pub fn verbose(&self) -> (b: bool)
        ensures
            b == self.talkative(),
    {
        self.command.verbose
    }

    /// Whether the operation has ended.
    pub fn is_finished(&self) -> (b: bool)
        ensures
            b == (self.stage() is Finished),
    {
        match self.stage {
            Stage::Finished => true,
            _ => false,
        }
    }
}

} // verus!
