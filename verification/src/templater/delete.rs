//! Delete: remove a template, record first.

use vstd::prelude::*;
use crate::cli::{Task, TaskView};
use crate::error::{Error, ErrorView};
use crate::listing::{Report, ReportView};
use crate::protocol::{
    broken, complete, completed, give_up, refuse, refused, Reply, ReplyView, Request, RequestView,
    Stage, StageView,
};

verus! {

/// What is said when a record had no archive artifact.
pub open spec fn archive_missing(name: Seq<char>) -> Seq<char> {
    "Archive of template "@ + name + " not found"@
}

/// The step of Delete: what it asks next, given where it stands and what the
/// host reports.
///
/// The record is removed first, and a name under which none is stored is
/// refused. Then the archive artifact is removed. That the record is gone is
/// what counts: an artifact that is not there is worth a warning, no more.
pub open spec fn delete_next(task: TaskView, stage: StageView, reply: ReplyView) -> (
    StageView,
    RequestView,
) {
    match task {
        TaskView::Delete { name } => match (stage, reply) {
            (StageView::Start, ReplyView::Begin) => (
                StageView::DeleteRemoving,
                RequestView::RemoveRecord { name },
            ),
            (StageView::DeleteRemoving, ReplyView::Flag(was_stored)) => {
                if was_stored {
                    (StageView::DeleteCleaning, RequestView::RemoveArchive { name })
                } else {
                    refused(ErrorView::TemplateNotFound(name))
                }
            },
            (StageView::DeleteCleaning, ReplyView::Flag(was_there)) => {
                if was_there {
                    completed()
                } else {
                    (
                        StageView::DeleteWarning,
                        RequestView::Show(ReportView::Warning(archive_missing(name))),
                    )
                }
            },
            (StageView::DeleteWarning, ReplyView::Done) => completed(),
            _ => broken(),
        },
        _ => broken(),
    }
}

/// Takes one step of Delete.
pub fn delete_template(task: &Task, stage: Stage, reply: Reply) -> (r: (Stage, Request))
    ensures
        (r.0@, r.1@) == delete_next(task@, stage@, reply@),
{
    match task {
        Task::Delete { name } => match (stage, reply) {
            (Stage::Start, Reply::Begin) => (
                Stage::DeleteRemoving,
                Request::RemoveRecord { name: name.clone() },
            ),
            (Stage::DeleteRemoving, Reply::Flag(was_stored)) => {
                if was_stored {
                    (Stage::DeleteCleaning, Request::RemoveArchive { name: name.clone() })
                } else {
                    refuse(Error::TemplateNotFound(name.clone()))
                }
            },
            (Stage::DeleteCleaning, Reply::Flag(was_there)) => {
                if was_there {
                    complete()
                } else {
                    let mut text = "Archive of template ".to_owned();
                    text.append(name.as_str());
                    text.append(" not found");
                    (Stage::DeleteWarning, Request::Show(Report::Warning(text)))
                }
            },
            (Stage::DeleteWarning, Reply::Done) => complete(),
            _ => give_up(),
        },
        _ => give_up(),
    }
}

} // verus!
