//! Edit: let a person change name, description and commands of a record.

use vstd::prelude::*;
use crate::cli::{Task, TaskView};
use crate::edit::{overlaid, overlay, project, projected};
use crate::error::{Error, ErrorView};
use crate::protocol::{
    broken, complete, completed, give_up, refuse, refused, Reply, ReplyView, Request, RequestView,
    Stage, StageView,
};

verus! {

/// What is said when the editor could not be run or did not exit with success.
pub open spec fn editor_failed() -> Seq<char> {
    "Failed to open editor"@
}

/// The step of Edit: what it asks next, given where it stands and what the
/// host reports.
///
/// The person edits the editable part of the record. What comes back is laid
/// over the stored record, and the result is stored under the key that the
/// record had. Only then, and only if the name has changed, is the archive
/// artifact renamed to match.
pub open spec fn edit_next(task: TaskView, stage: StageView, reply: ReplyView) -> (
    StageView,
    RequestView,
) {
    match task {
        TaskView::Edit { name } => match (stage, reply) {
            (StageView::Start, ReplyView::Begin) => (
                StageView::EditFetching,
                RequestView::GetRecord { name },
            ),
            (StageView::EditFetching, ReplyView::Record(found)) => match found {
                Some(record) => (
                    StageView::EditEditing { record },
                    RequestView::Edit(projected(record)),
                ),
                None => refused(ErrorView::TemplateNotFound(name)),
            },
            (StageView::EditEditing { record }, ReplyView::Edited(result)) => match result {
                Some(edited) => (
                    StageView::EditStoring { renamed_to: edited.name },
                    RequestView::PutRecord { key: name, record: overlaid(record, edited) },
                ),
                None => refused(ErrorView::EditTemplate(editor_failed())),
            },
            (StageView::EditStoring { renamed_to }, ReplyView::Done) => {
                if renamed_to == name {
                    completed()
                } else {
                    (
                        StageView::EditRenaming,
                        RequestView::RenameArchive { from: name, to: renamed_to },
                    )
                }
            },
            (StageView::EditRenaming, ReplyView::Done) => completed(),
            _ => broken(),
        },
        _ => broken(),
    }
}

/// Takes one step of Edit.
pub fn edit_template(task: &Task, stage: Stage, reply: Reply) -> (r: (Stage, Request))
    ensures
        (r.0@, r.1@) == edit_next(task@, stage@, reply@),
{
    match task {
        Task::Edit { name } => match (stage, reply) {
            (Stage::Start, Reply::Begin) => (
                Stage::EditFetching,
                Request::GetRecord { name: name.clone() },
            ),
            (Stage::EditFetching, Reply::Record(found)) => match found {
                Some(record) => {
                    let document = project(&record);
                    (Stage::EditEditing { record }, Request::Edit(document))
                },
                None => refuse(Error::TemplateNotFound(name.clone())),
            },
            (Stage::EditEditing { record }, Reply::Edited(result)) => match result {
                Some(edited) => {
                    let updated = overlay(&record, &edited);
                    (
                        Stage::EditStoring { renamed_to: edited.name },
                        Request::PutRecord { key: name.clone(), record: updated },
                    )
                },
                None => refuse(Error::EditTemplate("Failed to open editor".to_owned())),
            },
            (Stage::EditStoring { renamed_to }, Reply::Done) => {
                if renamed_to == *name {
                    complete()
                } else {
                    (
                        Stage::EditRenaming,
                        Request::RenameArchive { from: name.clone(), to: renamed_to },
                    )
                }
            },
            (Stage::EditRenaming, Reply::Done) => complete(),
            _ => give_up(),
        },
        _ => give_up(),
    }
}

} // verus!
