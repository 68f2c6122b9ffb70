//! List: show the stored templates, and on request the commands and the file
//! tree of one of them.

use vstd::prelude::*;
use crate::cli::{Task, TaskView};
use crate::error::{Error, ErrorView};
use crate::listing::{commands_text, list_commands, list_templates, listing, Report, ReportView};
use crate::protocol::{
    broken, complete, completed, give_up, refuse, refused, Reply, ReplyView, Request, RequestView,
    Stage, StageView,
};
use crate::tree::{
    entries_for, print_tar_tree, rendered, tree_entries, ArchiveItem, ArchiveItemView,
};

verus! {

/// The file tree of an archive: a heading, and the tree of its entries, each
/// as deep as its path has components.
pub open spec fn file_tree_of(items: Seq<ArchiveItemView>) -> ReportView {
    ReportView::Tree { heading: "File Tree"@, lines: rendered(entries_for(items)) }
}

/// Draws the file tree of an archive from its entries, without extracting it.
pub fn show_file_tree(items: Vec<ArchiveItem>) -> (report: Report)
    ensures
        report@ == file_tree_of(items.deep_view()),
{
    let entries = tree_entries(items);
    Report::Tree { heading: "File Tree".to_owned(), lines: print_tar_tree(&entries) }
}

/// What is said when the commands of no template in particular are asked for.
pub open spec fn commands_need_a_name() -> Seq<char> {
    "You can only list commands for a specific template, please provide --name"@
}

/// What is said when the file tree of no template in particular is asked for.
pub open spec fn file_tree_needs_a_name() -> Seq<char> {
    "You can only display file tree for a specific template, please provide --name"@
}

/// The request for the entries of the archive of the named template.
pub open spec fn list_read(name: Option<Seq<char>>) -> (StageView, RequestView) {
    match name {
        Some(n) => (StageView::ListReading, RequestView::ReadArchive { name: n }),
        None => broken(),
    }
}

/// What List does after the commands: it reads the archive if the file tree
/// is asked for, else it is done. The record was found for the commands.
pub open spec fn list_tree(name: Option<Seq<char>>, file_tree: bool) -> (StageView, RequestView) {
    if !file_tree {
        completed()
    } else {
        list_read(name)
    }
}

/// What List does after the table: it fetches the record if the commands or
/// the file tree are asked for, else it is done.
pub open spec fn list_details(name: Option<Seq<char>>, commands: bool, file_tree: bool) -> (
    StageView,
    RequestView,
) {
    if !commands && !file_tree {
        completed()
    } else {
        match name {
            Some(n) => (
                if commands {
                    StageView::ListFetching
                } else {
                    StageView::ListChecking
                },
                RequestView::GetRecord { name: n },
            ),
            None => broken(),
        }
    }
}

/// What List does with a lookup that found nothing: the template is not
/// stored.
pub open spec fn list_missing(name: Option<Seq<char>>) -> (StageView, RequestView) {
    match name {
        Some(n) => refused(ErrorView::TemplateNotFound(n)),
        None => broken(),
    }
}

/// The step of List: what it asks next, given where it stands and what the
/// host reports.
///
/// Commands and file tree belong to one template: asking for either without
/// a name is refused before anything is read. The table shows the records
/// whose name holds the filter, all of them where there is no filter. Before
/// commands or file tree are shown the record is looked up under the name as
/// it is given, and a template that is not stored is refused.
pub open spec fn list_next(task: TaskView, stage: StageView, reply: ReplyView) -> (
    StageView,
    RequestView,
) {
    match task {
        TaskView::List { name, commands, file_tree } => match (stage, reply) {
            (StageView::Start, ReplyView::Begin) => {
                if name is None && commands {
                    refused(ErrorView::InvalidArgument(commands_need_a_name()))
                } else if name is None && file_tree {
                    refused(ErrorView::InvalidArgument(file_tree_needs_a_name()))
                } else {
                    (StageView::ListScanning, RequestView::ScanRecords)
                }
            },
            (StageView::ListScanning, ReplyView::Records(records)) => (
                StageView::ListShowing,
                RequestView::Show(listing(records, name)),
            ),
            (StageView::ListShowing, ReplyView::Done) => list_details(name, commands, file_tree),
            (StageView::ListFetching, ReplyView::Record(found)) => match found {
                Some(record) => (
                    StageView::ListShowingCommands,
                    RequestView::Show(ReportView::Notice(commands_text(record.commands))),
                ),
                None => list_missing(name),
            },
            (StageView::ListShowingCommands, ReplyView::Done) => list_tree(name, file_tree),
            (StageView::ListChecking, ReplyView::Record(found)) => match found {
                Some(_) => list_read(name),
                None => list_missing(name),
            },
            (StageView::ListReading, ReplyView::Entries(entries)) => (
                StageView::ListShowingTree,
                RequestView::Show(file_tree_of(entries)),
            ),
            (StageView::ListShowingTree, ReplyView::Done) => completed(),
            _ => broken(),
        },
        _ => broken(),
    }
}

/// Asks for the entries of the archive of the named template.
fn go_to_read(name: &Option<String>) -> (r: (Stage, Request))
    ensures
        (r.0@, r.1@) == list_read(name.deep_view()),
{
    match name {
        Some(n) => (Stage::ListReading, Request::ReadArchive { name: n.clone() }),
        None => give_up(),
    }
}

/// Goes on to the file tree, if it is asked for.
fn go_to_tree(name: &Option<String>, file_tree: bool) -> (r: (Stage, Request))
    ensures
        (r.0@, r.1@) == list_tree(name.deep_view(), file_tree),
{
    if !file_tree {
        complete()
    } else {
        go_to_read(name)
    }
}

/// Goes on to the lookup, if commands or file tree are asked for.
fn go_to_details(name: &Option<String>, commands: bool, file_tree: bool) -> (r: (Stage, Request))
    ensures
        (r.0@, r.1@) == list_details(name.deep_view(), commands, file_tree),
{
    if !commands && !file_tree {
        complete()
    } else {
        match name {
            Some(n) => {
                let stage = if commands {
                    Stage::ListFetching
                } else {
                    Stage::ListChecking
                };
                (stage, Request::GetRecord { name: n.clone() })
            },
            None => give_up(),
        }
    }
}

/// Refuses a template that is not stored.
fn go_missing(name: &Option<String>) -> (r: (Stage, Request))
    ensures
        (r.0@, r.1@) == list_missing(name.deep_view()),
{
    match name {
        Some(n) => refuse(Error::TemplateNotFound(n.clone())),
        None => give_up(),
    }
}

/// Takes one step of List.
pub fn list(task: &Task, stage: Stage, reply: Reply) -> (r: (Stage, Request))
    ensures
        (r.0@, r.1@) == list_next(task@, stage@, reply@),
{
    match task {
        Task::List { name, commands, file_tree } => match (stage, reply) {
            (Stage::Start, Reply::Begin) => {
                if name.is_none() && *commands {
                    let text =
                        "You can only list commands for a specific template, please provide --name";
                    refuse(Error::InvalidArgument(text.to_owned()))
                } else if name.is_none() && *file_tree {
                    let text =
                        "You can only display file tree for a specific template, please provide --name";
                    refuse(Error::InvalidArgument(text.to_owned()))
                } else {
                    (Stage::ListScanning, Request::ScanRecords)
                }
            },
            (Stage::ListScanning, Reply::Records(records)) => (
                Stage::ListShowing,
                Request::Show(list_templates(&records, name)),
            ),
            (Stage::ListShowing, Reply::Done) => go_to_details(name, *commands, *file_tree),
            (Stage::ListFetching, Reply::Record(found)) => match found {
                Some(record) => (
                    Stage::ListShowingCommands,
                    Request::Show(list_commands(&record)),
                ),
                None => go_missing(name),
            },
            (Stage::ListShowingCommands, Reply::Done) => go_to_tree(name, *file_tree),
            (Stage::ListChecking, Reply::Record(found)) => match found {
                Some(_) => go_to_read(name),
                None => go_missing(name),
            },
            (Stage::ListReading, Reply::Entries(entries)) => (
                Stage::ListShowingTree,
                Request::Show(show_file_tree(entries)),
            ),
            (Stage::ListShowingTree, Reply::Done) => complete(),
            _ => give_up(),
        },
        _ => give_up(),
    }
}

} // verus!
