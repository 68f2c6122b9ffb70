//! The conversation between the engine and its host. The engine decides;
//! the host touches the file system, the metadata store, the clock and the
//! processes. Each [`Request`] names one effect, each [`Reply`] reports what
//! became of it.

use vstd::prelude::*;
use crate::archive::{ArchiveEntry, ArchiveEntryView, WalkedPath, WalkedPathView};
use crate::definition::{CreateConfig, CreateConfigView, DefinitionInput, DefinitionInputView};
use crate::edit::{EditDocument, EditDocumentView};
use crate::error::{Error, ErrorView};
use crate::filter::GlobFilter;
use crate::listing::{Report, ReportView};
use crate::runner::{Invocation, InvocationView};
use crate::template::{Template, TemplateView, Timestamp};
use crate::tree::{ArchiveItem, ArchiveItemView};

verus! {

/// What an [`Outcome`] denotes.
pub enum OutcomeView {
    Completed,
    Refused(ErrorView),
    Broken,
}

/// How an operation ended.
#[derive(Debug, PartialEq, Eq)]
pub enum Outcome {
    /// The operation was carried out.
    Completed,
    /// The engine refused the operation.
    Refused(Error),
    /// The host could not perform an effect, or answered out of turn.
    Broken,
}

impl View for Outcome {
    type V = OutcomeView;

    open spec fn view(&self) -> OutcomeView {
        match self {
            Outcome::Completed => OutcomeView::Completed,
            Outcome::Refused(e) => OutcomeView::Refused(e@),
            Outcome::Broken => OutcomeView::Broken,
        }
    }
}

impl Clone for Outcome {
    fn clone(&self) -> (r: Outcome)
        ensures
            r@ == self@,
    {
        match self {
            Outcome::Completed => Outcome::Completed,
            Outcome::Refused(e) => Outcome::Refused(e.clone()),
            Outcome::Broken => Outcome::Broken,
        }
    }
}

/// What a [`Request`] denotes.
pub enum RequestView {
    ProbeSource { path: Seq<char> },
    LoadDefinition { path: Seq<char> },
    HasRecord { name: Seq<char> },
    WalkSource { path: Seq<char> },
    WriteArchive { name: Seq<char>, entries: Seq<ArchiveEntryView> },
    ReadClock,
    PutRecord { key: Seq<char>, record: TemplateView },
    GetRecord { name: Seq<char> },
    LocateTarget { parent: Seq<char>, directory: Seq<char> },
    Unpack { name: Seq<char>, destination: Seq<char> },
    EnterDirectory { path: Seq<char> },
    Spawn(InvocationView),
    LeaveDirectory,
    ScanRecords,
    ReadArchive { name: Seq<char> },
    Show(ReportView),
    RemoveRecord { name: Seq<char> },
    RemoveArchive { name: Seq<char> },
    Edit(EditDocumentView),
    RenameArchive { from: Seq<char>, to: Seq<char> },
    Finish(OutcomeView),
}

/// One effect that the engine asks its host to perform.
#[derive(Debug, PartialEq, Eq)]
pub enum Request {
    /// Look at the source of a capture; answered by [`Reply::Source`].
    ProbeSource { path: String },
    /// Read a definition document; answered by [`Reply::Definition`].
    LoadDefinition { path: String },
    /// Tell whether a record is stored under the name; answered by [`Reply::Flag`].
    HasRecord { name: String },
    /// Walk the source tree; answered by [`Reply::Paths`].
    WalkSource { path: String },
    /// Write the archive artifact of the named template with exactly these
    /// entries, replacing any artifact of that name, and flush it; answered
    /// by [`Reply::Size`] with the artifact's length in bytes.
    WriteArchive { name: String, entries: Vec<ArchiveEntry> },
    /// Read the clock; answered by [`Reply::Time`].
    ReadClock,
    /// Store the record under the key, replacing any record there; answered
    /// by [`Reply::Done`].
    PutRecord { key: String, record: Template },
    /// Look up the record stored under the name; answered by [`Reply::Record`].
    GetRecord { name: String },
    /// Resolve the directory to be made inside `parent`; answered by
    /// [`Reply::Target`].
    LocateTarget { parent: String, directory: String },
    /// Make the destination directory and extract the whole archive artifact
    /// of the named template into it; answered by [`Reply::Done`].
    Unpack { name: String, destination: String },
    /// Remember the working directory and change to `path`; answered by
    /// [`Reply::Done`].
    EnterDirectory { path: String },
    /// Start the child process and wait for it; answered by [`Reply::Exit`].
    Spawn(Invocation),
    /// Change back to the remembered working directory; answered by
    /// [`Reply::Done`].
    LeaveDirectory,
    /// Read all stored records; answered by [`Reply::Records`].
    ScanRecords,
    /// List the entries of the archive artifact of the named template
    /// without extracting it; answered by [`Reply::Entries`].
    ReadArchive { name: String },
    /// Show the report; answered by [`Reply::Done`].
    Show(Report),
    /// Remove the record stored under the name; answered by [`Reply::Flag`],
    /// which tells whether there was one.
    RemoveRecord { name: String },
    /// Remove the archive artifact of the named template if it is there;
    /// answered by [`Reply::Flag`], which tells whether it was.
    RemoveArchive { name: String },
    /// Let the person edit the document; answered by [`Reply::Edited`].
    Edit(EditDocument),
    /// Rename the archive artifact of one template to that of another;
    /// answered by [`Reply::Done`].
    RenameArchive { from: String, to: String },
    /// Nothing is left to do.
    Finish(Outcome),
}

impl View for Request {
    type V = RequestView;

    open spec fn view(&self) -> RequestView {
        match self {
            Request::ProbeSource { path } => RequestView::ProbeSource { path: path@ },
            Request::LoadDefinition { path } => RequestView::LoadDefinition { path: path@ },
            Request::HasRecord { name } => RequestView::HasRecord { name: name@ },
            Request::WalkSource { path } => RequestView::WalkSource { path: path@ },
            Request::WriteArchive { name, entries } => RequestView::WriteArchive {
                name: name@,
                entries: entries.deep_view(),
            },
            Request::ReadClock => RequestView::ReadClock,
            Request::PutRecord { key, record } => RequestView::PutRecord {
                key: key@,
                record: record@,
            },
            Request::GetRecord { name } => RequestView::GetRecord { name: name@ },
            Request::LocateTarget { parent, directory } => RequestView::LocateTarget {
                parent: parent@,
                directory: directory@,
            },
            Request::Unpack { name, destination } => RequestView::Unpack {
                name: name@,
                destination: destination@,
            },
            Request::EnterDirectory { path } => RequestView::EnterDirectory { path: path@ },
            Request::Spawn(invocation) => RequestView::Spawn(invocation@),
            Request::LeaveDirectory => RequestView::LeaveDirectory,
            Request::ScanRecords => RequestView::ScanRecords,
            Request::ReadArchive { name } => RequestView::ReadArchive { name: name@ },
            Request::Show(report) => RequestView::Show(report@),
            Request::RemoveRecord { name } => RequestView::RemoveRecord { name: name@ },
            Request::RemoveArchive { name } => RequestView::RemoveArchive { name: name@ },
            Request::Edit(document) => RequestView::Edit(document@),
            Request::RenameArchive { from, to } => RequestView::RenameArchive {
                from: from@,
                to: to@,
            },
            Request::Finish(outcome) => RequestView::Finish(outcome@),
        }
    }
}

/// What a [`Reply`] denotes.
pub enum ReplyView {
    Begin,
    Done,
    Failed,
    Flag(bool),
    Source { is_directory: bool, base_name: Option<Seq<char>> },
    Definition(DefinitionInputView),
    Paths(Seq<WalkedPathView>),
    Size(u64),
    Time(Timestamp),
    Record(Option<TemplateView>),
    Records(Seq<TemplateView>),
    Target { path: Seq<char>, exists: bool },
    Entries(Seq<ArchiveItemView>),
    Exit(bool),
    Edited(Option<EditDocumentView>),
}

/// What the host reports back.
#[derive(Debug, PartialEq, Eq)]
pub enum Reply {
    /// Nothing was asked yet: the first word of the conversation.
    Begin,
    /// The effect was performed.
    Done,
    /// The effect could not be performed.
    Failed,
    /// A yes or a no.
    Flag(bool),
    /// Whether the source is a directory that exists, and the last component
    /// of its path, if it has one.
    Source { is_directory: bool, base_name: Option<String> },
    /// What became of the definition document.
    Definition(DefinitionInput),
    /// The paths of the source tree, in the order of the walk.
    Paths(Vec<WalkedPath>),
    /// A length in bytes.
    Size(u64),
    /// The time on the clock.
    Time(Timestamp),
    /// The record that was looked up, if there is one.
    Record(Option<Template>),
    /// All stored records.
    Records(Vec<Template>),
    /// The resolved path of the directory to be made, and whether something
    /// is there already.
    Target { path: String, exists: bool },
    /// The entries of an archive, in their stored order.
    Entries(Vec<ArchiveItem>),
    /// Whether the child process exited with success.
    Exit(bool),
    /// The edited document, or nothing if the editor could not be run or did
    /// not exit with success.
    Edited(Option<EditDocument>),
}

impl View for Reply {
    type V = ReplyView;

    open spec fn view(&self) -> ReplyView {
        match self {
            Reply::Begin => ReplyView::Begin,
            Reply::Done => ReplyView::Done,
            Reply::Failed => ReplyView::Failed,
            Reply::Flag(b) => ReplyView::Flag(*b),
            Reply::Source { is_directory, base_name } => ReplyView::Source {
                is_directory: *is_directory,
                base_name: base_name.deep_view(),
            },
            Reply::Definition(d) => ReplyView::Definition(d@),
            Reply::Paths(paths) => ReplyView::Paths(paths.deep_view()),
            Reply::Size(n) => ReplyView::Size(*n),
            Reply::Time(t) => ReplyView::Time(*t),
            Reply::Record(r) => ReplyView::Record(r.deep_view()),
            Reply::Records(rs) => ReplyView::Records(rs.deep_view()),
            Reply::Target { path, exists } => ReplyView::Target { path: path@, exists: *exists },
            Reply::Entries(entries) => ReplyView::Entries(entries.deep_view()),
            Reply::Exit(ok) => ReplyView::Exit(*ok),
            Reply::Edited(d) => ReplyView::Edited(d.deep_view()),
        }
    }
}

/// What a [`Stage`] denotes.
pub enum StageView {
    Start,
    CreateProbing,
    CreateLoading { base_name: Option<Seq<char>> },
    CreateChecking { config: CreateConfigView },
    CreateWalking { config: CreateConfigView, patterns: Seq<Seq<char>> },
    CreateArchiving { config: CreateConfigView },
    CreateStamping { config: CreateConfigView, size: u64 },
    CreateStoring,
    ExpandFetching,
    ExpandStamping { record: TemplateView },
    ExpandTouching { commands: Seq<Seq<char>> },
    ExpandLocating { commands: Seq<Seq<char>> },
    ExpandUnpacking { commands: Seq<Seq<char>>, destination: Seq<char> },
    ExpandEntering { commands: Seq<Seq<char>> },
    ExpandRunning { commands: Seq<Seq<char>>, index: nat },
    ExpandLeaving { outcome: OutcomeView },
    ListScanning,
    ListShowing,
    ListFetching,
    ListShowingCommands,
    ListChecking,
    ListReading,
    ListShowingTree,
    DeleteRemoving,
    DeleteCleaning,
    DeleteWarning,
    EditFetching,
    EditEditing { record: TemplateView },
    EditStoring { renamed_to: Seq<char> },
    EditRenaming,
    Finished,
}

/// Where an operation stands: which reply the engine waits for, and what it
/// has to remember until then.
#[derive(Debug, PartialEq, Eq)]
pub enum Stage {
    /// Nothing was asked yet.
    Start,
    /// Create waits for the look at the source.
    CreateProbing,
    /// Create waits for the definition document.
    CreateLoading { base_name: Option<String> },
    /// Create waits to hear whether the name is taken.
    CreateChecking { config: CreateConfig },
    /// Create waits for the walk of the source tree.
    CreateWalking { config: CreateConfig, filter: GlobFilter },
    /// Create waits for the archive artifact to be written.
    CreateArchiving { config: CreateConfig },
    /// Create waits for the time of creation.
    CreateStamping { config: CreateConfig, size: u64 },
    /// Create waits for the record to be stored.
    CreateStoring,
    /// Expand waits for the record.
    ExpandFetching,
    /// Expand waits for the time of use.
    ExpandStamping { record: Template },
    /// Expand waits for the touched record to be stored.
    ExpandTouching { commands: Vec<String> },
    /// Expand waits for the destination to be resolved.
    ExpandLocating { commands: Vec<String> },
    /// Expand waits for the archive to be extracted.
    ExpandUnpacking { commands: Vec<String>, destination: String },
    /// Expand waits to be inside the destination.
    ExpandEntering { commands: Vec<String> },
    /// Expand is inside the destination and waits for command `index` to exit.
    ExpandRunning { commands: Vec<String>, index: usize },
    /// Expand waits to be back in the directory it came from.
    ExpandLeaving { outcome: Outcome },
    /// List waits for the stored records.
    ListScanning,
    /// List waits for the table to be shown.
    ListShowing,
    /// List waits for the record whose commands are asked for.
    ListFetching,
    /// List waits for the commands to be shown.
    ListShowingCommands,
    /// List waits for the record whose file tree is asked for.
    ListChecking,
    /// List waits for the entries of the archive.
    ListReading,
    /// List waits for the tree to be shown.
    ListShowingTree,
    /// Delete waits for the record to be removed.
    DeleteRemoving,
    /// Delete waits for the archive artifact to be removed.
    DeleteCleaning,
    /// Delete waits for its warning to be shown.
    DeleteWarning,
    /// Edit waits for the record.
    EditFetching,
    /// Edit waits for the person to finish editing.
    EditEditing { record: Template },
    /// Edit waits for the updated record to be stored.
    EditStoring { renamed_to: String },
    /// Edit waits for the archive artifact to be renamed.
    EditRenaming,
    /// The operation has ended.
    Finished,
}

impl View for Stage {
    type V = StageView;

    open spec fn view(&self) -> StageView {
        match self {
            Stage::Start => StageView::Start,
            Stage::CreateProbing => StageView::CreateProbing,
            Stage::CreateLoading { base_name } => StageView::CreateLoading {
                base_name: base_name.deep_view(),
            },
            Stage::CreateChecking { config } => StageView::CreateChecking { config: config@ },
            Stage::CreateWalking { config, filter } => StageView::CreateWalking {
                config: config@,
                patterns: filter.patterns(),
            },
            Stage::CreateArchiving { config } => StageView::CreateArchiving { config: config@ },
            Stage::CreateStamping { config, size } => StageView::CreateStamping {
                config: config@,
                size: *size,
            },
            Stage::CreateStoring => StageView::CreateStoring,
            Stage::ExpandFetching => StageView::ExpandFetching,
            Stage::ExpandStamping { record } => StageView::ExpandStamping { record: record@ },
            Stage::ExpandTouching { commands } => StageView::ExpandTouching {
                commands: commands.deep_view(),
            },
            Stage::ExpandLocating { commands } => StageView::ExpandLocating {
                commands: commands.deep_view(),
            },
            Stage::ExpandUnpacking { commands, destination } => StageView::ExpandUnpacking {
                commands: commands.deep_view(),
                destination: destination@,
            },
            Stage::ExpandEntering { commands } => StageView::ExpandEntering {
                commands: commands.deep_view(),
            },
            Stage::ExpandRunning { commands, index } => StageView::ExpandRunning {
                commands: commands.deep_view(),
                index: *index as nat,
            },
            Stage::ExpandLeaving { outcome } => StageView::ExpandLeaving { outcome: outcome@ },
            Stage::ListScanning => StageView::ListScanning,
            Stage::ListShowing => StageView::ListShowing,
            Stage::ListFetching => StageView::ListFetching,
            Stage::ListShowingCommands => StageView::ListShowingCommands,
            Stage::ListChecking => StageView::ListChecking,
            Stage::ListReading => StageView::ListReading,
            Stage::ListShowingTree => StageView::ListShowingTree,
            Stage::DeleteRemoving => StageView::DeleteRemoving,
            Stage::DeleteCleaning => StageView::DeleteCleaning,
            Stage::DeleteWarning => StageView::DeleteWarning,
            Stage::EditFetching => StageView::EditFetching,
            Stage::EditEditing { record } => StageView::EditEditing { record: record@ },
            Stage::EditStoring { renamed_to } => StageView::EditStoring { renamed_to: renamed_to@ },
            Stage::EditRenaming => StageView::EditRenaming,
            Stage::Finished => StageView::Finished,
        }
    }
}

/// The end of an operation that the engine refuses.
pub open spec fn refused(error: ErrorView) -> (StageView, RequestView) {
    (StageView::Finished, RequestView::Finish(OutcomeView::Refused(error)))
}

/// The end of an operation whose host failed or answered out of turn.
pub open spec fn broken() -> (StageView, RequestView) {
    (StageView::Finished, RequestView::Finish(OutcomeView::Broken))
}

/// The end of an operation that was carried out.
pub open spec fn completed() -> (StageView, RequestView) {
    (StageView::Finished, RequestView::Finish(OutcomeView::Completed))
}

/// Ends an operation that the engine refuses.
pub fn refuse(error: Error) -> (r: (Stage, Request))
    ensures
        (r.0@, r.1@) == refused(error@),
{
    (Stage::Finished, Request::Finish(Outcome::Refused(error)))
}

/// Ends an operation whose host failed or answered out of turn.
pub fn give_up() -> (r: (Stage, Request))
    ensures
        (r.0@, r.1@) == broken(),
{
    (Stage::Finished, Request::Finish(Outcome::Broken))
}

/// Ends an operation that was carried out.
pub fn complete() -> (r: (Stage, Request))
    ensures
        (r.0@, r.1@) == completed(),
{
    (Stage::Finished, Request::Finish(Outcome::Completed))
}

} // verus!
