//! The world that the host keeps: the metadata store, the archive artifacts
//! and the files. The engine never sees it; it only hears what the host
//! reports. This module says what is assumed of a host that keeps its word,
//! and what then follows: that store and artifacts stay consistent, and that
//! a capture followed by an expansion reproduces what was captured.

use vstd::prelude::*;
use crate::archive::{
    entry_of, selected, selected_holds_exactly_the_kept, ArchiveEntryView, WalkedPathView,
};
use crate::cli::TaskView;
use crate::conversation::{
    create_runs_to_completion, expand_without_commands_stops_after_extraction, request_at,
    stage_at, transcript,
};
use crate::definition::{merged, CreateConfigView, DefinitionInputView};
use crate::error::ErrorView;
use crate::filter::{compile_outcome, excludes};
use crate::protocol::{OutcomeView, ReplyView, RequestView, StageView};
use crate::runner::Platform;
use crate::template::{TemplateView, Timestamp};
use crate::templater::create::new_record;
use crate::templater::expand::touched;

verus! {

/// One thing in an archive or in a directory tree: a file with its content,
/// or a directory.
pub struct Item {
    /// Its path, relative to the root of the archive or of the tree.
    pub name: Seq<char>,
    /// Whether it is a regular file.
    pub is_file: bool,
    /// The bytes of a file; empty for a directory.
    pub content: Seq<u8>,
}

/// The metadata store, the archive artifacts and the files at one moment.
pub struct World {
    /// The records, each under its key.
    pub records: Map<Seq<char>, TemplateView>,
    /// The archive artifacts, each under the name of its template: what they
    /// hold, in stored order.
    pub archives: Map<Seq<char>, Seq<Item>>,
    /// The content of the regular files that a capture can read, by path.
    pub files: Map<Seq<char>, Seq<u8>>,
    /// What lies below each destination that an archive was extracted into.
    pub trees: Map<Seq<char>, Seq<Item>>,
}

/// The template called `name` has its archive artifact.
pub open spec fn has_archive(world: World, name: Seq<char>) -> bool {
    world.archives.dom().contains(name)
}

/// What an archive holds when it is written with `entries`: each entry under
/// its name, a file with the content that lies at its source.
pub open spec fn packed(files: Map<Seq<char>, Seq<u8>>, entries: Seq<ArchiveEntryView>) -> Seq<
    Item,
> {
    Seq::new(
        entries.len(),
        |i: int|
            Item {
                name: entries[i].name,
                is_file: entries[i].is_file,
                content: if entries[i].is_file {
                    files[entries[i].source]
                } else {
                    Seq::empty()
                },
            },
    )
}

/// The world with other records.
pub open spec fn with_records(world: World, records: Map<Seq<char>, TemplateView>) -> World {
    World { records, archives: world.archives, files: world.files, trees: world.trees }
}

/// The world with other archive artifacts.
pub open spec fn with_archives(world: World, archives: Map<Seq<char>, Seq<Item>>) -> World {
    World { records: world.records, archives, files: world.files, trees: world.trees }
}

/// The world with other extracted trees.
pub open spec fn with_trees(world: World, trees: Map<Seq<char>, Seq<Item>>) -> World {
    World { records: world.records, archives: world.archives, files: world.files, trees }
}

/// The record stored under `name`, if there is one.
pub open spec fn stored(world: World, name: Seq<char>) -> Option<TemplateView> {
    if world.records.dom().contains(name) {
        Some(world.records[name])
    } else {
        None
    }
}

/// Whether `reply` is an answer that a host which keeps its word can give to
/// `request` in this world. Any effect may fail; what is reported of the
/// store and of the artifacts is true, and no archive is extracted that is
/// not there.
pub open spec fn truthful(world: World, request: RequestView, reply: ReplyView) -> bool {
    reply is Failed || match request {
        RequestView::HasRecord { name } => reply == ReplyView::Flag(
            world.records.dom().contains(name),
        ),
        RequestView::GetRecord { name } => reply == ReplyView::Record(stored(world, name)),
        RequestView::RemoveRecord { name } => reply == ReplyView::Flag(
            world.records.dom().contains(name),
        ),
        RequestView::RemoveArchive { name } => reply == ReplyView::Flag(has_archive(world, name)),
        RequestView::Unpack { name, .. } => has_archive(world, name),
        _ => true,
    }
}

/// The world after the host has answered `request` with `reply`. An archive
/// that is written holds its entries with the content of their sources, and
/// an archive that is extracted comes out as it was written. An effect that
/// is not reported as performed has left the world as it was.
pub open spec fn after(world: World, request: RequestView, reply: ReplyView) -> World {
    match request {
        RequestView::PutRecord { key, record } => if reply is Done {
            with_records(world, world.records.insert(key, record))
        } else {
            world
        },
        RequestView::RemoveRecord { name } => if reply is Flag {
            with_records(world, world.records.remove(name))
        } else {
            world
        },
        RequestView::WriteArchive { name, entries } => if reply is Size {
            with_archives(world, world.archives.insert(name, packed(world.files, entries)))
        } else {
            world
        },
        RequestView::RemoveArchive { name } => if reply is Flag {
            with_archives(world, world.archives.remove(name))
        } else {
            world
        },
        RequestView::RenameArchive { from, to } => if reply is Done {
            with_archives(world, world.archives.remove(from).insert(to, world.archives[from]))
        } else {
            world
        },
        RequestView::Unpack { name, destination } => if reply is Done {
            with_trees(world, world.trees.insert(destination, world.archives[name]))
        } else {
            world
        },
        _ => world,
    }
}

/// The world when the engine has heard reply `k`. The first reply opens the
/// conversation; each later one answers the request before it.
pub open spec fn world_at(
    platform: Platform,
    task: TaskView,
    start: World,
    replies: Seq<ReplyView>,
    k: int,
) -> World
    decreases k,
{
    if k <= 0 {
        start
    } else {
        after(
            world_at(platform, task, start, replies, k - 1),
            request_at(platform, task, replies, k - 1),
            replies[k],
        )
    }
}

/// The host keeps its word throughout the conversation.
pub open spec fn kept_word(
    platform: Platform,
    task: TaskView,
    start: World,
    replies: Seq<ReplyView>,
) -> bool {
    forall|k: int|
        0 < k < replies.len() ==> truthful(
            world_at(platform, task, start, replies, k - 1),
            request_at(platform, task, replies, k - 1),
            #[trigger] replies[k],
        )
}

/// Store and artifacts agree: every record is stored under its own name and
/// has its archive artifact.
pub open spec fn consistent(world: World) -> bool {
    forall|key: Seq<char>| #[trigger]
        world.records.dom().contains(key) ==> world.records[key].name == key
            && has_archive(world, key)
}

/// What holds while an operation is under way: what the engine has asked
/// last, given where it stands, and what it knows of the world by then.
pub open spec fn on_course(
    task: TaskView,
    stage: StageView,
    asked: RequestView,
    world: World,
) -> bool {
    match stage {
        StageView::Start => false,
        StageView::CreateProbing => asked is ProbeSource,
        StageView::CreateLoading { .. } => asked is LoadDefinition,
        StageView::CreateChecking { .. } => asked is HasRecord,
        StageView::CreateWalking { .. } => asked is WalkSource,
        StageView::CreateArchiving { config } => asked matches RequestView::WriteArchive {
            name,
            ..
        } && name == config.name,
        StageView::CreateStamping { config, .. } => asked is ReadClock && has_archive(world, 
            config.name,
        ),
        StageView::CreateStoring => asked matches RequestView::PutRecord { key, record }
            && record.name == key && has_archive(world, key),
        StageView::ExpandFetching => task matches TaskView::Expand { name, .. }
            && asked == (RequestView::GetRecord { name }),
        StageView::ExpandStamping { record } => task matches TaskView::Expand { name, .. }
            && asked is ReadClock && record.name == name && has_archive(world, name),
        StageView::ExpandTouching { .. } => asked matches RequestView::PutRecord { key, record }
            && record.name == key && has_archive(world, key),
        StageView::ExpandLocating { .. } => asked is LocateTarget,
        StageView::ExpandUnpacking { .. } => asked is Unpack,
        StageView::ExpandEntering { .. } => asked is EnterDirectory,
        StageView::ExpandRunning { .. } => asked is Spawn,
        StageView::ExpandLeaving { .. } => asked is LeaveDirectory,
        StageView::ListScanning => asked is ScanRecords,
        StageView::ListShowing => asked is Show,
        StageView::ListFetching => asked is GetRecord,
        StageView::ListShowingCommands => asked is Show,
        StageView::ListChecking => asked is GetRecord,
        StageView::ListReading => asked is ReadArchive,
        StageView::ListShowingTree => asked is Show,
        StageView::DeleteRemoving => task matches TaskView::Delete { name } && asked
            == (RequestView::RemoveRecord { name }),
        StageView::DeleteCleaning => task matches TaskView::Delete { name } && asked
            == (RequestView::RemoveArchive { name }) && !world.records.dom().contains(name),
        StageView::DeleteWarning => asked is Show,
        StageView::EditFetching => task matches TaskView::Edit { name } && asked
            == (RequestView::GetRecord { name }),
        StageView::EditEditing { record } => task matches TaskView::Edit { name } && asked is Edit
            && record.name == name && has_archive(world, name),
        StageView::EditStoring { renamed_to } => task matches TaskView::Edit { name }
            && renamed_to == name && has_archive(world, name) && asked
            == (RequestView::PutRecord { key: name, record: asked->PutRecord_record })
            && asked->PutRecord_record.name == name,
        StageView::EditRenaming => false,
        StageView::Finished => asked is Finish,
    }
}

/// The edited document, where the host hands one over, keeps the name of the
/// template.
pub open spec fn keeps_the_name(task: TaskView, reply: ReplyView) -> bool {
    reply matches ReplyView::Edited(Some(edited)) ==> task matches TaskView::Edit { name }
        && edited.name == name
}

/// Every edited document that the host hands over keeps the name of the
/// template.
pub open spec fn kept_the_name(task: TaskView, replies: Seq<ReplyView>) -> bool {
    forall|k: int| 0 <= k < replies.len() ==> keeps_the_name(task, #[trigger] replies[k])
}

/// One step keeps store and artifacts consistent and the operation on course.
pub open spec fn step_is_sound(
    platform: Platform,
    task: TaskView,
    stage: StageView,
    asked: RequestView,
    world: World,
    reply: ReplyView,
) -> bool {
    let next = crate::templater::next_step(platform, task, stage, reply);
    let world_then = after(world, asked, reply);
    consistent(world_then) && on_course(task, next.0, next.1, world_then)
}

proof fn lemma_create_step(
    platform: Platform,
    task: TaskView,
    stage: StageView,
    asked: RequestView,
    world: World,
    reply: ReplyView,
)
    requires
        task is Create,
        consistent(world),
        on_course(task, stage, asked, world),
        truthful(world, asked, reply),
    ensures
        step_is_sound(platform, task, stage, asked, world, reply),
{
}

proof fn lemma_expand_step(
    platform: Platform,
    task: TaskView,
    stage: StageView,
    asked: RequestView,
    world: World,
    reply: ReplyView,
)
    requires
        task is Expand,
        consistent(world),
        on_course(task, stage, asked, world),
        truthful(world, asked, reply),
    ensures
        step_is_sound(platform, task, stage, asked, world, reply),
{
}

proof fn lemma_list_step(
    platform: Platform,
    task: TaskView,
    stage: StageView,
    asked: RequestView,
    world: World,
    reply: ReplyView,
)
    requires
        task is List,
        consistent(world),
        on_course(task, stage, asked, world),
        truthful(world, asked, reply),
    ensures
        step_is_sound(platform, task, stage, asked, world, reply),
{
}

proof fn lemma_delete_step(
    platform: Platform,
    task: TaskView,
    stage: StageView,
    asked: RequestView,
    world: World,
    reply: ReplyView,
)
    requires
        task is Delete,
        consistent(world),
        on_course(task, stage, asked, world),
        truthful(world, asked, reply),
    ensures
        step_is_sound(platform, task, stage, asked, world, reply),
{
}

proof fn lemma_edit_step(
    platform: Platform,
    task: TaskView,
    stage: StageView,
    asked: RequestView,
    world: World,
    reply: ReplyView,
)
    requires
        task is Edit,
        consistent(world),
        on_course(task, stage, asked, world),
        truthful(world, asked, reply),
        keeps_the_name(task, reply),
    ensures
        step_is_sound(platform, task, stage, asked, world, reply),
{
}

proof fn lemma_step(
    platform: Platform,
    task: TaskView,
    stage: StageView,
    asked: RequestView,
    world: World,
    reply: ReplyView,
)
    requires
        consistent(world),
        on_course(task, stage, asked, world),
        truthful(world, asked, reply),
        keeps_the_name(task, reply),
    ensures
        step_is_sound(platform, task, stage, asked, world, reply),
{
    match task {
        TaskView::Create { .. } => lemma_create_step(platform, task, stage, asked, world, reply),
        TaskView::Expand { .. } => lemma_expand_step(platform, task, stage, asked, world, reply),
        TaskView::List { .. } => lemma_list_step(platform, task, stage, asked, world, reply),
        TaskView::Delete { .. } => lemma_delete_step(platform, task, stage, asked, world, reply),
        TaskView::Edit { .. } => lemma_edit_step(platform, task, stage, asked, world, reply),
    }
}

proof fn lemma_first_step(platform: Platform, task: TaskView, world: World, reply: ReplyView)
    requires
        consistent(world),
    ensures
        on_course(
            task,
            crate::templater::next_step(platform, task, StageView::Start, reply).0,
            crate::templater::next_step(platform, task, StageView::Start, reply).1,
            world,
        ),
{
}

proof fn lemma_consistent(
    platform: Platform,
    task: TaskView,
    start: World,
    replies: Seq<ReplyView>,
    k: int,
)
    requires
        consistent(start),
        kept_word(platform, task, start, replies),
        kept_the_name(task, replies),
        0 <= k < replies.len(),
    ensures
        consistent(world_at(platform, task, start, replies, k)),
        on_course(
            task,
            stage_at(platform, task, replies, k + 1),
            request_at(platform, task, replies, k),
            world_at(platform, task, start, replies, k),
        ),
    decreases k,
{
    if k == 0 {
        lemma_first_step(platform, task, start, replies[0]);
        assert(stage_at(platform, task, replies, 0) == StageView::Start);
    } else {
        lemma_consistent(platform, task, start, replies, k - 1);
        let before = world_at(platform, task, start, replies, k - 1);
        let asked = request_at(platform, task, replies, k - 1);
        assert(truthful(before, asked, replies[k]));
        assert(keeps_the_name(task, replies[k]));
        lemma_step(platform, task, stage_at(platform, task, replies, k), asked, before, replies[k]);
    }
}

/// Where store and artifacts agree before an operation, and the host keeps
/// its word, they agree all the way through it: no record is ever stored
/// that lacks its artifact or goes under another name than its own.
///
/// This holds of Create, Expand, List and Delete, and of an Edit that keeps
/// the name of the template.
pub proof fn store_and_artifacts_stay_consistent(
    platform: Platform,
    task: TaskView,
    start: World,
    replies: Seq<ReplyView>,
    k: int,
)
    requires
        consistent(start),
        kept_word(platform, task, start, replies),
        kept_the_name(task, replies),
        0 <= k < replies.len(),
    ensures
        consistent(world_at(platform, task, start, replies, k)),
{
    lemma_consistent(platform, task, start, replies, k);
}

/// A capture under a name that is taken, without overwriting asked for, is
/// refused and leaves the store and the artifacts as they were.
pub proof fn create_leaves_a_taken_name_alone(
    platform: Platform,
    task: TaskView,
    start: World,
    base_name: Option<Seq<char>>,
    config: CreateConfigView,
)
    requires
        task is Create,
        task->definition_file is None,
        !task->force,
        merged(
            task->Create_name,
            task->description,
            task->Create_commands,
            task->ignore,
            DefinitionInputView::Absent,
            base_name,
        ) == Some(config),
        start.records.dom().contains(config.name),
    ensures
        ({
            let replies = seq![
                ReplyView::Begin,
                ReplyView::Source { is_directory: true, base_name },
                ReplyView::Flag(true),
            ];
            &&& kept_word(platform, task, start, replies)
            &&& request_at(platform, task, replies, 2) == RequestView::Finish(
                OutcomeView::Refused(ErrorView::TemplateExists(config.name)),
            )
            &&& world_at(platform, task, start, replies, 2) == start
        }),
{
    let replies = seq![
        ReplyView::Begin,
        ReplyView::Source { is_directory: true, base_name },
        ReplyView::Flag(true),
    ];
    reveal_with_fuel(stage_at, 4);
    reveal_with_fuel(world_at, 4);
    assert(stage_at(platform, task, replies, 1) == StageView::CreateProbing);
    assert(stage_at(platform, task, replies, 2) == StageView::CreateChecking { config });
    assert(request_at(platform, task, replies, 0) is ProbeSource);
    assert(request_at(platform, task, replies, 1) == RequestView::HasRecord { name: config.name });
    assert(world_at(platform, task, start, replies, 1) == start);
    assert forall|k: int| 0 < k < replies.len() implies truthful(
        world_at(platform, task, start, replies, k - 1),
        request_at(platform, task, replies, k - 1),
        #[trigger] replies[k],
    ) by {}
}

/// A capture that the host serves through puts the new record under the
/// template's name, in place of any record that was there, and the template
/// has its archive artifact. Whether the name was taken makes no difference
/// where overwriting is asked for.
pub proof fn create_puts_record_and_artifact_in_place(
    platform: Platform,
    task: TaskView,
    start: World,
    base_name: Option<Seq<char>>,
    walked: Seq<WalkedPathView>,
    size: u64,
    now: Timestamp,
    config: CreateConfigView,
)
    requires
        task is Create,
        task->definition_file is None,
        start.records.dom().contains(config.name) ==> task->force,
        merged(
            task->Create_name,
            task->description,
            task->Create_commands,
            task->ignore,
            DefinitionInputView::Absent,
            base_name,
        ) == Some(config),
        compile_outcome(config.ignore) is Ok,
    ensures
        ({
            let replies = seq![
                ReplyView::Begin,
                ReplyView::Source { is_directory: true, base_name },
                ReplyView::Flag(start.records.dom().contains(config.name)),
                ReplyView::Paths(walked),
                ReplyView::Size(size),
                ReplyView::Time(now),
                ReplyView::Done,
            ];
            &&& kept_word(platform, task, start, replies)
            &&& request_at(platform, task, replies, 6) == RequestView::Finish(
                OutcomeView::Completed,
            )
            &&& world_at(platform, task, start, replies, 6) == (World {
                records: start.records.insert(config.name, new_record(config, size, now)),
                archives: start.archives.insert(
                    config.name,
                    packed(start.files, selected(config.ignore, walked)),
                ),
                files: start.files,
                trees: start.trees,
            })
        }),
{
    let taken = start.records.dom().contains(config.name);
    let replies = seq![
        ReplyView::Begin,
        ReplyView::Source { is_directory: true, base_name },
        ReplyView::Flag(taken),
        ReplyView::Paths(walked),
        ReplyView::Size(size),
        ReplyView::Time(now),
        ReplyView::Done,
    ];
    create_runs_to_completion(platform, task, base_name, taken, walked, size, now, config);
    let asked = transcript(platform, task, replies);
    assert forall|k: int| 0 <= k < 7 implies request_at(platform, task, replies, k)
        == asked[k] by {}
    reveal_with_fuel(world_at, 8);
    assert(world_at(platform, task, start, replies, 1) == start);
    assert(world_at(platform, task, start, replies, 2) == start);
    assert(world_at(platform, task, start, replies, 3) == start);
    let archived = with_archives(
        start,
        start.archives.insert(config.name, packed(start.files, selected(config.ignore, walked))),
    );
    assert(world_at(platform, task, start, replies, 4) == archived);
    assert(world_at(platform, task, start, replies, 5) == archived);
    assert forall|k: int| 0 < k < replies.len() implies truthful(
        world_at(platform, task, start, replies, k - 1),
        request_at(platform, task, replies, k - 1),
        #[trigger] replies[k],
    ) by {}
}

/// What a walked path is in an archive and in the tree extracted from it:
/// its relative path below the root, and for a file the content that lay at
/// the path when the archive was written.
pub open spec fn item_of(files: Map<Seq<char>, Seq<u8>>, w: WalkedPathView) -> Item {
    Item {
        name: entry_of(w).name,
        is_file: w.is_file,
        content: if w.is_file {
            files[w.path]
        } else {
            Seq::empty()
        },
    }
}

/// An archive written from a walk holds the walked paths that no pattern
/// matches, each with its content, and nothing else.
pub proof fn packed_holds_exactly_the_kept(
    files: Map<Seq<char>, Seq<u8>>,
    patterns: Seq<Seq<char>>,
    walked: Seq<WalkedPathView>,
    item: Item,
)
    ensures
        packed(files, selected(patterns, walked)).contains(item) <==> exists|i: int|
            0 <= i < walked.len() && !excludes(patterns, walked[i].path) && item == item_of(
                files,
                #[trigger] walked[i],
            ),
{
    let entries = selected(patterns, walked);
    let items = packed(files, entries);
    if items.contains(item) {
        let k = choose|k: int| 0 <= k < items.len() && items[k] == item;
        assert(entries.contains(entries[k]));
        selected_holds_exactly_the_kept(patterns, walked, entries[k]);
        let i = choose|i: int|
            0 <= i < walked.len() && !excludes(patterns, walked[i].path) && entries[k] == entry_of(
                #[trigger] walked[i],
            );
        assert(item == item_of(files, walked[i]));
    }
    if exists|i: int|
        0 <= i < walked.len() && !excludes(patterns, walked[i].path) && item == item_of(
            files,
            #[trigger] walked[i],
        ) {
        let i = choose|i: int|
            0 <= i < walked.len() && !excludes(patterns, walked[i].path) && item == item_of(
                files,
                #[trigger] walked[i],
            );
        selected_holds_exactly_the_kept(patterns, walked, entry_of(walked[i]));
        assert(entries.contains(entry_of(walked[i])));
        let k = choose|k: int| 0 <= k < entries.len() && entries[k] == entry_of(walked[i]);
        assert(items[k] == item);
    }
}

/// The round trip. A capture, and then an expansion of the same template
/// with commands switched off into a destination that is not there, both
/// served through by a host that keeps its word: below the destination lies
/// exactly what the capture archived, which is every walked path that no
/// ignore pattern matches, under its relative path, each file with the
/// content it had when it was captured.
pub proof fn capture_then_expansion_reproduces_the_kept_paths(
    platform: Platform,
    capture: TaskView,
    expansion: TaskView,
    start: World,
    base_name: Option<Seq<char>>,
    walked: Seq<WalkedPathView>,
    size: u64,
    created: Timestamp,
    used: Timestamp,
    destination: Seq<char>,
    config: CreateConfigView,
)
    requires
        capture is Create,
        capture->definition_file is None,
        start.records.dom().contains(config.name) ==> capture->force,
        merged(
            capture->Create_name,
            capture->description,
            capture->Create_commands,
            capture->ignore,
            DefinitionInputView::Absent,
            base_name,
        ) == Some(config),
        compile_outcome(config.ignore) is Ok,
        expansion is Expand,
        expansion->Expand_name == config.name,
        expansion->no_exec,
    ensures
        ({
            let first = seq![
                ReplyView::Begin,
                ReplyView::Source { is_directory: true, base_name },
                ReplyView::Flag(start.records.dom().contains(config.name)),
                ReplyView::Paths(walked),
                ReplyView::Size(size),
                ReplyView::Time(created),
                ReplyView::Done,
            ];
            let between = world_at(platform, capture, start, first, 6);
            let second = seq![
                ReplyView::Begin,
                ReplyView::Record(Some(new_record(config, size, created))),
                ReplyView::Time(used),
                ReplyView::Done,
                ReplyView::Target { path: destination, exists: false },
                ReplyView::Done,
            ];
            let end = world_at(platform, expansion, between, second, 5);
            &&& kept_word(platform, capture, start, first)
            &&& kept_word(platform, expansion, between, second)
            &&& request_at(platform, capture, first, 6) == RequestView::Finish(
                OutcomeView::Completed,
            )
            &&& request_at(platform, expansion, second, 5) == RequestView::Finish(
                OutcomeView::Completed,
            )
            &&& end.trees.dom().contains(destination)
            &&& end.trees[destination] == packed(start.files, selected(config.ignore, walked))
            &&& forall|item: Item| #[trigger]
                end.trees[destination].contains(item) <==> exists|i: int|
                    0 <= i < walked.len() && !excludes(config.ignore, walked[i].path) && item
                        == item_of(start.files, #[trigger] walked[i])
        }),
{
    let first = seq![
        ReplyView::Begin,
        ReplyView::Source { is_directory: true, base_name },
        ReplyView::Flag(start.records.dom().contains(config.name)),
        ReplyView::Paths(walked),
        ReplyView::Size(size),
        ReplyView::Time(created),
        ReplyView::Done,
    ];
    create_puts_record_and_artifact_in_place(
        platform,
        capture,
        start,
        base_name,
        walked,
        size,
        created,
        config,
    );
    let between = world_at(platform, capture, start, first, 6);
    let record = new_record(config, size, created);
    let items = packed(start.files, selected(config.ignore, walked));
    assert(stored(between, config.name) == Some(record));
    assert(has_archive(between, config.name));
    assert(between.archives[config.name] == items);
    let second = seq![
        ReplyView::Begin,
        ReplyView::Record(Some(record)),
        ReplyView::Time(used),
        ReplyView::Done,
        ReplyView::Target { path: destination, exists: false },
        ReplyView::Done,
    ];
    expand_without_commands_stops_after_extraction(platform, expansion, record, used, destination);
    let asked = transcript(platform, expansion, second);
    assert forall|k: int| 0 <= k < 6 implies request_at(platform, expansion, second, k)
        == asked[k] by {}
    reveal_with_fuel(world_at, 7);
    let marked = with_records(between, between.records.insert(config.name, touched(record, used)));
    assert(world_at(platform, expansion, between, second, 1) == between);
    assert(world_at(platform, expansion, between, second, 2) == between);
    assert(world_at(platform, expansion, between, second, 3) == marked);
    assert(world_at(platform, expansion, between, second, 4) == marked);
    let end = world_at(platform, expansion, between, second, 5);
    assert(end == with_trees(marked, marked.trees.insert(destination, items)));
    assert forall|k: int| 0 < k < second.len() implies truthful(
        world_at(platform, expansion, between, second, k - 1),
        request_at(platform, expansion, second, k - 1),
        #[trigger] second[k],
    ) by {}
    assert forall|item: Item| #[trigger]
        end.trees[destination].contains(item) <==> exists|i: int|
            0 <= i < walked.len() && !excludes(config.ignore, walked[i].path) && item == item_of(
                start.files,
                #[trigger] walked[i],
            ) by {
        packed_holds_exactly_the_kept(start.files, config.ignore, walked, item);
    }
}

/// An edit that changes the name leaves the record under the key it had,
/// while the archive artifact goes by the new name: from then on the store
/// and the artifacts do not agree.
pub proof fn renaming_edit_leaves_the_old_key(
    platform: Platform,
    task: TaskView,
    start: World,
    record: TemplateView,
    edited: crate::edit::EditDocumentView,
)
    requires
        task is Edit,
        consistent(start),
        stored(start, task->Edit_name) == Some(record),
        edited.name != task->Edit_name,
    ensures
        ({
            let replies = seq![
                ReplyView::Begin,
                ReplyView::Record(Some(record)),
                ReplyView::Edited(Some(edited)),
                ReplyView::Done,
                ReplyView::Done,
            ];
            let end = world_at(platform, task, start, replies, 4);
            &&& kept_word(platform, task, start, replies)
            &&& end.records.dom().contains(task->Edit_name)
            &&& end.records[task->Edit_name].name == edited.name
            &&& has_archive(end, edited.name)
            &&& !has_archive(end, task->Edit_name)
            &&& !consistent(end)
        }),
{
    let replies = seq![
        ReplyView::Begin,
        ReplyView::Record(Some(record)),
        ReplyView::Edited(Some(edited)),
        ReplyView::Done,
        ReplyView::Done,
    ];
    let name = task->Edit_name;
    reveal_with_fuel(stage_at, 6);
    reveal_with_fuel(world_at, 6);
    assert(stage_at(platform, task, replies, 1) == StageView::EditFetching);
    assert(stage_at(platform, task, replies, 2) == StageView::EditEditing { record });
    assert(stage_at(platform, task, replies, 3) == StageView::EditStoring {
        renamed_to: edited.name,
    });
    assert(request_at(platform, task, replies, 0) == RequestView::GetRecord { name });
    assert(request_at(platform, task, replies, 1) is Edit);
    assert(request_at(platform, task, replies, 2) is PutRecord);
    assert(request_at(platform, task, replies, 3) == RequestView::RenameArchive {
        from: name,
        to: edited.name,
    });
    assert(world_at(platform, task, start, replies, 1) == start);
    assert(world_at(platform, task, start, replies, 2) == start);
    let end = world_at(platform, task, start, replies, 4);
    assert(end.records.dom().contains(name));
    assert(end.records[name].name == edited.name);
    assert forall|k: int| 0 < k < replies.len() implies truthful(
        world_at(platform, task, start, replies, k - 1),
        request_at(platform, task, replies, k - 1),
        #[trigger] replies[k],
    ) by {}
}

} // verus!
