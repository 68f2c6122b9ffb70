//! Whole conversations between the engine and its host: what the engine asks,
//! in which order, when the host answers in a given way.

use vstd::prelude::*;
use crate::archive::{selected, WalkedPathView};
use crate::cli::TaskView;
use crate::definition::{merged, CreateConfigView, DefinitionInputView};
use crate::error::ErrorView;
use crate::filter::compile_outcome;
use crate::protocol::{OutcomeView, ReplyView, RequestView, StageView};
use crate::runner::Platform;
use crate::template::Timestamp;
use crate::edit::{overlaid, projected, EditDocumentView};
use crate::listing::{commands_text, listing, ReportView};
use crate::runner::dispatched;
use crate::template::TemplateView;
use crate::templater::create::new_record;
use crate::templater::delete::archive_missing;
use crate::templater::edit::editor_failed;
use crate::templater::expand::{target_directory, target_parent, touched};
use crate::templater::list::{commands_need_a_name, file_tree_needs_a_name, file_tree_of};
use crate::templater::next_step;
use crate::text::words;
use crate::tree::ArchiveItemView;

verus! {

/// Where the engine stands when it has heard the first `k` replies.
pub open spec fn stage_at(
    platform: Platform,
    task: TaskView,
    replies: Seq<ReplyView>,
    k: int,
) -> StageView
    decreases k,
{
    if k <= 0 {
        StageView::Start
    } else {
        next_step(platform, task, stage_at(platform, task, replies, k - 1), replies[k - 1]).0
    }
}

/// What the engine asks when it hears reply `k`.
pub open spec fn request_at(
    platform: Platform,
    task: TaskView,
    replies: Seq<ReplyView>,
    k: int,
) -> RequestView {
    next_step(platform, task, stage_at(platform, task, replies, k), replies[k]).1
}

/// Everything the engine asks in a conversation, in order: one request for
/// each reply.
pub open spec fn transcript(platform: Platform, task: TaskView, replies: Seq<ReplyView>) -> Seq<
    RequestView,
> {
    Seq::new(replies.len(), |k: int| request_at(platform, task, replies, k))
}

/// A capture without a definition document, served by a host that performs
/// every effect. The source is probed, the name is checked, the tree is
/// walked, the archive is written with the paths that no pattern matches,
/// the clock is read, the record is stored under the name of the archive,
/// and the capture is done. A name that is taken does not matter where
/// overwriting is asked for.
pub proof fn create_runs_to_completion(
    platform: Platform,
    task: TaskView,
    base_name: Option<Seq<char>>,
    taken: bool,
    walked: Seq<WalkedPathView>,
    size: u64,
    now: Timestamp,
    config: CreateConfigView,
)
    requires
        task is Create,
        task->definition_file is None,
        taken ==> task->force,
        merged(
            task->Create_name,
            task->description,
            task->Create_commands,
            task->ignore,
            DefinitionInputView::Absent,
            base_name,
        ) == Some(config),
        compile_outcome(config.ignore) is Ok,
    ensures
        transcript(
            platform,
            task,
            seq![
                ReplyView::Begin,
                ReplyView::Source { is_directory: true, base_name },
                ReplyView::Flag(taken),
                ReplyView::Paths(walked),
                ReplyView::Size(size),
                ReplyView::Time(now),
                ReplyView::Done,
            ],
        ) == seq![
            RequestView::ProbeSource { path: task->Create_path },
            RequestView::HasRecord { name: config.name },
            RequestView::WalkSource { path: task->Create_path },
            RequestView::WriteArchive {
                name: config.name,
                entries: selected(config.ignore, walked),
            },
            RequestView::ReadClock,
            RequestView::PutRecord { key: config.name, record: new_record(config, size, now) },
            RequestView::Finish(OutcomeView::Completed),
        ],
{
    let replies = seq![
        ReplyView::Begin,
        ReplyView::Source { is_directory: true, base_name },
        ReplyView::Flag(taken),
        ReplyView::Paths(walked),
        ReplyView::Size(size),
        ReplyView::Time(now),
        ReplyView::Done,
    ];
    reveal_with_fuel(stage_at, 8);
    assert(stage_at(platform, task, replies, 1) == StageView::CreateProbing);
    assert(stage_at(platform, task, replies, 2) == StageView::CreateChecking { config });
    assert(stage_at(platform, task, replies, 3) == StageView::CreateWalking {
        config,
        patterns: config.ignore,
    });
    assert(stage_at(platform, task, replies, 4) == StageView::CreateArchiving { config });
    assert(stage_at(platform, task, replies, 5) == StageView::CreateStamping { config, size });
    assert(stage_at(platform, task, replies, 6) == StageView::CreateStoring);
    assert(transcript(platform, task, replies) =~= seq![
        RequestView::ProbeSource { path: task->Create_path },
        RequestView::HasRecord { name: config.name },
        RequestView::WalkSource { path: task->Create_path },
        RequestView::WriteArchive { name: config.name, entries: selected(config.ignore, walked) },
        RequestView::ReadClock,
        RequestView::PutRecord { key: config.name, record: new_record(config, size, now) },
        RequestView::Finish(OutcomeView::Completed),
    ]);
}

/// A capture with a definition document, served by a host that performs
/// every effect: as without one, but the document is read after the source
/// is probed, and its fields take part in the merge whatever became of it.
pub proof fn create_with_document_runs_to_completion(
    platform: Platform,
    task: TaskView,
    base_name: Option<Seq<char>>,
    definition: DefinitionInputView,
    taken: bool,
    walked: Seq<WalkedPathView>,
    size: u64,
    now: Timestamp,
    config: CreateConfigView,
)
    requires
        task is Create,
        task->definition_file is Some,
        taken ==> task->force,
        merged(
            task->Create_name,
            task->description,
            task->Create_commands,
            task->ignore,
            definition,
            base_name,
        ) == Some(config),
        compile_outcome(config.ignore) is Ok,
    ensures
        transcript(
            platform,
            task,
            seq![
                ReplyView::Begin,
                ReplyView::Source { is_directory: true, base_name },
                ReplyView::Definition(definition),
                ReplyView::Flag(taken),
                ReplyView::Paths(walked),
                ReplyView::Size(size),
                ReplyView::Time(now),
                ReplyView::Done,
            ],
        ) == seq![
            RequestView::ProbeSource { path: task->Create_path },
            RequestView::LoadDefinition { path: task->definition_file->0 },
            RequestView::HasRecord { name: config.name },
            RequestView::WalkSource { path: task->Create_path },
            RequestView::WriteArchive {
                name: config.name,
                entries: selected(config.ignore, walked),
            },
            RequestView::ReadClock,
            RequestView::PutRecord { key: config.name, record: new_record(config, size, now) },
            RequestView::Finish(OutcomeView::Completed),
        ],
{
    let replies = seq![
        ReplyView::Begin,
        ReplyView::Source { is_directory: true, base_name },
        ReplyView::Definition(definition),
        ReplyView::Flag(taken),
        ReplyView::Paths(walked),
        ReplyView::Size(size),
        ReplyView::Time(now),
        ReplyView::Done,
    ];
    reveal_with_fuel(stage_at, 9);
    assert(stage_at(platform, task, replies, 1) == StageView::CreateProbing);
    assert(stage_at(platform, task, replies, 2) == StageView::CreateLoading { base_name });
    assert(stage_at(platform, task, replies, 3) == StageView::CreateChecking { config });
    assert(stage_at(platform, task, replies, 4) == StageView::CreateWalking {
        config,
        patterns: config.ignore,
    });
    assert(stage_at(platform, task, replies, 5) == StageView::CreateArchiving { config });
    assert(stage_at(platform, task, replies, 6) == StageView::CreateStamping { config, size });
    assert(stage_at(platform, task, replies, 7) == StageView::CreateStoring);
    assert(transcript(platform, task, replies) =~= seq![
        RequestView::ProbeSource { path: task->Create_path },
        RequestView::LoadDefinition { path: task->definition_file->0 },
        RequestView::HasRecord { name: config.name },
        RequestView::WalkSource { path: task->Create_path },
        RequestView::WriteArchive { name: config.name, entries: selected(config.ignore, walked) },
        RequestView::ReadClock,
        RequestView::PutRecord { key: config.name, record: new_record(config, size, now) },
        RequestView::Finish(OutcomeView::Completed),
    ]);
}

/// Whatever the host says, a capture stores a record only when the archive of
/// that name has been written and measured: the request before the last was
/// to write the archive under the record's key, the host answered with its
/// size, and the record carries that size, that key as its name, and no time
/// of use.
pub proof fn create_stores_only_what_is_archived(
    platform: Platform,
    task: TaskView,
    replies: Seq<ReplyView>,
    k: int,
)
    requires
        task is Create,
        0 <= k < replies.len(),
        request_at(platform, task, replies, k) is PutRecord,
    ensures
        k >= 2,
        request_at(platform, task, replies, k - 2) is WriteArchive,
        request_at(platform, task, replies, k - 2)->WriteArchive_name == request_at(
            platform,
            task,
            replies,
            k,
        )->key,
        replies[k - 1] is Size,
        request_at(platform, task, replies, k)->PutRecord_record.compressed_size == replies[k
            - 1]->Size_0,
        request_at(platform, task, replies, k)->PutRecord_record.name == request_at(
            platform,
            task,
            replies,
            k,
        )->key,
        request_at(platform, task, replies, k)->PutRecord_record.used is None,
{
    reveal_with_fuel(stage_at, 3);
    assert(stage_at(platform, task, replies, k) is CreateStamping);
    assert(k >= 1);
    assert(stage_at(platform, task, replies, k - 1) is CreateArchiving);
    assert(k >= 2);
    assert(stage_at(platform, task, replies, k - 2) is CreateWalking);
}

/// Whatever the host has said before: when it reports the name as taken and
/// overwriting is not asked for, the capture ends at once, refused, and the
/// error gives the name.
pub proof fn create_refuses_a_taken_name(
    platform: Platform,
    task: TaskView,
    replies: Seq<ReplyView>,
    k: int,
)
    requires
        task is Create,
        !task->force,
        0 <= k < replies.len(),
        stage_at(platform, task, replies, k) is CreateChecking,
        replies[k] == ReplyView::Flag(true),
    ensures
        request_at(platform, task, replies, k) == RequestView::Finish(
            OutcomeView::Refused(
                ErrorView::TemplateExists(
                    stage_at(platform, task, replies, k)->CreateChecking_config.name,
                ),
            ),
        ),
        stage_at(platform, task, replies, k + 1) is Finished,
{
    reveal_with_fuel(stage_at, 2);
}

/// Where overwriting is asked for, it makes no difference to a capture
/// whether the name is taken.
pub proof fn create_with_force_ignores_a_taken_name(
    task: TaskView,
    config: CreateConfigView,
    platform: Platform,
)
    requires
        task is Create,
        task->force,
    ensures
        next_step(platform, task, StageView::CreateChecking { config }, ReplyView::Flag(true))
            == next_step(
            platform,
            task,
            StageView::CreateChecking { config },
            ReplyView::Flag(false),
        ),
{
}

/// A record that Create stores carries the name given on the request, where
/// one is given, whatever the definition document says.
pub proof fn create_keeps_the_explicit_name(
    platform: Platform,
    task: TaskView,
    replies: Seq<ReplyView>,
    k: int,
)
    requires
        task is Create,
        task->Create_name is Some,
        0 <= k < replies.len(),
        request_at(platform, task, replies, k) is PutRecord,
    ensures
        request_at(platform, task, replies, k)->PutRecord_record.name == task->Create_name->0,
        request_at(platform, task, replies, k)->key == task->Create_name->0,
{
    lemma_create_config_has_the_explicit_name(platform, task, replies, k);
}

/// The name in the merged fields that a capture carries along.
pub open spec fn carried_name(stage: StageView) -> Option<Seq<char>> {
    match stage {
        StageView::CreateChecking { config } => Some(config.name),
        StageView::CreateWalking { config, .. } => Some(config.name),
        StageView::CreateArchiving { config } => Some(config.name),
        StageView::CreateStamping { config, .. } => Some(config.name),
        _ => None,
    }
}

proof fn lemma_create_config_has_the_explicit_name(
    platform: Platform,
    task: TaskView,
    replies: Seq<ReplyView>,
    k: int,
)
    requires
        task is Create,
        task->Create_name is Some,
        0 <= k <= replies.len(),
    ensures
        carried_name(stage_at(platform, task, replies, k)) matches Some(n) ==> n
            == task->Create_name->0,
    decreases k,
{
    if k > 0 {
        lemma_create_config_has_the_explicit_name(platform, task, replies, k - 1);
    }
}

/// The ignore patterns in the merged fields that a capture carries along.
pub open spec fn carried_patterns(stage: StageView) -> Option<Seq<Seq<char>>> {
    match stage {
        StageView::CreateChecking { config } => Some(config.ignore),
        StageView::CreateWalking { config, .. } => Some(config.ignore),
        StageView::CreateArchiving { config } => Some(config.ignore),
        StageView::CreateStamping { config, .. } => Some(config.ignore),
        _ => None,
    }
}

proof fn lemma_create_config_has_the_explicit_patterns(
    platform: Platform,
    task: TaskView,
    replies: Seq<ReplyView>,
    k: int,
)
    requires
        task is Create,
        task->ignore.len() > 0,
        0 <= k <= replies.len(),
    ensures
        carried_patterns(stage_at(platform, task, replies, k)) matches Some(p) ==> p
            == task->ignore,
        stage_at(platform, task, replies, k) matches StageView::CreateWalking {
            config,
            patterns,
        } ==> patterns == config.ignore,
    decreases k,
{
    if k > 0 {
        lemma_create_config_has_the_explicit_patterns(platform, task, replies, k - 1);
    }
}

/// Whatever the host says, the archive that a capture asks to be written
/// holds exactly the walked paths that none of its ignore patterns matches:
/// each of them under its relative path, in the order of the walk, and
/// nothing else. Where the request gives ignore patterns, these are the ones.
pub proof fn create_archives_exactly_the_kept_paths(
    platform: Platform,
    task: TaskView,
    replies: Seq<ReplyView>,
    k: int,
)
    requires
        task is Create,
        0 <= k < replies.len(),
        request_at(platform, task, replies, k) is WriteArchive,
    ensures
        replies[k] is Paths,
        stage_at(platform, task, replies, k) is CreateWalking,
        request_at(platform, task, replies, k)->entries == selected(
            stage_at(platform, task, replies, k)->patterns,
            replies[k]->Paths_0,
        ),
        task->ignore.len() > 0 ==> stage_at(platform, task, replies, k)->patterns
            == task->ignore,
{
    if task->ignore.len() > 0 {
        lemma_create_config_has_the_explicit_patterns(platform, task, replies, k);
    }
}

/// Whatever the host says, an expansion extracts the archive that goes by the
/// name of the template, into the destination that the host has resolved and
/// reported as not there.
pub proof fn expand_extracts_the_archive_of_its_template(
    platform: Platform,
    task: TaskView,
    replies: Seq<ReplyView>,
    k: int,
)
    requires
        task is Expand,
        0 <= k < replies.len(),
        request_at(platform, task, replies, k) is Unpack,
    ensures
        request_at(platform, task, replies, k)->Unpack_name == task->Expand_name,
        replies[k] is Target,
        !replies[k]->exists,
        request_at(platform, task, replies, k)->destination == replies[k]->Target_path,
{
}

/// A record is born unused, and an expansion sets its time of use to the
/// time on the clock. Where the clock has not gone back since the last
/// expansion, the time of use has not gone back either.
pub proof fn use_is_marked_and_does_not_go_back(
    config: CreateConfigView,
    size: u64,
    created: Timestamp,
    record: TemplateView,
    now: Timestamp,
)
    ensures
        new_record(config, size, created).used is None,
        touched(record, now).used == Some(now),
        touched(record, now).created == record.created,
        record.used matches Some(before) ==> (before.at_or_before(now) ==> before.at_or_before(
            touched(record, now).used->0,
        )),
{
}

/// The stages of Expand that come after the record was marked as used.
pub open spec fn past_marking(stage: StageView) -> bool {
    stage is ExpandTouching || stage is ExpandLocating || stage is ExpandUnpacking
        || stage is ExpandEntering || stage is ExpandRunning
}

/// Among the first `k` requests there is one to store the record under the
/// template's name with a time of use.
pub open spec fn marked_before(
    platform: Platform,
    task: TaskView,
    replies: Seq<ReplyView>,
    k: int,
) -> bool
    recommends
        task is Expand,
{
    exists|j: int|
        0 <= j < k && (#[trigger] request_at(platform, task, replies, j)) is PutRecord
            && request_at(platform, task, replies, j)->key == task->Expand_name && request_at(
            platform,
            task,
            replies,
            j,
        )->PutRecord_record.used is Some
}

proof fn lemma_marked_before(platform: Platform, task: TaskView, replies: Seq<ReplyView>, k: int)
    requires
        task is Expand,
        0 <= k <= replies.len(),
        past_marking(stage_at(platform, task, replies, k)),
    ensures
        marked_before(platform, task, replies, k),
    decreases k,
{
    if k > 0 {
        let before = stage_at(platform, task, replies, k - 1);
        if past_marking(before) {
            lemma_marked_before(platform, task, replies, k - 1);
            let j = choose|j: int|
                0 <= j < k - 1 && (#[trigger] request_at(platform, task, replies, j)) is PutRecord
                    && request_at(platform, task, replies, j)->key == task->Expand_name
                    && request_at(platform, task, replies, j)->PutRecord_record.used is Some;
            assert(0 <= j < k);
        } else {
            assert(before is ExpandStamping);
            assert(request_at(platform, task, replies, k - 1) is PutRecord);
        }
    }
}

/// Whatever the host says, an expansion extracts nothing, enters no directory
/// and starts no command before it has asked to store the record with its
/// time of use. The mark stands even if everything after it fails.
pub proof fn expand_marks_use_first(
    platform: Platform,
    task: TaskView,
    replies: Seq<ReplyView>,
    k: int,
)
    requires
        task is Expand,
        0 <= k < replies.len(),
        request_at(platform, task, replies, k) is Unpack || request_at(
            platform,
            task,
            replies,
            k,
        ) is EnterDirectory || request_at(platform, task, replies, k) is Spawn,
    ensures
        marked_before(platform, task, replies, k),
{
    lemma_marked_before(platform, task, replies, k);
}

/// Whatever the host says, once an expansion is inside the destination it
/// does not finish without having asked to go back: between the moment it
/// runs commands and the moment it finishes lies a request to leave.
pub proof fn expand_leaves_before_it_finishes(
    platform: Platform,
    task: TaskView,
    replies: Seq<ReplyView>,
    j: int,
    k: int,
)
    requires
        task is Expand,
        0 <= j <= k < replies.len(),
        stage_at(platform, task, replies, j) is ExpandRunning,
        request_at(platform, task, replies, k) is Finish,
    ensures
        exists|m: int|
            j <= m < k && (#[trigger] request_at(platform, task, replies, m)) is LeaveDirectory,
    decreases k - j,
{
    let asked = request_at(platform, task, replies, j);
    assert(asked is Spawn || asked is LeaveDirectory);
    assert(j < k);
    if asked is Spawn {
        assert(stage_at(platform, task, replies, j + 1) is ExpandRunning);
        expand_leaves_before_it_finishes(platform, task, replies, j + 1, k);
        let m = choose|m: int|
            j + 1 <= m < k && (#[trigger] request_at(platform, task, replies, m)) is LeaveDirectory;
        assert(j <= m < k);
    }
}

/// The host has served an expansion up to the point where it is inside the
/// destination: it found the record, read the clock, stored the record,
/// resolved a destination that was not there, extracted the archive and
/// changed directory.
pub open spec fn entered(
    replies: Seq<ReplyView>,
    record: TemplateView,
    now: Timestamp,
    destination: Seq<char>,
) -> bool {
    &&& replies.len() >= 7
    &&& replies[0] == ReplyView::Begin
    &&& replies[1] == ReplyView::Record(Some(record))
    &&& replies[2] == ReplyView::Time(now)
    &&& replies[3] == ReplyView::Done
    &&& replies[4] == ReplyView::Target { path: destination, exists: false }
    &&& replies[5] == ReplyView::Done
    &&& replies[6] == ReplyView::Done
}

/// An expansion up to the point where it is inside the destination: the
/// record is fetched, the clock is read, the record is stored with its time
/// of use under the template's name, the destination is resolved, the archive
/// is extracted into it, and the directory is changed.
pub proof fn expand_begins_like_this(
    platform: Platform,
    task: TaskView,
    replies: Seq<ReplyView>,
    record: TemplateView,
    now: Timestamp,
    destination: Seq<char>,
)
    requires
        task is Expand,
        !task->no_exec,
        entered(replies, record, now, destination),
    ensures
        transcript(platform, task, replies).take(6) == seq![
            RequestView::GetRecord { name: task->Expand_name },
            RequestView::ReadClock,
            RequestView::PutRecord { key: task->Expand_name, record: touched(record, now) },
            RequestView::LocateTarget {
                parent: target_parent(task->Expand_path),
                directory: target_directory(task->create_as, task->Expand_name),
            },
            RequestView::Unpack { name: task->Expand_name, destination },
            RequestView::EnterDirectory { path: destination },
        ],
        stage_at(platform, task, replies, 6) == (StageView::ExpandEntering {
            commands: record.commands,
        }),
{
    reveal_with_fuel(stage_at, 7);
    assert(stage_at(platform, task, replies, 1) == StageView::ExpandFetching);
    assert(stage_at(platform, task, replies, 2) == StageView::ExpandStamping { record });
    assert(stage_at(platform, task, replies, 3) == StageView::ExpandTouching {
        commands: record.commands,
    });
    assert(stage_at(platform, task, replies, 4) == StageView::ExpandLocating {
        commands: record.commands,
    });
    assert(stage_at(platform, task, replies, 5) == StageView::ExpandUnpacking {
        commands: record.commands,
        destination,
    });
    assert(transcript(platform, task, replies).take(6) =~= seq![
        RequestView::GetRecord { name: task->Expand_name },
        RequestView::ReadClock,
        RequestView::PutRecord { key: task->Expand_name, record: touched(record, now) },
        RequestView::LocateTarget {
            parent: target_parent(task->Expand_path),
            directory: target_directory(task->create_as, task->Expand_name),
        },
        RequestView::Unpack { name: task->Expand_name, destination },
        RequestView::EnterDirectory { path: destination },
    ]);
}

/// Commands run in their stored order, and each runs only if all before it
/// exited with success: when the first `k` commands have done so, the next
/// request is to start command `k`, with the environment overrides of the
/// request.
pub proof fn commands_run_in_order(
    platform: Platform,
    task: TaskView,
    replies: Seq<ReplyView>,
    record: TemplateView,
    now: Timestamp,
    destination: Seq<char>,
    k: int,
)
    requires
        task is Expand,
        !task->no_exec,
        entered(replies, record, now, destination),
        0 <= k < record.commands.len(),
        replies.len() >= 7 + k,
        forall|i: int| 7 <= i < 7 + k ==> replies[i] == ReplyView::Exit(true),
        forall|i: int| 0 <= i <= k ==> words(#[trigger] record.commands[i]).len() > 0,
    ensures
        request_at(platform, task, replies, 6 + k) == RequestView::Spawn(
            dispatched(platform, record.commands[k], task->envs)->0,
        ),
        stage_at(platform, task, replies, 7 + k) == (StageView::ExpandRunning {
            commands: record.commands,
            index: k as nat,
        }),
    decreases k,
{
    if k == 0 {
        expand_begins_like_this(platform, task, replies, record, now, destination);
        assert(words(record.commands[0]).len() > 0);
        reveal_with_fuel(stage_at, 2);
    } else {
        commands_run_in_order(platform, task, replies, record, now, destination, k - 1);
        assert(replies[7 + (k - 1)] == ReplyView::Exit(true));
        assert(words(record.commands[k]).len() > 0);
        reveal_with_fuel(stage_at, 2);
    }
}

/// The first command that does not exit with success ends the run: the next
/// request is to leave the destination, no further command is started, and
/// the expansion is refused with the name of the command that failed.
pub proof fn failed_command_ends_the_run(
    platform: Platform,
    task: TaskView,
    replies: Seq<ReplyView>,
    record: TemplateView,
    now: Timestamp,
    destination: Seq<char>,
    k: int,
)
    requires
        task is Expand,
        !task->no_exec,
        entered(replies, record, now, destination),
        0 <= k < record.commands.len(),
        replies.len() == 7 + k + 2,
        forall|i: int| 7 <= i < 7 + k ==> replies[i] == ReplyView::Exit(true),
        forall|i: int| 0 <= i <= k ==> words(#[trigger] record.commands[i]).len() > 0,
        replies[7 + k] == ReplyView::Exit(false),
        replies[7 + k + 1] == ReplyView::Done,
    ensures
        request_at(platform, task, replies, 7 + k) == RequestView::LeaveDirectory,
        request_at(platform, task, replies, 7 + k + 1) == RequestView::Finish(
            OutcomeView::Refused(ErrorView::CreateTemplate(words(record.commands[k])[0])),
        ),
        stage_at(platform, task, replies, 7 + k + 2) is Finished,
{
    commands_run_in_order(platform, task, replies, record, now, destination, k);
    assert(words(record.commands[k]).len() > 0);
    reveal_with_fuel(stage_at, 3);
}

/// When every command has exited with success, the expansion leaves the
/// destination and is done. So it is when the template has no commands.
pub proof fn expand_runs_to_completion(
    platform: Platform,
    task: TaskView,
    replies: Seq<ReplyView>,
    record: TemplateView,
    now: Timestamp,
    destination: Seq<char>,
)
    requires
        task is Expand,
        !task->no_exec,
        entered(replies, record, now, destination),
        replies.len() == 7 + record.commands.len() + 1,
        forall|i: int| 7 <= i < 7 + record.commands.len() ==> replies[i] == ReplyView::Exit(true),
        forall|i: int|
            0 <= i < record.commands.len() ==> words(#[trigger] record.commands[i]).len() > 0,
        replies[7 + record.commands.len() as int] == ReplyView::Done,
    ensures
        request_at(platform, task, replies, 6 + record.commands.len() as int)
            == RequestView::LeaveDirectory,
        request_at(platform, task, replies, 7 + record.commands.len() as int)
            == RequestView::Finish(OutcomeView::Completed),
{
    let n = record.commands.len() as int;
    if n == 0 {
        expand_begins_like_this(platform, task, replies, record, now, destination);
        reveal_with_fuel(stage_at, 3);
    } else {
        commands_run_in_order(platform, task, replies, record, now, destination, n - 1);
        assert(replies[7 + (n - 1)] == ReplyView::Exit(true));
        reveal_with_fuel(stage_at, 3);
    }
}

/// With commands switched off, an expansion is done as soon as the archive is
/// extracted: it changes no directory and starts no process.
pub proof fn expand_without_commands_stops_after_extraction(
    platform: Platform,
    task: TaskView,
    record: TemplateView,
    now: Timestamp,
    destination: Seq<char>,
)
    requires
        task is Expand,
        task->no_exec,
    ensures
        transcript(
            platform,
            task,
            seq![
                ReplyView::Begin,
                ReplyView::Record(Some(record)),
                ReplyView::Time(now),
                ReplyView::Done,
                ReplyView::Target { path: destination, exists: false },
                ReplyView::Done,
            ],
        ) == seq![
            RequestView::GetRecord { name: task->Expand_name },
            RequestView::ReadClock,
            RequestView::PutRecord { key: task->Expand_name, record: touched(record, now) },
            RequestView::LocateTarget {
                parent: target_parent(task->Expand_path),
                directory: target_directory(task->create_as, task->Expand_name),
            },
            RequestView::Unpack { name: task->Expand_name, destination },
            RequestView::Finish(OutcomeView::Completed),
        ],
{
    let replies = seq![
        ReplyView::Begin,
        ReplyView::Record(Some(record)),
        ReplyView::Time(now),
        ReplyView::Done,
        ReplyView::Target { path: destination, exists: false },
        ReplyView::Done,
    ];
    reveal_with_fuel(stage_at, 7);
    assert(stage_at(platform, task, replies, 1) == StageView::ExpandFetching);
    assert(stage_at(platform, task, replies, 2) == StageView::ExpandStamping { record });
    assert(stage_at(platform, task, replies, 3) == StageView::ExpandTouching {
        commands: record.commands,
    });
    assert(stage_at(platform, task, replies, 4) == StageView::ExpandLocating {
        commands: record.commands,
    });
    assert(stage_at(platform, task, replies, 5) == StageView::ExpandUnpacking {
        commands: record.commands,
        destination,
    });
    assert(transcript(platform, task, replies) =~= seq![
        RequestView::GetRecord { name: task->Expand_name },
        RequestView::ReadClock,
        RequestView::PutRecord { key: task->Expand_name, record: touched(record, now) },
        RequestView::LocateTarget {
            parent: target_parent(task->Expand_path),
            directory: target_directory(task->create_as, task->Expand_name),
        },
        RequestView::Unpack { name: task->Expand_name, destination },
        RequestView::Finish(OutcomeView::Completed),
    ]);
}

/// An expansion never writes over what is there: where the destination
/// exists, nothing is extracted and the expansion is refused. The record is
/// marked as used all the same.
pub proof fn expand_refuses_a_destination_that_exists(
    platform: Platform,
    task: TaskView,
    record: TemplateView,
    now: Timestamp,
    destination: Seq<char>,
)
    requires
        task is Expand,
    ensures
        transcript(
            platform,
            task,
            seq![
                ReplyView::Begin,
                ReplyView::Record(Some(record)),
                ReplyView::Time(now),
                ReplyView::Done,
                ReplyView::Target { path: destination, exists: true },
            ],
        ) == seq![
            RequestView::GetRecord { name: task->Expand_name },
            RequestView::ReadClock,
            RequestView::PutRecord { key: task->Expand_name, record: touched(record, now) },
            RequestView::LocateTarget {
                parent: target_parent(task->Expand_path),
                directory: target_directory(task->create_as, task->Expand_name),
            },
            RequestView::Finish(
                OutcomeView::Refused(ErrorView::InvalidTemplateDir(destination)),
            ),
        ],
{
    let replies = seq![
        ReplyView::Begin,
        ReplyView::Record(Some(record)),
        ReplyView::Time(now),
        ReplyView::Done,
        ReplyView::Target { path: destination, exists: true },
    ];
    reveal_with_fuel(stage_at, 6);
    assert(stage_at(platform, task, replies, 1) == StageView::ExpandFetching);
    assert(stage_at(platform, task, replies, 2) == StageView::ExpandStamping { record });
    assert(stage_at(platform, task, replies, 3) == StageView::ExpandTouching {
        commands: record.commands,
    });
    assert(stage_at(platform, task, replies, 4) == StageView::ExpandLocating {
        commands: record.commands,
    });
    assert(transcript(platform, task, replies) =~= seq![
        RequestView::GetRecord { name: task->Expand_name },
        RequestView::ReadClock,
        RequestView::PutRecord { key: task->Expand_name, record: touched(record, now) },
        RequestView::LocateTarget {
            parent: target_parent(task->Expand_path),
            directory: target_directory(task->create_as, task->Expand_name),
        },
        RequestView::Finish(OutcomeView::Refused(ErrorView::InvalidTemplateDir(destination))),
    ]);
}

/// A plain listing: the records are read and the table of those that the
/// filter lets through is shown. That there are none is no error.
pub proof fn list_shows_the_table(platform: Platform, task: TaskView, records: Seq<TemplateView>)
    requires
        task is List,
        !task->List_commands,
        !task->file_tree,
    ensures
        transcript(
            platform,
            task,
            seq![ReplyView::Begin, ReplyView::Records(records), ReplyView::Done],
        ) == seq![
            RequestView::ScanRecords,
            RequestView::Show(listing(records, task->List_name)),
            RequestView::Finish(OutcomeView::Completed),
        ],
{
    let replies = seq![ReplyView::Begin, ReplyView::Records(records), ReplyView::Done];
    reveal_with_fuel(stage_at, 4);
    assert(stage_at(platform, task, replies, 1) == StageView::ListScanning);
    assert(stage_at(platform, task, replies, 2) == StageView::ListShowing);
    assert(transcript(platform, task, replies) =~= seq![
        RequestView::ScanRecords,
        RequestView::Show(listing(records, task->List_name)),
        RequestView::Finish(OutcomeView::Completed),
    ]);
}

/// Commands and file tree belong to one template: a listing that asks for
/// either without a name is refused at once, before anything is read.
pub proof fn list_details_need_a_name(platform: Platform, task: TaskView, replies: Seq<ReplyView>)
    requires
        task is List,
        task->List_name is None,
        task->List_commands || task->file_tree,
        replies.len() > 0,
        replies[0] == ReplyView::Begin,
    ensures
        request_at(platform, task, replies, 0) == RequestView::Finish(
            OutcomeView::Refused(
                ErrorView::InvalidArgument(
                    if task->List_commands {
                        commands_need_a_name()
                    } else {
                        file_tree_needs_a_name()
                    },
                ),
            ),
        ),
        stage_at(platform, task, replies, 1) is Finished,
{
    reveal_with_fuel(stage_at, 2);
}

/// A listing with commands and file tree of one template: after the table
/// the record is fetched and its commands are shown, then the entries of the
/// archive are read and drawn as a tree.
pub proof fn list_shows_the_details(
    platform: Platform,
    task: TaskView,
    records: Seq<TemplateView>,
    record: TemplateView,
    entries: Seq<ArchiveItemView>,
)
    requires
        task is List,
        task->List_name is Some,
        task->List_commands,
        task->file_tree,
    ensures
        transcript(
            platform,
            task,
            seq![
                ReplyView::Begin,
                ReplyView::Records(records),
                ReplyView::Done,
                ReplyView::Record(Some(record)),
                ReplyView::Done,
                ReplyView::Entries(entries),
                ReplyView::Done,
            ],
        ) == seq![
            RequestView::ScanRecords,
            RequestView::Show(listing(records, task->List_name)),
            RequestView::GetRecord { name: task->List_name->0 },
            RequestView::Show(ReportView::Notice(commands_text(record.commands))),
            RequestView::ReadArchive { name: task->List_name->0 },
            RequestView::Show(file_tree_of(entries)),
            RequestView::Finish(OutcomeView::Completed),
        ],
{
    let replies = seq![
        ReplyView::Begin,
        ReplyView::Records(records),
        ReplyView::Done,
        ReplyView::Record(Some(record)),
        ReplyView::Done,
        ReplyView::Entries(entries),
        ReplyView::Done,
    ];
    reveal_with_fuel(stage_at, 8);
    assert(stage_at(platform, task, replies, 1) == StageView::ListScanning);
    assert(stage_at(platform, task, replies, 2) == StageView::ListShowing);
    assert(stage_at(platform, task, replies, 3) == StageView::ListFetching);
    assert(stage_at(platform, task, replies, 4) == StageView::ListShowingCommands);
    assert(stage_at(platform, task, replies, 5) == StageView::ListReading);
    assert(stage_at(platform, task, replies, 6) == StageView::ListShowingTree);
    assert(transcript(platform, task, replies) =~= seq![
        RequestView::ScanRecords,
        RequestView::Show(listing(records, task->List_name)),
        RequestView::GetRecord { name: task->List_name->0 },
        RequestView::Show(ReportView::Notice(commands_text(record.commands))),
        RequestView::ReadArchive { name: task->List_name->0 },
        RequestView::Show(file_tree_of(entries)),
        RequestView::Finish(OutcomeView::Completed),
    ]);
}

/// A listing with the file tree alone: after the table the record is looked
/// up, and only when it is found are the entries of the archive read and
/// drawn as a tree.
pub proof fn list_shows_the_tree(
    platform: Platform,
    task: TaskView,
    records: Seq<TemplateView>,
    record: TemplateView,
    entries: Seq<ArchiveItemView>,
)
    requires
        task is List,
        task->List_name is Some,
        !task->List_commands,
        task->file_tree,
    ensures
        transcript(
            platform,
            task,
            seq![
                ReplyView::Begin,
                ReplyView::Records(records),
                ReplyView::Done,
                ReplyView::Record(Some(record)),
                ReplyView::Entries(entries),
                ReplyView::Done,
            ],
        ) == seq![
            RequestView::ScanRecords,
            RequestView::Show(listing(records, task->List_name)),
            RequestView::GetRecord { name: task->List_name->0 },
            RequestView::ReadArchive { name: task->List_name->0 },
            RequestView::Show(file_tree_of(entries)),
            RequestView::Finish(OutcomeView::Completed),
        ],
{
    let replies = seq![
        ReplyView::Begin,
        ReplyView::Records(records),
        ReplyView::Done,
        ReplyView::Record(Some(record)),
        ReplyView::Entries(entries),
        ReplyView::Done,
    ];
    reveal_with_fuel(stage_at, 7);
    assert(stage_at(platform, task, replies, 1) == StageView::ListScanning);
    assert(stage_at(platform, task, replies, 2) == StageView::ListShowing);
    assert(stage_at(platform, task, replies, 3) == StageView::ListChecking);
    assert(stage_at(platform, task, replies, 4) == StageView::ListReading);
    assert(stage_at(platform, task, replies, 5) == StageView::ListShowingTree);
    assert(transcript(platform, task, replies) =~= seq![
        RequestView::ScanRecords,
        RequestView::Show(listing(records, task->List_name)),
        RequestView::GetRecord { name: task->List_name->0 },
        RequestView::ReadArchive { name: task->List_name->0 },
        RequestView::Show(file_tree_of(entries)),
        RequestView::Finish(OutcomeView::Completed),
    ]);
}

/// The file tree of a template that is not stored is refused, and no archive
/// is read.
pub proof fn file_tree_of_an_unknown_template_is_refused(
    platform: Platform,
    task: TaskView,
    records: Seq<TemplateView>,
)
    requires
        task is List,
        task->List_name is Some,
        !task->List_commands,
        task->file_tree,
    ensures
        transcript(
            platform,
            task,
            seq![
                ReplyView::Begin,
                ReplyView::Records(records),
                ReplyView::Done,
                ReplyView::Record(None),
            ],
        ) == seq![
            RequestView::ScanRecords,
            RequestView::Show(listing(records, task->List_name)),
            RequestView::GetRecord { name: task->List_name->0 },
            RequestView::Finish(
                OutcomeView::Refused(ErrorView::TemplateNotFound(task->List_name->0)),
            ),
        ],
{
    let replies = seq![
        ReplyView::Begin,
        ReplyView::Records(records),
        ReplyView::Done,
        ReplyView::Record(None),
    ];
    reveal_with_fuel(stage_at, 5);
    assert(stage_at(platform, task, replies, 1) == StageView::ListScanning);
    assert(stage_at(platform, task, replies, 2) == StageView::ListShowing);
    assert(stage_at(platform, task, replies, 3) == StageView::ListChecking);
    assert(transcript(platform, task, replies) =~= seq![
        RequestView::ScanRecords,
        RequestView::Show(listing(records, task->List_name)),
        RequestView::GetRecord { name: task->List_name->0 },
        RequestView::Finish(OutcomeView::Refused(ErrorView::TemplateNotFound(task->List_name->0))),
    ]);
}

/// Reply `k` answers a lookup with the record that was looked up.
pub open spec fn found_at(
    platform: Platform,
    task: TaskView,
    replies: Seq<ReplyView>,
    k: int,
) -> bool {
    &&& k >= 1
    &&& request_at(platform, task, replies, k - 1) is GetRecord
    &&& replies[k] matches ReplyView::Record(Some(_))
}

/// Whatever the host says, a listing reads an archive only when the record of
/// that name has been looked up and found: either just before, or for the
/// commands that were shown in between.
pub proof fn list_reads_only_the_archive_of_a_stored_template(
    platform: Platform,
    task: TaskView,
    replies: Seq<ReplyView>,
    k: int,
)
    requires
        task is List,
        0 <= k < replies.len(),
        request_at(platform, task, replies, k) is ReadArchive,
    ensures
        task->List_name == Some(request_at(platform, task, replies, k)->ReadArchive_name),
        found_at(platform, task, replies, k) || found_at(platform, task, replies, k - 1),
{
    reveal_with_fuel(stage_at, 3);
}

/// The name of the template that an operation looks up, where it looks up one.
pub open spec fn looked_up(task: TaskView) -> Option<Seq<char>> {
    match task {
        TaskView::Expand { name, .. } => Some(name),
        TaskView::Delete { name } => Some(name),
        TaskView::Edit { name } => Some(name),
        TaskView::List { name, .. } => name,
        TaskView::Create { .. } => None,
    }
}

/// Whatever the operation, when the host reports that no record is stored
/// under the name it was asked for, the operation ends at once, refused, and
/// the error names the template.
pub proof fn unknown_template_is_refused(
    platform: Platform,
    task: TaskView,
    replies: Seq<ReplyView>,
    k: int,
)
    requires
        looked_up(task) is Some,
        0 < k < replies.len(),
        request_at(platform, task, replies, k - 1) is GetRecord && replies[k]
            == ReplyView::Record(None) || request_at(platform, task, replies, k - 1) is RemoveRecord
            && replies[k] == ReplyView::Flag(false),
    ensures
        request_at(platform, task, replies, k) == RequestView::Finish(
            OutcomeView::Refused(ErrorView::TemplateNotFound(looked_up(task)->0)),
        ),
{
    reveal_with_fuel(stage_at, 2);
}

/// A removal: the record goes first, then the archive artifact.
pub proof fn delete_removes_record_then_archive(platform: Platform, task: TaskView)
    requires
        task is Delete,
    ensures
        transcript(
            platform,
            task,
            seq![ReplyView::Begin, ReplyView::Flag(true), ReplyView::Flag(true)],
        ) == seq![
            RequestView::RemoveRecord { name: task->Delete_name },
            RequestView::RemoveArchive { name: task->Delete_name },
            RequestView::Finish(OutcomeView::Completed),
        ],
{
    let replies = seq![ReplyView::Begin, ReplyView::Flag(true), ReplyView::Flag(true)];
    reveal_with_fuel(stage_at, 4);
    assert(stage_at(platform, task, replies, 1) == StageView::DeleteRemoving);
    assert(stage_at(platform, task, replies, 2) == StageView::DeleteCleaning);
    assert(transcript(platform, task, replies) =~= seq![
        RequestView::RemoveRecord { name: task->Delete_name },
        RequestView::RemoveArchive { name: task->Delete_name },
        RequestView::Finish(OutcomeView::Completed),
    ]);
}

/// A removal of a template whose archive artifact is not there: the record
/// is gone, which is what counts; the missing artifact is worth a warning
/// and the removal is done.
pub proof fn delete_warns_of_a_missing_archive(platform: Platform, task: TaskView)
    requires
        task is Delete,
    ensures
        transcript(
            platform,
            task,
            seq![ReplyView::Begin, ReplyView::Flag(true), ReplyView::Flag(false), ReplyView::Done],
        ) == seq![
            RequestView::RemoveRecord { name: task->Delete_name },
            RequestView::RemoveArchive { name: task->Delete_name },
            RequestView::Show(ReportView::Warning(archive_missing(task->Delete_name))),
            RequestView::Finish(OutcomeView::Completed),
        ],
{
    let replies = seq![
        ReplyView::Begin,
        ReplyView::Flag(true),
        ReplyView::Flag(false),
        ReplyView::Done,
    ];
    reveal_with_fuel(stage_at, 5);
    assert(stage_at(platform, task, replies, 1) == StageView::DeleteRemoving);
    assert(stage_at(platform, task, replies, 2) == StageView::DeleteCleaning);
    assert(stage_at(platform, task, replies, 3) == StageView::DeleteWarning);
    assert(transcript(platform, task, replies) =~= seq![
        RequestView::RemoveRecord { name: task->Delete_name },
        RequestView::RemoveArchive { name: task->Delete_name },
        RequestView::Show(ReportView::Warning(archive_missing(task->Delete_name))),
        RequestView::Finish(OutcomeView::Completed),
    ]);
}

/// An edit that changes the name: the person edits the editable part of the
/// record; the result is stored under the key that the record had; then the
/// archive artifact is renamed to match the new name.
pub proof fn edit_stores_then_renames(
    platform: Platform,
    task: TaskView,
    record: TemplateView,
    edited: EditDocumentView,
)
    requires
        task is Edit,
        edited.name != task->Edit_name,
    ensures
        transcript(
            platform,
            task,
            seq![
                ReplyView::Begin,
                ReplyView::Record(Some(record)),
                ReplyView::Edited(Some(edited)),
                ReplyView::Done,
                ReplyView::Done,
            ],
        ) == seq![
            RequestView::GetRecord { name: task->Edit_name },
            RequestView::Edit(projected(record)),
            RequestView::PutRecord { key: task->Edit_name, record: overlaid(record, edited) },
            RequestView::RenameArchive { from: task->Edit_name, to: edited.name },
            RequestView::Finish(OutcomeView::Completed),
        ],
{
    let replies = seq![
        ReplyView::Begin,
        ReplyView::Record(Some(record)),
        ReplyView::Edited(Some(edited)),
        ReplyView::Done,
        ReplyView::Done,
    ];
    reveal_with_fuel(stage_at, 6);
    assert(stage_at(platform, task, replies, 1) == StageView::EditFetching);
    assert(stage_at(platform, task, replies, 2) == StageView::EditEditing { record });
    assert(stage_at(platform, task, replies, 3) == StageView::EditStoring {
        renamed_to: edited.name,
    });
    assert(stage_at(platform, task, replies, 4) == StageView::EditRenaming);
    assert(transcript(platform, task, replies) =~= seq![
        RequestView::GetRecord { name: task->Edit_name },
        RequestView::Edit(projected(record)),
        RequestView::PutRecord { key: task->Edit_name, record: overlaid(record, edited) },
        RequestView::RenameArchive { from: task->Edit_name, to: edited.name },
        RequestView::Finish(OutcomeView::Completed),
    ]);
}

/// An edit that keeps the name touches no archive artifact.
pub proof fn edit_without_renaming_leaves_the_archive(
    platform: Platform,
    task: TaskView,
    record: TemplateView,
    edited: EditDocumentView,
)
    requires
        task is Edit,
        edited.name == task->Edit_name,
    ensures
        transcript(
            platform,
            task,
            seq![
                ReplyView::Begin,
                ReplyView::Record(Some(record)),
                ReplyView::Edited(Some(edited)),
                ReplyView::Done,
            ],
        ) == seq![
            RequestView::GetRecord { name: task->Edit_name },
            RequestView::Edit(projected(record)),
            RequestView::PutRecord { key: task->Edit_name, record: overlaid(record, edited) },
            RequestView::Finish(OutcomeView::Completed),
        ],
{
    let replies = seq![
        ReplyView::Begin,
        ReplyView::Record(Some(record)),
        ReplyView::Edited(Some(edited)),
        ReplyView::Done,
    ];
    reveal_with_fuel(stage_at, 5);
    assert(stage_at(platform, task, replies, 1) == StageView::EditFetching);
    assert(stage_at(platform, task, replies, 2) == StageView::EditEditing { record });
    assert(stage_at(platform, task, replies, 3) == StageView::EditStoring {
        renamed_to: edited.name,
    });
    assert(transcript(platform, task, replies) =~= seq![
        RequestView::GetRecord { name: task->Edit_name },
        RequestView::Edit(projected(record)),
        RequestView::PutRecord { key: task->Edit_name, record: overlaid(record, edited) },
        RequestView::Finish(OutcomeView::Completed),
    ]);
}

/// An edit whose editor fails is refused, and nothing is stored.
pub proof fn edit_with_a_failed_editor_changes_nothing(
    platform: Platform,
    task: TaskView,
    record: TemplateView,
)
    requires
        task is Edit,
    ensures
        transcript(
            platform,
            task,
            seq![ReplyView::Begin, ReplyView::Record(Some(record)), ReplyView::Edited(None)],
        ) == seq![
            RequestView::GetRecord { name: task->Edit_name },
            RequestView::Edit(projected(record)),
            RequestView::Finish(OutcomeView::Refused(ErrorView::EditTemplate(editor_failed()))),
        ],
{
    let replies = seq![
        ReplyView::Begin,
        ReplyView::Record(Some(record)),
        ReplyView::Edited(None),
    ];
    reveal_with_fuel(stage_at, 4);
    assert(stage_at(platform, task, replies, 1) == StageView::EditFetching);
    assert(stage_at(platform, task, replies, 2) == StageView::EditEditing { record });
    assert(transcript(platform, task, replies) =~= seq![
        RequestView::GetRecord { name: task->Edit_name },
        RequestView::Edit(projected(record)),
        RequestView::Finish(OutcomeView::Refused(ErrorView::EditTemplate(editor_failed()))),
    ]);
}

/// Whatever the host says, an archive artifact is renamed or removed only
/// when the record has been dealt with: a rename follows the request to store
/// the edited record, a removal follows the request to remove the record.
pub proof fn record_goes_before_archive(
    platform: Platform,
    task: TaskView,
    replies: Seq<ReplyView>,
    k: int,
)
    requires
        0 <= k < replies.len(),
        request_at(platform, task, replies, k) is RenameArchive || request_at(
            platform,
            task,
            replies,
            k,
        ) is RemoveArchive,
    ensures
        k >= 1,
        request_at(platform, task, replies, k) is RenameArchive ==> request_at(
            platform,
            task,
            replies,
            k - 1,
        ) is PutRecord && replies[k] == ReplyView::Done,
        request_at(platform, task, replies, k) is RemoveArchive ==> request_at(
            platform,
            task,
            replies,
            k - 1,
        ) is RemoveRecord && replies[k] == ReplyView::Flag(true),
{
    reveal_with_fuel(stage_at, 2);
}

/// Once an operation has ended, the engine asks for nothing more.
pub proof fn nothing_follows_the_end(
    platform: Platform,
    task: TaskView,
    replies: Seq<ReplyView>,
    j: int,
    k: int,
)
    requires
        0 <= j <= k < replies.len(),
        stage_at(platform, task, replies, j) is Finished,
    ensures
        stage_at(platform, task, replies, k) is Finished,
        request_at(platform, task, replies, k) is Finish,
    decreases k - j,
{
    if j < k {
        assert(stage_at(platform, task, replies, j + 1) is Finished);
        nothing_follows_the_end(platform, task, replies, j + 1, k);
    }
}

} // verus!
