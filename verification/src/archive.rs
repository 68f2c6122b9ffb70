//! What goes into an archive artifact, and where the artifact is kept.

use vstd::prelude::*;
use crate::filter::{excludes, GlobFilter};

verus! {

/// What a [`WalkedPath`] denotes.
pub struct WalkedPathView {
    pub path: Seq<char>,
    pub relative: Seq<char>,
    pub is_file: bool,
}

/// One path that the walk of a source tree came by.
#[derive(Debug, PartialEq, Eq)]
pub struct WalkedPath {
    /// The path as the walk gave it; the ignore patterns are held against it.
    pub path: String,
    /// The same path relative to the root of the walk.
    pub relative: String,
    /// Whether the path is a regular file; anything else is stored as a
    /// directory marker.
    pub is_file: bool,
}

impl DeepView for WalkedPath {
    type V = WalkedPathView;

    open spec fn deep_view(&self) -> WalkedPathView {
        self@
    }
}

impl View for WalkedPath {
    type V = WalkedPathView;

    open spec fn view(&self) -> WalkedPathView {
        WalkedPathView { path: self.path@, relative: self.relative@, is_file: self.is_file }
    }
}

/// What an [`ArchiveEntry`] denotes.
pub struct ArchiveEntryView {
    pub source: Seq<char>,
    pub name: Seq<char>,
    pub is_file: bool,
}

/// One entry to be written into an archive.
#[derive(Debug, PartialEq, Eq)]
pub struct ArchiveEntry {
    /// Where the content is read from.
    pub source: String,
    /// The name under which the entry is stored, relative to the archive's root.
    pub name: String,
    /// Whether the entry is stored with its content or as a directory marker.
    pub is_file: bool,
}

impl DeepView for ArchiveEntry {
    type V = ArchiveEntryView;

    open spec fn deep_view(&self) -> ArchiveEntryView {
        self@
    }
}

impl View for ArchiveEntry {
    type V = ArchiveEntryView;

    open spec fn view(&self) -> ArchiveEntryView {
        ArchiveEntryView { source: self.source@, name: self.name@, is_file: self.is_file }
    }
}

impl Clone for ArchiveEntry {
    fn clone(&self) -> (r: ArchiveEntry)
        ensures
            r@ == self@,
    {
        ArchiveEntry {
            source: self.source.clone(),
            name: self.name.clone(),
            is_file: self.is_file,
        }
    }
}

/// The entry under which a walked path is stored: its relative path, anchored
/// at the archive's root.
pub open spec fn entry_of(w: WalkedPathView) -> ArchiveEntryView {
    ArchiveEntryView { source: w.path, name: "./"@ + w.relative, is_file: w.is_file }
}

/// The entries of an archive: one for every walked path that no pattern
/// matches, in the order of the walk.
pub open spec fn selected(patterns: Seq<Seq<char>>, walked: Seq<WalkedPathView>) -> Seq<
    ArchiveEntryView,
>
    decreases walked.len(),
{
    if walked.len() == 0 {
        Seq::empty()
    } else {
        let before = selected(patterns, walked.drop_last());
        if excludes(patterns, walked.last().path) {
            before
        } else {
            before.push(entry_of(walked.last()))
        }
    }
}

/// Whether the walked path at position `i` is marked as excluded. A path
/// without a mark is not.
pub open spec fn marked(excluded: Seq<bool>, i: int) -> bool {
    0 <= i < excluded.len() && excluded[i]
}

/// The entries of an archive, given for each walked path whether it is
/// excluded: one for every path that is not, in the order of the walk.
pub open spec fn kept(walked: Seq<WalkedPathView>, excluded: Seq<bool>) -> Seq<ArchiveEntryView>
    decreases walked.len(),
{
    if walked.len() == 0 {
        Seq::empty()
    } else {
        let before = kept(walked.drop_last(), excluded);
        if marked(excluded, walked.len() - 1) {
            before
        } else {
            before.push(entry_of(walked.last()))
        }
    }
}

/// Builds the entries of an archive from the walked paths and, for each of
/// them, the answer whether it is excluded. Every path that is not marked
/// as excluded gets its entry, in the order of the walk; nothing else does.
pub fn keep_entries(walked: &Vec<WalkedPath>, excluded: &Vec<bool>) -> (entries: Vec<ArchiveEntry>)
    ensures
        entries.deep_view() == kept(walked.deep_view(), excluded@),
{
    let mut entries: Vec<ArchiveEntry> = Vec::new();
    let mut i: usize = 0;
    assert(walked.deep_view().take(0) =~= Seq::<WalkedPathView>::empty());
    assert(entries.deep_view() =~= Seq::<ArchiveEntryView>::empty());
    while i < walked.len()
        invariant
            i <= walked.len(),
            entries.deep_view() == kept(walked.deep_view().take(i as int), excluded@),
        decreases walked.len() - i,
    {
        let w = &walked[i];
        let ghost seen = walked.deep_view().take(i + 1);
        assert(seen.drop_last() =~= walked.deep_view().take(i as int));
        assert(seen.last() == w@);
        if !(i < excluded.len() && excluded[i]) {
            let ghost before = entries.deep_view();
            let mut name = "./".to_owned();
            name.append(w.relative.as_str());
            entries.push(ArchiveEntry { source: w.path.clone(), name, is_file: w.is_file });
            assert(entries.deep_view() =~= before.push(entry_of(w@)));
        }
        i += 1;
    }
    assert(walked.deep_view().take(walked.len() as int) =~= walked.deep_view());
    entries
}

/// Where every walked path is marked exactly when a pattern matches it, the
/// entries kept are those of the paths that no pattern matches.
pub proof fn kept_by_the_patterns(
    patterns: Seq<Seq<char>>,
    walked: Seq<WalkedPathView>,
    excluded: Seq<bool>,
)
    requires
        excluded.len() >= walked.len(),
        forall|i: int|
            0 <= i < walked.len() ==> excluded[i] == excludes(
                patterns,
                (#[trigger] walked[i]).path,
            ),
    ensures
        kept(walked, excluded) == selected(patterns, walked),
    decreases walked.len(),
{
    if walked.len() > 0 {
        let rest = walked.drop_last();
        assert forall|i: int| 0 <= i < rest.len() implies excluded[i] == excludes(
            patterns,
            (#[trigger] rest[i]).path,
        ) by {
            assert(rest[i] == walked[i]);
        }
        kept_by_the_patterns(patterns, rest, excluded);
        assert(walked.last() == walked[walked.len() - 1]);
    }
}

/// Chooses what goes into the archive: every walked path that the filter does
/// not keep out, in the order of the walk.
pub fn select_entries(filter: &GlobFilter, walked: &Vec<WalkedPath>) -> (entries: Vec<ArchiveEntry>)
    ensures
        entries.deep_view() == selected(filter.patterns(), walked.deep_view()),
{
    let mut excluded: Vec<bool> = Vec::new();
    let mut i: usize = 0;
    while i < walked.len()
        invariant
            i <= walked.len(),
            excluded.len() == i,
            forall|k: int|
                0 <= k < i ==> excluded[k] == excludes(
                    filter.patterns(),
                    (#[trigger] walked.deep_view()[k]).path,
                ),
        decreases walked.len() - i,
    {
        assert(walked.deep_view()[i as int] == walked[i as int]@);
        excluded.push(filter.is_excluded(walked[i].path.as_str()));
        i += 1;
    }
    proof {
        kept_by_the_patterns(filter.patterns(), walked.deep_view(), excluded@);
    }
    keep_entries(walked, &excluded)
}

/// A walked path has its entry in the archive if and only if no pattern
/// matches it, and the archive holds nothing else.
pub proof fn selected_holds_exactly_the_kept(
    patterns: Seq<Seq<char>>,
    walked: Seq<WalkedPathView>,
    entry: ArchiveEntryView,
)
    ensures
        selected(patterns, walked).contains(entry) <==> exists|i: int|
            0 <= i < walked.len() && !excludes(patterns, walked[i].path) && entry == entry_of(
                #[trigger] walked[i],
            ),
    decreases walked.len(),
{
    if walked.len() > 0 {
        let rest = walked.drop_last();
        let last = walked.last();
        selected_holds_exactly_the_kept(patterns, rest, entry);
        let before = selected(patterns, rest);
        if selected(patterns, walked).contains(entry) {
            if before.contains(entry) {
                let i = choose|i: int|
                    0 <= i < rest.len() && !excludes(patterns, rest[i].path) && entry == entry_of(
                        #[trigger] rest[i],
                    );
                assert(walked[i] == rest[i]);
            } else {
                let k = choose|k: int|
                    0 <= k < selected(patterns, walked).len() && selected(patterns, walked)[k]
                        == entry;
                assert(!excludes(patterns, last.path));
                assert(k == before.len());
                assert(entry == entry_of(walked[walked.len() - 1]));
            }
        }
        if exists|i: int|
            0 <= i < walked.len() && !excludes(patterns, walked[i].path) && entry == entry_of(
                #[trigger] walked[i],
            ) {
            let i = choose|i: int|
                0 <= i < walked.len() && !excludes(patterns, walked[i].path) && entry == entry_of(
                    #[trigger] walked[i],
                );
            if i < rest.len() {
                assert(rest[i] == walked[i]);
                assert(before.contains(entry));
                let k = choose|k: int| 0 <= k < before.len() && before[k] == entry;
                assert(selected(patterns, walked)[k] == entry);
            } else {
                assert(selected(patterns, walked) == before.push(entry));
                assert(selected(patterns, walked)[before.len() as int] == entry);
            }
        }
    }
}

/// An archive has at most as many entries as the walk came by paths.
pub proof fn selected_is_no_longer_than_the_walk(
    patterns: Seq<Seq<char>>,
    walked: Seq<WalkedPathView>,
)
    ensures
        selected(patterns, walked).len() <= walked.len(),
    decreases walked.len(),
{
    if walked.len() > 0 {
        selected_is_no_longer_than_the_walk(patterns, walked.drop_last());
    }
}

/// Without patterns nothing is kept out.
pub proof fn no_pattern_keeps_everything(walked: Seq<WalkedPathView>)
    ensures
        selected(Seq::empty(), walked) == walked.map_values(|w: WalkedPathView| entry_of(w)),
    decreases walked.len(),
{
    if walked.len() > 0 {
        no_pattern_keeps_everything(walked.drop_last());
        assert(!excludes(Seq::empty(), walked.last().path));
        assert(selected(Seq::empty(), walked) =~= walked.map_values(
            |w: WalkedPathView| entry_of(w),
        ));
    } else {
        assert(selected(Seq::empty(), walked) =~= walked.map_values(
            |w: WalkedPathView| entry_of(w),
        ));
    }
}

/// The directory, below the platform's local data directory, in which the
/// engine keeps everything.
pub const STORAGE_DIRECTORY: &'static str = "templater";

/// The directory, below the storage directory, that holds the metadata store.
pub const METADATA_DIRECTORY: &'static str = "metadata";

/// The directory, below the storage directory, that holds the archive artifacts.
pub const ARCHIVES_DIRECTORY: &'static str = "archives";

/// The file name of the archive artifact of the template called `name`.
pub open spec fn artifact_name(name: Seq<char>) -> Seq<char> {
    name + ".tar.gz"@
}

/// Derives the file name of a template's archive artifact from its name.
pub fn archive_file_name(name: &str) -> (file: String)
    ensures
        file@ == artifact_name(name@),
{
    let mut file = name.to_owned();
    file.append(".tar.gz");
    file
}

} // verus!
