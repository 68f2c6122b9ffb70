//! Drawing the entries of an archive as a tree, from their order and depth
//! alone.
//!
//! The renderer walks the entries once and keeps a stack of the directories
//! that are still open. [`rendered`] says what it draws in terms of that
//! stack; [`prefix_comes_from_the_parent`] and
//! [`without_parent_there_is_no_prefix`] say the same without it.

use vstd::prelude::*;
use crate::path::{depth_of, leaf, leaf_name, path_depth};

verus! {

/// What a [`TreeEntry`] denotes.
pub struct TreeEntryView {
    pub path: Seq<char>,
    pub depth: nat,
    pub is_dir: bool,
}

/// One entry of an archive, as the renderer sees it.
#[derive(Debug, PartialEq, Eq)]
pub struct TreeEntry {
    /// The path under which the entry is stored.
    pub path: String,
    /// The number of components of the path.
    pub depth: usize,
    /// Whether the entry is a directory.
    pub is_dir: bool,
}

impl DeepView for TreeEntry {
    type V = TreeEntryView;

    open spec fn deep_view(&self) -> TreeEntryView {
        self@
    }
}

impl View for TreeEntry {
    type V = TreeEntryView;

    open spec fn view(&self) -> TreeEntryView {
        TreeEntryView { path: self.path@, depth: self.depth as nat, is_dir: self.is_dir }
    }
}

/// What an [`ArchiveItem`] denotes.
pub struct ArchiveItemView {
    pub path: Seq<char>,
    pub is_dir: bool,
}

/// One entry of an archive, as it is found there.
#[derive(Debug, PartialEq, Eq)]
pub struct ArchiveItem {
    /// The path under which the entry is stored.
    pub path: String,
    /// Whether the entry is a directory.
    pub is_dir: bool,
}

impl DeepView for ArchiveItem {
    type V = ArchiveItemView;

    open spec fn deep_view(&self) -> ArchiveItemView {
        self@
    }
}

impl View for ArchiveItem {
    type V = ArchiveItemView;

    open spec fn view(&self) -> ArchiveItemView {
        ArchiveItemView { path: self.path@, is_dir: self.is_dir }
    }
}

/// The entry of the tree for an entry of an archive: its depth is the number
/// of components of its path.
pub open spec fn entry_for(item: ArchiveItemView) -> TreeEntryView {
    TreeEntryView { path: item.path, depth: depth_of(item.path), is_dir: item.is_dir }
}

/// The entries of the tree for the entries of an archive, in their order.
pub open spec fn entries_for(items: Seq<ArchiveItemView>) -> Seq<TreeEntryView> {
    Seq::new(items.len(), |i: int| entry_for(items[i]))
}

/// Annotates the entries of an archive with their depth.
pub fn tree_entries(items: Vec<ArchiveItem>) -> (entries: Vec<TreeEntry>)
    ensures
        entries.deep_view() == entries_for(items.deep_view()),
{
    let mut entries: Vec<TreeEntry> = Vec::new();
    let mut i: usize = 0;
    while i < items.len()
        invariant
            i <= items.len(),
            entries.len() == i,
            forall|k: int| 0 <= k < i ==> (#[trigger] entries[k])@ == entry_for(items[k]@),
        decreases items.len() - i,
    {
        let depth = path_depth(items[i].path.as_str());
        entries.push(TreeEntry { path: items[i].path.clone(), depth, is_dir: items[i].is_dir });
        i += 1;
    }
    assert(entries.deep_view() =~= entries_for(items.deep_view()));
    entries
}

/// An open ancestor directory: the prefix of the lines below it, and its depth.
pub struct Frame {
    pub prefix: Seq<char>,
    pub depth: nat,
}

/// The stack without the frames on top whose depth is at least `depth`.
pub open spec fn unwound(stack: Seq<Frame>, depth: nat) -> Seq<Frame>
    decreases stack.len(),
{
    if stack.len() > 0 && stack.last().depth >= depth {
        unwound(stack.drop_last(), depth)
    } else {
        stack
    }
}

/// The prefix on top of the stack; empty where the stack is.
pub open spec fn top_prefix(stack: Seq<Frame>) -> Seq<char> {
    if stack.len() > 0 {
        stack.last().prefix
    } else {
        Seq::empty()
    }
}

/// The depth of the entry before entry `i`; 0 for the first entry.
pub open spec fn previous_depth(entries: Seq<TreeEntryView>, i: int) -> nat {
    if i <= 0 {
        0
    } else {
        entries[i - 1].depth
    }
}

/// Entry `i` is the last entry of all, or its depth differs from that of the
/// entry before it.
pub open spec fn turns(entries: Seq<TreeEntryView>, i: int) -> bool {
    i == entries.len() - 1 || entries[i].depth != previous_depth(entries, i)
}

/// The connector in front of the name of entry `i`.
pub open spec fn connector(entries: Seq<TreeEntryView>, i: int) -> Seq<char> {
    if i == entries.len() - 1 || (i != 0 && entries[i].depth != previous_depth(entries, i)) {
        "└── "@
    } else {
        "├── "@
    }
}

/// What a directory at position `i` adds to the prefix of the lines below it.
pub open spec fn padding(entries: Seq<TreeEntryView>, i: int) -> Seq<char> {
    if turns(entries, i) {
        "    "@
    } else {
        "│   "@
    }
}

/// The stack of open ancestors when entry `i` is visited.
pub open spec fn stack_at(entries: Seq<TreeEntryView>, i: int) -> Seq<Frame>
    decreases i,
{
    if i <= 0 {
        seq![Frame { prefix: Seq::empty(), depth: 0 }]
    } else {
        let open = unwound(stack_at(entries, i - 1), entries[i - 1].depth);
        if entries[i - 1].is_dir {
            open.push(
                Frame {
                    prefix: top_prefix(open) + padding(entries, i - 1),
                    depth: entries[i - 1].depth,
                },
            )
        } else {
            open
        }
    }
}

/// The prefix of the line of entry `i`: that of its nearest open ancestor.
pub open spec fn prefix_at(entries: Seq<TreeEntryView>, i: int) -> Seq<char> {
    top_prefix(unwound(stack_at(entries, i), entries[i].depth))
}

/// The line of entry `i`. The first entry is the root and stands bare.
pub open spec fn line_at(entries: Seq<TreeEntryView>, i: int) -> Seq<char> {
    if i == 0 {
        leaf(entries[i].path)
    } else {
        prefix_at(entries, i) + connector(entries, i) + leaf(entries[i].path)
    }
}

/// The tree of the entries: one line for each, in their order.
pub open spec fn rendered(entries: Seq<TreeEntryView>) -> Seq<Seq<char>> {
    Seq::new(entries.len(), |i: int| line_at(entries, i))
}

/// The frames of the stack lie deeper from the bottom to the top.
pub open spec fn ascending(stack: Seq<Frame>) -> bool {
    forall|a: int, b: int| 0 <= a < b < stack.len() ==> stack[a].depth < stack[b].depth
}

/// Directory `j` is still open when entry `i` is visited: it comes before
/// `i`, and every entry between the two lies deeper than `j`.
pub open spec fn open_at(entries: Seq<TreeEntryView>, j: int, i: int) -> bool {
    &&& 0 <= j < i
    &&& entries[j].is_dir
    &&& forall|k: int| j < k < i ==> (#[trigger] entries[k]).depth > entries[j].depth
}

/// Directory `j` is an ancestor of entry `i`: it is open when `i` is visited
/// and lies less deep.
pub open spec fn above(entries: Seq<TreeEntryView>, j: int, i: int) -> bool {
    open_at(entries, j, i) && entries[j].depth < entries[i].depth
}

/// Directory `j` is the parent of entry `i`: the last of its ancestors.
pub open spec fn is_parent(entries: Seq<TreeEntryView>, j: int, i: int) -> bool {
    &&& above(entries, j, i)
    &&& forall|m: int| j < m < i ==> !above(entries, m, i)
}

/// The prefix of the lines below directory `j`.
pub open spec fn child_prefix(entries: Seq<TreeEntryView>, j: int) -> Seq<char> {
    prefix_at(entries, j) + padding(entries, j)
}

/// For each frame of the stack when entry `i` is visited, the entry that
/// pushed it; -1 for the frame that the stack starts with.
pub open spec fn owners(entries: Seq<TreeEntryView>, i: int) -> Seq<int>
    decreases i,
{
    if i <= 0 {
        seq![-1int]
    } else {
        let kept = owners(entries, i - 1).take(
            unwound(stack_at(entries, i - 1), entries[i - 1].depth).len() as int,
        );
        if entries[i - 1].is_dir {
            kept.push(i - 1)
        } else {
            kept
        }
    }
}

/// Unwinding an ascending stack cuts it where the frames get as deep as `depth`.
proof fn lemma_unwound(stack: Seq<Frame>, depth: nat)
    requires
        ascending(stack),
    ensures
        unwound(stack, depth).len() <= stack.len(),
        unwound(stack, depth) == stack.take(unwound(stack, depth).len() as int),
        forall|k: int| 0 <= k < unwound(stack, depth).len() ==> (#[trigger] stack[k]).depth < depth,
        forall|k: int|
            unwound(stack, depth).len() <= k < stack.len() ==> (#[trigger] stack[k]).depth >= depth,
    decreases stack.len(),
{
    if stack.len() > 0 && stack.last().depth >= depth {
        let rest = stack.drop_last();
        assert(ascending(rest)) by {
            assert forall|a: int, b: int| 0 <= a < b < rest.len() implies rest[a].depth
                < rest[b].depth by {
                assert(rest[a] == stack[a] && rest[b] == stack[b]);
            }
        }
        lemma_unwound(rest, depth);
        let n = unwound(rest, depth).len() as int;
        assert(rest.take(n) =~= stack.take(n));
        assert forall|k: int| 0 <= k < n implies (#[trigger] stack[k]).depth < depth by {
            assert(rest[k] == stack[k]);
        }
        assert forall|k: int| n <= k < stack.len() implies (#[trigger] stack[k]).depth
            >= depth by {
            if k < rest.len() {
                assert(rest[k] == stack[k]);
            }
        }
    } else {
        assert(stack.take(stack.len() as int) =~= stack);
        if stack.len() > 0 {
            assert forall|k: int| 0 <= k < stack.len() implies (#[trigger] stack[k]).depth
                < depth by {
                if k < stack.len() - 1 {
                    assert(stack[k].depth < stack[stack.len() - 1].depth);
                }
            }
        }
    }
}

/// What holds of the stack when entry `i` is visited: its frames are those of
/// the directories that are open then, in their order, below the frame it
/// started with.
pub open spec fn stack_is_the_open_directories(entries: Seq<TreeEntryView>, i: int) -> bool {
    let stack = stack_at(entries, i);
    let owner = owners(entries, i);
    &&& owner.len() == stack.len()
    &&& ascending(stack)
    &&& forall|k: int| 0 <= k < owner.len() ==> -1 <= #[trigger] owner[k] < i
    &&& forall|a: int, b: int| 0 <= a < b < owner.len() ==> owner[a] < owner[b]
    &&& forall|k: int|
        0 <= k < owner.len() && #[trigger] owner[k] == -1 ==> stack[k] == (Frame {
            prefix: Seq::empty(),
            depth: 0,
        })
    &&& forall|k: int|
        0 <= k < owner.len() && #[trigger] owner[k] >= 0 ==> open_at(entries, owner[k], i)
            && stack[k] == (Frame {
            prefix: child_prefix(entries, owner[k]),
            depth: entries[owner[k]].depth,
        })
    &&& forall|j: int| #[trigger] open_at(entries, j, i) ==> owner.contains(j)
}

proof fn lemma_stack(entries: Seq<TreeEntryView>, i: int)
    requires
        0 <= i <= entries.len(),
    ensures
        stack_is_the_open_directories(entries, i),
    decreases i,
{
    let stack = stack_at(entries, i);
    let owner = owners(entries, i);
    if i == 0 {
        assert(stack.len() == 1 && owner.len() == 1);
        assert(owner[0] == -1);
    } else {
        lemma_stack(entries, i - 1);
        let before = stack_at(entries, i - 1);
        let owned = owners(entries, i - 1);
        let e = entries[i - 1];
        lemma_unwound(before, e.depth);
        let n = unwound(before, e.depth).len() as int;
        let open = unwound(before, e.depth);
        let kept = owned.take(n);
        assert(open == before.take(n));
        assert forall|k: int| 0 <= k < n implies open[k] == before[k] && kept[k] == owned[k] by {}
        assert(top_prefix(open) == prefix_at(entries, i - 1));
        // the frames that stay belong to directories that are still open
        assert forall|k: int| 0 <= k < n && owned[k] >= 0 implies open_at(entries, owned[k], i) by {
            let j = owned[k];
            assert(open_at(entries, j, i - 1));
            assert(before[k].depth < e.depth);
            assert forall|m: int| j < m < i implies (#[trigger] entries[m]).depth
                > entries[j].depth by {
                if m < i - 1 {
                } else {
                    assert(entries[m] == e);
                }
            }
        }
        // every directory that is still open has its frame
        assert forall|j: int| #[trigger] open_at(entries, j, i) implies owner.contains(j) by {
            if j == i - 1 {
                assert(owner[n] == i - 1);
            } else {
                assert(entries[i - 1].depth > entries[j].depth);
                assert(open_at(entries, j, i - 1)) by {
                    assert forall|m: int| j < m < i - 1 implies (#[trigger] entries[m]).depth
                        > entries[j].depth by {}
                }
                assert(owned.contains(j));
                let k = choose|k: int| 0 <= k < owned.len() && owned[k] == j;
                assert(before[k].depth == entries[j].depth);
                assert(k < n);
                assert(owner[k] == j);
            }
        }
        if e.is_dir {
            assert(owner == kept.push(i - 1));
            assert(stack == open.push(
                Frame { prefix: top_prefix(open) + padding(entries, i - 1), depth: e.depth },
            ));
            assert(open_at(entries, i - 1, i));
            assert forall|a: int, b: int| 0 <= a < b < stack.len() implies stack[a].depth
                < stack[b].depth by {
                if b < n {
                    assert(stack[a] == before[a] && stack[b] == before[b]);
                } else {
                    assert(stack[a] == before[a]);
                }
            }
            assert forall|k: int|
                0 <= k < owner.len() && #[trigger] owner[k] >= 0 implies open_at(
                entries,
                owner[k],
                i,
            ) && stack[k] == (Frame {
                prefix: child_prefix(entries, owner[k]),
                depth: entries[owner[k]].depth,
            }) by {
                if k < n {
                    assert(owner[k] == owned[k]);
                }
            }
            assert forall|k: int| 0 <= k < owner.len() implies -1 <= #[trigger] owner[k] < i by {
                if k < n {
                    assert(owner[k] == owned[k]);
                }
            }
            assert forall|a: int, b: int| 0 <= a < b < owner.len() implies owner[a]
                < owner[b] by {
                assert(owner[a] == owned[a]);
                if b < n {
                    assert(owner[b] == owned[b]);
                }
            }
            assert forall|k: int|
                0 <= k < owner.len() && #[trigger] owner[k] == -1 implies stack[k] == (Frame {
                    prefix: Seq::empty(),
                    depth: 0,
                }) by {
                assert(owner[k] == owned[k]);
            }
        } else {
            assert(owner == kept);
            assert(stack == open);
            assert forall|a: int, b: int| 0 <= a < b < stack.len() implies stack[a].depth
                < stack[b].depth by {
                assert(stack[a] == before[a] && stack[b] == before[b]);
            }
            assert forall|k: int|
                0 <= k < owner.len() && #[trigger] owner[k] >= 0 implies open_at(
                entries,
                owner[k],
                i,
            ) && stack[k] == (Frame {
                prefix: child_prefix(entries, owner[k]),
                depth: entries[owner[k]].depth,
            }) by {
                assert(owner[k] == owned[k]);
            }
            assert forall|k: int| 0 <= k < owner.len() implies -1 <= #[trigger] owner[k] < i by {
                assert(owner[k] == owned[k]);
            }
            assert forall|a: int, b: int| 0 <= a < b < owner.len() implies owner[a]
                < owner[b] by {
                assert(owner[a] == owned[a] && owner[b] == owned[b]);
            }
            assert forall|k: int|
                0 <= k < owner.len() && #[trigger] owner[k] == -1 implies stack[k] == (Frame {
                    prefix: Seq::empty(),
                    depth: 0,
                }) by {
                assert(owner[k] == owned[k]);
            }
        }
    }
}

/// The lines below a directory share its prefix: the prefix of an entry is
/// the prefix of its parent, extended by the parent's padding.
pub proof fn prefix_comes_from_the_parent(entries: Seq<TreeEntryView>, j: int, i: int)
    requires
        0 <= i < entries.len(),
        is_parent(entries, j, i),
    ensures
        prefix_at(entries, i) == child_prefix(entries, j),
{
    lemma_stack(entries, i);
    let stack = stack_at(entries, i);
    let owner = owners(entries, i);
    let depth = entries[i].depth;
    lemma_unwound(stack, depth);
    let n = unwound(stack, depth).len() as int;
    assert(owner.contains(j));
    let k = choose|k: int| 0 <= k < owner.len() && owner[k] == j;
    assert(stack[k].depth == entries[j].depth);
    assert(k < n);
    if k + 1 < n {
        let m = owner[k + 1];
        assert(owner[k] < owner[k + 1]);
        assert(stack[k + 1].depth < depth);
        assert(open_at(entries, m, i));
        assert(above(entries, m, i));
        assert(false);
    }
    assert(unwound(stack, depth) == stack.take(n));
    assert(unwound(stack, depth).last() == stack[k]);
}

/// An entry without a parent has no prefix.
pub proof fn without_parent_there_is_no_prefix(entries: Seq<TreeEntryView>, i: int)
    requires
        0 <= i < entries.len(),
        forall|j: int| !above(entries, j, i),
    ensures
        prefix_at(entries, i) == Seq::<char>::empty(),
{
    lemma_stack(entries, i);
    let stack = stack_at(entries, i);
    let owner = owners(entries, i);
    let depth = entries[i].depth;
    lemma_unwound(stack, depth);
    let open = unwound(stack, depth);
    let n = open.len() as int;
    if n > 0 {
        assert(open.last() == stack[n - 1]);
        if owner[n - 1] >= 0 {
            assert(stack[n - 1].depth < depth);
            assert(above(entries, owner[n - 1], i));
            assert(false);
        }
        assert(owner[n - 1] == -1);
    }
}

/// The tree has one line for each entry. The first line is the bare name of
/// the root, and every line ends with the name of its entry.
pub proof fn lines_follow_the_entries(entries: Seq<TreeEntryView>, i: int)
    requires
        0 <= i < entries.len(),
    ensures
        rendered(entries).len() == entries.len(),
        rendered(entries)[i] == line_at(entries, i),
        i == 0 ==> rendered(entries)[i] == leaf(entries[i].path),
        leaf(entries[i].path).is_suffix_of(rendered(entries)[i]),
{
    let name = leaf(entries[i].path);
    let line = line_at(entries, i);
    assert(name =~= line.subrange(line.len() - name.len(), line.len() as int));
}

/// The last entry closes the tree, and so does every entry whose depth
/// differs from that of the entry before it; an entry as deep as the one
/// before it continues the branch.
pub proof fn connector_follows_the_depths(entries: Seq<TreeEntryView>, i: int)
    requires
        0 < i < entries.len(),
    ensures
        i == entries.len() - 1 || entries[i].depth != entries[i - 1].depth ==> rendered(
            entries,
        )[i] == prefix_at(entries, i) + "└── "@ + leaf(entries[i].path),
        i < entries.len() - 1 && entries[i].depth == entries[i - 1].depth ==> rendered(entries)[i]
            == prefix_at(entries, i) + "├── "@ + leaf(entries[i].path),
{
}

/// What the executable stack denotes.
pub open spec fn frames(stack: Seq<(String, usize)>) -> Seq<Frame> {
    Seq::new(stack.len(), |k: int| Frame { prefix: stack[k].0@, depth: stack[k].1 as nat })
}

/// Draws the entries of an archive as a tree. Entries are taken in the order
/// given; the shape follows from their depths alone.
pub fn print_tar_tree(entries: &Vec<TreeEntry>) -> (lines: Vec<String>)
    ensures
        lines.deep_view() == rendered(entries.deep_view()),
{
    let ghost all = entries.deep_view();
    let total = entries.len();
    let mut lines: Vec<String> = Vec::new();
    let mut stack: Vec<(String, usize)> = Vec::new();
    stack.push((String::new(), 0));
    let mut last_depth: usize = 0;
    let mut i: usize = 0;
    assert(frames(stack@) =~= stack_at(all, 0));
    while i < total
        invariant
            i <= total,
            total == entries.len(),
            all == entries.deep_view(),
            frames(stack@) == stack_at(all, i as int),
            last_depth as nat == previous_depth(all, i as int),
            lines.len() == i,
            forall|k: int| 0 <= k < i ==> lines[k]@ == line_at(all, k),
        decreases total - i,
    {
        let entry = &entries[i];
        let depth = entry.depth;
        assert(all[i as int] == entry@);
        while stack.len() > 0 && stack[stack.len() - 1].1 >= depth
            invariant
                unwound(frames(stack@), depth as nat) == unwound(
                    stack_at(all, i as int),
                    depth as nat,
                ),
            decreases stack.len(),
        {
            let ghost before = frames(stack@);
            stack.pop();
            assert(frames(stack@) =~= before.drop_last());
        }
        assert(frames(stack@) == unwound(stack_at(all, i as int), depth as nat));
        let name = leaf_name(entry.path.as_str());
        let mut prefix = String::new();
        if stack.len() > 0 {
            prefix = stack[stack.len() - 1].0.clone();
        }
        assert(prefix@ == prefix_at(all, i as int));
        let turn = i == total - 1 || depth != last_depth;
        if i == 0 {
            lines.push(name);
        } else {
            let mut line = prefix.clone();
            if turn {
                line.append("└── ");
            } else {
                line.append("├── ");
            }
            line.append(name.as_str());
            lines.push(line);
        }
        if entry.is_dir {
            let ghost before = frames(stack@);
            let mut next = prefix;
            if turn {
                next.append("    ");
            } else {
                next.append("│   ");
            }
            stack.push((next, depth));
            assert(frames(stack@) =~= before.push(
                Frame { prefix: top_prefix(before) + padding(all, i as int), depth: depth as nat },
            ));
        }
        last_depth = depth;
        i += 1;
    }
    assert(lines.deep_view() =~= rendered(all));
    lines
}

} // verus!
