//! Paths as an archive stores them: components separated by `/`.
//!
//! Components are counted and named as `std::path` does it for such a path.
//! Repeated separators and a trailing separator do not count. A `.` counts
//! only at the very beginning of the path. A leading `/` is a component of
//! its own.

use vstd::prelude::*;
use crate::text::chars_of;

verus! {

/// The part of `path` from `start` up to `end` is a single dot.
pub open spec fn is_dot(path: Seq<char>, start: int, end: int) -> bool {
    end - start == 1 && path[start] == '.'
}

/// 1 if the part of `path` from `start` up to `end` is a component with a
/// name, which is one that is neither empty nor a single dot; else 0.
pub open spec fn named(path: Seq<char>, start: int, end: int) -> nat {
    if start < end && !is_dot(path, start, end) {
        1
    } else {
        0
    }
}

/// The number of components with a name that end at or after position `i`,
/// where the component under way began at `start`.
pub open spec fn named_from(path: Seq<char>, i: int, start: int) -> nat
    decreases path.len() - i,
{
    if i >= path.len() {
        named(path, start, path.len() as int)
    } else if path[i] == '/' {
        named(path, start, i) + named_from(path, i + 1, i + 1)
    } else {
        named_from(path, i + 1, start)
    }
}

/// The path begins at the root.
pub open spec fn rooted(path: Seq<char>) -> bool {
    path.len() > 0 && path[0] == '/'
}

/// The path begins with a dot of its own, which stands for the current
/// directory.
pub open spec fn starts_here(path: Seq<char>) -> bool {
    path.len() > 0 && path[0] == '.' && (path.len() == 1 || path[1] == '/')
}

/// The number of components of `path`.
pub open spec fn depth_of(path: Seq<char>) -> nat {
    named_from(path, 0, 0) + if rooted(path) || starts_here(path) {
        1nat
    } else {
        0nat
    }
}

proof fn lemma_named_from_bound(path: Seq<char>, i: int, start: int)
    requires
        0 <= start <= i <= path.len(),
    ensures
        named_from(path, i, start) <= path.len() - start,
    decreases path.len() - i,
{
    if i < path.len() {
        if path[i] == '/' {
            lemma_named_from_bound(path, i + 1, i + 1);
        } else {
            lemma_named_from_bound(path, i + 1, start);
        }
    }
}

/// A path has no more components than characters.
pub proof fn depth_is_bounded(path: Seq<char>)
    ensures
        depth_of(path) <= path.len(),
{
    reveal_with_fuel(named_from, 3);
    lemma_named_from_bound(path, 0, 0);
    if rooted(path) {
        lemma_named_from_bound(path, 1, 1);
    } else if starts_here(path) {
        if path.len() > 1 {
            lemma_named_from_bound(path, 2, 2);
        }
    }
}

/// Counts the components of a path.
pub fn path_depth(path: &str) -> (depth: usize)
    ensures
        depth == depth_of(path@),
{
    let chars = chars_of(path);
    let n = chars.len();
    let mut count: usize = 0;
    let mut start: usize = 0;
    let mut i: usize = 0;
    while i < n
        invariant
            start <= i <= n,
            n == path@.len(),
            chars@ == path@,
            count <= start,
            count + named_from(path@, i as int, start as int) == named_from(path@, 0, 0),
        decreases n - i,
    {
        if chars[i] == '/' {
            if start < i && !(i - start == 1 && chars[start] == '.') {
                count += 1;
            }
            start = i + 1;
        }
        i += 1;
    }
    if start < n && !(n - start == 1 && chars[start] == '.') {
        count += 1;
    }
    proof {
        depth_is_bounded(path@);
    }
    if n > 0 && (chars[0] == '/' || (chars[0] == '.' && (n == 1 || chars[1] == '/'))) {
        count + 1
    } else {
        count
    }
}

/// The position just behind the last separator among the first `end`
/// characters of `path`; 0 if there is none.
pub open spec fn leaf_start(path: Seq<char>, end: int) -> int
    decreases end,
{
    if end <= 0 {
        0
    } else if path[end - 1] == '/' {
        end
    } else {
        leaf_start(path, end - 1)
    }
}

/// Where the last component with a name lies among the first `end`
/// characters of `path`: its first position, and the position behind its
/// last. Both are 0 if there is none.
pub open spec fn last_named(path: Seq<char>, end: int) -> (int, int)
    decreases end,
{
    if end <= 0 {
        (0, 0)
    } else if path[end - 1] == '/' {
        last_named(path, end - 1)
    } else if path[end - 1] == '.' && (end == 1 || path[end - 2] == '/') {
        last_named(path, end - 1)
    } else {
        (leaf_start(path, end), end)
    }
}

/// The part of `path` from `start` up to `end` is the mark of the parent
/// directory, two dots.
pub open spec fn is_dot_dot(path: Seq<char>, start: int, end: int) -> bool {
    end - start == 2 && path[start] == '.' && path[start + 1] == '.'
}

/// The name shown for a path: its last component with a name. Where there is
/// none, or where it is the mark of the parent directory, the whole path is
/// shown.
pub open spec fn leaf(path: Seq<char>) -> Seq<char> {
    let (start, end) = last_named(path, path.len() as int);
    if start < end && !is_dot_dot(path, start, end) {
        path.subrange(start, end)
    } else {
        path
    }
}

/// Computes the name shown for a path.
pub fn leaf_name(path: &str) -> (name: String)
    ensures
        name@ == leaf(path@),
{
    let chars = chars_of(path);
    let mut end: usize = chars.len();
    while end > 0 && (chars[end - 1] == '/' || (chars[end - 1] == '.' && (end == 1 || chars[end
        - 2] == '/')))
        invariant
            end <= chars.len(),
            chars@ == path@,
            last_named(path@, end as int) == last_named(path@, path@.len() as int),
        decreases end,
    {
        end -= 1;
    }
    if end == 0 {
        return path.to_owned();
    }
    let mut start: usize = end;
    while start > 0 && chars[start - 1] != '/'
        invariant
            start <= end <= chars.len(),
            chars@ == path@,
            leaf_start(path@, start as int) == leaf_start(path@, end as int),
        decreases start,
    {
        start -= 1;
    }
    assert(last_named(path@, end as int) == (start as int, end as int));
    if start < end && !(end - start == 2 && chars[start] == '.' && chars[start + 1] == '.') {
        path.substring_char(start, end).to_owned()
    } else {
        path.to_owned()
    }
}

} // verus!
