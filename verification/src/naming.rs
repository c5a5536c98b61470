//! The rule that derives a table name from the path of a type.
//!
//! A path is cut at each `::`, going from left to right, and the name is the
//! last piece: `shop::model::Customer` gives `Customer`. A path without `::`
//! is its own name.

use vstd::prelude::*;
use vstd::string::*;

verus! {

/// Whether the separator `::` stands at `at` in `path`.
pub open spec fn separator_at(path: Seq<char>, at: int) -> bool {
    0 <= at && at + 1 < path.len() && path[at] == ':' && path[at + 1] == ':'
}

/// Where the last piece of `path` starts, for a reader that stands at `from`
/// and has seen the current piece start at `start`.
pub open spec fn last_start(path: Seq<char>, from: int, start: int) -> int
    decreases path.len() - from,
{
    if from < 0 || from + 1 >= path.len() {
        start
    } else if separator_at(path, from) {
        last_start(path, from + 2, from + 2)
    } else {
        last_start(path, from + 1, start)
    }
}

/// The last piece of `path`.
pub open spec fn last_segment(path: Seq<char>) -> Seq<char> {
    path.skip(last_start(path, 0, 0))
}

/// The table name that the path of a type gives: its last piece.
pub fn table_name_from_type_path(full_path: &str) -> (name: String)
    ensures
        name@ == last_segment(full_path@),
{
    let n = full_path.unicode_len();
    let mut at: usize = 0;
    let mut start: usize = 0;
    while at < n && at + 1 < n
        invariant
            n == full_path@.len(),
            start <= at <= n,
            last_start(full_path@, 0, 0) == last_start(full_path@, at as int, start as int),
        decreases n - at,
    {
        if full_path.get_char(at) == ':' && full_path.get_char(at + 1) == ':' {
            at += 2;
            start = at;
        } else {
            at += 1;
        }
    }
    let name = full_path.substring_char(start, n).to_owned();
    assert(name@ =~= full_path@.skip(start as int));
    name
}

/// The last piece of a path holds no separator.
pub proof fn lemma_last_segment_is_one_piece(path: Seq<char>)
    ensures
        forall|at: int| !separator_at(last_segment(path), at),
{
    lemma_no_separator_from(path, 0, 0);
    let start = last_start(path, 0, 0);
    assert forall|at: int| !separator_at(last_segment(path), at) by {
        if separator_at(last_segment(path), at) {
            assert(separator_at(path, start + at));
        }
    }
}

/// A reader that has found no separator in the current piece so far finds
/// none from the start of the last piece on.
proof fn lemma_no_separator_from(path: Seq<char>, from: int, start: int)
    requires
        0 <= start <= from <= path.len(),
        forall|at: int| start <= at < from ==> !separator_at(path, at),
    ensures
        0 <= last_start(path, from, start) <= path.len(),
        forall|at: int| last_start(path, from, start) <= at ==> !separator_at(path, at),
    decreases path.len() - from,
{
    if from + 1 >= path.len() {
    } else if separator_at(path, from) {
        lemma_no_separator_from(path, from + 2, from + 2);
    } else {
        lemma_no_separator_from(path, from + 1, start);
    }
}

} // verus!
