//! Paths as text.
use vstd::prelude::*;

use crate::text::{cat2, cat3, chars_of, ends_with_text, starts_with_text, text_eq};

verus! {

/// `part` below `base`: an absolute part stands alone, and one separator
/// stands between the two.
pub open spec fn joined(base: Seq<char>, part: Seq<char>) -> Seq<char> {
    if crate::text::begins_with(part, "/"@) || base.len() == 0 {
        part
    } else if crate::text::finishes_with(base, "/"@) {
        base + part
    } else {
        base + "/"@ + part
    }
}

/// Appends a relative path to a directory.
pub fn join_path(base: &str, part: &str) -> (r: String)
    ensures
        r@ == joined(base@, part@),
{
    if starts_with_text(part, "/") || base.is_empty() {
        part.to_owned()
    } else if ends_with_text(base, "/") {
        cat2(base, part)
    } else {
        cat3(base, "/", part)
    }
}

/// A path without separators and dots that change nothing at its end.
pub open spec fn without_tail(path: Seq<char>) -> Seq<char>
    decreases path.len(),
{
    if path.len() > 1 && path.last() == '/' {
        without_tail(path.drop_last())
    } else if path.len() > 1 && path.last() == '.' && path[path.len() - 2] == '/' {
        without_tail(path.drop_last())
    } else {
        path
    }
}

/// Where the last segment of a path begins.
pub open spec fn segment_start(path: Seq<char>) -> int
    decreases path.len(),
{
    if path.len() == 0 || path.last() == '/' {
        path.len() as int
    } else {
        segment_start(path.drop_last())
    }
}

/// The last segment of a path.
pub open spec fn last_segment(path: Seq<char>) -> Seq<char> {
    let p = without_tail(path);
    p.skip(segment_start(p))
}

/// The name of the file that a path names, if it names one.
pub open spec fn file_name(path: Seq<char>) -> Option<Seq<char>> {
    let name = last_segment(path);
    if name.len() == 0 || name == "."@ || name == ".."@ { None } else { Some(name) }
}

/// The directory that holds what a path names.
pub open spec fn parent_dir(path: Seq<char>) -> Seq<char> {
    let p = without_tail(path);
    without_tail(p.take(segment_start(p)))
}

fn tail_cut(path: &Vec<char>, end: usize) -> (r: usize)
    requires
        end <= path.len(),
    ensures
        r <= end,
        path@.take(r as int) == without_tail(path@.take(end as int)),
{
    let mut n: usize = end;
    while n > 1 && (path[n - 1] == '/' || (path[n - 1] == '.' && path[n - 2] == '/'))
        invariant
            n <= end <= path.len(),
            without_tail(path@.take(n as int)) == without_tail(path@.take(end as int)),
        decreases n,
    {
        assert(path@.take(n as int).drop_last() =~= path@.take(n as int - 1));
        n = n - 1;
    }
    n
}

fn segment_cut(path: &Vec<char>, end: usize) -> (r: usize)
    requires
        end <= path.len(),
    ensures
        r <= end,
        r == segment_start(path@.take(end as int)),
{
    let mut n: usize = end;
    while n > 0 && path[n - 1] != '/'
        invariant
            n <= end <= path.len(),
            segment_start(path@.take(n as int)) == segment_start(path@.take(end as int)),
        decreases n,
    {
        assert(path@.take(n as int).drop_last() =~= path@.take(n as int - 1));
        n = n - 1;
    }
    n
}

/// Reads the name of the file that a path names.
pub fn file_name_of(path: &str) -> (r: Option<&str>)
    ensures
        match r {
            Some(n) => file_name(path@) == Some(n@),
            None => file_name(path@) is None,
        },
{
    let chars = chars_of(path);
    assert(path@.take(chars.len() as int) =~= path@);
    let end: usize = tail_cut(&chars, chars.len());
    let start: usize = segment_cut(&chars, end);
    let name = path.substring_char(start, end);
    assert(name@ =~= last_segment(path@));
    if name.is_empty() || text_eq(name, ".") || text_eq(name, "..") {
        None
    } else {
        Some(name)
    }
}

/// Reads the directory that holds what a path names.
pub fn parent_of(path: &str) -> (r: &str)
    ensures
        r@ == parent_dir(path@),
{
    let chars = chars_of(path);
    assert(path@.take(chars.len() as int) =~= path@);
    let end: usize = tail_cut(&chars, chars.len());
    let start: usize = segment_cut(&chars, end);
    assert(path@.take(end as int).take(start as int) =~= path@.take(start as int));
    let cut: usize = tail_cut(&chars, start);
    let parent = path.substring_char(0, cut);
    assert(parent@ =~= path@.take(cut as int));
    parent
}

} // verus!
