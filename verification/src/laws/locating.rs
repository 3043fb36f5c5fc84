//! Where paths lead.
use vstd::prelude::*;

verus! {

/// A path that starts at the root.
pub open spec fn is_absolute(path: Seq<char>) -> bool {
    path.len() > 0 && path[0] == '/'
}

/// A path is below a directory unless it starts at the root, with one separator
/// between the two.
pub proof fn paths_are_joined_by_a_separator(base: Seq<char>, part: Seq<char>)
    ensures
        ({
            let joined = crate::paths::joined(base, part);
            &&& is_absolute(part) ==> joined == part
            &&& base.len() == 0 ==> joined == part
            &&& !is_absolute(part) && base.len() > 0 && base[base.len() - 1] == '/' ==> joined
                == base + part
            &&& !is_absolute(part) && base.len() > 0 && base[base.len() - 1] != '/' ==> joined
                == base + seq!['/'] + part
        }),
{
    reveal_strlit("/");
    assert("/"@ =~= seq!['/']);
    if part.len() > 0 {
        assert(part.subrange(0, 1)[0] == part[0]);
        if part[0] == '/' {
            assert(part.subrange(0, 1) =~= "/"@);
        }
    }
    if base.len() > 0 {
        let n: int = base.len() as int;
        assert(base.subrange(n - 1, n)[0] == base[n - 1]);
        if base[n - 1] == '/' {
            assert(base.subrange(n - 1, n) =~= "/"@);
        }
    }
}

/// A name that can stand between two separators.
pub open spec fn is_a_segment(name: Seq<char>) -> bool {
    name.len() > 0 && (forall|i: int| 0 <= i < name.len() ==> #[trigger] name[i] != '/')
        && name != seq!['.'] && name != seq!['.', '.']
}

proof fn plain_ends_stay(path: Seq<char>, name: Seq<char>)
    requires
        is_a_segment(name),
        path.len() >= name.len(),
        path.skip(path.len() - name.len()) == name,
        path.len() > name.len() ==> path[path.len() - name.len() - 1] == '/',
    ensures
        crate::paths::without_tail(path) == path,
{
    let n: int = path.len() as int;
    let k: int = n - name.len();
    assert(path.last() == name[name.len() - 1]);
    if n > 1 && path.last() == '.' && path[n - 2] == '/' {
        if name.len() >= 2 {
            assert(name[name.len() - 2] == path[n - 2]);
        } else {
            assert(name =~= seq!['.']);
        }
    }
}

proof fn the_last_separator_is_found(path: Seq<char>, k: int)
    requires
        0 <= k <= path.len(),
        k > 0 ==> path[k - 1] == '/',
        forall|i: int| k <= i < path.len() ==> #[trigger] path[i] != '/',
    ensures
        crate::paths::segment_start(path) == k,
    decreases path.len(),
{
    if path.len() > k {
        assert(path.last() != '/');
        the_last_separator_is_found(path.drop_last(), k);
    } else if path.len() > 0 {
        assert(path.last() == '/');
    }
}

/// What stands behind the last separator is the name of the file, and what
/// stands before is the directory that holds it.
pub proof fn files_are_named_behind_the_last_separator(directory: Seq<char>, name: Seq<char>)
    requires
        is_a_segment(name),
        directory.len() == 0 || directory[directory.len() - 1] == '/',
    ensures
        crate::paths::file_name(directory + name) == Some(name),
        crate::paths::parent_dir(directory + name) == crate::paths::without_tail(directory),
{
    let path = directory + name;
    let k: int = directory.len() as int;
    reveal_strlit(".");
    reveal_strlit("..");
    assert("."@ =~= seq!['.']);
    assert(".."@ =~= seq!['.', '.']);
    assert(path.skip(k) =~= name);
    plain_ends_stay(path, name);
    assert forall|i: int| k <= i < path.len() implies #[trigger] path[i] != '/' by {
        assert(name[i - k] == path[i]);
    }
    the_last_separator_is_found(path, k);
    assert(path.take(k) =~= directory);
}

/// Separators at the end of a directory change nothing, unless they are all of
/// it, and neither does a dot behind one.
pub proof fn closing_separators_change_nothing(directory: Seq<char>)
    requires
        directory.len() > 0,
    ensures
        crate::paths::without_tail(directory + seq!['/']) == crate::paths::without_tail(directory),
        directory[directory.len() - 1] == '/' ==> crate::paths::without_tail(directory + seq!['.'])
            == crate::paths::without_tail(directory),
        directory[directory.len() - 1] != '/' && directory[directory.len() - 1] != '.'
            ==> crate::paths::without_tail(directory) == directory,
        directory.len() == 1 ==> crate::paths::without_tail(directory) == directory,
{
    assert((directory + seq!['/']).drop_last() =~= directory);
    assert((directory + seq!['.']).drop_last() =~= directory);
}

/// A path without a name behind its last separator names no file.
pub proof fn the_root_and_dots_name_no_file(directory: Seq<char>)
    requires
        directory.len() == 0 || directory[directory.len() - 1] == '/',
    ensures
        crate::paths::file_name(seq!['/']) is None,
        crate::paths::file_name(directory + seq!['.', '.']) is None,
        crate::paths::file_name(seq!['.']) is None,
        crate::paths::file_name(Seq::empty()) is None,
{
    reveal_strlit(".");
    reveal_strlit("..");
    assert("."@ =~= seq!['.']);
    assert(".."@ =~= seq!['.', '.']);
    let path = directory + seq!['.', '.'];
    let k: int = directory.len() as int;
    assert(path.last() == '.' && path[path.len() - 2] == '.');
    the_last_separator_is_found(path, k);
    assert(path.skip(k) =~= ".."@);
    the_last_separator_is_found(seq!['/'], 1);
    the_last_separator_is_found(seq!['.'], 0);
    assert(seq!['.'].skip(0) =~= "."@);
}

/// An error tells its message, and a stale candidate tells its commit and the
/// base that is on record for it.
pub proof fn errors_tell_their_message(
    message: Seq<char>,
    candidate: Seq<char>,
    base: Seq<char>,
    branch: Seq<char>,
    commit: Seq<char>,
)
    ensures
        crate::errors::described(crate::errors::ErrorView::InvalidInput(message)) == message,
        crate::errors::described(crate::errors::ErrorView::NotFound(message)) == message,
        crate::errors::described(crate::errors::ErrorView::Unauthorized(message)) == message,
        crate::errors::described(crate::errors::ErrorView::Conflict(message)) == message,
        crate::errors::described(crate::errors::ErrorView::Degraded(message)) == message,
        crate::errors::described(crate::errors::ErrorView::Io(message)) == message,
        crate::errors::described(crate::errors::ErrorView::Serialization(message)) == message,
        crate::errors::described(crate::errors::ErrorView::NotImplemented(message)) == message,
        crate::errors::described(
            crate::errors::ErrorView::StaleCandidate {
                candidate_commit: candidate,
                recorded_base: base,
                target_branch: branch,
                target_commit: commit,
            },
        ) == "Candidate "@ + candidate + " is stale: recorded base "@ + base
            + " is not its ancestor"@,
{
}

/// Another message leaves an error of its kind, but for a stale candidate, which
/// becomes a conflict.
pub proof fn another_message_keeps_the_kind(error: crate::errors::ErrorView, message: Seq<char>)
    ensures
        ({
            let after = crate::errors::with_message(error, message);
            &&& crate::errors::described(after) == message
            &&& (error is InvalidInput) == (after is InvalidInput)
            &&& (error is NotFound) == (after is NotFound)
            &&& (error is Unauthorized) == (after is Unauthorized)
            &&& (error is Conflict || error is StaleCandidate) == (after is Conflict)
            &&& (error is Degraded) == (after is Degraded)
            &&& (error is Io) == (after is Io)
            &&& (error is Serialization) == (after is Serialization)
            &&& (error is NotImplemented) == (after is NotImplemented)
            &&& !(after is StaleCandidate)
        }),
{
}

} // verus!
