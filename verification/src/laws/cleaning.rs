//! Which worktrees and branches are cleaned up.
use vstd::prelude::*;

use crate::worktree_cleanup::{
    BranchCleanupEntry, BranchFacts, BranchIntegration, BranchRemoval, WorktreeCleanupEntry,
    WorktreeCleanupOptions, WorktreeFacts, WorktreeRemoval,
};

verus! {

/// A path is a root or stands under it.
pub open spec fn is_under(path: Seq<char>, root: Seq<char>) -> bool {
    path == root || exists|rest: Seq<char>| path == #[trigger] (root + "/"@ + rest)
}

/// A build makes a path again.
pub open spec fn made_again(path: Seq<char>, roots: Seq<String>) -> bool {
    exists|i: int| 0 <= i < roots.len() && is_under(path, (#[trigger] roots[i])@)
}

/// Everything that a worktree ignores is made again by a build.
pub open spec fn ignores_only_what_is_made_again(
    facts: WorktreeFacts,
    roots: Seq<String>,
) -> bool {
    forall|i: int|
        0 <= i < facts.ignored_paths@.len() ==> made_again(
            (#[trigger] facts.ignored_paths@[i])@,
            roots,
        )
}

/// Nothing would be lost with a worktree: its goal is known, nobody works on
/// it, nothing in it is unsaved, it is old enough, and what it ignores is made
/// again.
pub open spec fn nothing_is_lost(
    facts: WorktreeFacts,
    roots: Seq<String>,
    older_than_seconds: u64,
) -> bool {
    facts.goal_id is Some && !facts.active_process && !facts.active_owner
        && facts.changed_paths@.len() == 0 && older_than_seconds <= facts.age_seconds
        && ignores_only_what_is_made_again(facts, roots)
}

/// A branch stands at a candidate that its target holds.
pub open spec fn stands_at_its_merge(integration: Option<BranchIntegration>) -> bool {
    integration is Some && integration->0.candidate_in_target && integration->0.branch_head@
        == integration->0.candidate_commit@
}

/// Something of a branch is gone.
pub open spec fn is_gone(removal: BranchRemoval) -> bool {
    removal.local_deleted || removal.remote_deleted
}

proof fn roots_are_told(path: Seq<char>, roots: Seq<String>)
    ensures
        crate::worktree_cleanup::generated(path, roots) == made_again(path, roots),
{
    assert forall|i: int| 0 <= i < roots.len() implies crate::worktree_cleanup::below(
        path,
        (#[trigger] roots[i])@,
    ) == is_under(path, roots[i]@) by {
        crate::laws::texts::texts_begin_and_end_with_their_parts(path, roots[i]@ + "/"@);
    }
    if crate::worktree_cleanup::generated(path, roots) {
        let i = choose|i: int|
            0 <= i < roots.len() && crate::worktree_cleanup::below(path, (#[trigger] roots[i])@);
        assert(is_under(path, roots[i]@));
    }
    if made_again(path, roots) {
        let i = choose|i: int| 0 <= i < roots.len() && is_under(path, (#[trigger] roots[i])@);
        assert(crate::worktree_cleanup::below(path, roots[i]@));
    }
}

proof fn reasons_differ()
    ensures
        "goal_not_found"@ != "active_process"@,
        "goal_not_found"@ != "active_owner"@,
        "goal_not_found"@ != "dirty_worktree"@,
        "goal_not_found"@ != "retention_window"@,
        "goal_not_found"@ != "ignored_worktree"@,
        "goal_not_found"@ != "eligible"@,
        "active_process"@ != "active_owner"@,
        "active_process"@ != "dirty_worktree"@,
        "active_process"@ != "retention_window"@,
        "active_process"@ != "ignored_worktree"@,
        "active_process"@ != "eligible"@,
        "active_owner"@ != "dirty_worktree"@,
        "active_owner"@ != "retention_window"@,
        "active_owner"@ != "ignored_worktree"@,
        "active_owner"@ != "eligible"@,
        "dirty_worktree"@ != "retention_window"@,
        "dirty_worktree"@ != "ignored_worktree"@,
        "dirty_worktree"@ != "eligible"@,
        "retention_window"@ != "ignored_worktree"@,
        "retention_window"@ != "eligible"@,
        "ignored_worktree"@ != "eligible"@,
        "integrated_branch_retired"@ != "integrated_branch_eligible"@,
        "integrated_branch_retired"@ != "candidate_not_integrated"@,
        "integrated_branch_eligible"@ != "candidate_not_integrated"@,
{
    reveal_strlit("goal_not_found");
    reveal_strlit("active_process");
    reveal_strlit("active_owner");
    reveal_strlit("dirty_worktree");
    reveal_strlit("retention_window");
    reveal_strlit("ignored_worktree");
    reveal_strlit("eligible");
    reveal_strlit("integrated_branch_retired");
    reveal_strlit("integrated_branch_eligible");
    reveal_strlit("candidate_not_integrated");
    assert("goal_not_found"@[0] == 'g' && "active_process"@[0] == 'a' && "active_owner"@[0] == 'a'
        && "dirty_worktree"@[0] == 'd' && "retention_window"@[0] == 'r' && "ignored_worktree"@[0]
        == 'i' && "eligible"@[0] == 'e');
    assert("active_process"@.len() == 14 && "active_owner"@.len() == 12);
    assert("integrated_branch_retired"@.len() == 25 && "integrated_branch_eligible"@.len() == 26
        && "candidate_not_integrated"@.len() == 24);
}

/// A worktree is eligible exactly where nothing would be lost with it.
pub proof fn only_what_is_not_lost_is_eligible(
    facts: WorktreeFacts,
    roots: Seq<String>,
    options: WorktreeCleanupOptions,
    outcome: WorktreeRemoval,
    entry: WorktreeCleanupEntry,
)
    requires
        crate::worktree_cleanup::entry_of(facts, roots, options, outcome, entry),
    ensures
        entry.eligible == nothing_is_lost(facts, roots, options.older_than_seconds),
        (entry.reason@ == "eligible"@) == nothing_is_lost(
            facts,
            roots,
            options.older_than_seconds,
        ),
        entry.path@ == facts.path@,
        entry.goal_id == facts.goal_id,
{
    reasons_differ();
    assert forall|i: int| 0 <= i < facts.ignored_paths@.len() implies
        crate::worktree_cleanup::generated((#[trigger] facts.ignored_paths@[i])@, roots)
        == made_again(facts.ignored_paths@[i]@, roots) by {
        roots_are_told(facts.ignored_paths@[i]@, roots);
    }
}

/// A worktree is kept for the first reason that holds: its goal is not known, a
/// process runs in it, somebody works on its goal, something in it is unsaved,
/// it is too young, or it ignores what is not made again.
pub proof fn worktrees_are_kept_for_their_reason(
    facts: WorktreeFacts,
    roots: Seq<String>,
    options: WorktreeCleanupOptions,
    outcome: WorktreeRemoval,
    entry: WorktreeCleanupEntry,
)
    requires
        crate::worktree_cleanup::entry_of(facts, roots, options, outcome, entry),
    ensures
        ({
            let known = facts.goal_id is Some;
            let idle = known && !facts.active_process;
            let free = idle && !facts.active_owner;
            let clean = free && facts.changed_paths@.len() == 0;
            let old_enough = clean && options.older_than_seconds <= facts.age_seconds;
            &&& (entry.reason@ == "goal_not_found"@) == !known
            &&& (entry.reason@ == "active_process"@) == (known && facts.active_process)
            &&& (entry.reason@ == "active_owner"@) == (idle && facts.active_owner)
            &&& (entry.reason@ == "dirty_worktree"@) == (free && facts.changed_paths@.len() > 0)
            &&& (entry.reason@ == "retention_window"@) == (clean && facts.age_seconds
                < options.older_than_seconds)
            &&& (entry.reason@ == "ignored_worktree"@) == (old_enough
                && !ignores_only_what_is_made_again(facts, roots))
        }),
{
    reasons_differ();
    assert forall|i: int| 0 <= i < facts.ignored_paths@.len() implies
        crate::worktree_cleanup::generated((#[trigger] facts.ignored_paths@[i])@, roots)
        == made_again(facts.ignored_paths@[i]@, roots) by {
        roots_are_told(facts.ignored_paths@[i]@, roots);
    }
}

/// Only an applied cleanup removes a worktree, only where nothing is lost, and
/// then it says whether that succeeded.
pub proof fn removals_are_told(
    facts: WorktreeFacts,
    roots: Seq<String>,
    options: WorktreeCleanupOptions,
    outcome: WorktreeRemoval,
    entry: WorktreeCleanupEntry,
)
    requires
        crate::worktree_cleanup::entry_of(facts, roots, options, outcome, entry),
    ensures
        ({
            let tried = options.apply && nothing_is_lost(facts, roots, options.older_than_seconds);
            &&& entry.removed == (tried && outcome.removed)
            &&& entry.failed == (tried && !outcome.removed)
            &&& tried ==> entry.generated_paths_removed == outcome.generated_paths_removed
            &&& !tried ==> entry.generated_paths_removed == 0
        }),
{
    only_what_is_not_lost_is_eligible(facts, roots, options, outcome, entry);
}

/// The branch of a worktree goes only after the worktree, and only where it
/// stands at its merge.
pub proof fn branches_go_after_their_worktree(
    facts: WorktreeFacts,
    roots: Seq<String>,
    options: WorktreeCleanupOptions,
    outcome: WorktreeRemoval,
    entry: WorktreeCleanupEntry,
)
    requires
        crate::worktree_cleanup::entry_of(facts, roots, options, outcome, entry),
    ensures
        entry.branch_eligible == stands_at_its_merge(facts.integration),
        entry.removed && stands_at_its_merge(facts.integration) ==> entry.branch_removal
            == outcome.branch,
        !entry.removed || !stands_at_its_merge(facts.integration) ==> !is_gone(
            entry.branch_removal,
        ),
        ({
            let reason = entry.branch_cleanup_reason;
            &&& facts.integration is None ==> reason is None
            &&& facts.integration is Some ==> reason is Some
            &&& facts.integration is Some && !stands_at_its_merge(facts.integration) ==> (
            reason->0)@ == "candidate_not_integrated"@
            &&& stands_at_its_merge(facts.integration) && is_gone(entry.branch_removal) ==> (
            reason->0)@ == "integrated_branch_retired"@
            &&& stands_at_its_merge(facts.integration) && !is_gone(entry.branch_removal) ==> (
            reason->0)@ == "integrated_branch_eligible"@
        }),
{
}

/// The paths that a worktree's entry names as made again are exactly those of
/// its ignored paths that a build makes again.
pub proof fn paths_that_are_made_again_are_named(
    facts: WorktreeFacts,
    roots: Seq<String>,
    options: WorktreeCleanupOptions,
    outcome: WorktreeRemoval,
    entry: WorktreeCleanupEntry,
    path: String,
)
    requires
        crate::worktree_cleanup::entry_of(facts, roots, options, outcome, entry),
    ensures
        entry.generated_paths@.contains(path) == (facts.ignored_paths@.contains(path)
            && made_again(path@, roots)),
{
    broadcast use vstd::seq_lib::group_filter_ensures;

    let keeps = crate::worktree_cleanup::generated_filter(roots);
    let kept = facts.ignored_paths@.filter(keeps);
    roots_are_told(path@, roots);
    if kept.contains(path) {
        let i = kept.index_of(path);
        assert(keeps(kept[i]));
        facts.ignored_paths@.lemma_filter_contains_rev(keeps, path);
    }
    if facts.ignored_paths@.contains(path) && made_again(path@, roots) {
        assert(keeps(path));
        assert(kept.contains(path));
    }
}

/// The worktrees that are counted as eligible are those with which nothing is
/// lost.
pub proof fn eligible_worktrees_are_counted(
    worktrees: Seq<WorktreeFacts>,
    roots: Seq<String>,
    older_than_seconds: u64,
)
    ensures
        crate::worktree_cleanup::removable_count(worktrees, roots, older_than_seconds)
            == worktrees.filter(
            |facts: WorktreeFacts| nothing_is_lost(facts, roots, older_than_seconds),
        ).len(),
    decreases worktrees.len(),
{
    reveal(Seq::filter);
    if worktrees.len() > 0 {
        eligible_worktrees_are_counted(worktrees.drop_last(), roots, older_than_seconds);
        let facts = worktrees.last();
        assert forall|i: int| 0 <= i < facts.ignored_paths@.len() implies
            crate::worktree_cleanup::generated((#[trigger] facts.ignored_paths@[i])@, roots)
            == made_again(facts.ignored_paths@[i]@, roots) by {
            roots_are_told(facts.ignored_paths@[i]@, roots);
        }
    }
}

/// A branch without a worktree is named where it stands at its merge; an
/// applied cleanup deletes it, and a preview deletes nothing.
pub proof fn loose_branches_are_deleted_at_their_merge(
    facts: BranchFacts,
    apply: bool,
    outcome: BranchRemoval,
    entry: BranchCleanupEntry,
)
    requires
        crate::worktree_cleanup::branch_entry_of(facts, apply, outcome, entry),
    ensures
        crate::worktree_cleanup::retirable_filter()(facts) == stands_at_its_merge(
            facts.integration,
        ),
        entry.branch@ == facts.branch@,
        apply ==> entry.removal == outcome,
        !apply ==> !is_gone(entry.removal),
        stands_at_its_merge(facts.integration) && is_gone(entry.removal) ==> entry.reason@
            == "integrated_branch_retired"@,
        stands_at_its_merge(facts.integration) && !is_gone(entry.removal) ==> entry.reason@
            == "integrated_branch_eligible"@,
{
}

/// Each removal is counted where it took place: here, at the remote, or at
/// either.
pub proof fn removals_are_counted_where_they_took_place(
    entry: WorktreeCleanupEntry,
    removal: BranchRemoval,
)
    ensures
        crate::worktree_cleanup::removed_filter()(entry) == entry.removed,
        crate::worktree_cleanup::failed_filter()(entry) == entry.failed,
        crate::worktree_cleanup::local_filter()(removal) == removal.local_deleted,
        crate::worktree_cleanup::remote_filter()(removal) == removal.remote_deleted,
        crate::worktree_cleanup::deleted_filter()(removal) == (removal.local_deleted
            || removal.remote_deleted),
{
}

/// The outcome that is told of the worktree or branch at a position is the one
/// at that position; where there is none, nothing was removed.
pub proof fn outcomes_stand_at_their_position(
    worktrees: Seq<WorktreeRemoval>,
    branches: Seq<BranchRemoval>,
    i: int,
)
    ensures
        0 <= i < worktrees.len() ==> crate::worktree_cleanup::worktree_outcome(worktrees, i)
            == worktrees[i],
        i >= worktrees.len() ==> ({
            let outcome = crate::worktree_cleanup::worktree_outcome(worktrees, i);
            !outcome.removed && outcome.generated_paths_removed == 0 && !is_gone(outcome.branch)
        }),
        0 <= i < branches.len() ==> crate::worktree_cleanup::branch_outcome(branches, i)
            == branches[i],
        i >= branches.len() ==> !is_gone(crate::worktree_cleanup::branch_outcome(branches, i)),
{
}

/// A text is made of decimal digits.
pub open spec fn only_digits(text: Seq<char>) -> bool {
    forall|i: int| 0 <= i < text.len() ==> '0' <= #[trigger] text[i] <= '9'
}

proof fn digits_are_read(text: Seq<char>)
    ensures
        crate::worktree_cleanup::number_in(text) is Some == only_digits(text),
        only_digits(text) ==> crate::worktree_cleanup::number_in(text)->0
            == crate::laws::texts::number_in(text),
    decreases text.len(),
{
    if text.len() > 0 {
        let rest = text.drop_last();
        digits_are_read(rest);
        assert(text.last() == text[text.len() - 1]);
        if only_digits(text) {
            assert forall|i: int| 0 <= i < rest.len() implies '0' <= #[trigger] rest[i] <= '9' by {
                assert(rest[i] == text[i]);
            }
        } else if only_digits(rest) {
            let i = choose|i: int| 0 <= i < text.len() && !('0' <= #[trigger] text[i] <= '9');
            if i < rest.len() {
                assert(rest[i] == text[i]);
            }
        } else {
            let i = choose|i: int| 0 <= i < rest.len() && !('0' <= #[trigger] rest[i] <= '9');
            assert(text[i] == rest[i]);
        }
    }
}

/// Without a setting worktrees are cleaned up at once; a setting of digits says
/// after how many seconds, and any other one turns it off.
pub proof fn settings_say_when_to_clean_up(setting: Option<Seq<char>>)
    ensures
        setting is None ==> crate::worktree_cleanup::delay_of(setting) == Some(0nat),
        setting is Some ==> ({
            let text = setting->0;
            let fits = text.len() > 0 && only_digits(text) && crate::laws::texts::number_in(text)
                <= u64::MAX;
            &&& fits ==> crate::worktree_cleanup::delay_of(setting) is Some
                && crate::worktree_cleanup::delay_of(setting)->0 == crate::laws::texts::number_in(
                text,
            )
            &&& !fits ==> crate::worktree_cleanup::delay_of(setting) is None
        }),
{
    if setting is Some {
        digits_are_read(setting->0);
    }
}

} // verus!
