//! Which worktrees and branches of goals can be cleaned up.
use vstd::prelude::*;

use crate::text::{chars_of, starts_with_text, text_eq};

verus! {

/// How a cleanup is run.
#[derive(Clone, Copy, Debug, PartialEq, Eq, Structural)]
pub struct WorktreeCleanupOptions {
    /// Whether anything is removed; a preview otherwise.
    pub apply: bool,
    pub older_than_seconds: u64,
}

impl Default for WorktreeCleanupOptions {
    fn default() -> (r: Self)
        ensures
            !r.apply,
            r.older_than_seconds == 0,
    {
        WorktreeCleanupOptions { apply: false, older_than_seconds: 0 }
    }
}

/// The merge of a goal's round, and where its branch stands.
#[derive(Debug)]
pub struct BranchIntegration {
    pub candidate_commit: String,
    pub branch_head: String,
    /// Whether the target branch holds the candidate.
    pub candidate_in_target: bool,
}

/// What is known of a worktree.
#[derive(Debug)]
pub struct WorktreeFacts {
    pub path: String,
    pub branch: String,
    /// The goal that the worktree belongs to, where it is known.
    pub goal_id: Option<String>,
    pub active_process: bool,
    /// An operation or a claim works on the goal.
    pub active_owner: bool,
    pub age_seconds: u64,
    /// Changed and untracked paths.
    pub changed_paths: Vec<String>,
    pub ignored_paths: Vec<String>,
    pub integration: Option<BranchIntegration>,
}

/// A goal's branch without a worktree.
#[derive(Debug)]
pub struct BranchFacts {
    pub branch: String,
    pub integration: Option<BranchIntegration>,
}

/// What came of deleting a branch.
#[derive(Clone, Copy, Debug, PartialEq, Eq, Structural)]
pub struct BranchRemoval {
    pub local_deleted: bool,
    pub remote_deleted: bool,
}

/// What came of removing a worktree.
#[derive(Clone, Copy, Debug, PartialEq, Eq, Structural)]
pub struct WorktreeRemoval {
    pub removed: bool,
    /// How many of the paths that a build makes again were removed.
    pub generated_paths_removed: usize,
    /// What came of deleting its branch afterwards.
    pub branch: BranchRemoval,
}

/// What came of the removals of a cleanup.
#[derive(Debug)]
pub struct CleanupOutcomes {
    /// One for each worktree.
    pub worktrees: Vec<WorktreeRemoval>,
    /// One for each branch without a worktree that can be deleted.
    pub branches: Vec<BranchRemoval>,
}

/// What a cleanup says of a worktree.
#[derive(Debug)]
pub struct WorktreeCleanupEntry {
    pub goal_id: Option<String>,
    pub path: String,
    pub reason: String,
    /// Whether the worktree can be removed.
    pub eligible: bool,
    pub removed: bool,
    /// Whether the worktree was to be removed and was not.
    pub failed: bool,
    pub generated_paths: Vec<String>,
    pub generated_paths_removed: usize,
    pub branch_cleanup_reason: Option<String>,
    /// Whether the branch can be deleted once the worktree is gone.
    pub branch_eligible: bool,
    pub branch_removal: BranchRemoval,
}

/// What a cleanup says of a branch without a worktree.
#[derive(Debug)]
pub struct BranchCleanupEntry {
    pub branch: String,
    pub reason: String,
    pub removal: BranchRemoval,
}

/// What a cleanup found and did.
#[derive(Debug)]
pub struct WorktreeCleanupReport {
    pub inspected: usize,
    pub eligible: usize,
    pub removed: usize,
    pub failed: usize,
    pub entries: Vec<WorktreeCleanupEntry>,
    pub branch_inspected: usize,
    pub branch_eligible: usize,
    /// Branches of which something was deleted, here or at their remote.
    pub branches_deleted: usize,
    pub local_branches_deleted: usize,
    pub remote_branches_deleted: usize,
    pub branch_entries: Vec<BranchCleanupEntry>,
}

/// Cleans the worktrees of one project up.
#[derive(Debug)]
pub struct FileWorktreeCleanupService {
    pub target_root: String,
    pub runtime_root: String,
}

/// A path lies at or below a root.
pub open spec fn below(path: Seq<char>, root: Seq<char>) -> bool {
    path == root || crate::text::begins_with(path, root + "/"@)
}

/// A path that a build makes again.
pub open spec fn generated(path: Seq<char>, roots: Seq<String>) -> bool {
    exists|i: int| 0 <= i < roots.len() && below(path, (#[trigger] roots[i])@)
}

/// Tells the paths that a build makes again.
pub open spec fn generated_filter(roots: Seq<String>) -> spec_fn(String) -> bool {
    |p: String| generated(p@, roots)
}

/// Why a worktree is kept, or that it is eligible.
pub open spec fn cleanup_reason(
    facts: WorktreeFacts,
    roots: Seq<String>,
    older_than_seconds: u64,
) -> Seq<char> {
    if facts.goal_id is None {
        "goal_not_found"@
    } else if facts.active_process {
        "active_process"@
    } else if facts.active_owner {
        "active_owner"@
    } else if facts.changed_paths@.len() > 0 {
        "dirty_worktree"@
    } else if facts.age_seconds < older_than_seconds {
        "retention_window"@
    } else if exists|i: int|
        0 <= i < facts.ignored_paths@.len() && !generated(
            (#[trigger] facts.ignored_paths@[i])@,
            roots,
        ) {
        "ignored_worktree"@
    } else {
        "eligible"@
    }
}

/// A worktree that can be removed.
pub open spec fn removable(facts: WorktreeFacts, roots: Seq<String>, older_than_seconds: u64) -> bool {
    &&& facts.goal_id is Some
    &&& !facts.active_process
    &&& !facts.active_owner
    &&& facts.changed_paths@.len() == 0
    &&& facts.age_seconds >= older_than_seconds
    &&& forall|i: int|
        0 <= i < facts.ignored_paths@.len() ==> generated(
            (#[trigger] facts.ignored_paths@[i])@,
            roots,
        )
}

/// Nothing of a branch was deleted.
pub open spec fn nothing_deleted() -> BranchRemoval {
    BranchRemoval { local_deleted: false, remote_deleted: false }
}

/// Something of a branch was deleted, here or at its remote.
pub open spec fn deleted(removal: BranchRemoval) -> bool {
    removal.local_deleted || removal.remote_deleted
}

/// What became of a branch whose work was merged: it goes only where it still
/// stands at the merged candidate, and is retired once it is gone.
pub open spec fn branch_reason(
    integration: Option<BranchIntegration>,
    removal: BranchRemoval,
) -> Option<Seq<char>> {
    match integration {
        None => None,
        Some(i) => if i.candidate_in_target && i.branch_head@ == i.candidate_commit@ {
            Some(
                if deleted(removal) {
                    "integrated_branch_retired"@
                } else {
                    "integrated_branch_eligible"@
                },
            )
        } else {
            Some("candidate_not_integrated"@)
        },
    }
}

/// A branch that can be deleted.
pub open spec fn retirable(integration: Option<BranchIntegration>) -> bool {
    match integration {
        Some(i) => i.candidate_in_target && i.branch_head@ == i.candidate_commit@,
        None => false,
    }
}

/// What came of a worktree's removal; nothing where no outcome is given.
pub open spec fn worktree_outcome(outcomes: Seq<WorktreeRemoval>, i: int) -> WorktreeRemoval {
    if 0 <= i < outcomes.len() {
        outcomes[i]
    } else {
        WorktreeRemoval {
            removed: false,
            generated_paths_removed: 0,
            branch: nothing_deleted(),
        }
    }
}

/// What came of a branch's removal; nothing where no outcome is given.
pub open spec fn branch_outcome(outcomes: Seq<BranchRemoval>, i: int) -> BranchRemoval {
    if 0 <= i < outcomes.len() {
        outcomes[i]
    } else {
        nothing_deleted()
    }
}

/// What was deleted of a worktree's branch: it goes only after its worktree,
/// and only where it can be deleted.
pub open spec fn worktree_branch_removal(
    facts: WorktreeFacts,
    removed: bool,
    outcome: WorktreeRemoval,
) -> BranchRemoval {
    if removed && retirable(facts.integration) {
        outcome.branch
    } else {
        nothing_deleted()
    }
}

/// What a cleanup says of a worktree, given what came of its removal. Only a
/// cleanup that is applied removes anything, and only what is eligible.
pub open spec fn entry_of(
    facts: WorktreeFacts,
    roots: Seq<String>,
    options: WorktreeCleanupOptions,
    outcome: WorktreeRemoval,
    entry: WorktreeCleanupEntry,
) -> bool {
    let attempted = options.apply && removable(facts, roots, options.older_than_seconds);
    &&& entry.goal_id == facts.goal_id
    &&& entry.path == facts.path
    &&& entry.reason@ == cleanup_reason(facts, roots, options.older_than_seconds)
    &&& entry.eligible == removable(facts, roots, options.older_than_seconds)
    &&& entry.removed == (attempted && outcome.removed)
    &&& entry.failed == (attempted && !outcome.removed)
    &&& entry.generated_paths@ == facts.ignored_paths@.filter(generated_filter(roots))
    &&& entry.generated_paths_removed == if attempted {
        outcome.generated_paths_removed
    } else {
        0
    }
    &&& entry.branch_eligible == retirable(facts.integration)
    &&& entry.branch_removal == worktree_branch_removal(facts, entry.removed, outcome)
    &&& crate::text::maybe_view(entry.branch_cleanup_reason) == branch_reason(
        facts.integration,
        entry.branch_removal,
    )
}

/// Tells the worktrees that were removed.
pub open spec fn removed_filter() -> spec_fn(WorktreeCleanupEntry) -> bool {
    |e: WorktreeCleanupEntry| e.removed
}

/// Tells the worktrees that were to be removed and were not.
pub open spec fn failed_filter() -> spec_fn(WorktreeCleanupEntry) -> bool {
    |e: WorktreeCleanupEntry| e.failed
}

/// Tells the removals that deleted something.
pub open spec fn deleted_filter() -> spec_fn(BranchRemoval) -> bool {
    |b: BranchRemoval| deleted(b)
}

/// Tells the removals that deleted a branch here.
pub open spec fn local_filter() -> spec_fn(BranchRemoval) -> bool {
    |b: BranchRemoval| b.local_deleted
}

/// Tells the removals that deleted a branch at its remote.
pub open spec fn remote_filter() -> spec_fn(BranchRemoval) -> bool {
    |b: BranchRemoval| b.remote_deleted
}

/// What was deleted of the branches of worktrees and of those without one.
pub open spec fn branch_removals(
    entries: Seq<WorktreeCleanupEntry>,
    branch_entries: Seq<BranchCleanupEntry>,
) -> Seq<BranchRemoval> {
    entries.map_values(|e: WorktreeCleanupEntry| e.branch_removal) + branch_entries.map_values(
        |e: BranchCleanupEntry| e.removal,
    )
}

/// The number of worktrees that can be removed.
pub open spec fn removable_count(
    worktrees: Seq<WorktreeFacts>,
    roots: Seq<String>,
    older_than_seconds: u64,
) -> nat
    decreases worktrees.len(),
{
    if worktrees.len() == 0 {
        0
    } else {
        removable_count(worktrees.drop_last(), roots, older_than_seconds) + if removable(
            worktrees.last(),
            roots,
            older_than_seconds,
        ) {
            1nat
        } else {
            0nat
        }
    }
}

/// Tells the branches that can be deleted.
pub open spec fn retirable_filter() -> spec_fn(BranchFacts) -> bool {
    |b: BranchFacts| retirable(b.integration)
}

/// What a cleanup says of a branch without a worktree, given what came of its
/// removal.
pub open spec fn branch_entry_of(
    facts: BranchFacts,
    apply: bool,
    outcome: BranchRemoval,
    entry: BranchCleanupEntry,
) -> bool {
    &&& entry.branch == facts.branch
    &&& entry.removal == if apply {
        outcome
    } else {
        nothing_deleted()
    }
    &&& branch_reason(facts.integration, entry.removal) == Some(entry.reason@)
}

fn is_below(path: &str, root: &str) -> (r: bool)
    ensures
        r == below(path@, root@),
{
    let mut prefix = root.to_owned();
    prefix.append("/");
    text_eq(path, root) || starts_with_text(path, prefix.as_str())
}

fn is_generated(path: &str, roots: &Vec<String>) -> (r: bool)
    ensures
        r == generated(path@, roots@),
{
    let mut i: usize = 0;
    while i < roots.len()
        invariant
            i <= roots.len(),
            forall|j: int| 0 <= j < i ==> !below(path@, (#[trigger] roots@[j])@),
        decreases roots.len() - i,
    {
        if is_below(path, roots[i].as_str()) {
            assert(below(path@, roots@[i as int]@));
            return true;
        }
        i = i + 1;
    }
    false
}

fn split_ignored(paths: &Vec<String>, roots: &Vec<String>) -> (r: (Vec<String>, bool))
    ensures
        r.0@ == paths@.filter(generated_filter(roots@)),
        r.1 == exists|i: int|
            0 <= i < paths@.len() && !generated((#[trigger] paths@[i])@, roots@),
{
    let ghost p = generated_filter(roots@);
    let mut out: Vec<String> = Vec::new();
    let mut unknown = false;
    let mut i: usize = 0;
    proof {
        crate::lists::no_match_at_first(paths@, p);
    }
    while i < paths.len()
        invariant
            i <= paths.len(),
            p == generated_filter(roots@),
            out@ == paths@.take(i as int).filter(p),
            unknown == exists|j: int| 0 <= j < i && !generated((#[trigger] paths@[j])@, roots@),
        decreases paths.len() - i,
    {
        proof {
            crate::lists::matches_grow(paths@, p, i as int);
        }
        let ghost before = unknown;
        if is_generated(paths[i].as_str(), roots) {
            out.push(paths[i].clone());
        } else {
            unknown = true;
            assert(!generated(paths@[i as int]@, roots@));
        }
        proof {
            if before {
                let j = choose|j: int| 0 <= j < i && !generated((#[trigger] paths@[j])@, roots@);
                assert(0 <= j < i + 1);
            }
        }
        i = i + 1;
    }
    assert(paths@.take(paths.len() as int) =~= paths@);
    (out, unknown)
}

fn is_retirable(integration: &Option<BranchIntegration>) -> (r: bool)
    ensures
        r == retirable(*integration),
{
    match integration {
        Some(i) => i.candidate_in_target && text_eq(
            i.branch_head.as_str(),
            i.candidate_commit.as_str(),
        ),
        None => false,
    }
}

/// What became of a branch whose work was merged.
pub fn branch_cleanup_reason(
    integration: &Option<BranchIntegration>,
    removal: BranchRemoval,
) -> (r: Option<String>)
    ensures
        crate::text::maybe_view(r) == branch_reason(*integration, removal),
{
    match integration {
        None => None,
        Some(_) => if is_retirable(integration) {
            if removal.local_deleted || removal.remote_deleted {
                Some("integrated_branch_retired".to_owned())
            } else {
                Some("integrated_branch_eligible".to_owned())
            }
        } else {
            Some("candidate_not_integrated".to_owned())
        },
    }
}

/// What a cleanup says of a worktree, given what came of its removal.
pub fn inspect_worktree(
    facts: &WorktreeFacts,
    roots: &Vec<String>,
    options: WorktreeCleanupOptions,
    outcome: WorktreeRemoval,
) -> (r: WorktreeCleanupEntry)
    ensures
        entry_of(*facts, roots@, options, outcome, r),
{
    let (generated_paths, unknown): (Vec<String>, bool) = split_ignored(
        &facts.ignored_paths,
        roots,
    );
    let mut eligible = false;
    let reason = if facts.goal_id.is_none() {
        "goal_not_found"
    } else if facts.active_process {
        "active_process"
    } else if facts.active_owner {
        "active_owner"
    } else if facts.changed_paths.len() > 0 {
        "dirty_worktree"
    } else if facts.age_seconds < options.older_than_seconds {
        "retention_window"
    } else if unknown {
        "ignored_worktree"
    } else {
        eligible = true;
        "eligible"
    };
    let attempted = options.apply && eligible;
    let removed = attempted && outcome.removed;
    let branch_eligible = is_retirable(&facts.integration);
    let branch_removal = if removed && branch_eligible {
        outcome.branch
    } else {
        BranchRemoval { local_deleted: false, remote_deleted: false }
    };
    let generated_paths_removed: usize = if attempted { outcome.generated_paths_removed } else { 0 };
    WorktreeCleanupEntry {
        goal_id: facts.goal_id.clone(),
        path: facts.path.clone(),
        reason: reason.to_owned(),
        eligible,
        removed,
        failed: attempted && !outcome.removed,
        generated_paths,
        generated_paths_removed,
        branch_cleanup_reason: branch_cleanup_reason(&facts.integration, branch_removal),
        branch_eligible,
        branch_removal,
    }
}

impl FileWorktreeCleanupService {
    /// Cleans the worktrees of a project up.
    pub fn new(target_root: &str, runtime_root: &str) -> (r: Self)
        ensures
            r.target_root@ == target_root@,
            r.runtime_root@ == runtime_root@,
    {
        FileWorktreeCleanupService {
            target_root: target_root.to_owned(),
            runtime_root: runtime_root.to_owned(),
        }
    }

    /// What a cleanup found and did. `generated_roots` names what a build makes
    /// again, and `outcomes` says what came of the removals; a preview needs
    /// none.
    pub fn run(
        &self,
        worktrees: &Vec<WorktreeFacts>,
        branches: &Vec<BranchFacts>,
        generated_roots: &Vec<String>,
        options: WorktreeCleanupOptions,
        outcomes: &CleanupOutcomes,
    ) -> (r: WorktreeCleanupReport)
        requires
            worktrees@.len() + branches@.len() <= usize::MAX,
        ensures
            r.inspected == worktrees@.len(),
            r.entries@.len() == worktrees@.len(),
            forall|i: int|
                0 <= i < r.entries@.len() ==> entry_of(
                    worktrees@[i],
                    generated_roots@,
                    options,
                    worktree_outcome(outcomes.worktrees@, i),
                    #[trigger] r.entries@[i],
                ),
            r.eligible == removable_count(
                worktrees@,
                generated_roots@,
                options.older_than_seconds,
            ),
            r.removed == r.entries@.filter(removed_filter()).len(),
            r.failed == r.entries@.filter(failed_filter()).len(),
            r.removed + r.failed == if options.apply {
                r.eligible as int
            } else {
                0
            },
            r.branch_inspected == branches@.len(),
            r.branch_eligible == r.branch_entries@.len(),
            r.branch_entries@.len() == branches@.filter(retirable_filter()).len(),
            forall|i: int|
                0 <= i < r.branch_entries@.len() ==> branch_entry_of(
                    branches@.filter(retirable_filter())[i],
                    options.apply,
                    branch_outcome(outcomes.branches@, i),
                    #[trigger] r.branch_entries@[i],
                ),
            r.branches_deleted == branch_removals(r.entries@, r.branch_entries@).filter(
                deleted_filter(),
            ).len(),
            r.local_branches_deleted == branch_removals(r.entries@, r.branch_entries@).filter(
                local_filter(),
            ).len(),
            r.remote_branches_deleted == branch_removals(r.entries@, r.branch_entries@).filter(
                remote_filter(),
            ).len(),
    {
        let mut entries: Vec<WorktreeCleanupEntry> = Vec::new();
        let mut eligible: usize = 0;
        let mut removed: usize = 0;
        let mut failed: usize = 0;
        let mut i: usize = 0;
        proof {
            crate::lists::no_match_at_first(entries@, removed_filter());
            crate::lists::no_match_at_first(entries@, failed_filter());
        }
        assert(entries@.take(0) =~= entries@);
        assert(worktrees@.take(0) =~= Seq::empty());
        while i < worktrees.len()
            invariant
                i <= worktrees.len(),
                entries@.len() == i,
                eligible <= i,
                eligible == removable_count(
                    worktrees@.take(i as int),
                    generated_roots@,
                    options.older_than_seconds,
                ),
                removed == entries@.filter(removed_filter()).len(),
                failed == entries@.filter(failed_filter()).len(),
                removed + failed == if options.apply {
                    eligible as int
                } else {
                    0
                },
                forall|j: int|
                    0 <= j < i ==> entry_of(
                        worktrees@[j],
                        generated_roots@,
                        options,
                        worktree_outcome(outcomes.worktrees@, j),
                        #[trigger] entries@[j],
                    ),
            decreases worktrees.len() - i,
        {
            assert(worktrees@.take(i as int + 1).drop_last() =~= worktrees@.take(i as int));
            let entry = inspect_worktree(
                &worktrees[i],
                generated_roots,
                options,
                worktree_outcome_at(&outcomes.worktrees, i),
            );
            if entry.eligible {
                eligible = eligible + 1;
            }
            if entry.removed {
                removed = removed + 1;
            }
            if entry.failed {
                failed = failed + 1;
            }
            let ghost before = entries@;
            entries.push(entry);
            proof {
                crate::lists::matches_grow(entries@, removed_filter(), i as int);
                crate::lists::matches_grow(entries@, failed_filter(), i as int);
                assert(entries@.take(i as int) =~= before);
                assert(entries@.take(i as int + 1) =~= entries@);
            }
            i = i + 1;
        }
        assert(worktrees@.take(worktrees.len() as int) =~= worktrees@);
        let branch_entries = inspect_branches(branches, options.apply, &outcomes.branches);
        let removals = all_branch_removals(&entries, &branch_entries);
        let (gone, local, remote): (usize, usize, usize) = count_branches(&removals);
        let branch_eligible: usize = branch_entries.len();
        WorktreeCleanupReport {
            inspected: worktrees.len(),
            eligible,
            removed,
            failed,
            entries,
            branch_inspected: branches.len(),
            branch_eligible,
            branches_deleted: gone,
            local_branches_deleted: local,
            remote_branches_deleted: remote,
            branch_entries,
        }
    }
}

fn worktree_outcome_at(outcomes: &Vec<WorktreeRemoval>, i: usize) -> (r: WorktreeRemoval)
    ensures
        r == worktree_outcome(outcomes@, i as int),
{
    if i < outcomes.len() {
        outcomes[i]
    } else {
        WorktreeRemoval {
            removed: false,
            generated_paths_removed: 0,
            branch: BranchRemoval { local_deleted: false, remote_deleted: false },
        }
    }
}

fn branch_outcome_at(outcomes: &Vec<BranchRemoval>, i: usize) -> (r: BranchRemoval)
    ensures
        r == branch_outcome(outcomes@, i as int),
{
    if i < outcomes.len() {
        outcomes[i]
    } else {
        BranchRemoval { local_deleted: false, remote_deleted: false }
    }
}

fn inspect_branches(
    branches: &Vec<BranchFacts>,
    apply: bool,
    outcomes: &Vec<BranchRemoval>,
) -> (r: Vec<BranchCleanupEntry>)
    ensures
        r@.len() == branches@.filter(retirable_filter()).len(),
        r@.len() <= branches@.len(),
        forall|i: int|
            0 <= i < r@.len() ==> branch_entry_of(
                branches@.filter(retirable_filter())[i],
                apply,
                branch_outcome(outcomes@, i),
                #[trigger] r@[i],
            ),
{
    let ghost p = retirable_filter();
    let mut out: Vec<BranchCleanupEntry> = Vec::new();
    let mut k: usize = 0;
    proof {
        crate::lists::no_match_at_first(branches@, p);
    }
    while k < branches.len()
        invariant
            k <= branches.len(),
            p == retirable_filter(),
            out@.len() <= k,
            out@.len() == branches@.take(k as int).filter(p).len(),
            forall|x: int|
                0 <= x < out@.len() ==> branch_entry_of(
                    branches@.take(k as int).filter(p)[x],
                    apply,
                    branch_outcome(outcomes@, x),
                    #[trigger] out@[x],
                ),
        decreases branches.len() - k,
    {
        proof {
            crate::lists::matches_grow(branches@, p, k as int);
        }
        let facts = &branches[k];
        if is_retirable(&facts.integration) {
            let removal = if apply {
                branch_outcome_at(outcomes, out.len())
            } else {
                BranchRemoval { local_deleted: false, remote_deleted: false }
            };
            if let Some(reason) = branch_cleanup_reason(&facts.integration, removal) {
                out.push(BranchCleanupEntry { branch: facts.branch.clone(), reason, removal });
            }
        }
        k = k + 1;
    }
    assert(branches@.take(branches.len() as int) =~= branches@);
    out
}

fn all_branch_removals(
    entries: &Vec<WorktreeCleanupEntry>,
    branch_entries: &Vec<BranchCleanupEntry>,
) -> (r: Vec<BranchRemoval>)
    requires
        entries@.len() + branch_entries@.len() <= usize::MAX,
    ensures
        r@ == branch_removals(entries@, branch_entries@),
{
    let ghost both = branch_removals(entries@, branch_entries@);
    let mut out: Vec<BranchRemoval> = Vec::new();
    let mut i: usize = 0;
    while i < entries.len()
        invariant
            i <= entries.len(),
            both == branch_removals(entries@, branch_entries@),
            out@ == both.take(i as int),
        decreases entries.len() - i,
    {
        out.push(entries[i].branch_removal);
        assert(out@ =~= both.take(i as int + 1));
        i = i + 1;
    }
    let mut k: usize = 0;
    while k < branch_entries.len()
        invariant
            k <= branch_entries.len(),
            entries@.len() + branch_entries@.len() <= usize::MAX,
            both == branch_removals(entries@, branch_entries@),
            out@ == both.take(entries@.len() + k),
        decreases branch_entries.len() - k,
    {
        out.push(branch_entries[k].removal);
        assert(out@ =~= both.take(entries@.len() + k + 1));
        k = k + 1;
    }
    assert(both.take(both.len() as int) =~= both);
    out
}

fn count_branches(removals: &Vec<BranchRemoval>) -> (r: (usize, usize, usize))
    ensures
        r.0 == removals@.filter(deleted_filter()).len(),
        r.1 == removals@.filter(local_filter()).len(),
        r.2 == removals@.filter(remote_filter()).len(),
{
    let mut gone: usize = 0;
    let mut local: usize = 0;
    let mut remote: usize = 0;
    let mut i: usize = 0;
    proof {
        crate::lists::no_match_at_first(removals@, deleted_filter());
        crate::lists::no_match_at_first(removals@, local_filter());
        crate::lists::no_match_at_first(removals@, remote_filter());
    }
    while i < removals.len()
        invariant
            i <= removals.len(),
            gone <= i,
            local <= i,
            remote <= i,
            gone == removals@.take(i as int).filter(deleted_filter()).len(),
            local == removals@.take(i as int).filter(local_filter()).len(),
            remote == removals@.take(i as int).filter(remote_filter()).len(),
        decreases removals.len() - i,
    {
        proof {
            crate::lists::matches_grow(removals@, deleted_filter(), i as int);
            crate::lists::matches_grow(removals@, local_filter(), i as int);
            crate::lists::matches_grow(removals@, remote_filter(), i as int);
        }
        let removal = removals[i];
        if removal.local_deleted || removal.remote_deleted {
            gone = gone + 1;
        }
        if removal.local_deleted {
            local = local + 1;
        }
        if removal.remote_deleted {
            remote = remote + 1;
        }
        i = i + 1;
    }
    assert(removals@.take(removals.len() as int) =~= removals@);
    (gone, local, remote)
}

/// The value of a decimal digit.
pub open spec fn digit_value(c: char) -> Option<nat> {
    if '0' <= c && c <= '9' {
        Some((c as u32 - '0' as u32) as nat)
    } else {
        None
    }
}

/// The number that digits write; nothing where another character occurs.
pub open spec fn number_in(digits: Seq<char>) -> Option<nat>
    decreases digits.len(),
{
    if digits.len() == 0 {
        Some(0)
    } else {
        match (number_in(digits.drop_last()), digit_value(digits.last())) {
            (Some(n), Some(d)) => Some(10 * n + d),
            _ => None,
        }
    }
}

/// After how many seconds worktrees are cleaned up by themselves. Without a
/// setting they are cleaned up at once; a setting that is no such number turns
/// it off.
pub open spec fn delay_of(setting: Option<Seq<char>>) -> Option<nat> {
    match setting {
        None => Some(0),
        Some(text) => match number_in(text) {
            Some(n) => if text.len() > 0 && n <= u64::MAX { Some(n) } else { None },
            None => None,
        },
    }
}

proof fn numbers_grow(digits: Seq<char>, i: int)
    requires
        0 <= i <= digits.len(),
    ensures
        number_in(digits) matches Some(n) ==> number_in(digits.take(i)) matches Some(m) && m <= n,
        number_in(digits.take(i)) is None ==> number_in(digits) is None,
    decreases digits.len(),
{
    if i == digits.len() {
        assert(digits.take(i) =~= digits);
    } else {
        assert(digits.drop_last().take(i) =~= digits.take(i));
        numbers_grow(digits.drop_last(), i);
    }
}

/// After how many seconds worktrees are cleaned up by themselves.
pub fn automatic_cleanup_delay_seconds(setting: Option<&str>) -> (r: Option<u64>)
    ensures
        match r {
            Some(n) => delay_of(crate::text::borrowed_view(setting)) == Some(n as nat),
            None => delay_of(crate::text::borrowed_view(setting)) is None,
        },
{
    let text = match setting {
        Some(text) => text,
        None => {
            return Some(0);
        },
    };
    let chars = chars_of(text);
    if chars.len() == 0 {
        return None;
    }
    let mut value: u64 = 0;
    let mut i: usize = 0;
    assert(text@.take(0) =~= Seq::empty());
    while i < chars.len()
        invariant
            i <= chars@.len(),
            chars@ == text@,
            chars@.len() > 0,
            setting == Some(text),
            number_in(text@.take(i as int)) == Some(value as nat),
        decreases chars.len() - i,
    {
        proof {
            assert(text@.take(i as int + 1).drop_last() =~= text@.take(i as int));
            numbers_grow(text@, i as int + 1);
        }
        let c = chars[i];
        if c < '0' || c > '9' {
            return None;
        }
        let digit: u64 = (c as u32 - '0' as u32) as u64;
        let next: u128 = value as u128 * 10 + digit as u128;
        if next > u64::MAX as u128 {
            return None;
        }
        value = next as u64;
        i = i + 1;
    }
    assert(text@.take(chars.len() as int) =~= text@);
    Some(value)
}

/// A worktree with unsaved or unrecognized contents, or with work in progress,
/// is never removed.
pub proof fn work_is_never_removed(
    facts: WorktreeFacts,
    roots: Seq<String>,
    older_than_seconds: u64,
)
    requires
        facts.changed_paths@.len() > 0 || facts.active_process || facts.active_owner || exists|i: int|
            0 <= i < facts.ignored_paths@.len() && !generated(
                (#[trigger] facts.ignored_paths@[i])@,
                roots,
            ),
    ensures
        !removable(facts, roots, older_than_seconds),
        cleanup_reason(facts, roots, older_than_seconds) != "eligible"@,
{
    reveal_strlit("eligible");
    reveal_strlit("goal_not_found");
    reveal_strlit("active_process");
    reveal_strlit("active_owner");
    reveal_strlit("dirty_worktree");
    reveal_strlit("retention_window");
    reveal_strlit("ignored_worktree");
    assert("eligible"@.len() != "goal_not_found"@.len());
    assert("eligible"@.len() != "active_process"@.len());
    assert("eligible"@.len() != "active_owner"@.len());
    assert("eligible"@.len() != "dirty_worktree"@.len());
    assert("eligible"@.len() != "retention_window"@.len());
    assert("eligible"@.len() != "ignored_worktree"@.len());
}

/// A branch that moved past the merged candidate is never deleted.
pub proof fn advanced_branches_are_kept(
    facts: WorktreeFacts,
    integration: BranchIntegration,
    roots: Seq<String>,
    options: WorktreeCleanupOptions,
    outcome: WorktreeRemoval,
    entry: WorktreeCleanupEntry,
)
    requires
        facts.integration == Some(integration),
        integration.branch_head@ != integration.candidate_commit@,
        entry_of(facts, roots, options, outcome, entry),
    ensures
        entry.branch_removal == nothing_deleted(),
        crate::text::maybe_view(entry.branch_cleanup_reason) == Some("candidate_not_integrated"@),
{
}

/// A preview removes nothing.
pub proof fn previews_remove_nothing(
    facts: WorktreeFacts,
    roots: Seq<String>,
    options: WorktreeCleanupOptions,
    outcome: WorktreeRemoval,
    entry: WorktreeCleanupEntry,
)
    requires
        !options.apply,
        entry_of(facts, roots, options, outcome, entry),
    ensures
        !entry.removed,
        !entry.failed,
        entry.generated_paths_removed == 0,
        entry.branch_removal == nothing_deleted(),
{
}

} // verus!
