//! What a merge, an acceptance and a revert promise, whatever Git answers.
use vstd::prelude::*;

use crate::merging::integration::{GoalRead, IntegrationEvent, IntegrationStage};
use crate::merging::{EvidenceRead, MergeResult};
use crate::model::GoalStatus;

verus! {

/// What a merge has learned from the answers to what it asked for.
pub ghost struct Learned {
    /// The remotes and branches that were fetched.
    pub fetched: Set<(Seq<char>, Seq<char>)>,
    /// The commits that names resolved to.
    pub resolved: Set<(Seq<char>, Seq<char>)>,
    /// The commits that are known to be ancestors of others.
    pub ancestors: Set<(Seq<char>, Seq<char>)>,
    /// The commits that were merged into the branch that is checked out.
    pub merged: Set<Seq<char>>,
    /// The branch that is checked out.
    pub on: Option<Seq<char>>,
    /// Whether the remote is configured.
    pub remote: Option<bool>,
    /// The remote and branch that was pushed last, and that was not merged into
    /// since.
    pub pushed: Option<(Seq<char>, Seq<char>)>,
    /// The remote branch that was fast-forwarded to.
    pub forwarded: Option<(Seq<char>, Seq<char>)>,
    /// The name that was resolved last, with its commit, and nothing merged
    /// since.
    pub tip: Option<(Seq<char>, Seq<char>)>,
    pub recorded: Option<u64>,
    pub advanced: Option<u64>,
}

/// What is known before anything was asked.
pub open spec fn nothing_learned() -> Learned {
    Learned {
        fetched: Set::empty(),
        resolved: Set::empty(),
        ancestors: Set::empty(),
        merged: Set::empty(),
        on: None,
        remote: None,
        pushed: None,
        forwarded: None,
        tip: None,
        recorded: None,
        advanced: None,
    }
}

/// What an answer to an action teaches.
pub open spec fn learn(
    known: Learned,
    action: crate::merging::integration::ActionView,
    event: IntegrationEvent,
) -> Learned {
    match (action, event) {
        (
            crate::merging::integration::ActionView::Fetch(remote, branch),
            IntegrationEvent::Done,
        ) => Learned { fetched: known.fetched.insert((remote, branch)), ..known },
        (
            crate::merging::integration::ActionView::Resolve(name),
            IntegrationEvent::Commit(commit),
        ) => Learned {
            resolved: known.resolved.insert((name, commit@)),
            tip: Some((name, commit@)),
            ..known
        },
        (
            crate::merging::integration::ActionView::IsAncestor(a, b),
            IntegrationEvent::Answer(true),
        ) => Learned { ancestors: known.ancestors.insert((a, b)), ..known },
        (
            crate::merging::integration::ActionView::Merge(commit),
            IntegrationEvent::Merged(result),
        ) => if result.ok {
            Learned { merged: known.merged.insert(commit), tip: None, pushed: None, ..known }
        } else {
            known
        },
        (
            crate::merging::integration::ActionView::Switch(branch),
            IntegrationEvent::Done,
        ) => Learned { on: Some(branch), ..known },
        (
            crate::merging::integration::ActionView::FindRemote(_),
            IntegrationEvent::Answer(yes),
        ) => Learned { remote: Some(yes), ..known },
        (
            crate::merging::integration::ActionView::Push(remote, branch),
            IntegrationEvent::Done,
        ) => Learned { pushed: Some((remote, branch)), ..known },
        (
            crate::merging::integration::ActionView::FastForward(remote, branch),
            IntegrationEvent::Done,
        ) => Learned { forwarded: Some((remote, branch)), ..known },
        (
            crate::merging::integration::ActionView::PersistEvidence,
            IntegrationEvent::Persisted(revision),
        ) => Learned { recorded: Some(revision), ..known },
        (
            crate::merging::integration::ActionView::AdvanceFence(revision),
            IntegrationEvent::Done,
        ) => Learned { advanced: Some(revision), ..known },
        _ => known,
    }
}

/// A merge and what it knows after a list of answers, each given at a time.
pub open spec fn played(
    start: crate::merging::integration::RunView,
    answers: Seq<(IntegrationEvent, Seq<char>)>,
) -> (crate::merging::integration::RunView, Learned)
    decreases answers.len(),
{
    if answers.len() == 0 {
        (start, nothing_learned())
    } else {
        let (run, known) = played(start, answers.drop_last());
        let (event, now) = answers.last();
        (
            crate::merging::integration::next_run(run, event, now),
            learn(known, crate::merging::integration::action_of(run), event),
        )
    }
}

/// The name under which a branch of a remote is resolved.
pub open spec fn published_name(remote: Seq<char>, branch: Seq<char>) -> Seq<char> {
    remote + "/"@ + branch
}

/// A name is known to hold a commit: it resolved to the commit, or to a
/// descendant of it.
pub open spec fn known_to_hold(known: Learned, name: Seq<char>, commit: Seq<char>) -> bool {
    known.resolved.contains((name, commit)) || exists|tip: Seq<char>|
        known.resolved.contains((name, tip)) && #[trigger] known.ancestors.contains((commit, tip))
}

/// The target branch is known to hold a commit: it was merged into it, or the
/// branch was seen to hold it.
pub open spec fn target_holds(known: Learned, target: Seq<char>, commit: Seq<char>) -> bool {
    known.merged.contains(commit) || known_to_hold(known, target, commit)
}

/// Where a remote is configured, the target branch holds what the fetched
/// remote branch resolved to.
pub open spec fn synchronized(known: Learned, remote: Seq<char>, target: Seq<char>) -> bool {
    known.fetched.contains((remote, target)) && exists|commit: Seq<char>|
        #[trigger] known.resolved.contains((published_name(remote, target), commit))
            && target_holds(known, target, commit)
}

/// The candidate is what its published branch holds, where there is a remote.
pub open spec fn candidate_published(
    known: Learned,
    remote: Seq<char>,
    branch: Seq<char>,
    candidate: Seq<char>,
) -> bool {
    known.remote == Some(true) ==> known.fetched.contains((remote, branch))
        && known.resolved.contains((published_name(remote, branch), candidate))
}

/// The candidate rests on its base, or the target already holds it.
pub open spec fn candidate_current(
    known: Learned,
    target: Seq<char>,
    base: Seq<char>,
    candidate: Seq<char>,
) -> bool {
    known.resolved.contains((candidate, candidate)) && (known.ancestors.contains((base, candidate))
        || known_to_hold(known, target, candidate))
}

spec fn past_remote(stage: IntegrationStage) -> bool {
    match stage {
        IntegrationStage::FenceBeforeRead => false,
        IntegrationStage::ReadGoal => false,
        IntegrationStage::FenceBeforeProof => false,
        IntegrationStage::FetchProven => false,
        IntegrationStage::ResolveProven => false,
        IntegrationStage::ProveEvidence => false,
        IntegrationStage::FenceAfterProof => false,
        IntegrationStage::FindRemote => false,
        IntegrationStage::Recover => false,
        IntegrationStage::Integrated => false,
        IntegrationStage::Failed => false,
        _ => true,
    }
}

spec fn past_branch_fetch(stage: IntegrationStage) -> bool {
    past_remote(stage) && stage != IntegrationStage::FenceBeforeBranchFetch && stage
        != IntegrationStage::FetchBranch
}

spec fn past_published(stage: IntegrationStage) -> bool {
    past_branch_fetch(stage) && stage != IntegrationStage::FenceBeforeBranch && stage
        != IntegrationStage::EnsureBranch && stage != IntegrationStage::ResolvePublished
}

spec fn past_target_fetch(stage: IntegrationStage) -> bool {
    past_published(stage) && stage != IntegrationStage::FenceBeforeTargetFetch && stage
        != IntegrationStage::FetchTarget
}

spec fn recovers(stage: IntegrationStage) -> bool {
    match stage {
        IntegrationStage::FenceBeforeRecoverySwitch => true,
        IntegrationStage::SwitchForRecovery => true,
        IntegrationStage::FenceBeforeFastForward => true,
        IntegrationStage::FastForward => true,
        _ => false,
    }
}

spec fn records(stage: IntegrationStage) -> bool {
    match stage {
        IntegrationStage::FenceBeforeEvidence => true,
        IntegrationStage::PersistEvidence => true,
        IntegrationStage::AdvanceFence => true,
        _ => false,
    }
}

spec fn merges(stage: IntegrationStage) -> bool {
    match stage {
        IntegrationStage::ResolveRemoteTarget => true,
        IntegrationStage::ResolveLocalTarget => true,
        IntegrationStage::ProveSynchronized => true,
        IntegrationStage::FenceBeforeSynchronization => true,
        IntegrationStage::Synchronize => true,
        _ => integrates(stage),
    }
}

spec fn integrates(stage: IntegrationStage) -> bool {
    match stage {
        IntegrationStage::ResolveCurrentTarget => true,
        IntegrationStage::ProveMerged => true,
        IntegrationStage::FenceBeforeMerge => true,
        IntegrationStage::Merge => true,
        _ => publishes(stage),
    }
}

spec fn publishes(stage: IntegrationStage) -> bool {
    match stage {
        IntegrationStage::ResolveMerged => true,
        IntegrationStage::FenceBeforePush => true,
        IntegrationStage::Push => true,
        _ => false,
    }
}

spec fn based(stage: IntegrationStage) -> bool {
    stage == IntegrationStage::FenceBeforeSwitch || stage == IntegrationStage::Switch || merges(
        stage,
    )
}

spec fn own_evidence_rests(
    run: crate::merging::integration::RunView,
    known: Learned,
    e: crate::merging::IntegrationView,
) -> bool {
    let published = published_name(run.remote, run.target_branch);
    &&& e.candidate_commit == run.candidate
    &&& e.target_branch == run.target_branch
    &&& e.remote == run.remote
    &&& known.on == Some(run.target_branch)
    &&& e.merge.ok
    &&& known.remote == Some(e.pushed)
    &&& candidate_published(known, run.remote, run.branch, run.candidate)
    &&& ({
        ||| known.forwarded == Some((run.remote, run.target_branch)) && known.fetched.contains(
            (run.remote, run.target_branch),
        ) && known.resolved.contains((published, e.target_commit)) && known.ancestors.contains(
            (run.candidate, e.target_commit),
        ) && e.pushed
        ||| known.tip == Some((run.target_branch, e.target_commit)) && target_holds(
            known,
            run.target_branch,
            run.candidate,
        ) && candidate_current(known, run.target_branch, run.base_commit, run.candidate) && (
        e.pushed ==> known.pushed == Some((run.remote, run.target_branch)) && synchronized(
            known,
            run.remote,
            run.target_branch,
        ))
    })
}

spec fn proof_name(e: crate::merging::IntegrationView) -> Seq<char> {
    if e.pushed { published_name(e.remote, e.target_branch) } else { e.target_branch }
}

spec fn proven(known: Learned, e: crate::merging::IntegrationView) -> bool {
    known_to_hold(known, proof_name(e), e.candidate_commit) && (e.pushed
        ==> known.fetched.contains((e.remote, e.target_branch)))
}

spec fn informed(run: crate::merging::integration::RunView, known: Learned) -> bool {
    let stage = run.stage;
    let published = published_name(run.remote, run.target_branch);
    &&& past_remote(stage) ==> known.remote == Some(run.remote_configured)
    &&& past_branch_fetch(stage) && run.remote_configured ==> known.fetched.contains(
        (run.remote, run.branch),
    )
    &&& past_published(stage) ==> candidate_published(
        known,
        run.remote,
        run.branch,
        run.candidate,
    )
    &&& past_target_fetch(stage) && run.remote_configured ==> known.fetched.contains(
        (run.remote, run.target_branch),
    )
    &&& stage == IntegrationStage::ProvePublished || recovers(stage) ==> known.resolved.contains(
        (published, run.commit),
    ) && run.remote_configured
    &&& recovers(stage) ==> known.ancestors.contains((run.candidate, run.commit))
    &&& stage == IntegrationStage::FenceBeforeFastForward || stage == IntegrationStage::FastForward
        ==> known.on == Some(run.target_branch)
    &&& stage == IntegrationStage::ProveBase || stage == IntegrationStage::ResolveStaleTarget
        || stage == IntegrationStage::ProveStaleTarget ==> known.resolved.contains(
        (run.candidate, run.candidate),
    )
    &&& stage == IntegrationStage::ProveStaleTarget || stage == IntegrationStage::ProveMerged
        || stage == IntegrationStage::ProveSynchronized ==> known.resolved.contains(
        (run.target_branch, run.commit),
    )
    &&& based(stage) ==> candidate_current(
        known,
        run.target_branch,
        run.base_commit,
        run.candidate,
    )
    &&& merges(stage) ==> known.on == Some(run.target_branch)
    &&& stage == IntegrationStage::ResolveLocalTarget || stage
        == IntegrationStage::ProveSynchronized || stage
        == IntegrationStage::FenceBeforeSynchronization || stage == IntegrationStage::Synchronize
        ==> known.resolved.contains((published, run.remote_target))
    &&& merges(stage) && !integrates(stage) ==> run.remote_configured
    &&& crate::merging::integration::needs_remote(stage) ==> run.remote_configured
    &&& integrates(stage) && run.remote_configured ==> synchronized(
        known,
        run.remote,
        run.target_branch,
    )
    &&& publishes(stage) ==> target_holds(known, run.target_branch, run.candidate) && run.merge.ok
    &&& stage == IntegrationStage::FenceBeforePush || stage == IntegrationStage::Push
        ==> known.tip == Some((run.target_branch, run.commit)) && run.remote_configured
    &&& records(stage) ==> run.evidence is Some && own_evidence_rests(
        run,
        known,
        run.evidence->0,
    )
    &&& stage == IntegrationStage::AdvanceFence ==> known.recorded == Some(run.revision)
    &&& stage == IntegrationStage::FenceBeforeProof || stage == IntegrationStage::FetchProven
        || stage == IntegrationStage::ResolveProven || stage == IntegrationStage::ProveEvidence
        || stage == IntegrationStage::FenceAfterProof ==> run.evidence is Some
    &&& stage == IntegrationStage::ResolveProven || stage == IntegrationStage::ProveEvidence
        ==> (run.evidence->0.pushed ==> known.fetched.contains(
        (run.evidence->0.remote, run.evidence->0.target_branch),
    ))
    &&& stage == IntegrationStage::ProveEvidence ==> known.resolved.contains(
        (proof_name(run.evidence->0), run.commit),
    )
    &&& stage == IntegrationStage::FenceAfterProof ==> proven(known, run.evidence->0)
    &&& stage == IntegrationStage::Integrated ==> run.evidence is Some && (proven(
        known,
        run.evidence->0,
    ) || (own_evidence_rests(run, known, run.evidence->0) && known.recorded is Some
        && known.advanced == known.recorded))
}

proof fn knowledge_grows(known: Learned, action: crate::merging::integration::ActionView, event: IntegrationEvent)
    ensures
        known.fetched.subset_of(learn(known, action, event).fetched),
        known.resolved.subset_of(learn(known, action, event).resolved),
        known.ancestors.subset_of(learn(known, action, event).ancestors),
        known.merged.subset_of(learn(known, action, event).merged),
        forall|name: Seq<char>, commit: Seq<char>| #[trigger]
            known_to_hold(known, name, commit) ==> known_to_hold(
                learn(known, action, event),
                name,
                commit,
            ),
        forall|target: Seq<char>, commit: Seq<char>| #[trigger]
            target_holds(known, target, commit) ==> target_holds(
                learn(known, action, event),
                target,
                commit,
            ),
        forall|remote: Seq<char>, target: Seq<char>| #[trigger]
            synchronized(known, remote, target) ==> synchronized(
                learn(known, action, event),
                remote,
                target,
            ),
{
    let after = learn(known, action, event);
    assert forall|name: Seq<char>, commit: Seq<char>| #[trigger]
        known_to_hold(known, name, commit) implies known_to_hold(after, name, commit) by {
        if !known.resolved.contains((name, commit)) {
            let tip = choose|tip: Seq<char>|
                known.resolved.contains((name, tip)) && #[trigger] known.ancestors.contains(
                    (commit, tip),
                );
            assert(after.ancestors.contains((commit, tip)));
        }
    }
    assert forall|remote: Seq<char>, target: Seq<char>| #[trigger]
        synchronized(known, remote, target) implies synchronized(after, remote, target) by {
        let commit = choose|commit: Seq<char>|
            #[trigger] known.resolved.contains((published_name(remote, target), commit))
                && target_holds(known, target, commit);
        assert(after.resolved.contains((published_name(remote, target), commit)));
        assert(target_holds(after, target, commit));
    }
}

proof fn an_ancestor_is_held(known: Learned, name: Seq<char>, tip: Seq<char>, commit: Seq<char>)
    requires
        known.resolved.contains((name, tip)),
        known.ancestors.contains((commit, tip)),
    ensures
        known_to_hold(known, name, commit),
{
}

proof fn a_held_tip_synchronizes(
    known: Learned,
    remote: Seq<char>,
    target: Seq<char>,
    commit: Seq<char>,
)
    requires
        known.fetched.contains((remote, target)),
        known.resolved.contains((published_name(remote, target), commit)),
        target_holds(known, target, commit),
    ensures
        synchronized(known, remote, target),
{
}

#[verifier::rlimit(60)]
proof fn merges_stay_informed(
    run: crate::merging::integration::RunView,
    known: Learned,
    event: IntegrationEvent,
    now: Seq<char>,
)
    requires
        informed(run, known),
    ensures
        informed(
            crate::merging::integration::next_run(run, event, now),
            learn(known, crate::merging::integration::action_of(run), event),
        ),
{
    let action = crate::merging::integration::action_of(run);
    let after = learn(known, action, event);
    let next = crate::merging::integration::next_run(run, event, now);
    knowledge_grows(known, action, event);
    match (run.stage, event) {
        (IntegrationStage::ProveSynchronized, IntegrationEvent::Answer(true)) => {
            an_ancestor_is_held(after, run.target_branch, run.commit, run.remote_target);
            a_held_tip_synchronizes(after, run.remote, run.target_branch, run.remote_target);
        },
        (IntegrationStage::ResolveLocalTarget, IntegrationEvent::Commit(c)) => {
            if c@ == run.remote_target {
                a_held_tip_synchronizes(after, run.remote, run.target_branch, run.remote_target);
            }
        },
        (IntegrationStage::Synchronize, IntegrationEvent::Merged(m)) => {
            if m.ok {
                a_held_tip_synchronizes(after, run.remote, run.target_branch, run.remote_target);
            }
        },
        (IntegrationStage::ProveMerged, IntegrationEvent::Answer(true)) => {
            an_ancestor_is_held(after, run.target_branch, run.commit, run.candidate);
        },
        (IntegrationStage::ProveStaleTarget, IntegrationEvent::Answer(true)) => {
            an_ancestor_is_held(after, run.target_branch, run.commit, run.candidate);
        },
        (IntegrationStage::ProveEvidence, IntegrationEvent::Answer(true)) => {
            an_ancestor_is_held(
                after,
                proof_name(run.evidence->0),
                run.commit,
                run.evidence->0.candidate_commit,
            );
        },
        _ => {},
    }
}

proof fn played_merges_are_informed(
    goal_id: Seq<char>,
    round_idx: usize,
    node_id: Seq<char>,
    branch: Seq<char>,
    candidate: Seq<char>,
    remote: Seq<char>,
    answers: Seq<(IntegrationEvent, Seq<char>)>,
)
    ensures
        ({
            let start = crate::merging::integration::fresh_run(
                goal_id,
                round_idx,
                node_id,
                branch,
                candidate,
                remote,
            );
            let (run, known) = played(start, answers);
            &&& informed(run, known)
            &&& run.candidate == candidate
            &&& run.branch == branch
            &&& run.remote == remote
        }),
    decreases answers.len(),
{
    if answers.len() > 0 {
        let start = crate::merging::integration::fresh_run(
            goal_id,
            round_idx,
            node_id,
            branch,
            candidate,
            remote,
        );
        played_merges_are_informed(
            goal_id,
            round_idx,
            node_id,
            branch,
            candidate,
            remote,
            answers.drop_last(),
        );
        let (run, known) = played(start, answers.drop_last());
        let (event, now) = answers.last();
        merges_stay_informed(run, known, event, now);
    }
}

/// Nothing is merged or pushed before the target is up to date. Whatever Git
/// answers: a merge asks for a merge of nothing but its candidate and the tip
/// of the fetched remote target. It asks to merge the candidate only on the
/// checked out target branch, and to push only that branch, and where a remote
/// is configured it does either only once the target holds what the fetched
/// remote target resolved to.
pub proof fn the_target_is_synchronized_before_it_changes(
    goal_id: Seq<char>,
    round_idx: usize,
    node_id: Seq<char>,
    branch: Seq<char>,
    candidate: Seq<char>,
    remote: Seq<char>,
    answers: Seq<(IntegrationEvent, Seq<char>)>,
)
    ensures
        ({
            let start = crate::merging::integration::fresh_run(
                goal_id,
                round_idx,
                node_id,
                branch,
                candidate,
                remote,
            );
            let (run, known) = played(start, answers);
            let target = run.target_branch;
            match crate::merging::integration::action_of(run) {
                crate::merging::integration::ActionView::Merge(commit) => {
                    &&& known.on == Some(target)
                    &&& known.remote is Some
                    &&& candidate_published(known, remote, branch, candidate)
                    &&& candidate_current(known, target, run.base_commit, candidate)
                    &&& ({
                        ||| commit == candidate && (known.remote == Some(true) ==> synchronized(
                            known,
                            remote,
                            target,
                        ))
                        ||| known.resolved.contains((published_name(remote, target), commit))
                            && known.fetched.contains((remote, target))
                    })
                },
                crate::merging::integration::ActionView::Push(to, pushed) => {
                    &&& to == remote
                    &&& pushed == target
                    &&& known.on == Some(target)
                    &&& known.remote == Some(true)
                    &&& synchronized(known, remote, target)
                    &&& target_holds(known, target, candidate)
                    &&& candidate_published(known, remote, branch, candidate)
                    &&& candidate_current(known, target, run.base_commit, candidate)
                },
                _ => true,
            }
        }),
{
    played_merges_are_informed(goal_id, round_idx, node_id, branch, candidate, remote, answers);
}

/// Evidence is recorded only of a merge that took place: the target holds the
/// candidate, and the evidence names the commit that the target resolved to
/// last. It says that it was pushed exactly where a remote is configured, and
/// then the target was pushed, or the fetched remote target already held the
/// candidate and the target was fast-forwarded to it.
pub proof fn evidence_tells_what_took_place(
    goal_id: Seq<char>,
    round_idx: usize,
    node_id: Seq<char>,
    branch: Seq<char>,
    candidate: Seq<char>,
    remote: Seq<char>,
    answers: Seq<(IntegrationEvent, Seq<char>)>,
)
    ensures
        ({
            let start = crate::merging::integration::fresh_run(
                goal_id,
                round_idx,
                node_id,
                branch,
                candidate,
                remote,
            );
            let (run, known) = played(start, answers);
            let target = run.target_branch;
            crate::merging::integration::action_of(run)
                == crate::merging::integration::ActionView::PersistEvidence ==> {
                &&& run.evidence is Some
                &&& run.evidence->0.candidate_commit == candidate
                &&& run.evidence->0.target_branch == target
                &&& run.evidence->0.remote == remote
                &&& run.evidence->0.merge.ok
                &&& known.remote == Some(run.evidence->0.pushed)
                &&& candidate_published(known, remote, branch, candidate)
                &&& ({
                    ||| run.evidence->0.pushed && known.forwarded == Some((remote, target))
                        && known.fetched.contains((remote, target)) && known.resolved.contains(
                        (published_name(remote, target), run.evidence->0.target_commit),
                    ) && known.ancestors.contains((candidate, run.evidence->0.target_commit))
                    ||| known.tip == Some((target, run.evidence->0.target_commit)) && target_holds(
                        known,
                        target,
                        candidate,
                    ) && candidate_current(known, target, run.base_commit, candidate) && (
                    run.evidence->0.pushed ==> known.pushed == Some((remote, target))
                        && synchronized(known, remote, target))
                })
            }
        }),
{
    played_merges_are_informed(goal_id, round_idx, node_id, branch, candidate, remote, answers);
}

/// A merge is complete only with evidence that was recorded and whose revision
/// the fence was moved to, or with recorded evidence whose candidate the branch
/// it names was seen to hold.
pub proof fn completed_merges_are_proven(
    goal_id: Seq<char>,
    round_idx: usize,
    node_id: Seq<char>,
    branch: Seq<char>,
    candidate: Seq<char>,
    remote: Seq<char>,
    answers: Seq<(IntegrationEvent, Seq<char>)>,
)
    ensures
        ({
            let start = crate::merging::integration::fresh_run(
                goal_id,
                round_idx,
                node_id,
                branch,
                candidate,
                remote,
            );
            let (run, known) = played(start, answers);
            run.stage == IntegrationStage::Integrated ==> run.evidence is Some && ({
                let e = run.evidence->0;
                ||| known.recorded is Some && known.advanced == known.recorded
                    && e.candidate_commit == candidate && e.remote == remote
                ||| e.pushed && known.fetched.contains((e.remote, e.target_branch))
                    && known_to_hold(
                    known,
                    published_name(e.remote, e.target_branch),
                    e.candidate_commit,
                )
                ||| !e.pushed && known_to_hold(known, e.target_branch, e.candidate_commit)
            })
        }),
{
    played_merges_are_informed(goal_id, round_idx, node_id, branch, candidate, remote, answers);
}

/// A merge asks for an action.
#[verifier::opaque]
pub open spec fn asks(run: crate::merging::integration::RunView, action: crate::merging::integration::ActionView) -> bool {
    crate::merging::integration::action_of(run) == action
}

/// A merge leads to another by an answer.
#[verifier::opaque]
pub open spec fn leads(
    run: crate::merging::integration::RunView,
    event: IntegrationEvent,
    now: Seq<char>,
    next: crate::merging::integration::RunView,
) -> bool {
    next == crate::merging::integration::next_run(run, event, now)
}

proof fn asked(run: crate::merging::integration::RunView, action: crate::merging::integration::ActionView)
    requires
        crate::merging::integration::action_of(run) == action,
    ensures
        asks(run, action),
{
    reveal(asks);
}

proof fn step_found(
    run: crate::merging::integration::RunView,
    next: crate::merging::integration::RunView,
    now: Seq<char>,
)
    requires
        run.stage == IntegrationStage::FindRemote,
        leads(run, IntegrationEvent::Answer(true), now, next),
    ensures
        asks(run, crate::merging::integration::ActionView::FindRemote(run.remote)),
        next == (crate::merging::integration::RunView { remote_configured: true, stage: IntegrationStage::FenceBeforeBranchFetch, ..run }),
{
    reveal(asks);
    reveal(leads);
}

proof fn step_not_found(
    run: crate::merging::integration::RunView,
    next: crate::merging::integration::RunView,
    now: Seq<char>,
)
    requires
        run.stage == IntegrationStage::FindRemote,
        leads(run, IntegrationEvent::Answer(false), now, next),
    ensures
        asks(run, crate::merging::integration::ActionView::FindRemote(run.remote)),
        next == (crate::merging::integration::RunView { remote_configured: false, stage: IntegrationStage::ResolveCandidate, ..run }),
{
    reveal(asks);
    reveal(leads);
}

proof fn step_f_branchfetch(
    run: crate::merging::integration::RunView,
    next: crate::merging::integration::RunView,
    now: Seq<char>,
)
    requires
        run.stage == IntegrationStage::FenceBeforeBranchFetch,
        leads(run, IntegrationEvent::Done, now, next),
    ensures
        asks(run, crate::merging::integration::ActionView::VerifyFence),
        next == (crate::merging::integration::RunView { stage: IntegrationStage::FetchBranch, ..run }),
{
    reveal(asks);
    reveal(leads);
}

proof fn step_branch_fetched(
    run: crate::merging::integration::RunView,
    next: crate::merging::integration::RunView,
    now: Seq<char>,
)
    requires
        run.stage == IntegrationStage::FetchBranch,
        leads(run, IntegrationEvent::Done, now, next),
    ensures
        asks(run, crate::merging::integration::ActionView::Fetch(run.remote, run.branch)),
        next == (crate::merging::integration::RunView { stage: IntegrationStage::FenceBeforeBranch, ..run }),
{
    reveal(asks);
    reveal(leads);
}

proof fn step_f_branch(
    run: crate::merging::integration::RunView,
    next: crate::merging::integration::RunView,
    now: Seq<char>,
)
    requires
        run.stage == IntegrationStage::FenceBeforeBranch,
        leads(run, IntegrationEvent::Done, now, next),
    ensures
        asks(run, crate::merging::integration::ActionView::VerifyFence),
        next == (crate::merging::integration::RunView { stage: IntegrationStage::EnsureBranch, ..run }),
{
    reveal(asks);
    reveal(leads);
}

proof fn step_branch_ensured(
    run: crate::merging::integration::RunView,
    next: crate::merging::integration::RunView,
    now: Seq<char>,
)
    requires
        run.stage == IntegrationStage::EnsureBranch,
        leads(run, IntegrationEvent::Done, now, next),
    ensures
        asks(run, crate::merging::integration::ActionView::EnsureBranch(run.remote, run.branch)),
        next == (crate::merging::integration::RunView { stage: IntegrationStage::ResolvePublished, ..run }),
{
    reveal(asks);
    reveal(leads);
}

proof fn step_published(
    run: crate::merging::integration::RunView,
    next: crate::merging::integration::RunView,
    now: Seq<char>,
    commit: String,
)
    requires
        run.stage == IntegrationStage::ResolvePublished,
        commit@ == run.candidate,
        leads(run, IntegrationEvent::Commit(commit), now, next),
    ensures
        asks(run, crate::merging::integration::ActionView::Resolve(published_name(run.remote, run.branch))),
        next == (crate::merging::integration::RunView { stage: IntegrationStage::FenceBeforeTargetFetch, ..run }),
{
    reveal(asks);
    reveal(leads);
}

proof fn step_f_targetfetch(
    run: crate::merging::integration::RunView,
    next: crate::merging::integration::RunView,
    now: Seq<char>,
)
    requires
        run.stage == IntegrationStage::FenceBeforeTargetFetch,
        leads(run, IntegrationEvent::Done, now, next),
    ensures
        asks(run, crate::merging::integration::ActionView::VerifyFence),
        next == (crate::merging::integration::RunView { stage: IntegrationStage::FetchTarget, ..run }),
{
    reveal(asks);
    reveal(leads);
}

proof fn step_target_fetched(
    run: crate::merging::integration::RunView,
    next: crate::merging::integration::RunView,
    now: Seq<char>,
)
    requires
        run.stage == IntegrationStage::FetchTarget,
        leads(run, IntegrationEvent::Done, now, next),
    ensures
        asks(run, crate::merging::integration::ActionView::Fetch(run.remote, run.target_branch)),
        next == (crate::merging::integration::RunView { stage: IntegrationStage::ResolvePublishedTarget, ..run }),
{
    reveal(asks);
    reveal(leads);
}

proof fn step_published_target(
    run: crate::merging::integration::RunView,
    next: crate::merging::integration::RunView,
    now: Seq<char>,
    commit: String,
)
    requires
        run.stage == IntegrationStage::ResolvePublishedTarget,
        leads(run, IntegrationEvent::Commit(commit), now, next),
    ensures
        asks(run, crate::merging::integration::ActionView::Resolve(published_name(run.remote, run.target_branch))),
        next == (crate::merging::integration::RunView { commit: commit@, stage: IntegrationStage::ProvePublished, ..run }),
{
    reveal(asks);
    reveal(leads);
}

proof fn step_pub_yes(
    run: crate::merging::integration::RunView,
    next: crate::merging::integration::RunView,
    now: Seq<char>,
)
    requires
        run.stage == IntegrationStage::ProvePublished,
        leads(run, IntegrationEvent::Answer(true), now, next),
    ensures
        asks(run, crate::merging::integration::ActionView::IsAncestor(run.candidate, run.commit)),
        next == (crate::merging::integration::RunView { stage: IntegrationStage::FenceBeforeRecoverySwitch, ..run }),
{
    reveal(asks);
    reveal(leads);
}

proof fn step_pub_no(
    run: crate::merging::integration::RunView,
    next: crate::merging::integration::RunView,
    now: Seq<char>,
)
    requires
        run.stage == IntegrationStage::ProvePublished,
        leads(run, IntegrationEvent::Answer(false), now, next),
    ensures
        asks(run, crate::merging::integration::ActionView::IsAncestor(run.candidate, run.commit)),
        next == (crate::merging::integration::RunView { stage: IntegrationStage::ResolveCandidate, ..run }),
{
    reveal(asks);
    reveal(leads);
}

proof fn step_f_recswitch(
    run: crate::merging::integration::RunView,
    next: crate::merging::integration::RunView,
    now: Seq<char>,
)
    requires
        run.stage == IntegrationStage::FenceBeforeRecoverySwitch,
        leads(run, IntegrationEvent::Done, now, next),
    ensures
        asks(run, crate::merging::integration::ActionView::VerifyFence),
        next == (crate::merging::integration::RunView { stage: IntegrationStage::SwitchForRecovery, ..run }),
{
    reveal(asks);
    reveal(leads);
}

proof fn step_rec_switched(
    run: crate::merging::integration::RunView,
    next: crate::merging::integration::RunView,
    now: Seq<char>,
)
    requires
        run.stage == IntegrationStage::SwitchForRecovery,
        leads(run, IntegrationEvent::Done, now, next),
    ensures
        asks(run, crate::merging::integration::ActionView::Switch(run.target_branch)),
        next == (crate::merging::integration::RunView { stage: IntegrationStage::FenceBeforeFastForward, ..run }),
{
    reveal(asks);
    reveal(leads);
}

proof fn step_f_ff(
    run: crate::merging::integration::RunView,
    next: crate::merging::integration::RunView,
    now: Seq<char>,
)
    requires
        run.stage == IntegrationStage::FenceBeforeFastForward,
        leads(run, IntegrationEvent::Done, now, next),
    ensures
        asks(run, crate::merging::integration::ActionView::VerifyFence),
        next == (crate::merging::integration::RunView { stage: IntegrationStage::FastForward, ..run }),
{
    reveal(asks);
    reveal(leads);
}

proof fn step_forwarded(
    run: crate::merging::integration::RunView,
    next: crate::merging::integration::RunView,
    now: Seq<char>,
)
    requires
        run.stage == IntegrationStage::FastForward,
        leads(run, IntegrationEvent::Done, now, next),
    ensures
        asks(run, crate::merging::integration::ActionView::FastForward(run.remote, run.target_branch)),
        next.merge.ok,
        next.merge.conflicts.len() == 0,
        next == (crate::merging::integration::RunView { stage: IntegrationStage::FenceBeforeEvidence, merge: next.merge, evidence: Some(crate::merging::IntegrationView { candidate_commit: run.candidate, target_branch: run.target_branch, target_commit: run.commit, remote: run.remote, pushed: true, integrated_at: now, merge: next.merge }), ..run }),
{
    reveal(asks);
    reveal(leads);
}

proof fn step_f_evidence(
    run: crate::merging::integration::RunView,
    next: crate::merging::integration::RunView,
    now: Seq<char>,
)
    requires
        run.stage == IntegrationStage::FenceBeforeEvidence,
        leads(run, IntegrationEvent::Done, now, next),
    ensures
        asks(run, crate::merging::integration::ActionView::VerifyFence),
        next == (crate::merging::integration::RunView { stage: IntegrationStage::PersistEvidence, ..run }),
{
    reveal(asks);
    reveal(leads);
}

proof fn step_persisted(
    run: crate::merging::integration::RunView,
    next: crate::merging::integration::RunView,
    now: Seq<char>,
    revision: u64,
)
    requires
        run.stage == IntegrationStage::PersistEvidence,
        leads(run, IntegrationEvent::Persisted(revision), now, next),
    ensures
        asks(run, crate::merging::integration::ActionView::PersistEvidence),
        next == (crate::merging::integration::RunView { revision: revision, stage: IntegrationStage::AdvanceFence, ..run }),
{
    reveal(asks);
    reveal(leads);
}

proof fn step_advanced(
    run: crate::merging::integration::RunView,
    next: crate::merging::integration::RunView,
    now: Seq<char>,
)
    requires
        run.stage == IntegrationStage::AdvanceFence,
        leads(run, IntegrationEvent::Done, now, next),
    ensures
        asks(run, crate::merging::integration::ActionView::AdvanceFence(run.revision)),
        next == (crate::merging::integration::RunView { stage: IntegrationStage::Integrated, ..run }),
{
    reveal(asks);
    reveal(leads);
}

proof fn step_candidate(
    run: crate::merging::integration::RunView,
    next: crate::merging::integration::RunView,
    now: Seq<char>,
    commit: String,
)
    requires
        run.stage == IntegrationStage::ResolveCandidate,
        commit@ == run.candidate,
        leads(run, IntegrationEvent::Commit(commit), now, next),
    ensures
        asks(run, crate::merging::integration::ActionView::Resolve(run.candidate)),
        next == (crate::merging::integration::RunView { stage: IntegrationStage::ProveBase, ..run }),
{
    reveal(asks);
    reveal(leads);
}

proof fn step_base_yes(
    run: crate::merging::integration::RunView,
    next: crate::merging::integration::RunView,
    now: Seq<char>,
)
    requires
        run.stage == IntegrationStage::ProveBase,
        leads(run, IntegrationEvent::Answer(true), now, next),
    ensures
        asks(run, crate::merging::integration::ActionView::IsAncestor(run.base_commit, run.candidate)),
        next == (crate::merging::integration::RunView { stage: IntegrationStage::FenceBeforeSwitch, ..run }),
{
    reveal(asks);
    reveal(leads);
}

proof fn step_base_no(
    run: crate::merging::integration::RunView,
    next: crate::merging::integration::RunView,
    now: Seq<char>,
)
    requires
        run.stage == IntegrationStage::ProveBase,
        leads(run, IntegrationEvent::Answer(false), now, next),
    ensures
        asks(run, crate::merging::integration::ActionView::IsAncestor(run.base_commit, run.candidate)),
        next == (crate::merging::integration::RunView { stage: IntegrationStage::ResolveStaleTarget, ..run }),
{
    reveal(asks);
    reveal(leads);
}

proof fn step_stale_target(
    run: crate::merging::integration::RunView,
    next: crate::merging::integration::RunView,
    now: Seq<char>,
    commit: String,
)
    requires
        run.stage == IntegrationStage::ResolveStaleTarget,
        leads(run, IntegrationEvent::Commit(commit), now, next),
    ensures
        asks(run, crate::merging::integration::ActionView::Resolve(run.target_branch)),
        next == (crate::merging::integration::RunView { commit: commit@, stage: IntegrationStage::ProveStaleTarget, ..run }),
{
    reveal(asks);
    reveal(leads);
}

proof fn step_stale_yes(
    run: crate::merging::integration::RunView,
    next: crate::merging::integration::RunView,
    now: Seq<char>,
)
    requires
        run.stage == IntegrationStage::ProveStaleTarget,
        leads(run, IntegrationEvent::Answer(true), now, next),
    ensures
        asks(run, crate::merging::integration::ActionView::IsAncestor(run.candidate, run.commit)),
        next == (crate::merging::integration::RunView { stage: IntegrationStage::FenceBeforeSwitch, ..run }),
{
    reveal(asks);
    reveal(leads);
}

proof fn step_stale_no(
    run: crate::merging::integration::RunView,
    next: crate::merging::integration::RunView,
    now: Seq<char>,
)
    requires
        run.stage == IntegrationStage::ProveStaleTarget,
        leads(run, IntegrationEvent::Answer(false), now, next),
    ensures
        asks(run, crate::merging::integration::ActionView::IsAncestor(run.candidate, run.commit)),
        next == (crate::merging::integration::RunView { stage: IntegrationStage::Failed, error: Some(crate::errors::ErrorView::StaleCandidate { candidate_commit: run.candidate, recorded_base: run.base_commit, target_branch: run.target_branch, target_commit: run.commit }), ..run }),
{
    reveal(asks);
    reveal(leads);
}

proof fn step_f_switch(
    run: crate::merging::integration::RunView,
    next: crate::merging::integration::RunView,
    now: Seq<char>,
)
    requires
        run.stage == IntegrationStage::FenceBeforeSwitch,
        leads(run, IntegrationEvent::Done, now, next),
    ensures
        asks(run, crate::merging::integration::ActionView::VerifyFence),
        next == (crate::merging::integration::RunView { stage: IntegrationStage::Switch, ..run }),
{
    reveal(asks);
    reveal(leads);
}

proof fn step_switched_remote(
    run: crate::merging::integration::RunView,
    next: crate::merging::integration::RunView,
    now: Seq<char>,
)
    requires
        run.stage == IntegrationStage::Switch,
        run.remote_configured,
        leads(run, IntegrationEvent::Done, now, next),
    ensures
        asks(run, crate::merging::integration::ActionView::Switch(run.target_branch)),
        next == (crate::merging::integration::RunView { stage: IntegrationStage::ResolveRemoteTarget, ..run }),
{
    reveal(asks);
    reveal(leads);
}

proof fn step_switched_local(
    run: crate::merging::integration::RunView,
    next: crate::merging::integration::RunView,
    now: Seq<char>,
)
    requires
        run.stage == IntegrationStage::Switch,
        !run.remote_configured,
        leads(run, IntegrationEvent::Done, now, next),
    ensures
        asks(run, crate::merging::integration::ActionView::Switch(run.target_branch)),
        next == (crate::merging::integration::RunView { stage: IntegrationStage::ResolveCurrentTarget, ..run }),
{
    reveal(asks);
    reveal(leads);
}

proof fn step_theirs(
    run: crate::merging::integration::RunView,
    next: crate::merging::integration::RunView,
    now: Seq<char>,
    commit: String,
)
    requires
        run.stage == IntegrationStage::ResolveRemoteTarget,
        leads(run, IntegrationEvent::Commit(commit), now, next),
    ensures
        asks(run, crate::merging::integration::ActionView::Resolve(published_name(run.remote, run.target_branch))),
        next == (crate::merging::integration::RunView { remote_target: commit@, stage: IntegrationStage::ResolveLocalTarget, ..run }),
{
    reveal(asks);
    reveal(leads);
}

proof fn step_ours_differ(
    run: crate::merging::integration::RunView,
    next: crate::merging::integration::RunView,
    now: Seq<char>,
    commit: String,
)
    requires
        run.stage == IntegrationStage::ResolveLocalTarget,
        commit@ != run.remote_target,
        leads(run, IntegrationEvent::Commit(commit), now, next),
    ensures
        asks(run, crate::merging::integration::ActionView::Resolve(run.target_branch)),
        next == (crate::merging::integration::RunView { commit: commit@, stage: IntegrationStage::ProveSynchronized, ..run }),
{
    reveal(asks);
    reveal(leads);
}

proof fn step_ours_same(
    run: crate::merging::integration::RunView,
    next: crate::merging::integration::RunView,
    now: Seq<char>,
    commit: String,
)
    requires
        run.stage == IntegrationStage::ResolveLocalTarget,
        commit@ == run.remote_target,
        leads(run, IntegrationEvent::Commit(commit), now, next),
    ensures
        asks(run, crate::merging::integration::ActionView::Resolve(run.target_branch)),
        next == (crate::merging::integration::RunView { stage: IntegrationStage::ResolveCurrentTarget, ..run }),
{
    reveal(asks);
    reveal(leads);
}

proof fn step_sync_yes(
    run: crate::merging::integration::RunView,
    next: crate::merging::integration::RunView,
    now: Seq<char>,
)
    requires
        run.stage == IntegrationStage::ProveSynchronized,
        leads(run, IntegrationEvent::Answer(true), now, next),
    ensures
        asks(run, crate::merging::integration::ActionView::IsAncestor(run.remote_target, run.commit)),
        next == (crate::merging::integration::RunView { stage: IntegrationStage::ResolveCurrentTarget, ..run }),
{
    reveal(asks);
    reveal(leads);
}

proof fn step_sync_no(
    run: crate::merging::integration::RunView,
    next: crate::merging::integration::RunView,
    now: Seq<char>,
)
    requires
        run.stage == IntegrationStage::ProveSynchronized,
        leads(run, IntegrationEvent::Answer(false), now, next),
    ensures
        asks(run, crate::merging::integration::ActionView::IsAncestor(run.remote_target, run.commit)),
        next == (crate::merging::integration::RunView { stage: IntegrationStage::FenceBeforeSynchronization, ..run }),
{
    reveal(asks);
    reveal(leads);
}

proof fn step_f_sync(
    run: crate::merging::integration::RunView,
    next: crate::merging::integration::RunView,
    now: Seq<char>,
)
    requires
        run.stage == IntegrationStage::FenceBeforeSynchronization,
        leads(run, IntegrationEvent::Done, now, next),
    ensures
        asks(run, crate::merging::integration::ActionView::VerifyFence),
        next == (crate::merging::integration::RunView { stage: IntegrationStage::Synchronize, ..run }),
{
    reveal(asks);
    reveal(leads);
}

proof fn step_synced(
    run: crate::merging::integration::RunView,
    next: crate::merging::integration::RunView,
    now: Seq<char>,
    result: MergeResult,
)
    requires
        run.stage == IntegrationStage::Synchronize,
        result.ok,
        leads(run, IntegrationEvent::Merged(result), now, next),
    ensures
        asks(run, crate::merging::integration::ActionView::Merge(run.remote_target)),
        next == (crate::merging::integration::RunView { stage: IntegrationStage::ResolveCurrentTarget, ..run }),
{
    reveal(asks);
    reveal(leads);
}

proof fn step_current(
    run: crate::merging::integration::RunView,
    next: crate::merging::integration::RunView,
    now: Seq<char>,
    commit: String,
)
    requires
        run.stage == IntegrationStage::ResolveCurrentTarget,
        leads(run, IntegrationEvent::Commit(commit), now, next),
    ensures
        asks(run, crate::merging::integration::ActionView::Resolve(run.target_branch)),
        next == (crate::merging::integration::RunView { commit: commit@, stage: IntegrationStage::ProveMerged, ..run }),
{
    reveal(asks);
    reveal(leads);
}

proof fn step_merged_no(
    run: crate::merging::integration::RunView,
    next: crate::merging::integration::RunView,
    now: Seq<char>,
)
    requires
        run.stage == IntegrationStage::ProveMerged,
        leads(run, IntegrationEvent::Answer(false), now, next),
    ensures
        asks(run, crate::merging::integration::ActionView::IsAncestor(run.candidate, run.commit)),
        next == (crate::merging::integration::RunView { stage: IntegrationStage::FenceBeforeMerge, ..run }),
{
    reveal(asks);
    reveal(leads);
}

proof fn step_merged_yes(
    run: crate::merging::integration::RunView,
    next: crate::merging::integration::RunView,
    now: Seq<char>,
)
    requires
        run.stage == IntegrationStage::ProveMerged,
        leads(run, IntegrationEvent::Answer(true), now, next),
    ensures
        asks(run, crate::merging::integration::ActionView::IsAncestor(run.candidate, run.commit)),
        next.stage == IntegrationStage::ResolveMerged,
        next.merge.ok,
        next.merge.conflicts.len() == 0,
        next == (crate::merging::integration::RunView { stage: next.stage, merge: next.merge, ..run }),
{
    reveal(asks);
    reveal(leads);
}

proof fn step_f_merge(
    run: crate::merging::integration::RunView,
    next: crate::merging::integration::RunView,
    now: Seq<char>,
)
    requires
        run.stage == IntegrationStage::FenceBeforeMerge,
        leads(run, IntegrationEvent::Done, now, next),
    ensures
        asks(run, crate::merging::integration::ActionView::VerifyFence),
        next == (crate::merging::integration::RunView { stage: IntegrationStage::Merge, ..run }),
{
    reveal(asks);
    reveal(leads);
}

proof fn step_merged(
    run: crate::merging::integration::RunView,
    next: crate::merging::integration::RunView,
    now: Seq<char>,
    result: MergeResult,
)
    requires
        run.stage == IntegrationStage::Merge,
        result.ok,
        leads(run, IntegrationEvent::Merged(result), now, next),
    ensures
        asks(run, crate::merging::integration::ActionView::Merge(run.candidate)),
        next == (crate::merging::integration::RunView { merge: result@, stage: IntegrationStage::ResolveMerged, ..run }),
{
    reveal(asks);
    reveal(leads);
}

proof fn step_after_remote(
    run: crate::merging::integration::RunView,
    next: crate::merging::integration::RunView,
    now: Seq<char>,
    commit: String,
)
    requires
        run.stage == IntegrationStage::ResolveMerged,
        run.remote_configured,
        leads(run, IntegrationEvent::Commit(commit), now, next),
    ensures
        asks(run, crate::merging::integration::ActionView::Resolve(run.target_branch)),
        next == (crate::merging::integration::RunView { commit: commit@, stage: IntegrationStage::FenceBeforePush, ..run }),
{
    reveal(asks);
    reveal(leads);
}

proof fn step_after_local(
    run: crate::merging::integration::RunView,
    next: crate::merging::integration::RunView,
    now: Seq<char>,
    commit: String,
)
    requires
        run.stage == IntegrationStage::ResolveMerged,
        !run.remote_configured,
        leads(run, IntegrationEvent::Commit(commit), now, next),
    ensures
        asks(run, crate::merging::integration::ActionView::Resolve(run.target_branch)),
        next == (crate::merging::integration::RunView { commit: commit@, stage: IntegrationStage::FenceBeforeEvidence, evidence: Some(crate::merging::IntegrationView { candidate_commit: run.candidate, target_branch: run.target_branch, target_commit: commit@, remote: run.remote, pushed: false, integrated_at: now, merge: run.merge }), ..run }),
{
    reveal(asks);
    reveal(leads);
}

proof fn step_f_push(
    run: crate::merging::integration::RunView,
    next: crate::merging::integration::RunView,
    now: Seq<char>,
)
    requires
        run.stage == IntegrationStage::FenceBeforePush,
        leads(run, IntegrationEvent::Done, now, next),
    ensures
        asks(run, crate::merging::integration::ActionView::VerifyFence),
        next == (crate::merging::integration::RunView { stage: IntegrationStage::Push, ..run }),
{
    reveal(asks);
    reveal(leads);
}

proof fn step_pushed(
    run: crate::merging::integration::RunView,
    next: crate::merging::integration::RunView,
    now: Seq<char>,
)
    requires
        run.stage == IntegrationStage::Push,
        leads(run, IntegrationEvent::Done, now, next),
    ensures
        asks(run, crate::merging::integration::ActionView::Push(run.remote, run.target_branch)),
        next == (crate::merging::integration::RunView { stage: IntegrationStage::FenceBeforeEvidence, evidence: Some(crate::merging::IntegrationView { candidate_commit: run.candidate, target_branch: run.target_branch, target_commit: run.commit, remote: run.remote, pushed: true, integrated_at: now, merge: run.merge }), ..run }),
{
    reveal(asks);
    reveal(leads);
}

proof fn step_f_proof_pushed(
    run: crate::merging::integration::RunView,
    next: crate::merging::integration::RunView,
    now: Seq<char>,
)
    requires
        run.stage == IntegrationStage::FenceBeforeProof,
        run.evidence is Some,
        run.evidence->0.pushed,
        leads(run, IntegrationEvent::Done, now, next),
    ensures
        asks(run, crate::merging::integration::ActionView::VerifyFence),
        next == (crate::merging::integration::RunView { stage: IntegrationStage::FetchProven, ..run }),
{
    reveal(asks);
    reveal(leads);
}

proof fn step_f_proof_local(
    run: crate::merging::integration::RunView,
    next: crate::merging::integration::RunView,
    now: Seq<char>,
)
    requires
        run.stage == IntegrationStage::FenceBeforeProof,
        run.evidence is Some,
        !run.evidence->0.pushed,
        leads(run, IntegrationEvent::Done, now, next),
    ensures
        asks(run, crate::merging::integration::ActionView::VerifyFence),
        next == (crate::merging::integration::RunView { stage: IntegrationStage::ResolveProven, ..run }),
{
    reveal(asks);
    reveal(leads);
}

proof fn step_proven_fetched(
    run: crate::merging::integration::RunView,
    next: crate::merging::integration::RunView,
    now: Seq<char>,
)
    requires
        run.stage == IntegrationStage::FetchProven,
        run.evidence is Some,
        leads(run, IntegrationEvent::Done, now, next),
    ensures
        asks(run, crate::merging::integration::ActionView::Fetch(run.evidence->0.remote, run.evidence->0.target_branch)),
        next == (crate::merging::integration::RunView { stage: IntegrationStage::ResolveProven, ..run }),
{
    reveal(asks);
    reveal(leads);
}

proof fn step_proven_pushed(
    run: crate::merging::integration::RunView,
    next: crate::merging::integration::RunView,
    now: Seq<char>,
    commit: String,
)
    requires
        run.stage == IntegrationStage::ResolveProven,
        run.evidence is Some,
        run.evidence->0.pushed,
        leads(run, IntegrationEvent::Commit(commit), now, next),
    ensures
        asks(run, crate::merging::integration::ActionView::Resolve(published_name(run.evidence->0.remote, run.evidence->0.target_branch))),
        next == (crate::merging::integration::RunView { commit: commit@, stage: IntegrationStage::ProveEvidence, ..run }),
{
    reveal(asks);
    reveal(leads);
}

proof fn step_proven_local(
    run: crate::merging::integration::RunView,
    next: crate::merging::integration::RunView,
    now: Seq<char>,
    commit: String,
)
    requires
        run.stage == IntegrationStage::ResolveProven,
        run.evidence is Some,
        !run.evidence->0.pushed,
        leads(run, IntegrationEvent::Commit(commit), now, next),
    ensures
        asks(run, crate::merging::integration::ActionView::Resolve(run.evidence->0.target_branch)),
        next == (crate::merging::integration::RunView { commit: commit@, stage: IntegrationStage::ProveEvidence, ..run }),
{
    reveal(asks);
    reveal(leads);
}

proof fn step_proof_yes(
    run: crate::merging::integration::RunView,
    next: crate::merging::integration::RunView,
    now: Seq<char>,
)
    requires
        run.stage == IntegrationStage::ProveEvidence,
        run.evidence is Some,
        leads(run, IntegrationEvent::Answer(true), now, next),
    ensures
        asks(run, crate::merging::integration::ActionView::IsAncestor(run.evidence->0.candidate_commit, run.commit)),
        next == (crate::merging::integration::RunView { stage: IntegrationStage::FenceAfterProof, ..run }),
{
    reveal(asks);
    reveal(leads);
}

proof fn step_f_afterproof(
    run: crate::merging::integration::RunView,
    next: crate::merging::integration::RunView,
    now: Seq<char>,
)
    requires
        run.stage == IntegrationStage::FenceAfterProof,
        leads(run, IntegrationEvent::Done, now, next),
    ensures
        asks(run, crate::merging::integration::ActionView::VerifyFence),
        next == (crate::merging::integration::RunView { stage: IntegrationStage::Integrated, ..run }),
{
    reveal(asks);
    reveal(leads);
}

/// Where a remote is configured, the candidate's branch and then the target are
/// fetched, and the published branch has to be the candidate; then it is asked
/// whether the published target already holds it.
pub proof fn a_published_candidate_is_checked_first(
    runs: Seq<crate::merging::integration::RunView>,
    now: Seq<char>,
    published: String,
    target: String,
)
    requires
        runs.len() == 10,
        runs[0].stage == IntegrationStage::FindRemote,
        published@ == runs[0].candidate,
        leads(runs[0], IntegrationEvent::Answer(true), now, runs[1]),
        leads(runs[1], IntegrationEvent::Done, now, runs[2]),
        leads(runs[2], IntegrationEvent::Done, now, runs[3]),
        leads(runs[3], IntegrationEvent::Done, now, runs[4]),
        leads(runs[4], IntegrationEvent::Done, now, runs[5]),
        leads(runs[5], IntegrationEvent::Commit(published), now, runs[6]),
        leads(runs[6], IntegrationEvent::Done, now, runs[7]),
        leads(runs[7], IntegrationEvent::Done, now, runs[8]),
        leads(runs[8], IntegrationEvent::Commit(target), now, runs[9]),
    ensures
        asks(runs[0], crate::merging::integration::ActionView::FindRemote(runs[0].remote)),
        asks(runs[1], crate::merging::integration::ActionView::VerifyFence),
        asks(runs[2], crate::merging::integration::ActionView::Fetch(runs[0].remote, runs[0].branch)),
        asks(runs[3], crate::merging::integration::ActionView::VerifyFence),
        asks(runs[4], crate::merging::integration::ActionView::EnsureBranch(runs[0].remote, runs[0].branch)),
        asks(runs[5], crate::merging::integration::ActionView::Resolve(published_name(runs[0].remote, runs[0].branch))),
        asks(runs[6], crate::merging::integration::ActionView::VerifyFence),
        asks(runs[7], crate::merging::integration::ActionView::Fetch(runs[0].remote, runs[0].target_branch)),
        asks(runs[8], crate::merging::integration::ActionView::Resolve(published_name(runs[0].remote, runs[0].target_branch))),
        asks(runs[9], crate::merging::integration::ActionView::IsAncestor(runs[0].candidate, target@)),
        runs[9].remote_configured,
        runs[9].stage == IntegrationStage::ProvePublished,
        runs[9].error == runs[0].error,
{
    step_found(runs[0], runs[1], now);
    step_f_branchfetch(runs[1], runs[2], now);
    step_branch_fetched(runs[2], runs[3], now);
    step_f_branch(runs[3], runs[4], now);
    step_branch_ensured(runs[4], runs[5], now);
    step_published(runs[5], runs[6], now, published);
    step_f_targetfetch(runs[6], runs[7], now);
    step_target_fetched(runs[7], runs[8], now);
    step_published_target(runs[8], runs[9], now, target);
    asked(runs[9], crate::merging::integration::ActionView::IsAncestor(runs[0].candidate, target@));
}

/// Where the published target already holds the candidate, nothing is merged: the
/// target is checked out and fast-forwarded, and the evidence names the published
/// commit.
pub proof fn a_published_merge_is_taken_over(
    runs: Seq<crate::merging::integration::RunView>,
    now: Seq<char>,
    revision: u64,
)
    requires
        runs.len() == 9,
        runs[0].stage == IntegrationStage::ProvePublished,
        leads(runs[0], IntegrationEvent::Answer(true), now, runs[1]),
        leads(runs[1], IntegrationEvent::Done, now, runs[2]),
        leads(runs[2], IntegrationEvent::Done, now, runs[3]),
        leads(runs[3], IntegrationEvent::Done, now, runs[4]),
        leads(runs[4], IntegrationEvent::Done, now, runs[5]),
        leads(runs[5], IntegrationEvent::Done, now, runs[6]),
        leads(runs[6], IntegrationEvent::Persisted(revision), now, runs[7]),
        leads(runs[7], IntegrationEvent::Done, now, runs[8]),
    ensures
        asks(runs[0], crate::merging::integration::ActionView::IsAncestor(runs[0].candidate, runs[0].commit)),
        asks(runs[1], crate::merging::integration::ActionView::VerifyFence),
        asks(runs[2], crate::merging::integration::ActionView::Switch(runs[0].target_branch)),
        asks(runs[3], crate::merging::integration::ActionView::VerifyFence),
        asks(runs[4], crate::merging::integration::ActionView::FastForward(runs[0].remote, runs[0].target_branch)),
        asks(runs[5], crate::merging::integration::ActionView::VerifyFence),
        asks(runs[6], crate::merging::integration::ActionView::PersistEvidence),
        asks(runs[7], crate::merging::integration::ActionView::AdvanceFence(revision)),
        runs[8].stage == IntegrationStage::Integrated,
        runs[8].error == runs[0].error,
        runs[8].evidence is Some,
        runs[8].evidence->0.candidate_commit == runs[0].candidate,
        runs[8].evidence->0.target_branch == runs[0].target_branch,
        runs[8].evidence->0.target_commit == runs[0].commit,
        runs[8].evidence->0.remote == runs[0].remote,
        runs[8].evidence->0.pushed,
        runs[8].evidence->0.merge.ok,
        runs[8].evidence->0.merge.conflicts.len() == 0,
        runs[8].evidence->0.integrated_at == now,
{
    step_pub_yes(runs[0], runs[1], now);
    step_f_recswitch(runs[1], runs[2], now);
    step_rec_switched(runs[2], runs[3], now);
    step_f_ff(runs[3], runs[4], now);
    step_forwarded(runs[4], runs[5], now);
    step_f_evidence(runs[5], runs[6], now);
    step_persisted(runs[6], runs[7], now, revision);
    step_advanced(runs[7], runs[8], now);
}

/// Where the published target does not hold the candidate, the candidate is
/// resolved next.
pub proof fn an_unpublished_candidate_is_resolved(
    runs: Seq<crate::merging::integration::RunView>,
    now: Seq<char>,
)
    requires
        runs.len() == 2,
        runs[0].stage == IntegrationStage::ProvePublished,
        leads(runs[0], IntegrationEvent::Answer(false), now, runs[1]),
    ensures
        asks(runs[0], crate::merging::integration::ActionView::IsAncestor(runs[0].candidate, runs[0].commit)),
        asks(runs[1], crate::merging::integration::ActionView::Resolve(runs[0].candidate)),
        runs[1].stage == IntegrationStage::ResolveCandidate,
        runs[1].error == runs[0].error,
        runs[1].remote_configured == runs[0].remote_configured,
{
    step_pub_no(runs[0], runs[1], now);
    asked(runs[1], crate::merging::integration::ActionView::Resolve(runs[0].candidate));
}

/// Where no remote is configured, the candidate is resolved at once.
pub proof fn without_a_remote_nothing_is_fetched(
    runs: Seq<crate::merging::integration::RunView>,
    now: Seq<char>,
)
    requires
        runs.len() == 2,
        runs[0].stage == IntegrationStage::FindRemote,
        leads(runs[0], IntegrationEvent::Answer(false), now, runs[1]),
    ensures
        asks(runs[0], crate::merging::integration::ActionView::FindRemote(runs[0].remote)),
        asks(runs[1], crate::merging::integration::ActionView::Resolve(runs[0].candidate)),
        runs[1].stage == IntegrationStage::ResolveCandidate,
        !runs[1].remote_configured,
        runs[1].error == runs[0].error,
{
    step_not_found(runs[0], runs[1], now);
    asked(runs[1], crate::merging::integration::ActionView::Resolve(runs[0].candidate));
}

/// A candidate that rests on its base leads to the target being checked out.
pub proof fn a_candidate_on_its_base_is_switched_to(
    runs: Seq<crate::merging::integration::RunView>,
    now: Seq<char>,
    candidate: String,
)
    requires
        runs.len() == 4,
        runs[0].stage == IntegrationStage::ResolveCandidate,
        candidate@ == runs[0].candidate,
        leads(runs[0], IntegrationEvent::Commit(candidate), now, runs[1]),
        leads(runs[1], IntegrationEvent::Answer(true), now, runs[2]),
        leads(runs[2], IntegrationEvent::Done, now, runs[3]),
    ensures
        asks(runs[0], crate::merging::integration::ActionView::Resolve(runs[0].candidate)),
        asks(runs[1], crate::merging::integration::ActionView::IsAncestor(runs[0].base_commit, runs[0].candidate)),
        asks(runs[2], crate::merging::integration::ActionView::VerifyFence),
        asks(runs[3], crate::merging::integration::ActionView::Switch(runs[0].target_branch)),
        runs[3].stage == IntegrationStage::Switch,
        runs[3].error == runs[0].error,
        runs[3].remote_configured == runs[0].remote_configured,
{
    step_candidate(runs[0], runs[1], now, candidate);
    step_base_yes(runs[1], runs[2], now);
    step_f_switch(runs[2], runs[3], now);
    asked(runs[3], crate::merging::integration::ActionView::Switch(runs[0].target_branch));
}

/// A candidate that does not rest on its base is looked for in the local target;
/// where that holds it the target is checked out.
pub proof fn a_candidate_off_its_base_may_be_in_its_target(
    runs: Seq<crate::merging::integration::RunView>,
    now: Seq<char>,
    candidate: String,
    target: String,
)
    requires
        runs.len() == 6,
        runs[0].stage == IntegrationStage::ResolveCandidate,
        candidate@ == runs[0].candidate,
        leads(runs[0], IntegrationEvent::Commit(candidate), now, runs[1]),
        leads(runs[1], IntegrationEvent::Answer(false), now, runs[2]),
        leads(runs[2], IntegrationEvent::Commit(target), now, runs[3]),
        leads(runs[3], IntegrationEvent::Answer(true), now, runs[4]),
        leads(runs[4], IntegrationEvent::Done, now, runs[5]),
    ensures
        asks(runs[0], crate::merging::integration::ActionView::Resolve(runs[0].candidate)),
        asks(runs[1], crate::merging::integration::ActionView::IsAncestor(runs[0].base_commit, runs[0].candidate)),
        asks(runs[2], crate::merging::integration::ActionView::Resolve(runs[0].target_branch)),
        asks(runs[3], crate::merging::integration::ActionView::IsAncestor(runs[0].candidate, target@)),
        asks(runs[4], crate::merging::integration::ActionView::VerifyFence),
        asks(runs[5], crate::merging::integration::ActionView::Switch(runs[0].target_branch)),
        runs[5].stage == IntegrationStage::Switch,
        runs[5].error == runs[0].error,
        runs[5].remote_configured == runs[0].remote_configured,
{
    step_candidate(runs[0], runs[1], now, candidate);
    step_base_no(runs[1], runs[2], now);
    step_stale_target(runs[2], runs[3], now, target);
    step_stale_yes(runs[3], runs[4], now);
    step_f_switch(runs[4], runs[5], now);
    asked(runs[5], crate::merging::integration::ActionView::Switch(runs[0].target_branch));
}

/// A candidate that neither rests on its base nor is in the local target is
/// stale.
pub proof fn a_candidate_that_is_nowhere_is_stale(
    runs: Seq<crate::merging::integration::RunView>,
    now: Seq<char>,
    candidate: String,
    target: String,
)
    requires
        runs.len() == 5,
        runs[0].stage == IntegrationStage::ResolveCandidate,
        candidate@ == runs[0].candidate,
        leads(runs[0], IntegrationEvent::Commit(candidate), now, runs[1]),
        leads(runs[1], IntegrationEvent::Answer(false), now, runs[2]),
        leads(runs[2], IntegrationEvent::Commit(target), now, runs[3]),
        leads(runs[3], IntegrationEvent::Answer(false), now, runs[4]),
    ensures
        asks(runs[0], crate::merging::integration::ActionView::Resolve(runs[0].candidate)),
        asks(runs[1], crate::merging::integration::ActionView::IsAncestor(runs[0].base_commit, runs[0].candidate)),
        asks(runs[2], crate::merging::integration::ActionView::Resolve(runs[0].target_branch)),
        asks(runs[3], crate::merging::integration::ActionView::IsAncestor(runs[0].candidate, target@)),
        asks(runs[4], crate::merging::integration::ActionView::Finished),
        runs[4].stage == IntegrationStage::Failed,
        runs[4].error == Some(crate::errors::ErrorView::StaleCandidate { candidate_commit: runs[0].candidate, recorded_base: runs[0].base_commit, target_branch: runs[0].target_branch, target_commit: target@ }),
{
    step_candidate(runs[0], runs[1], now, candidate);
    step_base_no(runs[1], runs[2], now);
    step_stale_target(runs[2], runs[3], now, target);
    step_stale_no(runs[3], runs[4], now);
    asked(runs[4], crate::merging::integration::ActionView::Finished);
}

/// A checked out target that does not hold the remote's commit gets it merged in
/// first, behind a fence, and only then is it asked whether the candidate is there.
pub proof fn a_target_behind_its_remote_is_merged_first(
    runs: Seq<crate::merging::integration::RunView>,
    now: Seq<char>,
    theirs: String,
    ours: String,
    result: MergeResult,
    current: String,
)
    requires
        runs.len() == 8,
        runs[0].stage == IntegrationStage::Switch,
        runs[0].remote_configured,
        theirs@ != ours@,
        result.ok,
        leads(runs[0], IntegrationEvent::Done, now, runs[1]),
        leads(runs[1], IntegrationEvent::Commit(theirs), now, runs[2]),
        leads(runs[2], IntegrationEvent::Commit(ours), now, runs[3]),
        leads(runs[3], IntegrationEvent::Answer(false), now, runs[4]),
        leads(runs[4], IntegrationEvent::Done, now, runs[5]),
        leads(runs[5], IntegrationEvent::Merged(result), now, runs[6]),
        leads(runs[6], IntegrationEvent::Commit(current), now, runs[7]),
    ensures
        asks(runs[0], crate::merging::integration::ActionView::Switch(runs[0].target_branch)),
        asks(runs[1], crate::merging::integration::ActionView::Resolve(published_name(runs[0].remote, runs[0].target_branch))),
        asks(runs[2], crate::merging::integration::ActionView::Resolve(runs[0].target_branch)),
        asks(runs[3], crate::merging::integration::ActionView::IsAncestor(theirs@, ours@)),
        asks(runs[4], crate::merging::integration::ActionView::VerifyFence),
        asks(runs[5], crate::merging::integration::ActionView::Merge(theirs@)),
        asks(runs[6], crate::merging::integration::ActionView::Resolve(runs[0].target_branch)),
        asks(runs[7], crate::merging::integration::ActionView::IsAncestor(runs[0].candidate, current@)),
        runs[7].stage == IntegrationStage::ProveMerged,
        runs[7].error == runs[0].error,
        runs[7].remote_configured == runs[0].remote_configured,
{
    step_switched_remote(runs[0], runs[1], now);
    step_theirs(runs[1], runs[2], now, theirs);
    step_ours_differ(runs[2], runs[3], now, ours);
    step_sync_no(runs[3], runs[4], now);
    step_f_sync(runs[4], runs[5], now);
    step_synced(runs[5], runs[6], now, result);
    step_current(runs[6], runs[7], now, current);
    asked(runs[7], crate::merging::integration::ActionView::IsAncestor(runs[0].candidate, current@));
}

/// A checked out target that holds the remote's commit is not merged into.
pub proof fn a_target_that_holds_its_remote_is_left_alone(
    runs: Seq<crate::merging::integration::RunView>,
    now: Seq<char>,
    theirs: String,
    ours: String,
    current: String,
)
    requires
        runs.len() == 6,
        runs[0].stage == IntegrationStage::Switch,
        runs[0].remote_configured,
        theirs@ != ours@,
        leads(runs[0], IntegrationEvent::Done, now, runs[1]),
        leads(runs[1], IntegrationEvent::Commit(theirs), now, runs[2]),
        leads(runs[2], IntegrationEvent::Commit(ours), now, runs[3]),
        leads(runs[3], IntegrationEvent::Answer(true), now, runs[4]),
        leads(runs[4], IntegrationEvent::Commit(current), now, runs[5]),
    ensures
        asks(runs[0], crate::merging::integration::ActionView::Switch(runs[0].target_branch)),
        asks(runs[1], crate::merging::integration::ActionView::Resolve(published_name(runs[0].remote, runs[0].target_branch))),
        asks(runs[2], crate::merging::integration::ActionView::Resolve(runs[0].target_branch)),
        asks(runs[3], crate::merging::integration::ActionView::IsAncestor(theirs@, ours@)),
        asks(runs[4], crate::merging::integration::ActionView::Resolve(runs[0].target_branch)),
        asks(runs[5], crate::merging::integration::ActionView::IsAncestor(runs[0].candidate, current@)),
        runs[5].stage == IntegrationStage::ProveMerged,
        runs[5].error == runs[0].error,
        runs[5].remote_configured == runs[0].remote_configured,
{
    step_switched_remote(runs[0], runs[1], now);
    step_theirs(runs[1], runs[2], now, theirs);
    step_ours_differ(runs[2], runs[3], now, ours);
    step_sync_yes(runs[3], runs[4], now);
    step_current(runs[4], runs[5], now, current);
    asked(runs[5], crate::merging::integration::ActionView::IsAncestor(runs[0].candidate, current@));
}

/// A checked out target that stands at the remote's commit is not merged into.
pub proof fn a_target_at_its_remote_is_left_alone(
    runs: Seq<crate::merging::integration::RunView>,
    now: Seq<char>,
    theirs: String,
    ours: String,
    current: String,
)
    requires
        runs.len() == 5,
        runs[0].stage == IntegrationStage::Switch,
        runs[0].remote_configured,
        theirs@ == ours@,
        leads(runs[0], IntegrationEvent::Done, now, runs[1]),
        leads(runs[1], IntegrationEvent::Commit(theirs), now, runs[2]),
        leads(runs[2], IntegrationEvent::Commit(ours), now, runs[3]),
        leads(runs[3], IntegrationEvent::Commit(current), now, runs[4]),
    ensures
        asks(runs[0], crate::merging::integration::ActionView::Switch(runs[0].target_branch)),
        asks(runs[1], crate::merging::integration::ActionView::Resolve(published_name(runs[0].remote, runs[0].target_branch))),
        asks(runs[2], crate::merging::integration::ActionView::Resolve(runs[0].target_branch)),
        asks(runs[3], crate::merging::integration::ActionView::Resolve(runs[0].target_branch)),
        asks(runs[4], crate::merging::integration::ActionView::IsAncestor(runs[0].candidate, current@)),
        runs[4].stage == IntegrationStage::ProveMerged,
        runs[4].error == runs[0].error,
        runs[4].remote_configured == runs[0].remote_configured,
{
    step_switched_remote(runs[0], runs[1], now);
    step_theirs(runs[1], runs[2], now, theirs);
    step_ours_same(runs[2], runs[3], now, ours);
    step_current(runs[3], runs[4], now, current);
    asked(runs[4], crate::merging::integration::ActionView::IsAncestor(runs[0].candidate, current@));
}

/// A checked out target without a remote is not merged into.
pub proof fn a_target_without_a_remote_is_left_alone(
    runs: Seq<crate::merging::integration::RunView>,
    now: Seq<char>,
    current: String,
)
    requires
        runs.len() == 3,
        runs[0].stage == IntegrationStage::Switch,
        !runs[0].remote_configured,
        leads(runs[0], IntegrationEvent::Done, now, runs[1]),
        leads(runs[1], IntegrationEvent::Commit(current), now, runs[2]),
    ensures
        asks(runs[0], crate::merging::integration::ActionView::Switch(runs[0].target_branch)),
        asks(runs[1], crate::merging::integration::ActionView::Resolve(runs[0].target_branch)),
        asks(runs[2], crate::merging::integration::ActionView::IsAncestor(runs[0].candidate, current@)),
        runs[2].stage == IntegrationStage::ProveMerged,
        runs[2].error == runs[0].error,
        runs[2].remote_configured == runs[0].remote_configured,
{
    step_switched_local(runs[0], runs[1], now);
    step_current(runs[1], runs[2], now, current);
    asked(runs[2], crate::merging::integration::ActionView::IsAncestor(runs[0].candidate, current@));
}

/// A candidate that the target already holds is not merged again;
/// the target is pushed, and the evidence of it is recorded.
pub proof fn a_held_candidate_is_pushed(
    runs: Seq<crate::merging::integration::RunView>,
    now: Seq<char>,
    merged: String,
    revision: u64,
)
    requires
        runs.len() == 8,
        runs[0].stage == IntegrationStage::ProveMerged,
        runs[0].remote_configured,
        leads(runs[0], IntegrationEvent::Answer(true), now, runs[1]),
        leads(runs[1], IntegrationEvent::Commit(merged), now, runs[2]),
        leads(runs[2], IntegrationEvent::Done, now, runs[3]),
        leads(runs[3], IntegrationEvent::Done, now, runs[4]),
        leads(runs[4], IntegrationEvent::Done, now, runs[5]),
        leads(runs[5], IntegrationEvent::Persisted(revision), now, runs[6]),
        leads(runs[6], IntegrationEvent::Done, now, runs[7]),
    ensures
        asks(runs[0], crate::merging::integration::ActionView::IsAncestor(runs[0].candidate, runs[0].commit)),
        asks(runs[1], crate::merging::integration::ActionView::Resolve(runs[0].target_branch)),
        asks(runs[2], crate::merging::integration::ActionView::VerifyFence),
        asks(runs[3], crate::merging::integration::ActionView::Push(runs[0].remote, runs[0].target_branch)),
        asks(runs[4], crate::merging::integration::ActionView::VerifyFence),
        asks(runs[5], crate::merging::integration::ActionView::PersistEvidence),
        asks(runs[6], crate::merging::integration::ActionView::AdvanceFence(revision)),
        runs[7].stage == IntegrationStage::Integrated,
        runs[7].error == runs[0].error,
        runs[7].evidence is Some,
        runs[7].evidence->0.candidate_commit == runs[0].candidate,
        runs[7].evidence->0.target_branch == runs[0].target_branch,
        runs[7].evidence->0.target_commit == merged@,
        runs[7].evidence->0.remote == runs[0].remote,
        runs[7].evidence->0.pushed,
        runs[7].evidence->0.integrated_at == now,
        runs[7].evidence->0.merge.ok,
        runs[7].evidence->0.merge.conflicts.len() == 0,
{
    step_merged_yes(runs[0], runs[1], now);
    step_after_remote(runs[1], runs[2], now, merged);
    step_f_push(runs[2], runs[3], now);
    step_pushed(runs[3], runs[4], now);
    step_f_evidence(runs[4], runs[5], now);
    step_persisted(runs[5], runs[6], now, revision);
    step_advanced(runs[6], runs[7], now);
}

/// A candidate that the target does not hold is merged behind a fence;
/// the target is pushed, and the evidence of it is recorded.
pub proof fn a_merged_candidate_is_pushed(
    runs: Seq<crate::merging::integration::RunView>,
    now: Seq<char>,
    result: MergeResult,
    merged: String,
    revision: u64,
)
    requires
        runs.len() == 10,
        runs[0].stage == IntegrationStage::ProveMerged,
        runs[0].remote_configured,
        result.ok,
        leads(runs[0], IntegrationEvent::Answer(false), now, runs[1]),
        leads(runs[1], IntegrationEvent::Done, now, runs[2]),
        leads(runs[2], IntegrationEvent::Merged(result), now, runs[3]),
        leads(runs[3], IntegrationEvent::Commit(merged), now, runs[4]),
        leads(runs[4], IntegrationEvent::Done, now, runs[5]),
        leads(runs[5], IntegrationEvent::Done, now, runs[6]),
        leads(runs[6], IntegrationEvent::Done, now, runs[7]),
        leads(runs[7], IntegrationEvent::Persisted(revision), now, runs[8]),
        leads(runs[8], IntegrationEvent::Done, now, runs[9]),
    ensures
        asks(runs[0], crate::merging::integration::ActionView::IsAncestor(runs[0].candidate, runs[0].commit)),
        asks(runs[1], crate::merging::integration::ActionView::VerifyFence),
        asks(runs[2], crate::merging::integration::ActionView::Merge(runs[0].candidate)),
        asks(runs[3], crate::merging::integration::ActionView::Resolve(runs[0].target_branch)),
        asks(runs[4], crate::merging::integration::ActionView::VerifyFence),
        asks(runs[5], crate::merging::integration::ActionView::Push(runs[0].remote, runs[0].target_branch)),
        asks(runs[6], crate::merging::integration::ActionView::VerifyFence),
        asks(runs[7], crate::merging::integration::ActionView::PersistEvidence),
        asks(runs[8], crate::merging::integration::ActionView::AdvanceFence(revision)),
        runs[9].stage == IntegrationStage::Integrated,
        runs[9].error == runs[0].error,
        runs[9].evidence is Some,
        runs[9].evidence->0.candidate_commit == runs[0].candidate,
        runs[9].evidence->0.target_branch == runs[0].target_branch,
        runs[9].evidence->0.target_commit == merged@,
        runs[9].evidence->0.remote == runs[0].remote,
        runs[9].evidence->0.pushed,
        runs[9].evidence->0.integrated_at == now,
        runs[9].evidence->0.merge == result@,
{
    step_merged_no(runs[0], runs[1], now);
    step_f_merge(runs[1], runs[2], now);
    step_merged(runs[2], runs[3], now, result);
    step_after_remote(runs[3], runs[4], now, merged);
    step_f_push(runs[4], runs[5], now);
    step_pushed(runs[5], runs[6], now);
    step_f_evidence(runs[6], runs[7], now);
    step_persisted(runs[7], runs[8], now, revision);
    step_advanced(runs[8], runs[9], now);
}

/// A candidate that the target already holds is not merged again;
/// without a remote nothing is pushed, and the evidence of it is recorded.
pub proof fn a_held_candidate_is_recorded(
    runs: Seq<crate::merging::integration::RunView>,
    now: Seq<char>,
    merged: String,
    revision: u64,
)
    requires
        runs.len() == 6,
        runs[0].stage == IntegrationStage::ProveMerged,
        !runs[0].remote_configured,
        leads(runs[0], IntegrationEvent::Answer(true), now, runs[1]),
        leads(runs[1], IntegrationEvent::Commit(merged), now, runs[2]),
        leads(runs[2], IntegrationEvent::Done, now, runs[3]),
        leads(runs[3], IntegrationEvent::Persisted(revision), now, runs[4]),
        leads(runs[4], IntegrationEvent::Done, now, runs[5]),
    ensures
        asks(runs[0], crate::merging::integration::ActionView::IsAncestor(runs[0].candidate, runs[0].commit)),
        asks(runs[1], crate::merging::integration::ActionView::Resolve(runs[0].target_branch)),
        asks(runs[2], crate::merging::integration::ActionView::VerifyFence),
        asks(runs[3], crate::merging::integration::ActionView::PersistEvidence),
        asks(runs[4], crate::merging::integration::ActionView::AdvanceFence(revision)),
        runs[5].stage == IntegrationStage::Integrated,
        runs[5].error == runs[0].error,
        runs[5].evidence is Some,
        runs[5].evidence->0.candidate_commit == runs[0].candidate,
        runs[5].evidence->0.target_branch == runs[0].target_branch,
        runs[5].evidence->0.target_commit == merged@,
        runs[5].evidence->0.remote == runs[0].remote,
        !runs[5].evidence->0.pushed,
        runs[5].evidence->0.integrated_at == now,
        runs[5].evidence->0.merge.ok,
        runs[5].evidence->0.merge.conflicts.len() == 0,
{
    step_merged_yes(runs[0], runs[1], now);
    step_after_local(runs[1], runs[2], now, merged);
    step_f_evidence(runs[2], runs[3], now);
    step_persisted(runs[3], runs[4], now, revision);
    step_advanced(runs[4], runs[5], now);
}

/// A candidate that the target does not hold is merged behind a fence;
/// without a remote nothing is pushed, and the evidence of it is recorded.
pub proof fn a_merged_candidate_is_recorded(
    runs: Seq<crate::merging::integration::RunView>,
    now: Seq<char>,
    result: MergeResult,
    merged: String,
    revision: u64,
)
    requires
        runs.len() == 8,
        runs[0].stage == IntegrationStage::ProveMerged,
        !runs[0].remote_configured,
        result.ok,
        leads(runs[0], IntegrationEvent::Answer(false), now, runs[1]),
        leads(runs[1], IntegrationEvent::Done, now, runs[2]),
        leads(runs[2], IntegrationEvent::Merged(result), now, runs[3]),
        leads(runs[3], IntegrationEvent::Commit(merged), now, runs[4]),
        leads(runs[4], IntegrationEvent::Done, now, runs[5]),
        leads(runs[5], IntegrationEvent::Persisted(revision), now, runs[6]),
        leads(runs[6], IntegrationEvent::Done, now, runs[7]),
    ensures
        asks(runs[0], crate::merging::integration::ActionView::IsAncestor(runs[0].candidate, runs[0].commit)),
        asks(runs[1], crate::merging::integration::ActionView::VerifyFence),
        asks(runs[2], crate::merging::integration::ActionView::Merge(runs[0].candidate)),
        asks(runs[3], crate::merging::integration::ActionView::Resolve(runs[0].target_branch)),
        asks(runs[4], crate::merging::integration::ActionView::VerifyFence),
        asks(runs[5], crate::merging::integration::ActionView::PersistEvidence),
        asks(runs[6], crate::merging::integration::ActionView::AdvanceFence(revision)),
        runs[7].stage == IntegrationStage::Integrated,
        runs[7].error == runs[0].error,
        runs[7].evidence is Some,
        runs[7].evidence->0.candidate_commit == runs[0].candidate,
        runs[7].evidence->0.target_branch == runs[0].target_branch,
        runs[7].evidence->0.target_commit == merged@,
        runs[7].evidence->0.remote == runs[0].remote,
        !runs[7].evidence->0.pushed,
        runs[7].evidence->0.integrated_at == now,
        runs[7].evidence->0.merge == result@,
{
    step_merged_no(runs[0], runs[1], now);
    step_f_merge(runs[1], runs[2], now);
    step_merged(runs[2], runs[3], now, result);
    step_after_local(runs[3], runs[4], now, merged);
    step_f_evidence(runs[4], runs[5], now);
    step_persisted(runs[5], runs[6], now, revision);
    step_advanced(runs[6], runs[7], now);
}

/// Recorded evidence of a pushed merge is proven against the fetched remote target.
/// Where that holds the candidate the merge is complete with that evidence.
pub proof fn pushed_evidence_is_proven_at_its_remote(
    runs: Seq<crate::merging::integration::RunView>,
    now: Seq<char>,
    tip: String,
)
    requires
        runs.len() == 6,
        runs[0].stage == IntegrationStage::FenceBeforeProof,
        runs[0].evidence is Some,
        runs[0].evidence->0.pushed,
        leads(runs[0], IntegrationEvent::Done, now, runs[1]),
        leads(runs[1], IntegrationEvent::Done, now, runs[2]),
        leads(runs[2], IntegrationEvent::Commit(tip), now, runs[3]),
        leads(runs[3], IntegrationEvent::Answer(true), now, runs[4]),
        leads(runs[4], IntegrationEvent::Done, now, runs[5]),
    ensures
        asks(runs[0], crate::merging::integration::ActionView::VerifyFence),
        asks(runs[1], crate::merging::integration::ActionView::Fetch(runs[0].evidence->0.remote, runs[0].evidence->0.target_branch)),
        asks(runs[2], crate::merging::integration::ActionView::Resolve(published_name(runs[0].evidence->0.remote, runs[0].evidence->0.target_branch))),
        asks(runs[3], crate::merging::integration::ActionView::IsAncestor(runs[0].evidence->0.candidate_commit, tip@)),
        asks(runs[4], crate::merging::integration::ActionView::VerifyFence),
        runs[5].stage == IntegrationStage::Integrated,
        runs[5].evidence == runs[0].evidence,
        runs[5].error == runs[0].error,
{
    step_f_proof_pushed(runs[0], runs[1], now);
    step_proven_fetched(runs[1], runs[2], now);
    step_proven_pushed(runs[2], runs[3], now, tip);
    step_proof_yes(runs[3], runs[4], now);
    step_f_afterproof(runs[4], runs[5], now);
}

/// Recorded evidence of a local merge is proven against the local target.
/// Where that holds the candidate the merge is complete with that evidence.
pub proof fn local_evidence_is_proven_in_its_target(
    runs: Seq<crate::merging::integration::RunView>,
    now: Seq<char>,
    tip: String,
)
    requires
        runs.len() == 5,
        runs[0].stage == IntegrationStage::FenceBeforeProof,
        runs[0].evidence is Some,
        !runs[0].evidence->0.pushed,
        leads(runs[0], IntegrationEvent::Done, now, runs[1]),
        leads(runs[1], IntegrationEvent::Commit(tip), now, runs[2]),
        leads(runs[2], IntegrationEvent::Answer(true), now, runs[3]),
        leads(runs[3], IntegrationEvent::Done, now, runs[4]),
    ensures
        asks(runs[0], crate::merging::integration::ActionView::VerifyFence),
        asks(runs[1], crate::merging::integration::ActionView::Resolve(runs[0].evidence->0.target_branch)),
        asks(runs[2], crate::merging::integration::ActionView::IsAncestor(runs[0].evidence->0.candidate_commit, tip@)),
        asks(runs[3], crate::merging::integration::ActionView::VerifyFence),
        runs[4].stage == IntegrationStage::Integrated,
        runs[4].evidence == runs[0].evidence,
        runs[4].error == runs[0].error,
{
    step_f_proof_local(runs[0], runs[1], now);
    step_proven_local(runs[1], runs[2], now, tip);
    step_proof_yes(runs[2], runs[3], now);
    step_f_afterproof(runs[3], runs[4], now);
}

/// Evidence whose candidate the branch that it names does not hold stops a
/// merge.
pub proof fn unproven_evidence_stops_a_merge(
    run: crate::merging::integration::RunView,
    now: Seq<char>,
)
    requires
        run.stage == IntegrationStage::ProveEvidence,
        run.evidence is Some,
    ensures
        ({
            let next = crate::merging::integration::next_run(run, IntegrationEvent::Answer(false), now);
            next.stage == IntegrationStage::Failed && next.error is Some && next.error->0 is Conflict
        }),
{
}

/// A commit other than the expected one stops a merge.
pub proof fn unexpected_commits_stop_a_merge(
    run: crate::merging::integration::RunView,
    commit: String,
    now: Seq<char>,
)
    requires
        run.stage == IntegrationStage::ResolvePublished || run.stage
            == IntegrationStage::ResolveCandidate,
        commit@ != run.candidate,
    ensures
        ({
            let next = crate::merging::integration::next_run(
                run,
                IntegrationEvent::Commit(commit),
                now,
            );
            next.stage == IntegrationStage::Failed && next.error is Some && next.error->0 is Conflict
        }),
{
}

/// A failed effect ends a merge with its error, and nothing more is asked for.
pub proof fn failed_effects_end_a_merge(
    run: crate::merging::integration::RunView,
    error: crate::errors::RefineError,
    event: IntegrationEvent,
    now: Seq<char>,
)
    requires
        run.stage != IntegrationStage::Integrated,
        run.stage != IntegrationStage::Failed,
        run.stage != IntegrationStage::Recover,
    ensures
        ({
            let next = crate::merging::integration::next_run(
                run,
                IntegrationEvent::Failed(error),
                now,
            );
            &&& next.stage == IntegrationStage::Failed
            &&& next.error == Some(error@)
            &&& crate::merging::integration::action_of(next)
                == crate::merging::integration::ActionView::Finished
            &&& crate::merging::integration::next_run(next, event, now) == next
        }),
{
}

/// A merge that Git refuses is cleaned up, and its message is in the error that
/// the merge ends with.
pub proof fn refused_merges_are_cleaned_up(
    run: crate::merging::integration::RunView,
    result: MergeResult,
    event: IntegrationEvent,
    now: Seq<char>,
)
    requires
        crate::merging::integration::action_of(run) is Merge,
        !result.ok,
    ensures
        ({
            let next = crate::merging::integration::next_run(
                run,
                IntegrationEvent::Merged(result),
                now,
            );
            let after = crate::merging::integration::next_run(next, event, now);
            &&& crate::merging::integration::action_of(next)
                == crate::merging::integration::ActionView::Recover
            &&& after.stage == IntegrationStage::Failed
            &&& after.error is Some
            &&& after.evidence == run.evidence
            &&& crate::merging::integration::action_of(after)
                == crate::merging::integration::ActionView::Finished
        }),
{
}

/// The text that a record holds under a key, without the white space around it.
pub open spec fn text_at(value: crate::json::JsonView, key: Seq<char>) -> Option<Seq<char>> {
    match value {
        crate::json::JsonView::Object(fields) => if fields.contains_key(key) {
            match fields[key] {
                crate::json::JsonView::Text(text) => Some(crate::text::trimmed(text)),
                _ => None,
            }
        } else {
            None
        },
        _ => None,
    }
}

/// A goal goes on to be merged only where it sits on the merge's node, its last
/// round is the merge's, and it records the branch, candidate and remote that
/// the merge expects; a goal without evidence has to be in ready-merge as well.
/// The target and the base are those that it records.
pub proof fn only_the_expected_goal_is_merged(
    run: crate::merging::integration::RunView,
    read: GoalRead,
    now: Seq<char>,
)
    requires
        run.stage == IntegrationStage::ReadGoal,
        crate::merging::integration::next_run(run, IntegrationEvent::Goal(read), now).stage
            != IntegrationStage::Failed,
    ensures
        ({
            let next = crate::merging::integration::next_run(
                run,
                IntegrationEvent::Goal(read),
                now,
            );
            let detail = read.detail@;
            let rounds = detail->Object_0["rounds"@];
            &&& run.node_id == (match read.node_id {
                Some(node) => node@,
                None => "default"@,
            })
            &&& detail is Object && detail->Object_0.contains_key("rounds"@) && rounds is Array
            &&& rounds->Array_0.len() == run.round_idx + 1
            &&& text_at(detail, "branch_name"@) == Some(run.branch)
            &&& text_at(detail, "candidate_commit"@) == Some(run.candidate)
            &&& text_at(rounds->Array_0[run.round_idx as int], "workflow_git_remote"@) == Some(
                run.remote,
            )
            &&& text_at(detail, "target_branch"@) == Some(next.target_branch)
            &&& text_at(detail, "base_commit"@) == Some(next.base_commit)
            &&& match read.evidence {
                EvidenceRead::Recorded(e) => next.evidence == Some(e@)
                    && crate::merging::integration::action_of(next)
                    == crate::merging::integration::ActionView::VerifyFence && next.stage
                    == IntegrationStage::FenceBeforeProof,
                EvidenceRead::Absent => read.status == GoalStatus::ReadyMerge
                    && crate::merging::integration::action_of(next)
                    == crate::merging::integration::ActionView::FindRemote(run.remote),
                EvidenceRead::Unreadable(_) => false,
            }
        }),
{
}

/// A goal that sits on the merge's node and records what the merge expects is
/// not refused.
pub proof fn the_expected_goal_is_merged(
    run: crate::merging::integration::RunView,
    read: GoalRead,
    now: Seq<char>,
    target: Seq<char>,
    base: Seq<char>,
)
    requires
        run.stage == IntegrationStage::ReadGoal,
        read.node_id is Some ==> read.node_id->0@ == run.node_id,
        read.node_id is None ==> run.node_id == "default"@,
        read.detail@ is Object,
        read.detail@->Object_0.contains_key("rounds"@),
        read.detail@->Object_0["rounds"@] is Array,
        read.detail@->Object_0["rounds"@]->Array_0.len() == run.round_idx + 1,
        text_at(read.detail@, "branch_name"@) == Some(run.branch),
        text_at(read.detail@, "candidate_commit"@) == Some(run.candidate),
        text_at(
            read.detail@->Object_0["rounds"@]->Array_0[run.round_idx as int],
            "workflow_git_remote"@,
        ) == Some(run.remote),
        text_at(read.detail@, "target_branch"@) == Some(target),
        text_at(read.detail@, "base_commit"@) == Some(base),
        run.branch.len() > 0,
        run.candidate.len() > 0,
        run.remote.len() > 0,
        target.len() > 0,
        base.len() > 0,
        read.evidence is Recorded || (read.evidence is Absent && read.status
            == GoalStatus::ReadyMerge),
    ensures
        ({
            let next = crate::merging::integration::next_run(
                run,
                IntegrationEvent::Goal(read),
                now,
            );
            next.stage != IntegrationStage::Failed && next.error == run.error
        }),
{
}

} // verus!
