//! Which claim a process works for, and in which order a stop takes effect.
use vstd::prelude::*;

use crate::model::GoalSummaryProjection;
use crate::process_control::ownership::{
    WorkflowClaim, WorkflowClaimState, WorkflowOwnershipPhase,
};
use crate::process_control::protocol::{StopProtocol, StopStage};

verus! {

/// A claim holds its goal.
pub open spec fn holds_its_goal(claim: WorkflowClaim) -> bool {
    claim.state is Claimed || claim.state is Running
}

/// Some claim holds a goal.
pub open spec fn is_held(claims: Seq<WorkflowClaim>, goal: Seq<char>) -> bool {
    exists|i: int|
        0 <= i < claims.len() && (#[trigger] claims[i]).goal_id@ == goal && holds_its_goal(
            claims[i],
        )
}

/// Some claim with another id holds a goal.
pub open spec fn is_held_by_another(
    claims: Seq<WorkflowClaim>,
    goal: Seq<char>,
    id: Seq<char>,
) -> bool {
    exists|i: int|
        0 <= i < claims.len() && (#[trigger] claims[i]).goal_id@ == goal && holds_its_goal(
            claims[i],
        ) && claims[i].claim_id@ != id
}

/// The first claim with an id.
pub open spec fn first_claim(claims: Seq<WorkflowClaim>, id: Seq<char>, at: int) -> bool {
    &&& 0 <= at < claims.len()
    &&& claims[at].claim_id@ == id
    &&& forall|i: int| 0 <= i < at ==> (#[trigger] claims[i]).claim_id@ != id
}

/// A claim is that of an execution.
pub open spec fn runs(claim: WorkflowClaim, execution: Seq<char>) -> bool {
    claim.execution_id is Some && (claim.execution_id->0)@ == execution
}

/// The first claim of an execution.
pub open spec fn first_claim_of(
    claims: Seq<WorkflowClaim>,
    execution: Seq<char>,
    at: int,
) -> bool {
    &&& 0 <= at < claims.len()
    &&& runs(claims[at], execution)
    &&& forall|i: int| 0 <= i < at ==> !runs(#[trigger] claims[i], execution)
}

/// A claim is found under its id where there is one, and it is the first.
pub proof fn claims_are_found_by_id(claims: Seq<WorkflowClaim>, id: Seq<char>)
    ensures
        forall|at: int| #[trigger]
            first_claim(claims, id, at) ==> crate::process_control::ownership::claim_with_id(
                claims,
                id,
            ) == Some(claims[at]),
        crate::process_control::ownership::claim_with_id(claims, id) is Some ==> exists|at: int|
            #[trigger] first_claim(claims, id, at),
    decreases claims.len(),
{
    if claims.len() > 0 {
        let rest = claims.drop_first();
        claims_are_found_by_id(rest, id);
        assert(claims[0] == claims.first());
        assert forall|i: int| 0 < i < claims.len() implies #[trigger] claims[i] == rest[i - 1] by {}
        if claims[0].claim_id@ == id {
            assert(first_claim(claims, id, 0));
            assert forall|at: int| #[trigger] first_claim(claims, id, at) implies at == 0 by {
                if at > 0 {
                    assert(claims[0].claim_id@ != id);
                }
            }
        } else {
            assert forall|at: int| #[trigger]
                first_claim(claims, id, at) implies crate::process_control::ownership::claim_with_id(
                claims,
                id,
            ) == Some(claims[at]) by {
                assert forall|i: int| 0 <= i < at - 1 implies (#[trigger] rest[i]).claim_id@
                    != id by {
                    assert(rest[i] == claims[i + 1]);
                }
                assert(rest[at - 1] == claims[at]);
                assert(first_claim(rest, id, at - 1));
            }
            if crate::process_control::ownership::claim_with_id(rest, id) is Some {
                let at = choose|at: int| #[trigger] first_claim(rest, id, at);
                assert(claims[at + 1] == rest[at]);
                assert(first_claim(claims, id, at + 1));
            }
        }
    }
}

/// A claim is found under its execution where there is one, and it is the
/// first.
pub proof fn claims_are_found_by_execution(claims: Seq<WorkflowClaim>, execution: Seq<char>)
    ensures
        forall|at: int| #[trigger]
            first_claim_of(claims, execution, at)
                ==> crate::process_control::ownership::claim_with_execution(claims, execution)
                == Some(claims[at]),
        crate::process_control::ownership::claim_with_execution(claims, execution) is Some
            ==> exists|at: int| #[trigger] first_claim_of(claims, execution, at),
    decreases claims.len(),
{
    if claims.len() > 0 {
        let rest = claims.drop_first();
        claims_are_found_by_execution(rest, execution);
        assert(claims[0] == claims.first());
        assert forall|i: int| 0 < i < claims.len() implies #[trigger] claims[i] == rest[i - 1] by {}
        if runs(claims[0], execution) {
            assert(first_claim_of(claims, execution, 0));
            assert forall|at: int| #[trigger] first_claim_of(claims, execution, at) implies at
                == 0 by {
                if at > 0 {
                    assert(!runs(claims[0], execution));
                }
            }
        } else {
            assert forall|at: int| #[trigger]
                first_claim_of(
                    claims,
                    execution,
                    at,
                ) implies crate::process_control::ownership::claim_with_execution(claims, execution)
                == Some(claims[at]) by {
                assert forall|i: int| 0 <= i < at - 1 implies !runs(#[trigger] rest[i], execution) by {
                    assert(rest[i] == claims[i + 1]);
                }
                assert(rest[at - 1] == claims[at]);
                assert(first_claim_of(rest, execution, at - 1));
            }
            if crate::process_control::ownership::claim_with_execution(rest, execution) is Some {
                let at = choose|at: int| #[trigger] first_claim_of(rest, execution, at);
                assert(claims[at + 1] == rest[at]);
                assert(first_claim_of(claims, execution, at + 1));
            }
        }
    }
}

/// A goal has an active claim exactly where some claim holds it.
pub proof fn goals_are_held_by_their_claims(claims: Seq<WorkflowClaim>, goal: Seq<char>)
    ensures
        crate::process_control::ownership::claim_holding(claims, goal) is Some == is_held(
            claims,
            goal,
        ),
        crate::process_control::ownership::claim_holding(claims, goal) is Some ==> ({
            let claim = crate::process_control::ownership::claim_holding(claims, goal)->0;
            claims.contains(claim) && claim.goal_id@ == goal && holds_its_goal(claim)
        }),
    decreases claims.len(),
{
    if claims.len() > 0 {
        let rest = claims.drop_first();
        goals_are_held_by_their_claims(rest, goal);
        assert(claims[0] == claims.first());
        assert(claims.contains(claims[0]));
        assert forall|i: int| 0 < i < claims.len() implies #[trigger] claims[i] == rest[i - 1] by {}
        if is_held(rest, goal) {
            let i = choose|i: int|
                0 <= i < rest.len() && (#[trigger] rest[i]).goal_id@ == goal && holds_its_goal(
                    rest[i],
                );
            assert(claims[i + 1] == rest[i]);
            let claim = crate::process_control::ownership::claim_holding(rest, goal)->0;
            let k = rest.index_of(claim);
            assert(claims[k + 1] == claim);
        }
        if is_held(claims, goal) && !(claims[0].goal_id@ == goal && holds_its_goal(claims[0])) {
            let i = choose|i: int|
                0 <= i < claims.len() && (#[trigger] claims[i]).goal_id@ == goal && holds_its_goal(
                    claims[i],
                );
            assert(rest[i - 1] == claims[i]);
        }
    }
}

/// A goal that process control may touch: it is known and not done.
pub open spec fn may_be_touched(
    goals: Map<Seq<char>, GoalSummaryProjection>,
    goal_id: Seq<char>,
) -> bool {
    goals.contains_key(goal_id) && !(goals[goal_id].goal.status is Done)
}

/// The goal is seen as the projection shows it.
pub open spec fn is_seen_as_it_is(
    seen: crate::process_control::ownership::ExpectationView,
    goal: GoalSummaryProjection,
) -> bool {
    seen.status == goal.goal.status && seen.round_count == goal.goal.round_count && seen.updated
        == goal.goal.updated@ && crate::laws::owning::belongs_to_node(
        goal.goal.node_id,
        seen.node_id,
    )
}

/// Process control touches a goal exactly where it is known and not done, and
/// sees it as the projection shows it.
pub proof fn done_goals_are_not_touched(
    goals: Map<Seq<char>, GoalSummaryProjection>,
    goal_id: Seq<char>,
)
    ensures
        ({
            let seen = crate::process_control::ownership::goal_state_outcome(goals, goal_id);
            &&& seen is Ok == may_be_touched(goals, goal_id)
            &&& seen is Ok ==> is_seen_as_it_is(seen->Ok_0, goals[goal_id])
            &&& !goals.contains_key(goal_id) ==> seen->Err_0 is NotFound
            &&& goals.contains_key(goal_id) && goals[goal_id].goal.status is Done
                ==> seen->Err_0 is InvalidInput
        }),
{
}

/// A process that records neither a claim nor an execution.
pub open spec fn records_no_owner(metadata: crate::json::JsonView) -> bool {
    !crate::laws::values::has_key(metadata, "claim_id"@) && !crate::laws::values::has_key(
        metadata,
        "execution_id"@,
    )
}

/// A process without an owner may be stopped exactly where its goal may be
/// touched and no claim holds it.
pub proof fn processes_without_an_owner_give_way(
    goals: Map<Seq<char>, GoalSummaryProjection>,
    claims: Seq<WorkflowClaim>,
    goal_id: Seq<char>,
    process_id: Seq<char>,
    metadata: crate::json::JsonView,
    phase: WorkflowOwnershipPhase,
)
    requires
        records_no_owner(metadata),
    ensures
        ({
            let fence = crate::process_control::ownership::fence_outcome(
                goals,
                claims,
                goal_id,
                process_id,
                metadata,
                phase,
            );
            &&& fence is Ok == (may_be_touched(goals, goal_id) && !is_held(claims, goal_id))
            &&& fence is Ok ==> fence->Ok_0.workflow is None && is_seen_as_it_is(
                fence->Ok_0.goal,
                goals[goal_id],
            )
            &&& may_be_touched(goals, goal_id) && is_held(claims, goal_id)
                ==> fence->Err_0 is Conflict
        }),
{
    goals_are_held_by_their_claims(claims, goal_id);
}

/// A process records its execution and its round.
pub open spec fn records_its_work(metadata: crate::json::JsonView) -> bool {
    crate::laws::values::names_something(metadata, "execution_id"@)
        && crate::laws::values::has_count(metadata, "round_idx"@)
        && metadata->Object_0["round_idx"@]->Number_0->Unsigned_0 <= usize::MAX
}

/// The execution that a process records.
pub open spec fn recorded_execution(metadata: crate::json::JsonView) -> Seq<char> {
    crate::text::trimmed(crate::laws::values::text_of(metadata, "execution_id"@))
}

/// The claim that a process records: the first with the id that it names, or
/// the first of its execution where it names none.
pub open spec fn is_the_recorded_claim(
    claims: Seq<WorkflowClaim>,
    metadata: crate::json::JsonView,
    at: int,
) -> bool {
    if crate::laws::values::names_something(metadata, "claim_id"@) {
        first_claim(
            claims,
            crate::text::trimmed(crate::laws::values::text_of(metadata, "claim_id"@)),
            at,
        )
    } else {
        first_claim_of(claims, recorded_execution(metadata), at)
    }
}

/// A process that records only part of its work is not stopped.
pub proof fn incomplete_owners_are_refused(
    goals: Map<Seq<char>, GoalSummaryProjection>,
    claims: Seq<WorkflowClaim>,
    goal_id: Seq<char>,
    process_id: Seq<char>,
    metadata: crate::json::JsonView,
    phase: WorkflowOwnershipPhase,
)
    requires
        !records_no_owner(metadata),
        may_be_touched(goals, goal_id),
        !records_its_work(metadata) || !(exists|at: int| #[trigger]
            is_the_recorded_claim(claims, metadata, at)),
    ensures
        ({
            let fence = crate::process_control::ownership::fence_outcome(
                goals,
                claims,
                goal_id,
                process_id,
                metadata,
                phase,
            );
            fence is Err && fence->Err_0 is Conflict
        }),
{
    crate::laws::values::named_texts_are_read(metadata, "execution_id"@);
    crate::laws::values::named_texts_are_read(metadata, "claim_id"@);
    if records_its_work(metadata) {
        let execution = recorded_execution(metadata);
        claims_are_found_by_execution(claims, execution);
        if crate::laws::values::names_something(metadata, "claim_id"@) {
            let id = crate::text::trimmed(crate::laws::values::text_of(metadata, "claim_id"@));
            claims_are_found_by_id(claims, id);
            if crate::process_control::ownership::claim_with_id(claims, id) is Some {
                let at = choose|at: int| #[trigger] first_claim(claims, id, at);
                assert(is_the_recorded_claim(claims, metadata, at));
            }
        } else if crate::process_control::ownership::claim_with_execution(
            claims,
            execution,
        ) is Some {
            let at = choose|at: int| #[trigger] first_claim_of(claims, execution, at);
            assert(is_the_recorded_claim(claims, metadata, at));
        }
    }
}

/// A process may be stopped for its goal exactly where its claim is the goal's,
/// is of the recorded execution, meets no other claim on the goal, is running
/// where termination is still ahead and claim and goal are not both cancelled,
/// and the process works on the goal's last round.
pub proof fn only_the_current_owner_is_stopped(
    goals: Map<Seq<char>, GoalSummaryProjection>,
    claims: Seq<WorkflowClaim>,
    goal_id: Seq<char>,
    process_id: Seq<char>,
    metadata: crate::json::JsonView,
    phase: WorkflowOwnershipPhase,
    at: int,
    same: int,
)
    requires
        !records_no_owner(metadata),
        may_be_touched(goals, goal_id),
        records_its_work(metadata),
        is_the_recorded_claim(claims, metadata, at),
        first_claim(claims, claims[at].claim_id@, same),
        goals[goal_id].goal.round_count < usize::MAX,
    ensures
        ({
            let fence = crate::process_control::ownership::fence_outcome(
                goals,
                claims,
                goal_id,
                process_id,
                metadata,
                phase,
            );
            let goal = goals[goal_id].goal;
            let execution = recorded_execution(metadata);
            let round = metadata->Object_0["round_idx"@]->Number_0->Unsigned_0;
            let claim = claims[same];
            let over = claims[at].state is Cancelled && goal.status is Cancelled;
            &&& fence is Ok == (claim.goal_id@ == goal_id && runs(claim, execution)
                && !is_held_by_another(claims, goal_id, claim.claim_id@) && (
            claim.state is Running || phase is BeforeCancellation || over) && goal.round_count
                == round + 1)
            &&& fence is Ok ==> fence->Ok_0.workflow is Some
                && fence->Ok_0.workflow->0.process_id == process_id
                && fence->Ok_0.workflow->0.claim_id == claim.claim_id@
                && fence->Ok_0.workflow->0.execution_id == Some(execution)
                && fence->Ok_0.workflow->0.round_idx == Some(round as usize) && is_seen_as_it_is(
                fence->Ok_0.goal,
                goals[goal_id],
            )
            &&& fence is Err ==> fence->Err_0 is Conflict
        }),
{
    let execution = recorded_execution(metadata);
    crate::laws::values::named_texts_are_read(metadata, "execution_id"@);
    crate::laws::values::named_texts_are_read(metadata, "claim_id"@);
    claims_are_found_by_execution(claims, execution);
    claims_are_found_by_id(claims, claims[at].claim_id@);
    if crate::laws::values::names_something(metadata, "claim_id"@) {
        claims_are_found_by_id(
            claims,
            crate::text::trimmed(crate::laws::values::text_of(metadata, "claim_id"@)),
        );
    }
}

/// One effect where it is asked for.
pub open spec fn step(asked: bool, stage: StopStage) -> Seq<StopStage> {
    if asked {
        seq![stage]
    } else {
        Seq::empty()
    }
}

/// The effects of a stop in their order: every process is terminated, the chat
/// is closed, the operations are cancelled, the chat is closed where it comes
/// after them, the goal or its claim is settled, the operations are confirmed,
/// and every receipt is completed.
pub open spec fn effects(p: StopProtocol) -> Seq<StopStage> {
    Seq::new(p.processes as nat, |i: int| StopStage::Terminate(i as usize)) + step(
        p.chat_first,
        StopStage::CloseChatFirst,
    ) + step(p.operations, StopStage::CancelOperations) + step(p.chat, StopStage::CloseChat)
        + step(p.goal, StopStage::SettleGoal) + step(p.claim && !p.goal, StopStage::SettleClaim)
        + step(p.operations, StopStage::ConfirmOperations) + Seq::new(
        p.receipts as nat,
        |i: int| StopStage::Complete(i as usize),
    ) + seq![StopStage::Succeeded]
}

/// The effect at a position, and the number of effects, success among them.
spec fn effect_at(p: StopProtocol, n: int) -> StopStage {
    let a = p.processes as int;
    let b = a + place(p.chat_first);
    let c = b + place(p.operations);
    let d = c + place(p.chat);
    let e = d + place(p.goal);
    let f = e + place(p.claim && !p.goal);
    let g = f + place(p.operations);
    let h = g + p.receipts;
    if n < a {
        StopStage::Terminate(n as usize)
    } else if n < b {
        StopStage::CloseChatFirst
    } else if n < c {
        StopStage::CancelOperations
    } else if n < d {
        StopStage::CloseChat
    } else if n < e {
        StopStage::SettleGoal
    } else if n < f {
        StopStage::SettleClaim
    } else if n < g {
        StopStage::ConfirmOperations
    } else if n < h {
        StopStage::Complete((n - g) as usize)
    } else {
        StopStage::Succeeded
    }
}

spec fn effect_count(p: StopProtocol) -> int {
    p.processes + place(p.chat_first) + place(p.operations) + place(p.chat) + place(p.goal) + place(
        p.claim && !p.goal,
    ) + place(p.operations) + p.receipts + 1
}

spec fn place(taken: bool) -> int {
    if taken {
        1
    } else {
        0
    }
}

proof fn effects_stand_at_their_positions(p: StopProtocol, n: int)
    requires
        0 <= n < effect_count(p),
    ensures
        effects(p).len() == effect_count(p),
        effects(p)[n] == effect_at(p, n),
{
    let exits = Seq::new(p.processes as nat, |i: int| StopStage::Terminate(i as usize));
    let receipts = Seq::new(p.receipts as nat, |i: int| StopStage::Complete(i as usize));
    let a = exits + step(p.chat_first, StopStage::CloseChatFirst);
    let b = a + step(p.operations, StopStage::CancelOperations);
    let c = b + step(p.chat, StopStage::CloseChat);
    let d = c + step(p.goal, StopStage::SettleGoal);
    let e = d + step(p.claim && !p.goal, StopStage::SettleClaim);
    let f = e + step(p.operations, StopStage::ConfirmOperations);
    let g = f + receipts;
    assert(effects(p) == g + seq![StopStage::Succeeded]);
    assert(a.len() == p.processes + place(p.chat_first));
    assert(b.len() == a.len() + place(p.operations));
    assert(c.len() == b.len() + place(p.chat));
    assert(d.len() == c.len() + place(p.goal));
    assert(e.len() == d.len() + place(p.claim && !p.goal));
    assert(f.len() == e.len() + place(p.operations));
    if n < g.len() {
        assert(effects(p)[n] == g[n]);
        if n < f.len() {
            assert(g[n] == f[n]);
            if n < e.len() {
                assert(f[n] == e[n]);
                if n < d.len() {
                    assert(e[n] == d[n]);
                    if n < c.len() {
                        assert(d[n] == c[n]);
                        if n < b.len() {
                            assert(c[n] == b[n]);
                            if n < a.len() {
                                assert(b[n] == a[n]);
                            }
                        }
                    }
                }
            }
        } else {
            assert(g[n] == receipts[n - f.len()]);
        }
    }
}

proof fn effects_follow_each_other(p: StopProtocol, n: int)
    requires
        0 <= n,
        n + 1 < effect_count(p),
    ensures
        crate::process_control::protocol::following(p, effect_at(p, n), true) == effect_at(
            p,
            n + 1,
        ),
{
}

/// A stop that meets no failure takes its effects in their order, and succeeds
/// after the last.
pub proof fn a_stop_takes_effect_in_order(p: StopProtocol, answers: Seq<bool>)
    requires
        forall|i: int| 0 <= i < answers.len() ==> #[trigger] answers[i],
        answers.len() < effects(p).len(),
    ensures
        crate::process_control::protocol::reached(p, answers) == effects(p)[answers.len() as int],
    decreases answers.len(),
{
    effects_stand_at_their_positions(p, 0);
    effects_stand_at_their_positions(p, answers.len() as int);
    if answers.len() > 0 {
        let before = answers.drop_last();
        assert forall|i: int| 0 <= i < before.len() implies #[trigger] before[i] by {
            assert(before[i] == answers[i]);
        }
        a_stop_takes_effect_in_order(p, before);
        effects_stand_at_their_positions(p, before.len() as int);
        effects_follow_each_other(p, before.len() as int);
        assert(answers[answers.len() - 1]);
    }
}

/// A failed effect is retained where it comes after the exits and there is an
/// outcome to retain, and fails the stop otherwise; retaining goes through
/// every outcome, whatever came of each.
pub proof fn a_failed_effect_fails_the_stop(p: StopProtocol, i: usize, went_well: bool)
    ensures
        ({
            let retained = if p.retained > 0 {
                StopStage::Retain(0)
            } else {
                StopStage::Failed
            };
            let last = i + 1 >= p.retained;
            &&& crate::process_control::protocol::following(p, StopStage::Terminate(i), false)
                == StopStage::Failed
            &&& crate::process_control::protocol::following(p, StopStage::CloseChatFirst, false)
                == StopStage::Failed
            &&& crate::process_control::protocol::following(p, StopStage::CloseChat, false)
                == StopStage::Failed
            &&& crate::process_control::protocol::following(p, StopStage::SettleClaim, false)
                == StopStage::Failed
            &&& crate::process_control::protocol::following(p, StopStage::Complete(i), false)
                == StopStage::Failed
            &&& crate::process_control::protocol::following(p, StopStage::CancelOperations, false)
                == retained
            &&& crate::process_control::protocol::following(p, StopStage::SettleGoal, false)
                == retained
            &&& crate::process_control::protocol::following(p, StopStage::ConfirmOperations, false)
                == retained
            &&& last ==> crate::process_control::protocol::following(
                p,
                StopStage::Retain(i),
                went_well,
            ) == StopStage::Failed
            &&& !last ==> crate::process_control::protocol::following(
                p,
                StopStage::Retain(i),
                went_well,
            ) == StopStage::Retain((i + 1) as usize)
            &&& crate::process_control::protocol::following(p, StopStage::Failed, went_well)
                == StopStage::Failed
            &&& crate::process_control::protocol::following(p, StopStage::Succeeded, went_well)
                == StopStage::Succeeded
        }),
{
}

} // verus!
