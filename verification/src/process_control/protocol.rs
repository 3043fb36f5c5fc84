//! The order of effects in which processes are stopped and their goal is
//! settled.
use vstd::prelude::*;

verus! {

/// Which effects a stop has.
#[derive(Clone, Copy, Debug, PartialEq, Eq, Structural)]
pub struct StopProtocol {
    /// Processes to terminate.
    pub processes: usize,
    /// Whether the chat is closed right after termination.
    pub chat_first: bool,
    /// Whether workflow operations are cancelled around settlement.
    pub operations: bool,
    /// Whether the chat is closed after workflow operations are cancelled.
    pub chat: bool,
    /// Whether a goal is settled.
    pub goal: bool,
    /// Whether a claim is settled on its own.
    pub claim: bool,
    /// Receipts to complete.
    pub receipts: usize,
    /// Outcomes to retain when settlement fails after a confirmed exit.
    pub retained: usize,
}

/// The effect that comes next.
#[derive(Clone, Copy, Debug, PartialEq, Eq, Structural)]
pub enum StopStage {
    Terminate(usize),
    CloseChatFirst,
    CancelOperations,
    CloseChat,
    SettleGoal,
    SettleClaim,
    ConfirmOperations,
    Complete(usize),
    Retain(usize),
    Succeeded,
    Failed,
}

/// What follows once every process is gone.
pub open spec fn after_exits(p: StopProtocol) -> StopStage {
    if p.chat_first { StopStage::CloseChatFirst } else { before_operations(p) }
}

/// Workflow operations, or what comes without them.
pub open spec fn before_operations(p: StopProtocol) -> StopStage {
    if p.operations { StopStage::CancelOperations } else { before_chat(p) }
}

/// Closing the chat, or what comes without it.
pub open spec fn before_chat(p: StopProtocol) -> StopStage {
    if p.chat { StopStage::CloseChat } else { before_settlement(p) }
}

/// Settlement, or what comes without it.
pub open spec fn before_settlement(p: StopProtocol) -> StopStage {
    if p.goal {
        StopStage::SettleGoal
    } else if p.claim {
        StopStage::SettleClaim
    } else {
        after_settlement(p)
    }
}

/// Confirming workflow operations, or what comes without it.
pub open spec fn after_settlement(p: StopProtocol) -> StopStage {
    if p.operations { StopStage::ConfirmOperations } else { before_receipts(p) }
}

/// The first receipt, or success.
pub open spec fn before_receipts(p: StopProtocol) -> StopStage {
    if p.receipts > 0 { StopStage::Complete(0) } else { StopStage::Succeeded }
}

/// A failure after a confirmed exit: retained for every outcome, and failed.
pub open spec fn after_failure(p: StopProtocol) -> StopStage {
    if p.retained > 0 { StopStage::Retain(0) } else { StopStage::Failed }
}

/// The first effect.
pub open spec fn first_stage(p: StopProtocol) -> StopStage {
    if p.processes > 0 { StopStage::Terminate(0) } else { after_exits(p) }
}

/// The effect that follows one that succeeded or failed.
pub open spec fn following(p: StopProtocol, stage: StopStage, succeeded: bool) -> StopStage {
    match stage {
        StopStage::Terminate(i) => if !succeeded {
            StopStage::Failed
        } else if i + 1 < p.processes {
            StopStage::Terminate((i + 1) as usize)
        } else {
            after_exits(p)
        },
        StopStage::CloseChatFirst => if succeeded { before_operations(p) } else { StopStage::Failed },
        StopStage::CancelOperations => if succeeded { before_chat(p) } else { after_failure(p) },
        StopStage::CloseChat => if succeeded { before_settlement(p) } else { StopStage::Failed },
        StopStage::SettleGoal => if succeeded { after_settlement(p) } else { after_failure(p) },
        StopStage::SettleClaim => if succeeded { after_settlement(p) } else { StopStage::Failed },
        StopStage::ConfirmOperations => if succeeded { before_receipts(p) } else { after_failure(p) },
        StopStage::Complete(i) => if !succeeded {
            StopStage::Failed
        } else if i + 1 < p.receipts {
            StopStage::Complete((i + 1) as usize)
        } else {
            StopStage::Succeeded
        },
        StopStage::Retain(i) => if i + 1 < p.retained {
            StopStage::Retain((i + 1) as usize)
        } else {
            StopStage::Failed
        },
        StopStage::Succeeded => StopStage::Succeeded,
        StopStage::Failed => StopStage::Failed,
    }
}

impl StopProtocol {
    /// The first effect.
    pub fn first(&self) -> (r: StopStage)
        ensures
            r == first_stage(*self),
    {
        if self.processes > 0 { StopStage::Terminate(0) } else { self.exited() }
    }

    fn exited(&self) -> (r: StopStage)
        ensures
            r == after_exits(*self),
    {
        if self.chat_first { StopStage::CloseChatFirst } else { self.operations_or_chat() }
    }

    fn operations_or_chat(&self) -> (r: StopStage)
        ensures
            r == before_operations(*self),
    {
        if self.operations { StopStage::CancelOperations } else { self.chat_or_settlement() }
    }

    fn chat_or_settlement(&self) -> (r: StopStage)
        ensures
            r == before_chat(*self),
    {
        if self.chat { StopStage::CloseChat } else { self.settlement() }
    }

    fn settlement(&self) -> (r: StopStage)
        ensures
            r == before_settlement(*self),
    {
        if self.goal {
            StopStage::SettleGoal
        } else if self.claim {
            StopStage::SettleClaim
        } else {
            self.settled()
        }
    }

    fn settled(&self) -> (r: StopStage)
        ensures
            r == after_settlement(*self),
    {
        if self.operations { StopStage::ConfirmOperations } else { self.receipts_or_success() }
    }

    fn receipts_or_success(&self) -> (r: StopStage)
        ensures
            r == before_receipts(*self),
    {
        if self.receipts > 0 { StopStage::Complete(0) } else { StopStage::Succeeded }
    }

    fn failure(&self) -> (r: StopStage)
        ensures
            r == after_failure(*self),
    {
        if self.retained > 0 { StopStage::Retain(0) } else { StopStage::Failed }
    }

    /// The effect that follows `stage`, given whether `stage` succeeded.
    pub fn next(&self, stage: StopStage, succeeded: bool) -> (r: StopStage)
        ensures
            r == following(*self, stage, succeeded),
    {
        match stage {
            StopStage::Terminate(i) => if !succeeded {
                StopStage::Failed
            } else if i < self.processes && i + 1 < self.processes {
                StopStage::Terminate(i + 1)
            } else {
                self.exited()
            },
            StopStage::CloseChatFirst => if succeeded {
                self.operations_or_chat()
            } else {
                StopStage::Failed
            },
            StopStage::CancelOperations => if succeeded {
                self.chat_or_settlement()
            } else {
                self.failure()
            },
            StopStage::CloseChat => if succeeded { self.settlement() } else { StopStage::Failed },
            StopStage::SettleGoal => if succeeded { self.settled() } else { self.failure() },
            StopStage::SettleClaim => if succeeded { self.settled() } else { StopStage::Failed },
            StopStage::ConfirmOperations => if succeeded {
                self.receipts_or_success()
            } else {
                self.failure()
            },
            StopStage::Complete(i) => if !succeeded {
                StopStage::Failed
            } else if i < self.receipts && i + 1 < self.receipts {
                StopStage::Complete(i + 1)
            } else {
                StopStage::Succeeded
            },
            StopStage::Retain(i) => if i < self.retained && i + 1 < self.retained {
                StopStage::Retain(i + 1)
            } else {
                StopStage::Failed
            },
            StopStage::Succeeded => StopStage::Succeeded,
            StopStage::Failed => StopStage::Failed,
        }
    }
}

/// The stage reached after a list of answers, one for each effect in turn.
pub open spec fn reached(p: StopProtocol, answers: Seq<bool>) -> StopStage
    decreases answers.len(),
{
    if answers.len() == 0 {
        first_stage(p)
    } else {
        following(p, reached(p, answers.drop_last()), answers.last())
    }
}

/// Stages that only come after every process is gone.
pub open spec fn past_exits(stage: StopStage) -> bool {
    match stage {
        StopStage::Terminate(_) => false,
        StopStage::Failed => false,
        _ => true,
    }
}

/// No chat is closed, no operation cancelled, no goal or claim settled, no
/// receipt completed and no success reported before the exit of every process
/// was confirmed.
pub proof fn nothing_is_settled_before_every_exit(p: StopProtocol, answers: Seq<bool>)
    requires
        past_exits(reached(p, answers)),
    ensures
        answers.len() >= p.processes,
        forall|i: int| 0 <= i < p.processes ==> answers[i],
{
    exits_come_first(p, answers);
}

proof fn exits_come_first(p: StopProtocol, answers: Seq<bool>)
    ensures
        past_exits(reached(p, answers)) ==> answers.len() >= p.processes && forall|i: int|
            0 <= i < p.processes ==> #[trigger] answers[i],
        reached(p, answers) matches StopStage::Terminate(n) ==> n == answers.len() && n
            < p.processes && forall|i: int| 0 <= i < answers.len() ==> #[trigger] answers[i],
    decreases answers.len(),
{
    if answers.len() > 0 {
        let short = answers.drop_last();
        exits_come_first(p, short);
        assert forall|i: int| 0 <= i < short.len() implies answers[i] == #[trigger] short[i] by {}
        let before = reached(p, short);
        if past_exits(reached(p, answers)) {
            if past_exits(before) {
                assert forall|i: int| 0 <= i < p.processes implies #[trigger] answers[i] by {
                    assert(short[i]);
                }
            } else {
                assert forall|i: int| 0 <= i < p.processes implies #[trigger] answers[i] by {
                    if i < short.len() {
                        assert(short[i]);
                    }
                }
            }
        }
        if reached(p, answers) is Terminate {
            assert forall|i: int| 0 <= i < answers.len() implies #[trigger] answers[i] by {
                if i < short.len() {
                    assert(short[i]);
                }
            }
        }
    }
}

/// A stop succeeds only if each of its effects succeeded.
pub proof fn success_needs_every_effect(p: StopProtocol, answers: Seq<bool>)
    requires
        reached(p, answers) == StopStage::Succeeded,
        answers.len() > 0 ==> reached(p, answers.drop_last()) != StopStage::Succeeded,
    ensures
        forall|i: int| 0 <= i < answers.len() ==> #[trigger] answers[i],
{
    if answers.len() > 0 {
        going_well(p, answers.drop_last());
        assert forall|i: int| 0 <= i < answers.len() implies #[trigger] answers[i] by {
            if i < answers.len() - 1 {
                assert(answers.drop_last()[i]);
            }
        }
    }
}

proof fn going_well(p: StopProtocol, answers: Seq<bool>)
    ensures
        !(reached(p, answers) is Failed) && !(reached(p, answers) is Retain) && !(reached(
            p,
            answers,
        ) is Succeeded) ==> forall|i: int| 0 <= i < answers.len() ==> #[trigger] answers[i],
    decreases answers.len(),
{
    if answers.len() > 0 {
        let short = answers.drop_last();
        going_well(p, short);
        let stage = reached(p, answers);
        if !(stage is Failed) && !(stage is Retain) && !(stage is Succeeded) {
            assert forall|i: int| 0 <= i < answers.len() implies #[trigger] answers[i] by {
                if i < answers.len() - 1 {
                    assert(short[i]);
                }
            }
        }
    }
}

/// A failure to settle after a confirmed exit is retained before the stop
/// fails, as long as there is an outcome to retain.
pub proof fn settlement_failures_are_retained(p: StopProtocol, stage: StopStage)
    requires
        p.retained > 0,
        stage == StopStage::SettleGoal || stage == StopStage::CancelOperations || stage
            == StopStage::ConfirmOperations,
    ensures
        following(p, stage, false) == StopStage::Retain(0),
{
}

} // verus!
