//! Which way a stop request goes.
use vstd::prelude::*;

use crate::errors::RefineResult;
use crate::process_control::ownership::ManagedProcess;

verus! {

/// A process runs an agent: it is marked as an agent's, or it is shown as an
/// agent, as a chat, or as an interactive session of some provider.
pub open spec fn works_as_agent(process: ManagedProcess) -> bool {
    ||| process.agent_owned
    ||| crate::laws::values::says(process.api@, "kind"@, "agent"@)
    ||| crate::laws::values::says(process.api@, "kind"@, "chat"@)
    ||| crate::laws::values::says(process.api@, "kind"@, "interactive_session"@) && crate::laws::values::has_text(process.api@, "provider"@)
}

/// A process records both a claim and an execution.
pub open spec fn works_for_a_claim(process: ManagedProcess) -> bool {
    process.details is Some && {
        let recorded = crate::codec::parsed_bytes(
            vstd::utf8::encode_utf8((process.details->0)@),
        );
        recorded is Ok && crate::laws::values::has_key(recorded->Ok_0, "claim_id"@) && crate::laws::values::has_key(
            recorded->Ok_0,
            "execution_id"@,
        )
    }
}

/// A process id that can be asked for.
pub open spec fn names_a_process(id: Seq<char>) -> bool {
    !crate::laws::texts::only_spaces(id) && !id.contains('/') && !id.contains('\\')
}

/// A signal that stops a process.
pub open spec fn stops(signal: Seq<char>) -> bool {
    signal == "stop"@ || signal == "terminate"@ || signal == "kill"@
}

proof fn separators_are_single(id: Seq<char>)
    ensures
        crate::text::contains_part(id, "/"@) == id.contains('/'),
        crate::text::contains_part(id, "\\"@) == id.contains('\\'),
{
    reveal_strlit("/");
    reveal_strlit("\\");
    one_character_parts(id, "/"@);
    one_character_parts(id, "\\"@);
    assert("/"@[0] == '/');
    assert("\\"@[0] == '\\');
}

proof fn one_character_parts(text: Seq<char>, part: Seq<char>)
    requires
        part.len() == 1,
    ensures
        crate::text::contains_part(text, part) == text.contains(part[0]),
{
    if crate::text::contains_part(text, part) {
        let at = choose|at: int| crate::text::occurs_at(text, part, at);
        assert(text.subrange(at, at + 1)[0] == text[at]);
    }
    if text.contains(part[0]) {
        let at = text.index_of(part[0]);
        assert(text.subrange(at, at + 1) =~= part);
        assert(crate::text::occurs_at(text, part, at));
    }
}

/// A request is accepted exactly where its id names a process and its signal
/// stops one; the lookup's failure is then passed on.
pub proof fn stop_requests_are_checked_first(
    id: Seq<char>,
    signal: Seq<char>,
    found: RefineResult<Option<ManagedProcess>>,
)
    ensures
        !names_a_process(id) || !stops(signal) ==> crate::process_control::termination::stop_outcome(
            id,
            signal,
            found,
        ) is Err && crate::process_control::termination::stop_outcome(
            id,
            signal,
            found,
        )->Err_0 is InvalidInput,
        names_a_process(id) && stops(signal) && found is Ok
            ==> crate::process_control::termination::stop_outcome(id, signal, found) is Ok,
        names_a_process(id) && stops(signal) && found is Err
            ==> crate::process_control::termination::stop_outcome(id, signal, found) == Err::<
            crate::process_control::termination::StopRouteView,
            crate::errors::ErrorView,
        >(found->Err_0@),
        crate::process_control::termination::stop_request_outcome(id, signal) is Ok == (
        names_a_process(id) && stops(signal)),
{
    crate::laws::texts::blank_texts_hold_only_white_space(id);
    separators_are_single(id);
}

/// A process that was found is stopped as an agent exactly where it runs one,
/// under the registration lock exactly where it works for a claim, and is
/// signalled otherwise.
pub proof fn a_found_process_is_stopped_or_signalled(
    id: Seq<char>,
    signal: Seq<char>,
    process: ManagedProcess,
)
    requires
        names_a_process(id),
        stops(signal),
    ensures
        ({
            let way = crate::process_control::termination::stop_outcome(
                id,
                signal,
                Ok(Some(process)),
            );
            &&& way is Ok
            &&& way->Ok_0 is Agent == works_as_agent(process)
            &&& way->Ok_0 is Signal == !works_as_agent(process)
            &&& !(way->Ok_0 is Recover) && !(way->Ok_0 is Chat)
            &&& way->Ok_0 is Agent ==> way->Ok_0->Agent_0 == works_for_a_claim(process)
        }),
{
    crate::laws::texts::blank_texts_hold_only_white_space(id);
    separators_are_single(id);
}

/// Where no process was found, a chat's id asks for that chat, and any other
/// id for the outcome of an earlier stop.
pub proof fn without_a_process_a_chat_or_an_outcome_is_looked_for(
    id: Seq<char>,
    signal: Seq<char>,
    session: Seq<char>,
)
    requires
        names_a_process(id),
        stops(signal),
    ensures
        ({
            let way = crate::process_control::termination::stop_outcome(id, signal, Ok(None));
            &&& way is Ok
            &&& (way->Ok_0 is Chat && way->Ok_0->Chat_0 == session) == (id == "chat-session-"@
                + session)
            &&& way->Ok_0 is Chat || way->Ok_0 is Recover
            &&& way->Ok_0 is Chat == exists|rest: Seq<char>|
                id == #[trigger] ("chat-session-"@ + rest)
        }),
{
    crate::laws::texts::blank_texts_hold_only_white_space(id);
    separators_are_single(id);
    crate::laws::texts::texts_begin_and_end_with_their_parts(id, "chat-session-"@);
    let n = "chat-session-"@.len() as int;
    if id == "chat-session-"@ + session {
        assert(id.skip(n) =~= session);
    }
    if crate::text::begins_with(id, "chat-session-"@) {
        assert(id =~= "chat-session-"@ + id.skip(n));
    }
}

} // verus!
