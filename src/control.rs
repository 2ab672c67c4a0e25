use vstd::prelude::*;
use crate::service_loop::{lemma_stop_is_idempotent, lifecycle, reports, Action, LoopEvent, LoopPhase};
use crate::unprotect::ToggleError;

verus! {

/// Control code of a Stop request.
pub const CONTROL_STOP: u32 = 0x1;

/// Control code of an Interrogate request.
pub const CONTROL_INTERROGATE: u32 = 0x4;

/// User-defined control code that asks the service to clear the launch
/// protection of its target service. It is the whole protocol of the custom
/// control: every other user-defined code is refused.
pub const CONTROL_UNPROTECT: u32 = 0x80;

/// Result code answered when the custom control failed, whatever the cause.
pub const UNPROTECT_FAILED: u32 = 1;

/// The answer a control handler gives the service manager.
#[derive(Clone, Copy, Debug, PartialEq, Eq, Structural)]
pub enum HandlerResult {
    NoError,
    NotImplemented,
    Other(u32),
}

/// What the control handler does with a control code.
#[derive(Clone, Copy, Debug, PartialEq, Eq, Structural)]
pub enum HandlerDecision {
    /// Post this request to the main loop without blocking, ignoring whether
    /// it could be posted, and answer `NoError`.
    Post(Action),
    /// Answer at once, doing nothing else.
    Reply(HandlerResult),
    /// Clear the launch protection of the target service now, and answer
    /// with `unprotect_reply` of the result.
    Unprotect,
}

/// The handler's dispatch table.
pub open spec fn decision_for(code: u32) -> HandlerDecision {
    if code == CONTROL_STOP {
        HandlerDecision::Post(Action::Close)
    } else if code == CONTROL_INTERROGATE {
        HandlerDecision::Reply(HandlerResult::NoError)
    } else if code == CONTROL_UNPROTECT {
        HandlerDecision::Unprotect
    } else {
        HandlerDecision::Reply(HandlerResult::NotImplemented)
    }
}

/// The answer for a finished unprotect operation: the cause of a failure
/// is not passed on.
pub open spec fn reply_for_toggle(r: Result<(), ToggleError>) -> HandlerResult {
    match r {
        Ok(()) => HandlerResult::NoError,
        Err(_) => HandlerResult::Other(UNPROTECT_FAILED),
    }
}

/// What the main loop is sent when the handler gets `codes` in turn.
pub open spec fn signals_of(codes: Seq<u32>) -> Seq<LoopEvent>
    decreases codes.len(),
{
    if codes.len() == 0 {
        Seq::empty()
    } else {
        let rest = signals_of(codes.drop_first());
        match decision_for(codes[0]) {
            HandlerDecision::Post(a) => seq![LoopEvent::Signal(a)] + rest,
            _ => rest,
        }
    }
}

/// Decides what to do with a control code.
pub fn decide_control(code: u32) -> (r: HandlerDecision)
    ensures
        r == decision_for(code),
{
    if code == CONTROL_STOP {
        HandlerDecision::Post(Action::Close)
    } else if code == CONTROL_INTERROGATE {
        HandlerDecision::Reply(HandlerResult::NoError)
    } else if code == CONTROL_UNPROTECT {
        HandlerDecision::Unprotect
    } else {
        HandlerDecision::Reply(HandlerResult::NotImplemented)
    }
}

/// The answer to give once the unprotect operation has finished.
pub fn unprotect_reply(r: &Result<(), ToggleError>) -> (h: HandlerResult)
    ensures
        h == reply_for_toggle(*r),
{
    match r {
        Ok(()) => HandlerResult::NoError,
        Err(_) => HandlerResult::Other(UNPROTECT_FAILED),
    }
}

/// The name of the target service: the first start argument when there is
/// one that is valid text, and the empty name otherwise.
pub fn service_name_from(first_arg: Option<String>) -> (r: String)
    ensures
        first_arg matches Some(s) ==> r@ == s@,
        first_arg is None ==> r@ == Seq::<char>::empty(),
{
    match first_arg {
        Some(s) => s,
        None => String::new(),
    }
}

/// Any number of Interrogate requests sends the main loop nothing, so it
/// neither changes phase nor reports; each is answered `NoError` at once.
pub proof fn lemma_interrogate_is_inert(p: LoopPhase, codes: Seq<u32>)
    requires
        forall|i: int| 0 <= i < codes.len() ==> codes[i] == CONTROL_INTERROGATE,
    ensures
        signals_of(codes) == Seq::<LoopEvent>::empty(),
        reports(p, signals_of(codes)) == reports(p, Seq::empty()),
        forall|i: int|
            0 <= i < codes.len() ==> decision_for(#[trigger] codes[i]) == HandlerDecision::Reply(
                HandlerResult::NoError,
            ),
    decreases codes.len(),
{
    if codes.len() > 0 {
        lemma_interrogate_is_inert(p, codes.drop_first());
    }
}

/// A code other than Stop, Interrogate and the unprotect code is answered
/// `NotImplemented`, sends the main loop nothing and clears no protection.
pub proof fn lemma_unknown_code_refused(code: u32)
    requires
        code != CONTROL_STOP,
        code != CONTROL_INTERROGATE,
        code != CONTROL_UNPROTECT,
    ensures
        decision_for(code) == HandlerDecision::Reply(HandlerResult::NotImplemented),
        signals_of(seq![code]) == Seq::<LoopEvent>::empty(),
{
    reveal_with_fuel(signals_of, 2);
}

/// Stop requests, one or more, received by the handler while the loop runs
/// take it through its lifecycle exactly once, whatever other codes arrive
/// in between.
pub proof fn lemma_repeated_stop(codes: Seq<u32>)
    requires
        codes.contains(CONTROL_STOP),
    ensures
        reports(LoopPhase::ReportRunning, signals_of(codes)) == lifecycle(),
{
    lemma_stop_signalled(codes);
    lemma_stop_is_idempotent(signals_of(codes));
}

/// A Stop among the codes puts a Close among the signals.
proof fn lemma_stop_signalled(codes: Seq<u32>)
    requires
        codes.contains(CONTROL_STOP),
    ensures
        signals_of(codes).contains(LoopEvent::Signal(Action::Close)),
    decreases codes.len(),
{
    let close = LoopEvent::Signal(Action::Close);
    let rest = signals_of(codes.drop_first());
    if codes[0] == CONTROL_STOP {
        assert((seq![close] + rest)[0] == close);
    } else {
        let k = choose|k: int| 0 <= k < codes.len() && codes[k] == CONTROL_STOP;
        assert(codes.drop_first()[k - 1] == CONTROL_STOP);
        lemma_stop_signalled(codes.drop_first());
        let j = choose|j: int| 0 <= j < rest.len() && rest[j] == close;
        match decision_for(codes[0]) {
            HandlerDecision::Post(a) => {
                assert((seq![LoopEvent::Signal(a)] + rest)[j + 1] == close);
            },
            _ => {},
        }
    }
}

} // verus!
