use vstd::prelude::*;
use crate::status::{report_for, status_for, ServiceState, StatusRecord};

verus! {

/// A request handed from the control handler to the main loop.
#[derive(Clone, Copy, Debug, PartialEq, Eq, Structural)]
pub enum Action {
    Close,
}

/// Where the main loop stands: each phase names the next thing it does.
#[derive(Clone, Copy, Debug, PartialEq, Eq, Structural)]
pub enum LoopPhase {
    /// Report `Running`, accepting Stop.
    ReportRunning,
    /// Wait, with a timeout, for a request from the control handler.
    Waiting,
    /// Report `StopPending`, accepting nothing.
    ReportStopPending,
    /// Report `Stopped`, accepting nothing.
    ReportStopped,
    /// Leave the loop.
    Finished,
}

/// What happened since the loop last asked for a command.
#[derive(Clone, Copy, Debug, PartialEq, Eq, Structural)]
pub enum LoopEvent {
    /// The requested status report was delivered.
    Reported,
    /// The wait ran out without a request.
    Timeout,
    /// Every sender of requests has gone away.
    Disconnected,
    /// A request arrived.
    Signal(Action),
}

/// What the driver of the loop must do next.
#[derive(Clone, Copy, Debug, PartialEq, Eq, Structural)]
pub enum LoopCommand {
    /// Hand this record to the service manager, then send `Reported`.
    Report(StatusRecord),
    /// Wait for a request, then send what the wait gave.
    Wait,
    /// The service has stopped: leave the loop.
    Exit,
}

/// The main loop of the service, as a state machine driven from outside.
#[derive(Clone, Copy, Debug, PartialEq, Eq, Structural)]
pub struct ServiceLoop {
    pub phase: LoopPhase,
}

/// The phase after an event. An event that does not answer the pending
/// command leaves the phase as it is; a disconnected sender is no stop.
pub open spec fn next_phase(p: LoopPhase, e: LoopEvent) -> LoopPhase {
    match (p, e) {
        (LoopPhase::ReportRunning, LoopEvent::Reported) => LoopPhase::Waiting,
        (LoopPhase::Waiting, LoopEvent::Signal(Action::Close)) => LoopPhase::ReportStopPending,
        (LoopPhase::ReportStopPending, LoopEvent::Reported) => LoopPhase::ReportStopped,
        (LoopPhase::ReportStopped, LoopEvent::Reported) => LoopPhase::Finished,
        _ => p,
    }
}

/// The command that a phase asks for.
pub open spec fn command_of(p: LoopPhase) -> LoopCommand {
    match p {
        LoopPhase::ReportRunning => LoopCommand::Report(report_for(ServiceState::Running)),
        LoopPhase::Waiting => LoopCommand::Wait,
        LoopPhase::ReportStopPending => LoopCommand::Report(report_for(ServiceState::StopPending)),
        LoopPhase::ReportStopped => LoopCommand::Report(report_for(ServiceState::Stopped)),
        LoopPhase::Finished => LoopCommand::Exit,
    }
}

/// How far a phase is from the end of the loop.
pub open spec fn steps_left(p: LoopPhase) -> nat {
    match p {
        LoopPhase::ReportRunning => 4,
        LoopPhase::Waiting => 3,
        LoopPhase::ReportStopPending => 2,
        LoopPhase::ReportStopped => 1,
        LoopPhase::Finished => 0,
    }
}

/// The states reported when the loop is run from phase `p`, every report
/// is delivered, and the waits give `evs` in turn (until they run out or
/// the loop exits).
pub open spec fn reports(p: LoopPhase, evs: Seq<LoopEvent>) -> Seq<ServiceState>
    decreases evs.len(), steps_left(p),
{
    match command_of(p) {
        LoopCommand::Report(rec) => seq![rec.current_state].add(
            reports(next_phase(p, LoopEvent::Reported), evs),
        ),
        LoopCommand::Wait => if evs.len() == 0 {
            Seq::empty()
        } else {
            reports(next_phase(p, evs[0]), evs.drop_first())
        },
        LoopCommand::Exit => Seq::empty(),
    }
}

/// The full lifecycle of the service, in the order it is reported.
pub open spec fn lifecycle() -> Seq<ServiceState> {
    seq![ServiceState::Running, ServiceState::StopPending, ServiceState::Stopped]
}

/// How many states of the lifecycle have been reported before phase `p`.
pub open spec fn reported_before(p: LoopPhase) -> int {
    match p {
        LoopPhase::ReportRunning => 0,
        LoopPhase::Waiting => 1,
        LoopPhase::ReportStopPending => 1,
        LoopPhase::ReportStopped => 2,
        LoopPhase::Finished => 3,
    }
}

impl ServiceLoop {
    /// A loop that has reported nothing yet.
    pub fn new() -> (r: ServiceLoop)
        ensures
            r.phase == LoopPhase::ReportRunning,
    {
        ServiceLoop { phase: LoopPhase::ReportRunning }
    }

    /// The command for the current phase.
    pub fn command(&self) -> (r: LoopCommand)
        ensures
            r == command_of(self.phase),
    {
        match self.phase {
            LoopPhase::ReportRunning => LoopCommand::Report(status_for(ServiceState::Running)),
            LoopPhase::Waiting => LoopCommand::Wait,
            LoopPhase::ReportStopPending => LoopCommand::Report(
                status_for(ServiceState::StopPending),
            ),
            LoopPhase::ReportStopped => LoopCommand::Report(status_for(ServiceState::Stopped)),
            LoopPhase::Finished => LoopCommand::Exit,
        }
    }

    /// Moves the loop on by one event.
    pub fn on_event(&mut self, e: LoopEvent)
        ensures
            final(self).phase == next_phase(old(self).phase, e),
    {
        let next = match (self.phase, e) {
            (LoopPhase::ReportRunning, LoopEvent::Reported) => LoopPhase::Waiting,
            (LoopPhase::Waiting, LoopEvent::Signal(Action::Close)) => LoopPhase::ReportStopPending,
            (LoopPhase::ReportStopPending, LoopEvent::Reported) => LoopPhase::ReportStopped,
            (LoopPhase::ReportStopped, LoopEvent::Reported) => LoopPhase::Finished,
            (p, _) => p,
        };
        self.phase = next;
    }

    /// Whether the loop has reported `Stopped` and is done.
    pub fn is_finished(&self) -> (r: bool)
        ensures
            r == (self.phase == LoopPhase::Finished),
            r == (command_of(self.phase) == LoopCommand::Exit),
    {
        match self.phase {
            LoopPhase::Finished => true,
            _ => false,
        }
    }
}

/// Whatever the waits give, the reports from any phase continue the
/// lifecycle where that phase stands in it, and never go back.
pub proof fn lemma_reports_follow_lifecycle(p: LoopPhase, evs: Seq<LoopEvent>)
    ensures
        reported_before(p) + reports(p, evs).len() <= 3,
        forall|i: int|
            0 <= i < reports(p, evs).len() ==> #[trigger] reports(p, evs)[i] == lifecycle()[
                reported_before(p) + i
            ],
    decreases evs.len(), steps_left(p),
{
    let r = reports(p, evs);
    match p {
        LoopPhase::Waiting => {
            if evs.len() > 0 {
                lemma_reports_follow_lifecycle(next_phase(p, evs[0]), evs.drop_first());
            }
        },
        LoopPhase::Finished => {},
        _ => {
            let q = next_phase(p, LoopEvent::Reported);
            lemma_reports_follow_lifecycle(q, evs);
            let rest = reports(q, evs);
            assert forall|i: int| 0 <= i < r.len() implies #[trigger] r[i] == lifecycle()[
                reported_before(p) + i
            ] by {
                if i > 0 {
                    assert(r[i] == rest[i - 1]);
                }
            }
        },
    }
}

/// Once `StopPending` has been reported, no later report is `Running`.
pub proof fn lemma_no_running_after_stop_pending(p: LoopPhase, evs: Seq<LoopEvent>)
    ensures
        forall|i: int, j: int|
            0 <= i < j < reports(p, evs).len() && #[trigger] reports(p, evs)[i]
                == ServiceState::StopPending ==> #[trigger] reports(p, evs)[j]
                != ServiceState::Running,
{
    lemma_reports_follow_lifecycle(p, evs);
    let r = reports(p, evs);
    let k = reported_before(p);
    assert forall|i: int, j: int|
        0 <= i < j < r.len() && #[trigger] r[i] == ServiceState::StopPending implies #[trigger] r[j]
        != ServiceState::Running by {
        assert(r[i] == lifecycle()[k + i]);
        assert(r[j] == lifecycle()[k + j]);
    }
}

/// From a waiting loop, any run of waits that delivers a Close, however
/// many Close requests it holds, reports exactly `StopPending` then `Stopped`.
proof fn lemma_close_from_waiting(evs: Seq<LoopEvent>)
    requires
        evs.contains(LoopEvent::Signal(Action::Close)),
    ensures
        reports(LoopPhase::Waiting, evs) == seq![ServiceState::StopPending, ServiceState::Stopped],
    decreases evs.len(),
{
    let close = LoopEvent::Signal(Action::Close);
    let tail = evs.drop_first();
    assert(reports(LoopPhase::Finished, tail) == Seq::<ServiceState>::empty());
    assert(reports(LoopPhase::ReportStopped, tail) == seq![ServiceState::Stopped]);
    if evs[0] == close {
        assert(reports(LoopPhase::ReportStopPending, tail) =~= seq![
            ServiceState::StopPending,
            ServiceState::Stopped,
        ]);
    } else {
        let k = choose|k: int| 0 <= k < evs.len() && evs[k] == close;
        assert(tail[k - 1] == close);
        lemma_close_from_waiting(tail);
    }
}

/// A run of the loop reports each lifecycle state at most once and in
/// order; once a Close is delivered, however many follow it, the whole
/// lifecycle is reported exactly once.
pub proof fn lemma_stop_is_idempotent(evs: Seq<LoopEvent>)
    ensures
        reports(LoopPhase::ReportRunning, evs).len() <= 3,
        reports(LoopPhase::ReportRunning, evs) == lifecycle().take(
            reports(LoopPhase::ReportRunning, evs).len() as int,
        ),
        evs.contains(LoopEvent::Signal(Action::Close)) ==> reports(LoopPhase::ReportRunning, evs)
            == lifecycle(),
{
    lemma_reports_follow_lifecycle(LoopPhase::ReportRunning, evs);
    let r = reports(LoopPhase::ReportRunning, evs);
    assert(r =~= lifecycle().take(r.len() as int));
    if evs.contains(LoopEvent::Signal(Action::Close)) {
        lemma_close_from_waiting(evs);
        assert(r =~= lifecycle());
    }
}

} // verus!
