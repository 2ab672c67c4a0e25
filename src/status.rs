use vstd::prelude::*;

verus! {

/// Service type reported for a service that runs in a process of its own.
pub const SERVICE_TYPE_OWN_PROCESS: u32 = 0x10;

/// Accepted-controls bit: the service honours a Stop request.
pub const ACCEPT_STOP: u32 = 0x1;

/// Exit code that reports success.
pub const EXIT_CODE_SUCCESS: u32 = 0;

/// The lifecycle states this service reports.
#[derive(Clone, Copy, Debug, PartialEq, Eq, Structural)]
pub enum ServiceState {
    Running,
    StopPending,
    Stopped,
}

/// What the service tells the service manager about itself.
#[derive(Clone, Copy, Debug, PartialEq, Eq, Structural)]
pub struct StatusRecord {
    pub service_type: u32,
    pub current_state: ServiceState,
    pub controls_accepted: u32,
    pub exit_code: u32,
    pub checkpoint: u32,
    pub wait_hint_ms: u32,
}

/// The record for a state and an accepted-controls mask: own process,
/// successful exit code, no checkpoint and no wait hint.
pub open spec fn status_spec(current_state: ServiceState, controls_accepted: u32) -> StatusRecord {
    StatusRecord {
        service_type: SERVICE_TYPE_OWN_PROCESS,
        current_state,
        controls_accepted,
        exit_code: EXIT_CODE_SUCCESS,
        checkpoint: 0,
        wait_hint_ms: 0,
    }
}

/// The controls the service accepts while in a state: Stop while running,
/// nothing once a stop is under way.
pub open spec fn accepted_controls(state: ServiceState) -> u32 {
    if state == ServiceState::Running {
        ACCEPT_STOP
    } else {
        0
    }
}

/// The record that the service reports on entering a state.
pub open spec fn report_for(state: ServiceState) -> StatusRecord {
    status_spec(state, accepted_controls(state))
}

/// Builds a status record from a state and an accepted-controls mask.
pub fn service_status(current_state: ServiceState, controls_accepted: u32) -> (r: StatusRecord)
    ensures
        r == status_spec(current_state, controls_accepted),
{
    StatusRecord {
        service_type: SERVICE_TYPE_OWN_PROCESS,
        current_state,
        controls_accepted,
        exit_code: EXIT_CODE_SUCCESS,
        checkpoint: 0,
        wait_hint_ms: 0,
    }
}

/// Builds the record that the service reports on entering `state`.
pub fn status_for(state: ServiceState) -> (r: StatusRecord)
    ensures
        r == report_for(state),
        r.controls_accepted == ACCEPT_STOP <==> state == ServiceState::Running,
        state != ServiceState::Running ==> r.controls_accepted == 0,
{
    let accepted: u32 = match state {
        ServiceState::Running => ACCEPT_STOP,
        _ => 0,
    };
    service_status(state, accepted)
}

/// A report accepts Stop exactly when it reports the running state, and
/// accepts nothing otherwise.
pub proof fn lemma_accepts_stop_iff_running(state: ServiceState)
    ensures
        report_for(state).controls_accepted == ACCEPT_STOP <==> state == ServiceState::Running,
        state != ServiceState::Running ==> report_for(state).controls_accepted == 0,
        report_for(state).current_state == state,
{
}

} // verus!
