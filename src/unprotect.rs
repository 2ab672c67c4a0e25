use vstd::prelude::*;

verus! {

/// Launch-protection level that means "not protected".
pub const LAUNCH_PROTECTED_NONE: u32 = 0;

/// Why clearing launch protection failed, with the system's error code.
#[derive(Clone, Copy, Debug, PartialEq, Eq, Structural)]
pub enum ToggleError {
    /// The service control manager could not be opened.
    RegistryOpenFailed(u32),
    /// The named service could not be opened.
    ServiceOpenFailed(u32),
    /// The configuration change was rejected.
    ConfigChangeFailed(u32),
}

/// How a system call asked for by a `ToggleCommand` went.
#[derive(Clone, Copy, Debug, PartialEq, Eq, Structural)]
pub enum CallOutcome {
    Succeeded,
    /// The call failed with this error code.
    Failed(u32),
}

/// Where the operation stands: each phase names the next call to make.
/// The closing phases carry the result that is handed back once every
/// handle is released.
#[derive(Clone, Copy, Debug)]
pub enum TogglePhase {
    OpenRegistry,
    OpenService,
    ChangeConfig,
    CloseService(Result<(), ToggleError>),
    CloseRegistry(Result<(), ToggleError>),
    Done(Result<(), ToggleError>),
}

/// The call that the driver must make next.
#[derive(Debug)]
pub enum ToggleCommand {
    /// Open the service control manager with full access.
    OpenRegistry,
    /// Open the service of this name, with full access, through the manager.
    OpenService(String),
    /// Set the open service's launch protection to this level.
    SetLaunchProtection(u32),
    /// Release the service handle.
    CloseService,
    /// Release the manager handle.
    CloseRegistry,
    /// Nothing is left open: this is the result.
    Finish(Result<(), ToggleError>),
}

/// Clearing the launch protection of a named service, as a state machine
/// whose system calls are made by its driver.
#[derive(Debug)]
pub struct Unprotect {
    pub service_name: String,
    pub phase: TogglePhase,
}

/// The phase after the pending call came back with `o`. A failed open or
/// change ends the operation with its error, after releasing whatever is
/// open; releasing goes on whatever the release call returns.
pub open spec fn next_toggle(p: TogglePhase, o: CallOutcome) -> TogglePhase {
    match p {
        TogglePhase::OpenRegistry => match o {
            CallOutcome::Succeeded => TogglePhase::OpenService,
            CallOutcome::Failed(c) => TogglePhase::Done(Err(ToggleError::RegistryOpenFailed(c))),
        },
        TogglePhase::OpenService => match o {
            CallOutcome::Succeeded => TogglePhase::ChangeConfig,
            CallOutcome::Failed(c) => TogglePhase::CloseRegistry(
                Err(ToggleError::ServiceOpenFailed(c)),
            ),
        },
        TogglePhase::ChangeConfig => match o {
            CallOutcome::Succeeded => TogglePhase::CloseService(Ok(())),
            CallOutcome::Failed(c) => TogglePhase::CloseService(
                Err(ToggleError::ConfigChangeFailed(c)),
            ),
        },
        TogglePhase::CloseService(r) => TogglePhase::CloseRegistry(r),
        TogglePhase::CloseRegistry(r) => TogglePhase::Done(r),
        TogglePhase::Done(r) => TogglePhase::Done(r),
    }
}

/// Whether `c` is the command that phase `p` asks for, on the service `name`.
pub open spec fn is_command_of(p: TogglePhase, name: Seq<char>, c: ToggleCommand) -> bool {
    match p {
        TogglePhase::OpenRegistry => c is OpenRegistry,
        TogglePhase::OpenService => c matches ToggleCommand::OpenService(n) && n@ == name,
        TogglePhase::ChangeConfig => c matches ToggleCommand::SetLaunchProtection(level) && level
            == LAUNCH_PROTECTED_NONE,
        TogglePhase::CloseService(_) => c is CloseService,
        TogglePhase::CloseRegistry(_) => c is CloseRegistry,
        TogglePhase::Done(r) => c matches ToggleCommand::Finish(x) && x == r,
    }
}

/// The manager handle is open in phase `p`.
pub open spec fn registry_held(p: TogglePhase) -> bool {
    p is OpenService || p is ChangeConfig || p is CloseService || p is CloseRegistry
}

/// The service handle is open in phase `p`.
pub open spec fn service_held(p: TogglePhase) -> bool {
    p is ChangeConfig || p is CloseService
}

/// The phase reached from `p` when the calls come back with `outs` in turn.
pub open spec fn run_toggle(p: TogglePhase, outs: Seq<CallOutcome>) -> TogglePhase
    decreases outs.len(),
{
    if outs.len() == 0 {
        p
    } else {
        run_toggle(next_toggle(p, outs[0]), outs.drop_first())
    }
}

/// How many of the calls made from `p`, answered by `outs`, satisfy `f`.
pub open spec fn count_calls(
    p: TogglePhase,
    outs: Seq<CallOutcome>,
    f: spec_fn(TogglePhase, CallOutcome) -> bool,
) -> nat
    decreases outs.len(),
{
    if outs.len() == 0 {
        0
    } else {
        (if f(p, outs[0]) {
            1nat
        } else {
            0nat
        }) + count_calls(next_toggle(p, outs[0]), outs.drop_first(), f)
    }
}

/// A call was made at all: every phase but the last makes one.
pub open spec fn any_call() -> spec_fn(TogglePhase, CallOutcome) -> bool {
    |p: TogglePhase, o: CallOutcome| !(p is Done)
}

/// The manager was opened by this call.
pub open spec fn opens_registry() -> spec_fn(TogglePhase, CallOutcome) -> bool {
    |p: TogglePhase, o: CallOutcome| p is OpenRegistry && o is Succeeded
}

/// The manager was released by this call.
pub open spec fn closes_registry() -> spec_fn(TogglePhase, CallOutcome) -> bool {
    |p: TogglePhase, o: CallOutcome| p is CloseRegistry
}

/// The service was opened by this call.
pub open spec fn opens_service() -> spec_fn(TogglePhase, CallOutcome) -> bool {
    |p: TogglePhase, o: CallOutcome| p is OpenService && o is Succeeded
}

/// An opening of the service was attempted by this call.
pub open spec fn tries_service() -> spec_fn(TogglePhase, CallOutcome) -> bool {
    |p: TogglePhase, o: CallOutcome| p is OpenService
}

/// The service was released by this call.
pub open spec fn closes_service() -> spec_fn(TogglePhase, CallOutcome) -> bool {
    |p: TogglePhase, o: CallOutcome| p is CloseService
}

/// A configuration change was asked for by this call.
pub open spec fn changes_config() -> spec_fn(TogglePhase, CallOutcome) -> bool {
    |p: TogglePhase, o: CallOutcome| p is ChangeConfig
}

impl Unprotect {
    /// Starts the operation on the service named `service_name`.
    pub fn new(service_name: String) -> (r: Unprotect)
        ensures
            r.service_name@ == service_name@,
            r.phase is OpenRegistry,
    {
        Unprotect { service_name, phase: TogglePhase::OpenRegistry }
    }

    /// The call to make next.
    pub fn command(&self) -> (r: ToggleCommand)
        ensures
            is_command_of(self.phase, self.service_name@, r),
    {
        match self.phase {
            TogglePhase::OpenRegistry => ToggleCommand::OpenRegistry,
            TogglePhase::OpenService => ToggleCommand::OpenService(self.service_name.clone()),
            TogglePhase::ChangeConfig => ToggleCommand::SetLaunchProtection(LAUNCH_PROTECTED_NONE),
            TogglePhase::CloseService(_) => ToggleCommand::CloseService,
            TogglePhase::CloseRegistry(_) => ToggleCommand::CloseRegistry,
            TogglePhase::Done(r) => ToggleCommand::Finish(r),
        }
    }

    /// Records how the pending call went.
    pub fn on_outcome(&mut self, o: CallOutcome)
        ensures
            final(self).phase == next_toggle(old(self).phase, o),
            final(self).service_name == old(self).service_name,
    {
        let next = match self.phase {
            TogglePhase::OpenRegistry => match o {
                CallOutcome::Succeeded => TogglePhase::OpenService,
                CallOutcome::Failed(c) => TogglePhase::Done(
                    Err(ToggleError::RegistryOpenFailed(c)),
                ),
            },
            TogglePhase::OpenService => match o {
                CallOutcome::Succeeded => TogglePhase::ChangeConfig,
                CallOutcome::Failed(c) => TogglePhase::CloseRegistry(
                    Err(ToggleError::ServiceOpenFailed(c)),
                ),
            },
            TogglePhase::ChangeConfig => match o {
                CallOutcome::Succeeded => TogglePhase::CloseService(Ok(())),
                CallOutcome::Failed(c) => TogglePhase::CloseService(
                    Err(ToggleError::ConfigChangeFailed(c)),
                ),
            },
            TogglePhase::CloseService(r) => TogglePhase::CloseRegistry(r),
            TogglePhase::CloseRegistry(r) => TogglePhase::Done(r),
            TogglePhase::Done(r) => TogglePhase::Done(r),
        };
        self.phase = next;
    }

    /// The result, once every handle has been released.
    pub fn result(&self) -> (r: Option<Result<(), ToggleError>>)
        ensures
            r matches Some(x) ==> self.phase == TogglePhase::Done(x),
            r is None <==> !(self.phase is Done),
    {
        match self.phase {
            TogglePhase::Done(r) => Some(r),
            _ => None,
        }
    }
}

/// Once done, the operation stays done and makes no more calls.
proof fn lemma_done_is_final(r: Result<(), ToggleError>, outs: Seq<CallOutcome>)
    ensures
        run_toggle(TogglePhase::Done(r), outs) == TogglePhase::Done(r),
        count_calls(TogglePhase::Done(r), outs, any_call()) == 0,
        count_calls(TogglePhase::Done(r), outs, tries_service()) == 0,
        count_calls(TogglePhase::Done(r), outs, changes_config()) == 0,
    decreases outs.len(),
{
    if outs.len() > 0 {
        lemma_done_is_final(r, outs.drop_first());
    }
}

/// From any phase, each handle is opened at most once, and what is opened
/// and not yet released is exactly what the reached phase holds.
proof fn lemma_handle_balance(p: TogglePhase, outs: Seq<CallOutcome>)
    ensures
        count_calls(p, outs, opens_registry()) + (if registry_held(p) { 1int } else { 0int })
            == count_calls(p, outs, closes_registry()) + (if registry_held(run_toggle(p, outs)) {
            1int
        } else {
            0int
        }),
        count_calls(p, outs, opens_service()) + (if service_held(p) { 1int } else { 0int })
            == count_calls(p, outs, closes_service()) + (if service_held(run_toggle(p, outs)) {
            1int
        } else {
            0int
        }),
        count_calls(p, outs, opens_registry()) <= (if p is OpenRegistry { 1int } else { 0int }),
        count_calls(p, outs, opens_service()) <= (if p is OpenRegistry || p is OpenService {
            1int
        } else {
            0int
        }),
    decreases outs.len(),
{
    if outs.len() > 0 {
        lemma_handle_balance(next_toggle(p, outs[0]), outs.drop_first());
    }
}

/// Whatever the system calls return, once the operation is done the
/// manager handle and the service handle have each been released exactly
/// as many times as they were opened, and each was opened at most once.
pub proof fn lemma_handles_released(outs: Seq<CallOutcome>)
    requires
        run_toggle(TogglePhase::OpenRegistry, outs) is Done,
    ensures
        count_calls(TogglePhase::OpenRegistry, outs, opens_registry()) == count_calls(
            TogglePhase::OpenRegistry,
            outs,
            closes_registry(),
        ),
        count_calls(TogglePhase::OpenRegistry, outs, opens_registry()) <= 1,
        count_calls(TogglePhase::OpenRegistry, outs, opens_service()) == count_calls(
            TogglePhase::OpenRegistry,
            outs,
            closes_service(),
        ),
        count_calls(TogglePhase::OpenRegistry, outs, opens_service()) <= 1,
{
    lemma_handle_balance(TogglePhase::OpenRegistry, outs);
}

/// When the manager cannot be opened, the operation fails with
/// `RegistryOpenFailed` and that code, and it makes no other call: in
/// particular it never tries to open the service.
pub proof fn lemma_registry_open_failure(code: u32, rest: Seq<CallOutcome>)
    ensures
        run_toggle(TogglePhase::OpenRegistry, seq![CallOutcome::Failed(code)] + rest)
            == TogglePhase::Done(Err(ToggleError::RegistryOpenFailed(code))),
        count_calls(TogglePhase::OpenRegistry, seq![CallOutcome::Failed(code)] + rest, any_call())
            == 1,
        count_calls(
            TogglePhase::OpenRegistry,
            seq![CallOutcome::Failed(code)] + rest,
            tries_service(),
        ) == 0,
{
    let outs = seq![CallOutcome::Failed(code)] + rest;
    assert(outs.drop_first() =~= rest);
    lemma_done_is_final(Err(ToggleError::RegistryOpenFailed(code)), rest);
}

/// When the service cannot be opened, the operation fails with
/// `ServiceOpenFailed` and that code once the manager is released, and it
/// asks for no configuration change.
pub proof fn lemma_service_open_failure(code: u32, close: CallOutcome, rest: Seq<CallOutcome>)
    ensures
        ({
            let outs = seq![CallOutcome::Succeeded, CallOutcome::Failed(code), close] + rest;
            &&& run_toggle(TogglePhase::OpenRegistry, outs) == TogglePhase::Done(
                Err(ToggleError::ServiceOpenFailed(code)),
            )
            &&& count_calls(TogglePhase::OpenRegistry, outs, changes_config()) == 0
            &&& count_calls(TogglePhase::OpenRegistry, outs, any_call()) == 3
        }),
{
    let outs = seq![CallOutcome::Succeeded, CallOutcome::Failed(code), close] + rest;
    let r = Err(ToggleError::ServiceOpenFailed(code));
    reveal_with_fuel(run_toggle, 4);
    reveal_with_fuel(count_calls, 4);
    assert(outs.drop_first() =~= seq![CallOutcome::Failed(code), close] + rest);
    assert(outs.drop_first().drop_first() =~= seq![close] + rest);
    assert(outs.drop_first().drop_first().drop_first() =~= rest);
    lemma_done_is_final(r, rest);
}

/// When every open and the change succeed, the operation asks for exactly
/// one configuration change and ends in success once both handles are
/// released, whatever the releases return.
pub proof fn lemma_success_path(close_service: CallOutcome, close_registry: CallOutcome)
    ensures
        ({
            let outs = seq![
                CallOutcome::Succeeded,
                CallOutcome::Succeeded,
                CallOutcome::Succeeded,
                close_service,
                close_registry,
            ];
            &&& run_toggle(TogglePhase::OpenRegistry, outs) == TogglePhase::Done(Ok(()))
            &&& count_calls(TogglePhase::OpenRegistry, outs, changes_config()) == 1
        }),
{
    let outs = seq![
        CallOutcome::Succeeded,
        CallOutcome::Succeeded,
        CallOutcome::Succeeded,
        close_service,
        close_registry,
    ];
    reveal_with_fuel(run_toggle, 6);
    reveal_with_fuel(count_calls, 6);
    assert(outs.drop_first() =~= seq![
        CallOutcome::Succeeded,
        CallOutcome::Succeeded,
        close_service,
        close_registry,
    ]);
    assert(outs.drop_first().drop_first() =~= seq![
        CallOutcome::Succeeded,
        close_service,
        close_registry,
    ]);
    assert(outs.drop_first().drop_first().drop_first() =~= seq![close_service, close_registry]);
    assert(outs.drop_first().drop_first().drop_first().drop_first() =~= seq![close_registry]);
    assert(outs.drop_first().drop_first().drop_first().drop_first().drop_first() =~= Seq::<
        CallOutcome,
    >::empty());
}

} // verus!
