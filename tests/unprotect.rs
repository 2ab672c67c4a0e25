use unprotect_service::control::{unprotect_reply, HandlerResult, UNPROTECT_FAILED};
use unprotect_service::unprotect::{
    CallOutcome, ToggleCommand, ToggleError, TogglePhase, Unprotect, LAUNCH_PROTECTED_NONE,
};

const ERROR_ACCESS_DENIED: u32 = 5;
const ERROR_SERVICE_DOES_NOT_EXIST: u32 = 1060;

/// A simulated service registry that counts handles and records calls.
struct MockRegistry {
    services: Vec<String>,
    registry_open_error: Option<u32>,
    change_error: Option<u32>,
    registry_opens: u32,
    registry_closes: u32,
    service_opens: u32,
    service_closes: u32,
    service_open_attempts: u32,
    config_changes: Vec<(String, u32)>,
    open_service: Option<String>,
}

impl MockRegistry {
    fn with(services: &[&str]) -> MockRegistry {
        MockRegistry {
            services: services.iter().map(|s| s.to_string()).collect(),
            registry_open_error: None,
            change_error: None,
            registry_opens: 0,
            registry_closes: 0,
            service_opens: 0,
            service_closes: 0,
            service_open_attempts: 0,
            config_changes: Vec::new(),
            open_service: None,
        }
    }

    fn perform(&mut self, cmd: &ToggleCommand) -> CallOutcome {
        match cmd {
            ToggleCommand::OpenRegistry => match self.registry_open_error {
                Some(code) => CallOutcome::Failed(code),
                None => {
                    self.registry_opens += 1;
                    CallOutcome::Succeeded
                }
            },
            ToggleCommand::OpenService(name) => {
                self.service_open_attempts += 1;
                if self.services.iter().any(|s| s == name) {
                    self.service_opens += 1;
                    self.open_service = Some(name.clone());
                    CallOutcome::Succeeded
                } else {
                    CallOutcome::Failed(ERROR_SERVICE_DOES_NOT_EXIST)
                }
            }
            ToggleCommand::SetLaunchProtection(level) => {
                let name = self.open_service.clone().unwrap();
                self.config_changes.push((name, *level));
                match self.change_error {
                    Some(code) => CallOutcome::Failed(code),
                    None => CallOutcome::Succeeded,
                }
            }
            ToggleCommand::CloseService => {
                self.service_closes += 1;
                self.open_service = None;
                CallOutcome::Succeeded
            }
            ToggleCommand::CloseRegistry => {
                self.registry_closes += 1;
                CallOutcome::Succeeded
            }
            ToggleCommand::Finish(_) => panic!("no call is made once finished"),
        }
    }
}

fn toggle(mock: &mut MockRegistry, name: &str) -> Result<(), ToggleError> {
    let mut op = Unprotect::new(name.to_string());
    for _ in 0..10 {
        let cmd = op.command();
        if let ToggleCommand::Finish(r) = cmd {
            assert_eq!(op.result(), Some(r));
            return r;
        }
        assert_eq!(op.result(), None);
        let outcome = mock.perform(&cmd);
        op.on_outcome(outcome);
    }
    panic!("the operation did not finish")
}

#[test]
fn toggle_success_clears_protection() {
    let mut mock = MockRegistry::with(&["svc-a", "svc-b"]);
    let r = toggle(&mut mock, "svc-a");
    assert_eq!(r, Ok(()));
    assert_eq!(mock.config_changes, vec![("svc-a".to_string(), LAUNCH_PROTECTED_NONE)]);
    assert_eq!(LAUNCH_PROTECTED_NONE, 0);
    assert_eq!(unprotect_reply(&r), HandlerResult::NoError);
}

#[test]
fn toggle_absent_service_fails_to_open() {
    let mut mock = MockRegistry::with(&["svc-a"]);
    let r = toggle(&mut mock, "svc-x");
    assert_eq!(r, Err(ToggleError::ServiceOpenFailed(ERROR_SERVICE_DOES_NOT_EXIST)));
    assert!(mock.config_changes.is_empty());
    assert_eq!(unprotect_reply(&r), HandlerResult::Other(UNPROTECT_FAILED));
}

#[test]
fn toggle_empty_name_fails_to_open() {
    let mut mock = MockRegistry::with(&["svc-a"]);
    let r = toggle(&mut mock, "");
    assert_eq!(r, Err(ToggleError::ServiceOpenFailed(ERROR_SERVICE_DOES_NOT_EXIST)));
    assert_eq!(mock.service_open_attempts, 1);
}

#[test]
fn toggle_registry_open_failure_makes_no_further_call() {
    let mut mock = MockRegistry::with(&["svc-a"]);
    mock.registry_open_error = Some(ERROR_ACCESS_DENIED);
    let r = toggle(&mut mock, "svc-a");
    assert_eq!(r, Err(ToggleError::RegistryOpenFailed(ERROR_ACCESS_DENIED)));
    assert_eq!(mock.service_open_attempts, 0);
    assert_eq!(mock.registry_closes, 0);
    assert_eq!(mock.service_closes, 0);
    assert!(mock.config_changes.is_empty());
    assert_eq!(unprotect_reply(&r), HandlerResult::Other(1));
}

#[test]
fn toggle_config_change_failure() {
    let mut mock = MockRegistry::with(&["svc-a"]);
    mock.change_error = Some(ERROR_ACCESS_DENIED);
    let r = toggle(&mut mock, "svc-a");
    assert_eq!(r, Err(ToggleError::ConfigChangeFailed(ERROR_ACCESS_DENIED)));
    assert_eq!(mock.config_changes.len(), 1);
    assert_eq!(unprotect_reply(&r), HandlerResult::Other(UNPROTECT_FAILED));
}

#[test]
fn toggle_releases_every_handle_once() {
    let cases: Vec<(Option<u32>, Option<u32>, &str)> = vec![
        (None, None, "svc-a"),
        (None, None, "svc-x"),
        (None, Some(ERROR_ACCESS_DENIED), "svc-a"),
        (Some(ERROR_ACCESS_DENIED), None, "svc-a"),
    ];
    for (reg_err, change_err, name) in cases {
        let mut mock = MockRegistry::with(&["svc-a"]);
        mock.registry_open_error = reg_err;
        mock.change_error = change_err;
        let _ = toggle(&mut mock, name);
        assert_eq!(mock.registry_opens, mock.registry_closes);
        assert_eq!(mock.service_opens, mock.service_closes);
        assert!(mock.registry_opens <= 1);
        assert!(mock.service_opens <= 1);
    }
}

#[test]
fn toggle_releases_after_failed_release() {
    let mut op = Unprotect::new("svc-a".to_string());
    op.on_outcome(CallOutcome::Succeeded);
    op.on_outcome(CallOutcome::Succeeded);
    op.on_outcome(CallOutcome::Succeeded);
    assert!(matches!(op.command(), ToggleCommand::CloseService));
    op.on_outcome(CallOutcome::Failed(6));
    assert!(matches!(op.command(), ToggleCommand::CloseRegistry));
    op.on_outcome(CallOutcome::Failed(6));
    assert_eq!(op.result(), Some(Ok(())));
    op.on_outcome(CallOutcome::Succeeded);
    assert!(matches!(op.phase, TogglePhase::Done(Ok(()))));
}

#[test]
fn toggle_commands_carry_name_and_level() {
    let mut op = Unprotect::new("svc-b".to_string());
    assert!(matches!(op.command(), ToggleCommand::OpenRegistry));
    op.on_outcome(CallOutcome::Succeeded);
    match op.command() {
        ToggleCommand::OpenService(n) => assert_eq!(n, "svc-b"),
        other => panic!("unexpected command {:?}", other),
    }
    op.on_outcome(CallOutcome::Succeeded);
    match op.command() {
        ToggleCommand::SetLaunchProtection(level) => assert_eq!(level, 0),
        other => panic!("unexpected command {:?}", other),
    }
}
