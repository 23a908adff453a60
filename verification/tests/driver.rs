use network_tunnel::errors::{Error, IoError, IoErrorKind};
use network_tunnel::tunnel::{exit_code, Driver, DriverAction, DriverEvent, DriverPhase, READY_SIGNAL};

#[derive(Debug)]
struct TestTunnel {
    cleanup_called: bool,
    error_in_prepare: bool,
    error_in_serve: bool,
    error_in_cleanup: bool,
    calls: Vec<&'static str>,
}

impl TestTunnel {
    fn new(error_in_prepare: bool, error_in_serve: bool, error_in_cleanup: bool) -> TestTunnel {
        TestTunnel {
            cleanup_called: false,
            error_in_prepare,
            error_in_serve,
            error_in_cleanup,
            calls: Vec::new(),
        }
    }

    fn prepare(&mut self) -> Result<(), Error> {
        self.calls.push("prepare");
        if self.error_in_prepare {
            return Err(Error::TunnelExitNonZero("prepare-error".to_string()));
        }

        Ok(())
    }

    fn start_serve(&mut self) -> Result<(), Error> {
        self.calls.push("serve");
        if self.error_in_serve {
            return Err(Error::TunnelExitNonZero("serve-error".to_string()));
        }

        Ok(())
    }

    fn cleanup(&mut self) -> Result<(), Error> {
        self.calls.push("cleanup");
        self.cleanup_called = true;
        if self.error_in_cleanup {
            return Err(Error::IO(IoError {
                kind: IoErrorKind::PermissionDenied,
                message: "cleanup-error".to_string(),
            }));
        }

        Ok(())
    }
}

fn run_and_cleanup(tunnel: &mut TestTunnel) -> Result<(), Error> {
    let mut driver = Driver::new();
    let mut event = DriverEvent::Start;
    loop {
        event = match driver.step(event) {
            DriverAction::Prepare => DriverEvent::Prepared(tunnel.prepare()),
            DriverAction::SignalReady(token) => {
                tunnel.calls.push(token);
                DriverEvent::ReadySignalled
            }
            DriverAction::Serve => DriverEvent::Served(tunnel.start_serve()),
            DriverAction::Cleanup => DriverEvent::CleanedUp(tunnel.cleanup()),
            DriverAction::Return(result) => return result,
            DriverAction::Rejected => panic!("the driver rejected an event of its own run"),
        };
    }
}

#[test]
fn test_cleanup_call_error_in_prepare() {
    let mut tunnel = TestTunnel::new(true, false, false);

    let result = run_and_cleanup(&mut tunnel);
    assert!(result.is_err());

    assert!(tunnel.cleanup_called);
}

#[test]
fn test_cleanup_call_error_in_serve() {
    let mut tunnel = TestTunnel::new(false, true, false);

    let result = run_and_cleanup(&mut tunnel);
    assert!(result.is_err());

    assert!(tunnel.cleanup_called);
}

#[test]
fn test_cleanup_call_success() {
    let mut tunnel = TestTunnel::new(false, false, false);

    let result = run_and_cleanup(&mut tunnel);
    assert!(result.is_ok());

    assert!(tunnel.cleanup_called);
}

#[test]
fn run_calls_every_operation_once_and_in_order() {
    let mut tunnel = TestTunnel::new(false, false, false);
    assert_eq!(run_and_cleanup(&mut tunnel), Ok(()));
    assert_eq!(tunnel.calls, vec!["prepare", "READY", "serve", "cleanup"]);
}

#[test]
fn run_skips_serve_and_still_cleans_up_when_prepare_fails() {
    let mut tunnel = TestTunnel::new(true, false, false);
    assert_eq!(
        run_and_cleanup(&mut tunnel),
        Err(Error::TunnelExitNonZero("prepare-error".to_string()))
    );
    assert_eq!(tunnel.calls, vec!["prepare", "READY", "cleanup"]);
}

#[test]
fn run_cleans_up_exactly_once_in_every_case() {
    for prepare in [false, true] {
        for serve in [false, true] {
            for cleanup in [false, true] {
                let mut tunnel = TestTunnel::new(prepare, serve, cleanup);
                let _ = run_and_cleanup(&mut tunnel);
                let cleanups = tunnel.calls.iter().filter(|call| **call == "cleanup").count();
                assert_eq!(cleanups, 1);
                assert_eq!(tunnel.calls.last(), Some(&"cleanup"));
            }
        }
    }
}

#[test]
fn failure_of_serve_is_returned_after_cleanup() {
    let mut tunnel = TestTunnel::new(false, true, false);
    assert_eq!(
        run_and_cleanup(&mut tunnel),
        Err(Error::TunnelExitNonZero("serve-error".to_string()))
    );
    assert_eq!(tunnel.calls, vec!["prepare", "READY", "serve", "cleanup"]);
}

#[test]
fn failure_of_prepare_wins_over_failure_of_cleanup() {
    let mut tunnel = TestTunnel::new(true, false, true);
    assert_eq!(
        run_and_cleanup(&mut tunnel),
        Err(Error::TunnelExitNonZero("prepare-error".to_string()))
    );
    assert!(tunnel.cleanup_called);
}

#[test]
fn failure_of_serve_wins_over_failure_of_cleanup() {
    let mut tunnel = TestTunnel::new(false, true, true);
    assert_eq!(
        run_and_cleanup(&mut tunnel),
        Err(Error::TunnelExitNonZero("serve-error".to_string()))
    );
    assert!(tunnel.cleanup_called);
}

#[test]
fn failure_of_cleanup_alone_is_returned() {
    let mut tunnel = TestTunnel::new(false, false, true);
    assert_eq!(
        run_and_cleanup(&mut tunnel),
        Err(Error::IO(IoError {
            kind: IoErrorKind::PermissionDenied,
            message: "cleanup-error".to_string(),
        }))
    );
}

#[test]
fn driver_starts_idle_and_without_failure() {
    let driver = Driver::new();
    assert_eq!(driver.phase, DriverPhase::Idle);
    assert_eq!(driver.failure, None);
}

#[test]
fn driver_walks_through_its_phases() {
    let mut driver = Driver::new();
    assert_eq!(driver.step(DriverEvent::Start), DriverAction::Prepare);
    assert_eq!(driver.phase, DriverPhase::Preparing);
    assert_eq!(driver.step(DriverEvent::Prepared(Ok(()))), DriverAction::SignalReady("READY"));
    assert_eq!(driver.phase, DriverPhase::Signalling);
    assert_eq!(driver.step(DriverEvent::ReadySignalled), DriverAction::Serve);
    assert_eq!(driver.phase, DriverPhase::Serving);
    assert_eq!(driver.step(DriverEvent::Served(Ok(()))), DriverAction::Cleanup);
    assert_eq!(driver.phase, DriverPhase::CleaningUp);
    assert_eq!(driver.step(DriverEvent::CleanedUp(Ok(()))), DriverAction::Return(Ok(())));
    assert_eq!(driver.phase, DriverPhase::Finished);
    assert_eq!(driver.failure, None);
}

#[test]
fn driver_keeps_the_failure_of_prepare_until_it_returns() {
    let mut driver = Driver::new();
    driver.step(DriverEvent::Start);
    driver.step(DriverEvent::Prepared(Err(Error::SSH("no route".to_string()))));
    assert_eq!(driver.failure, Some(Error::SSH("no route".to_string())));
    assert_eq!(driver.step(DriverEvent::ReadySignalled), DriverAction::Cleanup);
    assert_eq!(driver.phase, DriverPhase::CleaningUp);
    assert_eq!(
        driver.step(DriverEvent::CleanedUp(Ok(()))),
        DriverAction::Return(Err(Error::SSH("no route".to_string())))
    );
}

#[test]
fn driver_rejects_an_event_out_of_turn_and_stays_as_it_was() {
    let mut driver = Driver::new();
    assert_eq!(driver.step(DriverEvent::Served(Ok(()))), DriverAction::Rejected);
    assert_eq!(driver, Driver::new());
    driver.step(DriverEvent::Start);
    assert_eq!(driver.step(DriverEvent::Start), DriverAction::Rejected);
    assert_eq!(driver.step(DriverEvent::ReadySignalled), DriverAction::Rejected);
    assert_eq!(driver.step(DriverEvent::CleanedUp(Ok(()))), DriverAction::Rejected);
    assert_eq!(driver.phase, DriverPhase::Preparing);
}

#[test]
fn driver_that_has_returned_rejects_everything() {
    let mut driver = Driver { phase: DriverPhase::Finished, failure: None };
    assert_eq!(driver.step(DriverEvent::Start), DriverAction::Rejected);
    assert_eq!(driver.step(DriverEvent::Prepared(Ok(()))), DriverAction::Rejected);
    assert_eq!(driver.step(DriverEvent::CleanedUp(Ok(()))), DriverAction::Rejected);
    assert_eq!(driver.phase, DriverPhase::Finished);
}

#[test]
fn ready_signal_is_the_fixed_token() {
    assert_eq!(READY_SIGNAL, "READY");
    let mut driver = Driver::new();
    driver.step(DriverEvent::Start);
    let failed = Err(Error::SSH("no route".to_string()));
    assert_eq!(driver.step(DriverEvent::Prepared(failed)), DriverAction::SignalReady(READY_SIGNAL));
}

#[test]
fn exit_code_is_zero_for_success_and_one_for_failure() {
    assert_eq!(exit_code(&Ok(())), 0);
    assert_eq!(exit_code(&Err(Error::TunnelExitNonZero("2".to_string()))), 1);
    assert_eq!(exit_code(&Err(Error::SSH("denied".to_string()))), 1);
}
