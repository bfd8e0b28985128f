use backend_supervisor::supervisor::Action;
use backend_supervisor::supervisor::Event;
use backend_supervisor::supervisor::Phase;
use backend_supervisor::supervisor::StartError;
use backend_supervisor::supervisor::StartSuccess;
use backend_supervisor::supervisor::Supervisor;
use backend_supervisor::supervisor::exit_status;
use backend_supervisor::supervisor::POLL_ATTEMPTS;
use backend_supervisor::supervisor::POLL_INTERVAL_MILLIS;
use backend_supervisor::supervisor::WARMUP_MILLIS;

/// Drive a fresh supervisor through begin, a failed initial probe, a
/// successful launch and the warm-up sleep, so that it is polling.
fn polling_supervisor(handle: u64) -> Supervisor {
    let mut s = Supervisor::new();
    assert_eq!(s.step(Event::Begin), Action::Probe);
    assert_eq!(s.step(Event::Probed { reachable: false }), Action::Launch);
    assert_eq!(
        s.step(Event::SpawnedOk { handle }),
        Action::Sleep { millis: WARMUP_MILLIS }
    );
    assert_eq!(s.step(Event::Slept), Action::Probe);
    s
}

#[test]
fn port_already_up_spawns_nothing() {
    let mut s = Supervisor::new();
    assert_eq!(s.step(Event::Begin), Action::Probe);
    let action = s.step(Event::Probed { reachable: true });
    assert_eq!(
        action,
        Action::Report {
            outcome: Ok(StartSuccess::AlreadyUp)
        }
    );
    assert_eq!(s.phase, Phase::Finished);
    assert_eq!(s.outcome, Some(Ok(StartSuccess::AlreadyUp)));
    assert_eq!(s.spawns, 0);
    assert_eq!(s.handle, None);
}

#[test]
fn ready_on_first_poll_stores_one_handle() {
    let mut s = polling_supervisor(41);
    let action = s.step(Event::Probed { reachable: true });
    assert_eq!(
        action,
        Action::Report {
            outcome: Ok(StartSuccess::Ready)
        }
    );
    assert_eq!(s.outcome, Some(Ok(StartSuccess::Ready)));
    assert_eq!(s.spawns, 1);
    assert_eq!(s.handle, Some(41));
}

#[test]
fn ready_within_budget_stores_one_handle() {
    let mut s = polling_supervisor(7);
    for _ in 0..3 {
        assert_eq!(
            s.step(Event::Probed { reachable: false }),
            Action::Sleep {
                millis: POLL_INTERVAL_MILLIS
            }
        );
        assert_eq!(s.step(Event::Slept), Action::Probe);
    }
    let action = s.step(Event::Probed { reachable: true });
    assert_eq!(
        action,
        Action::Report {
            outcome: Ok(StartSuccess::Ready)
        }
    );
    assert_eq!(s.phase, Phase::Finished);
    assert_eq!(s.spawns, 1);
    assert_eq!(s.handle, Some(7));
}

#[test]
fn poll_exhaustion_reports_timeout_and_exit_status_one() {
    let mut s = polling_supervisor(9);
    for _ in 0..POLL_ATTEMPTS - 1 {
        assert_eq!(
            s.step(Event::Probed { reachable: false }),
            Action::Sleep {
                millis: POLL_INTERVAL_MILLIS
            }
        );
        assert_eq!(s.step(Event::Slept), Action::Probe);
    }
    let action = s.step(Event::Probed { reachable: false });
    assert_eq!(
        action,
        Action::Report {
            outcome: Err(StartError::ReadinessTimeout)
        }
    );
    assert_eq!(s.outcome, Some(Err(StartError::ReadinessTimeout)));
    assert_eq!(exit_status(&Err(StartError::ReadinessTimeout)), Some(1));
}

#[test]
fn resolution_failure_is_fatal() {
    let mut s = Supervisor::new();
    s.step(Event::Begin);
    s.step(Event::Probed { reachable: false });
    let action = s.step(Event::SpawnFailed {
        during_resolution: true,
    });
    assert_eq!(
        action,
        Action::Report {
            outcome: Err(StartError::ResolutionFailure)
        }
    );
    assert_eq!(s.handle, None);
    assert_eq!(exit_status(&Err(StartError::ResolutionFailure)), Some(1));
}

#[test]
fn spawn_failure_is_fatal() {
    let mut s = Supervisor::new();
    s.step(Event::Begin);
    s.step(Event::Probed { reachable: false });
    let action = s.step(Event::SpawnFailed {
        during_resolution: false,
    });
    assert_eq!(
        action,
        Action::Report {
            outcome: Err(StartError::SpawnFailure)
        }
    );
    assert_eq!(exit_status(&Err(StartError::SpawnFailure)), Some(1));
}

#[test]
fn exit_status_of_success_is_none() {
    assert_eq!(exit_status(&Ok(StartSuccess::AlreadyUp)), None);
    assert_eq!(exit_status(&Ok(StartSuccess::Ready)), None);
}

#[test]
fn shutdown_without_handle_is_noop() {
    let mut s = Supervisor::new();
    let before = s;
    assert_eq!(s.shutdown(), None);
    assert_eq!(s, before);
    assert_eq!(s.kills, 0);
}

#[test]
fn shutdown_with_handle_kills_once_then_noop() {
    let mut s = polling_supervisor(23);
    assert_eq!(s.shutdown(), Some(23));
    assert_eq!(s.handle, None);
    assert_eq!(s.kills, 1);
    let after_first = s;
    assert_eq!(s.shutdown(), None);
    assert_eq!(s, after_first);
    assert_eq!(s.kills, 1);
}

#[test]
fn stored_handle_survives_polling_steps() {
    let mut s = polling_supervisor(5);
    assert_eq!(s.handle, Some(5));
    s.step(Event::Probed { reachable: false });
    assert_eq!(s.handle, Some(5));
    s.step(Event::Slept);
    assert_eq!(s.handle, Some(5));
    s.step(Event::Probed { reachable: true });
    assert_eq!(s.handle, Some(5));
}

#[test]
fn mismatched_events_are_ignored() {
    let mut s = Supervisor::new();
    assert_eq!(s.step(Event::Slept), Action::Ignore);
    assert_eq!(s.phase, Phase::Idle);
    s.step(Event::Begin);
    assert_eq!(s.step(Event::SpawnedOk { handle: 3 }), Action::Ignore);
    assert_eq!(s.phase, Phase::Probing);
    assert_eq!(s.handle, None);
}

#[test]
fn finished_is_terminal() {
    let mut s = Supervisor::new();
    s.step(Event::Begin);
    s.step(Event::Probed { reachable: true });
    let before = s;
    assert_eq!(s.step(Event::Begin), Action::Ignore);
    assert_eq!(s.step(Event::Probed { reachable: false }), Action::Ignore);
    assert_eq!(s, before);
}

#[test]
fn shutdown_during_run_keeps_run_going() {
    let mut s = polling_supervisor(11);
    assert_eq!(s.shutdown(), Some(11));
    assert_eq!(s.phase, Phase::Polling);
    let action = s.step(Event::Probed { reachable: true });
    assert_eq!(
        action,
        Action::Report {
            outcome: Ok(StartSuccess::Ready)
        }
    );
}
