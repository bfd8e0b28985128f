//! Guarantees of the supervisor over whole runs.
//!
//! Each proof function here states one behaviour of the machine across
//! several steps: what a run looks like when the port already answers, when
//! a launched child becomes reachable within the poll budget, when the
//! budget runs out, and how `shutdown` treats the handle slot.

use vstd::prelude::*;

use crate::supervisor::Action;
use crate::supervisor::Event;
use crate::supervisor::Phase;
use crate::supervisor::POLL_ATTEMPTS;
use crate::supervisor::StartError;
use crate::supervisor::StartSuccess;
use crate::supervisor::Supervisor;
use crate::supervisor::exit_status_spec;

verus! {

/// The state a run reaches once begun, found the port unreachable, launched
/// a child with handle `handle`, and slept through the warm-up: polling,
/// with the whole budget ahead and the one handle stored.
pub open spec fn polling_start(handle: u64) -> Supervisor {
    Supervisor::init()
        .step_state(Event::Begin)
        .step_state(Event::Probed { reachable: false })
        .step_state(Event::SpawnedOk { handle })
        .step_state(Event::Slept)
}

/// The state after `rounds` readiness polls each found the port unreachable
/// and the sleep between polls elapsed each time.
pub open spec fn after_failed_rounds(s: Supervisor, rounds: nat) -> Supervisor
    decreases rounds,
{
    if rounds == 0 {
        s
    } else {
        after_failed_rounds(
            s.step_state(Event::Probed { reachable: false }).step_state(Event::Slept),
            (rounds - 1) as nat,
        )
    }
}

/// A failed poll round with budget to spare decrements the budget by one
/// and touches nothing else.
proof fn lemma_failed_rounds_stay_polling(s: Supervisor, rounds: nat)
    requires
        s.phase == Phase::Polling,
        rounds < s.attempts_left,
    ensures
        ({
            let t = after_failed_rounds(s, rounds);
            &&& t.phase == Phase::Polling
            &&& t.attempts_left == s.attempts_left - rounds
            &&& t.handle == s.handle
            &&& t.outcome == s.outcome
            &&& t.spawns == s.spawns
            &&& t.kills == s.kills
        }),
    decreases rounds,
{
    if rounds > 0 {
        let next = s.step_state(Event::Probed { reachable: false }).step_state(Event::Slept);
        lemma_failed_rounds_stay_polling(next, (rounds - 1) as nat);
    }
}

/// When the target port answers the very first probe, the run finishes
/// successfully at once: no launch request was ever issued, and no handle
/// was stored.
pub proof fn already_up_launches_nothing()
    ensures
        ({
            let done = Supervisor::init()
                .step_state(Event::Begin)
                .step_state(Event::Probed { reachable: true });
            &&& Supervisor::init().step_state(Event::Begin).step_action(
                Event::Probed { reachable: true },
            ) == (Action::Report { outcome: Ok::<StartSuccess, StartError>(StartSuccess::AlreadyUp) })
            &&& done.phase == Phase::Finished
            &&& done.outcome == Some(Ok::<StartSuccess, StartError>(StartSuccess::AlreadyUp))
            &&& done.spawns == 0
            &&& done.handle == None::<u64>
        }),
{
}

/// When the port is unreachable at first, the launch succeeds, and some
/// poll within the budget finds the port reachable, the run finishes
/// successfully with exactly one launch issued and that child's handle
/// still stored.
pub proof fn ready_within_budget_stores_one_handle(handle: u64, failed_rounds: nat)
    requires
        failed_rounds < POLL_ATTEMPTS,
    ensures
        ({
            let polling = after_failed_rounds(polling_start(handle), failed_rounds);
            let done = polling.step_state(Event::Probed { reachable: true });
            &&& polling.step_action(Event::Probed { reachable: true }) == (Action::Report {
                outcome: Ok::<StartSuccess, StartError>(StartSuccess::Ready),
            })
            &&& done.phase == Phase::Finished
            &&& done.outcome == Some(Ok::<StartSuccess, StartError>(StartSuccess::Ready))
            &&& done.spawns == 1
            &&& done.handle == Some(handle)
        }),
{
    lemma_failed_rounds_stay_polling(polling_start(handle), failed_rounds);
}

/// When every one of the `POLL_ATTEMPTS` polls finds the port unreachable,
/// the run fails with a readiness timeout, and that outcome instructs the
/// host to exit with status 1.
pub proof fn poll_exhaustion_times_out(handle: u64)
    ensures
        ({
            let polling = after_failed_rounds(polling_start(handle), (POLL_ATTEMPTS - 1) as nat);
            let done = polling.step_state(Event::Probed { reachable: false });
            &&& done.phase == Phase::Finished
            &&& done.outcome == Some(
                Err::<StartSuccess, StartError>(StartError::ReadinessTimeout),
            )
            &&& exit_status_spec(Err(StartError::ReadinessTimeout)) == Some(1i32)
        }),
{
    lemma_failed_rounds_stay_polling(polling_start(handle), (POLL_ATTEMPTS - 1) as nat);
}

/// `shutdown` with no stored handle changes nothing at all.
pub proof fn shutdown_without_handle_is_noop(s: Supervisor)
    requires
        s.handle == None::<u64>,
    ensures
        s.shutdown_state() == s,
{
}

/// `shutdown` with a stored handle surrenders it for exactly one terminate
/// request and clears the slot; a second `shutdown` right after changes
/// nothing.
pub proof fn shutdown_with_handle_kills_once(s: Supervisor, handle: u64)
    requires
        s.wf(),
        s.handle == Some(handle),
    ensures
        ({
            let once = s.shutdown_state();
            &&& once.handle == None::<u64>
            &&& once.kills == s.kills + 1
            &&& once.phase == s.phase
            &&& once.outcome == s.outcome
            &&& once.spawns == s.spawns
            &&& once.shutdown_state() == once
        }),
{
}

/// A stored handle survives every `step`: only `shutdown` empties the
/// slot, and it hands the handle out for termination as it does so. This is
/// the machine's half of not losing the handle when startup and shutdown
/// interleave; mutual exclusion between the two callers is the driver's.
pub proof fn stored_handle_survives_steps(s: Supervisor, event: Event)
    requires
        s.wf(),
        s.handle matches Some(_),
    ensures
        s.step_state(event).handle == s.handle,
{
}

} // verus!
