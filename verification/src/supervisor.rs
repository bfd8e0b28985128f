//! The supervisor state machine.
//!
//! One run of the machine mirrors one startup attempt: probe the fixed
//! target port; if it already answers, report success without launching
//! anything; otherwise request a launch, wait through a fixed warm-up
//! interval, then poll the port up to [`POLL_ATTEMPTS`] times with
//! [`POLL_INTERVAL_MILLIS`] between attempts. The machine itself performs
//! no I/O: each [`Supervisor::step`] consumes one [`Event`] (the outcome of
//! the previous request) and returns the next [`Action`] for the driver to
//! perform. A stored process handle is surrendered exactly once through
//! [`Supervisor::shutdown`].

use vstd::prelude::*;

verus! {

/// Warm-up delay between a successful launch and the first readiness poll.
pub const WARMUP_MILLIS: u64 = 3000;

/// Delay between two consecutive readiness polls.
pub const POLL_INTERVAL_MILLIS: u64 = 500;

/// Number of readiness polls after the warm-up before the run times out.
pub const POLL_ATTEMPTS: u8 = 10;

/// How a successful run ended.
#[derive(Clone, Copy, Debug, PartialEq, Eq)]
pub enum StartSuccess {
    /// The port answered before anything was launched.
    AlreadyUp,
    /// A child was launched and the port answered within the poll budget.
    Ready,
}

/// Why a run failed.
#[derive(Clone, Copy, Debug, PartialEq, Eq)]
pub enum StartError {
    /// The launch command could not be resolved.
    ResolutionFailure,
    /// The operating system refused to create the child process.
    SpawnFailure,
    /// The port never answered within the poll budget.
    ReadinessTimeout,
}

/// Where the machine stands within a startup run.
#[derive(Clone, Copy, Debug, PartialEq, Eq)]
pub enum Phase {
    /// Nothing has happened yet.
    Idle,
    /// The initial reachability probe is outstanding.
    Probing,
    /// A launch request is outstanding.
    Spawning,
    /// The warm-up sleep is outstanding.
    WarmingUp,
    /// A readiness poll is outstanding.
    Polling,
    /// The sleep between two readiness polls is outstanding.
    PollWaiting,
    /// The run ended; `outcome` says how. Terminal.
    Finished,
}

/// Outcome of the request the machine issued last, fed back by the driver.
#[derive(Clone, Copy, Debug, PartialEq, Eq)]
pub enum Event {
    /// Start the run.
    Begin,
    /// A reachability probe of the target port came back.
    Probed { reachable: bool },
    /// The launch succeeded; `handle` identifies the child process.
    SpawnedOk { handle: u64 },
    /// The launch failed, either while resolving the command or at spawn.
    SpawnFailed { during_resolution: bool },
    /// A requested sleep elapsed.
    Slept,
}

/// What the driver must do next.
#[derive(Clone, Copy, Debug, PartialEq, Eq)]
pub enum Action {
    /// Probe the target port and answer with `Event::Probed`.
    Probe,
    /// Resolve and spawn the launch command; answer with `Event::SpawnedOk`
    /// or `Event::SpawnFailed`.
    Launch,
    /// Sleep for `millis` milliseconds and answer with `Event::Slept`.
    Sleep { millis: u64 },
    /// The run is over with this outcome; no answer is expected.
    Report { outcome: Result<StartSuccess, StartError> },
    /// The event did not fit the current phase and was discarded.
    Ignore,
}

/// The supervisor: the current phase of the startup run, the slot for the
/// one child-process handle, and counters over the requests issued so far.
#[derive(Clone, Copy, Debug, PartialEq, Eq)]
pub struct Supervisor {
    /// Where the startup run stands.
    pub phase: Phase,
    /// Readiness polls still allowed, meaningful while polling.
    pub attempts_left: u8,
    /// The handle of the launched child, while one is held.
    pub handle: Option<u64>,
    /// How the run ended; set exactly when `phase` is `Finished`.
    pub outcome: Option<Result<StartSuccess, StartError>>,
    /// Launch requests issued during this run.
    pub spawns: u32,
    /// Terminate requests issued through `shutdown`.
    pub kills: u32,
}

impl Supervisor {
    /// The state a freshly constructed supervisor is in.
    pub open spec fn init() -> Supervisor {
        Supervisor {
            phase: Phase::Idle,
            attempts_left: 0,
            handle: None,
            outcome: None,
            spawns: 0,
            kills: 0,
        }
    }

    /// States reachable through `new`, `step` and `shutdown`.
    pub open spec fn wf(self) -> bool {
        &&& self.attempts_left <= POLL_ATTEMPTS
        &&& (self.phase == Phase::Polling || self.phase == Phase::PollWaiting)
            ==> 1 <= self.attempts_left
        &&& self.spawns <= 1
        &&& self.kills <= self.spawns
        &&& self.handle matches Some(_) ==> self.kills == 0
        &&& (self.phase == Phase::Idle || self.phase == Phase::Probing) ==> {
            &&& self.spawns == 0
            &&& self.handle == None::<u64>
        }
        &&& self.phase == Phase::Spawning ==> {
            &&& self.spawns == 1
            &&& self.kills == 0
            &&& self.handle == None::<u64>
        }
        &&& (self.phase == Phase::WarmingUp || self.phase == Phase::Polling
            || self.phase == Phase::PollWaiting) ==> self.spawns == 1
        &&& self.handle matches Some(_) ==> self.spawns == 1
        &&& (self.outcome matches Some(_)) <==> self.phase == Phase::Finished
    }

    /// The state after the run ends with `outcome`.
    pub open spec fn finish(self, outcome: Result<StartSuccess, StartError>) -> Supervisor {
        Supervisor { phase: Phase::Finished, outcome: Some(outcome), ..self }
    }

    /// The state after `step(event)`. Events that do not fit the current
    /// phase leave the state unchanged.
    pub open spec fn step_state(self, event: Event) -> Supervisor {
        match self.phase {
            Phase::Idle => match event {
                Event::Begin => Supervisor { phase: Phase::Probing, ..self },
                _ => self,
            },
            Phase::Probing => match event {
                Event::Probed { reachable } => if reachable {
                    self.finish(Ok(StartSuccess::AlreadyUp))
                } else {
                    Supervisor {
                        phase: Phase::Spawning,
                        spawns: (self.spawns + 1) as u32,
                        ..self
                    }
                },
                _ => self,
            },
            Phase::Spawning => match event {
                Event::SpawnedOk { handle } => Supervisor {
                    phase: Phase::WarmingUp,
                    handle: Some(handle),
                    ..self
                },
                Event::SpawnFailed { during_resolution } => if during_resolution {
                    self.finish(Err(StartError::ResolutionFailure))
                } else {
                    self.finish(Err(StartError::SpawnFailure))
                },
                _ => self,
            },
            Phase::WarmingUp => match event {
                Event::Slept => Supervisor {
                    phase: Phase::Polling,
                    attempts_left: POLL_ATTEMPTS,
                    ..self
                },
                _ => self,
            },
            Phase::Polling => match event {
                Event::Probed { reachable } => if reachable {
                    self.finish(Ok(StartSuccess::Ready))
                } else if self.attempts_left > 1 {
                    Supervisor {
                        phase: Phase::PollWaiting,
                        attempts_left: (self.attempts_left - 1) as u8,
                        ..self
                    }
                } else {
                    self.finish(Err(StartError::ReadinessTimeout))
                },
                _ => self,
            },
            Phase::PollWaiting => match event {
                Event::Slept => Supervisor { phase: Phase::Polling, ..self },
                _ => self,
            },
            Phase::Finished => self,
        }
    }

    /// The action `step(event)` returns.
    pub open spec fn step_action(self, event: Event) -> Action {
        match self.phase {
            Phase::Idle => match event {
                Event::Begin => Action::Probe,
                _ => Action::Ignore,
            },
            Phase::Probing => match event {
                Event::Probed { reachable } => if reachable {
                    Action::Report { outcome: Ok(StartSuccess::AlreadyUp) }
                } else {
                    Action::Launch
                },
                _ => Action::Ignore,
            },
            Phase::Spawning => match event {
                Event::SpawnedOk { handle: _ } => Action::Sleep { millis: WARMUP_MILLIS },
                Event::SpawnFailed { during_resolution } => if during_resolution {
                    Action::Report { outcome: Err(StartError::ResolutionFailure) }
                } else {
                    Action::Report { outcome: Err(StartError::SpawnFailure) }
                },
                _ => Action::Ignore,
            },
            Phase::WarmingUp => match event {
                Event::Slept => Action::Probe,
                _ => Action::Ignore,
            },
            Phase::Polling => match event {
                Event::Probed { reachable } => if reachable {
                    Action::Report { outcome: Ok(StartSuccess::Ready) }
                } else if self.attempts_left > 1 {
                    Action::Sleep { millis: POLL_INTERVAL_MILLIS }
                } else {
                    Action::Report { outcome: Err(StartError::ReadinessTimeout) }
                },
                _ => Action::Ignore,
            },
            Phase::PollWaiting => match event {
                Event::Slept => Action::Probe,
                _ => Action::Ignore,
            },
            Phase::Finished => Action::Ignore,
        }
    }

    /// The state after `shutdown`: the handle slot is empty, and the kill
    /// counter went up exactly when a handle was held.
    pub open spec fn shutdown_state(self) -> Supervisor {
        Supervisor {
            handle: None,
            kills: if self.handle matches Some(_) { (self.kills + 1) as u32 } else { self.kills },
            ..self
        }
    }

    /// A supervisor that has not started its run yet.
    pub fn new() -> (s: Supervisor)
        ensures
            s == Supervisor::init(),
            s.wf(),
    {
        Supervisor {
            phase: Phase::Idle,
            attempts_left: 0,
            handle: None,
            outcome: None,
            spawns: 0,
            kills: 0,
        }
    }

    /// Advance the run by one event and say what the driver must do next.
    pub fn step(&mut self, event: Event) -> (action: Action)
        requires
            old(self).wf(),
        ensures
            final(self).wf(),
            *final(self) == old(self).step_state(event),
            action == old(self).step_action(event),
    {
        match self.phase {
            Phase::Idle => match event {
                Event::Begin => {
                    self.phase = Phase::Probing;
                    Action::Probe
                },
                _ => Action::Ignore,
            },
            Phase::Probing => match event {
                Event::Probed { reachable } => {
                    if reachable {
                        self.phase = Phase::Finished;
                        self.outcome = Some(Ok(StartSuccess::AlreadyUp));
                        Action::Report { outcome: Ok(StartSuccess::AlreadyUp) }
                    } else {
                        self.phase = Phase::Spawning;
                        self.spawns = self.spawns + 1;
                        Action::Launch
                    }
                },
                _ => Action::Ignore,
            },
            Phase::Spawning => match event {
                Event::SpawnedOk { handle } => {
                    self.phase = Phase::WarmingUp;
                    self.handle = Some(handle);
                    Action::Sleep { millis: WARMUP_MILLIS }
                },
                Event::SpawnFailed { during_resolution } => {
                    if during_resolution {
                        self.phase = Phase::Finished;
                        self.outcome = Some(Err(StartError::ResolutionFailure));
                        Action::Report { outcome: Err(StartError::ResolutionFailure) }
                    } else {
                        self.phase = Phase::Finished;
                        self.outcome = Some(Err(StartError::SpawnFailure));
                        Action::Report { outcome: Err(StartError::SpawnFailure) }
                    }
                },
                _ => Action::Ignore,
            },
            Phase::WarmingUp => match event {
                Event::Slept => {
                    self.phase = Phase::Polling;
                    self.attempts_left = POLL_ATTEMPTS;
                    Action::Probe
                },
                _ => Action::Ignore,
            },
            Phase::Polling => match event {
                Event::Probed { reachable } => {
                    if reachable {
                        self.phase = Phase::Finished;
                        self.outcome = Some(Ok(StartSuccess::Ready));
                        Action::Report { outcome: Ok(StartSuccess::Ready) }
                    } else if self.attempts_left > 1 {
                        self.phase = Phase::PollWaiting;
                        self.attempts_left = self.attempts_left - 1;
                        Action::Sleep { millis: POLL_INTERVAL_MILLIS }
                    } else {
                        self.phase = Phase::Finished;
                        self.outcome = Some(Err(StartError::ReadinessTimeout));
                        Action::Report { outcome: Err(StartError::ReadinessTimeout) }
                    }
                },
                _ => Action::Ignore,
            },
            Phase::PollWaiting => match event {
                Event::Slept => {
                    self.phase = Phase::Polling;
                    Action::Probe
                },
                _ => Action::Ignore,
            },
            Phase::Finished => Action::Ignore,
        }
    }

    /// Empty the handle slot. The returned handle, if any, is the one child
    /// the driver must send a single terminate request to; with no handle
    /// held this changes nothing. The rest of the state is untouched, so a
    /// startup run in flight keeps going.
    pub fn shutdown(&mut self) -> (victim: Option<u64>)
        requires
            old(self).wf(),
        ensures
            final(self).wf(),
            *final(self) == old(self).shutdown_state(),
            victim == old(self).handle,
            final(self).handle == None::<u64>,
            old(self).handle matches Some(_) ==> final(self).kills == old(self).kills + 1,
            old(self).handle == None::<u64> ==> *final(self) == *old(self),
    {
        match self.handle {
            Some(h) => {
                self.handle = None;
                self.kills = self.kills + 1;
                Some(h)
            },
            None => None,
        }
    }
}

/// The process exit status the host application must adopt when the run
/// ends with `outcome`: a failed startup is fatal with status 1, a
/// successful one lets the application keep running.
pub open spec fn exit_status_spec(outcome: Result<StartSuccess, StartError>) -> Option<i32> {
    match outcome {
        Ok(_) => None,
        Err(_) => Some(1i32),
    }
}

/// Executable form of [`exit_status_spec`].
pub fn exit_status(outcome: &Result<StartSuccess, StartError>) -> (code: Option<i32>)
    ensures
        code == exit_status_spec(*outcome),
{
    match outcome {
        Ok(_) => None,
        Err(_) => Some(1),
    }
}

} // verus!
