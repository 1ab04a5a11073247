//! The lifecycle of a precise sleeper's timer handle.
//!
//! A `TimerMachine` decides, from its phase and the outcome of the last
//! operating-system call, what to do next. The caller performs each `Action`
//! and reports its outcome as the next `Event`.
use vstd::prelude::*;

use crate::ticks::{ConversionError, SleepRequest};

verus! {

/// Access rights requested for the timer: every right on a timer object.
pub const TIMER_ALL_ACCESS: u32 = 0x1f0003;

/// Where a sleeper's timer stands.
#[derive(Clone, Copy, Debug, PartialEq, Eq, Structural)]
pub enum Phase {
    /// The timer has been asked for and not yet reported.
    Opening,
    /// The handle is held and not armed.
    Idle,
    /// A deadline has been submitted and not yet confirmed.
    Arming,
    /// The timer is armed and the caller waits for it.
    Waiting,
    /// The handle is being released.
    Closing,
    /// The handle has been released.
    Closed,
    /// No handle was ever obtained.
    Unopened,
}

/// The outcome of what the caller did, or what it asks for.
#[derive(Clone, Copy, Debug, PartialEq, Eq, Structural)]
pub enum Event {
    /// The timer creation call returned; `ok` tells whether a handle came.
    Created { ok: bool },
    /// The caller asks to sleep for the request.
    Sleep { req: SleepRequest },
    /// The arming call returned.
    Armed { ok: bool },
    /// The wait call returned.
    Waited { ok: bool },
    /// The sleeper is being destroyed.
    Dropped,
    /// The release call returned.
    Released { ok: bool },
}

/// A fatal failure, ending the current operation.
#[derive(Clone, Copy, Debug, PartialEq, Eq, Structural)]
pub enum SleepError {
    /// No timer handle could be obtained.
    Construction,
    /// The requested duration does not fit the timer's tick count.
    Conversion,
    /// The timer rejected the deadline.
    Arming,
    /// Waiting on the timer failed.
    Wait,
    /// Releasing the handle failed.
    Release,
}

/// What the caller is to do next.
#[derive(Clone, Copy, Debug, PartialEq, Eq, Structural)]
pub enum Action {
    /// Set the timer, one-shot, to fire at the relative due time `due`
    /// (in negative 100-nanosecond ticks).
    Arm { due: i64 },
    /// Block until the timer signals, with no timeout.
    Wait,
    /// Release the timer handle.
    Close,
    /// The current operation has completed.
    Done,
    /// The current operation has failed fatally.
    Fail { err: SleepError },
    /// Nothing is left to do.
    Nothing,
}

impl SleepError {
    /// The failure that a conversion error stands for.
    pub fn from_conversion(e: ConversionError) -> (r: SleepError)
        ensures
            r == SleepError::Conversion,
    {
        match e {
            ConversionError::TooLong => SleepError::Conversion,
        }
    }
}

/// The phase holds a timer handle that must be released.
pub open spec fn holds_handle(p: Phase) -> bool {
    p == Phase::Idle || p == Phase::Arming || p == Phase::Waiting
}

/// The events that a phase accepts. A sleep is asked for only while the
/// timer is idle, each outcome only while its call is pending, and
/// destruction at any time.
pub open spec fn accepts(p: Phase, e: Event) -> bool {
    match e {
        Event::Created { .. } => p == Phase::Opening,
        Event::Sleep { req } => p == Phase::Idle && req.wf(),
        Event::Armed { .. } => p == Phase::Arming,
        Event::Waited { .. } => p == Phase::Waiting,
        Event::Dropped => true,
        Event::Released { .. } => p == Phase::Closing,
    }
}

/// The phase and action that follow an accepted event.
pub open spec fn transition(p: Phase, e: Event) -> (Phase, Action) {
    match e {
        Event::Created { ok } => if ok {
            (Phase::Idle, Action::Done)
        } else {
            (Phase::Unopened, Action::Fail { err: SleepError::Construction })
        },
        Event::Sleep { req } => if req.fits() {
            (Phase::Arming, Action::Arm { due: (-req.tick_count()) as i64 })
        } else {
            (Phase::Idle, Action::Fail { err: SleepError::Conversion })
        },
        Event::Armed { ok } => if ok {
            (Phase::Waiting, Action::Wait)
        } else {
            (Phase::Idle, Action::Fail { err: SleepError::Arming })
        },
        Event::Waited { ok } => if ok {
            (Phase::Idle, Action::Done)
        } else {
            (Phase::Idle, Action::Fail { err: SleepError::Wait })
        },
        Event::Dropped => if holds_handle(p) {
            (Phase::Closing, Action::Close)
        } else if p == Phase::Opening {
            (Phase::Unopened, Action::Nothing)
        } else {
            (p, Action::Nothing)
        },
        Event::Released { ok } => if ok {
            (Phase::Closed, Action::Done)
        } else {
            (Phase::Closed, Action::Fail { err: SleepError::Release })
        },
    }
}

/// The decisions of one precise sleeper.
pub struct TimerMachine {
    phase: Phase,
}

impl TimerMachine {
    /// The phase that the machine is in.
    pub closed spec fn view(&self) -> Phase {
        self.phase
    }

    /// A sleeper whose timer has been asked for: the caller is to create an
    /// anonymous high-resolution timer with `TIMER_ALL_ACCESS` and report
    /// the outcome with `Event::Created`.
    pub fn new() -> (r: TimerMachine)
        ensures
            r@ == Phase::Opening,
    {
        TimerMachine { phase: Phase::Opening }
    }

    /// The current phase.
    pub fn phase(&self) -> (r: Phase)
        ensures
            r == self@,
    {
        self.phase
    }

    /// Whether the current phase accepts `e`.
    pub fn accepts(&self, e: &Event) -> (r: bool)
        ensures
            r == accepts(self@, *e),
    {
        match e {
            Event::Created { .. } => self.phase == Phase::Opening,
            Event::Sleep { req } => self.phase == Phase::Idle && req.nanos < crate::ticks::NANOS_PER_SEC,
            Event::Armed { .. } => self.phase == Phase::Arming,
            Event::Waited { .. } => self.phase == Phase::Waiting,
            Event::Dropped => true,
            Event::Released { .. } => self.phase == Phase::Closing,
        }
    }

    /// Takes one event and returns what the caller is to do next.
    pub fn step(&mut self, e: Event) -> (r: Action)
        requires
            accepts(old(self)@, e),
        ensures
            (final(self)@, r) == transition(old(self)@, e),
    {
        match e {
            Event::Created { ok } => {
                if ok {
                    self.phase = Phase::Idle;
                    Action::Done
                } else {
                    self.phase = Phase::Unopened;
                    Action::Fail { err: SleepError::Construction }
                }
            },
            Event::Sleep { req } => {
                match req.relative_due_time() {
                    Ok(due) => {
                        self.phase = Phase::Arming;
                        Action::Arm { due }
                    },
                    Err(c) => Action::Fail { err: SleepError::from_conversion(c) },
                }
            },
            Event::Armed { ok } => {
                if ok {
                    self.phase = Phase::Waiting;
                    Action::Wait
                } else {
                    self.phase = Phase::Idle;
                    Action::Fail { err: SleepError::Arming }
                }
            },
            Event::Waited { ok } => {
                self.phase = Phase::Idle;
                if ok {
                    Action::Done
                } else {
                    Action::Fail { err: SleepError::Wait }
                }
            },
            Event::Dropped => {
                match self.phase {
                    Phase::Idle | Phase::Arming | Phase::Waiting => {
                        self.phase = Phase::Closing;
                        Action::Close
                    },
                    Phase::Opening => {
                        self.phase = Phase::Unopened;
                        Action::Nothing
                    },
                    _ => Action::Nothing,
                }
            },
            Event::Released { ok } => {
                self.phase = Phase::Closed;
                if ok {
                    Action::Done
                } else {
                    Action::Fail { err: SleepError::Release }
                }
            },
        }
    }
}

} // verus!
