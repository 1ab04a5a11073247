//! Conversion of a requested duration into the timer's native unit.
use vstd::prelude::*;

verus! {

/// Length of one timer tick, in nanoseconds.
pub const NANOS_PER_TICK: u32 = 100;

/// Number of timer ticks in one second.
pub const TICKS_PER_SEC: u64 = 10_000_000;

/// Number of nanoseconds in one second.
pub const NANOS_PER_SEC: u32 = 1_000_000_000;

/// A requested sleep: whole seconds and the nanoseconds below one second.
#[derive(Clone, Copy, Debug, PartialEq, Eq, Structural)]
pub struct SleepRequest {
    pub secs: u64,
    pub nanos: u32,
}

/// Why a request cannot be turned into a timer deadline.
#[derive(Clone, Copy, Debug, PartialEq, Eq, Structural)]
pub enum ConversionError {
    /// The request's tick count does not fit a signed 64-bit integer.
    TooLong,
}

impl SleepRequest {
    /// The nanosecond part is below one second.
    pub open spec fn wf(self) -> bool {
        self.nanos < NANOS_PER_SEC
    }

    /// The whole request in nanoseconds.
    pub open spec fn total_nanos(self) -> int {
        (self.secs as int) * (NANOS_PER_SEC as int) + (self.nanos as int)
    }

    /// The request in whole ticks, the part below one tick dropped.
    pub open spec fn tick_count(self) -> int {
        (self.secs as int) * (TICKS_PER_SEC as int) + (self.nanos as int) / (NANOS_PER_TICK as int)
    }

    /// The request can be given to the timer.
    pub open spec fn fits(self) -> bool {
        self.tick_count() <= i64::MAX
    }

    /// Builds a request from whole seconds and sub-second nanoseconds.
    pub fn new(secs: u64, nanos: u32) -> (r: SleepRequest)
        requires
            nanos < NANOS_PER_SEC,
        ensures
            r.secs == secs,
            r.nanos == nanos,
            r.wf(),
    {
        SleepRequest { secs, nanos }
    }

    /// Builds a request of whole milliseconds.
    pub fn from_millis(millis: u64) -> (r: SleepRequest)
        ensures
            r.wf(),
            r.total_nanos() == millis * 1_000_000,
    {
        let secs = millis / 1000;
        let rest = millis % 1000;
        let nanos = (rest as u32) * 1_000_000;
        SleepRequest { secs, nanos }
    }

    /// Builds a request of whole microseconds.
    pub fn from_micros(micros: u64) -> (r: SleepRequest)
        ensures
            r.wf(),
            r.total_nanos() == micros * 1_000,
    {
        let secs = micros / 1_000_000;
        let rest = micros % 1_000_000;
        let nanos = (rest as u32) * 1_000;
        SleepRequest { secs, nanos }
    }

    /// The number of whole ticks in the request, or `TooLong` when that
    /// number does not fit a signed 64-bit integer.
    pub fn to_ticks(&self) -> (r: Result<i64, ConversionError>)
        requires
            self.wf(),
        ensures
            r is Ok <==> self.fits(),
            r matches Ok(t) ==> t == self.tick_count(),
            r matches Err(e) ==> e == ConversionError::TooLong,
    {
        let max_secs: u64 = i64::MAX as u64 / TICKS_PER_SEC;
        if self.secs > max_secs {
            assert(self.secs * TICKS_PER_SEC > i64::MAX) by (nonlinear_arith)
                requires
                    self.secs > max_secs,
                    max_secs == (i64::MAX as int) / (TICKS_PER_SEC as int),
            ;
            return Err(ConversionError::TooLong);
        }
        assert(self.secs * TICKS_PER_SEC <= i64::MAX) by (nonlinear_arith)
            requires
                self.secs <= max_secs,
                max_secs == (i64::MAX as int) / (TICKS_PER_SEC as int),
        ;
        let whole: u64 = self.secs * TICKS_PER_SEC;
        let part: u64 = (self.nanos / NANOS_PER_TICK) as u64;
        if part > i64::MAX as u64 - whole {
            Err(ConversionError::TooLong)
        } else {
            Ok((whole + part) as i64)
        }
    }

    /// The relative deadline handed to the timer: the negated tick count,
    /// since a negative due time counts from now.
    pub fn relative_due_time(&self) -> (r: Result<i64, ConversionError>)
        requires
            self.wf(),
        ensures
            r is Ok <==> self.fits(),
            r matches Ok(t) ==> t == -self.tick_count() && t <= 0,
            r matches Err(e) ==> e == ConversionError::TooLong,
    {
        match self.to_ticks() {
            Ok(t) => Ok(-t),
            Err(e) => Err(e),
        }
    }
}

/// The ticks never stand for more time than was asked, and fall short of it
/// by less than one tick.
pub proof fn lemma_ticks_round_down(req: SleepRequest)
    requires
        req.wf(),
    ensures
        req.tick_count() * NANOS_PER_TICK <= req.total_nanos(),
        req.total_nanos() < req.tick_count() * NANOS_PER_TICK + NANOS_PER_TICK,
{
    let s = req.secs as int;
    let n = req.nanos as int;
    assert(n / 100 * 100 <= n && n < n / 100 * 100 + 100) by (nonlinear_arith)
        requires
            0 <= n,
    ;
    assert((s * 10_000_000 + n / 100) * 100 == s * 1_000_000_000 + n / 100 * 100)
        by (nonlinear_arith);
}

} // verus!
