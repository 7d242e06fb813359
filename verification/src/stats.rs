//! The bookkeeping of the host's CPU readings.
//!
//! Reading the CPUs is the caller's business. What is decided here is
//! whether a reading has to be preceded by a warm-up: the first reading
//! after start is, once, and no later one.

use vstd::prelude::*;

verus! {

/// How long the first sample is left to settle, in milliseconds.
pub const WARM_UP_SETTLE_MILLIS: u64 = 200;

/// What a caller has to do to read the CPUs.
#[derive(Clone, Copy, Debug, PartialEq, Eq)]
pub enum Sampling {
    /// Refresh the readings, wait `settle_millis`, then refresh them again
    /// and report.
    WarmUp { settle_millis: u64 },
    /// Refresh the readings and report.
    Immediate,
}

/// Whether the CPU readings have been warmed up.
pub struct CpuStats {
    warmed_up: bool,
}

impl View for CpuStats {
    type V = bool;

    /// The warm-up has been handed to a caller.
    closed spec fn view(&self) -> bool {
        self.warmed_up
    }
}

impl CpuStats {
    /// The state at start: nothing warmed up.
    pub fn new() -> (stats: CpuStats)
        ensures
            !stats@,
    {
        CpuStats { warmed_up: false }
    }

    /// Whether the warm-up has been handed to a caller.
    pub fn is_warmed_up(&self) -> (b: bool)
        ensures
            b == self@,
    {
        self.warmed_up
    }

    /// Says how the caller has to read the CPUs, and books the warm-up as
    /// done: the first caller is told to warm up, every later one is not.
    pub fn begin_sample(&mut self) -> (how: Sampling)
        ensures
            final(self)@,
            how == sampling(old(self)@),
    {
        if !self.warmed_up {
            self.warmed_up = true;
            Sampling::WarmUp { settle_millis: WARM_UP_SETTLE_MILLIS }
        } else {
            Sampling::Immediate
        }
    }
}

/// What a caller is told that finds the warm-up done or not done.
pub open spec fn sampling(warmed_up: bool) -> Sampling {
    if warmed_up {
        Sampling::Immediate
    } else {
        Sampling::WarmUp { settle_millis: WARM_UP_SETTLE_MILLIS }
    }
}

/// What the readings endpoint does first: it asks how to sample.
pub fn stats_handler(stats: &mut CpuStats) -> (how: Sampling)
    ensures
        final(stats)@,
        how == sampling(old(stats)@),
{
    stats.begin_sample()
}

/// Of any two callers one after the other, the second is not told to warm
/// up: the warm-up is handed out once.
pub proof fn lemma_warm_up_is_handed_out_once(warmed_up: bool)
    ensures
        sampling(true) == Sampling::Immediate,
        sampling(warmed_up) is WarmUp <==> !warmed_up,
        sampling(warmed_up) matches Sampling::WarmUp { settle_millis } ==> settle_millis == 200,
{
}

} // verus!
