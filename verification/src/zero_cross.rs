//! Synchronisation by zero-crossing edges.
//!
//! Where no phase-locked loop is at hand, an edge detector on the line
//! voltage marks the start of every positive half-cycle. Each edge resets the
//! shared phase and declares the drive synchronised. A watchdog that every
//! edge rearms declares synchronisation lost once a grid period and a margin
//! have passed without an edge.

use vstd::prelude::*;
use crate::channel::PhaseChannel;
use crate::channel::SyncStatus;

verus! {

/// Period of the grid at its nominal frequency, in microseconds.
pub const GRID_PERIOD_US: u32 = 20_000;

/// Margin by which the watchdog outlasts the grid period, in percent.
pub const WATCHDOG_MARGIN_PERCENT: u32 = 5;

/// Phase at the rising zero crossing, where the positive half-cycle starts.
pub const RISING_EDGE_PHASE: i32 = 0;

/// The time without an edge after which synchronisation counts as lost: the
/// expected period, longer by the margin.
pub open spec fn watchdog_timeout_of(period: int, margin_percent: int) -> int {
    period + period * margin_percent / 100
}

/// The watchdog as mathematical values.
pub struct WatchdogState {
    /// Time that the watchdog is armed with at every edge.
    pub timeout: int,
    /// Time that is left until the watchdog expires.
    pub remaining: int,
}

/// The watchdog after an edge: armed with its full timeout.
pub open spec fn after_edge(watchdog: WatchdogState) -> WatchdogState {
    WatchdogState { timeout: watchdog.timeout, remaining: watchdog.timeout }
}

/// Whether the watchdog expires when `elapsed` more time passes.
pub open spec fn expires(watchdog: WatchdogState, elapsed: int) -> bool {
    elapsed > watchdog.remaining
}

/// The watchdog after `elapsed` more time passed without an edge.
pub open spec fn after_elapsed(watchdog: WatchdogState, elapsed: int) -> WatchdogState {
    WatchdogState {
        timeout: watchdog.timeout,
        remaining: if expires(watchdog, elapsed) {
            0
        } else {
            watchdog.remaining - elapsed
        },
    }
}

/// Computes the watchdog's timeout from the expected grid period and the
/// margin in percent.
pub fn watchdog_timeout(period_us: u32, margin_percent: u32) -> (timeout_us: u64)
    ensures
        timeout_us == watchdog_timeout_of(period_us as int, margin_percent as int),
{
    let period: u64 = period_us as u64;
    let margin: u64 = margin_percent as u64;
    assert(period * margin <= 0xffff_ffff * 0xffff_ffff) by (nonlinear_arith)
        requires
            period <= 0xffff_ffff,
            margin <= 0xffff_ffff,
    ;
    period + period * margin / 100
}

/// The zero-crossing synchroniser: the watchdog and its timeout.
pub struct ZeroCrossSync {
    timeout_us: u64,
    remaining_us: u64,
}

impl View for ZeroCrossSync {
    type V = WatchdogState;

    closed spec fn view(&self) -> WatchdogState {
        WatchdogState { timeout: self.timeout_us as int, remaining: self.remaining_us as int }
    }
}

impl ZeroCrossSync {
    #[verifier::type_invariant]
    spec fn within_timeout(self) -> bool {
        self.remaining_us <= self.timeout_us
    }

    /// Makes a synchroniser for an expected grid period and a margin in
    /// percent, with the watchdog armed.
    pub fn new(period_us: u32, margin_percent: u32) -> (sync: Self)
        ensures
            sync@.timeout == watchdog_timeout_of(period_us as int, margin_percent as int),
            sync@.remaining == sync@.timeout,
    {
        let timeout_us: u64 = watchdog_timeout(period_us, margin_percent);
        ZeroCrossSync { timeout_us, remaining_us: timeout_us }
    }

    /// The watchdog's timeout, in microseconds.
    pub fn timeout(&self) -> (timeout_us: u64)
        ensures
            timeout_us == self@.timeout,
    {
        self.timeout_us
    }

    /// The time left until the watchdog expires, in microseconds. It never
    /// exceeds the timeout.
    pub fn remaining(&self) -> (remaining_us: u64)
        ensures
            remaining_us == self@.remaining,
            remaining_us <= self@.timeout,
    {
        proof {
            use_type_invariant(self);
        }
        self.remaining_us
    }

    /// Handles a rising zero crossing: the phase restarts at the start of
    /// the positive half-cycle, the drive counts as synchronised, and the
    /// watchdog is rearmed.
    pub fn on_edge(&mut self, channel: &mut PhaseChannel)
        ensures
            final(self)@ == after_edge(old(self)@),
            final(channel)@.phase == RISING_EDGE_PHASE,
            final(channel)@.status is Synced,
    {
        self.remaining_us = self.timeout_us;
        channel.publish(RISING_EDGE_PHASE);
        channel.set_status(SyncStatus::Synced);
    }

    /// Accounts for time that passed without an edge. Once more time has
    /// passed than the watchdog had left, synchronisation is declared lost;
    /// until then the flag stays as it was. The phase is never touched.
    pub fn on_elapsed(&mut self, elapsed_us: u32, channel: &mut PhaseChannel) -> (lost: bool)
        ensures
            final(self)@ == after_elapsed(old(self)@, elapsed_us as int),
            lost == expires(old(self)@, elapsed_us as int),
            final(channel)@.phase == old(channel)@.phase,
            final(channel)@.status == if lost {
                SyncStatus::Lost
            } else {
                old(channel)@.status
            },
    {
        proof {
            use_type_invariant(&*self);
        }
        let elapsed: u64 = elapsed_us as u64;
        if elapsed > self.remaining_us {
            self.remaining_us = 0;
            channel.set_status(SyncStatus::Lost);
            true
        } else {
            self.remaining_us = self.remaining_us - elapsed;
            false
        }
    }
}

/// The time that has passed since the watchdog was armed, while it has not
/// expired.
pub open spec fn waited(watchdog: WatchdogState) -> int {
    watchdog.timeout - watchdog.remaining
}

/// The watchdog measures the time since the last edge: starting from an
/// edge, it expires exactly when the time that passed in two waits exceeds
/// the timeout, however the time is split between them.
pub proof fn lemma_watchdog_measures_time(watchdog: WatchdogState, first: int, second: int)
    requires
        0 <= watchdog.timeout,
        0 <= first,
        0 <= second,
    ensures
        expires(after_edge(watchdog), first) || expires(
            after_elapsed(after_edge(watchdog), first),
            second,
        ) <==> first + second > watchdog.timeout,
        !expires(after_edge(watchdog), first) ==> waited(
            after_elapsed(after_edge(watchdog), first),
        ) == first,
{
}

/// An edge always rearms the watchdog in full, whatever state it was in.
pub proof fn lemma_edge_rearms(watchdog: WatchdogState, elapsed: int)
    requires
        0 <= elapsed <= watchdog.timeout,
    ensures
        !expires(after_edge(watchdog), elapsed),
        after_edge(after_elapsed(watchdog, elapsed)) == after_edge(watchdog),
{
}

} // verus!
