//! The single-slot register that carries the grid phase between contexts.
//!
//! The grid-synchronisation loop publishes the phase it estimated; the
//! drive-synthesis loop consumes it at its own, faster rate. The register
//! holds one value: a new phase overwrites the old one, read or not, and a
//! read leaves the register as it was. Beside the phase it holds the flag
//! that tells whether synchronisation with the grid is trustworthy.
//!
//! The register itself is plain owned data. Firmware that shares it between
//! execution contexts holds it behind its own mutual exclusion and calls
//! these methods inside the critical section.

use vstd::prelude::*;
use crate::phase::wrap_phase;
use crate::phase::advance_phase;

verus! {

/// Whether the drive may trust the phase it reads.
#[derive(Clone, Copy, Debug, PartialEq, Eq, Structural)]
pub enum SyncStatus {
    /// The phase follows the grid.
    Synced,
    /// The phase reference is stale or missing.
    Lost,
}

/// The register's contents as mathematical values.
pub struct ChannelState {
    /// The phase most recently written.
    pub phase: int,
    /// The synchronisation flag.
    pub status: SyncStatus,
}

/// An access to the register's phase.
pub enum ChannelAccess {
    /// A write of the given phase.
    Publish(i32),
    /// A read.
    Consume,
}

/// The phase that the register holds after one access: a write replaces it,
/// a read leaves it.
pub open spec fn phase_after(phase: int, access: ChannelAccess) -> int {
    match access {
        ChannelAccess::Publish(written) => written as int,
        ChannelAccess::Consume => phase,
    }
}

/// The phase that the register holds after a sequence of accesses, oldest
/// first.
pub open spec fn phase_after_all(phase: int, accesses: Seq<ChannelAccess>) -> int
    decreases accesses.len(),
{
    if accesses.len() == 0 {
        phase
    } else {
        phase_after(phase_after_all(phase, accesses.drop_last()), accesses.last())
    }
}

/// Whether a sequence of accesses holds no write.
pub open spec fn only_reads(accesses: Seq<ChannelAccess>) -> bool {
    forall|i: int| 0 <= i < accesses.len() ==> accesses[i] is Consume
}

/// The shared phase register.
pub struct PhaseChannel {
    phase: i32,
    status: SyncStatus,
}

impl View for PhaseChannel {
    type V = ChannelState;

    closed spec fn view(&self) -> ChannelState {
        ChannelState { phase: self.phase as int, status: self.status }
    }
}

impl PhaseChannel {
    /// Makes a register that holds phase zero and counts as synchronised.
    pub fn new() -> (channel: Self)
        ensures
            channel@ == (ChannelState { phase: 0, status: SyncStatus::Synced }),
    {
        PhaseChannel { phase: 0, status: SyncStatus::Synced }
    }

    /// Writes a phase over whatever the register held. The flag stays.
    pub fn publish(&mut self, phase: i32)
        ensures
            final(self)@.phase == phase_after(
                old(self)@.phase,
                ChannelAccess::Publish(phase),
            ),
            final(self)@.phase == phase,
            final(self)@.status == old(self)@.status,
    {
        self.phase = phase;
    }

    /// Reads the phase most recently written. The register stays as it was.
    pub fn consume(&self) -> (phase: i32)
        ensures
            phase == self@.phase,
            phase == phase_after(self@.phase, ChannelAccess::Consume),
    {
        self.phase
    }

    /// Reads the phase and moves the register forward by a step, wrapping
    /// past π. This is the access of a free-running accumulator.
    pub fn advance(&mut self, step: u32) -> (phase: i32)
        ensures
            phase == old(self)@.phase,
            final(self)@.phase == wrap_phase(old(self)@.phase + step),
            final(self)@.status == old(self)@.status,
    {
        let phase: i32 = self.phase;
        self.phase = advance_phase(phase, step);
        phase
    }

    /// Reads the synchronisation flag.
    pub fn status(&self) -> (status: SyncStatus)
        ensures
            status == self@.status,
    {
        self.status
    }

    /// Sets the synchronisation flag. The phase stays.
    pub fn set_status(&mut self, status: SyncStatus)
        ensures
            final(self)@.status == status,
            final(self)@.phase == old(self)@.phase,
    {
        self.status = status;
    }
}

/// The latest write wins: after any sequence of accesses that ends in a
/// write followed by reads only, the register holds what that write wrote.
pub proof fn lemma_latest_publish_wins(
    phase: int,
    before: Seq<ChannelAccess>,
    written: i32,
    reads: Seq<ChannelAccess>,
)
    requires
        only_reads(reads),
    ensures
        phase_after_all(phase, before.push(ChannelAccess::Publish(written)) + reads) == written,
    decreases reads.len(),
{
    let accesses = before.push(ChannelAccess::Publish(written)) + reads;
    if reads.len() == 0 {
        assert(accesses =~= before.push(ChannelAccess::Publish(written)));
        assert(accesses.drop_last() =~= before);
    } else {
        assert(reads.last() is Consume);
        assert(only_reads(reads.drop_last()));
        lemma_latest_publish_wins(phase, before, written, reads.drop_last());
        assert(accesses.drop_last() =~= before.push(ChannelAccess::Publish(written))
            + reads.drop_last());
    }
}

/// A read is stale, never corrupt: with no write in between, every read
/// returns what the read before it returned.
pub proof fn lemma_consume_repeats(phase: int, reads: Seq<ChannelAccess>)
    requires
        only_reads(reads),
    ensures
        phase_after_all(phase, reads) == phase,
    decreases reads.len(),
{
    if reads.len() > 0 {
        assert(reads.last() is Consume);
        assert(only_reads(reads.drop_last()));
        lemma_consume_repeats(phase, reads.drop_last());
    }
}

} // verus!
