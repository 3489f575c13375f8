//! Fixed-point phase angles.
//!
//! A phase is a signed 32-bit count in which the whole integer range stands
//! for one turn: the lowest value is -π and the highest is just below π.
//! Arithmetic on phases is modular, so an angle that runs past π comes back
//! in at -π.

use vstd::prelude::*;

verus! {

/// Frequency of the synthesised sine, in hertz.
pub const SINE_FREQ_HZ: u32 = 50;

/// Frequency of the pulse-width carrier, in hertz. It should be a multiple of
/// the sine frequency.
pub const PWM_FREQ_HZ: u32 = 24_000;

/// Number of carrier periods in one period of the sine.
pub const WAVE_UPDATES_PER_SINE_PERIOD: u32 = PWM_FREQ_HZ / SINE_FREQ_HZ;

/// Phase by which the free-running accumulator moves in one carrier period.
pub const PHASE_CHANGE_PER_UPDATE: u32 = u32::MAX / WAVE_UPDATES_PER_SINE_PERIOD;

/// Number of distinct phase values in one turn.
pub open spec fn turn() -> int {
    0x1_0000_0000
}

/// The phase that an unbounded angle count stands for: the one value in the
/// signed 32-bit range that differs from it by whole turns.
pub open spec fn wrap_phase(angle: int) -> int {
    (angle + 0x8000_0000) % turn() - 0x8000_0000
}

/// The phase step per carrier period for a carrier and a fundamental
/// frequency: a full turn divided by the number of carrier periods in one
/// period of the fundamental.
pub open spec fn phase_step_of(carrier_hz: int, fundamental_hz: int) -> int
    recommends
        0 < fundamental_hz <= carrier_hz,
{
    (turn() - 1) / (carrier_hz / fundamental_hz)
}

/// Computes the phase step per carrier period. There is none where the
/// fundamental frequency is zero or above the carrier frequency, since the
/// carrier then has no whole period inside one period of the fundamental.
pub fn phase_step(carrier_hz: u32, fundamental_hz: u32) -> (step: Option<u32>)
    ensures
        step is Some <==> 0 < fundamental_hz <= carrier_hz,
        step matches Some(value) ==> value == phase_step_of(
            carrier_hz as int,
            fundamental_hz as int,
        ),
{
    if fundamental_hz == 0 || carrier_hz < fundamental_hz {
        return None;
    }
    let updates: u32 = carrier_hz / fundamental_hz;
    assert(updates >= 1) by (nonlinear_arith)
        requires
            updates == carrier_hz / fundamental_hz,
            0 < fundamental_hz <= carrier_hz,
    ;
    Some(u32::MAX / updates)
}

/// Moves a phase forward by a step, wrapping past π.
pub fn advance_phase(phase: i32, step: u32) -> (next: i32)
    ensures
        next == wrap_phase(phase + step),
{
    phase.wrapping_add_unsigned(step)
}

/// A wrapped phase lies in the signed 32-bit range and differs from the
/// angle it came from by whole turns; an angle already in range is its own
/// phase.
pub proof fn lemma_wrap_phase_range(angle: int)
    ensures
        i32::MIN <= wrap_phase(angle) <= i32::MAX,
        (angle - wrap_phase(angle)) % turn() == 0,
        i32::MIN <= angle <= i32::MAX ==> wrap_phase(angle) == angle,
{
    let shifted: int = angle + 0x8000_0000;
    vstd::arithmetic::div_mod::lemma_fundamental_div_mod(shifted, turn());
    vstd::arithmetic::div_mod::lemma_mod_multiples_basic(shifted / turn(), turn());
    assert(angle - wrap_phase(angle) == (shifted / turn()) * turn()) by (nonlinear_arith)
        requires
            shifted == turn() * (shifted / turn()) + shifted % turn(),
            wrap_phase(angle) == shifted % turn() - 0x8000_0000,
            shifted == angle + 0x8000_0000,
    ;
}

/// Phase arithmetic is modular: advancing in two steps ends where advancing
/// by their sum ends.
pub proof fn lemma_wrap_phase_composes(angle: int, first: int, second: int)
    ensures
        wrap_phase(wrap_phase(angle + first) + second) == wrap_phase(angle + first + second),
{
    let inner: int = angle + first + 0x8000_0000;
    vstd::arithmetic::div_mod::lemma_add_mod_noop(inner, second, turn());
    vstd::arithmetic::div_mod::lemma_add_mod_noop(inner % turn(), second, turn());
    vstd::arithmetic::div_mod::lemma_mod_twice(inner, turn());
}

/// The phase after a number of equal steps from a starting phase.
pub open spec fn phase_after_steps(phase: int, step: int, count: nat) -> int
    decreases count,
{
    if count == 0 {
        wrap_phase(phase)
    } else {
        wrap_phase(phase_after_steps(phase, step, (count - 1) as nat) + step)
    }
}

/// Stepping a phase many times ends where one step of the whole distance
/// ends: wrapping along the way loses nothing.
pub proof fn lemma_steps_accumulate(phase: int, step: int, count: nat)
    ensures
        phase_after_steps(phase, step, count) == wrap_phase(phase + count * step),
    decreases count,
{
    if count == 0 {
        assert(count * step == 0) by (nonlinear_arith)
            requires
                count == 0,
        ;
    } else {
        let before: nat = (count - 1) as nat;
        lemma_steps_accumulate(phase, step, before);
        lemma_wrap_phase_composes(phase, before * step, step);
        assert(before * step + step == count * step) by (nonlinear_arith)
            requires
                before + 1 == count,
        ;
    }
}

/// One sine period of standard steps brings the free-running phase back to
/// where it started, short by the 256 counts that the division of the turn
/// into carrier periods leaves over.
pub proof fn lemma_sine_period_closes(phase: int)
    ensures
        phase_after_steps(
            phase,
            PHASE_CHANGE_PER_UPDATE as int,
            WAVE_UPDATES_PER_SINE_PERIOD as nat,
        ) == wrap_phase(phase - 256),
{
    lemma_steps_accumulate(
        phase,
        PHASE_CHANGE_PER_UPDATE as int,
        WAVE_UPDATES_PER_SINE_PERIOD as nat,
    );
    assert(WAVE_UPDATES_PER_SINE_PERIOD == 480);
    assert(PHASE_CHANGE_PER_UPDATE == 8947848);
    vstd::arithmetic::div_mod::lemma_mod_add_multiples_vanish(phase - 256 + 0x8000_0000, turn());
}

} // verus!
