//! Synthesis of the complementary sine drive.
//!
//! Once per carrier period the engine reads the shared phase, takes the sine
//! of it from a fixed-point primitive, and turns it into a command for the
//! two complementary outputs: the magnitude of the sine sets the duty cycle,
//! its sign picks the output that switches, and the other output is held
//! off. While synchronisation with the grid is lost both outputs are held
//! off, whatever the phase.

use vstd::prelude::*;
use crate::channel::PhaseChannel;
use crate::channel::SyncStatus;
use crate::phase::phase_step;
use crate::phase::phase_step_of;
use crate::phase::wrap_phase;
use crate::phase::PHASE_CHANGE_PER_UPDATE;

verus! {

/// Highest duty cycle that the drive ever commands: 95 % of the carrier's
/// eight-bit full scale, which leaves head room for the dead time.
pub const DUTY_CEILING: u32 = 242;

/// Amplitude of the fixed-point sine at full scale.
pub const MAX_AMPLITUDE: i32 = 0x7fff_ffff;

/// Number of fractional bits below the duty cycle in the duty register.
pub const DUTY_FRACTION_BITS: u32 = 4;

/// The cosine and the sine that the fixed-point primitive gives for a phase,
/// in this order, each scaled to the signed 32-bit range.
pub uninterp spec fn cossin_of(phase: int) -> (int, int);

/// Calls `idsp::cossin`, which interpolates the cosine and the sine of a
/// 32-bit phase from a table that is fixed when that crate is built. It
/// reads nothing but its argument, so the result is a function of the phase
/// alone; the contract gives that function the name `cossin_of` and claims
/// nothing of its values. Nothing here is proved of the outside code.
#[verifier::external_body]
fn cossin(phase: i32) -> (pair: (i32, i32))
    ensures
        (pair.0 as int, pair.1 as int) == cossin_of(phase as int),
{
    idsp::cossin(phase)
}

/// The absolute value of an integer.
pub open spec fn magnitude(value: int) -> int {
    if value < 0 {
        -value
    } else {
        value
    }
}

/// The duty cycle for a sine value: its magnitude, scaled so that full
/// amplitude gives the ceiling.
pub open spec fn duty_of_sine(sine: int) -> int {
    magnitude(sine) * DUTY_CEILING / (MAX_AMPLITUDE as int)
}

/// What the drive does to its two outputs in one carrier period.
#[derive(Clone, Copy, Debug, PartialEq, Eq, Structural)]
pub enum DriveCommand {
    /// Both outputs are held off and no duty cycle is written.
    Disabled,
    /// The high side switches with the given duty cycle; the low side is
    /// held off.
    HighSide {
        /// The duty cycle to write, zero included.
        duty: u32,
    },
    /// The low side switches with the given duty cycle; the high side is
    /// held off.
    LowSide {
        /// The duty cycle to write, zero included.
        duty: u32,
    },
}

impl DriveCommand {
    /// Whether the command lets the high side switch.
    pub open spec fn enables_high_side(self) -> bool {
        self is HighSide
    }

    /// Whether the command lets the low side switch.
    pub open spec fn enables_low_side(self) -> bool {
        self is LowSide
    }

    /// The duty cycle that the command writes, if it writes one.
    pub open spec fn written_duty(self) -> Option<u32> {
        match self {
            DriveCommand::Disabled => None,
            DriveCommand::HighSide { duty } => Some(duty),
            DriveCommand::LowSide { duty } => Some(duty),
        }
    }

    /// Tells whether the high side's signal path is to be enabled.
    pub fn high_side_enabled(&self) -> (enabled: bool)
        ensures
            enabled == self.enables_high_side(),
    {
        match self {
            DriveCommand::HighSide { .. } => true,
            _ => false,
        }
    }

    /// Tells whether the low side's signal path is to be enabled.
    pub fn low_side_enabled(&self) -> (enabled: bool)
        ensures
            enabled == self.enables_low_side(),
    {
        match self {
            DriveCommand::LowSide { .. } => true,
            _ => false,
        }
    }

    /// Gives the duty cycle to write to the enabled output, if any. A duty
    /// cycle of zero is written like any other, so that it clears what the
    /// period before left in the register.
    pub fn duty(&self) -> (duty: Option<u32>)
        ensures
            duty == self.written_duty(),
    {
        match self {
            DriveCommand::Disabled => None,
            DriveCommand::HighSide { duty } => Some(*duty),
            DriveCommand::LowSide { duty } => Some(*duty),
        }
    }
}

/// The command for a sine value and a synchronisation flag.
pub open spec fn command_of(sine: int, status: SyncStatus) -> DriveCommand {
    if status is Lost {
        DriveCommand::Disabled
    } else if sine > 0 {
        DriveCommand::HighSide { duty: duty_of_sine(sine) as u32 }
    } else {
        DriveCommand::LowSide { duty: duty_of_sine(sine) as u32 }
    }
}

/// Computes the duty cycle for a sine value. It never exceeds the ceiling,
/// not even at the sine's extremes.
pub fn duty_from_sine(sine: i32) -> (duty: u32)
    ensures
        duty == duty_of_sine(sine as int),
        duty <= DUTY_CEILING,
{
    let wide: i64 = sine as i64;
    let size: i64 = if wide < 0 {
        -wide
    } else {
        wide
    };
    let ceiling: i64 = DUTY_CEILING as i64;
    let scaled: i64 = size * ceiling;
    let duty: i64 = scaled / (MAX_AMPLITUDE as i64);
    duty as u32
}

/// The value of the duty register for a duty cycle: the duty cycle above the
/// register's fractional bits.
pub fn duty_register(duty: u32) -> (bits: u32)
    ensures
        bits == (duty * 16) % 0x1_0000_0000,
        duty <= DUTY_CEILING ==> bits == duty * 16,
{
    let bits: u32 = duty << DUTY_FRACTION_BITS;
    assert(bits == (duty * 16) % 0x1_0000_0000) by (bit_vector)
        requires
            bits == duty << 4u32,
    ;
    bits
}

/// Decides the command for a sine value and a synchronisation flag.
pub fn drive_command(sine: i32, status: SyncStatus) -> (command: DriveCommand)
    ensures
        command == command_of(sine as int, status),
        status is Lost ==> command is Disabled,
        !(command.enables_high_side() && command.enables_low_side()),
        command.written_duty() matches Some(duty) ==> duty <= DUTY_CEILING,
{
    match status {
        SyncStatus::Lost => DriveCommand::Disabled,
        SyncStatus::Synced => {
            let duty: u32 = duty_from_sine(sine);
            if sine > 0 {
                DriveCommand::HighSide { duty }
            } else {
                DriveCommand::LowSide { duty }
            }
        },
    }
}

/// Where the phase that the engine reads comes from.
#[derive(Clone, Copy, Debug, PartialEq, Eq, Structural)]
pub enum PhaseSource {
    /// Nothing writes the phase: the engine's own steps are all that move it.
    FreeRunning,
    /// A phase-locked loop writes the phase; the engine only reads it.
    PllTracked,
    /// A zero-crossing detector resets the phase once per grid period; the
    /// engine's own steps carry it from one edge to the next.
    ZeroCrossSynced,
}

impl PhaseSource {
    /// Whether the engine moves the phase forward after it read it.
    pub open spec fn steps_phase(self) -> bool {
        !(self is PllTracked)
    }

    /// Tells whether the engine moves the phase forward after it read it.
    pub fn advances(&self) -> (advances: bool)
        ensures
            advances == self.steps_phase(),
    {
        match self {
            PhaseSource::PllTracked => false,
            _ => true,
        }
    }
}

/// The engine's configuration as mathematical values.
pub struct EngineState {
    /// Where the phase comes from.
    pub source: PhaseSource,
    /// Phase step per carrier period.
    pub step: int,
}

/// The engine that synthesises the sine drive.
pub struct SineDriveEngine {
    source: PhaseSource,
    step: u32,
}

impl View for SineDriveEngine {
    type V = EngineState;

    closed spec fn view(&self) -> EngineState {
        EngineState { source: self.source, step: self.step as int }
    }
}

impl SineDriveEngine {
    /// Makes an engine for the standard carrier and sine frequencies.
    pub fn new(source: PhaseSource) -> (engine: Self)
        ensures
            engine@ == (EngineState { source, step: PHASE_CHANGE_PER_UPDATE as int }),
    {
        SineDriveEngine { source, step: PHASE_CHANGE_PER_UPDATE }
    }

    /// Makes an engine for a carrier and a fundamental frequency. There is
    /// none where the fundamental frequency is zero or above the carrier
    /// frequency.
    pub fn with_frequencies(source: PhaseSource, carrier_hz: u32, fundamental_hz: u32) -> (engine:
        Option<Self>)
        ensures
            engine is Some <==> 0 < fundamental_hz <= carrier_hz,
            engine matches Some(made) ==> made@ == (EngineState {
                source,
                step: phase_step_of(carrier_hz as int, fundamental_hz as int),
            }),
    {
        match phase_step(carrier_hz, fundamental_hz) {
            Some(step) => Some(SineDriveEngine { source, step }),
            None => None,
        }
    }

    /// The source of the phase.
    pub fn source(&self) -> (source: PhaseSource)
        ensures
            source == self@.source,
    {
        self.source
    }

    /// The phase step per carrier period.
    pub fn step(&self) -> (step: u32)
        ensures
            step == self@.step,
    {
        self.step
    }

    /// Runs one carrier period: reads the phase and the flag from the
    /// register, decides the command from the sine of the phase, and then
    /// moves the phase forward by one step unless a phase-locked loop
    /// drives it.
    pub fn tick(&self, channel: &mut PhaseChannel) -> (command: DriveCommand)
        ensures
            command == command_of(cossin_of(old(channel)@.phase).1, old(channel)@.status),
            old(channel)@.status is Lost ==> command is Disabled,
            !(command.enables_high_side() && command.enables_low_side()),
            command.written_duty() matches Some(duty) ==> duty <= DUTY_CEILING,
            final(channel)@.status == old(channel)@.status,
            final(channel)@.phase == if self@.source.steps_phase() {
                wrap_phase(old(channel)@.phase + self@.step)
            } else {
                old(channel)@.phase
            },
    {
        let phase: i32 = channel.consume();
        let pair: (i32, i32) = cossin(phase);
        let command: DriveCommand = drive_command(pair.1, channel.status());
        if self.source.advances() {
            channel.advance(self.step);
        }
        command
    }
}

/// The duty cycle stays between zero and the ceiling for every sine value.
pub proof fn lemma_duty_within_ceiling(sine: int)
    requires
        i32::MIN <= sine <= i32::MAX,
    ensures
        0 <= duty_of_sine(sine) <= DUTY_CEILING,
        sine == 0 ==> duty_of_sine(sine) == 0,
        magnitude(sine) >= MAX_AMPLITUDE ==> duty_of_sine(sine) == DUTY_CEILING,
{
}

/// While synchronisation is lost both outputs are held off and no duty cycle
/// is written, whatever the sine.
pub proof fn lemma_lost_disables_outputs(sine: int)
    ensures
        command_of(sine, SyncStatus::Lost) is Disabled,
        !command_of(sine, SyncStatus::Lost).enables_high_side(),
        !command_of(sine, SyncStatus::Lost).enables_low_side(),
        command_of(sine, SyncStatus::Lost).written_duty() is None,
{
}

/// The two outputs never switch in the same carrier period, and while
/// synchronised exactly one of them does: the high side for a positive sine,
/// the low side otherwise.
pub proof fn lemma_outputs_complementary(sine: int, status: SyncStatus)
    ensures
        !(command_of(sine, status).enables_high_side() && command_of(
            sine,
            status,
        ).enables_low_side()),
        status is Synced ==> (command_of(sine, status).enables_high_side() <==> sine > 0),
        status is Synced ==> (command_of(sine, status).enables_low_side() <==> sine <= 0),
{
}

/// The duty cycle never decreases as the sine's magnitude grows.
pub proof fn lemma_duty_monotonic(smaller: int, larger: int)
    requires
        magnitude(smaller) <= magnitude(larger),
    ensures
        duty_of_sine(smaller) <= duty_of_sine(larger),
{
}

} // verus!
