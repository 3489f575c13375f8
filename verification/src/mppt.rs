//! Maximum-power-point tracking of the boost stage.
//!
//! Once per tick the controller compares the boost converter's input voltage
//! and current with the previous sample and nudges the boost duty cycle by
//! one fixed step towards the point of maximum power. While the voltage
//! stands still it follows the current; once the voltage moves it follows the
//! sign of `I + V * dI/dV`, which approximates the derivative of power with
//! respect to voltage.

use vstd::prelude::*;

verus! {

/// Dead band around zero inside which a difference counts as no change.
pub const MARGIN: i32 = 0;

/// Lowest boost duty cycle of the operating envelope (20 % of the carrier).
pub const DUTY_MIN: u32 = 51;

/// Highest boost duty cycle of the operating envelope (80 % of the carrier).
pub const DUTY_MAX: u32 = 204;

/// Amount by which the duty cycle moves in one tick.
pub const DUTY_STEP: u32 = 1;

/// Value that seeds the previous voltage and current at start-up.
pub const SEED_SAMPLE: i32 = 1;

/// Full-scale range of the current and voltage sensor, in millivolts.
pub const SENSOR_RANGE_MV: i32 = 512;

/// Number of conversion codes that span the sensor's full-scale range.
pub const SENSOR_CODES: i32 = 32768;

/// Quotient of `a` by `b` rounded towards zero, as machine division rounds.
pub open spec fn quotient_toward_zero(a: int, b: int) -> int
    recommends
        b != 0,
{
    if a >= 0 && b > 0 {
        a / b
    } else if a >= 0 {
        -(a / (-b))
    } else if b > 0 {
        -((-a) / b)
    } else {
        (-a) / (-b)
    }
}

/// Millivolts that a conversion code of the sensor stands for.
pub open spec fn code_to_millivolts(measurement: int) -> int {
    quotient_toward_zero(measurement * SENSOR_RANGE_MV, SENSOR_CODES as int)
}

/// The incremental conductance `dI/dV`, taken as zero where the voltage did
/// not change.
pub open spec fn conductance(delta_current: int, delta_voltage: int) -> int {
    if delta_voltage == 0 {
        0
    } else {
        quotient_toward_zero(delta_current, delta_voltage)
    }
}

/// What one tick does to the duty cycle.
#[derive(Clone, Copy, Debug, PartialEq, Eq, Structural)]
pub enum Adjustment {
    /// Move the duty cycle up by one step.
    Raise,
    /// Move the duty cycle down by one step.
    Lower,
    /// Leave the duty cycle where it is.
    Hold,
}

/// The tracker's state as mathematical values.
pub struct MpptState {
    /// Voltage of the previous tick.
    pub previous_voltage: int,
    /// Current of the previous tick.
    pub previous_current: int,
    /// Duty cycle that is in force.
    pub duty: int,
}

/// The direction in which a new sample moves the duty cycle.
///
/// With the voltage inside the dead band the current decides: more current
/// raises the duty cycle, less current lowers it. Otherwise the sign of
/// `I + V * dI/dV` decides: positive lowers the duty cycle, negative raises
/// it.
pub open spec fn adjustment(
    previous_voltage: int,
    previous_current: int,
    voltage: int,
    current: int,
) -> Adjustment {
    let delta_voltage = voltage - previous_voltage;
    let delta_current = current - previous_current;
    if -MARGIN <= delta_voltage <= MARGIN {
        if delta_current > MARGIN {
            Adjustment::Raise
        } else if delta_current < -MARGIN {
            Adjustment::Lower
        } else {
            Adjustment::Hold
        }
    } else {
        let slope = current + voltage * conductance(delta_current, delta_voltage);
        if slope > MARGIN {
            Adjustment::Lower
        } else if slope < -MARGIN {
            Adjustment::Raise
        } else {
            Adjustment::Hold
        }
    }
}

/// The duty cycle after an adjustment: one step in the given direction,
/// unless that step would leave the operating envelope.
pub open spec fn adjusted_duty(duty: int, direction: Adjustment) -> int {
    match direction {
        Adjustment::Raise => if duty + DUTY_STEP <= DUTY_MAX {
            duty + DUTY_STEP
        } else {
            duty
        },
        Adjustment::Lower => if duty - DUTY_STEP >= DUTY_MIN {
            duty - DUTY_STEP
        } else {
            duty
        },
        Adjustment::Hold => duty,
    }
}

/// The state after a tick that sampled `voltage` and `current`. The sample
/// becomes the previous one whatever happens to the duty cycle.
pub open spec fn mppt_step(state: MpptState, voltage: int, current: int) -> MpptState {
    MpptState {
        previous_voltage: voltage,
        previous_current: current,
        duty: adjusted_duty(
            state.duty,
            adjustment(state.previous_voltage, state.previous_current, voltage, current),
        ),
    }
}

/// The conversion code that stands for a reading: the code itself, or zero
/// where the sensor gave none.
pub open spec fn reading_or_zero(reading: Option<i16>) -> int {
    match reading {
        Some(code) => code as int,
        None => 0,
    }
}

/// Converts a conversion code of the voltage sensor to millivolts.
pub fn adc_to_mv(measurement: i16) -> (millivolts: i32)
    ensures
        millivolts == code_to_millivolts(measurement as int),
        -SENSOR_RANGE_MV <= millivolts < SENSOR_RANGE_MV,
{
    let scaled: i32 = measurement as i32 * SENSOR_RANGE_MV;
    scaled / SENSOR_CODES
}

/// Converts a conversion code of the current sensor to milliamperes. The
/// current sensor shares the voltage sensor's transfer function.
pub fn adc_to_ma(measurement: i16) -> (milliamperes: i32)
    ensures
        milliamperes == code_to_millivolts(measurement as int),
        -SENSOR_RANGE_MV <= milliamperes < SENSOR_RANGE_MV,
{
    adc_to_mv(measurement)
}

/// Computes the incremental conductance `dI/dV` with the quotient rounded
/// towards zero. Where the voltage did not change, or where the quotient does
/// not fit the machine integer, the conductance counts as zero.
pub fn incremental_conductance(delta_current: i64, delta_voltage: i64) -> (slope: i64)
    ensures
        slope == if delta_current == i64::MIN && delta_voltage == -1 {
            0
        } else {
            conductance(delta_current as int, delta_voltage as int)
        },
{
    proof {
        if delta_voltage != 0 {
            lemma_quotient_bounded(delta_current as int, delta_voltage as int);
        }
    }
    match delta_current.checked_div(delta_voltage) {
        Some(quotient) => quotient,
        None => 0,
    }
}

/// Decides in which direction a new sample moves the duty cycle.
pub fn decide_adjustment(
    previous_voltage: i32,
    previous_current: i32,
    voltage: i32,
    current: i32,
) -> (direction: Adjustment)
    ensures
        direction == adjustment(
            previous_voltage as int,
            previous_current as int,
            voltage as int,
            current as int,
        ),
{
    let margin: i64 = MARGIN as i64;
    let delta_voltage: i64 = voltage as i64 - previous_voltage as i64;
    let delta_current: i64 = current as i64 - previous_current as i64;
    if -margin <= delta_voltage && delta_voltage <= margin {
        if delta_current > margin {
            Adjustment::Raise
        } else if delta_current < -margin {
            Adjustment::Lower
        } else {
            Adjustment::Hold
        }
    } else {
        let di_dv: i64 = incremental_conductance(delta_current, delta_voltage);
        proof {
            lemma_quotient_bounded(delta_current as int, delta_voltage as int);
            lemma_product_bounded(voltage as int, di_dv as int);
        }
        let slope: i64 = current as i64 + voltage as i64 * di_dv;
        if slope > margin {
            Adjustment::Lower
        } else if slope < -margin {
            Adjustment::Raise
        } else {
            Adjustment::Hold
        }
    }
}

/// Moves a duty cycle one step in the given direction, unless that step
/// would leave the operating envelope.
pub fn adjust_duty(duty: u32, direction: Adjustment) -> (next: u32)
    ensures
        next == adjusted_duty(duty as int, direction),
{
    match direction {
        Adjustment::Raise => {
            let raised: u32 = duty.saturating_add(DUTY_STEP);
            if raised <= DUTY_MAX {
                raised
            } else {
                duty
            }
        },
        Adjustment::Lower => {
            let lowered: u32 = duty.saturating_sub(DUTY_STEP);
            if lowered >= DUTY_MIN {
                lowered
            } else {
                duty
            }
        },
        Adjustment::Hold => duty,
    }
}

/// The tracker of the boost stage's maximum power point.
///
/// It owns the previous sample and the duty cycle in force, and keeps the duty
/// cycle inside the operating envelope at all times.
pub struct MpptController {
    previous_voltage: i32,
    previous_current: i32,
    duty: u32,
}

impl View for MpptController {
    type V = MpptState;

    closed spec fn view(&self) -> MpptState {
        MpptState {
            previous_voltage: self.previous_voltage as int,
            previous_current: self.previous_current as int,
            duty: self.duty as int,
        }
    }
}

impl MpptController {
    #[verifier::type_invariant]
    spec fn inside_envelope(self) -> bool {
        DUTY_MIN <= self.duty <= DUTY_MAX
    }

    /// The state in which every tracker starts: the lowest duty cycle of the
    /// envelope, and a previous sample seeded with a value other than zero.
    pub open spec fn initial() -> MpptState {
        MpptState {
            previous_voltage: SEED_SAMPLE as int,
            previous_current: SEED_SAMPLE as int,
            duty: DUTY_MIN as int,
        }
    }

    /// Makes a tracker in its start-up state.
    pub fn new() -> (controller: Self)
        ensures
            controller@ == Self::initial(),
    {
        MpptController {
            previous_voltage: SEED_SAMPLE,
            previous_current: SEED_SAMPLE,
            duty: DUTY_MIN,
        }
    }

    /// The duty cycle in force.
    pub fn duty(&self) -> (duty: u32)
        ensures
            duty == self@.duty,
            DUTY_MIN <= duty <= DUTY_MAX,
    {
        proof {
            use_type_invariant(self);
        }
        self.duty
    }

    /// The voltage of the previous tick, in millivolts.
    pub fn previous_voltage(&self) -> (voltage: i32)
        ensures
            voltage == self@.previous_voltage,
    {
        self.previous_voltage
    }

    /// The current of the previous tick, in milliamperes.
    pub fn previous_current(&self) -> (current: i32)
        ensures
            current == self@.previous_current,
    {
        self.previous_current
    }

    /// Runs one tick on a sample in physical units and returns the duty
    /// cycle that is then in force.
    pub fn update(&mut self, voltage: i32, current: i32) -> (duty: u32)
        ensures
            final(self)@ == mppt_step(old(self)@, voltage as int, current as int),
            duty == final(self)@.duty,
            DUTY_MIN <= duty <= DUTY_MAX,
            old(self)@.duty - DUTY_STEP <= duty <= old(self)@.duty + DUTY_STEP,
    {
        proof {
            use_type_invariant(&*self);
        }
        let direction: Adjustment = decide_adjustment(
            self.previous_voltage,
            self.previous_current,
            voltage,
            current,
        );
        let next: u32 = adjust_duty(self.duty, direction);
        self.previous_voltage = voltage;
        self.previous_current = current;
        self.duty = next;
        next
    }

    /// Runs one tick on the two raw readings of the sensor. A reading that
    /// the sensor failed to deliver counts as the code zero, and the tick
    /// goes on.
    pub fn sample(&mut self, voltage_reading: Option<i16>, current_reading: Option<i16>) -> (duty:
        u32)
        ensures
            final(self)@ == mppt_step(
                old(self)@,
                code_to_millivolts(reading_or_zero(voltage_reading)),
                code_to_millivolts(reading_or_zero(current_reading)),
            ),
            duty == final(self)@.duty,
            DUTY_MIN <= duty <= DUTY_MAX,
            old(self)@.duty - DUTY_STEP <= duty <= old(self)@.duty + DUTY_STEP,
    {
        let voltage_code: i16 = match voltage_reading {
            Some(code) => code,
            None => 0,
        };
        let current_code: i16 = match current_reading {
            Some(code) => code,
            None => 0,
        };
        let voltage: i32 = adc_to_mv(voltage_code);
        let current: i32 = adc_to_ma(current_code);
        self.update(voltage, current)
    }
}

/// A step of the tracker never leaves the operating envelope and never moves
/// the duty cycle by more than one step, whatever the sample.
pub proof fn lemma_step_stays_in_envelope(state: MpptState, voltage: int, current: int)
    requires
        DUTY_MIN <= state.duty <= DUTY_MAX,
    ensures
        DUTY_MIN <= mppt_step(state, voltage, current).duty <= DUTY_MAX,
        state.duty - DUTY_STEP <= mppt_step(state, voltage, current).duty <= state.duty
            + DUTY_STEP,
        mppt_step(state, voltage, current).previous_voltage == voltage,
        mppt_step(state, voltage, current).previous_current == current,
{
}

/// A sample that repeats the one before it leaves the duty cycle alone.
pub proof fn lemma_unchanged_sample_holds(state: MpptState)
    ensures
        mppt_step(state, state.previous_voltage, state.previous_current).duty == state.duty,
{
}

/// The state after a run of ticks, one for each sample, oldest first. A
/// sample is a pair of voltage and current.
pub open spec fn mppt_run(state: MpptState, samples: Seq<(int, int)>) -> MpptState
    decreases samples.len(),
{
    if samples.len() == 0 {
        state
    } else {
        mppt_step(mppt_run(state, samples.drop_last()), samples.last().0, samples.last().1)
    }
}

/// Over any run of samples the duty cycle stays inside the operating
/// envelope and moves by at most one step per tick.
pub proof fn lemma_run_stays_in_envelope(state: MpptState, samples: Seq<(int, int)>)
    requires
        DUTY_MIN <= state.duty <= DUTY_MAX,
    ensures
        DUTY_MIN <= mppt_run(state, samples).duty <= DUTY_MAX,
        state.duty - samples.len() * DUTY_STEP <= mppt_run(state, samples).duty <= state.duty
            + samples.len() * DUTY_STEP,
    decreases samples.len(),
{
    if samples.len() > 0 {
        lemma_run_stays_in_envelope(state, samples.drop_last());
        lemma_step_stays_in_envelope(
            mppt_run(state, samples.drop_last()),
            samples.last().0,
            samples.last().1,
        );
    }
}

/// The sensor's transfer function never decreases as the conversion code
/// grows.
pub proof fn lemma_code_to_millivolts_monotonic(lower: int, higher: int)
    requires
        lower <= higher,
    ensures
        code_to_millivolts(lower) <= code_to_millivolts(higher),
{
}

/// A quotient rounded towards zero is no larger in magnitude than its
/// dividend, and at most half of it where the divisor is not a unit.
proof fn lemma_quotient_bounded(a: int, b: int)
    requires
        b != 0,
    ensures
        a >= 0 ==> -a <= quotient_toward_zero(a, b) <= a,
        a < 0 ==> a <= quotient_toward_zero(a, b) <= -a,
        a == 0 ==> quotient_toward_zero(a, b) == 0,
        b != 1 && b != -1 && a < 0 ==> a < quotient_toward_zero(a, b) < -a,
{
    let n: int = if a >= 0 { a } else { -a };
    let d: int = if b > 0 { b } else { -b };
    assert(0 <= n / d <= n) by (nonlinear_arith)
        requires
            n >= 0,
            d >= 1,
    ;
    if d >= 2 && n > 0 {
        assert(n / d < n) by (nonlinear_arith)
            requires
                n > 0,
                d >= 2,
        ;
    }
}

/// The product of a 32-bit voltage and a conductance of at most 32 bits and
/// a sign leaves room for one more 32-bit term in 64 bits.
proof fn lemma_product_bounded(voltage: int, slope: int)
    requires
        -0x8000_0000 <= voltage <= 0x7fff_ffff,
        -0xffff_ffff <= slope <= 0xffff_ffff,
    ensures
        -0x7fff_ffff_8000_0000 <= voltage * slope <= 0x7fff_ffff_8000_0000,
{
    assert(-0x7fff_ffff_8000_0000 <= voltage * slope <= 0x7fff_ffff_8000_0000)
        by (nonlinear_arith)
        requires
            -0x8000_0000 <= voltage <= 0x7fff_ffff,
            -0xffff_ffff <= slope <= 0xffff_ffff,
    ;
}

} // verus!
