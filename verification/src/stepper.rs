//! The stepper-motor microstepping engine.
//!
//! A stepper is driven by energizing four coil terminals in rotation. The
//! engine owns a step counter and a current curve table; each step command
//! moves the counter by a style-dependent displacement and resolves the
//! counter into four duty-cycle values, one per coil terminal, which are
//! returned as channel writes for the caller to issue to the PWM
//! controller.

use vstd::arithmetic::div_mod::{
    lemma_add_mod_noop, lemma_fundamental_div_mod, lemma_fundamental_div_mod_converse_div,
    lemma_mod_bound, lemma_mod_decreases, lemma_mod_multiples_vanish, lemma_small_mod,
};
use vstd::prelude::*;

use crate::curve;
use crate::curve::curve_point;
use crate::{Motor, MotorError, PwmWrite, MAX_DUTY};

verus! {

#[derive(Debug, Clone, Copy, PartialEq, Eq, Structural)]
/// A structure encapsulating the channels used to control a stepper motor.
pub struct StepChannels {
    /// First reference channel, held at full duty while the motor runs.
    pub ref_channel1: u8,
    /// Second reference channel, held at full duty while the motor runs.
    pub ref_channel2: u8,
    /// Coil-A plus terminal.
    pub ain1: u8,
    /// Coil-A minus terminal.
    pub ain2: u8,
    /// Coil-B plus terminal.
    pub bin1: u8,
    /// Coil-B minus terminal.
    pub bin2: u8,
}

#[derive(Debug, Clone, Copy, PartialEq, Eq, Structural)]
/// The direction of one step command.
pub enum StepDirection {
    Forward,
    Backward,
}

#[derive(Debug, Clone, Copy, PartialEq, Eq, Structural)]
/// The stepping granularity policy.
pub enum StepStyle {
    Single,
    Double,
    Interleave,
    Microstep,
}

/// The fixed channel assignment of each stepper slot of the motor HAT.
pub open spec fn step_channels_of(step_motor: Motor) -> Option<StepChannels> {
    match step_motor {
        Motor::Stepper1 => Some(
            StepChannels {
                ref_channel1: 8u8,
                ref_channel2: 13u8,
                ain1: 10u8,
                ain2: 9u8,
                bin1: 11u8,
                bin2: 12u8,
            },
        ),
        Motor::Stepper2 => Some(
            StepChannels {
                ref_channel1: 2u8,
                ref_channel2: 7u8,
                ain1: 4u8,
                ain2: 3u8,
                bin1: 5u8,
                bin2: 6u8,
            },
        ),
        _ => None,
    }
}

/// Returns the channel assignment of the given motor slot, or `None` if
/// the slot is not a stepper slot.
pub fn get_step_channels_map(step_motor: Motor) -> (r: Option<StepChannels>)
    ensures
        r == step_channels_of(step_motor),
{
    match step_motor {
        Motor::Stepper1 => Some(
            StepChannels {
                ref_channel1: 8,
                ref_channel2: 13,
                ain1: 10,
                ain2: 9,
                bin1: 11,
                bin2: 12,
            },
        ),
        Motor::Stepper2 => Some(
            StepChannels {
                ref_channel1: 2,
                ref_channel2: 7,
                ain1: 4,
                ain2: 3,
                bin1: 5,
                bin2: 6,
            },
        ),
        _ => None,
    }
}

/// Half of the microstep resolution: the distance between two half-step
/// boundaries of the counter.
pub open spec fn half_step(resolution: int) -> int {
    resolution / 2
}

/// Whether the counter sits on a half-step boundary.
pub open spec fn is_aligned(counter: int, resolution: int) -> bool {
    counter % half_step(resolution) == 0
}

/// Which half-step the counter sits on; its parity decides whether a
/// `Single` or `Double` step advances by a half or a full step.
pub open spec fn interleave_index(counter: int, resolution: int) -> int {
    counter / half_step(resolution)
}

/// The displacement a non-microstep style takes from an aligned counter:
/// `Interleave` advances every half-step; `Single` and `Double` each
/// advance a half-step from every other boundary and a full step from the
/// rest, on opposite parities.
pub open spec fn aligned_step_size(counter: int, resolution: int, style: StepStyle) -> int {
    if style == StepStyle::Interleave {
        half_step(resolution)
    } else if (style == StepStyle::Single && interleave_index(counter, resolution) % 2 == 1) || (
    style == StepStyle::Double && interleave_index(counter, resolution) % 2 == 0) {
        half_step(resolution)
    } else {
        resolution
    }
}

/// The displacement that one step command reports: one microstep for
/// `Microstep`, nothing for an alignment-only correction, and the
/// style-dependent step size otherwise.
pub open spec fn step_displacement(counter: int, resolution: int, style: StepStyle) -> int {
    if style == StepStyle::Microstep {
        1
    } else if !is_aligned(counter, resolution) {
        0
    } else {
        aligned_step_size(counter, resolution, style)
    }
}

/// The step counter after one step command: `Microstep` walks one
/// microstep in the requested direction; a misaligned counter is first
/// corrected to the nearest boundary in the requested direction; an
/// aligned counter moves by the style's step size.
pub open spec fn next_counter(
    counter: int,
    resolution: int,
    dir: StepDirection,
    style: StepStyle,
) -> int {
    if style == StepStyle::Microstep {
        if dir == StepDirection::Forward {
            counter + 1
        } else {
            counter - 1
        }
    } else if !is_aligned(counter, resolution) {
        if dir == StepDirection::Forward {
            counter + (half_step(resolution) - counter % half_step(resolution))
        } else {
            counter - counter % half_step(resolution)
        }
    } else {
        if dir == StepDirection::Forward {
            counter + aligned_step_size(counter, resolution, style)
        } else {
            counter - aligned_step_size(counter, resolution, style)
        }
    }
}

/// The machine-limit conditions under which one step command is accepted:
/// the resolution admits a half-step, a forward command cannot push the
/// counter past its range, and a backward command keeps the counter
/// non-negative, preserving the headroom that the starting offset grants.
pub open spec fn step_allowed(
    counter: int,
    resolution: int,
    dir: StepDirection,
    style: StepStyle,
) -> bool {
    &&& 1 <= resolution
    &&& (style != StepStyle::Microstep ==> 2 <= resolution)
    &&& (dir == StepDirection::Forward ==> (if style == StepStyle::Microstep {
        counter + 1
    } else {
        counter + resolution
    }) <= i64::MAX)
    &&& (dir == StepDirection::Backward ==> (if style == StepStyle::Microstep {
        1 <= counter
    } else {
        !is_aligned(counter, resolution) || aligned_step_size(counter, resolution, style) <= counter
    }))
}

/// Applies one step command to the counter per the step-size policy and
/// returns the displacement applied: one microstep for `Microstep`, zero
/// for an alignment-only correction, a half or full step otherwise.
pub fn advance(
    step_dir: StepDirection,
    step_style: StepStyle,
    resolution: u32,
    step_counter: &mut i64,
) -> (displacement: i64)
    requires
        0 <= *old(step_counter),
        step_allowed(*old(step_counter) as int, resolution as int, step_dir, step_style),
    ensures
        *final(step_counter) == next_counter(
            *old(step_counter) as int,
            resolution as int,
            step_dir,
            step_style,
        ),
        displacement == step_displacement(
            *old(step_counter) as int,
            resolution as int,
            step_style,
        ),
        0 <= *final(step_counter),
{
    if step_style == StepStyle::Microstep {
        match step_dir {
            StepDirection::Forward => {
                *step_counter = *step_counter + 1;
            },
            StepDirection::Backward => {
                *step_counter = *step_counter - 1;
            },
        }
        return 1;
    }
    let half: u64 = (resolution / 2) as u64;
    let c: u64 = *step_counter as u64;
    let rem: u64 = c % half;
    if rem != 0 {
        proof {
            lemma_mod_decreases(c as nat, half as nat);
        }
        match step_dir {
            StepDirection::Forward => {
                *step_counter = *step_counter + (half - rem) as i64;
            },
            StepDirection::Backward => {
                *step_counter = *step_counter - rem as i64;
            },
        }
        0
    } else if step_style == StepStyle::Interleave {
        match step_dir {
            StepDirection::Forward => {
                *step_counter = *step_counter + half as i64;
            },
            StepDirection::Backward => {
                *step_counter = *step_counter - half as i64;
            },
        }
        half as i64
    } else {
        let idx: u64 = c / half;
        let size: u64 = if (step_style == StepStyle::Single && idx % 2 == 1) || (step_style
            == StepStyle::Double && idx % 2 == 0) {
            half
        } else {
            resolution as u64
        };
        match step_dir {
            StepDirection::Forward => {
                *step_counter = *step_counter + size as i64;
            },
            StepDirection::Backward => {
                *step_counter = *step_counter - size as i64;
            },
        }
        size as i64
    }
}

/// The coil whose current is ramping down at the given counter.
pub open spec fn trailing_coil(counter: int, resolution: int) -> int {
    (counter / resolution) % 4
}

/// The coil whose current is ramping up at the given counter: the next
/// coil after the trailing one in the four-phase rotation.
pub open spec fn leading_coil(counter: int, resolution: int) -> int {
    (trailing_coil(counter, resolution) + 1) % 4
}

/// The position of the counter within its quarter-phase: the index into
/// the current curve table.
pub open spec fn microstep_index(counter: int, resolution: int) -> int {
    counter % resolution
}

/// The leading and trailing coils are distinct slots of the four-entry
/// duty vector, and the microstep index stays inside the curve table.
pub proof fn lemma_coils_in_range(counter: int, resolution: int)
    requires
        1 <= resolution,
        0 <= counter,
    ensures
        0 <= trailing_coil(counter, resolution) < 4,
        0 <= leading_coil(counter, resolution) < 4,
        leading_coil(counter, resolution) != trailing_coil(counter, resolution),
        0 <= microstep_index(counter, resolution) < resolution,
{
    lemma_mod_bound(counter / resolution, 4);
    lemma_mod_bound(trailing_coil(counter, resolution) + 1, 4);
    lemma_mod_bound(counter, resolution);
    let t = trailing_coil(counter, resolution);
    if t < 3 {
        lemma_small_mod((t + 1) as nat, 4nat);
    }
}

/// Whether the full-scale collapse applies: outside microstepping, a
/// non-zero tie between the leading and trailing magnitudes is forced to
/// full duty to avoid a torque dip at exact alignment points.
pub open spec fn collapse_applies(
    counter: int,
    resolution: int,
    style: StepStyle,
    curve: Seq<u16>,
) -> bool {
    &&& style != StepStyle::Microstep
    &&& curve[microstep_index(counter, resolution)] == curve[resolution - microstep_index(
        counter,
        resolution,
    )]
    &&& curve[microstep_index(counter, resolution)] > 0
}

/// The four coil duty values at the given counter, ordered coil-A minus,
/// coil-B plus, coil-A plus, coil-B minus: the leading coil takes the
/// curve value at the microstep index, the trailing coil the curve value
/// at the mirrored index, the other two rest at zero — except that a
/// non-zero tie outside microstepping collapses both to full duty.
pub open spec fn resolve_duty(
    counter: int,
    resolution: int,
    style: StepStyle,
    curve: Seq<u16>,
) -> Seq<u16> {
    let rest = seq![0u16, 0u16, 0u16, 0u16];
    if collapse_applies(counter, resolution, style, curve) {
        rest.update(leading_coil(counter, resolution), MAX_DUTY).update(
            trailing_coil(counter, resolution),
            MAX_DUTY,
        )
    } else {
        rest.update(
            leading_coil(counter, resolution),
            curve[microstep_index(counter, resolution)],
        ).update(
            trailing_coil(counter, resolution),
            curve[resolution - microstep_index(counter, resolution)],
        )
    }
}

/// Resolves the step counter into the four coil duty values, using the
/// given current curve table.
pub fn resolve(step_counter: i64, resolution: u32, step_style: StepStyle, curve: &Vec<u16>) -> (duty:
    Vec<u16>)
    requires
        1 <= resolution,
        0 <= step_counter,
        curve@.len() == resolution + 1,
    ensures
        duty@ == resolve_duty(step_counter as int, resolution as int, step_style, curve@),
        duty@.len() == 4,
{
    proof {
        lemma_coils_in_range(step_counter as int, resolution as int);
    }
    let c: u64 = step_counter as u64;
    let res: u64 = resolution as u64;
    let trailing: usize = ((c / res) % 4) as usize;
    let leading: usize = (trailing + 1) % 4;
    let micro: usize = (c % res) as usize;
    let lead_val: u16 = curve[micro];
    let trail_val: u16 = curve[(resolution as usize) - micro];
    let mut duty: Vec<u16> = vec![0u16, 0u16, 0u16, 0u16];
    if step_style != StepStyle::Microstep && lead_val == trail_val && lead_val > 0 {
        duty[leading] = MAX_DUTY;
        duty[trailing] = MAX_DUTY;
    } else {
        duty[leading] = lead_val;
        duty[trailing] = trail_val;
    }
    proof {
        assert(duty@ =~= resolve_duty(
            step_counter as int,
            resolution as int,
            step_style,
            curve@,
        ));
    }
    duty
}

/// The writes that carry a resolved duty vector to the four coil
/// channels, in the engine's fixed emission order.
pub open spec fn coil_writes(ch: StepChannels, duty: Seq<u16>) -> Seq<PwmWrite> {
    seq![
        PwmWrite::Off { channel: ch.ain2, tick: duty[0] },
        PwmWrite::Off { channel: ch.bin1, tick: duty[1] },
        PwmWrite::Off { channel: ch.ain1, tick: duty[2] },
        PwmWrite::Off { channel: ch.bin2, tick: duty[3] },
    ]
}

/// The writes issued at construction: program every channel of the
/// assignment on at tick 0, hold the two reference channels at full duty,
/// and rest all four coil channels at zero duty.
pub open spec fn init_writes(ch: StepChannels) -> Seq<PwmWrite> {
    seq![
        PwmWrite::On { channel: ch.ref_channel1, tick: 0u16 },
        PwmWrite::On { channel: ch.ref_channel2, tick: 0u16 },
        PwmWrite::On { channel: ch.ain1, tick: 0u16 },
        PwmWrite::On { channel: ch.ain2, tick: 0u16 },
        PwmWrite::On { channel: ch.bin1, tick: 0u16 },
        PwmWrite::On { channel: ch.bin2, tick: 0u16 },
        PwmWrite::Off { channel: ch.ref_channel1, tick: MAX_DUTY },
        PwmWrite::Off { channel: ch.ref_channel2, tick: MAX_DUTY },
    ] + coil_writes(ch, seq![0u16, 0u16, 0u16, 0u16])
}

/// The writes issued by `stop`: de-energize the two reference channels and
/// the four coil channels.
pub open spec fn stop_writes(ch: StepChannels) -> Seq<PwmWrite> {
    seq![
        PwmWrite::FullOff { channel: ch.ref_channel1 },
        PwmWrite::FullOff { channel: ch.ref_channel2 },
        PwmWrite::FullOff { channel: ch.ain1 },
        PwmWrite::FullOff { channel: ch.ain2 },
        PwmWrite::FullOff { channel: ch.bin1 },
        PwmWrite::FullOff { channel: ch.bin2 },
    ]
}

/// The default microstep resolution when the caller requests none.
pub open spec fn requested_resolution(microsteps: Option<u32>) -> u32 {
    match microsteps {
        Some(m) => m,
        None => 16u32,
    }
}

/// A structure to initialize and control a stepper motor.
pub struct StepperMotor {
    /// The microstep resolution: microsteps per quarter-phase.
    pub microsteps: u32,
    /// The channel assignment of this stepper slot.
    pub channels: StepChannels,
    /// The current curve table, of length `microsteps + 1`.
    pub curve: Vec<u16>,
    /// The step counter: absolute position in microsteps since creation.
    pub current_step: i64,
}

impl StepperMotor {
    /// Well-formedness: a positive resolution, a non-negative counter, and
    /// a curve table that holds exactly the current curve of the
    /// resolution.
    pub open spec fn wf(self) -> bool {
        &&& 1 <= self.microsteps
        &&& 0 <= self.current_step
        &&& self.curve@.len() == self.microsteps + 1
        &&& forall|i: int|
            0 <= i <= self.microsteps ==> #[trigger] self.curve@[i] == curve_point(
                self.microsteps as int,
                i,
            )
    }

    /// Initializes the stepper motor for the given stepper slot. If
    /// `microsteps` is not specified, it defaults to 16.
    ///
    /// On success, returns the engine together with the initialization
    /// writes the caller must issue. Fails exactly when the slot is not a
    /// stepper slot or the requested resolution is zero; no engine is
    /// returned then.
    pub fn try_new(step_motor: Motor, microsteps: Option<u32>) -> (r: Result<
        (StepperMotor, Vec<PwmWrite>),
        MotorError,
    >)
        ensures
            match r {
                Ok(p) => {
                    &&& step_channels_of(step_motor) == Some(p.0.channels)
                    &&& requested_resolution(microsteps) >= 1
                    &&& p.0.microsteps == requested_resolution(microsteps)
                    &&& p.0.current_step == i64::MAX / 2
                    &&& p.0.wf()
                    &&& p.1@ == init_writes(p.0.channels)
                },
                Err(e) => {
                    &&& e == MotorError::InvalidMotorError
                    &&& (step_channels_of(step_motor) is None || requested_resolution(microsteps)
                        == 0)
                },
            },
    {
        let channels = match get_step_channels_map(step_motor) {
            Some(ch) => ch,
            None => {
                return Err(MotorError::InvalidMotorError);
            },
        };
        let resolution: u32 = match microsteps {
            Some(m) => m,
            None => 16,
        };
        let curve = match curve::build(resolution) {
            Ok(c) => c,
            Err(e) => {
                return Err(e);
            },
        };
        let motor = StepperMotor { microsteps: resolution, channels, curve, current_step: i64::MAX
            / 2 };
        let mut writes: Vec<PwmWrite> = Vec::new();
        writes.push(PwmWrite::On { channel: channels.ref_channel1, tick: 0 });
        writes.push(PwmWrite::On { channel: channels.ref_channel2, tick: 0 });
        writes.push(PwmWrite::On { channel: channels.ain1, tick: 0 });
        writes.push(PwmWrite::On { channel: channels.ain2, tick: 0 });
        writes.push(PwmWrite::On { channel: channels.bin1, tick: 0 });
        writes.push(PwmWrite::On { channel: channels.bin2, tick: 0 });
        writes.push(PwmWrite::Off { channel: channels.ref_channel1, tick: MAX_DUTY });
        writes.push(PwmWrite::Off { channel: channels.ref_channel2, tick: MAX_DUTY });
        writes.push(PwmWrite::Off { channel: channels.ain2, tick: 0 });
        writes.push(PwmWrite::Off { channel: channels.bin1, tick: 0 });
        writes.push(PwmWrite::Off { channel: channels.ain1, tick: 0 });
        writes.push(PwmWrite::Off { channel: channels.bin2, tick: 0 });
        proof {
            assert(writes@ =~= init_writes(channels));
        }
        Ok((motor, writes))
    }

    /// Applies the step-size policy for one step command and resolves the
    /// updated counter into the four coil duty values.
    pub fn calc_step(&mut self, step_dir: StepDirection, step_style: StepStyle) -> (duty: Vec<u16>)
        requires
            old(self).wf(),
            step_allowed(
                old(self).current_step as int,
                old(self).microsteps as int,
                step_dir,
                step_style,
            ),
        ensures
            final(self).wf(),
            final(self).microsteps == old(self).microsteps,
            final(self).channels == old(self).channels,
            final(self).curve == old(self).curve,
            final(self).current_step == next_counter(
                old(self).current_step as int,
                old(self).microsteps as int,
                step_dir,
                step_style,
            ),
            duty@ == resolve_duty(
                final(self).current_step as int,
                old(self).microsteps as int,
                step_style,
                old(self).curve@,
            ),
            duty@.len() == 4,
    {
        let mut counter: i64 = self.current_step;
        let _ = advance(step_dir, step_style, self.microsteps, &mut counter);
        self.current_step = counter;
        self.calc_duty_cycle(step_style)
    }

    /// Resolves the current counter into the four coil duty values.
    pub fn calc_duty_cycle(&self, step_style: StepStyle) -> (duty: Vec<u16>)
        requires
            self.wf(),
        ensures
            duty@ == resolve_duty(
                self.current_step as int,
                self.microsteps as int,
                step_style,
                self.curve@,
            ),
            duty@.len() == 4,
    {
        resolve(self.current_step, self.microsteps, step_style, &self.curve)
    }

    /// Turns a resolved duty vector into the writes for the four coil
    /// channels.
    pub fn update_coils(&self, duty_cycle: &Vec<u16>) -> (writes: Vec<PwmWrite>)
        requires
            duty_cycle@.len() == 4,
        ensures
            writes@ == coil_writes(self.channels, duty_cycle@),
    {
        let mut writes: Vec<PwmWrite> = Vec::new();
        writes.push(PwmWrite::Off { channel: self.channels.ain2, tick: duty_cycle[0] });
        writes.push(PwmWrite::Off { channel: self.channels.bin1, tick: duty_cycle[1] });
        writes.push(PwmWrite::Off { channel: self.channels.ain1, tick: duty_cycle[2] });
        writes.push(PwmWrite::Off { channel: self.channels.bin2, tick: duty_cycle[3] });
        proof {
            assert(writes@ =~= coil_writes(self.channels, duty_cycle@));
        }
        writes
    }

    /// Commands the stepper motor to step one time in a given direction
    /// and with a given style, returning the coil-channel writes the
    /// caller must issue.
    pub fn step_once(&mut self, step_dir: StepDirection, step_style: StepStyle) -> (writes: Vec<
        PwmWrite,
    >)
        requires
            old(self).wf(),
            step_allowed(
                old(self).current_step as int,
                old(self).microsteps as int,
                step_dir,
                step_style,
            ),
        ensures
            final(self).wf(),
            final(self).microsteps == old(self).microsteps,
            final(self).channels == old(self).channels,
            final(self).curve == old(self).curve,
            final(self).current_step == next_counter(
                old(self).current_step as int,
                old(self).microsteps as int,
                step_dir,
                step_style,
            ),
            writes@ == coil_writes(
                old(self).channels,
                resolve_duty(
                    next_counter(
                        old(self).current_step as int,
                        old(self).microsteps as int,
                        step_dir,
                        step_style,
                    ),
                    old(self).microsteps as int,
                    step_style,
                    old(self).curve@,
                ),
            ),
    {
        let duty_cycle = self.calc_step(step_dir, step_style);
        self.update_coils(&duty_cycle)
    }

    /// Stops energizing the channels of this motor. The step counter is
    /// not reset: position memory persists across `stop`.
    pub fn stop(&self) -> (writes: Vec<PwmWrite>)
        ensures
            writes@ == stop_writes(self.channels),
    {
        let mut writes: Vec<PwmWrite> = Vec::new();
        writes.push(PwmWrite::FullOff { channel: self.channels.ref_channel1 });
        writes.push(PwmWrite::FullOff { channel: self.channels.ref_channel2 });
        writes.push(PwmWrite::FullOff { channel: self.channels.ain1 });
        writes.push(PwmWrite::FullOff { channel: self.channels.ain2 });
        writes.push(PwmWrite::FullOff { channel: self.channels.bin1 });
        writes.push(PwmWrite::FullOff { channel: self.channels.bin2 });
        proof {
            assert(writes@ =~= stop_writes(self.channels));
        }
        writes
    }
}

/// Law: as the counter walks forward microstep by microstep from a
/// quarter-phase boundary, the trailing coil holds one value over each
/// block of `resolution` consecutive counters, and block `j` holds the
/// `j`-th coil after the starting one in the four-phase rotation.
pub proof fn lemma_trailing_coil_cycle(start: int, resolution: int, j: int, k: int)
    requires
        1 <= resolution,
        0 <= start,
        start % resolution == 0,
        0 <= j < 4,
        j * resolution <= k < (j + 1) * resolution,
    ensures
        trailing_coil(start + k, resolution) == (trailing_coil(start, resolution) + j) % 4,
{
    let q = start / resolution;
    let r = k - j * resolution;
    lemma_fundamental_div_mod(start, resolution);
    assert(start + k == (q + j) * resolution + r && 0 <= r < resolution) by (nonlinear_arith)
        requires
            start == resolution * q + start % resolution,
            start % resolution == 0,
            r == k - j * resolution,
            j * resolution <= k < (j + 1) * resolution,
    ;
    lemma_fundamental_div_mod_converse_div(start + k, resolution, q + j, r);
    lemma_add_mod_noop(q, j, 4);
    lemma_small_mod(j as nat, 4nat);
    lemma_mod_bound(q, 4);
    lemma_add_mod_noop(q % 4, j, 4);
    lemma_small_mod((j % 4) as nat, 4nat);
}

/// Law: over one full electrical cycle of `4·resolution` microsteps from a
/// quarter-phase boundary, the four blocks of the cycle energize four
/// distinct trailing coils.
pub proof fn lemma_trailing_coils_distinct(start: int, resolution: int, j1: int, j2: int)
    requires
        1 <= resolution,
        0 <= start,
        start % resolution == 0,
        0 <= j1 < j2 < 4,
    ensures
        trailing_coil(start + j1 * resolution, resolution) != trailing_coil(
            start + j2 * resolution,
            resolution,
        ),
{
    assert(j1 * resolution < (j1 + 1) * resolution && j2 * resolution < (j2 + 1) * resolution)
        by (nonlinear_arith)
        requires
            1 <= resolution,
    ;
    lemma_trailing_coil_cycle(start, resolution, j1, j1 * resolution);
    lemma_trailing_coil_cycle(start, resolution, j2, j2 * resolution);
    let t = trailing_coil(start, resolution);
    lemma_mod_bound(start / resolution, 4);
    lemma_mod_bound(t + j1, 4);
    lemma_mod_bound(t + j2, 4);
    if (t + j1) % 4 == (t + j2) % 4 {
        lemma_fundamental_div_mod(t + j1, 4);
        lemma_fundamental_div_mod(t + j2, 4);
        assert(false);
    }
}

/// Law: the trailing coil repeats after one full electrical cycle of
/// `4·resolution` microsteps.
pub proof fn lemma_trailing_coil_period(counter: int, resolution: int)
    requires
        1 <= resolution,
        0 <= counter,
    ensures
        trailing_coil(counter + 4 * resolution, resolution) == trailing_coil(counter, resolution),
{
    let q = counter / resolution;
    let r = counter % resolution;
    lemma_fundamental_div_mod(counter, resolution);
    lemma_mod_bound(counter, resolution);
    assert(counter + 4 * resolution == (q + 4) * resolution + r) by (nonlinear_arith)
        requires
            counter == resolution * q + r,
    ;
    lemma_fundamental_div_mod_converse_div(counter + 4 * resolution, resolution, q + 4, r);
    lemma_mod_multiples_vanish(1, q, 4);
}

/// Law: stopping is idempotent. The writes that `stop` issues depend only
/// on the channel assignment, which no step command changes, so two
/// consecutive `stop` calls — or a `stop` in any two states of the same
/// motor — produce identical write sequences.
pub proof fn lemma_stop_idempotent(first: StepperMotor, second: StepperMotor)
    requires
        first.channels == second.channels,
    ensures
        stop_writes(first.channels) == stop_writes(second.channels),
{
}

/// Law: a forward full step followed by a backward step of the same style
/// returns both the counter and the resolved duty vector to their original
/// values. For `Single` and `Double` this needs an even resolution, an
/// aligned counter, and the boundary parity from which the style takes a
/// full step; `Interleave` needs only alignment, and `Microstep` holds
/// unconditionally.
pub proof fn lemma_full_step_round_trip(
    counter: int,
    resolution: int,
    style: StepStyle,
    curve: Seq<u16>,
)
    requires
        2 <= resolution,
        resolution % 2 == 0,
        0 <= counter,
        style != StepStyle::Microstep ==> is_aligned(counter, resolution),
        style == StepStyle::Single ==> interleave_index(counter, resolution) % 2 == 0,
        style == StepStyle::Double ==> interleave_index(counter, resolution) % 2 == 1,
    ensures
        next_counter(
            next_counter(counter, resolution, StepDirection::Forward, style),
            resolution,
            StepDirection::Backward,
            style,
        ) == counter,
        resolve_duty(
            next_counter(
                next_counter(counter, resolution, StepDirection::Forward, style),
                resolution,
                StepDirection::Backward,
                style,
            ),
            resolution,
            style,
            curve,
        ) == resolve_duty(counter, resolution, style, curve),
{
    if style == StepStyle::Microstep {
        return ;
    }
    let half = half_step(resolution);
    lemma_fundamental_div_mod(resolution, 2);
    assert(resolution == 2 * half);
    let idx = interleave_index(counter, resolution);
    lemma_fundamental_div_mod(counter, half);
    assert(counter == half * idx);
    if style == StepStyle::Interleave {
        let c1 = counter + half;
        lemma_mod_multiples_vanish(1, counter, half);
        assert(c1 % half == 0);
        assert(next_counter(counter, resolution, StepDirection::Forward, style) == c1);
        assert(next_counter(c1, resolution, StepDirection::Backward, style) == counter);
    } else {
        assert(aligned_step_size(counter, resolution, style) == resolution);
        let c1 = counter + resolution;
        lemma_mod_multiples_vanish(2, counter, half);
        assert(half * 2 + counter == c1);
        assert(c1 % half == 0);
        assert(c1 == (idx + 2) * half) by (nonlinear_arith)
            requires
                counter == half * idx,
                c1 == counter + resolution,
                resolution == 2 * half,
        ;
        lemma_fundamental_div_mod_converse_div(c1, half, idx + 2, 0);
        assert(interleave_index(c1, resolution) == idx + 2);
        lemma_mod_multiples_vanish(1, idx, 2);
        assert((idx + 2) % 2 == idx % 2);
        assert(aligned_step_size(c1, resolution, style) == resolution);
        assert(next_counter(c1, resolution, StepDirection::Backward, style) == counter);
    }
}

/// Law: at any counter, only the leading and trailing coils of the
/// current phase may be energized; the other two coil slots of the duty
/// vector rest at zero.
pub proof fn lemma_at_most_two_coils_energized(
    counter: int,
    resolution: int,
    style: StepStyle,
    curve: Seq<u16>,
)
    requires
        1 <= resolution,
        0 <= counter,
    ensures
        resolve_duty(counter, resolution, style, curve).len() == 4,
        forall|k: int|
            0 <= k < 4 && k != leading_coil(counter, resolution) && k != trailing_coil(
                counter,
                resolution,
            ) ==> resolve_duty(counter, resolution, style, curve)[k] == 0,
{
    lemma_coils_in_range(counter, resolution);
}

/// Law: whenever the leading and trailing magnitudes tie at a non-zero
/// value and the style is not `Microstep`, both coils are driven at full
/// duty — never at any other equal non-zero pair — while the other two
/// coils rest at zero.
pub proof fn lemma_collapse_full_scale(
    counter: int,
    resolution: int,
    style: StepStyle,
    curve: Seq<u16>,
)
    requires
        1 <= resolution,
        0 <= counter,
        curve.len() == resolution + 1,
        style != StepStyle::Microstep,
        curve[microstep_index(counter, resolution)] == curve[resolution - microstep_index(
            counter,
            resolution,
        )],
        curve[microstep_index(counter, resolution)] > 0,
    ensures
        resolve_duty(counter, resolution, style, curve)[leading_coil(counter, resolution)]
            == MAX_DUTY,
        resolve_duty(counter, resolution, style, curve)[trailing_coil(counter, resolution)]
            == MAX_DUTY,
        forall|k: int|
            0 <= k < 4 && k != leading_coil(counter, resolution) && k != trailing_coil(
                counter,
                resolution,
            ) ==> resolve_duty(counter, resolution, style, curve)[k] == 0,
{
    lemma_coils_in_range(counter, resolution);
}

} // verus!
