use adafruit_motorkit::stepper::{advance, resolve, StepDirection, StepStyle, StepperMotor};
use adafruit_motorkit::{curve, Motor, MotorError, PwmWrite};

fn curve16() -> Vec<u16> {
    curve::build(16).unwrap()
}

#[test]
fn single_forward_from_zero() {
    // resolution 16, counter 0: the counter is already on a half-step
    // boundary, its half-step index 0 is even, so a Single step advances a
    // full step of 16 microsteps.
    let cv = curve16();
    let mut counter: i64 = 0;
    let d = advance(StepDirection::Forward, StepStyle::Single, 16, &mut counter);
    assert_eq!(d, 16);
    assert_eq!(counter, 16);
    // trailing coil (16/16) % 4 = 1, leading coil 2, microstep 0: the
    // leading coil rests at curve[0] = 0, the trailing holds curve[16].
    let duty = resolve(counter, 16, StepStyle::Single, &cv);
    assert_eq!(duty, vec![0, 4095, 0, 0]);
}

#[test]
fn alignment_correction_forward() {
    let mut counter: i64 = 3;
    let d = advance(StepDirection::Forward, StepStyle::Single, 16, &mut counter);
    assert_eq!(d, 0);
    assert_eq!(counter, 8);
}

#[test]
fn alignment_correction_backward() {
    let mut counter: i64 = 3;
    let d = advance(StepDirection::Backward, StepStyle::Double, 16, &mut counter);
    assert_eq!(d, 0);
    assert_eq!(counter, 0);
}

#[test]
fn microstep_walks_one_at_a_time() {
    let mut counter: i64 = 5;
    let d = advance(StepDirection::Forward, StepStyle::Microstep, 16, &mut counter);
    assert_eq!(d, 1);
    assert_eq!(counter, 6);
    let d = advance(StepDirection::Backward, StepStyle::Microstep, 16, &mut counter);
    assert_eq!(d, 1);
    assert_eq!(counter, 5);
}

#[test]
fn interleave_takes_every_half_step() {
    let mut counter: i64 = 0;
    for k in 1..=8i64 {
        let d = advance(StepDirection::Forward, StepStyle::Interleave, 16, &mut counter);
        assert_eq!(d, 8);
        assert_eq!(counter, 8 * k);
    }
}

#[test]
fn single_and_double_alternate_half_and_full() {
    // Single takes a full step from even half-step indices, a half step
    // from odd ones; Double does the opposite.
    let mut counter: i64 = 0;
    let d = advance(StepDirection::Forward, StepStyle::Single, 16, &mut counter);
    assert_eq!((d, counter), (16, 16));
    let mut counter: i64 = 8;
    let d = advance(StepDirection::Forward, StepStyle::Single, 16, &mut counter);
    assert_eq!((d, counter), (8, 16));
    let mut counter: i64 = 0;
    let d = advance(StepDirection::Forward, StepStyle::Double, 16, &mut counter);
    assert_eq!((d, counter), (8, 8));
    let mut counter: i64 = 8;
    let d = advance(StepDirection::Forward, StepStyle::Double, 16, &mut counter);
    assert_eq!((d, counter), (16, 24));
}

#[test]
fn full_step_round_trip_restores_duty() {
    // A forward full step followed by a backward step of the same style
    // returns counter and duty vector to their original values.
    let cv = curve16();
    let before = resolve(0, 16, StepStyle::Single, &cv);
    let mut counter: i64 = 0;
    let d = advance(StepDirection::Forward, StepStyle::Single, 16, &mut counter);
    assert_eq!(d, 16);
    let d = advance(StepDirection::Backward, StepStyle::Single, 16, &mut counter);
    assert_eq!(d, 16);
    assert_eq!(counter, 0);
    let after = resolve(counter, 16, StepStyle::Single, &cv);
    assert_eq!(before, after);
}

#[test]
fn collapse_forces_full_duty() {
    // At counter 8 the microstep index is 8 and the curve is symmetric
    // there: both magnitudes tie at a non-zero value, so outside
    // microstepping both coils are forced to full duty.
    let cv = curve16();
    let duty = resolve(8, 16, StepStyle::Single, &cv);
    assert_eq!(duty, vec![4095, 4095, 0, 0]);
}

#[test]
fn microstep_keeps_tied_magnitudes() {
    // The same tie under Microstep style is left at the curve value.
    let cv = curve16();
    let duty = resolve(8, 16, StepStyle::Microstep, &cv);
    assert_eq!(duty, vec![2896, 2896, 0, 0]);
}

#[test]
fn trailing_coil_cycles_over_full_rotation() {
    // Walking 4·16 microsteps forward from a quarter-phase boundary, the
    // trailing coil holds each of the four slots for 16 consecutive
    // counters, in rotation, and repeats after the full cycle.
    let cv = curve16();
    let mut counter: i64 = 0;
    for k in 0..64i64 {
        let trailing = ((counter / 16) % 4) as usize;
        assert_eq!(trailing, (k / 16) as usize % 4);
        let leading = (trailing + 1) % 4;
        let duty = resolve(counter, 16, StepStyle::Microstep, &cv);
        for slot in 0..4 {
            if slot != trailing && slot != leading {
                assert_eq!(duty[slot], 0);
            }
        }
        advance(StepDirection::Forward, StepStyle::Microstep, 16, &mut counter);
    }
    assert_eq!(counter, 64);
    assert_eq!((counter / 16) % 4, 0);
}

#[test]
fn single_steps_cycle_through_four_coils() {
    // After the engine's first alignment correction, every Single command
    // is a full step, so the trailing coil — the one coil written at full
    // duty while the counter sits on a quarter-phase boundary — cycles
    // through the four coil channels with period 4, each slot once per
    // cycle, over 4·16 commands.
    let (mut motor, _) = StepperMotor::try_new(Motor::Stepper1, None).unwrap();
    motor.step_once(StepDirection::Forward, StepStyle::Single);
    // slot order of the coil writes: ain2, bin1, ain1, bin2
    let coil_channels = [9u8, 11, 10, 12];
    for k in 1..=64usize {
        let writes = motor.step_once(StepDirection::Forward, StepStyle::Single);
        let trailing = ((motor.current_step / 16) % 4) as usize;
        assert_eq!(trailing, k % 4);
        assert_eq!(
            writes[trailing],
            PwmWrite::Off { channel: coil_channels[trailing], tick: 4095 }
        );
        for slot in 0..4 {
            if slot != trailing {
                assert_eq!(
                    writes[slot],
                    PwmWrite::Off { channel: coil_channels[slot], tick: 0 }
                );
            }
        }
    }
}

#[test]
fn try_new_rejects_non_stepper_slot() {
    let r = StepperMotor::try_new(Motor::Motor1, None);
    assert!(matches!(r, Err(MotorError::InvalidMotorError)));
}

#[test]
fn try_new_rejects_zero_resolution() {
    let r = StepperMotor::try_new(Motor::Stepper1, Some(0));
    assert!(matches!(r, Err(MotorError::InvalidMotorError)));
}

#[test]
fn try_new_defaults_to_sixteen_microsteps() {
    let (motor, _) = StepperMotor::try_new(Motor::Stepper1, None).unwrap();
    assert_eq!(motor.microsteps, 16);
    assert_eq!(motor.curve.len(), 17);
    assert_eq!(motor.current_step, i64::MAX / 2);
}

#[test]
fn try_new_emits_initialization_writes() {
    let (_, writes) = StepperMotor::try_new(Motor::Stepper1, None).unwrap();
    assert_eq!(
        writes,
        vec![
            PwmWrite::On { channel: 8, tick: 0 },
            PwmWrite::On { channel: 13, tick: 0 },
            PwmWrite::On { channel: 10, tick: 0 },
            PwmWrite::On { channel: 9, tick: 0 },
            PwmWrite::On { channel: 11, tick: 0 },
            PwmWrite::On { channel: 12, tick: 0 },
            PwmWrite::Off { channel: 8, tick: 4095 },
            PwmWrite::Off { channel: 13, tick: 4095 },
            PwmWrite::Off { channel: 9, tick: 0 },
            PwmWrite::Off { channel: 11, tick: 0 },
            PwmWrite::Off { channel: 10, tick: 0 },
            PwmWrite::Off { channel: 12, tick: 0 },
        ]
    );
}

#[test]
fn first_step_of_new_engine() {
    // The engine starts at i64::MAX/2, one microstep below a half-step
    // boundary, so the first Single command is an alignment correction to
    // 2^62, which sits at trailing coil 0 with microstep index 0.
    let (mut motor, _) = StepperMotor::try_new(Motor::Stepper1, None).unwrap();
    let writes = motor.step_once(StepDirection::Forward, StepStyle::Single);
    assert_eq!(motor.current_step, i64::MAX / 2 + 1);
    assert_eq!(
        writes,
        vec![
            PwmWrite::Off { channel: 9, tick: 4095 },
            PwmWrite::Off { channel: 11, tick: 0 },
            PwmWrite::Off { channel: 10, tick: 0 },
            PwmWrite::Off { channel: 12, tick: 0 },
        ]
    );
}

#[test]
fn stop_is_idempotent() {
    let (mut motor, _) = StepperMotor::try_new(Motor::Stepper2, None).unwrap();
    motor.step_once(StepDirection::Forward, StepStyle::Interleave);
    let first = motor.stop();
    let second = motor.stop();
    assert_eq!(first, second);
    assert_eq!(
        first,
        vec![
            PwmWrite::FullOff { channel: 2 },
            PwmWrite::FullOff { channel: 7 },
            PwmWrite::FullOff { channel: 4 },
            PwmWrite::FullOff { channel: 3 },
            PwmWrite::FullOff { channel: 5 },
            PwmWrite::FullOff { channel: 6 },
        ]
    );
    // position memory persists across stop
    assert_ne!(motor.current_step, i64::MAX / 2);
}
