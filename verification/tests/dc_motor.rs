use adafruit_motorkit::dc::{get_dc_channels_map, DcMotor};
use adafruit_motorkit::{Motor, MotorError, PwmWrite};

#[test]
fn channel_map_covers_dc_slots() {
    let c = get_dc_channels_map(Motor::Motor1).unwrap();
    assert_eq!(
        (c.ref_channel, c.forward_channel, c.backward_channel),
        (8, 9, 10)
    );
    let c = get_dc_channels_map(Motor::Motor2).unwrap();
    assert_eq!(
        (c.ref_channel, c.forward_channel, c.backward_channel),
        (13, 11, 12)
    );
    let c = get_dc_channels_map(Motor::Motor3).unwrap();
    assert_eq!(
        (c.ref_channel, c.forward_channel, c.backward_channel),
        (2, 3, 4)
    );
    let c = get_dc_channels_map(Motor::Motor4).unwrap();
    assert_eq!(
        (c.ref_channel, c.forward_channel, c.backward_channel),
        (7, 5, 6)
    );
}

#[test]
fn channel_map_rejects_stepper_slots() {
    assert!(get_dc_channels_map(Motor::Stepper1).is_none());
    assert!(get_dc_channels_map(Motor::Stepper2).is_none());
}

#[test]
fn dc_try_new_emits_initialization_writes() {
    let (_, writes) = DcMotor::try_new(Motor::Motor1).unwrap();
    assert_eq!(
        writes,
        vec![
            PwmWrite::On { channel: 8, tick: 0 },
            PwmWrite::On { channel: 9, tick: 0 },
            PwmWrite::On { channel: 10, tick: 0 },
            PwmWrite::Off { channel: 8, tick: 4095 },
        ]
    );
}

#[test]
fn try_new_rejects_stepper_slot() {
    let r = DcMotor::try_new(Motor::Stepper1);
    assert!(matches!(r, Err(MotorError::InvalidMotorError)));
}

#[test]
fn throttle_forward() {
    let (motor, _) = DcMotor::try_new(Motor::Motor1).unwrap();
    let writes = motor.set_throttle(2048).unwrap();
    assert_eq!(writes, vec![PwmWrite::Off { channel: 9, tick: 2048 }]);
}

#[test]
fn throttle_backward() {
    let (motor, _) = DcMotor::try_new(Motor::Motor1).unwrap();
    let writes = motor.set_throttle(-2048).unwrap();
    assert_eq!(writes, vec![PwmWrite::Off { channel: 10, tick: 2048 }]);
}

#[test]
fn throttle_zero_rests_both_directions() {
    let (motor, _) = DcMotor::try_new(Motor::Motor2).unwrap();
    let writes = motor.set_throttle(0).unwrap();
    assert_eq!(
        writes,
        vec![
            PwmWrite::FullOff { channel: 11 },
            PwmWrite::FullOff { channel: 12 },
        ]
    );
}

#[test]
fn throttle_out_of_range_rejected() {
    let (motor, _) = DcMotor::try_new(Motor::Motor1).unwrap();
    assert!(matches!(
        motor.set_throttle(4096),
        Err(MotorError::ThrottleError)
    ));
    assert!(matches!(
        motor.set_throttle(-4096),
        Err(MotorError::ThrottleError)
    ));
    assert!(motor.set_throttle(4095).is_ok());
    assert!(motor.set_throttle(-4095).is_ok());
}

#[test]
fn stop_rests_all_channels() {
    let (motor, _) = DcMotor::try_new(Motor::Motor3).unwrap();
    let writes = motor.stop();
    assert_eq!(
        writes,
        vec![
            PwmWrite::FullOff { channel: 2 },
            PwmWrite::FullOff { channel: 3 },
            PwmWrite::FullOff { channel: 4 },
        ]
    );
}
