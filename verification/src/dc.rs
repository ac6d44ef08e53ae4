//! DC motor control: direction via two channels, magnitude via PWM duty
//! cycle.
//!
//! A throttle is a signed duty-cycle value in `[-MAX_DUTY, MAX_DUTY]`: its
//! sign picks the forward or backward channel, its magnitude the duty
//! programmed there.

use vstd::prelude::*;

use crate::{Motor, MotorError, PwmWrite, MAX_DUTY};

verus! {

#[derive(Debug, Clone, Copy, PartialEq, Eq, Structural)]
/// A structure encapsulating the channels used to control a DC motor.
pub struct DcChannels {
    /// Reference channel, held at full duty while the motor runs.
    pub ref_channel: u8,
    /// Channel energized for forward rotation.
    pub forward_channel: u8,
    /// Channel energized for backward rotation.
    pub backward_channel: u8,
}

/// The fixed channel assignment of each DC motor slot of the motor HAT.
pub open spec fn dc_channels_of(motor: Motor) -> Option<DcChannels> {
    match motor {
        Motor::Motor1 => Some(
            DcChannels { ref_channel: 8u8, forward_channel: 9u8, backward_channel: 10u8 },
        ),
        Motor::Motor2 => Some(
            DcChannels { ref_channel: 13u8, forward_channel: 11u8, backward_channel: 12u8 },
        ),
        Motor::Motor3 => Some(
            DcChannels { ref_channel: 2u8, forward_channel: 3u8, backward_channel: 4u8 },
        ),
        Motor::Motor4 => Some(
            DcChannels { ref_channel: 7u8, forward_channel: 5u8, backward_channel: 6u8 },
        ),
        _ => None,
    }
}

/// Return DC channel map for the given motor type.
/// Returns None if given motor is no DC motor.
pub fn get_dc_channels_map(motor: Motor) -> (r: Option<DcChannels>)
    ensures
        r == dc_channels_of(motor),
{
    match motor {
        Motor::Motor1 => Some(
            DcChannels { ref_channel: 8, forward_channel: 9, backward_channel: 10 },
        ),
        Motor::Motor2 => Some(
            DcChannels { ref_channel: 13, forward_channel: 11, backward_channel: 12 },
        ),
        Motor::Motor3 => Some(
            DcChannels { ref_channel: 2, forward_channel: 3, backward_channel: 4 },
        ),
        Motor::Motor4 => Some(
            DcChannels { ref_channel: 7, forward_channel: 5, backward_channel: 6 },
        ),
        _ => None,
    }
}

/// The writes issued at construction: program the three channels on at
/// tick 0 and hold the reference channel at full duty.
pub open spec fn dc_init_writes(ch: DcChannels) -> Seq<PwmWrite> {
    seq![
        PwmWrite::On { channel: ch.ref_channel, tick: 0u16 },
        PwmWrite::On { channel: ch.forward_channel, tick: 0u16 },
        PwmWrite::On { channel: ch.backward_channel, tick: 0u16 },
        PwmWrite::Off { channel: ch.ref_channel, tick: MAX_DUTY },
    ]
}

/// The writes that realize a throttle: a positive throttle programs its
/// magnitude on the forward channel, a negative one on the backward
/// channel, and zero de-energizes both.
pub open spec fn throttle_writes(ch: DcChannels, throttle: int) -> Seq<PwmWrite> {
    if throttle > 0 {
        seq![PwmWrite::Off { channel: ch.forward_channel, tick: throttle as u16 }]
    } else if throttle < 0 {
        seq![PwmWrite::Off { channel: ch.backward_channel, tick: (-throttle) as u16 }]
    } else {
        seq![
            PwmWrite::FullOff { channel: ch.forward_channel },
            PwmWrite::FullOff { channel: ch.backward_channel },
        ]
    }
}

/// The writes issued by `stop`: de-energize all three channels.
pub open spec fn dc_stop_writes(ch: DcChannels) -> Seq<PwmWrite> {
    seq![
        PwmWrite::FullOff { channel: ch.ref_channel },
        PwmWrite::FullOff { channel: ch.forward_channel },
        PwmWrite::FullOff { channel: ch.backward_channel },
    ]
}

/// A structure to initialize and control a DC motor.
pub struct DcMotor {
    /// The channel assignment of this DC motor slot.
    pub channels: DcChannels,
}

impl DcMotor {
    /// Attempts to initialize a DC motor for the given slot.
    ///
    /// On success, returns the motor together with the initialization
    /// writes the caller must issue. Fails exactly when the slot is not a
    /// DC motor slot.
    pub fn try_new(motor: Motor) -> (r: Result<(DcMotor, Vec<PwmWrite>), MotorError>)
        ensures
            match r {
                Ok(p) => {
                    &&& dc_channels_of(motor) == Some(p.0.channels)
                    &&& p.1@ == dc_init_writes(p.0.channels)
                },
                Err(e) => {
                    &&& e == MotorError::InvalidMotorError
                    &&& dc_channels_of(motor) is None
                },
            },
    {
        let channels = match get_dc_channels_map(motor) {
            Some(ch) => ch,
            None => {
                return Err(MotorError::InvalidMotorError);
            },
        };
        let mut writes: Vec<PwmWrite> = Vec::new();
        writes.push(PwmWrite::On { channel: channels.ref_channel, tick: 0 });
        writes.push(PwmWrite::On { channel: channels.forward_channel, tick: 0 });
        writes.push(PwmWrite::On { channel: channels.backward_channel, tick: 0 });
        writes.push(PwmWrite::Off { channel: channels.ref_channel, tick: MAX_DUTY });
        proof {
            assert(writes@ =~= dc_init_writes(channels));
        }
        Ok((DcMotor { channels }, writes))
    }

    /// Sets the throttle for the motor, given as a signed duty-cycle value.
    /// Valid throttle values are in the range `[-MAX_DUTY, MAX_DUTY]`;
    /// anything outside is rejected before any write is produced.
    pub fn set_throttle(&self, throttle: i32) -> (r: Result<Vec<PwmWrite>, MotorError>)
        ensures
            match r {
                Ok(writes) => {
                    &&& -4095 <= throttle <= 4095
                    &&& writes@ == throttle_writes(self.channels, throttle as int)
                },
                Err(e) => {
                    &&& e == MotorError::ThrottleError
                    &&& (throttle > 4095 || throttle < -4095)
                },
            },
    {
        if throttle > 4095 || throttle < -4095 {
            return Err(MotorError::ThrottleError);
        }
        let mut writes: Vec<PwmWrite> = Vec::new();
        if throttle > 0 {
            writes.push(PwmWrite::Off { channel: self.channels.forward_channel, tick: throttle
                as u16 });
        } else if throttle < 0 {
            writes.push(PwmWrite::Off { channel: self.channels.backward_channel, tick: (-throttle)
                as u16 });
        } else {
            writes.push(PwmWrite::FullOff { channel: self.channels.forward_channel });
            writes.push(PwmWrite::FullOff { channel: self.channels.backward_channel });
        }
        proof {
            assert(writes@ =~= throttle_writes(self.channels, throttle as int));
        }
        Ok(writes)
    }

    /// Stops energizing the channels of this motor.
    pub fn stop(&self) -> (writes: Vec<PwmWrite>)
        ensures
            writes@ == dc_stop_writes(self.channels),
    {
        let mut writes: Vec<PwmWrite> = Vec::new();
        writes.push(PwmWrite::FullOff { channel: self.channels.ref_channel });
        writes.push(PwmWrite::FullOff { channel: self.channels.forward_channel });
        writes.push(PwmWrite::FullOff { channel: self.channels.backward_channel });
        proof {
            assert(writes@ =~= dc_stop_writes(self.channels));
        }
        writes
    }
}

} // verus!
