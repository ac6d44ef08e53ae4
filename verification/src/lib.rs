//! Motor-control logic for a PWM motor HAT.
//!
//! The crate translates high-level motor commands (step direction and style
//! for a stepper motor, throttle for a DC motor) into the sequences of
//! duty-cycle writes that must be issued to the channels of a 16-channel
//! PWM controller. The writes are returned as plain values; performing them
//! over the control bus is the caller's concern.

use vstd::prelude::*;

pub mod curve;
pub mod dc;
pub mod stepper;

verus! {

/// The highest duty-cycle value a channel accepts: full duty on a 12-bit PWM.
pub const MAX_DUTY: u16 = 4095;

#[derive(Debug, Clone, Copy, PartialEq, Eq, Structural)]
/// A list of all errors that can be reported by the library.
pub enum MotorError {
    /// An error occurred initializing the I2C bus.
    I2cError,
    /// An error occurred configuring the PWM controller.
    PwmError,
    /// An error occurred setting a channel.
    ChannelError,
    /// The value for throttle is not in the bounds of the duty-cycle range.
    ThrottleError,
    /// An invalid configuration was provided to a constructor, i.e. a stepper
    /// motor passed into the DC motor constructor, or a zero resolution.
    InvalidMotorError,
}

#[derive(Debug, Clone, Copy, PartialEq, Eq, Hash, Structural)]
/// An enumeration of all potential motors that can be controlled via the
/// motor HAT.
pub enum Motor {
    Motor1,
    Motor2,
    Motor3,
    Motor4,
    Stepper1,
    Stepper2,
}

#[derive(Debug, Clone, Copy, PartialEq, Eq, Structural)]
/// One register-level command for the PWM controller, addressed to a single
/// channel (0 to 15 on a 16-channel board).
pub enum PwmWrite {
    /// Program the tick at which the channel switches on.
    On { channel: u8, tick: u16 },
    /// Program the tick at which the channel switches off.
    Off { channel: u8, tick: u16 },
    /// De-energize the channel immediately, overriding any on/off program.
    FullOff { channel: u8 },
}

} // verus!
