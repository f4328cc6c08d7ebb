//! Closed-loop motion-control core of a small wheeled robot.
//!
//! The crate has three layers, leaves first:
//!
//! * [`feedback`]: a single-axis position-feedback controller that samples a
//!   trajectory and an encoder, hands the sample to a control law and drives
//!   a motor with the limited command;
//! * [`profile`]: a per-axis motion profiler that turns a bounded FIFO queue
//!   of (velocity, distance) segments into a position setpoint whose speed
//!   never changes faster than the acceleration limit allows;
//! * [`mouse`]: the state aggregator, which routes each message of the closed
//!   protocol in [`msgs`] to exactly one field or axis.
//!
//! All arithmetic in the crate is integer arithmetic.  Positions and
//! distances are signed ticks, speeds are ticks per time unit, acceleration
//! limits are ticks per time unit squared, and controller gains travel as
//! IEEE 754 binary64 bit patterns (see [`gain`]) so that the control law,
//! which is supplied by the caller, receives them unchanged.

pub mod error;
pub mod feedback;
pub mod gain;
pub mod mouse;
pub mod msgs;
pub mod profile;
pub mod profile_laws;
pub mod queue;

pub use error::ControlError;
pub use feedback::{Encoder, Motor, MotorControl};
pub use gain::Gain;
pub use mouse::{Config, Mouse};
pub use msgs::{Msg, MsgId, MsgIdList};
pub use profile::{MotionConfig, MotionControl, Phase};
pub use queue::{Target, TargetQueue};
