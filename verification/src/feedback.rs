//! The single-axis position-feedback controller.
//!
//! Each update samples the trajectory and the encoder, hands the sample and
//! the time since the last update to a control law, holds the law's answer
//! to the output limit and drives the motor with it.  The control law is the
//! caller's: this module decides what the law is asked and what becomes of
//! its answer, and proves that for every law.

use vstd::prelude::*;
use crate::error::ControlError;
use crate::gain::Gain;

verus! {

/// The magnitude beyond which no command is ever passed to a motor.
pub const OUTPUT_LIMIT: i32 = 10000;

/// An actuator that takes velocity commands.
pub trait Motor {
    /// Whether this motor is what `before` becomes when it is issued
    /// `command` once.  An implementation says here what a command does to
    /// it; one that says nothing accepts every outcome.
    open spec fn drove(&self, before: &Self, command: i32) -> bool {
        true
    }

    /// Issues `command` to the actuator.
    fn change_velocity(&mut self, command: i32)
        ensures
            final(self).drove(old(self), command),
    ;
}

/// A sensor that counts encoder ticks.
pub trait Encoder {
    /// Whether `count` is a tick count that this encoder can return.  An
    /// implementation says here what it reads; one that says nothing accepts
    /// every count.
    open spec fn reads(&self, count: i32) -> bool {
        true
    }

    /// The cumulative tick count at the moment of the call.
    fn count(&self) -> (count: i32)
        ensures
            self.reads(count),
    ;
}

/// The time between the last update and `now`; zero before any update.
pub open spec fn elapsed(last: Option<u32>, now: u32) -> int {
    match last {
        Some(then) => now - then,
        None => 0,
    }
}

/// `raw` held to the range from `-OUTPUT_LIMIT` to `OUTPUT_LIMIT`.
pub open spec fn limited(raw: int) -> int {
    if raw < -OUTPUT_LIMIT {
        -OUTPUT_LIMIT
    } else if raw > OUTPUT_LIMIT {
        OUTPUT_LIMIT as int
    } else {
        raw
    }
}

/// `pid_control::util::limit_range` on 32-bit integers: `max` for a value
/// above `max`, else `min` for a value below `min`, else the value itself.
#[verifier::external_body]
fn limit_range(min: i32, max: i32, value: i32) -> (limited: i32)
    ensures
        limited == if value > max {
            max
        } else if value < min {
            min
        } else {
            value
        },
{
    pid_control::util::limit_range(min, max, value)
}

/// `raw` held to the output range.
pub fn limit_command(raw: i32) -> (command: i32)
    ensures
        command == limited(raw as int),
        -OUTPUT_LIMIT <= command <= OUTPUT_LIMIT,
{
    limit_range(-OUTPUT_LIMIT, OUTPUT_LIMIT, raw)
}

/// A feedback controller for one axis.
///
/// `P` is the trajectory: it maps a time to the position the axis should
/// have then.  `M` and `E` are the motor and the encoder of the axis.
pub struct MotorControl<P, M, E> where P: Fn(u32) -> i32, M: Motor, E: Encoder {
    p: Gain,
    i: Gain,
    d: Gain,
    target_position: i32,
    current_position: i32,
    command: i32,
    calculate_position: P,
    last_time: Option<u32>,
    motor: M,
    encoder: E,
}

impl<P, M, E> MotorControl<P, M, E> where P: Fn(u32) -> i32, M: Motor, E: Encoder {
    /// The trajectory that the controller follows.
    pub closed spec fn trajectory(&self) -> P {
        self.calculate_position
    }

    /// The encoder that the controller reads.
    pub closed spec fn encoder(&self) -> E {
        self.encoder
    }

    /// The motor that the controller drives.
    pub closed spec fn motor(&self) -> M {
        self.motor
    }

    /// The gains, in the order proportional, integral, derivative.
    pub closed spec fn gains(&self) -> (Gain, Gain, Gain) {
        (self.p, self.i, self.d)
    }

    /// The target of the last update; zero before any.
    pub closed spec fn target_spec(&self) -> i32 {
        self.target_position
    }

    /// The position measured by the last update; zero before any.
    pub closed spec fn position_spec(&self) -> i32 {
        self.current_position
    }

    /// The command issued by the last update; zero before any.
    pub closed spec fn command_spec(&self) -> i32 {
        self.command
    }

    /// The time of the last update; `None` exactly until the first.
    pub closed spec fn last_update(&self) -> Option<u32> {
        self.last_time
    }

    /// The invariant of a controller: the trajectory can be asked for every
    /// time, the gains are finite numbers and the last command is within
    /// the output limit.
    pub closed spec fn wf(&self) -> bool {
        &&& forall|t: u32| self.calculate_position.requires((t,))
        &&& self.p.finite() && self.i.finite() && self.d.finite()
        &&& -OUTPUT_LIMIT <= self.command <= OUTPUT_LIMIT
    }

    /// What the invariant says of the values that the accessors return.
    pub proof fn lemma_wf_facts(&self)
        requires
            self.wf(),
        ensures
            self.gains().0.finite() && self.gains().1.finite() && self.gains().2.finite(),
            -OUTPUT_LIMIT <= self.command_spec() <= OUTPUT_LIMIT,
            forall|t: u32| self.trajectory().requires((t,)),
    {
    }

    /// A controller with the given gains that has not been updated yet:
    /// target, position and command are zero and there is no last update.
    /// Trajectory, motor and encoder are kept as they were handed in.
    ///
    /// A gain that is not a finite number is a configuration error.
    pub fn new(p: Gain, i: Gain, d: Gain, calculate_position: P, motor: M, encoder: E) -> (made:
        Result<Self, ControlError>)
        requires
            forall|t: u32| calculate_position.requires((t,)),
        ensures
            p.finite() && i.finite() && d.finite() ==> made is Ok && made->Ok_0.wf()
                && made->Ok_0.gains() == (p, i, d) && made->Ok_0.trajectory()
                == calculate_position && made->Ok_0.motor() == motor && made->Ok_0.encoder()
                == encoder && made->Ok_0.target_spec() == 0
                && made->Ok_0.position_spec() == 0 && made->Ok_0.command_spec() == 0
                && made->Ok_0.last_update().is_none(),
            !(p.finite() && i.finite() && d.finite()) ==> made is Err && made->Err_0
                == ControlError::ConfigurationError,
    {
        if !(p.is_finite() && i.is_finite() && d.is_finite()) {
            return Err(ControlError::ConfigurationError);
        }
        Ok(
            MotorControl {
                p,
                i,
                d,
                target_position: 0,
                current_position: 0,
                command: 0,
                calculate_position,
                last_time: None,
                motor,
                encoder,
            },
        )
    }

    /// Runs one control step at time `now`.
    ///
    /// The target is the trajectory at `now` and the position is one reading
    /// of the encoder.  `law` is called once, with the target, the position
    /// and the time since the last update (zero on the first update).  Its
    /// answer, held to the output limit, is issued to the motor once and
    /// kept as the last command.  Gains, trajectory and encoder stay as they
    /// are.
    ///
    /// Time must not run backwards from one update to the next, and `law`
    /// must accept every target that the trajectory can give at `now`,
    /// with any position.
    ///
    /// What the reading and the command mean to the two devices is theirs to
    /// say: see [`Encoder::reads`] and [`Motor::drove`].
    pub fn update<L>(&mut self, now: u32, law: L) where L: FnOnce(i32, i32, u32) -> i32
        requires
            old(self).wf(),
            old(self).last_update() matches Some(then) ==> then <= now,
            forall|target: i32, position: i32|
                old(self).trajectory().ensures((now,), target) ==> #[trigger] law.requires(
                    (target, position, elapsed(old(self).last_update(), now) as u32),
                ),
        ensures
            final(self).wf(),
            final(self).last_update() == Some(now),
            final(self).gains() == old(self).gains(),
            final(self).trajectory() == old(self).trajectory(),
            final(self).encoder() == old(self).encoder(),
            old(self).trajectory().ensures((now,), final(self).target_spec()),
            old(self).encoder().reads(final(self).position_spec()),
            final(self).motor().drove(&old(self).motor(), final(self).command_spec()),
            exists|raw: i32|
                law.ensures(
                    (
                        final(self).target_spec(),
                        final(self).position_spec(),
                        elapsed(old(self).last_update(), now) as u32,
                    ),
                    raw,
                ) && final(self).command_spec() == limited(raw as int),
    {
        let delta_t: u32 = match self.last_time {
            Some(last_time) => now - last_time,
            None => 0,
        };
        let new_target_position: i32 = (self.calculate_position)(now);
        let new_current_position: i32 = self.encoder.count();
        assert(delta_t == elapsed(old(self).last_update(), now) as u32);
        let raw: i32 = law(new_target_position, new_current_position, delta_t);
        let command: i32 = limit_command(raw);
        self.motor.change_velocity(command);
        self.last_time = Some(now);
        self.target_position = new_target_position;
        self.current_position = new_current_position;
        self.command = command;
        assert(law.ensures(
            (self.target_spec(), self.position_spec(), elapsed(old(self).last_update(), now) as u32),
            raw,
        ) && self.command_spec() == limited(raw as int));
    }

    /// The position measured by the last update.
    pub fn position(&self) -> (position: i32)
        ensures
            position == self.position_spec(),
    {
        self.current_position
    }

    /// The target of the last update.
    pub fn target(&self) -> (target: i32)
        ensures
            target == self.target_spec(),
    {
        self.target_position
    }

    /// How far the position was from the target at the last update: the
    /// target minus the position.
    pub fn error(&self) -> (error: i64)
        ensures
            error == self.target_spec() - self.position_spec(),
    {
        self.target_position as i64 - self.current_position as i64
    }

    /// The command issued by the last update.
    pub fn command(&self) -> (command: i32)
        ensures
            command == self.command_spec(),
    {
        self.command
    }

    /// The time of the last update, if there was one.
    pub fn last_time(&self) -> (last: Option<u32>)
        ensures
            last == self.last_update(),
    {
        self.last_time
    }

    /// The proportional gain.
    pub fn p(&self) -> (gain: Gain)
        ensures
            gain == self.gains().0,
    {
        self.p
    }

    /// The integral gain.
    pub fn i(&self) -> (gain: Gain)
        ensures
            gain == self.gains().1,
    {
        self.i
    }

    /// The derivative gain.
    pub fn d(&self) -> (gain: Gain)
        ensures
            gain == self.gains().2,
    {
        self.d
    }
}

/// The first update and an update at the time of the one before both hand
/// the control law an elapsed time of zero; otherwise the law gets the
/// difference of the two times.
pub proof fn lemma_elapsed(last: Option<u32>, now: u32)
    ensures
        last.is_none() ==> elapsed(last, now) == 0,
        last == Some(now) ==> elapsed(last, now) == 0,
        last matches Some(then) ==> elapsed(last, now) == now - then,
        last matches Some(then) && then <= now ==> 0 <= elapsed(last, now) <= u32::MAX,
{
}

/// Whatever the control law answers, the command stays within the output
/// limit, and an answer within the limit is passed on unchanged.
pub proof fn lemma_limited(raw: int)
    ensures
        -OUTPUT_LIMIT <= limited(raw) <= OUTPUT_LIMIT,
        -OUTPUT_LIMIT <= raw <= OUTPUT_LIMIT ==> limited(raw) == raw,
        limited(limited(raw)) == limited(raw),
{
}

} // verus!
