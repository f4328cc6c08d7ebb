//! The state aggregator: the one place where the robot's state changes.
//!
//! [`Mouse::update`] takes one message and performs the one change that the
//! message names: a field is written, or one call is made into the linear or
//! the angular axis.  [`MouseState::apply`] is that rule on the mathematical
//! state; the laws at the end of the file say what it never touches.

use vstd::prelude::*;
use crate::error::ControlError;
use crate::msgs::{listed, Msg, MsgId, MsgIdList};
use crate::profile::{MotionConfig, MotionControl, Phase, ProfileState};
use crate::queue::{Target, CAPACITY};

verus! {

/// The settings a robot starts with: one set for each axis.
#[derive(Clone, Copy, Debug, PartialEq, Eq, Structural)]
pub struct Config {
    /// Settings of the linear axis.
    pub linear_motion: MotionConfig,
    /// Settings of the angular axis.
    pub angular_motion: MotionConfig,
}

impl Config {
    /// Whether all six gains are finite numbers.
    pub open spec fn valid(self) -> bool {
        &&& self.linear_motion.p.finite()
        &&& self.linear_motion.i.finite()
        &&& self.linear_motion.d.finite()
        &&& self.angular_motion.p.finite()
        &&& self.angular_motion.i.finite()
        &&& self.angular_motion.d.finite()
    }
}

/// The mathematical state of the robot.
#[verifier::ext_equal]
pub struct MouseState {
    /// The message kinds that are being logged.
    pub logged: Seq<MsgId>,
    /// The message kinds that are being provided.
    pub provided: Seq<MsgId>,
    /// The current time.
    pub time: int,
    /// The battery voltage.
    pub battery: int,
    /// The position of the left encoder.
    pub left_encoder_pos: int,
    /// The position of the right encoder.
    pub right_encoder_pos: int,
    /// The measured linear position.
    pub linear_position: int,
    /// The measured angular position.
    pub angular_position: int,
    /// The linear axis.
    pub linear_control: ProfileState,
    /// The angular axis.
    pub angular_control: ProfileState,
    /// The power asked of the linear axis.
    pub linear_power: int,
    /// The power asked of the angular axis.
    pub angular_power: int,
    /// The power of the left motor.
    pub left_motor_power: int,
    /// The power of the right motor.
    pub right_motor_power: int,
}

impl MouseState {
    /// The invariant of the robot's state: both axes are well-formed.
    pub open spec fn wf(self) -> bool {
        &&& self.linear_control.wf()
        &&& self.angular_control.wf()
    }

    /// The state of a robot that has received no message: every quantity is
    /// zero, both lists are empty and both axes rest at zero with empty
    /// queues.
    pub open spec fn initial(config: Config) -> MouseState {
        MouseState {
            logged: Seq::empty(),
            provided: Seq::empty(),
            time: 0,
            battery: 0,
            left_encoder_pos: 0,
            right_encoder_pos: 0,
            linear_position: 0,
            angular_position: 0,
            linear_control: ProfileState::initial(config.linear_motion),
            angular_control: ProfileState::initial(config.angular_motion),
            linear_power: 0,
            angular_power: 0,
            left_motor_power: 0,
            right_motor_power: 0,
        }
    }

    /// Whether `msg` is turned down: it queues a segment on an axis whose
    /// queue is full.
    pub open spec fn refuses(self, msg: Msg) -> bool {
        match msg {
            Msg::AddLinear(_, _) => self.linear_control.waiting.len() >= CAPACITY,
            Msg::AddAngular(_, _) => self.angular_control.waiting.len() >= CAPACITY,
            _ => false,
        }
    }

    /// The state after `msg` was accepted.
    pub open spec fn apply(self, msg: Msg) -> MouseState {
        match msg {
            Msg::Time(t) => MouseState { time: t as int, ..self },
            Msg::Logged(m) => MouseState { logged: listed(m), ..self },
            Msg::Provided(m) => MouseState { provided: listed(m), ..self },
            Msg::LeftPos(p) => MouseState { left_encoder_pos: p as int, ..self },
            Msg::RightPos(p) => MouseState { right_encoder_pos: p as int, ..self },
            Msg::LeftPower(p) => MouseState { left_motor_power: p as int, ..self },
            Msg::RightPower(p) => MouseState { right_motor_power: p as int, ..self },
            Msg::Battery(v) => MouseState { battery: v as int, ..self },
            Msg::LinearPos(p) => MouseState { linear_position: p as int, ..self },
            Msg::AngularPos(p) => MouseState { angular_position: p as int, ..self },
            Msg::LinearSet(s) => MouseState {
                linear_control: self.linear_control.reposition(s as int),
                ..self
            },
            Msg::AngularSet(s) => MouseState {
                angular_control: self.angular_control.reposition(s as int),
                ..self
            },
            Msg::AddLinear(v, d) => MouseState {
                linear_control: self.linear_control.enqueue(Target { velocity: v, distance: d }),
                ..self
            },
            Msg::AddAngular(v, d) => MouseState {
                angular_control: self.angular_control.enqueue(
                    Target { velocity: v, distance: d },
                ),
                ..self
            },
            Msg::LinearP(g) => MouseState {
                linear_control: ProfileState { p: g, ..self.linear_control },
                ..self
            },
            Msg::LinearI(g) => MouseState {
                linear_control: ProfileState { i: g, ..self.linear_control },
                ..self
            },
            Msg::LinearD(g) => MouseState {
                linear_control: ProfileState { d: g, ..self.linear_control },
                ..self
            },
            Msg::LinearAcc(a) => MouseState {
                linear_control: ProfileState { acc: a as int, ..self.linear_control },
                ..self
            },
            Msg::AngularP(g) => MouseState {
                angular_control: ProfileState { p: g, ..self.angular_control },
                ..self
            },
            Msg::AngularI(g) => MouseState {
                angular_control: ProfileState { i: g, ..self.angular_control },
                ..self
            },
            Msg::AngularD(g) => MouseState {
                angular_control: ProfileState { d: g, ..self.angular_control },
                ..self
            },
            Msg::AngularAcc(a) => MouseState {
                angular_control: ProfileState { acc: a as int, ..self.angular_control },
                ..self
            },
        }
    }

    /// The state after `msg` was received: unchanged when the message is
    /// turned down, and changed as the message says otherwise.
    pub open spec fn receive(self, msg: Msg) -> MouseState {
        if self.refuses(msg) {
            self
        } else {
            self.apply(msg)
        }
    }
}

/// The robot's state and its two axes.
pub struct Mouse {
    logged: MsgIdList,
    provided: MsgIdList,
    time: u32,
    battery: i32,
    left_encoder_pos: i32,
    right_encoder_pos: i32,
    linear_position: i32,
    angular_position: i32,
    linear_control: MotionControl,
    angular_control: MotionControl,
    linear_power: i32,
    angular_power: i32,
    left_motor_power: i32,
    right_motor_power: i32,
}

impl View for Mouse {
    type V = MouseState;

    closed spec fn view(&self) -> MouseState {
        MouseState {
            logged: self.logged@,
            provided: self.provided@,
            time: self.time as int,
            battery: self.battery as int,
            left_encoder_pos: self.left_encoder_pos as int,
            right_encoder_pos: self.right_encoder_pos as int,
            linear_position: self.linear_position as int,
            angular_position: self.angular_position as int,
            linear_control: self.linear_control@,
            angular_control: self.angular_control@,
            linear_power: self.linear_power as int,
            angular_power: self.angular_power as int,
            left_motor_power: self.left_motor_power as int,
            right_motor_power: self.right_motor_power as int,
        }
    }
}

impl Mouse {
    /// The invariant of the robot: both axes are well-formed.
    pub closed spec fn wf(&self) -> bool {
        &&& self.linear_control.wf()
        &&& self.angular_control.wf()
    }

    /// The model of a well-formed robot is well-formed.
    pub proof fn lemma_wf_view(&self)
        requires
            self.wf(),
        ensures
            self@.wf(),
    {
        self.linear_control.lemma_wf_view();
        self.angular_control.lemma_wf_view();
    }

    /// A robot that has received no message; see [`MouseState::initial`].
    ///
    /// A gain that is not a finite number is a configuration error.
    pub fn new(config: Config) -> (made: Result<Mouse, ControlError>)
        ensures
            config.valid() ==> made is Ok && made->Ok_0.wf() && made->Ok_0@
                == MouseState::initial(config),
            !config.valid() ==> made is Err && made->Err_0 == ControlError::ConfigurationError,
    {
        let linear_control = match MotionControl::new(config.linear_motion) {
            Ok(axis) => axis,
            Err(_) => {
                return Err(ControlError::ConfigurationError);
            },
        };
        let angular_control = match MotionControl::new(config.angular_motion) {
            Ok(axis) => axis,
            Err(_) => {
                return Err(ControlError::ConfigurationError);
            },
        };
        let mouse = Mouse {
            logged: MsgIdList::new(),
            provided: MsgIdList::new(),
            time: 0,
            battery: 0,
            left_encoder_pos: 0,
            right_encoder_pos: 0,
            linear_position: 0,
            angular_position: 0,
            linear_control,
            angular_control,
            linear_power: 0,
            angular_power: 0,
            left_motor_power: 0,
            right_motor_power: 0,
        };
        assert(mouse@ =~= MouseState::initial(config));
        Ok(mouse)
    }

    /// Receives one message and performs the one change that it names.
    ///
    /// A message that queues a segment on an axis whose queue is full is
    /// turned down: the call reports `CapacityExceeded` and the state stays
    /// exactly as it was.  Every other message is accepted.
    pub fn update(&mut self, msg: Msg) -> (outcome: Result<(), ControlError>)
        requires
            old(self).wf(),
        ensures
            final(self).wf(),
            final(self)@ == old(self)@.receive(msg),
            old(self)@.refuses(msg) ==> outcome == Err::<(), ControlError>(
                ControlError::CapacityExceeded,
            ),
            !old(self)@.refuses(msg) ==> outcome == Ok::<(), ControlError>(()),
    {
        let outcome = match msg {
            Msg::Time(t) => {
                self.time = t;
                Ok(())
            },
            Msg::Logged(m) => {
                self.logged = m;
                Ok(())
            },
            Msg::Provided(m) => {
                self.provided = m;
                Ok(())
            },
            Msg::LeftPos(p) => {
                self.left_encoder_pos = p;
                Ok(())
            },
            Msg::RightPos(p) => {
                self.right_encoder_pos = p;
                Ok(())
            },
            Msg::LeftPower(p) => {
                self.left_motor_power = p;
                Ok(())
            },
            Msg::RightPower(p) => {
                self.right_motor_power = p;
                Ok(())
            },
            Msg::Battery(v) => {
                self.battery = v;
                Ok(())
            },
            Msg::LinearPos(p) => {
                self.linear_position = p;
                Ok(())
            },
            Msg::AngularPos(p) => {
                self.angular_position = p;
                Ok(())
            },
            Msg::LinearSet(s) => {
                self.linear_control.set_position(s);
                Ok(())
            },
            Msg::AngularSet(s) => {
                self.angular_control.set_position(s);
                Ok(())
            },
            Msg::AddLinear(v, d) => self.linear_control.queue_target(
                Target { velocity: v, distance: d },
            ),
            Msg::AddAngular(v, d) => self.angular_control.queue_target(
                Target { velocity: v, distance: d },
            ),
            Msg::LinearP(g) => {
                self.linear_control.set_p(g);
                Ok(())
            },
            Msg::LinearI(g) => {
                self.linear_control.set_i(g);
                Ok(())
            },
            Msg::LinearD(g) => {
                self.linear_control.set_d(g);
                Ok(())
            },
            Msg::LinearAcc(a) => {
                self.linear_control.set_acc(a);
                Ok(())
            },
            Msg::AngularP(g) => {
                self.angular_control.set_p(g);
                Ok(())
            },
            Msg::AngularI(g) => {
                self.angular_control.set_i(g);
                Ok(())
            },
            Msg::AngularD(g) => {
                self.angular_control.set_d(g);
                Ok(())
            },
            Msg::AngularAcc(a) => {
                self.angular_control.set_acc(a);
                Ok(())
            },
        };
        assert(self@ =~= old(self)@.receive(msg));
        outcome
    }

    /// Advances the linear axis by one tick of `dt` time units; nothing
    /// else changes.
    pub fn advance_linear(&mut self, dt: u32) -> (phase: Phase)
        requires
            old(self).wf(),
        ensures
            final(self).wf(),
            final(self)@ == (MouseState {
                linear_control: old(self)@.linear_control.step(dt as int),
                ..old(self)@
            }),
            phase == old(self)@.linear_control.phase(dt as int),
    {
        self.linear_control.advance(dt)
    }

    /// Advances the angular axis by one tick of `dt` time units; nothing
    /// else changes.
    pub fn advance_angular(&mut self, dt: u32) -> (phase: Phase)
        requires
            old(self).wf(),
        ensures
            final(self).wf(),
            final(self)@ == (MouseState {
                angular_control: old(self)@.angular_control.step(dt as int),
                ..old(self)@
            }),
            phase == old(self)@.angular_control.phase(dt as int),
    {
        self.angular_control.advance(dt)
    }

    /// The linear axis.
    pub fn linear_control(&self) -> (axis: &MotionControl)
        requires
            self.wf(),
        ensures
            axis.wf(),
            axis@ == self@.linear_control,
    {
        &self.linear_control
    }

    /// The angular axis.
    pub fn angular_control(&self) -> (axis: &MotionControl)
        requires
            self.wf(),
        ensures
            axis.wf(),
            axis@ == self@.angular_control,
    {
        &self.angular_control
    }

    /// The message kinds that are being logged.
    pub fn logged(&self) -> (list: &MsgIdList)
        ensures
            list@ == self@.logged,
    {
        &self.logged
    }

    /// The message kinds that are being provided.
    pub fn provided(&self) -> (list: &MsgIdList)
        ensures
            list@ == self@.provided,
    {
        &self.provided
    }

    /// The current time.
    pub fn time(&self) -> (time: u32)
        ensures
            time == self@.time,
    {
        self.time
    }

    /// The battery voltage.
    pub fn battery(&self) -> (battery: i32)
        ensures
            battery == self@.battery,
    {
        self.battery
    }

    /// The position of the left encoder.
    pub fn left_encoder_pos(&self) -> (position: i32)
        ensures
            position == self@.left_encoder_pos,
    {
        self.left_encoder_pos
    }

    /// The position of the right encoder.
    pub fn right_encoder_pos(&self) -> (position: i32)
        ensures
            position == self@.right_encoder_pos,
    {
        self.right_encoder_pos
    }

    /// The measured linear position.
    pub fn linear_position(&self) -> (position: i32)
        ensures
            position == self@.linear_position,
    {
        self.linear_position
    }

    /// The measured angular position.
    pub fn angular_position(&self) -> (position: i32)
        ensures
            position == self@.angular_position,
    {
        self.angular_position
    }

    /// The power asked of the linear axis.
    pub fn linear_power(&self) -> (power: i32)
        ensures
            power == self@.linear_power,
    {
        self.linear_power
    }

    /// The power asked of the angular axis.
    pub fn angular_power(&self) -> (power: i32)
        ensures
            power == self@.angular_power,
    {
        self.angular_power
    }

    /// The power of the left motor.
    pub fn left_motor_power(&self) -> (power: i32)
        ensures
            power == self@.left_motor_power,
    {
        self.left_motor_power
    }

    /// The power of the right motor.
    pub fn right_motor_power(&self) -> (power: i32)
        ensures
            power == self@.right_motor_power,
    {
        self.right_motor_power
    }
}

/// Whether messages of kind `id` are addressed to the linear axis.
pub open spec fn names_linear_axis(id: MsgId) -> bool {
    id == MsgId::LinearSet || id == MsgId::AddLinear || id == MsgId::LinearP || id
        == MsgId::LinearI || id == MsgId::LinearD || id == MsgId::LinearAcc
}

/// Whether messages of kind `id` are addressed to the angular axis.
pub open spec fn names_angular_axis(id: MsgId) -> bool {
    id == MsgId::AngularSet || id == MsgId::AddAngular || id == MsgId::AngularP || id
        == MsgId::AngularI || id == MsgId::AngularD || id == MsgId::AngularAcc
}

/// Receiving a message keeps a well-formed state well-formed.
pub proof fn lemma_receive_preserves_wf(state: MouseState, msg: Msg)
    requires
        state.wf(),
    ensures
        state.receive(msg).wf(),
{
}

/// A message changes nothing but what its kind names: an axis changes only
/// under the six kinds addressed to it, and each other field only under the
/// one kind that carries it.
pub proof fn lemma_receive_is_confined(state: MouseState, msg: Msg)
    ensures
        !names_linear_axis(msg.kind()) ==> state.receive(msg).linear_control
            == state.linear_control,
        !names_angular_axis(msg.kind()) ==> state.receive(msg).angular_control
            == state.angular_control,
        msg.kind() != MsgId::Time ==> state.receive(msg).time == state.time,
        msg.kind() != MsgId::Logged ==> state.receive(msg).logged == state.logged,
        msg.kind() != MsgId::Provided ==> state.receive(msg).provided == state.provided,
        msg.kind() != MsgId::LeftPos ==> state.receive(msg).left_encoder_pos
            == state.left_encoder_pos,
        msg.kind() != MsgId::RightPos ==> state.receive(msg).right_encoder_pos
            == state.right_encoder_pos,
        msg.kind() != MsgId::LeftPower ==> state.receive(msg).left_motor_power
            == state.left_motor_power,
        msg.kind() != MsgId::RightPower ==> state.receive(msg).right_motor_power
            == state.right_motor_power,
        msg.kind() != MsgId::Battery ==> state.receive(msg).battery == state.battery,
        msg.kind() != MsgId::LinearPos ==> state.receive(msg).linear_position
            == state.linear_position,
        msg.kind() != MsgId::AngularPos ==> state.receive(msg).angular_position
            == state.angular_position,
        state.receive(msg).linear_power == state.linear_power,
        state.receive(msg).angular_power == state.angular_power,
{
}

/// An absolute position for one axis makes that axis rest there and leaves
/// the other axis exactly as it was.
pub proof fn lemma_set_position_routes_to_its_axis(state: MouseState, position: i32)
    requires
        state.wf(),
    ensures
        state.receive(Msg::LinearSet(position)).linear_control.position == position,
        state.receive(Msg::LinearSet(position)).linear_control.speed == 0,
        state.receive(Msg::LinearSet(position)).linear_control.pending()
            == state.linear_control.pending(),
        state.receive(Msg::LinearSet(position)).angular_control == state.angular_control,
        state.receive(Msg::AngularSet(position)).angular_control.position == position,
        state.receive(Msg::AngularSet(position)).angular_control.speed == 0,
        state.receive(Msg::AngularSet(position)).angular_control.pending()
            == state.angular_control.pending(),
        state.receive(Msg::AngularSet(position)).linear_control == state.linear_control,
{
}

/// A segment for an axis with a full queue changes nothing; with room, it
/// goes behind the segments of that axis and the other axis stays as it was.
pub proof fn lemma_add_routes_to_its_axis(state: MouseState, velocity: u32, distance: i32)
    ensures
        state.linear_control.waiting.len() >= CAPACITY ==> state.receive(
            Msg::AddLinear(velocity, distance),
        ) == state,
        state.linear_control.waiting.len() < CAPACITY ==> state.receive(
            Msg::AddLinear(velocity, distance),
        ).linear_control.waiting == state.linear_control.waiting.push(
            Target { velocity, distance },
        ),
        state.receive(Msg::AddLinear(velocity, distance)).angular_control
            == state.angular_control,
        state.angular_control.waiting.len() >= CAPACITY ==> state.receive(
            Msg::AddAngular(velocity, distance),
        ) == state,
        state.angular_control.waiting.len() < CAPACITY ==> state.receive(
            Msg::AddAngular(velocity, distance),
        ).angular_control.waiting == state.angular_control.waiting.push(
            Target { velocity, distance },
        ),
        state.receive(Msg::AddAngular(velocity, distance)).linear_control
            == state.linear_control,
{
}

} // verus!
