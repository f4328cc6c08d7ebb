//! The per-axis motion profiler.
//!
//! An axis holds a FIFO queue of segments and a commanded position.  Each
//! tick moves the position toward the end of the oldest segment at a speed
//! that climbs to the segment's cruise speed and falls again before the end,
//! never changing by more than the acceleration limit times the elapsed time.
//! With nothing queued the axis holds its position.
//!
//! [`ProfileState`] is the mathematical model of an axis and
//! [`ProfileState::step`] the rule of one tick; [`MotionControl`] is the
//! machine-integer implementation, proved to follow the model exactly.

use vstd::prelude::*;
use crate::error::ControlError;
use crate::gain::Gain;
use crate::queue::{Target, TargetQueue, CAPACITY};

verus! {

/// What an axis did during one tick, judged by its speed before and after.
#[derive(Clone, Copy, Debug, PartialEq, Eq, Structural)]
pub enum Phase {
    /// At rest before and after: the position is held.
    Idle,
    /// The speed rose.
    Accelerating,
    /// The speed stayed at the same non-zero value.
    Cruising,
    /// The speed fell.
    Decelerating,
}

/// The settings an axis starts with.
#[derive(Clone, Copy, Debug, PartialEq, Eq, Structural)]
pub struct MotionConfig {
    /// Proportional gain of the axis's control law.
    pub p: Gain,
    /// Integral gain of the axis's control law.
    pub i: Gain,
    /// Derivative gain of the axis's control law.
    pub d: Gain,
    /// Acceleration limit, in ticks per time unit squared.
    pub acc: u32,
}

/// `x` brought into the range of a 32-bit position.
pub open spec fn clamp_position(x: int) -> int {
    if x < i32::MIN {
        i32::MIN as int
    } else if x > i32::MAX {
        i32::MAX as int
    } else {
        x
    }
}

/// The distance between two positions.
pub open spec fn gap(from: int, to: int) -> int {
    if to >= from {
        to - from
    } else {
        from - to
    }
}

/// The speed closest to `wanted` that differs from `current` by no more than
/// `budget`.
pub open spec fn approach(current: int, wanted: int, budget: int) -> int {
    if wanted >= current {
        if wanted - current <= budget {
            wanted
        } else {
            current + budget
        }
    } else {
        if current - wanted <= budget {
            wanted
        } else {
            current - budget
        }
    }
}

/// The mathematical state of one axis.
#[verifier::ext_equal]
pub struct ProfileState {
    /// The queued segments, oldest first.  The oldest is the one in flight
    /// when `engaged` holds; the others have not started.
    pub waiting: Seq<Target>,
    /// Whether the oldest segment has started.
    pub engaged: bool,
    /// The commanded position.
    pub position: int,
    /// Where the segment in flight ends; the position itself when none is.
    pub goal: int,
    /// Whether the segment in flight travels toward smaller positions.
    pub reverse: bool,
    /// The commanded speed along the direction of travel.
    pub speed: int,
    /// The acceleration limit.
    pub acc: int,
    /// Proportional gain.
    pub p: Gain,
    /// Integral gain.
    pub i: Gain,
    /// Derivative gain.
    pub d: Gain,
}

impl ProfileState {
    /// The invariant of an axis: everything fits its machine type, an axis
    /// with no segment in flight is at rest, and a segment in flight never
    /// runs faster than its cruise speed.
    pub open spec fn wf(self) -> bool {
        &&& self.waiting.len() <= CAPACITY
        &&& i32::MIN <= self.position <= i32::MAX
        &&& i32::MIN <= self.goal <= i32::MAX
        &&& 0 <= self.speed <= u32::MAX
        &&& 0 <= self.acc <= u32::MAX
        &&& self.engaged ==> self.waiting.len() > 0 && self.speed <= self.waiting[0].velocity
        &&& self.engaged && self.goal != self.position ==> self.reverse == (self.goal
            < self.position)
        &&& !self.engaged ==> self.speed == 0 && self.goal == self.position && !self.reverse
    }

    /// An axis at rest at position zero with an empty queue.
    pub open spec fn initial(config: MotionConfig) -> ProfileState {
        ProfileState {
            waiting: Seq::empty(),
            engaged: false,
            position: 0,
            goal: 0,
            reverse: false,
            speed: 0,
            acc: config.acc as int,
            p: config.p,
            i: config.i,
            d: config.d,
        }
    }

    /// The segments that have not started.
    pub open spec fn pending(self) -> Seq<Target> {
        if self.engaged {
            self.waiting.drop_first()
        } else {
            self.waiting
        }
    }

    /// The commanded velocity: the speed, signed by the direction of travel.
    pub open spec fn velocity(self) -> int {
        if self.reverse {
            -self.speed
        } else {
            self.speed
        }
    }

    /// The state after `target` was appended to a queue with room for it.
    pub open spec fn enqueue(self, target: Target) -> ProfileState {
        ProfileState { waiting: self.waiting.push(target), ..self }
    }

    /// The state after the position was overridden with `position`: the axis
    /// rests there, the segment in flight is abandoned, and the segments that
    /// have not started stay queued.
    pub open spec fn reposition(self, position: int) -> ProfileState {
        ProfileState {
            waiting: self.pending(),
            engaged: false,
            position,
            goal: position,
            reverse: false,
            speed: 0,
            ..self
        }
    }

    /// Where the oldest segment ends: the goal of the segment in flight, or
    /// the goal that the oldest segment gets when it starts from here.
    pub open spec fn front_goal(self) -> int
        recommends
            self.waiting.len() > 0,
    {
        if self.engaged {
            self.goal
        } else {
            clamp_position(self.position + self.waiting[0].distance)
        }
    }

    /// The distance left to the end of the oldest segment; zero with an
    /// empty queue.
    pub open spec fn left(self) -> int {
        if self.waiting.len() == 0 {
            0
        } else {
            gap(self.position, self.front_goal())
        }
    }

    /// Whether the axis, at its present speed, needs all of the distance
    /// left to come to rest under the acceleration limit.
    pub open spec fn braking(self) -> bool {
        self.speed * self.speed >= 2 * self.acc * self.left()
    }

    /// The state after one tick of `dt` time units.
    ///
    /// With an empty queue nothing changes.  Otherwise the oldest segment
    /// starts if it has not, and then:
    ///
    /// * short of the goal, the speed moves toward the cruise speed, or
    ///   toward a crawl of one tick per time unit once the axis is braking,
    ///   by at most `acc * dt`, and the position moves by `speed * dt`
    ///   toward the goal without passing it;
    /// * at the goal, the speed falls by at most `acc * dt`, and when it has
    ///   reached zero the segment leaves the queue.
    pub open spec fn step(self, dt: int) -> ProfileState {
        if self.waiting.len() == 0 {
            self
        } else {
            let goal = self.front_goal();
            let reverse = if self.engaged {
                self.reverse
            } else {
                goal < self.position
            };
            let left = self.left();
            let budget = self.acc * dt;
            if left == 0 {
                let speed = approach(self.speed, 0, budget);
                if speed == 0 {
                    ProfileState {
                        waiting: self.waiting.drop_first(),
                        engaged: false,
                        goal: self.position,
                        reverse: false,
                        speed: 0,
                        ..self
                    }
                } else {
                    ProfileState { engaged: true, goal, reverse, speed, ..self }
                }
            } else {
                let wanted = if self.braking() {
                    1
                } else {
                    self.waiting[0].velocity as int
                };
                let speed = approach(self.speed, wanted, budget);
                let travel = if speed * dt <= left {
                    speed * dt
                } else {
                    left
                };
                let position = if reverse {
                    self.position - travel
                } else {
                    self.position + travel
                };
                ProfileState { engaged: true, position, goal, reverse, speed, ..self }
            }
        }
    }

    /// What the axis does during one tick of `dt` time units.
    pub open spec fn phase(self, dt: int) -> Phase {
        let next = self.step(dt);
        if next.speed > self.speed {
            Phase::Accelerating
        } else if next.speed < self.speed {
            Phase::Decelerating
        } else if self.speed > 0 {
            Phase::Cruising
        } else {
            Phase::Idle
        }
    }
}

/// One axis of motion: a queue of segments, the commanded position and
/// speed, the acceleration limit and the gains of the axis's control law.
pub struct MotionControl {
    queue: TargetQueue,
    engaged: bool,
    position: i32,
    goal: i32,
    reverse: bool,
    speed: u32,
    acc: u32,
    p: Gain,
    i: Gain,
    d: Gain,
}

impl View for MotionControl {
    type V = ProfileState;

    closed spec fn view(&self) -> ProfileState {
        ProfileState {
            waiting: self.queue@,
            engaged: self.engaged,
            position: self.position as int,
            goal: self.goal as int,
            reverse: self.reverse,
            speed: self.speed as int,
            acc: self.acc as int,
            p: self.p,
            i: self.i,
            d: self.d,
        }
    }
}

/// `x` brought into the range of a 32-bit position.
fn clamp_to_position(x: i64) -> (clamped: i32)
    ensures
        clamped == clamp_position(x as int),
{
    if x < i32::MIN as i64 {
        i32::MIN
    } else if x > i32::MAX as i64 {
        i32::MAX
    } else {
        x as i32
    }
}

/// The distance between two positions.
fn gap_between(from: i32, to: i32) -> (distance: u64)
    ensures
        distance == gap(from as int, to as int),
        distance <= u32::MAX,
{
    if to >= from {
        (to as i64 - from as i64) as u64
    } else {
        (from as i64 - to as i64) as u64
    }
}

/// The speed closest to `wanted` within `budget` of `current`.
fn approach_speed(current: u32, wanted: u32, budget: u64) -> (speed: u32)
    ensures
        speed == approach(current as int, wanted as int, budget as int),
{
    if wanted >= current {
        if (wanted - current) as u64 <= budget {
            wanted
        } else {
            current + budget as u32
        }
    } else {
        if (current - wanted) as u64 <= budget {
            wanted
        } else {
            current - budget as u32
        }
    }
}

/// The product of two 32-bit factors, which always fits 64 bits.
fn product(a: u32, b: u32) -> (c: u64)
    ensures
        c == a * b,
{
    assert(a * b <= 0xffff_ffff * 0xffff_ffff) by (nonlinear_arith)
        requires
            0 <= a <= 0xffff_ffff,
            0 <= b <= 0xffff_ffff,
    ;
    a as u64 * b as u64
}

impl MotionControl {
    /// The invariant of an axis; see [`ProfileState::wf`].
    pub closed spec fn wf(&self) -> bool {
        &&& self.queue.wf()
        &&& self@.wf()
    }

    /// The model of a well-formed axis is well-formed.
    pub proof fn lemma_wf_view(&self)
        requires
            self.wf(),
        ensures
            self@.wf(),
    {
    }

    /// An axis at rest at position zero, with an empty queue and the gains
    /// and acceleration limit of `config`.
    ///
    /// A gain that is not a finite number is a configuration error.
    pub fn new(config: MotionConfig) -> (made: Result<MotionControl, ControlError>)
        ensures
            config.p.finite() && config.i.finite() && config.d.finite() ==> made is Ok
                && made->Ok_0.wf() && made->Ok_0@ == ProfileState::initial(config),
            !(config.p.finite() && config.i.finite() && config.d.finite()) ==> made is Err
                && made->Err_0 == ControlError::ConfigurationError,
    {
        if !(config.p.is_finite() && config.i.is_finite() && config.d.is_finite()) {
            return Err(ControlError::ConfigurationError);
        }
        let axis = MotionControl {
            queue: TargetQueue::new(),
            engaged: false,
            position: 0,
            goal: 0,
            reverse: false,
            speed: 0,
            acc: config.acc,
            p: config.p,
            i: config.i,
            d: config.d,
        };
        assert(axis@ =~= ProfileState::initial(config));
        Ok(axis)
    }

    /// Appends a segment behind those already queued.
    ///
    /// An axis that already holds [`CAPACITY`] segments turns the segment
    /// down and stays exactly as it was.
    pub fn queue_target(&mut self, target: Target) -> (outcome: Result<(), ControlError>)
        requires
            old(self).wf(),
        ensures
            final(self).wf(),
            old(self)@.waiting.len() < CAPACITY ==> outcome == Ok::<(), ControlError>(())
                && final(self)@ == old(self)@.enqueue(target),
            old(self)@.waiting.len() >= CAPACITY ==> outcome == Err::<(), ControlError>(
                ControlError::CapacityExceeded,
            ) && final(self)@ == old(self)@,
    {
        let outcome = self.queue.push(target);
        assert(self@ =~= if old(self)@.waiting.len() < CAPACITY {
            old(self)@.enqueue(target)
        } else {
            old(self)@
        });
        outcome
    }

    /// Overrides the commanded position.
    ///
    /// The axis rests at `position` at once.  The segment in flight, if any,
    /// is abandoned; the segments that have not started stay queued, and the
    /// next tick starts the oldest of them from `position`.
    pub fn set_position(&mut self, position: i32)
        requires
            old(self).wf(),
        ensures
            final(self).wf(),
            final(self)@ == old(self)@.reposition(position as int),
    {
        if self.engaged {
            let _ = self.queue.pop();
        }
        self.engaged = false;
        self.position = position;
        self.goal = position;
        self.reverse = false;
        self.speed = 0;
        assert(self@ =~= old(self)@.reposition(position as int));
    }

    /// Replaces the proportional gain; nothing else changes.
    pub fn set_p(&mut self, gain: Gain)
        requires
            old(self).wf(),
        ensures
            final(self).wf(),
            final(self)@ == (ProfileState { p: gain, ..old(self)@ }),
    {
        self.p = gain;
    }

    /// Replaces the integral gain; nothing else changes.
    pub fn set_i(&mut self, gain: Gain)
        requires
            old(self).wf(),
        ensures
            final(self).wf(),
            final(self)@ == (ProfileState { i: gain, ..old(self)@ }),
    {
        self.i = gain;
    }

    /// Replaces the derivative gain; nothing else changes.
    pub fn set_d(&mut self, gain: Gain)
        requires
            old(self).wf(),
        ensures
            final(self).wf(),
            final(self)@ == (ProfileState { d: gain, ..old(self)@ }),
    {
        self.d = gain;
    }

    /// Replaces the acceleration limit; the commanded position and speed
    /// stay as they are, and the next tick is the first to use the new limit.
    pub fn set_acc(&mut self, limit: u32)
        requires
            old(self).wf(),
        ensures
            final(self).wf(),
            final(self)@ == (ProfileState { acc: limit as int, ..old(self)@ }),
    {
        self.acc = limit;
    }

    /// The commanded position.
    pub fn position(&self) -> (position: i32)
        ensures
            position == self@.position,
    {
        self.position
    }

    /// The commanded speed along the direction of travel.
    pub fn speed(&self) -> (speed: u32)
        ensures
            speed == self@.speed,
    {
        self.speed
    }

    /// The commanded velocity: the speed, negative while travelling toward
    /// smaller positions.
    pub fn velocity(&self) -> (velocity: i64)
        ensures
            velocity == self@.velocity(),
    {
        if self.reverse {
            -(self.speed as i64)
        } else {
            self.speed as i64
        }
    }

    /// The acceleration limit.
    pub fn acc(&self) -> (limit: u32)
        ensures
            limit == self@.acc,
    {
        self.acc
    }

    /// The proportional gain.
    pub fn p(&self) -> (gain: Gain)
        ensures
            gain == self@.p,
    {
        self.p
    }

    /// The integral gain.
    pub fn i(&self) -> (gain: Gain)
        ensures
            gain == self@.i,
    {
        self.i
    }

    /// The derivative gain.
    pub fn d(&self) -> (gain: Gain)
        ensures
            gain == self@.d,
    {
        self.d
    }

    /// Whether the oldest queued segment has started.
    pub fn is_engaged(&self) -> (engaged: bool)
        ensures
            engaged == self@.engaged,
    {
        self.engaged
    }

    /// Whether nothing is queued, so that the axis holds its position.
    pub fn is_idle(&self) -> (idle: bool)
        requires
            self.wf(),
        ensures
            idle == (self@.waiting.len() == 0),
    {
        self.queue.is_empty()
    }

    /// The number of queued segments, the one in flight included.
    pub fn queued(&self) -> (n: usize)
        requires
            self.wf(),
        ensures
            n == self@.waiting.len(),
            n <= CAPACITY,
    {
        self.queue.len()
    }

    /// The queued segment at place `index`, counted from the oldest.
    pub fn target_at(&self, index: usize) -> (found: Option<Target>)
        requires
            self.wf(),
        ensures
            found == if index < self@.waiting.len() {
                Some(self@.waiting[index as int])
            } else {
                None
            },
    {
        self.queue.get(index)
    }

    /// Advances the axis by one tick of `dt` time units and tells what the
    /// axis did; see [`ProfileState::step`] for the rule.
    pub fn advance(&mut self, dt: u32) -> (phase: Phase)
        requires
            old(self).wf(),
        ensures
            final(self).wf(),
            final(self)@ == old(self)@.step(dt as int),
            phase == old(self)@.phase(dt as int),
    {
        let segment = match self.queue.front() {
            None => {
                return Phase::Idle;
            },
            Some(segment) => segment,
        };
        let before: u32 = self.speed;
        if !self.engaged {
            self.goal = clamp_to_position(self.position as i64 + segment.distance as i64);
            self.reverse = self.goal < self.position;
            self.engaged = true;
        }
        let left: u64 = gap_between(self.position, self.goal);
        let budget: u64 = product(self.acc, dt);
        if left == 0 {
            let speed: u32 = approach_speed(self.speed, 0, budget);
            if speed == 0 {
                let _ = self.queue.pop();
                self.engaged = false;
                self.goal = self.position;
                self.reverse = false;
            }
            self.speed = speed;
        } else {
            let stopping: u128 = product(self.speed, self.speed) as u128;
            let room: u128 = 2 * (product(self.acc, left as u32) as u128);
            assert(room == 2 * self.acc * left) by (nonlinear_arith)
                requires
                    room == 2 * (self.acc * left),
            ;
            let wanted: u32 = if stopping >= room {
                1
            } else {
                segment.velocity
            };
            proof {
                if stopping >= room && self.speed == 0 {
                    assert(stopping == 0) by (nonlinear_arith)
                        requires
                            stopping == self.speed * self.speed,
                            self.speed == 0,
                    ;
                    assert(self.acc == 0) by (nonlinear_arith)
                        requires
                            2 * self.acc * left <= 0,
                            left > 0,
                            self.acc >= 0,
                    ;
                    assert(budget == 0) by (nonlinear_arith)
                        requires
                            budget == self.acc * dt,
                            self.acc == 0,
                    ;
                }
            }
            let speed: u32 = approach_speed(self.speed, wanted, budget);
            let reach: u64 = product(speed, dt);
            let travel: u64 = if reach <= left {
                reach
            } else {
                left
            };
            let position: i64 = if self.reverse {
                self.position as i64 - travel as i64
            } else {
                self.position as i64 + travel as i64
            };
            self.position = position as i32;
            self.speed = speed;
        }
        assert(self@ =~= old(self)@.step(dt as int));
        if self.speed > before {
            Phase::Accelerating
        } else if self.speed < before {
            Phase::Decelerating
        } else if before > 0 {
            Phase::Cruising
        } else {
            Phase::Idle
        }
    }
}

} // verus!
