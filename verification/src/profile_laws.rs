//! What holds of every axis, whatever is queued and however long the ticks.
//!
//! The laws are stated over [`ProfileState`], the model that
//! [`MotionControl`](crate::profile::MotionControl) is proved to follow.

use vstd::prelude::*;
use crate::profile::{approach, clamp_position, gap, Phase, ProfileState};
use crate::queue::{Target, CAPACITY};

verus! {

/// The longest tick that the implementation accepts.
pub open spec fn tick_fits(dt: int) -> bool {
    0 <= dt <= u32::MAX
}

/// The product of two non-negative numbers is non-negative, and at least one
/// when both factors are.
proof fn lemma_product_sign(a: int, b: int)
    requires
        0 <= a,
        0 <= b,
    ensures
        0 <= a * b,
        1 <= a && 1 <= b ==> 1 <= a * b,
        a == 0 || b == 0 ==> a * b == 0,
{
    assert(0 <= a * b) by (nonlinear_arith)
        requires
            0 <= a,
            0 <= b,
    ;
    if 1 <= a && 1 <= b {
        assert(1 <= a * b) by (nonlinear_arith)
            requires
                1 <= a,
                1 <= b,
        ;
    }
    if a == 0 || b == 0 {
        assert(a * b == 0) by (nonlinear_arith)
            requires
                a == 0 || b == 0,
        ;
    }
}

/// A tick keeps a well-formed axis well-formed.
pub proof fn lemma_step_preserves_wf(state: ProfileState, dt: int)
    requires
        state.wf(),
        tick_fits(dt),
    ensures
        state.step(dt).wf(),
{
    lemma_product_sign(state.acc, dt);
    if state.waiting.len() > 0 {
        let left = state.left();
        let budget = state.acc * dt;
        if left != 0 {
            let wanted = if state.braking() {
                1
            } else {
                state.waiting[0].velocity as int
            };
            let speed = approach(state.speed, wanted, budget);
            lemma_product_sign(speed, dt);
            if state.braking() && state.speed == 0 {
                lemma_product_sign(state.speed, state.speed);
                assert(state.acc == 0) by (nonlinear_arith)
                    requires
                        2 * state.acc * left <= 0,
                        left > 0,
                        state.acc >= 0,
                ;
            }
        }
    }
}

/// With nothing queued a tick changes nothing: the axis holds its position
/// at zero speed, for as many ticks as one cares to run.
pub proof fn lemma_idle_holds(state: ProfileState, dt: int)
    requires
        state.wf(),
        state.waiting.len() == 0,
    ensures
        state.step(dt) == state,
        state.step(dt).position == state.position,
        state.speed == 0,
        state.phase(dt) == Phase::Idle,
{
}

/// Between two consecutive ticks neither the commanded speed nor the
/// commanded velocity changes by more than the acceleration limit times the
/// length of the tick.
pub proof fn lemma_speed_change_bounded(state: ProfileState, dt: int)
    requires
        state.wf(),
        tick_fits(dt),
    ensures
        gap(state.speed, state.step(dt).speed) <= state.acc * dt,
        gap(state.velocity(), state.step(dt).velocity()) <= state.acc * dt,
{
    lemma_product_sign(state.acc, dt);
    lemma_step_preserves_wf(state, dt);
}

/// A segment in flight never runs faster than its cruise speed.
pub proof fn lemma_speed_capped(state: ProfileState, dt: int)
    requires
        state.wf(),
        tick_fits(dt),
        state.waiting.len() > 0,
    ensures
        state.step(dt).speed <= state.waiting[0].velocity,
{
    lemma_step_preserves_wf(state, dt);
}

/// A tick moves the position toward the end of the oldest segment and never
/// past it, and the end of a segment stays where it was set when the segment
/// started.
pub proof fn lemma_no_overshoot(state: ProfileState, dt: int)
    requires
        state.wf(),
        tick_fits(dt),
        state.waiting.len() > 0,
    ensures
        gap(state.step(dt).position, state.front_goal()) <= gap(
            state.position,
            state.front_goal(),
        ),
        gap(state.position, state.step(dt).position) + gap(
            state.step(dt).position,
            state.front_goal(),
        ) == gap(state.position, state.front_goal()),
        state.step(dt).engaged ==> state.step(dt).goal == state.front_goal()
            && state.step(dt).waiting == state.waiting,
        !state.step(dt).engaged ==> state.position == state.front_goal() && state.step(
            dt,
        ).position == state.position && state.step(dt).waiting == state.waiting.drop_first(),
{
    lemma_product_sign(state.acc, dt);
    let left = state.left();
    if left != 0 {
        let wanted = if state.braking() {
            1
        } else {
            state.waiting[0].velocity as int
        };
        let speed = approach(state.speed, wanted, state.acc * dt);
        lemma_product_sign(speed, dt);
    }
}

/// The phase of a tick tells how the speed changed, and an axis with
/// nothing queued is idle.
pub proof fn lemma_phase_reads_speed(state: ProfileState, dt: int)
    requires
        state.wf(),
        tick_fits(dt),
    ensures
        state.phase(dt) == Phase::Accelerating <==> state.step(dt).speed > state.speed,
        state.phase(dt) == Phase::Decelerating <==> state.step(dt).speed < state.speed,
        state.phase(dt) == Phase::Cruising <==> state.step(dt).speed == state.speed
            && state.speed > 0,
        state.phase(dt) == Phase::Idle <==> state.step(dt).speed == 0 && state.speed == 0,
        state.waiting.len() == 0 ==> state.phase(dt) == Phase::Idle,
        state.phase(dt) == Phase::Idle ==> state.step(dt).position == state.position,
        state.speed == 0 ==> state.phase(dt) == Phase::Idle || state.phase(dt)
            == Phase::Accelerating,
{
    lemma_step_preserves_wf(state, dt);
    lemma_product_sign(state.acc, dt);
    if state.waiting.len() > 0 && state.left() != 0 {
        lemma_product_sign(state.step(dt).speed, dt);
    }
}

/// The order of the phases: an axis that can move and has distance before it
/// leaves rest by accelerating; the tick on which a segment leaves the queue
/// is one on which the axis decelerates to rest or already rests; and the
/// axis is at rest whenever no segment is in flight after a tick.
pub proof fn lemma_phase_order(state: ProfileState, dt: int)
    requires
        state.wf(),
        tick_fits(dt),
        state.waiting.len() > 0,
    ensures
        state.speed == 0 && state.left() > 0 && state.acc >= 1 && state.waiting[0].velocity >= 1
            && dt >= 1 ==> state.phase(dt) == Phase::Accelerating,
        state.step(dt).waiting.len() < state.waiting.len() ==> state.step(dt).speed == 0 && (
        state.phase(dt) == Phase::Decelerating || state.phase(dt) == Phase::Idle),
        !state.step(dt).engaged ==> state.step(dt).speed == 0,
{
    lemma_step_preserves_wf(state, dt);
    lemma_product_sign(state.acc, dt);
    if state.speed == 0 && state.left() > 0 && state.acc >= 1 {
        lemma_product_sign(state.speed, state.speed);
        assert(!state.braking()) by (nonlinear_arith)
            requires
                state.speed * state.speed == 0,
                state.acc >= 1,
                state.left() >= 1,
                state.braking() == (state.speed * state.speed >= 2 * state.acc * state.left()),
        ;
    }
}

impl ProfileState {
    /// A measure of the work an axis has before it: the queued segments
    /// count most, then the distance left in the oldest, then the speed.
    pub open spec fn rank(self) -> int {
        (self.waiting.len() * 0x1_0000_0000 + self.left()) * 0x1_0000_0000 + self.speed
    }

    /// Whether every queued segment has a cruise speed of at least one and
    /// the acceleration limit is at least one, so that the axis can move.
    pub open spec fn can_move(self) -> bool {
        &&& self.acc >= 1
        &&& forall|k: int| 0 <= k < self.waiting.len() ==> (#[trigger] self.waiting[k]).velocity >= 1
    }

    /// The state after the ticks of `ticks`, one after the other.
    pub open spec fn run(self, ticks: Seq<int>) -> ProfileState
        decreases ticks.len(),
    {
        if ticks.len() == 0 {
            self
        } else {
            self.step(ticks[0]).run(ticks.drop_first())
        }
    }

    /// The position at which the axis rests once everything queued has been
    /// travelled.
    pub open spec fn destination(self) -> int {
        if self.waiting.len() == 0 {
            self.position
        } else {
            travel_from(self.front_goal(), self.waiting.drop_first())
        }
    }
}

/// The position reached from `from` after the segments of `segments`, each
/// one ending where a 32-bit position can follow it.
pub open spec fn travel_from(from: int, segments: Seq<Target>) -> int
    decreases segments.len(),
{
    if segments.len() == 0 {
        from
    } else {
        travel_from(clamp_position(from + segments[0].distance), segments.drop_first())
    }
}

/// Whether every tick of `ticks` lasts at least one time unit.
pub open spec fn ticks_pass(ticks: Seq<int>) -> bool {
    forall|k: int| 0 <= k < ticks.len() ==> 1 <= #[trigger] ticks[k] <= u32::MAX
}

/// Every tick that lasts at least one time unit brings an axis that can
/// move strictly closer to the end of its queue: the rank falls.
pub proof fn lemma_step_makes_progress(state: ProfileState, dt: int)
    requires
        state.wf(),
        state.can_move(),
        state.waiting.len() > 0,
        1 <= dt <= u32::MAX,
    ensures
        0 <= state.step(dt).rank() < state.rank(),
        state.step(dt).can_move(),
{
    lemma_step_preserves_wf(state, dt);
    lemma_product_sign(state.acc, dt);
    let next = state.step(dt);
    let left = state.left();
    assert(state.waiting[0].velocity >= 1);
    assert(next.can_move()) by {
        assert forall|k: int| 0 <= k < next.waiting.len() implies (#[trigger] next.waiting[k]).velocity
            >= 1 by {
            if next.waiting.len() == state.waiting.len() {
                assert(next.waiting[k] == state.waiting[k]);
            } else {
                assert(next.waiting[k] == state.waiting[k + 1]);
            }
        }
    }
    if left != 0 {
        let wanted = if state.braking() {
            1
        } else {
            state.waiting[0].velocity as int
        };
        let speed = approach(state.speed, wanted, state.acc * dt);
        if state.braking() && state.speed == 0 {
            lemma_product_sign(state.speed, state.speed);
            assert(false) by (nonlinear_arith)
                requires
                    2 * state.acc * left <= 0,
                    left > 0,
                    state.acc >= 1,
            ;
        }
        assert(speed >= 1);
        lemma_product_sign(speed, dt);
        assert(next.left() < left);
    }
}

/// With nothing queued, no run of ticks changes the axis.
pub proof fn lemma_idle_run_holds(state: ProfileState, ticks: Seq<int>)
    requires
        state.wf(),
        state.waiting.len() == 0,
    ensures
        state.run(ticks) == state,
    decreases ticks.len(),
{
    if ticks.len() > 0 {
        lemma_idle_run_holds(state, ticks.drop_first());
    }
}

/// A tick does not change where the axis will rest in the end.
pub proof fn lemma_step_keeps_destination(state: ProfileState, dt: int)
    requires
        state.wf(),
        tick_fits(dt),
    ensures
        state.step(dt).destination() == state.destination(),
{
    if state.waiting.len() > 0 {
        lemma_no_overshoot(state, dt);
        let next = state.step(dt);
        if !next.engaged {
            let rest = state.waiting.drop_first();
            assert(next.waiting == rest);
            if rest.len() > 0 {
                assert(next.front_goal() == clamp_position(state.position + rest[0].distance));
            }
        }
    }
}

/// An axis that can move comes to rest in finite time: after as many ticks
/// of at least one time unit as its rank, whatever their lengths, the queue
/// is empty, the speed is zero and the position is the destination.
///
/// For a single segment queued on an idle axis the destination is the start
/// plus the segment's distance, held to the 32-bit range.
pub proof fn lemma_run_reaches_destination(state: ProfileState, ticks: Seq<int>)
    requires
        state.wf(),
        state.can_move(),
        ticks_pass(ticks),
        ticks.len() >= state.rank(),
    ensures
        state.run(ticks).wf(),
        state.run(ticks).waiting.len() == 0,
        state.run(ticks).speed == 0,
        state.run(ticks).position == state.destination(),
    decreases ticks.len(),
{
    if state.waiting.len() == 0 {
        lemma_idle_run_holds(state, ticks);
    } else {
        assert(state.rank() >= 1) by {
            assert(state.left() >= 0);
            assert(state.waiting.len() * 0x1_0000_0000 >= 0x1_0000_0000);
        }
        let dt = ticks[0];
        lemma_step_preserves_wf(state, dt);
        lemma_step_makes_progress(state, dt);
        lemma_step_keeps_destination(state, dt);
        let rest = ticks.drop_first();
        assert(ticks_pass(rest)) by {
            assert forall|k: int| 0 <= k < rest.len() implies 1 <= #[trigger] rest[k]
                <= u32::MAX by {
                assert(rest[k] == ticks[k + 1]);
            }
        }
        lemma_run_reaches_destination(state.step(dt), rest);
    }
}

/// One segment queued on an idle axis ends at the start plus its distance.
pub proof fn lemma_single_segment_destination(state: ProfileState, target: Target)
    requires
        state.wf(),
        state.waiting.len() == 0,
    ensures
        state.enqueue(target).wf(),
        state.enqueue(target).destination() == clamp_position(
            state.position + target.distance,
        ),
{
    let queued = state.enqueue(target);
    assert(queued.waiting.drop_first() =~= Seq::<Target>::empty());
}

/// Queued segments leave in the order in which they arrived: a tick either
/// keeps the queue or removes its oldest segment, and a new segment goes
/// behind all others.
pub proof fn lemma_queue_is_fifo(state: ProfileState, dt: int, target: Target)
    requires
        state.wf(),
        tick_fits(dt),
    ensures
        state.step(dt).waiting == state.waiting || (state.waiting.len() > 0 && state.step(
            dt,
        ).waiting == state.waiting.drop_first()),
        state.enqueue(target).waiting.len() == state.waiting.len() + 1,
        state.enqueue(target).waiting.last() == target,
        state.enqueue(target).waiting.drop_last() == state.waiting,
{
    assert(state.enqueue(target).waiting.drop_last() =~= state.waiting);
}

/// However many ticks pass, what is left of the queue is what was queued
/// with some of the oldest segments gone: nothing is reordered, skipped or
/// brought back.
pub proof fn lemma_run_retires_in_order(state: ProfileState, ticks: Seq<int>)
    requires
        state.wf(),
        forall|k: int| 0 <= k < ticks.len() ==> tick_fits(#[trigger] ticks[k]),
    ensures
        state.run(ticks).wf(),
        exists|gone: int|
            0 <= gone <= state.waiting.len() && state.run(ticks).waiting
                == #[trigger] state.waiting.skip(gone),
    decreases ticks.len(),
{
    if ticks.len() == 0 {
        assert(state.waiting.skip(0) =~= state.waiting);
    } else {
        let next = state.step(ticks[0]);
        let rest = ticks.drop_first();
        lemma_step_preserves_wf(state, ticks[0]);
        lemma_queue_is_fifo(state, ticks[0], Target { velocity: 0, distance: 0 });
        assert forall|k: int| 0 <= k < rest.len() implies tick_fits(#[trigger] rest[k]) by {
            assert(rest[k] == ticks[k + 1]);
        }
        lemma_run_retires_in_order(next, rest);
        let later = choose|gone: int|
            0 <= gone <= next.waiting.len() && next.run(rest).waiting
                == #[trigger] next.waiting.skip(gone);
        if next.waiting == state.waiting {
            assert(state.run(ticks).waiting == state.waiting.skip(later));
        } else {
            assert(next.waiting =~= state.waiting.skip(1));
            assert(state.waiting.skip(1).skip(later) =~= state.waiting.skip(later + 1));
            assert(state.run(ticks).waiting == state.waiting.skip(later + 1));
        }
    }
}

/// The state after the segments of `targets` were queued one after the
/// other, each finding room.
pub open spec fn enqueue_all(state: ProfileState, targets: Seq<Target>) -> ProfileState
    decreases targets.len(),
{
    if targets.len() == 0 {
        state
    } else {
        enqueue_all(state.enqueue(targets[0]), targets.drop_first())
    }
}

/// Segments queued one after the other stand in the queue in that order,
/// behind what was queued before, and nothing else about the axis changes.
pub proof fn lemma_enqueue_all_appends(state: ProfileState, targets: Seq<Target>)
    requires
        state.wf(),
        state.waiting.len() + targets.len() <= CAPACITY,
    ensures
        enqueue_all(state, targets).wf(),
        enqueue_all(state, targets) == (ProfileState {
            waiting: state.waiting + targets,
            ..state
        }),
    decreases targets.len(),
{
    if targets.len() == 0 {
        assert(state.waiting + targets =~= state.waiting);
    } else {
        let next = state.enqueue(targets[0]);
        lemma_enqueue_all_appends(next, targets.drop_first());
        assert(next.waiting + targets.drop_first() =~= state.waiting + targets);
    }
}

/// Overriding the position makes the axis rest there at once and leaves the
/// segments that have not started as they were.
pub proof fn lemma_reposition_keeps_pending(state: ProfileState, position: int)
    requires
        state.wf(),
        i32::MIN <= position <= i32::MAX,
    ensures
        state.reposition(position).wf(),
        state.reposition(position).position == position,
        state.reposition(position).speed == 0,
        state.reposition(position).pending() == state.pending(),
        state.reposition(position).acc == state.acc,
{
}

} // verus!
