//! Motion segments and the bounded FIFO queue that holds them.
//!
//! The queue is a ring over a fixed array: it never allocates, it reports
//! overflow instead of growing, and it hands segments back in the order in
//! which they arrived.

use vstd::prelude::*;
use crate::error::ControlError;

verus! {

/// How many segments one axis can hold at a time.
pub const CAPACITY: usize = 8;

/// One leg of motion: travel `distance` at up to `velocity`.
#[derive(Clone, Copy, Debug, PartialEq, Eq, Structural)]
pub struct Target {
    /// The cruise speed, in ticks per time unit.
    pub velocity: u32,
    /// The distance to cover, in ticks; its sign gives the direction.
    pub distance: i32,
}

/// A FIFO queue of at most [`CAPACITY`] segments.
pub struct TargetQueue {
    slots: [Target; 8],
    head: usize,
    len: usize,
}

impl View for TargetQueue {
    type V = Seq<Target>;

    /// The queued segments, oldest first.
    closed spec fn view(&self) -> Seq<Target> {
        Seq::new(self.len as nat, |k: int| self.slots[(self.head + k) % 8])
    }
}

impl TargetQueue {
    /// The ring's indices stay inside the array.
    pub closed spec fn wf(&self) -> bool {
        &&& self.head < CAPACITY
        &&& self.len <= CAPACITY
    }

    /// An empty queue.
    pub fn new() -> (queue: TargetQueue)
        ensures
            queue.wf(),
            queue@ == Seq::<Target>::empty(),
    {
        let queue = TargetQueue {
            slots: [Target { velocity: 0, distance: 0 }; 8],
            head: 0,
            len: 0,
        };
        assert(queue@ =~= Seq::<Target>::empty());
        queue
    }

    /// The number of queued segments.
    pub fn len(&self) -> (n: usize)
        requires
            self.wf(),
        ensures
            n == self@.len(),
            n <= CAPACITY,
    {
        self.len
    }

    /// Whether no segment is queued.
    pub fn is_empty(&self) -> (empty: bool)
        requires
            self.wf(),
        ensures
            empty == (self@.len() == 0),
    {
        self.len == 0
    }

    /// Whether the next `push` would be turned down.
    pub fn is_full(&self) -> (full: bool)
        requires
            self.wf(),
        ensures
            full == (self@.len() == CAPACITY),
    {
        self.len == CAPACITY
    }

    /// The segment at place `index`, counted from the oldest.
    pub fn get(&self, index: usize) -> (found: Option<Target>)
        requires
            self.wf(),
        ensures
            found == if index < self@.len() {
                Some(self@[index as int])
            } else {
                None
            },
    {
        if index < self.len {
            let slot: usize = (self.head + index) % CAPACITY;
            Some(self.slots[slot])
        } else {
            None
        }
    }

    /// The oldest segment, which stays queued.
    pub fn front(&self) -> (found: Option<Target>)
        requires
            self.wf(),
        ensures
            found == if self@.len() > 0 {
                Some(self@[0])
            } else {
                None
            },
    {
        self.get(0)
    }

    /// Appends `target` behind the segments already queued.
    ///
    /// A full queue turns the segment down and stays exactly as it was.
    pub fn push(&mut self, target: Target) -> (outcome: Result<(), ControlError>)
        requires
            old(self).wf(),
        ensures
            final(self).wf(),
            old(self)@.len() < CAPACITY ==> outcome == Ok::<(), ControlError>(())
                && final(self)@ == old(self)@.push(target),
            old(self)@.len() >= CAPACITY ==> outcome == Err::<(), ControlError>(
                ControlError::CapacityExceeded,
            ) && final(self)@ == old(self)@,
    {
        if self.len == CAPACITY {
            return Err(ControlError::CapacityExceeded);
        }
        let slot: usize = (self.head + self.len) % CAPACITY;
        self.slots[slot] = target;
        self.len = self.len + 1;
        assert(self@ =~= old(self)@.push(target));
        Ok(())
    }

    /// Removes the oldest segment and returns it.
    pub fn pop(&mut self) -> (removed: Option<Target>)
        requires
            old(self).wf(),
        ensures
            final(self).wf(),
            old(self)@.len() > 0 ==> removed == Some(old(self)@[0])
                && final(self)@ == old(self)@.drop_first(),
            old(self)@.len() == 0 ==> removed.is_none() && final(self)@ == old(self)@,
    {
        if self.len == 0 {
            return None;
        }
        let oldest: Target = self.slots[self.head];
        self.head = (self.head + 1) % CAPACITY;
        self.len = self.len - 1;
        assert(self@ =~= old(self)@.drop_first());
        Some(oldest)
    }
}

} // verus!
