//! The message protocol between the planning and telemetry layer and the
//! control core.
//!
//! The protocol is a closed set: [`Msg`] lists every message the core
//! understands and [`MsgId`] names the kinds.  Physical quantities travel as
//! integers; gains travel as binary64 bit patterns (see [`Gain`]).

use vstd::prelude::*;
use vstd::slice::*;
use crate::error::ControlError;
use crate::gain::Gain;

verus! {

/// How many message kinds a list can name.
pub const LIST_CAPACITY: usize = 8;

/// The kinds of message, one for each variant of [`Msg`].
#[derive(Clone, Copy, Debug, PartialEq, Eq, Structural)]
pub enum MsgId {
    Time,
    Logged,
    Provided,
    LeftPos,
    RightPos,
    LeftPower,
    RightPower,
    Battery,
    LinearPos,
    AngularPos,
    LinearSet,
    AngularSet,
    AddLinear,
    AddAngular,
    LinearP,
    LinearI,
    LinearD,
    LinearAcc,
    AngularP,
    AngularI,
    AngularD,
    AngularAcc,
}

/// A list of at most [`LIST_CAPACITY`] message kinds, kept in an
/// `arrayvec::ArrayVec` of capacity eight.
///
/// Verus does not look inside: [`listed`] names what the list holds, and the
/// three functions below that touch the `ArrayVec` state what it does.
#[verifier::external_body]
pub struct MsgIdList {
    inner: arrayvec::ArrayVec<[MsgId; 8]>,
}

/// The message kinds that `list` holds, in the order in which they were
/// pushed.
pub uninterp spec fn listed(list: MsgIdList) -> Seq<MsgId>;

/// The error of `arrayvec::ArrayVec::try_push`, which carries the element
/// that found no room.
#[verifier::external_type_specification]
#[verifier::external_body]
#[verifier::reject_recursive_types(T)]
pub struct ExCapacityError<T>(arrayvec::CapacityError<T>);

/// `arrayvec::ArrayVec::new`: a vector that holds nothing.
#[verifier::external_body]
fn arrayvec_new() -> (list: MsgIdList)
    ensures
        listed(list) == Seq::<MsgId>::empty(),
{
    MsgIdList { inner: arrayvec::ArrayVec::new() }
}

/// `arrayvec::ArrayVec::try_push`: below capacity the element is appended
/// and the call succeeds; at capacity the call fails and the vector is left
/// as it was.
#[verifier::external_body]
fn arrayvec_try_push(list: &mut MsgIdList, id: MsgId) -> (outcome: Result<
    (),
    arrayvec::CapacityError<MsgId>,
>)
    ensures
        listed(*old(list)).len() < LIST_CAPACITY ==> outcome is Ok && listed(*final(list))
            == listed(*old(list)).push(id),
        listed(*old(list)).len() >= LIST_CAPACITY ==> outcome is Err && listed(*final(list))
            == listed(*old(list)),
{
    list.inner.try_push(id)
}

/// `arrayvec::ArrayVec::as_slice`: the elements held, in order, which are
/// never more than the capacity.
#[verifier::external_body]
fn arrayvec_as_slice(list: &MsgIdList) -> (items: &[MsgId])
    ensures
        items@ == listed(*list),
        items@.len() <= LIST_CAPACITY,
{
    list.inner.as_slice()
}

impl View for MsgIdList {
    type V = Seq<MsgId>;

    /// The message kinds held, in the order in which they were pushed.
    open spec fn view(&self) -> Seq<MsgId> {
        listed(*self)
    }
}

impl MsgIdList {
    /// A list that names no message kind.
    pub fn new() -> (list: MsgIdList)
        ensures
            list@ == Seq::<MsgId>::empty(),
    {
        arrayvec_new()
    }

    /// The number of message kinds named.
    pub fn len(&self) -> (n: usize)
        ensures
            n == self@.len(),
            n <= LIST_CAPACITY,
    {
        arrayvec_as_slice(self).len()
    }

    /// The message kind at place `index`, counted from the first pushed.
    pub fn get(&self, index: usize) -> (found: Option<MsgId>)
        ensures
            found == if index < self@.len() {
                Some(self@[index as int])
            } else {
                None
            },
    {
        let items = arrayvec_as_slice(self);
        if index < items.len() {
            Some(items[index])
        } else {
            None
        }
    }

    /// Appends `id` behind the kinds already named.
    ///
    /// A list that already names [`LIST_CAPACITY`] kinds turns `id` down and
    /// stays exactly as it was.
    pub fn push(&mut self, id: MsgId) -> (outcome: Result<(), ControlError>)
        ensures
            old(self)@.len() < LIST_CAPACITY ==> outcome == Ok::<(), ControlError>(())
                && final(self)@ == old(self)@.push(id),
            old(self)@.len() >= LIST_CAPACITY ==> outcome == Err::<(), ControlError>(
                ControlError::CapacityExceeded,
            ) && final(self)@ == old(self)@,
    {
        match arrayvec_try_push(self, id) {
            Ok(()) => Ok(()),
            Err(_) => Err(ControlError::CapacityExceeded),
        }
    }
}

/// A message to the control core.
pub enum Msg {
    /// The current time, in time units.
    Time(u32),
    /// The message kinds that are being logged.
    Logged(MsgIdList),
    /// The message kinds that are being provided.
    Provided(MsgIdList),
    /// The position of the left encoder.
    LeftPos(i32),
    /// The position of the right encoder.
    RightPos(i32),
    /// The power of the left motor.
    LeftPower(i32),
    /// The power of the right motor.
    RightPower(i32),
    /// The battery voltage.
    Battery(i32),
    /// The measured linear position of the chassis.
    LinearPos(i32),
    /// The measured angular position of the chassis.
    AngularPos(i32),
    /// Overrides the commanded position of the linear axis.
    LinearSet(i32),
    /// Overrides the commanded position of the angular axis.
    AngularSet(i32),
    /// Queues a segment on the linear axis: cruise speed, then distance.
    AddLinear(u32, i32),
    /// Queues a segment on the angular axis: cruise speed, then distance.
    AddAngular(u32, i32),
    /// Proportional gain of the linear axis.
    LinearP(Gain),
    /// Integral gain of the linear axis.
    LinearI(Gain),
    /// Derivative gain of the linear axis.
    LinearD(Gain),
    /// Acceleration limit of the linear axis.
    LinearAcc(u32),
    /// Proportional gain of the angular axis.
    AngularP(Gain),
    /// Integral gain of the angular axis.
    AngularI(Gain),
    /// Derivative gain of the angular axis.
    AngularD(Gain),
    /// Acceleration limit of the angular axis.
    AngularAcc(u32),
}

impl Msg {
    /// The kind of the message.
    pub open spec fn kind(self) -> MsgId {
        match self {
            Msg::Time(_) => MsgId::Time,
            Msg::Logged(_) => MsgId::Logged,
            Msg::Provided(_) => MsgId::Provided,
            Msg::LeftPos(_) => MsgId::LeftPos,
            Msg::RightPos(_) => MsgId::RightPos,
            Msg::LeftPower(_) => MsgId::LeftPower,
            Msg::RightPower(_) => MsgId::RightPower,
            Msg::Battery(_) => MsgId::Battery,
            Msg::LinearPos(_) => MsgId::LinearPos,
            Msg::AngularPos(_) => MsgId::AngularPos,
            Msg::LinearSet(_) => MsgId::LinearSet,
            Msg::AngularSet(_) => MsgId::AngularSet,
            Msg::AddLinear(_, _) => MsgId::AddLinear,
            Msg::AddAngular(_, _) => MsgId::AddAngular,
            Msg::LinearP(_) => MsgId::LinearP,
            Msg::LinearI(_) => MsgId::LinearI,
            Msg::LinearD(_) => MsgId::LinearD,
            Msg::LinearAcc(_) => MsgId::LinearAcc,
            Msg::AngularP(_) => MsgId::AngularP,
            Msg::AngularI(_) => MsgId::AngularI,
            Msg::AngularD(_) => MsgId::AngularD,
            Msg::AngularAcc(_) => MsgId::AngularAcc,
        }
    }

    /// The kind of the message.
    pub fn id(&self) -> (id: MsgId)
        ensures
            id == self.kind(),
    {
        match self {
            Msg::Time(_) => MsgId::Time,
            Msg::Logged(_) => MsgId::Logged,
            Msg::Provided(_) => MsgId::Provided,
            Msg::LeftPos(_) => MsgId::LeftPos,
            Msg::RightPos(_) => MsgId::RightPos,
            Msg::LeftPower(_) => MsgId::LeftPower,
            Msg::RightPower(_) => MsgId::RightPower,
            Msg::Battery(_) => MsgId::Battery,
            Msg::LinearPos(_) => MsgId::LinearPos,
            Msg::AngularPos(_) => MsgId::AngularPos,
            Msg::LinearSet(_) => MsgId::LinearSet,
            Msg::AngularSet(_) => MsgId::AngularSet,
            Msg::AddLinear(_, _) => MsgId::AddLinear,
            Msg::AddAngular(_, _) => MsgId::AddAngular,
            Msg::LinearP(_) => MsgId::LinearP,
            Msg::LinearI(_) => MsgId::LinearI,
            Msg::LinearD(_) => MsgId::LinearD,
            Msg::LinearAcc(_) => MsgId::LinearAcc,
            Msg::AngularP(_) => MsgId::AngularP,
            Msg::AngularI(_) => MsgId::AngularI,
            Msg::AngularD(_) => MsgId::AngularD,
            Msg::AngularAcc(_) => MsgId::AngularAcc,
        }
    }
}

} // verus!
