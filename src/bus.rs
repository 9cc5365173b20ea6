//! The event bus: a bounded queue of messages between the interrupt-side
//! producers, the state machine and the output side.
//!
//! Sending never blocks: a message sent to a full bus is dropped.

use crate::level::{Levels, Patterns};
use crate::state::{Device, Power, Signal};
use heapless::mpmc::MpMcQueue;
use vstd::prelude::*;

verus! {

/// Number of messages the bus can hold.
pub const BUS_CAPACITY: usize = 8;

/// A message on the bus, with its destination.
#[derive(Clone, Copy, Debug, PartialEq, Eq, Structural)]
pub enum Busses {
    ToMcu(McuMsg),
    ToState(StateMsg),
}

/// A command for the hardware-facing side.
#[derive(Clone, Copy, Debug, PartialEq, Eq, Structural)]
pub enum McuMsg {
    SetDevice(Device),
    SetMute(Signal),
    SetPower(Power),
    SetMeter(Patterns),
}

/// An event for the state machine.
#[derive(Clone, Copy, Debug, PartialEq, Eq, Structural)]
pub enum StateMsg {
    Clock(u32),
    Initialise,
    ToggleDevice,
    ToggleMute,
    TogglePower,
    UpdateMeter(Levels),
}

/// A command for the hardware-facing side, with its patterns as segments.
pub enum CommandView {
    SetDevice(Device),
    SetMute(Signal),
    SetPower(Power),
    SetMeter(Seq<bool>, Seq<bool>),
}

/// A message on the bus, with its patterns as segments.
pub enum BusView {
    ToMcu(CommandView),
    ToState(StateMsg),
}

impl View for McuMsg {
    type V = CommandView;

    open spec fn view(&self) -> CommandView {
        match *self {
            McuMsg::SetDevice(d) => CommandView::SetDevice(d),
            McuMsg::SetMute(s) => CommandView::SetMute(s),
            McuMsg::SetPower(p) => CommandView::SetPower(p),
            McuMsg::SetMeter(ps) => CommandView::SetMeter(ps.0@, ps.1@),
        }
    }
}

impl View for Busses {
    type V = BusView;

    open spec fn view(&self) -> BusView {
        match *self {
            Busses::ToMcu(m) => BusView::ToMcu(m@),
            Busses::ToState(m) => BusView::ToState(m),
        }
    }
}

/// The views of a sequence of messages.
pub open spec fn bus_views(q: Seq<Busses>) -> Seq<BusView> {
    q.map_values(|b: Busses| b@)
}

/// The queue after sending `item`: appended while there is room, dropped
/// when the bus is full.
pub open spec fn after_send<T>(q: Seq<T>, item: T) -> Seq<T> {
    if q.len() < BUS_CAPACITY {
        q.push(item)
    } else {
        q
    }
}

/// The queue after sending `items` in order.
pub open spec fn after_send_all<T>(q: Seq<T>, items: Seq<T>) -> Seq<T>
    decreases items.len(),
{
    if items.len() == 0 {
        q
    } else {
        after_send(after_send_all(q, items.drop_last()), items.last())
    }
}

/// The queue that carries the bus.
pub type BusQueue = MpMcQueue<Busses, 8>;

/// heapless's `MpMcQueue`, whose contents the library sees only through
/// `bus_messages`.
#[verifier::external_type_specification]
#[verifier::external_body]
#[verifier::reject_recursive_types(T)]
pub struct ExMpMcQueue<T, const N: usize>(MpMcQueue<T, N>);

/// The messages waiting on a bus queue, oldest first.
pub uninterp spec fn bus_messages(queue: BusQueue) -> Seq<Busses>;

/// Relies on heapless's `MpMcQueue::new`: the queue starts empty.
#[verifier::external_body]
fn queue_new() -> (r: BusQueue)
    ensures
        bus_messages(r).len() == 0,
{
    MpMcQueue::new()
}

/// Relies on heapless's `MpMcQueue::enqueue`: with no other user of the queue,
/// the item goes to the back unless all `N` places are taken, in which case it
/// is handed back and nothing changes.
#[verifier::external_body]
fn queue_enqueue(queue: &mut BusQueue, item: Busses) -> (r: bool)
    ensures
        r == (bus_messages(*old(queue)).len() < BUS_CAPACITY),
        bus_messages(*final(queue)) == after_send(bus_messages(*old(queue)), item),
    no_unwind
{
    queue.enqueue(item).is_ok()
}

/// Relies on heapless's `MpMcQueue::dequeue`: with no other user of the queue,
/// the oldest item is removed and returned; an empty queue gives `None`.
#[verifier::external_body]
fn queue_dequeue(queue: &mut BusQueue) -> (r: Option<Busses>)
    ensures
        bus_messages(*old(queue)).len() == 0 ==> r.is_none() && bus_messages(*final(queue))
            == bus_messages(*old(queue)),
        bus_messages(*old(queue)).len() > 0 ==> r == Some(bus_messages(*old(queue))[0])
            && bus_messages(*final(queue)) == bus_messages(*old(queue)).drop_first(),
    no_unwind
{
    queue.dequeue()
}

/// A bounded, first-in first-out bus of messages.
pub struct Bus {
    queue: BusQueue,
}

impl Bus {
    #[verifier::type_invariant]
    spec fn bounded(self) -> bool {
        bus_messages(self.queue).len() <= BUS_CAPACITY
    }

    /// The messages waiting, oldest first.
    pub closed spec fn pending(&self) -> Seq<Busses> {
        bus_messages(self.queue)
    }

    /// An empty bus.
    pub fn new() -> (r: Bus)
        ensures
            r.pending() == Seq::<Busses>::empty(),
    {
        let r = Bus { queue: queue_new() };
        assert(r.pending() =~= Seq::<Busses>::empty());
        r
    }

    /// Sends `item`; it is dropped when the bus is full.
    pub fn push(&mut self, item: Busses) -> (r: bool)
        ensures
            r == (old(self).pending().len() < BUS_CAPACITY),
            final(self).pending() == after_send(old(self).pending(), item),
            old(self).pending().len() <= BUS_CAPACITY,
            final(self).pending().len() <= BUS_CAPACITY,
    {
        proof {
            use_type_invariant(&*self);
        }
        queue_enqueue(&mut self.queue, item)
    }

    /// Takes the oldest message, if any.
    pub fn dequeue(&mut self) -> (r: Option<Busses>)
        ensures
            old(self).pending().len() == 0 ==> r.is_none() && final(self).pending()
                == old(self).pending(),
            old(self).pending().len() > 0 ==> r == Some(old(self).pending()[0])
                && final(self).pending() == old(self).pending().drop_first(),
            old(self).pending().len() <= BUS_CAPACITY,
            final(self).pending().len() <= BUS_CAPACITY,
    {
        proof {
            use_type_invariant(&*self);
        }
        queue_dequeue(&mut self.queue)
    }
}

impl McuMsg {
    /// Sends the command to the hardware-facing side.
    pub fn send(self, bus: &mut Bus)
        ensures
            final(bus).pending() == after_send(old(bus).pending(), Busses::ToMcu(self)),
    {
        let _ = bus.push(Busses::ToMcu(self));
    }
}

impl StateMsg {
    /// Sends the event to the state machine.
    pub fn send(self, bus: &mut Bus)
        ensures
            final(bus).pending() == after_send(old(bus).pending(), Busses::ToState(self)),
    {
        let _ = bus.push(Busses::ToState(self));
    }
}

} // verus!
