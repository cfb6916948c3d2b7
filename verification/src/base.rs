use vstd::prelude::*;

verus! {

/// An event code delivered by the widget toolkit. The code `0` is the
/// "no event" sentinel: the value an event slot yields when nothing has
/// been delivered since the last read.
#[derive(Clone, Copy, Debug, PartialEq, Eq, Structural)]
pub struct Event {
    pub bits: i32,
}

impl Event {
    /// Whether this is the "no event" sentinel.
    pub open spec fn is_no_event(self) -> bool {
        self.bits == 0
    }

    /// The sentinel an event slot yields when it is empty.
    pub fn no_event() -> (e: Event)
        ensures
            e.is_no_event(),
    {
        Event { bits: 0 }
    }

    /// The event with the given code.
    pub fn from_bits(bits: i32) -> (e: Event)
        ensures
            e.bits == bits,
    {
        Event { bits }
    }
}

/// The capability every listener kind provides: a single slot that a
/// toolkit hook fills and that a read drains back to its empty state.
pub trait ValueListener: Sized {
    /// What a read of the slot yields.
    type Value;

    /// Whether nothing has been captured since the last read.
    spec fn is_empty(&self) -> bool;

    /// The value a read returns in the current state.
    spec fn slot(&self) -> Self::Value;

    /// The state a read leaves behind.
    spec fn drained(&self) -> Self;

    /// A listener that has captured nothing yet.
    fn new() -> (r: Self)
        ensures
            r.is_empty(),
    ;

    /// Take the stored value, resetting the slot.
    fn value(&mut self) -> (v: Self::Value)
        ensures
            v == old(self).slot(),
            *final(self) == old(self).drained(),
    ;
}

/// A widget wrapped together with the listener that captures what its
/// hooks deliver. The widget itself is only carried; every hook and read
/// goes through the listener in `trig`.
pub struct BaseListenerWidget<T, L> {
    pub widget: T,
    pub trig: L,
}

impl<T, L: ValueListener> BaseListenerWidget<T, L> {
    /// Wrap a widget with a fresh listener whose slot is empty.
    pub fn new(widget: T) -> (r: Self)
        ensures
            r.trig.is_empty(),
            r.widget == widget,
    {
        BaseListenerWidget { widget, trig: L::new() }
    }
}

} // verus!
