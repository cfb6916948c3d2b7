use vstd::prelude::*;
use crate::base::{BaseListenerWidget, Event, ValueListener};

verus! {

/// The blocking widget listener; the same type as [`ListenerWidget`].
pub type Listener<T> = BaseListenerWidget<T, DualListener>;

/// A widget listener that captures both `triggered: bool` through
/// [`ListenerWidget::triggered`] and an [`Event`] through
/// [`ListenerWidget::event`]. This combines [`TriggeredWidget`] and
/// [`EventWidget`].
pub type ListenerWidget<T> = BaseListenerWidget<T, DualListener>;

/// A widget listener that captures `triggered: bool` through
/// [`TriggeredWidget::triggered`]; the widget's activation callback is
/// registered to call [`TriggeredListener::fire`].
pub type TriggeredWidget<T> = BaseListenerWidget<T, TriggeredListener>;

/// A widget listener that captures an [`Event`] through
/// [`EventWidget::event`]; the widget's event handler is registered to
/// call [`EventListener::deliver`].
pub type EventWidget<T> = BaseListenerWidget<T, EventListener>;

/// Captures whether the widget's activation callback has fired since the
/// last read.
#[derive(Debug, Clone)]
pub struct TriggeredListener {
    triggered: bool,
}

impl TriggeredListener {
    /// The state the activation hook leaves behind.
    pub closed spec fn fired(self) -> TriggeredListener {
        TriggeredListener { triggered: true }
    }

    /// The body of the registered activation callback: record that the
    /// widget was triggered.
    pub fn fire(&mut self)
        ensures
            *final(self) == old(self).fired(),
    {
        self.triggered = true;
    }
}

impl ValueListener for TriggeredListener {
    type Value = bool;

    closed spec fn is_empty(&self) -> bool {
        !self.triggered
    }

    closed spec fn slot(&self) -> bool {
        self.triggered
    }

    closed spec fn drained(&self) -> TriggeredListener {
        TriggeredListener { triggered: false }
    }

    fn new() -> (r: Self)
        ensures
            r.is_empty(),
    {
        TriggeredListener { triggered: false }
    }

    fn value(&mut self) -> (v: bool)
        ensures
            v == old(self).slot(),
            *final(self) == old(self).drained(),
    {
        let v = self.triggered;
        self.triggered = false;
        v
    }
}

/// Captures the last event delivered to the widget's event handler.
#[derive(Debug, Clone)]
pub struct EventListener {
    event: Event,
}

impl EventListener {
    /// The state the event handler hook leaves behind after receiving `e`.
    pub closed spec fn delivered(self, e: Event) -> EventListener {
        EventListener { event: e }
    }

    /// The body of the registered event handler: overwrite the slot with
    /// the newest event. The blocking handler reports every event as
    /// consumed.
    pub fn deliver(&mut self, e: Event) -> (consumed: bool)
        ensures
            *final(self) == old(self).delivered(e),
            consumed,
    {
        self.event = e;
        true
    }
}

impl ValueListener for EventListener {
    type Value = Event;

    closed spec fn is_empty(&self) -> bool {
        self.event.is_no_event()
    }

    closed spec fn slot(&self) -> Event {
        self.event
    }

    closed spec fn drained(&self) -> EventListener {
        EventListener { event: Event { bits: 0 } }
    }

    fn new() -> (r: Self)
        ensures
            r.is_empty(),
    {
        EventListener { event: Event::no_event() }
    }

    fn value(&mut self) -> (v: Event)
        ensures
            v == old(self).slot(),
            *final(self) == old(self).drained(),
    {
        let v = self.event;
        self.event = Event::no_event();
        v
    }
}

/// Captures both the triggered flag and the last event, in two slots that
/// the hooks and the reads touch independently.
#[derive(Debug, Clone)]
pub struct DualListener(TriggeredListener, EventListener);

impl DualListener {
    /// The triggered slot.
    pub closed spec fn triggered_part(self) -> TriggeredListener {
        self.0
    }

    /// The event slot.
    pub closed spec fn event_part(self) -> EventListener {
        self.1
    }

    /// The state the activation hook leaves behind: only the triggered
    /// slot changes.
    pub closed spec fn fired(self) -> DualListener {
        DualListener(self.0.fired(), self.1)
    }

    /// The state the event handler hook leaves behind: only the event
    /// slot changes.
    pub closed spec fn delivered(self, e: Event) -> DualListener {
        DualListener(self.0, self.1.delivered(e))
    }

    /// The state a read of the triggered slot leaves behind.
    pub closed spec fn triggered_drained(self) -> DualListener {
        DualListener(self.0.drained(), self.1)
    }

    /// The state a read of the event slot leaves behind.
    pub closed spec fn event_drained(self) -> DualListener {
        DualListener(self.0, self.1.drained())
    }

    /// The body of the registered activation callback.
    pub fn fire(&mut self)
        ensures
            *final(self) == old(self).fired(),
    {
        self.0.fire();
    }

    /// The body of the registered event handler.
    pub fn deliver(&mut self, e: Event) -> (consumed: bool)
        ensures
            *final(self) == old(self).delivered(e),
            consumed,
    {
        self.1.deliver(e)
    }

    /// Drain the triggered slot; the event slot is untouched.
    pub fn triggered(&mut self) -> (v: bool)
        ensures
            v == old(self).triggered_part().slot(),
            *final(self) == old(self).triggered_drained(),
    {
        self.0.value()
    }

    /// Drain the event slot; the triggered slot is untouched.
    pub fn event(&mut self) -> (v: Event)
        ensures
            v == old(self).event_part().slot(),
            *final(self) == old(self).event_drained(),
    {
        self.1.value()
    }
}

impl ValueListener for DualListener {
    type Value = ();

    closed spec fn is_empty(&self) -> bool {
        self.0.is_empty() && self.1.is_empty()
    }

    closed spec fn slot(&self) -> () {
        ()
    }

    closed spec fn drained(&self) -> DualListener {
        *self
    }

    fn new() -> (r: Self)
        ensures
            r.is_empty(),
    {
        DualListener(TriggeredListener::new(), EventListener::new())
    }

    /// A dual listener has no single slot of its own; its two slots are
    /// read through [`ListenerWidget::triggered`] and
    /// [`ListenerWidget::event`]. Reading it as a single slot yields
    /// nothing and changes nothing.
    fn value(&mut self) -> (v: ())
        ensures
            v == old(self).slot(),
            *final(self) == old(self).drained(),
    {
    }
}

impl<T> TriggeredWidget<T> {
    /// Check whether the widget was triggered since the last check; the
    /// flag is cleared by the read.
    pub fn triggered(&mut self) -> (v: bool)
        ensures
            v == old(self).trig.slot(),
            final(self).trig == old(self).trig.drained(),
            final(self).widget == old(self).widget,
    {
        self.trig.value()
    }
}

impl<T> EventWidget<T> {
    /// Get the last event the widget received; returns the "no event"
    /// sentinel if none was received since the last read, and resets the
    /// slot to that sentinel.
    pub fn event(&mut self) -> (v: Event)
        ensures
            v == old(self).trig.slot(),
            final(self).trig == old(self).trig.drained(),
            final(self).widget == old(self).widget,
    {
        self.trig.value()
    }
}

impl<T> ListenerWidget<T> {
    /// Check whether the widget was triggered since the last check. Only
    /// the triggered slot is cleared; the event slot is untouched.
    pub fn triggered(&mut self) -> (v: bool)
        ensures
            v == old(self).trig.triggered_part().slot(),
            final(self).trig == old(self).trig.triggered_drained(),
            final(self).widget == old(self).widget,
    {
        self.trig.triggered()
    }

    /// Get the last event the widget received; returns the "no event"
    /// sentinel if none was received since the last read. Only the event
    /// slot is reset; the triggered slot is untouched.
    pub fn event(&mut self) -> (v: Event)
        ensures
            v == old(self).trig.event_part().slot(),
            final(self).trig == old(self).trig.event_drained(),
            final(self).widget == old(self).widget,
    {
        self.trig.event()
    }
}

/// An empty triggered slot reads as `false`: a freshly constructed
/// listener, or one whose flag was just drained, reports no trigger.
pub proof fn lemma_empty_triggered_reads_false(l: TriggeredListener)
    requires
        l.is_empty(),
    ensures
        !l.slot(),
{
}

/// An empty event slot reads as the "no event" sentinel: a freshly
/// constructed listener, or one just drained, reports no event.
pub proof fn lemma_empty_event_reads_sentinel(l: EventListener)
    requires
        l.is_empty(),
    ensures
        l.slot().is_no_event(),
{
}

/// One activation is observed by exactly one read: after the activation
/// hook fires, the first read returns `true` and leaves the slot empty,
/// so a second read, with no activation in between, returns `false`.
pub proof fn lemma_triggered_observed_once(l: TriggeredListener)
    ensures
        l.fired().slot(),
        l.fired().drained().is_empty(),
        !l.fired().drained().slot(),
{
}

/// One delivered event is observed by exactly one read: after the handler
/// hook receives `e`, the first read returns `e` and leaves the slot
/// empty, so a second read, with no delivery in between, returns the
/// sentinel.
pub proof fn lemma_event_observed_once(l: EventListener, e: Event)
    ensures
        l.delivered(e).slot() == e,
        l.delivered(e).drained().is_empty(),
        l.delivered(e).drained().slot().is_no_event(),
{
}

/// The slot is last-write-wins: delivering `e1` and then `e2` before any
/// read leaves the listener exactly as if only `e2` had arrived, so `e1`
/// is unobservable. Losing the earlier event is intended behavior.
pub proof fn lemma_event_last_write_wins(l: EventListener, e1: Event, e2: Event)
    ensures
        l.delivered(e1).delivered(e2) == l.delivered(e2),
        l.delivered(e1).delivered(e2).slot() == e2,
{
}

/// An empty dual listener has both of its slots empty.
pub proof fn lemma_dual_empty_parts(d: DualListener)
    requires
        d.is_empty(),
    ensures
        d.triggered_part().is_empty(),
        d.event_part().is_empty(),
{
}

/// The two slots of a dual listener are independent: firing the
/// activation hook, delivering an event, and draining either slot each
/// leave the other slot exactly as it was.
pub proof fn lemma_dual_slots_independent(d: DualListener, e: Event)
    ensures
        d.fired().event_part() == d.event_part(),
        d.delivered(e).triggered_part() == d.triggered_part(),
        d.triggered_drained().event_part() == d.event_part(),
        d.event_drained().triggered_part() == d.triggered_part(),
        d.fired().triggered_part() == d.triggered_part().fired(),
        d.delivered(e).event_part() == d.event_part().delivered(e),
{
}

} // verus!
