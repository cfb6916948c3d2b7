use fltk_evented::base::{BaseListenerWidget, Event};
use fltk_evented::blocking::{EventWidget, ListenerWidget, TriggeredWidget};

/// A stand-in for a toolkit widget: the wrapper only carries it.
#[derive(Debug, Clone, Copy, PartialEq, Eq)]
struct DummyWidget {
    id: u32,
}

#[test]
fn fresh_triggered_reads_false() {
    let mut w: TriggeredWidget<DummyWidget> = BaseListenerWidget::new(DummyWidget { id: 1 });
    assert!(!w.triggered());
    assert!(!w.triggered());
}

#[test]
fn fresh_event_reads_sentinel() {
    let mut w: EventWidget<DummyWidget> = BaseListenerWidget::new(DummyWidget { id: 2 });
    assert_eq!(w.event(), Event::no_event());
    assert_eq!(w.event(), Event::no_event());
}

#[test]
fn fresh_dual_reads_empty() {
    let mut w: ListenerWidget<DummyWidget> = BaseListenerWidget::new(DummyWidget { id: 3 });
    assert!(!w.triggered());
    assert_eq!(w.event(), Event::no_event());
}

#[test]
fn triggered_observed_exactly_once() {
    let mut w: TriggeredWidget<DummyWidget> = BaseListenerWidget::new(DummyWidget { id: 4 });
    w.trig.fire();
    assert!(w.triggered());
    assert!(!w.triggered());
}

#[test]
fn repeated_fires_before_read_observed_once() {
    let mut w: TriggeredWidget<DummyWidget> = BaseListenerWidget::new(DummyWidget { id: 5 });
    w.trig.fire();
    w.trig.fire();
    assert!(w.triggered());
    assert!(!w.triggered());
}

#[test]
fn event_observed_exactly_once() {
    let mut w: EventWidget<DummyWidget> = BaseListenerWidget::new(DummyWidget { id: 6 });
    let push = Event::from_bits(1);
    let consumed = w.trig.deliver(push);
    assert!(consumed);
    assert_eq!(w.event(), push);
    assert_eq!(w.event(), Event::no_event());
}

#[test]
fn event_last_write_wins() {
    let mut w: EventWidget<DummyWidget> = BaseListenerWidget::new(DummyWidget { id: 7 });
    let push = Event::from_bits(1);
    let released = Event::from_bits(2);
    w.trig.deliver(push);
    w.trig.deliver(released);
    // Only the newest event survives: the earlier one is lost by design.
    assert_eq!(w.event(), released);
    assert_eq!(w.event(), Event::no_event());
}

#[test]
fn dual_slots_independent() {
    let mut w: ListenerWidget<DummyWidget> = BaseListenerWidget::new(DummyWidget { id: 8 });
    let push = Event::from_bits(1);
    w.trig.fire();
    w.trig.deliver(push);
    // Reading the event first leaves the triggered flag alone.
    assert_eq!(w.event(), push);
    assert!(w.triggered());
    // And the other way round.
    w.trig.deliver(push);
    w.trig.fire();
    assert!(w.triggered());
    assert_eq!(w.event(), push);
}

#[test]
fn dual_deliver_reports_consumed() {
    let mut w: ListenerWidget<DummyWidget> = BaseListenerWidget::new(DummyWidget { id: 9 });
    assert!(w.trig.deliver(Event::from_bits(3)));
}

#[test]
fn widget_is_carried_unchanged() {
    let mut w: ListenerWidget<DummyWidget> = BaseListenerWidget::new(DummyWidget { id: 10 });
    w.trig.fire();
    w.trig.deliver(Event::from_bits(4));
    let _ = w.triggered();
    let _ = w.event();
    assert_eq!(w.widget, DummyWidget { id: 10 });
}

#[test]
fn event_codes_round_trip() {
    let e = Event::from_bits(12);
    assert_eq!(e.bits, 12);
    assert_ne!(e, Event::no_event());
    assert_eq!(Event::no_event().bits, 0);
}
