use fltk_evented::asynch::{EventWidget, ListenerWidget, TriggeredWidget};
use fltk_evented::base::{BaseListenerWidget, Event};

#[test]
fn async_fresh_reads_empty() {
    let mut t: TriggeredWidget<u32> = BaseListenerWidget::new(11);
    assert!(!t.triggered());
    let mut e: EventWidget<u32> = BaseListenerWidget::new(12);
    assert_eq!(e.event(), Event::no_event());
}

#[test]
fn async_triggered_observed_exactly_once() {
    let mut w: TriggeredWidget<u32> = BaseListenerWidget::new(13);
    w.trig.fire();
    assert!(w.triggered());
    assert!(!w.triggered());
}

#[test]
fn async_event_observed_exactly_once() {
    let mut w: EventWidget<u32> = BaseListenerWidget::new(14);
    let push = Event::from_bits(1);
    let consumed = w.trig.deliver(push);
    // The async handler leaves events unconsumed so the toolkit keeps
    // routing them.
    assert!(!consumed);
    assert_eq!(w.event(), push);
    assert_eq!(w.event(), Event::no_event());
}

#[test]
fn async_event_last_write_wins() {
    let mut w: EventWidget<u32> = BaseListenerWidget::new(15);
    w.trig.deliver(Event::from_bits(1));
    w.trig.deliver(Event::from_bits(2));
    assert_eq!(w.event(), Event::from_bits(2));
    assert_eq!(w.event(), Event::no_event());
}

#[test]
fn async_dual_slots_independent() {
    let mut w: ListenerWidget<u32> = BaseListenerWidget::new(16);
    let push = Event::from_bits(1);
    w.trig.fire();
    w.trig.deliver(push);
    assert_eq!(w.event(), push);
    assert!(w.triggered());
    w.trig.deliver(push);
    w.trig.fire();
    assert!(w.triggered());
    assert_eq!(w.event(), push);
}

#[test]
fn async_event_code_survives_raw_storage() {
    // The async slot stores the raw code, as the shared atomic word does
    // in the registration glue; the read must rebuild the same event.
    let mut w: EventWidget<u32> = BaseListenerWidget::new(17);
    w.trig.deliver(Event::from_bits(-5));
    assert_eq!(w.event().bits, -5);
}
