use microbit_core::cell::SharedResourceCell;
use microbit_core::event::{dispatch, service, EventChannel, Notification};

#[test]
fn dispatch_on_empty_cell_does_nothing() {
    let mut cell: SharedResourceCell<EventChannel> = SharedResourceCell::new();
    assert_eq!(dispatch(&mut cell), None);
    assert!(!cell.is_installed());
    assert!(cell.get().is_none());
}

#[test]
fn dispatch_on_triggered_channel_notifies_once_and_rearms() {
    let mut cell = SharedResourceCell::new();
    let mut ch = EventChannel::new();
    ch.edge();
    assert!(cell.install(ch).is_none());
    assert_eq!(dispatch(&mut cell), Some(Notification::ButtonPressed));
    assert!(!cell.get().unwrap().is_event_triggered());
    assert_eq!(dispatch(&mut cell), None);
}

#[test]
fn dispatch_on_armed_channel_is_silent() {
    let mut cell = SharedResourceCell::new();
    assert!(cell.install(EventChannel::new()).is_none());
    assert_eq!(dispatch(&mut cell), None);
    assert!(!cell.get().unwrap().is_event_triggered());
}

#[test]
fn each_edge_gets_its_own_notification() {
    let mut cell = SharedResourceCell::new();
    assert!(cell.install(EventChannel::new()).is_none());
    for _ in 0..3 {
        cell.get_mut().unwrap().edge();
        assert_eq!(dispatch(&mut cell), Some(Notification::ButtonPressed));
    }
}

#[test]
fn second_install_is_refused() {
    let mut cell = SharedResourceCell::new();
    assert_eq!(cell.install(7u32), None);
    assert_eq!(cell.install(9u32), Some(9));
    assert_eq!(cell.get(), Some(&7));
}

#[test]
fn service_reads_observed_flag() {
    let mut ch = EventChannel::observed(true);
    assert!(ch.is_event_triggered());
    assert_eq!(service(&mut ch), Some(Notification::ButtonPressed));
    assert!(!ch.is_event_triggered());
    let mut idle = EventChannel::observed(false);
    assert_eq!(service(&mut idle), None);
    ch.edge();
    ch.reset_events();
    assert!(!ch.is_event_triggered());
}

#[test]
fn notification_text() {
    assert_eq!(Notification::ButtonPressed.message(), "Button A pressed!");
}
