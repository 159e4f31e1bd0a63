use shadow_descriptor::cshadow::CCall;
use shadow_descriptor::cshadow::CShadow;
use shadow_descriptor::event_queue::EventQueue;
use shadow_descriptor::event_queue::EventSource;
use shadow_descriptor::flags::FileStatus;
use shadow_descriptor::listener::LegacyStatusListener;
use shadow_descriptor::listener::NewStatusListenerFilter;
use shadow_descriptor::listener::Notification;
use shadow_descriptor::listener::NotifyFn;
use shadow_descriptor::listener::StatusListener;
use shadow_descriptor::status_source::LegacyListenerHelper;
use shadow_descriptor::status_source::StatusEventSource;

fn run_all(queue: &mut EventQueue, c: &mut CShadow) -> Vec<Notification> {
    let mut notifications = Vec::new();
    while let Some(event) = queue.pop() {
        if let Some(notification) = event.run(c) {
            notifications.push(notification);
        }
        event.release(c);
    }
    notifications
}

fn notified(
    filter: NewStatusListenerFilter,
    monitoring: FileStatus,
    status: FileStatus,
    changed: FileStatus,
) -> bool {
    let listener = StatusListener { monitoring, filter, notify_fn: NotifyFn { id: 1 } };
    listener.on_status_changed(status, changed).is_some()
}

#[test]
fn filters_pick_the_changes() {
    let readable = FileStatus::READABLE();
    let writable = FileStatus::WRITABLE();
    let none = FileStatus::empty();

    // turned on
    assert!(notified(NewStatusListenerFilter::OffToOn, readable, readable, readable));
    assert!(!notified(NewStatusListenerFilter::OnToOff, readable, readable, readable));
    assert!(notified(NewStatusListenerFilter::Always, readable, readable, readable));
    assert!(!notified(NewStatusListenerFilter::Never, readable, readable, readable));

    // turned off
    assert!(!notified(NewStatusListenerFilter::OffToOn, readable, none, readable));
    assert!(notified(NewStatusListenerFilter::OnToOff, readable, none, readable));
    assert!(notified(NewStatusListenerFilter::Always, readable, none, readable));
    assert!(!notified(NewStatusListenerFilter::Never, readable, none, readable));

    // another bit changed
    assert!(!notified(NewStatusListenerFilter::OffToOn, readable, readable, writable));
    assert!(!notified(NewStatusListenerFilter::OnToOff, readable, none, writable));
    assert!(!notified(NewStatusListenerFilter::Always, readable, readable, writable));
}

#[test]
fn one_monitored_bit_that_is_on_decides() {
    let both = FileStatus::READABLE().union(FileStatus::WRITABLE());
    // readable went off, writable is still on
    let status = FileStatus::WRITABLE();
    let changed = FileStatus::READABLE();
    assert!(notified(NewStatusListenerFilter::OffToOn, both, status, changed));
    assert!(!notified(NewStatusListenerFilter::OnToOff, both, status, changed));
}

#[test]
fn each_listener_is_told_in_order() {
    let mut c = CShadow::new();
    let mut queue = EventQueue::new();
    let mut source = StatusEventSource::new();
    let active = FileStatus::ACTIVE();
    let _first = source.add_listener(active, NewStatusListenerFilter::Always, NotifyFn { id: 10 });
    source.add_legacy_listener(0x1000, &mut c);
    let _second = source.add_listener(active, NewStatusListenerFilter::OnToOff, NotifyFn { id: 20 });
    let _third = source.add_listener(active, NewStatusListenerFilter::OffToOn, NotifyFn { id: 30 });

    source.notify_listeners(active, active, &mut queue, &mut c);
    assert_eq!(queue.len(), 4);
    let told: Vec<u64> = run_all(&mut queue, &mut c).iter().map(|n| n.notify_fn.id).collect();
    assert_eq!(told, vec![10, 30]);
    assert_eq!(
        c.take_calls(),
        vec![
            CCall::StatusListenerRef { ptr: 0x1000 },
            CCall::StatusListenerOnStatusChanged { ptr: 0x1000, status: 1, changed: 1 },
        ]
    );
}

#[test]
fn notification_has_the_status_and_the_changed_bits() {
    let mut c = CShadow::new();
    let mut queue = EventQueue::new();
    let mut source = StatusEventSource::new();
    let status = FileStatus::ACTIVE().union(FileStatus::READABLE());
    let _handle = source.add_listener(
        FileStatus::READABLE(),
        NewStatusListenerFilter::OffToOn,
        NotifyFn { id: 5 },
    );
    source.notify_listeners(status, FileStatus::READABLE(), &mut queue, &mut c);
    assert_eq!(
        run_all(&mut queue, &mut c),
        vec![Notification {
            notify_fn: NotifyFn { id: 5 },
            status,
            changed: FileStatus::READABLE()
        }]
    );
}

#[test]
fn removed_function_is_not_told() {
    let mut c = CShadow::new();
    let mut queue = EventQueue::new();
    let mut source = StatusEventSource::new();
    let active = FileStatus::ACTIVE();
    let first = source.add_listener(active, NewStatusListenerFilter::Always, NotifyFn { id: 1 });
    let second = source.add_listener(active, NewStatusListenerFilter::Always, NotifyFn { id: 2 });
    assert!(source.remove_listener(first));
    source.notify_listeners(active, active, &mut queue, &mut c);
    // an event that is already queued stays
    assert!(source.remove_listener(second));
    let told: Vec<u64> = run_all(&mut queue, &mut c).iter().map(|n| n.notify_fn.id).collect();
    assert_eq!(told, vec![2]);
    source.notify_listeners(active, active, &mut queue, &mut c);
    assert_eq!(queue.len(), 0);
}

#[test]
fn handle_of_another_source_does_not_remove_a_c_listener() {
    let mut c = CShadow::new();
    let mut other = StatusEventSource::new();
    let handle = other.add_listener(
        FileStatus::ACTIVE(),
        NewStatusListenerFilter::Always,
        NotifyFn { id: 1 },
    );
    let mut source = StatusEventSource::new();
    source.add_legacy_listener(8, &mut c);
    assert!(!source.remove_listener(handle));
    let mut queue = EventQueue::new();
    source.notify_listeners(FileStatus::ACTIVE(), FileStatus::ACTIVE(), &mut queue, &mut c);
    assert_eq!(queue.len(), 1);
}

#[test]
fn c_listener_is_added_once() {
    let mut c = CShadow::new();
    let mut queue = EventQueue::new();
    let mut source = StatusEventSource::new();
    source.add_legacy_listener(0x10, &mut c);
    source.add_legacy_listener(0x10, &mut c);
    source.add_legacy_listener(0x20, &mut c);
    assert_eq!(
        c.take_calls(),
        vec![
            CCall::StatusListenerRef { ptr: 0x10 },
            CCall::StatusListenerRef { ptr: 0x20 },
        ]
    );
    source.notify_listeners(FileStatus::CLOSED(), FileStatus::CLOSED(), &mut queue, &mut c);
    assert_eq!(queue.len(), 2);
}

#[test]
fn removal_gives_the_reference_back() {
    let mut c = CShadow::new();
    let mut source = StatusEventSource::new();
    source.add_legacy_listener(0x10, &mut c);
    source.add_legacy_listener(0x20, &mut c);
    c.take_calls();
    source.remove_legacy_listener(0x10, &mut c);
    assert_eq!(c.take_calls(), vec![CCall::StatusListenerUnref { ptr: 0x10 }]);
    // it is not there any more
    source.remove_legacy_listener(0x10, &mut c);
    assert_eq!(c.take_calls(), vec![]);
    // and can come back
    source.add_legacy_listener(0x10, &mut c);
    assert_eq!(c.take_calls(), vec![CCall::StatusListenerRef { ptr: 0x10 }]);
}

#[test]
fn queued_event_keeps_the_reference() {
    let mut c = CShadow::new();
    let mut queue = EventQueue::new();
    let mut source = StatusEventSource::new();
    source.add_legacy_listener(0x10, &mut c);
    source.notify_listeners(FileStatus::ACTIVE(), FileStatus::ACTIVE(), &mut queue, &mut c);
    source.notify_listeners(FileStatus::CLOSED(), FileStatus::ACTIVE(), &mut queue, &mut c);
    c.take_calls();
    source.remove_legacy_listener(0x10, &mut c);
    assert_eq!(c.take_calls(), vec![]);
    // a new subscription has a reference of its own
    source.add_legacy_listener(0x10, &mut c);
    assert_eq!(c.take_calls(), vec![CCall::StatusListenerRef { ptr: 0x10 }]);
    run_all(&mut queue, &mut c);
    assert_eq!(
        c.take_calls(),
        vec![
            CCall::StatusListenerOnStatusChanged { ptr: 0x10, status: 1, changed: 1 },
            CCall::StatusListenerOnStatusChanged { ptr: 0x10, status: 8, changed: 1 },
            CCall::StatusListenerUnref { ptr: 0x10 },
        ]
    );
}

#[test]
fn source_that_goes_away_gives_its_references_back() {
    let mut c = CShadow::new();
    let mut source = StatusEventSource::new();
    source.add_legacy_listener(0x30, &mut c);
    let _handle = source.add_listener(
        FileStatus::ACTIVE(),
        NewStatusListenerFilter::Always,
        NotifyFn { id: 1 },
    );
    source.add_legacy_listener(0x10, &mut c);
    c.take_calls();
    source.release(&mut c);
    assert_eq!(
        c.take_calls(),
        vec![
            CCall::StatusListenerUnref { ptr: 0x30 },
            CCall::StatusListenerUnref { ptr: 0x10 },
        ]
    );
}

#[test]
fn holder_knows_the_address() {
    let mut c = CShadow::new();
    let listener = LegacyStatusListener::new(0x77, &mut c);
    assert_eq!(listener.ptr(), 0x77);
    let shared = listener.share(&mut c);
    listener.release(&mut c);
    assert_eq!(c.take_calls(), vec![CCall::StatusListenerRef { ptr: 0x77 }]);
    assert_eq!(shared.ptr(), 0x77);
    shared.release(&mut c);
    assert_eq!(c.take_calls(), vec![CCall::StatusListenerUnref { ptr: 0x77 }]);
}

#[test]
fn running_event_keeps_the_reference() {
    let mut c = CShadow::new();
    let mut queue = EventQueue::new();
    let mut source = StatusEventSource::new();
    source.add_legacy_listener(0x10, &mut c);
    source.notify_listeners(FileStatus::ACTIVE(), FileStatus::ACTIVE(), &mut queue, &mut c);
    c.take_calls();
    let event = queue.pop().unwrap();
    assert!(event.run(&mut c).is_none());
    assert_eq!(
        c.take_calls(),
        vec![CCall::StatusListenerOnStatusChanged { ptr: 0x10, status: 1, changed: 1 }]
    );
    // the listener removes itself while it is called
    source.remove_legacy_listener(0x10, &mut c);
    assert_eq!(c.take_calls(), vec![]);
    event.release(&mut c);
    assert_eq!(c.take_calls(), vec![CCall::StatusListenerUnref { ptr: 0x10 }]);
}

#[test]
fn each_c_listener_is_told_once_for_each_change() {
    let mut c = CShadow::new();
    let mut queue = EventQueue::new();
    let mut source = StatusEventSource::new();
    source.add_legacy_listener(0x10, &mut c);
    source.add_legacy_listener(0x20, &mut c);
    source.add_legacy_listener(0x10, &mut c);
    source.remove_legacy_listener(0x20, &mut c);
    source.add_legacy_listener(0x20, &mut c);
    c.take_calls();
    source.notify_listeners(FileStatus::CLOSED(), FileStatus::CLOSED(), &mut queue, &mut c);
    run_all(&mut queue, &mut c);
    assert_eq!(
        c.take_calls(),
        vec![
            CCall::StatusListenerOnStatusChanged { ptr: 0x10, status: 8, changed: 8 },
            CCall::StatusListenerOnStatusChanged { ptr: 0x20, status: 8, changed: 8 },
        ]
    );
}

#[test]
fn helper_goes_by_its_own_handles() {
    let mut c = CShadow::new();
    let mut helper = LegacyListenerHelper::new();
    let mut source = EventSource::new();
    helper.add_listener(0x10, &mut source, &mut c);
    assert_eq!(c.take_calls(), vec![CCall::StatusListenerRef { ptr: 0x10 }]);
    // it has this one already, whatever source it is given
    let mut other = EventSource::new();
    helper.add_listener(0x10, &mut other, &mut c);
    assert_eq!(c.take_calls(), vec![]);
    // and it has never had that one
    helper.remove_listener(0x20, &mut source, &mut c);
    assert_eq!(c.take_calls(), vec![]);
    helper.remove_listener(0x10, &mut source, &mut c);
    assert_eq!(c.take_calls(), vec![CCall::StatusListenerUnref { ptr: 0x10 }]);
}
