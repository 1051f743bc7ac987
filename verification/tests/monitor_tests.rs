use udev::AsRaw;
use udev::AsRawWithContext;
use udev::Device;
use udev::DeviceInfo;
use udev::Entry;
use udev::ErrorKind;
use udev::EventType;
use udev::FromRaw;
use udev::FromRawWithContext;
use udev::MonitorBuilder;
use udev::Udev;

fn builder() -> MonitorBuilder {
    MonitorBuilder::with_udev(Udev::from_raw(0x1000), 0x7000)
}

fn event_device(action: Option<&str>, seqnum: u64) -> Device {
    let mut info = DeviceInfo::empty();
    info.sysname = "sda".to_string();
    info.subsystem = Some("block".to_string());
    info.action = action.map(|a| a.to_string());
    info.seqnum = seqnum;
    if let Some(a) = action {
        info.properties = vec![Entry { name: "ACTION".to_string(), value: Some(a.to_string()) }];
    }
    Device::from_raw(Udev::from_raw(0x1000), 0x2000, info, None)
}

#[test]
fn builder_chains_and_listen_freezes_the_filters() {
    // A monitor filtered on one subsystem and devtype, then listening.
    let socket = builder()
        .match_subsystem_devtype("block", "disk")
        .unwrap()
        .listen(0, 7)
        .unwrap();
    // The socket's file descriptor is non-negative, and the Socket type
    // offers no filter calls: the filters are frozen by construction.
    assert!(socket.as_raw_fd() >= 0);
    assert_eq!(socket.as_raw_fd(), 7);
    assert_eq!(socket.as_raw(), 0x7000);
}

#[test]
fn listen_failure_consumes_the_attempt() {
    match builder().listen(-12, 0) {
        Err(e) => assert_eq!(e.kind(), ErrorKind::NoMem),
        Ok(_) => panic!("a failed enabling must be an error"),
    }
    match builder().listen(-22, 0) {
        Err(e) => assert_eq!(e.kind(), ErrorKind::InvalidInput),
        Ok(_) => panic!("a failed enabling must be an error"),
    }
}

#[test]
fn filter_calls_reject_interior_nul() {
    match builder().match_subsystem("blo\0ck") {
        Err(e) => assert_eq!(e.kind(), ErrorKind::InvalidInput),
        Ok(_) => panic!("an interior NUL must be rejected"),
    }
    match builder().match_subsystem_devtype("block", "di\0sk") {
        Err(e) => assert_eq!(e.kind(), ErrorKind::InvalidInput),
        Ok(_) => panic!("an interior NUL must be rejected"),
    }
    match builder().match_tag("\0") {
        Err(e) => assert_eq!(e.kind(), ErrorKind::InvalidInput),
        Ok(_) => panic!("an interior NUL must be rejected"),
    }
}

#[test]
fn clear_filters_then_listen_still_works() {
    let socket = builder()
        .match_subsystem("block")
        .unwrap()
        .match_tag("seat")
        .unwrap()
        .clear_filters()
        .unwrap()
        .listen(0, 3)
        .unwrap();
    assert_eq!(socket.as_raw_fd(), 3);
}

#[test]
fn no_pending_event_reads_as_no_event() {
    // A socket with no filters and nothing queued: the next event is none,
    // returned at once — the read never blocks.
    let socket = builder().listen(0, 5).unwrap();
    assert!(socket.next_event(None).is_none());
}

#[test]
fn a_received_device_becomes_its_event() {
    let socket = builder().listen(0, 5).unwrap();
    let ev = socket.next_event(Some(event_device(Some("add"), 41))).unwrap();
    assert_eq!(ev.event_type(), EventType::Add);
    assert_eq!(ev.sequence_number(), 41);
    assert_eq!(ev.device().sysname(), "sda");
}

#[test]
fn event_type_classifies_each_action() {
    let socket = builder().listen(0, 5).unwrap();
    let cases = [
        ("add", EventType::Add),
        ("change", EventType::Change),
        ("remove", EventType::Remove),
        ("bind", EventType::Bind),
        ("unbind", EventType::Unbind),
        ("move", EventType::Unknown),
        ("", EventType::Unknown),
    ];
    for (action, expected) in cases {
        let ev = socket.next_event(Some(event_device(Some(action), 1))).unwrap();
        assert_eq!(ev.event_type(), expected);
    }
    // A device without an action property gives the unknown event type.
    let ev = socket.next_event(Some(event_device(None, 1))).unwrap();
    assert_eq!(ev.event_type(), EventType::Unknown);
}

#[test]
fn labels_read_back_as_their_event_type() {
    let socket = builder().listen(0, 5).unwrap();
    let kinds = [
        EventType::Add,
        EventType::Change,
        EventType::Remove,
        EventType::Bind,
        EventType::Unbind,
        EventType::Unknown,
    ];
    for kind in kinds {
        let ev = socket.next_event(Some(event_device(Some(kind.label()), 1))).unwrap();
        assert_eq!(ev.event_type(), kind);
    }
}

#[test]
fn labels_spell_the_kernel_actions() {
    assert_eq!(EventType::Add.label(), "add");
    assert_eq!(EventType::Change.label(), "change");
    assert_eq!(EventType::Remove.label(), "remove");
    assert_eq!(EventType::Bind.label(), "bind");
    assert_eq!(EventType::Unbind.label(), "unbind");
    assert_eq!(EventType::Unknown.label(), "unknown");
}

#[test]
fn the_default_event_type_is_unknown() {
    assert_eq!(EventType::default(), EventType::Unknown);
}

#[test]
fn builder_round_trip_to_raw_pointers() {
    let b = builder();
    let (udev_addr, addr) = b.into_raw_with_context();
    let b = MonitorBuilder::from_raw_with_context(udev_addr, addr);
    assert_eq!(b.as_raw(), addr);
    assert_eq!(b.udev().addr, udev_addr);
}
