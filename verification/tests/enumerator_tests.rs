use udev::AsRawWithContext;
use udev::Device;
use udev::DeviceInfo;
use udev::Devices;
use udev::Entry;
use udev::Enumerator;
use udev::ErrorKind;
use udev::FromRaw;
use udev::FromRawWithContext;
use udev::Udev;

fn entry(name: &str, value: Option<&str>) -> Entry {
    Entry { name: name.to_string(), value: value.map(|v| v.to_string()) }
}

fn device(sysname: &str, subsystem: &str, initialized: bool) -> Device {
    let mut info = DeviceInfo::empty();
    info.syspath = format!("/sys/devices/virtual/{}/{}", subsystem, sysname);
    info.subsystem = Some(subsystem.to_string());
    info.sysname = sysname.to_string();
    info.initialized = initialized;
    Device::from_raw(Udev::from_raw(0x1000), 0x2000, info, None)
}

fn enumerator() -> Enumerator {
    Enumerator::with_udev(Udev::from_raw(0x1000), 0x6000)
}

#[test]
fn create_enumerator() {
    let e = enumerator();
    assert_eq!(e.as_raw(), 0x6000);
}

#[test]
fn enumerator_round_trip_to_raw_pointers() {
    let e = enumerator();

    // Round-trip this to raw pointers and back again.
    let (udev_addr, addr) = e.into_raw_with_context();
    let e = Enumerator::from_raw_with_context(udev_addr, addr);

    // Everything still works just the same after round-tripping.
    assert_eq!(e.as_raw(), addr);
    let all = e.scan_collect(&vec![device("tty0", "tty", true)]);
    assert_eq!(all.len(), 1);
}

#[test]
fn match_calls_record_filters_in_order() {
    let mut e = enumerator();
    e.match_is_initialized().unwrap();
    e.match_subsystem("tty").unwrap();
    e.match_sysname("tty0").unwrap();
    e.match_property("ID_BUS", "usb").unwrap();
    e.match_tag("seat").unwrap();
    e.match_attribute("range", "7").unwrap();
    e.nomatch_subsystem("net").unwrap();
    e.nomatch_attribute("removable", "1").unwrap();
    e.add_syspath("/sys/devices/virtual/tty/tty0").unwrap();
    e.match_parent(&device("sda", "block", true)).unwrap();
}

#[test]
fn match_calls_reject_interior_nul() {
    let mut e = enumerator();
    assert_eq!(e.match_subsystem("t\0ty").unwrap_err().kind(), ErrorKind::InvalidInput);
    assert_eq!(e.match_sysname("\0").unwrap_err().kind(), ErrorKind::InvalidInput);
    assert_eq!(e.match_property("A\0", "b").unwrap_err().kind(), ErrorKind::InvalidInput);
    assert_eq!(e.match_property("A", "b\0").unwrap_err().kind(), ErrorKind::InvalidInput);
    assert_eq!(e.match_tag("x\0y").unwrap_err().kind(), ErrorKind::InvalidInput);
    assert_eq!(e.match_attribute("a\0", "1").unwrap_err().kind(), ErrorKind::InvalidInput);
    assert_eq!(e.nomatch_subsystem("\0net").unwrap_err().kind(), ErrorKind::InvalidInput);
    assert_eq!(e.nomatch_attribute("r", "\0").unwrap_err().kind(), ErrorKind::InvalidInput);
    assert_eq!(e.add_syspath("/sys\0").unwrap_err().kind(), ErrorKind::InvalidInput);
    // Nothing was recorded: an unfiltered enumerator keeps every device.
    assert!(e.matches(&device("tty0", "tty", false)));
}

#[test]
fn matches_judges_subsystem_filters_as_alternatives() {
    let mut e = enumerator();
    e.match_subsystem("tty").unwrap();
    e.match_subsystem("block").unwrap();
    assert!(e.matches(&device("tty0", "tty", true)));
    assert!(e.matches(&device("sda", "block", true)));
    assert!(!e.matches(&device("eth0", "net", true)));
}

#[test]
fn matches_requires_initialized_where_asked() {
    let mut e = enumerator();
    e.match_is_initialized().unwrap();
    assert!(e.matches(&device("tty0", "tty", true)));
    assert!(!e.matches(&device("tty0", "tty", false)));
}

#[test]
fn matches_excludes_dropped_subsystems() {
    let mut e = enumerator();
    e.nomatch_subsystem("net").unwrap();
    assert!(e.matches(&device("tty0", "tty", true)));
    assert!(!e.matches(&device("eth0", "net", true)));
}

#[test]
fn matches_requires_every_attribute_filter() {
    let mut e = enumerator();
    e.match_attribute("range", "7").unwrap();
    e.match_attribute("removable", "0").unwrap();
    let mut info = DeviceInfo::empty();
    info.subsystem = Some("block".to_string());
    info.sysname = "sda".to_string();
    info.attributes = vec![entry("range", Some("7")), entry("removable", Some("0"))];
    let d = Device::from_raw(Udev::from_raw(0x1000), 0x2000, info, None);
    assert!(e.matches(&d));

    let mut info = DeviceInfo::empty();
    info.subsystem = Some("block".to_string());
    info.sysname = "sdb".to_string();
    info.attributes = vec![entry("range", Some("7")), entry("removable", Some("1"))];
    let d = Device::from_raw(Udev::from_raw(0x1000), 0x2000, info, None);
    assert!(!e.matches(&d));
}

#[test]
fn matches_accepts_any_property_filter() {
    let mut e = enumerator();
    e.match_property("ID_BUS", "usb").unwrap();
    e.match_property("ID_BUS", "pci").unwrap();
    let mut info = DeviceInfo::empty();
    info.sysname = "sda".to_string();
    info.properties = vec![entry("ID_BUS", Some("pci"))];
    let d = Device::from_raw(Udev::from_raw(0x1000), 0x2000, info, None);
    assert!(e.matches(&d));

    let mut info = DeviceInfo::empty();
    info.sysname = "sdb".to_string();
    info.properties = vec![entry("ID_BUS", Some("ata"))];
    let d = Device::from_raw(Udev::from_raw(0x1000), 0x2000, info, None);
    assert!(!e.matches(&d));
}

#[test]
fn matches_judges_sysname_filters_as_alternatives() {
    let mut e = enumerator();
    e.match_sysname("tty0").unwrap();
    e.match_sysname("tty1").unwrap();
    assert!(e.matches(&device("tty1", "tty", true)));
    assert!(!e.matches(&device("tty2", "tty", true)));
}

#[test]
fn test_enumeration() {
    // Scan for one subsystem: every kept device reports it.
    let mut en = enumerator();
    en.match_is_initialized().unwrap();
    en.match_subsystem("hidraw").unwrap();
    let candidates = vec![
        device("hidraw0", "hidraw", true),
        device("eth0", "net", true),
        device("hidraw1", "hidraw", false),
        device("hidraw2", "hidraw", true),
    ];
    let found = en.scan_collect(&candidates);
    // The count is well defined and the filter kept the matching devices.
    assert_eq!(found.len(), 2);
    for dev in &found {
        assert_eq!(dev.subsystem(), Some("hidraw"));
    }
    assert_eq!(found[0].sysname(), "hidraw0");
    assert_eq!(found[1].sysname(), "hidraw2");
}

#[test]
fn test_enumerate_all() {
    // An unfiltered scan keeps every device, in the candidates' order.
    let mut en = enumerator();
    let candidates = vec![
        device("tty0", "tty", true),
        device("sda", "block", true),
        device("eth0", "net", false),
    ];
    let found = en.scan_collect(&candidates);
    assert_eq!(found.len(), 3);
    assert_eq!(found[0].sysname(), "tty0");
    assert_eq!(found[1].sysname(), "sda");
    assert_eq!(found[2].sysname(), "eth0");
    let r = en.match_is_initialized();
    assert!(r.is_ok());
}

#[test]
fn devices_skips_entries_that_did_not_resolve() {
    let a = device("sda", "block", true);
    let b = device("sdb", "block", true);
    let mut walk = Devices::new(vec![Some(a), None, Some(b), None]);
    assert_eq!(walk.next().unwrap().sysname(), "sda");
    assert_eq!(walk.next().unwrap().sysname(), "sdb");
    assert!(walk.next().is_none());
    assert!(walk.next().is_none());
}

#[test]
fn devices_over_nothing_yields_nothing() {
    let mut walk = Devices::new(vec![]);
    assert!(walk.next().is_none());
    let mut walk = Devices::new(vec![None, None]);
    assert!(walk.next().is_none());
}
