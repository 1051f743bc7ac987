use udev::AsRawWithContext;
use udev::Device;
use udev::DeviceInfo;
use udev::DeviceType;
use udev::Entry;
use udev::ErrorKind;
use udev::FromRaw;
use udev::Udev;

fn entry(name: &str, value: Option<&str>) -> Entry {
    Entry { name: name.to_string(), value: value.map(|v| v.to_string()) }
}

fn null_mem_info() -> DeviceInfo {
    let mut info = DeviceInfo::empty();
    info.syspath = "/sys/devices/virtual/mem/null".to_string();
    info.devpath = "/devices/virtual/mem/null".to_string();
    info.devnode = Some("/dev/null".to_string());
    info.subsystem = Some("mem".to_string());
    info.sysname = "null".to_string();
    info.sysnum_text = None;
    info.devnum = 259;
    info.initialized = true;
    info.properties = vec![
        entry("DEVNAME", Some("/dev/null")),
        entry("SUBSYSTEM", Some("mem")),
    ];
    info.attributes = vec![entry("uevent", Some("MAJOR=1\nMINOR=3"))];
    info
}

fn device(info: DeviceInfo) -> Device {
    Device::from_raw(Udev::from_raw(0x1000), 0x2000, info, None)
}

#[test]
fn device_type_codes_are_the_ascii_letters() {
    assert_eq!(DeviceType::Character.code(), b'c');
    assert_eq!(DeviceType::Block.code(), b'b');
}

#[test]
fn syspath_reads_back_exactly() {
    let d = device(null_mem_info());
    assert_eq!(d.syspath(), "/sys/devices/virtual/mem/null");
    assert_eq!(d.devpath(), "/devices/virtual/mem/null");
    // The initialized flag is a plain boolean answer, never an error.
    let flag = d.is_initialized();
    assert!(flag == true || flag == false);
}

#[test]
fn devnum_is_none_exactly_on_the_zero_sentinel() {
    let mut info = null_mem_info();
    info.devnum = 0;
    let d = device(info);
    assert_eq!(d.devnum(), None);

    let mut info = null_mem_info();
    info.devnum = 0x100_0003;
    let d = device(info);
    assert_eq!(d.devnum(), Some(0x100_0003));
}

#[test]
fn sysnum_parses_the_number_text() {
    let mut info = null_mem_info();
    info.sysnum_text = Some("17".to_string());
    let d = device(info);
    assert_eq!(d.sysnum(), Some(17));

    let mut info = null_mem_info();
    info.sysnum_text = None;
    let d = device(info);
    assert_eq!(d.sysnum(), None);

    let mut info = null_mem_info();
    info.sysnum_text = Some("x7".to_string());
    let d = device(info);
    assert_eq!(d.sysnum(), None);
}

#[test]
fn optional_accessors_report_absence_as_none() {
    let mut info = null_mem_info();
    info.devnode = None;
    info.devtype = None;
    info.driver = None;
    info.action = None;
    let d = device(info);
    assert_eq!(d.devnode(), None);
    assert_eq!(d.devtype(), None);
    assert_eq!(d.driver(), None);
    assert_eq!(d.action(), None);
    let d = device(null_mem_info());
    assert_eq!(d.devnode(), Some("/dev/null"));
    assert_eq!(d.subsystem(), Some("mem"));
    assert_eq!(d.sysname(), "null");
}

#[test]
fn property_value_looks_up_by_name() {
    let d = device(null_mem_info());
    assert_eq!(d.property_value("DEVNAME"), Some("/dev/null".to_string()));
    assert_eq!(d.property_value("SUBSYSTEM"), Some("mem".to_string()));
    assert_eq!(d.property_value("MISSING"), None);
    // A name the native boundary cannot take is no property.
    assert_eq!(d.property_value("DEV\0NAME"), None);
}

#[test]
fn attribute_value_looks_up_by_name() {
    let d = device(null_mem_info());
    assert_eq!(d.attribute_value("uevent"), Some("MAJOR=1\nMINOR=3".to_string()));
    assert_eq!(d.attribute_value("missing"), None);
    assert_eq!(d.attribute_value("ue\0vent"), None);
}

#[test]
fn set_attribute_value_applies_a_successful_write() {
    let mut d = device(null_mem_info());
    d.set_attribute_value("queue_depth", "31", 0).unwrap();
    assert_eq!(d.attribute_value("queue_depth"), Some("31".to_string()));
    // Writing again replaces the value in place.
    d.set_attribute_value("queue_depth", "8", 0).unwrap();
    assert_eq!(d.attribute_value("queue_depth"), Some("8".to_string()));
}

#[test]
fn set_attribute_value_surfaces_a_failed_write() {
    let mut d = device(null_mem_info());
    // A non-writable attribute: the native layer reports the OS error code.
    let e = d.set_attribute_value("uevent", "x", -13).unwrap_err();
    assert_eq!(e.kind(), ErrorKind::Io(13));
    // The recorded value reflects what the native layer applied: nothing.
    assert_eq!(d.attribute_value("uevent"), Some("MAJOR=1\nMINOR=3".to_string()));
}

#[test]
fn set_attribute_value_rejects_interior_nul() {
    let mut d = device(null_mem_info());
    let e = d.set_attribute_value("que\0ue", "1", 0).unwrap_err();
    assert_eq!(e.kind(), ErrorKind::InvalidInput);
    let e = d.set_attribute_value("queue", "1\0", 0).unwrap_err();
    assert_eq!(e.kind(), ErrorKind::InvalidInput);
}

#[test]
fn properties_iterates_each_entry_once() {
    let d = device(null_mem_info());
    let mut props = d.properties();
    let first = props.next().unwrap();
    assert_eq!(first.name(), "DEVNAME");
    assert_eq!(first.value(), "/dev/null");
    let second = props.next().unwrap();
    assert_eq!(second.name(), "SUBSYSTEM");
    assert_eq!(second.value(), "mem");
    assert!(props.next().is_none());
    // A second call of the producing method walks anew.
    let mut again = d.properties();
    assert_eq!(again.next().unwrap().name(), "DEVNAME");
}

#[test]
fn attributes_looks_each_value_up_by_name() {
    let mut info = null_mem_info();
    info.attributes = vec![entry("range", Some("7")), entry("bare", None)];
    let d = device(info);
    let mut attrs = d.attributes();
    let first = attrs.next().unwrap();
    assert_eq!(first.name(), "range");
    assert_eq!(first.value(), "7");
    let second = attrs.next().unwrap();
    assert_eq!(second.name(), "bare");
    assert_eq!(second.value(), "");
    assert!(attrs.next().is_none());
}

fn chain() -> Device {
    // grandparent: a PCI controller; parent: a block disk; child: a partition.
    let udev = Udev::from_raw(0x1000);
    let mut top = DeviceInfo::empty();
    top.syspath = "/sys/devices/pci0000:00".to_string();
    top.subsystem = Some("pci".to_string());
    top.sysname = "pci0000:00".to_string();
    let grandparent = Device::from_raw(udev.clone(), 0x3000, top, None);

    let mut mid = DeviceInfo::empty();
    mid.syspath = "/sys/devices/pci0000:00/block/sda".to_string();
    mid.subsystem = Some("block".to_string());
    mid.devtype = Some("disk".to_string());
    mid.sysname = "sda".to_string();
    let parent = Device::from_raw(udev.clone(), 0x4000, mid, Some(Box::new(grandparent)));

    let mut leaf = DeviceInfo::empty();
    leaf.syspath = "/sys/devices/pci0000:00/block/sda/sda1".to_string();
    leaf.subsystem = Some("block".to_string());
    leaf.devtype = Some("partition".to_string());
    leaf.sysname = "sda1".to_string();
    Device::from_raw(udev, 0x5000, leaf, Some(Box::new(parent)))
}

#[test]
fn parent_returns_the_next_device_up() {
    let d = chain();
    let p = d.parent().unwrap();
    assert_eq!(p.sysname(), "sda");
    let gp = p.parent().unwrap();
    assert_eq!(gp.sysname(), "pci0000:00");
    assert!(gp.parent().is_none());
}

#[test]
fn parent_with_subsystem_walks_up_to_the_match() {
    let d = chain();
    let p = d.parent_with_subsystem("block").unwrap().unwrap();
    assert_eq!(p.sysname(), "sda");
    let p = d.parent_with_subsystem("pci").unwrap().unwrap();
    assert_eq!(p.sysname(), "pci0000:00");
    assert!(d.parent_with_subsystem("usb").unwrap().is_none());
    match d.parent_with_subsystem("pc\0i") {
        Err(e) => assert_eq!(e.kind(), ErrorKind::InvalidInput),
        Ok(_) => panic!("an interior NUL must be rejected"),
    }
}

#[test]
fn parent_with_subsystem_devtype_also_matches_the_devtype() {
    let d = chain();
    let p = d.parent_with_subsystem_devtype("block", "disk").unwrap().unwrap();
    assert_eq!(p.sysname(), "sda");
    assert!(d.parent_with_subsystem_devtype("block", "tape").unwrap().is_none());
    match d.parent_with_subsystem_devtype("block", "di\0sk") {
        Err(e) => assert_eq!(e.kind(), ErrorKind::InvalidInput),
        Ok(_) => panic!("an interior NUL must be rejected"),
    }
}

#[test]
fn clone_reads_the_same_metadata() {
    let d = device(null_mem_info());
    let c = d.clone();
    assert_eq!(c.as_raw(), d.as_raw());
    assert_eq!(c.syspath(), d.syspath());
    assert_eq!(c.devnum(), d.devnum());
    assert_eq!(c.property_value("DEVNAME"), d.property_value("DEVNAME"));
}

#[test]
fn device_round_trip_to_raw_pointers() {
    let d = device(null_mem_info());
    let syspath_before = d.syspath().to_string();
    let devnum_before = d.devnum();
    let (udev_addr, addr) = d.into_raw_with_context();
    // Rebuilding reads the unchanged native object's metadata anew.
    let rebuilt = Device::from_raw(
        Udev::from_raw(udev_addr),
        addr,
        null_mem_info(),
        None,
    );
    assert_eq!(rebuilt.as_raw(), addr);
    assert_eq!(rebuilt.udev().addr, udev_addr);
    assert_eq!(rebuilt.syspath(), syspath_before);
    assert_eq!(rebuilt.devnum(), devnum_before);
}
