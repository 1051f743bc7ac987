//! Device handles.
//!
//! A device is one snapshot of kernel device metadata. The handle owns a
//! counted reference to the native device object and to the context it was
//! created under, so neither can be freed while the handle is alive. Every
//! accessor is a pure read; the one write, setting an attribute value, goes
//! through to the native layer and can fail.

use vstd::prelude::*;

use crate::error::kind_of_code;
use crate::error::Error;
use crate::error::ErrorKind;
use crate::list;
use crate::list::found_value;
use crate::list::Entry;
use crate::list::EntryList;
use crate::list::EntryModel;
use crate::raw::AsRawWithContext;
use crate::raw::FromRawWithContext;
use crate::udev::Udev;
use crate::util;
use crate::util::chars_have_nul;
use crate::util::opt_chars;

verus! {

/// The kind of special file a device presents to file I/O: the native
/// boundary encodes it as a single byte.
#[derive(Debug, Clone, Copy, PartialEq, Eq, Structural)]
pub enum DeviceType {
    /// Character-style file I/O semantics.
    Character,
    /// Block-style file I/O semantics.
    Block,
}

impl DeviceType {
    /// The byte the native boundary takes for this device type: the ASCII
    /// letter `c` for a character device, `b` for a block device. This
    /// encoding is fixed by the native call interface.
    pub fn code(&self) -> (r: u8)
        ensures
            *self is Character ==> r == ('c' as u8),
            *self is Block ==> r == ('b' as u8),
    {
        match self {
            DeviceType::Character => 99,
            DeviceType::Block => 98,
        }
    }
}

/// A list of properties, bound to a device.
pub type Properties = EntryList;

/// The metadata snapshot a device handle carries, as plain values read from
/// the native object when the handle was made.
pub struct DeviceInfo {
    /// The absolute path of the device inside the virtual device
    /// filesystem, mount point included.
    pub syspath: String,
    /// The kernel device path, without the mount point.
    pub devpath: String,
    /// The path of the device's special file, where it has one.
    pub devnode: Option<String>,
    /// The kernel subsystem the device belongs to.
    pub subsystem: Option<String>,
    /// The kernel name that tells the device apart within its subsystem.
    pub sysname: String,
    /// The trailing instance-number text of the kernel name, where the
    /// native layer reports one.
    pub sysnum_text: Option<String>,
    /// The device type name, where the device has one.
    pub devtype: Option<String>,
    /// The kernel driver attached to the device, where one is.
    pub driver: Option<String>,
    /// The event action that delivered this device, where it came from the
    /// event socket.
    pub action: Option<String>,
    /// The combined major/minor device number; zero is the native sentinel
    /// for "none".
    pub devnum: u64,
    /// The event sequence number, where the device came from the event
    /// socket.
    pub seqnum: u64,
    /// Whether the device manager has finished initializing the device.
    pub initialized: bool,
    /// The device's properties, as name/value entries.
    pub properties: Vec<Entry>,
    /// The device's attributes: names from the native attribute list, each
    /// value as the native layer reports it when asked by name.
    pub attributes: Vec<Entry>,
}

/// What a metadata snapshot holds, for contracts.
pub struct DeviceInfoModel {
    /// The absolute path inside the virtual device filesystem.
    pub syspath: Seq<char>,
    /// The kernel device path.
    pub devpath: Seq<char>,
    /// The special-file path, where the device has one.
    pub devnode: Option<Seq<char>>,
    /// The kernel subsystem.
    pub subsystem: Option<Seq<char>>,
    /// The kernel device name.
    pub sysname: Seq<char>,
    /// The instance-number text.
    pub sysnum_text: Option<Seq<char>>,
    /// The device type name.
    pub devtype: Option<Seq<char>>,
    /// The attached kernel driver.
    pub driver: Option<Seq<char>>,
    /// The delivering event action.
    pub action: Option<Seq<char>>,
    /// The device number; zero stands for "none".
    pub devnum: u64,
    /// The event sequence number.
    pub seqnum: u64,
    /// Whether initialization has finished.
    pub initialized: bool,
    /// The properties, in list order.
    pub properties: Seq<EntryModel>,
    /// The attributes, in list order.
    pub attributes: Seq<EntryModel>,
}

impl View for DeviceInfo {
    type V = DeviceInfoModel;

    open spec fn view(&self) -> DeviceInfoModel {
        DeviceInfoModel {
            syspath: self.syspath@,
            devpath: self.devpath@,
            devnode: opt_chars(self.devnode),
            subsystem: opt_chars(self.subsystem),
            sysname: self.sysname@,
            sysnum_text: opt_chars(self.sysnum_text),
            devtype: opt_chars(self.devtype),
            driver: opt_chars(self.driver),
            action: opt_chars(self.action),
            devnum: self.devnum,
            seqnum: self.seqnum,
            initialized: self.initialized,
            properties: self.properties@.map_values(|e: Entry| e@),
            attributes: self.attributes@.map_values(|e: Entry| e@),
        }
    }
}

impl DeviceInfo {
    /// A snapshot with nothing in it: empty paths and names, no optional
    /// fields, no entries, the "none" device number.
    pub fn empty() -> (r: DeviceInfo)
        ensures
            r@ == (DeviceInfoModel {
                syspath: Seq::empty(),
                devpath: Seq::empty(),
                devnode: None,
                subsystem: None,
                sysname: Seq::empty(),
                sysnum_text: None,
                devtype: None,
                driver: None,
                action: None,
                devnum: 0,
                seqnum: 0,
                initialized: false,
                properties: Seq::empty(),
                attributes: Seq::empty(),
            }),
    {
        let r = DeviceInfo {
            syspath: String::new(),
            devpath: String::new(),
            devnode: None,
            subsystem: None,
            sysname: String::new(),
            sysnum_text: None,
            devtype: None,
            driver: None,
            action: None,
            devnum: 0,
            seqnum: 0,
            initialized: false,
            properties: Vec::new(),
            attributes: Vec::new(),
        };
        proof {
            assert(r.properties@.map_values(|e: Entry| e@) =~= Seq::<EntryModel>::empty());
            assert(r.attributes@.map_values(|e: Entry| e@) =~= Seq::<EntryModel>::empty());
        }
        r
    }

    /// Copies the snapshot.
    pub fn duplicate(&self) -> (r: DeviceInfo)
        ensures
            r@ == self@,
    {
        let r = DeviceInfo {
            syspath: self.syspath.clone(),
            devpath: self.devpath.clone(),
            devnode: clone_opt(&self.devnode),
            subsystem: clone_opt(&self.subsystem),
            sysname: self.sysname.clone(),
            sysnum_text: clone_opt(&self.sysnum_text),
            devtype: clone_opt(&self.devtype),
            driver: clone_opt(&self.driver),
            action: clone_opt(&self.action),
            devnum: self.devnum,
            seqnum: self.seqnum,
            initialized: self.initialized,
            properties: list::clone_entries(&self.properties),
            attributes: list::clone_entries(&self.attributes),
        };
        r
    }
}

/// Copies an optional owned string.
fn clone_opt(o: &Option<String>) -> (r: Option<String>)
    ensures
        r == *o,
{
    match o {
        Some(s) => Some(s.clone()),
        None => None,
    }
}

/// What a device handle holds, for contracts: the addresses of the native
/// objects it keeps alive, its metadata snapshot, and its chain of
/// ancestors.
pub struct DeviceModel {
    /// The address of the owning context.
    pub udev_addr: usize,
    /// The address of the native device object.
    pub addr: usize,
    /// The metadata snapshot.
    pub info: DeviceInfoModel,
    /// The parent device, where the device has one.
    pub parent: Option<Box<DeviceModel>>,
}

/// A well-formed device points at native objects along its whole ancestor
/// chain.
pub open spec fn device_model_wf(m: DeviceModel) -> bool
    decreases m,
{
    &&& m.addr != 0
    &&& m.udev_addr != 0
    &&& match m.parent {
        Some(p) => device_model_wf(*p),
        None => true,
    }
}

/// The nearest ancestor — the parent first — whose subsystem is the given
/// one and, where a devtype is asked for, whose devtype is the given one.
pub open spec fn ancestor_with(
    m: DeviceModel,
    subsystem: Seq<char>,
    devtype: Option<Seq<char>>,
) -> Option<DeviceModel>
    decreases m,
{
    match m.parent {
        None => None,
        Some(p) => {
            if p.info.subsystem == Some(subsystem) && (devtype is None || p.info.devtype
                == devtype) {
                Some(*p)
            } else {
                ancestor_with(*p, subsystem, devtype)
            }
        },
    }
}

/// A structure that gives access to one kernel device's metadata.
///
/// The handle owns one counted native reference to the device object and
/// one to the context it was created under: the context outlives every
/// device made from it.
pub struct Device {
    udev: Udev,
    addr: usize,
    info: DeviceInfo,
    parent: Option<Box<Device>>,
}

/// The model of a device handle: its addresses, its snapshot, and the
/// models of its ancestors.
pub closed spec fn model_of(d: Device) -> DeviceModel
    decreases d,
{
    DeviceModel {
        udev_addr: d.udev.addr,
        addr: d.addr,
        info: d.info@,
        parent: match d.parent {
            Some(p) => Some(Box::new(model_of(*p))),
            None => None,
        },
    }
}

impl View for Device {
    type V = DeviceModel;

    closed spec fn view(&self) -> DeviceModel {
        model_of(*self)
    }
}

/// Copies a device handle: in the native world this takes one more
/// reference to every object along the ancestor chain.
fn clone_device(d: &Device) -> (r: Device)
    ensures
        r@ == d@,
    decreases *d,
{
    Device {
        udev: d.udev.clone(),
        addr: d.addr,
        info: d.info.duplicate(),
        parent: match &d.parent {
            Some(p) => Some(Box::new(clone_device(p))),
            None => None,
        },
    }
}

impl Clone for Device {
    /// The clone is a handle of its own to the same native object, backed
    /// by one more native reference; it reads equal metadata.
    fn clone(&self) -> (r: Self)
        ensures
            r@ == self@,
    {
        clone_device(self)
    }
}

impl AsRawWithContext for Device {
    closed spec fn raw_addr(&self) -> usize {
        self.addr
    }

    closed spec fn context_addr(&self) -> usize {
        self.udev.addr
    }

    fn as_raw(&self) -> usize {
        self.addr
    }

    fn udev(&self) -> &Udev {
        &self.udev
    }

    fn into_raw_with_context(self) -> (usize, usize) {
        (self.udev.addr, self.addr)
    }
}

impl FromRawWithContext for Device {
    /// A handle rebuilt from bare addresses carries no metadata snapshot of
    /// its own: the caller reads the device's metadata anew from the native
    /// object.
    fn from_raw_with_context(udev_addr: usize, addr: usize) -> Device {
        Device { udev: Udev { addr: udev_addr }, addr, info: DeviceInfo::empty(), parent: None }
    }
}

impl Device {
    /// A well-formed handle points at native objects along its whole
    /// ancestor chain.
    pub open spec fn wf(&self) -> bool {
        device_model_wf(self@)
    }

    /// Assembles a device handle around an already created native device
    /// object and the context it was created under: the handle takes over
    /// one reference to each, so the context is guaranteed to outlive the
    /// device.
    pub fn from_raw(
        udev: Udev,
        addr: usize,
        info: DeviceInfo,
        parent: Option<Box<Device>>,
    ) -> (r: Device)
        requires
            addr != 0,
            udev.wf(),
            match parent {
                Some(p) => p.wf(),
                None => true,
            },
    ensures
            r@ == (DeviceModel {
                udev_addr: udev.addr,
                addr: addr,
                info: info@,
                parent: match parent {
                    Some(p) => Some(Box::new(p@)),
                    None => None,
                },
            }),
            r.wf(),
    {
        Device { udev, addr, info, parent }
    }

    /// Whether the device manager has finished initializing the device.
    /// Devices without a device node or network interface count as
    /// initialized from the start.
    pub fn is_initialized(&self) -> (r: bool)
        ensures
            r == self@.info.initialized,
    {
        self.info.initialized
    }

    /// The device's major/minor number; none exactly when the native layer
    /// reports its zero sentinel.
    pub fn devnum(&self) -> (r: Option<u64>)
        ensures
            (r is None) <==> (self@.info.devnum == 0),
            self@.info.devnum != 0 ==> r == Some(self@.info.devnum),
    {
        if self.info.devnum == 0 {
            None
        } else {
            Some(self.info.devnum)
        }
    }

    /// The absolute path of the device inside the virtual device
    /// filesystem, mount point included.
    pub fn syspath(&self) -> (r: &str)
        ensures
            r@ == self@.info.syspath,
    {
        self.info.syspath.as_str()
    }

    /// The kernel device path, without the mount point but starting with a
    /// separator.
    pub fn devpath(&self) -> (r: &str)
        ensures
            r@ == self@.info.devpath,
    {
        self.info.devpath.as_str()
    }

    /// The path of the device's special file, where the device has one.
    pub fn devnode(&self) -> (r: Option<&str>)
        ensures
            match r {
                Some(s) => self@.info.devnode == Some(s@),
                None => self@.info.devnode is None,
            },
    {
        match &self.info.devnode {
            Some(p) => Some(p.as_str()),
            None => None,
        }
    }

    /// The kernel subsystem the device belongs to, where it reports one.
    pub fn subsystem(&self) -> (r: Option<&str>)
        ensures
            match r {
                Some(s) => self@.info.subsystem == Some(s@),
                None => self@.info.subsystem is None,
            },
    {
        match &self.info.subsystem {
            Some(s) => Some(s.as_str()),
            None => None,
        }
    }

    /// The kernel name that tells the device apart within its subsystem.
    pub fn sysname(&self) -> (r: &str)
        ensures
            r@ == self@.info.sysname,
    {
        self.info.sysname.as_str()
    }

    /// The instance number of the device: the trailing number text of its
    /// kernel name read as a decimal numeral. Devices without one, and
    /// number text that is no numeral or does not fit, give none.
    pub fn sysnum(&self) -> (r: Option<usize>)
        ensures
            match self@.info.sysnum_text {
                Some(t) => r == util::parsed_usize(t),
                None => r is None,
            },
    {
        match &self.info.sysnum_text {
            Some(t) => util::parse_usize(t.as_str()),
            None => None,
        }
    }

    /// The devtype name of the device, where it has one.
    pub fn devtype(&self) -> (r: Option<&str>)
        ensures
            match r {
                Some(s) => self@.info.devtype == Some(s@),
                None => self@.info.devtype is None,
            },
    {
        match &self.info.devtype {
            Some(s) => Some(s.as_str()),
            None => None,
        }
    }

    /// The name of the kernel driver attached to the device, where one is.
    pub fn driver(&self) -> (r: Option<&str>)
        ensures
            match r {
                Some(s) => self@.info.driver == Some(s@),
                None => self@.info.driver is None,
            },
    {
        match &self.info.driver {
            Some(s) => Some(s.as_str()),
            None => None,
        }
    }

    /// The event action that delivered the device, where it came from the
    /// event socket.
    pub fn action(&self) -> (r: Option<&str>)
        ensures
            match r {
                Some(s) => self@.info.action == Some(s@),
                None => self@.info.action is None,
            },
    {
        match &self.info.action {
            Some(s) => Some(s.as_str()),
            None => None,
        }
    }

    /// The event sequence number the device was delivered under.
    pub(crate) fn seqnum_value(&self) -> (r: u64)
        ensures
            r == self@.info.seqnum,
    {
        self.info.seqnum
    }

    /// The value of the named property: the value of its first entry, a
    /// missing value read as the empty string. A name the native boundary
    /// cannot take, and a name no entry has, give none.
    pub fn property_value(&self, property: &str) -> (r: Option<String>)
        ensures
            chars_have_nul(property@) ==> r is None,
            !chars_have_nul(property@) ==> match r {
                Some(v) => found_value(self@.info.properties, property@) == Some(v@),
                None => found_value(self@.info.properties, property@) is None,
            },
    {
        match util::to_c_bytes(property) {
            Err(u) => None,
            Ok(u) => list::find_value_in(&self.properties_store(), property),
        }
    }

    /// The value of the named attribute, looked up by name as the native
    /// layer reports it. A name the native boundary cannot take, and a name
    /// no entry has, give none.
    pub fn attribute_value(&self, attribute: &str) -> (r: Option<String>)
        ensures
            chars_have_nul(attribute@) ==> r is None,
            !chars_have_nul(attribute@) ==> match r {
                Some(v) => found_value(self@.info.attributes, attribute@) == Some(v@),
                None => found_value(self@.info.attributes, attribute@) is None,
            },
    {
        match util::to_c_bytes(attribute) {
            Err(u) => None,
            Ok(u) => list::find_value_in(&self.attributes_store(), attribute),
        }
    }

    /// Sets the value of a device attribute. The write goes through to the
    /// native layer; the caller performs the native call and hands in what
    /// it returned — non-negative for an applied write, negative with the
    /// OS error code negated for a failed one, as when the attribute is not
    /// writable. A failed write is an error, never a silent no-op, and
    /// leaves the recorded attribute values as they were; an applied write
    /// is reflected in the value then read back. Strings the native
    /// boundary cannot take are rejected as invalid input before anything
    /// is written.
    pub fn set_attribute_value(&mut self, attribute: &str, value: &str, write_result: i32) -> (r:
        Result<(), Error>)
        requires
            write_result > i32::MIN,
        ensures
            match r {
                Ok(u) => {
                    &&& !chars_have_nul(attribute@)
                    &&& !chars_have_nul(value@)
                    &&& write_result >= 0
                    &&& final(self)@ == (DeviceModel {
                        info: DeviceInfoModel {
                            attributes: list::with_value(
                                old(self)@.info.attributes,
                                attribute@,
                                value@,
                            ),
                            ..old(self)@.info
                        },
                        ..old(self)@
                    })
                },
                Err(e) => {
                    &&& final(self)@ == old(self)@
                    &&& (chars_have_nul(attribute@) || chars_have_nul(value@) || write_result < 0)
                    &&& e.kind == (if chars_have_nul(attribute@) || chars_have_nul(value@) {
                        ErrorKind::InvalidInput
                    } else {
                        kind_of_code(-write_result as i32)
                    })
                },
            },
    {
        match util::to_c_bytes(attribute) {
            Err(e) => Err(e),
            Ok(u) => {
                match util::to_c_bytes(value) {
                    Err(e) => Err(e),
                    Ok(w) => {
                        match util::errno_to_result(write_result) {
                            Err(e) => Err(e),
                            Ok(x) => {
                                list::set_entry_value(&mut self.info.attributes, attribute, value);
                                Ok(())
                            },
                        }
                    },
                }
            },
        }
    }

    /// The property entries, for the lookups.
    pub(crate) fn properties_store(&self) -> (r: &Vec<Entry>)
        ensures
            r@.map_values(|e: Entry| e@) == self@.info.properties,
    {
        &self.info.properties
    }

    /// The attribute entries, for the lookups.
    pub(crate) fn attributes_store(&self) -> (r: &Vec<Entry>)
        ensures
            r@.map_values(|e: Entry| e@) == self@.info.attributes,
    {
        &self.info.attributes
    }

    /// An iterator over the device's properties: one entry per property, in
    /// list order, each walked once.
    pub fn properties(&self) -> (r: EntryList)
        ensures
            r.all_entries() == self@.info.properties,
            r.cursor() == 0,
            r.wf(),
    {
        EntryList::new(list::clone_entries(&self.info.properties))
    }

    /// An iterator over the device's attributes. The native attribute list
    /// carries names only: each entry's value is looked up by name, one
    /// lookup per step, at the moment the entry is yielded.
    pub fn attributes(&self) -> (r: Attributes<'_>)
        ensures
            r.device_model() == self@,
            r.cursor() == 0,
            r.wf(),
    {
        Attributes { device: self, pos: 0 }
    }

    /// The parent of the device, where it has one.
    pub fn parent(&self) -> (r: Option<Device>)
        requires
            self.wf(),
        ensures
            match r {
                Some(p) => self@.parent == Some(Box::new(p@)) && p.wf(),
                None => self@.parent is None,
            },
    {
        match &self.parent {
            Some(p) => Some(clone_device(p)),
            None => None,
        }
    }

    /// The nearest ancestor with the given subsystem; none — not an error —
    /// when no ancestor matches. A subsystem string the native boundary
    /// cannot take is rejected as invalid input.
    pub fn parent_with_subsystem(&self, subsystem: &str) -> (r: Result<Option<Device>, Error>)
        requires
            self.wf(),
        ensures
            match r {
                Ok(p) => !chars_have_nul(subsystem@) && (match p {
                    Some(a) => ancestor_with(self@, subsystem@, None) == Some(a@) && a.wf(),
                    None => ancestor_with(self@, subsystem@, None) is None,
                }),
                Err(e) => chars_have_nul(subsystem@) && e.kind == ErrorKind::InvalidInput,
            },
    {
        match util::to_c_bytes(subsystem) {
            Err(e) => Err(e),
            Ok(u) => Ok(find_ancestor(self, subsystem, None)),
        }
    }

    /// The nearest ancestor with the given subsystem and devtype; none —
    /// not an error — when no ancestor matches. Strings the native boundary
    /// cannot take are rejected as invalid input.
    pub fn parent_with_subsystem_devtype(&self, subsystem: &str, devtype: &str) -> (r: Result<
        Option<Device>,
        Error,
    >)
        requires
            self.wf(),
        ensures
            match r {
                Ok(p) => !chars_have_nul(subsystem@) && !chars_have_nul(devtype@) && (match p {
                    Some(a) => ancestor_with(self@, subsystem@, Some(devtype@)) == Some(a@)
                        && a.wf(),
                    None => ancestor_with(self@, subsystem@, Some(devtype@)) is None,
                }),
                Err(e) => (chars_have_nul(subsystem@) || chars_have_nul(devtype@)) && e.kind
                    == ErrorKind::InvalidInput,
            },
    {
        match util::to_c_bytes(subsystem) {
            Err(e) => Err(e),
            Ok(u) => {
                match util::to_c_bytes(devtype) {
                    Err(e) => Err(e),
                    Ok(w) => Ok(find_ancestor(self, subsystem, Some(devtype))),
                }
            },
        }
    }
}

/// Walks the ancestor chain for the nearest ancestor with the given
/// subsystem and, where one is asked for, the given devtype.
fn find_ancestor(d: &Device, subsystem: &str, devtype: Option<&str>) -> (r: Option<Device>)
    requires
        d.wf(),
    ensures
        match r {
            Some(a) => ancestor_with(
                d@,
                subsystem@,
                match devtype {
                    Some(t) => Some(t@),
                    None => None,
                },
            ) == Some(a@) && a.wf(),
            None => ancestor_with(
                d@,
                subsystem@,
                match devtype {
                    Some(t) => Some(t@),
                    None => None,
                },
            ) is None,
        },
    decreases *d,
{
    match &d.parent {
        None => None,
        Some(p) => {
            let sub_matches = match &p.info.subsystem {
                Some(s) => util::str_eq(s.as_str(), subsystem),
                None => false,
            };
            let dt_matches = match devtype {
                None => true,
                Some(t) => match &p.info.devtype {
                    Some(x) => util::str_eq(x.as_str(), t),
                    None => false,
                },
            };
            if sub_matches && dt_matches {
                Some(clone_device(p))
            } else {
                find_ancestor(p, subsystem, devtype)
            }
        },
    }
}

/// An iterator over a device's attributes.
///
/// The underlying native list carries names only; the value of each
/// attribute is looked up by name at the moment its entry is yielded.
pub struct Attributes<'a> {
    device: &'a Device,
    pos: usize,
}

impl<'a> Attributes<'a> {
    /// The model of the device whose attributes are walked.
    pub closed spec fn device_model(&self) -> DeviceModel {
        self.device@
    }

    /// How many attributes the cursor has already yielded.
    pub closed spec fn cursor(&self) -> int {
        self.pos as int
    }

    /// The cursor never passes the end of the attribute list.
    pub open spec fn wf(&self) -> bool {
        0 <= self.cursor() <= self.device_model().info.attributes.len()
    }

    /// Yields one attribute entry — its name from the attribute list, its
    /// value looked up by that name — and moves past it; yields nothing
    /// once the names are exhausted.
    pub fn next(&mut self) -> (r: Option<Entry>)
        requires
            old(self).wf(),
        ensures
            final(self).wf(),
            final(self).device_model() == old(self).device_model(),
            old(self).cursor() < old(self).device_model().info.attributes.len() ==> {
                let attrs = old(self).device_model().info.attributes;
                let name = attrs[old(self).cursor()].name;
                &&& final(self).cursor() == old(self).cursor() + 1
                &&& r is Some
                &&& r->0@.name == name
                &&& (chars_have_nul(name) ==> r->0@.value is None)
                &&& (!chars_have_nul(name) ==> match r->0@.value {
                    Some(v) => found_value(attrs, name) == Some(v),
                    None => found_value(attrs, name) is None,
                })
            },
            old(self).cursor() >= old(self).device_model().info.attributes.len() ==> {
                &&& r is None
                &&& final(self).cursor() == old(self).cursor()
            },
    {
        if self.pos < self.device.info.attributes.len() {
            let name = self.device.info.attributes[self.pos].name.clone();
            proof {
                assert(self.device@.info.attributes[self.pos as int]
                    == self.device.info.attributes@[self.pos as int]@);
            }
            let value = self.device.attribute_value(name.as_str());
            self.pos = self.pos + 1;
            Some(Entry { name, value })
        } else {
            None
        }
    }
}

/// Law: a device handle rebuilt from the raw addresses of a device is, once
/// it has read the same metadata from the unchanged native object, equal in
/// the model to the original: every accessor answers as before, and the
/// rebuilt handle owns the one reference the conversion left with the
/// caller, so its eventual drop releases exactly that one.
pub proof fn lemma_device_raw_round_trip(d: DeviceModel, r: DeviceModel)
    requires
        r.addr == d.addr,
        r.udev_addr == d.udev_addr,
        r.info == d.info,
        r.parent == d.parent,
    ensures
        r == d,
{
}

} // verus!
