//! Device-event monitoring.
//!
//! A monitor is a two-phase state machine. In the building phase filters
//! are added or cleared; listening freezes the filters, consumes the
//! builder and yields a socket that receives device events from the kernel.
//! The socket never blocks: reading it when no event is pending yields
//! nothing, and waiting is the caller's business, through the socket's file
//! descriptor and an OS polling primitive.

use vstd::prelude::*;

use crate::device::Device;
use crate::device::DeviceModel;
use crate::error::kind_of_code;
use crate::error::Error;
use crate::error::ErrorKind;
use crate::list;
use crate::list::found_value;
use crate::raw::AsRaw;
use crate::raw::AsRawWithContext;
use crate::raw::FromRawWithContext;
use crate::udev::Udev;
use crate::util;
use crate::util::chars_have_nul;

verus! {

/// One event filter of a monitor. Filtering runs in the kernel: only
/// events that pass some filter reach the socket; a monitor without
/// filters receives every event.
#[derive(Debug)]
pub enum MonitorFilter {
    /// Events for devices of this kernel subsystem.
    Subsystem(String),
    /// Events for devices of this kernel subsystem and devtype.
    SubsystemDevtype(String, String),
    /// Events for devices that carry this tag.
    Tag(String),
}

/// What a monitor filter holds, for contracts.
pub enum MonitorFilterModel {
    /// Events for devices of the subsystem.
    Subsystem(Seq<char>),
    /// Events for devices of the subsystem and devtype.
    SubsystemDevtype(Seq<char>, Seq<char>),
    /// Events for devices carrying the tag.
    Tag(Seq<char>),
}

impl View for MonitorFilter {
    type V = MonitorFilterModel;

    open spec fn view(&self) -> MonitorFilterModel {
        match self {
            MonitorFilter::Subsystem(s) => MonitorFilterModel::Subsystem(s@),
            MonitorFilter::SubsystemDevtype(s, d) => MonitorFilterModel::SubsystemDevtype(s@, d@),
            MonitorFilter::Tag(t) => MonitorFilterModel::Tag(t@),
        }
    }
}

impl Clone for MonitorFilter {
    /// The clone holds equal strings.
    fn clone(&self) -> (r: Self)
        ensures
            r == *self,
    {
        match self {
            MonitorFilter::Subsystem(s) => MonitorFilter::Subsystem(s.clone()),
            MonitorFilter::SubsystemDevtype(s, d) => MonitorFilter::SubsystemDevtype(
                s.clone(),
                d.clone(),
            ),
            MonitorFilter::Tag(t) => MonitorFilter::Tag(t.clone()),
        }
    }
}

/// Copies a filter record.
fn clone_monitor_filters(v: &Vec<MonitorFilter>) -> (r: Vec<MonitorFilter>)
    ensures
        r@ == v@,
{
    let n = v.len();
    let mut r: Vec<MonitorFilter> = Vec::new();
    let mut i: usize = 0;
    while i < n
        invariant
            i <= n,
            n == v@.len(),
            r@ == v@.subrange(0, i as int),
        decreases n - i,
    {
        r.push(v[i].clone());
        i += 1;
    }
    proof {
        assert(r@ =~= v@);
    }
    r
}

/// A monitor in its building phase: its filters can still change.
///
/// The builder owns one counted native reference to the monitor object and
/// one to the context it was created under. Filter calls consume the
/// builder and hand it back, so they chain; a failed call aborts the chain.
pub struct Builder {
    udev: Udev,
    addr: usize,
    filters: Vec<MonitorFilter>,
}

impl Clone for Builder {
    /// The clone is a handle of its own to the same native object, backed
    /// by one more native reference; it records the same filters.
    fn clone(&self) -> (r: Self)
        ensures
            r.filters_model() == self.filters_model(),
            r.raw_addr() == self.raw_addr(),
            r.context_addr() == self.context_addr(),
    {
        Builder {
            udev: self.udev.clone(),
            addr: self.addr,
            filters: clone_monitor_filters(&self.filters),
        }
    }
}

impl AsRawWithContext for Builder {
    closed spec fn raw_addr(&self) -> usize {
        self.addr
    }

    closed spec fn context_addr(&self) -> usize {
        self.udev.addr
    }

    fn as_raw(&self) -> usize {
        self.addr
    }

    fn udev(&self) -> &Udev {
        &self.udev
    }

    fn into_raw_with_context(self) -> (usize, usize) {
        (self.udev.addr, self.addr)
    }
}

impl FromRawWithContext for Builder {
    /// A handle rebuilt from bare addresses starts with an empty filter
    /// record; whatever filters the native object already carries keep
    /// working in the kernel.
    fn from_raw_with_context(udev_addr: usize, addr: usize) -> Builder {
        Builder { udev: Udev { addr: udev_addr }, addr, filters: Vec::new() }
    }
}

impl Builder {
    /// The recorded filters, in order, as the contracts see them.
    pub closed spec fn filters_model(&self) -> Seq<MonitorFilterModel> {
        self.filters@.map_values(|f: MonitorFilter| f@)
    }

    /// A well-formed builder points at a native object under a live
    /// context.
    pub open spec fn wf(&self) -> bool {
        self.raw_addr() != 0 && self.context_addr() != 0
    }

    /// Makes a builder around an already created native monitor object and
    /// the context it was created under; no filters are set.
    pub fn with_udev(udev: Udev, addr: usize) -> (r: Builder)
        requires
            udev.wf(),
            addr != 0,
        ensures
            r.filters_model() == Seq::<MonitorFilterModel>::empty(),
            r.raw_addr() == addr,
            r.context_addr() == udev.addr,
            r.wf(),
    {
        let r = Builder { udev, addr, filters: Vec::new() };
        proof {
            assert(r.filters@.map_values(|f: MonitorFilter| f@) =~= Seq::<
                MonitorFilterModel,
            >::empty());
        }
        r
    }

    /// Adds a filter passing events for devices of the given kernel
    /// subsystem. A string the native boundary cannot take aborts the
    /// chain as invalid input.
    pub fn match_subsystem(self, subsystem: &str) -> (r: Result<Builder, Error>)
        ensures
            match r {
                Ok(b) => !chars_have_nul(subsystem@) && b.filters_model()
                    == self.filters_model().push(MonitorFilterModel::Subsystem(subsystem@))
                    && b.raw_addr() == self.raw_addr() && b.context_addr() == self.context_addr(),
                Err(e) => chars_have_nul(subsystem@) && e.kind == ErrorKind::InvalidInput,
            },
    {
        match util::to_c_bytes(subsystem) {
            Err(e) => Err(e),
            Ok(u) => {
                let mut b = self;
                b.filters.push(MonitorFilter::Subsystem(util::copy_str(subsystem)));
                Ok(b)
            },
        }
    }

    /// Adds a filter passing events for devices of the given kernel
    /// subsystem and devtype. Strings the native boundary cannot take
    /// abort the chain as invalid input.
    pub fn match_subsystem_devtype(self, subsystem: &str, devtype: &str) -> (r: Result<
        Builder,
        Error,
    >)
        ensures
            match r {
                Ok(b) => !chars_have_nul(subsystem@) && !chars_have_nul(devtype@)
                    && b.filters_model() == self.filters_model().push(
                    MonitorFilterModel::SubsystemDevtype(subsystem@, devtype@),
                ) && b.raw_addr() == self.raw_addr() && b.context_addr() == self.context_addr(),
                Err(e) => (chars_have_nul(subsystem@) || chars_have_nul(devtype@)) && e.kind
                    == ErrorKind::InvalidInput,
            },
    {
        match util::to_c_bytes(subsystem) {
            Err(e) => Err(e),
            Ok(u) => {
                match util::to_c_bytes(devtype) {
                    Err(e) => Err(e),
                    Ok(w) => {
                        let mut b = self;
                        b.filters.push(
                            MonitorFilter::SubsystemDevtype(util::copy_str(subsystem), util::copy_str(devtype)),
                        );
                        Ok(b)
                    },
                }
            },
        }
    }

    /// Adds a filter passing events for devices that carry the given tag.
    /// A string the native boundary cannot take aborts the chain as
    /// invalid input.
    pub fn match_tag(self, tag: &str) -> (r: Result<Builder, Error>)
        ensures
            match r {
                Ok(b) => !chars_have_nul(tag@) && b.filters_model() == self.filters_model().push(
                    MonitorFilterModel::Tag(tag@),
                ) && b.raw_addr() == self.raw_addr() && b.context_addr() == self.context_addr(),
                Err(e) => chars_have_nul(tag@) && e.kind == ErrorKind::InvalidInput,
            },
    {
        match util::to_c_bytes(tag) {
            Err(e) => Err(e),
            Ok(u) => {
                let mut b = self;
                b.filters.push(MonitorFilter::Tag(util::copy_str(tag)));
                Ok(b)
            },
        }
    }

    /// Removes every filter set so far.
    pub fn clear_filters(self) -> (r: Result<Builder, Error>)
        ensures
            match r {
                Ok(b) => b.filters_model() == Seq::<MonitorFilterModel>::empty() && b.raw_addr()
                    == self.raw_addr() && b.context_addr() == self.context_addr(),
                Err(e) => false,
            },
    {
        let mut b = self;
        b.filters = Vec::new();
        proof {
            assert(b.filters@.map_values(|f: MonitorFilter| f@) =~= Seq::<
                MonitorFilterModel,
            >::empty());
        }
        Ok(b)
    }

    /// Listens for events matching the filters set so far: the transition
    /// that consumes the builder and freezes its filters.
    ///
    /// The caller performs the two native calls and hands in their results:
    /// `enable_result`, what enabling the socket for receiving returned —
    /// negative on failure, with the OS error code negated — and, where
    /// enabling succeeded, `fd`, the socket's file descriptor, which the
    /// native layer reports non-negative for an enabled monitor. On failure
    /// the attempt is consumed: no usable object is left.
    pub fn listen(self, enable_result: i32, fd: i32) -> (r: Result<Socket, Error>)
        requires
            enable_result > i32::MIN,
            enable_result >= 0 ==> fd >= 0,
        ensures
            match r {
                Ok(s) => {
                    &&& enable_result >= 0
                    &&& s.fd_value() == fd
                    &&& s.filters_model() == self.filters_model()
                    &&& s.raw_addr() == self.raw_addr()
                    &&& s.context_addr() == self.context_addr()
                },
                Err(e) => enable_result < 0 && e.kind == kind_of_code(-enable_result as i32),
            },
    {
        match util::errno_to_result(enable_result) {
            Err(e) => Err(e),
            Ok(u) => Ok(Socket { udev: self.udev, addr: self.addr, filters: self.filters, fd }),
        }
    }
}

/// A listening monitor: an active socket that receives device events.
///
/// The filters are frozen — the type offers no way to change them — and
/// the socket is non-blocking: reading it with no event pending yields
/// nothing at once. The file descriptor is exposed for the caller's own
/// readiness polling.
pub struct Socket {
    udev: Udev,
    addr: usize,
    filters: Vec<MonitorFilter>,
    fd: i32,
}

impl Socket {
    /// The frozen filters, as the contracts see them.
    pub closed spec fn filters_model(&self) -> Seq<MonitorFilterModel> {
        self.filters@.map_values(|f: MonitorFilter| f@)
    }

    /// The socket's file descriptor, as the contracts see it.
    pub closed spec fn fd_value(&self) -> i32 {
        self.fd
    }

    /// The address of the owning context, as the contracts see it.
    pub closed spec fn context_addr(&self) -> usize {
        self.udev.addr
    }

    /// A well-formed socket points at a native object under a live context
    /// and carries a real file descriptor.
    pub open spec fn wf(&self) -> bool {
        self.raw_addr() != 0 && self.context_addr() != 0 && self.fd_value() >= 0
    }

    /// The file descriptor of the monitor's socket, for readiness polling;
    /// never negative on a well-formed socket.
    pub fn as_raw_fd(&self) -> (r: i32)
        requires
            self.wf(),
        ensures
            r == self.fd_value(),
            r >= 0,
    {
        self.fd
    }

    /// What one non-blocking read of the event socket yields. The caller
    /// performs the native receive and hands in what it returned: no
    /// pending device gives no event — at once, never by blocking — and a
    /// received device is wrapped as the event it announces.
    pub fn next_event(&self, received: Option<Device>) -> (r: Option<Event>)
        ensures
            match received {
                None => r is None,
                Some(d) => match r {
                    Some(ev) => ev.device_model() == d@,
                    None => false,
                },
            },
    {
        match received {
            Some(d) => Some(Event { device: d }),
            None => None,
        }
    }
}

impl Clone for Socket {
    /// The clone is a handle of its own to the same native object, backed
    /// by one more native reference; it reads the same descriptor and the
    /// same frozen filters.
    fn clone(&self) -> (r: Self)
        ensures
            r.filters_model() == self.filters_model(),
            r.fd_value() == self.fd_value(),
            r.raw_addr() == self.raw_addr(),
            r.context_addr() == self.context_addr(),
    {
        Socket {
            udev: self.udev.clone(),
            addr: self.addr,
            filters: clone_monitor_filters(&self.filters),
            fd: self.fd,
        }
    }
}

impl AsRaw for Socket {
    closed spec fn raw_addr(&self) -> usize {
        self.addr
    }

    fn as_raw(&self) -> usize {
        self.addr
    }

    fn into_raw(self) -> usize {
        self.addr
    }
}

/// Types of events that can be received from the kernel.
#[derive(Debug, Clone, Copy, PartialEq, Eq, Structural)]
pub enum EventType {
    /// A device was added.
    Add,
    /// A device changed.
    Change,
    /// A device was removed.
    Remove,
    /// A device was bound to a driver.
    Bind,
    /// A device was unbound from a driver.
    Unbind,
    /// An unknown event occurred.
    Unknown,
}

impl Default for EventType {
    /// The default event type is the unknown one.
    fn default() -> (r: Self)
        ensures
            r == EventType::Unknown,
    {
        EventType::Unknown
    }
}

/// The event type an action string announces: the five named actions map
/// to their event types; anything else, and a missing action, is unknown —
/// never an error.
pub open spec fn event_type_of(action: Option<Seq<char>>) -> EventType {
    match action {
        Some(a) => {
            if a == "add"@ {
                EventType::Add
            } else if a == "change"@ {
                EventType::Change
            } else if a == "remove"@ {
                EventType::Remove
            } else if a == "bind"@ {
                EventType::Bind
            } else if a == "unbind"@ {
                EventType::Unbind
            } else {
                EventType::Unknown
            }
        },
        None => EventType::Unknown,
    }
}

/// The action label of an event type.
pub open spec fn label_of(t: EventType) -> Seq<char> {
    match t {
        EventType::Add => "add"@,
        EventType::Change => "change"@,
        EventType::Remove => "remove"@,
        EventType::Bind => "bind"@,
        EventType::Unbind => "unbind"@,
        EventType::Unknown => "unknown"@,
    }
}

/// Classifies an action string, as the native layer reports it, into an
/// event type.
pub fn event_type_from_action(action: Option<&str>) -> (r: EventType)
    ensures
        r == event_type_of(
            match action {
                Some(a) => Some(a@),
                None => None,
            },
        ),
{
    match action {
        None => EventType::Unknown,
        Some(a) => {
            if util::str_eq(a, "add") {
                EventType::Add
            } else if util::str_eq(a, "change") {
                EventType::Change
            } else if util::str_eq(a, "remove") {
                EventType::Remove
            } else if util::str_eq(a, "bind") {
                EventType::Bind
            } else if util::str_eq(a, "unbind") {
                EventType::Unbind
            } else {
                EventType::Unknown
            }
        },
    }
}

impl EventType {
    /// The action label of the event type, as the kernel writes it.
    pub fn label(&self) -> (r: &'static str)
        ensures
            r@ == label_of(*self),
    {
        match self {
            EventType::Add => "add",
            EventType::Change => "change",
            EventType::Remove => "remove",
            EventType::Bind => "bind",
            EventType::Unbind => "unbind",
            EventType::Unknown => "unknown",
        }
    }
}

/// An event that indicates a change in device state.
pub struct Event {
    device: Device,
}

impl Event {
    /// The model of the device the event announces.
    pub closed spec fn device_model(&self) -> DeviceModel {
        self.device@
    }

    /// The event type, read from the device's action property.
    pub fn event_type(&self) -> (r: EventType)
        ensures
            r == event_type_of(found_value(self.device_model().info.properties, "ACTION"@)),
    {
        let value = list::find_value_in(self.device.properties_store(), "ACTION");
        let r = event_type_from_action(
            match &value {
                Some(v) => Some(v.as_str()),
                None => None,
            },
        );
        r
    }

    /// The event's sequence number.
    pub fn sequence_number(&self) -> (r: u64)
        ensures
            r == self.device_model().info.seqnum,
    {
        self.device.seqnum_value()
    }

    /// The device associated with this event.
    pub fn device(&self) -> (r: Device)
        ensures
            r@ == self.device_model(),
    {
        self.device.clone()
    }
}

/// Law: classifying an event type's own label gives that event type back —
/// the five named actions read back as themselves, and the unknown label
/// is no named action, so it reads back as unknown.
pub proof fn lemma_label_reads_back(t: EventType)
    ensures
        event_type_of(Some(label_of(t))) == t,
{
    reveal_strlit("add");
    reveal_strlit("change");
    reveal_strlit("remove");
    reveal_strlit("bind");
    reveal_strlit("unbind");
    reveal_strlit("unknown");
    assert("remove"@ != "change"@) by {
        assert("remove"@[0] == 'r' && "change"@[0] == 'c');
    }
    assert("unbind"@ != "change"@) by {
        assert("unbind"@[0] == 'u' && "change"@[0] == 'c');
    }
    assert("unbind"@ != "remove"@) by {
        assert("unbind"@[0] == 'u' && "remove"@[0] == 'r');
    }
    assert("add"@.len() == 3 && "change"@.len() == 6 && "remove"@.len() == 6 && "bind"@.len() == 4
        && "unbind"@.len() == 6 && "unknown"@.len() == 7);
}

} // verus!
