//! Device enumeration.
//!
//! An enumerator accumulates a filter set through fallible builder calls and
//! then scans the live device view for matching devices. The scan is
//! best-effort over a racy, live system: a device that vanishes between the
//! scan and its resolution is skipped silently, never surfaced as an
//! iteration error.

use vstd::prelude::*;

use crate::device::Device;
use crate::device::DeviceInfoModel;
use crate::device::DeviceModel;
use crate::error::Error;
use crate::error::ErrorKind;
use crate::list;
use crate::list::found_value;
use crate::raw::AsRawWithContext;
use crate::raw::FromRawWithContext;
use crate::udev::Udev;
use crate::util;
use crate::util::chars_have_nul;

verus! {

/// One filter of an enumeration query.
#[derive(Debug)]
pub enum ScanFilter {
    /// Keep only devices the device manager has finished initializing.
    IsInitialized,
    /// Keep devices of this kernel subsystem.
    Subsystem(String),
    /// Keep only devices whose named attribute has this value.
    Attribute(String, String),
    /// Keep devices with this kernel device name.
    Sysname(String),
    /// Keep devices whose named property has this value.
    Property(String, String),
    /// Keep devices that carry this tag.
    Tag(String),
    /// Keep this device, named by syspath, and the subtree under it.
    Parent(String),
    /// Drop devices of this kernel subsystem.
    NoSubsystem(String),
    /// Drop devices whose named attribute has this value.
    NoAttribute(String, String),
    /// Include the device with this syspath.
    Syspath(String),
}

/// What a filter holds, for contracts.
pub enum ScanFilterModel {
    /// Keep only initialized devices.
    IsInitialized,
    /// Keep devices of the subsystem.
    Subsystem(Seq<char>),
    /// Keep only devices whose named attribute has the value.
    Attribute(Seq<char>, Seq<char>),
    /// Keep devices with the kernel device name.
    Sysname(Seq<char>),
    /// Keep devices whose named property has the value.
    Property(Seq<char>, Seq<char>),
    /// Keep devices that carry the tag.
    Tag(Seq<char>),
    /// Keep the named device and its subtree.
    Parent(Seq<char>),
    /// Drop devices of the subsystem.
    NoSubsystem(Seq<char>),
    /// Drop devices whose named attribute has the value.
    NoAttribute(Seq<char>, Seq<char>),
    /// Include the device with the syspath.
    Syspath(Seq<char>),
}

impl View for ScanFilter {
    type V = ScanFilterModel;

    open spec fn view(&self) -> ScanFilterModel {
        match self {
            ScanFilter::IsInitialized => ScanFilterModel::IsInitialized,
            ScanFilter::Subsystem(s) => ScanFilterModel::Subsystem(s@),
            ScanFilter::Attribute(n, v) => ScanFilterModel::Attribute(n@, v@),
            ScanFilter::Sysname(s) => ScanFilterModel::Sysname(s@),
            ScanFilter::Property(n, v) => ScanFilterModel::Property(n@, v@),
            ScanFilter::Tag(s) => ScanFilterModel::Tag(s@),
            ScanFilter::Parent(s) => ScanFilterModel::Parent(s@),
            ScanFilter::NoSubsystem(s) => ScanFilterModel::NoSubsystem(s@),
            ScanFilter::NoAttribute(n, v) => ScanFilterModel::NoAttribute(n@, v@),
            ScanFilter::Syspath(s) => ScanFilterModel::Syspath(s@),
        }
    }
}

impl Clone for ScanFilter {
    /// The clone holds equal strings.
    fn clone(&self) -> (r: Self)
        ensures
            r == *self,
    {
        match self {
            ScanFilter::IsInitialized => ScanFilter::IsInitialized,
            ScanFilter::Subsystem(s) => ScanFilter::Subsystem(s.clone()),
            ScanFilter::Attribute(n, v) => ScanFilter::Attribute(n.clone(), v.clone()),
            ScanFilter::Sysname(s) => ScanFilter::Sysname(s.clone()),
            ScanFilter::Property(n, v) => ScanFilter::Property(n.clone(), v.clone()),
            ScanFilter::Tag(s) => ScanFilter::Tag(s.clone()),
            ScanFilter::Parent(s) => ScanFilter::Parent(s.clone()),
            ScanFilter::NoSubsystem(s) => ScanFilter::NoSubsystem(s.clone()),
            ScanFilter::NoAttribute(n, v) => ScanFilter::NoAttribute(n.clone(), v.clone()),
            ScanFilter::Syspath(s) => ScanFilter::Syspath(s.clone()),
        }
    }
}

/// Whether the filter set asks for initialized devices only.
pub open spec fn wants_initialized(fs: Seq<ScanFilterModel>) -> bool
    decreases fs.len(),
{
    if fs.len() == 0 {
        false
    } else {
        fs[0] is IsInitialized || wants_initialized(fs.drop_first())
    }
}

/// Whether the filter set names any subsystem to keep.
pub open spec fn wants_subsystem(fs: Seq<ScanFilterModel>) -> bool
    decreases fs.len(),
{
    if fs.len() == 0 {
        false
    } else {
        fs[0] is Subsystem || wants_subsystem(fs.drop_first())
    }
}

/// Whether the device's subsystem is one of those the filter set keeps.
pub open spec fn subsystem_hit(fs: Seq<ScanFilterModel>, m: DeviceInfoModel) -> bool
    decreases fs.len(),
{
    if fs.len() == 0 {
        false
    } else {
        (fs[0] is Subsystem && m.subsystem == Some(fs[0]->Subsystem_0)) || subsystem_hit(
            fs.drop_first(),
            m,
        )
    }
}

/// Whether the filter set names any kernel device name to keep.
pub open spec fn wants_sysname(fs: Seq<ScanFilterModel>) -> bool
    decreases fs.len(),
{
    if fs.len() == 0 {
        false
    } else {
        fs[0] is Sysname || wants_sysname(fs.drop_first())
    }
}

/// Whether the device's kernel name is one of those the filter set keeps.
pub open spec fn sysname_hit(fs: Seq<ScanFilterModel>, m: DeviceInfoModel) -> bool
    decreases fs.len(),
{
    if fs.len() == 0 {
        false
    } else {
        (fs[0] is Sysname && m.sysname == fs[0]->Sysname_0) || sysname_hit(fs.drop_first(), m)
    }
}

/// Whether the filter set names any property to keep by.
pub open spec fn wants_property(fs: Seq<ScanFilterModel>) -> bool
    decreases fs.len(),
{
    if fs.len() == 0 {
        false
    } else {
        fs[0] is Property || wants_property(fs.drop_first())
    }
}

/// Whether some property filter of the set names a property the device
/// carries with the asked-for value.
pub open spec fn property_hit(fs: Seq<ScanFilterModel>, m: DeviceInfoModel) -> bool
    decreases fs.len(),
{
    if fs.len() == 0 {
        false
    } else {
        (fs[0] is Property && found_value(m.properties, fs[0]->Property_0) == Some(
            fs[0]->Property_1,
        )) || property_hit(fs.drop_first(), m)
    }
}

/// Whether the device carries, for every attribute filter of the set, the
/// named attribute with the asked-for value.
pub open spec fn attributes_pass(fs: Seq<ScanFilterModel>, m: DeviceInfoModel) -> bool
    decreases fs.len(),
{
    if fs.len() == 0 {
        true
    } else {
        (fs[0] is Attribute ==> found_value(m.attributes, fs[0]->Attribute_0) == Some(
            fs[0]->Attribute_1,
        )) && attributes_pass(fs.drop_first(), m)
    }
}

/// Whether the device escapes every exclusion of the set: it is of no
/// dropped subsystem, and no dropped attribute value is one it carries.
pub open spec fn exclusions_pass(fs: Seq<ScanFilterModel>, m: DeviceInfoModel) -> bool
    decreases fs.len(),
{
    if fs.len() == 0 {
        true
    } else {
        (fs[0] is NoSubsystem ==> m.subsystem != Some(fs[0]->NoSubsystem_0)) && (
        fs[0] is NoAttribute ==> found_value(m.attributes, fs[0]->NoAttribute_0) != Some(
            fs[0]->NoAttribute_1,
        )) && exclusions_pass(fs.drop_first(), m)
    }
}

/// Whether a device passes the filter set, judged on its metadata snapshot.
///
/// Within one kind the named matches are alternatives — a device passes the
/// subsystem filters when its subsystem is any of the named ones — while
/// attribute matches and the exclusions must each hold. Tag, parent and
/// explicit-syspath filters select on data outside the snapshot: the native
/// scan applies them, this model does not evaluate them. The native scan
/// also reads its match values as shell-style patterns; this model compares
/// them literally.
pub open spec fn filters_match(fs: Seq<ScanFilterModel>, m: DeviceInfoModel) -> bool {
    &&& (wants_initialized(fs) ==> m.initialized)
    &&& (wants_subsystem(fs) ==> subsystem_hit(fs, m))
    &&& (wants_sysname(fs) ==> sysname_hit(fs, m))
    &&& (wants_property(fs) ==> property_hit(fs, m))
    &&& attributes_pass(fs, m)
    &&& exclusions_pass(fs, m)
}

/// An enumeration context.
///
/// The enumerator scans the virtual device filesystem for devices matching
/// its filters. Filters are added by the `match_*` and `nomatch_*` calls;
/// the filter record mirrors, in order, what has been registered with the
/// native object.
pub struct Enumerator {
    udev: Udev,
    addr: usize,
    filters: Vec<ScanFilter>,
}

impl Clone for Enumerator {
    /// The clone is a handle of its own to the same native object, backed
    /// by one more native reference; it records the same filters.
    fn clone(&self) -> (r: Self)
        ensures
            r.filters_model() == self.filters_model(),
            r.raw_addr() == self.raw_addr(),
            r.context_addr() == self.context_addr(),
    {
        Enumerator {
            udev: self.udev.clone(),
            addr: self.addr,
            filters: clone_filters(&self.filters),
        }
    }
}

/// Copies a filter record.
fn clone_filters(v: &Vec<ScanFilter>) -> (r: Vec<ScanFilter>)
    ensures
        r@ == v@,
{
    let n = v.len();
    let mut r: Vec<ScanFilter> = Vec::new();
    let mut i: usize = 0;
    while i < n
        invariant
            i <= n,
            n == v@.len(),
            r@ == v@.subrange(0, i as int),
        decreases n - i,
    {
        r.push(v[i].clone());
        i += 1;
    }
    proof {
        assert(r@ =~= v@);
    }
    r
}

impl AsRawWithContext for Enumerator {
    closed spec fn raw_addr(&self) -> usize {
        self.addr
    }

    closed spec fn context_addr(&self) -> usize {
        self.udev.addr
    }

    fn as_raw(&self) -> usize {
        self.addr
    }

    fn udev(&self) -> &Udev {
        &self.udev
    }

    fn into_raw_with_context(self) -> (usize, usize) {
        (self.udev.addr, self.addr)
    }
}

impl FromRawWithContext for Enumerator {
    /// A handle rebuilt from bare addresses starts with an empty filter
    /// record; whatever filters the native object already carries keep
    /// working in the native scan.
    fn from_raw_with_context(udev_addr: usize, addr: usize) -> Enumerator {
        Enumerator { udev: Udev { addr: udev_addr }, addr, filters: Vec::new() }
    }
}

impl Enumerator {
    /// The recorded filters, in order, as the contracts see them.
    pub closed spec fn filters_model(&self) -> Seq<ScanFilterModel> {
        self.filters@.map_values(|f: ScanFilter| f@)
    }

    /// A well-formed enumerator points at a native object under a live
    /// context.
    pub open spec fn wf(&self) -> bool {
        self.raw_addr() != 0 && self.context_addr() != 0
    }

    /// Makes an enumerator around an already created native enumeration
    /// object and the context it was created under; no filters are set.
    pub fn with_udev(udev: Udev, addr: usize) -> (r: Enumerator)
        requires
            udev.wf(),
            addr != 0,
        ensures
            r.filters_model() == Seq::<ScanFilterModel>::empty(),
            r.raw_addr() == addr,
            r.context_addr() == udev.addr,
            r.wf(),
    {
        let r = Enumerator { udev, addr, filters: Vec::new() };
        proof {
            assert(r.filters@.map_values(|f: ScanFilter| f@) =~= Seq::<ScanFilterModel>::empty());
        }
        r
    }

    /// Records a filter that keeps only initialized devices.
    pub fn match_is_initialized(&mut self) -> (r: Result<(), Error>)
        ensures
            r is Ok,
            final(self).filters_model() == old(self).filters_model().push(
                ScanFilterModel::IsInitialized,
            ),
            final(self).raw_addr() == old(self).raw_addr(),
            final(self).context_addr() == old(self).context_addr(),
    {
        self.filters.push(ScanFilter::IsInitialized);
        Ok(())
    }

    /// Records a filter that keeps devices of the given kernel subsystem.
    /// A string the native boundary cannot take is rejected as invalid
    /// input and nothing is recorded.
    pub fn match_subsystem(&mut self, subsystem: &str) -> (r: Result<(), Error>)
        ensures
            final(self).raw_addr() == old(self).raw_addr(),
            final(self).context_addr() == old(self).context_addr(),
            match r {
                Ok(u) => !chars_have_nul(subsystem@) && final(self).filters_model() == old(self).filters_model().push(ScanFilterModel::Subsystem(subsystem@)),
                Err(e) => chars_have_nul(subsystem@) && e.kind == ErrorKind::InvalidInput && final(self).filters_model() == old(self).filters_model(),
            },
    {
        match util::to_c_bytes(subsystem) {
            Err(e) => Err(e),
            Ok(u) => {
                self.filters.push(ScanFilter::Subsystem(util::copy_str(subsystem)));
                Ok(())
            },
        }
    }

    /// Records a filter that keeps only devices whose named attribute has
    /// the given value. Strings the native boundary cannot take are
    /// rejected as invalid input and nothing is recorded.
    pub fn match_attribute(&mut self, attribute: &str, value: &str) -> (r: Result<(), Error>)
        ensures
            final(self).raw_addr() == old(self).raw_addr(),
            final(self).context_addr() == old(self).context_addr(),
            match r {
                Ok(u) => !chars_have_nul(attribute@) && !chars_have_nul(value@) && final(self).filters_model() == old(self).filters_model().push(
                    ScanFilterModel::Attribute(attribute@, value@),
                ),
                Err(e) => (chars_have_nul(attribute@) || chars_have_nul(value@)) && e.kind
                    == ErrorKind::InvalidInput && final(self).filters_model() == old(self).filters_model(),
            },
    {
        match util::to_c_bytes(attribute) {
            Err(e) => Err(e),
            Ok(u) => {
                match util::to_c_bytes(value) {
                    Err(e) => Err(e),
                    Ok(w) => {
                        self.filters.push(
                            ScanFilter::Attribute(util::copy_str(attribute), util::copy_str(value)),
                        );
                        Ok(())
                    },
                }
            },
        }
    }

    /// Records a filter that keeps devices with the given kernel device
    /// name. A string the native boundary cannot take is rejected as
    /// invalid input and nothing is recorded.
    pub fn match_sysname(&mut self, sysname: &str) -> (r: Result<(), Error>)
        ensures
            final(self).raw_addr() == old(self).raw_addr(),
            final(self).context_addr() == old(self).context_addr(),
            match r {
                Ok(u) => !chars_have_nul(sysname@) && final(self).filters_model() == old(self).filters_model().push(ScanFilterModel::Sysname(sysname@)),
                Err(e) => chars_have_nul(sysname@) && e.kind == ErrorKind::InvalidInput && final(self).filters_model() == old(self).filters_model(),
            },
    {
        match util::to_c_bytes(sysname) {
            Err(e) => Err(e),
            Ok(u) => {
                self.filters.push(ScanFilter::Sysname(util::copy_str(sysname)));
                Ok(())
            },
        }
    }

    /// Records a filter that keeps devices whose named property has the
    /// given value. Strings the native boundary cannot take are rejected as
    /// invalid input and nothing is recorded.
    pub fn match_property(&mut self, property: &str, value: &str) -> (r: Result<(), Error>)
        ensures
            final(self).raw_addr() == old(self).raw_addr(),
            final(self).context_addr() == old(self).context_addr(),
            match r {
                Ok(u) => !chars_have_nul(property@) && !chars_have_nul(value@) && final(self).filters_model() == old(self).filters_model().push(
                    ScanFilterModel::Property(property@, value@),
                ),
                Err(e) => (chars_have_nul(property@) || chars_have_nul(value@)) && e.kind
                    == ErrorKind::InvalidInput && final(self).filters_model() == old(self).filters_model(),
            },
    {
        match util::to_c_bytes(property) {
            Err(e) => Err(e),
            Ok(u) => {
                match util::to_c_bytes(value) {
                    Err(e) => Err(e),
                    Ok(w) => {
                        self.filters.push(ScanFilter::Property(util::copy_str(property), util::copy_str(value)));
                        Ok(())
                    },
                }
            },
        }
    }

    /// Records a filter that keeps devices carrying the given tag. A string
    /// the native boundary cannot take is rejected as invalid input and
    /// nothing is recorded.
    pub fn match_tag(&mut self, tag: &str) -> (r: Result<(), Error>)
        ensures
            final(self).raw_addr() == old(self).raw_addr(),
            final(self).context_addr() == old(self).context_addr(),
            match r {
                Ok(u) => !chars_have_nul(tag@) && final(self).filters_model() == old(self).filters_model().push(ScanFilterModel::Tag(tag@)),
                Err(e) => chars_have_nul(tag@) && e.kind == ErrorKind::InvalidInput && final(self).filters_model() == old(self).filters_model(),
            },
    {
        match util::to_c_bytes(tag) {
            Err(e) => Err(e),
            Ok(u) => {
                self.filters.push(ScanFilter::Tag(util::copy_str(tag)));
                Ok(())
            },
        }
    }

    /// Records a filter that keeps the given device and the subtree of
    /// devices under it, named by its syspath.
    pub fn match_parent(&mut self, parent: &Device) -> (r: Result<(), Error>)
        ensures
            r is Ok,
            final(self).filters_model() == old(self).filters_model().push(
                ScanFilterModel::Parent(parent@.info.syspath),
            ),
            final(self).raw_addr() == old(self).raw_addr(),
            final(self).context_addr() == old(self).context_addr(),
    {
        self.filters.push(ScanFilter::Parent(util::copy_str(parent.syspath())));
        Ok(())
    }

    /// Records a filter that drops devices of the given kernel subsystem.
    /// A string the native boundary cannot take is rejected as invalid
    /// input and nothing is recorded.
    pub fn nomatch_subsystem(&mut self, subsystem: &str) -> (r: Result<(), Error>)
        ensures
            final(self).raw_addr() == old(self).raw_addr(),
            final(self).context_addr() == old(self).context_addr(),
            match r {
                Ok(u) => !chars_have_nul(subsystem@) && final(self).filters_model() == old(self).filters_model().push(ScanFilterModel::NoSubsystem(subsystem@)),
                Err(e) => chars_have_nul(subsystem@) && e.kind == ErrorKind::InvalidInput && final(self).filters_model() == old(self).filters_model(),
            },
    {
        match util::to_c_bytes(subsystem) {
            Err(e) => Err(e),
            Ok(u) => {
                self.filters.push(ScanFilter::NoSubsystem(util::copy_str(subsystem)));
                Ok(())
            },
        }
    }

    /// Records a filter that drops devices whose named attribute has the
    /// given value. Strings the native boundary cannot take are rejected as
    /// invalid input and nothing is recorded.
    pub fn nomatch_attribute(&mut self, attribute: &str, value: &str) -> (r: Result<(), Error>)
        ensures
            final(self).raw_addr() == old(self).raw_addr(),
            final(self).context_addr() == old(self).context_addr(),
            match r {
                Ok(u) => !chars_have_nul(attribute@) && !chars_have_nul(value@) && final(self).filters_model() == old(self).filters_model().push(
                    ScanFilterModel::NoAttribute(attribute@, value@),
                ),
                Err(e) => (chars_have_nul(attribute@) || chars_have_nul(value@)) && e.kind
                    == ErrorKind::InvalidInput && final(self).filters_model() == old(self).filters_model(),
            },
    {
        match util::to_c_bytes(attribute) {
            Err(e) => Err(e),
            Ok(u) => {
                match util::to_c_bytes(value) {
                    Err(e) => Err(e),
                    Ok(w) => {
                        self.filters.push(
                            ScanFilter::NoAttribute(util::copy_str(attribute), util::copy_str(value)),
                        );
                        Ok(())
                    },
                }
            },
        }
    }

    /// Records the device with the given syspath for inclusion in the scan
    /// result. A string the native boundary cannot take is rejected as
    /// invalid input and nothing is recorded.
    pub fn add_syspath(&mut self, syspath: &str) -> (r: Result<(), Error>)
        ensures
            final(self).raw_addr() == old(self).raw_addr(),
            final(self).context_addr() == old(self).context_addr(),
            match r {
                Ok(u) => !chars_have_nul(syspath@) && final(self).filters_model() == old(self).filters_model().push(ScanFilterModel::Syspath(syspath@)),
                Err(e) => chars_have_nul(syspath@) && e.kind == ErrorKind::InvalidInput && final(self).filters_model() == old(self).filters_model(),
            },
    {
        match util::to_c_bytes(syspath) {
            Err(e) => Err(e),
            Ok(u) => {
                self.filters.push(ScanFilter::Syspath(util::copy_str(syspath)));
                Ok(())
            },
        }
    }

    /// Whether a device passes the recorded filters, judged on its
    /// metadata snapshot as [`filters_match`] says.
    pub fn matches(&self, device: &Device) -> (r: bool)
        ensures
            r == filters_match(self.filters_model(), device@.info),
    {
        let fs = &self.filters;
        if check_wants_initialized(fs) && !device.is_initialized() {
            return false;
        }
        if check_wants_subsystem(fs) && !check_subsystem_hit(fs, device) {
            return false;
        }
        if check_wants_sysname(fs) && !check_sysname_hit(fs, device) {
            return false;
        }
        if check_wants_property(fs) && !check_property_hit(fs, device) {
            return false;
        }
        if !check_attributes_pass(fs, device) {
            return false;
        }
        if !check_exclusions_pass(fs, device) {
            return false;
        }
        true
    }

    /// The scan model: of the given candidate devices — the live system
    /// view the native scan walks, in its dependency order — keep, in that
    /// order, exactly those that pass the recorded filters.
    pub fn scan_collect(&self, candidates: &Vec<Device>) -> (r: Vec<Device>)
        ensures
            r@.map_values(|d: Device| d@) == kept(
                candidates@.map_values(|d: Device| d@),
                self.filters_model(),
            ),
    {
        let ghost all = candidates@.map_values(|d: Device| d@);
        proof {
            assert(all.skip(0) =~= all);
        }
        let n = candidates.len();
        let mut r: Vec<Device> = Vec::new();
        let mut i: usize = 0;
        while i < n
            invariant
                i <= n,
                n == candidates@.len(),
                all == candidates@.map_values(|d: Device| d@),
                kept(all, self.filters_model()) == r@.map_values(|d: Device| d@) + kept(
                    all.skip(i as int),
                    self.filters_model(),
                ),
            decreases n - i,
        {
            proof {
                assert(all.skip(i as int)[0] == all[i as int]);
                assert(all.skip(i as int).drop_first() =~= all.skip(i as int + 1));
                assert(all[i as int] == candidates@[i as int]@);
            }
            let d = &candidates[i];
            let ghost before = r@.map_values(|x: Device| x@);
            if self.matches(d) {
                r.push(d.clone());
                proof {
                    assert(r@.map_values(|x: Device| x@) =~= before.push(candidates@[i as int]@));
                    assert(before.push(candidates@[i as int]@) + kept(
                        all.skip(i as int + 1),
                        self.filters_model(),
                    ) =~= before + (seq![all[i as int]] + kept(
                        all.skip(i as int + 1),
                        self.filters_model(),
                    )));
                }
            } else {
                proof {
                    assert(r@.map_values(|x: Device| x@) == before);
                }
            }
            i += 1;
        }
        proof {
            assert(all.skip(n as int) =~= Seq::<DeviceModel>::empty());
            assert(r@.map_values(|d: Device| d@) + kept(all.skip(n as int), self.filters_model())
                =~= r@.map_values(|d: Device| d@));
        }
        r
    }
}

/// The devices of the sequence that pass the filter set, in order.
pub open spec fn kept(s: Seq<DeviceModel>, fs: Seq<ScanFilterModel>) -> Seq<DeviceModel>
    decreases s.len(),
{
    if s.len() == 0 {
        Seq::empty()
    } else if filters_match(fs, s[0].info) {
        seq![s[0]] + kept(s.drop_first(), fs)
    } else {
        kept(s.drop_first(), fs)
    }
}

/// Whether the filter set asks for initialized devices only.
fn check_wants_initialized(fs: &Vec<ScanFilter>) -> (r: bool)
    ensures
        r == wants_initialized(fs@.map_values(|f: ScanFilter| f@)),
{
    let ghost all = fs@.map_values(|f: ScanFilter| f@);
    proof {
        assert(all.skip(0) =~= all);
    }
    let n = fs.len();
    let mut i: usize = 0;
    while i < n
        invariant
            i <= n,
            n == fs@.len(),
            all == fs@.map_values(|f: ScanFilter| f@),
            wants_initialized(all) == wants_initialized(all.skip(i as int)),
        decreases n - i,
    {
        proof {
            assert(all.skip(i as int)[0] == all[i as int]);
            assert(all.skip(i as int).drop_first() =~= all.skip(i as int + 1));
            assert(all[i as int] == fs@[i as int]@);
        }
        if let ScanFilter::IsInitialized = &fs[i] {
            return true;
        }
        i += 1;
    }
    proof {
        assert(all.skip(n as int) =~= Seq::<ScanFilterModel>::empty());
    }
    false
}

/// Whether the filter set names any subsystem to keep.
fn check_wants_subsystem(fs: &Vec<ScanFilter>) -> (r: bool)
    ensures
        r == wants_subsystem(fs@.map_values(|f: ScanFilter| f@)),
{
    let ghost all = fs@.map_values(|f: ScanFilter| f@);
    proof {
        assert(all.skip(0) =~= all);
    }
    let n = fs.len();
    let mut i: usize = 0;
    while i < n
        invariant
            i <= n,
            n == fs@.len(),
            all == fs@.map_values(|f: ScanFilter| f@),
            wants_subsystem(all) == wants_subsystem(all.skip(i as int)),
        decreases n - i,
    {
        proof {
            assert(all.skip(i as int)[0] == all[i as int]);
            assert(all.skip(i as int).drop_first() =~= all.skip(i as int + 1));
            assert(all[i as int] == fs@[i as int]@);
        }
        if let ScanFilter::Subsystem(u) = &fs[i] {
            return true;
        }
        i += 1;
    }
    proof {
        assert(all.skip(n as int) =~= Seq::<ScanFilterModel>::empty());
    }
    false
}

/// Whether the device's subsystem is one of those the filter set keeps.
fn check_subsystem_hit(fs: &Vec<ScanFilter>, device: &Device) -> (r: bool)
    ensures
        r == subsystem_hit(fs@.map_values(|f: ScanFilter| f@), device@.info),
{
    let ghost all = fs@.map_values(|f: ScanFilter| f@);
    proof {
        assert(all.skip(0) =~= all);
    }
    let n = fs.len();
    let mut i: usize = 0;
    while i < n
        invariant
            i <= n,
            n == fs@.len(),
            all == fs@.map_values(|f: ScanFilter| f@),
            subsystem_hit(all, device@.info) == subsystem_hit(all.skip(i as int), device@.info),
        decreases n - i,
    {
        proof {
            assert(all.skip(i as int)[0] == all[i as int]);
            assert(all.skip(i as int).drop_first() =~= all.skip(i as int + 1));
            assert(all[i as int] == fs@[i as int]@);
        }
        if let ScanFilter::Subsystem(s) = &fs[i] {
            let hit = match device.subsystem() {
                Some(d) => util::str_eq(d, s.as_str()),
                None => false,
            };
            if hit {
                return true;
            }
        }
        i += 1;
    }
    proof {
        assert(all.skip(n as int) =~= Seq::<ScanFilterModel>::empty());
    }
    false
}

/// Whether the filter set names any kernel device name to keep.
fn check_wants_sysname(fs: &Vec<ScanFilter>) -> (r: bool)
    ensures
        r == wants_sysname(fs@.map_values(|f: ScanFilter| f@)),
{
    let ghost all = fs@.map_values(|f: ScanFilter| f@);
    proof {
        assert(all.skip(0) =~= all);
    }
    let n = fs.len();
    let mut i: usize = 0;
    while i < n
        invariant
            i <= n,
            n == fs@.len(),
            all == fs@.map_values(|f: ScanFilter| f@),
            wants_sysname(all) == wants_sysname(all.skip(i as int)),
        decreases n - i,
    {
        proof {
            assert(all.skip(i as int)[0] == all[i as int]);
            assert(all.skip(i as int).drop_first() =~= all.skip(i as int + 1));
            assert(all[i as int] == fs@[i as int]@);
        }
        if let ScanFilter::Sysname(u) = &fs[i] {
            return true;
        }
        i += 1;
    }
    proof {
        assert(all.skip(n as int) =~= Seq::<ScanFilterModel>::empty());
    }
    false
}

/// Whether the device's kernel name is one of those the filter set keeps.
fn check_sysname_hit(fs: &Vec<ScanFilter>, device: &Device) -> (r: bool)
    ensures
        r == sysname_hit(fs@.map_values(|f: ScanFilter| f@), device@.info),
{
    let ghost all = fs@.map_values(|f: ScanFilter| f@);
    proof {
        assert(all.skip(0) =~= all);
    }
    let n = fs.len();
    let mut i: usize = 0;
    while i < n
        invariant
            i <= n,
            n == fs@.len(),
            all == fs@.map_values(|f: ScanFilter| f@),
            sysname_hit(all, device@.info) == sysname_hit(all.skip(i as int), device@.info),
        decreases n - i,
    {
        proof {
            assert(all.skip(i as int)[0] == all[i as int]);
            assert(all.skip(i as int).drop_first() =~= all.skip(i as int + 1));
            assert(all[i as int] == fs@[i as int]@);
        }
        if let ScanFilter::Sysname(s) = &fs[i] {
            if util::str_eq(device.sysname(), s.as_str()) {
                return true;
            }
        }
        i += 1;
    }
    proof {
        assert(all.skip(n as int) =~= Seq::<ScanFilterModel>::empty());
    }
    false
}

/// Whether the filter set names any property to keep by.
fn check_wants_property(fs: &Vec<ScanFilter>) -> (r: bool)
    ensures
        r == wants_property(fs@.map_values(|f: ScanFilter| f@)),
{
    let ghost all = fs@.map_values(|f: ScanFilter| f@);
    proof {
        assert(all.skip(0) =~= all);
    }
    let n = fs.len();
    let mut i: usize = 0;
    while i < n
        invariant
            i <= n,
            n == fs@.len(),
            all == fs@.map_values(|f: ScanFilter| f@),
            wants_property(all) == wants_property(all.skip(i as int)),
        decreases n - i,
    {
        proof {
            assert(all.skip(i as int)[0] == all[i as int]);
            assert(all.skip(i as int).drop_first() =~= all.skip(i as int + 1));
            assert(all[i as int] == fs@[i as int]@);
        }
        if let ScanFilter::Property(u, w) = &fs[i] {
            return true;
        }
        i += 1;
    }
    proof {
        assert(all.skip(n as int) =~= Seq::<ScanFilterModel>::empty());
    }
    false
}

/// Whether some property filter of the set names a property the device
/// carries with the asked-for value.
fn check_property_hit(fs: &Vec<ScanFilter>, device: &Device) -> (r: bool)
    ensures
        r == property_hit(fs@.map_values(|f: ScanFilter| f@), device@.info),
{
    let ghost all = fs@.map_values(|f: ScanFilter| f@);
    proof {
        assert(all.skip(0) =~= all);
    }
    let n = fs.len();
    let mut i: usize = 0;
    while i < n
        invariant
            i <= n,
            n == fs@.len(),
            all == fs@.map_values(|f: ScanFilter| f@),
            property_hit(all, device@.info) == property_hit(all.skip(i as int), device@.info),
        decreases n - i,
    {
        proof {
            assert(all.skip(i as int)[0] == all[i as int]);
            assert(all.skip(i as int).drop_first() =~= all.skip(i as int + 1));
            assert(all[i as int] == fs@[i as int]@);
        }
        if let ScanFilter::Property(name, value) = &fs[i] {
            let hit = match list::find_value_in(device.properties_store(), name.as_str()) {
                Some(v) => util::str_eq(v.as_str(), value.as_str()),
                None => false,
            };
            if hit {
                return true;
            }
        }
        i += 1;
    }
    proof {
        assert(all.skip(n as int) =~= Seq::<ScanFilterModel>::empty());
    }
    false
}

/// Whether the device carries, for every attribute filter of the set, the
/// named attribute with the asked-for value.
fn check_attributes_pass(fs: &Vec<ScanFilter>, device: &Device) -> (r: bool)
    ensures
        r == attributes_pass(fs@.map_values(|f: ScanFilter| f@), device@.info),
{
    let ghost all = fs@.map_values(|f: ScanFilter| f@);
    proof {
        assert(all.skip(0) =~= all);
    }
    let n = fs.len();
    let mut i: usize = 0;
    while i < n
        invariant
            i <= n,
            n == fs@.len(),
            all == fs@.map_values(|f: ScanFilter| f@),
            attributes_pass(all, device@.info) == attributes_pass(
                all.skip(i as int),
                device@.info,
            ),
        decreases n - i,
    {
        proof {
            assert(all.skip(i as int)[0] == all[i as int]);
            assert(all.skip(i as int).drop_first() =~= all.skip(i as int + 1));
            assert(all[i as int] == fs@[i as int]@);
        }
        if let ScanFilter::Attribute(name, value) = &fs[i] {
            let hit = match list::find_value_in(device.attributes_store(), name.as_str()) {
                Some(v) => util::str_eq(v.as_str(), value.as_str()),
                None => false,
            };
            if !hit {
                return false;
            }
        }
        i += 1;
    }
    proof {
        assert(all.skip(n as int) =~= Seq::<ScanFilterModel>::empty());
    }
    true
}

/// Whether the device escapes every exclusion of the set.
fn check_exclusions_pass(fs: &Vec<ScanFilter>, device: &Device) -> (r: bool)
    ensures
        r == exclusions_pass(fs@.map_values(|f: ScanFilter| f@), device@.info),
{
    let ghost all = fs@.map_values(|f: ScanFilter| f@);
    proof {
        assert(all.skip(0) =~= all);
    }
    let n = fs.len();
    let mut i: usize = 0;
    while i < n
        invariant
            i <= n,
            n == fs@.len(),
            all == fs@.map_values(|f: ScanFilter| f@),
            exclusions_pass(all, device@.info) == exclusions_pass(
                all.skip(i as int),
                device@.info,
            ),
        decreases n - i,
    {
        proof {
            assert(all.skip(i as int)[0] == all[i as int]);
            assert(all.skip(i as int).drop_first() =~= all.skip(i as int + 1));
            assert(all[i as int] == fs@[i as int]@);
        }
        match &fs[i] {
            ScanFilter::NoSubsystem(s) => {
                let same = match device.subsystem() {
                    Some(d) => util::str_eq(d, s.as_str()),
                    None => false,
                };
                if same {
                    return false;
                }
            },
            ScanFilter::NoAttribute(name, value) => {
                let same = match list::find_value_in(device.attributes_store(), name.as_str()) {
                    Some(v) => util::str_eq(v.as_str(), value.as_str()),
                    None => false,
                };
                if same {
                    return false;
                }
            },
            _ => {},
        }
        i += 1;
    }
    proof {
        assert(all.skip(n as int) =~= Seq::<ScanFilterModel>::empty());
    }
    true
}

/// The view of an optional device.
pub open spec fn opt_device_model(o: Option<Device>) -> Option<DeviceModel> {
    match o {
        Some(d) => Some(d@),
        None => None,
    }
}

/// The devices that resolved among the scan's outcomes, in order.
pub open spec fn resolved(s: Seq<Option<DeviceModel>>) -> Seq<DeviceModel>
    decreases s.len(),
{
    if s.len() == 0 {
        Seq::empty()
    } else {
        match s[0] {
            Some(d) => seq![d] + resolved(s.drop_first()),
            None => resolved(s.drop_first()),
        }
    }
}

/// An iterator over the devices a scan found.
///
/// Each scan result is resolved into a device independently; one that could
/// not be resolved — the device vanished between the scan and the lookup —
/// is skipped silently, so the iterator yields exactly the devices that
/// resolved, in scan order. The walk is forward-only and single-pass.
pub struct Devices {
    items: Vec<Option<Device>>,
    pos: usize,
}

impl Devices {
    /// The resolution outcomes of the scan, in scan order, as the contracts
    /// see them: a device, or nothing for an entry that vanished.
    pub closed spec fn outcomes(&self) -> Seq<Option<DeviceModel>> {
        self.items@.map_values(|o: Option<Device>| opt_device_model(o))
    }

    /// How far the walk has come.
    pub closed spec fn cursor(&self) -> int {
        self.pos as int
    }

    /// The cursor never passes the end of the outcomes.
    pub open spec fn wf(&self) -> bool {
        0 <= self.cursor() <= self.outcomes().len()
    }

    /// The devices still to be yielded: those that resolve among the
    /// outcomes not yet passed.
    pub open spec fn remaining(&self) -> Seq<DeviceModel> {
        resolved(self.outcomes().skip(self.cursor()))
    }

    /// Makes a device walk over the given resolution outcomes.
    pub fn new(items: Vec<Option<Device>>) -> (r: Devices)
        ensures
            r.outcomes() == items@.map_values(|o: Option<Device>| opt_device_model(o)),
            r.cursor() == 0,
            r.wf(),
    {
        Devices { items, pos: 0 }
    }

    /// Yields the next device that resolved, skipping past the outcomes
    /// that did not; yields nothing once no resolved device remains.
    pub fn next(&mut self) -> (r: Option<Device>)
        requires
            old(self).wf(),
        ensures
            final(self).wf(),
            final(self).outcomes() == old(self).outcomes(),
            match r {
                Some(d) => old(self).remaining().len() > 0 && d@ == old(self).remaining()[0]
                    && final(self).remaining() == old(self).remaining().drop_first(),
                None => old(self).remaining().len() == 0 && final(self).remaining().len() == 0,
            },
    {
        let ghost all = self.outcomes();
        let ghost pos0 = self.cursor();
        let n = self.items.len();
        while self.pos < n
            invariant
                pos0 <= self.cursor() <= n,
                n == all.len(),
                all == old(self).outcomes(),
                pos0 == old(self).cursor(),
                self.outcomes() == all,
                all == self.items@.map_values(|o: Option<Device>| opt_device_model(o)),
                resolved(all.skip(pos0)) == resolved(all.skip(self.cursor())),
            decreases n - self.pos,
        {
            let i = self.pos;
            proof {
                assert(all.skip(i as int)[0] == all[i as int]);
                assert(all.skip(i as int).drop_first() =~= all.skip(i as int + 1));
                assert(all[i as int] == opt_device_model(self.items@[i as int]));
            }
            self.pos = i + 1;
            match &self.items[i] {
                Some(d) => {
                    let out = d.clone();
                    proof {
                        assert(resolved(all.skip(i as int)) == seq![out@] + resolved(
                            all.skip(i as int + 1),
                        ));
                        assert((seq![out@] + resolved(all.skip(i as int + 1)))[0] == out@);
                        assert((seq![out@] + resolved(all.skip(i as int + 1))).drop_first()
                            =~= resolved(all.skip(i as int + 1)));
                    }
                    return Some(out);
                },
                None => {},
            }
        }
        proof {
            assert(all.skip(n as int) =~= Seq::<Option<DeviceModel>>::empty());
        }
        None
    }
}

/// Law: subsystem filter correctness. Where the filter set names one
/// subsystem to keep — it holds a subsystem filter, and every subsystem
/// filter it holds names the same value — every device that passes the
/// filters reports exactly that subsystem.
pub proof fn lemma_subsystem_filter_correct(
    fs: Seq<ScanFilterModel>,
    m: DeviceInfoModel,
    x: Seq<char>,
)
    requires
        fs.contains(ScanFilterModel::Subsystem(x)),
        forall|i: int| 0 <= i < fs.len() && fs[i] is Subsystem ==> fs[i]->Subsystem_0 == x,
        filters_match(fs, m),
    ensures
        m.subsystem == Some(x),
{
    lemma_wants_subsystem_of_contains(fs, x);
    lemma_subsystem_hit_names_filter(fs, m, x);
}

/// A filter set that holds a subsystem filter names a subsystem to keep.
proof fn lemma_wants_subsystem_of_contains(fs: Seq<ScanFilterModel>, x: Seq<char>)
    requires
        fs.contains(ScanFilterModel::Subsystem(x)),
    ensures
        wants_subsystem(fs),
    decreases fs.len(),
{
    let i = choose|i: int| 0 <= i < fs.len() && fs[i] == ScanFilterModel::Subsystem(x);
    if i > 0 {
        assert(fs.drop_first()[i - 1] == fs[i]);
        assert(fs.drop_first().contains(ScanFilterModel::Subsystem(x)));
        lemma_wants_subsystem_of_contains(fs.drop_first(), x);
    }
}

/// A device that hits some subsystem filter reports the subsystem that
/// filter names; where all subsystem filters name the same value, that is
/// the one.
proof fn lemma_subsystem_hit_names_filter(
    fs: Seq<ScanFilterModel>,
    m: DeviceInfoModel,
    x: Seq<char>,
)
    requires
        subsystem_hit(fs, m),
        forall|i: int| 0 <= i < fs.len() && fs[i] is Subsystem ==> fs[i]->Subsystem_0 == x,
    ensures
        m.subsystem == Some(x),
    decreases fs.len(),
{
    if fs[0] is Subsystem && m.subsystem == Some(fs[0]->Subsystem_0) {
    } else {
        assert(forall|i: int|
            0 <= i < fs.drop_first().len() && fs.drop_first()[i] is Subsystem ==> fs.drop_first()[i]
                == fs[i + 1] && fs.drop_first()[i]->Subsystem_0 == x);
        lemma_subsystem_hit_names_filter(fs.drop_first(), m, x);
    }
}

/// Law: a scan filtered on one subsystem is correct. Where the filter set
/// names the subsystem to keep, every device the scan model keeps — however
/// many there are — reports exactly that subsystem.
pub proof fn lemma_scan_keeps_the_subsystem(
    s: Seq<DeviceModel>,
    fs: Seq<ScanFilterModel>,
    x: Seq<char>,
    i: int,
)
    requires
        fs.contains(ScanFilterModel::Subsystem(x)),
        forall|j: int| 0 <= j < fs.len() && fs[j] is Subsystem ==> fs[j]->Subsystem_0 == x,
        0 <= i < kept(s, fs).len(),
    ensures
        kept(s, fs)[i].info.subsystem == Some(x),
{
    lemma_kept_devices_pass(s, fs, i);
    lemma_subsystem_filter_correct(fs, kept(s, fs)[i].info, x);
}

/// Law: the devices a scan model keeps are drawn from the candidates in
/// their order — the native dependency order, parents before children — and
/// every kept device passes the filters.
pub proof fn lemma_kept_devices_pass(s: Seq<DeviceModel>, fs: Seq<ScanFilterModel>, i: int)
    requires
        0 <= i < kept(s, fs).len(),
    ensures
        filters_match(fs, kept(s, fs)[i].info),
        s.contains(kept(s, fs)[i]),
    decreases s.len(),
{
    if s.len() > 0 {
        if filters_match(fs, s[0].info) {
            if i == 0 {
                assert(kept(s, fs)[0] == s[0]);
            } else {
                lemma_kept_devices_pass(s.drop_first(), fs, i - 1);
                assert(kept(s, fs)[i] == kept(s.drop_first(), fs)[i - 1]);
                let j = choose|j: int|
                    0 <= j < s.drop_first().len() && s.drop_first()[j] == kept(s, fs)[i];
                assert(s[j + 1] == kept(s, fs)[i]);
            }
        } else {
            lemma_kept_devices_pass(s.drop_first(), fs, i);
            let j = choose|j: int|
                0 <= j < s.drop_first().len() && s.drop_first()[j] == kept(s, fs)[i];
            assert(s[j + 1] == kept(s, fs)[i]);
        }
    }
}

} // verus!
