//! A safe, verified model of a binding to the system device manager.
//!
//! The native library owns the device database and the event socket; this
//! crate states and verifies the discipline the binding layers on top of it:
//! reference-counted handle ownership, list-entry iteration, filter
//! validation, and event classification.

pub mod context;
pub mod device;
pub mod enumerator;
pub mod error;
pub mod hwdb;
pub mod list;
pub mod monitor;
pub mod raw;
pub mod udev;
pub mod util;

pub use context::Context;
pub use device::Attributes;
pub use device::Device;
pub use device::DeviceInfo;
pub use device::DeviceInfoModel;
pub use device::DeviceModel;
pub use device::DeviceType;
pub use device::Properties;
pub use enumerator::Devices;
pub use enumerator::Enumerator;
pub use enumerator::ScanFilter;
pub use enumerator::ScanFilterModel;
pub use error::Error;
pub use error::ErrorKind;
pub use hwdb::Hwdb;
pub use list::Entry;
pub use list::EntryList;
pub use list::EntryModel;
pub use list::List;
pub use monitor::Builder as MonitorBuilder;
pub use monitor::Event;
pub use monitor::EventType;
pub use monitor::MonitorFilter;
pub use monitor::MonitorFilterModel;
pub use monitor::Socket as MonitorSocket;
pub use raw::AsRaw;
pub use raw::AsRawWithContext;
pub use raw::FromRaw;
pub use raw::FromRawWithContext;
pub use raw::RefCount;
pub use udev::Udev;
