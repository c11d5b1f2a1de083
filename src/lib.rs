//! A stable, identifier-based view of the USB devices of a host: an identity
//! table that issues one identifier per device seen, attribute lookup along a
//! device's ancestry, and the reconciliation of hotplug events with the table.
use vstd::prelude::*;

mod context;
mod device;
mod error;
mod id;
mod monitor;

pub use context::Context;
pub use device::{Attribute, Device, DeviceNode};
pub use error::Error;
pub use id::Id;
pub use monitor::{Async, Event, EventType, HotplugMonitor, RawEvent, Wake};

verus! {

} // verus!
