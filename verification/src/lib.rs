//! Verified core of a USB device enumerator.
//!
//! The host exposes one directory per attached device in a pseudo-filesystem.
//! This library holds the decision logic of the enumerator: reading a device
//! directory's descriptor-type byte, assembling a device record from the
//! directory's attribute files, parsing the bus/channel topology out of the
//! directory name, classifying the device's functional class through the
//! USB-IF class-code table, and rendering the record. All file reading stays
//! with the caller; every function here works on plain values and is verified.

use vstd::prelude::*;

pub mod b_class;
pub mod bus_chan;
pub mod configuration;
pub mod device;
pub mod dispatcher;
pub mod filters;
pub mod manufacturer;
pub mod text;

verus! {

/// A fatal condition for one device directory. One malformed directory is
/// reported through this type instead of stopping the whole enumeration.
#[derive(Clone, Copy, Debug, PartialEq, Eq, Structural)]
pub enum UsbError {
    /// The directory name is neither `port` nor a `<bus>-<channel>` pair.
    MalformedTopology,
    /// A mandatory attribute file is missing or empty.
    IoError,
    /// Attribute bytes are not in the expected text encoding.
    DecodeError,
}

} // verus!
