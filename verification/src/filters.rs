//! Name filters used by the directory traversal: which entries of the bus
//! root are bus directories, and which entries of a bus are device
//! directories.

use vstd::prelude::*;
use crate::text;

verus! {

/// A device directory directly under a bus: a single digit, a dash and a
/// single digit.
pub open spec fn spec_is_device_dir_name(s: Seq<char>) -> bool {
    s.len() == 3 && text::is_digit(s[0]) && s[1] == '-' && text::is_digit(s[2])
}

/// Does a directory entry name a device directory?
pub fn is_device_dir_name(name: &str) -> (b: bool)
    ensures
        b == spec_is_device_dir_name(name@),
{
    let v = text::chars_of(name);
    if v.len() != 3 {
        return false;
    }
    let c0 = v[0] as u32;
    let c2 = v[2] as u32;
    48 <= c0 && c0 <= 57 && v[1] == '-' && 48 <= c2 && c2 <= 57
}

/// A bus root directory: its name starts with `usb`.
pub open spec fn spec_is_bus_dir_name(s: Seq<char>) -> bool {
    s.len() >= 3 && s[0] == 'u' && s[1] == 's' && s[2] == 'b'
}

/// Does a directory entry name a bus root?
pub fn is_bus_dir_name(name: &str) -> (b: bool)
    ensures
        b == spec_is_bus_dir_name(name@),
{
    let v = text::chars_of(name);
    v.len() >= 3 && v[0] == 'u' && v[1] == 's' && v[2] == 'b'
}

} // verus!
