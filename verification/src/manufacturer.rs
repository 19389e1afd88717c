//! Extractor for the `manufacturer` attribute file: the first byte,
//! rendered as a `0x`-prefixed two-digit lower-case hexadecimal value.

use vstd::prelude::*;
use vstd::string::StringExecFns;
use crate::UsbError;
use crate::device::{DeviceModel, USBDevice};

verus! {

/// The lower-case hexadecimal digit for a value below sixteen.
pub open spec fn hex_digit_seq(d: u8) -> Seq<char>
    recommends
        d < 16,
{
    if d == 0 {
        "0"@
    } else if d == 1 {
        "1"@
    } else if d == 2 {
        "2"@
    } else if d == 3 {
        "3"@
    } else if d == 4 {
        "4"@
    } else if d == 5 {
        "5"@
    } else if d == 6 {
        "6"@
    } else if d == 7 {
        "7"@
    } else if d == 8 {
        "8"@
    } else if d == 9 {
        "9"@
    } else if d == 10 {
        "a"@
    } else if d == 11 {
        "b"@
    } else if d == 12 {
        "c"@
    } else if d == 13 {
        "d"@
    } else if d == 14 {
        "e"@
    } else {
        "f"@
    }
}

/// A byte as a `0x`-prefixed two-digit lower-case hexadecimal literal.
pub open spec fn spec_hex_byte(b: u8) -> Seq<char> {
    "0x"@ + hex_digit_seq(b / 16) + hex_digit_seq(b % 16)
}

/// What the `manufacturer` attribute bytes yield: the first byte in
/// hexadecimal. An empty file means the mandatory attribute could not be
/// read.
pub open spec fn spec_manu_field(data: Seq<u8>) -> Result<Seq<char>, UsbError> {
    if data.len() == 0 {
        Err(UsbError::IoError)
    } else {
        Ok(spec_hex_byte(data[0]))
    }
}

fn hex_digit_str(d: u8) -> (r: &'static str)
    requires
        d < 16,
    ensures
        r@ == hex_digit_seq(d),
{
    if d == 0 {
        "0"
    } else if d == 1 {
        "1"
    } else if d == 2 {
        "2"
    } else if d == 3 {
        "3"
    } else if d == 4 {
        "4"
    } else if d == 5 {
        "5"
    } else if d == 6 {
        "6"
    } else if d == 7 {
        "7"
    } else if d == 8 {
        "8"
    } else if d == 9 {
        "9"
    } else if d == 10 {
        "a"
    } else if d == 11 {
        "b"
    } else if d == 12 {
        "c"
    } else if d == 13 {
        "d"
    } else if d == 14 {
        "e"
    } else {
        "f"
    }
}

/// Render a byte as `0x` followed by two lower-case hexadecimal digits.
pub fn hex_byte(b: u8) -> (s: String)
    ensures
        s@ == spec_hex_byte(b),
{
    let mut s = String::from_str("0x");
    s.append(hex_digit_str(b / 16));
    s.append(hex_digit_str(b % 16));
    proof {
        assert(s@ =~= spec_hex_byte(b));
    }
    s
}

/// Fill the record's `manufacturer` field from the first byte of the
/// `manufacturer` attribute file; on an error the record is untouched.
pub fn write(data: &[u8], dev: &mut USBDevice) -> (r: Result<(), UsbError>)
    ensures
        (match spec_manu_field(data@) {
            Ok(m) => r is Ok && final(dev)@ == (DeviceModel {
                manufacturer: Some(m),
                ..old(dev)@
            }),
            Err(e) => r == Err::<(), UsbError>(e) && final(dev)@ == old(dev)@,
        }),
{
    if data.len() == 0 {
        return Err(UsbError::IoError);
    }
    let s = hex_byte(data[0]);
    dev.manufacturer = Some(s);
    Ok(())
}

} // verus!
