//! Extractor for the `configuration` attribute file: the device's
//! self-reported name, kept verbatim.

use vstd::prelude::*;
use vstd::utf8::{decode_utf8, valid_utf8};
use crate::UsbError;
use crate::device::{DeviceModel, USBDevice};

verus! {

/// What the `configuration` attribute bytes yield: absent when nothing was
/// read, otherwise the bytes decoded as UTF-8 text, untrimmed. Bytes that
/// are not valid UTF-8 are a fatal decoding error for the device.
pub open spec fn spec_name_field(data: Seq<u8>) -> Result<Option<Seq<char>>, UsbError> {
    if data.len() == 0 {
        Ok(None)
    } else if valid_utf8(data) {
        Ok(Some(decode_utf8(data)))
    } else {
        Err(UsbError::DecodeError)
    }
}

/// Relies on std's `str::from_utf8`: it succeeds exactly on valid UTF-8
/// input and decodes the bytes to their characters, as modelled by vstd's
/// `valid_utf8` and `decode_utf8`.
#[verifier::external_body]
fn decode_utf8_bytes(data: &[u8]) -> (r: Option<String>)
    ensures
        r is Some <==> valid_utf8(data@),
        r matches Some(s) ==> s@ == decode_utf8(data@),
{
    match std::str::from_utf8(data) {
        Ok(s) => Some(s.to_string()),
        Err(_) => None,
    }
}

/// Fill the record's `name` field from the `configuration` attribute
/// bytes; on an error the record is untouched.
pub fn retrieve(data: &[u8], dev: &mut USBDevice) -> (r: Result<(), UsbError>)
    ensures
        (match spec_name_field(data@) {
            Ok(n) => r is Ok && final(dev)@ == (DeviceModel { name: n, ..old(dev)@ }),
            Err(e) => r == Err::<(), UsbError>(e) && final(dev)@ == old(dev)@,
        }),
{
    if data.len() == 0 {
        dev.name = None;
        return Ok(());
    }
    match decode_utf8_bytes(data) {
        Some(s) => {
            dev.name = Some(s);
            Ok(())
        },
        None => Err(UsbError::DecodeError),
    }
}

} // verus!
