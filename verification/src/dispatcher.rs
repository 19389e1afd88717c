//! Descriptor-type dispatch: the one decision point that routes a device
//! directory either into record assembly or into a reported, unsupported
//! outcome.

use vstd::prelude::*;
use crate::UsbError;
use crate::device::{ChildFile, ChildModel, DeviceModel, USBDevice};
use crate::device;

verus! {

/// The result of dispatching one device directory: a device record for
/// descriptor type one, or the raw type code of a known-but-unimplemented
/// or unknown descriptor. The latter is a reportable outcome, not an
/// error.
#[derive(Debug, PartialEq)]
pub enum DescriptorOutcome {
    Device(USBDevice),
    UnsupportedDescriptor(u8),
}

/// Mathematical model of a dispatch outcome.
pub enum OutcomeModel {
    Device(DeviceModel),
    UnsupportedDescriptor(u8),
}

impl View for DescriptorOutcome {
    type V = OutcomeModel;

    open spec fn view(&self) -> OutcomeModel {
        match self {
            DescriptorOutcome::Device(d) => OutcomeModel::Device(d@),
            DescriptorOutcome::UnsupportedDescriptor(t) => OutcomeModel::UnsupportedDescriptor(*t),
        }
    }
}

/// The decoded value of the descriptor-type byte: its value as an ASCII
/// decimal digit, or nothing when the byte is no digit.
pub open spec fn spec_descriptor_code(b: u8) -> Option<u8> {
    if 48 <= b && b <= 57 {
        Some((b - 48) as u8)
    } else {
        None
    }
}

/// Decode the single byte of the descriptor-type file as an ASCII digit.
/// A byte that is no digit cannot select a descriptor type and is a fatal
/// decoding error for the directory.
pub fn decode_descriptor_type(b: u8) -> (r: Result<u8, UsbError>)
    ensures
        (match spec_descriptor_code(b) {
            Some(d) => r == Ok::<u8, UsbError>(d),
            None => r == Err::<u8, UsbError>(UsbError::DecodeError),
        }),
{
    if 48 <= b && b <= 57 {
        Ok(b - 48)
    } else {
        Err(UsbError::DecodeError)
    }
}

/// What dispatching a directory yields: descriptor type one assembles a
/// device record; every other decoded digit is reported as unsupported,
/// untouched by the record assembler.
pub open spec fn spec_dispatch(b: u8, name: Seq<char>, children: Seq<ChildModel>) -> Result<
    OutcomeModel,
    UsbError,
> {
    match spec_descriptor_code(b) {
        None => Err(UsbError::DecodeError),
        Some(d) => if d == 1 {
            match device::spec_parse(name, children) {
                Ok(m) => Ok(OutcomeModel::Device(m)),
                Err(e) => Err(e),
            }
        } else {
            Ok(OutcomeModel::UnsupportedDescriptor(d))
        },
    }
}

/// Dispatch one device directory by its descriptor-type byte. Only type
/// one reads the directory snapshot; types two to six and any other digit
/// are returned as `UnsupportedDescriptor` without looking at the
/// children.
pub fn dispatch(type_byte: u8, dir_name: &str, children: &Vec<ChildFile>) -> (r: Result<
    DescriptorOutcome,
    UsbError,
>)
    ensures
        (match spec_dispatch(type_byte, dir_name@, children@.map_values(|c: ChildFile| c@)) {
            Ok(m) => r matches Ok(o) && o@ == m,
            Err(e) => r == Err::<DescriptorOutcome, UsbError>(e),
        }),
{
    let d = match decode_descriptor_type(type_byte) {
        Ok(d) => d,
        Err(e) => {
            return Err(e);
        },
    };
    if d == 1 {
        match device::parse(dir_name, children) {
            Ok(dev) => Ok(DescriptorOutcome::Device(dev)),
            Err(e) => Err(e),
        }
    } else {
        Ok(DescriptorOutcome::UnsupportedDescriptor(d))
    }
}

} // verus!
