//! The class-code table and the extractor that fills the `b_class` field
//! from the `bDeviceClass` attribute file.

use vstd::prelude::*;
use vstd::string::StringExecFns;
use crate::UsbError;
use crate::device::{ClassModel, DeviceModel, USBClassUsage, USBDevice, USBDeviceClass};
use crate::text;

verus! {

/// The fixed USB-IF class-code table, keyed by the two upper-case
/// characters of the code. Codes outside the table fall back to
/// `Unrecognizable` with an empty description; that is a defined outcome,
/// not an error.
pub open spec fn spec_class_of(c0: char, c1: char) -> ClassModel {
    if c0 == '0' && c1 == '0' {
        ClassModel {
            usage: USBClassUsage::Device,
            description: "Use class information in the Interface Descriptors"@,
        }
    } else if c0 == '0' && c1 == '1' {
        ClassModel { usage: USBClassUsage::Interface, description: "Audio"@ }
    } else if c0 == '0' && c1 == '2' {
        ClassModel {
            usage: USBClassUsage::Both,
            description: "Communications and Communications Device Class (CDC) Control"@,
        }
    } else if c0 == '0' && c1 == '3' {
        ClassModel { usage: USBClassUsage::Interface, description: "Human Interface Device (HID)"@ }
    } else if c0 == '0' && c1 == '5' {
        ClassModel { usage: USBClassUsage::Interface, description: "Physical"@ }
    } else if c0 == '0' && c1 == '6' {
        ClassModel { usage: USBClassUsage::Interface, description: "Image"@ }
    } else if c0 == '0' && c1 == '7' {
        ClassModel { usage: USBClassUsage::Interface, description: "Printer"@ }
    } else if c0 == '0' && c1 == '8' {
        ClassModel { usage: USBClassUsage::Interface, description: "Mass Storage (MSD)"@ }
    } else if c0 == '0' && c1 == '9' {
        ClassModel { usage: USBClassUsage::Device, description: "8Hub"@ }
    } else if c0 == '0' && c1 == 'A' {
        ClassModel { usage: USBClassUsage::Interface, description: "CDC-Data"@ }
    } else if c0 == '0' && c1 == 'B' {
        ClassModel { usage: USBClassUsage::Interface, description: "Smart Card"@ }
    } else if c0 == '0' && c1 == 'D' {
        ClassModel { usage: USBClassUsage::Interface, description: "Content Security"@ }
    } else if c0 == '0' && c1 == 'E' {
        ClassModel { usage: USBClassUsage::Interface, description: "Wireless Controller"@ }
    } else if c0 == '0' && c1 == 'F' {
        ClassModel { usage: USBClassUsage::Interface, description: "Personal Healthcare"@ }
    } else if c0 == '1' && c1 == '0' {
        ClassModel { usage: USBClassUsage::Interface, description: "Audio/Video Devices"@ }
    } else if c0 == '1' && c1 == '1' {
        ClassModel { usage: USBClassUsage::Device, description: "Billboard"@ }
    } else if c0 == 'D' && c1 == 'C' {
        ClassModel { usage: USBClassUsage::Both, description: "Diagnostic Device"@ }
    } else if c0 == 'E' && c1 == 'F' {
        ClassModel { usage: USBClassUsage::Both, description: "Miscellaneous"@ }
    } else if c0 == 'F' && c1 == 'E' {
        ClassModel { usage: USBClassUsage::Interface, description: "Application specific"@ }
    } else if c0 == 'F' && c1 == 'F' {
        ClassModel { usage: USBClassUsage::Both, description: "Vendor Specific"@ }
    } else {
        ClassModel { usage: USBClassUsage::Unrecognizable, description: Seq::empty() }
    }
}

/// Exact-match lookup of a class code: the code is folded to upper case and
/// must be exactly two characters; everything else is the fallback.
pub open spec fn spec_classify(code: Seq<char>) -> ClassModel {
    if code.len() == 2 {
        spec_class_of(text::to_upper(code[0]), text::to_upper(code[1]))
    } else {
        ClassModel { usage: USBClassUsage::Unrecognizable, description: Seq::empty() }
    }
}

fn to_upper_char(c: char) -> (r: char)
    ensures
        r == text::to_upper(c),
{
    let u = c as u32;
    if 97 <= u && u <= 122 {
        ((c as u8) - 32) as char
    } else {
        c
    }
}

fn classify_chars(v: &Vec<char>) -> (r: USBDeviceClass)
    ensures
        r@ == spec_classify(v@),
{
    if v.len() != 2 {
        return USBDeviceClass { usage: USBClassUsage::Unrecognizable, description: String::new() };
    }
    let c0 = to_upper_char(v[0]);
    let c1 = to_upper_char(v[1]);
    if c0 == '0' && c1 == '0' {
        USBDeviceClass {
            usage: USBClassUsage::Device,
            description: String::from_str("Use class information in the Interface Descriptors"),
        }
    } else if c0 == '0' && c1 == '1' {
        USBDeviceClass { usage: USBClassUsage::Interface, description: String::from_str("Audio") }
    } else if c0 == '0' && c1 == '2' {
        USBDeviceClass {
            usage: USBClassUsage::Both,
            description: String::from_str(
                "Communications and Communications Device Class (CDC) Control",
            ),
        }
    } else if c0 == '0' && c1 == '3' {
        USBDeviceClass {
            usage: USBClassUsage::Interface,
            description: String::from_str("Human Interface Device (HID)"),
        }
    } else if c0 == '0' && c1 == '5' {
        USBDeviceClass {
            usage: USBClassUsage::Interface,
            description: String::from_str("Physical"),
        }
    } else if c0 == '0' && c1 == '6' {
        USBDeviceClass { usage: USBClassUsage::Interface, description: String::from_str("Image") }
    } else if c0 == '0' && c1 == '7' {
        USBDeviceClass { usage: USBClassUsage::Interface, description: String::from_str("Printer") }
    } else if c0 == '0' && c1 == '8' {
        USBDeviceClass {
            usage: USBClassUsage::Interface,
            description: String::from_str("Mass Storage (MSD)"),
        }
    } else if c0 == '0' && c1 == '9' {
        USBDeviceClass { usage: USBClassUsage::Device, description: String::from_str("8Hub") }
    } else if c0 == '0' && c1 == 'A' {
        USBDeviceClass {
            usage: USBClassUsage::Interface,
            description: String::from_str("CDC-Data"),
        }
    } else if c0 == '0' && c1 == 'B' {
        USBDeviceClass {
            usage: USBClassUsage::Interface,
            description: String::from_str("Smart Card"),
        }
    } else if c0 == '0' && c1 == 'D' {
        USBDeviceClass {
            usage: USBClassUsage::Interface,
            description: String::from_str("Content Security"),
        }
    } else if c0 == '0' && c1 == 'E' {
        USBDeviceClass {
            usage: USBClassUsage::Interface,
            description: String::from_str("Wireless Controller"),
        }
    } else if c0 == '0' && c1 == 'F' {
        USBDeviceClass {
            usage: USBClassUsage::Interface,
            description: String::from_str("Personal Healthcare"),
        }
    } else if c0 == '1' && c1 == '0' {
        USBDeviceClass {
            usage: USBClassUsage::Interface,
            description: String::from_str("Audio/Video Devices"),
        }
    } else if c0 == '1' && c1 == '1' {
        USBDeviceClass { usage: USBClassUsage::Device, description: String::from_str("Billboard") }
    } else if c0 == 'D' && c1 == 'C' {
        USBDeviceClass {
            usage: USBClassUsage::Both,
            description: String::from_str("Diagnostic Device"),
        }
    } else if c0 == 'E' && c1 == 'F' {
        USBDeviceClass {
            usage: USBClassUsage::Both,
            description: String::from_str("Miscellaneous"),
        }
    } else if c0 == 'F' && c1 == 'E' {
        USBDeviceClass {
            usage: USBClassUsage::Interface,
            description: String::from_str("Application specific"),
        }
    } else if c0 == 'F' && c1 == 'F' {
        USBDeviceClass {
            usage: USBClassUsage::Both,
            description: String::from_str("Vendor Specific"),
        }
    } else {
        USBDeviceClass { usage: USBClassUsage::Unrecognizable, description: String::new() }
    }
}

/// Look a class code up in the USB-IF table. Matching is case-insensitive
/// and exact: any code that is not a two-character table key yields the
/// `Unrecognizable` fallback with an empty description.
pub fn classify(code: &str) -> (r: USBDeviceClass)
    ensures
        r@ == spec_classify(code@),
{
    let v = text::chars_of(code);
    classify_chars(&v)
}

/// Case-insensitivity of the class-code table: two codes that agree after
/// upper-case folding classify identically.
pub proof fn lemma_classify_case_insensitive(a: Seq<char>, b: Seq<char>)
    requires
        a.map_values(|c: char| text::to_upper(c)) == b.map_values(|c: char| text::to_upper(c)),
    ensures
        spec_classify(a) == spec_classify(b),
{
    let fa = a.map_values(|c: char| text::to_upper(c));
    let fb = b.map_values(|c: char| text::to_upper(c));
    assert(fa.len() == a.len());
    assert(fb.len() == b.len());
    if a.len() == 2 {
        assert(fa[0] == text::to_upper(a[0]));
        assert(fa[1] == text::to_upper(a[1]));
        assert(fb[0] == text::to_upper(b[0]));
        assert(fb[1] == text::to_upper(b[1]));
    }
}

/// What the `bDeviceClass` attribute bytes yield: the first two bytes, as
/// ASCII characters, trimmed and looked up in the table. Fewer than two
/// bytes mean the mandatory attribute could not be read; a non-ASCII byte
/// is not the expected encoding.
pub open spec fn spec_class_field(data: Seq<u8>) -> Result<ClassModel, UsbError> {
    if data.len() < 2 {
        Err(UsbError::IoError)
    } else if data[0] >= 128 || data[1] >= 128 {
        Err(UsbError::DecodeError)
    } else {
        Ok(spec_classify(text::trim_spec(seq![data[0] as char, data[1] as char])))
    }
}

/// Fill the record's `b_class` field from the `bDeviceClass` attribute
/// bytes; on an error the record is untouched.
pub fn write(data: &[u8], dev: &mut USBDevice) -> (r: Result<(), UsbError>)
    ensures
        (match spec_class_field(data@) {
            Ok(c) => r is Ok && final(dev)@ == (DeviceModel { b_class: Some(c), ..old(dev)@ }),
            Err(e) => r == Err::<(), UsbError>(e) && final(dev)@ == old(dev)@,
        }),
{
    if data.len() < 2 {
        return Err(UsbError::IoError);
    }
    let b0 = data[0];
    let b1 = data[1];
    if b0 >= 128 || b1 >= 128 {
        return Err(UsbError::DecodeError);
    }
    let mut v: Vec<char> = Vec::new();
    v.push(b0 as char);
    v.push(b1 as char);
    proof {
        assert(v@ =~= seq![data@[0] as char, data@[1] as char]);
    }
    let t = text::trim(&v);
    let cls = classify_chars(&t);
    dev.b_class = Some(cls);
    Ok(())
}

} // verus!
