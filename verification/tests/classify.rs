use lsusb::b_class::classify;
use lsusb::device::USBClassUsage;

fn check(code: &str, usage: USBClassUsage, description: &str) {
    let r = classify(code);
    assert_eq!(r.usage, usage);
    assert_eq!(r.description, description);
}

#[test]
fn classify_returns_the_documented_pair_for_every_table_code() {
    check("00", USBClassUsage::Device, "Use class information in the Interface Descriptors");
    check("01", USBClassUsage::Interface, "Audio");
    check(
        "02",
        USBClassUsage::Both,
        "Communications and Communications Device Class (CDC) Control",
    );
    check("03", USBClassUsage::Interface, "Human Interface Device (HID)");
    check("05", USBClassUsage::Interface, "Physical");
    check("06", USBClassUsage::Interface, "Image");
    check("07", USBClassUsage::Interface, "Printer");
    check("08", USBClassUsage::Interface, "Mass Storage (MSD)");
    check("09", USBClassUsage::Device, "8Hub");
    check("0A", USBClassUsage::Interface, "CDC-Data");
    check("0B", USBClassUsage::Interface, "Smart Card");
    check("0D", USBClassUsage::Interface, "Content Security");
    check("0E", USBClassUsage::Interface, "Wireless Controller");
    check("0F", USBClassUsage::Interface, "Personal Healthcare");
    check("10", USBClassUsage::Interface, "Audio/Video Devices");
    check("11", USBClassUsage::Device, "Billboard");
    check("DC", USBClassUsage::Both, "Diagnostic Device");
    check("EF", USBClassUsage::Both, "Miscellaneous");
    check("FE", USBClassUsage::Interface, "Application specific");
    check("FF", USBClassUsage::Both, "Vendor Specific");
}

#[test]
fn classify_falls_back_for_codes_outside_the_table() {
    check("04", USBClassUsage::Unrecognizable, "");
    check("ZZ", USBClassUsage::Unrecognizable, "");
    check("", USBClassUsage::Unrecognizable, "");
    check("0", USBClassUsage::Unrecognizable, "");
    check("088", USBClassUsage::Unrecognizable, "");
}

#[test]
fn classify_is_case_insensitive() {
    let lower = classify("ff");
    let upper = classify("FF");
    assert_eq!(lower.usage, upper.usage);
    assert_eq!(lower.description, upper.description);
    let lower = classify("ef");
    let upper = classify("EF");
    assert_eq!(lower.usage, upper.usage);
    assert_eq!(lower.description, upper.description);
    check("dc", USBClassUsage::Both, "Diagnostic Device");
    check("0a", USBClassUsage::Interface, "CDC-Data");
}
