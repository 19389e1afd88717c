use lsusb::UsbError;
use lsusb::device::{ChildFile, USBClassUsage, USBDevice};
use lsusb::device;
use lsusb::dispatcher::{decode_descriptor_type, dispatch, DescriptorOutcome};
use lsusb::filters;

fn child(name: &str, data: &[u8]) -> ChildFile {
    ChildFile { name: String::from(name), data: data.to_vec() }
}

fn device_children() -> Vec<ChildFile> {
    vec![
        child("bDeviceClass", b"08"),
        child("configuration", b"MassStorage"),
        child("manufacturer", &[0x05]),
    ]
}

#[test]
fn device_descriptor_yields_a_full_record() {
    let outcome = dispatch(b'1', "1-2", &device_children()).unwrap();
    match outcome {
        DescriptorOutcome::Device(dev) => {
            assert_eq!(dev.bus_chan, Some((1, 2)));
            let class = dev.b_class.unwrap();
            assert_eq!(class.usage, USBClassUsage::Interface);
            assert_eq!(class.description, "Mass Storage (MSD)");
            assert_eq!(dev.name.as_deref(), Some("MassStorage"));
            assert_eq!(dev.manufacturer.as_deref(), Some("0x05"));
        },
        DescriptorOutcome::UnsupportedDescriptor(t) => {
            panic!("expected a device record, got unsupported type {}", t)
        },
    }
}

#[test]
fn other_descriptor_types_are_reported_without_reading_device_files() {
    // The children carry attribute bytes that would be fatal for a device
    // descriptor; a type-3 directory must not look at them.
    let poisoned = vec![child("bDeviceClass", &[0xff, 0xfe]), child("manufacturer", &[])];
    let outcome = dispatch(b'3', "1-2", &poisoned).unwrap();
    assert_eq!(outcome, DescriptorOutcome::UnsupportedDescriptor(3));
    for (byte, code) in [(b'2', 2), (b'4', 4), (b'5', 5), (b'6', 6), (b'0', 0), (b'9', 9)] {
        let outcome = dispatch(byte, "1-2", &poisoned).unwrap();
        assert_eq!(outcome, DescriptorOutcome::UnsupportedDescriptor(code));
    }
}

#[test]
fn a_type_byte_that_is_no_digit_is_a_decode_error() {
    assert_eq!(decode_descriptor_type(b'x'), Err(UsbError::DecodeError));
    assert_eq!(decode_descriptor_type(b'7'), Ok(7));
    assert_eq!(dispatch(b'x', "1-2", &device_children()), Err(UsbError::DecodeError));
}

#[test]
fn assembly_is_idempotent_over_an_unchanged_snapshot() {
    let children = device_children();
    let first = device::parse("1-2", &children);
    let second = device::parse("1-2", &children);
    assert_eq!(first, second);
    let first = dispatch(b'1', "1-2", &children);
    let second = dispatch(b'1', "1-2", &children);
    assert_eq!(first, second);
}

#[test]
fn missing_mandatory_attributes_are_fatal() {
    let no_class = vec![child("configuration", b"hub"), child("manufacturer", &[0x05])];
    assert_eq!(device::parse("1-2", &no_class), Err(UsbError::IoError));
    let no_manu = vec![child("bDeviceClass", b"08"), child("configuration", b"hub")];
    assert_eq!(device::parse("1-2", &no_manu), Err(UsbError::IoError));
    let short_class = vec![child("bDeviceClass", b"0"), child("manufacturer", &[0x05])];
    assert_eq!(device::parse("1-2", &short_class), Err(UsbError::IoError));
}

#[test]
fn unrecognized_children_are_ignored_and_a_bad_name_is_fatal() {
    let mut children = device_children();
    children.push(child("bMaxPower", b"100mA"));
    let dev = match dispatch(b'1', "3-7", &children).unwrap() {
        DescriptorOutcome::Device(dev) => dev,
        DescriptorOutcome::UnsupportedDescriptor(t) => {
            panic!("expected a device record, got unsupported type {}", t)
        },
    };
    assert_eq!(dev.bus_chan, Some((3, 7)));
    assert_eq!(dispatch(b'1', "bad name", &children), Err(UsbError::MalformedTopology));
}

#[test]
fn non_ascii_class_bytes_are_a_decode_error() {
    let children = vec![child("bDeviceClass", &[0xc3, 0xa9]), child("manufacturer", &[0x05])];
    assert_eq!(device::parse("1-2", &children), Err(UsbError::DecodeError));
}

#[test]
fn print_renders_one_line_per_present_field() {
    let dev = match dispatch(b'1', "1-2", &device_children()).unwrap() {
        DescriptorOutcome::Device(dev) => dev,
        DescriptorOutcome::UnsupportedDescriptor(t) => {
            panic!("expected a device record, got unsupported type {}", t)
        },
    };
    let rendered = device::print(&dev);
    assert_eq!(
        rendered,
        "Bus 1 Channel 2\nClass: Interface - Mass Storage (MSD)\nName: MassStorage\nManufacturer: 0x05\n"
    );
    let bare = USBDevice { bus_chan: None, b_class: None, name: None, manufacturer: None };
    assert_eq!(device::print(&bare), "Port (no device attached)\n");
}

#[test]
fn directory_name_filters_match_the_expected_shapes() {
    assert!(filters::is_device_dir_name("1-2"));
    assert!(filters::is_device_dir_name("9-0"));
    assert!(!filters::is_device_dir_name("10-2"));
    assert!(!filters::is_device_dir_name("1-23"));
    assert!(!filters::is_device_dir_name("port"));
    assert!(!filters::is_device_dir_name("a-b"));
    assert!(filters::is_bus_dir_name("usb1"));
    assert!(filters::is_bus_dir_name("usb"));
    assert!(!filters::is_bus_dir_name("us"));
    assert!(!filters::is_bus_dir_name("bus1"));
}
