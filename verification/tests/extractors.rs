use lsusb::UsbError;
use lsusb::bus_chan;
use lsusb::configuration;
use lsusb::device::USBDevice;
use lsusb::manufacturer;

fn fresh() -> USBDevice {
    USBDevice { bus_chan: None, b_class: None, name: None, manufacturer: None }
}

#[test]
fn topology_of_a_bus_channel_name_is_the_single_mapping() {
    let mut dev = fresh();
    assert_eq!(bus_chan::write("3-4", &mut dev), Ok(()));
    assert_eq!(dev.bus_chan, Some((3, 4)));

    let mut dev = fresh();
    assert_eq!(bus_chan::write("0-255", &mut dev), Ok(()));
    assert_eq!(dev.bus_chan, Some((0, 255)));

    let mut dev = fresh();
    assert_eq!(bus_chan::write("12 - 7", &mut dev), Ok(()));
    assert_eq!(dev.bus_chan, Some((12, 7)));
}

#[test]
fn topology_of_the_port_placeholder_is_absent() {
    let mut dev = fresh();
    dev.bus_chan = Some((9, 9));
    assert_eq!(bus_chan::write("port", &mut dev), Ok(()));
    assert_eq!(dev.bus_chan, None);
}

#[test]
fn topology_of_a_malformed_name_is_a_fatal_error() {
    for bad in ["", "34", "3x4", "-", "3-", "-4", "a-b", "300-1", "1-256", "1-2-3", "ports"] {
        let mut dev = fresh();
        assert_eq!(bus_chan::write(bad, &mut dev), Err(UsbError::MalformedTopology));
        assert_eq!(dev.bus_chan, None);
    }
}

#[test]
fn manufacturer_formats_the_first_byte_in_hexadecimal() {
    let mut dev = fresh();
    assert_eq!(manufacturer::write(&[10], &mut dev), Ok(()));
    assert_eq!(dev.manufacturer.as_deref(), Some("0x0a"));

    let mut dev = fresh();
    assert_eq!(manufacturer::write(&[255], &mut dev), Ok(()));
    assert_eq!(dev.manufacturer.as_deref(), Some("0xff"));

    let mut dev = fresh();
    assert_eq!(manufacturer::write(&[0, 77], &mut dev), Ok(()));
    assert_eq!(dev.manufacturer.as_deref(), Some("0x00"));
}

#[test]
fn manufacturer_of_an_empty_file_is_a_fatal_error() {
    let mut dev = fresh();
    assert_eq!(manufacturer::write(&[], &mut dev), Err(UsbError::IoError));
    assert_eq!(dev.manufacturer, None);
}

#[test]
fn name_of_an_empty_file_is_absent() {
    let mut dev = fresh();
    dev.name = Some(String::from("stale"));
    assert_eq!(configuration::retrieve(&[], &mut dev), Ok(()));
    assert_eq!(dev.name, None);
}

#[test]
fn name_is_kept_verbatim() {
    let mut dev = fresh();
    assert_eq!(configuration::retrieve(b"hub", &mut dev), Ok(()));
    assert_eq!(dev.name.as_deref(), Some("hub"));

    let mut dev = fresh();
    assert_eq!(configuration::retrieve(b" spaced out \n", &mut dev), Ok(()));
    assert_eq!(dev.name.as_deref(), Some(" spaced out \n"));
}

#[test]
fn name_decodes_multibyte_text() {
    let mut dev = fresh();
    assert_eq!(configuration::retrieve("caf\u{e9}".as_bytes(), &mut dev), Ok(()));
    assert_eq!(dev.name.as_deref(), Some("caf\u{e9}"));
}

#[test]
fn name_that_is_not_text_is_a_fatal_error() {
    let mut dev = fresh();
    assert_eq!(configuration::retrieve(&[0xff, 0xfe], &mut dev), Err(UsbError::DecodeError));
    assert_eq!(dev.name, None);
}
