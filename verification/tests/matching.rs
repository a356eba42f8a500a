use server_usb::devices::{DeviceEntry, UsbDeviceIdentifier, registry_matches};

fn entry(vendor_id: u16, product_id: u16, serial: Option<&str>) -> DeviceEntry {
    DeviceEntry { vendor_id, product_id, serial_number: serial.map(String::from) }
}

#[test]
fn vidpid_matches_entry_without_serial() {
    let id = UsbDeviceIdentifier::VidPid { vid: 0x067e, pid: 0x0809 };
    let devices = vec![entry(0x067e, 0x0809, None)];
    assert!(registry_matches(&devices, &id));
}

#[test]
fn vidpid_matches_entry_with_any_serial() {
    // No serial constraint: any serial number on the live device satisfies it.
    let id = UsbDeviceIdentifier::VidPid { vid: 0x067e, pid: 0x0809 };
    let devices = vec![entry(0x067e, 0x0809, Some("3203-11211268246"))];
    assert!(registry_matches(&devices, &id));
}

#[test]
fn vidpid_rejects_wrong_ids() {
    let id = UsbDeviceIdentifier::VidPid { vid: 0x067e, pid: 0x0809 };
    let devices = vec![entry(0x067f, 0x0809, None), entry(0x067e, 0x080a, None)];
    assert!(!registry_matches(&devices, &id));
}

#[test]
fn vidpidsn_matches_exact_serial() {
    let id = UsbDeviceIdentifier::VidPidSn {
        vid: 0x067e,
        pid: 0x0809,
        sn: String::from("3203-11211268246"),
    };
    let devices = vec![
        entry(0x067e, 0x0809, Some("other")),
        entry(0x067e, 0x0809, Some("3203-11211268246")),
    ];
    assert!(registry_matches(&devices, &id));
}

#[test]
fn vidpidsn_rejects_wrong_serial() {
    let id = UsbDeviceIdentifier::VidPidSn { vid: 0x067e, pid: 0x0809, sn: String::from("abc") };
    let devices = vec![entry(0x067e, 0x0809, Some("abd"))];
    assert!(!registry_matches(&devices, &id));
}

#[test]
fn vidpidsn_serial_is_case_sensitive() {
    let id = UsbDeviceIdentifier::VidPidSn { vid: 1, pid: 2, sn: String::from("Serial") };
    let devices = vec![entry(1, 2, Some("serial"))];
    assert!(!registry_matches(&devices, &id));
}

#[test]
fn vidpidsn_rejects_entry_without_serial() {
    // An entry without a serial number can only satisfy an identifier
    // without a serial constraint.
    let id = UsbDeviceIdentifier::VidPidSn { vid: 1, pid: 2, sn: String::from("abc") };
    let devices = vec![entry(1, 2, None)];
    assert!(!registry_matches(&devices, &id));
}

#[test]
fn empty_registry_matches_nothing() {
    let id = UsbDeviceIdentifier::VidPid { vid: 1, pid: 2 };
    assert!(!registry_matches(&Vec::new(), &id));
}

#[test]
fn match_found_in_the_middle() {
    let id = UsbDeviceIdentifier::VidPid { vid: 5, pid: 6 };
    let devices = vec![entry(1, 2, None), entry(5, 6, Some("x")), entry(7, 8, None)];
    assert!(registry_matches(&devices, &id));
}

#[test]
fn validity_of_identifiers() {
    let plain = UsbDeviceIdentifier::VidPid { vid: 1, pid: 2 };
    assert!(plain.is_valid());
    let with_serial = UsbDeviceIdentifier::VidPidSn { vid: 1, pid: 2, sn: String::from("s") };
    assert!(with_serial.is_valid());
    let empty_serial = UsbDeviceIdentifier::VidPidSn { vid: 1, pid: 2, sn: String::new() };
    assert!(!empty_serial.is_valid());
}
