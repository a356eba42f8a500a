use vstd::prelude::*;

verus! {

/// Identifier for the USB HID POS devices this library can target.
///
/// A device is selected either by its vendor/product id pair alone, or by the
/// pair narrowed further to one exact serial number.
#[derive(Debug, Clone, PartialEq, Eq)]
pub enum UsbDeviceIdentifier {
    /// A device matching a vendor ID (vid) and a product ID (pid).
    VidPid { vid: u16, pid: u16 },
    /// A device matching a vendor ID (vid), a product ID (pid) and a
    /// (usually) unique product serial number (sn).
    VidPidSn { vid: u16, pid: u16, sn: String },
}

/// One attached device as the registry collaborator reports it: vendor id,
/// product id and, when the device exposes one, its serial number.
#[derive(Debug, Clone, PartialEq, Eq)]
pub struct DeviceEntry {
    pub vendor_id: u16,
    pub product_id: u16,
    pub serial_number: Option<String>,
}

impl UsbDeviceIdentifier {
    /// The vendor id this identifier asks for.
    pub open spec fn spec_vid(self) -> u16 {
        match self {
            UsbDeviceIdentifier::VidPid { vid, .. } => vid,
            UsbDeviceIdentifier::VidPidSn { vid, .. } => vid,
        }
    }

    /// The product id this identifier asks for.
    pub open spec fn spec_pid(self) -> u16 {
        match self {
            UsbDeviceIdentifier::VidPid { pid, .. } => pid,
            UsbDeviceIdentifier::VidPidSn { pid, .. } => pid,
        }
    }

    /// The serial-number constraint, if the identifier carries one.
    pub open spec fn spec_serial(self) -> Option<Seq<char>> {
        match self {
            UsbDeviceIdentifier::VidPid { .. } => None,
            UsbDeviceIdentifier::VidPidSn { sn, .. } => Some(sn@),
        }
    }

    /// A well-formed identifier never constrains the serial number to the
    /// empty string; such a value is a misconfiguration and is rejected at
    /// construction time.
    pub open spec fn valid(self) -> bool {
        match self.spec_serial() {
            None => true,
            Some(sn) => sn.len() > 0,
        }
    }

    /// Runtime check matching `valid`, for callers outside verified code.
    pub fn is_valid(&self) -> (r: bool)
        ensures
            r == self.valid(),
    {
        match self {
            UsbDeviceIdentifier::VidPid { .. } => true,
            UsbDeviceIdentifier::VidPidSn { sn, .. } => !sn.as_str().is_empty(),
        }
    }
}

/// One live entry satisfies the identifier when the vendor and product ids
/// are equal and, if the identifier constrains the serial number, the entry
/// carries exactly that serial number (case-sensitive). An identifier without
/// a serial constraint accepts any serial number, including none at all.
pub open spec fn spec_matches_entry(id: UsbDeviceIdentifier, entry: DeviceEntry) -> bool {
    &&& entry.vendor_id == id.spec_vid()
    &&& entry.product_id == id.spec_pid()
    &&& match id.spec_serial() {
        None => true,
        Some(sn) => entry.serial_number matches Some(s) && s@ == sn,
    }
}

/// A registry snapshot matches the identifier exactly when some entry in it
/// satisfies the identifier.
pub open spec fn spec_registry_matches(devices: Seq<DeviceEntry>, id: UsbDeviceIdentifier) -> bool {
    exists|i: int| 0 <= i < devices.len() && spec_matches_entry(id, #[trigger] devices[i])
}

/// Whether one live entry satisfies the target identifier.
pub fn matches_entry(id: &UsbDeviceIdentifier, entry: &DeviceEntry) -> (r: bool)
    ensures
        r == spec_matches_entry(*id, *entry),
{
    match id {
        UsbDeviceIdentifier::VidPid { vid, pid } => {
            entry.vendor_id == *vid && entry.product_id == *pid
        },
        UsbDeviceIdentifier::VidPidSn { vid, pid, sn } => {
            entry.vendor_id == *vid && entry.product_id == *pid && match &entry.serial_number {
                Some(s) => *s == *sn,
                None => false,
            }
        },
    }
}

/// Whether some device in the live snapshot satisfies the target identifier:
/// true exactly when an entry with equal vendor and product ids exists whose
/// serial number meets the identifier's constraint, if it has one.
pub fn registry_matches(devices: &Vec<DeviceEntry>, id: &UsbDeviceIdentifier) -> (r: bool)
    ensures
        r == spec_registry_matches(devices@, *id),
{
    let mut i: usize = 0;
    while i < devices.len()
        invariant
            0 <= i <= devices.len(),
            forall|j: int| 0 <= j < i ==> !spec_matches_entry(*id, #[trigger] devices@[j]),
        decreases devices.len() - i,
    {
        if matches_entry(id, &devices[i]) {
            return true;
        }
        i = i + 1;
    }
    false
}

} // verus!
