//! The transient records the monitor works on — device descriptors and
//! analog readings — and the exact console lines they print as.

use vstd::prelude::*;
use vstd::string::StrSliceExecFns;
use vstd::string::StringExecFns;

use crate::render::analog_view;
use crate::render::analog_fixed4;
use crate::render::dec_view;
use crate::render::hex4;
use crate::render::hex4_view;
use crate::render::u64_dec;

verus! {

/// The category a connected device reports itself as.
#[derive(Clone, Copy, Debug, PartialEq, Eq, Structural)]
pub enum DeviceKind {
    Keyboard,
    Keypad,
    Other,
}

impl DeviceKind {
    /// The category's display label.
    pub open spec fn label_view(self) -> Seq<char> {
        match self {
            DeviceKind::Keyboard => "Keyboard"@,
            DeviceKind::Keypad => "Keypad"@,
            DeviceKind::Other => "Other"@,
        }
    }

    /// Returns the display label of the category.
    pub fn label(&self) -> (s: &'static str)
        ensures
            s@ == self.label_view(),
    {
        match self {
            DeviceKind::Keyboard => "Keyboard",
            DeviceKind::Keypad => "Keypad",
            DeviceKind::Other => "Other",
        }
    }
}

/// One connected device, as the enumeration reports it. The identifier is an
/// implementation-defined token, carried here as the text it displays as.
#[derive(Clone, Debug, PartialEq, Eq)]
pub struct DeviceInfo {
    pub vendor_id: u16,
    pub product_id: u16,
    pub manufacturer_name: String,
    pub device_name: String,
    pub device_id: String,
    pub device_kind: DeviceKind,
}

/// The console line a device prints as, at position `index` of the listing:
/// its index, vendor and product IDs as four uppercase hexadecimal digits,
/// names, identifier and category.
pub open spec fn device_line_view(index: nat, d: DeviceInfo) -> Seq<char> {
    "Device "@ + dec_view(index) + ": VID: "@ + hex4_view(d.vendor_id) + ", PID: "@ + hex4_view(
        d.product_id,
    ) + ", Manufacturer: "@ + d.manufacturer_name@ + ", Name: "@ + d.device_name@ + ", ID: "@
        + d.device_id@ + ", Type: "@ + d.device_kind.label_view()
}

/// Renders the console line for `d` at position `index` of the listing.
pub fn device_line(index: usize, d: &DeviceInfo) -> (s: String)
    ensures
        s@ == device_line_view(index as nat, *d),
{
    let mut s = "Device ".to_owned();
    s.append(u64_dec(index as u64).as_str());
    s.append(": VID: ");
    s.append(hex4(d.vendor_id).as_str());
    s.append(", PID: ");
    s.append(hex4(d.product_id).as_str());
    s.append(", Manufacturer: ");
    s.append(d.manufacturer_name.as_str());
    s.append(", Name: ");
    s.append(d.device_name.as_str());
    s.append(", ID: ");
    s.append(d.device_id.as_str());
    s.append(", Type: ");
    s.append(d.device_kind.label());
    proof {
        assert(s@ =~= device_line_view(index as nat, *d));
    }
    s
}

/// One key's analog state in a snapshot: the key identifier and how far the
/// key is pressed, in ten-thousandths of the full travel.
#[derive(Clone, Copy, Debug, PartialEq, Eq, Structural)]
pub struct AnalogReading {
    pub key_id: u16,
    pub magnitude_ten_thousandths: u16,
}

/// The console line an analog reading prints as: the key identifier in
/// decimal and the magnitude with exactly four fractional digits.
pub open spec fn key_line_view(r: AnalogReading) -> Seq<char> {
    "Key ID: "@ + dec_view(r.key_id as nat) + ", Analog Value: "@ + analog_view(
        r.magnitude_ten_thousandths,
    )
}

/// Renders the console line for one analog reading.
pub fn key_line(r: &AnalogReading) -> (s: String)
    ensures
        s@ == key_line_view(*r),
{
    let mut s = "Key ID: ".to_owned();
    s.append(u64_dec(r.key_id as u64).as_str());
    s.append(", Analog Value: ");
    s.append(analog_fixed4(r.magnitude_ten_thousandths).as_str());
    proof {
        assert(s@ =~= key_line_view(*r));
    }
    s
}

} // verus!
