//! The Report Descriptor Provider: fixed HID descriptor byte sequences.
//!
//! The report descriptor is the binary grammar the simulated USB host uses
//! to decode the digitizer's input and feature reports; it is configuration
//! data copied verbatim from the emulated device class.  The class
//! descriptor is the 9-byte HID header that points at it.

use vstd::prelude::*;

verus! {

/// The report descriptor of the emulated digitizer: one application
/// collection with a single finger (tip switch, in range, data valid, a
/// 5-bit contact identifier, 16-bit X and Y) and a feature report carrying
/// the contact-count maximum.
pub open spec fn report_descriptor_spec() -> Seq<u8> {
    seq![
        0x05u8, 0x0D, // Usage Page (Digitizer)
        0x09, 0x04, // Usage (Touch Screen)
        0xA1, 0x01, // Collection (Application)
        0x85, 0x01, //   Report ID (1)
        0x09, 0x22, //   Usage (Finger)
        0xA1, 0x00, //   Collection (Physical)
        0x09, 0x42, //     Usage (Tip Switch)
        0x15, 0x00, //     Logical Minimum (0)
        0x25, 0x01, //     Logical Maximum (1)
        0x75, 0x01, //     Report Size (1)
        0x95, 0x01, //     Report Count (1)
        0x81, 0x02, //     Input (Data,Var,Abs)
        0x09, 0x32, //     Usage (In Range)
        0x81, 0x02, //     Input (Data,Var,Abs)
        0x09, 0x37, //     Usage (Data Valid)
        0x81, 0x02, //     Input (Data,Var,Abs)
        0x25, 0x1F, //     Logical Maximum (31, Contact Identifier)
        0x75, 0x05, //     Report Size (5)
        0x09, 0x51, //     Usage (Contact Identifier)
        0x81, 0x02, //     Input (Data,Var,Abs)
        0x05, 0x01, //     Usage Page (Generic Desktop Ctrls)
        0x55, 0x0E, //     Unit Exponent (-2)
        0x65, 0x11, //     Unit (SI Linear, Centimeter)
        0x35, 0x00, //     Physical Minimum (0)
        0x75, 0x10, //     Report Size (16)
        0x46, 0x58, 0x02, // Physical Maximum (600)
        0x26, 0xFF, 0x0F, // Logical Maximum (4095)
        0x09, 0x30, //     Usage (X)
        0x81, 0x02, //     Input (Data,Var,Abs)
        0x46, 0x58, 0x02, // Physical Maximum (600)
        0x26, 0xFF, 0x0F, // Logical Maximum (4095)
        0x09, 0x31, //     Usage (Y)
        0x81, 0x02, //     Input (Data,Var,Abs)
        0x05, 0x0D, //     Usage Page (Digitizer)
        0x75, 0x08, //     Report Size (8)
        0x85, 0x02, //     Report ID (2)
        0x09, 0x55, //     Usage (Contact Count Maximum)
        0x25, 0x10, //     Logical Maximum (16)
        0xB1, 0x02, //     Feature (Data,Var,Abs)
        0xC0, //   End Collection
        0xC0, // End Collection
    ]
}

/// Builds the report descriptor bytes.
pub fn report_descriptor() -> (r: Vec<u8>)
    ensures
        r@ == report_descriptor_spec(),
{
    let r: Vec<u8> = vec![
        0x05, 0x0D, 0x09, 0x04, 0xA1, 0x01, 0x85, 0x01, 0x09, 0x22, 0xA1, 0x00, 0x09, 0x42,
        0x15, 0x00, 0x25, 0x01, 0x75, 0x01, 0x95, 0x01, 0x81, 0x02, 0x09, 0x32, 0x81, 0x02,
        0x09, 0x37, 0x81, 0x02, 0x25, 0x1F, 0x75, 0x05, 0x09, 0x51, 0x81, 0x02, 0x05, 0x01,
        0x55, 0x0E, 0x65, 0x11, 0x35, 0x00, 0x75, 0x10, 0x46, 0x58, 0x02, 0x26, 0xFF, 0x0F,
        0x09, 0x30, 0x81, 0x02, 0x46, 0x58, 0x02, 0x26, 0xFF, 0x0F, 0x09, 0x31, 0x81, 0x02,
        0x05, 0x0D, 0x75, 0x08, 0x85, 0x02, 0x09, 0x55, 0x25, 0x10, 0xB1, 0x02, 0xC0, 0xC0,
    ];
    proof {
        assert(r@ =~= report_descriptor_spec());
    }
    r
}

/// The class-specific HID descriptor: length 9, HID type tag, bcdHID 1.11,
/// country code 0, one sub-descriptor of Report type, and the little-endian
/// 16-bit length of the report descriptor.
pub open spec fn class_descriptor_spec(desc_len: int) -> Seq<u8> {
    seq![
        0x09u8,
        0x21,
        0x11,
        0x01,
        0x00,
        0x01,
        0x22,
        (desc_len % 256) as u8,
        (desc_len / 256) as u8,
    ]
}

/// Builds the class descriptor header for a report descriptor of the given
/// length.
pub fn class_descriptor(desc_len: usize) -> (r: Vec<u8>)
    requires
        desc_len <= 0xFFFF,
    ensures
        r@ == class_descriptor_spec(desc_len as int),
{
    let mut r: Vec<u8> = Vec::new();
    r.push(0x09);
    r.push(0x21);
    r.push(0x11);
    r.push(0x01);
    r.push(0x00);
    r.push(0x01);
    r.push(0x22);
    r.push((desc_len % 256) as u8);
    r.push((desc_len / 256) as u8);
    proof {
        assert(r@ =~= class_descriptor_spec(desc_len as int));
    }
    r
}

} // verus!
