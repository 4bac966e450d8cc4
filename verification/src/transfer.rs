//! The transfer dispatcher: answers USB transfers against the slot table.
//!
//! A control transfer on endpoint 0 is answered from the recognized
//! (request-type, request, value) combinations: descriptor fetch, idle-rate
//! set, and feature-report fetch; anything else fails that single transfer.
//! An interrupt-IN poll is answered with the input report of the slot under
//! the scan cursor, and the cursor advances round-robin so that every slot
//! is reported over consecutive polls.

use crate::contacts::Touch;
use crate::descriptor::{class_descriptor, class_descriptor_spec};
use crate::touchpad::UsbHidTouchpadHandler;
use vstd::prelude::*;

verus! {

/// The 8-byte setup header of a USB control transfer.
#[derive(Clone, Copy, Debug, PartialEq, Eq, Structural)]
pub struct SetupPacket {
    /// bmRequestType: direction, type and recipient bits.
    pub request_type: u8,
    /// bRequest: the request code.
    pub request: u8,
    /// wValue: request-specific; the high byte selects a descriptor or
    /// report type.
    pub value: u16,
    /// wIndex: request-specific.
    pub index: u16,
    /// wLength: length of the data stage.
    pub length: u16,
}

/// Where a transfer is directed: the control endpoint, or the interrupt
/// endpoint in either direction.
#[derive(Clone, Copy, Debug, PartialEq, Eq, Structural)]
pub enum TransferTarget {
    /// Endpoint 0, a control transfer.
    Control,
    /// The interrupt endpoint, device to host: a poll.
    InterruptIn,
    /// The interrupt endpoint, host to device.
    InterruptOut,
}

/// Failure of a single transfer; the device itself stays usable.
#[derive(Clone, Copy, Debug, PartialEq, Eq, Structural)]
pub enum UrbError {
    /// The control request is not among the recognized combinations.
    UnhandledRequest,
}

/// GET_DESCRIPTOR: device-to-host standard request on the interface.
pub open spec fn is_get_descriptor(setup: SetupPacket) -> bool {
    setup.request_type == 0x81 && setup.request == 0x06
}

/// SET_IDLE: host-to-device class request.
pub open spec fn is_set_idle(setup: SetupPacket) -> bool {
    setup.request_type == 0x21 && setup.request == 0x0A
}

/// GET_REPORT: device-to-host class request.
pub open spec fn is_get_report(setup: SetupPacket) -> bool {
    setup.request_type == 0xA1 && setup.request == 0x01
}

/// The reply owed to a recognized control request, or `None` for an
/// unhandled one: the report descriptor for a Report-type (0x22)
/// GET_DESCRIPTOR, an empty reply for SET_IDLE, and the two feature-report
/// bytes (report id 0x02, then the contact-count maximum) for a
/// Feature-type (0x03) GET_REPORT.
pub open spec fn control_reply(
    descriptor: Seq<u8>,
    max_contacts: u8,
    setup: SetupPacket,
) -> Option<Seq<u8>> {
    if is_get_descriptor(setup) {
        if setup.value / 256 == 0x22 {
            Some(descriptor)
        } else {
            None
        }
    } else if is_set_idle(setup) {
        Some(Seq::empty())
    } else if is_get_report(setup) {
        if setup.value / 256 == 0x03 {
            Some(seq![0x02u8, max_contacts])
        } else {
            None
        }
    } else {
        None
    }
}

/// The input report for the slot under the cursor: report id 0x01; then
/// the slot index in the upper five bits with tip-switch, in-range and
/// data-valid flags below it, asserted exactly when the slot is occupied;
/// then little-endian X and little-endian Y, zero for a free slot.
pub open spec fn input_report_spec(s: Seq<Option<Touch>>, cursor: int) -> Seq<u8>
    recommends
        0 <= cursor < s.len(),
        cursor <= 30,
{
    match s[cursor] {
        Some(t) => seq![
            0x01u8,
            (cursor * 8 + 7) as u8,
            (t.x as int % 256) as u8,
            (t.x as int / 256) as u8,
            (t.y as int % 256) as u8,
            (t.y as int / 256) as u8,
        ],
        None => seq![0x01u8, (cursor * 8) as u8, 0u8, 0u8, 0u8, 0u8],
    }
}

impl UsbHidTouchpadHandler {
    /// The class-specific HID descriptor advertising the report
    /// descriptor's length.
    pub fn get_class_specific_descriptor(&self) -> (r: Vec<u8>)
        requires
            self.wf(),
        ensures
            r@ == class_descriptor_spec(self.descriptor_seq().len() as int),
    {
        class_descriptor(self.report_descriptor_bytes().len())
    }

    /// The configured report descriptor bytes.
    pub fn report_descriptor_bytes(&self) -> (r: &Vec<u8>)
        ensures
            r@ == self.descriptor_seq(),
    {
        self.descriptor_ref()
    }

    /// Builds the interrupt-IN input report for the slot under the cursor.
    fn build_input_report(&self) -> (r: Vec<u8>)
        requires
            self.wf(),
        ensures
            r@ == input_report_spec(self.slots_seq(), self.cursor()),
    {
        let idx = self.scan_cursor();
        let mut buf: Vec<u8> = Vec::new();
        buf.push(0x01);
        match self.snapshot(idx as usize) {
            Some((x, y)) => {
                buf.push(idx * 8 + 7);
                buf.push((x % 256) as u8);
                buf.push((x / 256) as u8);
                buf.push((y % 256) as u8);
                buf.push((y / 256) as u8);
            },
            None => {
                buf.push(idx * 8);
                buf.push(0);
                buf.push(0);
                buf.push(0);
                buf.push(0);
            },
        }
        proof {
            assert(buf@ =~= input_report_spec(self.slots_seq(), self.cursor()));
        }
        buf
    }

    /// Answers one USB transfer.
    ///
    /// A control transfer is answered per `control_reply` and leaves the
    /// state untouched; an unrecognized request fails that transfer alone.
    /// An interrupt-IN poll returns the input report of the slot under the
    /// cursor and advances the cursor by one, wrapping at the capacity.
    /// An interrupt-OUT transfer has nothing to report and returns an
    /// empty reply.
    pub fn handle_urb(&mut self, target: TransferTarget, setup: SetupPacket) -> (r: Result<
        Vec<u8>,
        UrbError,
    >)
        requires
            old(self).wf(),
        ensures
            final(self).wf(),
            final(self).max_contacts() == old(self).max_contacts(),
            final(self).descriptor_seq() == old(self).descriptor_seq(),
            final(self).slots_seq() == old(self).slots_seq(),
            match target {
                TransferTarget::Control => {
                    &&& final(self).cursor() == old(self).cursor()
                    &&& match control_reply(
                        old(self).descriptor_seq(),
                        old(self).max_contacts(),
                        setup,
                    ) {
                        Some(bytes) => r matches Ok(v) && v@ == bytes,
                        None => r == Err::<Vec<u8>, UrbError>(UrbError::UnhandledRequest),
                    }
                },
                TransferTarget::InterruptIn => {
                    &&& final(self).cursor() == (old(self).cursor() + 1) % old(self).capacity()
                    &&& r matches Ok(v) && v@ == input_report_spec(
                        old(self).slots_seq(),
                        old(self).cursor(),
                    )
                },
                TransferTarget::InterruptOut => {
                    &&& final(self).cursor() == old(self).cursor()
                    &&& r matches Ok(v) && v@.len() == 0
                },
            },
    {
        match target {
            TransferTarget::Control => {
                if setup.request_type == 0x81 && setup.request == 0x06 {
                    // GET_DESCRIPTOR: the high byte of wValue selects the
                    // descriptor type.
                    if setup.value / 256 == 0x22 {
                        let mut out: Vec<u8> = Vec::new();
                        out.extend_from_slice(self.report_descriptor_bytes().as_slice());
                        proof {
                            assert(out@ =~= self.descriptor_seq());
                        }
                        Ok(out)
                    } else {
                        Err(UrbError::UnhandledRequest)
                    }
                } else if setup.request_type == 0x21 && setup.request == 0x0A {
                    // SET_IDLE: acknowledged, nothing to answer.
                    Ok(Vec::new())
                } else if setup.request_type == 0xA1 && setup.request == 0x01 {
                    // GET_REPORT: only the feature report is recognized.
                    if setup.value / 256 == 0x03 {
                        let mut out: Vec<u8> = Vec::new();
                        out.push(0x02);
                        out.push(self.contact_count_max());
                        proof {
                            assert(out@ =~= seq![0x02u8, self.max_contacts()]);
                        }
                        Ok(out)
                    } else {
                        Err(UrbError::UnhandledRequest)
                    }
                } else {
                    Err(UrbError::UnhandledRequest)
                }
            },
            TransferTarget::InterruptIn => {
                let buf = self.build_input_report();
                self.advance_cursor();
                Ok(buf)
            },
            TransferTarget::InterruptOut => Ok(Vec::new()),
        }
    }
}

} // verus!

