use hid_touchpad::contacts::Touch;
use hid_touchpad::touchpad::UsbHidTouchpadHandler;
use hid_touchpad::transfer::{SetupPacket, TransferTarget, UrbError};

fn setup(request_type: u8, request: u8, value: u16) -> SetupPacket {
    SetupPacket {
        request_type,
        request,
        value,
        index: 0,
        length: 0,
    }
}

const EXPECTED_DESCRIPTOR: [u8; 84] = [
    0x05, 0x0D, 0x09, 0x04, 0xA1, 0x01, 0x85, 0x01, 0x09, 0x22, 0xA1, 0x00, 0x09, 0x42, 0x15,
    0x00, 0x25, 0x01, 0x75, 0x01, 0x95, 0x01, 0x81, 0x02, 0x09, 0x32, 0x81, 0x02, 0x09, 0x37,
    0x81, 0x02, 0x25, 0x1F, 0x75, 0x05, 0x09, 0x51, 0x81, 0x02, 0x05, 0x01, 0x55, 0x0E, 0x65,
    0x11, 0x35, 0x00, 0x75, 0x10, 0x46, 0x58, 0x02, 0x26, 0xFF, 0x0F, 0x09, 0x30, 0x81, 0x02,
    0x46, 0x58, 0x02, 0x26, 0xFF, 0x0F, 0x09, 0x31, 0x81, 0x02, 0x05, 0x0D, 0x75, 0x08, 0x85,
    0x02, 0x09, 0x55, 0x25, 0x10, 0xB1, 0x02, 0xC0, 0xC0,
];

#[test]
fn get_descriptor_returns_report_descriptor() {
    let mut pad = UsbHidTouchpadHandler::new();
    let r = pad
        .handle_urb(TransferTarget::Control, setup(0x81, 0x06, 0x2200))
        .unwrap();
    assert_eq!(r, EXPECTED_DESCRIPTOR.to_vec());
    assert_eq!(r, pad.report_descriptor_bytes().clone());
}

#[test]
fn get_descriptor_of_other_type_fails() {
    let mut pad = UsbHidTouchpadHandler::new();
    // HID class descriptor type (0x21) is not served by this request
    let r = pad.handle_urb(TransferTarget::Control, setup(0x81, 0x06, 0x2100));
    assert_eq!(r, Err(UrbError::UnhandledRequest));
    // Physical descriptor type (0x23) neither
    let r = pad.handle_urb(TransferTarget::Control, setup(0x81, 0x06, 0x2300));
    assert_eq!(r, Err(UrbError::UnhandledRequest));
}

#[test]
fn set_idle_is_acknowledged_empty() {
    let mut pad = UsbHidTouchpadHandler::new();
    let r = pad
        .handle_urb(TransferTarget::Control, setup(0x21, 0x0A, 0))
        .unwrap();
    assert!(r.is_empty());
}

#[test]
fn feature_report_is_id_and_contact_count() {
    let mut pad = UsbHidTouchpadHandler::new();
    let r = pad
        .handle_urb(TransferTarget::Control, setup(0xA1, 0x01, 0x0300))
        .unwrap();
    assert_eq!(r, vec![0x02, 4]);
}

#[test]
fn get_report_of_other_type_fails() {
    let mut pad = UsbHidTouchpadHandler::new();
    // input report type (0x01) is only served on the interrupt endpoint
    let r = pad.handle_urb(TransferTarget::Control, setup(0xA1, 0x01, 0x0100));
    assert_eq!(r, Err(UrbError::UnhandledRequest));
}

#[test]
fn unrecognized_control_request_fails() {
    let mut pad = UsbHidTouchpadHandler::new();
    let r = pad.handle_urb(TransferTarget::Control, setup(0x00, 0x05, 0));
    assert_eq!(r, Err(UrbError::UnhandledRequest));
}

#[test]
fn interrupt_out_returns_empty() {
    let mut pad = UsbHidTouchpadHandler::new();
    let r = pad
        .handle_urb(TransferTarget::InterruptOut, setup(0, 0, 0))
        .unwrap();
    assert!(r.is_empty());
}

#[test]
fn class_descriptor_header() {
    let pad = UsbHidTouchpadHandler::new();
    // 84-byte report descriptor: little-endian length 84, 0
    assert_eq!(
        pad.get_class_specific_descriptor(),
        vec![0x09, 0x21, 0x11, 0x01, 0x00, 0x01, 0x22, 84, 0]
    );
}

#[test]
fn poll_scenario_start_report_end_report() {
    let mut pad = UsbHidTouchpadHandler::new();
    // capacity 4, all slots empty; one contact starts
    pad.touch_start(&vec![Touch {
        identifier: 10,
        x: 100,
        y: 200,
    }]);
    assert_eq!(pad.slot_index_of(10), Some(0));
    assert_eq!(pad.snapshot(0), Some((100, 200)));
    // poll with the cursor at slot 0: occupied, flags 0b111
    assert_eq!(pad.scan_cursor(), 0);
    let r = pad
        .handle_urb(TransferTarget::InterruptIn, setup(0, 0, 0))
        .unwrap();
    assert_eq!(r, vec![0x01, 0b0000_0111, 100, 0, 200, 0]);
    // the cursor rotates over the remaining (free) slots
    for k in 1..4u8 {
        assert_eq!(pad.scan_cursor(), k);
        let r = pad
            .handle_urb(TransferTarget::InterruptIn, setup(0, 0, 0))
            .unwrap();
        assert_eq!(r, vec![0x01, k << 3, 0, 0, 0, 0]);
    }
    // the contact ends; the next poll, back at slot 0, reports it free
    pad.touch_end(&vec![Touch {
        identifier: 10,
        x: 0,
        y: 0,
    }]);
    assert_eq!(pad.scan_cursor(), 0);
    let r = pad
        .handle_urb(TransferTarget::InterruptIn, setup(0, 0, 0))
        .unwrap();
    assert_eq!(r, vec![0x01, 0b0000_0000, 0, 0, 0, 0]);
}

#[test]
fn poll_reports_little_endian_coordinates() {
    let mut pad = UsbHidTouchpadHandler::with_capacity(1);
    pad.touch_start(&vec![Touch {
        identifier: 1,
        x: 0x0ABC,
        y: 0x0FFF,
    }]);
    let r = pad
        .handle_urb(TransferTarget::InterruptIn, setup(0, 0, 0))
        .unwrap();
    assert_eq!(r, vec![0x01, 0b0000_0111, 0xBC, 0x0A, 0xFF, 0x0F]);
}

#[test]
fn control_transfers_leave_the_slots_alone() {
    let mut pad = UsbHidTouchpadHandler::new();
    pad.touch_start(&vec![Touch {
        identifier: 3,
        x: 9,
        y: 9,
    }]);
    let _ = pad.handle_urb(TransferTarget::Control, setup(0x81, 0x06, 0x2200));
    let _ = pad.handle_urb(TransferTarget::Control, setup(0x00, 0x05, 0));
    assert_eq!(pad.snapshot(0), Some((9, 9)));
    assert_eq!(pad.scan_cursor(), 0);
}
