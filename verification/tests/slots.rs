use hid_touchpad::contacts::Touch;
use hid_touchpad::touchpad::UsbHidTouchpadHandler;

fn touch(identifier: i64, x: u16, y: u16) -> Touch {
    Touch { identifier, x, y }
}

#[test]
fn starts_fill_slots_first_fit_ascending() {
    let mut pad = UsbHidTouchpadHandler::new();
    assert_eq!(pad.contact_count_max(), 4);
    for (k, id) in [10i64, 20, 30, 40].iter().enumerate() {
        pad.touch_start(&vec![touch(*id, 100 + k as u16, 200 + k as u16)]);
        assert_eq!(pad.slot_index_of(*id), Some(k));
    }
    // every slot occupied, in the order the starts arrived
    for k in 0..4usize {
        assert_eq!(
            pad.snapshot(k),
            Some((100 + k as u16, 200 + k as u16))
        );
    }
    // the fifth start finds no free slot and is dropped
    pad.touch_start(&vec![touch(50, 1, 2)]);
    assert_eq!(pad.slot_index_of(50), None);
    for k in 0..4usize {
        assert_eq!(
            pad.snapshot(k),
            Some((100 + k as u16, 200 + k as u16))
        );
    }
}

#[test]
fn start_then_move_updates_coordinates() {
    let mut pad = UsbHidTouchpadHandler::new();
    pad.touch_start(&vec![touch(7, 11, 22)]);
    pad.touch_move(&vec![touch(7, 33, 44)]);
    let slot = pad.slot_index_of(7).unwrap();
    assert_eq!(pad.snapshot(slot), Some((33, 44)));
}

#[test]
fn end_is_final_for_the_identifier() {
    let mut pad = UsbHidTouchpadHandler::new();
    pad.touch_start(&vec![touch(7, 11, 22)]);
    let slot = pad.slot_index_of(7).unwrap();
    pad.touch_end(&vec![touch(7, 0, 0)]);
    assert_eq!(pad.slot_index_of(7), None);
    assert_eq!(pad.snapshot(slot), None);
    // a late move of the ended identifier is ignored
    pad.touch_move(&vec![touch(7, 99, 99)]);
    assert_eq!(pad.slot_index_of(7), None);
    assert_eq!(pad.snapshot(slot), None);
    // so is a second end
    pad.touch_end(&vec![touch(7, 0, 0)]);
    assert_eq!(pad.slot_index_of(7), None);
    assert_eq!(pad.snapshot(slot), None);
}

#[test]
fn cancel_behaves_like_end() {
    let mut pad = UsbHidTouchpadHandler::new();
    pad.touch_start(&vec![touch(5, 1, 2)]);
    let slot = pad.slot_index_of(5).unwrap();
    pad.touch_cancel(&vec![touch(5, 0, 0)]);
    assert_eq!(pad.slot_index_of(5), None);
    assert_eq!(pad.snapshot(slot), None);
}

#[test]
fn freed_slot_is_reused_first_fit() {
    let mut pad = UsbHidTouchpadHandler::new();
    pad.touch_start(&vec![touch(1, 10, 10), touch(2, 20, 20)]);
    assert_eq!(pad.slot_index_of(1), Some(0));
    assert_eq!(pad.slot_index_of(2), Some(1));
    // free slot 0, the lowest index, then start a new identifier
    pad.touch_end(&vec![touch(1, 0, 0)]);
    pad.touch_start(&vec![touch(3, 30, 30)]);
    assert_eq!(pad.slot_index_of(3), Some(0));
    assert_eq!(pad.snapshot(0), Some((30, 30)));
    assert_eq!(pad.snapshot(1), Some((20, 20)));
}

#[test]
fn batch_is_applied_in_order() {
    let mut pad = UsbHidTouchpadHandler::new();
    pad.touch_start(&vec![touch(1, 1, 1), touch(2, 2, 2), touch(3, 3, 3)]);
    assert_eq!(pad.slot_index_of(1), Some(0));
    assert_eq!(pad.slot_index_of(2), Some(1));
    assert_eq!(pad.slot_index_of(3), Some(2));
    assert_eq!(pad.snapshot(3), None);
}

#[test]
fn duplicate_start_is_dropped() {
    let mut pad = UsbHidTouchpadHandler::new();
    pad.touch_start(&vec![touch(9, 1, 1)]);
    // the caller guarantees uniqueness; a duplicate start changes nothing
    pad.touch_start(&vec![touch(9, 5, 5)]);
    assert_eq!(pad.slot_index_of(9), Some(0));
    assert_eq!(pad.snapshot(0), Some((1, 1)));
    assert_eq!(pad.snapshot(1), None);
}

#[test]
fn move_of_unknown_identifier_is_ignored() {
    let mut pad = UsbHidTouchpadHandler::new();
    pad.touch_move(&vec![touch(42, 7, 8)]);
    assert_eq!(pad.slot_index_of(42), None);
    for k in 0..4usize {
        assert_eq!(pad.snapshot(k), None);
    }
}

#[test]
fn single_slot_capacity() {
    let mut pad = UsbHidTouchpadHandler::with_capacity(1);
    assert_eq!(pad.contact_count_max(), 1);
    pad.touch_start(&vec![touch(1, 3, 4), touch(2, 5, 6)]);
    assert_eq!(pad.slot_index_of(1), Some(0));
    assert_eq!(pad.slot_index_of(2), None);
    assert_eq!(pad.snapshot(0), Some((3, 4)));
}
