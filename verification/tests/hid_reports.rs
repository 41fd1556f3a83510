use rustkvm::hid::{
    abs_mouse_report_bytes, abs_wheel_report_bytes, after_wait, apply_keypress,
    keyboard_report_bytes, led_report_update, modifier_mask, parse_keyboard_state,
    rel_mouse_report_bytes, write_step, HidWriteCmd, KeyboardState, KeysDownState, WarnLimiter,
    WriteOutcome, WriteStep, HID_DEV_ABS_MOUSE, HID_DEV_KEYBOARD, HID_DEV_REL_MOUSE,
};

#[test]
fn modifier_mask_maps_modifier_usages_to_bits() {
    assert_eq!(modifier_mask(0xE0), Some(0x01));
    assert_eq!(modifier_mask(0xE1), Some(0x02));
    assert_eq!(modifier_mask(0xE7), Some(0x80));
    assert_eq!(modifier_mask(0x04), None);
    assert_eq!(modifier_mask(0xE8), None);
}

#[test]
fn keypress_of_modifier_sets_and_clears_its_bit() {
    let mut s = KeysDownState::default();
    apply_keypress(&mut s, 0xE1, true);
    assert_eq!(s.modifier, 0x02);
    apply_keypress(&mut s, 0xE0, true);
    assert_eq!(s.modifier, 0x03);
    apply_keypress(&mut s, 0xE1, false);
    assert_eq!(s.modifier, 0x01);
    assert_eq!(s.keys, [0; 6]);
}

#[test]
fn keypress_fills_slots_from_the_front_and_release_shifts_up() {
    let mut s = KeysDownState::default();
    s.keypress(0x04, true);
    s.keypress(0x05, true);
    s.keypress(0x06, true);
    assert_eq!(s.keys, [0x04, 0x05, 0x06, 0, 0, 0]);
    s.keypress(0x05, true);
    assert_eq!(s.keys, [0x04, 0x05, 0x06, 0, 0, 0]);
    s.keypress(0x05, false);
    assert_eq!(s.keys, [0x04, 0x06, 0, 0, 0, 0]);
    s.keypress(0x07, false);
    assert_eq!(s.keys, [0x04, 0x06, 0, 0, 0, 0]);
}

#[test]
fn seventh_key_rolls_over() {
    let mut s = KeysDownState::default();
    for k in 0x04..0x0A {
        s.keypress(k, true);
    }
    assert_eq!(s.keys, [0x04, 0x05, 0x06, 0x07, 0x08, 0x09]);
    s.keypress(0x0A, true);
    assert_eq!(s.keys, [1; 6]);
}

#[test]
fn key_slots_stay_packed_without_repeats() {
    let mut s = KeysDownState::default();
    for (k, press) in [(0x04, true), (0x05, true), (0x04, true), (0xE2, true), (0x04, false), (0x06, true), (0x05, true)] {
        apply_keypress(&mut s, k, press);
    }
    assert_eq!(s.keys, [0x05, 0x06, 0, 0, 0, 0]);
    assert_eq!(s.modifier, 0x04);
    for k in 0x07..0x0C {
        apply_keypress(&mut s, k, true);
    }
    assert_eq!(s.keys, [1; 6]);
    apply_keypress(&mut s, 0x05, false);
    assert_eq!(s.keys, [1; 6]);
    apply_keypress(&mut s, 0xE2, false);
    assert_eq!(s.keys, [1; 6]);
    assert_eq!(s.modifier, 0);
}

#[test]
fn set_report_keeps_the_first_six_keys() {
    let mut s = KeysDownState::default();
    s.set_report(0x22, &[1, 2, 3, 4, 5, 6, 7, 8]);
    assert_eq!(s.modifier, 0x22);
    assert_eq!(s.keys, [1, 2, 3, 4, 5, 6]);
    s.set_report(0, &[9]);
    assert_eq!(s.keys, [9, 0, 0, 0, 0, 0]);
}

#[test]
fn led_byte_is_decoded_bit_by_bit() {
    let s = parse_keyboard_state(0b00011);
    assert!(s.num_lock && s.caps_lock);
    assert!(!s.scroll_lock && !s.compose && !s.kana);
    let all = parse_keyboard_state(0x1F);
    assert!(all.num_lock && all.caps_lock && all.scroll_lock && all.compose && all.kana);
}

#[test]
fn led_report_update_takes_only_one_valid_changed_byte() {
    let cur = KeyboardState::default();
    assert_eq!(led_report_update(cur, &[0x02]), Some(parse_keyboard_state(0x02)));
    assert_eq!(led_report_update(cur, &[0x00]), None);
    assert_eq!(led_report_update(cur, &[0x20]), None);
    assert_eq!(led_report_update(cur, &[0x02, 0x00]), None);
    assert_eq!(led_report_update(cur, &[]), None);
}

#[test]
fn keyboard_report_layout() {
    assert_eq!(keyboard_report_bytes(0x02, &[0x04, 0x05]), [0x02, 0, 0x04, 0x05, 0, 0, 0, 0]);
    assert_eq!(
        keyboard_report_bytes(0, &[1, 2, 3, 4, 5, 6, 7]),
        [0, 0, 1, 2, 3, 4, 5, 6]
    );
}

#[test]
fn abs_mouse_report_is_little_endian() {
    assert_eq!(abs_mouse_report_bytes(0x1234, 0x7FFF, 1), [1, 1, 0x34, 0x12, 0xFF, 0x7F]);
    assert_eq!(abs_mouse_report_bytes(-1, 0, 0), [1, 0, 0xFF, 0xFF, 0, 0]);
}

#[test]
fn wheel_report_only_when_moved() {
    assert_eq!(abs_wheel_report_bytes(0), None);
    assert_eq!(abs_wheel_report_bytes(-1), Some([2, 0xFF]));
    assert_eq!(abs_wheel_report_bytes(3), Some([2, 3]));
}

#[test]
fn rel_mouse_report_layout() {
    assert_eq!(rel_mouse_report_bytes(-2, 5, 4), [4, 0xFE, 5, 0]);
}

#[test]
fn write_commands_go_to_their_devices() {
    let k = HidWriteCmd::Keyboard([0; 8]);
    assert_eq!(k.device_and_payload().0, HID_DEV_KEYBOARD);
    let w = HidWriteCmd::AbsWheel([2, 1]);
    assert_eq!(w.device_and_payload(), (HID_DEV_ABS_MOUSE, &[2u8, 1u8][..]));
    let r = HidWriteCmd::RelMouse([0, 1, 2, 0]);
    assert_eq!(r.device_and_payload().0, HID_DEV_REL_MOUSE);
}

#[test]
fn write_step_outcomes() {
    assert_eq!(write_step(WriteOutcome::Wrote(8), 8, 50), WriteStep::Done);
    assert_eq!(write_step(WriteOutcome::Wrote(3), 8, 50), WriteStep::Short);
    assert_eq!(write_step(WriteOutcome::WouldBlock, 8, 40), WriteStep::WaitWritable(40));
    assert_eq!(write_step(WriteOutcome::WouldBlock, 8, 0), WriteStep::TimedOut);
    assert_eq!(write_step(WriteOutcome::Interrupted, 8, 0), WriteStep::Retry);
    assert_eq!(write_step(WriteOutcome::Failed, 8, 10), WriteStep::Error);
    assert_eq!(after_wait(true), WriteStep::Retry);
    assert_eq!(after_wait(false), WriteStep::TimedOut);
}

#[test]
fn warn_limiter_warns_once_per_interval() {
    let mut l = WarnLimiter::new();
    assert_eq!(l.on_failure(1_000, 2), Some(3));
    assert_eq!(l.on_failure(2_000, 0), None);
    assert_eq!(l.on_failure(3_000, 4), None);
    assert_eq!(l.suppressed, 6);
    assert_eq!(l.on_failure(6_000, 0), Some(7));
    assert_eq!(l.suppressed, 0);
    assert!(!l.on_queue_full(7_000));
    assert!(l.on_queue_full(11_000));
    assert_eq!(l.last_warn_ms, Some(11_000));
}
