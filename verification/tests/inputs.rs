use fightstick::inputs::Button;
use fightstick::inputs::InputMap;

#[test]
fn test_into_keyboard_reports_empty() {
    let (_, count) = InputMap::new(0).into_keyboard_reports();
    assert_eq!(count, 0);
}

#[test]
fn test_into_keyboard_reports_single() {
    let (reports, count) = InputMap::new(Button::Start.mask()).into_keyboard_reports();
    assert_eq!(count, 1);
    assert_eq!(reports[0].keycodes[0], Button::Start.keyboard_scancode());
}

#[test]
fn test_into_keyboard_reports_many() {
    let (reports, count) = InputMap::new(
        Button::Start.mask()
            | Button::Select.mask()
            | Button::Up.mask()
            | Button::Down.mask()
            | Button::Left.mask()
            | Button::Right.mask(),
    )
    .into_keyboard_reports();
    assert_eq!(count, 1);
    assert_eq!(
        reports[0].keycodes,
        [
            Button::Start.keyboard_scancode(),
            Button::Select.keyboard_scancode(),
            Button::Up.keyboard_scancode(),
            Button::Down.keyboard_scancode(),
            Button::Left.keyboard_scancode(),
            Button::Right.keyboard_scancode(),
        ]
    );
}

#[test]
fn test_into_keyboard_reports_multipart() {
    let (reports, count) = InputMap::new(0b1111_1111).into_keyboard_reports();
    assert_eq!(count, 2);
    assert_eq!(
        reports[0].keycodes,
        [
            Button::Start.keyboard_scancode(),
            Button::Select.keyboard_scancode(),
            Button::Up.keyboard_scancode(),
            Button::Down.keyboard_scancode(),
            Button::Left.keyboard_scancode(),
            Button::Right.keyboard_scancode(),
        ]
    );
    assert_eq!(
        reports[1].keycodes,
        [
            Button::LightPunch.keyboard_scancode(),
            Button::MediumPunch.keyboard_scancode(),
            0,
            0,
            0,
            0,
        ]
    );
}

#[test]
fn test_empty_bitmap_all_reports_zero() {
    let (reports, count) = InputMap::new(0).into_keyboard_reports();
    assert_eq!(count, 0);
    for report in reports.iter() {
        assert_eq!(report.modifier, 0);
        assert_eq!(report.reserved, 0);
        assert_eq!(report.leds, 0);
        assert_eq!(report.keycodes, [0, 0, 0, 0, 0, 0]);
    }
}

#[test]
fn test_count_is_ceiling_of_pressed() {
    // 1, 6, 7, 12, 13 and 16 pressed buttons: count rounds up by sixes.
    let cases: [(u16, usize); 6] = [
        (0b1, 1),
        (0b11_1111, 1),
        (0b111_1111, 2),
        (0b1111_1111_1111, 2),
        (0b1_1111_1111_1111, 3),
        (0xffff, 3),
    ];
    for (bits, expected) in cases.iter() {
        let (_, count) = InputMap::new(*bits).into_keyboard_reports();
        assert_eq!(count, *expected);
    }
}

#[test]
fn test_encoding_twice_is_identical() {
    let bits: u16 = 0b1010_1100_0101_0011;
    let (reports_a, count_a) = InputMap::new(bits).into_keyboard_reports();
    let (reports_b, count_b) = InputMap::new(bits).into_keyboard_reports();
    assert_eq!(count_a, count_b);
    assert_eq!(reports_a, reports_b);
}

#[test]
fn test_only_start_pressed() {
    let (reports, count) = InputMap::new(Button::Start.mask()).into_keyboard_reports();
    assert_eq!(count, 1);
    assert_eq!(reports[0].keycodes, [0x29, 0, 0, 0, 0, 0]);
    assert_eq!(reports[0].modifier, 0);
}

#[test]
fn test_all_sixteen_pressed() {
    let (reports, count) = InputMap::new(0xffff).into_keyboard_reports();
    assert_eq!(count, 3);
    assert_eq!(reports[0].keycodes, [0x29, 0x35, 0x1a, 0x16, 0x04, 0x07]);
    assert_eq!(reports[1].keycodes, [0x18, 0x0c, 0x12, 0x0d, 0x0e, 0x0f]);
    assert_eq!(reports[2].keycodes, [0x13, 0x33, 0x1e, 0x1f, 0, 0]);
}

#[test]
fn test_controller_report_splits_bytes() {
    let report = InputMap::new(0b0000_0001).into_controller_report();
    assert_eq!(report.buttons0, 0);
    assert_eq!(report.buttons1, 1);
    let report = InputMap::new(0x0100).into_controller_report();
    assert_eq!(report.buttons0, 1);
    assert_eq!(report.buttons1, 0);
    let report = InputMap::new(0xa5c3).into_controller_report();
    assert_eq!(report.buttons0, 0xa5);
    assert_eq!(report.buttons1, 0xc3);
}

#[test]
fn test_controller_round_trip() {
    for bits in [0u16, 1, 0x0100, 0xa5c3, 0xffff, 0x8001] {
        let decoded = InputMap::new(bits).into_controller_report().decode();
        assert_eq!(decoded.bits(), bits);
    }
}

#[test]
fn test_from_lines_sets_matching_bits() {
    let mut lines = [false; 16];
    lines[0] = true;
    lines[8] = true;
    let map = InputMap::from_lines(&lines);
    assert_eq!(map.bits(), Button::Start.mask() | Button::HeavyPunch.mask());
    let report = map.into_controller_report();
    assert_eq!(report.buttons0, 1);
    assert_eq!(report.buttons1, 1);
}

#[test]
fn test_from_lines_idle() {
    let map = InputMap::from_lines(&[false; 16]);
    assert!(map.empty());
    assert_eq!(map.bits(), 0);
}

#[test]
fn test_empty_flag() {
    assert!(InputMap::new(0).empty());
    assert!(!InputMap::new(0b10).empty());
}

#[test]
fn test_button_table_order_and_masks() {
    let buttons = Button::iterator();
    assert_eq!(buttons.len(), 16);
    assert_eq!(buttons[0], Button::Start);
    assert_eq!(buttons[15], Button::Macro4);
    for (i, button) in buttons.iter().enumerate() {
        assert_eq!(button.index() as usize, i);
        assert_eq!(button.mask(), 1u16 << i);
    }
}

#[test]
fn test_letter_scancodes() {
    // The alphabet starts at usage 0x04, so 'w' is 0x1a and 'd' is 0x07.
    assert_eq!(Button::Up.keyboard_scancode(), 0x1a);
    assert_eq!(Button::Right.keyboard_scancode(), 0x07);
    assert_eq!(Button::Left.keyboard_scancode(), 0x04);
    assert_eq!(Button::Macro3.keyboard_scancode(), 0x1e);
}
