//! The button table and the report encoders.
//!
//! Sixteen momentary buttons each own one bit of a 16-bit bitmap and one
//! USB keyboard usage code. A poll-time snapshot of the lines is an
//! [`InputMap`]; the encoders turn it into either a single two-byte
//! controller report or a sequence of up to three six-key keyboard reports.

use vstd::prelude::*;

verus! {

/// Which persona the device presents to the host; chosen once at startup.
#[derive(Clone, Copy, PartialEq, Eq, Structural, Debug)]
pub enum InputMode {
    Controller,
    Keyboard,
}

/// How many buttons (and so bitmap bits) the device tracks.
pub const INPUT_MAP_WIDTH: usize = 16;

/// One of the sixteen logical buttons. The declaration order is the fixed
/// table order: it decides which bitmap bit a button owns and in which
/// order pressed buttons fill keyboard reports.
#[derive(Clone, Copy, PartialEq, Eq, Structural, Debug)]
pub enum Button {
    Start,
    Select,
    Up,
    Down,
    Left,
    Right,
    LightPunch,
    MediumPunch,
    HeavyPunch,
    LightKick,
    MediumKick,
    HeavyKick,
    Macro1,
    Macro2,
    Macro3,
    Macro4,
}

impl Button {
    /// The button's position in the table order, 0 through 15.
    pub open spec fn spec_index(self) -> u16 {
        match self {
            Button::Start => 0,
            Button::Select => 1,
            Button::Up => 2,
            Button::Down => 3,
            Button::Left => 4,
            Button::Right => 5,
            Button::LightPunch => 6,
            Button::MediumPunch => 7,
            Button::HeavyPunch => 8,
            Button::LightKick => 9,
            Button::MediumKick => 10,
            Button::HeavyKick => 11,
            Button::Macro1 => 12,
            Button::Macro2 => 13,
            Button::Macro3 => 14,
            Button::Macro4 => 15,
        }
    }

    /// The bitmap bit the button owns: bit `i` for the button at table
    /// position `i`.
    pub open spec fn spec_mask(self) -> u16 {
        1u16 << self.spec_index()
    }

    /// The keyboard usage code the button emits in the keyboard persona.
    /// All codes are real keys, so none is the zero "no key" sentinel.
    pub open spec fn spec_scancode(self) -> u8 {
        match self {
            Button::Start => 0x29,        // escape
            Button::Select => 0x35,       // grave
            Button::Up => 0x1a,           // 'w'
            Button::Down => 0x16,         // 's'
            Button::Left => 0x04,         // 'a'
            Button::Right => 0x07,        // 'd'
            Button::LightPunch => 0x18,   // 'u'
            Button::MediumPunch => 0x0c,  // 'i'
            Button::HeavyPunch => 0x12,   // 'o'
            Button::LightKick => 0x0d,    // 'j'
            Button::MediumKick => 0x0e,   // 'k'
            Button::HeavyKick => 0x0f,    // 'l'
            Button::Macro1 => 0x13,       // 'p'
            Button::Macro2 => 0x33,       // ';'
            Button::Macro3 => 0x1e,       // '1'
            Button::Macro4 => 0x1f,       // '2'
        }
    }

    /// Table position of the button, 0 through 15.
    pub fn index(self) -> (i: u16)
        ensures
            i == self.spec_index(),
    {
        match self {
            Button::Start => 0,
            Button::Select => 1,
            Button::Up => 2,
            Button::Down => 3,
            Button::Left => 4,
            Button::Right => 5,
            Button::LightPunch => 6,
            Button::MediumPunch => 7,
            Button::HeavyPunch => 8,
            Button::LightKick => 9,
            Button::MediumKick => 10,
            Button::HeavyKick => 11,
            Button::Macro1 => 12,
            Button::Macro2 => 13,
            Button::Macro3 => 14,
            Button::Macro4 => 15,
        }
    }

    /// The button's bitmap mask.
    pub fn mask(self) -> (m: u16)
        ensures
            m == self.spec_mask(),
    {
        1u16 << self.index()
    }

    /// The button's keyboard usage code.
    pub fn keyboard_scancode(self) -> (s: u8)
        ensures
            s == self.spec_scancode(),
    {
        match self {
            Button::Start => 0x29,  // escape
            Button::Select => 0x35, // grave
            Button::Up => keyboard_char_scancode('w'),
            Button::Down => keyboard_char_scancode('s'),
            Button::Left => keyboard_char_scancode('a'),
            Button::Right => keyboard_char_scancode('d'),
            Button::LightPunch => keyboard_char_scancode('u'),
            Button::MediumPunch => keyboard_char_scancode('i'),
            Button::HeavyPunch => keyboard_char_scancode('o'),
            Button::LightKick => keyboard_char_scancode('j'),
            Button::MediumKick => keyboard_char_scancode('k'),
            Button::HeavyKick => keyboard_char_scancode('l'),
            Button::Macro1 => keyboard_char_scancode('p'),
            Button::Macro2 => 0x33, // ;
            Button::Macro3 => 0x1e, // 1
            Button::Macro4 => 0x1f, // 2
        }
    }

    /// All sixteen buttons, in table order.
    pub fn iterator() -> (v: Vec<Button>)
        ensures
            v@ == button_table(),
    {
        let mut v: Vec<Button> = Vec::new();
        v.push(Button::Start);
        v.push(Button::Select);
        v.push(Button::Up);
        v.push(Button::Down);
        v.push(Button::Left);
        v.push(Button::Right);
        v.push(Button::LightPunch);
        v.push(Button::MediumPunch);
        v.push(Button::HeavyPunch);
        v.push(Button::LightKick);
        v.push(Button::MediumKick);
        v.push(Button::HeavyKick);
        v.push(Button::Macro1);
        v.push(Button::Macro2);
        v.push(Button::Macro3);
        v.push(Button::Macro4);
        proof {
            assert(v@ =~= button_table());
        }
        v
    }
}

/// The sixteen buttons in table order.
pub open spec fn button_table() -> Seq<Button> {
    seq![
        Button::Start,
        Button::Select,
        Button::Up,
        Button::Down,
        Button::Left,
        Button::Right,
        Button::LightPunch,
        Button::MediumPunch,
        Button::HeavyPunch,
        Button::LightKick,
        Button::MediumKick,
        Button::HeavyKick,
        Button::Macro1,
        Button::Macro2,
        Button::Macro3,
        Button::Macro4,
    ]
}

/// Usage code of a letter key: the alphabet starts at 0x04 ('a').
fn keyboard_char_scancode(c: char) -> (s: u8)
    requires
        'a' <= c && c <= 'z',
    ensures
        s == c as u8 - 97 + 4,
{
    ((c as u32 - 97 + 4) as u8)
}

/// Whether `b`'s bit is set in the bitmap `bits`.
pub open spec fn spec_pressed(bits: u16, b: Button) -> bool {
    bits & b.spec_mask() != 0
}

/// A keyboard-persona HID report: one modifier byte, one reserved byte,
/// the LED byte the host writes back (never produced here), and six
/// keycode slots. Zero is the "no key" sentinel; every real usage code is
/// 0x04 or above, so a zero slot is unambiguously empty.
#[derive(Clone, Copy, PartialEq, Eq, Debug)]
pub struct KeyboardReport {
    pub modifier: u8,
    pub reserved: u8,
    pub leds: u8,
    pub keycodes: [u8; 6],
}

impl KeyboardReport {
    /// Whether every byte of the report is zero: the idle "no keys" report.
    pub open spec fn spec_is_zero(self) -> bool {
        &&& self.modifier == 0
        &&& self.reserved == 0
        &&& self.leds == 0
        &&& forall|j: int| 0 <= j < 6 ==> self.keycodes@[j] == 0
    }

    /// The all-zero report, sent when no keys are pressed.
    pub fn empty() -> (r: Self)
        ensures
            r.spec_is_zero(),
    {
        KeyboardReport { modifier: 0, reserved: 0, leds: 0, keycodes: [0, 0, 0, 0, 0, 0] }
    }
}

/// A controller-persona HID report: two bitmap bytes. `buttons0` carries
/// buttons 9 through 16 (the bitmap's high byte), `buttons1` buttons 1
/// through 8 (the low byte).
#[derive(Clone, Copy, PartialEq, Eq, Structural, Debug)]
pub struct GenericControllerReport {
    pub buttons0: u8,
    pub buttons1: u8,
}

/// A snapshot of the sixteen input lines, taken once per poll tick: bit
/// `i` is set iff the button at table position `i` currently reads active.
pub struct InputMap(u16);

impl View for InputMap {
    type V = u16;

    closed spec fn view(&self) -> u16 {
        self.0
    }
}

impl InputMap {
    /// A snapshot with the given bitmap.
    pub fn new(bits: u16) -> (m: Self)
        ensures
            m@ == bits,
    {
        InputMap(bits)
    }

    /// The snapshot a sampler takes: `lines[i]` says whether the line of
    /// the button at table position `i` reads active, and exactly those
    /// buttons' bits are set.
    pub fn from_lines(lines: &[bool; INPUT_MAP_WIDTH]) -> (m: Self)
        ensures
            forall|i: int|
                0 <= i < 16 ==> spec_pressed(m@, #[trigger] button_table()[i]) == lines@[i],
    {
        let buttons = Button::iterator();
        let mut bits: u16 = 0;
        let mut i: usize = 0;
        proof {
            lemma_table_positions();
            lemma_and_with_zero();
        }
        while i < 16
            invariant
                i <= 16,
                buttons@ == button_table(),
                forall|j: int|
                    0 <= j < i ==> spec_pressed(bits, #[trigger] button_table()[j]) == lines@[j],
                forall|j: int| i <= j < 16 ==> !spec_pressed(bits, #[trigger] button_table()[j]),
            decreases 16 - i,
        {
            proof {
                lemma_table_positions();
            }
            let b = buttons[i];
            if lines[i] {
                let old_bits: u16 = bits;
                bits = bits | b.mask();
                proof {
                    lemma_or_mask(old_bits, bits, b.spec_index());
                }
            }
            i = i + 1;
        }
        InputMap(bits)
    }

    /// The raw bitmap of the snapshot.
    pub fn bits(&self) -> (b: u16)
        ensures
            b == self@,
    {
        self.0
    }

    /// Whether no button is pressed in this snapshot.
    pub fn empty(&self) -> (e: bool)
        ensures
            e == (self@ == 0),
    {
        self.0 == 0
    }

    /// Controller-persona encoding: the bitmap split into its high byte
    /// (buttons 9 through 16) and low byte (buttons 1 through 8). Every
    /// snapshot fits one report, however many buttons are down.
    pub fn into_controller_report(self) -> (r: GenericControllerReport)
        ensures
            r.buttons0 == spec_high_byte(self@),
            r.buttons1 == spec_low_byte(self@),
    {
        let buttons = self.0;
        let buttons0 = ((buttons & 0xff00) >> 8) as u8;
        let buttons1 = (buttons & 0x00ff) as u8;
        GenericControllerReport { buttons0, buttons1 }
    }

    /// Keyboard-persona encoding. Walking the button table in order, the
    /// pressed buttons' usage codes fill the reports greedily, six slots
    /// each: codes 0 through 5 land in report 0, 6 through 11 in report 1,
    /// the rest in report 2. `count` is how many reports carry keys —
    /// `ceil(pressed / 6)`, 0 when nothing is pressed — and every slot past
    /// the last code is zero, as are all modifier, reserved and LED bytes.
    pub fn into_keyboard_reports(self) -> (r: ([KeyboardReport; 3], usize))
        ensures
            r.1 == spec_report_count(self@),
            forall|k: int| 0 <= k < 3 ==> report_matches(#[trigger] r.0@[k], self@, k),
    {
        let buttons = Button::iterator();
        let mut codes: Vec<u8> = Vec::new();
        let mut i: usize = 0;
        while i < 16
            invariant
                i <= 16,
                buttons@ == button_table(),
                codes@.len() == pressed_in_order(self.0, i as int).len(),
                codes@.len() <= i,
                forall|p: int|
                    0 <= p < codes@.len() ==> codes@[p] == pressed_in_order(self.0, i as int)[p].spec_scancode(),
            decreases 16 - i,
        {
            let b = buttons[i];
            let pressed = self.0 & b.mask() != 0;
            proof {
                assert(pressed_in_order(self.0, i + 1 as int) == pressed_in_order(
                    self.0,
                    i as int,
                ) + (if spec_pressed(self.0, button_table()[i as int]) {
                    seq![button_table()[i as int]]
                } else {
                    Seq::<Button>::empty()
                }));
            }
            if pressed {
                codes.push(b.keyboard_scancode());
            }
            i = i + 1;
        }
        let report0 = report_chunk(&codes, 0);
        let report1 = report_chunk(&codes, 1);
        let report2 = report_chunk(&codes, 2);
        let mut len = codes.len() / 6;
        if codes.len() % 6 != 0 {
            len = len + 1;
        }
        proof {
            assert(forall|p: int| #[trigger]
                spec_slot(codes@, p) == spec_keycode(self.0, p)) by {
                assert(codes@.len() == pressed_buttons(self.0).len());
            }
        }
        ([report0, report1, report2], len)
    }
}

/// The bitmap's high byte: buttons 9 through 16.
pub open spec fn spec_high_byte(bits: u16) -> u8 {
    ((bits & 0xff00) >> 8) as u8
}

/// The bitmap's low byte: buttons 1 through 8.
pub open spec fn spec_low_byte(bits: u16) -> u8 {
    (bits & 0x00ff) as u8
}

/// The bitmap whose high byte is `hi` and low byte is `lo`.
pub open spec fn spec_join_bytes(hi: u8, lo: u8) -> u16 {
    ((hi as u16) << 8) | (lo as u16)
}

impl GenericControllerReport {
    /// The snapshot this report was encoded from: the byte split undone.
    pub fn decode(&self) -> (m: InputMap)
        ensures
            m@ == spec_join_bytes(self.buttons0, self.buttons1),
    {
        InputMap(((self.buttons0 as u16) << 8) | (self.buttons1 as u16))
    }
}

/// The controller encoding loses nothing: joining the two report bytes
/// gives back exactly the bitmap that was encoded.
pub proof fn lemma_controller_round_trip(bits: u16)
    ensures
        spec_join_bytes(spec_high_byte(bits), spec_low_byte(bits)) == bits,
{
    assert(((((bits & 0xff00) >> 8) as u8 as u16) << 8) | ((bits & 0x00ff) as u8 as u16)
        == bits) by (bit_vector);
}

/// The controller report's bit layout matches the advertised usage
/// ranges: bit `i` of the low byte is the button at table position `i`
/// (buttons 1 through 8), bit `i` of the high byte the button at table
/// position `i + 8` (buttons 9 through 16).
pub proof fn lemma_controller_bit_layout(bits: u16, i: u16)
    requires
        i < 8,
    ensures
        (spec_low_byte(bits) & (1u8 << i) != 0) == spec_pressed(bits, button_table()[i as int]),
        (spec_high_byte(bits) & (1u8 << i) != 0) == spec_pressed(
            bits,
            button_table()[i + 8],
        ),
{
    lemma_table_positions();
    assert(button_table()[i as int].spec_index() == i);
    assert(button_table()[i + 8].spec_index() == i + 8);
    assert(((bits & 0x00ff) as u8 & (1u8 << i) != 0) == (bits & (1u16 << i) != 0))
        by (bit_vector)
        requires
            i < 8,
    ;
    assert((((bits & 0xff00) >> 8) as u8 & (1u8 << i) != 0) == (bits & (1u16 << (
    i + 8) as u16) != 0)) by (bit_vector)
        requires
            i < 8,
    ;
}

/// The buttons among the first `n` table positions whose bit is set in
/// `bits`, in table order.
pub open spec fn pressed_in_order(bits: u16, n: int) -> Seq<Button>
    decreases n,
{
    if n <= 0 {
        Seq::empty()
    } else {
        pressed_in_order(bits, n - 1) + (if spec_pressed(bits, button_table()[n - 1]) {
            seq![button_table()[n - 1]]
        } else {
            Seq::empty()
        })
    }
}

/// All pressed buttons of a snapshot, in table order.
pub open spec fn pressed_buttons(bits: u16) -> Seq<Button> {
    pressed_in_order(bits, 16)
}

/// How many buttons a snapshot holds pressed.
pub open spec fn pressed_count(bits: u16) -> nat {
    pressed_buttons(bits).len()
}

/// How many keyboard reports the encoder emits for a snapshot:
/// `ceil(pressed / 6)`, and 0 when nothing is pressed.
pub open spec fn spec_report_count(bits: u16) -> int {
    (pressed_count(bits) + 5) as int / 6
}

/// Whether `r` is exactly report `k` of the keyboard encoding of `bits`:
/// its six slots hold the pressed buttons' codes at flat positions `6k`
/// through `6k + 5` (zero past the last one), and no modifier, reserved
/// or LED byte is ever set.
pub open spec fn report_matches(r: KeyboardReport, bits: u16, k: int) -> bool {
    &&& r.modifier == 0
    &&& r.reserved == 0
    &&& r.leds == 0
    &&& forall|j: int| 0 <= j < 6 ==> (#[trigger] r.keycodes@[j]) == spec_keycode(bits, k * 6 + j)
}

/// The usage code at flat slot position `p` of the encoded report
/// sequence (report `p / 6`, slot `p % 6`): the `p`-th pressed button's
/// code, or zero past the last pressed button.
pub open spec fn spec_keycode(bits: u16, p: int) -> u8 {
    if 0 <= p < pressed_buttons(bits).len() {
        pressed_buttons(bits)[p].spec_scancode()
    } else {
        0
    }
}

/// At most one pressed button can come from each table position.
pub proof fn lemma_pressed_in_order_len(bits: u16, n: int)
    requires
        0 <= n,
    ensures
        pressed_in_order(bits, n).len() <= n,
    decreases n,
{
    if n > 0 {
        lemma_pressed_in_order_len(bits, n - 1);
    }
}

/// A snapshot presses at most 16 buttons, so at most 3 reports are ever
/// needed, and none at all exactly when nothing is pressed.
pub proof fn lemma_report_count_bounds(bits: u16)
    ensures
        0 <= spec_report_count(bits) <= 3,
        spec_report_count(bits) == 0 <==> pressed_count(bits) == 0,
{
    lemma_pressed_in_order_len(bits, 16);
}

/// The keyboard encoding is a function of the snapshot alone: any two
/// reports that match the same chunk of the same snapshot are
/// byte-identical. With the encoder's contract, encoding one snapshot
/// twice therefore yields the same count and the same bytes.
pub proof fn lemma_encoding_deterministic(a: KeyboardReport, b: KeyboardReport, bits: u16, k: int)
    requires
        report_matches(a, bits, k),
        report_matches(b, bits, k),
    ensures
        a.modifier == b.modifier,
        a.reserved == b.reserved,
        a.leds == b.leds,
        a.keycodes@ == b.keycodes@,
{
    assert(a.keycodes@.len() == 6 && b.keycodes@.len() == 6);
    assert(a.keycodes@ =~= b.keycodes@);
}

/// A pressed button shows up: once the table walk has passed the
/// button's position, the pressed sequence cannot be empty.
proof fn lemma_pressed_appears(bits: u16, i: int, n: int)
    requires
        0 <= i < n,
        spec_pressed(bits, button_table()[i]),
    ensures
        pressed_in_order(bits, n).len() > 0,
    decreases n,
{
    if i < n - 1 {
        lemma_pressed_appears(bits, i, n - 1);
    }
}

/// A walk that finds no pressed button collects nothing.
proof fn lemma_none_pressed_empty(bits: u16, n: int)
    requires
        0 <= n <= 16,
        forall|i: int| 0 <= i < n ==> !spec_pressed(bits, #[trigger] button_table()[i]),
    ensures
        pressed_in_order(bits, n).len() == 0,
    decreases n,
{
    if n > 0 {
        lemma_none_pressed_empty(bits, n - 1);
    }
}

/// A snapshot presses no button exactly when its bitmap is zero: the
/// sixteen masks cover every bit, so no other bitmap can look idle.
pub proof fn lemma_no_press_iff_zero(bits: u16)
    ensures
        pressed_count(bits) == 0 <==> bits == 0,
{
    lemma_and_with_zero();
    lemma_table_positions();
    if bits == 0 {
        lemma_none_pressed_empty(bits, 16);
    }
    if pressed_count(bits) == 0 {
        assert forall|i: int| 0 <= i < 16 implies spec_pressed(bits, #[trigger] button_table()[i])
            == spec_pressed(0u16, button_table()[i]) by {
            if spec_pressed(bits, button_table()[i]) {
                lemma_pressed_appears(bits, i, 16);
            }
        }
        lemma_masks_span(bits, 0);
    }
}

/// A snapshot with nothing pressed encodes to nothing: the report count
/// is zero and every slot of every report holds the zero sentinel.
pub proof fn lemma_no_press_no_reports(bits: u16)
    requires
        pressed_count(bits) == 0,
    ensures
        spec_report_count(bits) == 0,
        forall|p: int| spec_keycode(bits, p) == 0,
{
}

/// The report count is exactly the ceiling of the pressed count over the
/// six slots a report carries: enough reports to hold every pressed
/// button's code, and none to spare.
pub proof fn lemma_report_count_is_ceiling(bits: u16)
    ensures
        6 * spec_report_count(bits) >= pressed_count(bits),
        pressed_count(bits) > 0 ==> 6 * (spec_report_count(bits) - 1) < pressed_count(bits),
        pressed_count(bits) == 0 ==> spec_report_count(bits) == 0,
{
    lemma_pressed_in_order_len(bits, 16);
}

/// The byte at position `p` of `codes`, or zero past its end.
spec fn spec_slot(codes: Seq<u8>, p: int) -> u8 {
    if 0 <= p < codes.len() {
        codes[p]
    } else {
        0
    }
}

/// The code for one slot of a report chunk: `codes[p]` if that many
/// keys are pressed, the zero sentinel otherwise.
fn slot_code(codes: &Vec<u8>, p: usize) -> (c: u8)
    ensures
        c == spec_slot(codes@, p as int),
{
    if p < codes.len() {
        codes[p]
    } else {
        0
    }
}

/// Builds report `k` of the sequence from the flat list of pressed
/// buttons' codes: slots `6k` through `6k + 5`, zero-padded at the end.
fn report_chunk(codes: &Vec<u8>, k: usize) -> (r: KeyboardReport)
    requires
        k < 3,
    ensures
        r.modifier == 0,
        r.reserved == 0,
        r.leds == 0,
        forall|j: int|
            0 <= j < 6 ==> (#[trigger] r.keycodes@[j]) == spec_slot(codes@, k as int * 6 + j),
{
    let base = k * 6;
    let mut ks: [u8; 6] = [0, 0, 0, 0, 0, 0];
    ks[0] = slot_code(codes, base);
    ks[1] = slot_code(codes, base + 1);
    ks[2] = slot_code(codes, base + 2);
    ks[3] = slot_code(codes, base + 3);
    ks[4] = slot_code(codes, base + 4);
    ks[5] = slot_code(codes, base + 5);
    KeyboardReport { modifier: 0, reserved: 0, leds: 0, keycodes: ks }
}

/// Each table position holds the button whose bit it is: the table walks
/// the bitmap from bit 0 up.
pub proof fn lemma_table_positions()
    ensures
        forall|j: int| 0 <= j < 16 ==> (#[trigger] button_table()[j]).spec_index() == j,
{
    assert forall|j: int| 0 <= j < 16 implies (#[trigger] button_table()[j]).spec_index()
        == j by {
        if j == 0 {
            assert(button_table()[j] == Button::Start);
        } else if j == 1 {
            assert(button_table()[j] == Button::Select);
        } else if j == 2 {
            assert(button_table()[j] == Button::Up);
        } else if j == 3 {
            assert(button_table()[j] == Button::Down);
        } else if j == 4 {
            assert(button_table()[j] == Button::Left);
        } else if j == 5 {
            assert(button_table()[j] == Button::Right);
        } else if j == 6 {
            assert(button_table()[j] == Button::LightPunch);
        } else if j == 7 {
            assert(button_table()[j] == Button::MediumPunch);
        } else if j == 8 {
            assert(button_table()[j] == Button::HeavyPunch);
        } else if j == 9 {
            assert(button_table()[j] == Button::LightKick);
        } else if j == 10 {
            assert(button_table()[j] == Button::MediumKick);
        } else if j == 11 {
            assert(button_table()[j] == Button::HeavyKick);
        } else if j == 12 {
            assert(button_table()[j] == Button::Macro1);
        } else if j == 13 {
            assert(button_table()[j] == Button::Macro2);
        } else if j == 14 {
            assert(button_table()[j] == Button::Macro3);
        } else {
            assert(button_table()[j] == Button::Macro4);
        }
    }
}

/// No bit is set in the empty bitmap.
proof fn lemma_and_with_zero()
    ensures
        forall|m: u16| #[trigger] (0u16 & m) == 0,
{
    assert(forall|m: u16| #[trigger] (0u16 & m) == 0) by (bit_vector);
}

/// Together the sixteen masks span the whole bitmap space: two
/// snapshots that agree on every button are the same bitmap.
pub proof fn lemma_masks_span(a: u16, b: u16)
    requires
        forall|i: int|
            0 <= i < 16 ==> spec_pressed(a, #[trigger] button_table()[i]) == spec_pressed(
                b,
                button_table()[i],
            ),
    ensures
        a == b,
{
    lemma_table_positions();
    assert forall|i: u16| i < 16 implies (a & (1u16 << i) != 0) == (b & (#[trigger] (1u16 << i))
        != 0) by {
        assert(spec_pressed(a, button_table()[i as int]) == spec_pressed(
            b,
            button_table()[i as int],
        ));
        assert(button_table()[i as int].spec_mask() == 1u16 << i);
    }
    assert(a == b) by (bit_vector)
        requires
            (a & (1u16 << 0u16) != 0) == (b & (1u16 << 0u16) != 0),
            (a & (1u16 << 1u16) != 0) == (b & (1u16 << 1u16) != 0),
            (a & (1u16 << 2u16) != 0) == (b & (1u16 << 2u16) != 0),
            (a & (1u16 << 3u16) != 0) == (b & (1u16 << 3u16) != 0),
            (a & (1u16 << 4u16) != 0) == (b & (1u16 << 4u16) != 0),
            (a & (1u16 << 5u16) != 0) == (b & (1u16 << 5u16) != 0),
            (a & (1u16 << 6u16) != 0) == (b & (1u16 << 6u16) != 0),
            (a & (1u16 << 7u16) != 0) == (b & (1u16 << 7u16) != 0),
            (a & (1u16 << 8u16) != 0) == (b & (1u16 << 8u16) != 0),
            (a & (1u16 << 9u16) != 0) == (b & (1u16 << 9u16) != 0),
            (a & (1u16 << 10u16) != 0) == (b & (1u16 << 10u16) != 0),
            (a & (1u16 << 11u16) != 0) == (b & (1u16 << 11u16) != 0),
            (a & (1u16 << 12u16) != 0) == (b & (1u16 << 12u16) != 0),
            (a & (1u16 << 13u16) != 0) == (b & (1u16 << 13u16) != 0),
            (a & (1u16 << 14u16) != 0) == (b & (1u16 << 14u16) != 0),
            (a & (1u16 << 15u16) != 0) == (b & (1u16 << 15u16) != 0),
    ;
}

/// Setting one bit leaves every other bit as it was. Stated over table
/// positions so the sampler loop can carry its bitmap invariant.
proof fn lemma_or_mask(before: u16, after: u16, i: u16)
    requires
        i < 16,
        after == before | (1u16 << i),
    ensures
        after & (1u16 << i) != 0,
        forall|j: u16| j < 16 && j != i ==> (after & (1u16 << j)) == (before & (1u16 << j)),
{
    assert((before | (1u16 << i)) & (1u16 << i) != 0) by (bit_vector)
        requires
            i < 16,
    ;
    assert(forall|j: u16|
        j < 16 && j != i ==> ((before | (1u16 << i)) & (1u16 << j)) == (before & (1u16 << j)))
        by (bit_vector)
        requires
            i < 16,
    ;
}

/// The table's masks are disjoint: no two buttons share a bitmap bit.
pub proof fn lemma_masks_disjoint(a: Button, b: Button)
    requires
        a != b,
    ensures
        a.spec_mask() & b.spec_mask() == 0,
{
    let i = a.spec_index();
    let j = b.spec_index();
    assert(i != j);
    assert(i < 16 && j < 16);
    assert((1u16 << i) & (1u16 << j) == 0) by (bit_vector)
        requires
            i != j && i < 16 && j < 16,
    ;
}

} // verus!
