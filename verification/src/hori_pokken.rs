use vstd::prelude::*;
use vstd::slice::slice_to_vec;

use crate::axis::{axis_byte, axis_position};
use crate::codec::{le_bytes_u16, put_u16_le, put_u8};
use crate::descriptor::{input_bits, input_bits_from};
use crate::error::GadgetError;
use crate::gamepad::{HIDGamepad, PadButton, PadInput, ReportDescriptor, ReportDescriptorView};

verus! {

/// A HID descriptor that is compatible with the HORI Pokken Pad.
///
/// This is known to work with the Switch as a wired controller. It matches
/// the pad's own descriptor except that the button field is declared with 14
/// buttons and two bits of padding, where the pad has 13 real buttons in its
/// two button bytes.
pub const HORI_POKKEN_PAD_DESCRIPTOR: [u8; 90] = [
    0x05, 0x01,  // USAGE_PAGE (Generic Desktop)
    0x09, 0x05,  // USAGE (Game Pad)
    0xa1, 0x01,  // COLLECTION (Application)
    0x15, 0x00,  //   LOGICAL_MINIMUM (0)
    0x25, 0x01,  //   LOGICAL_MAXIMUM (1)
    0x35, 0x00,  //   PHYSICAL_MINIMUM (0)
    0x45, 0x01,  //   PHYSICAL_MAXIMUM (1)
    0x75, 0x01,  //   REPORT_SIZE (1)
    0x95, 0x0e,  //   REPORT_COUNT (14)
    0x05, 0x09,  //   USAGE_PAGE (Button)
    0x19, 0x01,  //   USAGE_MINIMUM (Button 1)
    0x29, 0x0e,  //   USAGE_MAXIMUM (Button 14)
    0x81, 0x02,  //   INPUT (Data,Var,Abs)
    0x95, 0x02,  //   REPORT_COUNT (2)
    0x81, 0x01,  //   INPUT (Cnst,Ary,Abs)
    0x05, 0x01,  //   USAGE_PAGE (Generic Desktop)
    0x25, 0x07,  //   LOGICAL_MAXIMUM (7)
    0x46, 0x3b, 0x01,  //   PHYSICAL_MAXIMUM (315)
    0x75, 0x04,  //   REPORT_SIZE (4)
    0x95, 0x01,  //   REPORT_COUNT (1)
    0x65, 0x14,  //   UNIT (Eng Rot:Angular Pos)
    0x09, 0x39,  //   USAGE (Hat switch)
    0x81, 0x42,  //   INPUT (Data,Var,Abs,Null)
    0x65, 0x00,  //   UNIT (None)
    0x95, 0x01,  //   REPORT_COUNT (1)
    0x81, 0x01,  //   INPUT (Cnst,Ary,Abs)
    0x26, 0xff, 0x00,  //   LOGICAL_MAXIMUM (255)
    0x46, 0xff, 0x00,  //   PHYSICAL_MAXIMUM (255)
    0x09, 0x30,  //   USAGE (X)
    0x09, 0x31,  //   USAGE (Y)
    0x09, 0x32,  //   USAGE (Z)
    0x09, 0x35,  //   USAGE (Rz)
    0x75, 0x08,  //   REPORT_SIZE (8)
    0x95, 0x04,  //   REPORT_COUNT (4)
    0x81, 0x02,  //   INPUT (Data,Var,Abs)
    0x06, 0x00, 0xff,  //   USAGE_PAGE (Vendor Defined)
    0x09, 0x20,  //   USAGE
    0x95, 0x01,  //   REPORT_COUNT (1)
    0x81, 0x02,  //   INPUT (Data,Var,Abs)
    0x0a, 0x21, 0x26,  //   USAGE
    0x95, 0x08,  //   REPORT_COUNT (8)
    0x91, 0x02,  //   OUTPUT (Data,Var,Abs)
    0xc0,  // END_COLLECTION
];

/// The number of bytes in every report of the Pokken pad.
pub const HORI_POKKEN_PAD_REPORT_SIZE: usize = 8;

/// The hat-switch code that says no direction is held.
pub const DPAD_CENTERED: u8 = 8;

/// The buttons of the report's bit field, lowest bit first: on the Switch
/// they read Y, B, A, X, L, R, ZL, ZR, -, +, LS, RS, Home. The capture
/// button has no counterpart.
pub const BUTTON_ORDER: [PadButton; 13] = [
    PadButton::West,
    PadButton::South,
    PadButton::East,
    PadButton::North,
    PadButton::LeftTrigger,
    PadButton::RightTrigger,
    PadButton::LeftTrigger2,
    PadButton::RightTrigger2,
    PadButton::Select,
    PadButton::Start,
    PadButton::LeftThumb,
    PadButton::RightThumb,
    PadButton::Mode,
];

/// A HID report for the HORI Pokken Pad that matches the descriptor above.
#[derive(Clone, Copy, Debug, PartialEq, Eq, Structural)]
pub struct HoriPokkenPadReport {
    /// 14 button values and 2 unused bits.
    pub buttons: u16,
    /// The d-pad, as a hat switch. Only the low nibble is used.
    pub dpad: u8,
    /// Left stick, horizontal.
    pub lx: u8,
    /// Left stick, vertical.
    pub ly: u8,
    /// Right stick, horizontal.
    pub rx: u8,
    /// Right stick, vertical.
    pub ry: u8,
    /// A byte whose meaning the vendor keeps to itself.
    pub _vendor_spec: u8,
}

/// The HORI Pokken Pad as a controller profile.
#[derive(Debug)]
pub struct HoriPokkenPad;

/// Whether bit `i` of `value` is set.
pub open spec fn bit(value: u16, i: u16) -> bool {
    (value >> i) & 1 == 1
}

/// How many of the four directions are held.
pub open spec fn held_count(up: bool, right: bool, down: bool, left: bool) -> nat {
    (if up { 1nat } else { 0 }) + (if right { 1nat } else { 0 }) + (if down { 1nat } else { 0 })
        + (if left { 1nat } else { 0 })
}

/// The hat-switch code of a d-pad. Going clockwise from up, the four
/// directions have the even codes 0, 2, 4, 6; two neighbours held together
/// have the odd code between them; anything else (nothing held, opposite
/// directions, three or four at once) is the centred code 8.
pub open spec fn hat_code(up: bool, right: bool, down: bool, left: bool) -> u8 {
    let held = held_count(up, right, down, left);
    if held == 1 {
        if up {
            0
        } else if right {
            2
        } else if down {
            4
        } else {
            6
        }
    } else if held == 2 && up && right {
        1
    } else if held == 2 && right && down {
        3
    } else if held == 2 && down && left {
        5
    } else if held == 2 && left && up {
        7
    } else {
        8
    }
}

/// The value of the button field when only the first `n` buttons of
/// `BUTTON_ORDER` are looked at: button `i`, where held, counts `2^i`.
pub open spec fn button_bits(input: PadInput, n: nat) -> int
    decreases n,
{
    if n == 0 {
        0
    } else {
        button_bits(input, (n - 1) as nat) + if input.pressed(BUTTON_ORDER@[n - 1]) {
            (1u16 << ((n - 1) as u16)) as int
        } else {
            0
        }
    }
}

/// The Pokken pad report that shows `input`.
pub open spec fn pokken_report(input: PadInput) -> HoriPokkenPadReport {
    HoriPokkenPadReport {
        buttons: button_bits(input, 13) as u16,
        dpad: hat_code(input.dpad_up, input.dpad_right, input.dpad_down, input.dpad_left),
        lx: axis_position(input.left_stick_x) as u8,
        ly: axis_position(input.left_stick_y) as u8,
        rx: axis_position(input.right_stick_x) as u8,
        ry: axis_position(input.right_stick_y) as u8,
        _vendor_spec: 0,
    }
}

/// The eight bytes of a report on the wire: the button field, low byte
/// first, then hat switch, left stick x and y, right stick x and y, and the
/// vendor byte.
pub open spec fn pokken_encoding(report: HoriPokkenPadReport) -> Seq<u8> {
    le_bytes_u16(report.buttons) + seq![
        report.dpad,
        report.lx,
        report.ly,
        report.rx,
        report.ry,
        report._vendor_spec,
    ]
}

/// The profile data of the Pokken pad.
pub open spec fn pokken_profile() -> ReportDescriptorView {
    ReportDescriptorView {
        descriptor: HORI_POKKEN_PAD_DESCRIPTOR@,
        report_size: 8,
        vendor_id: "0x0f0d"@,
        product_id: "0x0092"@,
        manufacturer: "HORI CO.,LTD."@,
        product: "POKKEN CONTROLLER"@,
        analog_buttons: false,
    }
}

/// The hat-switch code for the four directions of a d-pad. It fits the
/// low nibble of its byte.
pub fn dpad_code(up: bool, right: bool, down: bool, left: bool) -> (code: u8)
    ensures
        code == hat_code(up, right, down, left),
        code <= DPAD_CENTERED,
{
    match (up, right, down, left) {
        (true, false, false, false) => 0x00,
        (true, true, false, false) => 0x01,
        (false, true, false, false) => 0x02,
        (false, true, true, false) => 0x03,
        (false, false, true, false) => 0x04,
        (false, false, true, true) => 0x05,
        (false, false, false, true) => 0x06,
        (true, false, false, true) => 0x07,
        _ => DPAD_CENTERED,
    }
}

proof fn lemma_or_sets_next_bit(value: u16, i: u16)
    by (bit_vector)
    requires
        i < 13,
        value < (1u16 << i),
    ensures
        (value | (1u16 << i)) == value + (1u16 << i),
        value + (1u16 << i) < (1u16 << ((i + 1) as u16)),
        value < (1u16 << ((i + 1) as u16)),
{
}

/// The button field for `input`: bit `i` is set exactly when button `i` of
/// `BUTTON_ORDER` is held, and the three highest bits are clear.
pub fn pack_buttons(input: &PadInput) -> (buttons: u16)
    ensures
        buttons == button_bits(*input, 13),
        buttons < 0x2000,
{
    let mut buttons: u16 = 0;
    let mut i: usize = 0;
    assert(0u16 < (1u16 << 0u16)) by (bit_vector);
    while i < 13
        invariant
            i <= 13,
            buttons == button_bits(*input, i as nat),
            buttons < (1u16 << (i as u16)),
        decreases 13 - i,
    {
        proof {
            lemma_or_sets_next_bit(buttons, i as u16);
        }
        if input.is_pressed(BUTTON_ORDER[i]) {
            buttons = buttons | (1u16 << (i as u16));
        }
        i = i + 1;
    }
    assert((1u16 << 13u16) == 0x2000) by (bit_vector);
    buttons
}

impl HoriPokkenPadReport {
    /// The report of an untouched pad.
    pub open spec fn idle() -> HoriPokkenPadReport {
        HoriPokkenPadReport { buttons: 0, dpad: 0, lx: 0, ly: 0, rx: 0, ry: 0, _vendor_spec: 0 }
    }
}

impl Default for HoriPokkenPadReport {
    fn default() -> (report: HoriPokkenPadReport)
        ensures
            report == HoriPokkenPadReport::idle(),
    {
        HoriPokkenPadReport { buttons: 0, dpad: 0, lx: 0, ly: 0, rx: 0, ry: 0, _vendor_spec: 0 }
    }
}

impl HIDGamepad for HoriPokkenPad {
    type Report = HoriPokkenPadReport;

    open spec fn profile_view() -> ReportDescriptorView {
        pokken_profile()
    }

    open spec fn encoding(report: &HoriPokkenPadReport) -> Seq<u8> {
        pokken_encoding(*report)
    }

    open spec fn report_of(input: PadInput) -> HoriPokkenPadReport {
        pokken_report(input)
    }

    proof fn lemma_encoding_len(report: &HoriPokkenPadReport) {
    }

    proof fn lemma_descriptor_declares_size() {
        reveal_with_fuel(input_bits_from, 45);
    }

    fn profile() -> (p: ReportDescriptor) {
        let table = HORI_POKKEN_PAD_DESCRIPTOR;
        ReportDescriptor {
            descriptor: slice_to_vec(table.as_slice()),
            report_size: HORI_POKKEN_PAD_REPORT_SIZE,
            vendor_id: String::from_str("0x0f0d"),
            product_id: String::from_str("0x0092"),
            manufacturer: String::from_str("HORI CO.,LTD."),
            product: String::from_str("POKKEN CONTROLLER"),
            analog_buttons: false,
        }
    }

    fn analog_buttons() -> (analog: bool) {
        false
    }

    fn report_size() -> (n: usize) {
        HORI_POKKEN_PAD_REPORT_SIZE
    }

    fn encode(report: &HoriPokkenPadReport, buf: &mut Vec<u8>) -> (r: Result<usize, GadgetError>) {
        if buf.len() < HORI_POKKEN_PAD_REPORT_SIZE {
            return Err(GadgetError::ReportEncoding);
        }
        let offset = put_u16_le(buf, report.buttons, 0)?;
        let offset = put_u8(buf, report.dpad, offset)?;
        let offset = put_u8(buf, report.lx, offset)?;
        let offset = put_u8(buf, report.ly, offset)?;
        let offset = put_u8(buf, report.rx, offset)?;
        let offset = put_u8(buf, report.ry, offset)?;
        let offset = put_u8(buf, report._vendor_spec, offset)?;
        Ok(offset)
    }

    fn fill_report(input: &PadInput) -> (report: HoriPokkenPadReport) {
        let buttons = pack_buttons(input);
        let dpad = dpad_code(input.dpad_up, input.dpad_right, input.dpad_down, input.dpad_left);
        HoriPokkenPadReport {
            buttons,
            dpad,
            lx: axis_byte(input.left_stick_x),
            ly: axis_byte(input.left_stick_y),
            rx: axis_byte(input.right_stick_x),
            ry: axis_byte(input.right_stick_y),
            _vendor_spec: 0,
        }
    }
}

/// The name that the Switch gives to the button at bit `i` of the button
/// field.
pub open spec fn button_label(i: nat) -> Seq<char> {
    if i == 0 {
        "Y"@
    } else if i == 1 {
        "B"@
    } else if i == 2 {
        "A"@
    } else if i == 3 {
        "X"@
    } else if i == 4 {
        "L"@
    } else if i == 5 {
        "R"@
    } else if i == 6 {
        "ZL"@
    } else if i == 7 {
        "ZR"@
    } else if i == 8 {
        "-"@
    } else if i == 9 {
        "+"@
    } else if i == 10 {
        "LS"@
    } else if i == 11 {
        "RS"@
    } else {
        "Home"@
    }
}

/// `n` spaces.
pub open spec fn blanks(n: nat) -> Seq<char> {
    Seq::new(n, |k: int| ' ')
}

/// What stands for the button at bit `i` in the text of a report: its name
/// where the button is held, and as many spaces where it is not.
pub open spec fn button_cell(buttons: u16, i: nat) -> Seq<char> {
    if bit(buttons, i as u16) {
        button_label(i)
    } else {
        blanks(button_label(i).len())
    }
}

/// The cells of the first `n` buttons, each followed by one space.
pub open spec fn button_cells(buttons: u16, n: nat) -> Seq<char>
    decreases n,
{
    if n == 0 {
        Seq::empty()
    } else {
        button_cells(buttons, (n - 1) as nat) + button_cell(buttons, (n - 1) as nat) + seq![' ']
    }
}

/// A report as a line of text: the cells of the thirteen buttons between
/// square brackets, so that the names of the held buttons always stand in
/// the same columns.
pub open spec fn report_text(report: HoriPokkenPadReport) -> Seq<char> {
    seq!['['] + button_cells(report.buttons, 13) + seq![']']
}

fn label(i: usize) -> (name: &'static str)
    requires
        i < 13,
    ensures
        name@ == button_label(i as nat),
{
    if i == 0 {
        "Y"
    } else if i == 1 {
        "B"
    } else if i == 2 {
        "A"
    } else if i == 3 {
        "X"
    } else if i == 4 {
        "L"
    } else if i == 5 {
        "R"
    } else if i == 6 {
        "ZL"
    } else if i == 7 {
        "ZR"
    } else if i == 8 {
        "-"
    } else if i == 9 {
        "+"
    } else if i == 10 {
        "LS"
    } else if i == 11 {
        "RS"
    } else {
        "Home"
    }
}

proof fn lemma_mask_tests_bit(value: u16, i: u16)
    by (bit_vector)
    requires
        i < 16,
    ensures
        (value & (1u16 << i)) != 0 <==> (value >> i) & 1 == 1,
{
}

impl HoriPokkenPadReport {
    /// The report as a line of text that shows which buttons are held.
    pub fn to_text(&self) -> (text: String)
        ensures
            text@ == report_text(*self),
    {
        proof {
            reveal_strlit("[");
            reveal_strlit("]");
            reveal_strlit(" ");
        }
        let mut text = String::from_str("[");
        let mut i: usize = 0;
        while i < 13
            invariant
                i <= 13,
                text@ == seq!['['] + button_cells(self.buttons, i as nat),
                " "@ == seq![' '],
            decreases 13 - i,
        {
            let name = label(i);
            let ghost head = text@;
            proof {
                lemma_mask_tests_bit(self.buttons, i as u16);
            }
            if self.buttons & (1u16 << (i as u16)) != 0 {
                text.append(name);
            } else {
                let width = name.unicode_len();
                let mut k: usize = 0;
                while k < width
                    invariant
                        k <= width,
                        text@ == head + blanks(k as nat),
                        " "@ == seq![' '],
                    decreases width - k,
                {
                    text.append(" ");
                    k = k + 1;
                }
            }
            text.append(" ");
            i = i + 1;
        }
        text.append("]");
        text
    }
}

proof fn lemma_add_sets_bit(value: u16, i: u16, j: u16)
    by (bit_vector)
    requires
        i < 13,
        j < 16,
        value < (1u16 << i),
    ensures
        value + (1u16 << i) < (1u16 << ((i + 1) as u16)),
        value < (1u16 << ((i + 1) as u16)),
        ((((value + (1u16 << i)) as u16) >> j) & 1 == 1) <==> (j == i || (value >> j) & 1 == 1),
        j >= i ==> (value >> j) & 1 == 0,
{
}

/// The button field is a bit field: among the first `n` buttons of
/// `BUTTON_ORDER`, bit `j` is set exactly when button `j` is held, and
/// every bit from `n` on is clear.
pub proof fn lemma_button_bits(input: PadInput, n: nat, j: u16)
    requires
        n <= 13,
        j < 16,
    ensures
        0 <= button_bits(input, n) < (1u16 << (n as u16)),
        bit(button_bits(input, n) as u16, j) <==> (j < n && input.pressed(BUTTON_ORDER@[j as int])),
    decreases n,
{
    if n == 0 {
        assert(0u16 < (1u16 << 0u16) && (0u16 >> j) & 1 == 0) by (bit_vector);
    } else {
        lemma_button_bits(input, (n - 1) as nat, j);
        let value = button_bits(input, (n - 1) as nat) as u16;
        lemma_add_sets_bit(value, (n - 1) as u16, j);
    }
}

} // verus!
