use pizero_gadget_gamepads::error::GadgetError;
use pizero_gadget_gamepads::gamepad::{HIDGamepad, PadInput};
use pizero_gadget_gamepads::hori_pokken::{dpad_code, HoriPokkenPad, HoriPokkenPadReport};

#[test]
fn dpad_up_is_zero() {
    assert_eq!(dpad_code(true, false, false, false), 0);
}

#[test]
fn dpad_up_right_is_one() {
    assert_eq!(dpad_code(true, true, false, false), 1);
}

#[test]
fn dpad_all_held_is_centered() {
    assert_eq!(dpad_code(true, true, true, true), 8);
}

#[test]
fn dpad_none_held_is_centered() {
    assert_eq!(dpad_code(false, false, false, false), 8);
}

#[test]
fn encode_lays_out_eight_bytes_little_endian() {
    let report = HoriPokkenPadReport {
        buttons: 0x1234,
        dpad: 3,
        lx: 10,
        ly: 20,
        rx: 30,
        ry: 40,
        _vendor_spec: 50,
    };
    let mut buf = vec![0xaau8; 10];
    assert_eq!(HoriPokkenPad::encode(&report, &mut buf), Ok(8));
    assert_eq!(buf, vec![0x34, 0x12, 3, 10, 20, 30, 40, 50, 0xaa, 0xaa]);
}

#[test]
fn encode_refuses_short_buffer() {
    let report = HoriPokkenPadReport::default();
    let mut buf = vec![0u8; 7];
    assert_eq!(HoriPokkenPad::encode(&report, &mut buf), Err(GadgetError::ReportEncoding));
    assert_eq!(buf.len(), 7);
}

#[test]
fn fill_report_packs_buttons_in_order() {
    let mut input = PadInput::new();
    input.west = true;
    input.mode = true;
    input.dpad_down = true;
    input.dpad_left = true;
    input.left_stick_x = (-1.0f32).to_bits();
    input.right_stick_y = 1.0f32.to_bits();
    let report = HoriPokkenPad::fill_report(&input);
    assert_eq!(report.buttons, 0x1001);
    assert_eq!(report.dpad, 5);
    assert_eq!(report.lx, 0);
    assert_eq!(report.ly, 128);
    assert_eq!(report.rx, 128);
    assert_eq!(report.ry, 255);
    assert_eq!(report._vendor_spec, 0);
}

#[test]
fn report_size_is_the_length_of_every_encoding() {
    assert_eq!(HoriPokkenPad::report_size(), 8);
    for buttons in [0u16, 1, 0x1fff, 0xffff] {
        let report = HoriPokkenPadReport {
            buttons,
            dpad: 8,
            lx: 1,
            ly: 2,
            rx: 3,
            ry: 4,
            _vendor_spec: 5,
        };
        let mut buf = vec![0u8; HoriPokkenPad::report_size()];
        let used = HoriPokkenPad::encode(&report, &mut buf);
        assert_eq!(used, Ok(HoriPokkenPad::report_size()));
        assert_eq!(buf.len(), HoriPokkenPad::report_size());
    }
}

#[test]
fn dpad_cardinals_and_diagonals() {
    assert_eq!(dpad_code(false, true, false, false), 2);
    assert_eq!(dpad_code(false, true, true, false), 3);
    assert_eq!(dpad_code(false, false, true, false), 4);
    assert_eq!(dpad_code(false, false, true, true), 5);
    assert_eq!(dpad_code(false, false, false, true), 6);
    assert_eq!(dpad_code(true, false, false, true), 7);
}

#[test]
fn dpad_opposite_or_three_directions_are_centered() {
    assert_eq!(dpad_code(true, false, true, false), 8);
    assert_eq!(dpad_code(false, true, false, true), 8);
    assert_eq!(dpad_code(true, true, true, false), 8);
    assert_eq!(dpad_code(false, true, true, true), 8);
}

#[test]
fn default_report_is_all_zero() {
    let report = HoriPokkenPadReport::default();
    assert_eq!(
        report,
        HoriPokkenPadReport { buttons: 0, dpad: 0, lx: 0, ly: 0, rx: 0, ry: 0, _vendor_spec: 0 }
    );
}

#[test]
fn fill_report_of_idle_pad() {
    let report = HoriPokkenPad::fill_report(&PadInput::new());
    assert_eq!(
        report,
        HoriPokkenPadReport {
            buttons: 0,
            dpad: 8,
            lx: 128,
            ly: 128,
            rx: 128,
            ry: 128,
            _vendor_spec: 0
        }
    );
}

#[test]
fn fill_report_gives_each_button_its_bit() {
    let mut all = PadInput::new();
    all.west = true;
    all.south = true;
    all.east = true;
    all.north = true;
    all.left_trigger = true;
    all.right_trigger = true;
    all.left_trigger2 = true;
    all.right_trigger2 = true;
    all.select = true;
    all.start = true;
    all.left_thumb = true;
    all.right_thumb = true;
    all.mode = true;
    assert_eq!(HoriPokkenPad::fill_report(&all).buttons, 0x1fff);

    let mut one = PadInput::new();
    one.south = true;
    assert_eq!(HoriPokkenPad::fill_report(&one).buttons, 0x0002);
    let mut one = PadInput::new();
    one.east = true;
    assert_eq!(HoriPokkenPad::fill_report(&one).buttons, 0x0004);
    let mut one = PadInput::new();
    one.north = true;
    assert_eq!(HoriPokkenPad::fill_report(&one).buttons, 0x0008);
    let mut one = PadInput::new();
    one.left_trigger = true;
    assert_eq!(HoriPokkenPad::fill_report(&one).buttons, 0x0010);
    let mut one = PadInput::new();
    one.right_trigger = true;
    assert_eq!(HoriPokkenPad::fill_report(&one).buttons, 0x0020);
    let mut one = PadInput::new();
    one.left_trigger2 = true;
    assert_eq!(HoriPokkenPad::fill_report(&one).buttons, 0x0040);
    let mut one = PadInput::new();
    one.right_trigger2 = true;
    assert_eq!(HoriPokkenPad::fill_report(&one).buttons, 0x0080);
    let mut one = PadInput::new();
    one.select = true;
    assert_eq!(HoriPokkenPad::fill_report(&one).buttons, 0x0100);
    let mut one = PadInput::new();
    one.start = true;
    assert_eq!(HoriPokkenPad::fill_report(&one).buttons, 0x0200);
    let mut one = PadInput::new();
    one.left_thumb = true;
    assert_eq!(HoriPokkenPad::fill_report(&one).buttons, 0x0400);
    let mut one = PadInput::new();
    one.right_thumb = true;
    assert_eq!(HoriPokkenPad::fill_report(&one).buttons, 0x0800);
}

#[test]
fn dpad_buttons_do_not_reach_the_button_field() {
    let mut input = PadInput::new();
    input.dpad_up = true;
    input.dpad_right = true;
    let report = HoriPokkenPad::fill_report(&input);
    assert_eq!(report.buttons, 0);
    assert_eq!(report.dpad, 1);
}

#[test]
fn is_pressed_reads_each_button() {
    let mut input = PadInput::new();
    input.start = true;
    input.dpad_left = true;
    assert!(input.is_pressed(pizero_gadget_gamepads::gamepad::PadButton::Start));
    assert!(input.is_pressed(pizero_gadget_gamepads::gamepad::PadButton::DPadLeft));
    assert!(!input.is_pressed(pizero_gadget_gamepads::gamepad::PadButton::Select));
    assert!(!input.is_pressed(pizero_gadget_gamepads::gamepad::PadButton::DPadRight));
}

#[test]
fn put_u16_le_stores_low_byte_first() {
    let mut buf = vec![9u8, 9, 9, 9];
    assert_eq!(pizero_gadget_gamepads::codec::put_u16_le(&mut buf, 0xbeef, 1), Ok(3));
    assert_eq!(buf, vec![9, 0xef, 0xbe, 9]);
}

#[test]
fn put_u16_le_refuses_what_does_not_fit() {
    let mut buf = vec![9u8, 9, 9];
    assert_eq!(
        pizero_gadget_gamepads::codec::put_u16_le(&mut buf, 0xbeef, 2),
        Err(GadgetError::ReportEncoding)
    );
    assert_eq!(
        pizero_gadget_gamepads::codec::put_u16_le(&mut buf, 0xbeef, 7),
        Err(GadgetError::ReportEncoding)
    );
    assert_eq!(buf, vec![9, 9, 9]);
}

#[test]
fn put_u8_stores_one_byte() {
    let mut buf = vec![0u8, 0, 0];
    assert_eq!(pizero_gadget_gamepads::codec::put_u8(&mut buf, 0x7f, 2), Ok(3));
    assert_eq!(buf, vec![0, 0, 0x7f]);
    assert_eq!(
        pizero_gadget_gamepads::codec::put_u8(&mut buf, 1, 3),
        Err(GadgetError::ReportEncoding)
    );
    assert_eq!(buf, vec![0, 0, 0x7f]);
}

#[test]
fn profile_of_the_pokken_pad() {
    let profile = HoriPokkenPad::profile();
    assert_eq!(profile.report_size, 8);
    assert_eq!(profile.vendor_id, "0x0f0d");
    assert_eq!(profile.product_id, "0x0092");
    assert_eq!(profile.manufacturer, "HORI CO.,LTD.");
    assert_eq!(profile.product, "POKKEN CONTROLLER");
    assert!(!profile.analog_buttons);
    assert!(!HoriPokkenPad::analog_buttons());
    assert_eq!(profile.descriptor.len(), 90);
    assert_eq!(&profile.descriptor[..6], &[0x05, 0x01, 0x09, 0x05, 0xa1, 0x01]);
    assert_eq!(profile.descriptor[89], 0xc0);
}

#[test]
fn text_of_a_report_names_held_buttons() {
    let idle = HoriPokkenPadReport::default();
    assert_eq!(idle.to_text(), "[                                 ]");
    let some = HoriPokkenPadReport { buttons: 0x1041, ..HoriPokkenPadReport::default() };
    assert_eq!(some.to_text(), "[Y           ZL              Home ]");
    let all = HoriPokkenPadReport { buttons: 0xffff, ..HoriPokkenPadReport::default() };
    assert_eq!(all.to_text(), "[Y B A X L R ZL ZR - + LS RS Home ]");
}

#[test]
fn pokken_descriptor_declares_eight_bytes() {
    let profile = HoriPokkenPad::profile();
    assert_eq!(
        pizero_gadget_gamepads::descriptor::implied_input_bits(&profile.descriptor),
        Some(64)
    );
    assert!(pizero_gadget_gamepads::descriptor::descriptor_declares(
        &profile.descriptor,
        profile.report_size
    ));
    assert!(!pizero_gadget_gamepads::descriptor::descriptor_declares(&profile.descriptor, 7));
    assert!(!pizero_gadget_gamepads::descriptor::descriptor_declares(&profile.descriptor, 9));
}

#[test]
fn input_items_add_size_times_count() {
    let bits = pizero_gadget_gamepads::descriptor::implied_input_bits;
    assert_eq!(bits(&vec![]), Some(0));
    assert_eq!(bits(&vec![0x75, 0x08, 0x95, 0x03, 0x81, 0x02]), Some(24));
    assert_eq!(bits(&vec![0x75, 0x08, 0x95, 0x03, 0x81, 0x02, 0x81, 0x02]), Some(48));
    assert_eq!(bits(&vec![0x75, 0x08, 0x95, 0x03, 0x91, 0x02]), Some(0));
    assert_eq!(bits(&vec![0x75, 0x01, 0x96, 0x00, 0x01, 0x81, 0x02]), Some(256));
    assert_eq!(bits(&vec![0x77, 0x10, 0x00, 0x00, 0x00, 0x95, 0x02, 0x80]), Some(32));
    assert_eq!(bits(&vec![0x81, 0x02]), Some(0));
    assert_eq!(
        bits(&vec![0x77, 0xff, 0xff, 0xff, 0xff, 0x97, 0xff, 0xff, 0xff, 0xff, 0x81, 0x02]),
        Some(0xffff_ffffu128 * 0xffff_ffffu128)
    );
}

#[test]
fn descriptors_that_leave_the_length_open() {
    let bits = pizero_gadget_gamepads::descriptor::implied_input_bits;
    assert_eq!(bits(&vec![0x85, 0x01, 0x75, 0x08, 0x95, 0x01, 0x81, 0x02]), None);
    assert_eq!(bits(&vec![0xa4]), None);
    assert_eq!(bits(&vec![0xb4]), None);
    assert_eq!(bits(&vec![0xfe, 0x00, 0x10]), None);
    assert_eq!(bits(&vec![0x75]), None);
    assert_eq!(bits(&vec![0x75, 0x08, 0x96, 0x01]), None);
    let adapter = pizero_gadget_gamepads::gamecube_adapter::GAMECUBE_ADAPTER_DESCRIPTOR;
    assert_eq!(adapter.len(), 214);
    assert_eq!(bits(&adapter.to_vec()), None);
    assert!(!pizero_gadget_gamepads::descriptor::descriptor_declares(&adapter.to_vec(), 37));
}
