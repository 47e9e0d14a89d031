use vstd::prelude::*;

use crate::descriptor::declares_report_size;
use crate::error::GadgetError;

verus! {

/// A button of the physical controller, by its standard position.
#[derive(Clone, Copy, Debug, PartialEq, Eq, Structural)]
pub enum PadButton {
    South,
    East,
    North,
    West,
    LeftTrigger,
    LeftTrigger2,
    RightTrigger,
    RightTrigger2,
    Select,
    Start,
    Mode,
    LeftThumb,
    RightThumb,
    DPadUp,
    DPadDown,
    DPadLeft,
    DPadRight,
}

/// One sample of a physical controller: which buttons are held, and where
/// the two sticks stand. Each axis is given by the bits of a
/// single-precision number between -1 and 1, with 0 at rest.
#[derive(Clone, Copy, Debug, PartialEq, Eq, Structural)]
pub struct PadInput {
    pub south: bool,
    pub east: bool,
    pub north: bool,
    pub west: bool,
    pub left_trigger: bool,
    pub left_trigger2: bool,
    pub right_trigger: bool,
    pub right_trigger2: bool,
    pub select: bool,
    pub start: bool,
    pub mode: bool,
    pub left_thumb: bool,
    pub right_thumb: bool,
    pub dpad_up: bool,
    pub dpad_down: bool,
    pub dpad_left: bool,
    pub dpad_right: bool,
    pub left_stick_x: u32,
    pub left_stick_y: u32,
    pub right_stick_x: u32,
    pub right_stick_y: u32,
}

impl PadInput {
    /// Whether `button` is held in this sample.
    pub open spec fn pressed(self, button: PadButton) -> bool {
        match button {
            PadButton::South => self.south,
            PadButton::East => self.east,
            PadButton::North => self.north,
            PadButton::West => self.west,
            PadButton::LeftTrigger => self.left_trigger,
            PadButton::LeftTrigger2 => self.left_trigger2,
            PadButton::RightTrigger => self.right_trigger,
            PadButton::RightTrigger2 => self.right_trigger2,
            PadButton::Select => self.select,
            PadButton::Start => self.start,
            PadButton::Mode => self.mode,
            PadButton::LeftThumb => self.left_thumb,
            PadButton::RightThumb => self.right_thumb,
            PadButton::DPadUp => self.dpad_up,
            PadButton::DPadDown => self.dpad_down,
            PadButton::DPadLeft => self.dpad_left,
            PadButton::DPadRight => self.dpad_right,
        }
    }

    /// The sample of an untouched controller: nothing held, sticks at rest.
    pub open spec fn at_rest() -> PadInput {
        PadInput {
            south: false,
            east: false,
            north: false,
            west: false,
            left_trigger: false,
            left_trigger2: false,
            right_trigger: false,
            right_trigger2: false,
            select: false,
            start: false,
            mode: false,
            left_thumb: false,
            right_thumb: false,
            dpad_up: false,
            dpad_down: false,
            dpad_left: false,
            dpad_right: false,
            left_stick_x: 0,
            left_stick_y: 0,
            right_stick_x: 0,
            right_stick_y: 0,
        }
    }

    /// A sample with nothing held and both sticks at rest.
    pub fn new() -> (input: PadInput)
        ensures
            input == PadInput::at_rest(),
    {
        PadInput {
            south: false,
            east: false,
            north: false,
            west: false,
            left_trigger: false,
            left_trigger2: false,
            right_trigger: false,
            right_trigger2: false,
            select: false,
            start: false,
            mode: false,
            left_thumb: false,
            right_thumb: false,
            dpad_up: false,
            dpad_down: false,
            dpad_left: false,
            dpad_right: false,
            left_stick_x: 0,
            left_stick_y: 0,
            right_stick_x: 0,
            right_stick_y: 0,
        }
    }

    /// Whether `button` is held in this sample.
    pub fn is_pressed(&self, button: PadButton) -> (held: bool)
        ensures
            held == self.pressed(button),
    {
        match button {
            PadButton::South => self.south,
            PadButton::East => self.east,
            PadButton::North => self.north,
            PadButton::West => self.west,
            PadButton::LeftTrigger => self.left_trigger,
            PadButton::LeftTrigger2 => self.left_trigger2,
            PadButton::RightTrigger => self.right_trigger,
            PadButton::RightTrigger2 => self.right_trigger2,
            PadButton::Select => self.select,
            PadButton::Start => self.start,
            PadButton::Mode => self.mode,
            PadButton::LeftThumb => self.left_thumb,
            PadButton::RightThumb => self.right_thumb,
            PadButton::DPadUp => self.dpad_up,
            PadButton::DPadDown => self.dpad_down,
            PadButton::DPadLeft => self.dpad_left,
            PadButton::DPadRight => self.dpad_right,
        }
    }
}

/// What a controller profile tells the USB host about itself.
pub struct ReportDescriptor {
    /// The HID report descriptor, as the host will parse it.
    pub descriptor: Vec<u8>,
    /// The length in bytes of every input report.
    pub report_size: usize,
    /// The USB vendor id, in hex with a `0x` prefix.
    pub vendor_id: String,
    /// The USB product id, in hex with a `0x` prefix.
    pub product_id: String,
    /// The manufacturer's name.
    pub manufacturer: String,
    /// The product's name.
    pub product: String,
    /// Whether the profile reports how far a button is pressed.
    pub analog_buttons: bool,
}

/// A `ReportDescriptor` as plain mathematical values.
pub struct ReportDescriptorView {
    pub descriptor: Seq<u8>,
    pub report_size: nat,
    pub vendor_id: Seq<char>,
    pub product_id: Seq<char>,
    pub manufacturer: Seq<char>,
    pub product: Seq<char>,
    pub analog_buttons: bool,
}

impl View for ReportDescriptor {
    type V = ReportDescriptorView;

    open spec fn view(&self) -> ReportDescriptorView {
        ReportDescriptorView {
            descriptor: self.descriptor@,
            report_size: self.report_size as nat,
            vendor_id: self.vendor_id@,
            product_id: self.product_id@,
            manufacturer: self.manufacturer@,
            product: self.product@,
            analog_buttons: self.analog_buttons,
        }
    }
}

/// A controller profile: the descriptor shown to the host and the fixed
/// layout of the reports that go with it.
pub trait HIDGamepad {
    /// The value of one input report.
    type Report;

    /// The profile's descriptor and identification.
    spec fn profile_view() -> ReportDescriptorView;

    /// The bytes of `report` in wire order.
    spec fn encoding(report: &Self::Report) -> Seq<u8>;

    /// The report that shows `input`.
    spec fn report_of(input: PadInput) -> Self::Report;

    /// Every report of a profile is laid out in the number of bytes that the
    /// profile declares, whatever its value.
    proof fn lemma_encoding_len(report: &Self::Report)
        ensures
            Self::encoding(report).len() == Self::profile_view().report_size,
    ;

    /// The report size that a profile declares is the one that its
    /// descriptor declares to the host.
    proof fn lemma_descriptor_declares_size()
        ensures
            declares_report_size(
                Self::profile_view().descriptor,
                Self::profile_view().report_size,
            ),
    ;

    /// The profile's descriptor and identification.
    fn profile() -> (p: ReportDescriptor)
        ensures
            p@ == Self::profile_view(),
    ;

    /// Whether the profile reports how far a button is pressed.
    fn analog_buttons() -> (analog: bool)
        ensures
            analog == Self::profile_view().analog_buttons,
    ;

    /// The length in bytes of every report of this profile.
    fn report_size() -> (n: usize)
        ensures
            n == Self::profile_view().report_size,
    ;

    /// Lays `report` out at the start of `buf` and returns the number of
    /// bytes used, which is the report size; what follows in the buffer
    /// stays. A buffer shorter than a report is refused with
    /// `ReportEncoding` and left as it is.
    fn encode(report: &Self::Report, buf: &mut Vec<u8>) -> (r: Result<usize, GadgetError>)
        ensures
            old(buf)@.len() >= Self::profile_view().report_size ==> r == Ok::<usize, GadgetError>(
                Self::profile_view().report_size as usize,
            ) && final(buf)@ == Self::encoding(report) + old(buf)@.skip(
                Self::profile_view().report_size as int,
            ),
            old(buf)@.len() < Self::profile_view().report_size ==> r == Err::<usize, GadgetError>(
                GadgetError::ReportEncoding,
            ) && final(buf)@ == old(buf)@,
    ;

    /// The report that shows `input`.
    fn fill_report(input: &PadInput) -> (report: Self::Report)
        ensures
            report == Self::report_of(*input),
    ;
}

} // verus!
