use pizero_gadget_gamepads::error::GadgetError;
use pizero_gadget_gamepads::gamepad::PadInput;
use pizero_gadget_gamepads::hid_gadget::{GadgetState, HIDGadget};
use pizero_gadget_gamepads::hori_pokken::HoriPokkenPad;
use pizero_gadget_gamepads::plan::{FsOp, Outcome};
use pizero_gadget_gamepads::translation::{react, PadEvent, Reaction, Routes};

fn active(count: usize) -> HIDGadget<HoriPokkenPad> {
    let mut gadget = HIDGadget::<HoriPokkenPad>::create(count);
    let mut minor = 0;
    loop {
        let outcome = match gadget.next_action() {
            None => break,
            Some(FsOp::ReadDeviceNumber { .. }) => {
                minor += 1;
                Outcome::DeviceNumber(format!("239:{}\n", minor - 1))
            }
            Some(FsOp::FindController { .. }) => Outcome::Controller(b"udc0".to_vec()),
            Some(_) => Outcome::Done,
        };
        gadget.record(outcome);
    }
    assert_eq!(gadget.state(), GadgetState::Active);
    gadget
}

#[test]
fn reactions_of_a_profile_without_analog_buttons() {
    assert_eq!(react::<HoriPokkenPad>(PadEvent::Connected), Reaction::Attach);
    assert_eq!(react::<HoriPokkenPad>(PadEvent::Disconnected), Reaction::Detach);
    assert_eq!(react::<HoriPokkenPad>(PadEvent::Dropped), Reaction::Ignore);
    assert_eq!(react::<HoriPokkenPad>(PadEvent::ButtonChanged), Reaction::Ignore);
    assert_eq!(react::<HoriPokkenPad>(PadEvent::Input), Reaction::Report);
}

#[test]
fn routes_remember_one_device_for_each_controller() {
    let mut gadget = active(3);
    let mut routes = Routes::<HoriPokkenPad>::new();
    assert_eq!(routes.len(), 0);
    assert!(routes.get(4).is_none());
    assert!(routes.insert(4, gadget.take_device(0).unwrap()).is_none());
    assert!(routes.insert(9, gadget.take_device(0).unwrap()).is_none());
    assert_eq!(routes.len(), 2);
    assert_eq!(routes.get(4).unwrap().index(), 0);
    assert_eq!(routes.get(9).unwrap().path(), "/dev/hidg1");

    let former = routes.insert(4, gadget.take_device(0).unwrap()).unwrap();
    assert_eq!(former.index(), 0);
    assert_eq!(routes.len(), 2);
    assert_eq!(routes.get(4).unwrap().index(), 2);
    assert_eq!(gadget.release_device(former), Ok(()));

    let removed = routes.remove(9).unwrap();
    assert_eq!(removed.index(), 1);
    assert!(routes.remove(9).is_none());
    assert!(routes.get(9).is_none());
    assert_eq!(routes.len(), 1);
    assert_eq!(gadget.release_device(removed), Ok(()));
}

#[test]
fn update_writes_into_the_buffer_of_the_mapped_controller_only() {
    let mut gadget = active(2);
    let mut routes = Routes::<HoriPokkenPad>::new();
    routes.insert(1, gadget.take_device(0).unwrap());
    routes.insert(2, gadget.take_device(0).unwrap());
    let mut input = PadInput::new();
    input.north = true;
    input.left_stick_y = (-0.5f32).to_bits();
    assert!(routes.update(2, &input));
    assert!(!routes.update(3, &input));
    assert_eq!(routes.get(2).unwrap().report_bytes(), &vec![8, 0, 8, 128, 64, 128, 128, 0]);
    assert_eq!(routes.get(1).unwrap().report_bytes(), &vec![0u8; 8]);
    assert_eq!(routes.len(), 2);
}

#[test]
fn release_all_gives_every_device_back() {
    let mut gadget = active(2);
    let mut routes = Routes::<HoriPokkenPad>::new();
    routes.insert(1, gadget.take_device(0).unwrap());
    routes.insert(2, gadget.take_device(0).unwrap());
    assert_eq!(gadget.take_device(0).err(), Some(GadgetError::NoUsableDevice));
    assert_eq!(routes.release_all(&mut gadget), Ok(()));
    assert_eq!(routes.len(), 0);
    gadget.destroy();
    assert_eq!(gadget.error(), None);
}

#[test]
fn release_all_reports_a_device_that_the_pool_refuses() {
    let mut gadget = active(2);
    let mut other = active(2);
    let mut routes = Routes::<HoriPokkenPad>::new();
    routes.insert(1, gadget.take_device(0).unwrap());
    routes.insert(2, other.take_device(0).unwrap());
    routes.insert(3, gadget.take_device(0).unwrap());
    assert_eq!(routes.release_all(&mut gadget), Err(GadgetError::PoolConsistencyViolation));
    assert_eq!(routes.len(), 0);
    assert_eq!(gadget.take_device(0).unwrap().index(), 0);
    assert_eq!(gadget.take_device(0).unwrap().index(), 1);
}
