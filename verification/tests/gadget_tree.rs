use std::collections::{BTreeMap, BTreeSet};

use pizero_gadget_gamepads::error::GadgetError;
use pizero_gadget_gamepads::gamepad::HIDGamepad;
use pizero_gadget_gamepads::hid_gadget::{GadgetState, HIDGadget};
use pizero_gadget_gamepads::hori_pokken::{HoriPokkenPad, HoriPokkenPadReport};
use pizero_gadget_gamepads::plan::{
    activation_action, creation_actions, teardown_actions, FsOp, Outcome,
};

const ROOT: &str = "/sys/kernel/config/usb_gadget/gadget_gamepads";

/// A configuration file system in memory. It keeps the directories and
/// links that were made, and the attributes that were written. Like the
/// kernel, it lets a directory go only once nothing that was made lies
/// below it and no link points at it.
struct Tree {
    entries: BTreeSet<String>,
    links: BTreeMap<String, String>,
    attributes: BTreeMap<String, Vec<u8>>,
    minors: usize,
    controller: Option<Vec<u8>>,
    fail_at: Option<usize>,
    performed: usize,
}

fn tree() -> Tree {
    Tree {
        entries: BTreeSet::new(),
        links: BTreeMap::new(),
        attributes: BTreeMap::new(),
        minors: 0,
        controller: Some(b"20980000.usb".to_vec()),
        fail_at: None,
        performed: 0,
    }
}

fn parent(path: &str) -> String {
    match path.rfind('/') {
        Some(at) => path[..at].to_string(),
        None => String::new(),
    }
}

/// Whether `dir` is a directory that was made, or one of the groups that
/// the kernel provides inside a gadget or a configuration.
fn has_dir(tree: &Tree, dir: &str) -> bool {
    if tree.entries.contains(dir) && !tree.links.contains_key(dir) {
        return true;
    }
    let up = parent(dir);
    let provided = dir.ends_with("/strings") || dir.ends_with("/configs")
        || dir.ends_with("/functions");
    provided && tree.entries.contains(&up)
}

fn perform(tree: &mut Tree, op: &FsOp) -> Outcome {
    let turn = tree.performed;
    tree.performed += 1;
    if tree.fail_at == Some(turn) {
        return Outcome::Failed;
    }
    match op {
        FsOp::CreateDir { path } => {
            if tree.entries.contains(path) {
                return Outcome::Failed;
            }
            tree.entries.insert(path.clone());
            Outcome::Done
        }
        FsOp::CreateDirAll { path } => {
            tree.entries.insert(path.clone());
            Outcome::Done
        }
        FsOp::WriteFile { path, contents } => {
            if !has_dir(tree, &parent(path)) {
                return Outcome::Missing;
            }
            tree.attributes.insert(path.clone(), contents.clone());
            Outcome::Done
        }
        FsOp::Symlink { target, link } => {
            if !has_dir(tree, target) || tree.entries.contains(link) {
                return Outcome::Failed;
            }
            tree.entries.insert(link.clone());
            tree.links.insert(link.clone(), target.clone());
            Outcome::Done
        }
        FsOp::ReadDeviceNumber { path } => {
            let function = parent(path);
            if !tree.links.values().any(|target| *target == function) {
                return Outcome::Missing;
            }
            let minor = tree.minors;
            tree.minors += 1;
            Outcome::DeviceNumber(format!("239:{}\n", minor))
        }
        FsOp::FindController { path } => {
            assert_eq!(path, "/sys/class/udc");
            match &tree.controller {
                Some(name) => Outcome::Controller(name.clone()),
                None => Outcome::NoController,
            }
        }
        FsOp::RemoveFile { path } => {
            if !tree.links.contains_key(path) {
                return Outcome::Missing;
            }
            tree.links.remove(path);
            tree.entries.remove(path);
            Outcome::Done
        }
        FsOp::RemoveDir { path } => {
            if !tree.entries.contains(path) || tree.links.contains_key(path) {
                return Outcome::Missing;
            }
            let below = format!("{}/", path);
            if tree.entries.iter().any(|entry| entry.starts_with(&below)) {
                return Outcome::Failed;
            }
            if tree.links.values().any(|target| target == path) {
                return Outcome::Failed;
            }
            tree.entries.remove(path);
            tree.attributes.retain(|file, _| !file.starts_with(&below));
            Outcome::Done
        }
    }
}

/// Performs what the gadget asks for until it asks for nothing more.
fn drive(gadget: &mut HIDGadget<HoriPokkenPad>, tree: &mut Tree) -> Vec<FsOp> {
    let mut done = Vec::new();
    loop {
        let op = match gadget.next_action() {
            Some(op) => op.clone(),
            None => return done,
        };
        let outcome = perform(tree, &op);
        gadget.record(outcome);
        done.push(op);
    }
}

fn text(path: &str, contents: &str) -> FsOp {
    FsOp::WriteFile { path: format!("{}/{}", ROOT, path), contents: contents.as_bytes().to_vec() }
}

fn dir_all(path: &str) -> FsOp {
    FsOp::CreateDirAll { path: format!("{}/{}", ROOT, path) }
}

fn rmdir(path: &str) -> FsOp {
    FsOp::RemoveDir { path: format!("{}/{}", ROOT, path) }
}

#[test]
fn creation_plan_of_one_function() {
    let profile = HoriPokkenPad::profile();
    let plan = creation_actions(&profile, 1);
    let expected = vec![
        FsOp::CreateDir { path: ROOT.to_string() },
        text("idVendor", "0x0f0d"),
        text("idProduct", "0x0092"),
        text("bcdDevice", "0x0100"),
        text("bcdUSB", "0x0200"),
        dir_all("strings/0x409"),
        text("strings/0x409/serialnumber", "0"),
        text("strings/0x409/manufacturer", "HORI CO.,LTD."),
        text("strings/0x409/product", "POKKEN CONTROLLER"),
        dir_all("configs/c.1"),
        text("configs/c.1/MaxPower", "250"),
        dir_all("configs/c.1/strings/0x409"),
        text("configs/c.1/strings/0x409/configuration", "USB Gadget Gamepads"),
        dir_all("functions/hid.usb0"),
        text("functions/hid.usb0/protocol", "1"),
        text("functions/hid.usb0/subclass", "1"),
        text("functions/hid.usb0/report_length", "8"),
        FsOp::WriteFile {
            path: format!("{}/functions/hid.usb0/report_desc", ROOT),
            contents: profile.descriptor.clone(),
        },
        FsOp::Symlink {
            target: format!("{}/functions/hid.usb0", ROOT),
            link: format!("{}/configs/c.1/hid.usb0", ROOT),
        },
        FsOp::ReadDeviceNumber { path: format!("{}/functions/hid.usb0/dev", ROOT) },
        FsOp::FindController { path: "/sys/class/udc".to_string() },
    ];
    assert_eq!(plan, expected);
}

#[test]
fn creation_plan_grows_by_seven_actions_a_function() {
    let profile = HoriPokkenPad::profile();
    assert_eq!(creation_actions(&profile, 0).len(), 14);
    assert_eq!(creation_actions(&profile, 3).len(), 14 + 21);
    let plan = creation_actions(&profile, 11);
    assert_eq!(plan[13 + 7 * 10], dir_all("functions/hid.usb10"));
    assert_eq!(
        plan[13 + 7 * 10 + 6],
        FsOp::ReadDeviceNumber { path: format!("{}/functions/hid.usb10/dev", ROOT) }
    );
}

#[test]
fn activation_writes_the_controller_name() {
    assert_eq!(
        activation_action(b"musb-hdrc.1.auto".to_vec()),
        FsOp::WriteFile { path: format!("{}/UDC", ROOT), contents: b"musb-hdrc.1.auto".to_vec() }
    );
}

#[test]
fn teardown_plan_of_two_functions() {
    let expected = vec![
        FsOp::WriteFile { path: format!("{}/UDC", ROOT), contents: Vec::new() },
        FsOp::RemoveFile { path: format!("{}/configs/c.1/hid.usb0", ROOT) },
        rmdir("functions/hid.usb0"),
        FsOp::RemoveFile { path: format!("{}/configs/c.1/hid.usb1", ROOT) },
        rmdir("functions/hid.usb1"),
        rmdir("configs/c.1/strings/0x409"),
        rmdir("configs/c.1"),
        rmdir("strings/0x409"),
        FsOp::RemoveDir { path: ROOT.to_string() },
    ];
    assert_eq!(teardown_actions(2), expected);
}

#[test]
fn a_new_gadget_is_uninitialized_and_asks_for_nothing() {
    let mut gadget = HIDGadget::<HoriPokkenPad>::new(2);
    assert_eq!(gadget.state(), GadgetState::Uninitialized);
    assert_eq!(gadget.next_action(), None);
    assert_eq!(gadget.device_count(), 0);
    assert_eq!(gadget.error(), None);
    assert_eq!(gadget.path(), ROOT);
    gadget.record(Outcome::Done);
    assert_eq!(gadget.state(), GadgetState::Uninitialized);
    gadget.destroy();
    assert_eq!(gadget.state(), GadgetState::Uninitialized);
    gadget.begin();
    assert_eq!(gadget.state(), GadgetState::Creating);
    assert_eq!(gadget.next_action(), Some(&FsOp::CreateDir { path: ROOT.to_string() }));
    gadget.begin();
    assert_eq!(gadget.state(), GadgetState::Creating);
}

#[test]
fn life_of_a_gadget_passes_every_state_in_order() {
    let mut tree = tree();
    let mut gadget = HIDGadget::<HoriPokkenPad>::create(2);
    assert_eq!(gadget.state(), GadgetState::Creating);
    let mut seen = vec![gadget.state()];
    while let Some(op) = gadget.next_action() {
        let op = op.clone();
        let outcome = perform(&mut tree, &op);
        gadget.record(outcome);
        if *seen.last().unwrap() != gadget.state() {
            seen.push(gadget.state());
        }
    }
    assert_eq!(gadget.state(), GadgetState::Active);
    assert_eq!(gadget.device_count(), 2);
    assert_eq!(gadget.error(), None);
    assert_eq!(tree.attributes[&format!("{}/UDC", ROOT)], b"20980000.usb".to_vec());
    gadget.destroy();
    seen.push(gadget.state());
    while let Some(op) = gadget.next_action() {
        let op = op.clone();
        let outcome = perform(&mut tree, &op);
        gadget.record(outcome);
        if *seen.last().unwrap() != gadget.state() {
            seen.push(gadget.state());
        }
    }
    assert_eq!(
        seen,
        vec![
            GadgetState::Creating,
            GadgetState::Active,
            GadgetState::Destroying,
            GadgetState::Destroyed
        ]
    );
    assert_eq!(gadget.error(), None);
    assert!(tree.entries.is_empty());
    gadget.record(Outcome::Failed);
    gadget.destroy();
    assert_eq!(gadget.state(), GadgetState::Destroyed);
    assert_eq!(gadget.error(), None);
}

#[test]
fn creation_performs_the_plan_and_then_binds() {
    let mut tree = tree();
    let mut gadget = HIDGadget::<HoriPokkenPad>::create(1);
    let done = drive(&mut gadget, &mut tree);
    let mut expected = creation_actions(&HoriPokkenPad::profile(), 1);
    expected.push(activation_action(b"20980000.usb".to_vec()));
    assert_eq!(done, expected);
    assert_eq!(gadget.state(), GadgetState::Active);
}

#[test]
fn teardown_after_failure_in_third_of_four_functions() {
    for step in 0..7 {
        let mut tree = tree();
        tree.fail_at = Some(13 + 7 * 2 + step);
        let mut gadget = HIDGadget::<HoriPokkenPad>::create(4);
        let done = drive(&mut gadget, &mut tree);
        assert_eq!(gadget.state(), GadgetState::Destroyed);
        assert_eq!(gadget.error(), Some(GadgetError::FilesystemIO));
        assert_eq!(gadget.device_count(), 2);
        assert_eq!(done.len(), 13 + 7 * 2 + step + 1 + 5 + 2 * 4);
        assert!(tree.entries.is_empty(), "left over: {:?}", tree.entries);
        assert!(tree.attributes.is_empty(), "left over: {:?}", tree.attributes);
    }
}

#[test]
fn teardown_after_failure_at_any_step() {
    for at in 0..(15 + 7 * 3) {
        let mut tree = tree();
        tree.fail_at = Some(at);
        let mut gadget = HIDGadget::<HoriPokkenPad>::create(3);
        drive(&mut gadget, &mut tree);
        assert_eq!(gadget.state(), GadgetState::Destroyed);
        assert_eq!(gadget.error(), Some(GadgetError::FilesystemIO));
        assert!(tree.entries.is_empty(), "after failure at {}: {:?}", at, tree.entries);
    }
}

#[test]
fn missing_entry_that_was_made_is_an_error() {
    let mut tree = tree();
    let mut gadget = HIDGadget::<HoriPokkenPad>::create(1);
    drive(&mut gadget, &mut tree);
    assert_eq!(gadget.state(), GadgetState::Active);
    gadget.destroy();
    gadget.record(Outcome::Done);
    assert_eq!(gadget.error(), None);
    gadget.record(Outcome::Missing);
    assert_eq!(gadget.error(), Some(GadgetError::FilesystemIO));
    assert_eq!(gadget.state(), GadgetState::Destroying);
}

#[test]
fn missing_entry_that_was_never_made_is_no_error() {
    let mut gadget = HIDGadget::<HoriPokkenPad>::create(1);
    for _ in 0..13 {
        gadget.record(Outcome::Done);
    }
    assert_eq!(
        gadget.next_action(),
        Some(&FsOp::CreateDirAll { path: format!("{}/functions/hid.usb0", ROOT) })
    );
    gadget.destroy();
    assert_eq!(gadget.state(), GadgetState::Destroying);
    gadget.record(Outcome::Done);
    gadget.record(Outcome::Missing);
    gadget.record(Outcome::Missing);
    assert_eq!(gadget.error(), None);
    gadget.record(Outcome::Done);
    gadget.record(Outcome::Done);
    gadget.record(Outcome::Done);
    assert_eq!(gadget.state(), GadgetState::Destroying);
    gadget.record(Outcome::Done);
    assert_eq!(gadget.state(), GadgetState::Destroyed);
    assert_eq!(gadget.error(), None);
}

#[test]
fn teardown_goes_on_after_an_error_and_keeps_the_first() {
    let mut tree = tree();
    tree.controller = None;
    let mut gadget = HIDGadget::<HoriPokkenPad>::create(1);
    tree.fail_at = Some(13 + 7 + 1 + 2);
    let done = drive(&mut gadget, &mut tree);
    assert_eq!(gadget.state(), GadgetState::Destroyed);
    assert_eq!(gadget.error(), Some(GadgetError::NoHardwareController));
    assert_eq!(done.len(), 13 + 7 + 1 + 7);
}

#[test]
fn no_controller_ends_creation() {
    let mut tree = tree();
    tree.controller = None;
    let mut gadget = HIDGadget::<HoriPokkenPad>::create(2);
    drive(&mut gadget, &mut tree);
    assert_eq!(gadget.state(), GadgetState::Destroyed);
    assert_eq!(gadget.error(), Some(GadgetError::NoHardwareController));
    assert!(tree.entries.is_empty());
}

fn up_to_first_read(gadget: &mut HIDGadget<HoriPokkenPad>) {
    for _ in 0..19 {
        gadget.record(Outcome::Done);
    }
    assert_eq!(
        gadget.next_action(),
        Some(&FsOp::ReadDeviceNumber { path: format!("{}/functions/hid.usb0/dev", ROOT) })
    );
}

#[test]
fn unexpected_major_ends_creation() {
    let mut gadget = HIDGadget::<HoriPokkenPad>::create(1);
    up_to_first_read(&mut gadget);
    gadget.record(Outcome::DeviceNumber("13:64\n".to_string()));
    assert_eq!(gadget.state(), GadgetState::Destroying);
    assert_eq!(gadget.error(), Some(GadgetError::UnsupportedDeviceMajor));
    assert_eq!(gadget.device_count(), 0);
}

#[test]
fn bad_device_number_ends_creation() {
    let mut gadget = HIDGadget::<HoriPokkenPad>::create(1);
    up_to_first_read(&mut gadget);
    gadget.record(Outcome::DeviceNumber("nonsense".to_string()));
    assert_eq!(gadget.state(), GadgetState::Destroying);
    assert_eq!(gadget.error(), Some(GadgetError::BadDeviceNumber));
}

#[test]
fn read_that_only_reports_done_ends_creation() {
    let mut gadget = HIDGadget::<HoriPokkenPad>::create(1);
    up_to_first_read(&mut gadget);
    gadget.record(Outcome::Done);
    assert_eq!(gadget.state(), GadgetState::Destroying);
    assert_eq!(gadget.error(), Some(GadgetError::FilesystemIO));
}

#[test]
fn failed_first_action_is_torn_down_too() {
    let mut gadget = HIDGadget::<HoriPokkenPad>::create(0);
    gadget.record(Outcome::Failed);
    assert_eq!(gadget.state(), GadgetState::Destroying);
    assert_eq!(
        gadget.next_action(),
        Some(&FsOp::WriteFile { path: format!("{}/UDC", ROOT), contents: Vec::new() })
    );
    for _ in 0..5 {
        gadget.record(Outcome::Missing);
    }
    assert_eq!(gadget.state(), GadgetState::Destroyed);
    assert_eq!(gadget.error(), Some(GadgetError::FilesystemIO));
}

#[test]
fn device_still_taken_at_teardown_is_reported_and_teardown_goes_on() {
    let mut tree = tree();
    let mut gadget = HIDGadget::<HoriPokkenPad>::create(2);
    drive(&mut gadget, &mut tree);
    let _held = gadget.take_device(0).unwrap();
    gadget.destroy();
    assert_eq!(gadget.error(), Some(GadgetError::PoolConsistencyViolation));
    drive(&mut gadget, &mut tree);
    assert_eq!(gadget.state(), GadgetState::Destroyed);
    assert_eq!(gadget.error(), Some(GadgetError::PoolConsistencyViolation));
    assert!(tree.entries.is_empty());
}

#[test]
fn one_device_from_creation_to_teardown() {
    let mut tree = tree();
    let mut gadget = HIDGadget::<HoriPokkenPad>::create(1);
    drive(&mut gadget, &mut tree);
    assert_eq!(gadget.state(), GadgetState::Active);
    assert_eq!(gadget.device_count(), 1);
    assert_eq!(HoriPokkenPad::report_size(), 8);

    let mut device = gadget.take_device(0).unwrap();
    assert_eq!(device.path(), "/dev/hidg0");
    assert_eq!(device.index(), 0);
    assert_eq!(device.report_bytes(), &vec![0u8; 8]);

    let report = HoriPokkenPadReport {
        buttons: 0x0305,
        dpad: 6,
        lx: 0,
        ly: 255,
        rx: 128,
        ry: 64,
        _vendor_spec: 0,
    };
    assert_eq!(device.write_report(report), Ok(()));
    assert_eq!(device.report_bytes(), &vec![0x05, 0x03, 6, 0, 255, 128, 64, 0]);
    assert_eq!(device.check_written(device.report_bytes().len()), Ok(()));
    assert_eq!(device.check_read_report(), Ok(()));
    assert_eq!(device.report_bytes(), &vec![0x05, 0x03, 6, 0, 255, 128, 64, 0]);

    assert_eq!(gadget.release_device(device), Ok(()));
    gadget.destroy();
    drive(&mut gadget, &mut tree);
    assert_eq!(gadget.state(), GadgetState::Destroyed);
    assert_eq!(gadget.error(), None);
    assert!(tree.entries.is_empty());
    assert!(tree.links.is_empty());
    assert!(tree.attributes.is_empty());
}

#[test]
fn teardown_of_a_half_made_gadget_adds_no_error() {
    let mut tree = tree();
    let mut gadget = HIDGadget::<HoriPokkenPad>::create(4);
    for _ in 0..(13 + 7 * 2 + 3) {
        let op = gadget.next_action().unwrap().clone();
        let outcome = perform(&mut tree, &op);
        gadget.record(outcome);
    }
    assert_eq!(gadget.state(), GadgetState::Creating);
    assert_eq!(gadget.device_count(), 2);
    assert!(tree.entries.contains(&format!("{}/functions/hid.usb2", ROOT)));
    assert!(!tree.entries.contains(&format!("{}/configs/c.1/hid.usb2", ROOT)));
    gadget.destroy();
    let removals = drive(&mut gadget, &mut tree);
    assert_eq!(removals, teardown_actions(4));
    assert_eq!(gadget.state(), GadgetState::Destroyed);
    assert_eq!(gadget.error(), None);
    assert!(tree.entries.is_empty());
    assert!(tree.attributes.is_empty());
}

#[test]
fn a_function_directory_cannot_go_before_its_link() {
    let mut tree = tree();
    let mut gadget = HIDGadget::<HoriPokkenPad>::create(1);
    drive(&mut gadget, &mut tree);
    let dir = FsOp::RemoveDir { path: format!("{}/functions/hid.usb0", ROOT) };
    assert_eq!(perform(&mut tree, &dir), Outcome::Failed);
    let root = FsOp::RemoveDir { path: ROOT.to_string() };
    assert_eq!(perform(&mut tree, &root), Outcome::Failed);
    gadget.destroy();
    drive(&mut gadget, &mut tree);
    assert_eq!(gadget.error(), None);
    assert!(tree.entries.is_empty());
}
