//! Emulates USB HID game controllers on a Linux device with USB gadget
//! hardware.
//!
//! The library decides and keeps the books; whoever uses it acts. A
//! [`hid_gadget::HIDGadget`] names, one by one, the actions on the kernel's
//! configuration file system that lay a gadget out or take it apart, and is
//! told what came of each. It holds the pool of the gadget's devices. A
//! controller profile, [`HIDGamepad`], gives the descriptor that the host
//! reads and the fixed layout of the reports that are written to a device.

pub mod axis;
pub mod codec;
pub mod descriptor;
pub mod device;
pub mod error;
pub mod gamecube_adapter;
pub mod gamepad;
pub mod hid_gadget;
pub mod hori_pokken;
pub mod plan;
pub mod pool_lemmas;
pub mod text;
pub mod translation;
pub mod tree_lemmas;

pub use gamepad::HIDGamepad;
