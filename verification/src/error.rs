use vstd::prelude::*;

verus! {

/// Everything that can go wrong while a gadget is built, used or torn down.
#[derive(Clone, Copy, Debug, PartialEq, Eq, Structural)]
pub enum GadgetError {
    /// A create, write, remove, open or read on the configuration tree or a
    /// device node failed.
    FilesystemIO,
    /// The kernel exposed a function's device under an unexpected major number.
    UnsupportedDeviceMajor,
    /// A function's device number was not of the form `major:minor`.
    BadDeviceNumber,
    /// No USB device controller is available to bind the gadget to.
    NoHardwareController,
    /// A report did not fit the buffer it was to be laid out in.
    ReportEncoding,
    /// A report write transferred a number of bytes other than the report size.
    ShortWrite,
    /// Every slot of the pool is occupied or could not be opened.
    NoUsableDevice,
    /// Double release, release of an index outside the pool, or a slot still
    /// taken at teardown: a bug in the caller, not a fault of the environment.
    PoolConsistencyViolation,
}

} // verus!
