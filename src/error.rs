use vstd::prelude::*;

verus! {

/// Every failure that the emulator core can report.
#[derive(Debug, Clone, Copy, PartialEq, Eq, Structural)]
pub enum EmuError {
    /// No device claims the address, or the address lies outside a region.
    UnmappedAddress,
    /// A store into read-only storage.
    PermissionDenied,
    /// The cartridge type code of the image names no supported controller.
    UnsupportedCartridgeType,
    /// The image is too short for its header, or its length disagrees with
    /// the ROM size that its header declares.
    InvalidImage,
    /// An instruction whose operand selectors have no defined meaning.
    InvalidOperand,
    /// A primary opcode that the decoder does not model.
    UnknownOpcode,
}

} // verus!
