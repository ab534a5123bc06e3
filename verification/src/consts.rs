//! Device identity and the opcodes of the wire protocol.

use vstd::prelude::*;

verus! {

/// Vendor identifier of the supported keyboard.
pub const VENDOR_ID: u16 = 0x0483;

/// Product identifier of the supported keyboard.
pub const PRODUCT_ID: u16 = 0x512a;

/// Interface number of the configuration endpoint on that keyboard.
pub const INTERFACE_ID: i32 = 1;

/// The operations the device understands, identified by a 16-bit opcode in
/// every command frame.
///
/// `KeyLock` doubles as the unlock command: the device distinguishes the two
/// by the first payload byte (0 locks, 1 unlocks). That overload is a
/// firmware quirk kept on purpose.
#[derive(Clone, Copy, PartialEq, Eq, Structural, Debug)]
pub enum OpCode {
    VersionRead,
    CounterRead,
    CalibInit,
    CalibPressed,
    KeyLock,
    KeymapDataRead,
    KeymapData,
    KeymapDataStart,
    KeymapDataEnd,
}

impl OpCode {
    /// The 16-bit value that identifies this operation on the wire.
    pub open spec fn value(self) -> u16 {
        match self {
            OpCode::VersionRead => 0xf901,
            OpCode::CounterRead => 0xf904,
            OpCode::CalibInit => 0xf906,
            OpCode::CalibPressed => 0xf907,
            OpCode::KeyLock => 0xf90d,
            OpCode::KeymapDataRead => 0xf912,
            OpCode::KeymapData => 0xf913,
            OpCode::KeymapDataStart => 0xf914,
            OpCode::KeymapDataEnd => 0xf915,
        }
    }

    /// Executable counterpart of [`Self::value`].
    pub fn code(self) -> (r: u16)
        ensures
            r == self.value(),
    {
        match self {
            OpCode::VersionRead => 0xf901,
            OpCode::CounterRead => 0xf904,
            OpCode::CalibInit => 0xf906,
            OpCode::CalibPressed => 0xf907,
            OpCode::KeyLock => 0xf90d,
            OpCode::KeymapDataRead => 0xf912,
            OpCode::KeymapData => 0xf913,
            OpCode::KeymapDataStart => 0xf914,
            OpCode::KeymapDataEnd => 0xf915,
        }
    }
}

/// Exact-match predicate for device enumeration: a HID device is the
/// supported keyboard when vendor, product and interface all match.
pub fn device_matches(vendor: u16, product: u16, interface: i32) -> (r: bool)
    ensures
        r == (vendor == VENDOR_ID && product == PRODUCT_ID && interface == INTERFACE_ID),
{
    vendor == VENDOR_ID && product == PRODUCT_ID && interface == INTERFACE_ID
}

} // verus!
