use vstd::prelude::*;

pub mod config;
pub mod consts;
pub mod json;
pub mod keycodes;
pub mod protocol;
pub mod stream;
pub mod text;
pub mod writer;

verus! {

/// Width in bytes of one wire frame: the atomic unit of the protocol.
pub const FRAME_LEN: usize = 64;

/// Width in bytes of the command-specific payload inside a frame.
pub const PAYLOAD_LEN: usize = 61;

/// True exactly when `bytes` has the shape of a wire frame.
pub open spec fn is_frame(bytes: Seq<u8>) -> bool {
    bytes.len() == FRAME_LEN
}

/// A streamed response ends at the first record whose reserved byte is
/// non-zero; every record before it carries data.
pub fn is_terminator(frame: &Vec<u8>) -> (r: bool)
    requires
        is_frame(frame@),
    ensures
        r == (frame@[0] != 0),
{
    frame[0] != 0
}

} // verus!
