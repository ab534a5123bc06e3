//! The frame codec: fixed 64-byte command frames and the typed record
//! shapes that inbound frames are decoded into.
//!
//! A frame is laid out as: byte 0 reserved (0 in outbound frames; the
//! terminator flag in inbound streaming records), bytes 1-2 a big-endian
//! opcode, bytes 3-63 a command-specific payload, zero-padded when unused.
//! Inbound record shapes are fixed-width sub-layouts of the same 64 bytes;
//! the caller picks the shape that matches the command in flight, and
//! decoding never fails on a well-formed 64-byte buffer.

use vstd::prelude::*;

use crate::consts::OpCode;
use crate::FRAME_LEN;
use crate::PAYLOAD_LEN;
use crate::is_frame;
use crate::text::string_from_chars;

verus! {

/// High byte of a big-endian 16-bit opcode.
pub open spec fn op_hi(op: u16) -> u8 {
    (op / 256) as u8
}

/// Low byte of a big-endian 16-bit opcode.
pub open spec fn op_lo(op: u16) -> u8 {
    (op % 256) as u8
}

/// The 32-bit value stored little-endian in four bytes.
pub open spec fn le32(b0: u8, b1: u8, b2: u8, b3: u8) -> u32 {
    (b0 as int + b1 as int * 0x100 + b2 as int * 0x10000 + b3 as int * 0x1000000) as u32
}

/// The 64-byte frame that carries opcode `op` and the 61-byte payload
/// `data`: reserved byte, big-endian opcode, payload.
pub open spec fn request_frame(op: u16, data: Seq<u8>) -> Seq<u8> {
    seq![0u8, op_hi(op), op_lo(op)] + data
}

/// An outbound command frame before packing: an opcode and its payload.
pub struct Request {
    pub op: u16,
    pub data: Vec<u8>,
}

impl Request {
    /// A request is well-formed when its payload has exactly the width the
    /// frame layout reserves for it.
    pub open spec fn wf(&self) -> bool {
        self.data@.len() == PAYLOAD_LEN
    }

    /// A command with an all-zero payload.
    pub fn new(op: OpCode) -> (r: Request)
        ensures
            r.wf(),
            r.op == op.value(),
            r.data@ == Seq::new(PAYLOAD_LEN as nat, |i: int| 0u8),
    {
        let mut data: Vec<u8> = Vec::new();
        while data.len() < PAYLOAD_LEN
            invariant
                data@ =~= Seq::new(data@.len(), |i: int| 0u8),
                data@.len() <= PAYLOAD_LEN,
            decreases PAYLOAD_LEN - data@.len(),
        {
            data.push(0);
        }
        proof {
            assert(data@ =~= Seq::new(PAYLOAD_LEN as nat, |i: int| 0u8));
        }
        Request { op: op.code(), data }
    }

    /// A command with the given 61-byte payload.
    pub fn new_with_data(op: OpCode, data: Vec<u8>) -> (r: Request)
        requires
            data@.len() == PAYLOAD_LEN,
        ensures
            r.wf(),
            r.op == op.value(),
            r.data == data,
    {
        Request { op: op.code(), data }
    }

    /// Serialize into the 64-byte wire frame; the reserved byte of an
    /// outbound frame is always 0.
    pub fn pack(&self) -> (frame: Vec<u8>)
        requires
            self.wf(),
        ensures
            is_frame(frame@),
            frame@ == request_frame(self.op, self.data@),
    {
        let mut frame: Vec<u8> = Vec::new();
        frame.push(0);
        frame.push((self.op / 256) as u8);
        frame.push((self.op % 256) as u8);
        let mut i: usize = 0;
        while i < self.data.len()
            invariant
                self.wf(),
                i <= PAYLOAD_LEN,
                frame@ =~= seq![0u8, op_hi(self.op), op_lo(self.op)] + self.data@.take(i as int),
            decreases PAYLOAD_LEN - i,
        {
            frame.push(self.data[i]);
            i += 1;
        }
        proof {
            assert(frame@ =~= request_frame(self.op, self.data@));
        }
        frame
    }
}

/// The key-lock command: the lock opcode with an all-zero payload.
pub fn lock_request() -> (r: Request)
    ensures
        r.wf(),
        r.op == OpCode::KeyLock.value(),
        r.data@ == Seq::new(PAYLOAD_LEN as nat, |i: int| 0u8),
{
    Request::new(OpCode::KeyLock)
}

/// The key-unlock command: the device overloads the lock opcode, telling
/// the two commands apart only by the first payload byte — 0 locks and 1
/// unlocks. A firmware quirk kept on purpose.
pub fn unlock_request() -> (r: Request)
    ensures
        r.wf(),
        r.op == OpCode::KeyLock.value(),
        r.data@ == Seq::new(PAYLOAD_LEN as nat, |i: int| if i == 0 { 1u8 } else { 0u8 }),
{
    let mut data: Vec<u8> = Vec::new();
    data.push(1);
    while data.len() < PAYLOAD_LEN
        invariant
            1 <= data@.len() <= PAYLOAD_LEN,
            data@ =~= Seq::new(data@.len(), |i: int| if i == 0 { 1u8 } else { 0u8 }),
        decreases PAYLOAD_LEN - data@.len(),
    {
        data.push(0);
    }
    proof {
        assert(data@ =~= Seq::new(PAYLOAD_LEN as nat, |i: int| if i == 0 { 1u8 } else { 0u8 }));
    }
    Request::new_with_data(OpCode::KeyLock, data)
}

/// The version record: a reserved byte, a type byte, then an ASCII
/// firmware-version string padded with NULs to 62 bytes.
pub struct Version {
    pub id: u8,
    pub version: Vec<u8>,
}

impl Version {
    /// Decode a 64-byte frame as a version record.
    pub fn unpack(frame: &Vec<u8>) -> (r: Version)
        requires
            is_frame(frame@),
        ensures
            r.id == frame@[0],
            r.version@ == frame@.subrange(2, FRAME_LEN as int),
    {
        let mut version: Vec<u8> = Vec::new();
        let mut i: usize = 2;
        while i < FRAME_LEN
            invariant
                is_frame(frame@),
                2 <= i <= FRAME_LEN,
                version@ =~= frame@.subrange(2, i as int),
            decreases FRAME_LEN - i,
        {
            version.push(frame[i]);
            i += 1;
        }
        Version { id: frame[0], version }
    }

    /// The version string: the payload with its NUL padding trimmed,
    /// read as ASCII text.
    pub fn text(&self) -> (r: String)
        ensures
            r@ == bytes_text(trim_nuls(self.version@)),
    {
        let mut end: usize = self.version.len();
        proof {
            assert(self.version@.take(end as int) =~= self.version@);
        }
        while end > 0 && self.version[end - 1] == 0
            invariant
                end <= self.version@.len(),
                trim_nuls(self.version@) == trim_nuls(self.version@.take(end as int)),
            decreases end,
        {
            proof {
                assert(self.version@.take(end as int).drop_last() =~= self.version@.take(
                    end - 1,
                ));
            }
            end -= 1;
        }
        let ghost kept = trim_nuls(self.version@);
        proof {
            assert(kept == self.version@.take(end as int));
        }
        let mut cs: Vec<char> = Vec::new();
        let mut i: usize = 0;
        while i < end
            invariant
                end <= self.version@.len(),
                kept == self.version@.take(end as int),
                i <= end,
                cs@ =~= bytes_text(kept).take(i as int),
            decreases end - i,
        {
            cs.push(byte_char_exec(self.version[i]));
            i += 1;
        }
        proof {
            assert(cs@ =~= bytes_text(kept));
        }
        string_from_chars(&cs)
    }
}

/// The byte sequence with its trailing NUL padding removed.
pub open spec fn trim_nuls(s: Seq<u8>) -> Seq<u8>
    decreases s.len(),
{
    if s.len() > 0 && s.last() == 0 {
        trim_nuls(s.drop_last())
    } else {
        s
    }
}

/// The character a version byte stands for: ASCII bytes stand for
/// themselves, anything else becomes the replacement character.
pub open spec fn byte_char(b: u8) -> char {
    if b < 128 {
        b as char
    } else {
        '\u{fffd}'
    }
}

/// The text of a run of version bytes.
pub open spec fn bytes_text(s: Seq<u8>) -> Seq<char> {
    Seq::new(s.len(), |i: int| byte_char(s[i]))
}

/// Executable counterpart of [`byte_char`].
fn byte_char_exec(b: u8) -> (r: char)
    ensures
        r == byte_char(b),
{
    if b < 128 {
        b as char
    } else {
        '\u{fffd}'
    }
}

/// How many of a counter record's 15 slots hold valid data: the record
/// says how many bytes are valid, four bytes per counter.
pub open spec fn counter_valid_len(size: u8) -> int {
    if size / 4 < 15 {
        (size / 4) as int
    } else {
        15
    }
}

/// The counter record: a byte count of valid data followed by up to 15
/// little-endian 32-bit key-press counters.
pub struct KeyCounter {
    pub id: u8,
    pub size: u8,
    pub count: Vec<u32>,
}

impl KeyCounter {
    /// A counter record is well-formed when it holds all 15 slots.
    pub open spec fn wf(&self) -> bool {
        self.count@.len() == 15
    }

    /// Decode a 64-byte frame as a counter record.
    pub fn unpack(frame: &Vec<u8>) -> (r: KeyCounter)
        requires
            is_frame(frame@),
        ensures
            r.wf(),
            r.id == frame@[0],
            r.size == frame@[2],
            forall|j: int|
                0 <= j < 15 ==> r.count@[j] == le32(
                    frame@[3 + 4 * j],
                    frame@[4 + 4 * j],
                    frame@[5 + 4 * j],
                    frame@[6 + 4 * j],
                ),
    {
        let mut count: Vec<u32> = Vec::new();
        let mut j: usize = 0;
        while j < 15
            invariant
                is_frame(frame@),
                j <= 15,
                count@.len() == j,
                forall|k: int|
                    0 <= k < j ==> count@[k] == le32(
                        frame@[3 + 4 * k],
                        frame@[4 + 4 * k],
                        frame@[5 + 4 * k],
                        frame@[6 + 4 * k],
                    ),
            decreases 15 - j,
        {
            let b0 = frame[3 + 4 * j] as u32;
            let b1 = frame[4 + 4 * j] as u32;
            let b2 = frame[5 + 4 * j] as u32;
            let b3 = frame[6 + 4 * j] as u32;
            count.push(b0 + b1 * 0x100 + b2 * 0x10000 + b3 * 0x1000000);
            j += 1;
        }
        KeyCounter { id: frame[0], size: frame[2], count }
    }

    /// The valid prefix of the counters: only the first `size / 4` slots
    /// carry data, and never more than the 15 the record can hold.
    pub fn valid_values(&self) -> (r: Vec<u32>)
        requires
            self.wf(),
        ensures
            r@ == self.count@.take(counter_valid_len(self.size)),
    {
        let n: usize = {
            let quarters = (self.size / 4) as usize;
            if quarters < 15 {
                quarters
            } else {
                15
            }
        };
        let mut r: Vec<u32> = Vec::new();
        let mut j: usize = 0;
        while j < n
            invariant
                self.wf(),
                n == counter_valid_len(self.size),
                j <= n,
                r@ =~= self.count@.take(j as int),
            decreases n - j,
        {
            r.push(self.count[j]);
            j += 1;
        }
        proof {
            assert(r@ =~= self.count@.take(counter_valid_len(self.size)));
        }
        r
    }
}

/// The keymap record: one key's assignment as the device reports it, with
/// 1-based layer and key indices.
pub struct KeymapResponse {
    pub id: u8,
    pub layer: u8,
    pub key: u8,
    pub active: u8,
    pub keycode: u8,
}

impl KeymapResponse {
    /// Decode a 64-byte frame as a keymap record.
    pub fn unpack(frame: &Vec<u8>) -> (r: KeymapResponse)
        requires
            is_frame(frame@),
        ensures
            r.id == frame@[0],
            r.layer == frame@[2],
            r.key == frame@[3],
            r.active == frame@[5],
            r.keycode == frame@[6],
    {
        KeymapResponse {
            id: frame[0],
            layer: frame[2],
            key: frame[3],
            active: frame[5],
            keycode: frame[6],
        }
    }
}

/// Whether a key slot counts as active on the wire: 0 exactly for the
/// "no key" keycode 0, and 1 for every other keycode.
pub open spec fn active_flag(keycode: u8) -> u8 {
    if keycode == 0 {
        0
    } else {
        1
    }
}

/// The 61-byte payload of one outbound keymap data frame.
pub open spec fn keymap_data_bytes(layer: u8, key: u8, keycode: u8) -> Seq<u8> {
    seq![layer, key, 0u8, active_flag(keycode), keycode] + Seq::new(56, |i: int| 0u8)
}

/// One key assignment in an outbound keymap write, with 1-based layer and
/// key indices.
pub struct KeymapData {
    pub layer: u8,
    pub key: u8,
    pub active: u8,
    pub keycode: u8,
}

impl KeymapData {
    /// Build the record for one key; the active flag is derived from the
    /// keycode, 0 exactly when the keycode is 0.
    pub fn new(layer: u8, key: u8, keycode: u8) -> (r: KeymapData)
        ensures
            r.layer == layer,
            r.key == key,
            r.keycode == keycode,
            r.active == active_flag(keycode),
            r.active == 0 <==> keycode == 0,
    {
        KeymapData {
            layer,
            key,
            active: if keycode == 0 {
                0
            } else {
                1
            },
            keycode,
        }
    }

    /// Serialize into the 61-byte payload of a keymap data frame.
    pub fn pack(&self) -> (r: Vec<u8>)
        requires
            self.active == active_flag(self.keycode),
        ensures
            r@.len() == PAYLOAD_LEN,
            r@ == keymap_data_bytes(self.layer, self.key, self.keycode),
    {
        let mut r: Vec<u8> = Vec::new();
        r.push(self.layer);
        r.push(self.key);
        r.push(0);
        r.push(self.active);
        r.push(self.keycode);
        while r.len() < PAYLOAD_LEN
            invariant
                5 <= r@.len() <= PAYLOAD_LEN,
                r@ =~= seq![self.layer, self.key, 0u8, self.active, self.keycode] + Seq::new(
                    (r@.len() - 5) as nat,
                    |i: int| 0u8,
                ),
            decreases PAYLOAD_LEN - r@.len(),
        {
            r.push(0);
        }
        proof {
            assert(r@ =~= keymap_data_bytes(self.layer, self.key, self.keycode));
        }
        r
    }
}

} // verus!
