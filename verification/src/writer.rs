//! The multi-record writer: a keymap write pushes a complete replacement
//! of the device's key mapping.
//!
//! The firmware requires the whole map on every write — omitting
//! unchanged keys corrupts device state — so the plan always covers every
//! key of every layer: one start marker, one data frame per key, and one
//! end marker whose payload is filled with the end opcode's own low byte
//! (a device sentinel, not zero padding). There is no partial-write mode
//! on purpose.

use vstd::prelude::*;

use crate::consts::OpCode;
use crate::is_frame;
use crate::PAYLOAD_LEN;
use crate::protocol::KeymapData;
use crate::protocol::Request;
use crate::protocol::keymap_data_bytes;
use crate::protocol::op_lo;
use crate::protocol::request_frame;
use crate::stream::rows_of;

verus! {

/// The frame that opens a keymap write.
pub open spec fn start_frame() -> Seq<u8> {
    request_frame(OpCode::KeymapDataStart.value(), Seq::new(PAYLOAD_LEN as nat, |i: int| 0u8))
}

/// The frame that closes a keymap write: its payload is filled entirely
/// with the end opcode's own low byte.
pub open spec fn end_frame() -> Seq<u8> {
    request_frame(
        OpCode::KeymapDataEnd.value(),
        Seq::new(PAYLOAD_LEN as nat, |i: int| op_lo(OpCode::KeymapDataEnd.value())),
    )
}

/// The data frame for one key slot, with 1-based layer and key indices.
pub open spec fn data_frame(layer: u8, key: u8, keycode: u8) -> Seq<u8> {
    request_frame(OpCode::KeymapData.value(), keymap_data_bytes(layer, key, keycode))
}

/// Active-flag derivation: every emitted data frame carries an active
/// field that is 0 exactly when the keycode it carries is 0.
pub proof fn lemma_active_flag(layer: u8, key: u8, keycode: u8)
    ensures
        data_frame(layer, key, keycode)[6] == 0 <==> keycode == 0,
{
}

/// The data frames for one layer's row, one per key in key order.
pub open spec fn row_plan(layer: u8, row: Seq<u8>) -> Seq<Seq<u8>> {
    Seq::new(row.len(), |k: int| data_frame(layer, (k + 1) as u8, row[k]))
}

/// The data frames for all layers, in layer order.
pub open spec fn layers_plan(km: Seq<Seq<u8>>) -> Seq<Seq<u8>>
    decreases km.len(),
{
    if km.len() == 0 {
        Seq::empty()
    } else {
        layers_plan(km.drop_last()) + row_plan(km.len() as u8, km.last())
    }
}

/// How many key slots a keymap holds, over all layers.
pub open spec fn total_keys(km: Seq<Seq<u8>>) -> int
    decreases km.len(),
{
    if km.len() == 0 {
        0
    } else {
        total_keys(km.drop_last()) + km.last().len()
    }
}

/// The complete frame sequence of one keymap write: start marker, one
/// data frame per key slot, end marker.
pub open spec fn write_plan(km: Seq<Seq<u8>>) -> Seq<Seq<u8>> {
    seq![start_frame()] + layers_plan(km) + seq![end_frame()]
}

/// A write emits one data frame per key slot.
pub proof fn lemma_layers_plan_len(km: Seq<Seq<u8>>)
    ensures
        layers_plan(km).len() == total_keys(km),
    decreases km.len(),
{
    if km.len() > 0 {
        lemma_layers_plan_len(km.drop_last());
    }
}

/// Lay out the frames of one complete keymap write. The frame count is
/// exactly the start marker, one data frame per key slot of every layer,
/// and the end marker. Layer and key indices are 1-based on the wire,
/// which bounds a writable keymap at 255 layers of 255 keys.
pub fn write_frames(keymap: &Vec<Vec<u8>>) -> (r: Vec<Vec<u8>>)
    requires
        keymap@.len() <= 255,
        forall|i: int| 0 <= i < keymap@.len() ==> (#[trigger] keymap@[i]@).len() <= 255,
    ensures
        rows_of(r@) == write_plan(rows_of(keymap@)),
        forall|i: int| 0 <= i < r@.len() ==> is_frame(#[trigger] r@[i]@),
        r@.len() == 2 + total_keys(rows_of(keymap@)),
{
    let ghost km = rows_of(keymap@);
    let mut r: Vec<Vec<u8>> = Vec::new();
    r.push(Request::new(OpCode::KeymapDataStart).pack());
    let mut li: usize = 0;
    proof {
        assert(rows_of(r@) =~= seq![start_frame()] + layers_plan(km.take(0)));
    }
    while li < keymap.len()
        invariant
            km == rows_of(keymap@),
            km.len() <= 255,
            forall|i: int| 0 <= i < km.len() ==> (#[trigger] km[i]).len() <= 255,
            li <= km.len(),
            rows_of(r@) == seq![start_frame()] + layers_plan(km.take(li as int)),
            forall|i: int| 0 <= i < r@.len() ==> is_frame(#[trigger] r@[i]@),
        decreases km.len() - li,
    {
        let row_len = keymap[li].len();
        let mut k: usize = 0;
        while k < row_len
            invariant
                km == rows_of(keymap@),
                km.len() <= 255,
                forall|i: int| 0 <= i < km.len() ==> (#[trigger] km[i]).len() <= 255,
                li < km.len(),
                row_len == km[li as int].len(),
                k <= row_len,
                rows_of(r@) == seq![start_frame()] + layers_plan(km.take(li as int)) + row_plan(
                    (li + 1) as u8,
                    km[li as int].take(k as int),
                ),
                forall|i: int| 0 <= i < r@.len() ==> is_frame(#[trigger] r@[i]@),
            decreases row_len - k,
        {
            let record = KeymapData::new((li + 1) as u8, (k + 1) as u8, keymap[li][k]);
            let frame = Request::new_with_data(OpCode::KeymapData, record.pack()).pack();
            let ghost pre = rows_of(r@);
            let ghost step = data_frame((li + 1) as u8, (k + 1) as u8, km[li as int][k as int]);
            r.push(frame);
            proof {
                assert(rows_of(r@) =~= pre.push(frame@));
                assert(frame@ == step);
                assert(row_plan((li + 1) as u8, km[li as int].take(k as int + 1)) =~= row_plan(
                    (li + 1) as u8,
                    km[li as int].take(k as int),
                ).push(step));
                assert(rows_of(r@) =~= seq![start_frame()] + layers_plan(km.take(li as int))
                    + row_plan((li + 1) as u8, km[li as int].take(k as int + 1)));
            }
            k += 1;
        }
        li += 1;
        proof {
            let prefix = km.take(li as int);
            assert(prefix.drop_last() =~= km.take(li as int - 1));
            assert(prefix.last() =~= km[li as int - 1]);
            assert(km[li as int - 1].take(row_len as int) =~= km[li as int - 1]);
            assert(rows_of(r@) =~= seq![start_frame()] + layers_plan(km.take(li as int)));
        }
    }
    let mut fill: Vec<u8> = Vec::new();
    let sentinel = (OpCode::KeymapDataEnd.code() % 256) as u8;
    while fill.len() < PAYLOAD_LEN
        invariant
            sentinel == op_lo(OpCode::KeymapDataEnd.value()),
            fill@ =~= Seq::new(fill@.len(), |i: int| op_lo(OpCode::KeymapDataEnd.value())),
            fill@.len() <= PAYLOAD_LEN,
        decreases PAYLOAD_LEN - fill@.len(),
    {
        fill.push(sentinel);
    }
    r.push(Request::new_with_data(OpCode::KeymapDataEnd, fill).pack());
    proof {
        assert(km.take(km.len() as int) =~= km);
        assert(rows_of(r@) =~= write_plan(km));
        lemma_layers_plan_len(km);
    }
    r
}

} // verus!
