//! The streaming record reader: the "read many records" commands answer
//! with a run of data records closed by one terminator record.
//!
//! After a request frame is sent, the device emits frames whose reserved
//! byte is 0 while data is left and non-zero on the final, empty record.
//! [`stream_result`] is the mathematical model of that receive loop: what
//! it accumulates and how many receives it performs; [`collect_stream`]
//! runs it over an in-memory run of frames. The per-operation assemblers
//! ([`counters_from_records`], [`keymap_from_records`]) turn the collected
//! data records into typed results.

use vstd::prelude::*;

use crate::FRAME_LEN;
use crate::is_frame;
use crate::protocol::KeyCounter;
use crate::protocol::KeymapResponse;
use crate::protocol::counter_valid_len;
use crate::protocol::le32;

verus! {

/// The content of one data record: everything behind the terminator byte.
pub open spec fn stream_payload(frame: Seq<u8>) -> Seq<u8> {
    frame.subrange(1, FRAME_LEN as int)
}

/// What the receive loop yields on the run `frames`: the payloads of the
/// data records before the first terminator, and how many receives it
/// performs (the data records plus the terminator itself); `None` when no
/// terminator arrives, in which case the loop would never return.
pub open spec fn stream_result(frames: Seq<Seq<u8>>) -> Option<(Seq<Seq<u8>>, int)>
    decreases frames.len(),
{
    if frames.len() == 0 {
        None
    } else if frames[0][0] != 0 {
        Some((Seq::empty(), 1))
    } else {
        match stream_result(frames.drop_first()) {
            None => None,
            Some((payloads, receives)) => Some(
                (seq![stream_payload(frames[0])] + payloads, receives + 1),
            ),
        }
    }
}

/// Streaming termination: on `n` data records followed by one terminator
/// record, the reader yields exactly the `n` payloads, in arrival order,
/// and performs exactly `n + 1` receives.
pub proof fn lemma_stream_termination(frames: Seq<Seq<u8>>, n: int)
    requires
        0 <= n,
        frames.len() == n + 1,
        forall|k: int| 0 <= k < n ==> #[trigger] frames[k][0] == 0,
        frames[n][0] != 0,
    ensures
        stream_result(frames) == Some(
            (Seq::new(n as nat, |k: int| stream_payload(frames[k])), n + 1),
        ),
    decreases n,
{
    if n == 0 {
        assert(Seq::new(0, |k: int| stream_payload(frames[k])) =~= Seq::<Seq<u8>>::empty());
    } else {
        let rest = frames.drop_first();
        lemma_stream_termination(rest, n - 1);
        assert(seq![stream_payload(frames[0])] + Seq::new(
            (n - 1) as nat,
            |k: int| stream_payload(rest[k]),
        ) =~= Seq::new(n as nat, |k: int| stream_payload(frames[k])));
    }
}

/// A run with no terminator never ends.
pub proof fn lemma_stream_no_terminator(frames: Seq<Seq<u8>>)
    requires
        forall|k: int| 0 <= k < frames.len() ==> #[trigger] frames[k][0] == 0,
    ensures
        stream_result(frames) is None,
    decreases frames.len(),
{
    if frames.len() > 0 {
        lemma_stream_no_terminator(frames.drop_first());
    }
}

/// The rows of a vector of byte rows, as plain sequences.
pub open spec fn rows_of(frames: Seq<Vec<u8>>) -> Seq<Seq<u8>> {
    Seq::new(frames.len(), |i: int| frames[i]@)
}

/// Copy out the data content of one record.
fn payload_of(frame: &Vec<u8>) -> (r: Vec<u8>)
    requires
        is_frame(frame@),
    ensures
        r@ == stream_payload(frame@),
{
    let mut r: Vec<u8> = Vec::new();
    let mut i: usize = 1;
    while i < FRAME_LEN
        invariant
            is_frame(frame@),
            1 <= i <= FRAME_LEN,
            r@ =~= frame@.subrange(1, i as int),
        decreases FRAME_LEN - i,
    {
        r.push(frame[i]);
        i += 1;
    }
    proof {
        assert(r@ =~= stream_payload(frame@));
    }
    r
}

/// Run the receive loop over an in-memory run of frames: collect data
/// payloads until the first terminator. Returns the payloads and the
/// number of receives performed, or `None` when the run holds no
/// terminator (a live device would leave the caller waiting forever).
pub fn collect_stream(frames: &Vec<Vec<u8>>) -> (r: Option<(Vec<Vec<u8>>, usize)>)
    requires
        forall|i: int| 0 <= i < frames@.len() ==> is_frame(#[trigger] frames@[i]@),
    ensures
        match r {
            Some((payloads, receives)) => stream_result(rows_of(frames@)) == Some(
                (rows_of(payloads@), receives as int),
            ),
            None => stream_result(rows_of(frames@)) is None,
        },
{
    let ghost all = rows_of(frames@);
    let mut payloads: Vec<Vec<u8>> = Vec::new();
    let mut i: usize = 0;
    while i < frames.len()
        invariant
            forall|k: int| 0 <= k < frames@.len() ==> is_frame(#[trigger] frames@[k]@),
            all == rows_of(frames@),
            i <= frames@.len(),
            forall|k: int| 0 <= k < i ==> #[trigger] all[k][0] == 0,
            payloads@.len() == i,
            forall|k: int| 0 <= k < i ==> #[trigger] payloads@[k]@ == stream_payload(all[k]),
        decreases frames@.len() - i,
    {
        if frames[i][0] != 0 {
            proof {
                lemma_stream_termination(all.take(i + 1), i as int);
                assert(all.take(i + 1) =~= rows_of(frames@.take(i + 1)));
                lemma_stream_take_prefix(all, i + 1);
                assert(rows_of(payloads@) =~= Seq::new(
                    i as nat,
                    |k: int| stream_payload(all.take(i + 1)[k]),
                ));
            }
            return Some((payloads, i + 1));
        }
        payloads.push(payload_of(&frames[i]));
        i += 1;
    }
    proof {
        lemma_stream_no_terminator(all);
    }
    None
}

/// A terminator inside the run decides the result: records past it are
/// never received.
proof fn lemma_stream_take_prefix(frames: Seq<Seq<u8>>, t: int)
    requires
        0 < t <= frames.len(),
        frames[t - 1][0] != 0,
        forall|k: int| 0 <= k < t - 1 ==> #[trigger] frames[k][0] == 0,
    ensures
        stream_result(frames) == stream_result(frames.take(t)),
    decreases t,
{
    if t == 1 {
    } else {
        lemma_stream_take_prefix(frames.drop_first(), t - 1);
        assert(frames.drop_first().take(t - 1) =~= frames.take(t).drop_first());
    }
}

/// The counters contributed by the run `frames` of counter records: each
/// record's valid values, flattened in arrival order.
pub open spec fn counters_of(frames: Seq<Seq<u8>>) -> Seq<u32>
    decreases frames.len(),
{
    if frames.len() == 0 {
        Seq::empty()
    } else {
        counters_of(frames.drop_last()) + counter_values(frames.last())
    }
}

/// The valid counter values of one counter record: the first `size / 4`
/// little-endian 32-bit values of its data area, at most the 15 it holds.
pub open spec fn counter_values(frame: Seq<u8>) -> Seq<u32> {
    Seq::new(
        counter_valid_len(frame[2]) as nat,
        |j: int| le32(frame[3 + 4 * j], frame[4 + 4 * j], frame[5 + 4 * j], frame[6 + 4 * j]),
    )
}

/// Assemble a counter read: decode every data record as a counter record
/// and append its valid values, in arrival order.
pub fn counters_from_records(frames: &Vec<Vec<u8>>) -> (r: Vec<u32>)
    requires
        forall|i: int| 0 <= i < frames@.len() ==> is_frame(#[trigger] frames@[i]@),
    ensures
        r@ == counters_of(rows_of(frames@)),
{
    let ghost all = rows_of(frames@);
    let mut r: Vec<u32> = Vec::new();
    let mut i: usize = 0;
    while i < frames.len()
        invariant
            forall|k: int| 0 <= k < frames@.len() ==> is_frame(#[trigger] frames@[k]@),
            all == rows_of(frames@),
            i <= frames@.len(),
            r@ == counters_of(all.take(i as int)),
        decreases frames@.len() - i,
    {
        let record = KeyCounter::unpack(&frames[i]);
        let mut values = record.valid_values();
        proof {
            assert(values@ =~= counter_values(all[i as int]));
            assert(all.take(i + 1).drop_last() =~= all.take(i as int));
        }
        r.append(&mut values);
        i += 1;
    }
    proof {
        assert(all.take(all.len() as int) =~= all);
    }
    r
}

/// One keymap record applied to an in-memory keymap: the layer list grows
/// to hold the 1-based layer index, that layer's row grows to hold the
/// 1-based key index (new slots default to keycode 0), and the addressed
/// slot takes the keycode. A record addressing layer 0 or key 0 changes
/// nothing. Duplicate records simply overwrite.
pub open spec fn apply_record(km: Seq<Seq<u8>>, layer: u8, key: u8, keycode: u8) -> Seq<Seq<u8>> {
    if layer == 0 || key == 0 {
        km
    } else {
        let li = layer as int - 1;
        let ki = key as int - 1;
        let grown = if km.len() >= layer as int {
            km
        } else {
            km + Seq::new((layer as int - km.len()) as nat, |i: int| Seq::<u8>::empty())
        };
        let row = grown[li];
        let grown_row = if row.len() >= key as int {
            row
        } else {
            row + Seq::new((key as int - row.len()) as nat, |i: int| 0u8)
        };
        grown.update(li, grown_row.update(ki, keycode))
    }
}

/// Apply one keymap record to the accumulator.
pub fn apply_keymap_record(keymap: &mut Vec<Vec<u8>>, layer: u8, key: u8, keycode: u8)
    ensures
        rows_of(final(keymap)@) == apply_record(rows_of(old(keymap)@), layer, key, keycode),
{
    let ghost km0 = rows_of(old(keymap)@);
    if layer == 0 || key == 0 {
        proof {
            assert(rows_of(keymap@) =~= apply_record(km0, layer, key, keycode));
        }
        return ;
    }
    let li = (layer - 1) as usize;
    let ki = (key - 1) as usize;
    let ghost grown = if km0.len() >= layer as int {
        km0
    } else {
        km0 + Seq::new((layer as int - km0.len()) as nat, |i: int| Seq::<u8>::empty())
    };
    while keymap.len() < layer as usize
        invariant
            km0.len() <= keymap@.len(),
            keymap@.len() <= km0.len() || keymap@.len() <= layer as int,
            forall|k: int| 0 <= k < km0.len() ==> #[trigger] keymap@[k]@ == km0[k],
            forall|k: int|
                km0.len() <= k < keymap@.len() ==> #[trigger] keymap@[k]@ == Seq::<u8>::empty(),
        decreases layer as int - keymap@.len(),
    {
        keymap.push(Vec::new());
    }
    proof {
        assert(rows_of(keymap@) =~= grown);
    }
    let ghost row0 = grown[li as int];
    let mut row: Vec<u8> = Vec::new();
    let n = keymap[li].len();
    let mut j: usize = 0;
    while j < n
        invariant
            li < keymap@.len(),
            n == keymap@[li as int]@.len(),
            keymap@[li as int]@ == row0,
            j <= n,
            row@ =~= row0.take(j as int),
        decreases n - j,
    {
        row.push(keymap[li][j]);
        j += 1;
    }
    proof {
        assert(row@ =~= row0);
    }
    while row.len() < key as usize
        invariant
            row0.len() <= row@.len(),
            row@.len() <= row0.len() || row@.len() <= key as int,
            row@ =~= row0 + Seq::new((row@.len() - row0.len()) as nat, |i: int| 0u8),
        decreases key as int - row@.len(),
    {
        row.push(0);
    }
    let ghost grown_row = if row0.len() >= key as int {
        row0
    } else {
        row0 + Seq::new((key as int - row0.len()) as nat, |i: int| 0u8)
    };
    proof {
        assert(row@ =~= grown_row);
    }
    row[ki] = keycode;
    keymap[li] = row;
    proof {
        assert(rows_of(keymap@) =~= apply_record(km0, layer, key, keycode));
    }
}

/// The keymap assembled from the run `frames` of keymap records, applied
/// in arrival order to an empty keymap.
pub open spec fn keymap_of_records(frames: Seq<Seq<u8>>) -> Seq<Seq<u8>>
    decreases frames.len(),
{
    if frames.len() == 0 {
        Seq::empty()
    } else {
        apply_record(
            keymap_of_records(frames.drop_last()),
            frames.last()[2],
            frames.last()[3],
            frames.last()[6],
        )
    }
}

/// Assemble a keymap read: decode every data record as a keymap record
/// and apply it, in arrival order, to an initially empty keymap.
pub fn keymap_from_records(frames: &Vec<Vec<u8>>) -> (r: Vec<Vec<u8>>)
    requires
        forall|i: int| 0 <= i < frames@.len() ==> is_frame(#[trigger] frames@[i]@),
    ensures
        rows_of(r@) == keymap_of_records(rows_of(frames@)),
{
    let ghost all = rows_of(frames@);
    let mut r: Vec<Vec<u8>> = Vec::new();
    let mut i: usize = 0;
    proof {
        assert(rows_of(r@) =~= keymap_of_records(all.take(0)));
    }
    while i < frames.len()
        invariant
            forall|k: int| 0 <= k < frames@.len() ==> is_frame(#[trigger] frames@[k]@),
            all == rows_of(frames@),
            i <= frames@.len(),
            rows_of(r@) == keymap_of_records(all.take(i as int)),
        decreases frames@.len() - i,
    {
        let record = KeymapResponse::unpack(&frames[i]);
        apply_keymap_record(&mut r, record.layer, record.key, record.keycode);
        proof {
            assert(all.take(i + 1).drop_last() =~= all.take(i as int));
        }
        i += 1;
    }
    proof {
        assert(all.take(all.len() as int) =~= all);
    }
    r
}

} // verus!
