use nizctl::consts::OpCode;
use nizctl::is_terminator;
use nizctl::protocol::{KeymapData, Request};
use nizctl::stream::{collect_stream, counters_from_records, keymap_from_records};
use nizctl::writer::write_frames;

fn data_record(fill: u8) -> Vec<u8> {
    let mut f = vec![0u8; 64];
    for i in 1..64 {
        f[i] = fill;
    }
    f
}

fn terminator_record() -> Vec<u8> {
    let mut f = vec![0u8; 64];
    f[0] = 1;
    f
}

#[test]
fn stream_returns_all_payloads_in_order_and_counts_receives() {
    let frames = vec![data_record(1), data_record(2), data_record(3), terminator_record()];
    let (payloads, receives) = collect_stream(&frames).unwrap();
    assert_eq!(receives, 4);
    assert_eq!(payloads.len(), 3);
    for (k, p) in payloads.iter().enumerate() {
        assert_eq!(p.len(), 63);
        assert!(p.iter().all(|&b| b == (k + 1) as u8));
    }
}

#[test]
fn stream_with_only_a_terminator_yields_nothing_after_one_receive() {
    let frames = vec![terminator_record()];
    let (payloads, receives) = collect_stream(&frames).unwrap();
    assert_eq!(receives, 1);
    assert!(payloads.is_empty());
}

#[test]
fn stream_without_terminator_never_returns() {
    let frames = vec![data_record(1), data_record(2)];
    assert!(collect_stream(&frames).is_none());
}

#[test]
fn stream_stops_at_first_terminator() {
    let frames = vec![data_record(1), terminator_record(), data_record(9)];
    let (payloads, receives) = collect_stream(&frames).unwrap();
    assert_eq!(receives, 2);
    assert_eq!(payloads.len(), 1);
}

#[test]
fn terminator_is_any_nonzero_reserved_byte() {
    assert!(!is_terminator(&data_record(7)));
    assert!(is_terminator(&terminator_record()));
    let mut f = vec![0u8; 64];
    f[0] = 0xee;
    assert!(is_terminator(&f));
}

#[test]
fn counter_records_contribute_only_their_valid_prefix() {
    let mut first = vec![0u8; 64];
    first[2] = 8;
    first[3] = 7;
    let mut second = vec![0u8; 64];
    second[2] = 4;
    second[3] = 9;
    let counters = counters_from_records(&vec![first, second]);
    assert_eq!(counters, vec![7, 0, 9]);
}

#[test]
fn keymap_records_grow_layers_and_keys_as_addressed() {
    let rec = |layer: u8, key: u8, code: u8| {
        let mut f = vec![0u8; 64];
        f[2] = layer;
        f[3] = key;
        f[6] = code;
        f
    };
    let frames = vec![rec(1, 1, 4), rec(1, 2, 5), rec(2, 1, 6)];
    let keymap = keymap_from_records(&frames);
    assert_eq!(keymap, vec![vec![4, 5], vec![6]]);
}

#[test]
fn duplicate_keymap_records_overwrite() {
    let rec = |layer: u8, key: u8, code: u8| {
        let mut f = vec![0u8; 64];
        f[2] = layer;
        f[3] = key;
        f[6] = code;
        f
    };
    let frames = vec![rec(1, 1, 4), rec(1, 1, 9)];
    assert_eq!(keymap_from_records(&frames), vec![vec![9]]);
}

#[test]
fn keymap_records_addressing_layer_or_key_zero_change_nothing() {
    let rec = |layer: u8, key: u8, code: u8| {
        let mut f = vec![0u8; 64];
        f[2] = layer;
        f[3] = key;
        f[6] = code;
        f
    };
    let frames = vec![rec(0, 1, 4), rec(1, 0, 5)];
    assert_eq!(keymap_from_records(&frames), Vec::<Vec<u8>>::new());
}

#[test]
fn write_frames_emits_start_every_key_and_end() {
    let keymap = vec![vec![4, 5], vec![6, 7, 8]];
    let frames = write_frames(&keymap);
    assert_eq!(frames.len(), 2 + 5);
    let start = Request::new(OpCode::KeymapDataStart).pack();
    assert_eq!(frames[0], start);
    for f in &frames {
        assert_eq!(f.len(), 64);
    }
}

#[test]
fn write_frames_data_frames_are_one_based_and_carry_the_active_flag() {
    let keymap = vec![vec![0, 5]];
    let frames = write_frames(&keymap);
    assert_eq!(frames.len(), 4);
    let expect = |layer: u8, key: u8, code: u8| {
        Request::new_with_data(OpCode::KeymapData, KeymapData::new(layer, key, code).pack()).pack()
    };
    assert_eq!(frames[1], expect(1, 1, 0));
    assert_eq!(frames[2], expect(1, 2, 5));
    assert_eq!(frames[1][6], 0);
    assert_eq!(frames[2][6], 1);
}

#[test]
fn write_frames_end_marker_payload_is_filled_with_its_own_opcode_byte() {
    let frames = write_frames(&Vec::new());
    assert_eq!(frames.len(), 2);
    let end = &frames[1];
    assert_eq!(end[0], 0);
    assert_eq!(end[1], 0xf9);
    assert_eq!(end[2], 0x15);
    assert!(end[3..].iter().all(|&b| b == 0x15));
}
