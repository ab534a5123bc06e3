use nizctl::consts::OpCode;
use nizctl::protocol::{lock_request, unlock_request, KeyCounter, KeymapData, KeymapResponse, Request, Version};

fn frame_with(bytes: &[(usize, u8)]) -> Vec<u8> {
    let mut f = vec![0u8; 64];
    for &(i, b) in bytes {
        f[i] = b;
    }
    f
}

#[test]
fn request_pack_is_64_bytes_with_zero_reserved_byte() {
    let frame = Request::new(OpCode::VersionRead).pack();
    assert_eq!(frame.len(), 64);
    assert_eq!(frame[0], 0);
    assert_eq!(frame[1], 0xf9);
    assert_eq!(frame[2], 0x01);
    assert!(frame[3..].iter().all(|&b| b == 0));
}

#[test]
fn request_pack_places_payload_after_opcode() {
    let mut data = vec![0u8; 61];
    data[0] = 0xaa;
    data[60] = 0xbb;
    let frame = Request::new_with_data(OpCode::KeymapData, data).pack();
    assert_eq!(frame.len(), 64);
    assert_eq!(frame[1], 0xf9);
    assert_eq!(frame[2], 0x13);
    assert_eq!(frame[3], 0xaa);
    assert_eq!(frame[63], 0xbb);
}

#[test]
fn version_unpack_reads_payload_and_terminator_byte() {
    let mut f = frame_with(&[(0, 1)]);
    f[2] = b'v';
    f[3] = b'1';
    let v = Version::unpack(&f);
    assert_eq!(v.id, 1);
    assert_eq!(v.version.len(), 62);
    assert_eq!(v.version[0], b'v');
    assert_eq!(v.version[1], b'1');
}

#[test]
fn version_text_trims_trailing_nuls() {
    let mut f = frame_with(&[]);
    for (i, b) in b"v1.2.3".iter().enumerate() {
        f[2 + i] = *b;
    }
    let v = Version::unpack(&f);
    assert_eq!(v.text(), "v1.2.3");
}

#[test]
fn version_text_keeps_interior_nuls_and_replaces_non_ascii() {
    let mut f = frame_with(&[]);
    f[2] = b'a';
    f[3] = 0;
    f[4] = 0xff;
    f[5] = b'b';
    let v = Version::unpack(&f);
    assert_eq!(v.text(), "a\u{0}\u{fffd}b");
}

#[test]
fn counter_unpack_reads_little_endian_values() {
    let mut f = frame_with(&[(2, 8)]);
    f[3] = 0x07;
    f[7] = 0x01;
    f[8] = 0x02;
    let c = KeyCounter::unpack(&f);
    assert_eq!(c.size, 8);
    assert_eq!(c.count.len(), 15);
    assert_eq!(c.count[0], 7);
    assert_eq!(c.count[1], 0x0201);
    assert_eq!(c.count[2], 0);
}

#[test]
fn counter_valid_values_takes_size_over_four_entries() {
    let mut f = frame_with(&[(2, 8)]);
    f[3] = 7;
    let c = KeyCounter::unpack(&f);
    assert_eq!(c.valid_values(), vec![7, 0]);
}

#[test]
fn counter_valid_values_caps_at_fifteen() {
    let f = frame_with(&[(2, 255)]);
    let c = KeyCounter::unpack(&f);
    assert_eq!(c.valid_values().len(), 15);
}

#[test]
fn keymap_response_unpack_reads_fixed_offsets() {
    let f = frame_with(&[(0, 0), (2, 1), (3, 30), (5, 1), (6, 15)]);
    let m = KeymapResponse::unpack(&f);
    assert_eq!(m.id, 0);
    assert_eq!(m.layer, 1);
    assert_eq!(m.key, 30);
    assert_eq!(m.active, 1);
    assert_eq!(m.keycode, 15);
}

#[test]
fn keymap_data_active_flag_is_zero_only_for_keycode_zero() {
    for code in 0..=255u8 {
        let rec = KeymapData::new(1, 1, code);
        assert_eq!(rec.active == 0, code == 0);
    }
}

#[test]
fn keymap_data_pack_layout() {
    let payload = KeymapData::new(2, 30, 15).pack();
    assert_eq!(payload.len(), 61);
    assert_eq!(payload[0], 2);
    assert_eq!(payload[1], 30);
    assert_eq!(payload[2], 0);
    assert_eq!(payload[3], 1);
    assert_eq!(payload[4], 15);
    assert!(payload[5..].iter().all(|&b| b == 0));
}

#[test]
fn unlock_shares_the_lock_opcode_and_differs_in_first_payload_byte() {
    let lock = lock_request().pack();
    let unlock = unlock_request().pack();
    assert_eq!(lock[1], unlock[1]);
    assert_eq!(lock[2], unlock[2]);
    assert_eq!(lock[3], 0);
    assert_eq!(unlock[3], 1);
    assert_eq!(&lock[4..], &unlock[4..]);
}
