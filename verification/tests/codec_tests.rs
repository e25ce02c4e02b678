use needle_index::codec::encode_idx_entry;
use needle_index::codec::idx_entry;

#[test]
fn round_trip_simple() {
    let buf = encode_idx_entry(1, 100, 50);
    assert_eq!(idx_entry(&buf), (1, 100, 50));
}

#[test]
fn round_trip_extremes() {
    let cases: Vec<(u64, u32, u32)> = vec![
        (0, 0, 0),
        (u64::MAX, u32::MAX, u32::MAX),
        (1, 0, u32::MAX),
        (0x0123_4567_89ab_cdef, 0xdead_beef, 0x0bad_f00d),
        (42, 1, 0),
    ];
    for (key, offset, size) in cases {
        let buf = encode_idx_entry(key, offset, size);
        assert_eq!(buf.len(), 16);
        assert_eq!(idx_entry(&buf), (key, offset, size));
    }
}

#[test]
fn encode_exact_bytes() {
    let buf = encode_idx_entry(1, 100, 50);
    assert_eq!(buf, vec![0, 0, 0, 0, 0, 0, 0, 1, 0, 0, 0, 100, 0, 0, 0, 50]);
}

#[test]
fn encode_is_big_endian() {
    let buf = encode_idx_entry(0x0102_0304_0506_0708, 0x090a_0b0c, 0x0d0e_0f10);
    assert_eq!(
        buf,
        vec![1, 2, 3, 4, 5, 6, 7, 8, 9, 0x0a, 0x0b, 0x0c, 0x0d, 0x0e, 0x0f, 0x10]
    );
}

#[test]
fn decode_reads_first_sixteen_bytes() {
    let mut buf = encode_idx_entry(7, 70, 700);
    buf.extend_from_slice(&[0xff; 5]);
    assert_eq!(idx_entry(&buf), (7, 70, 700));
}
