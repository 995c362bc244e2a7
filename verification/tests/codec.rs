use mt5_rs::codec::{encode_string, read_string_at_offset, Reader, Writer};

fn utf16_slot(s: &str, width: usize) -> Vec<u8> {
    let mut v = Vec::new();
    for c in s.encode_utf16() {
        v.extend_from_slice(&c.to_le_bytes());
    }
    v.resize(width, 0);
    v
}

#[test]
fn reader_reads_little_endian_values() {
    let mut data = Vec::new();
    data.extend_from_slice(&(-5i64).to_le_bytes());
    data.extend_from_slice(&0x1122_3344_5566_7788u64.to_le_bytes());
    data.extend_from_slice(&(-7i32).to_le_bytes());
    data.extend_from_slice(&0xdead_beefu32.to_le_bytes());
    data.push(2);
    data.push(0);
    let mut r = Reader::new(&data);
    assert_eq!(r.read_i64(), -5);
    assert_eq!(r.read_u64(), 0x1122_3344_5566_7788);
    assert_eq!(r.read_i32(), -7);
    assert_eq!(r.read_u32(), 0xdead_beef);
    assert!(r.read_bool1());
    assert!(!r.read_bool1());
    assert!(!r.has_error());
    assert_eq!(r.remaining(), 0);
}

#[test]
fn reader_error_is_sticky() {
    let data = [1u8, 0, 0, 0, 9, 9];
    let mut r = Reader::new(&data);
    assert_eq!(r.read_u32(), 1);
    assert_eq!(r.read_u32(), 0);
    assert!(r.has_error());
    // two bytes are still there, but after an error every read fails
    assert!(!r.read_bool1());
    assert_eq!(r.remaining(), 2);
    assert!(r.has_error());
}

#[test]
fn reader_fixed_string_stops_at_nul_and_skips_slot() {
    let mut data = utf16_slot("EURUSD", 64);
    data.extend_from_slice(&7u32.to_le_bytes());
    let mut r = Reader::new(&data);
    assert_eq!(r.read_fixed_string(64), "EURUSD");
    assert_eq!(r.read_u32(), 7);
    let mut short = Reader::new(&data[..10]);
    assert_eq!(short.read_fixed_string(64), "");
    assert!(short.has_error());
}

#[test]
fn reader_fixed_string_replaces_unpaired_surrogates() {
    let mut data = Vec::new();
    for u in [0x41u16, 0xD800, 0x42, 0xD83D, 0xDE00, 0] {
        data.extend_from_slice(&u.to_le_bytes());
    }
    let mut r = Reader::new(&data);
    assert_eq!(r.read_fixed_string(12), "A\u{FFFD}B\u{1F600}");
}

#[test]
fn writer_writes_little_endian_values() {
    let mut w = Writer::new();
    w.write_u32(0x0102_0304);
    w.write_u64(0x0a0b_0c0d_0e0f_1011);
    w.write_i64(-2);
    let bytes = w.into_bytes();
    assert_eq!(
        bytes,
        vec![4, 3, 2, 1, 0x11, 0x10, 0x0f, 0x0e, 0x0d, 0x0c, 0x0b, 0x0a, 0xfe, 0xff, 0xff, 0xff, 0xff, 0xff, 0xff, 0xff]
    );
}

#[test]
fn writer_fixed_string_truncates_and_pads() {
    let mut w = Writer::new();
    w.write_fixed_string("ABCDE", 8);
    // room for 3 units and the terminating NUL
    assert_eq!(w.into_bytes(), vec![0x41, 0, 0x42, 0, 0x43, 0, 0, 0]);
    let mut w = Writer::new();
    w.write_fixed_string("Hi", 8);
    assert_eq!(w.into_bytes(), vec![0x48, 0, 0x69, 0, 0, 0, 0, 0]);
}

#[test]
fn writer_and_reader_mirror_each_other() {
    let mut w = Writer::new();
    w.write_u32(77);
    w.write_i64(-123456789);
    w.write_fixed_string("rust order", 64);
    w.write_u64(0.1f64.to_bits());
    let bytes = w.into_bytes();
    let mut r = Reader::new(&bytes);
    assert_eq!(r.read_u32(), 77);
    assert_eq!(r.read_i64(), -123456789);
    assert_eq!(r.read_fixed_string(64), "rust order");
    assert_eq!(f64::from_bits(r.read_u64()), 0.1);
    assert!(!r.has_error());
}

#[test]
fn encode_string_is_count_then_utf16le() {
    assert_eq!(encode_string("Go"), vec![2, 0, 0, 0, 0x47, 0, 0x6f, 0]);
    assert_eq!(encode_string(""), vec![0, 0, 0, 0]);
    // a character outside the basic plane takes two units
    assert_eq!(encode_string("\u{1F600}"), vec![2, 0, 0, 0, 0x3d, 0xd8, 0x00, 0xde]);
    assert_eq!(encode_string("é"), vec![1, 0, 0, 0, 0xe9, 0]);
}

#[test]
fn read_string_at_offset_runs_to_nul_or_end() {
    let mut data = vec![0xffu8, 0xff];
    for u in "abc".encode_utf16() {
        data.extend_from_slice(&u.to_le_bytes());
    }
    data.extend_from_slice(&[0, 0, 0x41, 0]);
    assert_eq!(read_string_at_offset(&data, 2), "abc");
    assert_eq!(read_string_at_offset(&data, 10), "A");
    assert_eq!(read_string_at_offset(&data, 14), "");
    assert_eq!(read_string_at_offset(&data, 100), "");
    // an odd trailing byte is not a unit
    let odd = [0x41u8, 0, 0x42];
    assert_eq!(read_string_at_offset(&odd, 0), "A");
}
