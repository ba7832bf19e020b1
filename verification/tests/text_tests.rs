use libswe::metadata::build_file_data;
use libswe::text::decode_c_string;

#[test]
fn decoding_stops_at_the_terminator() {
    let buf = b"SwissEph 2.10\0leftover bytes from an earlier fill";
    assert_eq!(decode_c_string(buf).as_deref(), Some("SwissEph 2.10"));
}

#[test]
fn decoding_without_terminator_takes_the_whole_buffer() {
    assert_eq!(decode_c_string(b"abc").as_deref(), Some("abc"));
}

#[test]
fn decoding_an_all_zero_buffer_is_empty() {
    assert_eq!(decode_c_string(&[0u8; 16]).as_deref(), Some(""));
    assert_eq!(decode_c_string(&[]).as_deref(), Some(""));
}

#[test]
fn illegal_text_is_reported_not_trusted() {
    assert!(decode_c_string(&[0xC3, 0x28, 0]).is_none());
    assert!(decode_c_string(&[0xFF]).is_none());
}

#[test]
fn multibyte_text_decodes() {
    let buf = "séparé\0".as_bytes();
    assert_eq!(decode_c_string(buf).as_deref(), Some("séparé"));
}

#[test]
fn file_data_carries_its_fields() {
    let start = (625000.5_f64).to_bits();
    let end = (2818000.5_f64).to_bits();
    let fd = build_file_data(b"/ephe/sepl_18.se1\0", start, end, 431)
        .expect("a legal path must decode");
    assert_eq!(fd.filepath, "/ephe/sepl_18.se1");
    assert_eq!(f64::from_bits(fd.start_date), 625000.5);
    assert_eq!(f64::from_bits(fd.end_date), 2818000.5);
    assert_eq!(fd.ephemeris_num, 431);
}

#[test]
fn file_data_with_illegal_path_is_reported() {
    assert!(build_file_data(&[0x80, 0], 0, 0, 0).is_none());
}
