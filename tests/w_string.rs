use winsafe::encoding::Encoding;
use winsafe::privs::parse_multi_z_str;
use winsafe::w_string::{ParseError, SSO_LEN};
use winsafe::WString;

fn units(s: &str) -> Vec<u16> {
    s.encode_utf16().collect()
}

#[test]
fn round_trip_keeps_text() {
    for s in ["a", "hello world", "ação", "日本語", "𝄞 clef", "a string longer than the inline buffer"] {
        let w = WString::from_str(s);
        assert_eq!(w.to_string(), s);
        assert_eq!(w.to_string_checked().unwrap(), s);
    }
}

#[test]
fn round_trip_on_heap() {
    let w = WString::from_str_force_heap("abc");
    assert_eq!(w.buf_len(), 4);
    assert_eq!(w.to_string(), "abc");
}

#[test]
fn empty_inputs_allocate_nothing() {
    for w in [WString::from_opt_str(None), WString::from_opt_str(Some("")), WString::from_str(""), WString::new()] {
        assert_eq!(w.buf_len(), 0);
        assert!(!w.is_allocated());
        assert!(w.as_ptr().is_none());
        assert_eq!(w.to_string(), "");
        assert_eq!(w.as_slice().len(), 0);
        assert_eq!(w.str_len(), 0);
    }
}

#[test]
fn inline_threshold() {
    let s19 = "a".repeat(19);
    let w = WString::from_str(&s19);
    assert_eq!(SSO_LEN, 20);
    assert_eq!(w.buf_len(), 20);
    assert_eq!(w.to_string(), s19);

    let s20 = "b".repeat(20);
    let w = WString::from_str(&s20);
    assert_eq!(w.buf_len(), 21);
    assert_eq!(w.as_slice()[20], 0);
    assert_eq!(w.to_string(), s20);

    let short = WString::from_str("ab");
    assert_eq!(short.buf_len(), 20);
    assert_eq!(short.as_slice()[..3], [0x61, 0x62, 0]);
}

#[test]
fn non_bmp_counts_two_units() {
    let w = WString::from_str("𝄞");
    assert_eq!(w.str_len(), 2);
    assert_eq!(&w.as_slice()[..3], &[0xD834, 0xDD1E, 0]);
}

#[test]
fn copy_to_slice_truncates() {
    let w = WString::from_str("hello");
    let mut empty: [u16; 0] = [];
    w.copy_to_slice(&mut empty);

    let mut one = [7u16; 1];
    w.copy_to_slice(&mut one);
    assert_eq!(one, [0]);

    let mut three = [7u16; 3];
    w.copy_to_slice(&mut three);
    assert_eq!(three, [0x68, 0x65, 0]);

    let mut big = [7u16; 8];
    w.copy_to_slice(&mut big);
    assert_eq!(big, [0x68, 0x65, 0x6c, 0x6c, 0x6f, 0, 0, 0]);
}

#[test]
fn copy_to_slice_from_empty_zeroes() {
    let w = WString::new();
    let mut dest = [9u16; 4];
    w.copy_to_slice(&mut dest);
    assert_eq!(dest, [0, 0, 0, 0]);
}

#[test]
fn multi_string_block() {
    let w = WString::from_str_vec(&["a", "bb"]);
    assert_eq!(&w.as_slice()[..6], &[0x61, 0, 0x62, 0x62, 0, 0]);
    assert_eq!(w.to_string(), "a");
    assert_eq!(parse_multi_z_str(w.as_slice()), vec!["a".to_owned(), "bb".to_owned()]);
}

#[test]
fn multi_string_block_on_heap() {
    let items = ["first string", "second string", "3"];
    let w = WString::from_str_vec(&items);
    assert_eq!(w.buf_len(), 12 + 1 + 13 + 1 + 1 + 1 + 1);
    assert_eq!(parse_multi_z_str(w.as_slice()), items.iter().map(|s| s.to_string()).collect::<Vec<_>>());
}

#[test]
fn multi_string_empty_list() {
    let w = WString::from_str_vec(&[]);
    assert!(!w.is_allocated());
    assert!(parse_multi_z_str(w.as_slice()).is_empty());
}

#[test]
fn multi_string_reader_stops_at_end_or_empty() {
    assert_eq!(parse_multi_z_str(&[0x61, 0, 0x62]), vec!["a".to_owned(), "b".to_owned()]);
    assert_eq!(parse_multi_z_str(&[0, 0x61, 0]), Vec::<String>::new());
    assert_eq!(parse_multi_z_str(&[0x61, 0, 0, 0x62, 0]), vec!["a".to_owned()]);
}

#[test]
fn fill_with_zero_twice() {
    let mut w = WString::from_str("abc");
    w.fill_with_zero();
    let once: Vec<u16> = w.as_slice().to_vec();
    assert_eq!(once, vec![0u16; 20]);
    w.fill_with_zero();
    assert_eq!(w.as_slice(), &once[..]);
    assert!(w.is_allocated());
    assert_eq!(w.to_string(), "");
}

#[test]
fn fill_with_zero_on_empty() {
    let mut w = WString::new();
    w.fill_with_zero();
    assert_eq!(w.buf_len(), 0);
    assert!(!w.is_allocated());
}

#[test]
fn parse_utf16le_bom() {
    let w = WString::parse(&[0xFF, 0xFE, 0x41, 0x00]).unwrap();
    assert_eq!(w.to_string(), "A");
}

#[test]
fn parse_utf16be_bom_and_zero_pair() {
    let w = WString::parse(&[0xFE, 0xFF, 0x00, 0x41, 0x00, 0x42, 0x00, 0x00, 0x00, 0x43, 0x99]).unwrap();
    assert_eq!(w.to_string(), "AB");
}

#[test]
fn parse_utf16_odd_byte_dropped() {
    let w = WString::parse(&[0xFF, 0xFE, 0x41, 0x00, 0x42]).unwrap();
    assert_eq!(w.to_string(), "A");
}

#[test]
fn parse_utf32_is_unsupported() {
    assert_eq!(
        WString::parse(&[0xFF, 0xFE, 0x00, 0x00, 0x41, 0, 0, 0]).err(),
        Some(ParseError::UnsupportedEncoding(Encoding::Utf32le))
    );
    assert_eq!(
        WString::parse(&[0x00, 0x00, 0xFE, 0xFF, 0, 0, 0, 0x41]).err(),
        Some(ParseError::UnsupportedEncoding(Encoding::Utf32be))
    );
}

#[test]
fn parse_scsu_and_bocu_are_unsupported() {
    assert_eq!(WString::parse(&[0x0E, 0xFE, 0xFF, 0x41]).err(), Some(ParseError::UnsupportedEncoding(Encoding::Scsu)));
    assert_eq!(WString::parse(&[0xFB, 0xEE, 0x28, 0x41]).err(), Some(ParseError::UnsupportedEncoding(Encoding::Bocu1)));
}

#[test]
fn parse_empty_data() {
    let w = WString::parse(&[]).unwrap();
    assert!(!w.is_allocated());
}

#[test]
fn parse_ansi_stops_at_zero() {
    let w = WString::parse(b"abc\0def").unwrap();
    assert_eq!(w.to_string(), "abc");
    assert_eq!(w.buf_len(), 20);
}

#[test]
fn parse_utf8_with_and_without_bom() {
    let w = WString::parse("ação".as_bytes()).unwrap();
    assert_eq!(w.to_string(), "ação");
    let mut bytes = vec![0xEF, 0xBB, 0xBF];
    bytes.extend_from_slice("日本".as_bytes());
    let w = WString::parse(&bytes).unwrap();
    assert_eq!(w.to_string(), "日本");
}

#[test]
fn parse_windows_1252() {
    let w = WString::parse(&[0x80, 0x20, 0xE9, 0x9F]).unwrap();
    assert_eq!(w.to_string(), "€ éŸ");
}

#[test]
fn guess_encodings() {
    assert_eq!(Encoding::guess(&[0xEF, 0xBB, 0xBF, 0x41]), (Encoding::Utf8, 3));
    assert_eq!(Encoding::guess(&[0xFE, 0xFF]), (Encoding::Utf16be, 2));
    assert_eq!(Encoding::guess(&[0xFF, 0xFE, 0x41]), (Encoding::Utf16le, 2));
    assert_eq!(Encoding::guess(&[0xFF, 0xFE, 0x00, 0x00]), (Encoding::Utf32le, 4));
    assert_eq!(Encoding::guess(b"plain"), (Encoding::Ansi, 0));
    assert_eq!(Encoding::guess("ü".as_bytes()), (Encoding::Utf8, 0));
    assert_eq!(Encoding::guess(&[0x41, 0xFC]), (Encoding::Win1252, 0));
    assert!(Encoding::Utf8.is_supported());
    assert!(!Encoding::Utf32be.is_supported());
}

#[test]
fn ordinal_comparison() {
    let upper = WString::from_str("ABC");
    let lower = WString::from_str("abc");
    assert!(upper != lower);
    assert!(upper < lower);
    assert_eq!(upper.partial_cmp(&lower), Some(std::cmp::Ordering::Less));
    assert_eq!(lower.partial_cmp(&upper), Some(std::cmp::Ordering::Greater));
}

#[test]
fn comparison_ignores_storage_and_padding() {
    assert!(WString::from_str("abc") == WString::from_str_force_heap("abc"));
    assert!(WString::new() == WString::from_str(""));
    assert!(WString::from_str("ab") < WString::from_str("abc"));
    assert!(WString::from_wchars_slice(&[0x61, 0, 0x62]) == WString::from_str("a"));
}

#[test]
fn from_wchars_slice_stops_at_zero() {
    let w = WString::from_wchars_slice(&[0x61, 0x62, 0, 0x63]);
    assert_eq!(w.to_string(), "ab");
    assert_eq!(w.str_len(), 2);
    let w = WString::from_wchars_slice(&units("no terminator"));
    assert_eq!(w.to_string(), "no terminator");
    let w = WString::from_wchars_slice(&[]);
    assert!(!w.is_allocated());
    let w = WString::from_wchars_slice(&[0, 0x61]);
    assert!(w.is_allocated());
    assert_eq!(w.to_string(), "");
}

#[test]
fn from_wchars_count_takes_prefix() {
    let src = units("abcdef");
    let w = WString::from_wchars_count(Some(&src), 3);
    assert_eq!(w.to_string(), "abc");
    assert!(!WString::from_wchars_count(Some(&src), 0).is_allocated());
    assert!(!WString::from_wchars_count(None, 0).is_allocated());
    assert!(!WString::from_wchars_count(None, 5).is_allocated());
}

#[test]
fn new_alloc_buf_sizes() {
    assert!(!WString::new_alloc_buf(0).is_allocated());
    let w = WString::new_alloc_buf(5);
    assert_eq!(w.buf_len(), 20);
    assert!(w.as_slice().iter().all(|u| *u == 0));
    let w = WString::new_alloc_buf(100);
    assert_eq!(w.buf_len(), 100);
    assert!(w.as_ptr().is_some());
}

#[test]
fn writing_through_mut_slice() {
    let mut w = WString::new_alloc_buf(30);
    let s = w.as_mut_slice();
    s[0] = 0x48;
    s[1] = 0x69;
    assert_eq!(w.to_string(), "Hi");
    assert_eq!(w.str_len(), 2);
    assert_eq!(w.buf_len(), 30);
}

#[test]
fn checked_conversion_reports_lone_surrogate() {
    let w = WString::from_wchars_slice(&[0x61, 0xD800, 0x62]);
    assert!(w.to_string_checked().is_err());
    assert_eq!(w.to_string(), "a\u{FFFD}b");
}

#[test]
fn clone_copies_units() {
    let w = WString::from_str("clone me");
    let c = w.clone();
    assert!(c == w);
    assert_eq!(c.to_string(), "clone me");
    let heap = WString::from_str_force_heap("xy");
    let c = heap.clone();
    assert_eq!(c.buf_len(), 20);
    assert_eq!(c.to_string(), "xy");
    assert!(!WString::new().clone().is_allocated());
}
