use cp437::to_char;
use cp437::FromCp437;

#[test]
fn to_char_valid() {
    for i in 0x00_u32..0x100 {
        to_char(i as u8);
    }
}

#[test]
fn ascii() {
    for i in 0x00..0x80 {
        assert_eq!(to_char(i), i as char);
    }
}

#[test]
fn example_slice() {
    let data = b"Cura\x87ao";
    assert!(std::str::from_utf8(data).is_err());
    assert_eq!(data.from_cp437().as_str(), "Cura\u{e7}ao");
}

#[test]
fn example_vec() {
    let data = vec![0xCC, 0xCD, 0xCD, 0xB9];
    assert!(String::from_utf8(data.clone()).is_err());
    assert_eq!(&data.from_cp437(), "\u{2560}\u{2550}\u{2550}\u{2563}");
}

#[test]
fn known_substitutions() {
    assert_eq!(to_char(0x87), '\u{00e7}');
    assert_eq!(to_char(0xB9), '\u{2563}');
    assert_eq!(to_char(0xCC), '\u{2560}');
    assert_eq!(to_char(0xCD), '\u{2550}');
}

#[test]
fn high_half_boundaries() {
    assert_eq!(to_char(0x7F), '\u{007f}');
    assert_eq!(to_char(0x80), '\u{00c7}');
    assert_eq!(to_char(0xFF), '\u{00a0}');
}

#[test]
fn empty_slice_is_borrowed() {
    let data: &[u8] = &[];
    let text = data.from_cp437();
    assert!(text.is_borrowed());
    assert_eq!(text.as_str(), "");
}

#[test]
fn empty_vec() {
    let data: Vec<u8> = Vec::new();
    assert_eq!(data.from_cp437(), "");
}

#[test]
fn ascii_slice_is_zero_copy() {
    let data: &[u8] = b"hello, world";
    let text = data.from_cp437();
    assert!(text.is_borrowed());
    assert_eq!(text.as_str(), "hello, world");
    assert_eq!(text.as_str().as_bytes(), data);
}

#[test]
fn non_ascii_slice_is_owned() {
    let data: &[u8] = b"Cura\x87ao";
    let text = data.from_cp437();
    assert!(!text.is_borrowed());
}

#[test]
fn ascii_vec_reuses_bytes() {
    let data = b"plain ascii".to_vec();
    assert_eq!(data.from_cp437(), "plain ascii");
}

#[test]
fn reencode_round_trip() {
    let data = vec![b'A', 0xE1, 0xF8, b'z', 0xB0];
    let text = data.from_cp437();
    let bytes = text.clone().into_bytes();
    assert_eq!(String::from_utf8(bytes).unwrap(), text);
}

#[test]
fn every_byte_decodes_alone() {
    for i in 0x00_u32..0x100 {
        let data = vec![i as u8];
        let text = data.from_cp437();
        assert_eq!(text.chars().count(), 1);
        assert_eq!(text.chars().next().unwrap(), to_char(i as u8));
    }
}
