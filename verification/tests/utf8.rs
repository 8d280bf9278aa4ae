use lib::utf8::utf8_error_of;

fn std_error(bytes: &[u8]) -> Option<(usize, Option<u8>)> {
    match std::str::from_utf8(bytes) {
        Ok(_) => None,
        Err(e) => Some((e.valid_up_to(), e.error_len().map(|l| l as u8))),
    }
}

#[test]
fn well_formed_text_has_no_error() {
    assert_eq!(utf8_error_of(b""), None);
    assert_eq!(utf8_error_of(b"123"), None);
    assert_eq!(utf8_error_of("h\u{e9}\u{20ac}\u{1f600}".as_bytes()), None);
}

#[test]
fn ill_formed_text_reports_where_and_how_long() {
    assert_eq!(utf8_error_of(&[0xff, 0xfe]), Some((0, Some(1))));
    assert_eq!(utf8_error_of(&[0x31, 0xe2, 0x82]), Some((1, None)));
    assert_eq!(utf8_error_of(&[0x31, 0xe2, 0x82, 0x41]), Some((1, Some(2))));
    assert_eq!(utf8_error_of(&[0xed, 0xa0, 0x80]), Some((0, Some(1))));
    assert_eq!(utf8_error_of(&[0xf0, 0x9f, 0x98, 0x41]), Some((0, Some(3))));
}

#[test]
fn agrees_with_std_on_all_short_inputs() {
    for a in 0..=255u8 {
        assert_eq!(utf8_error_of(&[a]), std_error(&[a]));
        for b in 0..=255u8 {
            assert_eq!(utf8_error_of(&[a, b]), std_error(&[a, b]), "{:x} {:x}", a, b);
        }
    }
}

#[test]
fn agrees_with_std_on_longer_inputs() {
    let bytes: [u8; 25] = [
        0x00, 0x41, 0x7f, 0x80, 0x8f, 0x90, 0x9f, 0xa0, 0xbf, 0xc0, 0xc1, 0xc2, 0xdf, 0xe0, 0xe1,
        0xec, 0xed, 0xee, 0xef, 0xf0, 0xf1, 0xf3, 0xf4, 0xf5, 0xff,
    ];
    for &a in &bytes {
        for &b in &bytes {
            for &c in &bytes {
                let s3 = [a, b, c];
                assert_eq!(utf8_error_of(&s3), std_error(&s3), "{:x?}", s3);
                for &d in &bytes {
                    let s4 = [a, b, c, d];
                    assert_eq!(utf8_error_of(&s4), std_error(&s4), "{:x?}", s4);
                    let s5 = [0x31, a, b, c, d];
                    assert_eq!(utf8_error_of(&s5), std_error(&s5), "{:x?}", s5);
                }
            }
        }
    }
}
