use keithley_reader::reading::split_reading;

fn split(bytes: &[u8]) -> Option<Vec<String>> {
    split_reading(bytes)
}

#[test]
fn reading_splits_on_commas_and_drops_padding() {
    let mut buf = b"+1.0E-13,+2.0E-13,+3.0E-13".to_vec();
    buf.resize(64, 0);
    assert_eq!(split(&buf).unwrap(), vec!["+1.0E-13", "+2.0E-13", "+3.0E-13"]);
}

#[test]
fn reading_of_padding_only_is_one_empty_value() {
    assert_eq!(split(&[0, 0, 0]).unwrap(), vec![""]);
    assert_eq!(split(&[]).unwrap(), vec![""]);
}

#[test]
fn reading_keeps_empty_fields_and_inner_nuls() {
    assert_eq!(split(b"a,,b,").unwrap(), vec!["a", "", "b", ""]);
    assert_eq!(split(b"x\0y\0\0").unwrap(), vec!["x\0y"]);
}

#[test]
fn reading_decodes_utf8_values() {
    assert_eq!(split("5\u{b5}A,ok".as_bytes()).unwrap(), vec!["5\u{b5}A", "ok"]);
}

#[test]
fn reading_with_invalid_utf8_is_refused() {
    assert!(split(&[b'1', b',', 0xff, b'2']).is_none());
    assert!(split(&[0xc3, b',', b'2']).is_none());
    assert!(split(&[b'1', 0xff]).is_none());
}
