use payload_basic::tx_lookup::{
    compare_hashes, format_lookup_file, format_lookup_line, parse_hash, parse_lookup_line, parse_u64, CursorHead,
    TxLookupError, TxLookupIter,
};

fn hash(last: u8) -> [u8; 32] {
    let mut h = [0u8; 32];
    h[0] = 0xab;
    h[31] = last;
    h
}

#[test]
fn lookup_line_format() {
    let mut buf = Vec::new();
    format_lookup_line(&hash(0x0f), 1234, &mut buf);
    let expected = format!("0xab{}0f 1234", "0".repeat(60));
    assert_eq!(String::from_utf8(buf).unwrap(), expected);
    let mut buf = Vec::new();
    format_lookup_line(&[0; 32], 0, &mut buf);
    assert_eq!(String::from_utf8(buf).unwrap(), format!("0x{} 0", "0".repeat(64)));
}

#[test]
fn lookup_line_round_trip() {
    for (h, n) in [(hash(1), 0u64), (hash(0xff), 42), ([0xff; 32], u64::MAX)] {
        let mut buf = Vec::new();
        format_lookup_line(&h, n, &mut buf);
        assert!(matches!(parse_lookup_line(&buf), Ok((ph, pn)) if ph == h && pn == n));
    }
}

#[test]
fn lookup_file_joins_lines() {
    let out = format_lookup_file(&vec![(hash(1), 1), (hash(2), 2)]);
    let text = String::from_utf8(out).unwrap();
    let lines: Vec<&str> = text.split('\n').collect();
    assert_eq!(lines.len(), 2);
    assert!(lines[0].ends_with("01 1"));
    assert!(lines[1].ends_with("02 2"));
    assert!(format_lookup_file(&vec![]).is_empty());
}

#[test]
fn lookup_line_errors() {
    assert!(matches!(parse_lookup_line(b"abc"), Err(TxLookupError::LineSplit)));
    assert!(matches!(parse_lookup_line(b"a b c"), Err(TxLookupError::LineSplit)));
    assert!(matches!(parse_lookup_line(b"0x12 5"), Err(TxLookupError::ParseHash)));
    let good_hash = format!("0x{}", "1".repeat(64));
    assert!(matches!(parse_lookup_line(format!("{good_hash} x1").as_bytes()), Err(TxLookupError::ParseInt)));
    assert!(matches!(parse_lookup_line(format!("{good_hash} ").as_bytes()), Err(TxLookupError::ParseInt)));
    assert!(matches!(parse_lookup_line(format!("{good_hash} 7").as_bytes()), Ok((h, 7)) if h == [0x11; 32]));
}

#[test]
fn hash_text_forms() {
    let plain = "Ab".repeat(32);
    assert_eq!(parse_hash(plain.as_bytes()), Some([0xab; 32]));
    assert_eq!(parse_hash(format!("0X{plain}").as_bytes()), Some([0xab; 32]));
    assert_eq!(parse_hash(format!("0x{}", "g".repeat(64)).as_bytes()), None);
    assert_eq!(parse_hash(b"0x1"), None);
}

#[test]
fn decimal_text_forms() {
    assert_eq!(parse_u64(b"0"), Some(0));
    assert_eq!(parse_u64(b"+17"), Some(17));
    assert_eq!(parse_u64(b"18446744073709551615"), Some(u64::MAX));
    assert_eq!(parse_u64(b"18446744073709551616"), None);
    assert_eq!(parse_u64(b"+"), None);
    assert_eq!(parse_u64(b"-1"), None);
    assert_eq!(parse_u64(b""), None);
}

#[test]
fn hash_order() {
    assert!(compare_hashes(&hash(1), &hash(2)) < 0);
    assert!(compare_hashes(&hash(2), &hash(1)) > 0);
    assert_eq!(compare_hashes(&hash(2), &hash(2)), 0);
    assert!(compare_hashes(&[0; 32], &hash(0)) < 0);
}

#[test]
fn merge_yields_smallest_hash_first() {
    let mut it = TxLookupIter::new();
    assert!(it.add_cursor(CursorHead { hash: hash(3), number: 30, source: 0 }));
    assert!(it.add_cursor(CursorHead { hash: hash(1), number: 10, source: 1 }));
    assert!(!it.add_cursor(CursorHead { hash: hash(3), number: 99, source: 2 }));
    let first = it.pop_first().unwrap();
    assert_eq!(first.number, 10);
    let r = it.settle_advance(first, Ok(Some((hash(5), 50))));
    assert!(matches!(r, Ok((h, 10)) if h == hash(1)));
    let second = it.pop_first().unwrap();
    assert_eq!(second.number, 30);
    let r = it.settle_advance(second, Ok(None));
    assert!(matches!(r, Ok((_, 30))));
    assert_eq!(it.drained, vec![0]);
    let third = it.pop_first().unwrap();
    assert_eq!((third.number, third.source), (50, 1));
    assert!(matches!(it.settle_advance(third, Err(TxLookupError::LineSplit)), Err(TxLookupError::LineSplit)));
    assert!(it.pop_first().is_none());
}
