use contract_compare::text::{decode, same_text};

#[test]
fn same_text_compares_characters() {
    assert!(same_text("", ""));
    assert!(same_text("--local", "--local"));
    assert!(!same_text("--local", "--Local"));
    assert!(!same_text("--local", "--loca"));
    assert!(!same_text("é", "e"));
}

#[test]
fn decode_reads_utf8() {
    assert_eq!(decode(b""), Some(""));
    assert_eq!(decode(b"{\"a\": 1}"), Some("{\"a\": 1}"));
    assert_eq!(decode(&[0xc3, 0xa9]), Some("é"));
    assert_eq!(decode(&[0xe2, 0x9c, 0x85]), Some("✅"));
}

#[test]
fn decode_refuses_what_is_not_utf8() {
    assert_eq!(decode(&[0xff]), None);
    assert_eq!(decode(&[0xc3]), None);
    assert_eq!(decode(&[0xc0, 0xaf]), None);
    assert_eq!(decode(&[0xed, 0xa0, 0x80]), None);
    assert_eq!(decode(&[0x61, 0x80]), None);
}
