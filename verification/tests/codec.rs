use mdbx_browse::codec::{decode_hex, encode_hex};

#[test]
fn encode_empty() {
    assert_eq!(encode_hex(&vec![]), "");
}

#[test]
fn encode_exact_values() {
    assert_eq!(encode_hex(&vec![0x01]), "01");
    assert_eq!(encode_hex(&vec![0xff]), "ff");
    assert_eq!(encode_hex(&vec![0x00, 0xab, 0x7f]), "00ab7f");
    assert_eq!(encode_hex(&vec![0xde, 0xad, 0xbe, 0xef]), "deadbeef");
}

#[test]
fn encode_is_lowercase() {
    let s = encode_hex(&vec![0xab, 0xcd, 0xef]);
    assert_eq!(s, "abcdef");
    assert!(s.chars().all(|c| !c.is_ascii_uppercase()));
}

#[test]
fn decode_round_trips_every_byte() {
    let all: Vec<u8> = (0u8..=255).collect();
    let s = encode_hex(&all);
    assert_eq!(decode_hex(&s), Some(all));
}

#[test]
fn decode_empty() {
    assert_eq!(decode_hex(""), Some(vec![]));
}

#[test]
fn decode_accepts_uppercase() {
    assert_eq!(decode_hex("AB"), Some(vec![0xab]));
    assert_eq!(decode_hex("DeAd"), Some(vec![0xde, 0xad]));
}

#[test]
fn decode_rejects_odd_length() {
    assert_eq!(decode_hex("abc"), None);
    assert_eq!(decode_hex("0"), None);
}

#[test]
fn decode_rejects_non_digits() {
    assert_eq!(decode_hex("0g"), None);
    assert_eq!(decode_hex("zz"), None);
    assert_eq!(decode_hex("0 1"), None);
    assert_eq!(decode_hex("ab\u{e9}f"), None);
}

#[test]
fn encode_matches_reference_encoder() {
    let samples: Vec<Vec<u8>> = vec![
        vec![],
        vec![0x00],
        vec![0x01, 0xff],
        vec![0x12, 0x34, 0x56, 0x78, 0x9a, 0xbc, 0xde, 0xf0],
        (0u8..=255).collect(),
    ];
    for bytes in samples {
        assert_eq!(encode_hex(&bytes), hex::encode(&bytes));
        assert_eq!(hex::decode(encode_hex(&bytes)).unwrap(), bytes);
    }
}
