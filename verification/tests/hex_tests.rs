use account_session::hex::{decode, encode};

#[test]
fn encode_writes_lower_case_pairs() {
    assert_eq!(encode(&[]), "");
    assert_eq!(encode(&[0x00]), "00");
    assert_eq!(encode(&[0xbe, 0xef]), "beef");
    assert_eq!(encode(&[0x01, 0x23, 0x45, 0x67, 0x89, 0xab, 0xcd, 0xef]), "0123456789abcdef");
    assert_eq!(encode(&[0xff, 0x0f, 0xf0]), "ff0ff0");
}

#[test]
fn decode_reads_what_encode_wrote() {
    let all: Vec<u8> = (0..=255).collect();
    let text = encode(&all);
    assert_eq!(text.len(), 512);
    assert_eq!(decode(&text), Some(all));
}

#[test]
fn decode_reads_known_text() {
    assert_eq!(decode(""), Some(vec![]));
    assert_eq!(decode("beef"), Some(vec![0xbe, 0xef]));
    assert_eq!(decode("0a10"), Some(vec![0x0a, 0x10]));
}

#[test]
fn decode_refuses_anything_else() {
    assert_eq!(decode("a"), None);
    assert_eq!(decode("abc"), None);
    assert_eq!(decode("zz"), None);
    assert_eq!(decode("BEEF"), None);
    assert_eq!(decode("be ef"), None);
    assert_eq!(decode("0g"), None);
    assert_eq!(decode("g0"), None);
    assert_eq!(decode("é0"), None);
    assert_eq!(decode("0/"), None);
    assert_eq!(decode("0:"), None);
    assert_eq!(decode("0`"), None);
}
