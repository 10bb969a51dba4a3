use signed_webhooks::hexcodec::{decode, encode};

#[test]
fn hex_encode_writes_lower_case_digits() {
    assert_eq!(encode(b"Hello world!"), b"48656c6c6f20776f726c6421".to_vec());
    assert_eq!(encode(&[1, 2, 3, 15, 16]), b"0102030f10".to_vec());
    assert_eq!(encode(&[0x00, 0x9a, 0xab, 0xff]), b"009aabff".to_vec());
    assert_eq!(encode(&[]), Vec::<u8>::new());
}

#[test]
fn hex_encode_is_not_the_identity() {
    assert_ne!(encode(b"ab"), b"ab".to_vec());
    assert_eq!(encode(b"ab"), b"6162".to_vec());
}

#[test]
fn hex_decode_reads_either_case() {
    assert_eq!(decode(b"48656c6c6f20776f726c6421"), Some(b"Hello world!".to_vec()));
    assert_eq!(decode(b"f9b4ca"), Some(vec![0xf9, 0xb4, 0xca]));
    assert_eq!(decode(b"F9B4CA"), Some(vec![0xf9, 0xb4, 0xca]));
    assert_eq!(decode(b"f9B4Ca"), Some(vec![0xf9, 0xb4, 0xca]));
    assert_eq!(decode(b""), Some(vec![]));
}

#[test]
fn hex_decode_is_not_the_identity() {
    assert_ne!(decode(b"6162"), Some(b"6162".to_vec()));
    assert_eq!(decode(b"6162"), Some(b"ab".to_vec()));
}

#[test]
fn hex_decode_refuses_odd_lengths_and_other_bytes() {
    assert_eq!(decode(b"123"), None);
    assert_eq!(decode(b"abc"), None);
    assert_eq!(decode(b"foo"), None);
    assert_eq!(decode(b"zz"), None);
    assert_eq!(decode(b"0g"), None);
    assert_eq!(decode(b"g0"), None);
    assert_eq!(decode(b" 0"), None);
    assert_eq!(decode(b"0x10"), None);
    // the bytes next to the digit ranges
    for outside in [b'/', b':', b'@', b'G', b'`', b'g'] {
        assert_eq!(decode(&[b'0', outside]), None);
        assert_eq!(decode(&[outside, b'0']), None);
    }
}

#[test]
fn hex_decode_undoes_encode_for_every_byte() {
    let all: Vec<u8> = (0..=255).collect();
    let text = encode(&all);
    assert_eq!(text.len(), 512);
    assert_eq!(decode(&text), Some(all.clone()));
    assert_eq!(decode(&text.to_ascii_uppercase()), Some(all));
}
