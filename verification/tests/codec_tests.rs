use rollup_driver::codec::bytes_to_text;
use rollup_driver::codec::decode;
use rollup_driver::codec::encode;
use rollup_driver::codec::hex2str;
use rollup_driver::codec::CodecError;

#[test]
fn encode_simple_text() {
    assert_eq!(encode("hello"), "0x68656c6c6f");
    assert_eq!(encode(""), "0x");
}

#[test]
fn encode_matches_hex_crate() {
    for s in ["hello", "", "Ada Lovelace", "h\u{e9}llo \u{2603}", "\u{1f600}", "0x41/42"] {
        assert_eq!(encode(s), format!("0x{}", hex::encode(s.as_bytes())), "text: {}", s);
    }
}

#[test]
fn decode_simple_payload() {
    assert_eq!(decode("0x68656c6c6f").unwrap(), b"hello".to_vec());
    assert_eq!(decode("0x").unwrap(), Vec::<u8>::new());
}

#[test]
fn decode_rejects_odd_length() {
    assert_eq!(decode("0x686").unwrap_err(), CodecError::Decoding);
}

#[test]
fn decode_rejects_non_hex_digit() {
    assert_eq!(decode("0x6g").unwrap_err(), CodecError::Decoding);
    assert_eq!(decode("0x0 ").unwrap_err(), CodecError::Decoding);
}

#[test]
fn decode_rejects_short_input() {
    assert_eq!(decode("0").unwrap_err(), CodecError::Decoding);
    assert_eq!(decode("").unwrap_err(), CodecError::Decoding);
}

#[test]
fn decode_strips_marker_without_checking_it() {
    assert_eq!(decode("zz68").unwrap(), vec![0x68]);
}

#[test]
fn decode_accepts_upper_case_digits() {
    assert_eq!(decode("0x68656C6C6F").unwrap(), b"hello".to_vec());
}

#[test]
fn bytes_to_text_accepts_valid_utf8() {
    assert_eq!(bytes_to_text(b"hello".to_vec()).unwrap(), "hello");
    assert_eq!(bytes_to_text(vec![0xc3, 0xa9]).unwrap(), "\u{e9}");
    assert_eq!(bytes_to_text(vec![0xe2, 0x98, 0x83]).unwrap(), "\u{2603}");
    assert_eq!(bytes_to_text(vec![0xf0, 0x9f, 0x98, 0x80]).unwrap(), "\u{1f600}");
    assert_eq!(bytes_to_text(Vec::new()).unwrap(), "");
}

#[test]
fn bytes_to_text_rejects_invalid_utf8() {
    assert_eq!(bytes_to_text(vec![0xff]).unwrap_err(), CodecError::Encoding);
    assert_eq!(bytes_to_text(vec![0xc3, 0x28]).unwrap_err(), CodecError::Encoding);
    // overlong encoding
    assert_eq!(bytes_to_text(vec![0xc0, 0x80]).unwrap_err(), CodecError::Encoding);
    // surrogate range
    assert_eq!(bytes_to_text(vec![0xed, 0xa0, 0x80]).unwrap_err(), CodecError::Encoding);
    // truncated sequence
    assert_eq!(bytes_to_text(vec![0xe2, 0x98]).unwrap_err(), CodecError::Encoding);
}

#[test]
fn bytes_to_text_matches_std() {
    let samples: Vec<Vec<u8>> = vec![
        b"plain".to_vec(),
        vec![0xc3, 0xa9, 0x21],
        vec![0x80],
        vec![0xf4, 0x90, 0x80, 0x80],
        vec![0xf4, 0x8f, 0xbf, 0xbf],
        vec![0xed, 0x9f, 0xbf],
        vec![0xee, 0x80, 0x80],
    ];
    for bytes in samples {
        let expected = String::from_utf8(bytes.clone());
        let got = bytes_to_text(bytes.clone());
        assert_eq!(got.is_ok(), expected.is_ok(), "bytes: {:?}", bytes);
        if let (Ok(g), Ok(e)) = (got, expected) {
            assert_eq!(g, e);
        }
    }
}

#[test]
fn round_trip_texts() {
    for t in ["hello", "", "Ada, 30 & \"0xABC\"", "h\u{e9}llo \u{2603} \u{1f600}", "total"] {
        let bytes = decode(&encode(t)).unwrap();
        assert_eq!(bytes_to_text(bytes).unwrap(), t, "text: {}", t);
    }
}

#[test]
fn hex2str_composes_decode_and_text() {
    assert_eq!(hex2str("0x68656c6c6f").unwrap(), "hello");
    assert_eq!(hex2str("0x686").unwrap_err(), CodecError::Decoding);
    assert_eq!(hex2str("0xff").unwrap_err(), CodecError::Encoding);
}
