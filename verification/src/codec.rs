//! Hex-string / byte-sequence / UTF-8 text conversions.
//!
//! Payloads travel as `0x`-prefixed hex strings. [`decode`] strips the
//! two-character marker and hex-decodes the remainder; [`bytes_to_text`]
//! interprets bytes as UTF-8; [`encode`] is the total inverse of the
//! composition for well-formed input ([`lemma_codec_round_trip`]).

use vstd::prelude::*;
use vstd::string::StrSliceExecFns;
use vstd::string::StringExecFns;
use vstd::utf8::decode_utf8;
use vstd::utf8::encode_utf8;
use vstd::utf8::valid_utf8;

verus! {

/// Why a payload could not be converted.
#[derive(Clone, Copy, Debug, PartialEq, Eq, Structural)]
pub enum CodecError {
    /// The hex wrapper was malformed: too short for the marker, odd number
    /// of hex digits, or a character that is not a hex digit.
    Decoding,
    /// The decoded byte sequence is not valid UTF-8.
    Encoding,
}

/// True when `c` is an ASCII hex digit, in either case.
pub open spec fn is_hex_digit(c: char) -> bool {
    ('0' <= c && c <= '9') || ('a' <= c && c <= 'f') || ('A' <= c && c <= 'F')
}

/// Numeric value of a hex digit.
pub open spec fn hex_digit_value(c: char) -> u8
    recommends
        is_hex_digit(c),
{
    if '0' <= c && c <= '9' {
        (c as u32 - 48) as u8
    } else if 'a' <= c && c <= 'f' {
        (c as u32 - 87) as u8
    } else {
        (c as u32 - 55) as u8
    }
}

/// Lower-case hex digit for a value below 16.
pub open spec fn hex_digit_char(v: u8) -> char
    recommends
        v < 16,
{
    if v < 10 {
        ((v + 48) as u32) as char
    } else {
        ((v + 87) as u32) as char
    }
}

/// Hex rendering of a byte sequence: two digits per byte, high nibble first.
pub open spec fn hex_chars_of(bytes: Seq<u8>) -> Seq<char>
    decreases bytes.len(),
{
    if bytes.len() == 0 {
        Seq::empty()
    } else {
        seq![
            hex_digit_char((bytes[0] / 16) as u8),
            hex_digit_char((bytes[0] % 16) as u8),
        ] + hex_chars_of(bytes.drop_first())
    }
}

/// True when every character of `s` is a hex digit.
pub open spec fn all_hex_digits(s: Seq<char>) -> bool {
    forall|i: int| 0 <= i < s.len() ==> is_hex_digit(#[trigger] s[i])
}

/// Bytes denoted by a sequence of hex digit pairs.
pub open spec fn hex_pairs_to_bytes(s: Seq<char>) -> Seq<u8>
    recommends
        s.len() % 2 == 0,
        all_hex_digits(s),
    decreases s.len(),
{
    if s.len() < 2 {
        Seq::empty()
    } else {
        seq![(hex_digit_value(s[0]) * 16 + hex_digit_value(s[1])) as u8] + hex_pairs_to_bytes(
            s.skip(2),
        )
    }
}

/// What [`decode`] returns: the marker is stripped unchecked (the protocol
/// always sends one), and the remainder must be an even number of hex digits.
pub open spec fn spec_decode(s: Seq<char>) -> Result<Seq<u8>, CodecError> {
    if s.len() < 2 {
        Err(CodecError::Decoding)
    } else {
        let body = s.skip(2);
        if body.len() % 2 == 0 && all_hex_digits(body) {
            Ok(hex_pairs_to_bytes(body))
        } else {
            Err(CodecError::Decoding)
        }
    }
}

/// What [`encode`] returns: the marker, then the hex rendering of the
/// UTF-8 bytes of the text.
pub open spec fn spec_encode(t: Seq<char>) -> Seq<char> {
    seq!['0', 'x'] + hex_chars_of(encode_utf8(t))
}

/// What [`bytes_to_text`] returns: the decoded characters exactly when the
/// bytes are valid UTF-8.
pub open spec fn spec_bytes_to_text(b: Seq<u8>) -> Result<Seq<char>, CodecError> {
    if valid_utf8(b) {
        Ok(decode_utf8(b))
    } else {
        Err(CodecError::Encoding)
    }
}

/// What [`hex2str`] returns: hex decoding followed by UTF-8 decoding.
pub open spec fn spec_hex2str(s: Seq<char>) -> Result<Seq<char>, CodecError> {
    match spec_decode(s) {
        Ok(b) => spec_bytes_to_text(b),
        Err(e) => Err(e),
    }
}

/// Hex digit value of one character, when it has one.
fn hex_digit_of_char(c: char) -> (r: Option<u8>)
    ensures
        r is Some <==> is_hex_digit(c),
        r matches Some(v) ==> v == hex_digit_value(c) && v < 16,
{
    if c >= '0' && c <= '9' {
        Some((c as u32 - 48) as u8)
    } else if c >= 'a' && c <= 'f' {
        Some((c as u32 - 87) as u8)
    } else if c >= 'A' && c <= 'F' {
        Some((c as u32 - 55) as u8)
    } else {
        None
    }
}

/// One-character string holding the lower-case hex digit for `v`.
fn nibble_str(v: u8) -> (r: &'static str)
    requires
        v < 16,
    ensures
        r@ =~= seq![hex_digit_char(v)],
{
    proof {
        reveal_strlit("0");
        reveal_strlit("1");
        reveal_strlit("2");
        reveal_strlit("3");
        reveal_strlit("4");
        reveal_strlit("5");
        reveal_strlit("6");
        reveal_strlit("7");
        reveal_strlit("8");
        reveal_strlit("9");
        reveal_strlit("a");
        reveal_strlit("b");
        reveal_strlit("c");
        reveal_strlit("d");
        reveal_strlit("e");
        reveal_strlit("f");
    }
    match v {
        0 => "0",
        1 => "1",
        2 => "2",
        3 => "3",
        4 => "4",
        5 => "5",
        6 => "6",
        7 => "7",
        8 => "8",
        9 => "9",
        10 => "a",
        11 => "b",
        12 => "c",
        13 => "d",
        14 => "e",
        _ => "f",
    }
}

proof fn lemma_hex_chars_snoc(bytes: Seq<u8>, b: u8)
    ensures
        hex_chars_of(bytes.push(b)) =~= hex_chars_of(bytes) + seq![
            hex_digit_char((b / 16) as u8),
            hex_digit_char((b % 16) as u8),
        ],
    decreases bytes.len(),
{
    if bytes.len() == 0 {
        assert(bytes.push(b)[0] == b);
        assert(bytes.push(b).drop_first() =~= Seq::<u8>::empty());
        assert(hex_chars_of(Seq::<u8>::empty()) =~= Seq::<char>::empty());
        assert(hex_chars_of(bytes.push(b)) =~= seq![
            hex_digit_char((b / 16) as u8),
            hex_digit_char((b % 16) as u8),
        ]);
    } else {
        assert(bytes.push(b).drop_first() =~= bytes.drop_first().push(b));
        lemma_hex_chars_snoc(bytes.drop_first(), b);
        assert(bytes.push(b)[0] == bytes[0]);
        assert(hex_chars_of(bytes.push(b)) == seq![
            hex_digit_char((bytes[0] / 16) as u8),
            hex_digit_char((bytes[0] % 16) as u8),
        ] + hex_chars_of(bytes.drop_first().push(b)));
    }
}

proof fn lemma_hex_pairs_snoc(s: Seq<char>, c1: char, c2: char)
    requires
        s.len() % 2 == 0,
    ensures
        hex_pairs_to_bytes(s + seq![c1, c2]) =~= hex_pairs_to_bytes(s) + seq![
            (hex_digit_value(c1) * 16 + hex_digit_value(c2)) as u8,
        ],
    decreases s.len(),
{
    if s.len() == 0 {
        assert((s + seq![c1, c2]).skip(2) =~= Seq::<char>::empty());
        assert((s + seq![c1, c2])[0] == c1 && (s + seq![c1, c2])[1] == c2);
        assert(hex_pairs_to_bytes(Seq::<char>::empty()) =~= Seq::<u8>::empty());
        assert(hex_pairs_to_bytes(s) =~= Seq::<u8>::empty());
        assert(hex_pairs_to_bytes(s + seq![c1, c2]) =~= seq![
            (hex_digit_value(c1) * 16 + hex_digit_value(c2)) as u8,
        ]);
    } else {
        assert((s + seq![c1, c2]).skip(2) =~= s.skip(2) + seq![c1, c2]);
        lemma_hex_pairs_snoc(s.skip(2), c1, c2);
        assert((s + seq![c1, c2])[0] == s[0] && (s + seq![c1, c2])[1] == s[1]);
        assert(hex_pairs_to_bytes(s + seq![c1, c2]) == seq![
            (hex_digit_value(s[0]) * 16 + hex_digit_value(s[1])) as u8,
        ] + hex_pairs_to_bytes(s.skip(2) + seq![c1, c2]));
    }
}

/// Hex-encodes a byte sequence and prepends the `0x` marker.
pub fn encode_bytes(bytes: &Vec<u8>) -> (r: String)
    ensures
        r@ == seq!['0', 'x'] + hex_chars_of(bytes@),
{
    let mut out = String::from_str("0x");
    proof {
        reveal_strlit("0x");
        assert(out@ =~= seq!['0', 'x'] + hex_chars_of(bytes@.take(0)));
    }
    let mut i: usize = 0;
    while i < bytes.len()
        invariant
            i <= bytes.len(),
            out@ == seq!['0', 'x'] + hex_chars_of(bytes@.take(i as int)),
        decreases bytes.len() - i,
    {
        let b = bytes[i];
        out.append(nibble_str(b / 16));
        out.append(nibble_str(b % 16));
        proof {
            lemma_hex_chars_snoc(bytes@.take(i as int), b);
            assert(bytes@.take(i + 1) =~= bytes@.take(i as int).push(b));
            assert(out@ =~= seq!['0', 'x'] + hex_chars_of(bytes@.take(i + 1)));
        }
        i += 1;
    }
    proof {
        assert(bytes@.take(bytes.len() as int) =~= bytes@);
    }
    out
}

/// Hex-encodes the UTF-8 bytes of `t` and prepends the `0x` marker.
pub fn encode(t: &str) -> (r: String)
    ensures
        r@ == spec_encode(t@),
{
    let bytes = t.as_bytes_vec();
    encode_bytes(&bytes)
}

/// Strips the two-character marker and hex-decodes the remainder.
pub fn decode(s: &str) -> (r: Result<Vec<u8>, CodecError>)
    ensures
        r is Ok <==> spec_decode(s@) is Ok,
        r matches Ok(b) ==> spec_decode(s@) == Ok::<Seq<u8>, CodecError>(b@),
        r matches Err(e) ==> e == CodecError::Decoding,
{
    let n = s.unicode_len();
    if n < 2 || (n - 2) % 2 != 0 {
        return Err(CodecError::Decoding);
    }
    let mut out: Vec<u8> = Vec::new();
    let mut i: usize = 2;
    while i < n
        invariant
            2 <= i <= n,
            (i - 2) % 2 == 0,
            (n - 2) % 2 == 0,
            n == s@.len(),
            all_hex_digits(s@.subrange(2, i as int)),
            out@ == hex_pairs_to_bytes(s@.subrange(2, i as int)),
        decreases n - i,
    {
        let c1 = s.get_char(i);
        let c2 = s.get_char(i + 1);
        let v1 = match hex_digit_of_char(c1) {
            Some(v) => v,
            None => {
                proof {
                    assert(!is_hex_digit(s@.skip(2)[i - 2]));
                }
                return Err(CodecError::Decoding);
            },
        };
        let v2 = match hex_digit_of_char(c2) {
            Some(v) => v,
            None => {
                proof {
                    assert(!is_hex_digit(s@.skip(2)[i - 1]));
                }
                return Err(CodecError::Decoding);
            },
        };
        out.push(v1 * 16 + v2);
        proof {
            lemma_hex_pairs_snoc(s@.subrange(2, i as int), c1, c2);
            assert(s@.subrange(2, i + 2) =~= s@.subrange(2, i as int) + seq![c1, c2]);
        }
        i += 2;
    }
    proof {
        assert(s@.subrange(2, n as int) =~= s@.skip(2));
    }
    Ok(out)
}

/// Trusted boundary: relies on `String::from_utf8`, which on valid UTF-8
/// input returns the string whose byte encoding is exactly the input vector.
#[verifier::external_body]
fn string_from_utf8(v: Vec<u8>) -> (r: String)
    requires
        valid_utf8(v@),
    ensures
        encode_utf8(r@) == v@,
{
    String::from_utf8(v).unwrap()
}

/// Reads the bytes at `i` as one UTF-8 scalar: `Some(width)` when a valid
/// scalar encoding starts there, `None` otherwise.
fn scan_scalar(b: &Vec<u8>, i: usize) -> (r: Option<usize>)
    requires
        i < b@.len(),
    ensures
        r matches Some(w) ==> {
            &&& 1 <= w <= 4
            &&& i + w <= b@.len()
            &&& vstd::utf8::valid_first_scalar(b@.skip(i as int))
            &&& vstd::utf8::length_of_first_scalar(b@.skip(i as int)) == w
        },
        r is None ==> !vstd::utf8::valid_first_scalar(b@.skip(i as int)),
{
    let ghost tail = b@.skip(i as int);
    proof {
        assert(tail.len() == b@.len() - i);
        assert(forall|k: int| 0 <= k < tail.len() ==> #[trigger] tail[k] == b@[i + k]);
    }
    let n = b.len();
    let lead = b[i];
    if lead < 0x80 {
        proof {
            assert((lead & 0x7f) < 0x80) by (bit_vector)
                requires
                    lead < 0x80,
            ;
        }
        Some(1)
    } else if 0xc0 <= lead && lead <= 0xdf {
        if i + 1 < n && 0x80 <= b[i + 1] && b[i + 1] <= 0xbf {
            let b2 = b[i + 1];
            let cp: u32 = (((lead & 0x1f) as u32) << 6) | ((b2 & 0x3f) as u32);
            proof {
                assert(cp == vstd::utf8::codepoint_width_2(tail[0], tail[1]));
                assert((((lead & 0x1f) as u32) << 6) | ((b2 & 0x3f) as u32) <= 0x7ff)
                    by (bit_vector);
            }
            if cp >= 0x80 {
                Some(2)
            } else {
                None
            }
        } else {
            None
        }
    } else if 0xe0 <= lead && lead <= 0xef {
        if n >= 3 && i <= n - 3 && 0x80 <= b[i + 1] && b[i + 1] <= 0xbf && 0x80 <= b[i + 2] && b[i
            + 2] <= 0xbf {
            let b2 = b[i + 1];
            let b3 = b[i + 2];
            let cp: u32 = (((lead & 0x0f) as u32) << 12) | (((b2 & 0x3f) as u32) << 6) | ((b3
                & 0x3f) as u32);
            proof {
                assert(cp == vstd::utf8::codepoint_width_3(tail[0], tail[1], tail[2]));
                assert((((lead & 0x0f) as u32) << 12) | (((b2 & 0x3f) as u32) << 6) | ((b3
                    & 0x3f) as u32) <= 0xffff) by (bit_vector);
            }
            if cp >= 0x800 && !(0xd800 <= cp && cp <= 0xdfff) {
                Some(3)
            } else {
                None
            }
        } else {
            None
        }
    } else if 0xf0 <= lead && lead <= 0xf7 {
        if n >= 4 && i <= n - 4 && 0x80 <= b[i + 1] && b[i + 1] <= 0xbf && 0x80 <= b[i + 2] && b[i
            + 2] <= 0xbf && 0x80 <= b[i + 3] && b[i + 3] <= 0xbf {
            let b2 = b[i + 1];
            let b3 = b[i + 2];
            let b4 = b[i + 3];
            let cp: u32 = (((lead & 0x07) as u32) << 18) | (((b2 & 0x3f) as u32) << 12) | (((b3
                & 0x3f) as u32) << 6) | ((b4 & 0x3f) as u32);
            proof {
                assert(cp == vstd::utf8::codepoint_width_4(tail[0], tail[1], tail[2], tail[3]));
            }
            if 0x10000 <= cp && cp <= 0x10ffff {
                Some(4)
            } else {
                None
            }
        } else {
            None
        }
    } else {
        None
    }
}

/// Interprets bytes as UTF-8 text; rejects sequences that are not valid
/// UTF-8.
pub fn bytes_to_text(b: Vec<u8>) -> (r: Result<String, CodecError>)
    ensures
        r is Ok <==> valid_utf8(b@),
        r matches Ok(t) ==> t@ == decode_utf8(b@),
        r matches Err(e) ==> e == CodecError::Encoding,
{
    let n = b.len();
    let mut i: usize = 0;
    while i < n
        invariant
            i <= n,
            n == b@.len(),
            vstd::utf8::partial_valid_utf8(b@, i as int),
        decreases n - i,
    {
        match scan_scalar(&b, i) {
            Some(w) => {
                proof {
                    vstd::utf8::partial_valid_utf8_extend(b@, i as int);
                    assert(b@.subrange(i as int, b@.len() as int) =~= b@.skip(i as int));
                }
                i += w;
            },
            None => {
                proof {
                    assert(b@.subrange(i as int, b@.len() as int) =~= b@.skip(i as int));
                    assert(!valid_utf8(b@.skip(i as int)));
                    vstd::utf8::partial_valid_partial_invalid_utf8(b@, i as int);
                }
                return Err(CodecError::Encoding);
            },
        }
    }
    let ghost bs = b@;
    proof {
        assert(bs.subrange(0, bs.len() as int) =~= bs);
        assert(valid_utf8(bs));
    }
    let t = string_from_utf8(b);
    proof {
        vstd::utf8::encode_utf8_decode_utf8(t@);
        assert(decode_utf8(bs) == t@);
    }
    Ok(t)
}

/// Decodes a `0x`-prefixed hex payload into its UTF-8 text.
pub fn hex2str(payload: &str) -> (r: Result<String, CodecError>)
    ensures
        r is Ok <==> spec_hex2str(payload@) is Ok,
        r matches Ok(t) ==> spec_hex2str(payload@) == Ok::<Seq<char>, CodecError>(t@),
        r matches Err(e) ==> spec_hex2str(payload@) == Err::<Seq<char>, CodecError>(e),
{
    match decode(payload) {
        Ok(bytes) => match bytes_to_text(bytes) {
            Ok(t) => Ok(t),
            Err(e) => Err(e),
        },
        Err(e) => Err(e),
    }
}

/// Hex digits come back as the bytes they render: the digits of any byte
/// sequence decode to that sequence.
pub proof fn lemma_hex_round_trip(bytes: Seq<u8>)
    ensures
        hex_chars_of(bytes).len() == 2 * bytes.len(),
        all_hex_digits(hex_chars_of(bytes)),
        hex_pairs_to_bytes(hex_chars_of(bytes)) =~= bytes,
    decreases bytes.len(),
{
    if bytes.len() == 0 {
    } else {
        let b = bytes[0];
        let rest = bytes.drop_first();
        lemma_hex_round_trip(rest);
        let pair = seq![hex_digit_char((b / 16) as u8), hex_digit_char((b % 16) as u8)];
        assert(is_hex_digit(hex_digit_char((b / 16) as u8)));
        assert(is_hex_digit(hex_digit_char((b % 16) as u8)));
        assert(hex_digit_value(hex_digit_char((b / 16) as u8)) == b / 16);
        assert(hex_digit_value(hex_digit_char((b % 16) as u8)) == b % 16);
        assert(hex_chars_of(bytes) =~= pair + hex_chars_of(rest));
        assert(hex_chars_of(bytes).skip(2) =~= hex_chars_of(rest));
        assert(hex_pairs_to_bytes(hex_chars_of(bytes)) =~= seq![b] + hex_pairs_to_bytes(
            hex_chars_of(rest),
        ));
    }
}

/// Round-trip law: for every text `t`, decoding `encode(t)` yields the UTF-8
/// bytes of `t`, and reading those bytes back as text yields `t` again.
pub proof fn lemma_codec_round_trip(t: Seq<char>)
    ensures
        spec_decode(spec_encode(t)) == Ok::<Seq<u8>, CodecError>(encode_utf8(t)),
        spec_bytes_to_text(encode_utf8(t)) == Ok::<Seq<char>, CodecError>(t),
        spec_hex2str(spec_encode(t)) == Ok::<Seq<char>, CodecError>(t),
{
    let bytes = encode_utf8(t);
    lemma_hex_round_trip(bytes);
    let enc = spec_encode(t);
    assert(enc.skip(2) =~= hex_chars_of(bytes));
    assert(spec_decode(enc) == Ok::<Seq<u8>, CodecError>(hex_pairs_to_bytes(hex_chars_of(bytes))));
    assert(hex_pairs_to_bytes(hex_chars_of(bytes)) == bytes);
    vstd::utf8::encode_utf8_valid_utf8(t);
    vstd::utf8::encode_utf8_decode_utf8(t);
}

} // verus!
