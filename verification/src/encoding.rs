//! The two forms in which code is compared: its bytes written in hexadecimal,
//! and the SHA-256 digest of its bytes written in hexadecimal. Bytes that
//! come written in hexadecimal are read back here too.

use vstd::prelude::*;
use vstd::string::{is_ascii_spec_bytes, StringSliceAdditionalSpecFns};
use sha2::{Digest, Sha256};

verus! {

/// The sixteen digits, in the order of their values.
pub open spec fn hex_digits() -> Seq<char> {
    seq!['0', '1', '2', '3', '4', '5', '6', '7', '8', '9', 'a', 'b', 'c', 'd', 'e', 'f']
}

/// The bytes in lowercase hexadecimal: two digits for each byte, the high
/// half first.
pub open spec fn hex_encoding(bytes: Seq<u8>) -> Seq<char> {
    Seq::new(
        2 * bytes.len(),
        |i: int|
            if i % 2 == 0 {
                hex_digits()[bytes[i / 2] as int / 16]
            } else {
                hex_digits()[bytes[i / 2] as int % 16]
            },
    )
}

/// The value of a hexadecimal digit of either case.
pub open spec fn hex_value(digit: char) -> Option<int> {
    if '0' <= digit <= '9' {
        Some(digit as int - '0' as int)
    } else if 'a' <= digit <= 'f' {
        Some(digit as int - 'a' as int + 10)
    } else if 'A' <= digit <= 'F' {
        Some(digit as int - 'A' as int + 10)
    } else {
        None
    }
}

/// The digits of a text in hexadecimal: the text without the `0x` or `0X`
/// that may stand in front of it.
pub open spec fn hex_digits_of(text: Seq<char>) -> Seq<char> {
    if text.len() >= 2 && text[0] == '0' && (text[1] == 'x' || text[1] == 'X') {
        text.skip(2)
    } else {
        text
    }
}

/// Whether a text spells bytes in hexadecimal: two digits of either case for
/// each byte, with or without `0x` or `0X` in front. The empty text spells no
/// bytes.
pub open spec fn is_hex(text: Seq<char>) -> bool {
    let digits = hex_digits_of(text);
    digits.len() % 2 == 0 && forall|i: int|
        0 <= i < digits.len() ==> (#[trigger] hex_value(digits[i])) is Some
}

/// The bytes that a text in hexadecimal spells.
pub open spec fn hex_decoding(text: Seq<char>) -> Seq<u8> {
    let digits = hex_digits_of(text);
    Seq::new(
        digits.len() / 2,
        |i: int| (16 * hex_value(digits[2 * i])->0 + hex_value(digits[2 * i + 1])->0) as u8,
    )
}

/// The SHA-256 digest of the bytes.
pub uninterp spec fn sha256(bytes: Seq<u8>) -> Seq<u8>;

/// The digest of the bytes in lowercase hexadecimal.
pub open spec fn hashed_encoding(bytes: Seq<u8>) -> Seq<char> {
    hex_encoding(sha256(bytes))
}

/// Calls `hex::encode`. Not proved: the result holds, for each byte in turn,
/// its high and its low half as lowercase hexadecimal digits.
#[verifier::external_body]
pub(crate) fn hex_of(bytes: &[u8]) -> (text: String)
    ensures
        text@ == hex_encoding(bytes@),
{
    hex::encode(bytes)
}

/// Calls `Sha256::digest` of the crate `sha2`. Not proved: the result is the
/// SHA-256 digest of the bytes, which is 32 bytes long.
#[verifier::external_body]
pub(crate) fn sha256_of(bytes: &[u8]) -> (digest: Vec<u8>)
    ensures
        digest@ == sha256(bytes@),
        digest@.len() == 32,
{
    Sha256::digest(bytes).to_vec()
}

/// The ASCII codes of the characters that hexadecimal is written with.
const DIGIT_0: u8 = 0x30;

const DIGIT_9: u8 = 0x39;

const UPPER_A: u8 = 0x41;

const UPPER_F: u8 = 0x46;

const UPPER_X: u8 = 0x58;

const LOWER_A: u8 = 0x61;

const LOWER_F: u8 = 0x66;

const LOWER_X: u8 = 0x78;

/// The value of a hexadecimal digit given as a byte.
fn digit_value(byte: u8) -> (value: Option<u8>)
    ensures
        match value {
            Some(v) => hex_value(byte as char) == Some(v as int),
            None => hex_value(byte as char) is None,
        },
{
    if DIGIT_0 <= byte && byte <= DIGIT_9 {
        Some(byte - DIGIT_0)
    } else if LOWER_A <= byte && byte <= LOWER_F {
        Some(byte - LOWER_A + 10)
    } else if UPPER_A <= byte && byte <= UPPER_F {
        Some(byte - UPPER_A + 10)
    } else {
        None
    }
}

/// Reads the bytes that a text spells in hexadecimal, where it spells any.
pub fn hex_bytes(text: &str) -> (bytes: Option<Vec<u8>>)
    ensures
        match bytes {
            Some(b) => is_hex(text@) && b@ == hex_decoding(text@),
            None => !is_hex(text@),
        },
{
    let ghost digits = hex_digits_of(text@);
    if !text.is_ascii() {
        proof {
            if is_hex(text@) {
                assert forall|i: int| 0 <= i < text@.len() implies '\0' <= #[trigger] text@[i]
                    <= '\u{7f}' by {
                    if digits.len() == text@.len() {
                        assert(hex_value(digits[i]) is Some);
                    } else if i >= 2 {
                        assert(digits[i - 2] == text@[i]);
                        assert(hex_value(digits[i - 2]) is Some);
                    }
                }
            }
        }
        return None;
    }
    let raw = text.as_bytes();
    proof {
        is_ascii_spec_bytes(text);
    }
    let n = raw.len();
    let start: usize = if n >= 2 && raw[0] == DIGIT_0 && (raw[1] == LOWER_X || raw[1] == UPPER_X) {
        2
    } else {
        0
    };
    assert(digits =~= text@.skip(start as int));
    if (n - start) % 2 != 0 {
        return None;
    }
    let mut bytes: Vec<u8> = Vec::new();
    let mut i: usize = start;
    while i < n
        invariant
            start <= i <= n,
            n == raw@.len(),
            n == text@.len(),
            (n - start) % 2 == 0,
            (i - start) % 2 == 0,
            digits == text@.skip(start as int),
            digits == hex_digits_of(text@),
            forall|k: int| 0 <= k < n ==> raw@[k] == #[trigger] text@[k] as u8,
            forall|k: int| 0 <= k < n ==> '\0' <= #[trigger] text@[k] <= '\u{7f}',
            forall|k: int| 0 <= k < i - start ==> (#[trigger] hex_value(digits[k])) is Some,
            bytes@.len() == (i - start) / 2,
            forall|m: int|
                0 <= m < bytes@.len() ==> #[trigger] bytes@[m] == (16 * hex_value(
                    digits[2 * m],
                )->0 + hex_value(digits[2 * m + 1])->0) as u8,
        decreases n - i,
    {
        assert(digits[i - start] == text@[i as int]);
        assert(digits[i - start + 1] == text@[i + 1]);
        assert(raw@[i as int] as char == text@[i as int]);
        assert(raw@[i + 1] as char == text@[i + 1]);
        let high = match digit_value(raw[i]) {
            Some(high) => high,
            None => {
                assert(hex_value(digits[i - start]) is None);
                return None;
            },
        };
        let low = match digit_value(raw[i + 1]) {
            Some(low) => low,
            None => {
                assert(hex_value(digits[i - start + 1]) is None);
                return None;
            },
        };
        bytes.push(high * 16 + low);
        i += 2;
    }
    assert(bytes@ =~= hex_decoding(text@));
    Some(bytes)
}

/// A digit has the value of its place among the sixteen.
pub proof fn lemma_hex_digits_have_their_values(value: int)
    requires
        0 <= value < 16,
    ensures
        hex_value(hex_digits()[value]) == Some(value),
{
}

/// What is written in hexadecimal reads back as the bytes it was written
/// from.
pub proof fn lemma_hex_encoding_reads_back(bytes: Seq<u8>)
    ensures
        is_hex(hex_encoding(bytes)),
        hex_decoding(hex_encoding(bytes)) == bytes,
{
    let text = hex_encoding(bytes);
    if bytes.len() > 0 {
        lemma_hex_encoding_digits(bytes, 0);
        lemma_hex_digits_have_their_values(bytes[0] as int % 16);
    }
    assert(hex_digits_of(text) == text);
    assert forall|i: int| 0 <= i < text.len() implies (#[trigger] hex_value(text[i])) is Some by {
        lemma_hex_encoding_digits(bytes, i / 2);
        lemma_hex_digits_have_their_values(bytes[i / 2] as int / 16);
        lemma_hex_digits_have_their_values(bytes[i / 2] as int % 16);
    }
    assert forall|i: int| 0 <= i < bytes.len() implies hex_decoding(text)[i] == bytes[i] by {
        lemma_hex_encoding_digits(bytes, i);
        lemma_hex_digits_have_their_values(bytes[i] as int / 16);
        lemma_hex_digits_have_their_values(bytes[i] as int % 16);
    }
    assert(hex_decoding(text) =~= bytes);
}

/// Two digits are the same only where their values are.
pub proof fn lemma_hex_digits_differ(a: int, b: int)
    requires
        0 <= a < 16,
        0 <= b < 16,
        hex_digits()[a] == hex_digits()[b],
    ensures
        a == b,
{
}

/// Each byte can be read back from its two digits.
pub proof fn lemma_hex_encoding_digits(bytes: Seq<u8>, i: int)
    requires
        0 <= i < bytes.len(),
    ensures
        hex_encoding(bytes).len() == 2 * bytes.len(),
        hex_encoding(bytes)[2 * i] == hex_digits()[bytes[i] as int / 16],
        hex_encoding(bytes)[2 * i + 1] == hex_digits()[bytes[i] as int % 16],
{
    assert((2 * i) % 2 == 0);
    assert((2 * i) / 2 == i);
    assert((2 * i + 1) % 2 == 1);
    assert((2 * i + 1) / 2 == i);
}

/// Written in hexadecimal, different bytes never read the same.
pub proof fn lemma_hex_encoding_injective(a: Seq<u8>, b: Seq<u8>)
    requires
        hex_encoding(a) == hex_encoding(b),
    ensures
        a == b,
{
    assert(hex_encoding(a).len() == 2 * a.len());
    assert(hex_encoding(b).len() == 2 * b.len());
    assert(a.len() == b.len());
    assert forall|i: int| 0 <= i < a.len() implies a[i] == b[i] by {
        lemma_hex_encoding_digits(a, i);
        lemma_hex_encoding_digits(b, i);
        lemma_hex_digits_differ(a[i] as int / 16, b[i] as int / 16);
        lemma_hex_digits_differ(a[i] as int % 16, b[i] as int % 16);
    }
    assert(a =~= b);
}

/// Two digests read the same in hexadecimal exactly where they are the same:
/// the hashed form tells two pieces of code apart wherever SHA-256 does.
pub proof fn lemma_hashed_encoding_follows_digest(a: Seq<u8>, b: Seq<u8>)
    ensures
        hashed_encoding(a) == hashed_encoding(b) <==> sha256(a) == sha256(b),
{
    if hashed_encoding(a) == hashed_encoding(b) {
        lemma_hex_encoding_injective(sha256(a), sha256(b));
    }
}

} // verus!
