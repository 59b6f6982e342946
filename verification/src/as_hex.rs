//! Hexadecimal text: the form in which binary values travel in JSON, with a
//! leading `0x`, and in which node identities are written.

use hex::FromHexError;
use vstd::prelude::*;
use vstd::slice::slice_subrange;
use vstd::string::*;
use vstd::utf8::{encode_utf8, is_ascii_chars, is_ascii_chars_encode_utf8};

verus! {

/// Why a text is not the hexadecimal form of a byte string.
#[derive(Clone, Copy, Debug, PartialEq, Eq)]
pub enum HexError {
    /// The byte `c` at position `index` is no hexadecimal digit.
    InvalidHexCharacter { c: char, index: usize },
    /// The text has an odd number of digits.
    OddLength,
    /// The text does not fill a container of fixed size.
    InvalidStringLength,
    /// The text is too short to hold the two-byte prefix.
    MissingPrefix,
}

/// The sixteen lowercase hexadecimal digits, in order of value.
pub open spec fn hex_digits() -> Seq<char> {
    seq!['0', '1', '2', '3', '4', '5', '6', '7', '8', '9', 'a', 'b', 'c', 'd', 'e', 'f']
}

/// The lowercase hexadecimal text of a byte string: two digits for each byte,
/// the high half first.
pub open spec fn hex_text(bytes: Seq<u8>) -> Seq<char> {
    Seq::new(
        2 * bytes.len(),
        |i: int|
            if i % 2 == 0 {
                hex_digits()[bytes[i / 2] as int / 16]
            } else {
                hex_digits()[bytes[i / 2] as int % 16]
            },
    )
}

/// The value of a hexadecimal digit given as an ASCII byte, in either case.
pub open spec fn hex_value(c: u8) -> Option<int> {
    if 0x30 <= c <= 0x39 {
        Some(c - 0x30)
    } else if 0x61 <= c <= 0x66 {
        Some(c - 0x61 + 10)
    } else if 0x41 <= c <= 0x46 {
        Some(c - 0x41 + 10)
    } else {
        None
    }
}

/// Whether `text` is an even number of hexadecimal digits.
pub open spec fn is_hex_text(text: Seq<u8>) -> bool {
    &&& text.len() % 2 == 0
    &&& forall|i: int| 0 <= i < text.len() ==> (#[trigger] hex_value(text[i])) is Some
}

/// The bytes that an even number of hexadecimal digits stands for.
pub open spec fn hex_bytes(text: Seq<u8>) -> Seq<u8> {
    Seq::new(
        text.len() / 2,
        |i: int| (hex_value(text[2 * i])->0 * 16 + hex_value(text[2 * i + 1])->0) as u8,
    )
}

/// What decoding `text` gives: the bytes where it is hexadecimal text, the odd
/// length where it has one, and otherwise the first byte that is no digit.
pub open spec fn hex_decoding(text: Seq<u8>, outcome: Result<Seq<u8>, HexError>) -> bool {
    match outcome {
        Ok(bytes) => is_hex_text(text) && bytes == hex_bytes(text),
        Err(HexError::OddLength) => text.len() % 2 != 0,
        Err(HexError::InvalidHexCharacter { c, index }) => {
            &&& text.len() % 2 == 0
            &&& index < text.len()
            &&& hex_value(text[index as int]) is None
            &&& c == text[index as int] as char
            &&& forall|j: int| 0 <= j < index ==> (#[trigger] hex_value(text[j])) is Some
        },
        Err(_) => false,
    }
}

/// The least position from `from` on that holds no digit, or the length.
pub open spec fn first_invalid(text: Seq<u8>, from: int) -> int
    decreases text.len() - from,
{
    if from < 0 || from >= text.len() {
        text.len() as int
    } else if hex_value(text[from]) is None {
        from
    } else {
        first_invalid(text, from + 1)
    }
}

/// The decoding of `text`.
pub open spec fn hex_decoded(text: Seq<u8>) -> Result<Seq<u8>, HexError> {
    let at = first_invalid(text, 0);
    if text.len() % 2 != 0 {
        Err(HexError::OddLength)
    } else if at < text.len() {
        Err(HexError::InvalidHexCharacter { c: text[at] as char, index: at as usize })
    } else {
        Ok(hex_bytes(text))
    }
}

/// The outcome of a decoding, with the bytes as a sequence.
pub open spec fn decoded_view(outcome: Result<Vec<u8>, HexError>) -> Result<Seq<u8>, HexError> {
    match outcome {
        Ok(bytes) => Ok(bytes@),
        Err(e) => Err(e),
    }
}

/// What reading a prefixed text gives: the decoding of what follows its first
/// two bytes, which are not looked at.
pub open spec fn prefixed_decoded(text: Seq<u8>) -> Result<Seq<u8>, HexError> {
    if text.len() < 2 {
        Err(HexError::MissingPrefix)
    } else {
        hex_decoded(text.skip(2))
    }
}

/// `hex::encode`: the text has two lowercase digits for each byte, the high
/// half first, taken from the crate's table `0123456789abcdef`.
#[verifier::external_body]
fn encode_hex(bytes: &[u8]) -> (text: String)
    ensures
        text@ == hex_text(bytes@),
{
    hex::encode(bytes)
}

/// `hex::decode`: an odd length is refused first; then the digits are read in
/// order, in either case, and the first byte that is none is reported with its
/// position; otherwise each pair of digits gives one byte.
#[verifier::external_body]
fn decode_hex(text: &[u8]) -> (outcome: Result<Vec<u8>, HexError>)
    ensures
        hex_decoding(text@, decoded_view(outcome)),
{
    match hex::decode(text) {
        Ok(bytes) => Ok(bytes),
        Err(FromHexError::InvalidHexCharacter { c, index }) => Err(
            HexError::InvalidHexCharacter { c, index },
        ),
        Err(FromHexError::OddLength) => Err(HexError::OddLength),
        Err(FromHexError::InvalidStringLength) => Err(HexError::InvalidStringLength),
    }
}

/// Decodes hexadecimal text, given as ASCII bytes, into the bytes that it
/// stands for.
pub fn decode(text: &[u8]) -> (outcome: Result<Vec<u8>, HexError>)
    ensures
        decoded_view(outcome) == hex_decoded(text@),
{
    let outcome = decode_hex(text);
    proof {
        broadcast use vstd::slice::axiom_spec_len;

        assert(text@.len() == vstd::slice::spec_slice_len(text));
        lemma_hex_decoded(text@);
        lemma_hex_decoding_unique(text@, decoded_view(outcome), hex_decoded(text@));
    }
    outcome
}

/// Encodes bytes as hexadecimal text in lower case.
pub fn encode(bytes: &[u8]) -> (text: String)
    ensures
        text@ == hex_text(bytes@),
{
    encode_hex(bytes)
}

/// The text form of a binary value: `0x` and then its hexadecimal digits.
pub fn serialize(value: &[u8]) -> (text: String)
    ensures
        text@ == seq!['0', 'x'] + hex_text(value@),
{
    let digits = encode_hex(value);
    let mut text = String::from_str("0x");
    proof {
        reveal_strlit("0x");
        assert(text@ =~= seq!['0', 'x']);
    }
    text.append(digits.as_str());
    text
}

/// Reads a binary value back from its text form. The first two bytes of the
/// text are dropped unread; the rest must be hexadecimal digits.
pub fn deserialize(text: &str) -> (outcome: Result<Vec<u8>, HexError>)
    ensures
        decoded_view(outcome) == prefixed_decoded(text.spec_bytes()),
{
    let bytes = text.as_bytes();
    if bytes.len() < 2 {
        return Err(HexError::MissingPrefix);
    }
    let digits = slice_subrange(bytes, 2, bytes.len());
    assert(digits@ =~= text.spec_bytes().skip(2));
    decode(digits)
}

/// A text has one decoding only.
pub proof fn lemma_hex_decoding_unique(
    text: Seq<u8>,
    a: Result<Seq<u8>, HexError>,
    b: Result<Seq<u8>, HexError>,
)
    requires
        hex_decoding(text, a),
        hex_decoding(text, b),
    ensures
        a == b,
{
    match (a, b) {
        (
            Err(HexError::InvalidHexCharacter { c: c1, index: i1 }),
            Err(HexError::InvalidHexCharacter { c: c2, index: i2 }),
        ) => {
            if i1 < i2 {
                assert(hex_value(text[i1 as int]) is Some);
            }
            if i2 < i1 {
                assert(hex_value(text[i2 as int]) is Some);
            }
        },
        (Ok(_), Err(HexError::InvalidHexCharacter { c, index })) => {
            assert(hex_value(text[index as int]) is Some);
        },
        (Err(HexError::InvalidHexCharacter { c, index }), Ok(_)) => {
            assert(hex_value(text[index as int]) is Some);
        },
        _ => {},
    }
}

/// Decoding undoes encoding: the text of a byte string is plain ASCII, and
/// its bytes decode to the byte string.
pub proof fn lemma_hex_round_trip(bytes: Seq<u8>)
    ensures
        is_ascii_chars(hex_text(bytes)),
        hex_decoded(encode_utf8(hex_text(bytes))) == Ok::<Seq<u8>, HexError>(bytes),
{
    let text = hex_text(bytes);
    assert forall|i: int| 0 <= i < text.len() implies '\0' <= #[trigger] text[i] <= '\u{7f}' by {
        let v = if i % 2 == 0 {
            bytes[i / 2] as int / 16
        } else {
            bytes[i / 2] as int % 16
        };
        assert(0 <= v < 16);
        assert(text[i] == hex_digits()[v]);
    }
    is_ascii_chars_encode_utf8(text);
    let ascii = encode_utf8(text);
    assert forall|i: int| 0 <= i < ascii.len() implies (#[trigger] hex_value(ascii[i])) == Some(
        if i % 2 == 0 {
            bytes[i / 2] as int / 16
        } else {
            bytes[i / 2] as int % 16
        },
    ) by {
        let v = if i % 2 == 0 {
            bytes[i / 2] as int / 16
        } else {
            bytes[i / 2] as int % 16
        };
        assert(0 <= v < 16);
        assert(text[i] == hex_digits()[v]);
        assert(ascii[i] == text[i] as u8);
    }
    assert(is_hex_text(ascii));
    assert(hex_bytes(ascii) =~= bytes) by {
        assert forall|k: int| 0 <= k < bytes.len() implies hex_bytes(ascii)[k] == bytes[k] by {
            assert(hex_value(ascii[2 * k]) == Some(bytes[k] as int / 16));
            assert(hex_value(ascii[2 * k + 1]) == Some(bytes[k] as int % 16));
        }
    }
    lemma_first_invalid(ascii, 0);
}

/// The decoding of a text is a decoding of it.
pub proof fn lemma_hex_decoded(text: Seq<u8>)
    requires
        text.len() <= usize::MAX,
    ensures
        hex_decoding(text, hex_decoded(text)),
{
    lemma_first_invalid(text, 0);
}

/// Every position before the first invalid one holds a digit, and that one
/// holds none.
proof fn lemma_first_invalid(text: Seq<u8>, from: int)
    requires
        0 <= from <= text.len(),
    ensures
        from <= first_invalid(text, from) <= text.len(),
        forall|j: int|
            from <= j < first_invalid(text, from) ==> (#[trigger] hex_value(text[j])) is Some,
        first_invalid(text, from) < text.len() ==> hex_value(text[first_invalid(text, from)])
            is None,
    decreases text.len() - from,
{
    if from < text.len() && hex_value(text[from]) is Some {
        lemma_first_invalid(text, from + 1);
    }
}

} // verus!
