use vstd::prelude::*;
use vstd::string::*;

verus! {

/// An ASCII hexadecimal digit, in either case.
pub open spec fn is_hex_digit(b: u8) -> bool {
    (0x30 <= b && b <= 0x39) || (0x61 <= b && b <= 0x66) || (0x41 <= b && b <= 0x46)
}

/// The value of a hexadecimal digit.
pub open spec fn hex_value(b: u8) -> int {
    if b <= 0x39 {
        b - 0x30
    } else if b >= 0x61 {
        b - 0x61 + 10
    } else {
        b - 0x41 + 10
    }
}

pub open spec fn all_hex(s: Seq<u8>) -> bool {
    forall|i: int| 0 <= i < s.len() ==> is_hex_digit(#[trigger] s[i])
}

/// The bytes spelled by pairs of hexadecimal digits, high digit first.
pub open spec fn hex_decode(s: Seq<u8>) -> Seq<u8> {
    Seq::new((s.len() / 2) as nat, |i: int| (hex_value(s[2 * i]) * 16 + hex_value(s[2 * i + 1])) as u8)
}

/// What decoding a whole hexadecimal text gives: nothing unless its length
/// is even and every byte of it is a digit.
pub open spec fn hex_decoded(s: Seq<u8>) -> Option<Seq<u8>> {
    if s.len() % 2 == 0 && all_hex(s) {
        Some(hex_decode(s))
    } else {
        None
    }
}

/// The lowercase digit for a value below sixteen.
pub open spec fn hex_char(n: int) -> char {
    if n < 10 {
        (n + 0x30) as char
    } else {
        (n - 10 + 0x61) as char
    }
}

/// Lowercase hexadecimal text of a byte string, two digits per byte.
pub open spec fn hex_text(b: Seq<u8>) -> Seq<char> {
    Seq::new(
        2 * b.len(),
        |i: int|
            if i % 2 == 0 {
                hex_char(b[i / 2] as int / 16)
            } else {
                hex_char(b[i / 2] as int % 16)
            },
    )
}

/// `0x` followed by the lowercase hexadecimal text of `b`.
pub open spec fn prefixed_hex(b: Seq<u8>) -> Seq<char> {
    seq!['0', 'x'] + hex_text(b)
}

/// The text with one leading `0x` removed, if it has one.
pub open spec fn strip_0x(s: Seq<u8>) -> Seq<u8> {
    if s.len() >= 2 && s[0] == 0x30 && s[1] == 0x78 {
        s.subrange(2, s.len() as int)
    } else {
        s
    }
}

/// Space, tab, carriage return or line feed.
pub open spec fn is_blank(b: u8) -> bool {
    b == 0x20 || b == 0x09 || b == 0x0d || b == 0x0a
}

/// How a twenty-byte address is read from text: an optional leading `0x`,
/// then exactly forty hexadecimal digits, blanks between them ignored.
pub open spec fn address_parse(s: Seq<u8>) -> Option<Seq<u8>> {
    let d = strip_0x(s).filter(|b: u8| !is_blank(b));
    if d.len() == 40 && all_hex(d) {
        Some(hex_decode(d))
    } else {
        None
    }
}

/// What `str::to_lowercase` gives for a text.
pub uninterp spec fn lower_of(s: Seq<char>) -> Seq<char>;

/// Relies on `hex::decode`: `Ok` exactly when the length is even and every
/// byte is a hexadecimal digit, and then the bytes the digit pairs spell.
#[verifier::external_body]
pub(crate) fn decode_hex(b: &[u8]) -> (r: Option<Vec<u8>>)
    ensures
        match r {
            Some(v) => hex_decoded(b@) == Some(v@),
            None => hex_decoded(b@) is None,
        },
{
    hex::decode(b).ok()
}

/// Relies on `hex::encode`: lowercase digits, two per byte.
#[verifier::external_body]
pub(crate) fn encode_hex(b: &[u8]) -> (r: String)
    ensures
        r@ == hex_text(b@),
{
    hex::encode(b)
}

/// Relies on `FromStr` of `web3::types::Address` (fixed-hash's `H160`): it
/// drops one leading `0x`, decodes with rustc-hex, which skips blanks, and
/// fails unless exactly twenty bytes come out.
#[verifier::external_body]
pub(crate) fn parse_address_text(s: &str) -> (r: Option<[u8; 20]>)
    ensures
        match r {
            Some(a) => address_parse(s.spec_bytes()) == Some(a@),
            None => address_parse(s.spec_bytes()) is None,
        },
{
    <web3::types::Address as std::str::FromStr>::from_str(s).ok().map(|a| a.0)
}

/// Relies on `str::to_lowercase`: the result depends on the text alone.
#[verifier::external_body]
pub(crate) fn lowercase(s: &str) -> (r: String)
    ensures
        r@ == lower_of(s@),
{
    s.to_lowercase()
}

/// `0x` followed by the lowercase digits of `b`.
pub fn prefixed_hex_text(b: &[u8]) -> (r: String)
    ensures
        r@ == prefixed_hex(b@),
{
    let digits = encode_hex(b);
    let prefix = String::from_str("0x");
    proof {
        reveal_strlit("0x");
    }
    let r = prefix.concat(digits.as_str());
    proof {
        assert(r@ =~= prefixed_hex(b@));
    }
    r
}

} // verus!
