//! Correlation identifiers: the UUIDs that the service and its clients put
//! into the headers `X-Server-Id` and `X-Customer-Id`.
//!
//! An identifier is held as the 128-bit number it stands for. Its text form
//! is written and read by the `uuid` crate, and the value of a header is
//! turned into text by the `http` crate as `reqwest` hands it on; this
//! module says what those calls give and proves from it that an identifier
//! which was written into a header is read back unchanged.

use reqwest::header::HeaderValue;
use uuid::Uuid;
use vstd::arithmetic::div_mod::lemma_breakdown;
use vstd::prelude::*;

use crate::error::HeaderFault;

verus! {

/// A 128-bit identifier of a backend or of a customer.
#[derive(Clone, Copy, Debug, PartialEq, Eq, Structural)]
pub struct CorrelationId(pub u128);

/// What a hexadecimal digit, in either case, stands for.
pub open spec fn hex_digit(c: char) -> Option<nat> {
    if '0' <= c <= '9' {
        Some((c as u32 - '0' as u32) as nat)
    } else if 'a' <= c <= 'f' {
        Some((c as u32 - 'a' as u32 + 10) as nat)
    } else if 'A' <= c <= 'F' {
        Some((c as u32 - 'A' as u32 + 10) as nat)
    } else {
        None
    }
}

/// The lower-case hexadecimal digit that writes `d`.
pub open spec fn hex_char(d: nat) -> char
    recommends
        d < 16,
{
    if d < 10 {
        ((d + 48) as u8) as char
    } else {
        ((d + 87) as u8) as char
    }
}

/// Whether every character of `s` is a hexadecimal digit.
pub open spec fn is_hex(s: Seq<char>) -> bool {
    forall|i: int| 0 <= i < s.len() ==> hex_digit(#[trigger] s[i]) is Some
}

/// The number that the hexadecimal digits of `s` write, most significant
/// digit first.
pub open spec fn hex_value(s: Seq<char>) -> nat
    decreases s.len(),
{
    if s.len() == 0 {
        0
    } else {
        hex_value(s.drop_last()) * 16 + match hex_digit(s.last()) {
            Some(d) => d,
            None => 0,
        }
    }
}

/// The last `n` hexadecimal digits of `v`, in lower case, most significant
/// digit first.
pub open spec fn hex_text(v: nat, n: nat) -> Seq<char>
    decreases n,
{
    if n == 0 {
        Seq::empty()
    } else {
        hex_text(v / 16, (n - 1) as nat).push(hex_char(v % 16))
    }
}

/// The hyphenated form of an identifier: its 32 lower-case hexadecimal
/// digits in groups of 8, 4, 4, 4 and 12, with a hyphen between the groups.
pub open spec fn hyphenated(id: u128) -> Seq<char> {
    let h = hex_text(id as nat, 32);
    h.subrange(0, 8) + seq!['-'] + h.subrange(8, 12) + seq!['-'] + h.subrange(12, 16) + seq!['-']
        + h.subrange(16, 20) + seq!['-'] + h.subrange(20, 32)
}

/// The 32 characters of a 36-character text that stand between and around
/// the places of the four hyphens.
pub open spec fn without_hyphens(s: Seq<char>) -> Seq<char> {
    s.subrange(0, 8) + s.subrange(9, 13) + s.subrange(14, 18) + s.subrange(19, 23) + s.subrange(
        24,
        36,
    )
}

/// 32 hexadecimal digits.
pub open spec fn is_simple(s: Seq<char>) -> bool {
    s.len() == 32 && is_hex(s)
}

/// 32 hexadecimal digits in groups of 8, 4, 4, 4 and 12 with a hyphen between
/// the groups.
pub open spec fn is_hyphenated(s: Seq<char>) -> bool {
    &&& s.len() == 36
    &&& s[8] == '-'
    &&& s[13] == '-'
    &&& s[18] == '-'
    &&& s[23] == '-'
    &&& is_hex(without_hyphens(s))
}

/// The hyphenated form between braces.
pub open spec fn is_braced(s: Seq<char>) -> bool {
    s.len() == 38 && s[0] == '{' && s[37] == '}' && is_hyphenated(s.subrange(1, 37))
}

/// The hyphenated form behind `urn:uuid:`, the prefix in either case.
pub open spec fn is_urn(s: Seq<char>) -> bool {
    &&& s.len() == 45
    &&& (s[0] == 'u' || s[0] == 'U')
    &&& (s[1] == 'r' || s[1] == 'R')
    &&& (s[2] == 'n' || s[2] == 'N')
    &&& s[3] == ':'
    &&& (s[4] == 'u' || s[4] == 'U')
    &&& (s[5] == 'u' || s[5] == 'U')
    &&& (s[6] == 'i' || s[6] == 'I')
    &&& (s[7] == 'd' || s[7] == 'D')
    &&& s[8] == ':'
    &&& is_hyphenated(s.subrange(9, 45))
}

/// The identifier that a text stands for, in any of the four forms in which
/// a UUID is written: simple, hyphenated, braced, or as a URN.
pub open spec fn uuid_of_text(s: Seq<char>) -> Option<u128> {
    if is_simple(s) {
        Some(hex_value(s) as u128)
    } else if is_hyphenated(s) {
        Some(hex_value(without_hyphens(s)) as u128)
    } else if is_braced(s) {
        Some(hex_value(without_hyphens(s.subrange(1, 37))) as u128)
    } else if is_urn(s) {
        Some(hex_value(without_hyphens(s.subrange(9, 45))) as u128)
    } else {
        None
    }
}

/// Whether an identifier carries the marks of a random UUID: version 4 in
/// bits 76 to 79 and the variant of RFC 4122 in bits 62 and 63.
pub open spec fn is_random(id: u128) -> bool {
    id & 0xF000_C000_0000_0000_0000u128 == 0x4000_8000_0000_0000_0000u128
}

/// Whether a byte of a header value is a visible ASCII character: a space,
/// a printable character, or a tab.
pub open spec fn is_visible_ascii(b: u8) -> bool {
    32 <= b < 127 || b == 9
}

/// Whether a header value can be read as text.
pub open spec fn is_header_text(bytes: Seq<u8>) -> bool {
    forall|i: int| 0 <= i < bytes.len() ==> is_visible_ascii(#[trigger] bytes[i])
}

/// The text that ASCII bytes spell.
pub open spec fn ascii_text(bytes: Seq<u8>) -> Seq<char> {
    Seq::new(bytes.len(), |i: int| bytes[i] as char)
}

/// The bytes that spell an ASCII text.
pub open spec fn ascii_bytes(text: Seq<char>) -> Seq<u8> {
    Seq::new(text.len(), |i: int| text[i] as u8)
}

/// What the value of a correlation header stands for.
pub open spec fn header_id(bytes: Seq<u8>) -> Result<CorrelationId, HeaderFault> {
    if !is_header_text(bytes) {
        Err(HeaderFault::NotText)
    } else {
        match uuid_of_text(ascii_text(bytes)) {
            Some(id) => Ok(CorrelationId(id)),
            None => Err(HeaderFault::NotUuid),
        }
    }
}

/// 16 to the power of `n`.
pub open spec fn pow16(n: nat) -> nat
    decreases n,
{
    if n == 0 {
        1
    } else {
        16 * pow16((n - 1) as nat)
    }
}

/// `hex_text(v, n)` has `n` characters, all of them lower-case hexadecimal
/// digits, and writes `v` modulo 16 to the power of `n`.
pub proof fn lemma_hex_text(v: nat, n: nat)
    ensures
        hex_text(v, n).len() == n,
        is_hex(hex_text(v, n)),
        forall|i: int|
            0 <= i < n ==> ('0' <= #[trigger] hex_text(v, n)[i] <= '9' || 'a' <= hex_text(v, n)[i]
                <= 'f'),
        hex_value(hex_text(v, n)) == v % pow16(n),
    decreases n,
{
    if n == 0 {
    } else {
        let m = (n - 1) as nat;
        lemma_hex_text(v / 16, m);
        assert(hex_text(v, n).drop_last() =~= hex_text(v / 16, m));
        assert(pow16(m) > 0) by {
            lemma_pow16_positive(m);
        }
        lemma_breakdown(v as int, 16, pow16(m) as int);
    }
}

/// A power of 16 is positive.
pub proof fn lemma_pow16_positive(n: nat)
    ensures
        pow16(n) > 0,
    decreases n,
{
    if n > 0 {
        lemma_pow16_positive((n - 1) as nat);
    }
}

/// 16 to the power of 32 is 2 to the power of 128.
pub proof fn lemma_pow16_32()
    ensures
        pow16(32) == 0x1_0000_0000_0000_0000_0000_0000_0000_0000nat,
{
    reveal_with_fuel(pow16, 9);
    assert(pow16(8) == 0x1_0000_0000nat);
    assert(pow16(16) == 0x1_0000_0000_0000_0000nat);
    assert(pow16(24) == 0x1_0000_0000_0000_0000_0000_0000nat);
}

/// The hyphenated form of an identifier is a hyphenated UUID of lower-case
/// digits, and its digits are those of the identifier.
pub proof fn lemma_hyphenated(id: u128)
    ensures
        hyphenated(id).len() == 36,
        is_hyphenated(hyphenated(id)),
        without_hyphens(hyphenated(id)) == hex_text(id as nat, 32),
        forall|i: int|
            0 <= i < 36 ==> ('0' <= #[trigger] hyphenated(id)[i] <= '9' || 'a' <= hyphenated(id)[i]
                <= 'f' || hyphenated(id)[i] == '-'),
{
    lemma_hex_text(id as nat, 32);
}

/// Reading the hyphenated form of an identifier gives that identifier.
pub proof fn lemma_uuid_round_trip(id: u128)
    ensures
        uuid_of_text(hyphenated(id)) == Some(id),
{
    lemma_hex_text(id as nat, 32);
    lemma_hyphenated(id);
    lemma_pow16_32();
}

/// An identifier that is written into a header in its hyphenated form, and
/// comes back in a header byte for byte, is read as the same identifier.
pub proof fn lemma_header_round_trip(id: CorrelationId)
    ensures
        is_header_text(ascii_bytes(hyphenated(id.0))),
        ascii_text(ascii_bytes(hyphenated(id.0))) == hyphenated(id.0),
        header_id(ascii_bytes(hyphenated(id.0))) == Ok::<CorrelationId, HeaderFault>(id),
{
    let text = hyphenated(id.0);
    let bytes = ascii_bytes(text);
    lemma_hyphenated(id.0);
    lemma_uuid_round_trip(id.0);
    assert(ascii_text(bytes) =~= text);
}

/// Reads a UUID with `Uuid::parse_str` of the `uuid` crate and takes its
/// 128-bit value.
///
/// Trusted: the parser accepts exactly the four forms that `uuid_of_text`
/// names, with digits in either case, and the value is that of the 32 digits
/// read as one hexadecimal number.
#[verifier::external_body]
fn parse_uuid(text: &str) -> (id: Option<u128>)
    ensures
        id == uuid_of_text(text@),
{
    match Uuid::parse_str(text) {
        Ok(id) => Some(id.as_u128()),
        Err(_) => None,
    }
}

/// Writes a UUID as `Uuid` of the `uuid` crate displays it.
///
/// Trusted: the display form is the hyphenated one, in lower case.
#[verifier::external_body]
fn uuid_text(id: u128) -> (text: String)
    ensures
        text@ == hyphenated(id),
{
    Uuid::from_u128(id).to_string()
}

/// Draws a random UUID with `Uuid::new_v4` of the `uuid` crate.
///
/// Trusted: whatever the random bits are, the version and variant fields
/// are those of a random UUID. The call fails only where the operating
/// system cannot supply random bytes.
#[verifier::external_body]
fn random_uuid() -> (id: u128)
    ensures
        is_random(id),
{
    Uuid::new_v4().as_u128()
}

/// Reads the value of a header as text with `HeaderValue::to_str` of the
/// `http` crate, which `reqwest` hands on.
///
/// Trusted: the value is text exactly if each of its bytes is a visible
/// ASCII character, and the text then has those bytes as its characters.
#[verifier::external_body]
fn header_text(value: &[u8]) -> (text: Option<String>)
    ensures
        text is Some <==> is_header_text(value@),
        text matches Some(t) ==> t@ == ascii_text(value@),
{
    match HeaderValue::from_bytes(value) {
        Ok(header) => match header.to_str() {
            Ok(text) => Some(String::from(text)),
            Err(_) => None,
        },
        Err(_) => None,
    }
}

impl CorrelationId {
    /// Reads an identifier from text in any of the forms of a UUID.
    pub fn parse(text: &str) -> (id: Option<CorrelationId>)
        ensures
            id == match uuid_of_text(text@) {
                Some(v) => Some(CorrelationId(v)),
                None => None,
            },
    {
        match parse_uuid(text) {
            Some(v) => Some(CorrelationId(v)),
            None => None,
        }
    }

    /// Writes the identifier in the hyphenated form, which `parse` reads
    /// back as the same identifier.
    pub fn to_text(&self) -> (text: String)
        ensures
            text@ == hyphenated(self.0),
            uuid_of_text(text@) == Some(self.0),
    {
        proof {
            lemma_uuid_round_trip(self.0);
        }
        uuid_text(self.0)
    }

    /// A fresh random identifier.
    pub fn random() -> (id: CorrelationId)
        ensures
            is_random(id.0),
    {
        CorrelationId(random_uuid())
    }
}

/// Reads the identifier that the value of a correlation header holds.
pub fn uuid_from_header(value: &[u8]) -> (id: Result<CorrelationId, HeaderFault>)
    ensures
        id == header_id(value@),
{
    match header_text(value) {
        Some(text) => match CorrelationId::parse(text.as_str()) {
            Some(id) => Ok(id),
            None => Err(HeaderFault::NotUuid),
        },
        None => Err(HeaderFault::NotText),
    }
}

} // verus!
