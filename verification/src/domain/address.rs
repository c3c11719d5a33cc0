//! Chain addresses and their textual form.

use crate::error::{BlockchainServiceError, ServiceFault};
use vstd::prelude::*;
use vstd::string::*;

verus! {

/// The number of bytes in an address.
pub const ADDRESS_BYTES: usize = 20;

/// The number of characters in the canonical text of an address: the prefix
/// `0x` and two hexadecimal digits for each byte.
pub const ADDRESS_TEXT_LEN: usize = 42;

/// Whether a character is a hexadecimal digit, in either case.
pub open spec fn is_hex_digit(c: char) -> bool {
    ('0' <= c && c <= '9') || ('a' <= c && c <= 'f') || ('A' <= c && c <= 'F')
}

/// The number that a hexadecimal digit stands for; zero for any other
/// character.
pub open spec fn hex_value(c: char) -> nat {
    if '0' <= c && c <= '9' {
        (c as nat - '0' as nat) as nat
    } else if 'a' <= c && c <= 'f' {
        (c as nat - 'a' as nat + 10) as nat
    } else if 'A' <= c && c <= 'F' {
        (c as nat - 'A' as nat + 10) as nat
    } else {
        0
    }
}

/// Whether a text is the canonical form of an address: `0x` followed by
/// exactly forty hexadecimal digits.
pub open spec fn is_canonical_address(text: Seq<char>) -> bool {
    &&& text.len() == ADDRESS_TEXT_LEN
    &&& text[0] == '0'
    &&& text[1] == 'x'
    &&& forall|i: int| 2 <= i < text.len() ==> is_hex_digit(#[trigger] text[i])
}

/// The byte that two hexadecimal digits stand for, the first one the high
/// half.
pub open spec fn hex_pair(high: char, low: char) -> u8 {
    (16 * hex_value(high) + hex_value(low)) as u8
}

/// The twenty bytes that a canonical address text stands for.
pub open spec fn address_bytes(text: Seq<char>) -> Seq<u8> {
    Seq::new(ADDRESS_BYTES as nat, |i: int| hex_pair(text[2 + 2 * i], text[3 + 2 * i]))
}

/// The characters that the hexadecimal parser passes over.
pub open spec fn is_passed_over(c: char) -> bool {
    c == ' ' || c == '\r' || c == '\n' || c == '\t'
}

/// A text without the prefix `0x`, where it has one.
pub open spec fn without_prefix(text: Seq<char>) -> Seq<char> {
    if text.len() >= 2 && text[0] == '0' && text[1] == 'x' {
        text.skip(2)
    } else {
        text
    }
}

/// What the hexadecimal parser reads of a text: what follows the prefix,
/// less the characters it passes over.
pub open spec fn parser_payload(text: Seq<char>) -> Seq<char> {
    without_prefix(text).filter(|c: char| !is_passed_over(c))
}

/// The texts that the hexadecimal parser takes for an address: those whose
/// payload is exactly forty hexadecimal digits.
pub open spec fn parser_accepts(text: Seq<char>) -> bool {
    &&& parser_payload(text).len() == 2 * ADDRESS_BYTES
    &&& forall|i: int|
        0 <= i < parser_payload(text).len() ==> is_hex_digit(#[trigger] parser_payload(text)[i])
}

/// The bytes that the hexadecimal parser reads from a text it accepts.
pub open spec fn parser_bytes(text: Seq<char>) -> Seq<u8> {
    Seq::new(
        ADDRESS_BYTES as nat,
        |i: int| hex_pair(parser_payload(text)[2 * i], parser_payload(text)[2 * i + 1]),
    )
}

/// What the hexadecimal parser says of a text that it rejects.
pub uninterp spec fn parser_diagnostic(text: Seq<char>) -> Seq<char>;

/// The diagnostic that goes with a rejected address: the parser's, where the
/// parser rejected the text itself.
pub open spec fn rejection_diagnostic(text: Seq<char>) -> Option<Seq<char>> {
    if parser_accepts(text) {
        None
    } else {
        Some(parser_diagnostic(text))
    }
}

/// Parses a text with the `FromStr` of `ethers::types::Address`, reached
/// through `str::parse`. That parser drops one leading `0x`, passes over
/// spaces, tabs, carriage returns and line feeds, and succeeds exactly when
/// what is left is forty hexadecimal digits; each pair of digits is then one
/// byte, the first digit its high half. On failure the error comes back in
/// its `Debug` form, which depends on the text alone.
#[verifier::external_body]
fn ethers_parse_address(raw: &str) -> (r: Result<[u8; 20], String>)
    ensures
        r is Ok <==> parser_accepts(raw@),
        r matches Ok(bytes) ==> bytes@ == parser_bytes(raw@),
        r matches Err(diagnostic) ==> diagnostic@ == parser_diagnostic(raw@),
{
    match raw.parse::<ethers::types::Address>() {
        Ok(address) => Ok(address.0),
        Err(e) => Err(format!("{:?}", e)),
    }
}

/// A validated chain address: twenty bytes.
#[derive(Debug, Clone, Copy, PartialEq, Eq)]
pub struct Address {
    pub bytes: [u8; 20],
}

impl View for Address {
    type V = Seq<u8>;

    open spec fn view(&self) -> Seq<u8> {
        self.bytes@
    }
}

/// Whether a character is a hexadecimal digit.
fn hex_digit(c: char) -> (b: bool)
    ensures
        b == is_hex_digit(c),
{
    ('0' <= c && c <= '9') || ('a' <= c && c <= 'f') || ('A' <= c && c <= 'F')
}

/// Whether a text is `0x` followed by forty hexadecimal digits.
fn has_canonical_form(raw: &str) -> (b: bool)
    ensures
        b == is_canonical_address(raw@),
{
    if raw.unicode_len() != ADDRESS_TEXT_LEN {
        return false;
    }
    if raw.get_char(0) != '0' || raw.get_char(1) != 'x' {
        return false;
    }
    let mut i: usize = 2;
    while i < ADDRESS_TEXT_LEN
        invariant
            2 <= i <= ADDRESS_TEXT_LEN,
            raw@.len() == ADDRESS_TEXT_LEN,
            forall|j: int| 2 <= j < i ==> is_hex_digit(#[trigger] raw@[j]),
        decreases ADDRESS_TEXT_LEN - i,
    {
        if !hex_digit(raw.get_char(i)) {
            return false;
        }
        i = i + 1;
    }
    true
}

impl Address {
    /// Validates a text as a chain address. It is one when it has the
    /// canonical form, `0x` and forty hexadecimal digits of either case, and
    /// then stands for the twenty bytes that the digits spell. Any other text
    /// is rejected with the text itself and, where the parser gave one, the
    /// parser's diagnostic.
    pub fn validate(raw: &str) -> (r: Result<Address, BlockchainServiceError>)
        ensures
            is_canonical_address(raw@) ==> (r matches Ok(address) && address@ == address_bytes(
                raw@,
            )),
            !is_canonical_address(raw@) ==> (r matches Err(e) && e@
                == ServiceFault::InvalidAddress {
                raw: raw@,
                diagnostic: rejection_diagnostic(raw@),
            }),
    {
        let canonical = has_canonical_form(raw);
        proof {
            if canonical {
                lemma_canonical_is_accepted(raw@);
            }
        }
        match ethers_parse_address(raw) {
            Ok(bytes) => {
                if canonical {
                    Ok(Address { bytes })
                } else {
                    Err(
                        BlockchainServiceError::InvalidAddress {
                            raw: String::from_str(raw),
                            diagnostic: None,
                        },
                    )
                }
            },
            Err(diagnostic) => Err(
                BlockchainServiceError::InvalidAddress {
                    raw: String::from_str(raw),
                    diagnostic: Some(diagnostic),
                },
            ),
        }
    }
}

/// Filtering keeps a text whose every character passes.
proof fn lemma_filter_keeps_all(text: Seq<char>, pred: spec_fn(char) -> bool)
    requires
        forall|i: int| 0 <= i < text.len() ==> pred(#[trigger] text[i]),
    ensures
        text.filter(pred) =~= text,
    decreases text.len(),
{
    reveal(Seq::filter);
    if text.len() > 0 {
        lemma_filter_keeps_all(text.drop_last(), pred);
    }
}

/// The parser accepts every canonical address text, and reads from it the
/// bytes that its digits spell.
pub proof fn lemma_canonical_is_accepted(text: Seq<char>)
    requires
        is_canonical_address(text),
    ensures
        parser_accepts(text),
        parser_bytes(text) =~= address_bytes(text),
{
    let digits = text.skip(2);
    let pred = |c: char| !is_passed_over(c);
    assert forall|i: int| 0 <= i < digits.len() implies pred(#[trigger] digits[i]) by {
        assert(is_hex_digit(text[i + 2]));
    }
    lemma_filter_keeps_all(digits, pred);
    assert(parser_payload(text) =~= digits);
    assert forall|i: int| 0 <= i < digits.len() implies is_hex_digit(#[trigger] digits[i]) by {
        assert(is_hex_digit(text[i + 2]));
    }
}

} // verus!
