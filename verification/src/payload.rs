//! Payload interpretation: a raw hexadecimal payload is classified by its leading
//! four-byte selector and turned into text that a person can read.

use vstd::prelude::*;
use vstd::string::*;
use vstd::slice::*;
use vstd::utf8::*;
use ethers_core::utils::ConversionError;
use crate::hex::{
    decode_hex, hex_bytes, lemma_normalized_hex_even, normalize_hex, normalized_hex,
};
use crate::style::{Connector, Line, Tint};

verus! {

/// The error of `parse_bytes32_string`; carried through, never inspected.
#[verifier::external_type_specification]
#[verifier::external_body]
pub struct ExConversionError(ConversionError);

/// Why a payload could not be turned into text.
#[derive(Clone, Copy, Debug, PartialEq, Eq, Structural)]
pub enum DecodeError {
    /// The payload is not an even number of hexadecimal digits.
    MalformedHex,
    /// The bytes behind the revert selector are not one ABI-encoded string.
    AbiDecodeMismatch,
    /// The fixed 32-byte string of a log is not UTF-8.
    InvalidFixedString,
}

/// What a decoder returns, with the text taken by its view.
pub open spec fn text_of(r: Result<String, DecodeError>) -> Result<Seq<char>, DecodeError> {
    match r {
        Ok(s) => Ok(s@),
        Err(e) => Err(e),
    }
}

/// What a line decoder returns, with the line taken by its view.
pub open spec fn line_of(r: Result<Line, DecodeError>) -> Result<Seq<(Seq<char>, Tint)>, DecodeError> {
    match r {
        Ok(l) => Ok(l@),
        Err(e) => Err(e),
    }
}

/// The selector of `Error(string)`, as hexadecimal text: `08c379a0`.
pub open spec fn revert_selector() -> Seq<u8> {
    seq!['0' as u8, '8' as u8, 'c' as u8, '3' as u8, '7' as u8, '9' as u8, 'a' as u8, '0' as u8]
}

/// The selector of a log that carries a string in one 32-byte word, as hexadecimal
/// text: `32d5ab96`.
pub open spec fn log_selector() -> Seq<u8> {
    seq!['3' as u8, '2' as u8, 'd' as u8, '5' as u8, 'a' as u8, 'b' as u8, '9' as u8, '6' as u8]
}

/// An ASCII capital as its small letter; any other byte unchanged.
pub open spec fn ascii_lower(b: u8) -> u8 {
    if 'A' as u8 <= b <= 'Z' as u8 {
        (b + 32) as u8
    } else {
        b
    }
}

/// `text` begins with `prefix`.
pub open spec fn has_prefix(text: Seq<u8>, prefix: Seq<u8>) -> bool {
    &&& prefix.len() <= text.len()
    &&& forall|i: int| 0 <= i < prefix.len() ==> text[i] == prefix[i]
}

/// `text` begins with `prefix` once its ASCII capitals are made small.
pub open spec fn has_prefix_lowered(text: Seq<u8>, prefix: Seq<u8>) -> bool {
    &&& prefix.len() <= text.len()
    &&& forall|i: int| 0 <= i < prefix.len() ==> ascii_lower(text[i]) == prefix[i]
}

/// The message shown for a revert that carries no `Error(string)`.
pub open spec fn test_failed() -> Seq<char> {
    "test failed"@
}

/// The string that `ethers_core::abi::decode` reads from `data` as a single dynamic
/// string parameter; `None` where the decoder rejects the data.
pub uninterp spec fn abi_string(data: Seq<u8>) -> Option<Seq<char>>;

/// Calls `ethers_core::abi::decode` with the one parameter type `String`. Trusted:
/// the outcome is a function of the data alone, here called [`abi_string`]. The
/// decoder adds offsets that it reads from 32-bit fields of the data to lengths in
/// `usize`; the sums cannot overflow where `usize` has 64 bits.
#[verifier::external_body]
fn abi_decode_string(data: &[u8]) -> (r: Option<String>)
    ensures
        match r {
            Some(s) => abi_string(data@) == Some(s@),
            None => abi_string(data@) is None,
        },
{
    match ethers_core::abi::decode(&[ethers_core::abi::ParamType::String], data) {
        Ok(mut tokens) => match tokens.pop() {
            Some(ethers_core::abi::Token::String(s)) => Some(s),
            _ => None,
        },
        Err(_) => None,
    }
}

/// The message of a revert payload given as the bytes of its hexadecimal text.
pub open spec fn revert_message(raw: Seq<u8>) -> Result<Seq<char>, DecodeError> {
    if !has_prefix_lowered(raw, revert_selector()) {
        Ok(test_failed())
    } else {
        match hex_bytes(raw) {
            None => Err(DecodeError::MalformedHex),
            Some(bytes) => revert_reason_of(abi_string(bytes.skip(4))),
        }
    }
}

/// What the decoded tail of an `Error(string)` payload amounts to.
pub open spec fn revert_reason_of(decoded: Option<Seq<char>>) -> Result<Seq<char>, DecodeError> {
    match decoded {
        Some(s) => Ok(s),
        None => Err(DecodeError::AbiDecodeMismatch),
    }
}

/// The reason of a revert from what the ABI decoder made of the payload's tail: the
/// string itself, or a mismatch where there was none.
pub fn revert_reason(decoded: Option<String>) -> (r: Result<String, DecodeError>)
    ensures
        text_of(r) == revert_reason_of(
            match decoded {
                Some(s) => Some(s@),
                None => None,
            },
        ),
{
    match decoded {
        Some(s) => Ok(s),
        None => Err(DecodeError::AbiDecodeMismatch),
    }
}

/// Whether `text` begins with the bytes of `selector`, with the ASCII capitals of
/// `text` made small first where `fold_case` is set.
fn begins_with(text: &[u8], selector: &[u8], fold_case: bool) -> (b: bool)
    ensures
        b == if fold_case {
            has_prefix_lowered(text@, selector@)
        } else {
            has_prefix(text@, selector@)
        },
{
    if text.len() < selector.len() {
        return false;
    }
    let mut i: usize = 0;
    while i < selector.len()
        invariant
            i <= selector.len() <= text.len(),
            forall|j: int|
                0 <= j < i ==> (if fold_case {
                    ascii_lower(text@[j])
                } else {
                    text@[j]
                }) == selector@[j],
        decreases selector.len() - i,
    {
        let b = text[i];
        let folded = if fold_case && 'A' as u8 <= b && b <= 'Z' as u8 {
            b + 32
        } else {
            b
        };
        if folded != selector[i] {
            return false;
        }
        i += 1;
    }
    true
}

/// Decodes the return data of a reverted call. Data that begins with the selector
/// `08c379a0` (in either case) is hex-decoded whole, and the bytes behind the selector
/// are read as one ABI-encoded string; any other data gives `"test failed"`.
pub fn decode_revert(raw_hex: &str) -> (r: Result<String, DecodeError>)
    ensures
        text_of(r) == revert_message(raw_hex.spec_bytes()),
{
    let raw = raw_hex.as_bytes();
    let selector = "08c379a0";
    proof {
        reveal_strlit("08c379a0");
        is_ascii_chars_encode_utf8(selector@);
        assert(selector.spec_bytes() =~= revert_selector());
    }
    if !begins_with(raw, selector.as_bytes(), true) {
        return Ok(String::from_str("test failed"));
    }
    match decode_hex(raw) {
        Err(_) => Err(DecodeError::MalformedHex),
        Ok(bytes) => {
            let tail = slice_subrange(bytes.as_slice(), 4, bytes.len());
            assert(tail@ =~= bytes@.skip(4));
            revert_reason(abi_decode_string(tail))
        },
    }
}

/// The 32-byte word that holds the first bytes of `data`, filled up with zeros.
pub open spec fn word_of(data: Seq<u8>) -> Seq<u8> {
    Seq::new(32, |i: int| if i < data.len() { data[i] } else { 0u8 })
}

/// The index of the first zero byte of `bytes`, its length where there is none.
pub open spec fn nul_index(bytes: Seq<u8>) -> int
    decreases bytes.len(),
{
    if bytes.len() == 0 || bytes[0] == 0 {
        0
    } else {
        1 + nul_index(bytes.drop_first())
    }
}

/// The string held in a word: the bytes before the first zero byte, read as UTF-8;
/// `None` where they are not UTF-8.
pub open spec fn fixed_text(word: Seq<u8>) -> Option<Seq<char>> {
    let bytes = word.take(nul_index(word));
    if valid_utf8(bytes) {
        Some(decode_utf8(bytes))
    } else {
        None
    }
}

/// Calls `ethers_core::utils::parse_bytes32_string`. Trusted: the call cuts the word
/// at its first zero byte and succeeds exactly where the bytes before it are valid
/// UTF-8, yielding the string that they encode.
#[verifier::external_body]
fn parse_fixed_string(word: &[u8; 32]) -> (r: Result<String, ConversionError>)
    ensures
        match r {
            Ok(s) => fixed_text(word@) == Some(s@),
            Err(_) => fixed_text(word@) is None,
        },
{
    match ethers_core::utils::parse_bytes32_string(word) {
        Ok(s) => Ok(s.to_string()),
        Err(e) => Err(e),
    }
}

/// Copies at most 32 bytes of `data` into a zeroed word.
pub fn fixed_word(data: &[u8]) -> (word: [u8; 32])
    ensures
        word@ == word_of(data@),
{
    let mut word = [0u8; 32];
    let mut i: usize = 0;
    while i < 32 && i < data.len()
        invariant
            i <= 32,
            i <= data.len(),
            forall|j: int| 0 <= j < i ==> word@[j] == data@[j],
            forall|j: int| i <= j < 32 ==> word@[j] == 0,
        decreases 32 - i,
    {
        word[i] = data[i];
        i += 1;
    }
    assert(word@ =~= word_of(data@));
    word
}

/// The connector in front of a line of text: a corner where the line closes its
/// record, a branch where more follows.
pub open spec fn text_connector(is_last: bool) -> Connector {
    if is_last {
        Connector::Corner
    } else {
        Connector::Branch
    }
}

/// The connector in front of a log entry shown as raw hexadecimal: a corner where the
/// entry closes its record, a rail where more follows.
pub open spec fn hex_connector(is_last: bool) -> Connector {
    if is_last {
        Connector::Corner
    } else {
        Connector::Rail
    }
}

/// The connector in front of a line of text, by whether the line closes its record.
pub fn pick_text_connector(is_last: bool) -> (c: Connector)
    ensures
        c == text_connector(is_last),
{
    if is_last {
        Connector::Corner
    } else {
        Connector::Branch
    }
}

/// The connector in front of raw hexadecimal, by whether the line closes its record.
pub fn pick_hex_connector(is_last: bool) -> (c: Connector)
    ensures
        c == hex_connector(is_last),
{
    if is_last {
        Connector::Corner
    } else {
        Connector::Rail
    }
}

/// The line shown for one log entry. An entry that begins with the selector
/// `32d5ab96` carries a string in a 32-byte word, shown in cyan behind a connector;
/// any other entry is shown as normalised hexadecimal behind `0x`.
pub open spec fn log_entry_line(raw: Seq<char>, is_last: bool) -> Result<
    Seq<(Seq<char>, Tint)>,
    DecodeError,
> {
    let bytes = encode_utf8(raw);
    if has_prefix(bytes, log_selector()) {
        match hex_bytes(bytes.skip(8)) {
            None => Err(DecodeError::MalformedHex),
            Some(data) => match fixed_text(word_of(data)) {
                None => Err(DecodeError::InvalidFixedString),
                Some(text) => Ok(
                    seq![
                        (text_connector(is_last).glyph() + seq![' '], Tint::Plain),
                        (text, Tint::Cyan),
                    ],
                ),
            },
        }
    } else {
        Ok(
            seq![
                (
                    hex_connector(is_last).glyph() + seq![' ', '0', 'x'] + normalized_hex(raw),
                    Tint::Plain,
                ),
            ],
        )
    }
}

/// Decodes one log entry for display. `position` is the entry's place among the logs
/// of its record and `is_last` says whether it closes them; only `is_last` shows in
/// the line, through the connector.
pub fn decode_log_entry(raw_hex: &str, position: usize, is_last: bool) -> (r: Result<
    Line,
    DecodeError,
>)
    ensures
        line_of(r) == log_entry_line(raw_hex@, is_last),
{
    let raw = raw_hex.as_bytes();
    let selector = "32d5ab96";
    proof {
        reveal_strlit("32d5ab96");
        is_ascii_chars_encode_utf8(selector@);
        assert(selector.spec_bytes() =~= log_selector());
    }
    if begins_with(raw, selector.as_bytes(), false) {
        let rest = slice_subrange(raw, 8, raw.len());
        assert(rest@ =~= raw@.skip(8));
        match decode_hex(rest) {
            Err(_) => Err(DecodeError::MalformedHex),
            Ok(data) => {
                let word = fixed_word(data.as_slice());
                match parse_fixed_string(&word) {
                    Err(_) => Err(DecodeError::InvalidFixedString),
                    Ok(text) => {
                        let mut lead = String::new();
                        pick_text_connector(is_last).push_to(&mut lead);
                        lead.push(' ');
                        let mut line = Line::new();
                        line.push(lead, Tint::Plain);
                        line.push(text, Tint::Cyan);
                        assert(line@ =~~= log_entry_line(raw_hex@, is_last).unwrap());
                        Ok(line)
                    },
                }
            },
        }
    } else {
        let mut shown = String::new();
        pick_hex_connector(is_last).push_to(&mut shown);
        shown.push(' ');
        shown.push('0');
        shown.push('x');
        let digits = normalize_hex(raw_hex);
        shown.append(digits.as_str());
        let mut line = Line::new();
        line.push(shown, Tint::Plain);
        assert(line@ =~~= log_entry_line(raw_hex@, is_last).unwrap());
        Ok(line)
    }
}

/// A log entry without the string selector is shown as hexadecimal, whatever it
/// holds: one plain span of connector, `0x` and digits, and the digits take an even
/// number of bytes.
pub proof fn lemma_raw_entry_is_even_hex(raw: Seq<char>, is_last: bool)
    requires
        !has_prefix(encode_utf8(raw), log_selector()),
    ensures
        log_entry_line(raw, is_last) == Ok::<Seq<(Seq<char>, Tint)>, DecodeError>(
            seq![
                (
                    hex_connector(is_last).glyph() + seq![' ', '0', 'x'] + normalized_hex(raw),
                    Tint::Plain,
                ),
            ],
        ),
        encode_utf8(normalized_hex(raw)).len() % 2 == 0,
        normalized_hex(raw).len() > 0,
{
    lemma_normalized_hex_even(raw);
}

} // verus!
