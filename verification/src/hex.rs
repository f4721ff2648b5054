//! Hexadecimal text: the bytes it stands for, and the even-length form in which a
//! digit string is displayed.

use vstd::prelude::*;
use vstd::string::*;
use vstd::utf8::*;
use ethers_core::utils::hex::FromHexError;

verus! {

/// The error of `hex::decode`; carried through, never inspected.
#[verifier::external_type_specification]
#[verifier::external_body]
pub struct ExFromHexError(FromHexError);

/// The value of one hexadecimal digit given as its ASCII byte, in either case.
pub open spec fn hex_digit(b: u8) -> Option<int> {
    if '0' as u8 <= b <= '9' as u8 {
        Some(b - '0' as u8)
    } else if 'a' as u8 <= b <= 'f' as u8 {
        Some(b - 'a' as u8 + 10)
    } else if 'A' as u8 <= b <= 'F' as u8 {
        Some(b - 'A' as u8 + 10)
    } else {
        None
    }
}

/// Text that decodes: an even number of bytes, each of them a hexadecimal digit.
pub open spec fn is_hex_text(text: Seq<u8>) -> bool {
    &&& text.len() % 2 == 0
    &&& forall|i: int| 0 <= i < text.len() ==> hex_digit(#[trigger] text[i]) is Some
}

/// The byte written by the `i`-th pair of digits of `text`.
pub open spec fn hex_pair(text: Seq<u8>, i: int) -> u8 {
    (16 * hex_digit(text[2 * i]).unwrap() + hex_digit(text[2 * i + 1]).unwrap()) as u8
}

/// The bytes that hexadecimal `text` stands for, `None` where it is malformed.
pub open spec fn hex_bytes(text: Seq<u8>) -> Option<Seq<u8>> {
    if is_hex_text(text) {
        Some(Seq::new(text.len() / 2, |i: int| hex_pair(text, i)))
    } else {
        None
    }
}

/// Calls `hex::decode` (as re-exported by `ethers_core::utils`). Trusted: the call
/// succeeds exactly on an even number of ASCII hex digits of either case, and then
/// yields one byte per pair of digits, the first digit of a pair being the high nibble.
#[verifier::external_body]
pub(crate) fn decode_hex(text: &[u8]) -> (r: Result<Vec<u8>, FromHexError>)
    ensures
        match r {
            Ok(bytes) => hex_bytes(text@) == Some(bytes@),
            Err(_) => hex_bytes(text@) is None,
        },
{
    ethers_core::utils::hex::decode(text)
}

/// `s` without its leading `'0'` characters.
pub open spec fn strip_zeros(s: Seq<char>) -> Seq<char>
    decreases s.len(),
{
    if s.len() > 0 && s[0] == '0' {
        strip_zeros(s.drop_first())
    } else {
        s
    }
}

/// `s` with one `'0'` in front where its UTF-8 length is odd, else `s` itself.
pub open spec fn even_padded(s: Seq<char>) -> Seq<char> {
    if encode_utf8(s).len() % 2 == 1 {
        seq!['0'] + s
    } else {
        s
    }
}

/// The display form of a raw digit string: leading zeros dropped, `"00"` where nothing
/// is left, and padded to even length.
pub open spec fn normalized_hex(s: Seq<char>) -> Seq<char> {
    let t = strip_zeros(s);
    if t.len() == 0 {
        seq!['0', '0']
    } else {
        even_padded(t)
    }
}

/// Pads an odd-length digit string with a leading zero.
pub fn format_even_bytes(hex: String) -> (r: String)
    ensures
        r@ == even_padded(hex@),
{
    if hex.as_str().as_bytes().len() % 2 == 1 {
        let mut r = String::new();
        r.push('0');
        r.append(hex.as_str());
        assert(r@ =~= seq!['0'] + hex@);
        r
    } else {
        hex
    }
}

/// Drops the leading `'0'` characters of `s`.
pub fn trim_leading_zeros(s: &str) -> (r: String)
    ensures
        r@ == strip_zeros(s@),
{
    let chars = crate::text::to_chars(s);
    let mut i: usize = 0;
    assert(chars@.skip(0) =~= chars@);
    while i < chars.len() && chars[i] == '0'
        invariant
            i <= chars.len(),
            strip_zeros(chars@) == strip_zeros(chars@.skip(i as int)),
        decreases chars.len() - i,
    {
        assert(chars@.skip(i as int).drop_first() =~= chars@.skip(i + 1));
        i += 1;
    }
    let mut r = String::new();
    let mut j: usize = i;
    while j < chars.len()
        invariant
            i <= j <= chars.len(),
            r@ == chars@.subrange(i as int, j as int),
        decreases chars.len() - j,
    {
        r.push(chars[j]);
        j += 1;
    }
    assert(chars@.subrange(i as int, chars.len() as int) =~= chars@.skip(i as int));
    r
}

/// The display form of a raw digit string (see [`normalized_hex`]).
pub fn normalize_hex(raw: &str) -> (r: String)
    ensures
        r@ == normalized_hex(raw@),
{
    let trimmed = trim_leading_zeros(raw);
    if trimmed.as_str().as_bytes().len() == 0 {
        proof {
            assert(encode_utf8(trimmed@).len() == 0);
            if trimmed@.len() > 0 {
                assert(encode_scalar(trimmed@[0] as u32).len() > 0);
            }
        }
        let mut r = String::new();
        r.push('0');
        r.push('0');
        assert(r@ =~= seq!['0', '0']);
        r
    } else {
        assert(trimmed@.len() != 0);
        format_even_bytes(trimmed)
    }
}

/// What is left of `s` behind its leading zeros is a tail of `s`, and does not begin
/// with a zero.
pub proof fn lemma_strip_zeros_is_tail(s: Seq<char>)
    ensures
        strip_zeros(s).len() <= s.len(),
        strip_zeros(s) == s.skip(s.len() - strip_zeros(s).len()),
        strip_zeros(s).len() > 0 ==> strip_zeros(s)[0] != '0',
        forall|i: int| 0 <= i < s.len() - strip_zeros(s).len() ==> s[i] == '0',
    decreases s.len(),
{
    if s.len() > 0 && s[0] == '0' {
        let rest = s.drop_first();
        lemma_strip_zeros_is_tail(rest);
        let k = rest.len() - strip_zeros(rest).len();
        assert(rest.skip(k) =~= s.skip(k + 1));
        assert forall|i: int| 0 <= i < s.len() - strip_zeros(s).len() implies s[i] == '0' by {
            if i > 0 {
                assert(s[i] == rest[i - 1]);
            }
        }
    } else {
        assert(s.skip(0) =~= s);
    }
}

/// One more `'0'` in front makes the UTF-8 text one byte longer.
pub proof fn lemma_zero_in_front(s: Seq<char>)
    ensures
        encode_utf8(seq!['0'] + s).len() == encode_utf8(s).len() + 1,
{
    let t = seq!['0'] + s;
    assert(t.drop_first() =~= s);
    assert(t[0] == '0');
    assert(has_width_1_encoding('0' as u32));
}

/// The display form of any digit string has an even number of bytes, and at least
/// two: an odd-length input is padded, never cut.
pub proof fn lemma_normalized_hex_even(s: Seq<char>)
    ensures
        encode_utf8(normalized_hex(s)).len() % 2 == 0,
        encode_utf8(normalized_hex(s)).len() >= 2,
        normalized_hex(s).len() > 0,
{
    let t = strip_zeros(s);
    if t.len() == 0 {
        lemma_zero_in_front(seq!['0']);
        lemma_zero_in_front(Seq::<char>::empty());
        assert(seq!['0'] + Seq::<char>::empty() =~= seq!['0']);
        assert(seq!['0'] + seq!['0'] =~= seq!['0', '0']);
        assert(encode_utf8(Seq::<char>::empty()).len() == 0);
    } else {
        lemma_zero_in_front(t);
        assert(encode_scalar(t[0] as u32).len() >= 1);
        assert(encode_utf8(t).len() >= 1);
    }
}

/// The display form of ASCII text, as hexadecimal digits are, has an even number of
/// characters.
pub proof fn lemma_normalized_ascii_even(s: Seq<char>)
    requires
        is_ascii_chars(s),
    ensures
        normalized_hex(s).len() % 2 == 0,
        is_ascii_chars(normalized_hex(s)),
{
    lemma_strip_zeros_is_tail(s);
    lemma_normalized_hex_even(s);
    let t = strip_zeros(s);
    assert(is_ascii_chars(t));
    assert(is_ascii_chars(seq!['0'] + t)) by {
        assert forall|i: int| 0 <= i < (seq!['0'] + t).len() implies '\0' <= #[trigger] (seq![
            '0',
        ] + t)[i] <= '\u{7f}' by {
            if i > 0 {
                assert((seq!['0'] + t)[i] == t[i - 1]);
            }
        }
    }
    assert(is_ascii_chars(seq!['0', '0']));
    is_ascii_chars_encode_utf8(normalized_hex(s));
}

/// A string of nothing but zeros, the empty one too, is displayed as `00`.
pub proof fn lemma_all_zeros_is_00(s: Seq<char>)
    requires
        forall|i: int| 0 <= i < s.len() ==> s[i] == '0',
    ensures
        normalized_hex(s) == seq!['0', '0'],
{
    lemma_strip_zeros_is_tail(s);
}

} // verus!
