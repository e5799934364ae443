//! Calls into outside crates and into std functions that vstd does not specify.
use base64::Engine;
use vstd::prelude::*;

verus! {

/// What `regex::Regex::new` reports for `pattern`: `None` when it compiles,
/// otherwise the error's display text.
pub uninterp spec fn regex_parse_error(pattern: Seq<char>) -> Option<Seq<char>>;

/// Whether the compiled `pattern` matches somewhere in `text` (`regex::Regex::is_match`).
pub uninterp spec fn regex_is_match(pattern: Seq<char>, text: Seq<char>) -> bool;

/// What `base64::engine::general_purpose::STANDARD.decode` gives for the bytes of
/// `encoded`: the decoded bytes, or `None` when the input is not valid base64.
pub uninterp spec fn base64_standard_decode(encoded: Seq<char>) -> Option<Seq<u8>>;

/// Compiles `pattern` with `regex::Regex::new`. The contract claims only that the
/// outcome is a function of the pattern: `None` when it compiles, else the error text.
#[verifier::external_body]
pub(crate) fn regex_error(pattern: &str) -> (r: Option<String>)
    ensures
        match r {
            None => regex_parse_error(pattern@) is None,
            Some(m) => regex_parse_error(pattern@) == Some(m@),
        },
{
    match regex::Regex::new(pattern) {
        Ok(_) => None,
        Err(e) => Some(e.to_string()),
    }
}

/// Compiles `pattern` (known to compile) with `regex::Regex::new` and tests it against
/// `text` with `Regex::is_match`. The contract claims only that the answer is a
/// function of the pattern and the text.
#[verifier::external_body]
pub(crate) fn regex_matches(pattern: &str, text: &str) -> (r: bool)
    requires
        regex_parse_error(pattern@) is None,
    ensures
        r == regex_is_match(pattern@, text@),
{
    match regex::Regex::new(pattern) {
        Ok(re) => re.is_match(text),
        Err(_) => false,
    }
}

/// Decodes `encoded` with the standard base64 engine of the `base64` crate
/// (`Engine::decode`). The contract claims only that the outcome is a function of
/// the input.
#[verifier::external_body]
pub(crate) fn base64_decode(encoded: &str) -> (r: Option<Vec<u8>>)
    ensures
        match r {
            None => base64_standard_decode(encoded@) is None,
            Some(b) => base64_standard_decode(encoded@) == Some(b@),
        },
{
    base64::engine::general_purpose::STANDARD.decode(encoded).ok()
}

/// `String::from_utf8`: succeeds exactly on valid UTF-8, with the decoded characters.
#[verifier::external_body]
pub(crate) fn utf8_string(bytes: Vec<u8>) -> (r: Option<String>)
    ensures
        r is Some <==> vstd::utf8::valid_utf8(bytes@),
        r matches Some(s) ==> s@ == vstd::utf8::decode_utf8(bytes@),
{
    String::from_utf8(bytes).ok()
}

/// Whether byte `b` is an ASCII letter or digit.
pub open spec fn is_ascii_alphanumeric(b: u8) -> bool {
    (0x30 <= b <= 0x39) || (0x41 <= b <= 0x5A) || (0x61 <= b <= 0x7A)
}

/// Upper-case hexadecimal digit for `d < 16`.
pub open spec fn hex_digit(d: u8) -> char {
    if d < 10 {
        (d + 0x30) as char
    } else {
        (d - 10 + 0x41) as char
    }
}

/// Percent-encoding of bytes with the `NON_ALPHANUMERIC` set: ASCII letters and
/// digits stay, every other byte becomes `%` and two upper-case hex digits.
pub open spec fn percent_encoded_bytes(bytes: Seq<u8>) -> Seq<char>
    decreases bytes.len(),
{
    if bytes.len() == 0 {
        Seq::empty()
    } else {
        let b = bytes[0];
        let head = if is_ascii_alphanumeric(b) {
            seq![b as char]
        } else {
            seq!['%', hex_digit(b / 16), hex_digit(b % 16)]
        };
        head + percent_encoded_bytes(bytes.skip(1))
    }
}

/// `percent_encoding::utf8_percent_encode(s, NON_ALPHANUMERIC).to_string()`: every
/// byte of the UTF-8 encoding of `s` that is not an ASCII letter or digit becomes
/// `%XX` with upper-case hex digits.
#[verifier::external_body]
pub(crate) fn percent_encode_non_alphanumeric(s: &str) -> (r: String)
    ensures
        r@ == percent_encoded_bytes(vstd::utf8::encode_utf8(s@)),
{
    percent_encoding::utf8_percent_encode(s, percent_encoding::NON_ALPHANUMERIC).to_string()
}

} // verus!
