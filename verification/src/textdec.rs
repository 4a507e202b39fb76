//! Decoding of an off-chain signing payload into displayable text.
//!
//! The payload arrives base64-encoded. When it decodes to valid text that
//! does not look like CJK script, that text is shown; in every other case
//! the original encoded string is shown verbatim, never an error.

use vstd::prelude::*;

use base64::Engine;

verus! {

/// What the base64 standard alphabet decodes `s` to, if `s` is valid.
pub uninterp spec fn base64_decoded(s: Seq<char>) -> Option<Seq<u8>>;

/// What `s` reads as UTF-8 text, if it is valid UTF-8.
pub uninterp spec fn utf8_decoded(b: Seq<u8>) -> Option<Seq<char>>;

/// Relies on base64's standard-alphabet engine decode: the result depends
/// on the input string alone.
#[verifier::external_body]
fn b64_decode(s: &str) -> (r: Option<Vec<u8>>)
    ensures
        match r {
            Some(b) => base64_decoded(s@) == Some(b@),
            None => base64_decoded(s@) is None,
        },
{
    base64::engine::general_purpose::STANDARD.decode(s).ok()
}

/// Relies on String::from_utf8: the result depends on the bytes alone.
#[verifier::external_body]
fn utf8_to_string(b: Vec<u8>) -> (r: Option<String>)
    ensures
        match r {
            Some(t) => utf8_decoded(b@) == Some(t@),
            None => utf8_decoded(b@) is None,
        },
{
    String::from_utf8(b).ok()
}

/// Whether `c` lies in one of the CJK script ranges (unified ideographs
/// and extension A, compatibility ideographs, kana, hangul syllables).
pub open spec fn char_is_cjk(c: char) -> bool {
    let u = c as u32;
    (0x4E00 <= u && u <= 0x9FFF) || (0x3400 <= u && u <= 0x4DBF) || (0xF900 <= u && u <= 0xFAFF)
        || (0x3040 <= u && u <= 0x30FF) || (0xAC00 <= u && u <= 0xD7AF)
}

pub open spec fn contains_cjk(s: Seq<char>) -> bool {
    exists|i: int| 0 <= i < s.len() && char_is_cjk(#[trigger] s[i])
}

/// Detects CJK script content in a string.
pub fn is_cjk(s: &str) -> (r: bool)
    ensures
        r == contains_cjk(s@),
{
    let n = s.unicode_len();
    let mut i: usize = 0;
    while i < n
        invariant
            n == s@.len(),
            0 <= i <= n,
            forall|j: int| 0 <= j < i ==> !char_is_cjk(#[trigger] s@[j]),
        decreases n - i,
    {
        let u = s.get_char(i) as u32;
        if (0x4E00 <= u && u <= 0x9FFF) || (0x3400 <= u && u <= 0x4DBF) || (0xF900 <= u && u
            <= 0xFAFF) || (0x3040 <= u && u <= 0x30FF) || (0xAC00 <= u && u <= 0xD7AF) {
            return true;
        }
        i += 1;
    }
    false
}

/// The text shown for an encoded signing payload `d`: its decoded text
/// when `d` is valid base64 of valid, non-CJK UTF-8; otherwise `d` itself.
pub open spec fn spec_sign_message(d: Seq<char>) -> Seq<char> {
    match base64_decoded(d) {
        Some(bytes) => match utf8_decoded(bytes) {
            Some(t) => if contains_cjk(t) {
                d
            } else {
                t
            },
            None => d,
        },
        None => d,
    }
}

/// Decodes a signing payload for display, falling back to the original
/// encoded string whenever decoding does not yield readable text.
pub fn decode_sign_message(data: &String) -> (r: String)
    ensures
        r@ == spec_sign_message(data@),
{
    match b64_decode(data.as_str()) {
        Some(bytes) => {
            match utf8_to_string(bytes) {
                Some(t) => {
                    if is_cjk(t.as_str()) {
                        data.clone()
                    } else {
                        t
                    }
                },
                None => data.clone(),
            }
        },
        None => data.clone(),
    }
}

} // verus!
