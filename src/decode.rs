use vstd::prelude::*;
use vstd::string::*;
use crate::text_scan::{after_first, chars_of, find_first, lemma_first_at_bounds};

verus! {

/// Why bytes could not be turned into source text.
#[derive(Debug, Clone, Copy, PartialEq, Eq, Structural)]
pub enum DecodeError {
    /// The charset label names no encoding that is known.
    UnsupportedCharset,
    /// The bytes are not valid in the charset.
    InvalidData,
}

/// Whether a charset label names a known encoding.
pub uninterp spec fn charset_known(label: Seq<char>) -> bool;

/// The text that `bytes` decode to in the encoding `label` names, kept byte order mark
/// included; `None` when the bytes are malformed for it.
pub uninterp spec fn decoded_text(bytes: Seq<u8>, label: Seq<char>) -> Option<Seq<char>>;

/// Relies on `encoding_rs::Encoding::for_label` to look up the encoding of a charset
/// label, and on `Encoding::decode_without_bom_handling_and_without_replacement` to decode
/// the bytes strictly with it.
#[verifier::external_body]
fn decode_with_label(bytes: &[u8], label: &str) -> (r: Result<String, DecodeError>)
    ensures
        match r {
            Ok(s) => charset_known(label@) && decoded_text(bytes@, label@) == Some(s@),
            Err(DecodeError::UnsupportedCharset) => !charset_known(label@),
            Err(DecodeError::InvalidData) => charset_known(label@) && decoded_text(
                bytes@,
                label@,
            ) is None,
        },
{
    match encoding_rs::Encoding::for_label(label.as_bytes()) {
        None => Err(DecodeError::UnsupportedCharset),
        Some(encoding) => match encoding.decode_without_bom_handling_and_without_replacement(
            bytes,
        ) {
            None => Err(DecodeError::InvalidData),
            Some(text) => Ok(text.into_owned()),
        },
    }
}

/// Decoding with a given charset label.
pub open spec fn decode_as(bytes: Seq<u8>, label: Seq<char>) -> Result<Seq<char>, DecodeError> {
    if !charset_known(label) {
        Err(DecodeError::UnsupportedCharset)
    } else {
        match decoded_text(bytes, label) {
            Some(t) => Ok(t),
            None => Err(DecodeError::InvalidData),
        }
    }
}

/// The charset that a leading byte order mark announces; UTF-8 when there is none.
pub open spec fn detected_charset(bytes: Seq<u8>) -> Seq<char> {
    if bytes.len() >= 2 && bytes[0] == 0xffu8 && bytes[1] == 0xfeu8 {
        "utf-16le"@
    } else if bytes.len() >= 2 && bytes[0] == 0xfeu8 && bytes[1] == 0xffu8 {
        "utf-16be"@
    } else {
        "utf-8"@
    }
}

/// The source text of `bytes`: decoded with the declared charset, or with the one that
/// the byte order mark gives when none is declared.
pub open spec fn source_of(bytes: Seq<u8>, charset: Option<Seq<char>>) -> Result<
    Seq<char>,
    DecodeError,
> {
    match charset {
        Some(label) => decode_as(bytes, label),
        None => decode_as(bytes, detected_charset(bytes)),
    }
}

pub open spec fn text_result(r: Result<String, DecodeError>) -> Result<Seq<char>, DecodeError> {
    match r {
        Ok(s) => Ok(s@),
        Err(e) => Err(e),
    }
}

/// `s` without a leading interpreter line: a text that begins with `#!` loses everything
/// up to and including its first newline, or all of it when it has none.
pub open spec fn shebang_stripped(s: Seq<char>) -> Seq<char> {
    if s.len() >= 2 && s[0] == '#' && s[1] == '!' {
        match after_first(s, '\n') {
            Some(rest) => rest,
            None => Seq::empty(),
        }
    } else {
        s
    }
}

/// The charset that a leading byte order mark announces; "utf-8" when there is none.
pub fn detect_charset(bytes: &[u8]) -> (r: String)
    ensures
        r@ == detected_charset(bytes@),
{
    if bytes.len() >= 2 && bytes[0] == 0xffu8 && bytes[1] == 0xfeu8 {
        "utf-16le".to_owned()
    } else if bytes.len() >= 2 && bytes[0] == 0xfeu8 && bytes[1] == 0xffu8 {
        "utf-16be".to_owned()
    } else {
        "utf-8".to_owned()
    }
}

/// Decodes `bytes` into text, with the declared charset if there is one and else with
/// the charset of the byte order mark (UTF-8 without one).
pub fn get_source_from_bytes(bytes: Vec<u8>, maybe_charset: Option<String>) -> (r: Result<
    String,
    DecodeError,
>)
    ensures
        text_result(r) == source_of(
            bytes@,
            match maybe_charset {
                Some(c) => Some(c@),
                None => None,
            },
        ),
{
    match maybe_charset {
        Some(charset) => decode_with_label(bytes.as_slice(), charset.as_str()),
        None => {
            let charset = detect_charset(bytes.as_slice());
            decode_with_label(bytes.as_slice(), charset.as_str())
        },
    }
}

/// Removes a leading interpreter line (`#!...`) up to and including its newline.
pub fn strip_shebang(value: String) -> (r: String)
    ensures
        r@ == shebang_stripped(value@),
{
    let v = chars_of(value.as_str());
    if v.len() >= 2 && v[0] == '#' && v[1] == '!' {
        let mid = find_first(&v, '\n');
        proof {
            lemma_first_at_bounds(value@, '\n');
        }
        if mid < v.len() {
            value.as_str().substring_char(mid + 1, v.len()).to_owned()
        } else {
            String::new()
        }
    } else {
        value
    }
}

/// Text whose byte order mark announces UTF-16LE decodes the same with no declared
/// charset as with "utf-16le" declared.
pub proof fn lemma_utf16le_bom_detected(bytes: Seq<u8>)
    requires
        bytes.len() >= 2,
        bytes[0] == 0xffu8,
        bytes[1] == 0xfeu8,
    ensures
        source_of(bytes, None) == source_of(bytes, Some("utf-16le"@)),
{
}

} // verus!
