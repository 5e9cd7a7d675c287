use vstd::prelude::*;
use vstd::string::*;
use crate::specifier::Specifier;
use crate::text_scan::{
    after_first, before_first, chars_of, ends_with, find_first, find_last, has_prefix, has_suffix,
    last_at, lemma_first_at_bounds, lemma_last_at_bounds, starts_with, str_eq, trim, trim_str,
};

verus! {

/// The language or format of a source file.
#[derive(Debug, Clone, Copy, PartialEq, Eq, Structural)]
pub enum MediaType {
    JavaScript,
    JSX,
    TypeScript,
    /// A TypeScript declaration file (`.d.ts`).
    Dts,
    TSX,
    Json,
    Wasm,
    Unknown,
}

/// The last segment of a path: what follows its last `/`.
pub open spec fn last_segment(path: Seq<char>) -> Seq<char> {
    path.skip(last_at(path, '/') + 1)
}

/// The extension of a path: what follows the last `.` of its last segment, where that `.`
/// does not begin the segment.
pub open spec fn path_extension(path: Seq<char>) -> Option<Seq<char>> {
    let seg = last_segment(path);
    if last_at(seg, '.') > 0 {
        Some(seg.skip(last_at(seg, '.') + 1))
    } else {
        None
    }
}

/// The last segment of a path without its extension.
pub open spec fn path_stem(path: Seq<char>) -> Seq<char> {
    let seg = last_segment(path);
    if last_at(seg, '.') > 0 {
        seg.take(last_at(seg, '.'))
    } else {
        seg
    }
}

/// A `ts` file whose stem ends in `.d` is a declaration file.
pub open spec fn is_declaration_path(path: Seq<char>) -> bool {
    has_suffix(path_stem(path), ".d"@)
}

/// The media type that a path's extension gives.
pub open spec fn path_media_type(path: Seq<char>) -> MediaType {
    match path_extension(path) {
        None => MediaType::Unknown,
        Some(e) => if e == "ts"@ {
            if is_declaration_path(path) {
                MediaType::Dts
            } else {
                MediaType::TypeScript
            }
        } else if e == "tsx"@ {
            MediaType::TSX
        } else if e == "js"@ || e == "mjs"@ || e == "cjs"@ {
            MediaType::JavaScript
        } else if e == "jsx"@ {
            MediaType::JSX
        } else if e == "json"@ {
            MediaType::Json
        } else if e == "wasm"@ {
            MediaType::Wasm
        } else {
            MediaType::Unknown
        },
    }
}

/// A media type that a content type gave, refined by the path's extension: `jsx` and `tsx`
/// always win; `ts` makes a declaration file of TypeScript whose stem ends in `.d`.
pub open spec fn js_like_media_type(path: Seq<char>, default: MediaType) -> MediaType {
    match path_extension(path) {
        None => default,
        Some(e) => if e == "jsx"@ {
            MediaType::JSX
        } else if e == "tsx"@ {
            MediaType::TSX
        } else if e == "ts"@ && default == MediaType::TypeScript && is_declaration_path(path) {
            MediaType::Dts
        } else {
            default
        },
    }
}

pub open spec fn is_typescript_mime(m: Seq<char>) -> bool {
    m == "application/typescript"@ || m == "text/typescript"@ || m == "video/vnd.dlna.mpeg-tts"@
        || m == "video/mp2t"@ || m == "application/x-typescript"@
}

pub open spec fn is_javascript_mime(m: Seq<char>) -> bool {
    m == "application/javascript"@ || m == "text/javascript"@ || m == "application/ecmascript"@
        || m == "text/ecmascript"@ || m == "application/x-javascript"@ || m == "application/node"@
}

/// The media type of a (lower-cased, trimmed) MIME type, for a file at `path`.
pub open spec fn mime_media_type(m: Seq<char>, path: Seq<char>) -> MediaType {
    if is_typescript_mime(m) {
        js_like_media_type(path, MediaType::TypeScript)
    } else if is_javascript_mime(m) {
        js_like_media_type(path, MediaType::JavaScript)
    } else if m == "application/json"@ || m == "text/json"@ {
        MediaType::Json
    } else if m == "application/wasm"@ {
        MediaType::Wasm
    } else if m == "text/plain"@ || m == "application/octet-stream"@ {
        path_media_type(path)
    } else {
        MediaType::Unknown
    }
}

/// The first `;`-separated parameter of `rest` that, trimmed, begins with `charset=`,
/// without that prefix.
pub open spec fn charset_param(rest: Seq<char>) -> Option<Seq<char>>
    decreases rest.len(),
    via charset_param_decreases
{
    let seg = trim(before_first(rest, ';'));
    if has_prefix(seg, "charset="@) {
        Some(seg.skip("charset="@.len() as int))
    } else {
        match after_first(rest, ';') {
            Some(more) => charset_param(more),
            None => None,
        }
    }
}

#[via_fn]
proof fn charset_param_decreases(rest: Seq<char>) {
    lemma_first_at_bounds(rest, ';');
}

/// The lower-case form of `s`, as `str::to_lowercase` gives it.
pub uninterp spec fn lowercase_of(s: Seq<char>) -> Seq<char>;

/// Relies on `str::to_lowercase`; its result depends on the characters alone.
#[verifier::external_body]
fn to_lowercase(s: &str) -> (r: String)
    ensures
        r@ == lowercase_of(s@),
{
    s.to_lowercase()
}

/// The MIME type that a content-type header names: its first `;`-separated part, trimmed
/// and lower-cased.
pub open spec fn header_mime(ct: Seq<char>) -> Seq<char> {
    lowercase_of(trim(before_first(ct, ';')))
}

/// The charset that a content-type header declares.
pub open spec fn header_charset(ct: Seq<char>) -> Option<Seq<char>> {
    match after_first(ct, ';') {
        Some(rest) => charset_param(rest),
        None => None,
    }
}

/// The media type and charset of a file at `path` served with the content type `ct`.
pub open spec fn content_media_type(path: Seq<char>, ct: Option<Seq<char>>) -> (
    MediaType,
    Option<Seq<char>>,
) {
    match ct {
        None => (path_media_type(path), None),
        Some(c) => (mime_media_type(header_mime(c), path), header_charset(c)),
    }
}

pub open spec fn opt_view(o: Option<String>) -> Option<Seq<char>> {
    match o {
        Some(s) => Some(s@),
        None => None,
    }
}

/// The stem and extension of `path`, when it has an extension.
fn split_extension(path: &str) -> (r: Option<(&str, &str)>)
    ensures
        r matches Some((stem, ext)) ==> path_extension(path@) == Some(ext@) && path_stem(path@)
            == stem@,
        r is None ==> path_extension(path@) is None,
{
    let v = chars_of(path);
    let start: usize = match find_last(&v, '/') {
        Some(i) => i + 1,
        None => 0,
    };
    proof {
        lemma_last_at_bounds(path@, '/');
    }
    let seg = path.substring_char(start, v.len());
    assert(seg@ =~= last_segment(path@));
    let sv = chars_of(seg);
    match find_last(&sv, '.') {
        Some(d) => {
            if d > 0 {
                let stem = seg.substring_char(0, d);
                let ext = seg.substring_char(d + 1, sv.len());
                assert(ext@ =~= seg@.skip(d + 1));
                assert(stem@ =~= seg@.take(d as int));
                Some((stem, ext))
            } else {
                None
            }
        },
        None => None,
    }
}

/// The media type that the extension of `path` gives.
pub fn media_type_from_path(path: &str) -> (r: MediaType)
    ensures
        r == path_media_type(path@),
{
    match split_extension(path) {
        None => MediaType::Unknown,
        Some((stem, ext)) => {
            if str_eq(ext, "ts") {
                if ends_with(stem, ".d") {
                    MediaType::Dts
                } else {
                    MediaType::TypeScript
                }
            } else if str_eq(ext, "tsx") {
                MediaType::TSX
            } else if str_eq(ext, "js") || str_eq(ext, "mjs") || str_eq(ext, "cjs") {
                MediaType::JavaScript
            } else if str_eq(ext, "jsx") {
                MediaType::JSX
            } else if str_eq(ext, "json") {
                MediaType::Json
            } else if str_eq(ext, "wasm") {
                MediaType::Wasm
            } else {
                MediaType::Unknown
            }
        },
    }
}

/// Refines a media type that a content type gave by the extension of `path`.
pub fn map_js_like_extension(path: &str, default: MediaType) -> (r: MediaType)
    ensures
        r == js_like_media_type(path@, default),
{
    match split_extension(path) {
        None => default,
        Some((stem, ext)) => {
            if str_eq(ext, "jsx") {
                MediaType::JSX
            } else if str_eq(ext, "tsx") {
                MediaType::TSX
            } else if str_eq(ext, "ts") && default == MediaType::TypeScript && ends_with(
                stem,
                ".d",
            ) {
                MediaType::Dts
            } else {
                default
            }
        },
    }
}

/// The media type of a lower-cased, trimmed MIME type, for a file at `path`.
pub fn media_type_of_mime(mime: &str, path: &str) -> (r: MediaType)
    ensures
        r == mime_media_type(mime@, path@),
{
    if str_eq(mime, "application/typescript") || str_eq(mime, "text/typescript") || str_eq(
        mime,
        "video/vnd.dlna.mpeg-tts",
    ) || str_eq(mime, "video/mp2t") || str_eq(mime, "application/x-typescript") {
        map_js_like_extension(path, MediaType::TypeScript)
    } else if str_eq(mime, "application/javascript") || str_eq(mime, "text/javascript")
        || str_eq(mime, "application/ecmascript") || str_eq(mime, "text/ecmascript") || str_eq(
        mime,
        "application/x-javascript",
    ) || str_eq(mime, "application/node") {
        map_js_like_extension(path, MediaType::JavaScript)
    } else if str_eq(mime, "application/json") || str_eq(mime, "text/json") {
        MediaType::Json
    } else if str_eq(mime, "application/wasm") {
        MediaType::Wasm
    } else if str_eq(mime, "text/plain") || str_eq(mime, "application/octet-stream") {
        media_type_from_path(path)
    } else {
        MediaType::Unknown
    }
}

/// The charset declared among the `;`-separated parameters of `rest`.
pub fn find_charset(rest: &str) -> (r: Option<String>)
    ensures
        opt_view(r) == charset_param(rest@),
{
    let prefix = "charset=";
    let plen = prefix.unicode_len();
    let mut cur: &str = rest;
    loop
        invariant
            charset_param(cur@) == charset_param(rest@),
            plen == prefix@.len(),
            prefix@ == "charset="@,
        decreases cur@.len(),
    {
        let v = chars_of(cur);
        let k = find_first(&v, ';');
        proof {
            lemma_first_at_bounds(cur@, ';');
        }
        let seg = trim_str(cur.substring_char(0, k));
        assert(cur@.subrange(0, k as int) =~= before_first(cur@, ';'));
        if starts_with(seg, prefix) {
            let n = seg.unicode_len();
            return Some(seg.substring_char(plen, n).to_owned());
        }
        if k < v.len() {
            let next = cur.substring_char(k + 1, v.len());
            assert(next@ =~= cur@.skip(k + 1));
            cur = next;
        } else {
            return None;
        }
    }
}

/// The media type and declared charset of a file at `path` served with the content type
/// `maybe_content_type`.
pub fn map_content_type_of_path(path: &str, maybe_content_type: Option<String>) -> (r: (
    MediaType,
    Option<String>,
))
    ensures
        (r.0, opt_view(r.1)) == content_media_type(path@, opt_view(maybe_content_type)),
{
    match maybe_content_type {
        None => (media_type_from_path(path), None),
        Some(ct) => {
            let c = ct.as_str();
            let v = chars_of(c);
            let semi = find_first(&v, ';');
            proof {
                lemma_first_at_bounds(c@, ';');
            }
            let first = c.substring_char(0, semi);
            assert(first@ =~= before_first(c@, ';'));
            let lowered = to_lowercase(trim_str(first));
            let kind = media_type_of_mime(lowered.as_str(), path);
            let charset = if semi < v.len() {
                let rest = c.substring_char(semi + 1, v.len());
                assert(rest@ =~= c@.skip(semi + 1));
                find_charset(rest)
            } else {
                None
            };
            (kind, charset)
        },
    }
}

/// The media type and declared charset of `specifier` served with the content type
/// `maybe_content_type`; with none, the path's extension decides.
pub fn map_content_type(specifier: &Specifier, maybe_content_type: Option<String>) -> (r: (
    MediaType,
    Option<String>,
))
    ensures
        (r.0, opt_view(r.1)) == content_media_type(specifier.path@, opt_view(maybe_content_type)),
{
    map_content_type_of_path(specifier.path.as_str(), maybe_content_type)
}

impl MediaType {
    /// The media type that the extension of the specifier's path gives.
    pub fn from_specifier(specifier: &Specifier) -> (r: MediaType)
        ensures
            r == path_media_type(specifier.path@),
    {
        media_type_from_path(specifier.path.as_str())
    }
}

} // verus!
