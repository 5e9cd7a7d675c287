use vstd::prelude::*;
use vstd::string::*;
use crate::text_scan::{has_prefix, starts_with, str_eq};

verus! {

/// A module specifier: an absolute URL, held as the parts of it that the fetcher reads.
/// Values come from `Specifier::parse` or `Specifier::resolve_import`.
#[derive(Debug, Clone)]
pub struct Specifier {
    /// The URL's serialization.
    pub href: String,
    /// The URL's scheme, without the colon.
    pub scheme: String,
    /// The URL's path.
    pub path: String,
    /// The file system path that the URL stands for, where it names one; the fetcher reads
    /// it for `file` URLs only.
    pub file_path: Option<String>,
}

/// The parts of a parsed URL: serialization, scheme, path and file system path.
pub type UrlParts = (Seq<char>, Seq<char>, Seq<char>, Option<Seq<char>>);

impl Specifier {
    pub open spec fn parts(&self) -> UrlParts {
        (
            self.href@,
            self.scheme@,
            self.path@,
            match self.file_path {
                Some(p) => Some(p@),
                None => None,
            },
        )
    }
}

pub open spec fn parts_of(r: Option<Specifier>) -> Option<UrlParts> {
    match r {
        Some(s) => Some(s.parts()),
        None => None,
    }
}

/// The parts of `s` parsed as an absolute URL, or `None` when it is not one.
pub uninterp spec fn parsed_url(s: Seq<char>) -> Option<UrlParts>;

/// The parts of `rel` resolved against the absolute URL `base`, or `None` when that fails.
pub uninterp spec fn joined_url(base: Seq<char>, rel: Seq<char>) -> Option<UrlParts>;

/// Relies on `url::Url::parse` to parse an absolute URL, and on its getters `as_str`,
/// `scheme`, `path` and `to_file_path` for the parts.
#[verifier::external_body]
fn parse_url(s: &str) -> (r: Option<Specifier>)
    ensures
        parts_of(r) == parsed_url(s@),
{
    match url::Url::parse(s) {
        Ok(u) => Some(Specifier {
            href: u.as_str().to_string(),
            scheme: u.scheme().to_string(),
            path: u.path().to_string(),
            file_path: u.to_file_path().ok().and_then(|p| p.to_str().map(String::from)),
        }),
        Err(_) => None,
    }
}

/// Relies on `url::Url::join` to resolve `rel` against `base` (parsed by `url::Url::parse`),
/// and on the same getters as `parse_url` for the parts.
#[verifier::external_body]
fn join_url(base: &str, rel: &str) -> (r: Option<Specifier>)
    ensures
        parts_of(r) == joined_url(base@, rel@),
{
    match url::Url::parse(base).and_then(|b| b.join(rel)) {
        Ok(u) => Some(Specifier {
            href: u.as_str().to_string(),
            scheme: u.scheme().to_string(),
            path: u.path().to_string(),
            file_path: u.to_file_path().ok().and_then(|p| p.to_str().map(String::from)),
        }),
        Err(_) => None,
    }
}

/// Whether `s` is written relative to another URL: it begins with `/`, `./` or `../`.
pub open spec fn is_relative_reference(s: Seq<char>) -> bool {
    has_prefix(s, "/"@) || has_prefix(s, "./"@) || has_prefix(s, "../"@)
}

/// What `Specifier::resolve_import(s, base)` yields.
pub open spec fn resolved_import(s: Seq<char>, base: Seq<char>) -> Option<UrlParts> {
    if is_relative_reference(s) {
        joined_url(base, s)
    } else {
        parsed_url(s)
    }
}

impl Specifier {
    /// Parses an absolute URL.
    pub fn parse(s: &str) -> (r: Option<Specifier>)
        ensures
            parts_of(r) == parsed_url(s@),
    {
        parse_url(s)
    }

    /// Resolves `s` against the URL `base` when it starts with `/`, `./` or `../`, and
    /// parses it as an absolute URL otherwise.
    pub fn resolve_import(s: &str, base: &str) -> (r: Option<Specifier>)
        ensures
            parts_of(r) == resolved_import(s@, base@),
    {
        if starts_with(s, "/") || starts_with(s, "./") || starts_with(s, "../") {
            join_url(base, s)
        } else {
            parse_url(s)
        }
    }

    /// The URL's serialization.
    pub fn as_str(&self) -> (r: &str)
        ensures
            r@ == self.href@,
    {
        self.href.as_str()
    }

    /// Whether two specifiers are the same URL.
    pub fn same_as(&self, other: &Specifier) -> (r: bool)
        ensures
            r == (self.href@ == other.href@),
    {
        str_eq(self.href.as_str(), other.href.as_str())
    }
}

} // verus!
