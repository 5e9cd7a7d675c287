use vstd::prelude::*;
use vstd::string::*;
use crate::cache_setting::CacheSetting;
use crate::decode::{
    detect_charset, detected_charset, get_source_from_bytes, shebang_stripped, source_of,
    strip_shebang, DecodeError,
};
use crate::file::{opt_seq, File, FileCache, FileView};
use crate::media::{content_media_type, map_content_type, path_media_type, MediaType};
use crate::specifier::{resolved_import, Specifier, UrlParts};
use crate::text_scan::str_eq;

verus! {

/// The redirects that one fetch may follow.
pub const REDIRECT_LIMIT: i64 = 10;

/// Why a fetch failed.
#[derive(Debug)]
pub enum FetchError {
    /// The specifier's scheme is none of `file`, `http` and `https`.
    UnsupportedScheme { scheme: String, specifier: String },
    /// A `file` specifier names no file system path.
    InvalidLocalPath(String),
    /// The permission check refused the specifier.
    PermissionDenied(String),
    /// The specifier is remote and remote fetching is off.
    NoRemoteAccess(String),
    /// Cache-only mode, and the specifier is not cached.
    NotFoundInCache(String),
    /// More redirects than the budget allows.
    TooManyRedirects,
    /// The content is not text in its charset.
    Decode(DecodeError),
    /// A cached redirect record points nowhere valid.
    InvalidRedirect(String),
    /// Reading or writing the cache, the file system or the network failed.
    Io(String),
    /// An event came that the fetch was not waiting for.
    OutOfOrder,
}

/// Response headers, as name and value pairs.
pub type Headers = Vec<(String, String)>;

/// Headers as pairs of character sequences.
pub open spec fn headers_view(h: Seq<(String, String)>) -> Seq<(Seq<char>, Seq<char>)> {
    h.map_values(|p: (String, String)| (p.0@, p.1@))
}

/// The value of the first header called `name`.
pub open spec fn header_of(h: Seq<(Seq<char>, Seq<char>)>, name: Seq<char>) -> Option<Seq<char>>
    decreases h.len(),
{
    if h.len() == 0 {
        None
    } else if h[0].0 == name {
        Some(h[0].1)
    } else {
        header_of(h.drop_first(), name)
    }
}

/// The value of the first header called `name`.
pub fn get_header(h: &Headers, name: &str) -> (r: Option<String>)
    ensures
        opt_seq(r) == header_of(headers_view(h@), name@),
{
    let ghost hv = headers_view(h@);
    let mut i: usize = 0;
    assert(hv.skip(0) =~= hv);
    while i < h.len()
        invariant
            i <= h.len(),
            hv == headers_view(h@),
            header_of(hv, name@) == header_of(hv.skip(i as int), name@),
        decreases h.len() - i,
    {
        assert(hv.skip(i as int).drop_first() =~= hv.skip(i + 1));
        if str_eq(h[i].0.as_str(), name) {
            return Some(h[i].1.clone());
        }
        i = i + 1;
    }
    assert(hv.skip(i as int).len() == 0);
    None
}

/// The file that a remote response makes: classified by its `content-type` header, decoded
/// with the charset declared there, and carrying its `x-typescript-types` header.
pub open spec fn remote_file(
    specifier: UrlParts,
    local: Seq<char>,
    body: Seq<u8>,
    headers: Seq<(Seq<char>, Seq<char>)>,
) -> Result<FileView, DecodeError> {
    let (media_type, charset) = content_media_type(
        specifier.2,
        header_of(headers, "content-type"@),
    );
    match source_of(body, charset) {
        Ok(text) => Ok(
            FileView {
                local,
                maybe_types: header_of(headers, "x-typescript-types"@),
                media_type,
                source: shebang_stripped(text),
                specifier,
            },
        ),
        Err(e) => Err(e),
    }
}

/// The file that the bytes of a local file make: classified by its path, decoded with the
/// charset of its byte order mark.
pub open spec fn local_file(specifier: UrlParts, local: Seq<char>, body: Seq<u8>) -> Result<
    FileView,
    DecodeError,
> {
    match source_of(body, Some(detected_charset(body))) {
        Ok(text) => Ok(
            FileView {
                local,
                maybe_types: None,
                media_type: path_media_type(specifier.2),
                source: shebang_stripped(text),
                specifier,
            },
        ),
        Err(e) => Err(e),
    }
}

pub open spec fn file_result(r: Result<File, FetchError>, expected: Result<FileView, DecodeError>) -> bool {
    match expected {
        Ok(f) => r matches Ok(file) && file@ == f,
        Err(d) => r matches Err(FetchError::Decode(e)) && e == d,
    }
}

/// Builds the file of a remote response.
pub fn build_remote_file(specifier: &Specifier, local: String, bytes: Vec<u8>, headers: &Headers) -> (r:
    Result<File, FetchError>)
    ensures
        file_result(r, remote_file(specifier.parts(), local@, bytes@, headers_view(headers@))),
{
    let maybe_content_type = get_header(headers, "content-type");
    let (media_type, maybe_charset) = map_content_type(specifier, maybe_content_type);
    match get_source_from_bytes(bytes, maybe_charset) {
        Ok(text) => {
            let source = strip_shebang(text);
            let maybe_types = get_header(headers, "x-typescript-types");
            Ok(File { local, maybe_types, media_type, source, specifier: specifier.duplicate() })
        },
        Err(e) => Err(FetchError::Decode(e)),
    }
}

/// Builds the file of a local file's bytes.
pub fn build_local_file(specifier: &Specifier, local: String, bytes: Vec<u8>) -> (r: Result<
    File,
    FetchError,
>)
    ensures
        file_result(r, local_file(specifier.parts(), local@, bytes@)),
{
    let charset = detect_charset(bytes.as_slice());
    match get_source_from_bytes(bytes, Some(charset)) {
        Ok(text) => {
            let source = strip_shebang(text);
            let media_type = MediaType::from_specifier(specifier);
            Ok(File { local, maybe_types: None, media_type, source, specifier: specifier.duplicate() })
        },
        Err(e) => Err(FetchError::Decode(e)),
    }
}

/// Whether `scheme` is one of `file`, `http` and `https`.
pub open spec fn supported_scheme(scheme: Seq<char>) -> bool {
    scheme == "http"@ || scheme == "https"@ || scheme == "file"@
}

/// The scheme of `specifier`, when it is one that can be fetched.
pub fn get_validated_scheme(specifier: &Specifier) -> (r: Result<String, FetchError>)
    ensures
        r matches Ok(s) ==> supported_scheme(specifier.scheme@) && s@ == specifier.scheme@,
        r matches Err(e) ==> !supported_scheme(specifier.scheme@) && (e matches FetchError::UnsupportedScheme { scheme, specifier: h }
            && scheme@ == specifier.scheme@ && h@ == specifier.href@),
{
    let s = specifier.scheme.as_str();
    if str_eq(s, "http") || str_eq(s, "https") || str_eq(s, "file") {
        Ok(specifier.scheme.clone())
    } else {
        Err(
            FetchError::UnsupportedScheme {
                scheme: specifier.scheme.clone(),
                specifier: specifier.href.clone(),
            },
        )
    }
}

/// What the persistent cache held for a specifier.
pub enum CacheEntry {
    /// Nothing is stored for it.
    Missing,
    /// Reading the entry failed.
    Failed(String),
    /// The stored record: where its body is on disk, the body and the headers.
    Found { local: String, body: Vec<u8>, headers: Headers },
}

/// What one network request answered.
pub enum Response {
    /// The cached entry is still current.
    NotModified,
    /// A redirect to `target`.
    Redirect { target: Specifier, headers: Headers },
    /// Content.
    Content { body: Vec<u8>, headers: Headers },
    /// The request failed.
    Failed(String),
}

/// What the outside world reports back to a fetch.
pub enum Event {
    /// The result of a permission check.
    Permission(Result<(), String>),
    /// The bytes of a local file, or why reading failed.
    LocalRead(Result<Vec<u8>, String>),
    /// What the persistent cache held.
    CacheRead(CacheEntry),
    /// What the network answered.
    Response(Response),
    /// The result of a write to the persistent cache: where the body was stored.
    Written(Result<String, String>),
}

/// What a fetch asks of the outside world next.
pub enum Step {
    /// Check that the specifier may be loaded, and report `Event::Permission`.
    CheckPermission(Specifier),
    /// Read the file at the path, and report `Event::LocalRead`.
    ReadLocal(String),
    /// Read the persistent cache's entry for the specifier, and report `Event::CacheRead`.
    ReadCache(Specifier),
    /// Make one request, conditional on the entity tag if there is one, and report
    /// `Event::Response`.
    Request { specifier: Specifier, etag: Option<String> },
    /// Store the record (an empty body marks a redirect), and report `Event::Written`.
    WriteCache { specifier: Specifier, headers: Headers, body: Vec<u8> },
    /// The fetch is over.
    Done(Result<File, FetchError>),
}

/// Where a fetch stands.
pub enum Phase {
    /// Waiting for the permission check of the requested specifier.
    Admit,
    /// Waiting for the bytes of a local file.
    Local { path: String },
    /// Waiting for the permission check of one hop of a remote fetch.
    HopPermission { current: Specifier, budget: i64 },
    /// Following cached records from `current`. On a miss, with `fallback` the fetch goes to
    /// the network for `origin`; without it the miss ends the fetch.
    Cached { current: Specifier, budget: i64, origin: Specifier, origin_budget: i64, fallback: bool },
    /// Waiting for the cached entry whose entity tag the request will carry.
    Etag { current: Specifier, budget: i64 },
    /// Waiting for the network.
    Awaiting { current: Specifier, budget: i64 },
    /// Waiting for a redirect record to be stored before fetching `target`.
    RedirectStored { target: Specifier, budget: i64 },
    /// Waiting for a content record to be stored.
    ContentStored { current: Specifier, body: Vec<u8>, headers: Headers },
    /// Over.
    Finished,
}

/// One fetch in progress.
pub struct Fetch {
    /// The specifier asked for.
    pub requested: Specifier,
    /// Whether a file that the fetch yields goes into the in-process cache.
    pub record: bool,
    pub phase: Phase,
}

/// The budgets that a phase holds are in range.
pub open spec fn phase_wf(phase: Phase) -> bool {
        match phase {
            Phase::HopPermission { budget, .. } => budget >= 0,
            Phase::Cached { budget, origin_budget, .. } => budget >= 0 && origin_budget >= 0,
            Phase::Etag { budget, .. } => budget >= 0,
            Phase::Awaiting { budget, .. } => budget >= 0,
            Phase::RedirectStored { budget, .. } => budget >= -1,
            _ => true,
        }
}

impl Fetch {
    pub open spec fn wf(&self) -> bool {
        phase_wf(self.phase)
    }
}

/// The fetch has ended with `step` failing.
pub open spec fn failed(p: Phase, s: Step) -> bool {
    p is Finished && (s matches Step::Done(Err(_)))
}

/// Starting one hop of a remote fetch of `target` with `budget` redirects left.
pub open spec fn hop_started(p: Phase, s: Step, target: UrlParts, budget: int) -> bool {
    if budget < 0 {
        p is Finished && (s matches Step::Done(Err(FetchError::TooManyRedirects)))
    } else {
        &&& p matches Phase::HopPermission { current, budget: b } && current.parts() == target
            && b == budget
        &&& s matches Step::CheckPermission(c) && c.parts() == target
    }
}

/// Starting to follow cached records from `current` with `budget` redirects left.
pub open spec fn cached_started(
    p: Phase,
    s: Step,
    current: UrlParts,
    budget: int,
    origin: UrlParts,
    origin_budget: int,
    fallback: bool,
) -> bool {
    if budget < 0 {
        p is Finished && (s matches Step::Done(Err(FetchError::TooManyRedirects)))
    } else {
        &&& p matches Phase::Cached { current: c, budget: b, origin: o, origin_budget: ob, fallback: f }
            && c.parts() == current && b == budget && o.parts() == origin && ob == origin_budget
            && f == fallback
        &&& s matches Step::ReadCache(x) && x.parts() == current
    }
}

/// Going to the network for `current`: in cache-only mode that fails.
pub open spec fn network_started(only: bool, p: Phase, s: Step, current: UrlParts, budget: int) -> bool {
    if only {
        p is Finished && (s matches Step::Done(Err(FetchError::NotFoundInCache(h))) && h@ == current.0)
    } else {
        &&& p matches Phase::Etag { current: c, budget: b } && c.parts() == current && b == budget
        &&& s matches Step::ReadCache(x) && x.parts() == current
    }
}

/// The fetch has ended with the file (or decoding error) `expected`.
pub open spec fn delivered(p: Phase, s: Step, expected: Result<FileView, DecodeError>) -> bool {
    p is Finished && (s matches Step::Done(r) && file_result(r, expected))
}

/// The fetch has ended with a permission refusal carrying `m`.
pub open spec fn denied(p: Phase, s: Step, m: Seq<char>) -> bool {
    p is Finished && (s matches Step::Done(Err(FetchError::PermissionDenied(x))) && x@ == m)
}

/// What happens once the requested specifier passed its permission check: the in-process
/// cache answers if it can; else a `file` specifier is read from disk, and a remote one is
/// fetched with the full redirect budget unless remote fetching is off.
pub open spec fn admitted(
    allow_remote: bool,
    cached: Map<Seq<char>, FileView>,
    requested: Specifier,
    p: Phase,
    s: Step,
) -> bool {
    if cached.contains_key(requested.href@) {
        p is Finished && (s matches Step::Done(Ok(f)) && f@ == cached[requested.href@])
    } else if requested.scheme@ == "file"@ {
        match requested.file_path {
            Some(fp) => (p matches Phase::Local { path } && path@ == fp@) && (s matches Step::ReadLocal(
                x,
            ) && x@ == fp@),
            None => p is Finished && (s matches Step::Done(Err(e)) && (e is InvalidLocalPath)),
        }
    } else if !allow_remote {
        p is Finished && (s matches Step::Done(Err(FetchError::NoRemoteAccess(h))) && h@
            == requested.href@)
    } else {
        hop_started(p, s, requested.parts(), 10)
    }
}

/// The entity tag that a cache read offers for a conditional request.
pub open spec fn entry_etag(entry: CacheEntry) -> Option<Seq<char>> {
    match entry {
        CacheEntry::Found { headers, .. } => header_of(headers_view(headers@), "etag"@),
        _ => None,
    }
}

/// Following a cached record: a `location` header leads to the next record, with one
/// redirect less; a record without one is the content.
pub open spec fn cached_record_followed(
    p: Phase,
    s: Step,
    current: Specifier,
    budget: int,
    origin: Specifier,
    origin_budget: int,
    fallback: bool,
    local: Seq<char>,
    body: Seq<u8>,
    headers: Seq<(Seq<char>, Seq<char>)>,
) -> bool {
    match header_of(headers, "location"@) {
        Some(loc) => match resolved_import(loc, current.href@) {
            Some(next) => cached_started(
                p,
                s,
                next,
                budget - 1,
                origin.parts(),
                origin_budget,
                fallback,
            ),
            None => p is Finished && (s matches Step::Done(Err(e)) && (e is InvalidRedirect)),
        },
        None => delivered(p, s, remote_file(current.parts(), local, body, headers)),
    }
}

/// What one network response leads to.
pub open spec fn response_handled(p: Phase, s: Step, current: Specifier, budget: int, resp: Response) -> bool {
    match resp {
        Response::NotModified => cached_started(
            p,
            s,
            current.parts(),
            10,
            current.parts(),
            10,
            false,
        ),
        Response::Redirect { target, headers } => {
            &&& p matches Phase::RedirectStored { target: t, budget: b } && t.parts() == target.parts()
                && b == budget - 1
            &&& s matches Step::WriteCache { specifier, headers: h, body } && specifier.parts()
                == current.parts() && headers_view(h@) == headers_view(headers@) && body@.len() == 0
        },
        Response::Content { body, headers } => {
            &&& p matches Phase::ContentStored { current: c, body: b, headers: h } && c.parts()
                == current.parts() && b@ == body@ && headers_view(h@) == headers_view(headers@)
            &&& s matches Step::WriteCache { specifier, headers: h, body: b } && specifier.parts()
                == current.parts() && b@ == body@ && headers_view(h@) == headers_view(headers@)
        },
        Response::Failed(_) => failed(p, s),
    }
}

/// The transition of a fetch that stood at `phase`, on `event`, to the phase `p` with the
/// next step `s`. An event that the phase does not wait for ends the fetch with an error.
pub open spec fn follows(
    setting: CacheSetting,
    allow_remote: bool,
    cached: Map<Seq<char>, FileView>,
    requested: Specifier,
    phase: Phase,
    event: Event,
    p: Phase,
    s: Step,
) -> bool {
    match (phase, event) {
        (Phase::Admit, Event::Permission(Err(m))) => denied(p, s, m@),
        (Phase::Admit, Event::Permission(Ok(_))) => admitted(allow_remote, cached, requested, p, s),
        (Phase::Local { path }, Event::LocalRead(Ok(bytes))) => delivered(
            p,
            s,
            local_file(requested.parts(), path@, bytes@),
        ),
        (Phase::HopPermission { .. }, Event::Permission(Err(m))) => denied(p, s, m@),
        (Phase::HopPermission { current, budget }, Event::Permission(Ok(_))) => if setting.allows(
            current.href@,
        ) {
            cached_started(p, s, current.parts(), budget as int, current.parts(), budget as int, true)
        } else {
            network_started(setting.is_only(), p, s, current.parts(), budget as int)
        },
        (
            Phase::Cached { current, budget, origin, origin_budget, fallback },
            Event::CacheRead(entry),
        ) => match entry {
            CacheEntry::Missing => if fallback {
                network_started(setting.is_only(), p, s, origin.parts(), origin_budget as int)
            } else {
                p is Finished && (s matches Step::Done(Err(FetchError::NotFoundInCache(h))) && h@
                    == current.href@)
            },
            CacheEntry::Failed(_) => failed(p, s),
            CacheEntry::Found { local, body, headers } => cached_record_followed(
                p,
                s,
                current,
                budget as int,
                origin,
                origin_budget as int,
                fallback,
                local@,
                body@,
                headers_view(headers@),
            ),
        },
        (Phase::Etag { current, budget }, Event::CacheRead(entry)) => {
            &&& p matches Phase::Awaiting { current: c, budget: b } && c.parts() == current.parts() && b
                == budget
            &&& s matches Step::Request { specifier, etag } && specifier.parts() == current.parts()
                && opt_seq(etag) == entry_etag(entry)
        },
        (Phase::Awaiting { current, budget }, Event::Response(resp)) => response_handled(
            p,
            s,
            current,
            budget as int,
            resp,
        ),
        (Phase::RedirectStored { target, budget }, Event::Written(Ok(_))) => hop_started(
            p,
            s,
            target.parts(),
            budget as int,
        ),
        (Phase::ContentStored { current, body, headers }, Event::Written(Ok(local))) => delivered(
            p,
            s,
            remote_file(current.parts(), local@, body@, headers_view(headers@)),
        ),
        _ => failed(p, s),
    }
}

/// How the in-process cache changes: a file that a recording fetch yields, other than one
/// the cache itself answered with, is stored under the requested specifier.
pub open spec fn recorded(
    before: Map<Seq<char>, FileView>,
    after: Map<Seq<char>, FileView>,
    fetch: Fetch,
    s: Step,
) -> bool {
    match s {
        Step::Done(Ok(f)) => if fetch.record && !(fetch.phase is Admit) {
            after == before.insert(fetch.requested.href@, f@)
        } else {
            after == before
        },
        _ => after == before,
    }
}

/// A specifier that the in-process cache holds is answered from it once its permission has
/// been checked: the fetch ends with the stored file, asks for no file, cache or network
/// work, and leaves the cache as it was.
pub proof fn lemma_cache_hit_short_circuits(
    setting: CacheSetting,
    allow_remote: bool,
    before: Map<Seq<char>, FileView>,
    after: Map<Seq<char>, FileView>,
    fetch: Fetch,
    event: Event,
    next: Phase,
    s: Step,
)
    requires
        fetch.phase is Admit,
        event matches Event::Permission(Ok(_)),
        before.contains_key(fetch.requested.href@),
        follows(setting, allow_remote, before, fetch.requested, fetch.phase, event, next, s),
        recorded(before, after, fetch, s),
    ensures
        next is Finished,
        s matches Step::Done(Ok(f)) && f@ == before[fetch.requested.href@],
        after == before,
{
}

/// With `CacheSetting::Use`, a hop whose permission is granted reads the persistent cache
/// before any request. A stored content record is then delivered as the file, and a stored
/// redirect record leads to a read of its target's record, again with no request; so a
/// chain that earlier fetches stored is followed without the network.
pub proof fn lemma_use_follows_stored_records(
    allow_remote: bool,
    cached: Map<Seq<char>, FileView>,
    requested: Specifier,
    current: Specifier,
    budget: i64,
    p1: Phase,
    s1: Step,
    local: String,
    body: Vec<u8>,
    headers: Headers,
    p2: Phase,
    s2: Step,
)
    requires
        budget >= 0,
        follows(
            CacheSetting::Use,
            allow_remote,
            cached,
            requested,
            (Phase::HopPermission { current, budget }),
            Event::Permission(Ok(())),
            p1,
            s1,
        ),
        follows(
            CacheSetting::Use,
            allow_remote,
            cached,
            requested,
            p1,
            Event::CacheRead(CacheEntry::Found { local, body, headers }),
            p2,
            s2,
        ),
    ensures
        s1 matches Step::ReadCache(x) && x.parts() == current.parts(),
        header_of(headers_view(headers@), "location"@) is None ==> delivered(
            p2,
            s2,
            remote_file(current.parts(), local@, body@, headers_view(headers@)),
        ),
        budget >= 1 ==> (header_of(headers_view(headers@), "location"@) matches Some(loc)
            ==> (resolved_import(loc, current.href@) matches Some(next) ==> (s2 matches Step::ReadCache(
            y,
        ) && y.parts() == next))),
{
}

/// A copy of `h`.
fn copy_headers(h: &Headers) -> (r: Headers)
    ensures
        headers_view(r@) == headers_view(h@),
{
    let mut r: Headers = Vec::new();
    let mut i: usize = 0;
    while i < h.len()
        invariant
            i <= h.len(),
            r@.len() == i,
            headers_view(r@) =~= headers_view(h@.take(i as int)),
        decreases h.len() - i,
    {
        let ghost prev = r@;
        let name = h[i].0.clone();
        let value = h[i].1.clone();
        r.push((name, value));
        proof {
            let hv = headers_view(h@.take(i + 1));
            assert forall|j: int| 0 <= j < i + 1 implies headers_view(r@)[j] == hv[j] by {
                if j < i {
                    assert(r@[j] == prev[j]);
                    assert(headers_view(prev)[j] == headers_view(h@.take(i as int))[j]);
                }
            }
            assert(headers_view(r@) =~= hv);
        }
        i = i + 1;
    }
    assert(h@.take(i as int) =~= h@);
    r
}

/// A copy of `b`.
fn copy_bytes(b: &Vec<u8>) -> (r: Vec<u8>)
    ensures
        r@ == b@,
{
    let mut r: Vec<u8> = Vec::new();
    let mut i: usize = 0;
    while i < b.len()
        invariant
            i <= b.len(),
            r@ == b@.take(i as int),
        decreases b.len() - i,
    {
        r.push(b[i]);
        i = i + 1;
        assert(r@ =~= b@.take(i as int));
    }
    assert(b@.take(i as int) =~= b@);
    r
}

/// Resolves specifiers into files, through the in-process cache, the file system, the
/// persistent cache and the network. Each fetch runs as a `Fetch` that the caller drives:
/// it performs each `Step` and reports the `Event` back to `advance`.
pub struct FileFetcher {
    pub allow_remote: bool,
    pub cache_setting: CacheSetting,
    pub http_cache_location: String,
    pub cache: FileCache,
}

impl FileFetcher {
    pub open spec fn wf(&self) -> bool {
        self.cache.wf()
    }

    /// The in-process cache: files by the serialization of the specifier requested.
    pub open spec fn cached(&self) -> Map<Seq<char>, FileView> {
        self.cache@
    }

    pub open spec fn location(&self) -> Seq<char> {
        self.http_cache_location@
    }

    pub fn new(http_cache_location: String, cache_setting: CacheSetting, allow_remote: bool) -> (r:
        FileFetcher)
        ensures
            r.wf(),
            r.cached() == Map::<Seq<char>, FileView>::empty(),
            r.location() == http_cache_location@,
            r.allow_remote == allow_remote,
    {
        FileFetcher { allow_remote, cache_setting, http_cache_location, cache: FileCache::new() }
    }

    /// The file that the in-process cache holds for `specifier`.
    pub fn get_cached(&self, specifier: &Specifier) -> (r: Option<File>)
        requires
            self.wf(),
        ensures
            r matches Some(f) ==> self.cached().contains_key(specifier.href@) && f@
                == self.cached()[specifier.href@],
            r is None ==> !self.cached().contains_key(specifier.href@),
    {
        self.cache.get(specifier)
    }

    /// Where the persistent cache lives.
    pub fn get_http_cache_location(&self) -> (r: String)
        ensures
            r@ == self.location(),
    {
        self.http_cache_location.clone()
    }

    /// Puts `file` into the in-process cache under its own specifier, and returns the file it
    /// displaced.
    pub fn insert_cached(&mut self, file: File) -> (r: Option<File>)
        requires
            old(self).wf(),
        ensures
            final(self).wf(),
            final(self).cached() == old(self).cached().insert(file.specifier.href@, file@),
            r matches Some(f) ==> old(self).cached().contains_key(file.specifier.href@) && f@
                == old(self).cached()[file.specifier.href@],
            r is None ==> !old(self).cached().contains_key(file.specifier.href@),
            final(self).allow_remote == old(self).allow_remote,
            final(self).location() == old(self).location(),
    {
        let key = file.specifier.duplicate();
        self.cache.insert(&key, file)
    }

    /// Starts fetching `specifier`: the scheme is checked, then its permission.
    pub fn begin(&self, specifier: Specifier) -> (r: (Fetch, Step))
        ensures
            r.0.wf(),
            r.0.record,
            r.0.requested.parts() == specifier.parts(),
            supported_scheme(specifier.scheme@) ==> r.0.phase is Admit && (r.1 matches Step::CheckPermission(s)
                && s.parts() == specifier.parts()),
            !supported_scheme(specifier.scheme@) ==> r.0.phase is Finished && (r.1 matches Step::Done(
                Err(e),
            ) && (e is UnsupportedScheme)),
    {
        match get_validated_scheme(&specifier) {
            Err(e) => (Fetch { requested: specifier, record: true, phase: Phase::Finished }, Step::Done(Err(e))),
            Ok(_) => {
                let check = specifier.duplicate();
                (Fetch { requested: specifier, record: true, phase: Phase::Admit }, Step::CheckPermission(check))
            },
        }
    }

    /// Starts one remote fetch of `specifier` with `budget` redirects, outside the in-process
    /// cache.
    pub fn begin_remote(&self, specifier: Specifier, budget: i64) -> (r: (Fetch, Step))
        ensures
            r.0.wf(),
            !r.0.record,
            hop_started(r.0.phase, r.1, specifier.parts(), budget as int),
    {
        let requested = specifier.duplicate();
        let (phase, step) = Self::start_hop(specifier, budget);
        (Fetch { requested, record: false, phase }, step)
    }

    /// Starts resolving `specifier` from the persistent cache alone, following its redirect
    /// records with `budget` redirects; a miss ends it with `NotFoundInCache`.
    pub fn begin_cached(&self, specifier: Specifier, budget: i64) -> (r: (Fetch, Step))
        ensures
            r.0.wf(),
            !r.0.record,
            cached_started(
                r.0.phase,
                r.1,
                specifier.parts(),
                budget as int,
                specifier.parts(),
                if budget < 0 { 0 } else { budget as int },
                false,
            ),
    {
        let requested = specifier.duplicate();
        let origin = specifier.duplicate();
        let origin_budget = if budget < 0 { 0 } else { budget };
        let (phase, step) = Self::start_cached(specifier, budget, origin, origin_budget, false);
        (Fetch { requested, record: false, phase }, step)
    }

    fn start_hop(current: Specifier, budget: i64) -> (r: (Phase, Step))
        ensures
            hop_started(r.0, r.1, current.parts(), budget as int),
            phase_wf(r.0),
    {
        if budget < 0 {
            (Phase::Finished, Step::Done(Err(FetchError::TooManyRedirects)))
        } else {
            let check = current.duplicate();
            (Phase::HopPermission { current, budget }, Step::CheckPermission(check))
        }
    }

    fn start_cached(
        current: Specifier,
        budget: i64,
        origin: Specifier,
        origin_budget: i64,
        fallback: bool,
    ) -> (r: (Phase, Step))
        requires
            origin_budget >= 0,
        ensures
            cached_started(
                r.0,
                r.1,
                current.parts(),
                budget as int,
                origin.parts(),
                origin_budget as int,
                fallback,
            ),
            phase_wf(r.0),
    {
        if budget < 0 {
            (Phase::Finished, Step::Done(Err(FetchError::TooManyRedirects)))
        } else {
            let read = current.duplicate();
            (Phase::Cached { current, budget, origin, origin_budget, fallback }, Step::ReadCache(read))
        }
    }

    fn start_network(&self, current: Specifier, budget: i64) -> (r: (Phase, Step))
        requires
            budget >= 0,
        ensures
            network_started(self.cache_setting.is_only(), r.0, r.1, current.parts(), budget as int),
            phase_wf(r.0),
    {
        if self.cache_setting.only() {
            (Phase::Finished, Step::Done(Err(FetchError::NotFoundInCache(current.href.clone()))))
        } else {
            let read = current.duplicate();
            (Phase::Etag { current, budget }, Step::ReadCache(read))
        }
    }

    fn on_admit(&self, requested: &Specifier, event: Event) -> (r: (Phase, Step))
        requires
            self.wf(),
        ensures
            follows(
                self.cache_setting,
                self.allow_remote,
                self.cached(),
                *requested,
                Phase::Admit,
                event,
                r.0,
                r.1,
            ),
            phase_wf(r.0),
    {
        match event {
            Event::Permission(Ok(_)) => {
                match self.cache.get(requested) {
                    Some(f) => (Phase::Finished, Step::Done(Ok(f))),
                    None => {
                        if str_eq(requested.scheme.as_str(), "file") {
                            match &requested.file_path {
                                Some(fp) => (
                                    Phase::Local { path: fp.clone() },
                                    Step::ReadLocal(fp.clone()),
                                ),
                                None => (
                                    Phase::Finished,
                                    Step::Done(Err(FetchError::InvalidLocalPath(requested.href.clone()))),
                                ),
                            }
                        } else if !self.allow_remote {
                            (
                                Phase::Finished,
                                Step::Done(Err(FetchError::NoRemoteAccess(requested.href.clone()))),
                            )
                        } else {
                            Self::start_hop(requested.duplicate(), REDIRECT_LIMIT)
                        }
                    },
                }
            },
            Event::Permission(Err(m)) => (Phase::Finished, Step::Done(Err(FetchError::PermissionDenied(m)))),
            _ => (Phase::Finished, Step::Done(Err(FetchError::OutOfOrder))),
        }
    }

    fn on_hop_permission(&self, requested: &Specifier, current: Specifier, budget: i64, event: Event) -> (r: (
        Phase,
        Step,
    ))
        requires
            budget >= 0,
        ensures
            follows(
                self.cache_setting,
                self.allow_remote,
                self.cached(),
                *requested,
                (Phase::HopPermission { current, budget }),
                event,
                r.0,
                r.1,
            ),
            phase_wf(r.0),
    {
        match event {
            Event::Permission(Ok(_)) => {
                if self.cache_setting.should_use(&current) {
                    let origin = current.duplicate();
                    Self::start_cached(current, budget, origin, budget, true)
                } else {
                    self.start_network(current, budget)
                }
            },
            Event::Permission(Err(m)) => (Phase::Finished, Step::Done(Err(FetchError::PermissionDenied(m)))),
            _ => (Phase::Finished, Step::Done(Err(FetchError::OutOfOrder))),
        }
    }

    fn on_cached(
        &self,
        requested: &Specifier,
        current: Specifier,
        budget: i64,
        origin: Specifier,
        origin_budget: i64,
        fallback: bool,
        event: Event,
    ) -> (r: (Phase, Step))
        requires
            budget >= 0,
            origin_budget >= 0,
        ensures
            follows(
                self.cache_setting,
                self.allow_remote,
                self.cached(),
                *requested,
                (Phase::Cached { current, budget, origin, origin_budget, fallback }),
                event,
                r.0,
                r.1,
            ),
            phase_wf(r.0),
    {
        match event {
            Event::CacheRead(CacheEntry::Missing) => {
                if fallback {
                    self.start_network(origin, origin_budget)
                } else {
                    (
                        Phase::Finished,
                        Step::Done(Err(FetchError::NotFoundInCache(current.href.clone()))),
                    )
                }
            },
            Event::CacheRead(CacheEntry::Failed(m)) => (Phase::Finished, Step::Done(Err(FetchError::Io(m)))),
            Event::CacheRead(CacheEntry::Found { local, body, headers }) => {
                match get_header(&headers, "location") {
                    Some(loc) => match Specifier::resolve_import(loc.as_str(), current.href.as_str()) {
                        Some(next) => Self::start_cached(next, budget - 1, origin, origin_budget, fallback),
                        None => (Phase::Finished, Step::Done(Err(FetchError::InvalidRedirect(loc)))),
                    },
                    None => (
                        Phase::Finished,
                        Step::Done(build_remote_file(&current, local, body, &headers)),
                    ),
                }
            },
            _ => (Phase::Finished, Step::Done(Err(FetchError::OutOfOrder))),
        }
    }

    fn on_response(&self, requested: &Specifier, current: Specifier, budget: i64, event: Event) -> (r: (
        Phase,
        Step,
    ))
        requires
            budget >= 0,
        ensures
            follows(
                self.cache_setting,
                self.allow_remote,
                self.cached(),
                *requested,
                (Phase::Awaiting { current, budget }),
                event,
                r.0,
                r.1,
            ),
            phase_wf(r.0),
    {
        match event {
            Event::Response(Response::NotModified) => {
                let origin = current.duplicate();
                Self::start_cached(current, REDIRECT_LIMIT, origin, REDIRECT_LIMIT, false)
            },
            Event::Response(Response::Redirect { target, headers }) => {
                let step = Step::WriteCache { specifier: current, headers, body: Vec::new() };
                (Phase::RedirectStored { target, budget: budget - 1 }, step)
            },
            Event::Response(Response::Content { body, headers }) => {
                let stored_body = copy_bytes(&body);
                let stored_headers = copy_headers(&headers);
                let write = current.duplicate();
                (
                    Phase::ContentStored { current, body: stored_body, headers: stored_headers },
                    Step::WriteCache { specifier: write, headers, body },
                )
            },
            Event::Response(Response::Failed(m)) => (Phase::Finished, Step::Done(Err(FetchError::Io(m)))),
            _ => (Phase::Finished, Step::Done(Err(FetchError::OutOfOrder))),
        }
    }

    /// Takes a fetch one step further with what the outside world reported for its last
    /// step. A file that a fetch begun with `begin` yields goes into the in-process cache.
    pub fn advance(&mut self, fetch: Fetch, event: Event) -> (r: (Fetch, Step))
        requires
            old(self).wf(),
            fetch.wf(),
        ensures
            final(self).wf(),
            r.0.wf(),
            r.0.requested.parts() == fetch.requested.parts(),
            r.0.record == fetch.record,
            final(self).allow_remote == old(self).allow_remote,
            final(self).cache_setting == old(self).cache_setting,
            final(self).location() == old(self).location(),
            follows(
                old(self).cache_setting,
                old(self).allow_remote,
                old(self).cached(),
                fetch.requested,
                fetch.phase,
                event,
                r.0.phase,
                r.1,
            ),
            recorded(old(self).cached(), final(self).cached(), fetch, r.1),
    {
        let ghost old_fetch = fetch;
        let Fetch { requested, record, phase } = fetch;
        let was_admit = match &phase {
            Phase::Admit => true,
            _ => false,
        };
        let (next, step) = match phase {
            Phase::Admit => self.on_admit(&requested, event),
            Phase::Local { path } => match event {
                Event::LocalRead(Ok(bytes)) => (
                    Phase::Finished,
                    Step::Done(build_local_file(&requested, path, bytes)),
                ),
                Event::LocalRead(Err(m)) => (Phase::Finished, Step::Done(Err(FetchError::Io(m)))),
                _ => (Phase::Finished, Step::Done(Err(FetchError::OutOfOrder))),
            },
            Phase::HopPermission { current, budget } => self.on_hop_permission(
                &requested,
                current,
                budget,
                event,
            ),
            Phase::Cached { current, budget, origin, origin_budget, fallback } => self.on_cached(
                &requested,
                current,
                budget,
                origin,
                origin_budget,
                fallback,
                event,
            ),
            Phase::Etag { current, budget } => match event {
                Event::CacheRead(entry) => {
                    let etag = match &entry {
                        CacheEntry::Found { headers, .. } => get_header(headers, "etag"),
                        _ => None,
                    };
                    let specifier = current.duplicate();
                    (Phase::Awaiting { current, budget }, Step::Request { specifier, etag })
                },
                _ => (Phase::Finished, Step::Done(Err(FetchError::OutOfOrder))),
            },
            Phase::Awaiting { current, budget } => self.on_response(&requested, current, budget, event),
            Phase::RedirectStored { target, budget } => match event {
                Event::Written(Ok(_)) => Self::start_hop(target, budget),
                Event::Written(Err(m)) => (Phase::Finished, Step::Done(Err(FetchError::Io(m)))),
                _ => (Phase::Finished, Step::Done(Err(FetchError::OutOfOrder))),
            },
            Phase::ContentStored { current, body, headers } => match event {
                Event::Written(Ok(local)) => (
                    Phase::Finished,
                    Step::Done(build_remote_file(&current, local, body, &headers)),
                ),
                Event::Written(Err(m)) => (Phase::Finished, Step::Done(Err(FetchError::Io(m)))),
                _ => (Phase::Finished, Step::Done(Err(FetchError::OutOfOrder))),
            },
            Phase::Finished => (Phase::Finished, Step::Done(Err(FetchError::OutOfOrder))),
        };
        if record && !was_admit {
            if let Step::Done(Ok(f)) = &step {
                self.cache.insert(&requested, f.duplicate());
            }
        }
        (Fetch { requested, record, phase: next }, step)
    }
}

} // verus!
