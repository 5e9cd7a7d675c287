use vstd::prelude::*;
use vstd::string::*;
use crate::specifier::Specifier;
use crate::text_scan::{before_first, chars_of, find_first, last_at, lemma_first_at_bounds, lemma_last_at, str_eq};

verus! {

/// How cached remote sources are handled.
#[derive(Debug, Clone)]
pub enum CacheSetting {
    /// Only cached sources are used; a source missing from the cache is an error.
    Only,
    /// No cached source is used: everything is fetched again.
    ReloadAll,
    /// Cached sources are used except those listed, each a URL or a URL prefix that
    /// covers a whole subtree.
    ReloadSome(Vec<String>),
    /// Cached sources are used.
    Use,
}

/// Whether `s` is one of the entries of `list`.
pub open spec fn listed(list: Seq<String>, s: Seq<char>) -> bool {
    exists|i: int| 0 <= i < list.len() && list[i]@ == s
}

/// `s` without its trailing `/` characters.
pub open spec fn trim_slashes(s: Seq<char>) -> Seq<char>
    decreases s.len(),
{
    if s.len() > 0 && s.last() == '/' {
        trim_slashes(s.drop_last())
    } else {
        s
    }
}

/// `p` without its last `/`-separated segment, or `None` when it has a single one.
pub open spec fn parent_path(p: Seq<char>) -> Option<Seq<char>> {
    let t = trim_slashes(p);
    if last_at(t, '/') < 0 {
        None
    } else {
        Some(trim_slashes(t.take(last_at(t, '/'))))
    }
}

/// Whether `p`, or one of the paths that removing segments from its end gives, is listed.
pub open spec fn ancestor_listed(list: Seq<String>, p: Seq<char>) -> bool
    decreases p.len(),
    via ancestor_listed_decreases
{
    listed(list, p) || match parent_path(p) {
        Some(q) => ancestor_listed(list, q),
        None => false,
    }
}

#[via_fn]
proof fn ancestor_listed_decreases(list: Seq<String>, p: Seq<char>) {
    lemma_trim_slashes_len(p);
    let t = trim_slashes(p);
    crate::text_scan::lemma_last_at_bounds(t, '/');
    if last_at(t, '/') >= 0 {
        lemma_trim_slashes_len(t.take(last_at(t, '/')));
    }
}

pub proof fn lemma_trim_slashes_len(s: Seq<char>)
    ensures
        trim_slashes(s).len() <= s.len(),
    decreases s.len(),
{
    if s.len() > 0 && s.last() == '/' {
        lemma_trim_slashes_len(s.drop_last());
    }
}

proof fn lemma_trim_slashes(s: Seq<char>, k: int)
    requires
        0 <= k <= s.len(),
        forall|j: int| k <= j < s.len() ==> s[j] == '/',
        k > 0 ==> s[k - 1] != '/',
    ensures
        trim_slashes(s) == s.take(k),
    decreases s.len(),
{
    if k < s.len() {
        lemma_trim_slashes(s.drop_last(), k);
        assert(s.drop_last().take(k) =~= s.take(k));
    } else {
        assert(s.take(k) =~= s);
    }
}

/// Whether `ReloadSome(list)` forces `href` to be fetched again: its form without fragment
/// is listed, or its form without query and fragment or one of that form's ancestors is.
pub open spec fn reload_listed(list: Seq<String>, href: Seq<char>) -> bool {
    let no_fragment = before_first(href, '#');
    listed(list, no_fragment) || ancestor_listed(list, before_first(no_fragment, '?'))
}

impl CacheSetting {
    /// Whether cached content may be used for `href`.
    pub open spec fn allows(&self, href: Seq<char>) -> bool {
        match self {
            CacheSetting::ReloadAll => false,
            CacheSetting::Use | CacheSetting::Only => true,
            CacheSetting::ReloadSome(list) => !reload_listed(list@, href),
        }
    }

    pub open spec fn is_only(&self) -> bool {
        self is Only
    }

    /// Whether this is cache-only mode.
    pub fn only(&self) -> (r: bool)
        ensures
            r == self.is_only(),
    {
        match self {
            CacheSetting::Only => true,
            _ => false,
        }
    }

    /// Whether the cache may be used for `specifier`.
    pub fn should_use(&self, specifier: &Specifier) -> (r: bool)
        ensures
            r == self.allows(specifier.href@),
    {
        match self {
            CacheSetting::ReloadAll => false,
            CacheSetting::Use | CacheSetting::Only => true,
            CacheSetting::ReloadSome(list) => !reload_listed_exec(list, specifier.href.as_str()),
        }
    }
}

/// Whether `s` is one of the entries of `list`.
fn list_has(list: &Vec<String>, s: &str) -> (r: bool)
    ensures
        r == listed(list@, s@),
{
    let mut i: usize = 0;
    while i < list.len()
        invariant
            i <= list.len(),
            forall|j: int| 0 <= j < i ==> list@[j]@ != s@,
        decreases list.len() - i,
    {
        if str_eq(list[i].as_str(), s) {
            return true;
        }
        i = i + 1;
    }
    false
}

/// Length of `v.take(n)` without its trailing slashes.
fn slashes_trimmed(v: &Vec<char>, n: usize) -> (m: usize)
    requires
        n <= v.len(),
    ensures
        m <= n,
        trim_slashes(v@.take(n as int)) == v@.take(m as int),
{
    let mut m = n;
    while m > 0 && v[m - 1] == '/'
        invariant
            m <= n <= v.len(),
            forall|j: int| m <= j < n ==> v@[j] == '/',
        decreases m,
    {
        m = m - 1;
    }
    proof {
        let t = v@.take(n as int);
        lemma_trim_slashes(t, m as int);
        assert(t.take(m as int) =~= v@.take(m as int));
    }
    m
}

fn reload_listed_exec(list: &Vec<String>, href: &str) -> (r: bool)
    ensures
        r == reload_listed(list@, href@),
{
    let hv = chars_of(href);
    let hash = find_first(&hv, '#');
    proof {
        lemma_first_at_bounds(href@, '#');
    }
    let no_fragment = href.substring_char(0, hash);
    assert(no_fragment@ =~= before_first(href@, '#'));
    if list_has(list, no_fragment) {
        return true;
    }
    let v = chars_of(no_fragment);
    let q = find_first(&v, '?');
    proof {
        lemma_first_at_bounds(no_fragment@, '?');
    }
    let ghost base = before_first(no_fragment@, '?');
    let mut n = q;
    assert(v@.take(n as int) =~= base);
    loop
        invariant
            n <= v.len(),
            v@ == no_fragment@,
            ancestor_listed(list@, v@.take(n as int)) == ancestor_listed(list@, base),
            !listed(list@, no_fragment@),
            no_fragment@ == before_first(href@, '#'),
            base == before_first(no_fragment@, '?'),
        decreases n,
    {
        let ghost p = v@.take(n as int);
        let cur = no_fragment.substring_char(0, n);
        assert(cur@ =~= p);
        if list_has(list, cur) {
            assert(ancestor_listed(list@, p));
            return true;
        }
        let m = slashes_trimmed(&v, n);
        let mut k = m;
        while k > 0 && v[k - 1] != '/'
            invariant
                k <= m <= v.len(),
                forall|j: int| k <= j < m ==> v@[j] != '/',
            decreases k,
        {
            k = k - 1;
        }
        let ghost t = v@.take(m as int);
        if k == 0 {
            proof {
                lemma_last_at(t, '/', -1);
                assert(parent_path(p) is None);
                assert(!ancestor_listed(list@, p));
            }
            return false;
        }
        proof {
            lemma_last_at(t, '/', k - 1);
            assert(t.take(k - 1) =~= v@.take(k - 1));
        }
        let next = slashes_trimmed(&v, k - 1);
        proof {
            assert(parent_path(p) == Some(v@.take(next as int)));
            assert(ancestor_listed(list@, p) == ancestor_listed(list@, v@.take(next as int)));
        }
        n = next;
    }
}

} // verus!
