use vstd::prelude::*;
use vstd::string::*;
use crate::media::MediaType;
use crate::specifier::{Specifier, UrlParts};
use crate::text_scan::str_eq;

verus! {

/// A resolved source file.
#[derive(Debug)]
pub struct File {
    /// Where the bytes are on disk: the file itself for a local file, the cache entry for a
    /// remote one.
    pub local: String,
    /// For a remote file, the value of its `x-typescript-types` header.
    pub maybe_types: Option<String>,
    pub media_type: MediaType,
    /// The decoded text, without a leading interpreter line.
    pub source: String,
    /// The final specifier, after any redirects.
    pub specifier: Specifier,
}

/// What a `File` holds, as mathematical values.
pub struct FileView {
    pub local: Seq<char>,
    pub maybe_types: Option<Seq<char>>,
    pub media_type: MediaType,
    pub source: Seq<char>,
    pub specifier: UrlParts,
}

pub open spec fn opt_seq(o: Option<String>) -> Option<Seq<char>> {
    match o {
        Some(s) => Some(s@),
        None => None,
    }
}

impl View for File {
    type V = FileView;

    open spec fn view(&self) -> FileView {
        FileView {
            local: self.local@,
            maybe_types: opt_seq(self.maybe_types),
            media_type: self.media_type,
            source: self.source@,
            specifier: self.specifier.parts(),
        }
    }
}

pub fn copy_opt_string(o: &Option<String>) -> (r: Option<String>)
    ensures
        opt_seq(r) == opt_seq(*o),
{
    match o {
        Some(s) => Some(s.clone()),
        None => None,
    }
}

impl Specifier {
    /// A copy with the same parts.
    pub fn duplicate(&self) -> (r: Specifier)
        ensures
            r.parts() == self.parts(),
    {
        Specifier {
            href: self.href.clone(),
            scheme: self.scheme.clone(),
            path: self.path.clone(),
            file_path: copy_opt_string(&self.file_path),
        }
    }
}

impl File {
    /// A copy with the same fields.
    pub fn duplicate(&self) -> (r: File)
        ensures
            r@ == self@,
    {
        File {
            local: self.local.clone(),
            maybe_types: copy_opt_string(&self.maybe_types),
            media_type: self.media_type,
            source: self.source.clone(),
            specifier: self.specifier.duplicate(),
        }
    }

    /// Whether two files hold equal fields.
    pub fn same_as(&self, other: &File) -> (r: bool)
        ensures
            r == (self@ == other@),
    {
        let types_equal = match (&self.maybe_types, &other.maybe_types) {
            (Some(a), Some(b)) => str_eq(a.as_str(), b.as_str()),
            (None, None) => true,
            _ => false,
        };
        let spec_equal = str_eq(self.specifier.href.as_str(), other.specifier.href.as_str())
            && str_eq(self.specifier.scheme.as_str(), other.specifier.scheme.as_str())
            && str_eq(self.specifier.path.as_str(), other.specifier.path.as_str())
            && match (&self.specifier.file_path, &other.specifier.file_path) {
            (Some(a), Some(b)) => str_eq(a.as_str(), b.as_str()),
            (None, None) => true,
            _ => false,
        };
        let r = str_eq(self.local.as_str(), other.local.as_str()) && types_equal
            && self.media_type == other.media_type && str_eq(
            self.source.as_str(),
            other.source.as_str(),
        ) && spec_equal;
        proof {
            if r {
                assert(self.specifier.parts() == other.specifier.parts());
                assert(self@ == other@);
            }
            if self@ == other@ {
                assert(self.specifier.parts() == other.specifier.parts());
            }
        }
        r
    }
}

/// The in-process cache: each specifier that was resolved, with its file.
pub struct FileCache {
    entries: Vec<(String, File)>,
    contents: Ghost<Map<Seq<char>, FileView>>,
}

impl FileCache {
    /// The files held, by the serialization of the specifier they were requested under.
    pub closed spec fn view(&self) -> Map<Seq<char>, FileView> {
        self.contents@
    }

    pub closed spec fn wf(&self) -> bool {
        &&& forall|i: int|
            0 <= i < self.entries.len() ==> #[trigger] self.contents@.contains_key(
                self.entries@[i].0@,
            ) && self.contents@[self.entries@[i].0@] == self.entries@[i].1@
        &&& forall|k: Seq<char>|
            #[trigger] self.contents@.contains_key(k) ==> exists|i: int|
                0 <= i < self.entries.len() && self.entries@[i].0@ == k
        &&& forall|i: int, j: int|
            0 <= i < j < self.entries.len() ==> self.entries@[i].0@ != self.entries@[j].0@
    }

    pub fn new() -> (r: FileCache)
        ensures
            r.wf(),
            r@ == Map::<Seq<char>, FileView>::empty(),
    {
        FileCache { entries: Vec::new(), contents: Ghost(Map::empty()) }
    }

    fn position(&self, key: &str) -> (r: Option<usize>)
        requires
            self.wf(),
        ensures
            r matches Some(i) ==> i < self.entries.len() && self.entries@[i as int].0@ == key@,
            r is None ==> !self@.contains_key(key@),
    {
        let mut i: usize = 0;
        while i < self.entries.len()
            invariant
                self.wf(),
                i <= self.entries.len(),
                forall|j: int| 0 <= j < i ==> self.entries@[j].0@ != key@,
            decreases self.entries.len() - i,
        {
            if str_eq(self.entries[i].0.as_str(), key) {
                return Some(i);
            }
            i = i + 1;
        }
        None
    }

    /// The file held for `specifier`, if any.
    pub fn get(&self, specifier: &Specifier) -> (r: Option<File>)
        requires
            self.wf(),
        ensures
            r matches Some(f) ==> self@.contains_key(specifier.href@) && f@ == self@[specifier.href@],
            r is None ==> !self@.contains_key(specifier.href@),
    {
        match self.position(specifier.href.as_str()) {
            Some(i) => {
                assert(self.contents@.contains_key(self.entries@[i as int].0@));
                Some(self.entries[i].1.duplicate())
            },
            None => None,
        }
    }

    /// Holds `file` for `specifier`, and returns the file it displaced.
    pub fn insert(&mut self, specifier: &Specifier, file: File) -> (r: Option<File>)
        requires
            old(self).wf(),
        ensures
            final(self).wf(),
            final(self)@ == old(self)@.insert(specifier.href@, file@),
            r matches Some(f) ==> old(self)@.contains_key(specifier.href@) && f@ == old(
                self,
            )@[specifier.href@],
            r is None ==> !old(self)@.contains_key(specifier.href@),
    {
        let ghost key = specifier.href@;
        let ghost fv = file@;
        match self.position(specifier.href.as_str()) {
            Some(i) => {
                let ghost before = self.entries@;
                assert(self.contents@.contains_key(self.entries@[i as int].0@));
                let old_file = self.entries[i].1.duplicate();
                let k = self.entries[i].0.clone();
                self.entries.set(i, (k, file));
                self.contents = Ghost(self.contents@.insert(key, fv));
                proof {
                    assert forall|j: int| 0 <= j < self.entries.len() implies #[trigger] self.contents@.contains_key(
                        self.entries@[j].0@,
                    ) && self.contents@[self.entries@[j].0@] == self.entries@[j].1@ by {
                        if j != i {
                            assert(before[j] == self.entries@[j]);
                            assert(before[j].0@ != key);
                        }
                    }
                    assert forall|k2: Seq<char>| #[trigger] self.contents@.contains_key(k2) implies exists|j: int|
                        0 <= j < self.entries.len() && self.entries@[j].0@ == k2 by {
                        if k2 != key {
                            let j = choose|j: int| 0 <= j < before.len() && before[j].0@ == k2;
                            assert(self.entries@[j].0@ == k2);
                        } else {
                            assert(self.entries@[i as int].0@ == k2);
                        }
                    }
                    assert forall|a: int, b: int| 0 <= a < b < self.entries.len() implies self.entries@[a].0@
                        != self.entries@[b].0@ by {
                        assert(self.entries@[a].0@ == before[a].0@);
                        assert(self.entries@[b].0@ == before[b].0@);
                    }
                }
                Some(old_file)
            },
            None => {
                let ghost before = self.entries@;
                self.entries.push((specifier.href.clone(), file));
                self.contents = Ghost(self.contents@.insert(key, fv));
                proof {
                    let n = before.len() as int;
                    assert(self.entries@[n].0@ == key);
                    assert forall|j: int| 0 <= j < self.entries.len() implies #[trigger] self.contents@.contains_key(
                        self.entries@[j].0@,
                    ) && self.contents@[self.entries@[j].0@] == self.entries@[j].1@ by {
                        if j != n {
                            assert(before[j] == self.entries@[j]);
                            assert(before[j].0@ != key);
                        }
                    }
                    assert forall|k2: Seq<char>| #[trigger] self.contents@.contains_key(k2) implies exists|j: int|
                        0 <= j < self.entries.len() && self.entries@[j].0@ == k2 by {
                        if k2 != key {
                            let j = choose|j: int| 0 <= j < before.len() && before[j].0@ == k2;
                            assert(self.entries@[j].0@ == k2);
                        } else {
                            assert(self.entries@[n].0@ == k2);
                        }
                    }
                    assert forall|a: int, b: int| 0 <= a < b < self.entries.len() implies self.entries@[a].0@
                        != self.entries@[b].0@ by {
                        if b == n {
                            assert(self.entries@[a].0@ == before[a].0@);
                            assert(before[a].0@ != key) by {
                                assert(old(self).contents@.contains_key(before[a].0@));
                            }
                        } else {
                            assert(self.entries@[a].0@ == before[a].0@);
                            assert(self.entries@[b].0@ == before[b].0@);
                        }
                    }
                }
                None
            },
        }
    }
}

} // verus!
