use vstd::prelude::*;

verus! {

/// The open-file cache: at most one handle per path, found by exact string
/// equality of the path. `H` is the handle type (an open file in the
/// service).
///
/// Callers share one cache between tasks behind a single lock; every
/// operation here takes the cache by reference, so each runs as one
/// critical section.
pub struct OpenFileCache<H> {
    entries: Vec<(String, H)>,
    model: Ghost<Map<Seq<char>, H>>,
}

impl<H> View for OpenFileCache<H> {
    type V = Map<Seq<char>, H>;

    closed spec fn view(&self) -> Map<Seq<char>, H> {
        self.model@
    }
}

impl<H> OpenFileCache<H> {
    /// The entries agree with the model, and no path stands twice.
    pub closed spec fn wf(&self) -> bool {
        let s = self.entries@;
        &&& forall|i: int, j: int|
            0 <= i < s.len() && 0 <= j < s.len() && i != j ==> s[i].0@ != s[j].0@
        &&& forall|i: int|
            0 <= i < s.len() ==> #[trigger] self.model@.contains_key(s[i].0@)
                && self.model@[s[i].0@] == s[i].1
        &&& forall|k: Seq<char>|
            #[trigger] self.model@.contains_key(k) ==> exists|i: int|
                0 <= i < s.len() && s[i].0@ == k
    }

    /// An empty cache.
    pub fn new() -> (r: Self)
        ensures
            r.wf(),
            r@ == Map::<Seq<char>, H>::empty(),
    {
        OpenFileCache { entries: Vec::new(), model: Ghost(Map::empty()) }
    }

    /// Index of the entry for `path`, if there is one.
    fn find(&self, path: &str) -> (r: Option<usize>)
        requires
            self.wf(),
        ensures
            r is Some <==> self@.contains_key(path@),
            r matches Some(i) ==> i < self.entries@.len() && self.entries@[i as int].0@ == path@,
    {
        let key = path.to_owned();
        let mut i: usize = 0;
        while i < self.entries.len()
            invariant
                self.wf(),
                key@ == path@,
                i <= self.entries@.len(),
                forall|j: int| 0 <= j < i ==> self.entries@[j].0@ != path@,
            decreases self.entries@.len() - i,
        {
            if self.entries[i].0 == key {
                return Some(i);
            }
            i = i + 1;
        }
        None
    }

    /// Whether `path` has a cached handle.
    pub fn contains(&self, path: &str) -> (r: bool)
        requires
            self.wf(),
        ensures
            r == self@.contains_key(path@),
    {
        self.find(path).is_some()
    }

    /// The handle cached for `path`.
    pub fn get(&self, path: &str) -> (r: Option<&H>)
        requires
            self.wf(),
        ensures
            r is Some <==> self@.contains_key(path@),
            r matches Some(h) ==> *h == self@[path@],
    {
        match self.find(path) {
            Some(i) => Some(&self.entries[i].1),
            None => None,
        }
    }

    /// Evicts the handle cached for `path` and hands it back.
    pub fn remove(&mut self, path: &str) -> (r: Option<H>)
        requires
            old(self).wf(),
        ensures
            final(self).wf(),
            final(self)@ == old(self)@.remove(path@),
            r is Some <==> old(self)@.contains_key(path@),
            r matches Some(h) ==> h == old(self)@[path@],
    {
        match self.find(path) {
            Some(i) => {
                let ghost s = self.entries@;
                let ghost m = self.model@;
                let (_, h) = self.entries.remove(i);
                self.model = Ghost(m.remove(path@));
                proof {
                    let t = self.entries@;
                    assert(t =~= s.remove(i as int));
                    assert forall|a: int| 0 <= a < t.len() implies #[trigger] self.model@.contains_key(t[a].0@)
                        && self.model@[t[a].0@] == t[a].1 by {
                        let b = if a < i { a } else { a + 1 };
                        assert(t[a] == s[b]);
                        assert(s[b].0@ != s[i as int].0@);
                        assert(m.contains_key(s[b].0@));
                    }
                    assert forall|k: Seq<char>| #[trigger] self.model@.contains_key(k) implies exists|a: int|
                        0 <= a < t.len() && t[a].0@ == k by {
                        let b = choose|b: int| 0 <= b < s.len() && s[b].0@ == k;
                        let a = if b < i { b } else { b - 1 };
                        assert(t[a] == s[if a < i { a } else { a + 1 }]);
                    }
                    assert forall|a: int, b: int|
                        0 <= a < t.len() && 0 <= b < t.len() && a != b implies t[a].0@ != t[b].0@ by {
                        let a2 = if a < i { a } else { a + 1 };
                        let b2 = if b < i { b } else { b + 1 };
                        assert(t[a] == s[a2] && t[b] == s[b2]);
                    }
                }
                Some(h)
            },
            None => {
                proof {
                    assert(self.model@.remove(path@) =~= self.model@);
                }
                None
            },
        }
    }

    /// Caches `handle` for `path`, replacing (and handing back) the handle
    /// that was cached for it before.
    pub fn insert(&mut self, path: &str, handle: H) -> (r: Option<H>)
        requires
            old(self).wf(),
        ensures
            final(self).wf(),
            final(self)@ == old(self)@.insert(path@, handle),
            r is Some <==> old(self)@.contains_key(path@),
            r matches Some(h) ==> h == old(self)@[path@],
    {
        let ghost m0 = self.model@;
        let previous = self.remove(path);
        let ghost s = self.entries@;
        let ghost m = self.model@;
        proof {
            assert(!m.contains_key(path@));
            assert(forall|a: int| 0 <= a < s.len() ==> m.contains_key(#[trigger] s[a].0@));
        }
        self.entries.push((path.to_owned(), handle));
        self.model = Ghost(m.insert(path@, handle));
        proof {
            let t = self.entries@;
            assert(t =~= s.push((t[s.len() as int].0, handle)));
            assert(m.insert(path@, handle) =~= m0.insert(path@, handle));
            assert forall|a: int| 0 <= a < t.len() implies #[trigger] self.model@.contains_key(t[a].0@)
                && self.model@[t[a].0@] == t[a].1 by {
                if a < s.len() {
                    assert(t[a] == s[a]);
                }
            }
            assert forall|k: Seq<char>| #[trigger] self.model@.contains_key(k) implies exists|a: int|
                0 <= a < t.len() && t[a].0@ == k by {
                if k != path@ {
                    let b = choose|b: int| 0 <= b < s.len() && s[b].0@ == k;
                    assert(t[b] == s[b]);
                } else {
                    assert(t[s.len() as int].0@ == k);
                }
            }
            assert forall|a: int, b: int|
                0 <= a < t.len() && 0 <= b < t.len() && a != b implies t[a].0@ != t[b].0@ by {
                if a < s.len() {
                    assert(t[a] == s[a]);
                }
                if b < s.len() {
                    assert(t[b] == s[b]);
                }
            }
        }
        previous
    }
}

} // verus!
