//! The cache store: a mapping from cache key to response body. It has no
//! eviction and no size bound; an entry lives until the store is dropped.
use vstd::prelude::*;

verus! {

/// Response bodies keyed by the resolved upstream URL.
///
/// The entries are kept in insertion order with at most one entry per key;
/// the abstract view is the map from key to body.
pub struct CacheStore {
    entries: Vec<(String, String)>,
    model: Ghost<Map<Seq<char>, Seq<char>>>,
}

impl View for CacheStore {
    type V = Map<Seq<char>, Seq<char>>;

    closed spec fn view(&self) -> Map<Seq<char>, Seq<char>> {
        self.model@
    }
}

impl CacheStore {
    /// The entries hold distinct keys, and they are exactly the view.
    pub closed spec fn wf(&self) -> bool {
        &&& forall|i: int, j: int|
            0 <= i < j < self.entries@.len() ==> #[trigger] self.entries@[i].0@
                != #[trigger] self.entries@[j].0@
        &&& forall|i: int|
            0 <= i < self.entries@.len() ==> {
                &&& self.model@.contains_key(#[trigger] self.entries@[i].0@)
                &&& self.model@[self.entries@[i].0@] == self.entries@[i].1@
            }
        &&& forall|k: Seq<char>|
            #[trigger] self.model@.contains_key(k) ==> exists|i: int|
                0 <= i < self.entries@.len() && #[trigger] self.entries@[i].0@ == k
    }

    /// An empty store.
    pub fn new() -> (r: CacheStore)
        ensures
            r.wf(),
            r@ == Map::<Seq<char>, Seq<char>>::empty(),
    {
        CacheStore { entries: Vec::new(), model: Ghost(Map::empty()) }
    }

    /// The index of the entry for `key`, if there is one.
    fn position(&self, key: &String) -> (r: Option<usize>)
        requires
            self.wf(),
        ensures
            r matches Some(i) ==> i < self.entries@.len() && self.entries@[i as int].0@ == key@,
            r is None <==> !self@.contains_key(key@),
    {
        let mut i: usize = 0;
        while i < self.entries.len()
            invariant
                self.wf(),
                i <= self.entries@.len(),
                forall|j: int| 0 <= j < i ==> #[trigger] self.entries@[j].0@ != key@,
            decreases self.entries@.len() - i,
        {
            if self.entries[i].0 == *key {
                return Some(i);
            }
            i = i + 1;
        }
        None
    }

    /// Whether the store holds an entry for `key`.
    pub fn contains_key(&self, key: &String) -> (r: bool)
        requires
            self.wf(),
        ensures
            r == self@.contains_key(key@),
    {
        self.position(key).is_some()
    }

    /// A copy of the body stored for `key`, if any.
    pub fn get(&self, key: &String) -> (r: Option<String>)
        requires
            self.wf(),
        ensures
            r matches Some(b) ==> self@.contains_key(key@) && b@ == self@[key@],
            r is None <==> !self@.contains_key(key@),
    {
        match self.position(key) {
            Some(i) => Some(self.entries[i].1.clone()),
            None => None,
        }
    }

    /// Stores `body` under `key`, replacing a body that was already there.
    pub fn insert(&mut self, key: String, body: String)
        requires
            old(self).wf(),
        ensures
            final(self).wf(),
            final(self)@ == old(self)@.insert(key@, body@),
    {
        let ghost k = key@;
        let ghost b = body@;
        let ghost before = self.entries@;
        match self.position(&key) {
            Some(i) => {
                self.entries.set(i, (key, body));
                self.model = Ghost(self.model@.insert(k, b));
                proof {
                    assert(self.entries@[i as int].0@ == k);
                    assert forall|j: int| 0 <= j < self.entries@.len() && j != i implies
                        #[trigger] self.entries@[j] == before[j] by {}
                    assert forall|kk: Seq<char>| #[trigger] self.model@.contains_key(kk) implies
                        exists|j: int| 0 <= j < self.entries@.len() && #[trigger] self.entries@[j].0@ == kk by {
                        if kk != k {
                            let j = choose|j: int| 0 <= j < before.len() && #[trigger] before[j].0@ == kk;
                            assert(self.entries@[j].0@ == kk);
                        } else {
                            assert(self.entries@[i as int].0@ == kk);
                        }
                    }
                }
            },
            None => {
                self.entries.push((key, body));
                self.model = Ghost(self.model@.insert(k, b));
                proof {
                    let last = self.entries@.len() - 1;
                    assert(self.entries@[last].0@ == k);
                    assert forall|j: int| 0 <= j < last implies
                        #[trigger] self.entries@[j] == before[j] by {}
                    assert forall|kk: Seq<char>| #[trigger] self.model@.contains_key(kk) implies
                        exists|j: int| 0 <= j < self.entries@.len() && #[trigger] self.entries@[j].0@ == kk by {
                        if kk != k {
                            let j = choose|j: int| 0 <= j < before.len() && #[trigger] before[j].0@ == kk;
                            assert(self.entries@[j].0@ == kk);
                        } else {
                            assert(self.entries@[last].0@ == kk);
                        }
                    }
                }
            },
        }
    }
}

} // verus!
