//! Bookkeeping of the album-art texture cache: least-recently-used
//! eviction and the items known to have no art.
//!
//! Loading art and making textures happen outside the library; the cache
//! is generic over the texture type.

use vstd::prelude::*;

verus! {

/// The most textures the cache keeps.
pub const MAX_TEXTURES: usize = 200;

/// The most items remembered as having no art before that memory is
/// cleared.
pub const MAX_NO_ART: usize = 1000;

/// A cached texture with the access counter value of its last use.
pub struct CacheEntry<T> {
    pub id: u128,
    pub texture: T,
    pub last_access: u64,
}

/// The cache's collections and access counter.
struct CacheStore<T> {
    textures: Vec<CacheEntry<T>>,
    no_art: Vec<u128>,
    access_counter: u64,
}

/// The abstract value of an [`ArtCache`].
pub struct ArtCacheView<T> {
    pub textures: Seq<CacheEntry<T>>,
    pub no_art: Seq<u128>,
    pub access_counter: u64,
}

impl<T> View for CacheStore<T> {
    type V = ArtCacheView<T>;

    closed spec fn view(&self) -> ArtCacheView<T> {
        ArtCacheView { textures: self.textures@, no_art: self.no_art@, access_counter: self.access_counter }
    }
}

/// Index of the entry with id `id`.
pub open spec fn entry_index<T>(s: Seq<CacheEntry<T>>, id: u128) -> Option<int> {
    if exists|k: int| 0 <= k < s.len() && s[k].id == id {
        Some(choose|k: int| 0 <= k < s.len() && s[k].id == id)
    } else {
        None
    }
}

/// Index of the least recently used entry (the first with the smallest
/// access value).
pub open spec fn is_lru<T>(s: Seq<CacheEntry<T>>, i: int) -> bool {
    &&& 0 <= i < s.len()
    &&& forall|k: int| 0 <= k < s.len() ==> s[i].last_access <= #[trigger] s[k].last_access
}

impl<T> ArtCacheView<T> {
    /// The cache's invariant: no id is cached twice or remembered twice,
    /// no id is both cached and remembered as having no art, access values
    /// are distinct and not beyond the counter, and both collections stay
    /// within their bounds.
    pub open spec fn wf(self) -> bool {
        &&& forall|i: int, j: int| 0 <= i < j < self.textures.len() ==>
            (#[trigger] self.textures[i]).id != (#[trigger] self.textures[j]).id
            && self.textures[i].last_access != self.textures[j].last_access
        &&& forall|i: int, j: int| 0 <= i < j < self.no_art.len() ==> self.no_art[i] != self.no_art[j]
        &&& forall|i: int, j: int| 0 <= i < self.textures.len() && 0 <= j < self.no_art.len() ==>
            (#[trigger] self.textures[i]).id != (#[trigger] self.no_art[j])
        &&& forall|i: int| 0 <= i < self.textures.len() ==> (#[trigger] self.textures[i]).last_access <= self.access_counter
        &&& self.textures.len() <= MAX_TEXTURES
        &&& self.no_art.len() <= MAX_NO_ART
    }

    /// Whether the texture of `id` is cached.
    pub open spec fn has_texture(self, id: u128) -> bool {
        exists|k: int| 0 <= k < self.textures.len() && (#[trigger] self.textures[k]).id == id
    }
}

impl<T> CacheStore<T> {
    /// An empty cache.
    fn new() -> (c: CacheStore<T>)
        ensures
            c@.textures.len() == 0,
            c@.no_art.len() == 0,
            c@.access_counter == 0,
            c@.wf(),
    {
        CacheStore { textures: Vec::new(), no_art: Vec::new(), access_counter: 0 }
    }

    /// Number of items known to have no art.
    fn no_art_count(&self) -> (n: usize)
        ensures
            n == self@.no_art.len(),
    {
        self.no_art.len()
    }

    /// Number of cached textures.
    fn texture_count(&self) -> (n: usize)
        ensures
            n == self@.textures.len(),
    {
        self.textures.len()
    }

    /// The access counter: the number of lookups so far.
    fn access_counter(&self) -> (n: u64)
        ensures
            n == self@.access_counter,
    {
        self.access_counter
    }

    /// Whether `id` is remembered as having no art.
    fn known_without_art(&self, id: u128) -> (res: bool)
        ensures
            res == self@.no_art.contains(id),
    {
        let mut i: usize = 0;
        while i < self.no_art.len()
            invariant
                i <= self.no_art.len(),
                forall|j: int| 0 <= j < i ==> self.no_art@[j] != id,
            decreases self.no_art.len() - i,
        {
            if self.no_art[i] == id {
                assert(self.no_art@[i as int] == id);
                return true;
            }
            i = i + 1;
        }
        false
    }

    fn find(&self, id: u128) -> (res: Option<usize>)
        ensures
            match res {
                Some(k) => k < self@.textures.len() && self@.textures[k as int].id == id,
                None => !self@.has_texture(id),
            },
    {
        let mut i: usize = 0;
        while i < self.textures.len()
            invariant
                i <= self.textures.len(),
                forall|j: int| 0 <= j < i ==> self.textures@[j].id != id,
            decreases self.textures.len() - i,
        {
            if self.textures[i].id == id {
                return Some(i);
            }
            i = i + 1;
        }
        None
    }

    /// Index of the least recently used texture.
    fn lru(&self) -> (res: usize)
        requires
            self@.textures.len() > 0,
        ensures
            is_lru(self@.textures, res as int),
    {
        let mut best: usize = 0;
        let mut i: usize = 1;
        while i < self.textures.len()
            invariant
                1 <= i <= self.textures.len(),
                best < i,
                forall|k: int| 0 <= k < i ==> self.textures@[best as int].last_access <= #[trigger] self.textures@[k].last_access,
            decreases self.textures.len() - i,
        {
            if self.textures[i].last_access < self.textures[best].last_access {
                best = i;
            }
            i = i + 1;
        }
        best
    }

    /// Drops the least recently used texture when the cache is full.
    fn evict_if_full(&mut self)
        requires
            old(self)@.wf(),
        ensures
            final(self)@.wf(),
            final(self)@.no_art == old(self)@.no_art,
            final(self)@.access_counter == old(self)@.access_counter,
            final(self)@.textures.len() < MAX_TEXTURES,
            old(self)@.textures.len() < MAX_TEXTURES ==> final(self)@ == old(self)@,
            old(self)@.textures.len() >= MAX_TEXTURES ==> exists|i: int|
                is_lru(old(self)@.textures, i) && final(self)@.textures == old(self)@.textures.remove(i),
            forall|k: int| 0 <= k < final(self)@.textures.len() ==> old(self)@.has_texture(#[trigger] final(self)@.textures[k].id),
    {
        if self.textures.len() >= MAX_TEXTURES {
            let ghost old_v = self@;
            let i = self.lru();
            self.textures.remove(i);
            proof {
                let r = old_v.textures.remove(i as int);
                assert(self@.textures =~= r);
                assert forall|a: int| 0 <= a < r.len() implies #[trigger] r[a] == old_v.textures[if a < i { a } else { a + 1 }] by {}
                assert forall|k: int| 0 <= k < r.len() implies old_v.has_texture(#[trigger] r[k].id) by {
                    let j = if k < i { k } else { k + 1 };
                    assert(old_v.textures[j].id == r[k].id);
                }
                assert forall|a: int, b: int| 0 <= a < b < r.len() implies
                    (#[trigger] r[a]).id != (#[trigger] r[b]).id && r[a].last_access != r[b].last_access by {
                    let x = if a < i { a } else { a + 1 };
                    let y = if b < i { b } else { b + 1 };
                    assert(r[a] == old_v.textures[x]);
                    assert(r[b] == old_v.textures[y]);
                }
                assert forall|a: int, j: int| 0 <= a < r.len() && 0 <= j < old_v.no_art.len() implies
                    (#[trigger] r[a]).id != (#[trigger] old_v.no_art[j]) by {
                    let x = if a < i { a } else { a + 1 };
                    assert(r[a] == old_v.textures[x]);
                }
                assert forall|a: int| 0 <= a < r.len() implies (#[trigger] r[a]).last_access <= old_v.access_counter by {
                    let x = if a < i { a } else { a + 1 };
                    assert(r[a] == old_v.textures[x]);
                }
            }
        } else {
            proof {
                assert forall|k: int| 0 <= k < self@.textures.len() implies self@.has_texture(#[trigger] self@.textures[k].id) by {
                    assert(self@.textures[k].id == self@.textures[k].id);
                }
            }
        }
    }

    /// Remembers that `id` has no art; when more than [`MAX_NO_ART`] items
    /// are remembered, the memory is cleared.
    fn mark_no_art(&mut self, id: u128)
        requires
            old(self)@.wf(),
            !old(self)@.no_art.contains(id),
            !old(self)@.has_texture(id),
        ensures
            final(self)@.wf(),
            final(self)@.textures == old(self)@.textures,
            final(self)@.access_counter == old(self)@.access_counter,
            final(self)@.no_art == if old(self)@.no_art.len() + 1 > MAX_NO_ART {
                Seq::<u128>::empty()
            } else {
                old(self)@.no_art.push(id)
            },
    {
        self.no_art.push(id);
        if self.no_art.len() > MAX_NO_ART {
            self.no_art.clear();
        }
        proof {
            assert forall|i: int, j: int| 0 <= i < self@.textures.len() && 0 <= j < self@.no_art.len() implies
                (#[trigger] self@.textures[i]).id != (#[trigger] self@.no_art[j]) by {
                if j == old(self)@.no_art.len() {
                    assert(self@.textures[i].id != id);
                } else {
                    assert(self@.no_art[j] == old(self)@.no_art[j]);
                }
            }
        }
    }

    /// Forgets the texture of `id` and that it has no art (after its
    /// metadata changed).
    fn invalidate(&mut self, id: u128)
        requires
            old(self)@.wf(),
        ensures
            final(self)@.wf(),
            !final(self)@.has_texture(id),
            !final(self)@.no_art.contains(id),
            final(self)@.access_counter == old(self)@.access_counter,
            forall|x: u128| x != id ==> (#[trigger] final(self)@.has_texture(x) == old(self)@.has_texture(x)),
            forall|x: u128| x != id ==> (#[trigger] final(self)@.no_art.contains(x) == old(self)@.no_art.contains(x)),
    {
        let ghost old_v = self@;
        match self.find(id) {
            Some(k) => {
                self.textures.remove(k);
                proof {
                    let r = old_v.textures.remove(k as int);
                    assert(self@.textures =~= r);
                    assert forall|a: int| 0 <= a < r.len() implies r[a] == old_v.textures[if a < k { a } else { a + 1 }] by {}
                    assert forall|x: u128| x != id implies (#[trigger] self@.has_texture(x) == old_v.has_texture(x)) by {
                        if old_v.has_texture(x) {
                            let j = choose|j: int| 0 <= j < old_v.textures.len() && old_v.textures[j].id == x;
                            assert(j != k);
                            let a = if j < k { j } else { j - 1 };
                            assert(r[a] == old_v.textures[j]);
                            assert(self@.textures[a].id == x);
                        }
                    }
                    assert forall|a: int| 0 <= a < r.len() implies (#[trigger] r[a]).id != id by {
                        let j = if a < k { a } else { a + 1 };
                        assert(r[a] == old_v.textures[j]);
                        if j < k { assert(old_v.textures[j].id != old_v.textures[k as int].id); }
                        else { assert(old_v.textures[k as int].id != old_v.textures[j].id); }
                    }
                    assert forall|a: int, b: int| 0 <= a < b < r.len() implies
                        (#[trigger] r[a]).id != (#[trigger] r[b]).id && r[a].last_access != r[b].last_access by {
                        let x = if a < k { a } else { a + 1 };
                        let y = if b < k { b } else { b + 1 };
                        assert(r[a] == old_v.textures[x]);
                        assert(r[b] == old_v.textures[y]);
                    }
                    assert forall|a: int, j: int| 0 <= a < r.len() && 0 <= j < old_v.no_art.len() implies
                        (#[trigger] r[a]).id != (#[trigger] old_v.no_art[j]) by {
                        let x = if a < k { a } else { a + 1 };
                        assert(r[a] == old_v.textures[x]);
                    }
                    assert forall|a: int| 0 <= a < r.len() implies (#[trigger] r[a]).last_access <= old_v.access_counter by {
                        let x = if a < k { a } else { a + 1 };
                        assert(r[a] == old_v.textures[x]);
                    }
                }
            },
            None => {},
        }
        let ghost mid = self@;
        let mut i: usize = 0;
        while i < self.no_art.len() && self.no_art[i] != id
            invariant
                i <= self.no_art.len(),
                self@ == mid,
                forall|j: int| 0 <= j < i ==> self.no_art@[j] != id,
            decreases self.no_art.len() - i,
        {
            i = i + 1;
        }
        if i < self.no_art.len() {
            self.no_art.remove(i);
            proof {
                let r = mid.no_art.remove(i as int);
                assert forall|a: int| 0 <= a < r.len() implies r[a] == mid.no_art[if a < i { a } else { a + 1 }] by {}
                assert forall|x: u128| x != id implies (#[trigger] r.contains(x) == mid.no_art.contains(x)) by {
                    if mid.no_art.contains(x) {
                        let j = choose|j: int| 0 <= j < mid.no_art.len() && mid.no_art[j] == x;
                        let a = if j < i { j } else { j - 1 };
                        assert(r[a] == x);
                    }
                    if r.contains(x) {
                        let a = choose|a: int| 0 <= a < r.len() && r[a] == x;
                        assert(mid.no_art[if a < i { a } else { a + 1 }] == x);
                    }
                }
                assert forall|a: int| 0 <= a < r.len() implies r[a] != id by {
                    let j = if a < i { a } else { a + 1 };
                    assert(r[a] == mid.no_art[j]);
                }
                assert forall|a: int, b: int| 0 <= a < b < r.len() implies r[a] != r[b] by {
                    let x = if a < i { a } else { a + 1 };
                    let y = if b < i { b } else { b + 1 };
                    assert(r[a] == mid.no_art[x]);
                    assert(r[b] == mid.no_art[y]);
                }
                assert forall|t: int, j: int| 0 <= t < mid.textures.len() && 0 <= j < r.len() implies
                    (#[trigger] mid.textures[t]).id != (#[trigger] r[j]) by {
                    let x = if j < i { j } else { j + 1 };
                    assert(r[j] == mid.no_art[x]);
                }
            }
        }
    }

    /// Looks up the texture for `id`, counting the access. An item known to
    /// have no art gives none. On a miss `load` is called: a loaded texture
    /// is cached (after the least recently used one is dropped from a full
    /// cache); without one the item is remembered as having no art. The
    /// result is the position of the texture found or loaded, which is the
    /// most recently used.
    fn get_index<F: FnOnce() -> Option<T>>(&mut self, id: u128, load: F) -> (res: Option<usize>)
        requires
            old(self)@.wf(),
            old(self)@.access_counter < u64::MAX,
            load.requires(()),
        ensures
            final(self)@.wf(),
            final(self)@.textures.len() <= MAX_TEXTURES,
            final(self)@.no_art.len() <= MAX_NO_ART,
            final(self)@.access_counter == old(self)@.access_counter + 1,
            match res {
                Some(k) => k < final(self)@.textures.len()
                    && final(self)@.textures[k as int].id == id
                    && final(self)@.textures[k as int].last_access == final(self)@.access_counter,
                None => !final(self)@.has_texture(id),
            },
            old(self)@.no_art.contains(id) ==> {
                &&& res is None
                &&& final(self)@.textures == old(self)@.textures
                &&& final(self)@.no_art == old(self)@.no_art
            },
            !old(self)@.no_art.contains(id) && old(self)@.has_texture(id) ==> {
                &&& res is Some
                &&& final(self)@.no_art == old(self)@.no_art
                &&& exists|k: int| 0 <= k < old(self)@.textures.len() && (#[trigger] old(self)@.textures[k]).id == id
                    && final(self)@.textures == old(self)@.textures.update(k,
                        (CacheEntry { last_access: final(self)@.access_counter, ..old(self)@.textures[k] }))
                &&& final(self)@.textures.len() == old(self)@.textures.len()
                &&& forall|x: u128| #[trigger] final(self)@.has_texture(x) == old(self)@.has_texture(x)
            },
            !old(self)@.no_art.contains(id) && !old(self)@.has_texture(id) ==> exists|loaded: Option<T>| {
                &&& #[trigger] load.ensures((), loaded)
                &&& match loaded {
                    Some(tex) => {
                        let entry = (CacheEntry { id: id, texture: tex, last_access: final(self)@.access_counter });
                        &&& res is Some && final(self)@.textures[res->0 as int].texture == tex
                        &&& final(self)@.no_art == old(self)@.no_art
                        &&& old(self)@.textures.len() < MAX_TEXTURES ==> final(self)@.textures == old(self)@.textures.push(entry)
                        &&& old(self)@.textures.len() >= MAX_TEXTURES ==> exists|i: int|
                            is_lru(old(self)@.textures, i) && final(self)@.textures == old(self)@.textures.remove(i).push(entry)
                    },
                    None => {
                        &&& res is None
                        &&& final(self)@.textures == old(self)@.textures
                        &&& final(self)@.no_art == if old(self)@.no_art.len() + 1 > MAX_NO_ART {
                            Seq::<u128>::empty()
                        } else {
                            old(self)@.no_art.push(id)
                        }
                    },
                }
            },
    {
        self.access_counter = self.access_counter + 1;
        if self.known_without_art(id) {
            return None;
        }
        let k = match self.find(id) {
            Some(k) => k,
            None => {
                let loaded = load();
                match loaded {
                    Some(tex) => {
                        let ghost mid = self@;
                        self.evict_if_full();
                        let ghost before = self@;
                        proof {
                            if mid.textures.len() >= MAX_TEXTURES {
                                let i = choose|i: int| is_lru(mid.textures, i) && before.textures == mid.textures.remove(i);
                                assert(is_lru(old(self)@.textures, i));
                            }
                        }
                        self.textures.push(CacheEntry { id, texture: tex, last_access: self.access_counter });
                        proof {
                            let t = self@.textures;
                            assert(t == before.textures.push(t.last()));
                            assert forall|i: int, j: int| 0 <= i < j < t.len() implies
                                (#[trigger] t[i]).id != (#[trigger] t[j]).id && t[i].last_access != t[j].last_access by {
                                if j == t.len() - 1 {
                                    assert(t[i] == before.textures[i]);
                                    assert(old(self)@.has_texture(before.textures[i].id));
                                }
                            }
                            assert forall|i: int, j: int| 0 <= i < t.len() && 0 <= j < self@.no_art.len() implies
                                (#[trigger] t[i]).id != (#[trigger] self@.no_art[j]) by {
                                if i < t.len() - 1 {
                                    assert(t[i] == before.textures[i]);
                                }
                            }
                            assert forall|i: int| 0 <= i < t.len() implies (#[trigger] t[i]).last_access <= self@.access_counter by {
                                if i < t.len() - 1 {
                                    assert(t[i] == before.textures[i]);
                                }
                            }
                        }
                        let n = self.textures.len() - 1;
                        proof {
                            assert(self@.textures[n as int].id == id);
                        }
                        return Some(n);
                    },
                    None => {
                        self.mark_no_art(id);
                        return None;
                    },
                }
            },
        };
        let ghost before = self@;
        assert(old(self)@.textures[k as int].id == id);
        self.textures[k].last_access = self.access_counter;
        proof {
            let t = self@.textures;
            assert(t == before.textures.update(k as int, CacheEntry { last_access: self@.access_counter, ..before.textures[k as int] }));
            assert forall|i: int, j: int| 0 <= i < j < t.len() implies
                (#[trigger] t[i]).id != (#[trigger] t[j]).id && t[i].last_access != t[j].last_access by {
                assert(before.textures[i].id != before.textures[j].id);
            }
            assert forall|x: u128| #[trigger] self@.has_texture(x) == before.has_texture(x) by {
                if before.has_texture(x) {
                    let j = choose|j: int| 0 <= j < before.textures.len() && before.textures[j].id == x;
                    assert(t[j].id == x);
                }
                if self@.has_texture(x) {
                    let j = choose|j: int| 0 <= j < t.len() && t[j].id == x;
                    assert(before.textures[j].id == x);
                }
            }
        }
        Some(k)
    }
}

/// Least-recently-used texture cache for album art.
pub struct ArtCache<T> {
    store: CacheStore<T>,
}

impl<T> View for ArtCache<T> {
    type V = ArtCacheView<T>;

    closed spec fn view(&self) -> ArtCacheView<T> {
        self.store@
    }
}

impl<T> ArtCache<T> {
    /// Every cache keeps the invariant of [`ArtCacheView::wf`].
    #[verifier::type_invariant]
    spec fn inv(self) -> bool {
        self.store@.wf()
    }

    /// An empty cache.
    pub fn new() -> (c: ArtCache<T>)
        ensures
            c@.textures.len() == 0,
            c@.no_art.len() == 0,
            c@.access_counter == 0,
            c@.wf(),
    {
        ArtCache { store: CacheStore::new() }
    }

    /// Number of items known to have no art.
    pub fn no_art_count(&self) -> (n: usize)
        ensures
            n == self@.no_art.len(),
    {
        self.store.no_art_count()
    }

    /// Number of cached textures.
    pub fn texture_count(&self) -> (n: usize)
        ensures
            n == self@.textures.len(),
    {
        self.store.texture_count()
    }

    /// The access counter: the number of lookups so far.
    pub fn access_counter(&self) -> (n: u64)
        ensures
            n == self@.access_counter,
    {
        self.store.access_counter()
    }

    /// Whether `id` is remembered as having no art.
    pub fn known_without_art(&self, id: u128) -> (res: bool)
        ensures
            res == self@.no_art.contains(id),
    {
        self.store.known_without_art(id)
    }

    /// Forgets the texture of `id` and that it has no art (after its
    /// metadata changed).
    pub fn invalidate(&mut self, id: u128)
        ensures
            final(self)@.wf(),
            !final(self)@.has_texture(id),
            !final(self)@.no_art.contains(id),
            final(self)@.access_counter == old(self)@.access_counter,
            forall|x: u128| x != id ==> (#[trigger] final(self)@.has_texture(x) == old(self)@.has_texture(x)),
            forall|x: u128| x != id ==> (#[trigger] final(self)@.no_art.contains(x) == old(self)@.no_art.contains(x)),
    {
        proof {
            use_type_invariant(&*self);
        }
        let mut st = CacheStore::new();
        std::mem::swap(&mut st, &mut self.store);
        st.invalidate(id);
        self.store = st;
    }

    /// Looks up the texture for `id`, counting the access. An item known to
    /// have no art gives none. On a miss `load` is called: a loaded texture
    /// is cached (after the least recently used one is dropped from a full
    /// cache); without one the item is remembered as having no art. A
    /// texture returned is the most recently used. The cache never holds
    /// more than [`MAX_TEXTURES`] textures nor remembers more than
    /// [`MAX_NO_ART`] items without art.
    pub fn get<F: FnOnce() -> Option<T>>(&mut self, id: u128, load: F) -> (res: Option<&T>)
        requires
            old(self)@.access_counter < u64::MAX,
            load.requires(()),
        ensures
            final(self)@.wf(),
            final(self)@.textures.len() <= MAX_TEXTURES,
            final(self)@.no_art.len() <= MAX_NO_ART,
            final(self)@.access_counter == old(self)@.access_counter + 1,
            match res {
                Some(t) => exists|k: int| 0 <= k < final(self)@.textures.len()
                    && (#[trigger] final(self)@.textures[k]).id == id
                    && final(self)@.textures[k].texture == *t
                    && final(self)@.textures[k].last_access == final(self)@.access_counter,
                None => !final(self)@.has_texture(id),
            },
            old(self)@.no_art.contains(id) ==> {
                &&& res is None
                &&& final(self)@.textures == old(self)@.textures
                &&& final(self)@.no_art == old(self)@.no_art
            },
            !old(self)@.no_art.contains(id) && old(self)@.has_texture(id) ==> {
                &&& res is Some
                &&& final(self)@.no_art == old(self)@.no_art
                &&& exists|k: int| 0 <= k < old(self)@.textures.len() && (#[trigger] old(self)@.textures[k]).id == id
                    && final(self)@.textures == old(self)@.textures.update(k,
                        (CacheEntry { last_access: final(self)@.access_counter, ..old(self)@.textures[k] }))
                &&& final(self)@.textures.len() == old(self)@.textures.len()
                &&& forall|x: u128| #[trigger] final(self)@.has_texture(x) == old(self)@.has_texture(x)
            },
            !old(self)@.no_art.contains(id) && !old(self)@.has_texture(id) ==> exists|loaded: Option<T>| {
                &&& #[trigger] load.ensures((), loaded)
                &&& match loaded {
                    Some(tex) => {
                        let entry = (CacheEntry { id: id, texture: tex, last_access: final(self)@.access_counter });
                        &&& res == Some(&tex)
                        &&& final(self)@.no_art == old(self)@.no_art
                        &&& old(self)@.textures.len() < MAX_TEXTURES ==> final(self)@.textures == old(self)@.textures.push(entry)
                        &&& old(self)@.textures.len() >= MAX_TEXTURES ==> exists|i: int|
                            is_lru(old(self)@.textures, i) && final(self)@.textures == old(self)@.textures.remove(i).push(entry)
                    },
                    None => {
                        &&& res is None
                        &&& final(self)@.textures == old(self)@.textures
                        &&& final(self)@.no_art == if old(self)@.no_art.len() + 1 > MAX_NO_ART {
                            Seq::<u128>::empty()
                        } else {
                            old(self)@.no_art.push(id)
                        }
                    },
                }
            },
    {
        proof {
            use_type_invariant(&*self);
        }
        let mut st = CacheStore::new();
        std::mem::swap(&mut st, &mut self.store);
        let r = st.get_index(id, load);
        self.store = st;
        match r {
            Some(k) => Some(&self.store.textures[k].texture),
            None => None,
        }
    }
}

} // verus!
