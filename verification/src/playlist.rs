//! Playlists: named, ordered lists of media item ids.

use vstd::prelude::*;
use crate::ids::{new_id, now_millis};
use crate::text::{copy_opt_string, copy_string, opt_seq};

verus! {

/// `s` with every occurrence of `x` left out, the order of the rest kept.
pub open spec fn without(s: Seq<u128>, x: u128) -> Seq<u128>
    decreases s.len(),
{
    if s.len() == 0 {
        Seq::empty()
    } else if s.last() == x {
        without(s.drop_last(), x)
    } else {
        without(s.drop_last(), x).push(s.last())
    }
}

/// An element occurs in `s.push(a)` exactly when it occurs in `s` or is `a`.
pub proof fn lemma_push_contains(s: Seq<u128>, a: u128, y: u128)
    ensures
        s.push(a).contains(y) <==> (s.contains(y) || a == y),
{
    if s.push(a).contains(y) {
        let k = choose|k: int| 0 <= k < s.push(a).len() && s.push(a)[k] == y;
        if k < s.len() {
            assert(s[k] == y);
        }
    }
    if s.contains(y) {
        let k = choose|k: int| 0 <= k < s.len() && s[k] == y;
        assert(s.push(a)[k] == y);
    }
    if a == y {
        assert(s.push(a)[s.len() as int] == y);
    }
}

/// Nothing is left of `x` in `without(s, x)`, and every other element stays.
pub proof fn lemma_without_contains(s: Seq<u128>, x: u128, y: u128)
    ensures
        without(s, x).contains(y) <==> (s.contains(y) && y != x),
    decreases s.len(),
{
    if s.len() > 0 {
        let d = s.drop_last();
        let l = s.last();
        lemma_without_contains(d, x, y);
        assert(d.push(l) =~= s);
        lemma_push_contains(d, l, y);
        if l != x {
            lemma_push_contains(without(d, x), l, y);
        }
    }
}

/// `without` keeps the length when `x` does not occur.
pub proof fn lemma_without_absent(s: Seq<u128>, x: u128)
    requires
        !s.contains(x),
    ensures
        without(s, x) == s,
    decreases s.len(),
{
    if s.len() > 0 {
        assert(!s.drop_last().contains(x)) by {
            if s.drop_last().contains(x) {
                let k = choose|k: int| 0 <= k < s.drop_last().len() && s.drop_last()[k] == x;
                assert(s[k] == x);
            }
        }
        lemma_without_absent(s.drop_last(), x);
        assert(s.last() != x) by {
            assert(s[s.len() - 1] == s.last());
        }
        assert(s.drop_last().push(s.last()) =~= s);
    }
}

/// `without` shortens the sequence when `x` occurs.
pub proof fn lemma_without_len(s: Seq<u128>, x: u128)
    ensures
        without(s, x).len() <= s.len(),
        s.contains(x) ==> without(s, x).len() < s.len(),
    decreases s.len(),
{
    if s.len() > 0 {
        lemma_without_len(s.drop_last(), x);
        if s.contains(x) && s.last() != x {
            let k = choose|k: int| 0 <= k < s.len() && s[k] == x;
            assert(s.drop_last()[k] == x);
        }
    }
}

/// Removes every occurrence of `x` from `v`, keeping the order of the rest.
pub fn remove_all(v: &Vec<u128>, x: u128) -> (res: Vec<u128>)
    ensures
        res@ == without(v@, x),
{
    let mut out: Vec<u128> = Vec::new();
    let mut i: usize = 0;
    while i < v.len()
        invariant
            i <= v.len(),
            out@ == without(v@.take(i as int), x),
        decreases v.len() - i,
    {
        assert(v@.take(i + 1).drop_last() =~= v@.take(i as int));
        assert(v@.take(i + 1).last() == v@[i as int]);
        if v[i] != x {
            out.push(v[i]);
        }
        i = i + 1;
    }
    assert(v@.take(v.len() as int) =~= v@);
    out
}

/// A playlist — ordered collection of media item ids.
#[derive(Debug, Clone)]
pub struct Playlist {
    pub id: u128,
    pub name: String,
    pub items: Vec<u128>,
    pub created_at_ms: i64,
    pub modified_at_ms: i64,
    pub description: Option<String>,
    pub is_smart: bool,
}

/// The abstract value of a [`Playlist`].
pub struct PlaylistView {
    pub id: u128,
    pub name: Seq<char>,
    pub items: Seq<u128>,
    pub created_at_ms: i64,
    pub modified_at_ms: i64,
    pub description: Option<Seq<char>>,
    pub is_smart: bool,
}

impl View for Playlist {
    type V = PlaylistView;

    open spec fn view(&self) -> PlaylistView {
        PlaylistView {
            id: self.id,
            name: self.name@,
            items: self.items@,
            created_at_ms: self.created_at_ms,
            modified_at_ms: self.modified_at_ms,
            description: opt_seq(self.description),
            is_smart: self.is_smart,
        }
    }
}

impl Playlist {
    /// A new, empty, non-smart playlist with a fresh id, created now.
    pub fn new(name: &str) -> (pl: Playlist)
        ensures
            pl@ == (PlaylistView {
                id: pl.id,
                name: name@,
                items: Seq::empty(),
                created_at_ms: pl.created_at_ms,
                modified_at_ms: pl.created_at_ms,
                description: None,
                is_smart: false,
            }),
    {
        let id = new_id();
        let now = now_millis();
        Self::new_at(id, name, now)
    }

    /// [`Playlist::new`] with the id and creation time given.
    pub fn new_at(id: u128, name: &str, now: i64) -> (pl: Playlist)
        ensures
            pl@ == (PlaylistView {
                id: id,
                name: name@,
                items: Seq::empty(),
                created_at_ms: now,
                modified_at_ms: now,
                description: None,
                is_smart: false,
            }),
    {
        let pl = Playlist {
            id: id,
            name: String::from_str(name),
            items: Vec::new(),
            created_at_ms: now,
            modified_at_ms: now,
            description: None,
            is_smart: false,
        };
        assert(pl.items@ =~= Seq::<u128>::empty());
        pl
    }

    /// Appends an item id and stamps the modification time.
    pub fn add(&mut self, item_id: u128)
        ensures
            final(self)@ == (PlaylistView {
                items: old(self)@.items.push(item_id),
                modified_at_ms: final(self).modified_at_ms,
                ..old(self)@
            }),
    {
        self.items.push(item_id);
        self.modified_at_ms = now_millis();
    }

    /// Removes every occurrence of an item id. Returns whether any was
    /// present; only then is the modification time stamped.
    pub fn remove(&mut self, item_id: u128) -> (removed: bool)
        ensures
            removed == old(self)@.items.contains(item_id),
            final(self)@.items == without(old(self)@.items, item_id),
            removed ==> final(self)@ == (PlaylistView {
                items: without(old(self)@.items, item_id),
                modified_at_ms: final(self).modified_at_ms,
                ..old(self)@
            }),
            !removed ==> final(self)@ == old(self)@,
    {
        let before = self.items.len();
        let kept = remove_all(&self.items, item_id);
        proof {
            lemma_without_len(old(self)@.items, item_id);
            if !old(self)@.items.contains(item_id) {
                lemma_without_absent(old(self)@.items, item_id);
            }
        }
        if kept.len() != before {
            self.items = kept;
            self.modified_at_ms = now_millis();
            true
        } else {
            proof {
                if old(self)@.items.contains(item_id) {
                    assert(false);
                }
                lemma_without_absent(old(self)@.items, item_id);
            }
            false
        }
    }

    pub fn len(&self) -> (n: usize)
        ensures
            n == self@.items.len(),
    {
        self.items.len()
    }

    pub fn is_empty(&self) -> (b: bool)
        ensures
            b == (self@.items.len() == 0),
    {
        self.items.len() == 0
    }

    /// Removes all items and stamps the modification time.
    pub fn clear(&mut self)
        ensures
            final(self)@ == (PlaylistView {
                items: Seq::empty(),
                modified_at_ms: final(self).modified_at_ms,
                ..old(self)@
            }),
    {
        self.items.clear();
        self.modified_at_ms = now_millis();
    }

    /// A copy of the playlist with the same abstract value.
    pub fn copy(&self) -> (res: Playlist)
        ensures
            res@ == self@,
    {
        Playlist {
            id: self.id,
            name: copy_string(&self.name),
            items: self.items.clone(),
            created_at_ms: self.created_at_ms,
            modified_at_ms: self.modified_at_ms,
            description: copy_opt_string(&self.description),
            is_smart: self.is_smart,
        }
    }
}

/// Adding an item and then removing it leaves the playlist's items as they
/// were, provided the item was not in the playlist before.
pub proof fn lemma_add_then_remove(items: Seq<u128>, x: u128)
    requires
        !items.contains(x),
    ensures
        without(items.push(x), x) == items,
{
    assert(items.push(x).drop_last() =~= items);
    assert(items.push(x).last() == x);
    lemma_without_absent(items, x);
}

} // verus!
