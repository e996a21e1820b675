//! The media library: items, playlists and scan paths, with lookups,
//! removal and search.

use vstd::prelude::*;
use crate::media::{MediaItem, MediaItemView, MediaType};
use crate::paths::{path_eq, spec_path_eq};
use crate::playlist::{without, Playlist, PlaylistView};
use crate::seqs::{first, is_first, keep, lemma_first_is, lemma_first_none, lemma_keep_step};
use crate::text::{char_vec, contains_folded, lowercase, seq_contains, spec_lowercase, text_eq};

verus! {

/// Media library — indexed collection of media items.
#[derive(Debug, Clone)]
pub struct Library {
    pub items: Vec<MediaItem>,
    pub playlists: Vec<Playlist>,
    pub scan_paths: Vec<String>,
}

/// The abstract value of a [`Library`].
pub struct LibraryView {
    pub items: Seq<MediaItemView>,
    pub playlists: Seq<PlaylistView>,
    pub scan_paths: Seq<Seq<char>>,
}

pub open spec fn items_view(s: Seq<MediaItem>) -> Seq<MediaItemView> {
    s.map_values(|i: MediaItem| i@)
}

pub open spec fn item_refs_view(s: Seq<&MediaItem>) -> Seq<MediaItemView> {
    s.map_values(|i: &MediaItem| i@)
}

pub open spec fn playlists_view(s: Seq<Playlist>) -> Seq<PlaylistView> {
    s.map_values(|p: Playlist| p@)
}

impl View for Library {
    type V = LibraryView;

    open spec fn view(&self) -> LibraryView {
        LibraryView {
            items: items_view(self.items@),
            playlists: playlists_view(self.playlists@),
            scan_paths: self.scan_paths.deep_view(),
        }
    }
}

/// Index of the first item with the given id.
pub open spec fn item_index(items: Seq<MediaItemView>, id: u128) -> Option<int> {
    first(|i: int| items[i].id == id, items.len() as int)
}

/// The first item with the given id.
pub open spec fn lookup_item(items: Seq<MediaItemView>, id: u128) -> Option<MediaItemView> {
    match item_index(items, id) {
        Some(i) => Some(items[i]),
        None => None,
    }
}

/// Index of the first item whose path equals the given one as a path
/// (component by component, as `std::path::Path` compares them).
pub open spec fn path_index(items: Seq<MediaItemView>, path: Seq<char>) -> Option<int> {
    first(|i: int| spec_path_eq(items[i].path, path), items.len() as int)
}

/// Index of the first playlist with the given id.
pub open spec fn playlist_index(pls: Seq<PlaylistView>, id: u128) -> Option<int> {
    first(|i: int| pls[i].id == id, pls.len() as int)
}

/// The found item, as a value.
pub open spec fn found_item(r: Option<&MediaItem>) -> Option<MediaItemView> {
    match r {
        Some(i) => Some(i@),
        None => None,
    }
}

/// The found playlist, as a value.
pub open spec fn found_playlist(r: Option<&Playlist>) -> Option<PlaylistView> {
    match r {
        Some(p) => Some(p@),
        None => None,
    }
}

/// `q` (already lower-cased) occurs in the lower-cased `t`.
pub open spec fn folded_has(t: Seq<char>, q: Seq<char>) -> bool {
    seq_contains(spec_lowercase(t), q)
}

pub open spec fn opt_folded_has(t: Option<Seq<char>>, q: Seq<char>) -> bool {
    match t {
        Some(x) => folded_has(x, q),
        None => false,
    }
}

/// Some tag contains `q` case-insensitively.
pub open spec fn tags_have(tags: Seq<Seq<char>>, q: Seq<char>) -> bool {
    exists|k: int| 0 <= k < tags.len() && folded_has(#[trigger] tags[k], q)
}

/// An item matches a lower-cased query when its title, artist, album or one
/// of its tags contains the query, ignoring case.
pub open spec fn item_matches(item: MediaItemView, q: Seq<char>) -> bool {
    folded_has(item.title, q) || opt_folded_has(item.artist, q) || opt_folded_has(item.album, q)
        || tags_have(item.tags, q)
}

/// The items a search for `query` returns.
pub open spec fn search_result(items: Seq<MediaItemView>, query: Seq<char>) -> Seq<MediaItemView> {
    keep(items, |it: MediaItemView| item_matches(it, spec_lowercase(query)))
}

/// The items of the library after removing id `id`.
pub open spec fn items_without(items: Seq<MediaItemView>, id: u128) -> Seq<MediaItemView> {
    keep(items, |it: MediaItemView| it.id != id)
}

/// A playlist with every occurrence of `id` taken out (modification time
/// aside).
pub open spec fn playlist_without(before: PlaylistView, after: PlaylistView, id: u128) -> bool {
    &&& after.items == without(before.items, id)
    &&& after.id == before.id
    &&& after.name == before.name
    &&& after.created_at_ms == before.created_at_ms
    &&& after.description == before.description
    &&& after.is_smart == before.is_smart
    &&& !before.items.contains(id) ==> after == before
}

/// Whether an optional text contains the lower-cased query, ignoring case.
pub fn opt_contains_folded(t: &Option<String>, q: &Vec<char>) -> (res: bool)
    ensures
        res == opt_folded_has(crate::text::opt_seq(*t), q@),
{
    match t {
        Some(x) => contains_folded(x.as_str(), q),
        None => false,
    }
}

fn tags_contain_folded(tags: &Vec<String>, q: &Vec<char>) -> (res: bool)
    ensures
        res == tags_have(tags.deep_view(), q@),
{
    let mut i: usize = 0;
    while i < tags.len()
        invariant
            i <= tags.len(),
            forall|k: int| 0 <= k < i ==> !folded_has(#[trigger] tags.deep_view()[k], q@),
        decreases tags.len() - i,
    {
        if contains_folded(tags[i].as_str(), q) {
            assert(folded_has(tags.deep_view()[i as int], q@));
            return true;
        }
        i = i + 1;
    }
    false
}

/// Whether an item matches a lower-cased query.
pub fn matches_query(item: &MediaItem, q: &Vec<char>) -> (res: bool)
    ensures
        res == item_matches(item@, q@),
{
    contains_folded(item.title.as_str(), q) || opt_contains_folded(&item.artist, q)
        || opt_contains_folded(&item.album, q) || tags_contain_folded(&item.tags, q)
}

impl Library {
    pub fn new() -> (lib: Library)
        ensures
            lib@.items.len() == 0,
            lib@.playlists.len() == 0,
            lib@.scan_paths.len() == 0,
    {
        Library { items: Vec::new(), playlists: Vec::new(), scan_paths: Vec::new() }
    }

    /// Appends an item and returns its id.
    pub fn add_item(&mut self, item: MediaItem) -> (id: u128)
        ensures
            id == item.id,
            final(self)@ == (LibraryView { items: old(self)@.items.push(item@), ..old(self)@ }),
    {
        let id = item.id;
        self.items.push(item);
        assert(items_view(self.items@) =~= items_view(old(self).items@).push(item@));
        id
    }

    /// Index of the first item with the given id.
    pub fn find_index(&self, id: u128) -> (res: Option<usize>)
        ensures
            match res {
                Some(i) => item_index(self@.items, id) == Some(i as int),
                None => item_index(self@.items, id) is None,
            },
    {
        let ghost p = |i: int| self@.items[i].id == id;
        let mut i: usize = 0;
        while i < self.items.len()
            invariant
                i <= self.items.len(),
                p == (|i: int| self@.items[i].id == id),
                forall|j: int| 0 <= j < i ==> !#[trigger] p(j),
            decreases self.items.len() - i,
        {
            if self.items[i].id == id {
                proof {
                    assert(is_first(p, self@.items.len() as int, i as int));
                    lemma_first_is(p, self@.items.len() as int, i as int);
                }
                return Some(i);
            }
            i = i + 1;
        }
        proof {
            lemma_first_none(p, self@.items.len() as int);
        }
        None
    }

    /// The first item with the given id.
    pub fn find_by_id(&self, id: u128) -> (res: Option<&MediaItem>)
        ensures
            found_item(res) == lookup_item(self@.items, id),
    {
        match self.find_index(id) {
            Some(i) => Some(&self.items[i]),
            None => None,
        }
    }

    /// The first item with the given id, for changing it in place.
    pub fn find_by_id_mut(&mut self, id: u128) -> (res: Option<&mut MediaItem>)
        ensures
            match res {
                Some(r) => {
                    &&& item_index(old(self)@.items, id) is Some
                    &&& (*r)@ == old(self)@.items[item_index(old(self)@.items, id)->0]
                    &&& final(self).items@ == old(self).items@.update(item_index(old(self)@.items, id)->0, *final(r))
                    &&& final(self).playlists == old(self).playlists
                    &&& final(self).scan_paths == old(self).scan_paths
                },
                None => item_index(old(self)@.items, id) is None && *final(self) == *old(self),
            },
    {
        match self.find_index(id) {
            Some(i) => Some(&mut self.items[i]),
            None => None,
        }
    }

    /// The first item whose path equals the given one as a path.
    pub fn find_by_path(&self, path: &str) -> (res: Option<&MediaItem>)
        ensures
            found_item(res) == match path_index(self@.items, path@) {
                Some(i) => Some(self@.items[i]),
                None => None,
            },
    {
        let ghost p = |i: int| spec_path_eq(self@.items[i].path, path@);
        let mut i: usize = 0;
        while i < self.items.len()
            invariant
                i <= self.items.len(),
                p == (|i: int| spec_path_eq(self@.items[i].path, path@)),
                forall|j: int| 0 <= j < i ==> !#[trigger] p(j),
            decreases self.items.len() - i,
        {
            if path_eq(self.items[i].path.as_str(), path) {
                proof {
                    assert(is_first(p, self@.items.len() as int, i as int));
                    lemma_first_is(p, self@.items.len() as int, i as int);
                }
                return Some(&self.items[i]);
            }
            i = i + 1;
        }
        proof {
            lemma_first_none(p, self@.items.len() as int);
        }
        None
    }

    /// Removes every item with the given id, and the id from every playlist.
    /// Returns whether an item was removed.
    pub fn remove(&mut self, id: u128) -> (removed: bool)
        ensures
            removed == exists|i: int| 0 <= i < old(self)@.items.len() && (#[trigger] old(self)@.items[i]).id == id,
            final(self)@.items == items_without(old(self)@.items, id),
            final(self)@.scan_paths == old(self)@.scan_paths,
            final(self)@.playlists.len() == old(self)@.playlists.len(),
            forall|k: int| 0 <= k < old(self)@.playlists.len() ==>
                playlist_without(#[trigger] old(self)@.playlists[k], final(self)@.playlists[k], id),
    {
        let ghost f = |it: MediaItemView| it.id != id;
        let ghost before = old(self)@.items;
        let mut kept: Vec<MediaItem> = Vec::new();
        let mut found = false;
        let n = self.items.len();
        let mut old_items: Vec<MediaItem> = Vec::new();
        std::mem::swap(&mut old_items, &mut self.items);
        assert(items_view(old_items@) == before);
        let mut i: usize = 0;
        while i < n
            invariant
                n == old_items.len(),
                items_view(old_items@) == before,
                i <= n,
                f == (|it: MediaItemView| it.id != id),
                items_view(kept@) == keep(before.take(i as int), f),
                found == exists|j: int| 0 <= j < i && (#[trigger] before[j]).id == id,
            decreases n - i,
        {
            proof {
                lemma_keep_step(before, f, i as int);
            }
            if old_items[i].id != id {
                let c = old_items[i].copy();
                kept.push(c);
                assert(items_view(kept@) =~= keep(before.take(i as int), f).push(before[i as int]));
            } else {
                found = true;
            }
            i = i + 1;
        }
        assert(before.take(n as int) =~= before);
        self.items = kept;

        let m = self.playlists.len();
        let mut k: usize = 0;
        while k < m
            invariant
                m == self.playlists.len(),
                m == old(self).playlists.len(),
                k <= m,
                items_view(self.items@) == keep(before, f),
                self.scan_paths == old(self).scan_paths,
                forall|j: int| 0 <= j < k ==>
                    playlist_without(#[trigger] old(self)@.playlists[j], playlists_view(self.playlists@)[j], id),
                forall|j: int| k <= j < m ==> #[trigger] self.playlists@[j] == old(self).playlists@[j],
            decreases m - k,
        {
            let mut pl = self.playlists[k].copy();
            let _ = pl.remove(id);
            self.playlists.set(k, pl);
            k = k + 1;
        }
        found
    }

    /// The items matching a search: title, artist, album or a tag contains
    /// the query, ignoring case. Library order is kept.
    pub fn search(&self, query: &str) -> (res: Vec<&MediaItem>)
        ensures
            item_refs_view(res@) == search_result(self@.items, query@),
    {
        let ql = lowercase(query);
        let q = char_vec(ql.as_str());
        let ghost f = |it: MediaItemView| item_matches(it, spec_lowercase(query@));
        let mut out: Vec<&MediaItem> = Vec::new();
        let mut i: usize = 0;
        while i < self.items.len()
            invariant
                i <= self.items.len(),
                q@ == spec_lowercase(query@),
                f == (|it: MediaItemView| item_matches(it, spec_lowercase(query@))),
                item_refs_view(out@) == keep(self@.items.take(i as int), f),
            decreases self.items.len() - i,
        {
            proof {
                lemma_keep_step(self@.items, f, i as int);
            }
            if matches_query(&self.items[i], &q) {
                out.push(&self.items[i]);
                assert(item_refs_view(out@) =~= keep(self@.items.take(i as int), f).push(self@.items[i as int]));
            }
            i = i + 1;
        }
        assert(self@.items.take(self.items.len() as int) =~= self@.items);
        out
    }

    fn items_of_type(&self, t: MediaType) -> (res: Vec<&MediaItem>)
        ensures
            item_refs_view(res@) == keep(self@.items, |it: MediaItemView| it.media_type == t),
    {
        let ghost f = |it: MediaItemView| it.media_type == t;
        let mut out: Vec<&MediaItem> = Vec::new();
        let mut i: usize = 0;
        while i < self.items.len()
            invariant
                i <= self.items.len(),
                f == (|it: MediaItemView| it.media_type == t),
                item_refs_view(out@) == keep(self@.items.take(i as int), f),
            decreases self.items.len() - i,
        {
            proof {
                lemma_keep_step(self@.items, f, i as int);
            }
            if self.items[i].media_type == t {
                out.push(&self.items[i]);
                assert(item_refs_view(out@) =~= keep(self@.items.take(i as int), f).push(self@.items[i as int]));
            }
            i = i + 1;
        }
        assert(self@.items.take(self.items.len() as int) =~= self@.items);
        out
    }

    /// The audio items, in library order.
    pub fn audio_items(&self) -> (res: Vec<&MediaItem>)
        ensures
            item_refs_view(res@) == keep(self@.items, |it: MediaItemView| it.media_type == MediaType::Audio),
    {
        self.items_of_type(MediaType::Audio)
    }

    /// The video items, in library order.
    pub fn video_items(&self) -> (res: Vec<&MediaItem>)
        ensures
            item_refs_view(res@) == keep(self@.items, |it: MediaItemView| it.media_type == MediaType::Video),
    {
        self.items_of_type(MediaType::Video)
    }

    /// Adds a scan path unless an equal path (compared as paths) is already
    /// present.
    pub fn add_scan_path(&mut self, path: String)
        ensures
            final(self)@ == (LibraryView {
                scan_paths: if exists|k: int| 0 <= k < old(self)@.scan_paths.len()
                    && spec_path_eq(#[trigger] old(self)@.scan_paths[k], path@) {
                    old(self)@.scan_paths
                } else {
                    old(self)@.scan_paths.push(path@)
                },
                ..old(self)@
            }),
    {
        let ghost paths = self.scan_paths.deep_view();
        let mut i: usize = 0;
        while i < self.scan_paths.len()
            invariant
                i <= self.scan_paths.len(),
                paths == self.scan_paths.deep_view(),
                paths.len() == self.scan_paths.len(),
                forall|j: int| 0 <= j < i ==> !spec_path_eq(#[trigger] paths[j], path@),
            decreases self.scan_paths.len() - i,
        {
            assert(paths[i as int] == self.scan_paths@[i as int]@);
            if path_eq(self.scan_paths[i].as_str(), path.as_str()) {
                return;
            }
            i = i + 1;
        }
        self.scan_paths.push(path);
        assert(self.scan_paths.deep_view() =~= paths.push(path@));
    }

    /// Creates an empty playlist, appends it, and returns its id.
    pub fn create_playlist(&mut self, name: &str) -> (id: u128)
        ensures
            final(self)@.items == old(self)@.items,
            final(self)@.scan_paths == old(self)@.scan_paths,
            final(self)@.playlists.len() == old(self)@.playlists.len() + 1,
            final(self)@.playlists.drop_last() == old(self)@.playlists,
            final(self)@.playlists.last().id == id,
            final(self)@.playlists.last().name == name@,
            final(self)@.playlists.last().items.len() == 0,
            !final(self)@.playlists.last().is_smart,
    {
        let pl = Playlist::new(name);
        let id = pl.id;
        self.playlists.push(pl);
        assert(playlists_view(self.playlists@).drop_last() =~= playlists_view(old(self).playlists@));
        id
    }

    /// Index of the first playlist with the given id.
    pub fn find_playlist_index(&self, id: u128) -> (res: Option<usize>)
        ensures
            match res {
                Some(i) => playlist_index(self@.playlists, id) == Some(i as int),
                None => playlist_index(self@.playlists, id) is None,
            },
    {
        let ghost p = |i: int| self@.playlists[i].id == id;
        let mut i: usize = 0;
        while i < self.playlists.len()
            invariant
                i <= self.playlists.len(),
                p == (|i: int| self@.playlists[i].id == id),
                forall|j: int| 0 <= j < i ==> !#[trigger] p(j),
            decreases self.playlists.len() - i,
        {
            if self.playlists[i].id == id {
                proof {
                    assert(is_first(p, self@.playlists.len() as int, i as int));
                    lemma_first_is(p, self@.playlists.len() as int, i as int);
                }
                return Some(i);
            }
            i = i + 1;
        }
        proof {
            lemma_first_none(p, self@.playlists.len() as int);
        }
        None
    }

    /// The first playlist with the given id.
    pub fn find_playlist(&self, id: u128) -> (res: Option<&Playlist>)
        ensures
            found_playlist(res) == match playlist_index(self@.playlists, id) {
                Some(i) => Some(self@.playlists[i]),
                None => None,
            },
    {
        match self.find_playlist_index(id) {
            Some(i) => Some(&self.playlists[i]),
            None => None,
        }
    }

    /// The first playlist with the given id, for changing it in place.
    pub fn find_playlist_mut(&mut self, id: u128) -> (res: Option<&mut Playlist>)
        ensures
            match res {
                Some(r) => {
                    &&& playlist_index(old(self)@.playlists, id) is Some
                    &&& (*r)@ == old(self)@.playlists[playlist_index(old(self)@.playlists, id)->0]
                    &&& final(self).playlists@ == old(self).playlists@.update(playlist_index(old(self)@.playlists, id)->0, *final(r))
                    &&& final(self).items == old(self).items
                    &&& final(self).scan_paths == old(self).scan_paths
                },
                None => playlist_index(old(self)@.playlists, id) is None && *final(self) == *old(self),
            },
    {
        match self.find_playlist_index(id) {
            Some(i) => Some(&mut self.playlists[i]),
            None => None,
        }
    }
}


/// No index where `p` holds means no first one, and back.
proof fn lemma_no_index(items: Seq<MediaItemView>, id: u128)
    ensures
        item_index(items, id) is None <==> forall|j: int| 0 <= j < items.len() ==> #[trigger] items[j].id != id,
{
    let p = |i: int| items[i].id == id;
    if exists|j: int| 0 <= j < items.len() && #[trigger] items[j].id == id {
        let j = choose|j: int| 0 <= j < items.len() && #[trigger] items[j].id == id;
        crate::seqs::lemma_first_exists(p, items.len() as int, j);
    } else {
        assert forall|j: int| 0 <= j < items.len() implies !#[trigger] p(j) by {}
        lemma_first_none(p, items.len() as int);
    }
}

/// An item added under an id the library did not have is what a lookup of
/// that id finds afterwards; lookups of every other id are unchanged.
pub proof fn lemma_add_then_find(items: Seq<MediaItemView>, it: MediaItemView, id: u128)
    requires
        lookup_item(items, it.id) is None,
    ensures
        lookup_item(items.push(it), it.id) == Some(it),
        id != it.id ==> lookup_item(items.push(it), id) == lookup_item(items, id),
{
    let s = items.push(it);
    lemma_no_index(items, it.id);
    let q = |i: int| s[i].id == it.id;
    assert forall|j: int| 0 <= j < items.len() implies !#[trigger] q(j) by {
        assert(s[j] == items[j]);
    }
    assert(s[items.len() as int] == it);
    assert(is_first(q, s.len() as int, items.len() as int));
    lemma_first_is(q, s.len() as int, items.len() as int);
    if id != it.id {
        let p = |i: int| items[i].id == id;
        let p2 = |i: int| s[i].id == id;
        match item_index(items, id) {
            Some(i) => {
                assert(is_first(p, items.len() as int, i));
                assert forall|j: int| 0 <= j < i implies !#[trigger] p2(j) by {
                    assert(s[j] == items[j]);
                    assert(!p(j));
                }
                assert(s[i] == items[i]);
                assert(is_first(p2, s.len() as int, i));
                lemma_first_is(p2, s.len() as int, i);
            },
            None => {
                lemma_no_index(items, id);
                assert forall|j: int| 0 <= j < s.len() implies !#[trigger] p2(j) by {
                    if j < items.len() {
                        assert(s[j] == items[j]);
                    }
                }
                lemma_first_none(p2, s.len() as int);
            },
        }
    }
}

/// After removing an id no item has it.
pub proof fn lemma_remove_then_find(items: Seq<MediaItemView>, id: u128)
    ensures
        lookup_item(items_without(items, id), id) is None,
{
    let f = |it: MediaItemView| it.id != id;
    let r = items_without(items, id);
    crate::seqs::lemma_keep_all(items, f);
    assert forall|j: int| 0 <= j < r.len() implies #[trigger] r[j].id != id by {
        assert(f(r[j]));
    }
    lemma_no_index(r, id);
}

/// A search keeps exactly the library items whose title, artist, album or
/// one of whose tags contains the query, both lower-cased: every result is
/// such an item of the library, and every such item is among the results.
pub proof fn lemma_search_finds(items: Seq<MediaItemView>, query: Seq<char>)
    ensures
        forall|i: int| 0 <= i < search_result(items, query).len() ==> {
            let it = #[trigger] search_result(items, query)[i];
            &&& items.contains(it)
            &&& seq_contains(spec_lowercase(it.title), spec_lowercase(query))
                || (it.artist is Some && seq_contains(spec_lowercase(it.artist->0), spec_lowercase(query)))
                || (it.album is Some && seq_contains(spec_lowercase(it.album->0), spec_lowercase(query)))
                || (exists|t: int| 0 <= t < it.tags.len()
                    && seq_contains(spec_lowercase(#[trigger] it.tags[t]), spec_lowercase(query)))
        },
        forall|k: int| 0 <= k < items.len() && (
            seq_contains(spec_lowercase((#[trigger] items[k]).title), spec_lowercase(query))
                || (items[k].artist is Some && seq_contains(spec_lowercase(items[k].artist->0), spec_lowercase(query)))
                || (items[k].album is Some && seq_contains(spec_lowercase(items[k].album->0), spec_lowercase(query)))
                || (exists|t: int| 0 <= t < items[k].tags.len()
                    && seq_contains(spec_lowercase(#[trigger] items[k].tags[t]), spec_lowercase(query))))
            ==> search_result(items, query).contains(items[k]),
{
    let f = |it: MediaItemView| item_matches(it, spec_lowercase(query));
    let r = search_result(items, query);
    crate::seqs::lemma_keep_all(items, f);
    crate::seqs::lemma_keep_members(items, f);
    assert forall|i: int| 0 <= i < r.len() implies {
        let it = #[trigger] r[i];
        &&& items.contains(it)
        &&& seq_contains(spec_lowercase(it.title), spec_lowercase(query))
            || (it.artist is Some && seq_contains(spec_lowercase(it.artist->0), spec_lowercase(query)))
            || (it.album is Some && seq_contains(spec_lowercase(it.album->0), spec_lowercase(query)))
            || (exists|t: int| 0 <= t < it.tags.len()
                && seq_contains(spec_lowercase(#[trigger] it.tags[t]), spec_lowercase(query)))
    } by {
        let it = r[i];
        assert(f(it));
        let k = choose|k: int| 0 <= k < items.len() && items[k] == it;
        assert(items[k] == it);
        if tags_have(it.tags, spec_lowercase(query)) {
            let t = choose|t: int| 0 <= t < it.tags.len() && folded_has(#[trigger] it.tags[t], spec_lowercase(query));
            assert(seq_contains(spec_lowercase(it.tags[t]), spec_lowercase(query)));
        }
    }
    assert forall|k: int| 0 <= k < items.len() && (
        seq_contains(spec_lowercase((#[trigger] items[k]).title), spec_lowercase(query))
            || (items[k].artist is Some && seq_contains(spec_lowercase(items[k].artist->0), spec_lowercase(query)))
            || (items[k].album is Some && seq_contains(spec_lowercase(items[k].album->0), spec_lowercase(query)))
            || (exists|t: int| 0 <= t < items[k].tags.len()
                && seq_contains(spec_lowercase(#[trigger] items[k].tags[t]), spec_lowercase(query))))
        implies r.contains(items[k]) by {
        let it = items[k];
        if exists|t: int| 0 <= t < it.tags.len() && seq_contains(spec_lowercase(#[trigger] it.tags[t]), spec_lowercase(query)) {
            let t = choose|t: int| 0 <= t < it.tags.len() && seq_contains(spec_lowercase(#[trigger] it.tags[t]), spec_lowercase(query));
            assert(folded_has(it.tags[t], spec_lowercase(query)));
        }
        assert(f(it));
        crate::seqs::lemma_keep_keeps(items, f, k);
        let j = choose|j: int| 0 <= j < keep(items, f).len() && keep(items, f)[j] == items[k];
        assert(r[j] == items[k]);
    }
}

} // verus!
