//! Smart playlists (items selected by criteria) and library insights.

use vstd::prelude::*;
use crate::ids::{new_id, now_millis};
use crate::library::{items_view, Library, LibraryView};
use crate::media::{MediaItem, MediaItemView, MediaType};
use crate::playlist::{Playlist, PlaylistView};
use crate::recommend::has_tag_folded;
use crate::seqs::{keep, lemma_keep_keeps, lemma_keep_step};
use crate::text::{char_vec, copy_string, eq_folded, lowercase, opt_seq, seq_contains, spec_lowercase, text_eq};

verus! {

/// Milliseconds in a day.
pub const DAY_MS: i64 = 86_400_000;

/// Smart playlist criteria. Durations are in milliseconds.
#[derive(Debug, Clone)]
pub enum SmartCriteria {
    Artist(String),
    Album(String),
    Tag(String),
    MediaType(MediaType),
    MinDuration(u64),
    MaxDuration(u64),
    MinPlayCount(u32),
    MinRating(u8),
    RecentlyAdded { days: u32 },
    RecentlyPlayed { days: u32 },
}

/// The abstract value of a [`SmartCriteria`].
pub enum CriteriaView {
    Artist(Seq<char>),
    Album(Seq<char>),
    Tag(Seq<char>),
    MediaType(MediaType),
    MinDuration(u64),
    MaxDuration(u64),
    MinPlayCount(u32),
    MinRating(u8),
    RecentlyAdded { days: u32 },
    RecentlyPlayed { days: u32 },
}

impl View for SmartCriteria {
    type V = CriteriaView;

    open spec fn view(&self) -> CriteriaView {
        match self {
            SmartCriteria::Artist(a) => CriteriaView::Artist(a@),
            SmartCriteria::Album(a) => CriteriaView::Album(a@),
            SmartCriteria::Tag(t) => CriteriaView::Tag(t@),
            SmartCriteria::MediaType(m) => CriteriaView::MediaType(*m),
            SmartCriteria::MinDuration(d) => CriteriaView::MinDuration(*d),
            SmartCriteria::MaxDuration(d) => CriteriaView::MaxDuration(*d),
            SmartCriteria::MinPlayCount(n) => CriteriaView::MinPlayCount(*n),
            SmartCriteria::MinRating(r) => CriteriaView::MinRating(*r),
            SmartCriteria::RecentlyAdded { days } => CriteriaView::RecentlyAdded { days: *days },
            SmartCriteria::RecentlyPlayed { days } => CriteriaView::RecentlyPlayed { days: *days },
        }
    }
}

pub open spec fn criteria_view(s: Seq<SmartCriteria>) -> Seq<CriteriaView> {
    s.map_values(|c: SmartCriteria| c@)
}

/// The optional text contains `needle` ignoring case.
pub open spec fn opt_contains_folded(t: Option<Seq<char>>, needle: Seq<char>) -> bool {
    match t {
        Some(x) => seq_contains(spec_lowercase(x), spec_lowercase(needle)),
        None => false,
    }
}

/// The instant `days` days before `now`.
pub open spec fn cutoff(now: i64, days: u32) -> int {
    now - days * DAY_MS
}

/// Whether an item meets one criterion, at time `now`.
pub open spec fn meets(item: MediaItemView, c: CriteriaView, now: i64) -> bool {
    match c {
        CriteriaView::Artist(a) => opt_contains_folded(item.artist, a),
        CriteriaView::Album(a) => opt_contains_folded(item.album, a),
        CriteriaView::Tag(t) => has_tag_folded(item.tags, t),
        CriteriaView::MediaType(m) => item.media_type == m,
        CriteriaView::MinDuration(d) => item.duration_ms matches Some(x) && x >= d,
        CriteriaView::MaxDuration(d) => item.duration_ms matches Some(x) && x <= d,
        CriteriaView::MinPlayCount(n) => item.play_count >= n,
        CriteriaView::MinRating(r) => item.rating matches Some(x) && x >= r,
        CriteriaView::RecentlyAdded { days } => item.added_at_ms >= cutoff(now, days),
        CriteriaView::RecentlyPlayed { days } => item.last_played_ms matches Some(t) && t >= cutoff(now, days),
    }
}

/// Whether an item meets all criteria at time `now`.
pub open spec fn meets_all(item: MediaItemView, cs: Seq<CriteriaView>, now: i64) -> bool {
    forall|k: int| 0 <= k < cs.len() ==> meets(item, #[trigger] cs[k], now)
}

/// The ids a smart playlist over these items holds: those of the items that
/// meet every criterion, in library order.
pub open spec fn smart_ids(items: Seq<MediaItemView>, cs: Seq<CriteriaView>, now: i64) -> Seq<u128> {
    keep(items, |it: MediaItemView| meets_all(it, cs, now)).map_values(|it: MediaItemView| it.id)
}

fn opt_contains(t: &Option<String>, needle: &str) -> (res: bool)
    ensures
        res == opt_contains_folded(opt_seq(*t), needle@),
{
    match t {
        Some(x) => {
            let nl = lowercase(needle);
            let n = char_vec(nl.as_str());
            crate::text::contains_folded(x.as_str(), &n)
        },
        None => false,
    }
}

fn has_tag(tags: &Vec<String>, t: &str) -> (res: bool)
    ensures
        res == has_tag_folded(tags.deep_view(), t@),
{
    let mut k: usize = 0;
    while k < tags.len()
        invariant
            k <= tags.len(),
            forall|j: int| 0 <= j < k ==> spec_lowercase(#[trigger] tags.deep_view()[j]) != spec_lowercase(t@),
        decreases tags.len() - k,
    {
        if eq_folded(tags[k].as_str(), t) {
            assert(spec_lowercase(tags.deep_view()[k as int]) == spec_lowercase(t@));
            return true;
        }
        k = k + 1;
    }
    false
}

/// Whether an item meets one criterion at time `now`.
pub fn meets_criterion(item: &MediaItem, c: &SmartCriteria, now: i64) -> (res: bool)
    ensures
        res == meets(item@, c@, now),
{
    match c {
        SmartCriteria::Artist(a) => opt_contains(&item.artist, a.as_str()),
        SmartCriteria::Album(a) => opt_contains(&item.album, a.as_str()),
        SmartCriteria::Tag(t) => has_tag(&item.tags, t.as_str()),
        SmartCriteria::MediaType(m) => item.media_type == *m,
        SmartCriteria::MinDuration(d) => match item.duration_ms {
            Some(x) => x >= *d,
            None => false,
        },
        SmartCriteria::MaxDuration(d) => match item.duration_ms {
            Some(x) => x <= *d,
            None => false,
        },
        SmartCriteria::MinPlayCount(n) => item.play_count >= *n,
        SmartCriteria::MinRating(r) => match item.rating {
            Some(x) => x >= *r,
            None => false,
        },
        SmartCriteria::RecentlyAdded { days } => {
            let cut: i128 = now as i128 - (*days as i128) * (DAY_MS as i128);
            item.added_at_ms as i128 >= cut
        },
        SmartCriteria::RecentlyPlayed { days } => match item.last_played_ms {
            Some(t) => {
                let cut: i128 = now as i128 - (*days as i128) * (DAY_MS as i128);
                t as i128 >= cut
            },
            None => false,
        },
    }
}

/// Whether an item meets all criteria at time `now`.
pub fn meets_all_criteria(item: &MediaItem, criteria: &Vec<SmartCriteria>, now: i64) -> (res: bool)
    ensures
        res == meets_all(item@, criteria_view(criteria@), now),
{
    let mut k: usize = 0;
    while k < criteria.len()
        invariant
            k <= criteria.len(),
            forall|j: int| 0 <= j < k ==> meets(item@, #[trigger] criteria_view(criteria@)[j], now),
        decreases criteria.len() - k,
    {
        if !meets_criterion(item, &criteria[k], now) {
            assert(!meets(item@, criteria_view(criteria@)[k as int], now));
            return false;
        }
        k = k + 1;
    }
    true
}

/// Generate a smart playlist from criteria, evaluated at the current time:
/// a new playlist marked smart holding, in library order, the ids of the
/// items that meet every criterion.
pub fn generate_smart_playlist(library: &Library, name: &str, criteria: &Vec<SmartCriteria>) -> (pl: Playlist)
    ensures
        pl@.name == name@,
        pl@.is_smart,
        pl@.description is None,
        exists|now: i64| pl@.items == #[trigger] smart_ids(library@.items, criteria_view(criteria@), now),
        pl@.items.len() == 0 ==> pl@.modified_at_ms == pl@.created_at_ms,
{
    let id = new_id();
    let created = now_millis();
    let now = now_millis();
    generate_smart_playlist_at(library, name, criteria, id, created, now)
}

/// [`generate_smart_playlist`] with the playlist's id, its creation time
/// and the time the criteria are evaluated at given. A playlist that no
/// item went into was last modified when it was created; each item added
/// sets the modification time from the clock.
pub fn generate_smart_playlist_at(
    library: &Library,
    name: &str,
    criteria: &Vec<SmartCriteria>,
    id: u128,
    created: i64,
    now: i64,
) -> (pl: Playlist)
    ensures
        pl@ == (PlaylistView {
            id: id,
            name: name@,
            items: smart_ids(library@.items, criteria_view(criteria@), now),
            created_at_ms: created,
            modified_at_ms: pl@.modified_at_ms,
            description: None,
            is_smart: true,
        }),
        pl@.items.len() == 0 ==> pl@.modified_at_ms == created,
{
    let mut pl = Playlist::new_at(id, name, created);
    pl.is_smart = true;
    let ghost f = |it: MediaItemView| meets_all(it, criteria_view(criteria@), now);
    let mut i: usize = 0;
    while i < library.items.len()
        invariant
            i <= library.items.len(),
            f == (|it: MediaItemView| meets_all(it, criteria_view(criteria@), now)),
            pl@.id == id,
            pl@.name == name@,
            pl@.created_at_ms == created,
            pl@.description is None,
            pl@.is_smart,
            pl@.items.len() == 0 ==> pl@.modified_at_ms == created,
            pl@.items == keep(library@.items.take(i as int), f).map_values(|it: MediaItemView| it.id),
        decreases library.items.len() - i,
    {
        proof {
            lemma_keep_step(library@.items, f, i as int);
        }
        let ghost before = keep(library@.items.take(i as int), f);
        if meets_all_criteria(&library.items[i], criteria, now) {
            pl.add(library.items[i].id);
            assert(before.push(library@.items[i as int]).map_values(|it: MediaItemView| it.id)
                =~= before.map_values(|it: MediaItemView| it.id).push(library@.items[i as int].id));
        }
        i = i + 1;
    }
    assert(library@.items.take(library.items.len() as int) =~= library@.items);
    pl
}


/// Some item with this id meets every criterion.
pub open spec fn id_meets_all(items: Seq<MediaItemView>, cs: Seq<CriteriaView>, now: i64, id: u128) -> bool {
    exists|k: int| 0 <= k < items.len() && (#[trigger] items[k]).id == id && meets_all(items[k], cs, now)
}

/// A smart playlist holds exactly the items that meet every criterion: each
/// id it holds is that of an item meeting all criteria, and each such item's
/// id is in it.
pub proof fn lemma_smart_ids_exact(items: Seq<MediaItemView>, cs: Seq<CriteriaView>, now: i64)
    ensures
        forall|i: int| 0 <= i < smart_ids(items, cs, now).len() ==>
            id_meets_all(items, cs, now, #[trigger] smart_ids(items, cs, now)[i]),
        forall|k: int| 0 <= k < items.len() && meets_all(#[trigger] items[k], cs, now) ==>
            smart_ids(items, cs, now).contains(items[k].id),
{
    let f = |it: MediaItemView| meets_all(it, cs, now);
    let kept = keep(items, f);
    crate::seqs::lemma_keep_all(items, f);
    crate::seqs::lemma_keep_members(items, f);
    assert forall|i: int| 0 <= i < smart_ids(items, cs, now).len() implies
        id_meets_all(items, cs, now, #[trigger] smart_ids(items, cs, now)[i]) by {
        assert(smart_ids(items, cs, now)[i] == kept[i].id);
        assert(f(kept[i]));
        let k = choose|k: int| 0 <= k < items.len() && items[k] == kept[i];
        assert(items[k].id == smart_ids(items, cs, now)[i]);
        assert(meets_all(items[k], cs, now));
    }
    assert forall|k: int| 0 <= k < items.len() && meets_all(#[trigger] items[k], cs, now) implies
        smart_ids(items, cs, now).contains(items[k].id) by {
        lemma_keep_keeps(items, f, k);
        let j = choose|j: int| 0 <= j < kept.len() && kept[j] == items[k];
        assert(smart_ids(items, cs, now)[j] == items[k].id);
    }
}

/// What each criterion asks of an item, at time `now`: its artist or album
/// contains the text ignoring case; one of its tags equals the tag ignoring
/// case; its media type is the given one; its duration is known and at
/// least / at most the limit; it was played at least `n` times; its rating
/// is known and at least `r`; it was added (last played) no more than
/// `days` days before `now`.
pub proof fn lemma_criteria_meaning(item: MediaItemView, now: i64)
    ensures
        forall|a: Seq<char>| #[trigger] meets(item, CriteriaView::Artist(a), now)
            <==> (item.artist is Some && seq_contains(spec_lowercase(item.artist->0), spec_lowercase(a))),
        forall|a: Seq<char>| #[trigger] meets(item, CriteriaView::Album(a), now)
            <==> (item.album is Some && seq_contains(spec_lowercase(item.album->0), spec_lowercase(a))),
        forall|t: Seq<char>| #[trigger] meets(item, CriteriaView::Tag(t), now)
            <==> (exists|k: int| 0 <= k < item.tags.len() && spec_lowercase(#[trigger] item.tags[k]) == spec_lowercase(t)),
        forall|m: MediaType| #[trigger] meets(item, CriteriaView::MediaType(m), now) <==> item.media_type == m,
        forall|d: u64| #[trigger] meets(item, CriteriaView::MinDuration(d), now)
            <==> (item.duration_ms is Some && item.duration_ms->0 >= d),
        forall|d: u64| #[trigger] meets(item, CriteriaView::MaxDuration(d), now)
            <==> (item.duration_ms is Some && item.duration_ms->0 <= d),
        forall|n: u32| #[trigger] meets(item, CriteriaView::MinPlayCount(n), now) <==> item.play_count >= n,
        forall|r: u8| #[trigger] meets(item, CriteriaView::MinRating(r), now)
            <==> (item.rating is Some && item.rating->0 >= r),
        forall|days: u32| #[trigger] meets(item, CriteriaView::RecentlyAdded { days }, now)
            <==> item.added_at_ms + days * 86_400_000 >= now,
        forall|days: u32| #[trigger] meets(item, CriteriaView::RecentlyPlayed { days }, now)
            <==> (item.last_played_ms is Some && item.last_played_ms->0 + days * 86_400_000 >= now),
{
}

/// An item kept by a smart playlist meets every criterion, and an item that
/// fails one criterion is not in it (item ids being distinct).
pub proof fn lemma_smart_playlist_members(items: Seq<MediaItemView>, cs: Seq<CriteriaView>, now: i64)
    requires
        forall|i: int, j: int| 0 <= i < j < items.len() ==> (#[trigger] items[i]).id != (#[trigger] items[j]).id,
    ensures
        forall|k: int, c: int| 0 <= k < items.len() && 0 <= c < cs.len()
            && #[trigger] smart_ids(items, cs, now).contains(items[k].id) ==> meets(items[k], #[trigger] cs[c], now),
        forall|k: int| 0 <= k < items.len() ==>
            (#[trigger] smart_ids(items, cs, now).contains(items[k].id)
                <==> forall|c: int| 0 <= c < cs.len() ==> meets(items[k], #[trigger] cs[c], now)),
{
    lemma_smart_ids_exact(items, cs, now);
    assert forall|k: int| 0 <= k < items.len() implies
        (#[trigger] smart_ids(items, cs, now).contains(items[k].id)
            <==> forall|c: int| 0 <= c < cs.len() ==> meets(items[k], #[trigger] cs[c], now)) by {
        if smart_ids(items, cs, now).contains(items[k].id) {
            let i = choose|i: int| 0 <= i < smart_ids(items, cs, now).len() && smart_ids(items, cs, now)[i] == items[k].id;
            assert(id_meets_all(items, cs, now, smart_ids(items, cs, now)[i]));
            let j = choose|j: int| 0 <= j < items.len() && (#[trigger] items[j]).id == items[k].id && meets_all(items[j], cs, now);
            if j != k {
                if j < k { assert(items[j].id != items[k].id); } else { assert(items[k].id != items[j].id); }
            }
        }
        if forall|c: int| 0 <= c < cs.len() ==> meets(items[k], #[trigger] cs[c], now) {
            assert(meets_all(items[k], cs, now));
        }
    }
}

/// A playlist of the tracks no longer than `d` holds exactly the items whose
/// duration is known and at most `d`: a longer item, or one of unknown
/// duration, is never in it (item ids being distinct).
pub proof fn lemma_max_duration_playlist(items: Seq<MediaItemView>, d: u64, now: i64)
    requires
        forall|i: int, j: int| 0 <= i < j < items.len() ==> (#[trigger] items[i]).id != (#[trigger] items[j]).id,
    ensures
        forall|k: int| 0 <= k < items.len() ==>
            (#[trigger] smart_ids(items, seq![CriteriaView::MaxDuration(d)], now).contains(items[k].id)
                <==> (items[k].duration_ms is Some && items[k].duration_ms->0 <= d)),
{
    let cs = seq![CriteriaView::MaxDuration(d)];
    lemma_smart_playlist_members(items, cs, now);
    assert forall|k: int| 0 <= k < items.len() implies
        (#[trigger] smart_ids(items, cs, now).contains(items[k].id)
            <==> (items[k].duration_ms is Some && items[k].duration_ms->0 <= d)) by {
        lemma_criteria_meaning(items[k], now);
        assert(cs[0] == CriteriaView::MaxDuration(d));
        if items[k].duration_ms is Some && items[k].duration_ms->0 <= d {
            assert forall|c: int| 0 <= c < cs.len() implies meets(items[k], #[trigger] cs[c], now) by {
                assert(c == 0);
            }
        }
        if smart_ids(items, cs, now).contains(items[k].id) {
            assert(meets(items[k], cs[0], now));
        }
    }
}

} // verus!
