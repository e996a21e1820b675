//! Content-based recommendations: each library item is scored against a
//! seed item by shared artist, album, duration, type, tags and play count.

use vstd::prelude::*;
use crate::library::{items_view, lookup_item, Library};
use crate::media::{MediaItem, MediaItemView};
use crate::seqs::{keep, lemma_keep_step};
use crate::text::{copy_string, eq_folded, push_str, spec_lowercase};

verus! {

/// Why an item was recommended.
#[derive(Debug, Clone)]
pub enum RecommendationReason {
    SameArtist,
    SameAlbum,
    SameGenre,
    SimilarDuration,
    FrequentlyPlayed,
    RecentlyAdded,
    Tagged(String),
}

/// The abstract value of a [`RecommendationReason`].
pub enum ReasonView {
    SameArtist,
    SameAlbum,
    SameGenre,
    SimilarDuration,
    FrequentlyPlayed,
    RecentlyAdded,
    Tagged(Seq<char>),
}

impl View for RecommendationReason {
    type V = ReasonView;

    open spec fn view(&self) -> ReasonView {
        match self {
            RecommendationReason::SameArtist => ReasonView::SameArtist,
            RecommendationReason::SameAlbum => ReasonView::SameAlbum,
            RecommendationReason::SameGenre => ReasonView::SameGenre,
            RecommendationReason::SimilarDuration => ReasonView::SimilarDuration,
            RecommendationReason::FrequentlyPlayed => ReasonView::FrequentlyPlayed,
            RecommendationReason::RecentlyAdded => ReasonView::RecentlyAdded,
            RecommendationReason::Tagged(t) => ReasonView::Tagged(t@),
        }
    }
}

impl ReasonView {
    pub open spec fn text(self) -> Seq<char> {
        match self {
            ReasonView::SameArtist => "same artist"@,
            ReasonView::SameAlbum => "same album"@,
            ReasonView::SameGenre => "same genre"@,
            ReasonView::SimilarDuration => "similar duration"@,
            ReasonView::FrequentlyPlayed => "frequently played"@,
            ReasonView::RecentlyAdded => "recently added"@,
            ReasonView::Tagged(t) => "tagged '"@ + t + "'"@,
        }
    }
}

impl RecommendationReason {
    /// The display text ("same artist", "tagged 'rock'", ...).
    pub fn to_string(&self) -> (res: String)
        ensures
            res@ == self@.text(),
    {
        match self {
            RecommendationReason::SameArtist => String::from_str("same artist"),
            RecommendationReason::SameAlbum => String::from_str("same album"),
            RecommendationReason::SameGenre => String::from_str("same genre"),
            RecommendationReason::SimilarDuration => String::from_str("similar duration"),
            RecommendationReason::FrequentlyPlayed => String::from_str("frequently played"),
            RecommendationReason::RecentlyAdded => String::from_str("recently added"),
            RecommendationReason::Tagged(t) => {
                let mut s = String::from_str("tagged '");
                push_str(&mut s, t.as_str());
                push_str(&mut s, "'");
                s
            },
        }
    }

    fn copy(&self) -> (res: RecommendationReason)
        ensures
            res@ == self@,
    {
        match self {
            RecommendationReason::SameArtist => RecommendationReason::SameArtist,
            RecommendationReason::SameAlbum => RecommendationReason::SameAlbum,
            RecommendationReason::SameGenre => RecommendationReason::SameGenre,
            RecommendationReason::SimilarDuration => RecommendationReason::SimilarDuration,
            RecommendationReason::FrequentlyPlayed => RecommendationReason::FrequentlyPlayed,
            RecommendationReason::RecentlyAdded => RecommendationReason::RecentlyAdded,
            RecommendationReason::Tagged(t) => RecommendationReason::Tagged(copy_string(t)),
        }
    }
}

/// A recommended media item. The score is a sum of whole points.
#[derive(Debug, Clone)]
pub struct Recommendation {
    pub item_id: u128,
    pub score: u128,
    pub reasons: Vec<RecommendationReason>,
}

/// The abstract value of a [`Recommendation`].
pub struct RecommendationView {
    pub item_id: u128,
    pub score: u128,
    pub reasons: Seq<ReasonView>,
}

pub open spec fn reasons_view(s: Seq<RecommendationReason>) -> Seq<ReasonView> {
    s.map_values(|r: RecommendationReason| r@)
}

impl View for Recommendation {
    type V = RecommendationView;

    open spec fn view(&self) -> RecommendationView {
        RecommendationView { item_id: self.item_id, score: self.score, reasons: reasons_view(self.reasons@) }
    }
}

pub open spec fn recs_view(s: Seq<Recommendation>) -> Seq<RecommendationView> {
    s.map_values(|r: Recommendation| r@)
}

/// Both texts are present and equal ignoring case.
pub open spec fn same_folded(a: Option<Seq<char>>, b: Option<Seq<char>>) -> bool {
    a is Some && b is Some && spec_lowercase(a->0) == spec_lowercase(b->0)
}

/// The item's duration is within 30% of the seed's (the seed's taken as at
/// least one second).
pub open spec fn similar_duration(seed_ms: Option<u64>, item_ms: Option<u64>) -> bool {
    match (seed_ms, item_ms) {
        (Some(s), Some(i)) => {
            let d: int = if s < 1000 { 1000 } else { s as int };
            7 * d <= 10 * (i as int) && 10 * (i as int) <= 13 * d
        },
        _ => false,
    }
}

/// Some of `tags` equals `t` ignoring case.
pub open spec fn has_tag_folded(tags: Seq<Seq<char>>, t: Seq<char>) -> bool {
    exists|k: int| 0 <= k < tags.len() && spec_lowercase(#[trigger] tags[k]) == spec_lowercase(t)
}

/// The seed's tags that the item shares, in the seed's order.
pub open spec fn shared_tags(seed_tags: Seq<Seq<char>>, item_tags: Seq<Seq<char>>) -> Seq<Seq<char>> {
    keep(seed_tags, |t: Seq<char>| has_tag_folded(item_tags, t))
}

pub open spec fn opt_reason(b: bool, r: ReasonView) -> Seq<ReasonView> {
    if b { seq![r] } else { Seq::empty() }
}

/// The reasons an item is recommended for, in the order they are checked.
pub open spec fn rec_reasons(seed: MediaItemView, item: MediaItemView) -> Seq<ReasonView> {
    opt_reason(same_folded(seed.artist, item.artist), ReasonView::SameArtist)
        + opt_reason(same_folded(seed.album, item.album), ReasonView::SameAlbum)
        + opt_reason(similar_duration(seed.duration_ms, item.duration_ms), ReasonView::SimilarDuration)
        + shared_tags(seed.tags, item.tags).map_values(|t: Seq<char>| ReasonView::Tagged(t))
        + opt_reason(item.play_count >= 5, ReasonView::FrequentlyPlayed)
}

pub open spec fn points(b: bool, p: int) -> int {
    if b { p } else { 0 }
}

/// The item's score against the seed.
pub open spec fn rec_score(seed: MediaItemView, item: MediaItemView) -> int {
    points(same_folded(seed.artist, item.artist), 30)
        + points(same_folded(seed.album, item.album), 20)
        + points(similar_duration(seed.duration_ms, item.duration_ms), 10)
        + points(item.media_type == seed.media_type, 5)
        + 15 * shared_tags(seed.tags, item.tags).len()
        + points(item.play_count >= 5, 5)
}

pub open spec fn rec_of(seed: MediaItemView, item: MediaItemView) -> RecommendationView {
    RecommendationView { item_id: item.id, score: rec_score(seed, item) as u128, reasons: rec_reasons(seed, item) }
}

/// Inserts `x` after every element whose score is at least `x`'s, scanning
/// from the end.
pub open spec fn insert_desc(s: Seq<RecommendationView>, x: RecommendationView) -> Seq<RecommendationView>
    decreases s.len(),
{
    if s.len() == 0 {
        seq![x]
    } else if s.last().score >= x.score {
        s.push(x)
    } else {
        insert_desc(s.drop_last(), x).push(s.last())
    }
}

/// Stable sort by descending score (insertion sort).
pub open spec fn sort_desc(s: Seq<RecommendationView>) -> Seq<RecommendationView>
    decreases s.len(),
{
    if s.len() == 0 {
        Seq::empty()
    } else {
        insert_desc(sort_desc(s.drop_last()), s.last())
    }
}

pub open spec fn sorted_desc(s: Seq<RecommendationView>) -> bool {
    forall|i: int, j: int| 0 <= i < j < s.len() ==> s[i].score >= s[j].score
}

/// The recommendations for a seed among the library's items, before the
/// count limit: every other item with a positive score, best first.
pub open spec fn ranked(seed: MediaItemView, items: Seq<MediaItemView>) -> Seq<RecommendationView> {
    sort_desc(
        keep(
            keep(items, |it: MediaItemView| it.id != seed.id).map_values(|it: MediaItemView| rec_of(seed, it)),
            |r: RecommendationView| r.score > 0,
        ),
    )
}

/// What `recommend` returns.
pub open spec fn recommend_result(items: Seq<MediaItemView>, seed_id: u128, max: nat) -> Seq<RecommendationView> {
    match lookup_item(items, seed_id) {
        Some(seed) => {
            let r = ranked(seed, items);
            if r.len() <= max { r } else { r.take(max as int) }
        },
        None => Seq::empty(),
    }
}

/// `insert_desc` places `x` at the position `j` that the scan from the end
/// stops at.
pub proof fn lemma_insert_desc_at(s: Seq<RecommendationView>, x: RecommendationView, j: int)
    requires
        0 <= j <= s.len(),
        j > 0 ==> s[j - 1].score >= x.score,
        forall|k: int| j <= k < s.len() ==> #[trigger] s[k].score < x.score,
    ensures
        insert_desc(s, x) == s.take(j).push(x) + s.skip(j),
    decreases s.len(),
{
    if s.len() == 0 {
        assert(insert_desc(s, x) =~= s.take(j).push(x) + s.skip(j));
    } else if j == s.len() {
        assert(s.last() == s[j - 1]);
        assert(insert_desc(s, x) =~= s.take(j).push(x) + s.skip(j));
    } else {
        assert(s.last() == s[s.len() - 1]);
        let d = s.drop_last();
        assert forall|k: int| j <= k < d.len() implies #[trigger] d[k].score < x.score by {
            assert(d[k] == s[k]);
        }
        if j > 0 {
            assert(d[j - 1] == s[j - 1]);
        }
        lemma_insert_desc_at(d, x, j);
        assert(insert_desc(s, x) =~= s.take(j).push(x) + s.skip(j));
    }
}

/// Inserting into a sequence sorted by descending score keeps it sorted.
pub proof fn lemma_insert_desc_sorted(s: Seq<RecommendationView>, x: RecommendationView)
    requires
        sorted_desc(s),
    ensures
        sorted_desc(insert_desc(s, x)),
        insert_desc(s, x).len() == s.len() + 1,
    decreases s.len(),
{
    if s.len() > 0 {
        if s.last().score >= x.score {
            assert forall|i: int, j: int| 0 <= i < j < s.push(x).len() implies
                s.push(x)[i].score >= s.push(x)[j].score by {
                if j == s.len() {
                    assert(s[i].score >= s[s.len() - 1].score || i == s.len() - 1);
                }
            }
        } else {
            let d = s.drop_last();
            assert(sorted_desc(d)) by {
                assert forall|i: int, j: int| 0 <= i < j < d.len() implies d[i].score >= d[j].score by {
                    assert(d[i] == s[i] && d[j] == s[j]);
                }
            }
            lemma_insert_desc_sorted(d, x);
            let r = insert_desc(d, x);
            lemma_insert_desc_members(d, x);
            assert forall|i: int, j: int| 0 <= i < j < r.push(s.last()).len() implies
                r.push(s.last())[i].score >= r.push(s.last())[j].score by {
                if j == r.len() {
                    let e = r[i];
                    if e == x {
                    } else {
                        let k = choose|k: int| 0 <= k < d.len() && d[k] == e;
                        assert(s[k].score >= s[s.len() - 1].score);
                    }
                }
            }
        }
    }
}

/// Every element of `insert_desc(s, x)` is `x` or an element of `s`.
pub proof fn lemma_insert_desc_members(s: Seq<RecommendationView>, x: RecommendationView)
    ensures
        forall|i: int| 0 <= i < insert_desc(s, x).len() ==>
            (#[trigger] insert_desc(s, x)[i] == x || exists|k: int| 0 <= k < s.len() && s[k] == insert_desc(s, x)[i]),
        insert_desc(s, x).len() == s.len() + 1,
    decreases s.len(),
{
    if s.len() > 0 {
        if s.last().score >= x.score {
            assert forall|i: int| 0 <= i < s.push(x).len() implies
                (#[trigger] s.push(x)[i] == x || exists|k: int| 0 <= k < s.len() && s[k] == s.push(x)[i]) by {
                if i < s.len() {
                    assert(s[i] == s.push(x)[i]);
                }
            }
        } else {
            let d = s.drop_last();
            lemma_insert_desc_members(d, x);
            let r = insert_desc(d, x);
            assert forall|i: int| 0 <= i < r.push(s.last()).len() implies
                (#[trigger] r.push(s.last())[i] == x || exists|k: int| 0 <= k < s.len() && s[k] == r.push(s.last())[i]) by {
                if i < r.len() {
                    if r[i] != x {
                        let k = choose|k: int| 0 <= k < d.len() && d[k] == r[i];
                        assert(s[k] == d[k]);
                    }
                } else {
                    assert(s[s.len() - 1] == s.last());
                }
            }
        }
    }
}

/// The ranking is in non-increasing score order.
pub proof fn lemma_sort_desc_sorted(s: Seq<RecommendationView>)
    ensures
        sorted_desc(sort_desc(s)),
        sort_desc(s).len() == s.len(),
    decreases s.len(),
{
    if s.len() > 0 {
        lemma_sort_desc_sorted(s.drop_last());
        lemma_insert_desc_sorted(sort_desc(s.drop_last()), s.last());
    }
}

/// Every element of the sorted sequence comes from the input.
pub proof fn lemma_sort_desc_members(s: Seq<RecommendationView>)
    ensures
        forall|i: int| 0 <= i < sort_desc(s).len() ==>
            exists|k: int| 0 <= k < s.len() && s[k] == #[trigger] sort_desc(s)[i],
    decreases s.len(),
{
    if s.len() > 0 {
        let d = s.drop_last();
        lemma_sort_desc_members(d);
        lemma_insert_desc_members(sort_desc(d), s.last());
        assert forall|i: int| 0 <= i < sort_desc(s).len() implies
            exists|k: int| 0 <= k < s.len() && s[k] == #[trigger] sort_desc(s)[i] by {
            let e = sort_desc(s)[i];
            if e == s.last() {
                assert(s[s.len() - 1] == e);
            } else {
                let k1 = choose|k: int| 0 <= k < sort_desc(d).len() && sort_desc(d)[k] == e;
                let k2 = choose|k: int| 0 <= k < d.len() && d[k] == sort_desc(d)[k1];
                assert(s[k2] == e);
            }
        }
    }
}

/// `insert_desc(s, x)` holds `x` and every element of `s`.
pub proof fn lemma_insert_desc_keeps(s: Seq<RecommendationView>, x: RecommendationView)
    ensures
        insert_desc(s, x).contains(x),
        forall|k: int| 0 <= k < s.len() ==> insert_desc(s, x).contains(#[trigger] s[k]),
    decreases s.len(),
{
    if s.len() == 0 {
        assert(insert_desc(s, x)[0] == x);
    } else if s.last().score >= x.score {
        let r = s.push(x);
        assert(r[s.len() as int] == x);
        assert forall|k: int| 0 <= k < s.len() implies r.contains(#[trigger] s[k]) by {
            assert(r[k] == s[k]);
        }
    } else {
        let d = s.drop_last();
        lemma_insert_desc_keeps(d, x);
        let r = insert_desc(d, x);
        let q = r.push(s.last());
        let j = choose|j: int| 0 <= j < r.len() && r[j] == x;
        assert(q[j] == x);
        assert forall|k: int| 0 <= k < s.len() implies q.contains(#[trigger] s[k]) by {
            if k == s.len() - 1 {
                assert(q[r.len() as int] == s[k]);
            } else {
                assert(d[k] == s[k]);
                assert(r.contains(d[k]));
                let j2 = choose|j2: int| 0 <= j2 < r.len() && r[j2] == d[k];
                assert(q[j2] == s[k]);
            }
        }
    }
}

/// The sorted sequence holds every element of the input.
pub proof fn lemma_sort_desc_keeps(s: Seq<RecommendationView>)
    ensures
        forall|k: int| 0 <= k < s.len() ==> sort_desc(s).contains(#[trigger] s[k]),
    decreases s.len(),
{
    if s.len() > 0 {
        let d = s.drop_last();
        lemma_sort_desc_keeps(d);
        lemma_insert_desc_keeps(sort_desc(d), s.last());
        assert forall|k: int| 0 <= k < s.len() implies sort_desc(s).contains(#[trigger] s[k]) by {
            if k == s.len() - 1 {
                assert(s[k] == s.last());
            } else {
                assert(d[k] == s[k]);
                assert(sort_desc(d).contains(d[k]));
                let j = choose|j: int| 0 <= j < sort_desc(d).len() && sort_desc(d)[j] == d[k];
                assert(insert_desc(sort_desc(d), s.last()).contains(sort_desc(d)[j]));
            }
        }
    }
}

/// Each recommendation scores some other item of the library against the
/// seed; and when the limit cuts nothing, every other item with a positive
/// score is recommended.
pub proof fn lemma_recommend_members(items: Seq<MediaItemView>, seed_id: u128, max: nat)
    requires
        lookup_item(items, seed_id) is Some,
    ensures
        ({
            let seed = lookup_item(items, seed_id)->0;
            let res = recommend_result(items, seed_id, max);
            &&& forall|i: int| 0 <= i < res.len() ==> exists|k: int|
                0 <= k < items.len() && items[k].id != seed_id && #[trigger] res[i] == rec_of(seed, items[k])
            &&& ranked(seed, items).len() <= max ==> forall|k: int|
                0 <= k < items.len() && items[k].id != seed_id && (#[trigger] rec_of(seed, items[k])).score > 0
                    ==> res.contains(rec_of(seed, items[k]))
        }),
{
    let idx = crate::library::item_index(items, seed_id)->0;
    let p = |i: int| items[i].id == seed_id;
    assert(crate::seqs::is_first(p, items.len() as int, idx)) by {
        assert(crate::seqs::first(p, items.len() as int) == Some(idx));
    }
    let seed = items[idx];
    assert(lookup_item(items, seed_id)->0 == seed);
    let fo = |it: MediaItemView| it.id != seed.id;
    let fp = |r: RecommendationView| r.score > 0;
    let others = keep(items, fo);
    let recs = others.map_values(|it: MediaItemView| rec_of(seed, it));
    let pos = keep(recs, fp);
    let r = sort_desc(pos);
    let res = recommend_result(items, seed_id, max);
    lemma_sort_desc_members(pos);
    lemma_sort_desc_keeps(pos);
    crate::seqs::lemma_keep_all(recs, fp);
    crate::seqs::lemma_keep_members(recs, fp);
    crate::seqs::lemma_keep_all(items, fo);
    crate::seqs::lemma_keep_members(items, fo);
    assert(res == if r.len() <= max { r } else { r.take(max as int) });
    assert forall|i: int| 0 <= i < res.len() implies exists|k: int|
        0 <= k < items.len() && items[k].id != seed_id && #[trigger] res[i] == rec_of(seed, items[k]) by {
        assert(res[i] == r[i]);
        let k1 = choose|k: int| 0 <= k < pos.len() && pos[k] == r[i];
        let k2 = choose|k: int| 0 <= k < recs.len() && recs[k] == pos[k1];
        assert(recs[k2] == rec_of(seed, others[k2]));
        let k3 = choose|k: int| 0 <= k < items.len() && items[k] == others[k2];
        assert(fo(others[k2]));
        assert(items[k3].id != seed_id);
    }
    if ranked(seed, items).len() <= max {
        assert(ranked(seed, items) == r);
        assert forall|k: int|
            0 <= k < items.len() && items[k].id != seed_id && (#[trigger] rec_of(seed, items[k])).score > 0
                implies res.contains(rec_of(seed, items[k])) by {
            assert(fo(items[k]));
            crate::seqs::lemma_keep_keeps(items, fo, k);
            let a = choose|a: int| 0 <= a < others.len() && others[a] == items[k];
            assert(recs[a] == rec_of(seed, items[k]));
            assert(fp(recs[a]));
            crate::seqs::lemma_keep_keeps(recs, fp, a);
            let b = choose|b: int| 0 <= b < pos.len() && pos[b] == recs[a];
            assert(r.contains(pos[b]));
        }
    }
}

/// The recommendations for a seed come best first, number at most the
/// limit, all have a positive score, and never include the seed itself.
pub proof fn lemma_recommend_properties(items: Seq<MediaItemView>, seed_id: u128, max: nat)
    ensures
        sorted_desc(recommend_result(items, seed_id, max)),
        recommend_result(items, seed_id, max).len() <= max,
        forall|i: int| 0 <= i < recommend_result(items, seed_id, max).len() ==>
            (#[trigger] recommend_result(items, seed_id, max)[i]).score > 0
            && recommend_result(items, seed_id, max)[i].item_id != seed_id,
{
    match crate::library::item_index(items, seed_id) {
        Some(idx) => {
            let p = |i: int| items[i].id == seed_id;
            assert(crate::seqs::is_first(p, items.len() as int, idx));
            let seed = items[idx];
            assert(seed.id == seed_id);
            let fo = |it: MediaItemView| it.id != seed.id;
            let fp = |r: RecommendationView| r.score > 0;
            let others = keep(items, fo);
            let recs = others.map_values(|it: MediaItemView| rec_of(seed, it));
            let pos = keep(recs, fp);
            let r = sort_desc(pos);
            lemma_sort_desc_sorted(pos);
            lemma_sort_desc_members(pos);
            crate::seqs::lemma_keep_all(recs, fp);
            crate::seqs::lemma_keep_members(recs, fp);
            crate::seqs::lemma_keep_all(items, fo);
            let res = recommend_result(items, seed_id, max);
            assert(res == if r.len() <= max { r } else { r.take(max as int) });
            assert forall|i: int| 0 <= i < res.len() implies
                (#[trigger] res[i]).score > 0 && res[i].item_id != seed_id by {
                assert(res[i] == r[i]);
                let k1 = choose|k: int| 0 <= k < pos.len() && pos[k] == r[i];
                assert(fp(pos[k1]));
                let k2 = choose|k: int| 0 <= k < recs.len() && recs[k] == pos[k1];
                assert(recs[k2] == rec_of(seed, others[k2]));
                assert(fo(others[k2]));
            }
            assert forall|i: int, j: int| 0 <= i < j < res.len() implies res[i].score >= res[j].score by {
                assert(res[i] == r[i] && res[j] == r[j]);
            }
        },
        None => {},
    }
}

fn tag_shared(item_tags: &Vec<String>, t: &String) -> (res: bool)
    ensures
        res == has_tag_folded(item_tags.deep_view(), t@),
{
    let mut k: usize = 0;
    while k < item_tags.len()
        invariant
            k <= item_tags.len(),
            forall|j: int| 0 <= j < k ==> spec_lowercase(#[trigger] item_tags.deep_view()[j]) != spec_lowercase(t@),
        decreases item_tags.len() - k,
    {
        if eq_folded(item_tags[k].as_str(), t.as_str()) {
            assert(spec_lowercase(item_tags.deep_view()[k as int]) == spec_lowercase(t@));
            return true;
        }
        k = k + 1;
    }
    false
}

fn opt_same_folded(a: &Option<String>, b: &Option<String>) -> (res: bool)
    ensures
        res == same_folded(crate::text::opt_seq(*a), crate::text::opt_seq(*b)),
{
    match (a, b) {
        (Some(x), Some(y)) => eq_folded(x.as_str(), y.as_str()),
        _ => false,
    }
}

fn duration_close(seed_ms: Option<u64>, item_ms: Option<u64>) -> (res: bool)
    ensures
        res == similar_duration(seed_ms, item_ms),
{
    match (seed_ms, item_ms) {
        (Some(s), Some(i)) => {
            let d: u128 = if s < 1000 { 1000 } else { s as u128 };
            let i2: u128 = i as u128;
            7 * d <= 10 * i2 && 10 * i2 <= 13 * d
        },
        _ => false,
    }
}

/// Scores one item against the seed.
pub fn score_item(seed: &MediaItem, item: &MediaItem) -> (r: Recommendation)
    ensures
        r@ == rec_of(seed@, item@),
        r.score as int == rec_score(seed@, item@),
{
    let mut score: u128 = 0;
    let mut reasons: Vec<RecommendationReason> = Vec::new();
    let ghost sv = seed@;
    let ghost iv = item@;
    if opt_same_folded(&seed.artist, &item.artist) {
        score = score + 30;
        reasons.push(RecommendationReason::SameArtist);
    }
    if opt_same_folded(&seed.album, &item.album) {
        score = score + 20;
        reasons.push(RecommendationReason::SameAlbum);
    }
    if duration_close(seed.duration_ms, item.duration_ms) {
        score = score + 10;
        reasons.push(RecommendationReason::SimilarDuration);
    }
    if item.media_type == seed.media_type {
        score = score + 5;
    }
    let ghost base = reasons_view(reasons@);
    let ghost base_score = score;
    assert(base == opt_reason(same_folded(sv.artist, iv.artist), ReasonView::SameArtist)
        + opt_reason(same_folded(sv.album, iv.album), ReasonView::SameAlbum)
        + opt_reason(similar_duration(sv.duration_ms, iv.duration_ms), ReasonView::SimilarDuration));
    let ghost f = |t: Seq<char>| has_tag_folded(iv.tags, t);
    let mut k: usize = 0;
    while k < seed.tags.len()
        invariant
            k <= seed.tags.len(),
            sv == seed@,
            iv == item@,
            f == (|t: Seq<char>| has_tag_folded(iv.tags, t)),
            base_score <= 65,
            reasons_view(reasons@) == base + keep(sv.tags.take(k as int), f).map_values(|t: Seq<char>| ReasonView::Tagged(t)),
            score == base_score + 15 * keep(sv.tags.take(k as int), f).len(),
            keep(sv.tags.take(k as int), f).len() <= k,
        decreases seed.tags.len() - k,
    {
        proof {
            lemma_keep_step(sv.tags, f, k as int);
        }
        assert(seed.tags@[k as int]@ == sv.tags[k as int]);
        assert(sv.tags.take(k + 1).last() == sv.tags[k as int]);
        if tag_shared(&item.tags, &seed.tags[k]) {
            assert(f(sv.tags[k as int]));
            assert(keep(sv.tags.take(k + 1), f) == keep(sv.tags.take(k as int), f).push(sv.tags[k as int]));
            score = score + 15;
            let ghost before = reasons_view(reasons@);
            let ghost kk = keep(sv.tags.take(k as int), f);
            let tag = RecommendationReason::Tagged(copy_string(&seed.tags[k]));
            assert(tag@ == ReasonView::Tagged(sv.tags[k as int]));
            reasons.push(tag);
            assert(reasons_view(reasons@) =~= before.push(ReasonView::Tagged(sv.tags[k as int])));
            assert(kk.push(sv.tags[k as int]).map_values(|t: Seq<char>| ReasonView::Tagged(t))
                =~= kk.map_values(|t: Seq<char>| ReasonView::Tagged(t)).push(ReasonView::Tagged(sv.tags[k as int])));
            assert(reasons_view(reasons@) =~= base + keep(sv.tags.take(k + 1), f).map_values(|t: Seq<char>| ReasonView::Tagged(t)));
        }
        k = k + 1;
    }
    assert(sv.tags.take(seed.tags.len() as int) =~= sv.tags);
    if item.play_count >= 5 {
        score = score + 5;
        reasons.push(RecommendationReason::FrequentlyPlayed);
    }
    let r = Recommendation { item_id: item.id, score: score, reasons: reasons };
    assert(reasons_view(r.reasons@) =~= rec_reasons(sv, iv));
    r
}

fn insert_ranked(v: &mut Vec<Recommendation>, x: Recommendation)
    ensures
        recs_view(final(v)@) == insert_desc(recs_view(old(v)@), x@),
{
    let ghost s = recs_view(v@);
    let mut j: usize = v.len();
    while j > 0 && v[j - 1].score < x.score
        invariant
            j <= v.len(),
            s == recs_view(v@),
            forall|k: int| j <= k < v.len() ==> #[trigger] s[k].score < x.score,
        decreases j,
    {
        j = j - 1;
    }
    proof {
        lemma_insert_desc_at(s, x@, j as int);
    }
    v.insert(j, x);
    assert(recs_view(v@) =~= s.take(j as int).push(x@) + s.skip(j as int));
}

/// Generate recommendations based on a seed item: every other item with a
/// positive score, best first (items with equal scores keep library
/// order), at most `max_results` of them. An unknown seed gives none.
pub fn recommend(library: &Library, seed_id: u128, max_results: usize) -> (res: Vec<Recommendation>)
    ensures
        recs_view(res@) == recommend_result(library@.items, seed_id, max_results as nat),
{
    let seed = match library.find_by_id(seed_id) {
        Some(item) => item,
        None => return Vec::new(),
    };
    let ghost sv = seed@;
    let ghost items = library@.items;
    let ghost others = keep(items, |it: MediaItemView| it.id != sv.id);
    let ghost recs = others.map_values(|it: MediaItemView| rec_of(sv, it));
    let ghost pos = keep(recs, |r: RecommendationView| r.score > 0);
    let mut out: Vec<Recommendation> = Vec::new();
    let mut i: usize = 0;
    while i < library.items.len()
        invariant
            i <= library.items.len(),
            items == library@.items,
            sv == seed@,
            recs_view(out@) == sort_desc(keep(
                keep(items.take(i as int), |it: MediaItemView| it.id != sv.id).map_values(|it: MediaItemView| rec_of(sv, it)),
                |r: RecommendationView| r.score > 0)),
        decreases library.items.len() - i,
    {
        let ghost prev_others = keep(items.take(i as int), |it: MediaItemView| it.id != sv.id);
        proof {
            lemma_keep_step(items, |it: MediaItemView| it.id != sv.id, i as int);
        }
        let item = &library.items[i];
        assert(item@ == items[i as int]);
        let ghost prev_mapped = prev_others.map_values(|it: MediaItemView| rec_of(sv, it));
        let ghost prev_pos = keep(prev_mapped, |r: RecommendationView| r.score > 0);
        if item.id != seed.id {
            let r = score_item(seed, item);
            let ghost cur = keep(items.take(i + 1), |it: MediaItemView| it.id != sv.id);
            assert(cur == prev_others.push(item@));
            let ghost mapped = cur.map_values(|it: MediaItemView| rec_of(sv, it));
            assert(mapped =~= prev_mapped.push(rec_of(sv, item@)));
            proof {
                lemma_keep_step(mapped, |r: RecommendationView| r.score > 0, prev_mapped.len() as int);
                assert(mapped.take(mapped.len() as int) =~= mapped);
                assert(mapped.take(prev_mapped.len() as int) =~= prev_mapped);
            }
            if r.score > 0 {
                assert(keep(mapped, |r: RecommendationView| r.score > 0) == prev_pos.push(r@));
                assert(prev_pos.push(r@).drop_last() =~= prev_pos);
                insert_ranked(&mut out, r);
            } else {
                assert(keep(mapped, |r: RecommendationView| r.score > 0) == prev_pos);
            }
        } else {
            assert(keep(items.take(i + 1), |it: MediaItemView| it.id != sv.id) == prev_others);
        }
        i = i + 1;
    }
    assert(items.take(library.items.len() as int) =~= items);
    if out.len() > max_results {
        out.truncate(max_results);
        assert(recs_view(out@) =~= ranked(sv, items).take(max_results as int));
    }
    out
}

} // verus!
