//! Library statistics: most frequent artists, most played items, listening
//! time and the distribution of tags.

use vstd::prelude::*;
use crate::library::{items_view, Library};
use crate::media::MediaItemView;
use crate::text::{copy_string, text_eq};

verus! {

/// Insights into a library. Times are in nanoseconds.
#[derive(Debug)]
pub struct LibraryInsights {
    /// Artists with their number of items, most frequent first, at most ten.
    pub top_artists: Vec<(String, u32)>,
    /// Played items with their play counts, most played first, at most ten.
    pub most_played: Vec<(u128, u32)>,
    /// Sum over items of duration times play count.
    pub total_listen_ns: u128,
    /// Mean duration over all items (unknown durations count as zero).
    pub avg_track_ns: u128,
    /// Tags with their number of uses, most used first.
    pub genre_distribution: Vec<(String, usize)>,
}

/// The abstract value of a [`LibraryInsights`].
pub struct InsightsView {
    pub top_artists: Seq<(Seq<char>, nat)>,
    pub most_played: Seq<(u128, nat)>,
    pub total_listen_ns: u128,
    pub avg_track_ns: u128,
    pub genre_distribution: Seq<(Seq<char>, nat)>,
}

pub open spec fn text_counts_u32(s: Seq<(String, u32)>) -> Seq<(Seq<char>, nat)> {
    s.map_values(|p: (String, u32)| (p.0@, p.1 as nat))
}

pub open spec fn text_counts(s: Seq<(String, usize)>) -> Seq<(Seq<char>, nat)> {
    s.map_values(|p: (String, usize)| (p.0@, p.1 as nat))
}

pub open spec fn id_counts(s: Seq<(u128, u32)>) -> Seq<(u128, nat)> {
    s.map_values(|p: (u128, u32)| (p.0, p.1 as nat))
}

impl View for LibraryInsights {
    type V = InsightsView;

    open spec fn view(&self) -> InsightsView {
        InsightsView {
            top_artists: text_counts_u32(self.top_artists@),
            most_played: id_counts(self.most_played@),
            total_listen_ns: self.total_listen_ns,
            avg_track_ns: self.avg_track_ns,
            genre_distribution: text_counts(self.genre_distribution@),
        }
    }
}

/// Inserts `x` after every element whose count is at least `x`'s,
/// scanning from the end.
pub open spec fn insert_by_count<A>(s: Seq<(A, nat)>, x: (A, nat)) -> Seq<(A, nat)>
    decreases s.len(),
{
    if s.len() == 0 {
        seq![x]
    } else if s.last().1 >= x.1 {
        s.push(x)
    } else {
        insert_by_count(s.drop_last(), x).push(s.last())
    }
}

/// Stable sort by descending count: equal counts keep their order.
pub open spec fn sort_by_count<A>(s: Seq<(A, nat)>) -> Seq<(A, nat)>
    decreases s.len(),
{
    if s.len() == 0 {
        Seq::empty()
    } else {
        insert_by_count(sort_by_count(s.drop_last()), s.last())
    }
}

/// At most the first `n` elements.
pub open spec fn at_most<A>(s: Seq<A>, n: nat) -> Seq<A> {
    if s.len() <= n { s } else { s.take(n as int) }
}

/// Counts one more occurrence of `k`: its entry grows by one, or a new
/// entry with count one joins the end.
pub open spec fn bump(t: Seq<(Seq<char>, nat)>, k: Seq<char>) -> Seq<(Seq<char>, nat)> {
    match key_index(t, k) {
        Some(i) => t.update(i, (k, (t[i].1 + 1) as nat)),
        None => t.push((k, 1nat)),
    }
}

/// Index of the first entry for `k`.
pub open spec fn key_index(t: Seq<(Seq<char>, nat)>, k: Seq<char>) -> Option<int>
    decreases t.len(),
{
    if t.len() == 0 {
        None
    } else {
        match key_index(t.drop_last(), k) {
            Some(i) => Some(i),
            None => if t.last().0 == k { Some(t.len() - 1) } else { None },
        }
    }
}

/// `key_index` finds the first entry for `k`, or tells that there is none.
pub proof fn lemma_key_index(t: Seq<(Seq<char>, nat)>, k: Seq<char>)
    ensures
        match key_index(t, k) {
            Some(i) => 0 <= i < t.len() && t[i].0 == k && forall|j: int| 0 <= j < i ==> (#[trigger] t[j]).0 != k,
            None => forall|j: int| 0 <= j < t.len() ==> (#[trigger] t[j]).0 != k,
        },
    decreases t.len(),
{
    if t.len() > 0 {
        let d = t.drop_last();
        lemma_key_index(d, k);
        assert forall|j: int| 0 <= j < d.len() implies #[trigger] d[j] == t[j] by {}
        match key_index(d, k) {
            Some(i) => {
                assert forall|j: int| 0 <= j < i implies (#[trigger] t[j]).0 != k by {
                    assert(d[j] == t[j]);
                }
            },
            None => {
                assert forall|j: int| 0 <= j < t.len() - 1 implies (#[trigger] t[j]).0 != k by {
                    assert(d[j] == t[j]);
                }
            },
        }
    }
}

/// Each distinct key with its number of occurrences, in order of first
/// occurrence.
pub open spec fn tally(keys: Seq<Seq<char>>) -> Seq<(Seq<char>, nat)>
    decreases keys.len(),
{
    if keys.len() == 0 {
        Seq::empty()
    } else {
        bump(tally(keys.drop_last()), keys.last())
    }
}

/// The artists of the items that have one, in order.
pub open spec fn artist_keys(items: Seq<MediaItemView>) -> Seq<Seq<char>>
    decreases items.len(),
{
    if items.len() == 0 {
        Seq::empty()
    } else {
        match items.last().artist {
            Some(a) => artist_keys(items.drop_last()).push(a),
            None => artist_keys(items.drop_last()),
        }
    }
}

/// The tags of all items, in order.
pub open spec fn tag_keys(items: Seq<MediaItemView>) -> Seq<Seq<char>>
    decreases items.len(),
{
    if items.len() == 0 {
        Seq::empty()
    } else {
        tag_keys(items.drop_last()) + items.last().tags
    }
}

/// The played items with their play counts, in order.
pub open spec fn play_counts(items: Seq<MediaItemView>) -> Seq<(u128, nat)>
    decreases items.len(),
{
    if items.len() == 0 {
        Seq::empty()
    } else if items.last().play_count > 0 {
        play_counts(items.drop_last()).push((items.last().id, items.last().play_count as nat))
    } else {
        play_counts(items.drop_last())
    }
}

/// An item's duration in nanoseconds (zero when unknown).
pub open spec fn duration_ns(item: MediaItemView) -> nat {
    match item.duration_ms {
        Some(d) => d as nat * 1_000_000,
        None => 0,
    }
}

/// Total duration of the items, in nanoseconds.
pub open spec fn total_ns(items: Seq<MediaItemView>) -> nat
    decreases items.len(),
{
    if items.len() == 0 { 0 } else { total_ns(items.drop_last()) + duration_ns(items.last()) }
}

/// Total listening time: durations times play counts, in nanoseconds.
pub open spec fn listen_ns(items: Seq<MediaItemView>) -> nat
    decreases items.len(),
{
    if items.len() == 0 {
        0
    } else {
        listen_ns(items.drop_last()) + duration_ns(items.last()) * items.last().play_count as nat
    }
}

/// What `analyze_library` returns for the given items.
pub open spec fn insights_of(items: Seq<MediaItemView>) -> InsightsView {
    InsightsView {
        top_artists: at_most(sort_by_count(tally(artist_keys(items))), 10),
        most_played: at_most(sort_by_count(play_counts(items)), 10),
        total_listen_ns: listen_ns(items) as u128,
        avg_track_ns: if items.len() == 0 { 0 } else { (total_ns(items) / items.len()) as u128 },
        genre_distribution: sort_by_count(tally(tag_keys(items))),
    }
}

/// The largest total a duration can hold: `u64::MAX` seconds and just
/// under one more.
pub open spec fn duration_limit_ns() -> nat {
    (u64::MAX as nat) * 1_000_000_000 + 999_999_999
}


/// `insert_by_count` places `x` at the position `j` that the scan from the
/// end stops at.
pub proof fn lemma_insert_by_count_at<A>(s: Seq<(A, nat)>, x: (A, nat), j: int)
    requires
        0 <= j <= s.len(),
        j > 0 ==> s[j - 1].1 >= x.1,
        forall|k: int| j <= k < s.len() ==> #[trigger] s[k].1 < x.1,
    ensures
        insert_by_count(s, x) == s.take(j).push(x) + s.skip(j),
    decreases s.len(),
{
    if s.len() == 0 {
        assert(insert_by_count(s, x) =~= s.take(j).push(x) + s.skip(j));
    } else if j == s.len() {
        assert(s.last() == s[j - 1]);
        assert(insert_by_count(s, x) =~= s.take(j).push(x) + s.skip(j));
    } else {
        assert(s.last() == s[s.len() - 1]);
        let d = s.drop_last();
        assert forall|k: int| j <= k < d.len() implies #[trigger] d[k].1 < x.1 by {
            assert(d[k] == s[k]);
        }
        if j > 0 {
            assert(d[j - 1] == s[j - 1]);
        }
        lemma_insert_by_count_at(d, x, j);
        assert(insert_by_count(s, x) =~= s.take(j).push(x) + s.skip(j));
    }
}

/// No key occurs more often than there are keys.
proof fn lemma_tally_bounded(keys: Seq<Seq<char>>)
    ensures
        forall|i: int| 0 <= i < tally(keys).len() ==> #[trigger] tally(keys)[i].1 <= keys.len(),
    decreases keys.len(),
{
    if keys.len() > 0 {
        let d = keys.drop_last();
        lemma_tally_bounded(d);
        let t = tally(d);
        let k = keys.last();
        assert(tally(keys) == bump(t, k));
        lemma_key_index(t, k);
        match key_index(t, k) {
            Some(i) => {
                assert(tally(keys) == t.update(i, (k, (t[i].1 + 1) as nat)));
                assert forall|j: int| 0 <= j < tally(keys).len() implies #[trigger] tally(keys)[j].1 <= keys.len() by {
                    if j != i {
                        assert(tally(keys)[j] == t[j]);
                    }
                }
            },
            None => {
                assert(tally(keys) == t.push((k, 1nat)));
                assert forall|j: int| 0 <= j < tally(keys).len() implies #[trigger] tally(keys)[j].1 <= keys.len() by {
                    if j < t.len() {
                        assert(tally(keys)[j] == t[j]);
                    }
                }
            },
        }
    }
}

/// Counts one more occurrence of `k` in `t`.
fn bump_count(t: &mut Vec<(String, usize)>, k: &String)
    requires
        forall|i: int| 0 <= i < old(t)@.len() ==> #[trigger] old(t)@[i].1 < usize::MAX,
    ensures
        text_counts(final(t)@) == bump(text_counts(old(t)@), k@),
{
    let ghost s = text_counts(t@);
    proof {
        lemma_key_index(s, k@);
    }
    let mut i: usize = 0;
    while i < t.len()
        invariant
            i <= t.len(),
            s == text_counts(t@),
            t@ == old(t)@,
            forall|j: int| 0 <= j < i ==> (#[trigger] s[j]).0 != k@,
            forall|j: int| 0 <= j < t@.len() ==> #[trigger] t@[j].1 < usize::MAX,
            match key_index(s, k@) {
                Some(x) => 0 <= x < s.len() && s[x].0 == k@ && forall|j: int| 0 <= j < x ==> (#[trigger] s[j]).0 != k@,
                None => forall|j: int| 0 <= j < s.len() ==> (#[trigger] s[j]).0 != k@,
            },
        decreases t.len() - i,
    {
        assert(s[i as int] == (t@[i as int].0@, t@[i as int].1 as nat));
        if text_eq(t[i].0.as_str(), k.as_str()) {
            proof {
                match key_index(s, k@) {
                    Some(x) => {
                        if x < i {
                            assert(s[x].0 != k@);
                        }
                        if x > i {
                            assert(s[i as int].0 != k@);
                        }
                    },
                    None => {
                        assert(s[i as int].0 != k@);
                    },
                }
                assert(key_index(s, k@) == Some(i as int));
                assert(bump(s, k@) == s.update(i as int, (k@, (s[i as int].1 + 1) as nat)));
            }
            let n = t[i].1 + 1;
            let name = copy_string(&t[i].0);
            t.set(i, (name, n));
            assert(text_counts(t@) =~= s.update(i as int, (k@, (s[i as int].1 + 1) as nat)));
            return;
        }
        i = i + 1;
    }
    proof {
        match key_index(s, k@) {
            Some(x) => {
                assert(s[x].0 != k@);
            },
            None => {},
        }
    }
    t.push((copy_string(k), 1));
    assert(text_counts(t@) =~= s.push((k@, 1nat)));
}

/// Sorts text counts by descending count, keeping the order of equal
/// counts.
fn sort_text_counts(v: &Vec<(String, usize)>) -> (res: Vec<(String, usize)>)
    ensures
        text_counts(res@) == sort_by_count(text_counts(v@)),
{
    let ghost s = text_counts(v@);
    let mut out: Vec<(String, usize)> = Vec::new();
    let mut i: usize = 0;
    while i < v.len()
        invariant
            i <= v.len(),
            s == text_counts(v@),
            text_counts(out@) == sort_by_count(s.take(i as int)),
        decreases v.len() - i,
    {
        let ghost o = text_counts(out@);
        let x = (copy_string(&v[i].0), v[i].1);
        let mut j: usize = out.len();
        while j > 0 && out[j - 1].1 < x.1
            invariant
                j <= out.len(),
                o == text_counts(out@),
                forall|k: int| j <= k < out@.len() ==> #[trigger] o[k].1 < x.1,
            decreases j,
        {
            j = j - 1;
        }
        proof {
            lemma_insert_by_count_at(o, (x.0@, x.1 as nat), j as int);
            assert(s.take(i + 1).drop_last() =~= s.take(i as int));
            assert(s.take(i + 1).last() == (x.0@, x.1 as nat));
        }
        out.insert(j, x);
        assert(text_counts(out@) =~= o.take(j as int).push((x.0@, x.1 as nat)) + o.skip(j as int));
        i = i + 1;
    }
    assert(s.take(i as int) =~= s);
    out
}

/// Sorts play counts by descending count, keeping the order of equal
/// counts.
fn sort_id_counts(v: &Vec<(u128, u32)>) -> (res: Vec<(u128, u32)>)
    ensures
        id_counts(res@) == sort_by_count(id_counts(v@)),
{
    let ghost s = id_counts(v@);
    let mut out: Vec<(u128, u32)> = Vec::new();
    let mut i: usize = 0;
    while i < v.len()
        invariant
            i <= v.len(),
            s == id_counts(v@),
            id_counts(out@) == sort_by_count(s.take(i as int)),
        decreases v.len() - i,
    {
        let ghost o = id_counts(out@);
        let x = v[i];
        let mut j: usize = out.len();
        while j > 0 && out[j - 1].1 < x.1
            invariant
                j <= out.len(),
                o == id_counts(out@),
                forall|k: int| j <= k < out@.len() ==> #[trigger] o[k].1 < x.1,
            decreases j,
        {
            j = j - 1;
        }
        proof {
            lemma_insert_by_count_at(o, (x.0, x.1 as nat), j as int);
            assert(s.take(i + 1).drop_last() =~= s.take(i as int));
            assert(s.take(i + 1).last() == (x.0, x.1 as nat));
        }
        out.insert(j, x);
        assert(id_counts(out@) =~= o.take(j as int).push((x.0, x.1 as nat)) + o.skip(j as int));
        i = i + 1;
    }
    assert(s.take(i as int) =~= s);
    out
}


/// Inserting keeps every count within a bound that all counts meet.
proof fn lemma_insert_bounded<A>(t: Seq<(A, nat)>, x: (A, nat), b: nat)
    requires
        forall|k: int| 0 <= k < t.len() ==> #[trigger] t[k].1 <= b,
        x.1 <= b,
    ensures
        forall|k: int| 0 <= k < insert_by_count(t, x).len() ==> #[trigger] insert_by_count(t, x)[k].1 <= b,
    decreases t.len(),
{
    let r = insert_by_count(t, x);
    if t.len() == 0 {
        assert(r =~= seq![x]);
    } else if t.last().1 >= x.1 {
        assert(r == t.push(x));
        assert forall|k: int| 0 <= k < r.len() implies #[trigger] r[k].1 <= b by {
            if k < t.len() {
                assert(r[k] == t[k]);
            }
        }
    } else {
        let d = t.drop_last();
        assert forall|k: int| 0 <= k < d.len() implies #[trigger] d[k].1 <= b by {
            assert(d[k] == t[k]);
        }
        lemma_insert_bounded(d, x, b);
        assert(t.last() == t[t.len() - 1]);
        let r2 = insert_by_count(d, x);
        assert(r == r2.push(t.last()));
        assert forall|k: int| 0 <= k < r.len() implies #[trigger] r[k].1 <= b by {
            if k < r2.len() {
                assert(r[k] == r2[k]);
            }
        }
    }
}

/// Sorting keeps every count within a bound that all counts meet.
proof fn lemma_sort_bounded<A>(s: Seq<(A, nat)>, b: nat)
    requires
        forall|k: int| 0 <= k < s.len() ==> #[trigger] s[k].1 <= b,
    ensures
        forall|k: int| 0 <= k < sort_by_count(s).len() ==> #[trigger] sort_by_count(s)[k].1 <= b,
    decreases s.len(),
{
    if s.len() > 0 {
        let d = s.drop_last();
        assert forall|k: int| 0 <= k < d.len() implies #[trigger] d[k].1 <= b by {
            assert(d[k] == s[k]);
        }
        lemma_sort_bounded(d, b);
        assert(s.last() == s[s.len() - 1]);
        lemma_insert_bounded(sort_by_count(d), s.last(), b);
    }
}

proof fn lemma_artist_keys_len(items: Seq<MediaItemView>)
    ensures
        artist_keys(items).len() <= items.len(),
    decreases items.len(),
{
    if items.len() > 0 {
        lemma_artist_keys_len(items.drop_last());
    }
}

/// The keys and totals of a prefix are at most those of the whole.
proof fn lemma_prefix_totals(items: Seq<MediaItemView>, n: int)
    requires
        0 <= n <= items.len(),
    ensures
        tag_keys(items.take(n)).len() <= tag_keys(items).len(),
        listen_ns(items.take(n)) <= listen_ns(items),
        total_ns(items.take(n)) <= total_ns(items),
    decreases items.len() - n,
{
    if n < items.len() {
        lemma_prefix_totals(items, n + 1);
        assert(items.take(n + 1).drop_last() =~= items.take(n));
    } else {
        assert(items.take(n) =~= items);
    }
}

/// Analyzes the library: artists by number of items and items by play
/// count (ten of each, most first, ties in library order), total listening
/// time, mean item duration, and tags by number of uses.
pub fn analyze_library(library: &Library) -> (res: LibraryInsights)
    requires
        library@.items.len() <= u32::MAX,
        tag_keys(library@.items).len() < usize::MAX,
        listen_ns(library@.items) <= duration_limit_ns(),
        total_ns(library@.items) <= duration_limit_ns(),
    ensures
        res@ == insights_of(library@.items),
{
    let ghost items = library@.items;
    let mut artists: Vec<(String, usize)> = Vec::new();
    let mut tags: Vec<(String, usize)> = Vec::new();
    let mut plays: Vec<(u128, u32)> = Vec::new();
    let mut total_listen: u128 = 0;
    let mut total: u128 = 0;
    let mut i: usize = 0;
    while i < library.items.len()
        invariant
            i <= library.items.len(),
            items == library@.items,
            items.len() <= u32::MAX,
            tag_keys(items).len() < usize::MAX,
            listen_ns(items) <= duration_limit_ns(),
            total_ns(items) <= duration_limit_ns(),
            text_counts(artists@) == tally(artist_keys(items.take(i as int))),
            text_counts(tags@) == tally(tag_keys(items.take(i as int))),
            id_counts(plays@) == play_counts(items.take(i as int)),
            total_listen == listen_ns(items.take(i as int)),
            total == total_ns(items.take(i as int)),
        decreases library.items.len() - i,
    {
        let item = &library.items[i];
        let ghost prev = items.take(i as int);
        let ghost next = items.take(i + 1);
        proof {
            assert(next.drop_last() =~= prev);
            assert(next.last() == item@);
            assert(listen_ns(next) == listen_ns(prev) + duration_ns(item@) * item@.play_count as nat);
            assert(total_ns(next) == total_ns(prev) + duration_ns(item@));
            lemma_prefix_totals(items, i + 1);
            lemma_artist_keys_len(prev);
            lemma_tally_bounded(artist_keys(prev));
            lemma_tally_bounded(tag_keys(prev));
        }
        match &item.artist {
            Some(a) => {
                proof {
                    assert(artist_keys(next) == artist_keys(prev).push(a@));
                    assert(artist_keys(prev).push(a@).drop_last() =~= artist_keys(prev));
                    assert forall|j: int| 0 <= j < artists@.len() implies #[trigger] artists@[j].1 < usize::MAX by {
                        assert(text_counts(artists@)[j].1 == artists@[j].1);
                    }
                }
                bump_count(&mut artists, a);
            },
            None => {
                assert(artist_keys(next) == artist_keys(prev));
            },
        }
        let ghost base = tag_keys(prev);
        let ghost tv = item.tags.deep_view();
        proof {
            assert(tag_keys(next) == base + tv);
        }
        let mut j: usize = 0;
        while j < item.tags.len()
            invariant
                j <= item.tags.len(),
                tv == item.tags.deep_view(),
                tv.len() == item.tags.len(),
                base + tv == tag_keys(next),
                tag_keys(next).len() <= tag_keys(items).len(),
                tag_keys(items).len() < usize::MAX,
                text_counts(tags@) == tally(base + tv.take(j as int)),
            decreases item.tags.len() - j,
        {
            proof {
                let cur = base + tv.take(j as int);
                lemma_tally_bounded(cur);
                assert forall|x: int| 0 <= x < tags@.len() implies #[trigger] tags@[x].1 < usize::MAX by {
                    assert(text_counts(tags@)[x].1 == tags@[x].1);
                }
                assert((base + tv.take(j + 1)).drop_last() =~= cur);
                assert((base + tv.take(j + 1)).last() == tv[j as int]);
                assert(tv[j as int] == item.tags@[j as int]@);
            }
            bump_count(&mut tags, &item.tags[j]);
            j = j + 1;
        }
        assert(tv.take(j as int) =~= tv);
        match item.duration_ms {
            Some(d) => {
                let dn: u128 = (d as u128) * 1_000_000;
                assert(dn == duration_ns(item@));
                total = total + dn;
                proof {
                    assert(duration_ns(item@) * item@.play_count as nat <= listen_ns(next));
                    let pc = item@.play_count as nat;
                    assert(dn * pc == duration_ns(item@) * pc) by (nonlinear_arith)
                        requires
                            dn == duration_ns(item@),
                    ;
                }
                total_listen = total_listen + dn * (item.play_count as u128);
            },
            None => {
                proof {
                    let pc = item@.play_count as nat;
                    assert(duration_ns(item@) * pc == 0) by (nonlinear_arith)
                        requires
                            duration_ns(item@) == 0,
                    ;
                }
            },
        }
        if item.play_count > 0 {
            plays.push((item.id, item.play_count));
            assert(id_counts(plays@) =~= play_counts(prev).push((item.id, item.play_count as nat)));
        }
        i = i + 1;
    }
    assert(items.take(i as int) =~= items);
    let mut sorted_artists = sort_text_counts(&artists);
    let ghost full = text_counts(sorted_artists@);
    sorted_artists.truncate(10);
    let mut most_played = sort_id_counts(&plays);
    most_played.truncate(10);
    let genre_distribution = sort_text_counts(&tags);
    let ghost sa = text_counts(sorted_artists@);
    proof {
        lemma_tally_bounded(artist_keys(items));
        lemma_artist_keys_len(items);
        lemma_sort_bounded(text_counts(artists@), u32::MAX as nat);
        assert forall|x: int| 0 <= x < sa.len() implies #[trigger] sa[x].1 <= u32::MAX by {
            assert(sa[x] == full[x]);
        }
    }
    let mut top_artists: Vec<(String, u32)> = Vec::new();
    let mut k: usize = 0;
    while k < sorted_artists.len()
        invariant
            k <= sorted_artists.len(),
            sa == text_counts(sorted_artists@),
            text_counts_u32(top_artists@) == sa.take(k as int),
            forall|x: int| 0 <= x < sa.len() ==> #[trigger] sa[x].1 <= u32::MAX,
        decreases sorted_artists.len() - k,
    {
        let name = copy_string(&sorted_artists[k].0);
        let n = sorted_artists[k].1;
        assert(sa[k as int].1 == n);
        assert((n as u32) as nat == n as nat);
        let ghost before = top_artists@;
        top_artists.push((name, n as u32));
        proof {
            assert(sa[k as int] == (sorted_artists@[k as int].0@, sorted_artists@[k as int].1 as nat));
            assert(text_counts_u32(top_artists@) == text_counts_u32(before).push(sa[k as int]));
        }
        k = k + 1;
        assert(text_counts_u32(top_artists@) =~= sa.take(k as int));
    }
    let n_items = library.items.len();
    let avg: u128 = if n_items == 0 { 0 } else { total / (n_items as u128) };
    let res = LibraryInsights {
        top_artists,
        most_played,
        total_listen_ns: total_listen,
        avg_track_ns: avg,
        genre_distribution,
    };
    proof {
        assert(sa.take(k as int) =~= sa);
        assert(res@.top_artists =~= insights_of(items).top_artists);
        assert(res@.most_played =~= insights_of(items).most_played);
    }
    res
}

} // verus!
