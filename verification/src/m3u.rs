//! The M3U playlist format: writing a playlist's entries and reading the
//! paths back. Files are read and written outside the library.

use vstd::prelude::*;
use crate::library::{items_view, lookup_item, Library};
use crate::media::MediaItemView;
use crate::playlist::Playlist;
use crate::seqs::{keep, lemma_keep_step};
use crate::text::{char_vec, decimal, decimal_signed, digit_char, lemma_trim_keeps, push_char, push_signed, push_str, spec_trim, string_from_chars, trim, white_space};

verus! {

/// The `#EXTINF` length field: whole seconds, or -1 when unknown.
pub open spec fn extinf_secs(item: MediaItemView) -> int {
    match item.duration_ms {
        Some(d) => (d / 1000) as int,
        None => -1,
    }
}

/// The `#EXTINF` title: "artist - title", or the title alone.
pub open spec fn extinf_title(item: MediaItemView) -> Seq<char> {
    match item.artist {
        Some(a) => a + " - "@ + item.title,
        None => item.title,
    }
}

/// The two lines for one item.
pub open spec fn m3u_entry(item: MediaItemView) -> Seq<char> {
    "#EXTINF:"@ + decimal_signed(extinf_secs(item)) + ","@ + extinf_title(item) + "\n"@ + item.path + "\n"@
}

/// The entries for the playlist's ids (those the library knows), in order.
pub open spec fn m3u_body(ids: Seq<u128>, items: Seq<MediaItemView>) -> Seq<char>
    decreases ids.len(),
{
    if ids.len() == 0 {
        Seq::empty()
    } else {
        m3u_body(ids.drop_last(), items) + match lookup_item(items, ids.last()) {
            Some(it) => m3u_entry(it),
            None => Seq::empty(),
        }
    }
}

/// An M3U file for a playlist: the header, then the entries of the items
/// that the library has.
pub fn format_m3u(playlist: &Playlist, library: &Library) -> (res: String)
    ensures
        res@ == "#EXTM3U\n"@ + m3u_body(playlist@.items, library@.items),
{
    let ghost ids = playlist@.items;
    let ghost items = library@.items;
    let mut out = String::from_str("#EXTM3U\n");
    let mut i: usize = 0;
    while i < playlist.items.len()
        invariant
            i <= playlist.items.len(),
            ids == playlist@.items,
            items == library@.items,
            out@ == "#EXTM3U\n"@ + m3u_body(ids.take(i as int), items),
        decreases playlist.items.len() - i,
    {
        assert(ids.take(i + 1).drop_last() =~= ids.take(i as int));
        assert(ids.take(i + 1).last() == ids[i as int]);
        let ghost before = out@;
        match library.find_by_id(playlist.items[i]) {
            Some(item) => {
                push_str(&mut out, "#EXTINF:");
                let secs: i64 = match item.duration_ms {
                    Some(d) => (d / 1000) as i64,
                    None => -1,
                };
                push_signed(&mut out, secs);
                push_str(&mut out, ",");
                match &item.artist {
                    Some(a) => {
                        push_str(&mut out, a.as_str());
                        push_str(&mut out, " - ");
                        push_str(&mut out, item.title.as_str());
                    },
                    None => push_str(&mut out, item.title.as_str()),
                }
                push_str(&mut out, "\n");
                push_str(&mut out, item.path.as_str());
                push_str(&mut out, "\n");
                proof {
                    assert(out@ =~= before + m3u_entry(item@));
                }
            },
            None => {
                assert(out@ =~= before + Seq::<char>::empty());
            },
        }
        i = i + 1;
    }
    assert(ids.take(i as int) =~= ids);
    out
}

/// The lines of a text: the pieces between newline characters.
pub open spec fn split_lines(s: Seq<char>) -> Seq<Seq<char>>
    decreases s.len(),
{
    if s.len() == 0 {
        seq![Seq::empty()]
    } else if s.last() == '\n' {
        split_lines(s.drop_last()).push(Seq::empty())
    } else {
        let p = split_lines(s.drop_last());
        p.update(p.len() - 1, p.last().push(s.last()))
    }
}

/// `split_lines` always has a last, open line.
proof fn lemma_split_lines_nonempty(s: Seq<char>)
    ensures
        split_lines(s).len() >= 1,
    decreases s.len(),
{
    if s.len() > 0 {
        lemma_split_lines_nonempty(s.drop_last());
    }
}

/// A line of an M3U file names a file when, trimmed, it is not empty and
/// no comment.
pub open spec fn is_entry_line(t: Seq<char>) -> bool {
    t.len() > 0 && t[0] != '#'
}

/// The paths an M3U text lists: its trimmed lines that are neither empty
/// nor comments, in order.
pub open spec fn m3u_paths(s: Seq<char>) -> Seq<Seq<char>> {
    keep(split_lines(s).map_values(|l: Seq<char>| spec_trim(l)), |t: Seq<char>| is_entry_line(t))
}

/// Reads the paths an M3U text lists.
pub fn parse_m3u(content: &str) -> (res: Vec<String>)
    ensures
        res.deep_view() == m3u_paths(content@),
{
    let cs = char_vec(content);
    let mut lines: Vec<String> = Vec::new();
    let mut cur: Vec<char> = Vec::new();
    let mut i: usize = 0;
    while i < cs.len()
        invariant
            i <= cs.len(),
            cs@ == content@,
            lines.deep_view().push(cur@) == split_lines(cs@.take(i as int)),
        decreases cs.len() - i,
    {
        let ghost pre = cs@.take(i as int);
        assert(cs@.take(i + 1).drop_last() =~= pre);
        assert(cs@.take(i + 1).last() == cs@[i as int]);
        if cs[i] == '\n' {
            let line = string_from_chars(cur.as_slice());
            let ghost before = lines.deep_view();
            lines.push(line);
            cur = Vec::new();
            assert(lines.deep_view() =~= before.push(line@));
            assert(lines.deep_view().push(cur@) =~= split_lines(pre).push(Seq::empty()));
        } else {
            let ghost c0 = cur@;
            cur.push(cs[i]);
            proof {
                lemma_split_lines_nonempty(pre);
                let p = split_lines(pre);
                assert(p.last() == c0);
                assert(lines.deep_view().push(cur@) =~= p.update(p.len() - 1, p.last().push(cs@[i as int])));
            }
        }
        i = i + 1;
    }
    assert(cs@.take(i as int) =~= cs@);
    let last = string_from_chars(cur.as_slice());
    let ghost before = lines.deep_view();
    lines.push(last);
    assert(lines.deep_view() =~= before.push(cur@));
    let ghost all = lines.deep_view();
    let ghost trimmed = all.map_values(|l: Seq<char>| spec_trim(l));
    let ghost f = |t: Seq<char>| is_entry_line(t);
    let mut out: Vec<String> = Vec::new();
    let mut k: usize = 0;
    while k < lines.len()
        invariant
            k <= lines.len(),
            all == lines.deep_view(),
            all.len() == lines.len(),
            trimmed == all.map_values(|l: Seq<char>| spec_trim(l)),
            f == (|t: Seq<char>| is_entry_line(t)),
            out.deep_view() == keep(trimmed.take(k as int), f),
        decreases lines.len() - k,
    {
        proof {
            lemma_keep_step(trimmed, f, k as int);
        }
        let t = trim(lines[k].as_str());
        assert(t@ == trimmed[k as int]);
        let tc = char_vec(t.as_str());
        if tc.len() > 0 && tc[0] != '#' {
            let ghost o = out.deep_view();
            out.push(t);
            assert(out.deep_view() =~= o.push(trimmed[k as int]));
        }
        k = k + 1;
    }
    assert(trimmed.take(k as int) =~= trimmed);
    out
}


/// A path that an M3U file carries unchanged: not empty, on one line, no
/// comment, and without white space at either end.
pub open spec fn m3u_safe_path(p: Seq<char>) -> bool {
    &&& p.len() > 0
    &&& !p.contains('\n')
    &&& p[0] != '#'
    &&& !white_space(p[0])
    &&& !white_space(p.last())
}

/// An item whose entry reads back as its path: a safe path, and a title
/// and artist on one line.
pub open spec fn m3u_safe_item(it: MediaItemView) -> bool {
    &&& m3u_safe_path(it.path)
    &&& !it.title.contains('\n')
    &&& match it.artist {
        Some(a) => !a.contains('\n'),
        None => true,
    }
}

/// The paths of the playlist's items that the library has, in order.
pub open spec fn m3u_item_paths(ids: Seq<u128>, items: Seq<MediaItemView>) -> Seq<Seq<char>>
    decreases ids.len(),
{
    if ids.len() == 0 {
        Seq::empty()
    } else {
        m3u_item_paths(ids.drop_last(), items) + match lookup_item(items, ids.last()) {
            Some(it) => seq![it.path],
            None => Seq::empty(),
        }
    }
}

/// The `#EXTINF` line of an entry, without its line break.
pub open spec fn extinf_line(it: MediaItemView) -> Seq<char> {
    "#EXTINF:"@ + decimal_signed(extinf_secs(it)) + ","@ + extinf_title(it)
}

/// The lines an M3U body consists of.
spec fn m3u_lines(ids: Seq<u128>, items: Seq<MediaItemView>) -> Seq<Seq<char>>
    decreases ids.len(),
{
    if ids.len() == 0 {
        Seq::empty()
    } else {
        m3u_lines(ids.drop_last(), items) + match lookup_item(items, ids.last()) {
            Some(it) => seq![extinf_line(it), it.path],
            None => Seq::empty(),
        }
    }
}

/// Appending text without a line break extends the open last line.
proof fn lemma_split_extend(x: Seq<char>, l: Seq<char>)
    requires
        !l.contains('\n'),
    ensures
        split_lines(x + l) == split_lines(x).update(split_lines(x).len() - 1, split_lines(x).last() + l),
    decreases l.len(),
{
    lemma_split_lines_nonempty(x);
    let p = split_lines(x);
    if l.len() == 0 {
        assert(x + l =~= x);
        assert(p.last() + l =~= p.last());
        assert(p.update(p.len() - 1, p.last()) =~= p);
    } else {
        let l1 = l.drop_last();
        assert(!l1.contains('\n')) by {
            if l1.contains('\n') {
                let k = choose|k: int| 0 <= k < l1.len() && l1[k] == '\n';
                assert(l[k] == '\n');
            }
        }
        assert(l.last() != '\n') by {
            assert(l[l.len() - 1] == l.last());
        }
        lemma_split_extend(x, l1);
        assert((x + l).drop_last() =~= x + l1);
        assert((x + l).last() == l.last());
        lemma_split_lines_nonempty(x + l1);
        let q = split_lines(x + l1);
        assert(q.len() == p.len());
        assert(q.last() == p.last() + l1);
        assert(q.last().push(l.last()) =~= p.last() + l);
        assert(q.update(q.len() - 1, q.last().push(l.last())) =~= p.update(p.len() - 1, p.last() + l));
    }
}

/// A decimal rendering is on one line.
proof fn lemma_decimal_one_line(n: nat)
    ensures
        !decimal(n).contains('\n'),
    decreases n,
{
    if n >= 10 {
        lemma_decimal_one_line(n / 10);
        let d = decimal(n / 10);
        let c = digit_char((n % 10) as int);
        assert(c != '\n');
        if decimal(n).contains('\n') {
            let k = choose|k: int| 0 <= k < decimal(n).len() && decimal(n)[k] == '\n';
            assert(decimal(n) == d.push(c));
            if k < d.len() {
                assert(d[k] == '\n');
            }
        }
    } else {
        assert(decimal(n) == seq![digit_char(n as int)]);
        if decimal(n).contains('\n') {
            let k = choose|k: int| 0 <= k < decimal(n).len() && decimal(n)[k] == '\n';
            assert(decimal(n)[0] != '\n');
        }
    }
}

/// Two texts on one line make one line.
proof fn lemma_concat_one_line(a: Seq<char>, b: Seq<char>)
    requires
        !a.contains('\n'),
        !b.contains('\n'),
    ensures
        !(a + b).contains('\n'),
{
    if (a + b).contains('\n') {
        let k = choose|k: int| 0 <= k < (a + b).len() && (a + b)[k] == '\n';
        if k < a.len() {
            assert(a[k] == '\n');
        } else {
            assert(b[k - a.len()] == '\n');
        }
    }
}

/// The `#EXTINF` line of a safe item is one line starting with '#'.
proof fn lemma_extinf_line(it: MediaItemView)
    requires
        m3u_safe_item(it),
    ensures
        !extinf_line(it).contains('\n'),
        extinf_line(it).len() > 0,
        extinf_line(it)[0] == '#',
{
    reveal_strlit("#EXTINF:");
    reveal_strlit(",");
    reveal_strlit(" - ");
    let head: Seq<char> = "#EXTINF:"@;
    assert(!head.contains('\n')) by {
        if head.contains('\n') {
            let k = choose|k: int| 0 <= k < head.len() && head[k] == '\n';
        }
    }
    let comma: Seq<char> = ","@;
    assert(!comma.contains('\n')) by {
        if comma.contains('\n') {
            let k = choose|k: int| 0 <= k < comma.len() && comma[k] == '\n';
        }
    }
    let n = extinf_secs(it);
    if n < 0 {
        lemma_decimal_one_line((-n) as nat);
        assert(!seq!['-'].contains('\n')) by {
            if seq!['-'].contains('\n') {
                let k = choose|k: int| 0 <= k < seq!['-'].len() && seq!['-'][k] == '\n';
            }
        }
        lemma_concat_one_line(seq!['-'], decimal((-n) as nat));
    } else {
        lemma_decimal_one_line(n as nat);
    }
    let title = extinf_title(it);
    match it.artist {
        Some(a) => {
            let dash: Seq<char> = " - "@;
            assert(!dash.contains('\n')) by {
                if dash.contains('\n') {
                    let k = choose|k: int| 0 <= k < dash.len() && dash[k] == '\n';
                }
            }
            lemma_concat_one_line(a, dash);
            lemma_concat_one_line(a + dash, it.title);
        },
        None => {},
    }
    lemma_concat_one_line(head, decimal_signed(n));
    lemma_concat_one_line(head + decimal_signed(n), comma);
    lemma_concat_one_line(head + decimal_signed(n) + comma, title);
    assert(extinf_line(it)[0] == head[0]);
}

/// The item a lookup finds is one of the items.
proof fn lemma_lookup_member(items: Seq<MediaItemView>, id: u128)
    ensures
        match lookup_item(items, id) {
            Some(it) => exists|k: int| 0 <= k < items.len() && items[k] == it,
            None => true,
        },
{
    match crate::library::item_index(items, id) {
        Some(i) => {
            let p = |i: int| items[i].id == id;
            assert(crate::seqs::is_first(p, items.len() as int, i));
            assert(items[i] == items[i]);
        },
        None => {},
    }
}

/// A line break closes the open line and opens an empty one.
proof fn lemma_split_newline(x: Seq<char>)
    ensures
        split_lines(x.push('\n')) == split_lines(x).push(Seq::<char>::empty()),
{
    assert(x.push('\n').drop_last() =~= x);
    assert(x.push('\n').last() == '\n');
}

/// `keep` of one element.
proof fn lemma_keep_single<A>(x: A, f: spec_fn(A) -> bool)
    ensures
        keep(seq![x], f) == if f(x) { seq![x] } else { Seq::<A>::empty() },
{
    reveal_with_fuel(keep, 2);
    assert(seq![x].drop_last() =~= Seq::<A>::empty());
    assert(seq![x].last() == x);
    assert(keep(Seq::<A>::empty(), f) == Seq::<A>::empty());
    assert(Seq::<A>::empty().push(x) =~= seq![x]);
}

/// The lines of an M3U text: the header, the body's lines, and the empty
/// open line after the last line break.
proof fn lemma_m3u_split(ids: Seq<u128>, items: Seq<MediaItemView>)
    requires
        forall|k: int| 0 <= k < items.len() ==> m3u_safe_item(#[trigger] items[k]),
    ensures
        split_lines("#EXTM3U\n"@ + m3u_body(ids, items)) == seq!["#EXTM3U"@] + m3u_lines(ids, items) + seq![Seq::<char>::empty()],
    decreases ids.len(),
{
    reveal_strlit("#EXTM3U\n");
    reveal_strlit("#EXTM3U");
    reveal_strlit("\n");
    if ids.len() == 0 {
        let t: Seq<char> = "#EXTM3U\n"@;
        let h: Seq<char> = "#EXTM3U"@;
        assert(t + m3u_body(ids, items) =~= h.push('\n'));
        assert(!h.contains('\n')) by {
            if h.contains('\n') {
                let k = choose|k: int| 0 <= k < h.len() && h[k] == '\n';
            }
        }
        lemma_split_extend(Seq::empty(), h);
        assert(Seq::<char>::empty() + h =~= h);
        assert(split_lines(Seq::<char>::empty()) == seq![Seq::<char>::empty()]);
        assert(Seq::<char>::empty() + h =~= h);
        assert(split_lines(h) =~= seq![h]);
        lemma_split_newline(h);
        assert(seq![h] + m3u_lines(ids, items) + seq![Seq::<char>::empty()] =~= seq![h].push(Seq::<char>::empty()));
    } else {
        let prev = ids.drop_last();
        lemma_m3u_split(prev, items);
        let t0 = "#EXTM3U\n"@ + m3u_body(prev, items);
        let lines0 = seq!["#EXTM3U"@] + m3u_lines(prev, items);
        assert(split_lines(t0) == lines0.push(Seq::<char>::empty())) by {
            assert(lines0 + seq![Seq::<char>::empty()] =~= lines0.push(Seq::<char>::empty()));
        }
        lemma_lookup_member(items, ids.last());
        match lookup_item(items, ids.last()) {
            Some(it) => {
                let k = choose|k: int| 0 <= k < items.len() && items[k] == it;
                assert(m3u_safe_item(items[k]));
                lemma_extinf_line(it);
                let l1 = extinf_line(it);
                let path = it.path;
                assert(m3u_entry(it) =~= l1 + "\n"@ + path + "\n"@);
                let a = t0 + l1;
                lemma_split_extend(t0, l1);
                let sa = split_lines(a);
                assert(sa =~= lines0.push(l1)) by {
                    assert(Seq::<char>::empty() + l1 =~= l1);
                }
                let b = a.push('\n');
                lemma_split_newline(a);
                lemma_split_extend(b, path);
                let c = b + path;
                assert(split_lines(c) =~= lines0.push(l1).push(path)) by {
                    assert(Seq::<char>::empty() + path =~= path);
                }
                let d = c.push('\n');
                lemma_split_newline(c);
                assert("#EXTM3U\n"@ + m3u_body(ids, items) =~= d);
                assert(m3u_lines(ids, items) == m3u_lines(prev, items) + seq![l1, path]);
                assert(seq!["#EXTM3U"@] + m3u_lines(ids, items) + seq![Seq::<char>::empty()]
                    =~= lines0.push(l1).push(path).push(Seq::<char>::empty()));
            },
            None => {
                assert("#EXTM3U\n"@ + m3u_body(ids, items) =~= t0);
                assert(m3u_lines(ids, items) =~= m3u_lines(prev, items));
            },
        }
    }
}

/// `keep` over a concatenation keeps from each part.
proof fn lemma_keep_concat<A>(a: Seq<A>, b: Seq<A>, f: spec_fn(A) -> bool)
    ensures
        keep(a + b, f) == keep(a, f) + keep(b, f),
    decreases b.len(),
{
    if b.len() == 0 {
        assert(a + b =~= a);
        assert(keep(a, f) + keep(b, f) =~= keep(a, f));
    } else {
        lemma_keep_concat(a, b.drop_last(), f);
        assert((a + b).drop_last() =~= a + b.drop_last());
        assert((a + b).last() == b.last());
        if f(b.last()) {
            assert(keep(a, f) + keep(b.drop_last(), f).push(b.last()) =~= (keep(a, f) + keep(b.drop_last(), f)).push(b.last()));
        }
    }
}

/// The body's lines, trimmed and without comments, are the items' paths.
proof fn lemma_m3u_lines_keep(ids: Seq<u128>, items: Seq<MediaItemView>)
    requires
        forall|k: int| 0 <= k < items.len() ==> m3u_safe_item(#[trigger] items[k]),
    ensures
        keep(m3u_lines(ids, items).map_values(|l: Seq<char>| spec_trim(l)), |t: Seq<char>| is_entry_line(t))
            == m3u_item_paths(ids, items),
    decreases ids.len(),
{
    let tr = |l: Seq<char>| spec_trim(l);
    let f = |t: Seq<char>| is_entry_line(t);
    if ids.len() == 0 {
        assert(m3u_lines(ids, items).map_values(tr) =~= Seq::<Seq<char>>::empty());
    } else {
        let prev = ids.drop_last();
        lemma_m3u_lines_keep(prev, items);
        lemma_lookup_member(items, ids.last());
        match lookup_item(items, ids.last()) {
            Some(it) => {
                let k = choose|k: int| 0 <= k < items.len() && items[k] == it;
                assert(m3u_safe_item(items[k]));
                lemma_extinf_line(it);
                let l1 = extinf_line(it);
                lemma_trim_keeps(l1);
                lemma_trim_keeps(it.path);
                let tail = seq![l1, it.path].map_values(tr);
                assert(tail =~= seq![spec_trim(l1), it.path]);
                assert(m3u_lines(ids, items).map_values(tr) =~= m3u_lines(prev, items).map_values(tr) + tail);
                lemma_keep_concat(m3u_lines(prev, items).map_values(tr), tail, f);
                assert(!f(spec_trim(l1)));
                assert(f(it.path));
                assert(tail.drop_last() =~= seq![spec_trim(l1)]);
                assert(tail.last() == it.path);
                lemma_keep_single(spec_trim(l1), f);
                assert(keep(tail, f) == keep(tail.drop_last(), f).push(it.path));
                assert(keep(tail, f) =~= seq![it.path]);
            },
            None => {
                assert(m3u_lines(ids, items) =~= m3u_lines(prev, items));
                assert(m3u_item_paths(ids, items) =~= m3u_item_paths(prev, items));
            },
        }
    }
}

/// Reading back a written M3U file gives the paths of the playlist's items
/// that the library has, in order, for items whose paths and tags fit the
/// format (see [`m3u_safe_item`]).
pub proof fn lemma_m3u_roundtrip(ids: Seq<u128>, items: Seq<MediaItemView>)
    requires
        forall|k: int| 0 <= k < items.len() ==> m3u_safe_item(#[trigger] items[k]),
    ensures
        m3u_paths("#EXTM3U\n"@ + m3u_body(ids, items)) == m3u_item_paths(ids, items),
{
    reveal_strlit("#EXTM3U");
    let tr = |l: Seq<char>| spec_trim(l);
    let f = |t: Seq<char>| is_entry_line(t);
    lemma_m3u_split(ids, items);
    let h: Seq<char> = "#EXTM3U"@;
    let mid = m3u_lines(ids, items);
    let all = seq![h] + mid + seq![Seq::<char>::empty()];
    assert(all.map_values(tr) =~= seq![spec_trim(h)] + mid.map_values(tr) + seq![spec_trim(Seq::<char>::empty())]);
    lemma_trim_keeps(h);
    assert(spec_trim(Seq::<char>::empty()) =~= Seq::<char>::empty());
    lemma_keep_concat(seq![spec_trim(h)], mid.map_values(tr), f);
    lemma_keep_concat(seq![spec_trim(h)] + mid.map_values(tr), seq![spec_trim(Seq::<char>::empty())], f);
    assert(h[0] == '#');
    assert(!f(spec_trim(h)));
    lemma_keep_single(spec_trim(h), f);
    assert(!f(spec_trim(Seq::<char>::empty())));
    lemma_keep_single(spec_trim(Seq::<char>::empty()), f);
    lemma_m3u_lines_keep(ids, items);
    assert(m3u_item_paths(ids, items) =~= Seq::<Seq<char>>::empty() + m3u_item_paths(ids, items) + Seq::<Seq<char>>::empty());
}

} // verus!
