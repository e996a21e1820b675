//! The texts the player's tool server answers with: searches, library and
//! playlist listings, recommendations and queue requests, and the errors
//! for bad arguments. Framing the answers as JSON-RPC, and the requests
//! that need the audio engine, the database or the file system, happen
//! outside the library.

use vstd::prelude::*;
use crate::daimon::{join_strings, join_with};
use crate::ids::{parse_uuid, spec_uuid_parse, spec_uuid_text, uuid_text};
use crate::library::{item_refs_view, lookup_item, search_result, Library};
use crate::media::{MediaItem, MediaItemView};
use crate::playlist::{without, Playlist, PlaylistView};
use crate::recommend::{recommend, RecommendationView, ReasonView};
use crate::render::{library_item_text, render_library_item};
use crate::text::{decimal, eq_ignore_ascii_case, push_decimal, push_decimal_wide, push_str, text_eq_ignore_ascii_case};

verus! {

/// A tool's answer: its text, and whether it reports an error.
#[derive(Debug)]
pub struct ToolReply {
    pub text: String,
    pub is_error: bool,
}

/// The abstract value of a [`ToolReply`].
pub struct ToolReplyView {
    pub text: Seq<char>,
    pub is_error: bool,
}

impl View for ToolReply {
    type V = ToolReplyView;

    open spec fn view(&self) -> ToolReplyView {
        ToolReplyView { text: self.text@, is_error: self.is_error }
    }
}

pub open spec fn ok_reply(text: Seq<char>) -> ToolReplyView {
    ToolReplyView { text, is_error: false }
}

pub open spec fn err_reply(text: Seq<char>) -> ToolReplyView {
    ToolReplyView { text, is_error: true }
}

/// The numbered one-line renderings of items, one per line.
pub open spec fn item_listing(items: Seq<MediaItemView>) -> Seq<char> {
    join_with(Seq::new(items.len(), |i: int| library_item_text(items[i], i as nat)), "\n"@)
}

/// Renders items one per line, numbered from one.
fn list_items(items: &Vec<&MediaItem>) -> (res: String)
    ensures
        res@ == item_listing(item_refs_view(items@)),
{
    let ghost its = item_refs_view(items@);
    let mut lines: Vec<String> = Vec::new();
    let mut i: usize = 0;
    while i < items.len()
        invariant
            i <= items.len(),
            its == item_refs_view(items@),
            lines.deep_view() == Seq::new(its.len(), |k: int| library_item_text(its[k], k as nat)).take(i as int),
        decreases items.len() - i,
    {
        let line = render_library_item(items[i], i);
        let ghost before = lines.deep_view();
        let ghost lv = line@;
        lines.push(line);
        assert(lines.deep_view() =~= before.push(lv));
        assert(lines.deep_view() =~= Seq::new(its.len(), |k: int| library_item_text(its[k], k as nat)).take(i + 1));
        i = i + 1;
    }
    assert(Seq::new(its.len(), |k: int| library_item_text(its[k], k as nat)).take(i as int)
        =~= Seq::new(its.len(), |k: int| library_item_text(its[k], k as nat)));
    join_strings(&lines, "\n")
}

/// The answer to a search: the matching items one per line, or a note
/// that nothing matched.
pub open spec fn search_reply_of(items: Seq<MediaItemView>, query: Seq<char>) -> ToolReplyView {
    let r = search_result(items, query);
    if r.len() == 0 {
        ok_reply("No results for '"@ + query + "'"@)
    } else {
        ok_reply(item_listing(r))
    }
}

/// Answers a search of the library.
pub fn search_reply(library: &Library, query: &str) -> (res: ToolReply)
    ensures
        res@ == search_reply_of(library@.items, query@),
{
    let results = library.search(query);
    if results.len() == 0 {
        let mut t = String::from_str("No results for '");
        push_str(&mut t, query);
        push_str(&mut t, "'");
        ToolReply { text: t, is_error: false }
    } else {
        ToolReply { text: list_items(&results), is_error: false }
    }
}

/// Answers a request for the library's contents: all items one per line,
/// or a note that the library is empty.
pub fn library_list_reply(library: &Library) -> (res: ToolReply)
    ensures
        res@ == if library@.items.len() == 0 {
            ok_reply("Library is empty"@)
        } else {
            ok_reply(item_listing(library@.items))
        },
{
    if library.items.len() == 0 {
        return ToolReply { text: String::from_str("Library is empty"), is_error: false };
    }
    let mut refs: Vec<&MediaItem> = Vec::new();
    let mut i: usize = 0;
    while i < library.items.len()
        invariant
            i <= library.items.len(),
            item_refs_view(refs@) == library@.items.take(i as int),
        decreases library.items.len() - i,
    {
        refs.push(&library.items[i]);
        assert(item_refs_view(refs@) =~= library@.items.take(i as int).push(library@.items[i as int]));
        i = i + 1;
        assert(library@.items.take(i as int) =~= library@.items.take((i - 1) as int).push(library@.items[(i - 1) as int]));
    }
    assert(library@.items.take(i as int) =~= library@.items);
    ToolReply { text: list_items(&refs), is_error: false }
}

/// One line of the playlist listing: "name (n tracks)", marked when smart.
pub open spec fn playlist_line(p: PlaylistView) -> Seq<char> {
    p.name + " ("@ + decimal(p.items.len()) + " tracks"@ + (if p.is_smart { ", smart"@ } else { Seq::empty() }) + ")"@
}

/// Answers a request for the playlists: one line each, or a note that
/// there are none.
pub fn playlist_list_reply(library: &Library) -> (res: ToolReply)
    ensures
        res@ == if library@.playlists.len() == 0 {
            ok_reply("No playlists"@)
        } else {
            ok_reply(join_with(library@.playlists.map_values(|p: PlaylistView| playlist_line(p)), "\n"@))
        },
{
    if library.playlists.len() == 0 {
        return ToolReply { text: String::from_str("No playlists"), is_error: false };
    }
    let ghost pls = library@.playlists;
    let mut lines: Vec<String> = Vec::new();
    let mut i: usize = 0;
    while i < library.playlists.len()
        invariant
            i <= library.playlists.len(),
            pls == library@.playlists,
            lines.deep_view() == pls.map_values(|p: PlaylistView| playlist_line(p)).take(i as int),
        decreases library.playlists.len() - i,
    {
        let p = &library.playlists[i];
        assert(pls[i as int] == p@);
        let mut s = crate::text::copy_string(&p.name);
        push_str(&mut s, " (");
        push_decimal(&mut s, p.items.len() as u64);
        push_str(&mut s, " tracks");
        if p.is_smart {
            push_str(&mut s, ", smart");
        } else {
            assert(s@ =~= s@ + Seq::<char>::empty());
        }
        push_str(&mut s, ")");
        assert(s@ =~= playlist_line(p@));
        let ghost before = lines.deep_view();
        let ghost sv = s@;
        lines.push(s);
        assert(lines.deep_view() =~= before.push(sv));
        assert(lines.deep_view() =~= pls.map_values(|p: PlaylistView| playlist_line(p)).take(i + 1));
        i = i + 1;
    }
    assert(pls.map_values(|p: PlaylistView| playlist_line(p)).take(i as int) =~= pls.map_values(|p: PlaylistView| playlist_line(p)));
    ToolReply { text: join_strings(&lines, "\n"), is_error: false }
}

/// "artist - title" for an item, with "Unknown" for a missing artist.
pub open spec fn artist_title(it: MediaItemView) -> Seq<char> {
    let artist = match it.artist {
        Some(a) => a,
        None => "Unknown"@,
    };
    artist + " - "@ + it.title
}

fn push_artist_title(s: &mut String, it: &MediaItem)
    ensures
        final(s)@ == old(s)@ + artist_title(it@),
{
    match &it.artist {
        Some(a) => push_str(s, a.as_str()),
        None => push_str(s, "Unknown"),
    }
    push_str(s, " - ");
    push_str(s, it.title.as_str());
    assert(final(s)@ =~= old(s)@ + artist_title(it@));
}

/// One line of the recommendation answer: score, item, and reasons.
pub open spec fn recommendation_line(items: Seq<MediaItemView>, r: RecommendationView) -> Seq<char> {
    let title = match lookup_item(items, r.item_id) {
        Some(it) => artist_title(it),
        None => spec_uuid_text(r.item_id),
    };
    "  "@ + decimal(r.score as nat) + "% "@ + title + " ("@
        + join_with(r.reasons.map_values(|x: ReasonView| x.text()), ", "@) + ")"@
}

/// The answer to a recommendation request for the item with the given id
/// text.
pub open spec fn recommend_reply_of(items: Seq<MediaItemView>, item_id: Seq<char>, max: nat) -> ToolReplyView {
    match spec_uuid_parse(item_id) {
        None => err_reply("invalid item_id UUID"@),
        Some(seed) => {
            let recs = crate::recommend::recommend_result(items, seed, max);
            if recs.len() == 0 {
                ok_reply("No recommendations found"@)
            } else {
                ok_reply(join_with(recs.map_values(|r: RecommendationView| recommendation_line(items, r)), "\n"@))
            }
        },
    }
}

/// Answers a recommendation request: the recommendations for the seed
/// item, best first, one per line.
pub fn recommend_reply(library: &Library, item_id: &str, max: usize) -> (res: ToolReply)
    ensures
        res@ == recommend_reply_of(library@.items, item_id@, max as nat),
{
    let seed = match parse_uuid(item_id) {
        Some(u) => u,
        None => return ToolReply { text: String::from_str("invalid item_id UUID"), is_error: true },
    };
    let recs = recommend(library, seed, max);
    if recs.len() == 0 {
        return ToolReply { text: String::from_str("No recommendations found"), is_error: false };
    }
    let ghost rv = crate::recommend::recs_view(recs@);
    let ghost items = library@.items;
    let mut lines: Vec<String> = Vec::new();
    let mut i: usize = 0;
    while i < recs.len()
        invariant
            i <= recs.len(),
            rv == crate::recommend::recs_view(recs@),
            items == library@.items,
            lines.deep_view() == rv.map_values(|r: RecommendationView| recommendation_line(items, r)).take(i as int),
        decreases recs.len() - i,
    {
        let r = &recs[i];
        assert(rv[i as int] == r@);
        let mut s = String::from_str("  ");
        push_decimal_wide(&mut s, r.score);
        push_str(&mut s, "% ");
        match library.find_by_id(r.item_id) {
            Some(it) => push_artist_title(&mut s, it),
            None => {
                let t = uuid_text(r.item_id);
                push_str(&mut s, t.as_str());
            },
        }
        push_str(&mut s, " (");
        let mut reasons: Vec<String> = Vec::new();
        let mut j: usize = 0;
        while j < r.reasons.len()
            invariant
                j <= r.reasons.len(),
                reasons.deep_view() == r@.reasons.map_values(|x: ReasonView| x.text()).take(j as int),
            decreases r.reasons.len() - j,
        {
            let t = r.reasons[j].to_string();
            let ghost before = reasons.deep_view();
            let ghost tv = t@;
            reasons.push(t);
            assert(r@.reasons[j as int] == r.reasons@[j as int]@);
            assert(reasons.deep_view() =~= before.push(tv));
            assert(reasons.deep_view() =~= r@.reasons.map_values(|x: ReasonView| x.text()).take(j + 1));
            j = j + 1;
        }
        assert(r@.reasons.map_values(|x: ReasonView| x.text()).take(j as int) =~= r@.reasons.map_values(|x: ReasonView| x.text()));
        let joined = join_strings(&reasons, ", ");
        push_str(&mut s, joined.as_str());
        push_str(&mut s, ")");
        assert(s@ =~= recommendation_line(items, r@));
        let ghost before = lines.deep_view();
        let ghost sv = s@;
        lines.push(s);
        assert(lines.deep_view() =~= before.push(sv));
        assert(lines.deep_view() =~= rv.map_values(|r: RecommendationView| recommendation_line(items, r)).take(i + 1));
        i = i + 1;
    }
    assert(rv.map_values(|r: RecommendationView| recommendation_line(items, r)).take(i as int)
        =~= rv.map_values(|r: RecommendationView| recommendation_line(items, r)));
    ToolReply { text: join_strings(&lines, "\n"), is_error: false }
}


/// Answers a request for the queue: the item playing (found by the path
/// the engine has open), or a note that the queue is empty.
pub fn queue_list_reply(library: &Library, current_path: Option<&str>) -> (res: ToolReply)
    ensures
        res@ == ok_reply(match current_path {
            Some(p) => match crate::library::path_index(library@.items, p@) {
                Some(i) => "Now playing: "@ + artist_title(library@.items[i]),
                None => "Queue is empty"@,
            },
            None => "Queue is empty"@,
        }),
{
    match current_path {
        Some(p) => match library.find_by_path(p) {
            Some(it) => {
                let mut s = String::from_str("Now playing: ");
                push_artist_title(&mut s, it);
                ToolReply { text: s, is_error: false }
            },
            None => ToolReply { text: String::from_str("Queue is empty"), is_error: false },
        },
        None => ToolReply { text: String::from_str("Queue is empty"), is_error: false },
    }
}

/// Answers a request to enqueue the item with the given id text.
pub fn queue_enqueue_reply(library: &Library, item_id: &str) -> (res: ToolReply)
    ensures
        res@ == if item_id@.len() == 0 {
            err_reply("item_id required for enqueue"@)
        } else {
            match spec_uuid_parse(item_id@) {
                Some(u) => match lookup_item(library@.items, u) {
                    Some(it) => ok_reply("Enqueued: "@ + artist_title(it)),
                    None => err_reply("Item not found: "@ + item_id@),
                },
                None => err_reply("Item not found: "@ + item_id@),
            }
        },
{
    if item_id.is_empty() {
        return ToolReply { text: String::from_str("item_id required for enqueue"), is_error: true };
    }
    let found = match parse_uuid(item_id) {
        Some(u) => library.find_by_id(u),
        None => None,
    };
    match found {
        Some(it) => {
            let mut s = String::from_str("Enqueued: ");
            push_artist_title(&mut s, it);
            ToolReply { text: s, is_error: false }
        },
        None => {
            let mut s = String::from_str("Item not found: ");
            push_str(&mut s, item_id);
            ToolReply { text: s, is_error: true }
        },
    }
}

/// Index of the first playlist whose name equals `name` ignoring ASCII
/// case.
pub open spec fn playlist_named(pls: Seq<PlaylistView>, name: Seq<char>) -> Option<int> {
    crate::seqs::first(|i: int| eq_ignore_ascii_case(pls[i].name, name), pls.len() as int)
}

/// Finds a playlist by name, ignoring ASCII case.
pub fn find_playlist_by_name(library: &Library, name: &str) -> (res: Option<usize>)
    ensures
        match res {
            Some(i) => playlist_named(library@.playlists, name@) == Some(i as int) && i < library@.playlists.len(),
            None => playlist_named(library@.playlists, name@) is None,
        },
{
    let ghost pls = library@.playlists;
    let ghost p = |i: int| eq_ignore_ascii_case(pls[i].name, name@);
    let mut i: usize = 0;
    while i < library.playlists.len()
        invariant
            i <= library.playlists.len(),
            pls == library@.playlists,
            p == (|i: int| eq_ignore_ascii_case(pls[i].name, name@)),
            forall|j: int| 0 <= j < i ==> !#[trigger] p(j),
        decreases library.playlists.len() - i,
    {
        assert(pls[i as int] == library.playlists@[i as int]@);
        if text_eq_ignore_ascii_case(library.playlists[i].name.as_str(), name) {
            proof {
                assert(crate::seqs::is_first(p, pls.len() as int, i as int));
                crate::seqs::lemma_first_is(p, pls.len() as int, i as int);
            }
            return Some(i);
        }
        i = i + 1;
    }
    proof {
        crate::seqs::lemma_first_none(p, pls.len() as int);
    }
    None
}

/// Handles a request to add the item with the given id text to the named
/// playlist (name compared ignoring ASCII case).
pub fn playlist_add_reply(library: &mut Library, name: &str, item_id: &str) -> (res: ToolReply)
    ensures
        res@ == if name@.len() == 0 || item_id@.len() == 0 {
            err_reply("name and item_id required"@)
        } else {
            match spec_uuid_parse(item_id@) {
                None => err_reply("invalid UUID"@),
                Some(_) => match playlist_named(old(library)@.playlists, name@) {
                    Some(_) => ok_reply("Added to '"@ + name@ + "'"@),
                    None => err_reply("Playlist '"@ + name@ + "' not found"@),
                },
            }
        },
        final(library)@.items == old(library)@.items,
        final(library)@.scan_paths == old(library)@.scan_paths,
        final(library)@.playlists.len() == old(library)@.playlists.len(),
        match (spec_uuid_parse(item_id@), playlist_named(old(library)@.playlists, name@)) {
            (Some(u), Some(i)) => name@.len() > 0 && item_id@.len() > 0 ==> {
                &&& final(library)@.playlists[i] == (PlaylistView {
                    items: old(library)@.playlists[i].items.push(u),
                    modified_at_ms: final(library)@.playlists[i].modified_at_ms,
                    ..old(library)@.playlists[i]
                })
                &&& forall|k: int| 0 <= k < old(library)@.playlists.len() && k != i ==>
                    #[trigger] final(library)@.playlists[k] == old(library)@.playlists[k]
            },
            _ => final(library)@ == old(library)@,
        },
        name@.len() == 0 || item_id@.len() == 0 ==> final(library)@ == old(library)@,
{
    if name.is_empty() || item_id.is_empty() {
        return ToolReply { text: String::from_str("name and item_id required"), is_error: true };
    }
    let id = match parse_uuid(item_id) {
        Some(u) => u,
        None => return ToolReply { text: String::from_str("invalid UUID"), is_error: true },
    };
    match find_playlist_by_name(library, name) {
        Some(i) => {
            let ghost before = library@;
            let ghost old_pl = library.playlists@[i as int];
            library.playlists[i].add(id);
            proof {
                assert(library.playlists@ == old(library).playlists@.update(i as int, library.playlists@[i as int]));
                assert(library@.playlists[i as int] == (PlaylistView {
                    items: before.playlists[i as int].items.push(id),
                    modified_at_ms: library@.playlists[i as int].modified_at_ms,
                    ..before.playlists[i as int]
                }));
                assert forall|k: int| 0 <= k < before.playlists.len() && k != i implies
                    #[trigger] library@.playlists[k] == before.playlists[k] by {
                    assert(library.playlists@[k] == old(library).playlists@[k]);
                }
            }
            let mut s = String::from_str("Added to '");
            push_str(&mut s, name);
            push_str(&mut s, "'");
            ToolReply { text: s, is_error: false }
        },
        None => {
            let mut s = String::from_str("Playlist '");
            push_str(&mut s, name);
            push_str(&mut s, "' not found");
            ToolReply { text: s, is_error: true }
        },
    }
}



/// Handles a request to remove the item with the given id text from the
/// named playlist (name compared ignoring ASCII case); every occurrence of
/// the item leaves it.
pub fn playlist_remove_reply(library: &mut Library, name: &str, item_id: &str) -> (res: ToolReply)
    ensures
        res@ == if name@.len() == 0 || item_id@.len() == 0 {
            err_reply("name and item_id required"@)
        } else {
            match spec_uuid_parse(item_id@) {
                None => err_reply("invalid UUID"@),
                Some(u) => match playlist_named(old(library)@.playlists, name@) {
                    Some(i) => if old(library)@.playlists[i].items.contains(u) {
                        ok_reply("Removed from '"@ + name@ + "'"@)
                    } else {
                        err_reply("Item not in '"@ + name@ + "'"@)
                    },
                    None => err_reply("Playlist '"@ + name@ + "' not found"@),
                },
            }
        },
        final(library)@.items == old(library)@.items,
        final(library)@.scan_paths == old(library)@.scan_paths,
        final(library)@.playlists.len() == old(library)@.playlists.len(),
        match (spec_uuid_parse(item_id@), playlist_named(old(library)@.playlists, name@)) {
            (Some(u), Some(i)) => name@.len() > 0 && item_id@.len() > 0 ==> {
                &&& final(library)@.playlists[i] == if old(library)@.playlists[i].items.contains(u) {
                    PlaylistView {
                        items: without(old(library)@.playlists[i].items, u),
                        modified_at_ms: final(library)@.playlists[i].modified_at_ms,
                        ..old(library)@.playlists[i]
                    }
                } else {
                    old(library)@.playlists[i]
                }
                &&& forall|k: int| 0 <= k < old(library)@.playlists.len() && k != i ==>
                    #[trigger] final(library)@.playlists[k] == old(library)@.playlists[k]
            },
            _ => final(library)@ == old(library)@,
        },
        name@.len() == 0 || item_id@.len() == 0 ==> final(library)@ == old(library)@,
{
    if name.is_empty() || item_id.is_empty() {
        return ToolReply { text: String::from_str("name and item_id required"), is_error: true };
    }
    let id = match parse_uuid(item_id) {
        Some(u) => u,
        None => return ToolReply { text: String::from_str("invalid UUID"), is_error: true },
    };
    match find_playlist_by_name(library, name) {
        Some(i) => {
            let ghost before = library@;
            let removed = library.playlists[i].remove(id);
            proof {
                assert(library.playlists@ == old(library).playlists@.update(i as int, library.playlists@[i as int]));
                assert forall|k: int| 0 <= k < before.playlists.len() && k != i implies
                    #[trigger] library@.playlists[k] == before.playlists[k] by {
                    assert(library.playlists@[k] == old(library).playlists@[k]);
                }
                if !removed {
                    assert(library@.playlists =~= before.playlists);
                }
            }
            if removed {
                let mut s = String::from_str("Removed from '");
                push_str(&mut s, name);
                push_str(&mut s, "'");
                ToolReply { text: s, is_error: false }
            } else {
                let mut s = String::from_str("Item not in '");
                push_str(&mut s, name);
                push_str(&mut s, "'");
                ToolReply { text: s, is_error: true }
            }
        },
        None => {
            let mut s = String::from_str("Playlist '");
            push_str(&mut s, name);
            push_str(&mut s, "' not found");
            ToolReply { text: s, is_error: true }
        },
    }
}


/// The kind of value a tool parameter takes.
#[derive(Debug, Clone, Copy, PartialEq, Eq, Structural)]
pub enum ParamKind {
    Text,
    Integer,
}

/// A parameter of an MCP tool.
#[derive(Debug)]
pub struct ToolParam {
    pub name: String,
    pub kind: ParamKind,
    pub description: Option<String>,
}

/// The abstract value of a [`ToolParam`].
pub struct ToolParamView {
    pub name: Seq<char>,
    pub kind: ParamKind,
    pub description: Option<Seq<char>>,
}

impl View for ToolParam {
    type V = ToolParamView;

    open spec fn view(&self) -> ToolParamView {
        ToolParamView { name: self.name@, kind: self.kind, description: opt_text(self.description) }
    }
}

/// An MCP tool as the server lists it: name, description, parameters, and
/// the names of the required ones.
#[derive(Debug)]
pub struct ToolSpec {
    pub name: String,
    pub description: String,
    pub params: Vec<ToolParam>,
    pub required: Vec<String>,
}

/// The abstract value of a [`ToolSpec`].
pub struct ToolSpecView {
    pub name: Seq<char>,
    pub description: Seq<char>,
    pub params: Seq<ToolParamView>,
    pub required: Seq<Seq<char>>,
}

impl View for ToolSpec {
    type V = ToolSpecView;

    open spec fn view(&self) -> ToolSpecView {
        ToolSpecView {
            name: self.name@,
            description: self.description@,
            params: self.params@.map_values(|p: ToolParam| p@),
            required: self.required.deep_view(),
        }
    }
}

pub open spec fn opt_text(o: Option<String>) -> Option<Seq<char>> {
    match o {
        Some(s) => Some(s@),
        None => None,
    }
}

pub open spec fn text_param(name: Seq<char>, description: Option<Seq<char>>) -> ToolParamView {
    ToolParamView { name, kind: ParamKind::Text, description }
}

/// The eight tools the server offers, in the order it lists them.
pub open spec fn tool_catalog() -> Seq<ToolSpecView> {
    seq![
        ToolSpecView {
            name: "jalwa_play"@,
            description: "Play a media file (audio or video)"@,
            params: seq![text_param("path"@, None)],
            required: seq!["path"@],
        },
        ToolSpecView { name: "jalwa_pause"@, description: "Pause current playback"@, params: seq![], required: seq![] },
        ToolSpecView {
            name: "jalwa_status"@,
            description: "Get current playback status (state, position, volume)"@,
            params: seq![],
            required: seq![],
        },
        ToolSpecView {
            name: "jalwa_search"@,
            description: "Search the media library by title, artist, album, or tag"@,
            params: seq![text_param("query"@, None)],
            required: seq!["query"@],
        },
        ToolSpecView {
            name: "jalwa_recommend"@,
            description: "Get AI-powered media recommendations based on a seed item"@,
            params: seq![
                text_param("item_id"@, Some("UUID of seed media item"@)),
                ToolParamView { name: "max"@, kind: ParamKind::Integer, description: Some("Max recommendations (default 5)"@) },
            ],
            required: seq!["item_id"@],
        },
        ToolSpecView {
            name: "jalwa_queue"@,
            description: "Manage the play queue (list, enqueue, clear, shuffle)"@,
            params: seq![
                text_param("action"@, Some("Action: list, enqueue, clear, shuffle"@)),
                text_param("item_id"@, Some("UUID of media item (for enqueue)"@)),
            ],
            required: seq!["action"@],
        },
        ToolSpecView {
            name: "jalwa_library"@,
            description: "Manage the media library (stats, scan, list)"@,
            params: seq![
                text_param("action"@, Some("Action: stats, scan, list"@)),
                text_param("path"@, Some("Directory path (for scan)"@)),
            ],
            required: seq!["action"@],
        },
        ToolSpecView {
            name: "jalwa_playlist"@,
            description: "Manage playlists (list, create, add, remove, export)"@,
            params: seq![
                text_param("action"@, Some("Action: list, create, add, remove, export"@)),
                text_param("name"@, Some("Playlist name (for create/add/remove/export)"@)),
                text_param("item_id"@, Some("UUID of media item (for add/remove)"@)),
                text_param("output"@, Some("Output M3U file path (for export)"@)),
            ],
            required: seq!["action"@],
        },
    ]
}

fn param(name: &str, kind: ParamKind, description: Option<&str>) -> (p: ToolParam)
    ensures
        p@ == (ToolParamView {
            name: name@,
            kind: kind,
            description: match description {
                Some(d) => Some(d@),
                None => None,
            },
        }),
{
    let d = match description {
        Some(x) => Some(String::from_str(x)),
        None => None,
    };
    ToolParam { name: String::from_str(name), kind, description: d }
}

fn tool_spec(name: &str, description: &str, params: Vec<ToolParam>, required: Option<&str>) -> (t: ToolSpec)
    ensures
        t@ == (ToolSpecView {
            name: name@,
            description: description@,
            params: params@.map_values(|p: ToolParam| p@),
            required: match required {
                Some(r) => seq![r@],
                None => Seq::empty(),
            },
        }),
{
    let mut req: Vec<String> = Vec::new();
    match required {
        Some(r) => req.push(String::from_str(r)),
        None => {},
    }
    proof {
        assert(req.deep_view() =~= match required {
            Some(r) => seq![r@],
            None => Seq::<Seq<char>>::empty(),
        });
    }
    ToolSpec { name: String::from_str(name), description: String::from_str(description), params, required: req }
}

/// The tools the MCP server offers, in the order it lists them.
pub fn tool_list() -> (res: Vec<ToolSpec>)
    ensures
        res@.map_values(|t: ToolSpec| t@) == tool_catalog(),
{
    let ghost c = tool_catalog();
    let ghost mut views: Seq<ToolSpecView> = Seq::empty();
    let mut out: Vec<ToolSpec> = Vec::new();
    let mut p0: Vec<ToolParam> = Vec::new();
    p0.push(param("path", ParamKind::Text, None));
    let t0 = tool_spec("jalwa_play", "Play a media file (audio or video)", p0, Some("path"));
    proof {
        assert(t0@.params =~= c[0].params);
        assert(t0@.required =~= c[0].required);
        assert(t0@ == c[0]);
        views = views.push(t0@);
    }
    out.push(t0);
    assert(out@.map_values(|t: ToolSpec| t@) =~= views);
    let mut p1: Vec<ToolParam> = Vec::new();
    let t1 = tool_spec("jalwa_pause", "Pause current playback", p1, None);
    proof {
        assert(t1@.params =~= c[1].params);
        assert(t1@.required =~= c[1].required);
        assert(t1@ == c[1]);
        views = views.push(t1@);
    }
    out.push(t1);
    assert(out@.map_values(|t: ToolSpec| t@) =~= views);
    let mut p2: Vec<ToolParam> = Vec::new();
    let t2 = tool_spec("jalwa_status", "Get current playback status (state, position, volume)", p2, None);
    proof {
        assert(t2@.params =~= c[2].params);
        assert(t2@.required =~= c[2].required);
        assert(t2@ == c[2]);
        views = views.push(t2@);
    }
    out.push(t2);
    assert(out@.map_values(|t: ToolSpec| t@) =~= views);
    let mut p3: Vec<ToolParam> = Vec::new();
    p3.push(param("query", ParamKind::Text, None));
    let t3 = tool_spec("jalwa_search", "Search the media library by title, artist, album, or tag", p3, Some("query"));
    proof {
        assert(t3@.params =~= c[3].params);
        assert(t3@.required =~= c[3].required);
        assert(t3@ == c[3]);
        views = views.push(t3@);
    }
    out.push(t3);
    assert(out@.map_values(|t: ToolSpec| t@) =~= views);
    let mut p4: Vec<ToolParam> = Vec::new();
    p4.push(param("item_id", ParamKind::Text, Some("UUID of seed media item")));
    p4.push(param("max", ParamKind::Integer, Some("Max recommendations (default 5)")));
    let t4 = tool_spec("jalwa_recommend", "Get AI-powered media recommendations based on a seed item", p4, Some("item_id"));
    proof {
        assert(t4@.params =~= c[4].params);
        assert(t4@.required =~= c[4].required);
        assert(t4@ == c[4]);
        views = views.push(t4@);
    }
    out.push(t4);
    assert(out@.map_values(|t: ToolSpec| t@) =~= views);
    let mut p5: Vec<ToolParam> = Vec::new();
    p5.push(param("action", ParamKind::Text, Some("Action: list, enqueue, clear, shuffle")));
    p5.push(param("item_id", ParamKind::Text, Some("UUID of media item (for enqueue)")));
    let t5 = tool_spec("jalwa_queue", "Manage the play queue (list, enqueue, clear, shuffle)", p5, Some("action"));
    proof {
        assert(t5@.params =~= c[5].params);
        assert(t5@.required =~= c[5].required);
        assert(t5@ == c[5]);
        views = views.push(t5@);
    }
    out.push(t5);
    assert(out@.map_values(|t: ToolSpec| t@) =~= views);
    let mut p6: Vec<ToolParam> = Vec::new();
    p6.push(param("action", ParamKind::Text, Some("Action: stats, scan, list")));
    p6.push(param("path", ParamKind::Text, Some("Directory path (for scan)")));
    let t6 = tool_spec("jalwa_library", "Manage the media library (stats, scan, list)", p6, Some("action"));
    proof {
        assert(t6@.params =~= c[6].params);
        assert(t6@.required =~= c[6].required);
        assert(t6@ == c[6]);
        views = views.push(t6@);
    }
    out.push(t6);
    assert(out@.map_values(|t: ToolSpec| t@) =~= views);
    let mut p7: Vec<ToolParam> = Vec::new();
    p7.push(param("action", ParamKind::Text, Some("Action: list, create, add, remove, export")));
    p7.push(param("name", ParamKind::Text, Some("Playlist name (for create/add/remove/export)")));
    p7.push(param("item_id", ParamKind::Text, Some("UUID of media item (for add/remove)")));
    p7.push(param("output", ParamKind::Text, Some("Output M3U file path (for export)")));
    let t7 = tool_spec("jalwa_playlist", "Manage playlists (list, create, add, remove, export)", p7, Some("action"));
    proof {
        assert(t7@.params =~= c[7].params);
        assert(t7@.required =~= c[7].required);
        assert(t7@ == c[7]);
        views = views.push(t7@);
    }
    out.push(t7);
    assert(out@.map_values(|t: ToolSpec| t@) =~= views);
    assert(views =~= c);
    out
}

/// The error for an action a tool does not know.
pub fn unknown_action_reply(tool: &str, action: &str) -> (res: ToolReply)
    ensures
        res@ == err_reply("unknown "@ + tool@ + " action: "@ + action@),
{
    let mut s = String::from_str("unknown ");
    push_str(&mut s, tool);
    push_str(&mut s, " action: ");
    push_str(&mut s, action);
    ToolReply { text: s, is_error: true }
}

/// The error for a tool the server does not have.
pub fn unknown_tool_reply(name: &str) -> (res: ToolReply)
    ensures
        res@ == err_reply("unknown tool: "@ + name@),
{
    let mut s = String::from_str("unknown tool: ");
    push_str(&mut s, name);
    ToolReply { text: s, is_error: true }
}

/// What creating a playlist named `name` amounts to: a new, empty playlist
/// to save and the answer once it is saved; or, for an empty name, the
/// error answer.
pub fn playlist_create_reply(name: &str) -> (res: Result<(Playlist, String), ToolReply>)
    ensures
        match res {
            Ok((pl, done)) => {
                &&& name@.len() > 0
                &&& pl@ == (PlaylistView {
                    id: pl.id,
                    name: name@,
                    items: Seq::empty(),
                    created_at_ms: pl.created_at_ms,
                    modified_at_ms: pl.created_at_ms,
                    description: None,
                    is_smart: false,
                })
                &&& done@ == "Created playlist: "@ + name@
            },
            Err(r) => name@.len() == 0 && r@ == err_reply("name required for create"@),
        },
{
    if name.is_empty() {
        return Err(ToolReply { text: String::from_str("name required for create"), is_error: true });
    }
    let pl = Playlist::new(name);
    let mut done = String::from_str("Created playlist: ");
    push_str(&mut done, name);
    Ok((pl, done))
}

/// What exporting the named playlist to `output` amounts to: the M3U text
/// to write and the answer once it is written; or the answer to a request
/// that lacks an argument or names no playlist.
pub fn export_plan(library: &Library, name: &str, output: &str) -> (res: Result<(String, String), ToolReply>)
    ensures
        match res {
            Ok((content, done)) => name@.len() > 0 && output@.len() > 0 && match playlist_named(library@.playlists, name@) {
                Some(i) => {
                    &&& content@ == "#EXTM3U\n"@ + crate::m3u::m3u_body(library@.playlists[i].items, library@.items)
                    &&& done@ == "Exported '"@ + name@ + "' ("@ + decimal(library@.playlists[i].items.len()) + " tracks) to "@ + output@
                },
                None => false,
            },
            Err(r) => if name@.len() == 0 || output@.len() == 0 {
                r@ == err_reply("name and output required"@)
            } else {
                playlist_named(library@.playlists, name@) is None && r@ == err_reply("Playlist '"@ + name@ + "' not found"@)
            },
        },
{
    if name.is_empty() || output.is_empty() {
        return Err(ToolReply { text: String::from_str("name and output required"), is_error: true });
    }
    match find_playlist_by_name(library, name) {
        Some(i) => {
            let pl = &library.playlists[i];
            let content = crate::m3u::format_m3u(pl, library);
            let mut done = String::from_str("Exported '");
            push_str(&mut done, name);
            push_str(&mut done, "' (");
            push_decimal(&mut done, pl.items.len() as u64);
            push_str(&mut done, " tracks) to ");
            push_str(&mut done, output);
            Ok((content, done))
        },
        None => {
            let mut s = String::from_str("Playlist '");
            push_str(&mut s, name);
            push_str(&mut s, "' not found");
            Err(ToolReply { text: s, is_error: true })
        },
    }
}

/// The answer after scanning `path`: how many items were added, and the
/// library statistics.
pub fn scan_reply(path: &str, added: u64, library: &Library) -> (res: ToolReply)
    requires
        crate::render::total_duration_ms(library@.items) <= u64::MAX,
    ensures
        res@ == ok_reply("Scanned "@ + path@ + ": added "@ + decimal(added as nat) + " new items\n"@
            + crate::render::library_stats_text(library@)),
{
    let mut s = String::from_str("Scanned ");
    push_str(&mut s, path);
    push_str(&mut s, ": added ");
    push_decimal(&mut s, added);
    push_str(&mut s, " new items\n");
    let stats = crate::render::render_library_stats(library);
    push_str(&mut s, stats.as_str());
    ToolReply { text: s, is_error: false }
}

} // verus!
