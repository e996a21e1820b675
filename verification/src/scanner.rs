//! Which files the library takes in, what a scanned file becomes, the
//! choice of embedded album art, and the file events the watcher reports.
//!
//! Walking directories, probing files and watching the file system happen
//! outside the library.

use vstd::prelude::*;
use crate::ids::{new_id, now_millis};
use crate::library::{path_index, Library};
use crate::paths::{path_eq, spec_path_eq};
use crate::media::{probed_item, MediaItem, MediaItemView, ProbeInfo};
use crate::seqs::{first, is_first, lemma_first_is, lemma_first_none};
use crate::text::{lowercase, opt_seq, spec_lowercase, text_eq};

verus! {

/// The file extensions of supported media, in lower case.
pub open spec fn supported_extensions() -> Seq<Seq<char>> {
    seq!["mp3"@, "flac"@, "wav"@, "ogg"@, "m4a"@, "mp4"@, "mkv"@, "webm"@, "aac"@, "opus"@]
}

/// Whether a file extension (in any case) is a supported media format.
pub fn is_supported_extension(ext: &str) -> (res: bool)
    ensures
        res == supported_extensions().contains(spec_lowercase(ext@)),
{
    let e = lowercase(ext);
    let s = e.as_str();
    let found = text_eq(s, "mp3") || text_eq(s, "flac") || text_eq(s, "wav") || text_eq(s, "ogg") || text_eq(s, "m4a")
        || text_eq(s, "mp4") || text_eq(s, "mkv") || text_eq(s, "webm") || text_eq(s, "aac") || text_eq(s, "opus");
    proof {
        let x = spec_lowercase(ext@);
        let exts = supported_extensions();
        if found {
            if x == "mp3"@ { assert(exts[0] == x); }
            else if x == "flac"@ { assert(exts[1] == x); }
            else if x == "wav"@ { assert(exts[2] == x); }
            else if x == "ogg"@ { assert(exts[3] == x); }
            else if x == "m4a"@ { assert(exts[4] == x); }
            else if x == "mp4"@ { assert(exts[5] == x); }
            else if x == "mkv"@ { assert(exts[6] == x); }
            else if x == "webm"@ { assert(exts[7] == x); }
            else if x == "aac"@ { assert(exts[8] == x); }
            else { assert(exts[9] == x); }
        } else {
            assert forall|k: int| 0 <= k < exts.len() implies exts[k] != x by {}
        }
    }
    found
}

/// What `Path::extension` returns for a path (as text).
pub uninterp spec fn spec_path_extension(path: Seq<char>) -> Option<Seq<char>>;

/// Calls `std::path::Path::extension` on a path text; the extension of a
/// path made from `str` is text again. The result is named.
#[verifier::external_body]
fn path_extension(path: &str) -> (res: Option<String>)
    ensures
        opt_seq(res) == spec_path_extension(path@),
{
    std::path::Path::new(path).extension().and_then(|e| e.to_str()).map(|e| e.to_string())
}

/// The path names a media file: it has a supported extension.
pub open spec fn media_path(path: Seq<char>) -> bool {
    match spec_path_extension(path) {
        Some(e) => supported_extensions().contains(spec_lowercase(e)),
        None => false,
    }
}

/// Whether a path has a supported media extension.
pub fn is_media_file(path: &str) -> (res: bool)
    ensures
        res == media_path(path@),
{
    match path_extension(path) {
        Some(e) => is_supported_extension(e.as_str()),
        None => false,
    }
}

/// Events the file watcher emits for media files.
#[derive(Debug)]
pub enum LibraryEvent {
    /// A new media file was created.
    FileCreated(String),
    /// A media file was modified (metadata changed, re-encoded).
    FileModified(String),
    /// A media file was removed.
    FileRemoved(String),
}

/// The abstract value of a [`LibraryEvent`].
pub enum LibraryEventView {
    FileCreated(Seq<char>),
    FileModified(Seq<char>),
    FileRemoved(Seq<char>),
}

impl View for LibraryEvent {
    type V = LibraryEventView;

    open spec fn view(&self) -> LibraryEventView {
        match self {
            LibraryEvent::FileCreated(p) => LibraryEventView::FileCreated(p@),
            LibraryEvent::FileModified(p) => LibraryEventView::FileModified(p@),
            LibraryEvent::FileRemoved(p) => LibraryEventView::FileRemoved(p@),
        }
    }
}

/// What kind of change the file system reported.
#[derive(Debug, Clone, Copy, PartialEq, Eq, Structural)]
pub enum FsChange {
    Create,
    Modify,
    Remove,
    Other,
}

/// The library events for a file-system change to some paths: one per
/// media path, for creations, modifications and removals.
pub open spec fn change_events(kind: FsChange, paths: Seq<Seq<char>>) -> Seq<LibraryEventView>
    decreases paths.len(),
{
    if paths.len() == 0 {
        Seq::empty()
    } else {
        let rest = change_events(kind, paths.drop_last());
        let p = paths.last();
        if !media_path(p) {
            rest
        } else {
            match kind {
                FsChange::Create => rest.push(LibraryEventView::FileCreated(p)),
                FsChange::Modify => rest.push(LibraryEventView::FileModified(p)),
                FsChange::Remove => rest.push(LibraryEventView::FileRemoved(p)),
                FsChange::Other => rest,
            }
        }
    }
}

/// Turns a file-system change into library events.
pub fn library_events(kind: FsChange, paths: &Vec<String>) -> (res: Vec<LibraryEvent>)
    ensures
        res@.map_values(|e: LibraryEvent| e@) == change_events(kind, paths.deep_view()),
{
    let ghost ps = paths.deep_view();
    let mut out: Vec<LibraryEvent> = Vec::new();
    let mut i: usize = 0;
    while i < paths.len()
        invariant
            i <= paths.len(),
            ps == paths.deep_view(),
            ps.len() == paths.len(),
            out@.map_values(|e: LibraryEvent| e@) == change_events(kind, ps.take(i as int)),
        decreases paths.len() - i,
    {
        assert(ps.take(i + 1).drop_last() =~= ps.take(i as int));
        assert(ps.take(i + 1).last() == paths@[i as int]@);
        let ghost before = out@.map_values(|e: LibraryEvent| e@);
        let p = &paths[i];
        if is_media_file(p.as_str()) {
            let ev = match kind {
                FsChange::Create => Some(LibraryEvent::FileCreated(crate::text::copy_string(p))),
                FsChange::Modify => Some(LibraryEvent::FileModified(crate::text::copy_string(p))),
                FsChange::Remove => Some(LibraryEvent::FileRemoved(crate::text::copy_string(p))),
                FsChange::Other => None,
            };
            match ev {
                Some(e) => {
                    let ghost ev_view = e@;
                    out.push(e);
                    assert(out@.map_values(|e: LibraryEvent| e@) =~= before.push(ev_view));
                },
                None => {},
            }
        }
        i = i + 1;
    }
    assert(ps.take(i as int) =~= ps);
    out
}

/// An embedded picture of a media file's tags.
#[derive(Debug)]
pub struct Picture {
    /// The picture is the front cover.
    pub is_front_cover: bool,
    pub mime: Option<String>,
    pub data: Vec<u8>,
}

/// The largest album art the library keeps: five mebibytes.
pub const MAX_ART_SIZE: usize = 5242880;

/// The picture taken as album art: the first front cover, else the first
/// picture.
pub open spec fn art_choice(front: Seq<bool>) -> Option<int> {
    match first(|i: int| front[i], front.len() as int) {
        Some(i) => Some(i),
        None => if front.len() > 0 { Some(0) } else { None },
    }
}

/// Chooses the album art among a file's pictures: the first front cover,
/// else the first picture; its type and bytes are kept unless it is empty
/// or larger than [`MAX_ART_SIZE`].
pub fn extract_art(pictures: &Vec<Picture>) -> (res: (Option<String>, Option<Vec<u8>>))
    ensures
        match art_choice(pictures@.map_values(|p: Picture| p.is_front_cover)) {
            Some(k) => {
                let p = pictures@[k];
                if p.data@.len() == 0 || p.data@.len() > MAX_ART_SIZE {
                    res.0 is None && res.1 is None
                } else {
                    opt_seq(res.0) == opt_seq(p.mime) && res.1 is Some && res.1->0@ == p.data@
                }
            },
            None => res.0 is None && res.1 is None,
        },
{
    let ghost front = pictures@.map_values(|p: Picture| p.is_front_cover);
    let ghost f = |i: int| front[i];
    if pictures.len() == 0 {
        return (None, None);
    }
    let mut k: usize = 0;
    while k < pictures.len() && !pictures[k].is_front_cover
        invariant
            k <= pictures.len(),
            front == pictures@.map_values(|p: Picture| p.is_front_cover),
            f == (|i: int| front[i]),
            forall|j: int| 0 <= j < k ==> !#[trigger] f(j),
        decreases pictures.len() - k,
    {
        k = k + 1;
    }
    let chosen: usize = if k < pictures.len() {
        proof {
            assert(is_first(f, front.len() as int, k as int));
            lemma_first_is(f, front.len() as int, k as int);
        }
        k
    } else {
        proof {
            lemma_first_none(f, front.len() as int);
        }
        0
    };
    let p = &pictures[chosen];
    if p.data.len() == 0 || p.data.len() > MAX_ART_SIZE {
        (None, None)
    } else {
        let mut data: Vec<u8> = Vec::new();
        let mut i: usize = 0;
        while i < p.data.len()
            invariant
                i <= p.data.len(),
                data@ == p.data@.take(i as int),
            decreases p.data.len() - i,
        {
            data.push(p.data[i]);
            i = i + 1;
            assert(data@ =~= p.data@.take(i as int));
        }
        assert(p.data@.take(i as int) =~= p.data@);
        (crate::text::copy_opt_string(&p.mime), Some(data))
    }
}

/// A scanned file with the metadata its tags give.
pub struct ScannedFile {
    pub path: String,
    pub info: ProbeInfo,
    pub title: Option<String>,
    pub artist: Option<String>,
    pub album: Option<String>,
    /// Album art MIME type (e.g. "image/jpeg").
    pub art_mime: Option<String>,
    /// Raw album art bytes.
    pub art_data: Option<Vec<u8>>,
}

/// The item a scanned file becomes: built from its probe, with the tags'
/// title, artist and album where they have one, and its album art.
pub open spec fn scanned_item(s: ScannedFile, id: u128, now: i64) -> MediaItemView {
    let base = probed_item(id, s.path@, s.info, now);
    MediaItemView {
        title: match s.title {
            Some(t) => t@,
            None => base.title,
        },
        artist: match s.artist {
            Some(a) => Some(a@),
            None => base.artist,
        },
        album: match s.album {
            Some(a) => Some(a@),
            None => base.album,
        },
        art_mime: opt_seq(s.art_mime),
        art_data: crate::media::opt_bytes(s.art_data),
        ..base
    }
}

/// [`scanned_to_media_item`] with the id and the time of addition given.
pub fn scanned_to_media_item_at(scanned: ScannedFile, id: u128, now: i64) -> (item: MediaItem)
    ensures
        item@ == scanned_item(scanned, id, now),
{
    let ghost s0 = scanned;
    let ScannedFile { path, info, title, artist, album, art_mime, art_data } = scanned;
    let mut item = MediaItem::from_probe_at(id, path, &info, now);
    match title {
        Some(t) => item.title = t,
        None => {},
    }
    if artist.is_some() {
        item.artist = artist;
    }
    if album.is_some() {
        item.album = album;
    }
    item.art_mime = art_mime;
    item.art_data = art_data;
    item
}

/// Converts a scanned file to a media item with a fresh id, added now;
/// the tags' title, artist and album win over the probe's.
pub fn scanned_to_media_item(scanned: ScannedFile) -> (item: MediaItem)
    ensures
        item@ == scanned_item(scanned, item@.id, item@.added_at_ms),
{
    let id = new_id();
    let now = now_millis();
    scanned_to_media_item_at(scanned, id, now)
}


/// Whether scanned path `p` is already among the paths at `positions`.
pub open spec fn among(paths: Seq<Seq<char>>, positions: Seq<usize>, p: Seq<char>) -> bool {
    exists|k: int| 0 <= k < positions.len() && spec_path_eq(paths[positions[k] as int], p)
}

/// The positions, among the first `n` scanned paths, of those the library
/// takes in, in order: a file is taken in when no item of the library and
/// no file taken in before it has a path equal to its own (as paths).
pub open spec fn new_path_positions(items: Seq<MediaItemView>, paths: Seq<Seq<char>>, n: int) -> Seq<usize>
    decreases n,
{
    if n <= 0 {
        Seq::empty()
    } else {
        let prev = new_path_positions(items, paths, n - 1);
        if path_index(items, paths[n - 1]) is None && !among(paths, prev, paths[n - 1]) {
            prev.push((n - 1) as usize)
        } else {
            prev
        }
    }
}

/// The positions of the scanned files to add to the library: those whose
/// path no item has yet, each path once (its first file).
pub fn new_file_positions(library: &Library, paths: &Vec<String>) -> (res: Vec<usize>)
    ensures
        res@ == new_path_positions(library@.items, paths.deep_view(), paths.len() as int),
{
    let ghost ps = paths.deep_view();
    let mut out: Vec<usize> = Vec::new();
    let mut i: usize = 0;
    while i < paths.len()
        invariant
            i <= paths.len(),
            ps == paths.deep_view(),
            ps.len() == paths.len(),
            out@ == new_path_positions(library@.items, ps, i as int),
            forall|k: int| 0 <= k < out.len() ==> #[trigger] out@[k] < i,
        decreases paths.len() - i,
    {
        assert(ps[i as int] == paths@[i as int]@);
        let known = library.find_by_path(paths[i].as_str()).is_some();
        let mut seen = false;
        let mut j: usize = 0;
        while j < out.len()
            invariant
                j <= out.len(),
                i < paths.len(),
                ps == paths.deep_view(),
                ps.len() == paths.len(),
                forall|k: int| 0 <= k < out.len() ==> #[trigger] out@[k] < i,
                seen <==> exists|k: int| 0 <= k < j && spec_path_eq(ps[out@[k] as int], ps[i as int]),
            decreases out.len() - j,
        {
            let at = out[j];
            assert(out@[j as int] < i);
            assert(ps[at as int] == paths@[at as int]@);
            if path_eq(paths[at].as_str(), paths[i].as_str()) {
                seen = true;
            }
            proof {
                if exists|k: int| 0 <= k < j + 1 && spec_path_eq(ps[out@[k] as int], ps[i as int]) {
                    let k = choose|k: int| 0 <= k < j + 1 && spec_path_eq(ps[out@[k] as int], ps[i as int]);
                    if k < j {
                        assert(exists|k2: int| 0 <= k2 < j && spec_path_eq(ps[out@[k2] as int], ps[i as int]));
                    }
                }
            }
            j = j + 1;
        }
        assert(seen == among(ps, out@, ps[i as int]));
        if !known && !seen {
            out.push(i);
        }
        i = i + 1;
    }
    out
}

} // verus!
