//! The library's storage format: the rows the database holds for items and
//! playlists, how they are made from the library's values and read back,
//! and the changes the persistent library makes in memory once the
//! database has accepted a write.
//!
//! The database itself (SQLite) is driven outside the library.

use vstd::prelude::*;
use crate::ids::{
    four_digit_years_end_ms, four_digit_years_start_ms, millis_to_rfc3339, new_id, now_millis, parse_rfc3339_millis,
    parse_uuid, spec_rfc3339, spec_rfc3339_parse, spec_tags_parse, spec_uuid_parse, tags_from_json, tags_to_json,
    uuid_text,
};
use crate::library::{item_index, items_view, lookup_item, playlist_index, playlists_view, Library, LibraryView};
use crate::media::{AudioCodec, ContainerFormat, MediaItem, MediaItemView, MediaType, VideoCodec};
use crate::paths::{path_join, spec_path_join};
use crate::playlist::Playlist;
use crate::seqs::{keep, lemma_keep_step};
use crate::text::{copy_opt_string, copy_string, opt_seq, text_eq};

verus! {

/// The container format a stored tag names ("Mp4", ...); unknown tags read
/// as MP3.
pub open spec fn format_from_tag(s: Seq<char>) -> ContainerFormat {
    if s == ContainerFormat::Mp4.spec_tag() {
        ContainerFormat::Mp4
    } else if s == ContainerFormat::Mkv.spec_tag() {
        ContainerFormat::Mkv
    } else if s == ContainerFormat::WebM.spec_tag() {
        ContainerFormat::WebM
    } else if s == ContainerFormat::Ogg.spec_tag() {
        ContainerFormat::Ogg
    } else if s == ContainerFormat::Wav.spec_tag() {
        ContainerFormat::Wav
    } else if s == ContainerFormat::Flac.spec_tag() {
        ContainerFormat::Flac
    } else if s == ContainerFormat::Mp3.spec_tag() {
        ContainerFormat::Mp3
    } else if s == ContainerFormat::Avi.spec_tag() {
        ContainerFormat::Avi
    } else {
        ContainerFormat::Mp3
    }
}

/// The audio codec a stored tag names ("Pcm", ...); unknown tags read as PCM.
pub open spec fn audio_codec_from_tag(s: Seq<char>) -> AudioCodec {
    if s == AudioCodec::Pcm.spec_tag() {
        AudioCodec::Pcm
    } else if s == AudioCodec::Mp3.spec_tag() {
        AudioCodec::Mp3
    } else if s == AudioCodec::Aac.spec_tag() {
        AudioCodec::Aac
    } else if s == AudioCodec::Flac.spec_tag() {
        AudioCodec::Flac
    } else if s == AudioCodec::Vorbis.spec_tag() {
        AudioCodec::Vorbis
    } else if s == AudioCodec::Opus.spec_tag() {
        AudioCodec::Opus
    } else if s == AudioCodec::Alac.spec_tag() {
        AudioCodec::Alac
    } else if s == AudioCodec::Wma.spec_tag() {
        AudioCodec::Wma
    } else {
        AudioCodec::Pcm
    }
}

/// The video codec a stored tag names ("H264", ...); unknown tags read as
/// H.264.
pub open spec fn video_codec_from_tag(s: Seq<char>) -> VideoCodec {
    if s == VideoCodec::H264.spec_tag() {
        VideoCodec::H264
    } else if s == VideoCodec::H265.spec_tag() {
        VideoCodec::H265
    } else if s == VideoCodec::Vp8.spec_tag() {
        VideoCodec::Vp8
    } else if s == VideoCodec::Vp9.spec_tag() {
        VideoCodec::Vp9
    } else if s == VideoCodec::Av1.spec_tag() {
        VideoCodec::Av1
    } else if s == VideoCodec::Theora.spec_tag() {
        VideoCodec::Theora
    } else {
        VideoCodec::H264
    }
}

/// Reads a stored container format tag.
pub fn parse_format(s: &str) -> (res: ContainerFormat)
    ensures
        res == format_from_tag(s@),
{
    if text_eq(s, "Mp4") {
        ContainerFormat::Mp4
    } else if text_eq(s, "Mkv") {
        ContainerFormat::Mkv
    } else if text_eq(s, "WebM") {
        ContainerFormat::WebM
    } else if text_eq(s, "Ogg") {
        ContainerFormat::Ogg
    } else if text_eq(s, "Wav") {
        ContainerFormat::Wav
    } else if text_eq(s, "Flac") {
        ContainerFormat::Flac
    } else if text_eq(s, "Mp3") {
        ContainerFormat::Mp3
    } else if text_eq(s, "Avi") {
        ContainerFormat::Avi
    } else {
        ContainerFormat::Mp3
    }
}

/// Reads a stored audio codec tag.
pub fn parse_audio_codec(s: &str) -> (res: AudioCodec)
    ensures
        res == audio_codec_from_tag(s@),
{
    if text_eq(s, "Pcm") {
        AudioCodec::Pcm
    } else if text_eq(s, "Mp3") {
        AudioCodec::Mp3
    } else if text_eq(s, "Aac") {
        AudioCodec::Aac
    } else if text_eq(s, "Flac") {
        AudioCodec::Flac
    } else if text_eq(s, "Vorbis") {
        AudioCodec::Vorbis
    } else if text_eq(s, "Opus") {
        AudioCodec::Opus
    } else if text_eq(s, "Alac") {
        AudioCodec::Alac
    } else if text_eq(s, "Wma") {
        AudioCodec::Wma
    } else {
        AudioCodec::Pcm
    }
}

/// Reads a stored video codec tag.
pub fn parse_video_codec(s: &str) -> (res: VideoCodec)
    ensures
        res == video_codec_from_tag(s@),
{
    if text_eq(s, "H264") {
        VideoCodec::H264
    } else if text_eq(s, "H265") {
        VideoCodec::H265
    } else if text_eq(s, "Vp8") {
        VideoCodec::Vp8
    } else if text_eq(s, "Vp9") {
        VideoCodec::Vp9
    } else if text_eq(s, "Av1") {
        VideoCodec::Av1
    } else if text_eq(s, "Theora") {
        VideoCodec::Theora
    } else {
        VideoCodec::H264
    }
}

/// Each stored tag reads back as the format, codec or type it was written
/// for.
pub proof fn lemma_tags_read_back(f: ContainerFormat, a: AudioCodec, v: VideoCodec, t: MediaType)
    ensures
        format_from_tag(f.spec_tag()) == f,
        audio_codec_from_tag(a.spec_tag()) == a,
        video_codec_from_tag(v.spec_tag()) == v,
        media_type_from_tag(media_type_tag(t)) == t,
{
    reveal_strlit("Mp4");
    assert("Mp4"@.len() == 3 && "Mp4"@[0] == 'M' && "Mp4"@[1] == 'p' && "Mp4"@[2] == '4');
    reveal_strlit("Mkv");
    assert("Mkv"@.len() == 3 && "Mkv"@[0] == 'M' && "Mkv"@[1] == 'k' && "Mkv"@[2] == 'v');
    reveal_strlit("WebM");
    assert("WebM"@.len() == 4 && "WebM"@[0] == 'W' && "WebM"@[1] == 'e' && "WebM"@[2] == 'b' && "WebM"@[3] == 'M');
    reveal_strlit("Ogg");
    assert("Ogg"@.len() == 3 && "Ogg"@[0] == 'O' && "Ogg"@[1] == 'g' && "Ogg"@[2] == 'g');
    reveal_strlit("Wav");
    assert("Wav"@.len() == 3 && "Wav"@[0] == 'W' && "Wav"@[1] == 'a' && "Wav"@[2] == 'v');
    reveal_strlit("Flac");
    assert("Flac"@.len() == 4 && "Flac"@[0] == 'F' && "Flac"@[1] == 'l' && "Flac"@[2] == 'a' && "Flac"@[3] == 'c');
    reveal_strlit("Mp3");
    assert("Mp3"@.len() == 3 && "Mp3"@[0] == 'M' && "Mp3"@[1] == 'p' && "Mp3"@[2] == '3');
    reveal_strlit("Avi");
    assert("Avi"@.len() == 3 && "Avi"@[0] == 'A' && "Avi"@[1] == 'v' && "Avi"@[2] == 'i');
    reveal_strlit("Pcm");
    assert("Pcm"@.len() == 3 && "Pcm"@[0] == 'P' && "Pcm"@[1] == 'c' && "Pcm"@[2] == 'm');
    reveal_strlit("Aac");
    assert("Aac"@.len() == 3 && "Aac"@[0] == 'A' && "Aac"@[1] == 'a' && "Aac"@[2] == 'c');
    reveal_strlit("Vorbis");
    assert("Vorbis"@.len() == 6 && "Vorbis"@[0] == 'V' && "Vorbis"@[1] == 'o' && "Vorbis"@[2] == 'r' && "Vorbis"@[3] == 'b');
    reveal_strlit("Opus");
    assert("Opus"@.len() == 4 && "Opus"@[0] == 'O' && "Opus"@[1] == 'p' && "Opus"@[2] == 'u' && "Opus"@[3] == 's');
    reveal_strlit("Alac");
    assert("Alac"@.len() == 4 && "Alac"@[0] == 'A' && "Alac"@[1] == 'l' && "Alac"@[2] == 'a' && "Alac"@[3] == 'c');
    reveal_strlit("Wma");
    assert("Wma"@.len() == 3 && "Wma"@[0] == 'W' && "Wma"@[1] == 'm' && "Wma"@[2] == 'a');
    reveal_strlit("H264");
    assert("H264"@.len() == 4 && "H264"@[0] == 'H' && "H264"@[1] == '2' && "H264"@[2] == '6' && "H264"@[3] == '4');
    reveal_strlit("H265");
    assert("H265"@.len() == 4 && "H265"@[0] == 'H' && "H265"@[1] == '2' && "H265"@[2] == '6' && "H265"@[3] == '5');
    reveal_strlit("Vp8");
    assert("Vp8"@.len() == 3 && "Vp8"@[0] == 'V' && "Vp8"@[1] == 'p' && "Vp8"@[2] == '8');
    reveal_strlit("Vp9");
    assert("Vp9"@.len() == 3 && "Vp9"@[0] == 'V' && "Vp9"@[1] == 'p' && "Vp9"@[2] == '9');
    reveal_strlit("Av1");
    assert("Av1"@.len() == 3 && "Av1"@[0] == 'A' && "Av1"@[1] == 'v' && "Av1"@[2] == '1');
    reveal_strlit("Theora");
    assert("Theora"@.len() == 6 && "Theora"@[0] == 'T' && "Theora"@[1] == 'h' && "Theora"@[2] == 'e' && "Theora"@[3] == 'o');
    reveal_strlit("Audio");
    assert("Audio"@.len() == 5 && "Audio"@[0] == 'A' && "Audio"@[1] == 'u' && "Audio"@[2] == 'd' && "Audio"@[3] == 'i');
    reveal_strlit("Video");
    assert("Video"@.len() == 5 && "Video"@[0] == 'V' && "Video"@[1] == 'i' && "Video"@[2] == 'd' && "Video"@[3] == 'e');
}

/// The stored name of a media type ("Audio" or "Video").
pub open spec fn media_type_tag(t: MediaType) -> Seq<char> {
    match t {
        MediaType::Audio => "Audio"@,
        MediaType::Video => "Video"@,
    }
}

/// The media type a stored name means: "Video" is video, anything else
/// audio.
pub open spec fn media_type_from_tag(s: Seq<char>) -> MediaType {
    if s == "Video"@ { MediaType::Video } else { MediaType::Audio }
}


/// A row of the items table, as the database holds it.
#[derive(Debug)]
pub struct ItemRow {
    pub id: String,
    pub path: String,
    pub title: String,
    pub artist: Option<String>,
    pub album: Option<String>,
    pub duration_ms: Option<i64>,
    pub format: String,
    pub audio_codec: Option<String>,
    pub video_codec: Option<String>,
    pub media_type: String,
    pub added_at: String,
    pub last_played: Option<String>,
    pub play_count: u32,
    pub rating: Option<u8>,
    /// The tags as a JSON list.
    pub tags: Option<String>,
}

/// The abstract value of an [`ItemRow`].
pub struct ItemRowView {
    pub id: Seq<char>,
    pub path: Seq<char>,
    pub title: Seq<char>,
    pub artist: Option<Seq<char>>,
    pub album: Option<Seq<char>>,
    pub duration_ms: Option<i64>,
    pub format: Seq<char>,
    pub audio_codec: Option<Seq<char>>,
    pub video_codec: Option<Seq<char>>,
    pub media_type: Seq<char>,
    pub added_at: Seq<char>,
    pub last_played: Option<Seq<char>>,
    pub play_count: u32,
    pub rating: Option<u8>,
    pub tags: Option<Seq<char>>,
}

impl View for ItemRow {
    type V = ItemRowView;

    open spec fn view(&self) -> ItemRowView {
        ItemRowView {
            id: self.id@,
            path: self.path@,
            title: self.title@,
            artist: opt_seq(self.artist),
            album: opt_seq(self.album),
            duration_ms: self.duration_ms,
            format: self.format@,
            audio_codec: opt_seq(self.audio_codec),
            video_codec: opt_seq(self.video_codec),
            media_type: self.media_type@,
            added_at: self.added_at@,
            last_played: opt_seq(self.last_played),
            play_count: self.play_count,
            rating: self.rating,
            tags: opt_seq(self.tags),
        }
    }
}

/// The item a row reads as. An id that is no UUID is replaced by
/// `fresh_id`, an unreadable time of addition by `now`; an unreadable
/// last-play time or tag list is dropped. Art is not stored.
pub open spec fn item_of_row(r: ItemRowView, fresh_id: u128, now: i64) -> MediaItemView {
    MediaItemView {
        id: match spec_uuid_parse(r.id) {
            Some(u) => u,
            None => fresh_id,
        },
        path: r.path,
        title: r.title,
        artist: r.artist,
        album: r.album,
        duration_ms: match r.duration_ms {
            Some(ms) => Some(ms as u64),
            None => None,
        },
        format: format_from_tag(r.format),
        audio_codec: match r.audio_codec {
            Some(c) => Some(audio_codec_from_tag(c)),
            None => None,
        },
        video_codec: match r.video_codec {
            Some(c) => Some(video_codec_from_tag(c)),
            None => None,
        },
        media_type: media_type_from_tag(r.media_type),
        added_at_ms: match spec_rfc3339_parse(r.added_at) {
            Some(ms) => ms,
            None => now,
        },
        last_played_ms: match r.last_played {
            Some(t) => spec_rfc3339_parse(t),
            None => None,
        },
        play_count: r.play_count,
        rating: r.rating,
        tags: match r.tags {
            Some(j) => match spec_tags_parse(j) {
                Some(t) => t,
                None => Seq::empty(),
            },
            None => Seq::empty(),
        },
        art_mime: None,
        art_data: None,
    }
}

/// Reads an item from a row, with the id and time to use where the row's
/// are unreadable.
pub fn item_from_row_at(row: ItemRow, fresh_id: u128, now: i64) -> (item: MediaItem)
    ensures
        item@ == item_of_row(row@, fresh_id, now),
{
    let ghost r = row@;
    let id = match parse_uuid(row.id.as_str()) {
        Some(u) => u,
        None => fresh_id,
    };
    let duration_ms = match row.duration_ms {
        Some(ms) => Some(ms as u64),
        None => None,
    };
    let format = parse_format(row.format.as_str());
    let audio_codec = match &row.audio_codec {
        Some(c) => Some(parse_audio_codec(c.as_str())),
        None => None,
    };
    let video_codec = match &row.video_codec {
        Some(c) => Some(parse_video_codec(c.as_str())),
        None => None,
    };
    let media_type = if text_eq(row.media_type.as_str(), "Video") { MediaType::Video } else { MediaType::Audio };
    let added_at_ms = match parse_rfc3339_millis(row.added_at.as_str()) {
        Some(ms) => ms,
        None => now,
    };
    let last_played_ms = match &row.last_played {
        Some(t) => parse_rfc3339_millis(t.as_str()),
        None => None,
    };
    let tags = match &row.tags {
        Some(j) => match tags_from_json(j.as_str()) {
            Some(t) => t,
            None => Vec::new(),
        },
        None => Vec::new(),
    };
    let item = MediaItem {
        id,
        path: row.path,
        title: row.title,
        artist: row.artist,
        album: row.album,
        duration_ms,
        format,
        audio_codec,
        video_codec,
        media_type,
        added_at_ms,
        last_played_ms,
        play_count: row.play_count,
        rating: row.rating,
        tags,
        art_mime: None,
        art_data: None,
    };
    assert(item@.tags =~= item_of_row(r, fresh_id, now).tags);
    item
}

/// Reads an item from a row; where the row's id or time of addition are
/// unreadable, a fresh id and the current time are used.
pub fn item_from_row(row: ItemRow) -> (item: MediaItem)
    ensures
        item@ == item_of_row(row@, item@.id, item@.added_at_ms),
{
    let fresh = new_id();
    let now = now_millis();
    item_from_row_at(row, fresh, now)
}

/// The row that stores an item (when its times can be written).
pub open spec fn row_of_item(item: MediaItemView) -> ItemRowView {
    ItemRowView {
        id: crate::ids::spec_uuid_text(item.id),
        path: item.path,
        title: item.title,
        artist: item.artist,
        album: item.album,
        duration_ms: match item.duration_ms {
            Some(d) => Some(d as i64),
            None => None,
        },
        format: item.format.spec_tag(),
        audio_codec: match item.audio_codec {
            Some(c) => Some(c.spec_tag()),
            None => None,
        },
        video_codec: match item.video_codec {
            Some(c) => Some(c.spec_tag()),
            None => None,
        },
        media_type: media_type_tag(item.media_type),
        added_at: spec_rfc3339(item.added_at_ms)->0,
        last_played: match item.last_played_ms {
            Some(ms) => Some(spec_rfc3339(ms)->0),
            None => None,
        },
        play_count: item.play_count,
        rating: item.rating,
        tags: Some(crate::ids::spec_tags_json(item.tags)),
    }
}

/// The item's times can be written as RFC 3339 text.
pub open spec fn times_writable(item: MediaItemView) -> bool {
    &&& spec_rfc3339(item.added_at_ms) is Some
    &&& match item.last_played_ms {
        Some(ms) => spec_rfc3339(ms) is Some,
        None => true,
    }
}

/// The item's times lie in the years 0000 to 9999.
pub open spec fn times_in_four_digit_years(item: MediaItemView) -> bool {
    &&& four_digit_years_start_ms() <= item.added_at_ms <= four_digit_years_end_ms()
    &&& match item.last_played_ms {
        Some(ms) => four_digit_years_start_ms() <= ms <= four_digit_years_end_ms(),
        None => true,
    }
}

/// The row that stores an item; `None` when one of its times cannot be
/// written. An item whose times lie in the years 0000 to 9999 reads back
/// from its row with every field but its art, which rows do not hold.
pub fn item_to_row(item: &MediaItem) -> (res: Option<ItemRow>)
    ensures
        match res {
            Some(row) => times_writable(item@) && row@ == row_of_item(item@),
            None => !times_writable(item@),
        },
        times_in_four_digit_years(item@) ==> {
            &&& res is Some
            &&& forall|fresh: u128, now: i64| #[trigger] item_of_row(res->0@, fresh, now)
                == (MediaItemView { art_mime: None, art_data: None, ..item@ })
        },
{
    let added_at = match millis_to_rfc3339(item.added_at_ms) {
        Some(t) => t,
        None => return None,
    };
    let last_played = match item.last_played_ms {
        Some(ms) => match millis_to_rfc3339(ms) {
            Some(t) => Some(t),
            None => return None,
        },
        None => None,
    };
    let id = uuid_text(item.id);
    let duration_ms = match item.duration_ms {
        Some(d) => Some(d as i64),
        None => None,
    };
    let audio_codec = match &item.audio_codec {
        Some(c) => Some(c.tag()),
        None => None,
    };
    let video_codec = match &item.video_codec {
        Some(c) => Some(c.tag()),
        None => None,
    };
    let media_type = match item.media_type {
        MediaType::Audio => String::from_str("Audio"),
        MediaType::Video => String::from_str("Video"),
    };
    let tags = tags_to_json(&item.tags);
    let row = ItemRow {
        id,
        path: copy_string(&item.path),
        title: copy_string(&item.title),
        artist: copy_opt_string(&item.artist),
        album: copy_opt_string(&item.album),
        duration_ms,
        format: item.format.tag(),
        audio_codec,
        video_codec,
        media_type,
        added_at,
        last_played,
        play_count: item.play_count,
        rating: item.rating,
        tags: Some(tags),
    };
    proof {
        let iv = item@;
        lemma_tags_read_back(iv.format, AudioCodec::Pcm, VideoCodec::H264, iv.media_type);
        match iv.audio_codec {
            Some(c) => lemma_tags_read_back(iv.format, c, VideoCodec::H264, iv.media_type),
            None => {},
        }
        match iv.video_codec {
            Some(c) => lemma_tags_read_back(iv.format, AudioCodec::Pcm, c, iv.media_type),
            None => {},
        }
        match iv.duration_ms {
            Some(d) => {
                assert((d as i64) as u64 == d) by (bit_vector);
            },
            None => {},
        }
        if times_in_four_digit_years(iv) {
            let stored = MediaItemView { art_mime: None, art_data: None, ..iv };
            assert forall|fresh: u128, now: i64| #[trigger] item_of_row(row@, fresh, now) == stored by {
                assert(item_of_row(row@, fresh, now) =~= stored);
            }
        }
    }
    Some(row)
}


/// A row of the playlists table.
#[derive(Debug)]
pub struct PlaylistRow {
    pub id: String,
    pub name: String,
    pub description: Option<String>,
    pub is_smart: bool,
    pub created_at: String,
    pub modified_at: String,
}

/// The abstract value of a [`PlaylistRow`].
pub struct PlaylistRowView {
    pub id: Seq<char>,
    pub name: Seq<char>,
    pub description: Option<Seq<char>>,
    pub is_smart: bool,
    pub created_at: Seq<char>,
    pub modified_at: Seq<char>,
}

impl View for PlaylistRow {
    type V = PlaylistRowView;

    open spec fn view(&self) -> PlaylistRowView {
        PlaylistRowView {
            id: self.id@,
            name: self.name@,
            description: opt_seq(self.description),
            is_smart: self.is_smart,
            created_at: self.created_at@,
            modified_at: self.modified_at@,
        }
    }
}

/// The ids among stored item references that are UUIDs, in order.
pub open spec fn parsed_ids(ids: Seq<Seq<char>>) -> Seq<u128>
    decreases ids.len(),
{
    if ids.len() == 0 {
        Seq::empty()
    } else {
        match spec_uuid_parse(ids.last()) {
            Some(u) => parsed_ids(ids.drop_last()).push(u),
            None => parsed_ids(ids.drop_last()),
        }
    }
}

/// The playlist a row and its item references read as: unreadable ids are
/// replaced by `fresh_id` (the playlist's) or skipped (items), unreadable
/// times by `now`.
pub open spec fn playlist_of_row(r: PlaylistRowView, item_ids: Seq<Seq<char>>, fresh_id: u128, now: i64) -> crate::playlist::PlaylistView {
    crate::playlist::PlaylistView {
        id: match spec_uuid_parse(r.id) {
            Some(u) => u,
            None => fresh_id,
        },
        name: r.name,
        items: parsed_ids(item_ids),
        created_at_ms: match spec_rfc3339_parse(r.created_at) {
            Some(ms) => ms,
            None => now,
        },
        modified_at_ms: match spec_rfc3339_parse(r.modified_at) {
            Some(ms) => ms,
            None => now,
        },
        description: r.description,
        is_smart: r.is_smart,
    }
}

/// Reads a playlist from its row and its item references (in position
/// order), with the id and time to use where the row's are unreadable.
pub fn playlist_from_row_at(row: PlaylistRow, item_ids: &Vec<String>, fresh_id: u128, now: i64) -> (pl: crate::playlist::Playlist)
    ensures
        pl@ == playlist_of_row(row@, item_ids.deep_view(), fresh_id, now),
{
    let ghost ids = item_ids.deep_view();
    let mut items: Vec<u128> = Vec::new();
    let mut i: usize = 0;
    while i < item_ids.len()
        invariant
            i <= item_ids.len(),
            ids == item_ids.deep_view(),
            ids.len() == item_ids.len(),
            items@ == parsed_ids(ids.take(i as int)),
        decreases item_ids.len() - i,
    {
        assert(ids.take(i + 1).drop_last() =~= ids.take(i as int));
        assert(ids.take(i + 1).last() == item_ids@[i as int]@);
        match parse_uuid(item_ids[i].as_str()) {
            Some(u) => items.push(u),
            None => {},
        }
        i = i + 1;
    }
    assert(ids.take(i as int) =~= ids);
    let id = match parse_uuid(row.id.as_str()) {
        Some(u) => u,
        None => fresh_id,
    };
    let created_at_ms = match parse_rfc3339_millis(row.created_at.as_str()) {
        Some(ms) => ms,
        None => now,
    };
    let modified_at_ms = match parse_rfc3339_millis(row.modified_at.as_str()) {
        Some(ms) => ms,
        None => now,
    };
    crate::playlist::Playlist {
        id,
        name: row.name,
        items,
        created_at_ms,
        modified_at_ms,
        description: row.description,
        is_smart: row.is_smart,
    }
}

/// Reads a playlist from its row and item references; unreadable ids and
/// times are replaced by a fresh id and the current time.
pub fn playlist_from_row(row: PlaylistRow, item_ids: &Vec<String>) -> (pl: crate::playlist::Playlist)
    ensures
        exists|fresh: u128, now: i64| pl@ == playlist_of_row(row@, item_ids.deep_view(), fresh, now),
{
    let fresh = new_id();
    let now = now_millis();
    playlist_from_row_at(row, item_ids, fresh, now)
}

/// The row and item references that store a playlist (when its times can
/// be written).
pub open spec fn row_of_playlist(pl: crate::playlist::PlaylistView) -> (PlaylistRowView, Seq<Seq<char>>) {
    (
        PlaylistRowView {
            id: crate::ids::spec_uuid_text(pl.id),
            name: pl.name,
            description: pl.description,
            is_smart: pl.is_smart,
            created_at: spec_rfc3339(pl.created_at_ms)->0,
            modified_at: spec_rfc3339(pl.modified_at_ms)->0,
        },
        pl.items.map_values(|u: u128| crate::ids::spec_uuid_text(u)),
    )
}

/// The row and item references (in order) that store a playlist; `None`
/// when one of its times cannot be written. A playlist whose times lie in
/// the years 0000 to 9999 reads back from them exactly.
pub fn playlist_to_row(pl: &crate::playlist::Playlist) -> (res: Option<(PlaylistRow, Vec<String>)>)
    ensures
        match res {
            Some(r) => spec_rfc3339(pl@.created_at_ms) is Some && spec_rfc3339(pl@.modified_at_ms) is Some
                && (r.0@, r.1.deep_view()) == row_of_playlist(pl@),
            None => spec_rfc3339(pl@.created_at_ms) is None || spec_rfc3339(pl@.modified_at_ms) is None,
        },
        four_digit_years_start_ms() <= pl@.created_at_ms <= four_digit_years_end_ms()
            && four_digit_years_start_ms() <= pl@.modified_at_ms <= four_digit_years_end_ms() ==> {
            match res {
                Some(r) => forall|fresh: u128, now: i64| #[trigger] playlist_of_row(r.0@, r.1.deep_view(), fresh, now) == pl@,
                None => false,
            }
        },
{
    let created_at = match millis_to_rfc3339(pl.created_at_ms) {
        Some(t) => t,
        None => return None,
    };
    let modified_at = match millis_to_rfc3339(pl.modified_at_ms) {
        Some(t) => t,
        None => return None,
    };
    let ghost items = pl.items@;
    let mut refs: Vec<String> = Vec::new();
    let mut i: usize = 0;
    while i < pl.items.len()
        invariant
            i <= pl.items.len(),
            items == pl.items@,
            refs.deep_view() == items.take(i as int).map_values(|u: u128| crate::ids::spec_uuid_text(u)),
            parsed_ids(refs.deep_view()) == items.take(i as int),
        decreases pl.items.len() - i,
    {
        let t = uuid_text(pl.items[i]);
        let ghost before = refs.deep_view();
        refs.push(t);
        proof {
            assert(refs.deep_view() =~= before.push(crate::ids::spec_uuid_text(items[i as int])));
            assert(refs.deep_view().drop_last() =~= before);
            assert(items.take(i + 1) =~= items.take(i as int).push(items[i as int]));
            assert(refs.deep_view() =~= items.take(i + 1).map_values(|u: u128| crate::ids::spec_uuid_text(u)));
        }
        i = i + 1;
    }
    assert(items.take(i as int) =~= items);
    let row = PlaylistRow {
        id: uuid_text(pl.id),
        name: copy_string(&pl.name),
        description: copy_opt_string(&pl.description),
        is_smart: pl.is_smart,
        created_at,
        modified_at,
    };
    proof {
        if four_digit_years_start_ms() <= pl@.created_at_ms <= four_digit_years_end_ms()
            && four_digit_years_start_ms() <= pl@.modified_at_ms <= four_digit_years_end_ms() {
            assert forall|fresh: u128, now: i64| #[trigger] playlist_of_row(row@, refs.deep_view(), fresh, now) == pl@ by {
                assert(playlist_of_row(row@, refs.deep_view(), fresh, now) =~= pl@);
            }
        }
    }
    Some((row, refs))
}


/// The default database location: `jalwa/library.db` under the data
/// directory, which is `XDG_DATA_HOME` when set, else `.local/share` under
/// the home directory (or under the current directory without one).
pub open spec fn db_path_for(xdg_data_home: Option<Seq<char>>, home: Option<Seq<char>>) -> Seq<char> {
    let data_dir = match xdg_data_home {
        Some(x) => x,
        None => spec_path_join(
            match home {
                Some(h) => h,
                None => "."@,
            },
            ".local/share"@,
        ),
    };
    spec_path_join(spec_path_join(data_dir, "jalwa"@), "library.db"@)
}

/// The default database path, given the environment's `XDG_DATA_HOME` and
/// `HOME`.
pub fn default_db_path(xdg_data_home: Option<String>, home: Option<String>) -> (res: String)
    ensures
        res@ == db_path_for(opt_seq(xdg_data_home), opt_seq(home)),
{
    let data_dir = match xdg_data_home {
        Some(x) => x,
        None => {
            let h = match home {
                Some(h) => h,
                None => String::from_str("."),
            };
            path_join(h.as_str(), ".local/share")
        },
    };
    let dir = path_join(data_dir.as_str(), "jalwa");
    path_join(dir.as_str(), "library.db")
}

impl Library {
    /// Counts a play of the item with `id` (if there is one) at `now`.
    pub fn update_play_count(&mut self, id: u128, now: i64)
        requires
            match lookup_item(old(self)@.items, id) {
                Some(it) => it.play_count < u32::MAX,
                None => true,
            },
        ensures
            final(self)@ == (match item_index(old(self)@.items, id) {
                Some(i) => (LibraryView {
                    items: old(self)@.items.update(i, (MediaItemView {
                        play_count: (old(self)@.items[i].play_count + 1) as u32,
                        last_played_ms: Some(now),
                        ..old(self)@.items[i]
                    })),
                    ..old(self)@
                }),
                None => old(self)@,
            }),
    {
        let ghost before = self@;
        match self.find_index(id) {
            Some(i) => {
                self.items[i].play_count = self.items[i].play_count + 1;
                self.items[i].last_played_ms = Some(now);
                assert(items_view(self.items@) =~= before.items.update(i as int, MediaItemView {
                    play_count: (before.items[i as int].play_count + 1) as u32,
                    last_played_ms: Some(now),
                    ..before.items[i as int]
                }));
            },
            None => {},
        }
    }

    /// Sets the rating of the item with `id`, if there is one.
    pub fn update_rating(&mut self, id: u128, rating: Option<u8>)
        ensures
            final(self)@ == (match item_index(old(self)@.items, id) {
                Some(i) => (LibraryView {
                    items: old(self)@.items.update(i, (MediaItemView { rating, ..old(self)@.items[i] })),
                    ..old(self)@
                }),
                None => old(self)@,
            }),
    {
        let ghost before = self@;
        match self.find_index(id) {
            Some(i) => {
                self.items[i].rating = rating;
                assert(items_view(self.items@) =~= before.items.update(i as int, MediaItemView { rating, ..before.items[i as int] }));
            },
            None => {},
        }
    }

    /// Stores a playlist: it replaces the first playlist with its id, or
    /// joins the end.
    pub fn save_playlist(&mut self, playlist: Playlist)
        ensures
            final(self)@ == (LibraryView {
                playlists: match playlist_index(old(self)@.playlists, playlist@.id) {
                    Some(i) => old(self)@.playlists.update(i, playlist@),
                    None => old(self)@.playlists.push(playlist@),
                },
                ..old(self)@
            }),
    {
        let ghost before = self@;
        match self.find_playlist_index(playlist.id) {
            Some(i) => {
                self.playlists.set(i, playlist);
                assert(playlists_view(self.playlists@) =~= before.playlists.update(i as int, playlist@));
            },
            None => {
                self.playlists.push(playlist);
                assert(playlists_view(self.playlists@) =~= before.playlists.push(playlist@));
            },
        }
    }

    /// Forgets every playlist with `id`.
    pub fn delete_playlist(&mut self, id: u128)
        ensures
            final(self)@ == (LibraryView {
                playlists: keep(old(self)@.playlists, |p: crate::playlist::PlaylistView| p.id != id),
                ..old(self)@
            }),
    {
        let ghost before = self@.playlists;
        let ghost f = |p: crate::playlist::PlaylistView| p.id != id;
        let mut kept: Vec<Playlist> = Vec::new();
        let mut i: usize = 0;
        while i < self.playlists.len()
            invariant
                i <= self.playlists.len(),
                before == playlists_view(self.playlists@),
                f == (|p: crate::playlist::PlaylistView| p.id != id),
                playlists_view(kept@) == keep(before.take(i as int), f),
            decreases self.playlists.len() - i,
        {
            proof {
                lemma_keep_step(before, f, i as int);
            }
            if self.playlists[i].id != id {
                let ghost k0 = playlists_view(kept@);
                kept.push(self.playlists[i].copy());
                assert(playlists_view(kept@) =~= k0.push(before[i as int]));
            }
            i = i + 1;
        }
        assert(before.take(i as int) =~= before);
        self.playlists = kept;
    }
}

} // verus!
