//! Media items and the format, codec and type tags they carry.

use vstd::prelude::*;
use crate::ids::{new_id, now_millis};
use crate::text::{copy_opt_string, copy_string, copy_strings, opt_seq, push_str, string_from_chars};

verus! {

/// Type of media content.
#[derive(Debug, Clone, Copy, PartialEq, Eq, Structural)]
pub enum MediaType {
    Audio,
    Video,
}

impl MediaType {
    /// The display name: "audio" or "video".
    pub open spec fn spec_text(self) -> Seq<char> {
        match self {
            MediaType::Audio => "audio"@,
            MediaType::Video => "video"@,
        }
    }

    /// The display name as a string.
    pub fn to_string(&self) -> (res: String)
        ensures
            res@ == self.spec_text(),
    {
        match self {
            MediaType::Audio => String::from_str("audio"),
            MediaType::Video => String::from_str("video"),
        }
    }
}

/// Container formats a media file may have.
#[derive(Debug, Clone, Copy, PartialEq, Eq, Structural)]
pub enum ContainerFormat {
    Mp4,
    Mkv,
    WebM,
    Ogg,
    Wav,
    Flac,
    Mp3,
    Avi,
}

/// Audio codecs.
#[derive(Debug, Clone, Copy, PartialEq, Eq, Structural)]
pub enum AudioCodec {
    Pcm,
    Mp3,
    Aac,
    Flac,
    Vorbis,
    Opus,
    Alac,
    Wma,
}

/// Video codecs.
#[derive(Debug, Clone, Copy, PartialEq, Eq, Structural)]
pub enum VideoCodec {
    H264,
    H265,
    Vp8,
    Vp9,
    Av1,
    Theora,
}

impl ContainerFormat {
    /// The human-readable name ("MP4", "Matroska", ...).
    pub open spec fn spec_display(self) -> Seq<char> {
        match self {
            ContainerFormat::Mp4 => "MP4"@,
            ContainerFormat::Mkv => "Matroska"@,
            ContainerFormat::WebM => "WebM"@,
            ContainerFormat::Ogg => "OGG"@,
            ContainerFormat::Wav => "WAV"@,
            ContainerFormat::Flac => "FLAC"@,
            ContainerFormat::Mp3 => "MP3"@,
            ContainerFormat::Avi => "AVI"@,
        }
    }

    /// The human-readable name as a string.
    pub fn to_string(&self) -> (res: String)
        ensures
            res@ == self.spec_display(),
    {
        match self {
            ContainerFormat::Mp4 => String::from_str("MP4"),
            ContainerFormat::Mkv => String::from_str("Matroska"),
            ContainerFormat::WebM => String::from_str("WebM"),
            ContainerFormat::Ogg => String::from_str("OGG"),
            ContainerFormat::Wav => String::from_str("WAV"),
            ContainerFormat::Flac => String::from_str("FLAC"),
            ContainerFormat::Mp3 => String::from_str("MP3"),
            ContainerFormat::Avi => String::from_str("AVI"),
        }
    }

    /// The variant name as stored in the library database ("Mp4", ...).
    pub open spec fn spec_tag(self) -> Seq<char> {
        match self {
            ContainerFormat::Mp4 => "Mp4"@,
            ContainerFormat::Mkv => "Mkv"@,
            ContainerFormat::WebM => "WebM"@,
            ContainerFormat::Ogg => "Ogg"@,
            ContainerFormat::Wav => "Wav"@,
            ContainerFormat::Flac => "Flac"@,
            ContainerFormat::Mp3 => "Mp3"@,
            ContainerFormat::Avi => "Avi"@,
        }
    }

    /// The variant name as a string.
    pub fn tag(&self) -> (res: String)
        ensures
            res@ == self.spec_tag(),
    {
        match self {
            ContainerFormat::Mp4 => String::from_str("Mp4"),
            ContainerFormat::Mkv => String::from_str("Mkv"),
            ContainerFormat::WebM => String::from_str("WebM"),
            ContainerFormat::Ogg => String::from_str("Ogg"),
            ContainerFormat::Wav => String::from_str("Wav"),
            ContainerFormat::Flac => String::from_str("Flac"),
            ContainerFormat::Mp3 => String::from_str("Mp3"),
            ContainerFormat::Avi => String::from_str("Avi"),
        }
    }
}

impl AudioCodec {
    /// The human-readable name ("PCM", "MP3", ...).
    pub open spec fn spec_display(self) -> Seq<char> {
        match self {
            AudioCodec::Pcm => "PCM"@,
            AudioCodec::Mp3 => "MP3"@,
            AudioCodec::Aac => "AAC"@,
            AudioCodec::Flac => "FLAC"@,
            AudioCodec::Vorbis => "Vorbis"@,
            AudioCodec::Opus => "Opus"@,
            AudioCodec::Alac => "ALAC"@,
            AudioCodec::Wma => "WMA"@,
        }
    }

    /// The human-readable name as a string.
    pub fn to_string(&self) -> (res: String)
        ensures
            res@ == self.spec_display(),
    {
        match self {
            AudioCodec::Pcm => String::from_str("PCM"),
            AudioCodec::Mp3 => String::from_str("MP3"),
            AudioCodec::Aac => String::from_str("AAC"),
            AudioCodec::Flac => String::from_str("FLAC"),
            AudioCodec::Vorbis => String::from_str("Vorbis"),
            AudioCodec::Opus => String::from_str("Opus"),
            AudioCodec::Alac => String::from_str("ALAC"),
            AudioCodec::Wma => String::from_str("WMA"),
        }
    }

    /// The variant name as stored in the library database ("Pcm", ...).
    pub open spec fn spec_tag(self) -> Seq<char> {
        match self {
            AudioCodec::Pcm => "Pcm"@,
            AudioCodec::Mp3 => "Mp3"@,
            AudioCodec::Aac => "Aac"@,
            AudioCodec::Flac => "Flac"@,
            AudioCodec::Vorbis => "Vorbis"@,
            AudioCodec::Opus => "Opus"@,
            AudioCodec::Alac => "Alac"@,
            AudioCodec::Wma => "Wma"@,
        }
    }

    /// The variant name as a string.
    pub fn tag(&self) -> (res: String)
        ensures
            res@ == self.spec_tag(),
    {
        match self {
            AudioCodec::Pcm => String::from_str("Pcm"),
            AudioCodec::Mp3 => String::from_str("Mp3"),
            AudioCodec::Aac => String::from_str("Aac"),
            AudioCodec::Flac => String::from_str("Flac"),
            AudioCodec::Vorbis => String::from_str("Vorbis"),
            AudioCodec::Opus => String::from_str("Opus"),
            AudioCodec::Alac => String::from_str("Alac"),
            AudioCodec::Wma => String::from_str("Wma"),
        }
    }
}

impl VideoCodec {
    /// The human-readable name ("H.264", ...).
    pub open spec fn spec_display(self) -> Seq<char> {
        match self {
            VideoCodec::H264 => "H.264"@,
            VideoCodec::H265 => "H.265"@,
            VideoCodec::Vp8 => "VP8"@,
            VideoCodec::Vp9 => "VP9"@,
            VideoCodec::Av1 => "AV1"@,
            VideoCodec::Theora => "Theora"@,
        }
    }

    /// The human-readable name as a string.
    pub fn to_string(&self) -> (res: String)
        ensures
            res@ == self.spec_display(),
    {
        match self {
            VideoCodec::H264 => String::from_str("H.264"),
            VideoCodec::H265 => String::from_str("H.265"),
            VideoCodec::Vp8 => String::from_str("VP8"),
            VideoCodec::Vp9 => String::from_str("VP9"),
            VideoCodec::Av1 => String::from_str("AV1"),
            VideoCodec::Theora => String::from_str("Theora"),
        }
    }

    /// The variant name as stored in the library database ("H264", ...).
    pub open spec fn spec_tag(self) -> Seq<char> {
        match self {
            VideoCodec::H264 => "H264"@,
            VideoCodec::H265 => "H265"@,
            VideoCodec::Vp8 => "Vp8"@,
            VideoCodec::Vp9 => "Vp9"@,
            VideoCodec::Av1 => "Av1"@,
            VideoCodec::Theora => "Theora"@,
        }
    }

    /// The variant name as a string.
    pub fn tag(&self) -> (res: String)
        ensures
            res@ == self.spec_tag(),
    {
        match self {
            VideoCodec::H264 => String::from_str("H264"),
            VideoCodec::H265 => String::from_str("H265"),
            VideoCodec::Vp8 => String::from_str("Vp8"),
            VideoCodec::Vp9 => String::from_str("Vp9"),
            VideoCodec::Av1 => String::from_str("Av1"),
            VideoCodec::Theora => String::from_str("Theora"),
        }
    }
}

/// A media item in the library.
///
/// Identifiers are the 128-bit values of UUIDs; durations are in
/// milliseconds; instants are milliseconds since the Unix epoch (UTC).
#[derive(Debug, Clone)]
pub struct MediaItem {
    pub id: u128,
    pub path: String,
    pub title: String,
    pub artist: Option<String>,
    pub album: Option<String>,
    pub duration_ms: Option<u64>,
    pub format: ContainerFormat,
    pub audio_codec: Option<AudioCodec>,
    pub video_codec: Option<VideoCodec>,
    pub media_type: MediaType,
    pub added_at_ms: i64,
    pub last_played_ms: Option<i64>,
    pub play_count: u32,
    pub rating: Option<u8>,
    pub tags: Vec<String>,
    /// Album art MIME type (e.g. "image/jpeg") if embedded art was found.
    pub art_mime: Option<String>,
    /// Album art data (raw bytes, typically JPEG or PNG).
    pub art_data: Option<Vec<u8>>,
}

/// The abstract value of a [`MediaItem`].
pub struct MediaItemView {
    pub id: u128,
    pub path: Seq<char>,
    pub title: Seq<char>,
    pub artist: Option<Seq<char>>,
    pub album: Option<Seq<char>>,
    pub duration_ms: Option<u64>,
    pub format: ContainerFormat,
    pub audio_codec: Option<AudioCodec>,
    pub video_codec: Option<VideoCodec>,
    pub media_type: MediaType,
    pub added_at_ms: i64,
    pub last_played_ms: Option<i64>,
    pub play_count: u32,
    pub rating: Option<u8>,
    pub tags: Seq<Seq<char>>,
    pub art_mime: Option<Seq<char>>,
    pub art_data: Option<Seq<u8>>,
}

/// The bytes held by optional art data.
pub open spec fn opt_bytes(o: Option<Vec<u8>>) -> Option<Seq<u8>> {
    match o {
        Some(v) => Some(v@),
        None => None,
    }
}

impl View for MediaItem {
    type V = MediaItemView;

    open spec fn view(&self) -> MediaItemView {
        MediaItemView {
            id: self.id,
            path: self.path@,
            title: self.title@,
            artist: opt_seq(self.artist),
            album: opt_seq(self.album),
            duration_ms: self.duration_ms,
            format: self.format,
            audio_codec: self.audio_codec,
            video_codec: self.video_codec,
            media_type: self.media_type,
            added_at_ms: self.added_at_ms,
            last_played_ms: self.last_played_ms,
            play_count: self.play_count,
            rating: self.rating,
            tags: self.tags.deep_view(),
            art_mime: opt_seq(self.art_mime),
            art_data: opt_bytes(self.art_data),
        }
    }
}

/// What a media probe reports about a file: the information the library
/// takes from it when it builds a [`MediaItem`].
pub struct ProbeInfo {
    pub format: ContainerFormat,
    /// Codecs of the audio streams, in stream order.
    pub audio_codecs: Vec<AudioCodec>,
    /// Codecs of the video streams, in stream order.
    pub video_codecs: Vec<VideoCodec>,
    pub duration_ms: Option<u64>,
    pub artist: Option<String>,
    pub album: Option<String>,
}

/// What `Path::file_stem` returns for a path (converted to text).
pub uninterp spec fn spec_file_stem(path: Seq<char>) -> Option<Seq<char>>;

/// Calls `std::path::Path::file_stem` and converts the stem to text.
#[verifier::external_body]
pub fn file_stem(path: &str) -> (res: Option<String>)
    ensures
        opt_seq(res) == spec_file_stem(path@),
{
    std::path::Path::new(path).file_stem().map(|s| s.to_string_lossy().to_string())
}

/// The title a probed file gets: its file stem, or "Unknown" without one.
pub open spec fn probe_title(path: Seq<char>) -> Seq<char> {
    match spec_file_stem(path) {
        Some(s) => s,
        None => "Unknown"@,
    }
}

/// The item built from a path and its probe, with a given id and time.
pub open spec fn probed_item(id: u128, path: Seq<char>, info: ProbeInfo, now: i64) -> MediaItemView {
    MediaItemView {
        id: id,
        path: path,
        title: probe_title(path),
        artist: opt_seq(info.artist),
        album: opt_seq(info.album),
        duration_ms: info.duration_ms,
        format: info.format,
        audio_codec: if info.audio_codecs@.len() > 0 { Some(info.audio_codecs@[0]) } else { None },
        video_codec: if info.video_codecs@.len() > 0 { Some(info.video_codecs@[0]) } else { None },
        media_type: if info.video_codecs@.len() > 0 { MediaType::Video } else { MediaType::Audio },
        added_at_ms: now,
        last_played_ms: None,
        play_count: 0,
        rating: None,
        tags: Seq::empty(),
        art_mime: None,
        art_data: None,
    }
}

impl MediaItem {
    /// Create a new media item from a file path and its probe, with a fresh
    /// id and the current time as the time it was added.
    pub fn from_probe(path: String, info: &ProbeInfo) -> (item: MediaItem)
        ensures
            item@ == probed_item(item.id, path@, *info, item.added_at_ms),
    {
        let id = new_id();
        let now = now_millis();
        Self::from_probe_at(id, path, info, now)
    }

    /// [`MediaItem::from_probe`] with the id and the time given.
    pub fn from_probe_at(id: u128, path: String, info: &ProbeInfo, now: i64) -> (item: MediaItem)
        ensures
            item@ == probed_item(id, path@, *info, now),
    {
        let audio_codec = if info.audio_codecs.len() > 0 { Some(info.audio_codecs[0]) } else { None };
        let video_codec = if info.video_codecs.len() > 0 { Some(info.video_codecs[0]) } else { None };
        let media_type = if info.video_codecs.len() > 0 { MediaType::Video } else { MediaType::Audio };
        let title = match file_stem(path.as_str()) {
            Some(s) => s,
            None => String::from_str("Unknown"),
        };
        let item = MediaItem {
            id: id,
            path: path,
            title: title,
            artist: copy_opt_string(&info.artist),
            album: copy_opt_string(&info.album),
            duration_ms: info.duration_ms,
            format: info.format,
            audio_codec: audio_codec,
            video_codec: video_codec,
            media_type: media_type,
            added_at_ms: now,
            last_played_ms: None,
            play_count: 0,
            rating: None,
            tags: Vec::new(),
            art_mime: None,
            art_data: None,
        };
        assert(item.tags.deep_view() =~= Seq::<Seq<char>>::empty());
        item
    }

    pub fn is_audio(&self) -> (res: bool)
        ensures
            res == (self.media_type == MediaType::Audio),
    {
        self.media_type == MediaType::Audio
    }

    pub fn is_video(&self) -> (res: bool)
        ensures
            res == (self.media_type == MediaType::Video),
    {
        self.media_type == MediaType::Video
    }

    /// A copy of the item with the same abstract value.
    pub fn copy(&self) -> (res: MediaItem)
        ensures
            res@ == self@,
    {
        let art_data = match &self.art_data {
            Some(v) => Some(v.clone()),
            None => None,
        };
        MediaItem {
            id: self.id,
            path: copy_string(&self.path),
            title: copy_string(&self.title),
            artist: copy_opt_string(&self.artist),
            album: copy_opt_string(&self.album),
            duration_ms: self.duration_ms,
            format: self.format,
            audio_codec: self.audio_codec,
            video_codec: self.video_codec,
            media_type: self.media_type,
            added_at_ms: self.added_at_ms,
            last_played_ms: self.last_played_ms,
            play_count: self.play_count,
            rating: self.rating,
            tags: copy_strings(&self.tags),
            art_mime: copy_opt_string(&self.art_mime),
            art_data: art_data,
        }
    }
}

/// The path `make_media_item` gives an item titled `title`.
pub open spec fn fixture_path(title: Seq<char>) -> Seq<char> {
    "/music/"@ + title + ".flac"@
}

/// The item `make_media_item` builds.
pub open spec fn fixture_item(id: u128, title: Seq<char>, artist: Seq<char>, duration_secs: u64, now: i64) -> MediaItemView {
    MediaItemView {
        id: id,
        path: fixture_path(title),
        title: title,
        artist: Some(artist),
        album: Some("Album"@),
        duration_ms: Some((duration_secs * 1000) as u64),
        format: ContainerFormat::Flac,
        audio_codec: Some(AudioCodec::Flac),
        video_codec: None,
        media_type: MediaType::Audio,
        added_at_ms: now,
        last_played_ms: None,
        play_count: 0,
        rating: None,
        tags: Seq::empty(),
        art_mime: None,
        art_data: None,
    }
}

/// Create a `MediaItem` with common test defaults: an audio FLAC file under
/// `/music/`, album "Album", the given title, artist and duration, a fresh id
/// and the current time.
pub fn make_media_item(title: &str, artist: &str, duration_secs: u64) -> (item: MediaItem)
    requires
        duration_secs <= u64::MAX / 1000,
    ensures
        item@ == fixture_item(item.id, title@, artist@, duration_secs, item.added_at_ms),
{
    let mut path = String::from_str("/music/");
    push_str(&mut path, title);
    push_str(&mut path, ".flac");
    let item = MediaItem {
        id: new_id(),
        path: path,
        title: String::from_str(title),
        artist: Some(String::from_str(artist)),
        album: Some(String::from_str("Album")),
        duration_ms: Some(duration_secs * 1000),
        format: ContainerFormat::Flac,
        audio_codec: Some(AudioCodec::Flac),
        video_codec: None,
        media_type: MediaType::Audio,
        added_at_ms: now_millis(),
        last_played_ms: None,
        play_count: 0,
        rating: None,
        tags: Vec::new(),
        art_mime: None,
        art_data: None,
    };
    assert(item.tags.deep_view() =~= Seq::<Seq<char>>::empty());
    item
}

} // verus!
