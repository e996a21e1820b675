use jalwa::eq::{band_name, preset_bands_db, preset_names};
use jalwa::ids::new_id;
use jalwa::library::Library;
use jalwa::m3u::{format_m3u, parse_m3u};
use jalwa::media::{make_media_item, AudioCodec, ContainerFormat, MediaType, ProbeInfo, VideoCodec};
use jalwa::playlist::Playlist;
use jalwa::scanner::{
    extract_art, is_media_file, is_supported_extension, library_events, new_file_positions, scanned_to_media_item, FsChange,
    LibraryEvent, Picture, ScannedFile, MAX_ART_SIZE,
};
use jalwa::store::{
    default_db_path, item_from_row, item_to_row, parse_audio_codec, parse_format, parse_video_codec,
    playlist_from_row, playlist_to_row,
};
use jalwa::wav::make_test_wav;

// ---- scanning ----

#[test]
fn supported_extensions() {
    assert!(is_supported_extension("mp3"));
    assert!(is_supported_extension("FLAC"));
    assert!(is_supported_extension("wav"));
    assert!(is_supported_extension("ogg"));
    assert!(is_supported_extension("m4a"));
    assert!(is_supported_extension("opus"));
    assert!(!is_supported_extension("txt"));
    assert!(!is_supported_extension("pdf"));
    assert!(!is_supported_extension("rs"));
}

#[test]
fn is_media_file_checks() {
    assert!(is_media_file("/music/song.mp3"));
    assert!(is_media_file("/music/song.FLAC"));
    assert!(is_media_file("track.ogg"));
    assert!(is_media_file("video.mkv"));
    assert!(!is_media_file("readme.txt"));
    assert!(!is_media_file("photo.jpg"));
    assert!(!is_media_file("noext"));
}

#[test]
fn library_event_debug() {
    let ev = LibraryEvent::FileCreated("/music/new.mp3".to_string());
    let s = format!("{:?}", ev);
    assert!(s.contains("FileCreated"));
}

#[test]
fn watcher_events_keep_media_paths_only() {
    let paths = vec!["/music/a.mp3".to_string(), "/music/notes.txt".to_string(), "/music/b.flac".to_string()];
    let created = library_events(FsChange::Create, &paths);
    assert_eq!(created.len(), 2);
    assert!(matches!(&created[0], LibraryEvent::FileCreated(p) if p == "/music/a.mp3"));
    assert!(matches!(&created[1], LibraryEvent::FileCreated(p) if p == "/music/b.flac"));
    let removed = library_events(FsChange::Remove, &paths);
    assert!(matches!(&removed[1], LibraryEvent::FileRemoved(p) if p == "/music/b.flac"));
    let modified = library_events(FsChange::Modify, &paths);
    assert!(matches!(&modified[0], LibraryEvent::FileModified(p) if p == "/music/a.mp3"));
    assert!(library_events(FsChange::Other, &paths).is_empty());
    assert!(library_events(FsChange::Create, &Vec::new()).is_empty());
}

#[test]
fn scan_skips_duplicates() {
    let mut lib = Library::new();
    lib.add_item(make_media_item("A", "X", 10));
    let paths = vec![
        "/music/A.flac".to_string(),
        "/music/B.flac".to_string(),
        "/music/B.flac".to_string(),
        "/music/C.flac".to_string(),
    ];
    assert_eq!(new_file_positions(&lib, &paths), vec![1, 3]);
    assert!(new_file_positions(&lib, &Vec::new()).is_empty());
}

#[test]
fn extract_art_empty() {
    let (mime, data) = extract_art(&Vec::new());
    assert!(mime.is_none());
    assert!(data.is_none());
}

#[test]
fn extract_art_prefers_front_cover() {
    let pictures = vec![
        Picture { is_front_cover: false, mime: Some("image/png".to_string()), data: vec![1, 2] },
        Picture { is_front_cover: true, mime: Some("image/jpeg".to_string()), data: vec![0xFF, 0xD8] },
    ];
    let (mime, data) = extract_art(&pictures);
    assert_eq!(mime, Some("image/jpeg".to_string()));
    assert_eq!(data, Some(vec![0xFF, 0xD8]));
    let others = vec![Picture { is_front_cover: false, mime: None, data: vec![9] }];
    assert_eq!(extract_art(&others), (None, Some(vec![9])));
}

#[test]
fn extract_art_skips_empty_or_oversized() {
    let empty = vec![Picture { is_front_cover: true, mime: Some("image/png".to_string()), data: Vec::new() }];
    assert_eq!(extract_art(&empty), (None, None));
    let huge = vec![Picture { is_front_cover: true, mime: Some("image/png".to_string()), data: vec![0; MAX_ART_SIZE + 1] }];
    assert_eq!(extract_art(&huge), (None, None));
}

fn mp3_info() -> ProbeInfo {
    ProbeInfo {
        format: ContainerFormat::Mp3,
        audio_codecs: vec![AudioCodec::Mp3],
        video_codecs: vec![],
        duration_ms: Some(200_000),
        artist: None,
        album: None,
    }
}

#[test]
fn scanned_to_media_item_applies_tags() {
    let scanned = ScannedFile {
        path: "/music/track.mp3".to_string(),
        info: mp3_info(),
        title: Some("My Song".to_string()),
        artist: Some("My Artist".to_string()),
        album: Some("My Album".to_string()),
        art_mime: Some("image/jpeg".to_string()),
        art_data: Some(vec![0xFF, 0xD8, 0xFF]),
    };
    let item = scanned_to_media_item(scanned);
    assert_eq!(item.title, "My Song");
    assert_eq!(item.artist, Some("My Artist".to_string()));
    assert_eq!(item.album, Some("My Album".to_string()));
    assert_eq!(item.art_mime, Some("image/jpeg".to_string()));
    assert!(item.art_data.is_some());
    assert_eq!(item.duration_ms, Some(200_000));
    assert_eq!(item.media_type, MediaType::Audio);
}

#[test]
fn scanned_to_media_item_no_tags() {
    let info = ProbeInfo {
        format: ContainerFormat::Flac,
        audio_codecs: vec![AudioCodec::Flac],
        video_codecs: vec![],
        duration_ms: Some(180_000),
        artist: Some("Probe Artist".to_string()),
        album: None,
    };
    let scanned = ScannedFile {
        path: "/music/song.flac".to_string(),
        info,
        title: None,
        artist: None,
        album: None,
        art_mime: None,
        art_data: None,
    };
    let item = scanned_to_media_item(scanned);
    assert_eq!(item.title, "song");
    assert_eq!(item.artist, Some("Probe Artist".to_string()));
    assert!(item.art_data.is_none());
}

// ---- database rows ----

#[test]
fn parse_helpers() {
    assert_eq!(parse_format("Mp4"), ContainerFormat::Mp4);
    assert_eq!(parse_format("Mkv"), ContainerFormat::Mkv);
    assert_eq!(parse_format("WebM"), ContainerFormat::WebM);
    assert_eq!(parse_format("Ogg"), ContainerFormat::Ogg);
    assert_eq!(parse_format("Wav"), ContainerFormat::Wav);
    assert_eq!(parse_format("Flac"), ContainerFormat::Flac);
    assert_eq!(parse_format("Mp3"), ContainerFormat::Mp3);
    assert_eq!(parse_format("Avi"), ContainerFormat::Avi);
    assert_eq!(parse_format("unknown"), ContainerFormat::Mp3);

    assert_eq!(parse_audio_codec("Pcm"), AudioCodec::Pcm);
    assert_eq!(parse_audio_codec("Mp3"), AudioCodec::Mp3);
    assert_eq!(parse_audio_codec("Aac"), AudioCodec::Aac);
    assert_eq!(parse_audio_codec("Flac"), AudioCodec::Flac);
    assert_eq!(parse_audio_codec("Vorbis"), AudioCodec::Vorbis);
    assert_eq!(parse_audio_codec("Opus"), AudioCodec::Opus);
    assert_eq!(parse_audio_codec("Alac"), AudioCodec::Alac);
    assert_eq!(parse_audio_codec("Wma"), AudioCodec::Wma);
    assert_eq!(parse_audio_codec("???"), AudioCodec::Pcm);

    assert_eq!(parse_video_codec("H264"), VideoCodec::H264);
    assert_eq!(parse_video_codec("H265"), VideoCodec::H265);
    assert_eq!(parse_video_codec("Vp8"), VideoCodec::Vp8);
    assert_eq!(parse_video_codec("Vp9"), VideoCodec::Vp9);
    assert_eq!(parse_video_codec("Av1"), VideoCodec::Av1);
    assert_eq!(parse_video_codec("Theora"), VideoCodec::Theora);
    assert_eq!(parse_video_codec("???"), VideoCodec::H264);
}

#[test]
fn default_db_path_ends_correctly() {
    let path = default_db_path(None, Some("/home/user".to_string()));
    assert!(path.ends_with("jalwa/library.db"));
    assert_eq!(path, "/home/user/.local/share/jalwa/library.db");
    let xdg = default_db_path(Some("/data".to_string()), Some("/home/user".to_string()));
    assert_eq!(xdg, "/data/jalwa/library.db");
}

#[test]
fn db_path_is_valid() {
    let p = default_db_path(None, Some("/root".to_string()));
    assert!(p.contains("jalwa"));
}

#[test]
fn item_row_roundtrip() {
    let mut item = make_media_item("Song", "Artist", 200);
    item.tags = vec!["rock".to_string(), "live".to_string()];
    item.rating = Some(4);
    item.play_count = 3;
    let row = item_to_row(&item).expect("a fixture item has a representable row");
    assert_eq!(row.media_type, "Audio");
    assert_eq!(row.format, "Flac");
    assert_eq!(row.duration_ms, Some(200_000));
    let back = item_from_row(row);
    assert_eq!(back.id, item.id);
    assert_eq!(back.path, item.path);
    assert_eq!(back.title, item.title);
    assert_eq!(back.artist, item.artist);
    assert_eq!(back.album, item.album);
    assert_eq!(back.duration_ms, item.duration_ms);
    assert_eq!(back.format, item.format);
    assert_eq!(back.audio_codec, item.audio_codec);
    assert_eq!(back.media_type, item.media_type);
    assert_eq!(back.added_at_ms, item.added_at_ms);
    assert_eq!(back.play_count, 3);
    assert_eq!(back.rating, Some(4));
    assert_eq!(back.tags, item.tags);
}

#[test]
fn playlist_row_roundtrip() {
    let mut pl = Playlist::new("Favs");
    let a = new_id();
    let b = new_id();
    pl.add(a);
    pl.add(b);
    let (row, ids) = playlist_to_row(&pl).expect("a fresh playlist has a representable row");
    assert_eq!(row.name, "Favs");
    assert_eq!(ids.len(), 2);
    let back = playlist_from_row(row, &ids);
    assert_eq!(back.id, pl.id);
    assert_eq!(back.name, "Favs");
    assert_eq!(back.items, vec![a, b]);
    assert_eq!(back.created_at_ms, pl.created_at_ms);
}

#[test]
fn db_update_play_count() {
    let mut lib = Library::new();
    let item = make_media_item("Song", "A", 100);
    let id = item.id;
    lib.add_item(item);
    lib.update_play_count(id, 1_700_000_000_000);
    lib.update_play_count(id, 1_700_000_001_000);
    let it = lib.find_by_id(id).unwrap();
    assert_eq!(it.play_count, 2);
    assert_eq!(it.last_played_ms, Some(1_700_000_001_000));
    lib.update_play_count(new_id(), 5);
    assert_eq!(lib.find_by_id(id).unwrap().play_count, 2);
}

#[test]
fn db_update_rating() {
    let mut lib = Library::new();
    let item = make_media_item("Song", "A", 100);
    let id = item.id;
    lib.add_item(item);
    lib.update_rating(id, Some(5));
    assert_eq!(lib.find_by_id(id).unwrap().rating, Some(5));
    lib.update_rating(id, None);
    assert_eq!(lib.find_by_id(id).unwrap().rating, None);
}

#[test]
fn db_delete_playlist() {
    let mut lib = Library::new();
    let pid = lib.create_playlist("Temp");
    assert_eq!(lib.playlists.len(), 1);
    lib.delete_playlist(pid);
    assert!(lib.playlists.is_empty());
}

#[test]
fn save_playlist_replaces_by_id() {
    let mut lib = Library::new();
    let pid = lib.create_playlist("First");
    let mut changed = Playlist::new("Second");
    changed.id = pid;
    lib.save_playlist(changed);
    assert_eq!(lib.playlists.len(), 1);
    assert_eq!(lib.playlists[0].name, "Second");
    lib.save_playlist(Playlist::new("Third"));
    assert_eq!(lib.playlists.len(), 2);
}

// ---- M3U ----

#[test]
fn m3u_roundtrip() {
    let mut lib = Library::new();
    let item1 = make_media_item("Song A", "Artist 1", 200);
    let item2 = make_media_item("Song B", "Artist 2", 180);
    let (id1, id2) = (item1.id, item2.id);
    lib.add_item(item1);
    lib.add_item(item2);
    let mut playlist = Playlist::new("Test");
    playlist.add(id1);
    playlist.add(id2);
    let text = format_m3u(&playlist, &lib);
    assert_eq!(
        text,
        "#EXTM3U\n#EXTINF:200,Artist 1 - Song A\n/music/Song A.flac\n#EXTINF:180,Artist 2 - Song B\n/music/Song B.flac\n"
    );
    let paths = parse_m3u(&text);
    assert_eq!(paths, vec!["/music/Song A.flac".to_string(), "/music/Song B.flac".to_string()]);
}

#[test]
fn load_m3u_empty_file() {
    assert!(parse_m3u("").is_empty());
}

#[test]
fn load_m3u_with_comments() {
    let content = "#EXTM3U\n#EXTINF:120,Artist - Title\n/music/track1.flac\n# This is a comment\n/music/track2.flac\n\n/music/track3.flac\n";
    let paths = parse_m3u(content);
    assert_eq!(paths.len(), 3);
    assert_eq!(paths[0], "/music/track1.flac");
    assert_eq!(paths[1], "/music/track2.flac");
    assert_eq!(paths[2], "/music/track3.flac");
}

#[test]
fn save_m3u_empty_playlist() {
    let lib = Library::new();
    let playlist = Playlist::new("Empty");
    assert_eq!(format_m3u(&playlist, &lib), "#EXTM3U\n");
}

#[test]
fn m3u_unknown_duration_and_artist() {
    let mut lib = Library::new();
    let mut item = make_media_item("Solo", "X", 10);
    item.artist = None;
    item.duration_ms = None;
    let id = item.id;
    lib.add_item(item);
    let mut playlist = Playlist::new("P");
    playlist.add(id);
    playlist.add(new_id());
    assert_eq!(format_m3u(&playlist, &lib), "#EXTM3U\n#EXTINF:-1,Solo\n/music/Solo.flac\n");
}

// ---- equalizer presets ----

#[test]
fn dsp_eq_band_names() {
    assert_eq!(band_name(0), "31 Hz");
    assert_eq!(band_name(5), "1 kHz");
    assert_eq!(band_name(9), "16 kHz");
    assert_eq!(band_name(10), "?");
}

#[test]
fn dsp_preset_names_list() {
    let names = preset_names();
    assert!(names.contains(&"rock".to_string()));
    assert!(names.contains(&"jazz".to_string()));
    assert!(names.contains(&"flat".to_string()));
    assert!(names.len() >= 9);
}

#[test]
fn dsp_preset_rock() {
    let bands = preset_bands_db("rock");
    assert!(bands.iter().any(|b| *b != 0));
    assert!(bands[0] > 0);
    assert_eq!(bands, [4, 3, 1, -1, -2, 0, 2, 3, 4, 4]);
}

#[test]
fn dsp_preset_flat_is_default() {
    assert!(preset_bands_db("flat").iter().all(|b| *b == 0));
}

#[test]
fn dsp_preset_unknown_returns_flat() {
    assert!(preset_bands_db("nonexistent").iter().all(|b| *b == 0));
}

#[test]
fn dsp_all_presets_valid_range() {
    for name in preset_names() {
        for &b in preset_bands_db(&name).iter() {
            assert!((-12..=12).contains(&b), "preset '{name}' band out of range: {b}");
        }
    }
}

// ---- WAV ----

#[test]
fn wav_header_layout() {
    let wav = make_test_wav(44100, &vec![0, 1, -1]);
    assert_eq!(wav.len(), 44 + 6);
    assert_eq!(&wav[0..4], b"RIFF");
    assert_eq!(&wav[4..8], &(36u32 + 6).to_le_bytes());
    assert_eq!(&wav[8..16], b"WAVEfmt ");
    assert_eq!(&wav[24..28], &44100u32.to_le_bytes());
    assert_eq!(&wav[28..32], &88200u32.to_le_bytes());
    assert_eq!(&wav[36..40], b"data");
    assert_eq!(&wav[40..44], &6u32.to_le_bytes());
    assert_eq!(&wav[44..], &[0, 0, 1, 0, 0xFF, 0xFF]);
}

#[test]
fn scan_skips_paths_equal_as_paths() {
    let mut lib = Library::new();
    lib.add_item(make_media_item("A", "X", 10));
    let paths = vec![
        "/music//A.flac".to_string(),
        "/music/B.flac".to_string(),
        "/music/./B.flac".to_string(),
        "/music/C.flac".to_string(),
    ];
    assert_eq!(new_file_positions(&lib, &paths), vec![1, 3]);
}

#[test]
fn item_row_roundtrip_drops_only_art() {
    let mut item = make_media_item("Song", "Artist", 200);
    item.tags = vec!["rock".to_string()];
    item.art_mime = Some("image/png".to_string());
    item.art_data = Some(vec![1, 2, 3]);
    let back = item_from_row(item_to_row(&item).unwrap());
    assert_eq!(back.id, item.id);
    assert_eq!(back.title, "Song");
    assert_eq!(back.artist.as_deref(), Some("Artist"));
    assert_eq!(back.tags, vec!["rock".to_string()]);
    assert_eq!(back.duration_ms, Some(200_000));
    assert_eq!(back.art_mime, None);
    assert_eq!(back.art_data, None);
}

/// A mono 16-bit WAV of a 440 Hz sine at amplitude 16000, as the test
/// fixtures of the player use.
fn sine_wav(num_samples: u32, sample_rate: u32) -> Vec<u8> {
    let samples: Vec<i16> = (0..num_samples)
        .map(|i| {
            let t = i as f64 / sample_rate as f64;
            ((t * 440.0 * 2.0 * std::f64::consts::PI).sin() * 16000.0) as i16
        })
        .collect();
    make_test_wav(sample_rate, &samples)
}

#[test]
fn sine_wav_fixture() {
    let wav = sine_wav(4410, 44100);
    assert_eq!(wav.len(), 44 + 4410 * 2);
    assert_eq!(&wav[40..44], &(4410u32 * 2).to_le_bytes());
    // The sine starts at zero and rises.
    assert_eq!(&wav[44..46], &0i16.to_le_bytes());
    let second = i16::from_le_bytes([wav[46], wav[47]]);
    assert!(second > 0);
    let peak = wav[44..].chunks(2).map(|c| i16::from_le_bytes([c[0], c[1]])).max().unwrap();
    assert!(peak > 15900 && peak <= 16000);
}
