use jalwa::errors::JalwaError;
use jalwa::ids::{new_id, parse_uuid, uuid_text};
use jalwa::library::Library;
use jalwa::media::{make_media_item, AudioCodec, ContainerFormat, MediaItem, MediaType, ProbeInfo, VideoCodec};
use jalwa::playlist::Playlist;
use jalwa::queue::{PlayQueue, RepeatMode};
use jalwa::text::{lowercase, trim};
use jalwa::status::{format_duration, PlaybackState, PlaybackStatus};
use std::time::Duration;

fn make_audio_info() -> ProbeInfo {
    ProbeInfo {
        format: ContainerFormat::Flac,
        audio_codecs: vec![AudioCodec::Flac],
        video_codecs: vec![],
        duration_ms: Some(240_000),
        artist: Some("Test Artist".to_string()),
        album: Some("Test Album".to_string()),
    }
}

fn make_video_info() -> ProbeInfo {
    ProbeInfo {
        format: ContainerFormat::Mp4,
        audio_codecs: vec![AudioCodec::Aac],
        video_codecs: vec![VideoCodec::H264],
        duration_ms: Some(7_200_000),
        artist: None,
        album: None,
    }
}

#[test]
fn media_item_from_audio_probe() {
    let info = make_audio_info();
    let item = MediaItem::from_probe("/music/song.flac".to_string(), &info);
    assert!(item.is_audio());
    assert!(!item.is_video());
    assert_eq!(item.title, "song");
    assert_eq!(item.artist, Some("Test Artist".to_string()));
    assert_eq!(item.audio_codec, Some(AudioCodec::Flac));
    assert_eq!(item.video_codec, None);
    assert_eq!(item.play_count, 0);
}

#[test]
fn media_item_from_video_probe() {
    let info = make_video_info();
    let item = MediaItem::from_probe("/videos/movie.mp4".to_string(), &info);
    assert!(item.is_video());
    assert!(!item.is_audio());
    assert_eq!(item.audio_codec, Some(AudioCodec::Aac));
    assert_eq!(item.video_codec, Some(VideoCodec::H264));
}

#[test]
fn media_item_from_probe_at_uses_given_id_and_time() {
    let info = make_audio_info();
    let item = MediaItem::from_probe_at(42, "/music/Some Track.ogg".to_string(), &info, 1_700_000_000_000);
    assert_eq!(item.id, 42);
    assert_eq!(item.added_at_ms, 1_700_000_000_000);
    assert_eq!(item.title, "Some Track");
    assert_eq!(item.duration_ms, Some(240_000));
    assert_eq!(item.format, ContainerFormat::Flac);
    assert!(item.tags.is_empty());
}

#[test]
fn media_item_without_stem_is_unknown() {
    let info = make_audio_info();
    let item = MediaItem::from_probe_at(1, "/".to_string(), &info, 0);
    assert_eq!(item.title, "Unknown");
}

#[test]
fn media_type_display() {
    assert_eq!(MediaType::Audio.to_string(), "audio");
    assert_eq!(MediaType::Video.to_string(), "video");
}

#[test]
fn format_and_codec_names() {
    assert_eq!(ContainerFormat::Mkv.to_string(), "Matroska");
    assert_eq!(ContainerFormat::Mkv.tag(), "Mkv");
    assert_eq!(AudioCodec::Alac.to_string(), "ALAC");
    assert_eq!(AudioCodec::Alac.tag(), "Alac");
    assert_eq!(VideoCodec::Av1.to_string(), "AV1");
    assert_eq!(VideoCodec::Av1.tag(), "Av1");
}

#[test]
fn playlist_new() {
    let pl = Playlist::new("My Playlist");
    assert_eq!(pl.name, "My Playlist");
    assert!(pl.is_empty());
    assert_eq!(pl.len(), 0);
}

#[test]
fn playlist_add_remove() {
    let mut pl = Playlist::new("Test");
    let id1 = new_id();
    let id2 = new_id();
    pl.add(id1);
    pl.add(id2);
    assert_eq!(pl.len(), 2);

    assert!(pl.remove(id1));
    assert_eq!(pl.len(), 1);
    assert!(!pl.remove(id1));
}

#[test]
fn playlist_remove_takes_every_occurrence() {
    let mut pl = Playlist::new_at(7, "Dupes", 100);
    pl.add(1);
    pl.add(2);
    pl.add(1);
    assert!(pl.remove(1));
    assert_eq!(pl.items, vec![2]);
}

#[test]
fn playlist_clear() {
    let mut pl = Playlist::new("Test");
    pl.add(new_id());
    pl.add(new_id());
    pl.clear();
    assert!(pl.is_empty());
}

#[test]
fn queue_new() {
    let q = PlayQueue::new();
    assert!(q.is_empty());
    assert_eq!(q.current(), None);
}

#[test]
fn queue_enqueue() {
    let mut q = PlayQueue::new();
    let id = new_id();
    q.enqueue(id);
    assert_eq!(q.len(), 1);
    assert_eq!(q.current(), Some(id));
}

#[test]
fn queue_enqueue_many() {
    let mut q = PlayQueue::new();
    let ids: Vec<u128> = (0..5).map(|_| new_id()).collect();
    q.enqueue_many(ids.clone());
    assert_eq!(q.len(), 5);
    assert_eq!(q.current(), Some(ids[0]));
}

#[test]
fn queue_next() {
    let mut q = PlayQueue::new();
    let ids: Vec<u128> = (0..3).map(|_| new_id()).collect();
    q.enqueue_many(ids.clone());

    assert_eq!(q.current(), Some(ids[0]));
    assert_eq!(q.advance(), Some(ids[1]));
    assert_eq!(q.current(), Some(ids[1]));
    assert_eq!(q.advance(), Some(ids[2]));
    assert_eq!(q.advance(), None);
}

#[test]
fn queue_previous() {
    let mut q = PlayQueue::new();
    let ids: Vec<u128> = (0..3).map(|_| new_id()).collect();
    q.enqueue_many(ids.clone());

    q.advance();
    q.advance();
    assert_eq!(q.go_back(), Some(ids[1]));
    assert_eq!(q.go_back(), Some(ids[0]));
    assert_eq!(q.go_back(), None);
}

#[test]
fn queue_repeat_all() {
    let mut q = PlayQueue::new();
    q.repeat_mode = RepeatMode::All;
    let ids: Vec<u128> = (0..2).map(|_| new_id()).collect();
    q.enqueue_many(ids.clone());

    q.advance();
    assert_eq!(q.advance(), Some(ids[0]));
}

#[test]
fn queue_repeat_all_previous() {
    let mut q = PlayQueue::new();
    q.repeat_mode = RepeatMode::All;
    let ids: Vec<u128> = (0..2).map(|_| new_id()).collect();
    q.enqueue_many(ids.clone());

    assert_eq!(q.go_back(), Some(ids[1]));
}

#[test]
fn queue_back_after_advance_returns_to_start() {
    let mut q = PlayQueue::new();
    q.enqueue_many(vec![10, 20, 30]);
    assert_eq!(q.advance(), Some(20));
    assert_eq!(q.go_back(), Some(10));
    assert_eq!(q.position, Some(0));
}

#[test]
fn queue_clear() {
    let mut q = PlayQueue::new();
    q.enqueue(new_id());
    q.clear();
    assert!(q.is_empty());
    assert_eq!(q.current(), None);
}

#[test]
fn repeat_mode_cycle() {
    assert_eq!(RepeatMode::Off.cycle(), RepeatMode::One);
    assert_eq!(RepeatMode::One.cycle(), RepeatMode::All);
    assert_eq!(RepeatMode::All.cycle(), RepeatMode::Off);
}

#[test]
fn repeat_mode_cycle_returns_after_three() {
    for m in [RepeatMode::Off, RepeatMode::One, RepeatMode::All] {
        assert_eq!(m.cycle().cycle().cycle(), m);
        assert_ne!(m.cycle(), m);
    }
}

#[test]
fn repeat_mode_display() {
    assert_eq!(RepeatMode::Off.to_string(), "off");
    assert_eq!(RepeatMode::One.to_string(), "one");
    assert_eq!(RepeatMode::All.to_string(), "all");
}

#[test]
fn playback_state_display() {
    assert_eq!(PlaybackState::Stopped.to_string(), "stopped");
    assert_eq!(PlaybackState::Playing.to_string(), "playing");
    assert_eq!(PlaybackState::Paused.to_string(), "paused");
    assert_eq!(PlaybackState::Buffering.to_string(), "buffering");
}

#[test]
fn playback_status_stopped() {
    let status = PlaybackStatus::stopped();
    assert_eq!(status.state, PlaybackState::Stopped);
    assert_eq!(status.volume_percent, 100);
    assert!(!status.muted);
    assert_eq!(status.progress_parts(), None);
}

#[test]
fn playback_status_progress() {
    let status = PlaybackStatus {
        state: PlaybackState::Playing,
        current_item: Some(new_id()),
        position_ms: 60_000,
        duration_ms: Some(240_000),
        volume_percent: 80,
        muted: false,
    };
    let (num, den) = status.progress_parts().unwrap();
    let progress = num as f64 / den as f64;
    assert!((progress - 0.25).abs() < 0.001);
}

#[test]
fn playback_status_progress_zero_duration() {
    let status = PlaybackStatus {
        state: PlaybackState::Playing,
        current_item: Some(new_id()),
        position_ms: 10_000,
        duration_ms: Some(0),
        volume_percent: 100,
        muted: false,
    };
    assert_eq!(status.progress_parts(), None);
}

#[test]
fn library_new() {
    let lib = Library::new();
    assert!(lib.items.is_empty());
    assert!(lib.playlists.is_empty());
}

#[test]
fn library_add_find() {
    let mut lib = Library::new();
    let info = make_audio_info();
    let item = MediaItem::from_probe("/music/song.flac".to_string(), &info);
    let id = item.id;
    lib.add_item(item);

    assert!(lib.find_by_id(id).is_some());
    assert!(lib.find_by_path("/music/song.flac").is_some());
    assert!(lib.find_by_id(new_id()).is_none());
}

#[test]
fn library_remove() {
    let mut lib = Library::new();
    let info = make_audio_info();
    let item = MediaItem::from_probe("/music/song.flac".to_string(), &info);
    let id = item.id;
    lib.add_item(item);

    let pl_id = lib.create_playlist("Test PL");
    lib.find_playlist_mut(pl_id).unwrap().add(id);

    assert!(lib.remove(id));
    assert!(lib.find_by_id(id).is_none());
    assert!(lib.find_playlist(pl_id).unwrap().is_empty());
}

#[test]
fn library_remove_unknown_is_false() {
    let mut lib = Library::new();
    lib.add_item(make_media_item("A", "X", 100));
    assert!(!lib.remove(12345));
    assert_eq!(lib.items.len(), 1);
}

#[test]
fn library_search() {
    let mut lib = Library::new();
    let info = make_audio_info();
    let mut item = MediaItem::from_probe("/music/song.flac".to_string(), &info);
    item.title = "Bohemian Rhapsody".to_string();
    item.artist = Some("Queen".to_string());
    lib.add_item(item);

    assert_eq!(lib.search("bohemian").len(), 1);
    assert_eq!(lib.search("queen").len(), 1);
    assert_eq!(lib.search("RHAPSODY").len(), 1);
    assert_eq!(lib.search("nonexistent").len(), 0);
}

#[test]
fn library_search_tags() {
    let mut lib = Library::new();
    let info = make_audio_info();
    let mut item = MediaItem::from_probe("/music/song.flac".to_string(), &info);
    item.tags = vec!["rock".to_string(), "classic".to_string()];
    lib.add_item(item);

    assert_eq!(lib.search("rock").len(), 1);
    assert_eq!(lib.search("classic").len(), 1);
}

#[test]
fn library_filter_by_type() {
    let mut lib = Library::new();
    let audio_info = make_audio_info();
    let video_info = make_video_info();
    lib.add_item(MediaItem::from_probe("/music/song.flac".to_string(), &audio_info));
    lib.add_item(MediaItem::from_probe("/videos/movie.mp4".to_string(), &video_info));

    assert_eq!(lib.audio_items().len(), 1);
    assert_eq!(lib.video_items().len(), 1);
}

#[test]
fn library_scan_paths() {
    let mut lib = Library::new();
    lib.add_scan_path("/home/user/Music".to_string());
    lib.add_scan_path("/home/user/Music".to_string());
    assert_eq!(lib.scan_paths.len(), 1);
    lib.add_scan_path("/home/user/Videos".to_string());
    assert_eq!(lib.scan_paths.len(), 2);
}

#[test]
fn library_scan_paths_compare_as_paths() {
    let mut lib = Library::new();
    lib.add_scan_path("/home/user/Music".to_string());
    lib.add_scan_path("/home/user/Music/".to_string());
    assert_eq!(lib.scan_paths.len(), 1);
}

#[test]
fn library_playlists() {
    let mut lib = Library::new();
    let pl_id = lib.create_playlist("Favorites");
    let pl = lib.find_playlist(pl_id).unwrap();
    assert_eq!(pl.name, "Favorites");
    assert!(pl.is_empty());
}

#[test]
fn error_display() {
    let err = JalwaError::NotFound("song.mp3".to_string());
    assert_eq!(err.to_string(), "media not found: song.mp3");

    let err = JalwaError::Playback("buffer underrun".to_string());
    assert_eq!(err.to_string(), "playback error: buffer underrun");
}

#[test]
fn error_display_other_kinds() {
    assert_eq!(JalwaError::Database("locked".to_string()).to_string(), "database error: locked");
    assert_eq!(JalwaError::Io("denied".to_string()).to_string(), "I/O error: denied");
    assert_eq!(JalwaError::Scanner("x".to_string()).to_string(), "scanner error: x");
}

#[test]
fn make_media_item_fixture() {
    let item = make_media_item("Song", "Band", 200);
    assert_eq!(item.path, "/music/Song.flac");
    assert_eq!(item.artist, Some("Band".to_string()));
    assert_eq!(item.album, Some("Album".to_string()));
    assert_eq!(item.duration_ms, Some(200_000));
    assert_eq!(item.format, ContainerFormat::Flac);
}

#[test]
fn format_duration_minutes() {
    assert_eq!(format_duration(Duration::from_secs(0).as_secs()), "0:00");
    assert_eq!(format_duration(Duration::from_secs(65).as_secs()), "1:05");
    assert_eq!(format_duration(Duration::from_secs(599).as_secs()), "9:59");
}

#[test]
fn format_duration_hours() {
    assert_eq!(format_duration(Duration::from_secs(3600).as_secs()), "1:00:00");
    assert_eq!(format_duration(Duration::from_secs(3661).as_secs()), "1:01:01");
    assert_eq!(format_duration(Duration::from_secs(7200).as_secs()), "2:00:00");
}

#[test]
fn uuid_text_is_hyphenated_lower_hex() {
    let id: u128 = 0x0123_4567_89AB_CDEF_0123_4567_89AB_CDEF;
    let text = uuid_text(id);
    assert_eq!(text, "01234567-89ab-cdef-0123-456789abcdef");
    assert_eq!(parse_uuid(&text), Some(id));
    assert_eq!(uuid_text(0), "00000000-0000-0000-0000-000000000000");
}

#[test]
fn lowercase_ascii_text() {
    assert_eq!(lowercase("MiXeD Case 42.MP3"), "mixed case 42.mp3");
    assert_eq!(lowercase(""), "");
    assert_eq!(lowercase("already lower"), "already lower");
}

#[test]
fn find_by_path_compares_as_paths() {
    let mut lib = Library::new();
    let info = make_audio_info();
    lib.add_item(MediaItem::from_probe("/music/song.flac".to_string(), &info));
    assert!(lib.find_by_path("/music//song.flac").is_some());
    assert!(lib.find_by_path("/music/./song.flac").is_some());
    assert!(lib.find_by_path("/music/song.flac/").is_some());
    assert!(lib.find_by_path("/music/other.flac").is_none());
}

#[test]
fn trim_removes_unicode_white_space() {
    assert_eq!(trim("  a b\t\n"), "a b");
    assert_eq!(trim("\u{3000}\u{a0}x\u{2029}"), "x");
    assert_eq!(trim(" \t "), "");
    assert_eq!(trim(""), "");
    assert_eq!(trim("\u{200b}x"), "\u{200b}x");
}
