use jalwa::ids::new_id;
use jalwa::library::Library;
use jalwa::media::{make_media_item, MediaItem};
use jalwa::queue::{PlayQueue, RepeatMode};
use jalwa::render::{render_library_item, render_library_stats, render_queue_summary, render_status_bar};
use jalwa::status::{PlaybackState, PlaybackStatus};

fn make_render_item(title: &str, artist: &str, duration_secs: u64) -> MediaItem {
    make_media_item(title, artist, duration_secs)
}

#[test]
fn status_bar_playing() {
    let status = PlaybackStatus {
        state: PlaybackState::Playing,
        current_item: Some(new_id()),
        position_ms: 65_000,
        duration_ms: Some(240_000),
        volume_percent: 80,
        muted: false,
    };
    let item = make_render_item("Song", "Artist", 240);
    let bar = render_status_bar(&status, Some(&item));
    assert!(bar.contains(">>"));
    assert!(bar.contains("Artist - Song"));
    assert!(bar.contains("1:05"));
    assert!(bar.contains("4:00"));
    assert!(bar.contains("80%"));
    assert_eq!(bar, ">> Artist - Song  [1:05 / 4:00]  Vol: 80%");
}

#[test]
fn status_bar_stopped_no_item() {
    let status = PlaybackStatus::stopped();
    let bar = render_status_bar(&status, None);
    assert!(bar.contains("[]"));
    assert!(bar.contains("No media loaded"));
    assert_eq!(bar, "[] No media loaded  [0:00 / --:--]  Vol: 100%");
}

#[test]
fn status_bar_muted() {
    let status = PlaybackStatus {
        state: PlaybackState::Paused,
        current_item: None,
        position_ms: 0,
        duration_ms: None,
        volume_percent: 50,
        muted: true,
    };
    let bar = render_status_bar(&status, None);
    assert!(bar.contains("MUTE"));
    assert!(bar.starts_with("||"));
}

#[test]
fn queue_summary_empty() {
    let q = PlayQueue::new();
    assert_eq!(render_queue_summary(&q), "Queue: 0/0");
}

#[test]
fn queue_summary_with_items() {
    let mut q = PlayQueue::new();
    q.enqueue(new_id());
    q.enqueue(new_id());
    assert_eq!(render_queue_summary(&q), "Queue: 1/2");
}

#[test]
fn queue_summary_repeat() {
    let mut q = PlayQueue::new();
    q.enqueue(new_id());
    q.repeat_mode = RepeatMode::All;
    let summary = render_queue_summary(&q);
    assert!(summary.contains("[RA]"));
    q.repeat_mode = RepeatMode::One;
    assert_eq!(render_queue_summary(&q), "Queue: 1/1 [R1]");
}

#[test]
fn queue_summary_shuffle() {
    let mut q = PlayQueue::new();
    q.enqueue(new_id());
    q.shuffle = true;
    let summary = render_queue_summary(&q);
    assert!(summary.contains("[S]"));
    assert_eq!(summary, "Queue: 1/1 [S]");
}

#[test]
fn library_item_render() {
    let item = make_render_item("Bohemian Rhapsody", "Queen", 354);
    let line = render_library_item(&item, 0);
    assert!(line.contains("1."));
    assert!(line.contains("Queen"));
    assert!(line.contains("Bohemian Rhapsody"));
    assert!(line.contains("5:54"));
    assert!(line.contains("audio"));
    assert_eq!(line, "  1. Queen - Bohemian Rhapsody [5:54] (audio)");
}

#[test]
fn library_item_render_pads_index() {
    let mut item = make_render_item("T", "A", 61);
    assert_eq!(render_library_item(&item, 9), " 10. A - T [1:01] (audio)");
    assert_eq!(render_library_item(&item, 99), "100. A - T [1:01] (audio)");
    item.artist = None;
    item.duration_ms = None;
    assert_eq!(render_library_item(&item, 0), "  1. Unknown - T [?:??] (audio)");
}

#[test]
fn library_stats() {
    let mut lib = Library::new();
    lib.add_item(make_render_item("Song 1", "A", 180));
    lib.add_item(make_render_item("Song 2", "B", 240));
    lib.create_playlist("Favs");
    let stats = render_library_stats(&lib);
    assert!(stats.contains("2 items"));
    assert!(stats.contains("2 audio"));
    assert!(stats.contains("0 video"));
    assert!(stats.contains("1 playlists"));
    assert!(stats.contains("7:00"));
    assert_eq!(stats, "Library: 2 items (2 audio, 0 video), 1 playlists, total: 7:00");
}
