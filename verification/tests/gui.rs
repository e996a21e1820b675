use jalwa::art_cache::{ArtCache, MAX_NO_ART, MAX_TEXTURES};
use jalwa::gui::{truncate_str, ArrowKey, GuiState, LibraryViewMode, Screen};
use jalwa::ids::new_id;
use jalwa::library::Library;
use jalwa::media::make_media_item;
use jalwa::queue::RepeatMode;
use jalwa::tui::UiAction;

#[test]
fn view_variants() {
    assert_ne!(Screen::Library, Screen::Queue);
    assert_ne!(Screen::NowPlaying, Screen::Equalizer);
}

#[test]
fn truncate_str_tests() {
    assert_eq!(truncate_str("hello", 10), "hello");
    assert_eq!(truncate_str("", 5), "");
    assert_eq!(truncate_str("abcde", 5), "abcde");
    let result = truncate_str("abcdefghijklmnop", 5);
    assert_eq!(result, "abcd\u{2026}");
    let result = truncate_str("\u{00e9}\u{00e0}\u{00fc}\u{00f6}\u{00e4}\u{00df}", 4);
    assert_eq!(result, "\u{00e9}\u{00e0}\u{00fc}\u{2026}");
}

#[test]
fn truncate_str_zero_width_keeps_only_ellipsis() {
    assert_eq!(truncate_str("abc", 0), "\u{2026}");
    assert_eq!(truncate_str("", 0), "");
}

#[test]
fn gui_state_new_defaults() {
    let g = GuiState::new(Library::new());
    assert_eq!(g.view, Screen::Library);
    assert_eq!(g.library_view_mode, LibraryViewMode::List);
    assert_eq!(g.selected_index, 0);
    assert!(g.current_playing_id.is_none());
    assert!(g.queue.is_empty());
}

#[test]
fn gui_update_search_empty_query() {
    let mut g = GuiState::new(Library::new());
    g.search_query = String::new();
    g.update_search();
    assert!(g.search_results.is_empty());
}

#[test]
fn update_search_filters() {
    let mut lib = Library::new();
    lib.add_item(make_media_item("Moonlight Sonata", "Beethoven", 300));
    lib.add_item(make_media_item("Clair de Lune", "Debussy", 280));
    lib.add_item(make_media_item("Moonriver", "Mancini", 180));
    let mut g = GuiState::new(lib);
    g.search_query = "moon".to_string();
    g.update_search();
    assert_eq!(g.search_results, vec![0, 2]);
    g.search_query = "debussy".to_string();
    g.update_search();
    assert_eq!(g.search_results, vec![1]);
    g.search_query = "nonexistent".to_string();
    g.update_search();
    assert!(g.search_results.is_empty());
}

#[test]
fn list_len_library() {
    let mut lib = Library::new();
    lib.add_item(make_media_item("Track A", "Artist", 120));
    lib.add_item(make_media_item("Track B", "Artist", 150));
    let mut g = GuiState::new(lib);
    assert_eq!(g.list_len(), 2);
    g.search_query = "Track A".to_string();
    g.update_search();
    assert_eq!(g.list_len(), 1);
    g.view = Screen::Queue;
    assert_eq!(g.list_len(), 0);
    g.view = Screen::NowPlaying;
    assert_eq!(g.list_len(), 0);
    g.view = Screen::Equalizer;
    assert_eq!(g.list_len(), 10);
}

#[test]
fn play_item_valid_index() {
    let mut lib = Library::new();
    let item = make_media_item("Test WAV", "Test", 1);
    let id = item.id;
    lib.add_item(item);
    let mut g = GuiState::new(lib);
    match g.play_item(0) {
        UiAction::Play { item_id, path } => {
            assert_eq!(item_id, id);
            assert_eq!(path, "/music/Test WAV.flac");
        }
        other => panic!("unexpected action {:?}", other),
    }
    assert_eq!(g.current_playing_id, Some(id));
    assert!(!g.queue.is_empty());
}

#[test]
fn play_item_invalid_index() {
    let mut g = GuiState::new(Library::new());
    assert!(matches!(g.play_item(999), UiAction::Nothing));
    assert!(g.current_playing_id.is_none());
    assert!(g.queue.is_empty());
}

// ---- album art cache ----

#[test]
fn cache_new_empty() {
    let cache: ArtCache<u32> = ArtCache::new();
    assert_eq!(cache.texture_count(), 0);
    assert_eq!(cache.no_art_count(), 0);
}

#[test]
fn invalidate_unknown_id() {
    let mut cache: ArtCache<u32> = ArtCache::new();
    cache.invalidate(new_id());
    assert_eq!(cache.texture_count(), 0);
    assert_eq!(cache.no_art_count(), 0);
}

#[test]
fn cache_no_art_tracking() {
    let mut cache: ArtCache<u32> = ArtCache::new();
    let fake_id = new_id();
    assert!(cache.get(fake_id, || None).is_none());
    assert_eq!(cache.no_art_count(), 1);
    assert!(cache.known_without_art(fake_id));
    assert!(cache.get(fake_id, || panic!("an item known without art is not loaded again")).is_none());
    assert_eq!(cache.no_art_count(), 1);
    let fake_id2 = new_id();
    assert!(cache.get(fake_id2, || None).is_none());
    assert_eq!(cache.no_art_count(), 2);
}

#[test]
fn invalidate_clears_no_art() {
    let mut cache: ArtCache<u32> = ArtCache::new();
    let fake_id = new_id();
    let _ = cache.get(fake_id, || None);
    assert_eq!(cache.no_art_count(), 1);
    cache.invalidate(fake_id);
    assert_eq!(cache.no_art_count(), 0);
    assert_eq!(cache.texture_count(), 0);
}

#[test]
fn cache_max_textures_constant() {
    let max = MAX_TEXTURES;
    assert!(max > 0, "MAX_TEXTURES must be positive");
    assert!(max <= 1000, "MAX_TEXTURES too large: {max}");
}

#[test]
fn no_art_set_eviction() {
    let mut cache: ArtCache<u32> = ArtCache::new();
    for _ in 0..=MAX_NO_ART {
        let _ = cache.get(new_id(), || None);
    }
    assert!(cache.no_art_count() <= 1);
}

#[test]
fn no_art_set_below_threshold_not_cleared() {
    let mut cache: ArtCache<u32> = ArtCache::new();
    for _ in 0..10 {
        let _ = cache.get(new_id(), || None);
    }
    assert_eq!(cache.no_art_count(), 10);
}

#[test]
fn cache_access_counter_increments() {
    let mut cache: ArtCache<u32> = ArtCache::new();
    assert_eq!(cache.access_counter(), 0);
    let _ = cache.get(new_id(), || None);
    assert_eq!(cache.access_counter(), 1);
    let _ = cache.get(new_id(), || None);
    assert_eq!(cache.access_counter(), 2);
}

#[test]
fn cache_keeps_loaded_textures_and_evicts_least_recent() {
    let mut cache: ArtCache<u32> = ArtCache::new();
    let first = new_id();
    assert_eq!(cache.get(first, || Some(7)), Some(&7));
    assert_eq!(cache.get(first, || panic!("a cached texture is not loaded again")), Some(&7));
    assert_eq!(cache.texture_count(), 1);
    for k in 0..MAX_TEXTURES {
        let v = k as u32;
        let _ = cache.get(new_id(), move || Some(v));
    }
    assert_eq!(cache.texture_count(), MAX_TEXTURES);
    assert_eq!(cache.get(first, || None), None);
}

#[test]
fn grid_arrow_keys_move_by_cell_and_row() {
    let mut g = GuiState::new(Library::new());
    // 10 cells, 4 to a row.
    g.grid_key(ArrowKey::Right, 10, 4);
    assert_eq!(g.selected_index, 1);
    g.grid_key(ArrowKey::Down, 10, 4);
    assert_eq!(g.selected_index, 5);
    g.grid_key(ArrowKey::Down, 10, 4);
    assert_eq!(g.selected_index, 9);
    // No cell below the last row.
    g.grid_key(ArrowKey::Down, 10, 4);
    assert_eq!(g.selected_index, 9);
    // Last cell: right does nothing.
    g.grid_key(ArrowKey::Right, 10, 4);
    assert_eq!(g.selected_index, 9);
    g.grid_key(ArrowKey::Up, 10, 4);
    assert_eq!(g.selected_index, 5);
    g.grid_key(ArrowKey::Left, 10, 4);
    assert_eq!(g.selected_index, 4);
    g.grid_key(ArrowKey::Up, 10, 4);
    assert_eq!(g.selected_index, 0);
    // First row: up does nothing; first cell: left does nothing.
    g.grid_key(ArrowKey::Up, 10, 4);
    assert_eq!(g.selected_index, 0);
    g.grid_key(ArrowKey::Left, 10, 4);
    assert_eq!(g.selected_index, 0);
}

#[test]
fn grid_arrow_keys_on_empty_grid_stay() {
    let mut g = GuiState::new(Library::new());
    g.grid_key(ArrowKey::Right, 0, 3);
    g.grid_key(ArrowKey::Down, 0, 3);
    assert_eq!(g.selected_index, 0);
}

#[test]
fn list_arrow_keys_move_by_row() {
    let mut g = GuiState::new(Library::new());
    g.list_key(ArrowKey::Down, 3);
    g.list_key(ArrowKey::Down, 3);
    assert_eq!(g.selected_index, 2);
    g.list_key(ArrowKey::Down, 3);
    assert_eq!(g.selected_index, 2);
    g.list_key(ArrowKey::Right, 3);
    g.list_key(ArrowKey::Left, 3);
    assert_eq!(g.selected_index, 2);
    g.list_key(ArrowKey::Up, 3);
    assert_eq!(g.selected_index, 1);
    g.list_key(ArrowKey::Up, 3);
    g.list_key(ArrowKey::Up, 3);
    assert_eq!(g.selected_index, 0);
}

// ---- queue view ----

#[test]
fn queue_view_empty() {
    let mut g = GuiState::new(Library::new());
    g.view = Screen::Queue;
    assert!(g.queue.is_empty());
}

#[test]
fn queue_view_with_items() {
    let mut lib = Library::new();
    let item1 = make_media_item("Queue Track 1", "Artist A", 200);
    let item2 = make_media_item("Queue Track 2", "Artist B", 180);
    let (id1, id2) = (item1.id, item2.id);
    lib.add_item(item1);
    lib.add_item(item2);
    let mut g = GuiState::new(lib);
    g.queue.enqueue(id1);
    g.queue.enqueue(id2);
    assert_eq!(g.queue.len(), 2);
    assert_eq!(g.queue_row_text(0), "\u{25B6}   1. Artist A \u{2013} Queue Track 1");
    assert_eq!(g.queue_row_text(1), "    2. Artist B \u{2013} Queue Track 2");
}

#[test]
fn queue_view_repeat_modes() {
    let mut g = GuiState::new(Library::new());
    assert_eq!(g.queue.repeat_mode, RepeatMode::Off);
    g.toggle_repeat();
    assert_eq!(g.queue.repeat_mode, RepeatMode::One);
    g.toggle_repeat();
    assert_eq!(g.queue.repeat_mode, RepeatMode::All);
    g.toggle_repeat();
    assert_eq!(g.queue.repeat_mode, RepeatMode::Off);
}

#[test]
fn queue_shuffle_and_clear() {
    let mut g = GuiState::new(Library::new());
    g.toggle_shuffle();
    assert!(g.queue.shuffle);
    g.queue.enqueue(new_id());
    g.selected_index = 0;
    g.clear_queue();
    assert!(g.queue.is_empty());
    assert_eq!(g.queue.position, None);
    assert_eq!(g.selected_index, 0);
    assert!(g.queue.shuffle);
    g.toggle_shuffle();
    assert!(!g.queue.shuffle);
}

#[test]
fn queue_delete_moves_position_and_selection() {
    let mut g = GuiState::new(Library::new());
    let (a, b, c) = (new_id(), new_id(), new_id());
    g.queue.enqueue(a);
    g.queue.enqueue(b);
    g.queue.enqueue(c);
    g.queue.position = Some(2);
    g.selected_index = 1;
    g.queue_delete(1);
    assert_eq!(g.queue.items, vec![a, c]);
    assert_eq!(g.queue.position, Some(1));
    assert_eq!(g.selected_index, 1);
    // Deleting the last entry after the current one keeps the position.
    g.queue.position = Some(0);
    g.selected_index = 1;
    g.queue_delete(1);
    assert_eq!(g.queue.items, vec![a]);
    assert_eq!(g.queue.position, Some(0));
    assert_eq!(g.selected_index, 0);
}

#[test]
fn queue_activate_plays_entry() {
    let mut lib = Library::new();
    let item = make_media_item("T", "A", 100);
    let id = item.id;
    lib.add_item(item);
    let mut g = GuiState::new(lib);
    let missing = new_id();
    g.queue.enqueue(missing);
    g.queue.enqueue(id);
    match g.queue_activate(1) {
        UiAction::Play { item_id, path } => {
            assert_eq!(item_id, id);
            assert_eq!(path, "/music/T.flac");
        }
        other => panic!("unexpected {other:?}"),
    }
    assert_eq!(g.queue.position, Some(1));
    assert_eq!(g.current_playing_id, Some(id));
    assert!(matches!(g.queue_activate(0), UiAction::Nothing));
    assert_eq!(g.queue.position, Some(0));
    assert_eq!(g.current_playing_id, Some(id));
}
