use jalwa::engine::EngineControl;
use jalwa::ids::new_id;
use jalwa::library::Library;
use jalwa::media::{make_media_item, MediaItem};
use jalwa::queue::{PlayQueue, RepeatMode};
use jalwa::tui::{
    find_matching, handle_normal_input, handle_search_input, next_to_prepare, on_track_changed, skip_back,
    skip_forward, App, InputMode, Key, Screen, UiAction,
};

fn make_ui_item(title: &str, artist: &str) -> MediaItem {
    make_media_item(title, artist, 200)
}

fn make_test_app() -> App {
    App::new(Library::new())
}

#[test]
fn view_cycle() {
    assert_eq!(Screen::Library.cycle(), Screen::NowPlaying);
    assert_eq!(Screen::NowPlaying.cycle(), Screen::Queue);
    assert_eq!(Screen::Queue.cycle(), Screen::Equalizer);
    assert_eq!(Screen::Equalizer.cycle(), Screen::Library);
}

#[test]
fn app_new_defaults() {
    let app = make_test_app();
    assert_eq!(app.view, Screen::Library);
    assert_eq!(app.selected_index, 0);
    assert!(app.search_query.is_empty());
    assert_eq!(app.input_mode, InputMode::Normal);
    assert!(app.running);
}

#[test]
fn list_len_empty_library() {
    let app = make_test_app();
    assert_eq!(app.list_len(), 0);
}

#[test]
fn list_len_with_items() {
    let mut app = make_test_app();
    app.library.add_item(make_ui_item("A", "X"));
    app.library.add_item(make_ui_item("B", "Y"));
    assert_eq!(app.list_len(), 2);
}

#[test]
fn list_len_queue_view() {
    let mut app = make_test_app();
    app.view = Screen::Queue;
    app.queue.enqueue(new_id());
    assert_eq!(app.list_len(), 1);
}

#[test]
fn list_len_now_playing_always_zero() {
    let mut app = make_test_app();
    app.view = Screen::NowPlaying;
    assert_eq!(app.list_len(), 0);
}

#[test]
fn list_len_equalizer_has_ten_bands() {
    let mut app = make_test_app();
    app.view = Screen::Equalizer;
    assert_eq!(app.list_len(), 10);
}

#[test]
fn select_prev_at_zero() {
    let mut app = make_test_app();
    app.select_prev();
    assert_eq!(app.selected_index, 0);
}

#[test]
fn select_next_clamps() {
    let mut app = make_test_app();
    app.library.add_item(make_ui_item("A", "X"));
    app.library.add_item(make_ui_item("B", "Y"));
    app.select_next();
    assert_eq!(app.selected_index, 1);
    app.select_next();
    assert_eq!(app.selected_index, 1);
}

#[test]
fn select_nav_up_down() {
    let mut app = make_test_app();
    app.library.add_item(make_ui_item("A", "X"));
    app.library.add_item(make_ui_item("B", "Y"));
    app.library.add_item(make_ui_item("C", "Z"));
    app.select_next();
    app.select_next();
    assert_eq!(app.selected_index, 2);
    app.select_prev();
    assert_eq!(app.selected_index, 1);
}

#[test]
fn app_update_search_empty_query() {
    let mut app = make_test_app();
    app.library.add_item(make_ui_item("A", "X"));
    app.library.add_item(make_ui_item("B", "Y"));
    app.search_results = vec![0, 1];
    app.update_search();
    assert!(app.search_results.is_empty());
}

#[test]
fn update_search_finds_matches() {
    let mut app = make_test_app();
    app.library.add_item(make_ui_item("Bohemian Rhapsody", "Queen"));
    app.library.add_item(make_ui_item("Time", "Pink Floyd"));
    app.search_query = "queen".to_string();
    app.update_search();
    assert_eq!(app.search_results.len(), 1);
    assert_eq!(app.search_results[0], 0);
}

#[test]
fn update_search_clamps_selection() {
    let mut app = make_test_app();
    app.library.add_item(make_ui_item("A", "X"));
    app.selected_index = 5;
    app.search_query = "A".to_string();
    app.update_search();
    assert_eq!(app.selected_index, 0);
}

#[test]
fn list_len_with_search() {
    let mut app = make_test_app();
    app.library.add_item(make_ui_item("Unique", "X"));
    app.library.add_item(make_ui_item("Other", "Y"));
    app.search_query = "Unique".to_string();
    app.update_search();
    assert_eq!(app.list_len(), 1);
}

#[test]
fn selected_library_index_normal() {
    let mut app = make_test_app();
    app.library.add_item(make_ui_item("A", "X"));
    app.selected_index = 0;
    assert_eq!(app.selected_library_index(), Some(0));
}

#[test]
fn selected_library_index_out_of_range() {
    let app = make_test_app();
    assert_eq!(app.selected_library_index(), None);
}

#[test]
fn selected_library_index_search() {
    let mut app = make_test_app();
    app.library.add_item(make_ui_item("Alpha", "X"));
    app.library.add_item(make_ui_item("Beta", "Y"));
    app.search_query = "Beta".to_string();
    app.update_search();
    app.selected_index = 0;
    assert_eq!(app.selected_library_index(), Some(1));
}

#[test]
fn selected_library_index_wrong_view() {
    let mut app = make_test_app();
    app.view = Screen::Queue;
    assert_eq!(app.selected_library_index(), None);
}

#[test]
fn find_matching_folds_case_over_title_artist_album() {
    let items = vec![make_ui_item("Alpha", "Queen"), make_ui_item("Beta", "Other"), make_ui_item("queenly", "Z")];
    assert_eq!(find_matching(&items, "QUEEN"), vec![0, 2]);
    assert_eq!(find_matching(&items, "album"), vec![0, 1, 2]);
    assert_eq!(find_matching(&items, "nothing"), Vec::<usize>::new());
}

// ---- normal mode keys ----

#[test]
fn normal_input_quit() {
    let mut app = make_test_app();
    let action = handle_normal_input(&mut app, Key::Char('q'));
    assert!(!app.running);
    assert!(matches!(action, UiAction::Nothing));
}

#[test]
fn normal_input_tab_cycles_view() {
    let mut app = make_test_app();
    assert_eq!(app.view, Screen::Library);
    handle_normal_input(&mut app, Key::Tab);
    assert_eq!(app.view, Screen::NowPlaying);
    handle_normal_input(&mut app, Key::Tab);
    assert_eq!(app.view, Screen::Queue);
    handle_normal_input(&mut app, Key::Tab);
    assert_eq!(app.view, Screen::Equalizer);
    handle_normal_input(&mut app, Key::Tab);
    assert_eq!(app.view, Screen::Library);
}

#[test]
fn normal_input_up_down_navigation() {
    let mut app = make_test_app();
    app.library.add_item(make_ui_item("A", "X"));
    app.library.add_item(make_ui_item("B", "Y"));
    app.library.add_item(make_ui_item("C", "Z"));
    handle_normal_input(&mut app, Key::Down);
    assert_eq!(app.selected_index, 1);
    handle_normal_input(&mut app, Key::Down);
    assert_eq!(app.selected_index, 2);
    handle_normal_input(&mut app, Key::Up);
    assert_eq!(app.selected_index, 1);
}

#[test]
fn normal_input_volume_controls() {
    let mut app = make_test_app();
    assert!(matches!(handle_normal_input(&mut app, Key::Char('+')), UiAction::VolumeUp));
    assert!(matches!(handle_normal_input(&mut app, Key::Char('=')), UiAction::VolumeUp));
    assert!(matches!(handle_normal_input(&mut app, Key::Char('-')), UiAction::VolumeDown));
}

#[test]
fn normal_input_mute_toggle() {
    let mut app = make_test_app();
    let mut engine = EngineControl::new();
    assert!(!engine.muted);
    let action = handle_normal_input(&mut app, Key::Char('m'));
    assert!(matches!(action, UiAction::ToggleMute));
    engine.toggle_mute();
    assert!(engine.muted);
    let action = handle_normal_input(&mut app, Key::Char('m'));
    assert!(matches!(action, UiAction::ToggleMute));
    engine.toggle_mute();
    assert!(!engine.muted);
}

#[test]
fn normal_input_enter_search() {
    let mut app = make_test_app();
    app.view = Screen::Queue;
    handle_normal_input(&mut app, Key::Char('/'));
    assert_eq!(app.input_mode, InputMode::Search);
    assert_eq!(app.view, Screen::Library);
}

#[test]
fn normal_input_repeat_cycle() {
    let mut app = make_test_app();
    assert_eq!(app.queue.repeat_mode, RepeatMode::Off);
    handle_normal_input(&mut app, Key::Char('r'));
    assert_eq!(app.queue.repeat_mode, RepeatMode::One);
    handle_normal_input(&mut app, Key::Char('r'));
    assert_eq!(app.queue.repeat_mode, RepeatMode::All);
}

#[test]
fn normal_input_shuffle_toggle() {
    let mut app = make_test_app();
    assert!(!app.queue.shuffle);
    handle_normal_input(&mut app, Key::Char('s'));
    assert!(app.queue.shuffle);
}

#[test]
fn normal_input_enqueue_from_library() {
    let mut app = make_test_app();
    let item = make_ui_item("Song", "Artist");
    let id = item.id;
    app.library.add_item(item);
    app.selected_index = 0;
    handle_normal_input(&mut app, Key::Char('a'));
    assert_eq!(app.queue.len(), 1);
    assert_eq!(app.queue.items[0], id);
}

#[test]
fn normal_input_eq_toggle() {
    let mut app = make_test_app();
    let mut engine = EngineControl::new();
    app.view = Screen::Equalizer;
    assert!(!engine.eq_enabled);
    let action = handle_normal_input(&mut app, Key::Char('e'));
    assert!(matches!(action, UiAction::ToggleEq));
    engine.toggle_eq();
    assert!(engine.eq_enabled);
}

#[test]
fn normal_input_e_opens_equalizer_view() {
    let mut app = make_test_app();
    app.selected_index = 4;
    let action = handle_normal_input(&mut app, Key::Char('e'));
    assert!(matches!(action, UiAction::Nothing));
    assert_eq!(app.view, Screen::Equalizer);
    assert_eq!(app.selected_index, 0);
}

#[test]
fn normal_input_eq_band_adjust() {
    let mut app = make_test_app();
    app.view = Screen::Equalizer;
    app.selected_index = 3;
    let up = handle_normal_input(&mut app, Key::Right);
    assert!(matches!(up, UiAction::ShiftEqBand { band: 3, up: true }));
    let down = handle_normal_input(&mut app, Key::Left);
    assert!(matches!(down, UiAction::ShiftEqBand { band: 3, up: false }));
}

#[test]
fn normal_input_seek_outside_equalizer() {
    let mut app = make_test_app();
    assert!(matches!(handle_normal_input(&mut app, Key::Right), UiAction::SeekBy { seconds: 10 }));
    assert!(matches!(handle_normal_input(&mut app, Key::Left), UiAction::SeekBy { seconds: -10 }));
    assert!(matches!(handle_normal_input(&mut app, Key::Char(' ')), UiAction::TogglePlayback));
}

#[test]
fn normal_input_normalize_toggle() {
    let mut app = make_test_app();
    let mut engine = EngineControl::new();
    assert!(!engine.normalize_enabled);
    let action = handle_normal_input(&mut app, Key::Char('N'));
    assert!(matches!(action, UiAction::ToggleNormalize));
    engine.toggle_normalize();
    assert!(engine.normalize_enabled);
}

#[test]
fn normal_input_delete_from_queue() {
    let mut app = make_test_app();
    let id1 = new_id();
    let id2 = new_id();
    app.queue.enqueue(id1);
    app.queue.enqueue(id2);
    app.view = Screen::Queue;
    app.selected_index = 0;
    handle_normal_input(&mut app, Key::Char('d'));
    assert_eq!(app.queue.len(), 1);
    assert_eq!(app.queue.items[0], id2);
}

#[test]
fn normal_input_clear_queue() {
    let mut app = make_test_app();
    app.queue.enqueue(new_id());
    app.queue.enqueue(new_id());
    app.view = Screen::Queue;
    handle_normal_input(&mut app, Key::Char('c'));
    assert!(app.queue.is_empty());
    assert_eq!(app.selected_index, 0);
}

#[test]
fn normal_input_enter_plays_selected_library_item() {
    let mut app = make_test_app();
    let item = make_ui_item("Song", "Artist");
    let id = item.id;
    app.library.add_item(item);
    let action = handle_normal_input(&mut app, Key::Enter);
    match action {
        UiAction::Play { item_id, path } => {
            assert_eq!(item_id, id);
            assert_eq!(path, "/music/Song.flac");
        }
        other => panic!("unexpected action {:?}", other),
    }
    assert_eq!(app.queue.items, vec![id]);
    assert_eq!(app.queue.current(), Some(id));
}

#[test]
fn normal_input_next_and_previous_track() {
    let mut app = make_test_app();
    let a = make_ui_item("A", "X");
    let b = make_ui_item("B", "Y");
    let (ia, ib) = (a.id, b.id);
    app.library.add_item(a);
    app.library.add_item(b);
    app.queue.enqueue(ia);
    app.queue.enqueue(ib);
    match handle_normal_input(&mut app, Key::Char('n')) {
        UiAction::Play { item_id, .. } => assert_eq!(item_id, ib),
        other => panic!("unexpected action {:?}", other),
    }
    match handle_normal_input(&mut app, Key::Char('p')) {
        UiAction::Play { item_id, .. } => assert_eq!(item_id, ia),
        other => panic!("unexpected action {:?}", other),
    }
    assert!(matches!(handle_normal_input(&mut app, Key::Char('p')), UiAction::Nothing));
}

// ---- search mode keys ----

#[test]
fn search_input_type_query() {
    let mut app = make_test_app();
    app.input_mode = InputMode::Search;
    app.library.add_item(make_ui_item("Song", "Artist"));
    handle_search_input(&mut app, Key::Char('s'));
    assert_eq!(app.search_query, "s");
    handle_search_input(&mut app, Key::Char('o'));
    assert_eq!(app.search_query, "so");
    assert_eq!(app.search_results, vec![0]);
}

#[test]
fn search_input_backspace() {
    let mut app = make_test_app();
    app.input_mode = InputMode::Search;
    app.search_query = "test".to_string();
    handle_search_input(&mut app, Key::Backspace);
    assert_eq!(app.search_query, "tes");
}

#[test]
fn search_input_escape() {
    let mut app = make_test_app();
    app.input_mode = InputMode::Search;
    app.library.add_item(make_ui_item("A", "X"));
    app.library.add_item(make_ui_item("B", "Y"));
    app.search_query = "query".to_string();
    app.search_results = vec![0, 1];
    handle_search_input(&mut app, Key::Esc);
    assert_eq!(app.input_mode, InputMode::Normal);
    assert!(app.search_query.is_empty());
    assert!(app.search_results.is_empty());
}

#[test]
fn search_input_enter() {
    let mut app = make_test_app();
    app.input_mode = InputMode::Search;
    app.search_query = "query".to_string();
    handle_search_input(&mut app, Key::Enter);
    assert_eq!(app.input_mode, InputMode::Normal);
    assert_eq!(app.search_query, "query");
}

#[test]
fn search_input_navigation() {
    let mut app = make_test_app();
    app.input_mode = InputMode::Search;
    app.library.add_item(make_ui_item("A", "X"));
    app.library.add_item(make_ui_item("B", "X"));
    app.search_query = "X".to_string();
    app.update_search();
    handle_search_input(&mut app, Key::Down);
    assert_eq!(app.selected_index, 1);
    handle_search_input(&mut app, Key::Up);
    assert_eq!(app.selected_index, 0);
}

// ---- track changes driven by the media controls ----

#[test]
fn mpris_next_empty_queue() {
    let mut queue = PlayQueue::new();
    let library = Library::new();
    assert!(matches!(skip_forward(&mut queue, &library), UiAction::Nothing));
    assert_eq!(queue.current(), None);
}

#[test]
fn mpris_previous_empty_queue() {
    let mut queue = PlayQueue::new();
    let library = Library::new();
    assert!(matches!(skip_back(&mut queue, &library), UiAction::Nothing));
    assert_eq!(queue.current(), None);
}

#[test]
fn skip_forward_plays_next_item() {
    let mut library = Library::new();
    let a = make_ui_item("A", "X");
    let b = make_ui_item("B", "Y");
    let (ia, ib) = (a.id, b.id);
    library.add_item(a);
    library.add_item(b);
    let mut queue = PlayQueue::new();
    queue.enqueue(ia);
    queue.enqueue(ib);
    match skip_forward(&mut queue, &library) {
        UiAction::Play { item_id, path } => {
            assert_eq!(item_id, ib);
            assert_eq!(path, "/music/B.flac");
        }
        other => panic!("unexpected action {:?}", other),
    }
    assert_eq!(next_to_prepare(&queue, &library), None);
    match skip_back(&mut queue, &library) {
        UiAction::Play { item_id, .. } => assert_eq!(item_id, ia),
        other => panic!("unexpected action {:?}", other),
    }
    assert_eq!(next_to_prepare(&queue, &library), Some("/music/B.flac".to_string()));
}

#[test]
fn track_change_advances_queue() {
    let mut queue = PlayQueue::new();
    let a = new_id();
    let b = new_id();
    queue.enqueue(a);
    queue.enqueue(b);
    assert_eq!(on_track_changed(&mut queue), Some(b));
    assert_eq!(on_track_changed(&mut queue), None);
}

#[test]
fn normal_input_slash_with_stale_results() {
    let mut app = make_test_app();
    app.search_query = "query".to_string();
    app.search_results = vec![0, 1];
    app.view = Screen::Queue;
    let action = handle_normal_input(&mut app, Key::Char('/'));
    assert!(matches!(action, UiAction::Nothing));
    assert_eq!(app.input_mode, InputMode::Search);
    assert_eq!(app.view, Screen::Library);
    assert!(app.search_query.is_empty());
    assert!(app.search_results.is_empty());
}
