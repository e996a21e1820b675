use jalwa::daimon::{
    build_library_context, format_item_for_rag, llm_block_or_none, llm_json_block, parse_llm_recommendation, DaimonConfig, HooshConfig,
    LlmRecommendation, LlmSuggestion,
};
use jalwa::ids::new_id;
use jalwa::insights::analyze_library;
use jalwa::library::Library;
use jalwa::media::{make_media_item, MediaItem};
use jalwa::recommend::{recommend, RecommendationReason};
use jalwa::smart::{generate_smart_playlist, generate_smart_playlist_at, SmartCriteria};

fn make_item(title: &str, artist: &str, duration_secs: u64) -> MediaItem {
    make_media_item(title, artist, duration_secs)
}

#[test]
fn recommend_same_artist() {
    let mut lib = Library::new();
    let seed = make_item("Song A", "Artist 1", 200);
    let seed_id = seed.id;
    lib.add_item(seed);
    lib.add_item(make_item("Song B", "Artist 1", 180));
    lib.add_item(make_item("Song C", "Artist 2", 200));

    let recs = recommend(&lib, seed_id, 10);
    assert!(!recs.is_empty());
    assert!(recs[0].reasons.iter().any(|r| matches!(r, RecommendationReason::SameArtist)));
}

#[test]
fn recommend_empty_library() {
    let lib = Library::new();
    let recs = recommend(&lib, new_id(), 10);
    assert!(recs.is_empty());
}

#[test]
fn recommend_nonexistent_seed() {
    let mut lib = Library::new();
    lib.add_item(make_item("Song", "Artist", 200));
    let recs = recommend(&lib, new_id(), 10);
    assert!(recs.is_empty());
}

#[test]
fn recommend_with_tags() {
    let mut lib = Library::new();
    let mut seed = make_item("Song A", "X", 200);
    seed.tags = vec!["rock".to_string()];
    let seed_id = seed.id;
    lib.add_item(seed);

    let mut tagged = make_item("Song B", "Y", 180);
    tagged.tags = vec!["rock".to_string()];
    lib.add_item(tagged);

    let recs = recommend(&lib, seed_id, 10);
    assert!(recs[0].reasons.iter().any(|r| matches!(r, RecommendationReason::Tagged(_))));
}

#[test]
fn recommend_max_results() {
    let mut lib = Library::new();
    let seed = make_item("Seed", "Artist", 200);
    let seed_id = seed.id;
    lib.add_item(seed);
    for i in 0..20 {
        lib.add_item(make_item(&format!("Song {i}"), "Artist", 200));
    }
    let recs = recommend(&lib, seed_id, 5);
    assert_eq!(recs.len(), 5);
}

#[test]
fn recommend_scores_exactly() {
    let mut lib = Library::new();
    let mut seed = make_item("Seed", "Queen", 200);
    seed.tags = vec!["Rock".to_string()];
    let seed_id = seed.id;
    lib.add_item(seed);
    let mut close = make_item("Close", "queen", 210);
    close.tags = vec!["rock".to_string()];
    close.play_count = 5;
    let close_id = close.id;
    lib.add_item(close);
    let mut far = make_item("Far", "Other", 1000);
    far.album = None;
    let far_id = far.id;
    lib.add_item(far);

    let recs = recommend(&lib, seed_id, 10);
    assert_eq!(recs.len(), 2);
    assert_eq!(recs[0].item_id, close_id);
    // artist 30 + album 20 + duration 10 + type 5 + tag 15 + plays 5
    assert_eq!(recs[0].score, 85);
    assert_eq!(recs[1].item_id, far_id);
    assert_eq!(recs[1].score, 5);
    assert!(recs[1].reasons.is_empty());
}

#[test]
fn smart_playlist_by_artist() {
    let mut lib = Library::new();
    lib.add_item(make_item("Song 1", "Queen", 200));
    lib.add_item(make_item("Song 2", "Queen", 180));
    lib.add_item(make_item("Song 3", "Beatles", 200));

    let pl = generate_smart_playlist(&lib, "Queen Songs", &vec![SmartCriteria::Artist("queen".to_string())]);
    assert_eq!(pl.len(), 2);
    assert!(pl.is_smart);
}

#[test]
fn smart_playlist_by_tag() {
    let mut lib = Library::new();
    let mut item = make_item("Song", "A", 200);
    item.tags = vec!["jazz".to_string()];
    lib.add_item(item);
    lib.add_item(make_item("Other", "B", 200));

    let pl = generate_smart_playlist(&lib, "Jazz", &vec![SmartCriteria::Tag("jazz".to_string())]);
    assert_eq!(pl.len(), 1);
}

#[test]
fn smart_playlist_by_duration() {
    let mut lib = Library::new();
    lib.add_item(make_item("Short", "A", 60));
    lib.add_item(make_item("Long", "B", 600));

    let pl = generate_smart_playlist(&lib, "Long Tracks", &vec![SmartCriteria::MinDuration(300_000)]);
    assert_eq!(pl.len(), 1);
}

#[test]
fn smart_playlist_multiple_criteria() {
    let mut lib = Library::new();
    let mut item = make_item("Song", "Queen", 200);
    item.tags = vec!["rock".to_string()];
    lib.add_item(item);
    lib.add_item(make_item("Other", "Queen", 200));

    let pl = generate_smart_playlist(
        &lib,
        "Queen Rock",
        &vec![SmartCriteria::Artist("queen".to_string()), SmartCriteria::Tag("rock".to_string())],
    );
    assert_eq!(pl.len(), 1);
}

#[test]
fn smart_playlist_recently_added_window() {
    let mut lib = Library::new();
    let mut old = make_item("Old", "A", 100);
    old.added_at_ms = 0;
    lib.add_item(old);
    let mut fresh = make_item("Fresh", "A", 100);
    fresh.added_at_ms = 10 * 86_400_000;
    let fresh_id = fresh.id;
    lib.add_item(fresh);

    let pl = generate_smart_playlist_at(
        &lib,
        "Recent",
        &vec![SmartCriteria::RecentlyAdded { days: 2 }],
        9,
        5,
        11 * 86_400_000,
    );
    assert_eq!(pl.items, vec![fresh_id]);
    assert_eq!(pl.id, 9);
    assert!(pl.is_smart);
}

#[test]
fn analyze_empty_library() {
    let lib = Library::new();
    let insights = analyze_library(&lib);
    assert!(insights.top_artists.is_empty());
    assert!(insights.most_played.is_empty());
    assert_eq!(insights.total_listen_ns, 0);
}

#[test]
fn analyze_with_data() {
    let mut lib = Library::new();
    let mut item1 = make_item("Song 1", "Queen", 200);
    item1.play_count = 10;
    item1.tags = vec!["rock".to_string()];
    lib.add_item(item1);

    let mut item2 = make_item("Song 2", "Queen", 300);
    item2.play_count = 5;
    lib.add_item(item2);

    lib.add_item(make_item("Song 3", "Beatles", 180));

    let insights = analyze_library(&lib);
    assert_eq!(insights.top_artists[0].0, "Queen");
    assert_eq!(insights.top_artists[0].1, 2);
    assert_eq!(insights.most_played.len(), 2);
    assert!(insights.total_listen_ns > 0);
    assert!(insights.avg_track_ns > 0);
}

#[test]
fn analyze_exact_totals_and_order() {
    let mut lib = Library::new();
    let mut a = make_item("A", "Zed", 100);
    a.play_count = 2;
    a.tags = vec!["x".to_string(), "y".to_string()];
    let a_id = a.id;
    lib.add_item(a);
    let mut b = make_item("B", "Amy", 200);
    b.play_count = 3;
    b.tags = vec!["y".to_string()];
    let b_id = b.id;
    lib.add_item(b);

    let insights = analyze_library(&lib);
    // listening: 100 s * 2 + 200 s * 3 = 800 s
    assert_eq!(insights.total_listen_ns, 800_000_000_000);
    // mean duration: 150 s
    assert_eq!(insights.avg_track_ns, 150_000_000_000);
    assert_eq!(insights.most_played, vec![(b_id, 3), (a_id, 2)]);
    // equal counts keep first-seen order
    assert_eq!(insights.top_artists, vec![("Zed".to_string(), 1), ("Amy".to_string(), 1)]);
    assert_eq!(insights.genre_distribution, vec![("y".to_string(), 2), ("x".to_string(), 1)]);
}

#[test]
fn recommendation_reason_display() {
    assert_eq!(RecommendationReason::SameArtist.to_string(), "same artist");
    assert_eq!(RecommendationReason::Tagged("rock".to_string()).to_string(), "tagged 'rock'");
}

#[test]
fn daimon_config_defaults() {
    let config = DaimonConfig::default();
    assert!(config.endpoint.contains("8090"));
}

#[test]
fn hoosh_config_defaults() {
    let config = HooshConfig::default();
    assert!(config.endpoint.contains("8088"));
}

#[test]
fn configs_take_overrides() {
    let d = DaimonConfig::from_overrides(Some("http://d:1".to_string()), Some("k".to_string()));
    assert_eq!(d.endpoint, "http://d:1");
    assert_eq!(d.api_key, Some("k".to_string()));
    let h = HooshConfig::from_overrides(None, None, Some("mistral".to_string()));
    assert_eq!(h.endpoint, "http://localhost:8088");
    assert_eq!(h.model, "mistral");
    assert_eq!(HooshConfig::default().model, "llama3");
}

#[test]
fn format_item_rag_includes_metadata() {
    let mut item = make_item("Test Song", "Artist X", 240);
    item.tags = vec!["rock".to_string(), "indie".to_string()];
    item.play_count = 5;
    item.rating = Some(4);
    let text = format_item_for_rag(&item);
    assert!(text.contains("Test Song"));
    assert!(text.contains("Artist X"));
    assert!(text.contains("4:00"));
    assert!(text.contains("rock"));
    assert!(text.contains("Play count: 5"));
    assert!(text.contains("Rating: 4/5"));
}

#[test]
fn format_item_rag_minimal() {
    let item = make_item("Minimal", "Nobody", 60);
    let text = format_item_for_rag(&item);
    assert!(text.contains("Minimal"));
    assert!(text.contains("1:00"));
    assert!(!text.contains("Tags:"));
}

#[test]
fn format_item_rag_exact_text() {
    let mut item = make_item("T", "A", 61);
    item.tags = vec!["a".to_string(), "b".to_string()];
    let text = format_item_for_rag(&item);
    assert_eq!(
        text,
        "Title: T\nPath: /music/T.flac\nFormat: FLAC\nType: Audio\nArtist: A\nAlbum: Album\nDuration: 1:01\nCodec: FLAC\nTags: a, b"
    );
}

#[test]
fn build_library_context_formats() {
    let mut lib = Library::new();
    let mut item = make_item("Song A", "Band X", 180);
    item.tags = vec!["jazz".to_string()];
    lib.add_item(item);
    lib.add_item(make_item("Song B", "Band Y", 240));

    let ctx = build_library_context(&lib);
    assert!(ctx.contains("Song A — Band X"));
    assert!(ctx.contains("[jazz]"));
    assert!(ctx.contains("Song B — Band Y"));
}

#[test]
fn build_library_context_caps_at_100() {
    let mut lib = Library::new();
    for i in 0..150 {
        lib.add_item(make_item(&format!("Song {i}"), "Artist", 120));
    }
    let ctx = build_library_context(&lib);
    let lines: Vec<&str> = ctx.lines().collect();
    assert_eq!(lines.len(), 100);
}

#[test]
fn build_library_context_exact_line() {
    let mut lib = Library::new();
    let mut item = make_item("S", "B", 75);
    item.artist = None;
    lib.add_item(item);
    assert_eq!(build_library_context(&lib), "- S — Unknown (1:15)");
}

/// Reads a recommendation from JSON the way the tool server does.
fn from_json(text: &str) -> Option<LlmRecommendation> {
    let v: serde_json::Value = serde_json::from_str(text).ok()?;
    let obj = v.as_object()?;
    let mut suggestions = Vec::new();
    for s in obj.get("suggestions")?.as_array()? {
        let s = s.as_object()?;
        let artist = match s.get("artist") {
            None | Some(serde_json::Value::Null) => None,
            Some(a) => Some(a.as_str()?.to_string()),
        };
        suggestions.push(LlmSuggestion {
            title: s.get("title")?.as_str()?.to_string(),
            artist,
            reason: s.get("reason")?.as_str()?.to_string(),
        });
    }
    let mood = match obj.get("mood") {
        None | Some(serde_json::Value::Null) => None,
        Some(m) => Some(m.as_str()?.to_string()),
    };
    Some(LlmRecommendation { suggestions, mood })
}

fn parse(response: &str) -> LlmRecommendation {
    let whole = from_json(response);
    let block = llm_block_or_none(response).and_then(|b| from_json(&b));
    parse_llm_recommendation(response, whole, block)
}

#[test]
fn parse_valid_json_recommendation() {
    let json = r#"{"suggestions":[{"title":"Song A","artist":"Band","reason":"matches mood"}],"mood":"chill"}"#;
    let rec = parse(json);
    assert_eq!(rec.suggestions.len(), 1);
    assert_eq!(rec.suggestions[0].title, "Song A");
    assert_eq!(rec.mood, Some("chill".to_string()));
}

#[test]
fn parse_json_in_markdown() {
    let response = "Here are my picks:\n```json\n{\"suggestions\":[{\"title\":\"X\",\"artist\":null,\"reason\":\"great\"}],\"mood\":\"upbeat\"}\n```";
    let rec = parse(response);
    assert_eq!(rec.suggestions[0].title, "X");
}

#[test]
fn parse_fallback_raw_text() {
    let response = "I couldn't find any matching songs.";
    let rec = parse(response);
    assert_eq!(rec.suggestions.len(), 1);
    assert!(rec.suggestions[0].title.contains("couldn't find"));
}

#[test]
fn fallback_title_is_trimmed() {
    let rec = parse_llm_recommendation("  nothing here \n", None, None);
    assert_eq!(rec.suggestions[0].title, "nothing here");
    assert_eq!(rec.suggestions[0].reason, "LLM response");
    assert_eq!(rec.mood, None);
}

#[test]
fn json_block_spans_first_to_last_brace() {
    assert_eq!(llm_json_block("a {b} c {d} e"), Some("{b} c {d}".to_string()));
    assert_eq!(llm_json_block("no braces"), None);
    assert_eq!(llm_json_block("only { open"), None);
    assert_eq!(llm_json_block("}{"), Some(String::new()));
}

#[test]
fn json_block_for_every_reply() {
    assert_eq!(llm_block_or_none("a {b} c {d} e"), Some("{b} c {d}".to_string()));
    assert_eq!(llm_block_or_none("}{"), Some(String::new()));
    assert_eq!(llm_block_or_none("} then {"), None);
    assert_eq!(llm_block_or_none("no braces"), None);
    let rec = parse("} then {");
    assert_eq!(rec.suggestions.len(), 1);
    assert_eq!(rec.suggestions[0].title, "} then {");
}
