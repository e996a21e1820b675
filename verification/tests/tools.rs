use jalwa::ids::{new_id, uuid_text};
use jalwa::library::Library;
use jalwa::media::make_media_item;
use jalwa::tools::{
    export_plan, find_playlist_by_name, library_list_reply, playlist_add_reply, playlist_list_reply, playlist_remove_reply,
    playlist_create_reply, tool_list, ParamKind,
    queue_enqueue_reply, queue_list_reply, recommend_reply, scan_reply, search_reply, unknown_action_reply,
    unknown_tool_reply,
};

fn sample_library() -> Library {
    let mut lib = Library::new();
    lib.add_item(make_media_item("Bohemian Rhapsody", "Queen", 354));
    lib.add_item(make_media_item("Time", "Pink Floyd", 413));
    lib
}

#[test]
fn tool_call_search_empty() {
    let lib = Library::new();
    let r = search_reply(&lib, "anything");
    assert!(!r.is_error);
    assert_eq!(r.text, "No results for 'anything'");
}

#[test]
fn tool_search_with_results() {
    let lib = sample_library();
    let r = search_reply(&lib, "queen");
    assert!(!r.is_error);
    assert_eq!(r.text, "  1. Queen - Bohemian Rhapsody [5:54] (audio)");
}

#[test]
fn tool_library_list_empty() {
    let r = library_list_reply(&Library::new());
    assert_eq!(r.text, "Library is empty");
    assert!(!r.is_error);
}

#[test]
fn tool_library_list_with_items() {
    let r = library_list_reply(&sample_library());
    assert_eq!(
        r.text,
        "  1. Queen - Bohemian Rhapsody [5:54] (audio)\n  2. Pink Floyd - Time [6:53] (audio)"
    );
}

#[test]
fn tool_playlist_list_empty() {
    assert_eq!(playlist_list_reply(&Library::new()).text, "No playlists");
}

#[test]
fn tool_playlist_list_with_playlists() {
    let mut lib = sample_library();
    lib.create_playlist("Favs");
    lib.create_playlist("Road");
    let id = lib.items[0].id;
    let r = playlist_add_reply(&mut lib, "favs", &uuid_text(id));
    assert!(!r.is_error);
    assert_eq!(r.text, "Added to 'favs'");
    assert_eq!(playlist_list_reply(&lib).text, "Favs (1 tracks)\nRoad (0 tracks)");
}

#[test]
fn tool_playlist_add_missing_params() {
    let mut lib = sample_library();
    let r = playlist_add_reply(&mut lib, "", "x");
    assert!(r.is_error);
    assert_eq!(r.text, "name and item_id required");
}

#[test]
fn tool_playlist_add_invalid_uuid() {
    let mut lib = sample_library();
    lib.create_playlist("Favs");
    let r = playlist_add_reply(&mut lib, "Favs", "not-a-uuid");
    assert!(r.is_error);
    assert_eq!(r.text, "invalid UUID");
    assert!(lib.playlists[0].items.is_empty());
}

#[test]
fn tool_playlist_add_playlist_not_found() {
    let mut lib = sample_library();
    let r = playlist_add_reply(&mut lib, "Missing", &uuid_text(new_id()));
    assert!(r.is_error);
    assert_eq!(r.text, "Playlist 'Missing' not found");
}

#[test]
fn find_playlist_ignores_ascii_case() {
    let mut lib = Library::new();
    lib.create_playlist("Road Trip");
    assert_eq!(find_playlist_by_name(&lib, "ROAD trip"), Some(0));
    assert_eq!(find_playlist_by_name(&lib, "road"), None);
}

#[test]
fn tool_queue_list_empty() {
    let lib = sample_library();
    assert_eq!(queue_list_reply(&lib, None).text, "Queue is empty");
    assert_eq!(queue_list_reply(&lib, Some("/elsewhere.mp3")).text, "Queue is empty");
    assert_eq!(queue_list_reply(&lib, Some("/music/Time.flac")).text, "Now playing: Pink Floyd - Time");
}

#[test]
fn tool_queue_enqueue_missing_id() {
    let r = queue_enqueue_reply(&sample_library(), "");
    assert!(r.is_error);
    assert_eq!(r.text, "item_id required for enqueue");
}

#[test]
fn tool_queue_enqueue_valid() {
    let lib = sample_library();
    let r = queue_enqueue_reply(&lib, &uuid_text(lib.items[1].id));
    assert!(!r.is_error);
    assert_eq!(r.text, "Enqueued: Pink Floyd - Time");
}

#[test]
fn tool_queue_enqueue_not_found() {
    let r = queue_enqueue_reply(&sample_library(), "nope");
    assert!(r.is_error);
    assert_eq!(r.text, "Item not found: nope");
}

#[test]
fn tool_call_recommend_invalid_uuid() {
    let r = recommend_reply(&sample_library(), "zzz", 10);
    assert!(r.is_error);
    assert_eq!(r.text, "invalid item_id UUID");
}

#[test]
fn tool_call_recommend_empty_library() {
    let r = recommend_reply(&Library::new(), &uuid_text(new_id()), 10);
    assert!(!r.is_error);
    assert_eq!(r.text, "No recommendations found");
}

#[test]
fn tool_recommend_with_library() {
    let mut lib = Library::new();
    let seed = make_media_item("One", "Same", 100);
    let seed_id = seed.id;
    lib.add_item(seed);
    lib.add_item(make_media_item("Two", "Same", 100));
    let r = recommend_reply(&lib, &uuid_text(seed_id), 10);
    assert!(!r.is_error);
    assert!(r.text.contains("Same - Two"));
    assert!(!r.text.contains("Same - One"));
}

#[test]
fn tool_call_unknown() {
    let r = unknown_tool_reply("bogus");
    assert!(r.is_error);
    assert_eq!(r.text, "unknown tool: bogus");
}

#[test]
fn tool_queue_unknown_action() {
    let r = unknown_action_reply("queue", "dance");
    assert!(r.is_error);
    assert_eq!(r.text, "unknown queue action: dance");
}

#[test]
fn tool_playlist_export_missing_params() {
    match export_plan(&sample_library(), "Favs", "") {
        Err(r) => {
            assert!(r.is_error);
            assert_eq!(r.text, "name and output required");
        }
        Ok(_) => panic!("export without an output was accepted"),
    }
}

#[test]
fn tool_playlist_export_not_found() {
    match export_plan(&sample_library(), "Favs", "/tmp/out.m3u") {
        Err(r) => assert_eq!(r.text, "Playlist 'Favs' not found"),
        Ok(_) => panic!("export of a missing playlist was accepted"),
    }
}

#[test]
fn tool_playlist_export_valid() {
    let mut lib = sample_library();
    lib.create_playlist("Favs");
    let id = lib.items[1].id;
    playlist_add_reply(&mut lib, "Favs", &uuid_text(id));
    let (content, done) = export_plan(&lib, "favs", "/tmp/out.m3u").expect("the playlist exists");
    assert_eq!(content, "#EXTM3U\n#EXTINF:413,Pink Floyd - Time\n/music/Time.flac\n");
    assert_eq!(done, "Exported 'favs' (1 tracks) to /tmp/out.m3u");
}

#[test]
fn tool_library_scan_reply() {
    let lib = sample_library();
    let r = scan_reply("/music", 2, &lib);
    assert!(!r.is_error);
    assert_eq!(
        r.text,
        "Scanned /music: added 2 new items\nLibrary: 2 items (2 audio, 0 video), 0 playlists, total: 12:47"
    );
}

#[test]
fn tool_list_returns_all_tools() {
    let tools = tool_list();
    assert_eq!(tools.len(), 8);
    let names: Vec<&str> = tools.iter().map(|t| t.name.as_str()).collect();
    assert_eq!(
        names,
        vec!["jalwa_play", "jalwa_pause", "jalwa_status", "jalwa_search", "jalwa_recommend", "jalwa_queue", "jalwa_library", "jalwa_playlist"]
    );
    let rec = &tools[4];
    assert_eq!(rec.required, vec!["item_id".to_string()]);
    assert_eq!(rec.params[1].name, "max");
    assert_eq!(rec.params[1].kind, ParamKind::Integer);
    assert_eq!(rec.params[1].description.as_deref(), Some("Max recommendations (default 5)"));
    assert!(tools[1].params.is_empty() && tools[1].required.is_empty());
    let pl = &tools[7];
    let pnames: Vec<&str> = pl.params.iter().map(|p| p.name.as_str()).collect();
    assert_eq!(pnames, vec!["action", "name", "item_id", "output"]);
}

#[test]
fn tool_playlist_add_keeps_playlist_fields() {
    let mut lib = sample_library();
    lib.create_playlist("Favs");
    let before_id = lib.playlists[0].id;
    let created = lib.playlists[0].created_at_ms;
    let item = uuid_text(lib.items[0].id);
    playlist_add_reply(&mut lib, "Favs", &item);
    assert_eq!(lib.playlists[0].id, before_id);
    assert_eq!(lib.playlists[0].name, "Favs");
    assert_eq!(lib.playlists[0].created_at_ms, created);
    assert!(!lib.playlists[0].is_smart);
}

#[test]
fn tool_playlist_remove() {
    let mut lib = sample_library();
    lib.create_playlist("Favs");
    let id = lib.items[0].id;
    playlist_add_reply(&mut lib, "Favs", &uuid_text(id));
    playlist_add_reply(&mut lib, "Favs", &uuid_text(id));
    let r = playlist_remove_reply(&mut lib, "favs", &uuid_text(id));
    assert!(!r.is_error);
    assert_eq!(r.text, "Removed from 'favs'");
    assert!(lib.playlists[0].items.is_empty());
    let r = playlist_remove_reply(&mut lib, "Favs", &uuid_text(id));
    assert!(r.is_error);
    assert_eq!(r.text, "Item not in 'Favs'");
    let r = playlist_remove_reply(&mut lib, "Missing", &uuid_text(id));
    assert_eq!(r.text, "Playlist 'Missing' not found");
    let r = playlist_remove_reply(&mut lib, "Favs", "bad");
    assert_eq!(r.text, "invalid UUID");
    let r = playlist_remove_reply(&mut lib, "", "x");
    assert_eq!(r.text, "name and item_id required");
}

#[test]
fn tool_playlist_create() {
    let (pl, done) = playlist_create_reply("Favorites").ok().unwrap();
    assert!(done.contains("Created"));
    assert!(done.contains("Favorites"));
    assert_eq!(done, "Created playlist: Favorites");
    assert_eq!(pl.name, "Favorites");
    assert!(pl.items.is_empty());
    assert!(!pl.is_smart);
}

#[test]
fn tool_playlist_create_missing_name() {
    let r = playlist_create_reply("").err().unwrap();
    assert!(r.is_error);
    assert_eq!(r.text, "name required for create");
}

// ---- JSON-RPC requests and tool routing ----

use jalwa::rpc::{arg_text_of, parse_rpc_line, route_tool, rpc_action, RpcAction, RpcArg, ToolRoute};

#[test]
fn rpc_parse_and_action() {
    let req = parse_rpc_line(r#"{"jsonrpc":"2.0","id":7,"method":"tools/call","params":{"name":"jalwa_search","arguments":{"query":"rock","max":3}}}"#)
        .unwrap();
    assert_eq!(req.id_json, "7");
    assert_eq!(req.method.as_deref(), Some("tools/call"));
    assert_eq!(req.tool.as_deref(), Some("jalwa_search"));
    assert_eq!(arg_text_of(&req.args, "query"), "rock");
    match rpc_action(req) {
        RpcAction::CallTool { name, args } => {
            assert_eq!(name, "jalwa_search");
            assert!(matches!(route_tool(&name, &args), ToolRoute::Search { query } if query == "rock"));
        }
        other => panic!("unexpected {other:?}"),
    }
    assert!(parse_rpc_line("not json").is_none());
    let init = parse_rpc_line(r#"{"id":"a","method":"initialize"}"#).unwrap();
    assert_eq!(init.id_json, "\"a\"");
    assert!(matches!(rpc_action(init), RpcAction::Initialize));
    let list = parse_rpc_line(r#"{"method":"tools/list"}"#).unwrap();
    assert_eq!(list.id_json, "null");
    assert!(matches!(rpc_action(list), RpcAction::ListTools));
    let other = parse_rpc_line(r#"{"id":1,"method":"ping"}"#).unwrap();
    assert!(matches!(rpc_action(other), RpcAction::Unknown { error } if error == "unknown method: ping"));
    let none = parse_rpc_line(r#"{"id":1}"#).unwrap();
    assert!(matches!(rpc_action(none), RpcAction::Unknown { error } if error == "unknown method: "));
}

#[test]
fn tool_routes() {
    let args = |v: Vec<(&str, RpcArg)>| v.into_iter().map(|(k, a)| (k.to_string(), a)).collect::<Vec<_>>();
    let t = |s: &str| RpcArg::Text(s.to_string());
    assert!(matches!(route_tool("jalwa_recommend", &args(vec![("item_id", t("x")), ("max", RpcArg::Unsigned(3))])),
        ToolRoute::Recommend { item_id, max: 3 } if item_id == "x"));
    // A string `max` is not a number: the default applies.
    assert!(matches!(route_tool("jalwa_recommend", &args(vec![("max", t("3"))])), ToolRoute::Recommend { max: 5, .. }));
    assert!(matches!(route_tool("jalwa_library", &args(vec![("action", t("scan"))])),
        ToolRoute::Answer(r) if r.is_error && r.text == "path required for scan"));
    assert!(matches!(route_tool("jalwa_library", &args(vec![("action", t("scan")), ("path", t("/m"))])),
        ToolRoute::LibraryScan { path } if path == "/m"));
    assert!(matches!(route_tool("jalwa_queue", &args(vec![("action", t("dance"))])),
        ToolRoute::Answer(r) if r.text == "unknown queue action: dance"));
    assert!(matches!(route_tool("jalwa_playlist", &args(vec![("action", t("export")), ("name", t("A")), ("output", t("o.m3u"))])),
        ToolRoute::PlaylistExport { name, output } if name == "A" && output == "o.m3u"));
    assert!(matches!(route_tool("jalwa_nope", &Vec::new()), ToolRoute::Answer(r) if r.text == "unknown tool: jalwa_nope"));
    assert!(matches!(route_tool("jalwa_play", &Vec::new()), ToolRoute::Play { path } if path.is_empty()));
}
