//! The MCP server's requests: a JSON-RPC line read into plain values, the
//! method it asks for, and the tool answer a tool call routes to.
//!
//! Reading lines and writing the JSON answers happen outside the library.

use vstd::prelude::*;
use crate::seqs::{first, is_first, lemma_first_is, lemma_first_none};
use crate::text::{copy_string, opt_seq, push_str, text_eq};
use crate::tools::{err_reply, unknown_action_reply, unknown_tool_reply, ToolReply, ToolReplyView};

verus! {

/// A tool argument's value, as far as the tools read it: a string, a
/// number that fits in a `u64`, or anything else.
#[derive(Debug)]
pub enum RpcArg {
    Text(String),
    Unsigned(u64),
    Other,
}

/// The abstract value of an [`RpcArg`].
pub enum RpcArgView {
    Text(Seq<char>),
    Unsigned(u64),
    Other,
}

impl View for RpcArg {
    type V = RpcArgView;

    open spec fn view(&self) -> RpcArgView {
        match self {
            RpcArg::Text(s) => RpcArgView::Text(s@),
            RpcArg::Unsigned(u) => RpcArgView::Unsigned(*u),
            RpcArg::Other => RpcArgView::Other,
        }
    }
}

/// The view of a list of named arguments.
pub open spec fn args_view(a: Seq<(String, RpcArg)>) -> Seq<(Seq<char>, RpcArgView)> {
    a.map_values(|p: (String, RpcArg)| (p.0@, p.1@))
}

/// A JSON-RPC request line: its method, the name of the tool it calls and
/// the tool's arguments (from `params`), and its id written as JSON.
#[derive(Debug)]
pub struct RpcRequest {
    pub method: Option<String>,
    pub tool: Option<String>,
    pub args: Vec<(String, RpcArg)>,
    pub id_json: String,
}

/// The abstract value of an [`RpcRequest`].
pub struct RpcRequestView {
    pub method: Option<Seq<char>>,
    pub tool: Option<Seq<char>>,
    pub args: Seq<(Seq<char>, RpcArgView)>,
    pub id_json: Seq<char>,
}

impl View for RpcRequest {
    type V = RpcRequestView;

    open spec fn view(&self) -> RpcRequestView {
        RpcRequestView {
            method: opt_seq(self.method),
            tool: opt_seq(self.tool),
            args: args_view(self.args@),
            id_json: self.id_json@,
        }
    }
}

/// What `serde_json::from_str::<Value>` makes of a line, read as a request:
/// `None` when the line is not JSON.
pub uninterp spec fn spec_rpc_parse(line: Seq<char>) -> Option<RpcRequestView>;

/// Calls `serde_json::from_str::<serde_json::Value>` on a line and reads
/// the request's fields out of the value: `method` and `params.name` when
/// they are strings, each entry of the `params.arguments` object, and the
/// `id` written back as JSON (`null` when absent). The result is named: a
/// function of the line alone.
#[verifier::external_body]
pub fn parse_rpc_line(line: &str) -> (res: Option<RpcRequest>)
    ensures
        match res {
            Some(r) => spec_rpc_parse(line@) == Some(r@),
            None => spec_rpc_parse(line@) is None,
        },
{
    let v: serde_json::Value = serde_json::from_str(line).ok()?;
    let arg = |x: &serde_json::Value| match x.as_str() {
        Some(s) => RpcArg::Text(s.to_string()),
        None => x.as_u64().map_or(RpcArg::Other, RpcArg::Unsigned),
    };
    let args = v["params"]["arguments"].as_object().map(|m| m.iter().map(|(k, x)| (k.clone(), arg(x))).collect());
    let text = |x: &serde_json::Value| x.as_str().map(String::from);
    Some(RpcRequest { method: text(&v["method"]), tool: text(&v["params"]["name"]), args: args.unwrap_or_default(), id_json: v["id"].to_string() })
}

/// What a request asks the server for.
#[derive(Debug)]
pub enum RpcAction {
    Initialize,
    ListTools,
    CallTool { name: String, args: Vec<(String, RpcArg)> },
    /// A method the server does not have; the text is the error to answer.
    Unknown { error: String },
}

/// The abstract value of an [`RpcAction`].
pub enum RpcActionView {
    Initialize,
    ListTools,
    CallTool { name: Seq<char>, args: Seq<(Seq<char>, RpcArgView)> },
    Unknown { error: Seq<char> },
}

impl View for RpcAction {
    type V = RpcActionView;

    open spec fn view(&self) -> RpcActionView {
        match self {
            RpcAction::Initialize => RpcActionView::Initialize,
            RpcAction::ListTools => RpcActionView::ListTools,
            RpcAction::CallTool { name, args } => RpcActionView::CallTool { name: name@, args: args_view(args@) },
            RpcAction::Unknown { error } => RpcActionView::Unknown { error: error@ },
        }
    }
}

/// A text, or the empty text when there is none.
pub open spec fn or_empty(o: Option<Seq<char>>) -> Seq<char> {
    match o {
        Some(s) => s,
        None => Seq::empty(),
    }
}

/// What a request asks for: `initialize`, `tools/list`, `tools/call` (of
/// the named tool, the empty name when there is none), or another method.
pub open spec fn rpc_action_of(r: RpcRequestView) -> RpcActionView {
    let m = or_empty(r.method);
    if m == "initialize"@ {
        RpcActionView::Initialize
    } else if m == "tools/list"@ {
        RpcActionView::ListTools
    } else if m == "tools/call"@ {
        RpcActionView::CallTool { name: or_empty(r.tool), args: r.args }
    } else {
        RpcActionView::Unknown { error: "unknown method: "@ + m }
    }
}

fn or_empty_string(o: Option<String>) -> (res: String)
    ensures
        res@ == or_empty(opt_seq(o)),
{
    match o {
        Some(s) => s,
        None => String::new(),
    }
}

/// Decides what a request asks for.
pub fn rpc_action(req: RpcRequest) -> (a: RpcAction)
    ensures
        a@ == rpc_action_of(req@),
{
    let ghost r = req@;
    let m = or_empty_string(req.method);
    if text_eq(m.as_str(), "initialize") {
        RpcAction::Initialize
    } else if text_eq(m.as_str(), "tools/list") {
        RpcAction::ListTools
    } else if text_eq(m.as_str(), "tools/call") {
        let name = or_empty_string(req.tool);
        RpcAction::CallTool { name, args: req.args }
    } else {
        let mut error = String::from_str("unknown method: ");
        push_str(&mut error, m.as_str());
        RpcAction::Unknown { error }
    }
}

/// Position of the first argument named `key`.
pub open spec fn arg_index(args: Seq<(Seq<char>, RpcArgView)>, key: Seq<char>) -> Option<int> {
    first(named(args, key), args.len() as int)
}

/// Argument `i` is named `key`.
pub open spec fn named(args: Seq<(Seq<char>, RpcArgView)>, key: Seq<char>) -> spec_fn(int) -> bool {
    |i: int| args[i].0 == key
}

/// The text argument named `key`; the empty text when it is absent or not
/// a string.
pub open spec fn arg_text(args: Seq<(Seq<char>, RpcArgView)>, key: Seq<char>) -> Seq<char> {
    match arg_index(args, key) {
        Some(i) => match args[i].1 {
            RpcArgView::Text(s) => s,
            _ => Seq::empty(),
        },
        None => Seq::empty(),
    }
}

/// The unsigned-number argument named `key`; `default` when it is absent or
/// not such a number.
pub open spec fn arg_unsigned(args: Seq<(Seq<char>, RpcArgView)>, key: Seq<char>, default: u64) -> u64 {
    match arg_index(args, key) {
        Some(i) => match args[i].1 {
            RpcArgView::Unsigned(u) => u,
            _ => default,
        },
        None => default,
    }
}

fn find_arg(args: &Vec<(String, RpcArg)>, key: &str) -> (res: Option<usize>)
    ensures
        match res {
            Some(i) => arg_index(args_view(args@), key@) == Some(i as int) && i < args.len(),
            None => arg_index(args_view(args@), key@) is None,
        },
{
    let ghost a = args_view(args@);
    let ghost p = named(a, key@);
    let mut i: usize = 0;
    while i < args.len()
        invariant
            i <= args.len(),
            a == args_view(args@),
            p == named(a, key@),
            forall|j: int| 0 <= j < i ==> !#[trigger] p(j),
        decreases args.len() - i,
    {
        if text_eq(args[i].0.as_str(), key) {
            proof {
                assert(a[i as int].0 == args@[i as int].0@);
                assert(p(i as int));
                assert(is_first(p, a.len() as int, i as int));
                lemma_first_is(p, a.len() as int, i as int);
            }
            return Some(i);
        }
        assert(a[i as int].0 == args@[i as int].0@);
        i = i + 1;
    }
    proof {
        lemma_first_none(p, a.len() as int);
    }
    None
}

/// Reads the text argument named `key`.
pub fn arg_text_of(args: &Vec<(String, RpcArg)>, key: &str) -> (res: String)
    ensures
        res@ == arg_text(args_view(args@), key@),
{
    match find_arg(args, key) {
        Some(i) => {
            assert(args_view(args@)[i as int].1 == args@[i as int].1@);
            match &args[i].1 {
                RpcArg::Text(t) => copy_string(t),
                _ => String::new(),
            }
        },
        None => String::new(),
    }
}

/// Reads the unsigned-number argument named `key`, or `default`.
pub fn arg_unsigned_of(args: &Vec<(String, RpcArg)>, key: &str, default: u64) -> (res: u64)
    ensures
        res == arg_unsigned(args_view(args@), key@, default),
{
    match find_arg(args, key) {
        Some(i) => {
            assert(args_view(args@)[i as int].1 == args@[i as int].1@);
            match &args[i].1 {
                RpcArg::Unsigned(u) => *u,
                _ => default,
            }
        },
        None => default,
    }
}

/// What a tool call comes to: the work to do with its arguments, or an
/// answer decided from the call alone.
#[derive(Debug)]
pub enum ToolRoute {
    Play { path: String },
    Pause,
    Status,
    Search { query: String },
    Recommend { item_id: String, max: u64 },
    QueueList,
    QueueEnqueue { item_id: String },
    QueueClear,
    QueueShuffle,
    LibraryStats,
    LibraryScan { path: String },
    LibraryList,
    PlaylistList,
    PlaylistCreate { name: String },
    PlaylistAdd { name: String, item_id: String },
    PlaylistRemove { name: String, item_id: String },
    PlaylistExport { name: String, output: String },
    Answer(ToolReply),
}

/// The abstract value of a [`ToolRoute`].
pub enum ToolRouteView {
    Play { path: Seq<char> },
    Pause,
    Status,
    Search { query: Seq<char> },
    Recommend { item_id: Seq<char>, max: u64 },
    QueueList,
    QueueEnqueue { item_id: Seq<char> },
    QueueClear,
    QueueShuffle,
    LibraryStats,
    LibraryScan { path: Seq<char> },
    LibraryList,
    PlaylistList,
    PlaylistCreate { name: Seq<char> },
    PlaylistAdd { name: Seq<char>, item_id: Seq<char> },
    PlaylistRemove { name: Seq<char>, item_id: Seq<char> },
    PlaylistExport { name: Seq<char>, output: Seq<char> },
    Answer(ToolReplyView),
}

impl View for ToolRoute {
    type V = ToolRouteView;

    open spec fn view(&self) -> ToolRouteView {
        match self {
            ToolRoute::Play { path } => ToolRouteView::Play { path: path@ },
            ToolRoute::Pause => ToolRouteView::Pause,
            ToolRoute::Status => ToolRouteView::Status,
            ToolRoute::Search { query } => ToolRouteView::Search { query: query@ },
            ToolRoute::Recommend { item_id, max } => ToolRouteView::Recommend { item_id: item_id@, max: *max },
            ToolRoute::QueueList => ToolRouteView::QueueList,
            ToolRoute::QueueEnqueue { item_id } => ToolRouteView::QueueEnqueue { item_id: item_id@ },
            ToolRoute::QueueClear => ToolRouteView::QueueClear,
            ToolRoute::QueueShuffle => ToolRouteView::QueueShuffle,
            ToolRoute::LibraryStats => ToolRouteView::LibraryStats,
            ToolRoute::LibraryScan { path } => ToolRouteView::LibraryScan { path: path@ },
            ToolRoute::LibraryList => ToolRouteView::LibraryList,
            ToolRoute::PlaylistList => ToolRouteView::PlaylistList,
            ToolRoute::PlaylistCreate { name } => ToolRouteView::PlaylistCreate { name: name@ },
            ToolRoute::PlaylistAdd { name, item_id } => ToolRouteView::PlaylistAdd { name: name@, item_id: item_id@ },
            ToolRoute::PlaylistRemove { name, item_id } => ToolRouteView::PlaylistRemove { name: name@, item_id: item_id@ },
            ToolRoute::PlaylistExport { name, output } => ToolRouteView::PlaylistExport { name: name@, output: output@ },
            ToolRoute::Answer(r) => ToolRouteView::Answer(r@),
        }
    }
}

/// The route of a `jalwa_queue` call for its action.
pub open spec fn queue_route(args: Seq<(Seq<char>, RpcArgView)>) -> ToolRouteView {
    let act = arg_text(args, "action"@);
    if act == "list"@ {
        ToolRouteView::QueueList
    } else if act == "enqueue"@ {
        ToolRouteView::QueueEnqueue { item_id: arg_text(args, "item_id"@) }
    } else if act == "clear"@ {
        ToolRouteView::QueueClear
    } else if act == "shuffle"@ {
        ToolRouteView::QueueShuffle
    } else {
        ToolRouteView::Answer(err_reply("unknown "@ + "queue"@ + " action: "@ + act))
    }
}

/// The route of a `jalwa_library` call for its action; a scan needs a
/// path.
pub open spec fn library_route(args: Seq<(Seq<char>, RpcArgView)>) -> ToolRouteView {
    let act = arg_text(args, "action"@);
    if act == "stats"@ {
        ToolRouteView::LibraryStats
    } else if act == "scan"@ {
        let path = arg_text(args, "path"@);
        if path.len() == 0 {
            ToolRouteView::Answer(err_reply("path required for scan"@))
        } else {
            ToolRouteView::LibraryScan { path }
        }
    } else if act == "list"@ {
        ToolRouteView::LibraryList
    } else {
        ToolRouteView::Answer(err_reply("unknown "@ + "library"@ + " action: "@ + act))
    }
}

/// The route of a `jalwa_playlist` call for its action.
pub open spec fn playlist_route(args: Seq<(Seq<char>, RpcArgView)>) -> ToolRouteView {
    let act = arg_text(args, "action"@);
    let name = arg_text(args, "name"@);
    if act == "list"@ {
        ToolRouteView::PlaylistList
    } else if act == "create"@ {
        ToolRouteView::PlaylistCreate { name }
    } else if act == "add"@ {
        ToolRouteView::PlaylistAdd { name, item_id: arg_text(args, "item_id"@) }
    } else if act == "remove"@ {
        ToolRouteView::PlaylistRemove { name, item_id: arg_text(args, "item_id"@) }
    } else if act == "export"@ {
        ToolRouteView::PlaylistExport { name, output: arg_text(args, "output"@) }
    } else {
        ToolRouteView::Answer(err_reply("unknown "@ + "playlist"@ + " action: "@ + act))
    }
}

/// The route of a call of the named tool with its arguments (a missing
/// text argument reads as empty, a missing `max` as 5).
pub open spec fn tool_route_of(name: Seq<char>, args: Seq<(Seq<char>, RpcArgView)>) -> ToolRouteView {
    if name == "jalwa_play"@ {
        ToolRouteView::Play { path: arg_text(args, "path"@) }
    } else if name == "jalwa_pause"@ {
        ToolRouteView::Pause
    } else if name == "jalwa_status"@ {
        ToolRouteView::Status
    } else if name == "jalwa_search"@ {
        ToolRouteView::Search { query: arg_text(args, "query"@) }
    } else if name == "jalwa_recommend"@ {
        ToolRouteView::Recommend { item_id: arg_text(args, "item_id"@), max: arg_unsigned(args, "max"@, 5) }
    } else if name == "jalwa_queue"@ {
        queue_route(args)
    } else if name == "jalwa_library"@ {
        library_route(args)
    } else if name == "jalwa_playlist"@ {
        playlist_route(args)
    } else {
        ToolRouteView::Answer(err_reply("unknown tool: "@ + name))
    }
}

fn route_queue(args: &Vec<(String, RpcArg)>) -> (r: ToolRoute)
    ensures
        r@ == queue_route(args_view(args@)),
{
    let act = arg_text_of(args, "action");
    if text_eq(act.as_str(), "list") {
        ToolRoute::QueueList
    } else if text_eq(act.as_str(), "enqueue") {
        ToolRoute::QueueEnqueue { item_id: arg_text_of(args, "item_id") }
    } else if text_eq(act.as_str(), "clear") {
        ToolRoute::QueueClear
    } else if text_eq(act.as_str(), "shuffle") {
        ToolRoute::QueueShuffle
    } else {
        ToolRoute::Answer(unknown_action_reply("queue", act.as_str()))
    }
}

fn route_library(args: &Vec<(String, RpcArg)>) -> (r: ToolRoute)
    ensures
        r@ == library_route(args_view(args@)),
{
    let act = arg_text_of(args, "action");
    if text_eq(act.as_str(), "stats") {
        ToolRoute::LibraryStats
    } else if text_eq(act.as_str(), "scan") {
        let path = arg_text_of(args, "path");
        if path.as_str().is_empty() {
            ToolRoute::Answer(ToolReply { text: String::from_str("path required for scan"), is_error: true })
        } else {
            ToolRoute::LibraryScan { path }
        }
    } else if text_eq(act.as_str(), "list") {
        ToolRoute::LibraryList
    } else {
        ToolRoute::Answer(unknown_action_reply("library", act.as_str()))
    }
}

fn route_playlist(args: &Vec<(String, RpcArg)>) -> (r: ToolRoute)
    ensures
        r@ == playlist_route(args_view(args@)),
{
    let act = arg_text_of(args, "action");
    let name = arg_text_of(args, "name");
    if text_eq(act.as_str(), "list") {
        ToolRoute::PlaylistList
    } else if text_eq(act.as_str(), "create") {
        ToolRoute::PlaylistCreate { name }
    } else if text_eq(act.as_str(), "add") {
        ToolRoute::PlaylistAdd { name, item_id: arg_text_of(args, "item_id") }
    } else if text_eq(act.as_str(), "remove") {
        ToolRoute::PlaylistRemove { name, item_id: arg_text_of(args, "item_id") }
    } else if text_eq(act.as_str(), "export") {
        ToolRoute::PlaylistExport { name, output: arg_text_of(args, "output") }
    } else {
        ToolRoute::Answer(unknown_action_reply("playlist", act.as_str()))
    }
}

/// Routes a call of the named tool.
pub fn route_tool(name: &str, args: &Vec<(String, RpcArg)>) -> (r: ToolRoute)
    ensures
        r@ == tool_route_of(name@, args_view(args@)),
{
    if text_eq(name, "jalwa_play") {
        ToolRoute::Play { path: arg_text_of(args, "path") }
    } else if text_eq(name, "jalwa_pause") {
        ToolRoute::Pause
    } else if text_eq(name, "jalwa_status") {
        ToolRoute::Status
    } else if text_eq(name, "jalwa_search") {
        ToolRoute::Search { query: arg_text_of(args, "query") }
    } else if text_eq(name, "jalwa_recommend") {
        ToolRoute::Recommend { item_id: arg_text_of(args, "item_id"), max: arg_unsigned_of(args, "max", 5) }
    } else if text_eq(name, "jalwa_queue") {
        route_queue(args)
    } else if text_eq(name, "jalwa_library") {
        route_library(args)
    } else if text_eq(name, "jalwa_playlist") {
        route_playlist(args)
    } else {
        ToolRoute::Answer(unknown_tool_reply(name))
    }
}

/// Each tool name routes to its own work, whatever the arguments: play,
/// pause, status, search and recommend take their named arguments; the
/// queue, library and playlist tools route by their `action` argument; a
/// scan without a path, an unknown action and an unknown tool are answered
/// with an error.
pub proof fn lemma_tool_routes(args: Seq<(Seq<char>, RpcArgView)>, name: Seq<char>)
    ensures
        tool_route_of("jalwa_play"@, args) == (ToolRouteView::Play { path: arg_text(args, "path"@) }),
        tool_route_of("jalwa_pause"@, args) == ToolRouteView::Pause,
        tool_route_of("jalwa_status"@, args) == ToolRouteView::Status,
        tool_route_of("jalwa_search"@, args) == (ToolRouteView::Search { query: arg_text(args, "query"@) }),
        tool_route_of("jalwa_recommend"@, args)
            == (ToolRouteView::Recommend { item_id: arg_text(args, "item_id"@), max: arg_unsigned(args, "max"@, 5) }),
        arg_text(args, "action"@) == "list"@ ==> tool_route_of("jalwa_queue"@, args) == ToolRouteView::QueueList,
        arg_text(args, "action"@) == "enqueue"@
            ==> tool_route_of("jalwa_queue"@, args) == (ToolRouteView::QueueEnqueue { item_id: arg_text(args, "item_id"@) }),
        arg_text(args, "action"@) == "clear"@ ==> tool_route_of("jalwa_queue"@, args) == ToolRouteView::QueueClear,
        arg_text(args, "action"@) == "shuffle"@ ==> tool_route_of("jalwa_queue"@, args) == ToolRouteView::QueueShuffle,
        arg_text(args, "action"@) == "stats"@ ==> tool_route_of("jalwa_library"@, args) == ToolRouteView::LibraryStats,
        arg_text(args, "action"@) == "scan"@ && arg_text(args, "path"@).len() > 0
            ==> tool_route_of("jalwa_library"@, args) == (ToolRouteView::LibraryScan { path: arg_text(args, "path"@) }),
        arg_text(args, "action"@) == "scan"@ && arg_text(args, "path"@).len() == 0
            ==> tool_route_of("jalwa_library"@, args) == ToolRouteView::Answer(err_reply("path required for scan"@)),
        arg_text(args, "action"@) == "list"@ ==> tool_route_of("jalwa_library"@, args) == ToolRouteView::LibraryList,
        arg_text(args, "action"@) == "list"@ ==> tool_route_of("jalwa_playlist"@, args) == ToolRouteView::PlaylistList,
        arg_text(args, "action"@) == "create"@
            ==> tool_route_of("jalwa_playlist"@, args) == (ToolRouteView::PlaylistCreate { name: arg_text(args, "name"@) }),
        arg_text(args, "action"@) == "add"@ ==> tool_route_of("jalwa_playlist"@, args)
            == (ToolRouteView::PlaylistAdd { name: arg_text(args, "name"@), item_id: arg_text(args, "item_id"@) }),
        arg_text(args, "action"@) == "remove"@ ==> tool_route_of("jalwa_playlist"@, args)
            == (ToolRouteView::PlaylistRemove { name: arg_text(args, "name"@), item_id: arg_text(args, "item_id"@) }),
        arg_text(args, "action"@) == "export"@ ==> tool_route_of("jalwa_playlist"@, args)
            == (ToolRouteView::PlaylistExport { name: arg_text(args, "name"@), output: arg_text(args, "output"@) }),
        name != "jalwa_play"@ && name != "jalwa_pause"@ && name != "jalwa_status"@ && name != "jalwa_search"@
            && name != "jalwa_recommend"@ && name != "jalwa_queue"@ && name != "jalwa_library"@
            && name != "jalwa_playlist"@ ==> tool_route_of(name, args) == ToolRouteView::Answer(err_reply("unknown tool: "@ + name)),
{
    reveal_strlit("jalwa_play");
    reveal_strlit("jalwa_pause");
    reveal_strlit("jalwa_status");
    reveal_strlit("jalwa_search");
    reveal_strlit("jalwa_recommend");
    reveal_strlit("jalwa_queue");
    reveal_strlit("jalwa_library");
    reveal_strlit("jalwa_playlist");
    reveal_strlit("list");
    reveal_strlit("enqueue");
    reveal_strlit("clear");
    reveal_strlit("shuffle");
    reveal_strlit("stats");
    reveal_strlit("scan");
    reveal_strlit("create");
    reveal_strlit("add");
    reveal_strlit("remove");
    reveal_strlit("export");
    assert("jalwa_pause"@.len() != "jalwa_play"@.len());
    assert("jalwa_status"@.len() != "jalwa_play"@.len());
    assert("jalwa_status"@.len() != "jalwa_pause"@.len());
    assert("jalwa_search"@.len() != "jalwa_play"@.len());
    assert("jalwa_search"@.len() != "jalwa_pause"@.len());
    assert("jalwa_search"@[7] != "jalwa_status"@[7]);
    assert("jalwa_recommend"@.len() != "jalwa_play"@.len());
    assert("jalwa_recommend"@.len() != "jalwa_pause"@.len());
    assert("jalwa_recommend"@.len() != "jalwa_status"@.len());
    assert("jalwa_recommend"@.len() != "jalwa_search"@.len());
    assert("jalwa_queue"@.len() != "jalwa_play"@.len());
    assert("jalwa_queue"@[6] != "jalwa_pause"@[6]);
    assert("jalwa_queue"@.len() != "jalwa_status"@.len());
    assert("jalwa_queue"@.len() != "jalwa_search"@.len());
    assert("jalwa_queue"@.len() != "jalwa_recommend"@.len());
    assert("jalwa_library"@.len() != "jalwa_play"@.len());
    assert("jalwa_library"@.len() != "jalwa_pause"@.len());
    assert("jalwa_library"@.len() != "jalwa_status"@.len());
    assert("jalwa_library"@.len() != "jalwa_search"@.len());
    assert("jalwa_library"@.len() != "jalwa_recommend"@.len());
    assert("jalwa_library"@.len() != "jalwa_queue"@.len());
    assert("jalwa_playlist"@.len() != "jalwa_play"@.len());
    assert("jalwa_playlist"@.len() != "jalwa_pause"@.len());
    assert("jalwa_playlist"@.len() != "jalwa_status"@.len());
    assert("jalwa_playlist"@.len() != "jalwa_search"@.len());
    assert("jalwa_playlist"@.len() != "jalwa_recommend"@.len());
    assert("jalwa_playlist"@.len() != "jalwa_queue"@.len());
    assert("jalwa_playlist"@.len() != "jalwa_library"@.len());
    assert("enqueue"@.len() != "list"@.len());
    assert("clear"@.len() != "list"@.len());
    assert("clear"@.len() != "enqueue"@.len());
    assert("shuffle"@.len() != "list"@.len());
    assert("shuffle"@[0] != "enqueue"@[0]);
    assert("shuffle"@.len() != "clear"@.len());
    assert("scan"@.len() != "stats"@.len());
    assert("list"@.len() != "stats"@.len());
    assert("list"@[0] != "scan"@[0]);
    assert("create"@.len() != "list"@.len());
    assert("add"@.len() != "list"@.len());
    assert("add"@.len() != "create"@.len());
    assert("remove"@.len() != "list"@.len());
    assert("remove"@[0] != "create"@[0]);
    assert("remove"@.len() != "add"@.len());
    assert("export"@.len() != "list"@.len());
    assert("export"@[0] != "create"@[0]);
    assert("export"@.len() != "add"@.len());
    assert("export"@[0] != "remove"@[0]);
}

/// A named argument reads as the value of the first entry with that name:
/// its text (or the number) when it is one, and otherwise (or without such
/// an entry) the empty text (the default number).
pub proof fn lemma_arg_lookup(args: Seq<(Seq<char>, RpcArgView)>, key: Seq<char>, dflt: u64)
    ensures
        forall|i: int| 0 <= i < args.len() && (#[trigger] args[i]).0 == key
            && (forall|j: int| 0 <= j < i ==> args[j].0 != key) ==> {
            &&& arg_text(args, key) == match args[i].1 { RpcArgView::Text(t) => t, _ => Seq::<char>::empty() }
            &&& arg_unsigned(args, key, dflt) == match args[i].1 { RpcArgView::Unsigned(u) => u, _ => dflt }
        },
        (forall|j: int| 0 <= j < args.len() ==> args[j].0 != key)
            ==> arg_text(args, key) == Seq::<char>::empty() && arg_unsigned(args, key, dflt) == dflt,
{
    let p = named(args, key);
    assert forall|i: int| 0 <= i < args.len() && (#[trigger] args[i]).0 == key
        && (forall|j: int| 0 <= j < i ==> args[j].0 != key) implies arg_index(args, key) == Some(i) by {
        assert(is_first(p, args.len() as int, i));
        lemma_first_is(p, args.len() as int, i);
    }
    if forall|j: int| 0 <= j < args.len() ==> args[j].0 != key {
        assert forall|j: int| 0 <= j < args.len() implies !#[trigger] p(j) by {}
        lemma_first_none(p, args.len() as int);
    }
}


/// A request's method decides what it asks for: "initialize",
/// "tools/list", "tools/call" (of the named tool, with the request's
/// arguments), and any other method (or none) is unknown, answered with
/// "unknown method: " and the method.
pub proof fn lemma_rpc_methods(r: RpcRequestView)
    ensures
        r.method == Some("initialize"@) ==> rpc_action_of(r) == RpcActionView::Initialize,
        r.method == Some("tools/list"@) ==> rpc_action_of(r) == RpcActionView::ListTools,
        r.method == Some("tools/call"@) && r.tool is Some
            ==> rpc_action_of(r) == (RpcActionView::CallTool { name: r.tool->0, args: r.args }),
        r.method == Some("tools/call"@) && r.tool is None
            ==> rpc_action_of(r) == (RpcActionView::CallTool { name: Seq::empty(), args: r.args }),
        r.method is Some && r.method->0 != "initialize"@ && r.method->0 != "tools/list"@ && r.method->0 != "tools/call"@
            ==> rpc_action_of(r) == (RpcActionView::Unknown { error: "unknown method: "@ + r.method->0 }),
        r.method is None ==> rpc_action_of(r) == (RpcActionView::Unknown { error: "unknown method: "@ }),
{
    reveal_strlit("initialize");
    reveal_strlit("tools/list");
    reveal_strlit("tools/call");
    assert("tools/list"@[0] != "initialize"@[0]);
    assert("tools/call"@[0] != "initialize"@[0]);
    assert("tools/call"@[6] != "tools/list"@[6]);
    if r.method is None {
        assert("unknown method: "@ + Seq::<char>::empty() =~= "unknown method: "@);
        reveal_strlit("unknown method: ");
        assert(Seq::<char>::empty().len() != "initialize"@.len());
        assert(Seq::<char>::empty().len() != "tools/list"@.len());
        assert(Seq::<char>::empty().len() != "tools/call"@.len());
    }
}

} // verus!
