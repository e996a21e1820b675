//! Texts and settings for the agent runtime and the language-model
//! service: the library metadata sent for retrieval, the library context
//! given to the model, and the reading of the model's recommendation.
//!
//! The HTTP calls run outside the library.

use vstd::prelude::*;
use crate::library::Library;
use crate::media::{MediaItem, MediaItemView, MediaType};
use crate::text::{copy_string, decimal, decimal2, push_decimal, push_decimal2, push_str, spec_trim, trim};

verus! {

/// Where the agent runtime is reached.
#[derive(Debug)]
pub struct DaimonConfig {
    pub endpoint: String,
    pub api_key: Option<String>,
}

/// Where the language-model service is reached, and which model it runs.
#[derive(Debug)]
pub struct HooshConfig {
    pub endpoint: String,
    pub api_key: Option<String>,
    pub model: String,
}

impl DaimonConfig {
    /// The configuration from optional overrides (the environment's
    /// `DAIMON_URL` and `DAIMON_API_KEY`): the endpoint defaults to
    /// `http://localhost:8090`.
    pub fn from_overrides(url: Option<String>, api_key: Option<String>) -> (c: DaimonConfig)
        ensures
            c.endpoint@ == match url {
                Some(u) => u@,
                None => "http://localhost:8090"@,
            },
            c.api_key == api_key,
    {
        let endpoint = match url {
            Some(u) => u,
            None => String::from_str("http://localhost:8090"),
        };
        DaimonConfig { endpoint, api_key }
    }
}

impl Default for DaimonConfig {
    /// The configuration without overrides.
    fn default() -> (c: DaimonConfig)
        ensures
            c.endpoint@ == "http://localhost:8090"@,
            c.api_key is None,
    {
        DaimonConfig::from_overrides(None, None)
    }
}

impl HooshConfig {
    /// The configuration from optional overrides (the environment's
    /// `HOOSH_URL`, `HOOSH_API_KEY` and `HOOSH_MODEL`): the endpoint defaults
    /// to `http://localhost:8088` and the model to `llama3`.
    pub fn from_overrides(url: Option<String>, api_key: Option<String>, model: Option<String>) -> (c: HooshConfig)
        ensures
            c.endpoint@ == match url {
                Some(u) => u@,
                None => "http://localhost:8088"@,
            },
            c.api_key == api_key,
            c.model@ == match model {
                Some(m) => m@,
                None => "llama3"@,
            },
    {
        let endpoint = match url {
            Some(u) => u,
            None => String::from_str("http://localhost:8088"),
        };
        let model = match model {
            Some(m) => m,
            None => String::from_str("llama3"),
        };
        HooshConfig { endpoint, api_key, model }
    }
}

impl Default for HooshConfig {
    /// The configuration without overrides.
    fn default() -> (c: HooshConfig)
        ensures
            c.endpoint@ == "http://localhost:8088"@,
            c.api_key is None,
            c.model@ == "llama3"@,
    {
        HooshConfig::from_overrides(None, None, None)
    }
}

/// The parts joined, with `sep` between neighbours.
pub open spec fn join_with(parts: Seq<Seq<char>>, sep: Seq<char>) -> Seq<char>
    decreases parts.len(),
{
    if parts.len() == 0 {
        Seq::empty()
    } else if parts.len() == 1 {
        parts[0]
    } else {
        join_with(parts.drop_last(), sep) + sep + parts.last()
    }
}

/// Joins texts with a separator (`[String]::join`).
pub fn join_strings(parts: &Vec<String>, sep: &str) -> (res: String)
    ensures
        res@ == join_with(parts.deep_view(), sep@),
{
    let ghost ps = parts.deep_view();
    let mut out = String::new();
    let mut i: usize = 0;
    while i < parts.len()
        invariant
            i <= parts.len(),
            ps == parts.deep_view(),
            ps.len() == parts.len(),
            out@ == join_with(ps.take(i as int), sep@),
        decreases parts.len() - i,
    {
        assert(ps.take(i + 1).drop_last() =~= ps.take(i as int));
        assert(ps.take(i + 1).last() == parts@[i as int]@);
        if i > 0 {
            push_str(&mut out, sep);
        } else {
            assert(ps.take(1) =~= seq![ps[0]]);
            assert(out@ =~= Seq::<char>::empty());
        }
        push_str(&mut out, parts[i].as_str());
        i = i + 1;
        proof {
            if i == 1 {
                assert(out@ =~= join_with(ps.take(1), sep@));
            }
        }
    }
    assert(ps.take(i as int) =~= ps);
    out
}

/// The type's name as `{:?}` prints it.
pub open spec fn debug_name(t: MediaType) -> Seq<char> {
    match t {
        MediaType::Audio => "Audio"@,
        MediaType::Video => "Video"@,
    }
}

/// A duration in milliseconds as minutes and two-digit seconds.
pub open spec fn minutes_text(ms: u64) -> Seq<char> {
    decimal(((ms / 1000) / 60) as nat) + ":"@ + decimal2(((ms / 1000) % 60) as nat)
}

/// The lines describing an item for retrieval: title, path, format and
/// type always; artist, album, duration, codec, tags, play count and rating
/// where there are.
pub open spec fn rag_lines(item: MediaItemView) -> Seq<Seq<char>> {
    let p0 = seq![
        "Title: "@ + item.title,
        "Path: "@ + item.path,
        "Format: "@ + item.format.spec_display(),
        "Type: "@ + debug_name(item.media_type),
    ];
    let p1 = match item.artist {
        Some(a) => p0.push("Artist: "@ + a),
        None => p0,
    };
    let p2 = match item.album {
        Some(a) => p1.push("Album: "@ + a),
        None => p1,
    };
    let p3 = match item.duration_ms {
        Some(d) => p2.push("Duration: "@ + minutes_text(d)),
        None => p2,
    };
    let p4 = match item.audio_codec {
        Some(c) => p3.push("Codec: "@ + c.spec_display()),
        None => p3,
    };
    let p5 = if item.tags.len() > 0 { p4.push("Tags: "@ + join_with(item.tags, ", "@)) } else { p4 };
    let p6 = if item.play_count > 0 { p5.push("Play count: "@ + decimal(item.play_count as nat)) } else { p5 };
    match item.rating {
        Some(r) => p6.push("Rating: "@ + decimal(r as nat) + "/5"@),
        None => p6,
    }
}

/// Appends a line made of a label and a value.
fn push_line(lines: &mut Vec<String>, label: &str, value: &str)
    ensures
        final(lines).deep_view() == old(lines).deep_view().push(label@ + value@),
{
    let mut s = String::from_str(label);
    push_str(&mut s, value);
    let ghost before = lines.deep_view();
    lines.push(s);
    assert(lines.deep_view() =~= before.push(label@ + value@));
}

/// Describes a media item for retrieval ingestion, one field per line.
pub fn format_item_for_rag(item: &MediaItem) -> (res: String)
    ensures
        res@ == join_with(rag_lines(item@), "\n"@),
{
    let mut lines: Vec<String> = Vec::new();
    push_line(&mut lines, "Title: ", item.title.as_str());
    push_line(&mut lines, "Path: ", item.path.as_str());
    let f = item.format.to_string();
    push_line(&mut lines, "Format: ", f.as_str());
    let t = match item.media_type {
        MediaType::Audio => "Audio",
        MediaType::Video => "Video",
    };
    push_line(&mut lines, "Type: ", t);
    let ghost iv = item@;
    let ghost p0 = seq![
        "Title: "@ + iv.title,
        "Path: "@ + iv.path,
        "Format: "@ + iv.format.spec_display(),
        "Type: "@ + debug_name(iv.media_type),
    ];
    assert(lines.deep_view() =~= p0);
    match &item.artist {
        Some(a) => push_line(&mut lines, "Artist: ", a.as_str()),
        None => {},
    }
    let ghost p1 = match iv.artist {
        Some(a) => p0.push("Artist: "@ + a),
        None => p0,
    };
    assert(lines.deep_view() == p1);
    match &item.album {
        Some(a) => push_line(&mut lines, "Album: ", a.as_str()),
        None => {},
    }
    let ghost p2 = match iv.album {
        Some(a) => p1.push("Album: "@ + a),
        None => p1,
    };
    assert(lines.deep_view() == p2);
    match item.duration_ms {
        Some(d) => {
            let secs = d / 1000;
            let mut v = String::new();
            push_decimal(&mut v, secs / 60);
            push_str(&mut v, ":");
            push_decimal2(&mut v, secs % 60);
            assert(v@ == minutes_text(d));
            push_line(&mut lines, "Duration: ", v.as_str());
        },
        None => {},
    }
    let ghost p3 = match iv.duration_ms {
        Some(d) => p2.push("Duration: "@ + minutes_text(d)),
        None => p2,
    };
    assert(lines.deep_view() == p3);
    match &item.audio_codec {
        Some(c) => {
            let name = c.to_string();
            push_line(&mut lines, "Codec: ", name.as_str());
        },
        None => {},
    }
    let ghost p4 = match iv.audio_codec {
        Some(c) => p3.push("Codec: "@ + c.spec_display()),
        None => p3,
    };
    assert(lines.deep_view() == p4);
    if item.tags.len() > 0 {
        let joined = join_strings(&item.tags, ", ");
        push_line(&mut lines, "Tags: ", joined.as_str());
    }
    let ghost p5 = if iv.tags.len() > 0 { p4.push("Tags: "@ + join_with(iv.tags, ", "@)) } else { p4 };
    assert(lines.deep_view() == p5);
    if item.play_count > 0 {
        let mut v = String::new();
        push_decimal(&mut v, item.play_count as u64);
        push_line(&mut lines, "Play count: ", v.as_str());
    }
    let ghost p6 = if iv.play_count > 0 { p5.push("Play count: "@ + decimal(iv.play_count as nat)) } else { p5 };
    assert(lines.deep_view() == p6);
    match item.rating {
        Some(r) => {
            let mut v = String::new();
            push_decimal(&mut v, r as u64);
            push_str(&mut v, "/5");
            assert(v@ =~= decimal(r as nat) + "/5"@);
            assert(("Rating: "@ + v@) =~= "Rating: "@ + decimal(r as nat) + "/5"@);
            let ghost before = lines.deep_view();
            push_line(&mut lines, "Rating: ", v.as_str());
            assert(lines.deep_view() =~= before.push("Rating: "@ + decimal(r as nat) + "/5"@));
        },
        None => {},
    }
    proof {
        assert(lines.deep_view() =~= rag_lines(item@));
    }
    join_strings(&lines, "\n")
}

/// One line of the library context: "- title — artist (m:ss)" and the
/// tags in brackets, with "Unknown" and "?" for a missing artist or
/// duration.
pub open spec fn context_line(item: MediaItemView) -> Seq<char> {
    let artist = match item.artist {
        Some(a) => a,
        None => "Unknown"@,
    };
    let dur = match item.duration_ms {
        Some(d) => minutes_text(d),
        None => "?"@,
    };
    let tags = if item.tags.len() == 0 { Seq::empty() } else { " ["@ + join_with(item.tags, ", "@) + "]"@ };
    "- "@ + item.title + " — "@ + artist + " ("@ + dur + ")"@ + tags
}

/// The library context lines: one per item, for at most the first
/// hundred items.
pub open spec fn context_lines(items: Seq<MediaItemView>) -> Seq<Seq<char>> {
    let n = if items.len() <= 100 { items.len() as int } else { 100 };
    Seq::new(n as nat, |i: int| context_line(items[i]))
}

/// A compact description of the library for a language-model prompt,
/// one line per item, capped at a hundred items.
pub fn build_library_context(library: &Library) -> (res: String)
    ensures
        res@ == join_with(context_lines(library@.items), "\n"@),
{
    let ghost items = library@.items;
    let n: usize = if library.items.len() <= 100 { library.items.len() } else { 100 };
    let mut lines: Vec<String> = Vec::new();
    let mut i: usize = 0;
    while i < n
        invariant
            i <= n,
            n <= library.items.len(),
            n == (if items.len() <= 100 { items.len() as int } else { 100 }),
            items == library@.items,
            lines.deep_view() == context_lines(items).take(i as int),
        decreases n - i,
    {
        let item = &library.items[i];
        assert(items[i as int] == item@);
        let mut s = String::from_str("- ");
        push_str(&mut s, item.title.as_str());
        push_str(&mut s, " — ");
        match &item.artist {
            Some(a) => push_str(&mut s, a.as_str()),
            None => push_str(&mut s, "Unknown"),
        }
        push_str(&mut s, " (");
        match item.duration_ms {
            Some(d) => {
                let secs = d / 1000;
                push_decimal(&mut s, secs / 60);
                push_str(&mut s, ":");
                push_decimal2(&mut s, secs % 60);
            },
            None => push_str(&mut s, "?"),
        }
        push_str(&mut s, ")");
        if item.tags.len() > 0 {
            push_str(&mut s, " [");
            let joined = join_strings(&item.tags, ", ");
            push_str(&mut s, joined.as_str());
            push_str(&mut s, "]");
        }
        assert(s@ =~= context_line(item@));
        let ghost before = lines.deep_view();
        let ghost line = s@;
        lines.push(s);
        proof {
            assert(lines.deep_view() =~= before.push(line));
            assert(context_lines(items)[i as int] == context_line(items[i as int]));
            assert(context_lines(items).take(i + 1) =~= context_lines(items).take(i as int).push(line));
        }
        i = i + 1;
    }
    assert(context_lines(items).take(i as int) =~= context_lines(items));
    join_strings(&lines, "\n")
}


/// A single suggestion of the language model.
#[derive(Debug)]
pub struct LlmSuggestion {
    pub title: String,
    pub artist: Option<String>,
    pub reason: String,
}

/// The language model's recommendation.
#[derive(Debug)]
pub struct LlmRecommendation {
    pub suggestions: Vec<LlmSuggestion>,
    pub mood: Option<String>,
}

/// The abstract value of an [`LlmSuggestion`].
pub struct LlmSuggestionView {
    pub title: Seq<char>,
    pub artist: Option<Seq<char>>,
    pub reason: Seq<char>,
}

/// The abstract value of an [`LlmRecommendation`].
pub struct LlmRecommendationView {
    pub suggestions: Seq<LlmSuggestionView>,
    pub mood: Option<Seq<char>>,
}

impl View for LlmSuggestion {
    type V = LlmSuggestionView;

    open spec fn view(&self) -> LlmSuggestionView {
        LlmSuggestionView { title: self.title@, artist: crate::text::opt_seq(self.artist), reason: self.reason@ }
    }
}

impl View for LlmRecommendation {
    type V = LlmRecommendationView;

    open spec fn view(&self) -> LlmRecommendationView {
        LlmRecommendationView {
            suggestions: self.suggestions@.map_values(|x: LlmSuggestion| x@),
            mood: crate::text::opt_seq(self.mood),
        }
    }
}

/// Index of the first `c` in `s`.
pub open spec fn first_index(s: Seq<char>, c: char) -> Option<int>
    decreases s.len(),
{
    if s.len() == 0 {
        None
    } else if s[0] == c {
        Some(0)
    } else {
        match first_index(s.drop_first(), c) {
            Some(i) => Some(i + 1),
            None => None,
        }
    }
}

/// Index of the last `c` in `s`.
pub open spec fn last_index(s: Seq<char>, c: char) -> Option<int>
    decreases s.len(),
{
    if s.len() == 0 {
        None
    } else if s.last() == c {
        Some(s.len() - 1)
    } else {
        last_index(s.drop_last(), c)
    }
}

/// `first_index` finds the first occurrence, or there is none.
pub proof fn lemma_first_index(s: Seq<char>, c: char)
    ensures
        match first_index(s, c) {
            Some(i) => 0 <= i < s.len() && s[i] == c && forall|j: int| 0 <= j < i ==> #[trigger] s[j] != c,
            None => forall|j: int| 0 <= j < s.len() ==> #[trigger] s[j] != c,
        },
    decreases s.len(),
{
    if s.len() > 0 && s[0] != c {
        let d = s.drop_first();
        lemma_first_index(d, c);
        assert forall|j: int| 1 <= j < s.len() implies #[trigger] s[j] == d[j - 1] by {}
    }
}

/// `last_index` finds the last occurrence, or there is none.
pub proof fn lemma_last_index(s: Seq<char>, c: char)
    ensures
        match last_index(s, c) {
            Some(i) => 0 <= i < s.len() && s[i] == c && forall|j: int| i < j < s.len() ==> #[trigger] s[j] != c,
            None => forall|j: int| 0 <= j < s.len() ==> #[trigger] s[j] != c,
        },
    decreases s.len(),
{
    if s.len() > 0 && s.last() != c {
        let d = s.drop_last();
        lemma_last_index(d, c);
        assert forall|j: int| 0 <= j < d.len() implies #[trigger] s[j] == d[j] by {}
    }
}

/// Slicing from the first '{' to the last '}' fails when the last '}'
/// comes more than one character before the first '{'.
pub open spec fn block_slice_fails(s: Seq<char>) -> bool {
    match (first_index(s, '{'), last_index(s, '}')) {
        (Some(a), Some(b)) => b + 1 < a,
        _ => false,
    }
}

/// The text from the first '{' to the last '}', both included, when both
/// occur.
pub open spec fn json_block(s: Seq<char>) -> Option<Seq<char>> {
    match (first_index(s, '{'), last_index(s, '}')) {
        (Some(a), Some(b)) => Some(s.subrange(a, b + 1)),
        _ => None,
    }
}

/// The part of a model's reply that may hold a JSON object: from its first
/// '{' to its last '}'.
pub fn llm_json_block(response: &str) -> (res: Option<String>)
    requires
        !block_slice_fails(response@),
    ensures
        crate::text::opt_seq(res) == json_block(response@),
{
    let cs = crate::text::char_vec(response);
    proof {
        lemma_first_index(response@, '{');
        lemma_last_index(response@, '}');
    }
    let mut a: usize = 0;
    while a < cs.len() && cs[a] != '{'
        invariant
            a <= cs.len(),
            cs@ == response@,
            forall|j: int| 0 <= j < a ==> #[trigger] cs@[j] != '{',
        decreases cs.len() - a,
    {
        a = a + 1;
    }
    if a == cs.len() {
        proof {
            match first_index(response@, '{') {
                Some(x) => { assert(cs@[x] != '{'); },
                None => {},
            }
        }
        return None;
    }
    let mut b: usize = cs.len();
    while b > 0 && cs[b - 1] != '}'
        invariant
            b <= cs.len(),
            cs@ == response@,
            forall|j: int| b <= j < cs.len() ==> #[trigger] cs@[j] != '}',
        decreases b,
    {
        b = b - 1;
    }
    proof {
        match first_index(response@, '{') {
            Some(x) => {
                if x < a { assert(cs@[x] != '{'); }
                if x > a { assert(response@[a as int] != '{'); }
            },
            None => { assert(response@[a as int] != '{'); },
        }
    }
    if b == 0 {
        proof {
            match last_index(response@, '}') {
                Some(y) => { assert(cs@[y] != '}'); },
                None => {},
            }
        }
        return None;
    }
    proof {
        let e = (b - 1) as int;
        match last_index(response@, '}') {
            Some(y) => {
                if y > e { assert(cs@[y] != '}'); }
                if y < e { assert(response@[e] != '}'); }
            },
            None => { assert(response@[e] != '}'); },
        }
    }
    let mut out: Vec<char> = Vec::new();
    let mut k: usize = a;
    while k < b
        invariant
            a <= k <= b || (b < a && k == a),
            b <= cs.len(),
            a < cs.len(),
            out@ == cs@.subrange(a as int, if k >= a { k as int } else { a as int }),
        decreases b - k,
    {
        out.push(cs[k]);
        k = k + 1;
        assert(out@ =~= cs@.subrange(a as int, k as int));
    }
    proof {
        if b < a {
            assert(b + 1 == a);
            assert(cs@.subrange(a as int, a as int) =~= Seq::<char>::empty());
        }
    }
    Some(crate::text::string_from_chars(out.as_slice()))
}

fn find_first_char(cs: &Vec<char>, c: char) -> (res: Option<usize>)
    ensures
        match res {
            Some(i) => first_index(cs@, c) == Some(i as int),
            None => first_index(cs@, c) is None,
        },
{
    proof {
        lemma_first_index(cs@, c);
    }
    let mut i: usize = 0;
    while i < cs.len()
        invariant
            i <= cs.len(),
            forall|j: int| 0 <= j < i ==> #[trigger] cs@[j] != c,
        decreases cs.len() - i,
    {
        if cs[i] == c {
            proof {
                lemma_first_index(cs@, c);
                match first_index(cs@, c) {
                    Some(x) => {
                        if x < i { assert(cs@[x] != c); }
                        if x > i { assert(cs@[i as int] != c); }
                    },
                    None => { assert(cs@[i as int] != c); },
                }
            }
            return Some(i);
        }
        i = i + 1;
    }
    proof {
        match first_index(cs@, c) {
            Some(x) => { assert(cs@[x] != c); },
            None => {},
        }
    }
    None
}

fn find_last_char(cs: &Vec<char>, c: char) -> (res: Option<usize>)
    ensures
        match res {
            Some(i) => last_index(cs@, c) == Some(i as int),
            None => last_index(cs@, c) is None,
        },
{
    proof {
        lemma_last_index(cs@, c);
    }
    let mut b: usize = cs.len();
    while b > 0
        invariant
            b <= cs.len(),
            forall|j: int| b <= j < cs.len() ==> #[trigger] cs@[j] != c,
        decreases b,
    {
        if cs[b - 1] == c {
            let e = b - 1;
            proof {
                lemma_last_index(cs@, c);
                match last_index(cs@, c) {
                    Some(y) => {
                        if y > e { assert(cs@[y] != c); }
                        if y < e { assert(cs@[e as int] != c); }
                    },
                    None => { assert(cs@[e as int] != c); },
                }
            }
            return Some(e);
        }
        b = b - 1;
    }
    proof {
        match last_index(cs@, c) {
            Some(y) => { assert(cs@[y] != c); },
            None => {},
        }
    }
    None
}

/// The JSON block of a reply, for every reply: from the first '{' to the
/// last '}', and none when either is missing or the last '}' comes more
/// than one character before the first '{' (where the slice cannot be
/// taken).
pub fn llm_block_or_none(response: &str) -> (res: Option<String>)
    ensures
        crate::text::opt_seq(res) == if block_slice_fails(response@) { None } else { json_block(response@) },
{
    let cs = crate::text::char_vec(response);
    match (find_first_char(&cs, '{'), find_last_char(&cs, '}')) {
        (Some(a), Some(b)) => {
            if b < a && a - b > 1 {
                None
            } else {
                llm_json_block(response)
            }
        },
        _ => llm_json_block(response),
    }
}

/// The recommendation made of a reply that is no JSON: the trimmed reply
/// as the one suggestion's title.
pub open spec fn fallback_recommendation(response: Seq<char>) -> LlmRecommendationView {
    LlmRecommendationView {
        suggestions: seq![LlmSuggestionView { title: spec_trim(response), artist: None, reason: "LLM response"@ }],
        mood: None,
    }
}

/// Reads the model's reply: the reply parsed whole as a recommendation
/// (`from_whole`), else the JSON block inside it parsed (`from_block`),
/// else the reply's text as a single suggestion.
pub fn parse_llm_recommendation(
    response: &str,
    from_whole: Option<LlmRecommendation>,
    from_block: Option<LlmRecommendation>,
) -> (res: LlmRecommendation)
    ensures
        res@ == match from_whole {
            Some(r) => r@,
            None => match from_block {
                Some(r) => r@,
                None => fallback_recommendation(response@),
            },
        },
{
    match from_whole {
        Some(r) => r,
        None => match from_block {
            Some(r) => r,
            None => {
                let mut suggestions: Vec<LlmSuggestion> = Vec::new();
                suggestions.push(LlmSuggestion {
                    title: trim(response),
                    artist: None,
                    reason: String::from_str("LLM response"),
                });
                let r = LlmRecommendation { suggestions, mood: None };
                assert(r@.suggestions =~= fallback_recommendation(response@).suggestions);
                r
            },
        },
    }
}

} // verus!
