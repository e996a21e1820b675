//! Identifiers, clock readings and the text encodings the library stores:
//! UUIDs (as `u128`), timestamps (milliseconds since the Unix epoch, UTC),
//! RFC 3339 dates and JSON lists of tags.

use vstd::prelude::*;

verus! {

/// Calls `uuid::Uuid::new_v4` and returns the identifier's 128-bit value.
/// The value is random: nothing is claimed about it.
#[verifier::external_body]
pub fn new_id() -> (id: u128) {
    uuid::Uuid::new_v4().as_u128()
}

/// Calls `chrono::Utc::now` and returns the time as milliseconds since the
/// Unix epoch. The value depends on the clock: nothing is claimed about it.
#[verifier::external_body]
pub fn now_millis() -> (ms: i64) {
    chrono::Utc::now().timestamp_millis()
}

/// What `uuid::Uuid::parse_str` accepts and returns for a text, as the
/// identifier's 128-bit value.
pub uninterp spec fn spec_uuid_parse(s: Seq<char>) -> Option<u128>;

/// The lower-case hexadecimal digit of a value below 16.
pub open spec fn hex_char(n: int) -> char {
    if n < 10 {
        (n + 48) as char
    } else {
        (n + 87) as char
    }
}

/// The last `n` hexadecimal digits of `v`, most significant first.
pub open spec fn hex_digits(v: nat, n: nat) -> Seq<char>
    decreases n,
{
    if n == 0 {
        Seq::empty()
    } else {
        hex_digits(v / 16, (n - 1) as nat).push(hex_char((v % 16) as int))
    }
}

/// The hyphenated lower-case text of an id: its 32 hexadecimal digits,
/// most significant first, in groups of 8, 4, 4, 4 and 12.
pub open spec fn spec_uuid_text(id: u128) -> Seq<char> {
    let d = hex_digits(id as nat, 32);
    d.subrange(0, 8) + seq!['-'] + d.subrange(8, 12) + seq!['-'] + d.subrange(12, 16) + seq!['-']
        + d.subrange(16, 20) + seq!['-'] + d.subrange(20, 32)
}

/// Calls `Uuid::from_u128(id).to_string()`, which writes the id in the
/// crate's hyphenated lower-case form. The contract also states that
/// `Uuid::parse_str` reads the same id back from that text.
#[verifier::external_body]
pub fn uuid_text(id: u128) -> (res: String)
    ensures
        res@ == spec_uuid_text(id),
        spec_uuid_parse(res@) == Some(id),
{
    uuid::Uuid::from_u128(id).to_string()
}

/// Calls `uuid::Uuid::parse_str`; `None` when the crate rejects the text.
#[verifier::external_body]
pub fn parse_uuid(s: &str) -> (res: Option<u128>)
    ensures
        res == spec_uuid_parse(s@),
{
    match uuid::Uuid::parse_str(s) {
        Ok(u) => Some(u.as_u128()),
        Err(_) => None,
    }
}

/// What `DateTime::<Utc>::from_timestamp_millis(ms)` followed by
/// `to_rfc3339` gives (`None` when chrono cannot represent the instant).
pub uninterp spec fn spec_rfc3339(ms: i64) -> Option<Seq<char>>;

/// What `DateTime::parse_from_rfc3339` followed by conversion to UTC and
/// `timestamp_millis` gives for a text (`None` when chrono rejects it).
pub uninterp spec fn spec_rfc3339_parse(s: Seq<char>) -> Option<i64>;

/// The first millisecond of the year 0000 (UTC).
pub open spec fn four_digit_years_start_ms() -> int {
    -62167219200000
}

/// The last millisecond of the year 9999 (UTC).
pub open spec fn four_digit_years_end_ms() -> int {
    253402300799999
}

/// Calls chrono to render an instant (milliseconds since the epoch) in RFC
/// 3339. The contract names the text and states that, for instants in the
/// years 0000 to 9999 (whose years RFC 3339 writes with four digits),
/// chrono's parser reads the same instant back from it; such instants are
/// always representable.
#[verifier::external_body]
pub fn millis_to_rfc3339(ms: i64) -> (res: Option<String>)
    ensures
        match res {
            Some(t) => spec_rfc3339(ms) == Some(t@)
                && (four_digit_years_start_ms() <= ms <= four_digit_years_end_ms() ==> spec_rfc3339_parse(t@) == Some(ms)),
            None => spec_rfc3339(ms) is None,
        },
        four_digit_years_start_ms() <= ms <= four_digit_years_end_ms() ==> res is Some,
{
    chrono::DateTime::<chrono::Utc>::from_timestamp_millis(ms).map(|d| d.to_rfc3339())
}

/// Calls `chrono::DateTime::parse_from_rfc3339` and converts the instant to
/// milliseconds since the epoch.
#[verifier::external_body]
pub fn parse_rfc3339_millis(s: &str) -> (res: Option<i64>)
    ensures
        res == spec_rfc3339_parse(s@),
{
    match chrono::DateTime::parse_from_rfc3339(s) {
        Ok(d) => Some(d.with_timezone(&chrono::Utc).timestamp_millis()),
        Err(_) => None,
    }
}

/// What `serde_json::to_string` gives for a list of strings.
pub uninterp spec fn spec_tags_json(tags: Seq<Seq<char>>) -> Seq<char>;

/// What `serde_json::from_str::<Vec<String>>` gives for a text (`None` when
/// the text is not a JSON array of strings).
pub uninterp spec fn spec_tags_parse(s: Seq<char>) -> Option<Seq<Seq<char>>>;

/// Calls `serde_json::to_string` on a list of strings. The crate fails
/// only where a `Serialize` impl chooses to or a map has keys that are not
/// strings; a list of strings has neither, so the call succeeds. The
/// contract names the text and states that `serde_json` reads the same list
/// back from it.
#[verifier::external_body]
fn serialize_tags(tags: &Vec<String>) -> (res: Result<String, String>)
    ensures
        match res {
            Ok(t) => t@ == spec_tags_json(tags.deep_view()) && spec_tags_parse(t@) == Some(tags.deep_view()),
            Err(_) => false,
        },
{
    serde_json::to_string(tags).map_err(|e| e.to_string())
}

/// The JSON list of a list of strings, which reads back as the same list.
pub fn tags_to_json(tags: &Vec<String>) -> (res: String)
    ensures
        res@ == spec_tags_json(tags.deep_view()),
        spec_tags_parse(res@) == Some(tags.deep_view()),
{
    match serialize_tags(tags) {
        Ok(t) => t,
        Err(e) => e,
    }
}

/// Calls `serde_json::from_str::<Vec<String>>`.
#[verifier::external_body]
pub fn tags_from_json(s: &str) -> (res: Option<Vec<String>>)
    ensures
        match res {
            Some(v) => spec_tags_parse(s@) == Some(v.deep_view()),
            None => spec_tags_parse(s@) is None,
        },
{
    serde_json::from_str::<Vec<String>>(s).ok()
}

} // verus!
