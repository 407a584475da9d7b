//! Trusted boundary to the JSON parser, and the verified record decoding
//! built on it. Every result the parser hands back is a function of the
//! document text alone, so each crossing is pinned by a named result: the
//! envelope's header fields, the canonical text of its payload, the element
//! texts of an array document, and the string or integer under one key of
//! an object document. Everything above these wrappers — which fields a
//! record requires, which default, and when a whole listing is rejected —
//! is verified code.

use vstd::prelude::*;

use crate::strutil::str_views;
use crate::types::{BrowseItem, MusicSource, NowPlayingMedia, Player, QueueItem};

verus! {

/// The header fields of an envelope document: the action name, the optional
/// result flag, and the message string (empty when absent), or nothing when
/// the text is no such document.
pub uninterp spec fn header_of(s: Seq<char>) -> Option<(Seq<char>, Option<Seq<char>>, Seq<char>)>;

/// The canonical text of the envelope's payload field, `null` when absent.
pub uninterp spec fn payload_text_of(s: Seq<char>) -> Seq<char>;

/// The canonical texts of the elements of a JSON array document, or nothing
/// when the text is no array document.
pub uninterp spec fn items_of(s: Seq<char>) -> Option<Seq<Seq<char>>>;

/// The string under one key of a JSON object document: the inner option is
/// the key's presence; the outer is nothing when the text is no object
/// document or the key holds no string.
pub uninterp spec fn str_at(s: Seq<char>, key: Seq<char>) -> Option<Option<Seq<char>>>;

/// The integer under one key of a JSON object document, read as a 64-bit
/// signed value; shaped like `str_at`.
pub uninterp spec fn int_at(s: Seq<char>, key: Seq<char>) -> Option<Option<int>>;

/// Relies on serde_json::from_str::<Value> and the Value accessors `get`
/// and `as_str`: decode one envelope document's header. The header needs an
/// object under `heos` with a string `command`; `result` may be absent or
/// null, `message` defaults to empty; a present non-string in any of them
/// rejects the document.
#[verifier::external_body]
pub fn decode_header(line: &str) -> (r: Option<(String, Option<String>, String)>)
    ensures
        match r {
            Some(h) => header_of(line@) == Some(
                (h.0@, crate::protocol::opt_str_view(h.1), h.2@),
            ),
            None => header_of(line@) is None,
        },
{
    let v: serde_json::Value = serde_json::from_str(line).ok()?;
    let h = v.get("heos")?;
    let command = h.get("command")?.as_str()?.to_string();
    let result = match h.get("result") {
        None | Some(serde_json::Value::Null) => None,
        Some(x) => Some(x.as_str()?.to_string()),
    };
    let message = match h.get("message") {
        None => String::new(),
        Some(x) => x.as_str()?.to_string(),
    };
    Some((command, result, message))
}

/// Relies on serde_json::from_str::<Value>, Value::get and Value::to_string:
/// the canonical text of the document's payload field, `null` when the field
/// is absent or the document does not parse.
#[verifier::external_body]
pub fn payload_text(line: &str) -> (r: String)
    ensures
        r@ == payload_text_of(line@),
{
    match serde_json::from_str::<serde_json::Value>(line) {
        Ok(v) => match v.get("payload") {
            Some(p) => p.to_string(),
            None => String::from("null"),
        },
        Err(_) => String::from("null"),
    }
}

/// Relies on serde_json::from_str::<Value>, Value::get and Value::to_string:
/// the canonical text of the document's options field, `null` when the field
/// is absent or the document does not parse. Nothing in the core reads the
/// options, so nothing is promised of this text.
#[verifier::external_body]
pub fn options_text(line: &str) -> (r: String) {
    match serde_json::from_str::<serde_json::Value>(line) {
        Ok(v) => match v.get("options") {
            Some(p) => p.to_string(),
            None => String::from("null"),
        },
        Err(_) => String::from("null"),
    }
}

/// Relies on serde_json::from_str::<Value>, Value::as_array and
/// Value::to_string: the elements of an array document, each as its
/// canonical text.
#[verifier::external_body]
pub fn json_items(s: &str) -> (r: Option<Vec<String>>)
    ensures
        match r {
            Some(ts) => items_of(s@) == Some(str_views(ts@)),
            None => items_of(s@) is None,
        },
{
    let v: serde_json::Value = serde_json::from_str(s).ok()?;
    let arr = v.as_array()?;
    let mut out: Vec<String> = Vec::new();
    for e in arr {
        out.push(e.to_string());
    }
    Some(out)
}

/// Relies on serde_json::from_str::<Value>, Value::is_object, Value::get
/// and Value::as_str: the string under one key of an object document.
#[verifier::external_body]
pub fn json_str_at(s: &str, key: &str) -> (r: Option<Option<String>>)
    ensures
        match r {
            Some(Some(t)) => str_at(s@, key@) == Some(Some(t@)),
            Some(None) => str_at(s@, key@) == Some(Option::<Seq<char>>::None),
            None => str_at(s@, key@) is None,
        },
{
    let v: serde_json::Value = serde_json::from_str(s).ok()?;
    if !v.is_object() {
        return None;
    }
    match v.get(key) {
        None => Some(None),
        Some(x) => Some(Some(x.as_str()?.to_string())),
    }
}

/// Relies on serde_json::from_str::<Value>, Value::is_object, Value::get
/// and Value::as_i64: the integer under one key of an object document.
#[verifier::external_body]
pub fn json_i64_at(s: &str, key: &str) -> (r: Option<Option<i64>>)
    ensures
        match r {
            Some(Some(x)) => int_at(s@, key@) == Some(Some(x as int)),
            Some(None) => int_at(s@, key@) == Some(Option::<int>::None),
            None => int_at(s@, key@) is None,
        },
{
    let v: serde_json::Value = serde_json::from_str(s).ok()?;
    if !v.is_object() {
        return None;
    }
    match v.get(key) {
        None => Some(None),
        Some(x) => Some(Some(x.as_i64()?)),
    }
}

// ---------------------------------------------------------------------------
// Field rules
// ---------------------------------------------------------------------------

/// A required string field decodes.
pub open spec fn req_str_ok(s: Seq<char>, key: Seq<char>) -> bool {
    match str_at(s, key) {
        Some(Some(_)) => true,
        _ => false,
    }
}

/// The value of a required string field.
pub open spec fn req_str_val(s: Seq<char>, key: Seq<char>) -> Seq<char> {
    match str_at(s, key) {
        Some(Some(t)) => t,
        _ => Seq::<char>::empty(),
    }
}

/// An optional string field decodes: absent is fine, a present non-string
/// is not.
pub open spec fn opt_str_ok(s: Seq<char>, key: Seq<char>) -> bool {
    str_at(s, key) is Some
}

/// The value of an optional string field, empty when absent.
pub open spec fn opt_str_val(s: Seq<char>, key: Seq<char>) -> Seq<char> {
    match str_at(s, key) {
        Some(Some(t)) => t,
        _ => Seq::<char>::empty(),
    }
}

/// A required integer field decodes.
pub open spec fn req_int_ok(s: Seq<char>, key: Seq<char>) -> bool {
    match int_at(s, key) {
        Some(Some(_)) => true,
        _ => false,
    }
}

/// The value of a required integer field.
pub open spec fn req_int_val(s: Seq<char>, key: Seq<char>) -> int {
    match int_at(s, key) {
        Some(Some(x)) => x,
        _ => 0,
    }
}

/// An optional integer field decodes.
pub open spec fn opt_int_ok(s: Seq<char>, key: Seq<char>) -> bool {
    int_at(s, key) is Some
}

/// The value of an optional integer field, zero when absent.
pub open spec fn opt_int_val(s: Seq<char>, key: Seq<char>) -> int {
    match int_at(s, key) {
        Some(Some(x)) => x,
        _ => 0,
    }
}

// ---------------------------------------------------------------------------
// Record rules
// ---------------------------------------------------------------------------

/// An element text decodes as a roster entry: identity fields required, the
/// rest defaulting, the line-out flag within its 32-bit range.
pub open spec fn player_text_ok(t: Seq<char>) -> bool {
    &&& req_int_ok(t, "pid"@)
    &&& req_str_ok(t, "name"@)
    &&& req_str_ok(t, "model"@)
    &&& opt_str_ok(t, "version"@)
    &&& opt_str_ok(t, "ip"@)
    &&& opt_str_ok(t, "network"@)
    &&& opt_int_ok(t, "lineout"@)
    &&& i32::MIN <= opt_int_val(t, "lineout"@) <= i32::MAX
    &&& opt_str_ok(t, "serial"@)
}

/// The roster entry an element text decodes to.
pub open spec fn player_matches_text(t: Seq<char>, p: Player) -> bool {
    &&& p.pid as int == req_int_val(t, "pid"@)
    &&& p.name@ == req_str_val(t, "name"@)
    &&& p.model@ == req_str_val(t, "model"@)
    &&& p.version@ == opt_str_val(t, "version"@)
    &&& p.ip@ == opt_str_val(t, "ip"@)
    &&& p.network@ == opt_str_val(t, "network"@)
    &&& p.lineout as int == opt_int_val(t, "lineout"@)
    &&& p.serial@ == opt_str_val(t, "serial"@)
}

/// An element text decodes as a queue entry.
pub open spec fn queue_item_text_ok(t: Seq<char>) -> bool {
    &&& req_int_ok(t, "qid"@)
    &&& req_str_ok(t, "song"@)
    &&& opt_str_ok(t, "album"@)
    &&& opt_str_ok(t, "artist"@)
    &&& opt_str_ok(t, "image_url"@)
    &&& opt_str_ok(t, "mid"@)
}

/// The queue entry an element text decodes to.
pub open spec fn queue_item_matches_text(t: Seq<char>, q: QueueItem) -> bool {
    &&& q.qid as int == req_int_val(t, "qid"@)
    &&& q.song@ == req_str_val(t, "song"@)
    &&& q.album@ == opt_str_val(t, "album"@)
    &&& q.artist@ == opt_str_val(t, "artist"@)
    &&& q.image_url@ == opt_str_val(t, "image_url"@)
    &&& q.mid@ == opt_str_val(t, "mid"@)
}

/// An element text decodes as a music source.
pub open spec fn source_text_ok(t: Seq<char>) -> bool {
    &&& req_int_ok(t, "sid"@)
    &&& req_str_ok(t, "name"@)
    &&& req_str_ok(t, "type"@)
    &&& opt_str_ok(t, "image_url"@)
    &&& opt_str_ok(t, "available"@)
    &&& opt_str_ok(t, "service_username"@)
}

/// The music source an element text decodes to.
pub open spec fn source_matches_text(t: Seq<char>, s: MusicSource) -> bool {
    &&& s.sid as int == req_int_val(t, "sid"@)
    &&& s.name@ == req_str_val(t, "name"@)
    &&& s.source_type@ == req_str_val(t, "type"@)
    &&& s.image_url@ == opt_str_val(t, "image_url"@)
    &&& s.available@ == opt_str_val(t, "available"@)
    &&& s.service_username@ == opt_str_val(t, "service_username"@)
}

/// An element text decodes as a browse entry.
pub open spec fn browse_item_text_ok(t: Seq<char>) -> bool {
    &&& opt_str_ok(t, "container"@)
    &&& opt_str_ok(t, "cid"@)
    &&& opt_str_ok(t, "mid"@)
    &&& req_str_ok(t, "name"@)
    &&& opt_str_ok(t, "type"@)
    &&& opt_str_ok(t, "image_url"@)
    &&& opt_str_ok(t, "playable"@)
}

/// The browse entry an element text decodes to.
pub open spec fn browse_item_matches_text(t: Seq<char>, b: BrowseItem) -> bool {
    &&& b.container@ == opt_str_val(t, "container"@)
    &&& b.cid@ == opt_str_val(t, "cid"@)
    &&& b.mid@ == opt_str_val(t, "mid"@)
    &&& b.name@ == req_str_val(t, "name"@)
    &&& b.item_type@ == opt_str_val(t, "type"@)
    &&& b.image_url@ == opt_str_val(t, "image_url"@)
    &&& b.playable@ == opt_str_val(t, "playable"@)
}

/// A payload text decodes as a now-playing record: an object document with
/// every field defaulting.
pub open spec fn now_playing_text_ok(t: Seq<char>) -> bool {
    &&& opt_str_ok(t, "song"@)
    &&& opt_str_ok(t, "album"@)
    &&& opt_str_ok(t, "artist"@)
    &&& opt_str_ok(t, "image_url"@)
    &&& opt_str_ok(t, "mid"@)
    &&& opt_int_ok(t, "qid"@)
    &&& opt_int_ok(t, "sid"@)
    &&& opt_str_ok(t, "station"@)
    &&& opt_str_ok(t, "type"@)
}

/// The now-playing record a payload text decodes to.
pub open spec fn now_playing_matches_text(t: Seq<char>, m: NowPlayingMedia) -> bool {
    &&& m.song@ == opt_str_val(t, "song"@)
    &&& m.album@ == opt_str_val(t, "album"@)
    &&& m.artist@ == opt_str_val(t, "artist"@)
    &&& m.image_url@ == opt_str_val(t, "image_url"@)
    &&& m.mid@ == opt_str_val(t, "mid"@)
    &&& m.qid as int == opt_int_val(t, "qid"@)
    &&& m.sid as int == opt_int_val(t, "sid"@)
    &&& m.station@ == opt_str_val(t, "station"@)
    &&& m.media_type@ == opt_str_val(t, "type"@)
}

// ---------------------------------------------------------------------------
// Listing rules
// ---------------------------------------------------------------------------

/// Every element text of a listing decodes as a roster entry.
pub open spec fn all_players_ok(ts: Seq<Seq<char>>) -> bool {
    forall|i: int| 0 <= i < ts.len() ==> player_text_ok(#[trigger] ts[i])
}

/// The decoded roster of a listing, element by element.
pub open spec fn players_match(ts: Seq<Seq<char>>, ps: Seq<Player>) -> bool {
    ps.len() == ts.len() && (forall|i: int|
        0 <= i < ts.len() ==> player_matches_text(ts[i], #[trigger] ps[i]))
}

/// Every element text of a listing decodes as a queue entry.
pub open spec fn all_queue_items_ok(ts: Seq<Seq<char>>) -> bool {
    forall|i: int| 0 <= i < ts.len() ==> queue_item_text_ok(#[trigger] ts[i])
}

/// The decoded queue of a listing, element by element.
pub open spec fn queue_items_match(ts: Seq<Seq<char>>, qs: Seq<QueueItem>) -> bool {
    qs.len() == ts.len() && (forall|i: int|
        0 <= i < ts.len() ==> queue_item_matches_text(ts[i], #[trigger] qs[i]))
}

/// Every element text of a listing decodes as a music source.
pub open spec fn all_sources_ok(ts: Seq<Seq<char>>) -> bool {
    forall|i: int| 0 <= i < ts.len() ==> source_text_ok(#[trigger] ts[i])
}

/// The decoded source list of a listing, element by element.
pub open spec fn sources_match(ts: Seq<Seq<char>>, ss: Seq<MusicSource>) -> bool {
    ss.len() == ts.len() && (forall|i: int|
        0 <= i < ts.len() ==> source_matches_text(ts[i], #[trigger] ss[i]))
}

/// Every element text of a listing decodes as a browse entry.
pub open spec fn all_browse_items_ok(ts: Seq<Seq<char>>) -> bool {
    forall|i: int| 0 <= i < ts.len() ==> browse_item_text_ok(#[trigger] ts[i])
}

/// The decoded browse listing, element by element.
pub open spec fn browse_items_match(ts: Seq<Seq<char>>, bs: Seq<BrowseItem>) -> bool {
    bs.len() == ts.len() && (forall|i: int|
        0 <= i < ts.len() ==> browse_item_matches_text(ts[i], #[trigger] bs[i]))
}

// ---------------------------------------------------------------------------
// Verified field readers
// ---------------------------------------------------------------------------

fn read_req_str(t: &str, key: &str) -> (r: Option<String>)
    ensures
        match r {
            Some(v) => req_str_ok(t@, key@) && v@ == req_str_val(t@, key@),
            None => !req_str_ok(t@, key@),
        },
{
    match json_str_at(t, key) {
        Some(Some(v)) => Some(v),
        _ => None,
    }
}

fn read_opt_str(t: &str, key: &str) -> (r: Option<String>)
    ensures
        match r {
            Some(v) => opt_str_ok(t@, key@) && v@ == opt_str_val(t@, key@),
            None => !opt_str_ok(t@, key@),
        },
{
    match json_str_at(t, key) {
        Some(Some(v)) => Some(v),
        Some(None) => Some(String::new()),
        None => None,
    }
}

fn read_req_i64(t: &str, key: &str) -> (r: Option<i64>)
    ensures
        match r {
            Some(v) => req_int_ok(t@, key@) && v as int == req_int_val(t@, key@),
            None => !req_int_ok(t@, key@),
        },
{
    match json_i64_at(t, key) {
        Some(Some(v)) => Some(v),
        _ => None,
    }
}

fn read_opt_i64(t: &str, key: &str) -> (r: Option<i64>)
    ensures
        match r {
            Some(v) => opt_int_ok(t@, key@) && v as int == opt_int_val(t@, key@),
            None => !opt_int_ok(t@, key@),
        },
{
    match json_i64_at(t, key) {
        Some(Some(v)) => Some(v),
        Some(None) => Some(0),
        None => None,
    }
}

// ---------------------------------------------------------------------------
// Verified record extractors
// ---------------------------------------------------------------------------

/// One roster entry from its element text.
pub fn player_from_text(t: &str) -> (r: Option<Player>)
    ensures
        match r {
            Some(p) => player_text_ok(t@) && player_matches_text(t@, p),
            None => !player_text_ok(t@),
        },
{
    let pid = match read_req_i64(t, "pid") {
        Some(x) => x,
        None => {
            return None;
        },
    };
    let name = match read_req_str(t, "name") {
        Some(x) => x,
        None => {
            return None;
        },
    };
    let model = match read_req_str(t, "model") {
        Some(x) => x,
        None => {
            return None;
        },
    };
    let version = match read_opt_str(t, "version") {
        Some(x) => x,
        None => {
            return None;
        },
    };
    let ip = match read_opt_str(t, "ip") {
        Some(x) => x,
        None => {
            return None;
        },
    };
    let network = match read_opt_str(t, "network") {
        Some(x) => x,
        None => {
            return None;
        },
    };
    let lineout_w = match read_opt_i64(t, "lineout") {
        Some(x) => x,
        None => {
            return None;
        },
    };
    if !(i32::MIN as i64 <= lineout_w && lineout_w <= i32::MAX as i64) {
        return None;
    }
    let lineout: i32 = lineout_w as i32;
    let serial = match read_opt_str(t, "serial") {
        Some(x) => x,
        None => {
            return None;
        },
    };
    Some(Player { pid, name, model, version, ip, network, lineout, serial })
}

/// One queue entry from its element text.
pub fn queue_item_from_text(t: &str) -> (r: Option<QueueItem>)
    ensures
        match r {
            Some(q) => queue_item_text_ok(t@) && queue_item_matches_text(t@, q),
            None => !queue_item_text_ok(t@),
        },
{
    let qid = match read_req_i64(t, "qid") {
        Some(x) => x,
        None => {
            return None;
        },
    };
    let song = match read_req_str(t, "song") {
        Some(x) => x,
        None => {
            return None;
        },
    };
    let album = match read_opt_str(t, "album") {
        Some(x) => x,
        None => {
            return None;
        },
    };
    let artist = match read_opt_str(t, "artist") {
        Some(x) => x,
        None => {
            return None;
        },
    };
    let image_url = match read_opt_str(t, "image_url") {
        Some(x) => x,
        None => {
            return None;
        },
    };
    let mid = match read_opt_str(t, "mid") {
        Some(x) => x,
        None => {
            return None;
        },
    };
    Some(QueueItem { qid, song, album, artist, image_url, mid })
}

/// One music source from its element text.
pub fn music_source_from_text(t: &str) -> (r: Option<MusicSource>)
    ensures
        match r {
            Some(s) => source_text_ok(t@) && source_matches_text(t@, s),
            None => !source_text_ok(t@),
        },
{
    let sid = match read_req_i64(t, "sid") {
        Some(x) => x,
        None => {
            return None;
        },
    };
    let name = match read_req_str(t, "name") {
        Some(x) => x,
        None => {
            return None;
        },
    };
    let source_type = match read_req_str(t, "type") {
        Some(x) => x,
        None => {
            return None;
        },
    };
    let image_url = match read_opt_str(t, "image_url") {
        Some(x) => x,
        None => {
            return None;
        },
    };
    let available = match read_opt_str(t, "available") {
        Some(x) => x,
        None => {
            return None;
        },
    };
    let service_username = match read_opt_str(t, "service_username") {
        Some(x) => x,
        None => {
            return None;
        },
    };
    Some(MusicSource { sid, name, source_type, image_url, available, service_username })
}

/// One browse entry from its element text.
pub fn browse_item_from_text(t: &str) -> (r: Option<BrowseItem>)
    ensures
        match r {
            Some(b) => browse_item_text_ok(t@) && browse_item_matches_text(t@, b),
            None => !browse_item_text_ok(t@),
        },
{
    let container = match read_opt_str(t, "container") {
        Some(x) => x,
        None => {
            return None;
        },
    };
    let cid = match read_opt_str(t, "cid") {
        Some(x) => x,
        None => {
            return None;
        },
    };
    let mid = match read_opt_str(t, "mid") {
        Some(x) => x,
        None => {
            return None;
        },
    };
    let name = match read_req_str(t, "name") {
        Some(x) => x,
        None => {
            return None;
        },
    };
    let item_type = match read_opt_str(t, "type") {
        Some(x) => x,
        None => {
            return None;
        },
    };
    let image_url = match read_opt_str(t, "image_url") {
        Some(x) => x,
        None => {
            return None;
        },
    };
    let playable = match read_opt_str(t, "playable") {
        Some(x) => x,
        None => {
            return None;
        },
    };
    Some(BrowseItem { container, cid, mid, name, item_type, image_url, playable })
}

/// The now-playing record from a payload text.
pub fn now_playing_from_text(t: &str) -> (r: Option<NowPlayingMedia>)
    ensures
        match r {
            Some(m) => now_playing_text_ok(t@) && now_playing_matches_text(t@, m),
            None => !now_playing_text_ok(t@),
        },
{
    let song = match read_opt_str(t, "song") {
        Some(x) => x,
        None => {
            return None;
        },
    };
    let album = match read_opt_str(t, "album") {
        Some(x) => x,
        None => {
            return None;
        },
    };
    let artist = match read_opt_str(t, "artist") {
        Some(x) => x,
        None => {
            return None;
        },
    };
    let image_url = match read_opt_str(t, "image_url") {
        Some(x) => x,
        None => {
            return None;
        },
    };
    let mid = match read_opt_str(t, "mid") {
        Some(x) => x,
        None => {
            return None;
        },
    };
    let qid = match read_opt_i64(t, "qid") {
        Some(x) => x,
        None => {
            return None;
        },
    };
    let sid = match read_opt_i64(t, "sid") {
        Some(x) => x,
        None => {
            return None;
        },
    };
    let station = match read_opt_str(t, "station") {
        Some(x) => x,
        None => {
            return None;
        },
    };
    let media_type = match read_opt_str(t, "type") {
        Some(x) => x,
        None => {
            return None;
        },
    };
    Some(NowPlayingMedia { song, album, artist, image_url, mid, qid, sid, station, media_type })
}

} // verus!
