//! Typed records for the external tool's JSON output.
//!
//! Every field of the output schema is optional except a media item's `id`
//! and `title`. Numeric fields whose values may carry fractions keep their
//! literal number token as text, so nothing is rounded and no floating point
//! is needed; counters that are whole numbers are interpreted as integers.
//! A field that is absent or `null` becomes `None`; a field with the wrong
//! shape is a schema error, never silently defaulted.

use vstd::prelude::*;
use crate::json::{Json, JsonError, JsonV, sp_field};
use crate::text::{chars_of, int_token_to_i64, is_int_token, int_token_val, str_eq};

verus! {

broadcast use vstd::std_specs::vec::group_vec_axioms, vstd::seq::group_seq_axioms;

/// A known transport/delivery scheme, with a catch-all for tags this
/// library does not know: the tool's extractors introduce new tags over
/// time, and deserialization must never fail on one.
#[derive(Debug, Clone, Copy, PartialEq, Eq, Structural)]
pub enum Protocol {
    Http,
    Https,
    Rtsp,
    Rtmp,
    Rtmpe,
    Mms,
    F4M,
    Ism,
    M3U8,
    M3U8Native,
    HttpDashSegments,
    Mhtml,
    HttpsHttps,
    HttpDashSegmentsHttps,
    HttpDashSegmentsHttpDashSegments,
    M3U8NativeM3U8Native,
    Unknown,
}

/// The member a transport tag names, `Unknown` for any other tag.
pub open spec fn protocol_of(t: Seq<char>) -> Protocol {
    if t == "http"@ {
        Protocol::Http
    } else if t == "https"@ {
        Protocol::Https
    } else if t == "rtsp"@ {
        Protocol::Rtsp
    } else if t == "rtmp"@ {
        Protocol::Rtmp
    } else if t == "rtmpe"@ {
        Protocol::Rtmpe
    } else if t == "mms"@ {
        Protocol::Mms
    } else if t == "f4m"@ {
        Protocol::F4M
    } else if t == "ism"@ {
        Protocol::Ism
    } else if t == "m3u8"@ {
        Protocol::M3U8
    } else if t == "m3u8_native"@ {
        Protocol::M3U8Native
    } else if t == "http_dash_segments"@ {
        Protocol::HttpDashSegments
    } else if t == "mhtml"@ {
        Protocol::Mhtml
    } else if t == "https+https"@ {
        Protocol::HttpsHttps
    } else if t == "http_dash_segments+https"@ {
        Protocol::HttpDashSegmentsHttps
    } else if t == "http_dash_segments+http_dash_segments"@ {
        Protocol::HttpDashSegmentsHttpDashSegments
    } else if t == "m3u8_native+m3u8_native"@ {
        Protocol::M3U8NativeM3U8Native
    } else {
        Protocol::Unknown
    }
}

impl Protocol {
    /// Maps a transport tag to its member. An unrecognized tag maps to
    /// `Unknown` rather than failing.
    pub fn from_tag(tag: &str) -> (r: Protocol)
        ensures
            r == protocol_of(tag@),
    {
        if str_eq(tag, "http") {
            Protocol::Http
        } else if str_eq(tag, "https") {
            Protocol::Https
        } else if str_eq(tag, "rtsp") {
            Protocol::Rtsp
        } else if str_eq(tag, "rtmp") {
            Protocol::Rtmp
        } else if str_eq(tag, "rtmpe") {
            Protocol::Rtmpe
        } else if str_eq(tag, "mms") {
            Protocol::Mms
        } else if str_eq(tag, "f4m") {
            Protocol::F4M
        } else if str_eq(tag, "ism") {
            Protocol::Ism
        } else if str_eq(tag, "m3u8") {
            Protocol::M3U8
        } else if str_eq(tag, "m3u8_native") {
            Protocol::M3U8Native
        } else if str_eq(tag, "http_dash_segments") {
            Protocol::HttpDashSegments
        } else if str_eq(tag, "mhtml") {
            Protocol::Mhtml
        } else if str_eq(tag, "https+https") {
            Protocol::HttpsHttps
        } else if str_eq(tag, "http_dash_segments+https") {
            Protocol::HttpDashSegmentsHttps
        } else if str_eq(tag, "http_dash_segments+http_dash_segments") {
            Protocol::HttpDashSegmentsHttpDashSegments
        } else if str_eq(tag, "m3u8_native+m3u8_native") {
            Protocol::M3U8NativeM3U8Native
        } else {
            Protocol::Unknown
        }
    }
}

// What each shape of field accepts and what it projects to. A field that
// is absent or `null` is fine for every shape and projects to `None`.
/// Accepts absent, `null` or a string.
pub open spec fn str_ok(v: JsonV, k: Seq<char>) -> bool {
    match sp_field(v, k) {
        Option::None => true,
        Option::Some(f) => f is Null || f is Str,
    }
}

/// The string member named `k`, if present.
pub open spec fn str_proj(v: JsonV, k: Seq<char>) -> Option<Seq<char>> {
    match sp_field(v, k) {
        Option::Some(JsonV::Str(t)) => Option::Some(t),
        _ => Option::None,
    }
}

/// Accepts absent, `null` or a number.
pub open spec fn num_ok(v: JsonV, k: Seq<char>) -> bool {
    match sp_field(v, k) {
        Option::None => true,
        Option::Some(f) => f is Null || f is Num,
    }
}

/// The number token of the member named `k`, if present.
pub open spec fn num_proj(v: JsonV, k: Seq<char>) -> Option<Seq<char>> {
    match sp_field(v, k) {
        Option::Some(JsonV::Num(t)) => Option::Some(t),
        _ => Option::None,
    }
}

/// Accepts absent, `null` or a boolean.
pub open spec fn bool_ok(v: JsonV, k: Seq<char>) -> bool {
    match sp_field(v, k) {
        Option::None => true,
        Option::Some(f) => f is Null || f is Bool,
    }
}

/// The boolean member named `k`, if present.
pub open spec fn bool_proj(v: JsonV, k: Seq<char>) -> Option<bool> {
    match sp_field(v, k) {
        Option::Some(JsonV::Bool(b)) => Option::Some(b),
        _ => Option::None,
    }
}

/// Accepts absent, `null` or an integer number that fits an `i64`.
pub open spec fn i64_ok(v: JsonV, k: Seq<char>) -> bool {
    match sp_field(v, k) {
        Option::None => true,
        Option::Some(f) => f is Null || (f matches JsonV::Num(t) && is_int_token(t) && i64::MIN
            <= int_token_val(t) <= i64::MAX),
    }
}

/// The integer value of the member named `k`, if present.
pub open spec fn i64_proj(v: JsonV, k: Seq<char>) -> Option<int> {
    match sp_field(v, k) {
        Option::Some(JsonV::Num(t)) => Option::Some(int_token_val(t)),
        _ => Option::None,
    }
}

/// Accepts absent, `null` or an integer number that fits an `i32`.
pub open spec fn i32_ok(v: JsonV, k: Seq<char>) -> bool {
    match sp_field(v, k) {
        Option::None => true,
        Option::Some(f) => f is Null || (f matches JsonV::Num(t) && is_int_token(t) && i32::MIN
            <= int_token_val(t) <= i32::MAX),
    }
}

/// The loosely-typed member named `k`, kept as a generic value; absent and
/// `null` both project to `None`.
pub open spec fn any_proj(v: JsonV, k: Seq<char>) -> Option<JsonV> {
    match sp_field(v, k) {
        Option::None => Option::None,
        Option::Some(f) => if f is Null {
            Option::None
        } else {
            Option::Some(f)
        },
    }
}

/// Requires a string member: `id` and `title` must be there.
pub open spec fn str_req_ok(v: JsonV, k: Seq<char>) -> bool {
    sp_field(v, k) matches Option::Some(f) && f is Str
}

/// The required string member named `k`.
pub open spec fn str_req_proj(v: JsonV, k: Seq<char>) -> Seq<char> {
    match sp_field(v, k) {
        Option::Some(JsonV::Str(t)) => t,
        _ => Seq::empty(),
    }
}

/// A codec field: like a string field, but the literal string `"none"`
/// means "no track" and is normalized to an absent value.
pub open spec fn codec_proj(v: JsonV, k: Seq<char>) -> Option<Seq<char>> {
    match str_proj(v, k) {
        Option::Some(t) => if t == "none"@ {
            Option::None
        } else {
            Option::Some(t)
        },
        Option::None => Option::None,
    }
}

/// Accepts absent, `null` or any string: every string maps to a member of
/// [`Protocol`].
pub open spec fn proto_proj(v: JsonV, k: Seq<char>) -> Option<Protocol> {
    match str_proj(v, k) {
        Option::Some(t) => Option::Some(protocol_of(t)),
        Option::None => Option::None,
    }
}

// How a deserialized field relates to its projection.
pub open spec fn opt_str_rel(x: Option<String>, p: Option<Seq<char>>) -> bool {
    match (x, p) {
        (Option::None, Option::None) => true,
        (Option::Some(s), Option::Some(t)) => s@ == t,
        _ => false,
    }
}

pub open spec fn opt_i64_rel(x: Option<i64>, p: Option<int>) -> bool {
    match (x, p) {
        (Option::None, Option::None) => true,
        (Option::Some(a), Option::Some(b)) => a == b,
        _ => false,
    }
}

pub open spec fn opt_i32_rel(x: Option<i32>, p: Option<int>) -> bool {
    match (x, p) {
        (Option::None, Option::None) => true,
        (Option::Some(a), Option::Some(b)) => a == b,
        _ => false,
    }
}

pub open spec fn opt_json_rel(x: Option<Json>, p: Option<JsonV>) -> bool {
    match (x, p) {
        (Option::None, Option::None) => true,
        (Option::Some(j), Option::Some(w)) => j@ == w,
        _ => false,
    }
}

fn str_field(v: &Json, key: &str) -> (r: Result<Option<String>, JsonError>)
    ensures
        r is Ok <==> str_ok(v@, key@),
        r matches Ok(x) ==> opt_str_rel(x, str_proj(v@, key@)),
{
    match v.get(key) {
        Option::None => Ok(Option::None),
        Option::Some(f) => match f {
            Json::Null => Ok(Option::None),
            Json::Str(s) => Ok(Option::Some(s.clone())),
            _ => Err(JsonError::Schema),
        },
    }
}

fn num_field(v: &Json, key: &str) -> (r: Result<Option<String>, JsonError>)
    ensures
        r is Ok <==> num_ok(v@, key@),
        r matches Ok(x) ==> opt_str_rel(x, num_proj(v@, key@)),
{
    match v.get(key) {
        Option::None => Ok(Option::None),
        Option::Some(f) => match f {
            Json::Null => Ok(Option::None),
            Json::Num(t) => Ok(Option::Some(t.clone())),
            _ => Err(JsonError::Schema),
        },
    }
}

fn bool_field(v: &Json, key: &str) -> (r: Result<Option<bool>, JsonError>)
    ensures
        r is Ok <==> bool_ok(v@, key@),
        r matches Ok(x) ==> x == bool_proj(v@, key@),
{
    match v.get(key) {
        Option::None => Ok(Option::None),
        Option::Some(f) => match f {
            Json::Null => Ok(Option::None),
            Json::Bool(b) => Ok(Option::Some(*b)),
            _ => Err(JsonError::Schema),
        },
    }
}

fn i64_field(v: &Json, key: &str) -> (r: Result<Option<i64>, JsonError>)
    ensures
        r is Ok <==> i64_ok(v@, key@),
        r matches Ok(x) ==> opt_i64_rel(x, i64_proj(v@, key@)),
{
    match v.get(key) {
        Option::None => Ok(Option::None),
        Option::Some(f) => match f {
            Json::Null => Ok(Option::None),
            Json::Num(t) => {
                let cs = chars_of(t.as_str());
                match int_token_to_i64(&cs) {
                    Option::Some(n) => Ok(Option::Some(n)),
                    Option::None => Err(JsonError::Schema),
                }
            },
            _ => Err(JsonError::Schema),
        },
    }
}

fn i32_field(v: &Json, key: &str) -> (r: Result<Option<i32>, JsonError>)
    ensures
        r is Ok <==> i32_ok(v@, key@),
        r matches Ok(x) ==> opt_i32_rel(x, i64_proj(v@, key@)),
{
    match v.get(key) {
        Option::None => Ok(Option::None),
        Option::Some(f) => match f {
            Json::Null => Ok(Option::None),
            Json::Num(t) => {
                let cs = chars_of(t.as_str());
                match int_token_to_i64(&cs) {
                    Option::Some(n) => if -0x8000_0000i64 <= n && n <= 0x7FFF_FFFFi64 {
                        Ok(Option::Some(n as i32))
                    } else {
                        Err(JsonError::Schema)
                    },
                    Option::None => Err(JsonError::Schema),
                }
            },
            _ => Err(JsonError::Schema),
        },
    }
}

fn any_field(v: &Json, key: &str) -> (r: Result<Option<Json>, JsonError>)
    ensures
        r is Ok,
        r matches Ok(x) ==> opt_json_rel(x, any_proj(v@, key@)),
{
    match v.get(key) {
        Option::None => Ok(Option::None),
        Option::Some(f) => match f {
            Json::Null => Ok(Option::None),
            _ => Ok(Option::Some(f.clone())),
        },
    }
}

fn codec_field(v: &Json, key: &str) -> (r: Result<Option<String>, JsonError>)
    ensures
        r is Ok <==> str_ok(v@, key@),
        r matches Ok(x) ==> opt_str_rel(x, codec_proj(v@, key@)),
{
    match v.get(key) {
        Option::None => Ok(Option::None),
        Option::Some(f) => match f {
            Json::Null => Ok(Option::None),
            Json::Str(s) => if str_eq(s.as_str(), "none") {
                Ok(Option::None)
            } else {
                Ok(Option::Some(s.clone()))
            },
            _ => Err(JsonError::Schema),
        },
    }
}

fn protocol_field(v: &Json, key: &str) -> (r: Result<Option<Protocol>, JsonError>)
    ensures
        r is Ok <==> str_ok(v@, key@),
        r matches Ok(x) ==> x == proto_proj(v@, key@),
{
    match v.get(key) {
        Option::None => Ok(Option::None),
        Option::Some(f) => match f {
            Json::Null => Ok(Option::None),
            Json::Str(s) => Ok(Option::Some(Protocol::from_tag(s.as_str()))),
            _ => Err(JsonError::Schema),
        },
    }
}

fn str_req_field(v: &Json, key: &str) -> (r: Result<String, JsonError>)
    ensures
        r is Ok <==> str_req_ok(v@, key@),
        r matches Ok(s) ==> s@ == str_req_proj(v@, key@),
{
    match v.get(key) {
        Option::None => Err(JsonError::Schema),
        Option::Some(f) => match f {
            Json::Str(s) => Ok(s.clone()),
            _ => Err(JsonError::Schema),
        },
    }
}

/// One subtitle track reference.
#[derive(Debug, Clone)]
pub struct Subtitle {
    pub data: Option<String>,
    pub ext: Option<String>,
    pub url: Option<String>,
}

pub open spec fn subtitle_ok(v: JsonV) -> bool {
    &&& v is Obj
    &&& str_ok(v, "data"@)
    &&& str_ok(v, "ext"@)
    &&& str_ok(v, "url"@)
}

pub open spec fn subtitle_rel(s: Subtitle, v: JsonV) -> bool {
    &&& opt_str_rel(s.data, str_proj(v, "data"@))
    &&& opt_str_rel(s.ext, str_proj(v, "ext"@))
    &&& opt_str_rel(s.url, str_proj(v, "url"@))
}

/// Reads one subtitle record out of a JSON object.
pub fn subtitle_of(v: &Json) -> (r: Result<Subtitle, JsonError>)
    ensures
        r is Ok <==> subtitle_ok(v@),
        r matches Ok(s) ==> subtitle_rel(s, v@),
{
    if !v.is_object() {
        return Err(JsonError::Schema);
    }
    let data = str_field(v, "data")?;
    let ext = str_field(v, "ext")?;
    let url = str_field(v, "url")?;
    Ok(Subtitle { data, ext, url })
}

/// One thumbnail alternative.
#[derive(Debug, Clone)]
pub struct Thumbnail {
    pub filesize: Option<i64>,
    pub height: Option<String>,
    pub id: Option<String>,
    pub preference: Option<i64>,
    pub url: Option<String>,
    pub width: Option<String>,
}

pub open spec fn thumbnail_ok(v: JsonV) -> bool {
    &&& v is Obj
    &&& i64_ok(v, "filesize"@)
    &&& num_ok(v, "height"@)
    &&& str_ok(v, "id"@)
    &&& i64_ok(v, "preference"@)
    &&& str_ok(v, "url"@)
    &&& num_ok(v, "width"@)
}

pub open spec fn thumbnail_rel(t: Thumbnail, v: JsonV) -> bool {
    &&& opt_i64_rel(t.filesize, i64_proj(v, "filesize"@))
    &&& opt_str_rel(t.height, num_proj(v, "height"@))
    &&& opt_str_rel(t.id, str_proj(v, "id"@))
    &&& opt_i64_rel(t.preference, i64_proj(v, "preference"@))
    &&& opt_str_rel(t.url, str_proj(v, "url"@))
    &&& opt_str_rel(t.width, num_proj(v, "width"@))
}

/// Reads one thumbnail record out of a JSON object.
pub fn thumbnail_of(v: &Json) -> (r: Result<Thumbnail, JsonError>)
    ensures
        r is Ok <==> thumbnail_ok(v@),
        r matches Ok(t) ==> thumbnail_rel(t, v@),
{
    if !v.is_object() {
        return Err(JsonError::Schema);
    }
    let filesize = i64_field(v, "filesize")?;
    let height = num_field(v, "height")?;
    let id = str_field(v, "id")?;
    let preference = i64_field(v, "preference")?;
    let url = str_field(v, "url")?;
    let width = num_field(v, "width")?;
    Ok(Thumbnail { filesize, height, id, preference, url, width })
}

} // verus!

verus! {


pub open spec fn subtitle_list_ok(w: JsonV) -> bool {
    w matches JsonV::Arr(items) && forall|i: int|
        0 <= i < items.len() ==> subtitle_ok(#[trigger] items[i])
}

pub open spec fn subtitle_list_rel(xs: Seq<Subtitle>, w: JsonV) -> bool {
    w matches JsonV::Arr(items) && xs.len() == items.len() && forall|i: int|
        0 <= i < items.len() ==> subtitle_rel(#[trigger] xs[i], items[i])
}

proof fn lemma_subtitle_list_not_ok(w: JsonV, i: int)
    requires
        w matches JsonV::Arr(items) && 0 <= i < items.len() && !subtitle_ok(items[i]),
    ensures
        !subtitle_list_ok(w),
{
}

/// Reads an array of subtitle records.
#[verifier::loop_isolation(false)]
fn subtitle_list_of(w: &Json) -> (r: Result<Vec<Subtitle>, JsonError>)
    ensures
        r is Ok <==> subtitle_list_ok(w@),
        r matches Ok(xs) ==> subtitle_list_rel(xs@, w@),
{
    match w {
        Json::Arr(items) => {
            proof {
                crate::json::lemma_v_arr_index(items@);
            }
            let mut out: Vec<Subtitle> = Vec::new();
            let mut idx: usize = 0;
            while idx < items.len()
                invariant
                    0 <= idx <= items@.len(),
                    out@.len() == idx,
                    forall|i: int| 0 <= i < idx ==> subtitle_ok(#[trigger] Json::v_arr(items@)[i]),
                    forall|i: int|
                        0 <= i < idx ==> subtitle_rel(#[trigger] out@[i], Json::v_arr(items@)[i]),
                decreases items@.len() - idx,
            {
                proof {
                    assert(Json::v_arr(items@)[idx as int] == items@[idx as int]@);
                }
                match subtitle_of(&items[idx]) {
                    Ok(x) => {
                        out.push(x);
                    },
                    Err(e) => {
                        proof {
                            assert(!subtitle_ok(Json::v_arr(items@)[idx as int]));
                            lemma_subtitle_list_not_ok(w@, idx as int);
                        }
                        return Err(e);
                    },
                }
                idx = idx + 1;
            }
            Ok(out)
        },
        _ => Err(JsonError::Schema),
    }
}

pub open spec fn subtitles_ok(v: JsonV, k: Seq<char>) -> bool {
    match sp_field(v, k) {
        Option::None => true,
        Option::Some(f) => f is Null || subtitle_list_ok(f),
    }
}

pub open spec fn subtitles_rel(x: Option<Vec<Subtitle>>, v: JsonV, k: Seq<char>) -> bool {
    match sp_field(v, k) {
        Option::None => x is None,
        Option::Some(f) => if f is Null {
            x is None
        } else {
            x matches Option::Some(xs) && subtitle_list_rel(xs@, f)
        },
    }
}

fn subtitles_field(v: &Json, key: &str) -> (r: Result<Option<Vec<Subtitle>>, JsonError>)
    ensures
        r is Ok <==> subtitles_ok(v@, key@),
        r matches Ok(x) ==> subtitles_rel(x, v@, key@),
{
    match v.get(key) {
        Option::None => Ok(Option::None),
        Option::Some(f) => match f {
            Json::Null => Ok(Option::None),
            _ => match subtitle_list_of(f) {
                Ok(xs) => Ok(Option::Some(xs)),
                Err(e) => Err(e),
            },
        },
    }
}


pub open spec fn thumbnail_list_ok(w: JsonV) -> bool {
    w matches JsonV::Arr(items) && forall|i: int|
        0 <= i < items.len() ==> thumbnail_ok(#[trigger] items[i])
}

pub open spec fn thumbnail_list_rel(xs: Seq<Thumbnail>, w: JsonV) -> bool {
    w matches JsonV::Arr(items) && xs.len() == items.len() && forall|i: int|
        0 <= i < items.len() ==> thumbnail_rel(#[trigger] xs[i], items[i])
}

proof fn lemma_thumbnail_list_not_ok(w: JsonV, i: int)
    requires
        w matches JsonV::Arr(items) && 0 <= i < items.len() && !thumbnail_ok(items[i]),
    ensures
        !thumbnail_list_ok(w),
{
}

/// Reads an array of thumbnail records.
#[verifier::loop_isolation(false)]
fn thumbnail_list_of(w: &Json) -> (r: Result<Vec<Thumbnail>, JsonError>)
    ensures
        r is Ok <==> thumbnail_list_ok(w@),
        r matches Ok(xs) ==> thumbnail_list_rel(xs@, w@),
{
    match w {
        Json::Arr(items) => {
            proof {
                crate::json::lemma_v_arr_index(items@);
            }
            let mut out: Vec<Thumbnail> = Vec::new();
            let mut idx: usize = 0;
            while idx < items.len()
                invariant
                    0 <= idx <= items@.len(),
                    out@.len() == idx,
                    forall|i: int| 0 <= i < idx ==> thumbnail_ok(#[trigger] Json::v_arr(items@)[i]),
                    forall|i: int|
                        0 <= i < idx ==> thumbnail_rel(#[trigger] out@[i], Json::v_arr(items@)[i]),
                decreases items@.len() - idx,
            {
                proof {
                    assert(Json::v_arr(items@)[idx as int] == items@[idx as int]@);
                }
                match thumbnail_of(&items[idx]) {
                    Ok(x) => {
                        out.push(x);
                    },
                    Err(e) => {
                        proof {
                            assert(!thumbnail_ok(Json::v_arr(items@)[idx as int]));
                            lemma_thumbnail_list_not_ok(w@, idx as int);
                        }
                        return Err(e);
                    },
                }
                idx = idx + 1;
            }
            Ok(out)
        },
        _ => Err(JsonError::Schema),
    }
}

pub open spec fn thumbnails_ok(v: JsonV, k: Seq<char>) -> bool {
    match sp_field(v, k) {
        Option::None => true,
        Option::Some(f) => f is Null || thumbnail_list_ok(f),
    }
}

pub open spec fn thumbnails_rel(x: Option<Vec<Thumbnail>>, v: JsonV, k: Seq<char>) -> bool {
    match sp_field(v, k) {
        Option::None => x is None,
        Option::Some(f) => if f is Null {
            x is None
        } else {
            x matches Option::Some(xs) && thumbnail_list_rel(xs@, f)
        },
    }
}

fn thumbnails_field(v: &Json, key: &str) -> (r: Result<Option<Vec<Thumbnail>>, JsonError>)
    ensures
        r is Ok <==> thumbnails_ok(v@, key@),
        r matches Ok(x) ==> thumbnails_rel(x, v@, key@),
{
    match v.get(key) {
        Option::None => Ok(Option::None),
        Option::Some(f) => match f {
            Json::Null => Ok(Option::None),
            _ => match thumbnail_list_of(f) {
                Ok(xs) => Ok(Option::Some(xs)),
                Err(e) => Err(e),
            },
        },
    }
}


/// The string a value holds, when it is one.
pub open spec fn opt_str_of(w: JsonV) -> Option<Seq<char>> {
    match w {
        JsonV::Str(t) => Option::Some(t),
        _ => Option::None,
    }
}

pub open spec fn strlist_ok(v: JsonV, k: Seq<char>) -> bool {
    match sp_field(v, k) {
        Option::None => true,
        Option::Some(f) => f is Null || (f matches JsonV::Arr(items) && forall|i: int|
            0 <= i < items.len() ==> ((#[trigger] items[i]) is Null || items[i] is Str)),
    }
}

pub open spec fn strlist_rel(x: Option<Vec<Option<String>>>, v: JsonV, k: Seq<char>) -> bool {
    match sp_field(v, k) {
        Option::None => x is None,
        Option::Some(f) => if f is Null {
            x is None
        } else {
            f matches JsonV::Arr(items) && x matches Option::Some(xs) && xs@.len() == items.len()
                && forall|i: int|
                0 <= i < items.len() ==> opt_str_rel(#[trigger] xs@[i], opt_str_of(items[i]))
        },
    }
}

/// Reads a list of nullable strings (categories, tags).
#[verifier::loop_isolation(false)]
fn strlist_field(v: &Json, key: &str) -> (r: Result<Option<Vec<Option<String>>>, JsonError>)
    ensures
        r is Ok <==> strlist_ok(v@, key@),
        r matches Ok(x) ==> strlist_rel(x, v@, key@),
{
    match v.get(key) {
        Option::None => Ok(Option::None),
        Option::Some(f) => match f {
            Json::Null => Ok(Option::None),
            Json::Arr(items) => {
                proof {
                    crate::json::lemma_v_arr_index(items@);
                }
                let mut out: Vec<Option<String>> = Vec::new();
                let mut idx: usize = 0;
                while idx < items.len()
                    invariant
                        0 <= idx <= items@.len(),
                        out@.len() == idx,
                        forall|i: int|
                            0 <= i < idx ==> ((#[trigger] Json::v_arr(items@)[i]) is Null
                                || Json::v_arr(items@)[i] is Str),
                        forall|i: int|
                            0 <= i < idx ==> opt_str_rel(
                                #[trigger] out@[i],
                                opt_str_of(Json::v_arr(items@)[i]),
                            ),
                    decreases items@.len() - idx,
                {
                    proof {
                        assert(Json::v_arr(items@)[idx as int] == items@[idx as int]@);
                    }
                    match &items[idx] {
                        Json::Null => {
                            out.push(Option::None);
                        },
                        Json::Str(s) => {
                            out.push(Option::Some(s.clone()));
                        },
                        _ => {
                            return Err(JsonError::Schema);
                        },
                    }
                    idx = idx + 1;
                }
                Ok(Option::Some(out))
            },
            _ => Err(JsonError::Schema),
        },
    }
}

pub open spec fn headers_ok(v: JsonV, k: Seq<char>) -> bool {
    match sp_field(v, k) {
        Option::None => true,
        Option::Some(f) => f is Null || (f matches JsonV::Obj(pairs) && forall|i: int|
            0 <= i < pairs.len() ==> ((#[trigger] pairs[i]).1 is Null || pairs[i].1 is Str)),
    }
}

pub open spec fn headers_rel(x: Option<Vec<(String, Option<String>)>>, v: JsonV, k: Seq<char>) -> bool {
    match sp_field(v, k) {
        Option::None => x is None,
        Option::Some(f) => if f is Null {
            x is None
        } else {
            f matches JsonV::Obj(pairs) && x matches Option::Some(xs) && xs@.len() == pairs.len()
                && forall|i: int|
                0 <= i < pairs.len() ==> (#[trigger] xs@[i]).0@ == pairs[i].0 && opt_str_rel(
                    xs@[i].1,
                    opt_str_of(pairs[i].1),
                )
        },
    }
}

/// Reads a map whose values are nullable strings (per-format headers),
/// keeping the members in document order.
#[verifier::loop_isolation(false)]
fn headers_field(v: &Json, key: &str) -> (r: Result<Option<Vec<(String, Option<String>)>>, JsonError>)
    ensures
        r is Ok <==> headers_ok(v@, key@),
        r matches Ok(x) ==> headers_rel(x, v@, key@),
{
    match v.get(key) {
        Option::None => Ok(Option::None),
        Option::Some(f) => match f {
            Json::Null => Ok(Option::None),
            Json::Obj(pairs) => {
                proof {
                    crate::json::lemma_v_obj_index(pairs@);
                }
                let mut out: Vec<(String, Option<String>)> = Vec::new();
                let mut idx: usize = 0;
                while idx < pairs.len()
                    invariant
                        0 <= idx <= pairs@.len(),
                        out@.len() == idx,
                        forall|i: int|
                            0 <= i < idx ==> ((#[trigger] Json::v_obj(pairs@)[i]).1 is Null
                                || Json::v_obj(pairs@)[i].1 is Str),
                        forall|i: int|
                            0 <= i < idx ==> (#[trigger] out@[i]).0@ == Json::v_obj(pairs@)[i].0
                                && opt_str_rel(out@[i].1, opt_str_of(Json::v_obj(pairs@)[i].1)),
                    decreases pairs@.len() - idx,
                {
                    proof {
                        assert(Json::v_obj(pairs@)[idx as int] == (
                        pairs@[idx as int].0@,
                        pairs@[idx as int].1@,
                        ));
                    }
                    let name = pairs[idx].0.clone();
                    match &pairs[idx].1 {
                        Json::Null => {
                            out.push((name, Option::None));
                        },
                        Json::Str(s) => {
                            out.push((name, Option::Some(s.clone())));
                        },
                        _ => {
                            return Err(JsonError::Schema);
                        },
                    }
                    idx = idx + 1;
                }
                Ok(Option::Some(out))
            },
            _ => Err(JsonError::Schema),
        },
    }
}

pub open spec fn options_ok(v: JsonV, k: Seq<char>) -> bool {
    match sp_field(v, k) {
        Option::None => true,
        Option::Some(f) => f is Null || f is Obj,
    }
}

pub open spec fn options_rel(x: Option<Vec<(String, Json)>>, v: JsonV, k: Seq<char>) -> bool {
    match sp_field(v, k) {
        Option::None => x is None,
        Option::Some(f) => if f is Null {
            x is None
        } else {
            f matches JsonV::Obj(pairs) && x matches Option::Some(xs) && xs@.len() == pairs.len()
                && forall|i: int|
                0 <= i < pairs.len() ==> (#[trigger] xs@[i]).0@ == pairs[i].0 && xs@[i].1@
                    == pairs[i].1
        },
    }
}

/// Reads a map whose values stay generic (downloader options), keeping the
/// members in document order.
#[verifier::loop_isolation(false)]
fn options_field(v: &Json, key: &str) -> (r: Result<Option<Vec<(String, Json)>>, JsonError>)
    ensures
        r is Ok <==> options_ok(v@, key@),
        r matches Ok(x) ==> options_rel(x, v@, key@),
{
    match v.get(key) {
        Option::None => Ok(Option::None),
        Option::Some(f) => match f {
            Json::Null => Ok(Option::None),
            Json::Obj(pairs) => {
                proof {
                    crate::json::lemma_v_obj_index(pairs@);
                }
                let mut out: Vec<(String, Json)> = Vec::new();
                let mut idx: usize = 0;
                while idx < pairs.len()
                    invariant
                        0 <= idx <= pairs@.len(),
                        out@.len() == idx,
                        forall|i: int|
                            0 <= i < idx ==> (#[trigger] out@[i]).0@ == Json::v_obj(pairs@)[i].0
                                && out@[i].1@ == Json::v_obj(pairs@)[i].1,
                    decreases pairs@.len() - idx,
                {
                    proof {
                        assert(Json::v_obj(pairs@)[idx as int] == (
                        pairs@[idx as int].0@,
                        pairs@[idx as int].1@,
                        ));
                    }
                    let name = pairs[idx].0.clone();
                    let val = pairs[idx].1.clone();
                    out.push((name, val));
                    idx = idx + 1;
                }
                Ok(Option::Some(out))
            },
            _ => Err(JsonError::Schema),
        },
    }
}

pub open spec fn captions_ok(v: JsonV, k: Seq<char>) -> bool {
    match sp_field(v, k) {
        Option::None => true,
        Option::Some(f) => f is Null || (f matches JsonV::Obj(pairs) && forall|i: int|
            0 <= i < pairs.len() ==> subtitle_list_ok((#[trigger] pairs[i]).1)),
    }
}

proof fn lemma_captions_not_ok(v: JsonV, k: Seq<char>, f: JsonV, i: int)
    requires
        sp_field(v, k) == Option::Some(f),
        f matches JsonV::Obj(pairs) && 0 <= i < pairs.len() && !subtitle_list_ok(pairs[i].1),
    ensures
        !captions_ok(v, k),
{
}

pub open spec fn captions_rel(
    x: Option<Vec<(String, Vec<Subtitle>)>>,
    v: JsonV,
    k: Seq<char>,
) -> bool {
    match sp_field(v, k) {
        Option::None => x is None,
        Option::Some(f) => if f is Null {
            x is None
        } else {
            f matches JsonV::Obj(pairs) && x matches Option::Some(xs) && xs@.len() == pairs.len()
                && forall|i: int|
                0 <= i < pairs.len() ==> (#[trigger] xs@[i]).0@ == pairs[i].0 && subtitle_list_rel(
                    xs@[i].1@,
                    pairs[i].1,
                )
        },
    }
}

/// Reads a map from language to subtitle list, keeping the members in
/// document order.
#[verifier::loop_isolation(false)]
fn captions_field(v: &Json, key: &str) -> (r: Result<
    Option<Vec<(String, Vec<Subtitle>)>>,
    JsonError,
>)
    ensures
        r is Ok <==> captions_ok(v@, key@),
        r matches Ok(x) ==> captions_rel(x, v@, key@),
{
    match v.get(key) {
        Option::None => Ok(Option::None),
        Option::Some(f) => match f {
            Json::Null => Ok(Option::None),
            Json::Obj(pairs) => {
                proof {
                    crate::json::lemma_v_obj_index(pairs@);
                }
                let mut out: Vec<(String, Vec<Subtitle>)> = Vec::new();
                let mut idx: usize = 0;
                while idx < pairs.len()
                    invariant
                        0 <= idx <= pairs@.len(),
                        out@.len() == idx,
                        forall|i: int|
                            0 <= i < idx ==> subtitle_list_ok(
                                (#[trigger] Json::v_obj(pairs@)[i]).1,
                            ),
                        forall|i: int|
                            0 <= i < idx ==> (#[trigger] out@[i]).0@ == Json::v_obj(pairs@)[i].0
                                && subtitle_list_rel(out@[i].1@, Json::v_obj(pairs@)[i].1),
                    decreases pairs@.len() - idx,
                {
                    proof {
                        assert(Json::v_obj(pairs@)[idx as int] == (
                        pairs@[idx as int].0@,
                        pairs@[idx as int].1@,
                        ));
                    }
                    let name = pairs[idx].0.clone();
                    match subtitle_list_of(&pairs[idx].1) {
                        Ok(ss) => {
                            out.push((name, ss));
                        },
                        Err(e) => {
                            proof {
                                assert(!subtitle_list_ok(Json::v_obj(pairs@)[idx as int].1));
                                lemma_captions_not_ok(v@, key@, f@, idx as int);
                            }
                            return Err(e);
                        },
                    }
                    idx = idx + 1;
                }
                Ok(Option::Some(out))
            },
            _ => Err(JsonError::Schema),
        },
    }
}

/// How a nullable subtitle list relates to the value it came from.
pub open spec fn opt_sublist_rel(o: Option<Vec<Subtitle>>, w: JsonV) -> bool {
    if w is Null {
        o is None
    } else {
        o matches Option::Some(ss) && subtitle_list_rel(ss@, w)
    }
}

pub open spec fn subsmap_ok(v: JsonV, k: Seq<char>) -> bool {
    match sp_field(v, k) {
        Option::None => true,
        Option::Some(f) => f is Null || (f matches JsonV::Obj(pairs) && forall|i: int|
            0 <= i < pairs.len() ==> ((#[trigger] pairs[i]).1 is Null || subtitle_list_ok(
                pairs[i].1,
            ))),
    }
}

proof fn lemma_subsmap_not_ok(v: JsonV, k: Seq<char>, f: JsonV, i: int)
    requires
        sp_field(v, k) == Option::Some(f),
        f matches JsonV::Obj(pairs) && 0 <= i < pairs.len() && !(pairs[i].1 is Null)
            && !subtitle_list_ok(pairs[i].1),
    ensures
        !subsmap_ok(v, k),
{
}

pub open spec fn subsmap_rel(
    x: Option<Vec<(String, Option<Vec<Subtitle>>)>>,
    v: JsonV,
    k: Seq<char>,
) -> bool {
    match sp_field(v, k) {
        Option::None => x is None,
        Option::Some(f) => if f is Null {
            x is None
        } else {
            f matches JsonV::Obj(pairs) && x matches Option::Some(xs) && xs@.len() == pairs.len()
                && forall|i: int|
                0 <= i < pairs.len() ==> (#[trigger] xs@[i]).0@ == pairs[i].0 && opt_sublist_rel(
                    xs@[i].1,
                    pairs[i].1,
                )
        },
    }
}

/// Reads a map from language to nullable subtitle list, keeping the
/// members in document order.
#[verifier::loop_isolation(false)]
fn subsmap_field(v: &Json, key: &str) -> (r: Result<
    Option<Vec<(String, Option<Vec<Subtitle>>)>>,
    JsonError,
>)
    ensures
        r is Ok <==> subsmap_ok(v@, key@),
        r matches Ok(x) ==> subsmap_rel(x, v@, key@),
{
    match v.get(key) {
        Option::None => Ok(Option::None),
        Option::Some(f) => match f {
            Json::Null => Ok(Option::None),
            Json::Obj(pairs) => {
                proof {
                    crate::json::lemma_v_obj_index(pairs@);
                }
                let mut out: Vec<(String, Option<Vec<Subtitle>>)> = Vec::new();
                let mut idx: usize = 0;
                while idx < pairs.len()
                    invariant
                        0 <= idx <= pairs@.len(),
                        out@.len() == idx,
                        forall|i: int|
                            0 <= i < idx ==> ((#[trigger] Json::v_obj(pairs@)[i]).1 is Null
                                || subtitle_list_ok(Json::v_obj(pairs@)[i].1)),
                        forall|i: int|
                            0 <= i < idx ==> (#[trigger] out@[i]).0@ == Json::v_obj(pairs@)[i].0
                                && opt_sublist_rel(out@[i].1, Json::v_obj(pairs@)[i].1),
                    decreases pairs@.len() - idx,
                {
                    proof {
                        assert(Json::v_obj(pairs@)[idx as int] == (
                        pairs@[idx as int].0@,
                        pairs@[idx as int].1@,
                        ));
                    }
                    let name = pairs[idx].0.clone();
                    match &pairs[idx].1 {
                        Json::Null => {
                            out.push((name, Option::None));
                        },
                        other => match subtitle_list_of(other) {
                            Ok(ss) => {
                                out.push((name, Option::Some(ss)));
                            },
                            Err(e) => {
                                proof {
                                    assert(!subtitle_list_ok(Json::v_obj(pairs@)[idx as int].1));
                                    assert(!(Json::v_obj(pairs@)[idx as int].1 is Null));
                                    lemma_subsmap_not_ok(v@, key@, f@, idx as int);
                                }
                                return Err(e);
                            },
                        },
                    }
                    idx = idx + 1;
                }
                Ok(Option::Some(out))
            },
            _ => Err(JsonError::Schema),
        },
    }
}

pub open spec fn reqsubs_ok(v: JsonV, k: Seq<char>) -> bool {
    match sp_field(v, k) {
        Option::None => true,
        Option::Some(f) => f is Null || (f matches JsonV::Obj(pairs) && forall|i: int|
            0 <= i < pairs.len() ==> subtitle_ok((#[trigger] pairs[i]).1)),
    }
}

proof fn lemma_reqsubs_not_ok(v: JsonV, k: Seq<char>, f: JsonV, i: int)
    requires
        sp_field(v, k) == Option::Some(f),
        f matches JsonV::Obj(pairs) && 0 <= i < pairs.len() && !subtitle_ok(pairs[i].1),
    ensures
        !reqsubs_ok(v, k),
{
}

pub open spec fn reqsubs_rel(
    x: Option<Vec<(String, Subtitle)>>,
    v: JsonV,
    k: Seq<char>,
) -> bool {
    match sp_field(v, k) {
        Option::None => x is None,
        Option::Some(f) => if f is Null {
            x is None
        } else {
            f matches JsonV::Obj(pairs) && x matches Option::Some(xs) && xs@.len() == pairs.len()
                && forall|i: int|
                0 <= i < pairs.len() ==> (#[trigger] xs@[i]).0@ == pairs[i].0 && subtitle_rel(
                    xs@[i].1,
                    pairs[i].1,
                )
        },
    }
}

/// Reads a map from language to one subtitle record, keeping the members
/// in document order.
#[verifier::loop_isolation(false)]
fn reqsubs_field(v: &Json, key: &str) -> (r: Result<Option<Vec<(String, Subtitle)>>, JsonError>)
    ensures
        r is Ok <==> reqsubs_ok(v@, key@),
        r matches Ok(x) ==> reqsubs_rel(x, v@, key@),
{
    match v.get(key) {
        Option::None => Ok(Option::None),
        Option::Some(f) => match f {
            Json::Null => Ok(Option::None),
            Json::Obj(pairs) => {
                proof {
                    crate::json::lemma_v_obj_index(pairs@);
                }
                let mut out: Vec<(String, Subtitle)> = Vec::new();
                let mut idx: usize = 0;
                while idx < pairs.len()
                    invariant
                        0 <= idx <= pairs@.len(),
                        out@.len() == idx,
                        forall|i: int|
                            0 <= i < idx ==> subtitle_ok((#[trigger] Json::v_obj(pairs@)[i]).1),
                        forall|i: int|
                            0 <= i < idx ==> (#[trigger] out@[i]).0@ == Json::v_obj(pairs@)[i].0
                                && subtitle_rel(out@[i].1, Json::v_obj(pairs@)[i].1),
                    decreases pairs@.len() - idx,
                {
                    proof {
                        assert(Json::v_obj(pairs@)[idx as int] == (
                        pairs@[idx as int].0@,
                        pairs@[idx as int].1@,
                        ));
                    }
                    let name = pairs[idx].0.clone();
                    match subtitle_of(&pairs[idx].1) {
                        Ok(sb) => {
                            out.push((name, sb));
                        },
                        Err(e) => {
                            proof {
                                assert(!subtitle_ok(Json::v_obj(pairs@)[idx as int].1));
                                lemma_reqsubs_not_ok(v@, key@, f@, idx as int);
                            }
                            return Err(e);
                        },
                    }
                    idx = idx + 1;
                }
                Ok(Option::Some(out))
            },
            _ => Err(JsonError::Schema),
        },
    }
}

/// One segment of a segmented-delivery format.
#[derive(Debug, Clone)]
pub struct Fragment {
    pub duration: Option<Json>,
    pub filesize: Option<i64>,
    pub path: Option<String>,
    pub url: Option<String>,
}

pub open spec fn fragment_ok(v: JsonV) -> bool {
    &&& v is Obj
    &&& i64_ok(v, "filesize"@)
    &&& str_ok(v, "path"@)
    &&& str_ok(v, "url"@)
}

pub open spec fn fragment_rel(x: Fragment, v: JsonV) -> bool {
    &&& opt_json_rel(x.duration, any_proj(v, "duration"@))
    &&& opt_i64_rel(x.filesize, i64_proj(v, "filesize"@))
    &&& opt_str_rel(x.path, str_proj(v, "path"@))
    &&& opt_str_rel(x.url, str_proj(v, "url"@))
}

/// Reads one record out of a JSON object: `Ok` exactly when every
/// field fits its shape.
pub fn fragment_of(v: &Json) -> (r: Result<Fragment, JsonError>)
    ensures
        r is Ok <==> fragment_ok(v@),
        r matches Ok(x) ==> fragment_rel(x, v@),
{
    if !v.is_object() {
        return Err(JsonError::Schema);
    }
    let duration = any_field(v, "duration")?;
    let filesize = i64_field(v, "filesize")?;
    let path = str_field(v, "path")?;
    let url = str_field(v, "url")?;
    Ok(Fragment {
        duration, filesize, path, url,
    })
}


pub open spec fn fragment_list_ok(w: JsonV) -> bool {
    w matches JsonV::Arr(items) && forall|i: int|
        0 <= i < items.len() ==> fragment_ok(#[trigger] items[i])
}

pub open spec fn fragment_list_rel(xs: Seq<Fragment>, w: JsonV) -> bool {
    w matches JsonV::Arr(items) && xs.len() == items.len() && forall|i: int|
        0 <= i < items.len() ==> fragment_rel(#[trigger] xs[i], items[i])
}

proof fn lemma_fragment_list_not_ok(w: JsonV, i: int)
    requires
        w matches JsonV::Arr(items) && 0 <= i < items.len() && !fragment_ok(items[i]),
    ensures
        !fragment_list_ok(w),
{
}

/// Reads an array of fragment records.
#[verifier::loop_isolation(false)]
fn fragment_list_of(w: &Json) -> (r: Result<Vec<Fragment>, JsonError>)
    ensures
        r is Ok <==> fragment_list_ok(w@),
        r matches Ok(xs) ==> fragment_list_rel(xs@, w@),
{
    match w {
        Json::Arr(items) => {
            proof {
                crate::json::lemma_v_arr_index(items@);
            }
            let mut out: Vec<Fragment> = Vec::new();
            let mut idx: usize = 0;
            while idx < items.len()
                invariant
                    0 <= idx <= items@.len(),
                    out@.len() == idx,
                    forall|i: int| 0 <= i < idx ==> fragment_ok(#[trigger] Json::v_arr(items@)[i]),
                    forall|i: int|
                        0 <= i < idx ==> fragment_rel(#[trigger] out@[i], Json::v_arr(items@)[i]),
                decreases items@.len() - idx,
            {
                proof {
                    assert(Json::v_arr(items@)[idx as int] == items@[idx as int]@);
                }
                match fragment_of(&items[idx]) {
                    Ok(x) => {
                        out.push(x);
                    },
                    Err(e) => {
                        proof {
                            assert(!fragment_ok(Json::v_arr(items@)[idx as int]));
                            lemma_fragment_list_not_ok(w@, idx as int);
                        }
                        return Err(e);
                    },
                }
                idx = idx + 1;
            }
            Ok(out)
        },
        _ => Err(JsonError::Schema),
    }
}

pub open spec fn fragments_ok(v: JsonV, k: Seq<char>) -> bool {
    match sp_field(v, k) {
        Option::None => true,
        Option::Some(f) => f is Null || fragment_list_ok(f),
    }
}

pub open spec fn fragments_rel(x: Option<Vec<Fragment>>, v: JsonV, k: Seq<char>) -> bool {
    match sp_field(v, k) {
        Option::None => x is None,
        Option::Some(f) => if f is Null {
            x is None
        } else {
            x matches Option::Some(xs) && fragment_list_rel(xs@, f)
        },
    }
}

fn fragments_field(v: &Json, key: &str) -> (r: Result<Option<Vec<Fragment>>, JsonError>)
    ensures
        r is Ok <==> fragments_ok(v@, key@),
        r matches Ok(x) ==> fragments_rel(x, v@, key@),
{
    match v.get(key) {
        Option::None => Ok(Option::None),
        Option::Some(f) => match f {
            Json::Null => Ok(Option::None),
            _ => match fragment_list_of(f) {
                Ok(xs) => Ok(Option::Some(xs)),
                Err(e) => Err(e),
            },
        },
    }
}

/// One chapter marker of a media item.
#[derive(Debug, Clone)]
pub struct Chapter {
    pub end_time: Option<String>,
    pub start_time: Option<String>,
    pub title: Option<String>,
}

pub open spec fn chapter_ok(v: JsonV) -> bool {
    &&& v is Obj
    &&& num_ok(v, "end_time"@)
    &&& num_ok(v, "start_time"@)
    &&& str_ok(v, "title"@)
}

pub open spec fn chapter_rel(x: Chapter, v: JsonV) -> bool {
    &&& opt_str_rel(x.end_time, num_proj(v, "end_time"@))
    &&& opt_str_rel(x.start_time, num_proj(v, "start_time"@))
    &&& opt_str_rel(x.title, str_proj(v, "title"@))
}

/// Reads one record out of a JSON object: `Ok` exactly when every
/// field fits its shape.
pub fn chapter_of(v: &Json) -> (r: Result<Chapter, JsonError>)
    ensures
        r is Ok <==> chapter_ok(v@),
        r matches Ok(x) ==> chapter_rel(x, v@),
{
    if !v.is_object() {
        return Err(JsonError::Schema);
    }
    let end_time = num_field(v, "end_time")?;
    let start_time = num_field(v, "start_time")?;
    let title = str_field(v, "title")?;
    Ok(Chapter {
        end_time, start_time, title,
    })
}


pub open spec fn chapter_list_ok(w: JsonV) -> bool {
    w matches JsonV::Arr(items) && forall|i: int|
        0 <= i < items.len() ==> chapter_ok(#[trigger] items[i])
}

pub open spec fn chapter_list_rel(xs: Seq<Chapter>, w: JsonV) -> bool {
    w matches JsonV::Arr(items) && xs.len() == items.len() && forall|i: int|
        0 <= i < items.len() ==> chapter_rel(#[trigger] xs[i], items[i])
}

proof fn lemma_chapter_list_not_ok(w: JsonV, i: int)
    requires
        w matches JsonV::Arr(items) && 0 <= i < items.len() && !chapter_ok(items[i]),
    ensures
        !chapter_list_ok(w),
{
}

/// Reads an array of chapter records.
#[verifier::loop_isolation(false)]
fn chapter_list_of(w: &Json) -> (r: Result<Vec<Chapter>, JsonError>)
    ensures
        r is Ok <==> chapter_list_ok(w@),
        r matches Ok(xs) ==> chapter_list_rel(xs@, w@),
{
    match w {
        Json::Arr(items) => {
            proof {
                crate::json::lemma_v_arr_index(items@);
            }
            let mut out: Vec<Chapter> = Vec::new();
            let mut idx: usize = 0;
            while idx < items.len()
                invariant
                    0 <= idx <= items@.len(),
                    out@.len() == idx,
                    forall|i: int| 0 <= i < idx ==> chapter_ok(#[trigger] Json::v_arr(items@)[i]),
                    forall|i: int|
                        0 <= i < idx ==> chapter_rel(#[trigger] out@[i], Json::v_arr(items@)[i]),
                decreases items@.len() - idx,
            {
                proof {
                    assert(Json::v_arr(items@)[idx as int] == items@[idx as int]@);
                }
                match chapter_of(&items[idx]) {
                    Ok(x) => {
                        out.push(x);
                    },
                    Err(e) => {
                        proof {
                            assert(!chapter_ok(Json::v_arr(items@)[idx as int]));
                            lemma_chapter_list_not_ok(w@, idx as int);
                        }
                        return Err(e);
                    },
                }
                idx = idx + 1;
            }
            Ok(out)
        },
        _ => Err(JsonError::Schema),
    }
}

pub open spec fn chapters_ok(v: JsonV, k: Seq<char>) -> bool {
    match sp_field(v, k) {
        Option::None => true,
        Option::Some(f) => f is Null || chapter_list_ok(f),
    }
}

pub open spec fn chapters_rel(x: Option<Vec<Chapter>>, v: JsonV, k: Seq<char>) -> bool {
    match sp_field(v, k) {
        Option::None => x is None,
        Option::Some(f) => if f is Null {
            x is None
        } else {
            x matches Option::Some(xs) && chapter_list_rel(xs@, f)
        },
    }
}

fn chapters_field(v: &Json, key: &str) -> (r: Result<Option<Vec<Chapter>>, JsonError>)
    ensures
        r is Ok <==> chapters_ok(v@, key@),
        r matches Ok(x) ==> chapters_rel(x, v@, key@),
{
    match v.get(key) {
        Option::None => Ok(Option::None),
        Option::Some(f) => match f {
            Json::Null => Ok(Option::None),
            _ => match chapter_list_of(f) {
                Ok(xs) => Ok(Option::Some(xs)),
                Err(e) => Err(e),
            },
        },
    }
}

/// One comment on a media item.
#[derive(Debug, Clone)]
pub struct Comment {
    pub author: Option<String>,
    pub author_id: Option<String>,
    pub html: Option<String>,
    pub id: Option<String>,
    pub parent: Option<String>,
    pub text: Option<String>,
    pub timestamp: Option<String>,
}

pub open spec fn comment_ok(v: JsonV) -> bool {
    &&& v is Obj
    &&& str_ok(v, "author"@)
    &&& str_ok(v, "author_id"@)
    &&& str_ok(v, "html"@)
    &&& str_ok(v, "id"@)
    &&& str_ok(v, "parent"@)
    &&& str_ok(v, "text"@)
    &&& num_ok(v, "timestamp"@)
}

pub open spec fn comment_rel(x: Comment, v: JsonV) -> bool {
    &&& opt_str_rel(x.author, str_proj(v, "author"@))
    &&& opt_str_rel(x.author_id, str_proj(v, "author_id"@))
    &&& opt_str_rel(x.html, str_proj(v, "html"@))
    &&& opt_str_rel(x.id, str_proj(v, "id"@))
    &&& opt_str_rel(x.parent, str_proj(v, "parent"@))
    &&& opt_str_rel(x.text, str_proj(v, "text"@))
    &&& opt_str_rel(x.timestamp, num_proj(v, "timestamp"@))
}

/// Reads one record out of a JSON object: `Ok` exactly when every
/// field fits its shape.
pub fn comment_of(v: &Json) -> (r: Result<Comment, JsonError>)
    ensures
        r is Ok <==> comment_ok(v@),
        r matches Ok(x) ==> comment_rel(x, v@),
{
    if !v.is_object() {
        return Err(JsonError::Schema);
    }
    let author = str_field(v, "author")?;
    let author_id = str_field(v, "author_id")?;
    let html = str_field(v, "html")?;
    let id = str_field(v, "id")?;
    let parent = str_field(v, "parent")?;
    let text = str_field(v, "text")?;
    let timestamp = num_field(v, "timestamp")?;
    Ok(Comment {
        author, author_id, html, id, parent, text,
        timestamp,
    })
}


pub open spec fn comment_list_ok(w: JsonV) -> bool {
    w matches JsonV::Arr(items) && forall|i: int|
        0 <= i < items.len() ==> comment_ok(#[trigger] items[i])
}

pub open spec fn comment_list_rel(xs: Seq<Comment>, w: JsonV) -> bool {
    w matches JsonV::Arr(items) && xs.len() == items.len() && forall|i: int|
        0 <= i < items.len() ==> comment_rel(#[trigger] xs[i], items[i])
}

proof fn lemma_comment_list_not_ok(w: JsonV, i: int)
    requires
        w matches JsonV::Arr(items) && 0 <= i < items.len() && !comment_ok(items[i]),
    ensures
        !comment_list_ok(w),
{
}

/// Reads an array of comment records.
#[verifier::loop_isolation(false)]
fn comment_list_of(w: &Json) -> (r: Result<Vec<Comment>, JsonError>)
    ensures
        r is Ok <==> comment_list_ok(w@),
        r matches Ok(xs) ==> comment_list_rel(xs@, w@),
{
    match w {
        Json::Arr(items) => {
            proof {
                crate::json::lemma_v_arr_index(items@);
            }
            let mut out: Vec<Comment> = Vec::new();
            let mut idx: usize = 0;
            while idx < items.len()
                invariant
                    0 <= idx <= items@.len(),
                    out@.len() == idx,
                    forall|i: int| 0 <= i < idx ==> comment_ok(#[trigger] Json::v_arr(items@)[i]),
                    forall|i: int|
                        0 <= i < idx ==> comment_rel(#[trigger] out@[i], Json::v_arr(items@)[i]),
                decreases items@.len() - idx,
            {
                proof {
                    assert(Json::v_arr(items@)[idx as int] == items@[idx as int]@);
                }
                match comment_of(&items[idx]) {
                    Ok(x) => {
                        out.push(x);
                    },
                    Err(e) => {
                        proof {
                            assert(!comment_ok(Json::v_arr(items@)[idx as int]));
                            lemma_comment_list_not_ok(w@, idx as int);
                        }
                        return Err(e);
                    },
                }
                idx = idx + 1;
            }
            Ok(out)
        },
        _ => Err(JsonError::Schema),
    }
}

pub open spec fn comments_ok(v: JsonV, k: Seq<char>) -> bool {
    match sp_field(v, k) {
        Option::None => true,
        Option::Some(f) => f is Null || comment_list_ok(f),
    }
}

pub open spec fn comments_rel(x: Option<Vec<Comment>>, v: JsonV, k: Seq<char>) -> bool {
    match sp_field(v, k) {
        Option::None => x is None,
        Option::Some(f) => if f is Null {
            x is None
        } else {
            x matches Option::Some(xs) && comment_list_rel(xs@, f)
        },
    }
}

fn comments_field(v: &Json, key: &str) -> (r: Result<Option<Vec<Comment>>, JsonError>)
    ensures
        r is Ok <==> comments_ok(v@, key@),
        r matches Ok(x) ==> comments_rel(x, v@, key@),
{
    match v.get(key) {
        Option::None => Ok(Option::None),
        Option::Some(f) => match f {
            Json::Null => Ok(Option::None),
            _ => match comment_list_of(f) {
                Ok(xs) => Ok(Option::Some(xs)),
                Err(e) => Err(e),
            },
        },
    }
}

/// One concrete download alternative for a media item. Its codec
/// fields are normalized: the literal string `"none"` becomes an absent
/// value.
#[derive(Debug, Clone)]
pub struct Format {
    pub abr: Option<String>,
    pub acodec: Option<String>,
    pub asr: Option<String>,
    pub container: Option<String>,
    pub downloader_options: Option<Vec<(String, Json)>>,
    pub ext: Option<String>,
    pub filesize: Option<String>,
    pub filesize_approx: Option<String>,
    pub format: Option<String>,
    pub format_id: Option<String>,
    pub format_note: Option<String>,
    pub fps: Option<String>,
    pub fragment_base_url: Option<String>,
    pub fragments: Option<Vec<Fragment>>,
    pub height: Option<String>,
    pub http_headers: Option<Vec<(String, Option<String>)>>,
    pub language: Option<String>,
    pub language_preference: Option<i64>,
    pub manifest_url: Option<String>,
    pub no_resume: Option<bool>,
    pub player_url: Option<String>,
    pub preference: Option<Json>,
    pub protocol: Option<Protocol>,
    pub quality: Option<String>,
    pub resolution: Option<String>,
    pub source_preference: Option<i64>,
    pub stretched_ratio: Option<String>,
    pub tbr: Option<String>,
    pub url: Option<String>,
    pub vbr: Option<String>,
    pub vcodec: Option<String>,
    pub width: Option<String>,
}

pub open spec fn format_ok(v: JsonV) -> bool {
    &&& v is Obj
    &&& num_ok(v, "abr"@)
    &&& str_ok(v, "acodec"@)
    &&& num_ok(v, "asr"@)
    &&& str_ok(v, "container"@)
    &&& options_ok(v, "downloader_options"@)
    &&& str_ok(v, "ext"@)
    &&& num_ok(v, "filesize"@)
    &&& num_ok(v, "filesize_approx"@)
    &&& str_ok(v, "format"@)
    &&& str_ok(v, "format_id"@)
    &&& str_ok(v, "format_note"@)
    &&& num_ok(v, "fps"@)
    &&& str_ok(v, "fragment_base_url"@)
    &&& fragments_ok(v, "fragments"@)
    &&& num_ok(v, "height"@)
    &&& headers_ok(v, "http_headers"@)
    &&& str_ok(v, "language"@)
    &&& i64_ok(v, "language_preference"@)
    &&& str_ok(v, "manifest_url"@)
    &&& bool_ok(v, "no_resume"@)
    &&& str_ok(v, "player_url"@)
    &&& str_ok(v, "protocol"@)
    &&& num_ok(v, "quality"@)
    &&& str_ok(v, "resolution"@)
    &&& i64_ok(v, "source_preference"@)
    &&& num_ok(v, "stretched_ratio"@)
    &&& num_ok(v, "tbr"@)
    &&& str_ok(v, "url"@)
    &&& num_ok(v, "vbr"@)
    &&& str_ok(v, "vcodec"@)
    &&& num_ok(v, "width"@)
}

pub open spec fn format_rel(x: Format, v: JsonV) -> bool {
    &&& opt_str_rel(x.abr, num_proj(v, "abr"@))
    &&& opt_str_rel(x.acodec, codec_proj(v, "acodec"@))
    &&& opt_str_rel(x.asr, num_proj(v, "asr"@))
    &&& opt_str_rel(x.container, str_proj(v, "container"@))
    &&& options_rel(x.downloader_options, v, "downloader_options"@)
    &&& opt_str_rel(x.ext, str_proj(v, "ext"@))
    &&& opt_str_rel(x.filesize, num_proj(v, "filesize"@))
    &&& opt_str_rel(x.filesize_approx, num_proj(v, "filesize_approx"@))
    &&& opt_str_rel(x.format, str_proj(v, "format"@))
    &&& opt_str_rel(x.format_id, str_proj(v, "format_id"@))
    &&& opt_str_rel(x.format_note, str_proj(v, "format_note"@))
    &&& opt_str_rel(x.fps, num_proj(v, "fps"@))
    &&& opt_str_rel(x.fragment_base_url, str_proj(v, "fragment_base_url"@))
    &&& fragments_rel(x.fragments, v, "fragments"@)
    &&& opt_str_rel(x.height, num_proj(v, "height"@))
    &&& headers_rel(x.http_headers, v, "http_headers"@)
    &&& opt_str_rel(x.language, str_proj(v, "language"@))
    &&& opt_i64_rel(x.language_preference, i64_proj(v, "language_preference"@))
    &&& opt_str_rel(x.manifest_url, str_proj(v, "manifest_url"@))
    &&& x.no_resume == bool_proj(v, "no_resume"@)
    &&& opt_str_rel(x.player_url, str_proj(v, "player_url"@))
    &&& opt_json_rel(x.preference, any_proj(v, "preference"@))
    &&& x.protocol == proto_proj(v, "protocol"@)
    &&& opt_str_rel(x.quality, num_proj(v, "quality"@))
    &&& opt_str_rel(x.resolution, str_proj(v, "resolution"@))
    &&& opt_i64_rel(x.source_preference, i64_proj(v, "source_preference"@))
    &&& opt_str_rel(x.stretched_ratio, num_proj(v, "stretched_ratio"@))
    &&& opt_str_rel(x.tbr, num_proj(v, "tbr"@))
    &&& opt_str_rel(x.url, str_proj(v, "url"@))
    &&& opt_str_rel(x.vbr, num_proj(v, "vbr"@))
    &&& opt_str_rel(x.vcodec, codec_proj(v, "vcodec"@))
    &&& opt_str_rel(x.width, num_proj(v, "width"@))
}

/// Reads one record out of a JSON object: `Ok` exactly when every
/// field fits its shape.
#[verifier::rlimit(30)]
pub fn format_of(v: &Json) -> (r: Result<Format, JsonError>)
    ensures
        r is Ok <==> format_ok(v@),
        r matches Ok(x) ==> format_rel(x, v@),
{
    if !v.is_object() {
        return Err(JsonError::Schema);
    }
    let abr = num_field(v, "abr")?;
    let acodec = codec_field(v, "acodec")?;
    let asr = num_field(v, "asr")?;
    let container = str_field(v, "container")?;
    let downloader_options = options_field(v, "downloader_options")?;
    let ext = str_field(v, "ext")?;
    let filesize = num_field(v, "filesize")?;
    let filesize_approx = num_field(v, "filesize_approx")?;
    let format = str_field(v, "format")?;
    let format_id = str_field(v, "format_id")?;
    let format_note = str_field(v, "format_note")?;
    let fps = num_field(v, "fps")?;
    let fragment_base_url = str_field(v, "fragment_base_url")?;
    let fragments = fragments_field(v, "fragments")?;
    let height = num_field(v, "height")?;
    let http_headers = headers_field(v, "http_headers")?;
    let language = str_field(v, "language")?;
    let language_preference = i64_field(v, "language_preference")?;
    let manifest_url = str_field(v, "manifest_url")?;
    let no_resume = bool_field(v, "no_resume")?;
    let player_url = str_field(v, "player_url")?;
    let preference = any_field(v, "preference")?;
    let protocol = protocol_field(v, "protocol")?;
    let quality = num_field(v, "quality")?;
    let resolution = str_field(v, "resolution")?;
    let source_preference = i64_field(v, "source_preference")?;
    let stretched_ratio = num_field(v, "stretched_ratio")?;
    let tbr = num_field(v, "tbr")?;
    let url = str_field(v, "url")?;
    let vbr = num_field(v, "vbr")?;
    let vcodec = codec_field(v, "vcodec")?;
    let width = num_field(v, "width")?;
    Ok(Format {
        abr, acodec, asr, container, downloader_options, ext,
        filesize, filesize_approx, format, format_id, format_note, fps,
        fragment_base_url, fragments, height, http_headers, language, language_preference,
        manifest_url, no_resume, player_url, preference, protocol, quality,
        resolution, source_preference, stretched_ratio, tbr, url, vbr,
        vcodec, width,
    })
}


pub open spec fn format_list_ok(w: JsonV) -> bool {
    w matches JsonV::Arr(items) && forall|i: int|
        0 <= i < items.len() ==> format_ok(#[trigger] items[i])
}

pub open spec fn format_list_rel(xs: Seq<Format>, w: JsonV) -> bool {
    w matches JsonV::Arr(items) && xs.len() == items.len() && forall|i: int|
        0 <= i < items.len() ==> format_rel(#[trigger] xs[i], items[i])
}

proof fn lemma_format_list_not_ok(w: JsonV, i: int)
    requires
        w matches JsonV::Arr(items) && 0 <= i < items.len() && !format_ok(items[i]),
    ensures
        !format_list_ok(w),
{
}

/// Reads an array of format records.
#[verifier::loop_isolation(false)]
fn format_list_of(w: &Json) -> (r: Result<Vec<Format>, JsonError>)
    ensures
        r is Ok <==> format_list_ok(w@),
        r matches Ok(xs) ==> format_list_rel(xs@, w@),
{
    match w {
        Json::Arr(items) => {
            proof {
                crate::json::lemma_v_arr_index(items@);
            }
            let mut out: Vec<Format> = Vec::new();
            let mut idx: usize = 0;
            while idx < items.len()
                invariant
                    0 <= idx <= items@.len(),
                    out@.len() == idx,
                    forall|i: int| 0 <= i < idx ==> format_ok(#[trigger] Json::v_arr(items@)[i]),
                    forall|i: int|
                        0 <= i < idx ==> format_rel(#[trigger] out@[i], Json::v_arr(items@)[i]),
                decreases items@.len() - idx,
            {
                proof {
                    assert(Json::v_arr(items@)[idx as int] == items@[idx as int]@);
                }
                match format_of(&items[idx]) {
                    Ok(x) => {
                        out.push(x);
                    },
                    Err(e) => {
                        proof {
                            assert(!format_ok(Json::v_arr(items@)[idx as int]));
                            lemma_format_list_not_ok(w@, idx as int);
                        }
                        return Err(e);
                    },
                }
                idx = idx + 1;
            }
            Ok(out)
        },
        _ => Err(JsonError::Schema),
    }
}

pub open spec fn formats_ok(v: JsonV, k: Seq<char>) -> bool {
    match sp_field(v, k) {
        Option::None => true,
        Option::Some(f) => f is Null || format_list_ok(f),
    }
}

pub open spec fn formats_rel(x: Option<Vec<Format>>, v: JsonV, k: Seq<char>) -> bool {
    match sp_field(v, k) {
        Option::None => x is None,
        Option::Some(f) => if f is Null {
            x is None
        } else {
            x matches Option::Some(xs) && format_list_rel(xs@, f)
        },
    }
}

fn formats_field(v: &Json, key: &str) -> (r: Result<Option<Vec<Format>>, JsonError>)
    ensures
        r is Ok <==> formats_ok(v@, key@),
        r matches Ok(x) ==> formats_rel(x, v@, key@),
{
    match v.get(key) {
        Option::None => Ok(Option::None),
        Option::Some(f) => match f {
            Json::Null => Ok(Option::None),
            _ => match format_list_of(f) {
                Ok(xs) => Ok(Option::Some(xs)),
                Err(e) => Err(e),
            },
        },
    }
}

/// One media item: a flat record of mostly-optional metadata. Only
/// `id` and `title` are required.
#[derive(Debug, Clone)]
pub struct SingleVideo {
    pub abr: Option<String>,
    pub acodec: Option<String>,
    pub age_limit: Option<i64>,
    pub album: Option<String>,
    pub album_artist: Option<String>,
    pub album_type: Option<String>,
    pub alt_title: Option<String>,
    pub artist: Option<String>,
    pub asr: Option<String>,
    pub automatic_captions: Option<Vec<(String, Vec<Subtitle>)>>,
    pub average_rating: Option<Json>,
    pub categories: Option<Vec<Option<String>>>,
    pub channel: Option<String>,
    pub channel_id: Option<String>,
    pub channel_url: Option<String>,
    pub chapter: Option<String>,
    pub chapter_id: Option<String>,
    pub chapter_number: Option<String>,
    pub chapters: Option<Vec<Chapter>>,
    pub comment_count: Option<i64>,
    pub comments: Option<Vec<Comment>>,
    pub container: Option<String>,
    pub creator: Option<String>,
    pub description: Option<String>,
    pub disc_number: Option<i64>,
    pub dislike_count: Option<i64>,
    pub display_id: Option<String>,
    pub downloader_options: Option<Vec<(String, Json)>>,
    pub duration: Option<Json>,
    pub duration_string: Option<String>,
    pub end_time: Option<String>,
    pub episode: Option<String>,
    pub episode_id: Option<String>,
    pub episode_number: Option<i32>,
    pub epoch: Option<i64>,
    pub ext: Option<String>,
    pub extractor: Option<String>,
    pub extractor_key: Option<String>,
    pub filesize: Option<i64>,
    pub filesize_approx: Option<String>,
    pub format: Option<String>,
    pub format_id: Option<String>,
    pub format_note: Option<String>,
    pub formats: Option<Vec<Format>>,
    pub fps: Option<String>,
    pub fragment_base_url: Option<String>,
    pub fragments: Option<Vec<Fragment>>,
    pub genre: Option<String>,
    pub height: Option<String>,
    pub http_headers: Option<Vec<(String, Option<String>)>>,
    pub id: String,
    pub is_live: Option<bool>,
    pub language: Option<String>,
    pub language_preference: Option<i64>,
    pub license: Option<String>,
    pub like_count: Option<i64>,
    pub location: Option<String>,
    pub manifest_url: Option<String>,
    pub no_resume: Option<bool>,
    pub player_url: Option<String>,
    pub playlist: Option<String>,
    pub playlist_id: Option<String>,
    pub playlist_index: Option<Json>,
    pub playlist_title: Option<String>,
    pub playlist_uploader: Option<String>,
    pub playlist_uploader_id: Option<String>,
    pub preference: Option<Json>,
    pub protocol: Option<Protocol>,
    pub quality: Option<String>,
    pub release_date: Option<String>,
    pub release_year: Option<i64>,
    pub repost_count: Option<i64>,
    pub requested_subtitles: Option<Vec<(String, Subtitle)>>,
    pub resolution: Option<String>,
    pub season: Option<String>,
    pub season_id: Option<String>,
    pub season_number: Option<i32>,
    pub series: Option<String>,
    pub source_preference: Option<i64>,
    pub start_time: Option<String>,
    pub stretched_ratio: Option<String>,
    pub subtitles: Option<Vec<(String, Option<Vec<Subtitle>>)>>,
    pub tags: Option<Vec<Option<String>>>,
    pub tbr: Option<String>,
    pub thumbnail: Option<String>,
    pub thumbnails: Option<Vec<Thumbnail>>,
    pub timestamp: Option<String>,
    pub title: String,
    pub track: Option<String>,
    pub track_id: Option<String>,
    pub track_number: Option<String>,
    pub upload_date: Option<String>,
    pub uploader: Option<String>,
    pub uploader_id: Option<String>,
    pub uploader_url: Option<String>,
    pub url: Option<String>,
    pub vbr: Option<String>,
    pub vcodec: Option<String>,
    pub view_count: Option<i64>,
    pub webpage_url: Option<String>,
    pub width: Option<String>,
}

pub open spec fn single_video_ok(v: JsonV) -> bool {
    &&& v is Obj
    &&& num_ok(v, "abr"@)
    &&& str_ok(v, "acodec"@)
    &&& i64_ok(v, "age_limit"@)
    &&& str_ok(v, "album"@)
    &&& str_ok(v, "album_artist"@)
    &&& str_ok(v, "album_type"@)
    &&& str_ok(v, "alt_title"@)
    &&& str_ok(v, "artist"@)
    &&& num_ok(v, "asr"@)
    &&& captions_ok(v, "automatic_captions"@)
    &&& strlist_ok(v, "categories"@)
    &&& str_ok(v, "channel"@)
    &&& str_ok(v, "channel_id"@)
    &&& str_ok(v, "channel_url"@)
    &&& str_ok(v, "chapter"@)
    &&& str_ok(v, "chapter_id"@)
    &&& str_ok(v, "chapter_number"@)
    &&& chapters_ok(v, "chapters"@)
    &&& i64_ok(v, "comment_count"@)
    &&& comments_ok(v, "comments"@)
    &&& str_ok(v, "container"@)
    &&& str_ok(v, "creator"@)
    &&& str_ok(v, "description"@)
    &&& i64_ok(v, "disc_number"@)
    &&& i64_ok(v, "dislike_count"@)
    &&& str_ok(v, "display_id"@)
    &&& options_ok(v, "downloader_options"@)
    &&& str_ok(v, "duration_string"@)
    &&& str_ok(v, "end_time"@)
    &&& str_ok(v, "episode"@)
    &&& str_ok(v, "episode_id"@)
    &&& i32_ok(v, "episode_number"@)
    &&& i64_ok(v, "epoch"@)
    &&& str_ok(v, "ext"@)
    &&& str_ok(v, "extractor"@)
    &&& str_ok(v, "extractor_key"@)
    &&& i64_ok(v, "filesize"@)
    &&& num_ok(v, "filesize_approx"@)
    &&& str_ok(v, "format"@)
    &&& str_ok(v, "format_id"@)
    &&& str_ok(v, "format_note"@)
    &&& formats_ok(v, "formats"@)
    &&& num_ok(v, "fps"@)
    &&& str_ok(v, "fragment_base_url"@)
    &&& fragments_ok(v, "fragments"@)
    &&& str_ok(v, "genre"@)
    &&& num_ok(v, "height"@)
    &&& headers_ok(v, "http_headers"@)
    &&& str_req_ok(v, "id"@)
    &&& bool_ok(v, "is_live"@)
    &&& str_ok(v, "language"@)
    &&& i64_ok(v, "language_preference"@)
    &&& str_ok(v, "license"@)
    &&& i64_ok(v, "like_count"@)
    &&& str_ok(v, "location"@)
    &&& str_ok(v, "manifest_url"@)
    &&& bool_ok(v, "no_resume"@)
    &&& str_ok(v, "player_url"@)
    &&& str_ok(v, "playlist"@)
    &&& str_ok(v, "playlist_id"@)
    &&& str_ok(v, "playlist_title"@)
    &&& str_ok(v, "playlist_uploader"@)
    &&& str_ok(v, "playlist_uploader_id"@)
    &&& str_ok(v, "protocol"@)
    &&& num_ok(v, "quality"@)
    &&& str_ok(v, "release_date"@)
    &&& i64_ok(v, "release_year"@)
    &&& i64_ok(v, "repost_count"@)
    &&& reqsubs_ok(v, "requested_subtitles"@)
    &&& str_ok(v, "resolution"@)
    &&& str_ok(v, "season"@)
    &&& str_ok(v, "season_id"@)
    &&& i32_ok(v, "season_number"@)
    &&& str_ok(v, "series"@)
    &&& i64_ok(v, "source_preference"@)
    &&& str_ok(v, "start_time"@)
    &&& num_ok(v, "stretched_ratio"@)
    &&& subsmap_ok(v, "subtitles"@)
    &&& strlist_ok(v, "tags"@)
    &&& num_ok(v, "tbr"@)
    &&& str_ok(v, "thumbnail"@)
    &&& thumbnails_ok(v, "thumbnails"@)
    &&& num_ok(v, "timestamp"@)
    &&& str_req_ok(v, "title"@)
    &&& str_ok(v, "track"@)
    &&& str_ok(v, "track_id"@)
    &&& str_ok(v, "track_number"@)
    &&& str_ok(v, "upload_date"@)
    &&& str_ok(v, "uploader"@)
    &&& str_ok(v, "uploader_id"@)
    &&& str_ok(v, "uploader_url"@)
    &&& str_ok(v, "url"@)
    &&& num_ok(v, "vbr"@)
    &&& str_ok(v, "vcodec"@)
    &&& i64_ok(v, "view_count"@)
    &&& str_ok(v, "webpage_url"@)
    &&& num_ok(v, "width"@)
}

pub open spec fn single_video_rel(x: SingleVideo, v: JsonV) -> bool {
    &&& opt_str_rel(x.abr, num_proj(v, "abr"@))
    &&& opt_str_rel(x.acodec, str_proj(v, "acodec"@))
    &&& opt_i64_rel(x.age_limit, i64_proj(v, "age_limit"@))
    &&& opt_str_rel(x.album, str_proj(v, "album"@))
    &&& opt_str_rel(x.album_artist, str_proj(v, "album_artist"@))
    &&& opt_str_rel(x.album_type, str_proj(v, "album_type"@))
    &&& opt_str_rel(x.alt_title, str_proj(v, "alt_title"@))
    &&& opt_str_rel(x.artist, str_proj(v, "artist"@))
    &&& opt_str_rel(x.asr, num_proj(v, "asr"@))
    &&& captions_rel(x.automatic_captions, v, "automatic_captions"@)
    &&& opt_json_rel(x.average_rating, any_proj(v, "average_rating"@))
    &&& strlist_rel(x.categories, v, "categories"@)
    &&& opt_str_rel(x.channel, str_proj(v, "channel"@))
    &&& opt_str_rel(x.channel_id, str_proj(v, "channel_id"@))
    &&& opt_str_rel(x.channel_url, str_proj(v, "channel_url"@))
    &&& opt_str_rel(x.chapter, str_proj(v, "chapter"@))
    &&& opt_str_rel(x.chapter_id, str_proj(v, "chapter_id"@))
    &&& opt_str_rel(x.chapter_number, str_proj(v, "chapter_number"@))
    &&& chapters_rel(x.chapters, v, "chapters"@)
    &&& opt_i64_rel(x.comment_count, i64_proj(v, "comment_count"@))
    &&& comments_rel(x.comments, v, "comments"@)
    &&& opt_str_rel(x.container, str_proj(v, "container"@))
    &&& opt_str_rel(x.creator, str_proj(v, "creator"@))
    &&& opt_str_rel(x.description, str_proj(v, "description"@))
    &&& opt_i64_rel(x.disc_number, i64_proj(v, "disc_number"@))
    &&& opt_i64_rel(x.dislike_count, i64_proj(v, "dislike_count"@))
    &&& opt_str_rel(x.display_id, str_proj(v, "display_id"@))
    &&& options_rel(x.downloader_options, v, "downloader_options"@)
    &&& opt_json_rel(x.duration, any_proj(v, "duration"@))
    &&& opt_str_rel(x.duration_string, str_proj(v, "duration_string"@))
    &&& opt_str_rel(x.end_time, str_proj(v, "end_time"@))
    &&& opt_str_rel(x.episode, str_proj(v, "episode"@))
    &&& opt_str_rel(x.episode_id, str_proj(v, "episode_id"@))
    &&& opt_i32_rel(x.episode_number, i64_proj(v, "episode_number"@))
    &&& opt_i64_rel(x.epoch, i64_proj(v, "epoch"@))
    &&& opt_str_rel(x.ext, str_proj(v, "ext"@))
    &&& opt_str_rel(x.extractor, str_proj(v, "extractor"@))
    &&& opt_str_rel(x.extractor_key, str_proj(v, "extractor_key"@))
    &&& opt_i64_rel(x.filesize, i64_proj(v, "filesize"@))
    &&& opt_str_rel(x.filesize_approx, num_proj(v, "filesize_approx"@))
    &&& opt_str_rel(x.format, str_proj(v, "format"@))
    &&& opt_str_rel(x.format_id, str_proj(v, "format_id"@))
    &&& opt_str_rel(x.format_note, str_proj(v, "format_note"@))
    &&& formats_rel(x.formats, v, "formats"@)
    &&& opt_str_rel(x.fps, num_proj(v, "fps"@))
    &&& opt_str_rel(x.fragment_base_url, str_proj(v, "fragment_base_url"@))
    &&& fragments_rel(x.fragments, v, "fragments"@)
    &&& opt_str_rel(x.genre, str_proj(v, "genre"@))
    &&& opt_str_rel(x.height, num_proj(v, "height"@))
    &&& headers_rel(x.http_headers, v, "http_headers"@)
    &&& x.id@ == str_req_proj(v, "id"@)
    &&& x.is_live == bool_proj(v, "is_live"@)
    &&& opt_str_rel(x.language, str_proj(v, "language"@))
    &&& opt_i64_rel(x.language_preference, i64_proj(v, "language_preference"@))
    &&& opt_str_rel(x.license, str_proj(v, "license"@))
    &&& opt_i64_rel(x.like_count, i64_proj(v, "like_count"@))
    &&& opt_str_rel(x.location, str_proj(v, "location"@))
    &&& opt_str_rel(x.manifest_url, str_proj(v, "manifest_url"@))
    &&& x.no_resume == bool_proj(v, "no_resume"@)
    &&& opt_str_rel(x.player_url, str_proj(v, "player_url"@))
    &&& opt_str_rel(x.playlist, str_proj(v, "playlist"@))
    &&& opt_str_rel(x.playlist_id, str_proj(v, "playlist_id"@))
    &&& opt_json_rel(x.playlist_index, any_proj(v, "playlist_index"@))
    &&& opt_str_rel(x.playlist_title, str_proj(v, "playlist_title"@))
    &&& opt_str_rel(x.playlist_uploader, str_proj(v, "playlist_uploader"@))
    &&& opt_str_rel(x.playlist_uploader_id, str_proj(v, "playlist_uploader_id"@))
    &&& opt_json_rel(x.preference, any_proj(v, "preference"@))
    &&& x.protocol == proto_proj(v, "protocol"@)
    &&& opt_str_rel(x.quality, num_proj(v, "quality"@))
    &&& opt_str_rel(x.release_date, str_proj(v, "release_date"@))
    &&& opt_i64_rel(x.release_year, i64_proj(v, "release_year"@))
    &&& opt_i64_rel(x.repost_count, i64_proj(v, "repost_count"@))
    &&& reqsubs_rel(x.requested_subtitles, v, "requested_subtitles"@)
    &&& opt_str_rel(x.resolution, str_proj(v, "resolution"@))
    &&& opt_str_rel(x.season, str_proj(v, "season"@))
    &&& opt_str_rel(x.season_id, str_proj(v, "season_id"@))
    &&& opt_i32_rel(x.season_number, i64_proj(v, "season_number"@))
    &&& opt_str_rel(x.series, str_proj(v, "series"@))
    &&& opt_i64_rel(x.source_preference, i64_proj(v, "source_preference"@))
    &&& opt_str_rel(x.start_time, str_proj(v, "start_time"@))
    &&& opt_str_rel(x.stretched_ratio, num_proj(v, "stretched_ratio"@))
    &&& subsmap_rel(x.subtitles, v, "subtitles"@)
    &&& strlist_rel(x.tags, v, "tags"@)
    &&& opt_str_rel(x.tbr, num_proj(v, "tbr"@))
    &&& opt_str_rel(x.thumbnail, str_proj(v, "thumbnail"@))
    &&& thumbnails_rel(x.thumbnails, v, "thumbnails"@)
    &&& opt_str_rel(x.timestamp, num_proj(v, "timestamp"@))
    &&& x.title@ == str_req_proj(v, "title"@)
    &&& opt_str_rel(x.track, str_proj(v, "track"@))
    &&& opt_str_rel(x.track_id, str_proj(v, "track_id"@))
    &&& opt_str_rel(x.track_number, str_proj(v, "track_number"@))
    &&& opt_str_rel(x.upload_date, str_proj(v, "upload_date"@))
    &&& opt_str_rel(x.uploader, str_proj(v, "uploader"@))
    &&& opt_str_rel(x.uploader_id, str_proj(v, "uploader_id"@))
    &&& opt_str_rel(x.uploader_url, str_proj(v, "uploader_url"@))
    &&& opt_str_rel(x.url, str_proj(v, "url"@))
    &&& opt_str_rel(x.vbr, num_proj(v, "vbr"@))
    &&& opt_str_rel(x.vcodec, str_proj(v, "vcodec"@))
    &&& opt_i64_rel(x.view_count, i64_proj(v, "view_count"@))
    &&& opt_str_rel(x.webpage_url, str_proj(v, "webpage_url"@))
    &&& opt_str_rel(x.width, num_proj(v, "width"@))
}

/// Reads one record out of a JSON object: `Ok` exactly when every
/// field fits its shape.
#[verifier::rlimit(80)]
pub fn single_video_of(v: &Json) -> (r: Result<SingleVideo, JsonError>)
    ensures
        r is Ok <==> single_video_ok(v@),
        r matches Ok(x) ==> single_video_rel(x, v@),
{
    if !v.is_object() {
        return Err(JsonError::Schema);
    }
    let abr = num_field(v, "abr")?;
    let acodec = str_field(v, "acodec")?;
    let age_limit = i64_field(v, "age_limit")?;
    let album = str_field(v, "album")?;
    let album_artist = str_field(v, "album_artist")?;
    let album_type = str_field(v, "album_type")?;
    let alt_title = str_field(v, "alt_title")?;
    let artist = str_field(v, "artist")?;
    let asr = num_field(v, "asr")?;
    let automatic_captions = captions_field(v, "automatic_captions")?;
    let average_rating = any_field(v, "average_rating")?;
    let categories = strlist_field(v, "categories")?;
    let channel = str_field(v, "channel")?;
    let channel_id = str_field(v, "channel_id")?;
    let channel_url = str_field(v, "channel_url")?;
    let chapter = str_field(v, "chapter")?;
    let chapter_id = str_field(v, "chapter_id")?;
    let chapter_number = str_field(v, "chapter_number")?;
    let chapters = chapters_field(v, "chapters")?;
    let comment_count = i64_field(v, "comment_count")?;
    let comments = comments_field(v, "comments")?;
    let container = str_field(v, "container")?;
    let creator = str_field(v, "creator")?;
    let description = str_field(v, "description")?;
    let disc_number = i64_field(v, "disc_number")?;
    let dislike_count = i64_field(v, "dislike_count")?;
    let display_id = str_field(v, "display_id")?;
    let downloader_options = options_field(v, "downloader_options")?;
    let duration = any_field(v, "duration")?;
    let duration_string = str_field(v, "duration_string")?;
    let end_time = str_field(v, "end_time")?;
    let episode = str_field(v, "episode")?;
    let episode_id = str_field(v, "episode_id")?;
    let episode_number = i32_field(v, "episode_number")?;
    let epoch = i64_field(v, "epoch")?;
    let ext = str_field(v, "ext")?;
    let extractor = str_field(v, "extractor")?;
    let extractor_key = str_field(v, "extractor_key")?;
    let filesize = i64_field(v, "filesize")?;
    let filesize_approx = num_field(v, "filesize_approx")?;
    let format = str_field(v, "format")?;
    let format_id = str_field(v, "format_id")?;
    let format_note = str_field(v, "format_note")?;
    let formats = formats_field(v, "formats")?;
    let fps = num_field(v, "fps")?;
    let fragment_base_url = str_field(v, "fragment_base_url")?;
    let fragments = fragments_field(v, "fragments")?;
    let genre = str_field(v, "genre")?;
    let height = num_field(v, "height")?;
    let http_headers = headers_field(v, "http_headers")?;
    let id = str_req_field(v, "id")?;
    let is_live = bool_field(v, "is_live")?;
    let language = str_field(v, "language")?;
    let language_preference = i64_field(v, "language_preference")?;
    let license = str_field(v, "license")?;
    let like_count = i64_field(v, "like_count")?;
    let location = str_field(v, "location")?;
    let manifest_url = str_field(v, "manifest_url")?;
    let no_resume = bool_field(v, "no_resume")?;
    let player_url = str_field(v, "player_url")?;
    let playlist = str_field(v, "playlist")?;
    let playlist_id = str_field(v, "playlist_id")?;
    let playlist_index = any_field(v, "playlist_index")?;
    let playlist_title = str_field(v, "playlist_title")?;
    let playlist_uploader = str_field(v, "playlist_uploader")?;
    let playlist_uploader_id = str_field(v, "playlist_uploader_id")?;
    let preference = any_field(v, "preference")?;
    let protocol = protocol_field(v, "protocol")?;
    let quality = num_field(v, "quality")?;
    let release_date = str_field(v, "release_date")?;
    let release_year = i64_field(v, "release_year")?;
    let repost_count = i64_field(v, "repost_count")?;
    let requested_subtitles = reqsubs_field(v, "requested_subtitles")?;
    let resolution = str_field(v, "resolution")?;
    let season = str_field(v, "season")?;
    let season_id = str_field(v, "season_id")?;
    let season_number = i32_field(v, "season_number")?;
    let series = str_field(v, "series")?;
    let source_preference = i64_field(v, "source_preference")?;
    let start_time = str_field(v, "start_time")?;
    let stretched_ratio = num_field(v, "stretched_ratio")?;
    let subtitles = subsmap_field(v, "subtitles")?;
    let tags = strlist_field(v, "tags")?;
    let tbr = num_field(v, "tbr")?;
    let thumbnail = str_field(v, "thumbnail")?;
    let thumbnails = thumbnails_field(v, "thumbnails")?;
    let timestamp = num_field(v, "timestamp")?;
    let title = str_req_field(v, "title")?;
    let track = str_field(v, "track")?;
    let track_id = str_field(v, "track_id")?;
    let track_number = str_field(v, "track_number")?;
    let upload_date = str_field(v, "upload_date")?;
    let uploader = str_field(v, "uploader")?;
    let uploader_id = str_field(v, "uploader_id")?;
    let uploader_url = str_field(v, "uploader_url")?;
    let url = str_field(v, "url")?;
    let vbr = num_field(v, "vbr")?;
    let vcodec = str_field(v, "vcodec")?;
    let view_count = i64_field(v, "view_count")?;
    let webpage_url = str_field(v, "webpage_url")?;
    let width = num_field(v, "width")?;
    Ok(SingleVideo {
        abr, acodec, age_limit, album, album_artist, album_type,
        alt_title, artist, asr, automatic_captions, average_rating, categories,
        channel, channel_id, channel_url, chapter, chapter_id, chapter_number,
        chapters, comment_count, comments, container, creator, description,
        disc_number, dislike_count, display_id, downloader_options, duration, duration_string,
        end_time, episode, episode_id, episode_number, epoch, ext,
        extractor, extractor_key, filesize, filesize_approx, format, format_id,
        format_note, formats, fps, fragment_base_url, fragments, genre,
        height, http_headers, id, is_live, language, language_preference,
        license, like_count, location, manifest_url, no_resume, player_url,
        playlist, playlist_id, playlist_index, playlist_title, playlist_uploader, playlist_uploader_id,
        preference, protocol, quality, release_date, release_year, repost_count,
        requested_subtitles, resolution, season, season_id, season_number, series,
        source_preference, start_time, stretched_ratio, subtitles, tags, tbr,
        thumbnail, thumbnails, timestamp, title, track, track_id,
        track_number, upload_date, uploader, uploader_id, uploader_url, url,
        vbr, vcodec, view_count, webpage_url, width,
    })
}


pub open spec fn single_video_list_ok(w: JsonV) -> bool {
    w matches JsonV::Arr(items) && forall|i: int|
        0 <= i < items.len() ==> single_video_ok(#[trigger] items[i])
}

pub open spec fn single_video_list_rel(xs: Seq<SingleVideo>, w: JsonV) -> bool {
    w matches JsonV::Arr(items) && xs.len() == items.len() && forall|i: int|
        0 <= i < items.len() ==> single_video_rel(#[trigger] xs[i], items[i])
}

proof fn lemma_single_video_list_not_ok(w: JsonV, i: int)
    requires
        w matches JsonV::Arr(items) && 0 <= i < items.len() && !single_video_ok(items[i]),
    ensures
        !single_video_list_ok(w),
{
}

/// Reads an array of media item records.
#[verifier::loop_isolation(false)]
fn single_video_list_of(w: &Json) -> (r: Result<Vec<SingleVideo>, JsonError>)
    ensures
        r is Ok <==> single_video_list_ok(w@),
        r matches Ok(xs) ==> single_video_list_rel(xs@, w@),
{
    match w {
        Json::Arr(items) => {
            proof {
                crate::json::lemma_v_arr_index(items@);
            }
            let mut out: Vec<SingleVideo> = Vec::new();
            let mut idx: usize = 0;
            while idx < items.len()
                invariant
                    0 <= idx <= items@.len(),
                    out@.len() == idx,
                    forall|i: int| 0 <= i < idx ==> single_video_ok(#[trigger] Json::v_arr(items@)[i]),
                    forall|i: int|
                        0 <= i < idx ==> single_video_rel(#[trigger] out@[i], Json::v_arr(items@)[i]),
                decreases items@.len() - idx,
            {
                proof {
                    assert(Json::v_arr(items@)[idx as int] == items@[idx as int]@);
                }
                match single_video_of(&items[idx]) {
                    Ok(x) => {
                        out.push(x);
                    },
                    Err(e) => {
                        proof {
                            assert(!single_video_ok(Json::v_arr(items@)[idx as int]));
                            lemma_single_video_list_not_ok(w@, idx as int);
                        }
                        return Err(e);
                    },
                }
                idx = idx + 1;
            }
            Ok(out)
        },
        _ => Err(JsonError::Schema),
    }
}

pub open spec fn single_videos_ok(v: JsonV, k: Seq<char>) -> bool {
    match sp_field(v, k) {
        Option::None => true,
        Option::Some(f) => f is Null || single_video_list_ok(f),
    }
}

pub open spec fn single_videos_rel(x: Option<Vec<SingleVideo>>, v: JsonV, k: Seq<char>) -> bool {
    match sp_field(v, k) {
        Option::None => x is None,
        Option::Some(f) => if f is Null {
            x is None
        } else {
            x matches Option::Some(xs) && single_video_list_rel(xs@, f)
        },
    }
}

fn single_videos_field(v: &Json, key: &str) -> (r: Result<Option<Vec<SingleVideo>>, JsonError>)
    ensures
        r is Ok <==> single_videos_ok(v@, key@),
        r matches Ok(x) ==> single_videos_rel(x, v@, key@),
{
    match v.get(key) {
        Option::None => Ok(Option::None),
        Option::Some(f) => match f {
            Json::Null => Ok(Option::None),
            _ => match single_video_list_of(f) {
                Ok(xs) => Ok(Option::Some(xs)),
                Err(e) => Err(e),
            },
        },
    }
}

/// A collection of media items; entries, when present, keep their
/// source order.
#[derive(Debug, Clone)]
pub struct Playlist {
    pub entries: Option<Vec<SingleVideo>>,
    pub extractor: Option<String>,
    pub extractor_key: Option<String>,
    pub id: Option<String>,
    pub title: Option<String>,
    pub uploader: Option<String>,
    pub uploader_id: Option<String>,
    pub uploader_url: Option<String>,
    pub webpage_url: Option<String>,
    pub webpage_url_basename: Option<String>,
    pub thumbnails: Option<Vec<Thumbnail>>,
}

pub open spec fn playlist_ok(v: JsonV) -> bool {
    &&& v is Obj
    &&& single_videos_ok(v, "entries"@)
    &&& str_ok(v, "extractor"@)
    &&& str_ok(v, "extractor_key"@)
    &&& str_ok(v, "id"@)
    &&& str_ok(v, "title"@)
    &&& str_ok(v, "uploader"@)
    &&& str_ok(v, "uploader_id"@)
    &&& str_ok(v, "uploader_url"@)
    &&& str_ok(v, "webpage_url"@)
    &&& str_ok(v, "webpage_url_basename"@)
    &&& thumbnails_ok(v, "thumbnails"@)
}

pub open spec fn playlist_rel(x: Playlist, v: JsonV) -> bool {
    &&& single_videos_rel(x.entries, v, "entries"@)
    &&& opt_str_rel(x.extractor, str_proj(v, "extractor"@))
    &&& opt_str_rel(x.extractor_key, str_proj(v, "extractor_key"@))
    &&& opt_str_rel(x.id, str_proj(v, "id"@))
    &&& opt_str_rel(x.title, str_proj(v, "title"@))
    &&& opt_str_rel(x.uploader, str_proj(v, "uploader"@))
    &&& opt_str_rel(x.uploader_id, str_proj(v, "uploader_id"@))
    &&& opt_str_rel(x.uploader_url, str_proj(v, "uploader_url"@))
    &&& opt_str_rel(x.webpage_url, str_proj(v, "webpage_url"@))
    &&& opt_str_rel(x.webpage_url_basename, str_proj(v, "webpage_url_basename"@))
    &&& thumbnails_rel(x.thumbnails, v, "thumbnails"@)
}

/// Reads one record out of a JSON object: `Ok` exactly when every
/// field fits its shape.
pub fn playlist_of(v: &Json) -> (r: Result<Playlist, JsonError>)
    ensures
        r is Ok <==> playlist_ok(v@),
        r matches Ok(x) ==> playlist_rel(x, v@),
{
    if !v.is_object() {
        return Err(JsonError::Schema);
    }
    let entries = single_videos_field(v, "entries")?;
    let extractor = str_field(v, "extractor")?;
    let extractor_key = str_field(v, "extractor_key")?;
    let id = str_field(v, "id")?;
    let title = str_field(v, "title")?;
    let uploader = str_field(v, "uploader")?;
    let uploader_id = str_field(v, "uploader_id")?;
    let uploader_url = str_field(v, "uploader_url")?;
    let webpage_url = str_field(v, "webpage_url")?;
    let webpage_url_basename = str_field(v, "webpage_url_basename")?;
    let thumbnails = thumbnails_field(v, "thumbnails")?;
    Ok(Playlist {
        entries, extractor, extractor_key, id, title, uploader,
        uploader_id, uploader_url, webpage_url, webpage_url_basename, thumbnails,
    })
}

} // verus!

verus! {

/// A codec member holding the literal string `"none"` means "no track":
/// the deserialized format carries an absent codec, never that string.
pub proof fn lemma_codec_none_absent(f: Format, v: JsonV)
    requires
        format_rel(f, v),
    ensures
        sp_field(v, "acodec"@) == Option::Some(JsonV::Str("none"@)) ==> f.acodec is None,
        sp_field(v, "vcodec"@) == Option::Some(JsonV::Str("none"@)) ==> f.vcodec is None,
{
}

} // verus!

verus! {

/// An older, narrower cut of the media-item record, kept for callers
/// that still read it.
#[derive(Debug, Clone)]
pub struct JsonOutput {
    pub age_limit: Option<i64>,
    pub album: Option<String>,
    pub album_artist: Option<String>,
    pub album_type: Option<String>,
    pub alt_title: Option<String>,
    pub artist: Option<String>,
    pub automatic_captions: Option<Vec<(String, Vec<Subtitle>)>>,
    pub average_rating: Option<Json>,
    pub categories: Option<Vec<Option<String>>>,
    pub channel: Option<String>,
    pub channel_id: Option<String>,
    pub channel_url: Option<String>,
    pub chapter: Option<String>,
    pub chapter_id: Option<String>,
    pub chapter_number: Option<String>,
    pub chapters: Option<Vec<Chapter>>,
    pub comment_count: Option<i64>,
    pub comments: Option<Vec<Comment>>,
    pub creator: Option<String>,
    pub description: Option<String>,
    pub disc_number: Option<i64>,
    pub dislike_count: Option<i64>,
    pub display_id: Option<String>,
    pub duration: Option<Json>,
    pub duration_string: Option<String>,
    pub end_time: Option<String>,
    pub episode: Option<String>,
    pub episode_id: Option<String>,
    pub episode_number: Option<i32>,
    pub epoch: Option<i64>,
    pub extractor: Option<String>,
    pub extractor_key: Option<String>,
    pub formats: Option<Vec<Format>>,
    pub genre: Option<String>,
    pub id: String,
    pub is_live: Option<bool>,
    pub license: Option<String>,
    pub like_count: Option<i64>,
    pub location: Option<String>,
    pub playlist: Option<String>,
    pub playlist_id: Option<String>,
    pub playlist_index: Option<Json>,
    pub playlist_title: Option<String>,
    pub playlist_uploader: Option<String>,
    pub playlist_uploader_id: Option<String>,
    pub release_date: Option<String>,
    pub release_year: Option<i64>,
    pub repost_count: Option<i64>,
    pub requested_subtitles: Option<Vec<(String, Subtitle)>>,
    pub season: Option<String>,
    pub season_id: Option<String>,
    pub season_number: Option<i32>,
    pub series: Option<String>,
    pub start_time: Option<String>,
    pub subtitles: Option<Vec<(String, Option<Vec<Subtitle>>)>>,
    pub tags: Option<Vec<Option<String>>>,
    pub thumbnail: Option<String>,
    pub thumbnails: Option<Vec<Thumbnail>>,
    pub timestamp: Option<String>,
    pub title: String,
    pub track: Option<String>,
    pub track_id: Option<String>,
    pub track_number: Option<String>,
    pub upload_date: Option<String>,
    pub uploader: Option<String>,
    pub uploader_id: Option<String>,
    pub uploader_url: Option<String>,
    pub view_count: Option<i64>,
    pub webpage_url: Option<String>,
}

pub open spec fn json_output_ok(v: JsonV) -> bool {
    &&& v is Obj
    &&& i64_ok(v, "age_limit"@)
    &&& str_ok(v, "album"@)
    &&& str_ok(v, "album_artist"@)
    &&& str_ok(v, "album_type"@)
    &&& str_ok(v, "alt_title"@)
    &&& str_ok(v, "artist"@)
    &&& captions_ok(v, "automatic_captions"@)
    &&& strlist_ok(v, "categories"@)
    &&& str_ok(v, "channel"@)
    &&& str_ok(v, "channel_id"@)
    &&& str_ok(v, "channel_url"@)
    &&& str_ok(v, "chapter"@)
    &&& str_ok(v, "chapter_id"@)
    &&& str_ok(v, "chapter_number"@)
    &&& chapters_ok(v, "chapters"@)
    &&& i64_ok(v, "comment_count"@)
    &&& comments_ok(v, "comments"@)
    &&& str_ok(v, "creator"@)
    &&& str_ok(v, "description"@)
    &&& i64_ok(v, "disc_number"@)
    &&& i64_ok(v, "dislike_count"@)
    &&& str_ok(v, "display_id"@)
    &&& str_ok(v, "duration_string"@)
    &&& str_ok(v, "end_time"@)
    &&& str_ok(v, "episode"@)
    &&& str_ok(v, "episode_id"@)
    &&& i32_ok(v, "episode_number"@)
    &&& i64_ok(v, "epoch"@)
    &&& str_ok(v, "extractor"@)
    &&& str_ok(v, "extractor_key"@)
    &&& formats_ok(v, "formats"@)
    &&& str_ok(v, "genre"@)
    &&& str_req_ok(v, "id"@)
    &&& bool_ok(v, "is_live"@)
    &&& str_ok(v, "license"@)
    &&& i64_ok(v, "like_count"@)
    &&& str_ok(v, "location"@)
    &&& str_ok(v, "playlist"@)
    &&& str_ok(v, "playlist_id"@)
    &&& str_ok(v, "playlist_title"@)
    &&& str_ok(v, "playlist_uploader"@)
    &&& str_ok(v, "playlist_uploader_id"@)
    &&& str_ok(v, "release_date"@)
    &&& i64_ok(v, "release_year"@)
    &&& i64_ok(v, "repost_count"@)
    &&& reqsubs_ok(v, "requested_subtitles"@)
    &&& str_ok(v, "season"@)
    &&& str_ok(v, "season_id"@)
    &&& i32_ok(v, "season_number"@)
    &&& str_ok(v, "series"@)
    &&& str_ok(v, "start_time"@)
    &&& subsmap_ok(v, "subtitles"@)
    &&& strlist_ok(v, "tags"@)
    &&& str_ok(v, "thumbnail"@)
    &&& thumbnails_ok(v, "thumbnails"@)
    &&& num_ok(v, "timestamp"@)
    &&& str_req_ok(v, "title"@)
    &&& str_ok(v, "track"@)
    &&& str_ok(v, "track_id"@)
    &&& str_ok(v, "track_number"@)
    &&& str_ok(v, "upload_date"@)
    &&& str_ok(v, "uploader"@)
    &&& str_ok(v, "uploader_id"@)
    &&& str_ok(v, "uploader_url"@)
    &&& i64_ok(v, "view_count"@)
    &&& str_ok(v, "webpage_url"@)
}

pub open spec fn json_output_rel(x: JsonOutput, v: JsonV) -> bool {
    &&& opt_i64_rel(x.age_limit, i64_proj(v, "age_limit"@))
    &&& opt_str_rel(x.album, str_proj(v, "album"@))
    &&& opt_str_rel(x.album_artist, str_proj(v, "album_artist"@))
    &&& opt_str_rel(x.album_type, str_proj(v, "album_type"@))
    &&& opt_str_rel(x.alt_title, str_proj(v, "alt_title"@))
    &&& opt_str_rel(x.artist, str_proj(v, "artist"@))
    &&& captions_rel(x.automatic_captions, v, "automatic_captions"@)
    &&& opt_json_rel(x.average_rating, any_proj(v, "average_rating"@))
    &&& strlist_rel(x.categories, v, "categories"@)
    &&& opt_str_rel(x.channel, str_proj(v, "channel"@))
    &&& opt_str_rel(x.channel_id, str_proj(v, "channel_id"@))
    &&& opt_str_rel(x.channel_url, str_proj(v, "channel_url"@))
    &&& opt_str_rel(x.chapter, str_proj(v, "chapter"@))
    &&& opt_str_rel(x.chapter_id, str_proj(v, "chapter_id"@))
    &&& opt_str_rel(x.chapter_number, str_proj(v, "chapter_number"@))
    &&& chapters_rel(x.chapters, v, "chapters"@)
    &&& opt_i64_rel(x.comment_count, i64_proj(v, "comment_count"@))
    &&& comments_rel(x.comments, v, "comments"@)
    &&& opt_str_rel(x.creator, str_proj(v, "creator"@))
    &&& opt_str_rel(x.description, str_proj(v, "description"@))
    &&& opt_i64_rel(x.disc_number, i64_proj(v, "disc_number"@))
    &&& opt_i64_rel(x.dislike_count, i64_proj(v, "dislike_count"@))
    &&& opt_str_rel(x.display_id, str_proj(v, "display_id"@))
    &&& opt_json_rel(x.duration, any_proj(v, "duration"@))
    &&& opt_str_rel(x.duration_string, str_proj(v, "duration_string"@))
    &&& opt_str_rel(x.end_time, str_proj(v, "end_time"@))
    &&& opt_str_rel(x.episode, str_proj(v, "episode"@))
    &&& opt_str_rel(x.episode_id, str_proj(v, "episode_id"@))
    &&& opt_i32_rel(x.episode_number, i64_proj(v, "episode_number"@))
    &&& opt_i64_rel(x.epoch, i64_proj(v, "epoch"@))
    &&& opt_str_rel(x.extractor, str_proj(v, "extractor"@))
    &&& opt_str_rel(x.extractor_key, str_proj(v, "extractor_key"@))
    &&& formats_rel(x.formats, v, "formats"@)
    &&& opt_str_rel(x.genre, str_proj(v, "genre"@))
    &&& x.id@ == str_req_proj(v, "id"@)
    &&& x.is_live == bool_proj(v, "is_live"@)
    &&& opt_str_rel(x.license, str_proj(v, "license"@))
    &&& opt_i64_rel(x.like_count, i64_proj(v, "like_count"@))
    &&& opt_str_rel(x.location, str_proj(v, "location"@))
    &&& opt_str_rel(x.playlist, str_proj(v, "playlist"@))
    &&& opt_str_rel(x.playlist_id, str_proj(v, "playlist_id"@))
    &&& opt_json_rel(x.playlist_index, any_proj(v, "playlist_index"@))
    &&& opt_str_rel(x.playlist_title, str_proj(v, "playlist_title"@))
    &&& opt_str_rel(x.playlist_uploader, str_proj(v, "playlist_uploader"@))
    &&& opt_str_rel(x.playlist_uploader_id, str_proj(v, "playlist_uploader_id"@))
    &&& opt_str_rel(x.release_date, str_proj(v, "release_date"@))
    &&& opt_i64_rel(x.release_year, i64_proj(v, "release_year"@))
    &&& opt_i64_rel(x.repost_count, i64_proj(v, "repost_count"@))
    &&& reqsubs_rel(x.requested_subtitles, v, "requested_subtitles"@)
    &&& opt_str_rel(x.season, str_proj(v, "season"@))
    &&& opt_str_rel(x.season_id, str_proj(v, "season_id"@))
    &&& opt_i32_rel(x.season_number, i64_proj(v, "season_number"@))
    &&& opt_str_rel(x.series, str_proj(v, "series"@))
    &&& opt_str_rel(x.start_time, str_proj(v, "start_time"@))
    &&& subsmap_rel(x.subtitles, v, "subtitles"@)
    &&& strlist_rel(x.tags, v, "tags"@)
    &&& opt_str_rel(x.thumbnail, str_proj(v, "thumbnail"@))
    &&& thumbnails_rel(x.thumbnails, v, "thumbnails"@)
    &&& opt_str_rel(x.timestamp, num_proj(v, "timestamp"@))
    &&& x.title@ == str_req_proj(v, "title"@)
    &&& opt_str_rel(x.track, str_proj(v, "track"@))
    &&& opt_str_rel(x.track_id, str_proj(v, "track_id"@))
    &&& opt_str_rel(x.track_number, str_proj(v, "track_number"@))
    &&& opt_str_rel(x.upload_date, str_proj(v, "upload_date"@))
    &&& opt_str_rel(x.uploader, str_proj(v, "uploader"@))
    &&& opt_str_rel(x.uploader_id, str_proj(v, "uploader_id"@))
    &&& opt_str_rel(x.uploader_url, str_proj(v, "uploader_url"@))
    &&& opt_i64_rel(x.view_count, i64_proj(v, "view_count"@))
    &&& opt_str_rel(x.webpage_url, str_proj(v, "webpage_url"@))
}

/// Reads one record out of a JSON object: `Ok` exactly when every
/// field fits its shape.
#[verifier::rlimit(60)]
pub fn json_output_of(v: &Json) -> (r: Result<JsonOutput, JsonError>)
    ensures
        r is Ok <==> json_output_ok(v@),
        r matches Ok(x) ==> json_output_rel(x, v@),
{
    if !v.is_object() {
        return Err(JsonError::Schema);
    }
    let age_limit = i64_field(v, "age_limit")?;
    let album = str_field(v, "album")?;
    let album_artist = str_field(v, "album_artist")?;
    let album_type = str_field(v, "album_type")?;
    let alt_title = str_field(v, "alt_title")?;
    let artist = str_field(v, "artist")?;
    let automatic_captions = captions_field(v, "automatic_captions")?;
    let average_rating = any_field(v, "average_rating")?;
    let categories = strlist_field(v, "categories")?;
    let channel = str_field(v, "channel")?;
    let channel_id = str_field(v, "channel_id")?;
    let channel_url = str_field(v, "channel_url")?;
    let chapter = str_field(v, "chapter")?;
    let chapter_id = str_field(v, "chapter_id")?;
    let chapter_number = str_field(v, "chapter_number")?;
    let chapters = chapters_field(v, "chapters")?;
    let comment_count = i64_field(v, "comment_count")?;
    let comments = comments_field(v, "comments")?;
    let creator = str_field(v, "creator")?;
    let description = str_field(v, "description")?;
    let disc_number = i64_field(v, "disc_number")?;
    let dislike_count = i64_field(v, "dislike_count")?;
    let display_id = str_field(v, "display_id")?;
    let duration = any_field(v, "duration")?;
    let duration_string = str_field(v, "duration_string")?;
    let end_time = str_field(v, "end_time")?;
    let episode = str_field(v, "episode")?;
    let episode_id = str_field(v, "episode_id")?;
    let episode_number = i32_field(v, "episode_number")?;
    let epoch = i64_field(v, "epoch")?;
    let extractor = str_field(v, "extractor")?;
    let extractor_key = str_field(v, "extractor_key")?;
    let formats = formats_field(v, "formats")?;
    let genre = str_field(v, "genre")?;
    let id = str_req_field(v, "id")?;
    let is_live = bool_field(v, "is_live")?;
    let license = str_field(v, "license")?;
    let like_count = i64_field(v, "like_count")?;
    let location = str_field(v, "location")?;
    let playlist = str_field(v, "playlist")?;
    let playlist_id = str_field(v, "playlist_id")?;
    let playlist_index = any_field(v, "playlist_index")?;
    let playlist_title = str_field(v, "playlist_title")?;
    let playlist_uploader = str_field(v, "playlist_uploader")?;
    let playlist_uploader_id = str_field(v, "playlist_uploader_id")?;
    let release_date = str_field(v, "release_date")?;
    let release_year = i64_field(v, "release_year")?;
    let repost_count = i64_field(v, "repost_count")?;
    let requested_subtitles = reqsubs_field(v, "requested_subtitles")?;
    let season = str_field(v, "season")?;
    let season_id = str_field(v, "season_id")?;
    let season_number = i32_field(v, "season_number")?;
    let series = str_field(v, "series")?;
    let start_time = str_field(v, "start_time")?;
    let subtitles = subsmap_field(v, "subtitles")?;
    let tags = strlist_field(v, "tags")?;
    let thumbnail = str_field(v, "thumbnail")?;
    let thumbnails = thumbnails_field(v, "thumbnails")?;
    let timestamp = num_field(v, "timestamp")?;
    let title = str_req_field(v, "title")?;
    let track = str_field(v, "track")?;
    let track_id = str_field(v, "track_id")?;
    let track_number = str_field(v, "track_number")?;
    let upload_date = str_field(v, "upload_date")?;
    let uploader = str_field(v, "uploader")?;
    let uploader_id = str_field(v, "uploader_id")?;
    let uploader_url = str_field(v, "uploader_url")?;
    let view_count = i64_field(v, "view_count")?;
    let webpage_url = str_field(v, "webpage_url")?;
    Ok(JsonOutput {
        age_limit, album, album_artist, album_type, alt_title, artist,
        automatic_captions, average_rating, categories, channel, channel_id, channel_url,
        chapter, chapter_id, chapter_number, chapters, comment_count, comments,
        creator, description, disc_number, dislike_count, display_id, duration,
        duration_string, end_time, episode, episode_id, episode_number, epoch,
        extractor, extractor_key, formats, genre, id, is_live,
        license, like_count, location, playlist, playlist_id, playlist_index,
        playlist_title, playlist_uploader, playlist_uploader_id, release_date, release_year, repost_count,
        requested_subtitles, season, season_id, season_number, series, start_time,
        subtitles, tags, thumbnail, thumbnails, timestamp, title,
        track, track_id, track_number, upload_date, uploader, uploader_id,
        uploader_url, view_count, webpage_url,
    })
}

} // verus!

verus! {

/// A media item's `duration` member is kept loose on purpose: whether two
/// documents that agree on every other member are accepted never depends
/// on the shape of `duration` — a string, a number, or anything else.
pub proof fn lemma_duration_shape_free(j1: JsonV, j2: JsonV)
    requires
        j1 is Obj,
        j2 is Obj,
        forall|k: Seq<char>| k != "duration"@ ==> #[trigger] sp_field(j1, k) == sp_field(j2, k),
    ensures
        single_video_ok(j1) == single_video_ok(j2),
{
    reveal_strlit("duration");
    reveal_strlit("abr");
    reveal_strlit("acodec");
    reveal_strlit("age_limit");
    reveal_strlit("album");
    reveal_strlit("album_artist");
    reveal_strlit("album_type");
    reveal_strlit("alt_title");
    reveal_strlit("artist");
    reveal_strlit("asr");
    reveal_strlit("automatic_captions");
    reveal_strlit("average_rating");
    reveal_strlit("categories");
    reveal_strlit("channel");
    reveal_strlit("channel_id");
    reveal_strlit("channel_url");
    reveal_strlit("chapter");
    reveal_strlit("chapter_id");
    reveal_strlit("chapter_number");
    reveal_strlit("chapters");
    reveal_strlit("comment_count");
    reveal_strlit("comments");
    reveal_strlit("container");
    reveal_strlit("creator");
    reveal_strlit("description");
    reveal_strlit("disc_number");
    reveal_strlit("dislike_count");
    reveal_strlit("display_id");
    reveal_strlit("downloader_options");
    reveal_strlit("duration_string");
    reveal_strlit("end_time");
    reveal_strlit("episode");
    reveal_strlit("episode_id");
    reveal_strlit("episode_number");
    reveal_strlit("epoch");
    reveal_strlit("ext");
    reveal_strlit("extractor");
    reveal_strlit("extractor_key");
    reveal_strlit("filesize");
    reveal_strlit("filesize_approx");
    reveal_strlit("format");
    reveal_strlit("format_id");
    reveal_strlit("format_note");
    reveal_strlit("formats");
    reveal_strlit("fps");
    reveal_strlit("fragment_base_url");
    reveal_strlit("fragments");
    reveal_strlit("genre");
    reveal_strlit("height");
    reveal_strlit("http_headers");
    reveal_strlit("id");
    reveal_strlit("is_live");
    reveal_strlit("language");
    reveal_strlit("language_preference");
    reveal_strlit("license");
    reveal_strlit("like_count");
    reveal_strlit("location");
    reveal_strlit("manifest_url");
    reveal_strlit("no_resume");
    reveal_strlit("player_url");
    reveal_strlit("playlist");
    reveal_strlit("playlist_id");
    reveal_strlit("playlist_index");
    reveal_strlit("playlist_title");
    reveal_strlit("playlist_uploader");
    reveal_strlit("playlist_uploader_id");
    reveal_strlit("preference");
    reveal_strlit("protocol");
    reveal_strlit("quality");
    reveal_strlit("release_date");
    reveal_strlit("release_year");
    reveal_strlit("repost_count");
    reveal_strlit("requested_subtitles");
    reveal_strlit("resolution");
    reveal_strlit("season");
    reveal_strlit("season_id");
    reveal_strlit("season_number");
    reveal_strlit("series");
    reveal_strlit("source_preference");
    reveal_strlit("start_time");
    reveal_strlit("stretched_ratio");
    reveal_strlit("subtitles");
    reveal_strlit("tags");
    reveal_strlit("tbr");
    reveal_strlit("thumbnail");
    reveal_strlit("thumbnails");
    reveal_strlit("timestamp");
    reveal_strlit("title");
    reveal_strlit("track");
    reveal_strlit("track_id");
    reveal_strlit("track_number");
    reveal_strlit("upload_date");
    reveal_strlit("uploader");
    reveal_strlit("uploader_id");
    reveal_strlit("uploader_url");
    reveal_strlit("url");
    reveal_strlit("vbr");
    reveal_strlit("vcodec");
    reveal_strlit("view_count");
    reveal_strlit("webpage_url");
    reveal_strlit("width");
    assert("duration"@.len() == 8);
    assert(sp_field(j1, "abr"@) == sp_field(j2, "abr"@));
    assert(sp_field(j1, "acodec"@) == sp_field(j2, "acodec"@));
    assert(sp_field(j1, "age_limit"@) == sp_field(j2, "age_limit"@));
    assert(sp_field(j1, "album"@) == sp_field(j2, "album"@));
    assert(sp_field(j1, "album_artist"@) == sp_field(j2, "album_artist"@));
    assert(sp_field(j1, "album_type"@) == sp_field(j2, "album_type"@));
    assert(sp_field(j1, "alt_title"@) == sp_field(j2, "alt_title"@));
    assert(sp_field(j1, "artist"@) == sp_field(j2, "artist"@));
    assert(sp_field(j1, "asr"@) == sp_field(j2, "asr"@));
    assert(sp_field(j1, "automatic_captions"@) == sp_field(j2, "automatic_captions"@));
    assert(sp_field(j1, "average_rating"@) == sp_field(j2, "average_rating"@));
    assert(sp_field(j1, "categories"@) == sp_field(j2, "categories"@));
    assert(sp_field(j1, "channel"@) == sp_field(j2, "channel"@));
    assert(sp_field(j1, "channel_id"@) == sp_field(j2, "channel_id"@));
    assert(sp_field(j1, "channel_url"@) == sp_field(j2, "channel_url"@));
    assert(sp_field(j1, "chapter"@) == sp_field(j2, "chapter"@));
    assert(sp_field(j1, "chapter_id"@) == sp_field(j2, "chapter_id"@));
    assert(sp_field(j1, "chapter_number"@) == sp_field(j2, "chapter_number"@));
    assert("chapters"@[0] != "duration"@[0]);
    assert(sp_field(j1, "chapters"@) == sp_field(j2, "chapters"@));
    assert(sp_field(j1, "comment_count"@) == sp_field(j2, "comment_count"@));
    assert("comments"@[0] != "duration"@[0]);
    assert(sp_field(j1, "comments"@) == sp_field(j2, "comments"@));
    assert(sp_field(j1, "container"@) == sp_field(j2, "container"@));
    assert(sp_field(j1, "creator"@) == sp_field(j2, "creator"@));
    assert(sp_field(j1, "description"@) == sp_field(j2, "description"@));
    assert(sp_field(j1, "disc_number"@) == sp_field(j2, "disc_number"@));
    assert(sp_field(j1, "dislike_count"@) == sp_field(j2, "dislike_count"@));
    assert(sp_field(j1, "display_id"@) == sp_field(j2, "display_id"@));
    assert(sp_field(j1, "downloader_options"@) == sp_field(j2, "downloader_options"@));
    assert(sp_field(j1, "duration_string"@) == sp_field(j2, "duration_string"@));
    assert(sp_field(j1, "end_time"@) == sp_field(j2, "end_time"@));
    assert(sp_field(j1, "episode"@) == sp_field(j2, "episode"@));
    assert(sp_field(j1, "episode_id"@) == sp_field(j2, "episode_id"@));
    assert(sp_field(j1, "episode_number"@) == sp_field(j2, "episode_number"@));
    assert(sp_field(j1, "epoch"@) == sp_field(j2, "epoch"@));
    assert(sp_field(j1, "ext"@) == sp_field(j2, "ext"@));
    assert(sp_field(j1, "extractor"@) == sp_field(j2, "extractor"@));
    assert(sp_field(j1, "extractor_key"@) == sp_field(j2, "extractor_key"@));
    assert("filesize"@[0] != "duration"@[0]);
    assert(sp_field(j1, "filesize"@) == sp_field(j2, "filesize"@));
    assert(sp_field(j1, "filesize_approx"@) == sp_field(j2, "filesize_approx"@));
    assert(sp_field(j1, "format"@) == sp_field(j2, "format"@));
    assert(sp_field(j1, "format_id"@) == sp_field(j2, "format_id"@));
    assert(sp_field(j1, "format_note"@) == sp_field(j2, "format_note"@));
    assert(sp_field(j1, "formats"@) == sp_field(j2, "formats"@));
    assert(sp_field(j1, "fps"@) == sp_field(j2, "fps"@));
    assert(sp_field(j1, "fragment_base_url"@) == sp_field(j2, "fragment_base_url"@));
    assert(sp_field(j1, "fragments"@) == sp_field(j2, "fragments"@));
    assert(sp_field(j1, "genre"@) == sp_field(j2, "genre"@));
    assert(sp_field(j1, "height"@) == sp_field(j2, "height"@));
    assert(sp_field(j1, "http_headers"@) == sp_field(j2, "http_headers"@));
    assert(sp_field(j1, "id"@) == sp_field(j2, "id"@));
    assert(sp_field(j1, "is_live"@) == sp_field(j2, "is_live"@));
    assert(sp_field(j1, "language"@) == sp_field(j2, "language"@));
    assert(sp_field(j1, "language_preference"@) == sp_field(j2, "language_preference"@));
    assert(sp_field(j1, "license"@) == sp_field(j2, "license"@));
    assert(sp_field(j1, "like_count"@) == sp_field(j2, "like_count"@));
    assert("location"@[0] != "duration"@[0]);
    assert(sp_field(j1, "location"@) == sp_field(j2, "location"@));
    assert(sp_field(j1, "manifest_url"@) == sp_field(j2, "manifest_url"@));
    assert(sp_field(j1, "no_resume"@) == sp_field(j2, "no_resume"@));
    assert(sp_field(j1, "player_url"@) == sp_field(j2, "player_url"@));
    assert("playlist"@[0] != "duration"@[0]);
    assert(sp_field(j1, "playlist"@) == sp_field(j2, "playlist"@));
    assert(sp_field(j1, "playlist_id"@) == sp_field(j2, "playlist_id"@));
    assert(sp_field(j1, "playlist_index"@) == sp_field(j2, "playlist_index"@));
    assert(sp_field(j1, "playlist_title"@) == sp_field(j2, "playlist_title"@));
    assert(sp_field(j1, "playlist_uploader"@) == sp_field(j2, "playlist_uploader"@));
    assert(sp_field(j1, "playlist_uploader_id"@) == sp_field(j2, "playlist_uploader_id"@));
    assert(sp_field(j1, "preference"@) == sp_field(j2, "preference"@));
    assert(sp_field(j1, "protocol"@) == sp_field(j2, "protocol"@));
    assert(sp_field(j1, "quality"@) == sp_field(j2, "quality"@));
    assert(sp_field(j1, "release_date"@) == sp_field(j2, "release_date"@));
    assert(sp_field(j1, "release_year"@) == sp_field(j2, "release_year"@));
    assert(sp_field(j1, "repost_count"@) == sp_field(j2, "repost_count"@));
    assert(sp_field(j1, "requested_subtitles"@) == sp_field(j2, "requested_subtitles"@));
    assert(sp_field(j1, "resolution"@) == sp_field(j2, "resolution"@));
    assert(sp_field(j1, "season"@) == sp_field(j2, "season"@));
    assert(sp_field(j1, "season_id"@) == sp_field(j2, "season_id"@));
    assert(sp_field(j1, "season_number"@) == sp_field(j2, "season_number"@));
    assert(sp_field(j1, "series"@) == sp_field(j2, "series"@));
    assert(sp_field(j1, "source_preference"@) == sp_field(j2, "source_preference"@));
    assert(sp_field(j1, "start_time"@) == sp_field(j2, "start_time"@));
    assert(sp_field(j1, "stretched_ratio"@) == sp_field(j2, "stretched_ratio"@));
    assert(sp_field(j1, "subtitles"@) == sp_field(j2, "subtitles"@));
    assert(sp_field(j1, "tags"@) == sp_field(j2, "tags"@));
    assert(sp_field(j1, "tbr"@) == sp_field(j2, "tbr"@));
    assert(sp_field(j1, "thumbnail"@) == sp_field(j2, "thumbnail"@));
    assert(sp_field(j1, "thumbnails"@) == sp_field(j2, "thumbnails"@));
    assert(sp_field(j1, "timestamp"@) == sp_field(j2, "timestamp"@));
    assert(sp_field(j1, "title"@) == sp_field(j2, "title"@));
    assert(sp_field(j1, "track"@) == sp_field(j2, "track"@));
    assert("track_id"@[0] != "duration"@[0]);
    assert(sp_field(j1, "track_id"@) == sp_field(j2, "track_id"@));
    assert(sp_field(j1, "track_number"@) == sp_field(j2, "track_number"@));
    assert(sp_field(j1, "upload_date"@) == sp_field(j2, "upload_date"@));
    assert(sp_field(j1, "uploader"@) == sp_field(j2, "uploader"@));
    assert(sp_field(j1, "uploader_id"@) == sp_field(j2, "uploader_id"@));
    assert(sp_field(j1, "uploader_url"@) == sp_field(j2, "uploader_url"@));
    assert(sp_field(j1, "url"@) == sp_field(j2, "url"@));
    assert(sp_field(j1, "vbr"@) == sp_field(j2, "vbr"@));
    assert(sp_field(j1, "vcodec"@) == sp_field(j2, "vcodec"@));
    assert(sp_field(j1, "view_count"@) == sp_field(j2, "view_count"@));
    assert(sp_field(j1, "webpage_url"@) == sp_field(j2, "webpage_url"@));
    assert(sp_field(j1, "width"@) == sp_field(j2, "width"@));
}

} // verus!
