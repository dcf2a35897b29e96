//! A library for driving an external media-extraction tool (`youtube-dl` /
//! `yt-dlp`): it assembles the tool's command line, classifies the outcome of
//! a finished process run, and parses the tool's JSON output into typed
//! records. The output is one JSON document, either a playlist object
//! (announced by a `_type` member equal to `"playlist"`) or a single media
//! item; the two shapes share many member names, so the document is parsed
//! generically first and the discriminant member decides the typed shape.

use vstd::prelude::*;

pub mod builder;
pub mod json;
pub mod model;
pub mod release;
pub mod search;
pub mod text;

use crate::json::{Json, JsonError, JsonV, sp_doc, sp_field};
use crate::model::{
    Playlist, SingleVideo, playlist_ok, playlist_rel, single_video_ok, single_video_rel,
    playlist_of, single_video_of,
};
use crate::text::{utf8_to_string, str_eq};
use vstd::utf8::{valid_utf8, decode_utf8};

verus! {

/// Everything that can go wrong when running the tool or reading what it
/// wrote.
#[derive(Debug, Clone, PartialEq)]
pub enum Error {
    /// An I/O failure: the tool could not be spawned or a stream could not
    /// be read, described as text.
    Io(String),
    /// The tool's output was not one JSON document of the required shape.
    Json(JsonError),
    /// The tool exited with a non-zero code; its standard error is carried
    /// along, decoded permissively.
    ExitCode {
        /// The exit code.
        code: i32,
        /// The tool's standard error text.
        stderr: String,
    },
    /// The configured wall-clock timeout elapsed before the tool exited.
    ProcessTimeout,
    /// An HTTP failure while fetching a release, described as text.
    Http(String),
    /// The latest release holds no asset with the expected name.
    NoReleaseFound,
}

/// What one successful run of the tool produced: a playlist or one item.
#[derive(Debug, Clone)]
pub enum YoutubeDlOutput {
    /// Playlist result.
    Playlist(Box<Playlist>),
    /// Single item result.
    SingleVideo(Box<SingleVideo>),
}

impl YoutubeDlOutput {
    /// The inner content as a single item, or nothing for a playlist.
    pub fn into_single_video(self) -> (r: Option<SingleVideo>)
        ensures
            r matches Some(v) ==> self matches YoutubeDlOutput::SingleVideo(b) && v == *b,
            r is None <==> self is Playlist,
    {
        match self {
            YoutubeDlOutput::SingleVideo(video) => Some(*video),
            _ => None,
        }
    }

    /// The inner content as a playlist, or nothing for a single item.
    pub fn into_playlist(self) -> (r: Option<Playlist>)
        ensures
            r matches Some(p) ==> self matches YoutubeDlOutput::Playlist(b) && p == *b,
            r is None <==> self is SingleVideo,
    {
        match self {
            YoutubeDlOutput::Playlist(playlist) => Some(*playlist),
            _ => None,
        }
    }
}

/// Whether a parsed document announces itself as a playlist through its
/// `_type` member.
pub open spec fn is_playlist_doc(j: JsonV) -> bool {
    sp_field(j, "_type"@) == Option::Some(JsonV::Str("playlist"@))
}

/// Whether the shape the discriminant selects fits the document.
pub open spec fn doc_shape_ok(j: JsonV) -> bool {
    if is_playlist_doc(j) {
        playlist_ok(j)
    } else {
        single_video_ok(j)
    }
}

/// Whether output bytes deserialize: valid UTF-8, one well-formed JSON
/// document, and the shape the discriminant selects fits.
pub open spec fn json_output_doc_ok(bytes: Seq<u8>) -> bool {
    &&& valid_utf8(bytes)
    &&& sp_doc(decode_utf8(bytes)) matches Option::Some(j) && doc_shape_ok(j)
}

/// The discriminating deserializer's whole contract: how a typed result
/// relates to the raw output bytes it was read from.
pub open spec fn json_output_rel(r: Result<YoutubeDlOutput, Error>, bytes: Seq<u8>) -> bool {
    &&& (r is Ok <==> json_output_doc_ok(bytes))
    &&& (r matches Ok(YoutubeDlOutput::Playlist(p)) ==> sp_doc(decode_utf8(bytes))
        matches Option::Some(j) && is_playlist_doc(j) && playlist_rel(*p, j))
    &&& (r matches Ok(YoutubeDlOutput::SingleVideo(v)) ==> sp_doc(decode_utf8(bytes))
        matches Option::Some(j) && !is_playlist_doc(j) && single_video_rel(*v, j))
    &&& ((!valid_utf8(bytes) || sp_doc(decode_utf8(bytes)) is None) ==> r == Err::<
        YoutubeDlOutput,
        Error,
    >(Error::Json(JsonError::Syntax)))
    &&& (match sp_doc(decode_utf8(bytes)) {
        Option::Some(j) => (valid_utf8(bytes) && !doc_shape_ok(j)) ==> r == Err::<
            YoutubeDlOutput,
            Error,
        >(Error::Json(JsonError::Schema)),
        Option::None => true,
    })
}

/// Deserializes one JSON document from the tool's output bytes: the
/// document is parsed generically, the `_type` member picks the shape, and
/// the bytes map to the typed result exactly as [`json_output_rel`] states.
pub fn process_json_output(stdout: Vec<u8>) -> (r: Result<YoutubeDlOutput, Error>)
    ensures
        json_output_rel(r, stdout@),
{
    let s = match utf8_to_string(stdout) {
        Some(s) => s,
        None => {
            return Err(Error::Json(JsonError::Syntax));
        },
    };
    let j = match crate::json::parse_json(s.as_str()) {
        Ok(j) => j,
        Err(_) => {
            return Err(Error::Json(JsonError::Syntax));
        },
    };
    let playlist = match j.get("_type") {
        Some(Json::Str(t)) => str_eq(t.as_str(), "playlist"),
        _ => false,
    };
    if playlist {
        match playlist_of(&j) {
            Ok(p) => Ok(YoutubeDlOutput::Playlist(Box::new(p))),
            Err(_) => Err(Error::Json(JsonError::Schema)),
        }
    } else {
        match single_video_of(&j) {
            Ok(v) => Ok(YoutubeDlOutput::SingleVideo(Box::new(v))),
            Err(_) => Err(Error::Json(JsonError::Schema)),
        }
    }
}

/// How one generic JSON result relates to the raw output bytes: the
/// fallback path that skips the typed records.
pub open spec fn raw_output_rel(r: Result<Json, Error>, bytes: Seq<u8>) -> bool {
    &&& (r is Ok <==> valid_utf8(bytes) && sp_doc(decode_utf8(bytes)) is Some)
    &&& (r matches Ok(j) ==> sp_doc(decode_utf8(bytes)) == Option::Some(j@))
    &&& (r is Err ==> r == Err::<Json, Error>(Error::Json(JsonError::Syntax)))
}

/// Parses the tool's output bytes into one generic JSON value, for callers
/// whose documents do not fit the typed records.
pub fn process_raw_output(stdout: Vec<u8>) -> (r: Result<Json, Error>)
    ensures
        raw_output_rel(r, stdout@),
{
    let s = match utf8_to_string(stdout) {
        Some(s) => s,
        None => {
            return Err(Error::Json(JsonError::Syntax));
        },
    };
    match crate::json::parse_json(s.as_str()) {
        Ok(j) => Ok(j),
        Err(_) => Err(Error::Json(JsonError::Syntax)),
    }
}

/// How one run of the external tool ended, with what it wrote. The states a
/// run moves through end in exactly one of these.
#[derive(Debug, Clone)]
pub enum ProcessOutcome {
    /// The process exited on its own: its exit code (`None` when a signal
    /// ended it) and the captured output bytes.
    Completed {
        /// The exit code, or `None` when a signal ended the process.
        code: Option<i32>,
        /// Everything the process wrote on its standard output.
        stdout: Vec<u8>,
        /// Everything the process wrote on its standard error.
        stderr: Vec<u8>,
    },
    /// The configured timeout elapsed first; the process was terminated and
    /// its partial output is discarded.
    TimedOut,
    /// The process could not be spawned or a stream could not be read.
    SpawnFailed(String),
}

} // verus!

verus! {

/// A valid document that does not announce itself as a playlist — its
/// `_type` member is absent or differs from `"playlist"` — deserializes
/// to the single-item variant, carrying that document's media item.
pub proof fn lemma_single_item_discriminant(
    r: Result<YoutubeDlOutput, Error>,
    bytes: Seq<u8>,
    j: JsonV,
)
    requires
        json_output_rel(r, bytes),
        valid_utf8(bytes),
        sp_doc(decode_utf8(bytes)) == Option::Some(j),
        !is_playlist_doc(j),
        single_video_ok(j),
    ensures
        r matches Ok(o) && o matches YoutubeDlOutput::SingleVideo(v) && single_video_rel(*v, j),
{
}

/// A valid document whose `_type` member equals `"playlist"` deserializes
/// to the collection variant, carrying that document's playlist.
pub proof fn lemma_playlist_discriminant(
    r: Result<YoutubeDlOutput, Error>,
    bytes: Seq<u8>,
    j: JsonV,
)
    requires
        json_output_rel(r, bytes),
        valid_utf8(bytes),
        sp_doc(decode_utf8(bytes)) == Option::Some(j),
        is_playlist_doc(j),
        playlist_ok(j),
    ensures
        r matches Ok(o) && o matches YoutubeDlOutput::Playlist(p) && playlist_rel(*p, j),
{
}

/// A deserialized playlist's entries preserve the source order: the k-th
/// entry comes from the k-th element of the document's `entries` array.
pub proof fn lemma_playlist_entries_order(p: Playlist, j: JsonV, items: Seq<JsonV>)
    requires
        crate::model::playlist_rel(p, j),
        sp_field(j, "entries"@) == Option::Some(JsonV::Arr(items)),
    ensures
        p.entries matches Option::Some(es) && es@.len() == items.len() && (forall|k: int|
            0 <= k < items.len() ==> single_video_rel(#[trigger] es@[k], items[k])),
{
}

} // verus!
