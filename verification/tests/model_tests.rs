//! The typed layer: discriminating between playlist and single item,
//! codec normalization, protocol fallback, and loose numeric fields.

use youtube_dl::json::{Json, JsonError};
use youtube_dl::model::{format_of, Protocol};
use youtube_dl::{process_json_output, Error, YoutubeDlOutput};

#[test]
fn single_item_without_type_tag() {
    let doc = b"{\"id\": \"7XGyWcuYVrg\", \"title\": \"some title\"}".to_vec();
    let out = process_json_output(doc).unwrap();
    let video = out.into_single_video().unwrap();
    assert_eq!(video.id, "7XGyWcuYVrg");
    assert_eq!(video.title, "some title");
}

#[test]
fn single_item_with_other_type_tag() {
    let doc = b"{\"_type\": \"video\", \"id\": \"a\", \"title\": \"t\"}".to_vec();
    let out = process_json_output(doc).unwrap();
    assert!(matches!(out, YoutubeDlOutput::SingleVideo(_)));
}

#[test]
fn playlist_with_type_tag_keeps_entry_order() {
    let doc = "{\"_type\": \"playlist\", \"title\": \"mix\", \"entries\": [{\"id\": \"first\", \"title\": \"one\"},{\"id\": \"second\", \"title\": \"two\"},{\"id\": \"third\", \"title\": \"three\"}]}"
    .as_bytes()
    .to_vec();
    let out = process_json_output(doc).unwrap();
    let playlist = out.into_playlist().unwrap();
    assert_eq!(playlist.title.as_deref(), Some("mix"));
    let entries = playlist.entries.unwrap();
    assert_eq!(entries.len(), 3);
    assert_eq!(entries[0].id, "first");
    assert_eq!(entries[1].id, "second");
    assert_eq!(entries[2].id, "third");
}

#[test]
fn missing_id_is_a_schema_error() {
    let doc = b"{\"title\": \"t\"}".to_vec();
    assert_eq!(
        process_json_output(doc).unwrap_err(),
        Error::Json(JsonError::Schema)
    );
}

#[test]
fn missing_title_is_a_schema_error() {
    let doc = b"{\"id\": \"a\"}".to_vec();
    assert_eq!(
        process_json_output(doc).unwrap_err(),
        Error::Json(JsonError::Schema)
    );
}

#[test]
fn malformed_json_is_a_syntax_error() {
    let doc = b"{\"id\": ".to_vec();
    assert_eq!(
        process_json_output(doc).unwrap_err(),
        Error::Json(JsonError::Syntax)
    );
}

#[test]
fn invalid_utf8_is_a_syntax_error() {
    let doc = vec![b'{', 0xFF, 0xFE, b'}'];
    assert_eq!(
        process_json_output(doc).unwrap_err(),
        Error::Json(JsonError::Syntax)
    );
}

#[test]
fn correct_format_codec_parsing() {
    let doc = youtube_dl::json::parse_json(
        "{\"acodec\": \"none\", \"vcodec\": \"vp9\", \"ext\": \"webm\"}",
    )
    .unwrap();
    let format = format_of(&doc).unwrap();
    assert_ne!(Some("none".to_string()), format.acodec);
    assert_ne!(Some("none".to_string()), format.vcodec);
    assert!(format.acodec.is_none());
    assert_eq!(format.vcodec.as_deref(), Some("vp9"));
}

#[test]
fn both_codecs_none_are_absent() {
    let doc = youtube_dl::json::parse_json("{\"acodec\": \"none\", \"vcodec\": \"none\"}").unwrap();
    let format = format_of(&doc).unwrap();
    assert!(format.acodec.is_none());
    assert!(format.vcodec.is_none());
}

#[test]
fn test_protocol_fallback() {
    let parsed_protocol = match youtube_dl::json::parse_json("\"http\"").unwrap() {
        Json::Str(tag) => Protocol::from_tag(&tag),
        _ => panic!("expected a string"),
    };
    assert!(matches!(parsed_protocol, Protocol::Http));

    let unknown_protocol = match youtube_dl::json::parse_json("\"some_unknown_protocol\"").unwrap()
    {
        Json::Str(tag) => Protocol::from_tag(&tag),
        _ => panic!("expected a string"),
    };
    assert!(matches!(unknown_protocol, Protocol::Unknown));
}

#[test]
fn protocol_field_on_a_format() {
    let doc = youtube_dl::json::parse_json("{\"protocol\": \"m3u8_native\"}").unwrap();
    let format = format_of(&doc).unwrap();
    assert_eq!(format.protocol, Some(Protocol::M3U8Native));

    let doc = youtube_dl::json::parse_json("{\"protocol\": \"carrier_pigeon\"}").unwrap();
    let format = format_of(&doc).unwrap();
    assert_eq!(format.protocol, Some(Protocol::Unknown));
}

#[test]
fn duration_as_string_and_as_number() {
    let doc = b"{\"id\": \"a\", \"title\": \"t\", \"duration\": \"123.4\"}".to_vec();
    let video = process_json_output(doc).unwrap().into_single_video().unwrap();
    assert!(matches!(video.duration, Some(Json::Str(s)) if s == "123.4"));

    let doc = b"{\"id\": \"a\", \"title\": \"t\", \"duration\": 123.4}".to_vec();
    let video = process_json_output(doc).unwrap().into_single_video().unwrap();
    assert!(matches!(video.duration, Some(Json::Num(t)) if t == "123.4"));
}

#[test]
fn numeric_and_loose_fields() {
    let doc = "{\"id\": \"a\", \"title\": \"t\", \"like_count\": 42, \"width\": 608.0, \"is_live\": false, \"tags\": [\"x\", null], \"average_rating\": 4.9, \"season_number\": 3, \"upload_date\": null}"
    .as_bytes()
    .to_vec();
    let video = process_json_output(doc).unwrap().into_single_video().unwrap();
    assert_eq!(video.like_count, Some(42));
    assert_eq!(video.width.as_deref(), Some("608.0"));
    assert_eq!(video.is_live, Some(false));
    assert_eq!(
        video.tags,
        Some(vec![Some("x".to_string()), None])
    );
    assert!(matches!(video.average_rating, Some(Json::Num(t)) if t == "4.9"));
    assert_eq!(video.season_number, Some(3));
    assert!(video.upload_date.is_none());
}

#[test]
fn wrongly_typed_count_is_a_schema_error() {
    let doc = b"{\"id\": \"a\", \"title\": \"t\", \"like_count\": 1.5}".to_vec();
    assert_eq!(
        process_json_output(doc).unwrap_err(),
        Error::Json(JsonError::Schema)
    );
}

#[test]
fn formats_and_nested_records() {
    let doc = "{\"id\": \"a\", \"title\": \"t\", \"formats\": [{\"format_id\": \"18\", \"acodec\": \"mp4a.40.2\", \"tbr\": 96.5, \"http_headers\": {\"User-Agent\": \"agent\", \"Accept\": null}, \"fragments\": [{\"url\": \"http://x/1\", \"filesize\": 100}]}], \"thumbnails\": [{\"url\": \"http://x/t.jpg\", \"width\": 120}]}"
    .as_bytes()
    .to_vec();
    let video = process_json_output(doc).unwrap().into_single_video().unwrap();
    let formats = video.formats.unwrap();
    assert_eq!(formats.len(), 1);
    assert_eq!(formats[0].format_id.as_deref(), Some("18"));
    assert_eq!(formats[0].acodec.as_deref(), Some("mp4a.40.2"));
    assert_eq!(formats[0].tbr.as_deref(), Some("96.5"));
    let headers = formats[0].http_headers.as_ref().unwrap();
    assert_eq!(headers.len(), 2);
    assert_eq!(headers[0].0, "User-Agent");
    assert_eq!(headers[0].1.as_deref(), Some("agent"));
    assert_eq!(headers[1].0, "Accept");
    assert!(headers[1].1.is_none());
    let fragments = formats[0].fragments.as_ref().unwrap();
    assert_eq!(fragments[0].url.as_deref(), Some("http://x/1"));
    assert_eq!(fragments[0].filesize, Some(100));
    let thumbs = video.thumbnails.unwrap();
    assert_eq!(thumbs[0].url.as_deref(), Some("http://x/t.jpg"));
    assert_eq!(thumbs[0].width.as_deref(), Some("120"));
}

#[test]
fn counts_at_the_integer_bounds() {
    let doc = "{\"id\": \"a\", \"title\": \"t\", \"like_count\": 9223372036854775807, \"dislike_count\": -9223372036854775808}"
        .as_bytes()
        .to_vec();
    let video = process_json_output(doc).unwrap().into_single_video().unwrap();
    assert_eq!(video.like_count, Some(i64::MAX));
    assert_eq!(video.dislike_count, Some(i64::MIN));
}

#[test]
fn counts_beyond_the_integer_bounds_are_schema_errors() {
    let doc = "{\"id\": \"a\", \"title\": \"t\", \"like_count\": 9223372036854775808}"
        .as_bytes()
        .to_vec();
    assert_eq!(
        process_json_output(doc).unwrap_err(),
        Error::Json(JsonError::Schema)
    );
}

#[test]
fn season_number_must_fit_thirty_two_bits() {
    let doc = "{\"id\": \"a\", \"title\": \"t\", \"season_number\": 2147483648}"
        .as_bytes()
        .to_vec();
    assert_eq!(
        process_json_output(doc).unwrap_err(),
        Error::Json(JsonError::Schema)
    );
}

#[test]
fn older_output_record_still_reads() {
    let doc = youtube_dl::json::parse_json(
        "{\"id\": \"a\", \"title\": \"t\", \"view_count\": 9, \"duration\": \"12\"}",
    )
    .unwrap();
    let output = youtube_dl::model::json_output_of(&doc).unwrap();
    assert_eq!(output.id, "a");
    assert_eq!(output.title, "t");
    assert_eq!(output.view_count, Some(9));
    assert!(matches!(output.duration, Some(Json::Str(s)) if s == "12"));
}
