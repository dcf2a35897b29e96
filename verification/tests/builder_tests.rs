//! The invocation builder: option accumulation, argument rendering, and
//! search-target rendering.

use youtube_dl::builder::YoutubeDl;
use youtube_dl::search::SearchOptions;

#[test]
fn new_builder_renders_only_the_target() {
    let dl = YoutubeDl::new("https://example.com/v");
    let args = dl.process_args();
    assert_eq!(args, vec!["-J".to_string(), "https://example.com/v".to_string()]);
}

#[test]
fn common_args_follow_the_tool_order() {
    let dl = YoutubeDl::new("https://example.com/v")
        .format("bestaudio")
        .flat_playlist(true)
        .socket_timeout("15")
        .all_formats(true)
        .auth("user", "secret")
        .cookies("cookies.txt")
        .user_agent("agent")
        .referer("referer")
        .extract_audio(true)
        .playlist_items(7)
        .output_template("%(title)s.%(ext)s")
        .output_directory("out")
        .date("20240101")
        .date_after("20230101")
        .date_before("20250101")
        .ignore_errors(true)
        .extra_arg("--newline")
        .extra_arg("--no-part");
    let args = dl.common_args();
    let expected: Vec<String> = [
        "-f",
        "bestaudio",
        "--flat-playlist",
        "--socket-timeout",
        "15",
        "--all-formats",
        "-u",
        "user",
        "-p",
        "secret",
        "--cookies",
        "cookies.txt",
        "--user-agent",
        "agent",
        "--referer",
        "referer",
        "--extract-audio",
        "--playlist-items",
        "7",
        "-o",
        "%(title)s.%(ext)s",
        "-P",
        "out",
        "--date",
        "20240101",
        "--dateafter",
        "20230101",
        "--datebefore",
        "20250101",
        "--ignore-errors",
        "--newline",
        "--no-part",
    ]
    .iter()
    .map(|s| s.to_string())
    .collect();
    assert_eq!(args, expected);
}

#[test]
fn process_args_repeat_the_output_directory() {
    let dl = YoutubeDl::new("https://example.com/v").output_directory("out");
    let args = dl.process_args();
    let expected: Vec<String> = ["-P", "out", "-P", "out", "-J", "https://example.com/v"]
        .iter()
        .map(|s| s.to_string())
        .collect();
    assert_eq!(args, expected);
}

#[test]
fn download_args_name_the_folder() {
    let dl = YoutubeDl::new("https://example.com/v");
    let args = dl.process_download_args("downloads");
    let expected: Vec<String> = [
        "-P",
        "downloads",
        "--no-simulate",
        "--no-progress",
        "https://example.com/v",
    ]
    .iter()
    .map(|s| s.to_string())
    .collect();
    assert_eq!(args, expected);
}

#[test]
fn path_defaults_to_the_tool_name() {
    let dl = YoutubeDl::new("https://example.com/v");
    assert_eq!(dl.path(), "yt-dlp");
    let dl = dl.youtube_dl_path("/opt/tools/yt-dlp");
    assert_eq!(dl.path(), "/opt/tools/yt-dlp");
}

#[test]
fn search_renders_provider_count_and_query() {
    let options = SearchOptions::youtube("foo").with_count(5);
    assert_eq!(options.to_query_string(), "ytsearch5:foo");
    let dl = YoutubeDl::search_for(&options);
    assert_eq!(dl.url, "ytsearch5:foo");
}

#[test]
fn search_providers_render_their_prefixes() {
    assert_eq!(SearchOptions::youtube("q").to_query_string(), "ytsearch1:q");
    assert_eq!(SearchOptions::google("q").to_query_string(), "gvsearch1:q");
    assert_eq!(SearchOptions::yahoo("q").to_query_string(), "yvsearch1:q");
    assert_eq!(
        SearchOptions::soundcloud("q").to_query_string(),
        "scsearch1:q"
    );
    assert_eq!(
        SearchOptions::custom("nicosearch", "q")
            .with_count(12)
            .to_query_string(),
        "nicosearch12:q"
    );
}

#[test]
fn large_counts_render_in_decimal() {
    let options = SearchOptions::youtube("q").with_count(1230456);
    assert_eq!(options.to_query_string(), "ytsearch1230456:q");
}
