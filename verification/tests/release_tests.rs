//! Reading a releases-API response and picking the platform's asset.

use youtube_dl::json::JsonError;
use youtube_dl::release::{
    find_newest_release_in, release_file_name, YoutubeDlFetcher,
};
use youtube_dl::Error;

#[test]
fn picks_the_matching_asset() {
    let body = "{\"tag_name\": \"2024.05.01\", \"assets\": [{\"name\": \"yt-dlp.tar.gz\", \"browser_download_url\": \"https://forge/a\"},{\"name\": \"yt-dlp\", \"browser_download_url\": \"https://forge/b\"},{\"name\": \"yt-dlp.exe\", \"browser_download_url\": \"https://forge/c\"}]}";
    let release = find_newest_release_in(body, "yt-dlp").unwrap();
    assert_eq!(release.url, "https://forge/b");
    assert_eq!(release.tag, "2024.05.01");
}

#[test]
fn no_matching_asset_is_no_release_found() {
    let body = "{\"tag_name\": \"2024.05.01\", \"assets\": [{\"name\": \"yt-dlp.tar.gz\", \"browser_download_url\": \"https://forge/a\"}]}";
    assert_eq!(
        find_newest_release_in(body, "yt-dlp").unwrap_err(),
        Error::NoReleaseFound
    );
}

#[test]
fn empty_assets_is_no_release_found() {
    let body = "{\"tag_name\": \"v1\", \"assets\": []}";
    assert_eq!(
        find_newest_release_in(body, "yt-dlp").unwrap_err(),
        Error::NoReleaseFound
    );
}

#[test]
fn missing_members_are_schema_errors() {
    assert_eq!(
        find_newest_release_in("{\"assets\": []}", "yt-dlp").unwrap_err(),
        Error::Json(JsonError::Schema)
    );
    assert_eq!(
        find_newest_release_in("{\"tag_name\": \"v1\"}", "yt-dlp").unwrap_err(),
        Error::Json(JsonError::Schema)
    );
    let body = "{\"tag_name\": \"v1\", \"assets\": [{\"name\": \"yt-dlp\"}]}";
    assert_eq!(
        find_newest_release_in(body, "yt-dlp").unwrap_err(),
        Error::Json(JsonError::Schema)
    );
}

#[test]
fn malformed_body_is_a_syntax_error() {
    assert_eq!(
        find_newest_release_in("not json", "yt-dlp").unwrap_err(),
        Error::Json(JsonError::Syntax)
    );
}

#[test]
fn fetcher_names_the_latest_release_url() {
    let fetcher = YoutubeDlFetcher::default();
    assert_eq!(
        fetcher.latest_release_url(),
        "https://api.github.com/repos/yt-dlp/yt-dlp/releases/latest"
    );
    let fetcher = YoutubeDlFetcher::new("someone", "fork");
    assert_eq!(
        fetcher.latest_release_url(),
        "https://api.github.com/repos/someone/fork/releases/latest"
    );
}

#[test]
fn release_file_names_per_platform() {
    assert_eq!(release_file_name(false), "yt-dlp");
    assert_eq!(release_file_name(true), "yt-dlp.exe");
}
