//! Fetching the newest released build of the external tool: the response
//! of the releases API is parsed and searched here; the HTTP transfer and
//! the file placement are a driver's work.

use vstd::prelude::*;
use crate::{Error};
use crate::json::{Json, JsonError, JsonV, sp_doc, sp_field};
use crate::model::{str_req_ok, str_req_proj};
use crate::text::str_eq;

verus! {

broadcast use vstd::std_specs::vec::group_vec_axioms, vstd::seq::group_seq_axioms;

/// Names the place releases are fetched from: a forge organization and a
/// repository. A driver supplies the HTTP client.
#[derive(Debug, Clone)]
pub struct YoutubeDlFetcher {
    /// The organization (or user) owning the repository.
    pub github_org: String,
    /// The repository holding the tool's releases.
    pub repo_name: String,
}

impl Default for YoutubeDlFetcher {
    /// Downloads `yt-dlp` from its own repository per default.
    fn default() -> (r: Self)
        ensures
            r.github_org@ == "yt-dlp"@,
            r.repo_name@ == "yt-dlp"@,
    {
        YoutubeDlFetcher {
            github_org: String::from_str("yt-dlp"),
            repo_name: String::from_str("yt-dlp"),
        }
    }
}

impl YoutubeDlFetcher {
    /// Names the forge user and repository to download the binary from.
    /// The `Default` implementation uses `yt-dlp` for both.
    pub fn new(user: &str, repo: &str) -> (r: Self)
        ensures
            r.github_org@ == user@,
            r.repo_name@ == repo@,
    {
        YoutubeDlFetcher { github_org: user.to_owned(), repo_name: repo.to_owned() }
    }

    /// The URL naming the latest release of the configured repository.
    pub fn latest_release_url(&self) -> (r: String)
        ensures
            r@ == "https://api.github.com/repos/"@ + self.github_org@ + "/"@ + self.repo_name@
                + "/releases/latest"@,
    {
        let mut s = String::from_str("https://api.github.com/repos/");
        s.append(self.github_org.as_str());
        s.append("/");
        s.append(self.repo_name.as_str());
        s.append("/releases/latest");
        s
    }
}

/// The file name a release asset must bear for this platform.
pub fn release_file_name(windows: bool) -> (r: String)
    ensures
        r@ == (if windows {
            "yt-dlp.exe"@
        } else {
            "yt-dlp"@
        }),
{
    if windows {
        String::from_str("yt-dlp.exe")
    } else {
        String::from_str("yt-dlp")
    }
}

/// The newest release: where its matching asset is downloaded from, and
/// the release tag.
#[derive(Debug, Clone)]
pub struct NewestRelease {
    /// The download URL of the matching asset.
    pub url: String,
    /// The release's tag name.
    pub tag: String,
}

/// Whether one entry of the assets array is well-formed: an object with a
/// name and a download URL.
pub open spec fn asset_ok(w: JsonV) -> bool {
    &&& w is Obj
    &&& str_req_ok(w, "name"@)
    &&& str_req_ok(w, "browser_download_url"@)
}

/// Whether a releases-API response is well-formed: a tag name and an array
/// of well-formed assets.
pub open spec fn release_ok(j: JsonV) -> bool {
    &&& j is Obj
    &&& str_req_ok(j, "tag_name"@)
    &&& sp_field(j, "assets"@) matches Option::Some(a) && a matches JsonV::Arr(items)
        && (forall|i: int| 0 <= i < items.len() ==> asset_ok(#[trigger] items[i]))
}

/// The assets array of a well-formed response.
pub open spec fn release_assets(j: JsonV) -> Seq<JsonV> {
    match sp_field(j, "assets"@) {
        Option::Some(JsonV::Arr(items)) => items,
        _ => Seq::empty(),
    }
}

/// The download URL of the first asset bearing `name`, if any.
pub open spec fn find_asset_url(assets: Seq<JsonV>, name: Seq<char>) -> Option<Seq<char>>
    decreases assets.len(),
{
    if assets.len() == 0 {
        Option::None
    } else if str_req_proj(assets[0], "name"@) == name {
        Option::Some(str_req_proj(assets[0], "browser_download_url"@))
    } else {
        find_asset_url(assets.drop_first(), name)
    }
}

proof fn lemma_find_asset_step(assets: Seq<JsonV>, name: Seq<char>, k: int)
    requires
        0 <= k <= assets.len(),
        forall|i: int| 0 <= i < k ==> str_req_proj(#[trigger] assets[i], "name"@) != name,
    ensures
        find_asset_url(assets, name) == find_asset_url(assets.skip(k), name),
    decreases k,
{
    if k > 0 {
        lemma_find_asset_step(assets, name, k - 1);
        assert(assets.skip(k - 1).drop_first() =~= assets.skip(k));
        assert(assets.skip(k - 1)[0] == assets[k - 1]);
    } else {
        assert(assets.skip(0) =~= assets);
    }
}

/// Reads a releases-API response body and picks the first asset bearing
/// `file_name`. A body that is not JSON is a syntax error; one that lacks
/// the required members is a schema error; a well-formed response without
/// a matching asset is `Error::NoReleaseFound`; otherwise the matching
/// asset's URL and the release tag come back.
#[verifier::loop_isolation(false)]
pub fn find_newest_release_in(body: &str, file_name: &str) -> (r: Result<NewestRelease, Error>)
    ensures
        sp_doc(body@) is None ==> r == Err::<NewestRelease, Error>(Error::Json(JsonError::Syntax)),
        sp_doc(body@) matches Option::Some(j) ==> {
            &&& !release_ok(j) ==> r == Err::<NewestRelease, Error>(
                Error::Json(JsonError::Schema),
            )
            &&& release_ok(j) ==> (match find_asset_url(release_assets(j), file_name@) {
                Option::None => r == Err::<NewestRelease, Error>(Error::NoReleaseFound),
                Option::Some(u) => r matches Ok(nr) && nr.url@ == u && nr.tag@ == str_req_proj(
                    j,
                    "tag_name"@,
                ),
            })
        },
{
    let j = match crate::json::parse_json(body) {
        Ok(j) => j,
        Err(_) => {
            return Err(Error::Json(JsonError::Syntax));
        },
    };
    if !j.is_object() {
        return Err(Error::Json(JsonError::Schema));
    }
    let tag = match j.get("tag_name") {
        Some(Json::Str(t)) => t.clone(),
        _ => {
            return Err(Error::Json(JsonError::Schema));
        },
    };
    let assets = match j.get("assets") {
        Some(Json::Arr(items)) => items,
        _ => {
            return Err(Error::Json(JsonError::Schema));
        },
    };
    proof {
        crate::json::lemma_v_arr_index(assets@);
    }
    // validate every asset first, as a strict decoder of the whole
    // response would, then look for the matching name
    let mut idx: usize = 0;
    while idx < assets.len()
        invariant
            0 <= idx <= assets@.len(),
            forall|i: int| 0 <= i < idx ==> asset_ok(#[trigger] Json::v_arr(assets@)[i]),
        decreases assets@.len() - idx,
    {
        proof {
            assert(Json::v_arr(assets@)[idx as int] == assets@[idx as int]@);
        }
        let a = &assets[idx];
        if !a.is_object() {
            return Err(Error::Json(JsonError::Schema));
        }
        match a.get("name") {
            Some(Json::Str(_)) => {},
            _ => {
                return Err(Error::Json(JsonError::Schema));
            },
        }
        match a.get("browser_download_url") {
            Some(Json::Str(_)) => {},
            _ => {
                return Err(Error::Json(JsonError::Schema));
            },
        }
        idx = idx + 1;
    }
    let mut k: usize = 0;
    while k < assets.len()
        invariant
            0 <= k <= assets@.len(),
            forall|i: int|
                0 <= i < k ==> str_req_proj(#[trigger] Json::v_arr(assets@)[i], "name"@)
                    != file_name@,
        decreases assets@.len() - k,
    {
        proof {
            assert(Json::v_arr(assets@)[k as int] == assets@[k as int]@);
        }
        let a = &assets[k];
        let name_matches = match a.get("name") {
            Some(Json::Str(n)) => str_eq(n.as_str(), file_name),
            _ => false,
        };
        if name_matches {
            match a.get("browser_download_url") {
                Some(Json::Str(u)) => {
                    proof {
                        lemma_find_asset_step(Json::v_arr(assets@), file_name@, k as int);
                        assert(Json::v_arr(assets@).skip(k as int)[0] == Json::v_arr(
                            assets@,
                        )[k as int]);
                    }
                    return Ok(NewestRelease { url: u.clone(), tag });
                },
                _ => {
                    return Err(Error::Json(JsonError::Schema));
                },
            }
        }
        k = k + 1;
    }
    proof {
        lemma_find_asset_step(Json::v_arr(assets@), file_name@, Json::v_arr(assets@).len() as int);
        assert(Json::v_arr(assets@).skip(Json::v_arr(assets@).len() as int)
            =~= Seq::<JsonV>::empty());
    }
    Err(Error::NoReleaseFound)
}

} // verus!
