//! GitHub as a release platform: the API address of a latest release, and the choice of the
//! asset to download from what the API reports.
use vstd::prelude::*;
use crate::platforms::{ReleaseInfo, ReleaseView};
use crate::text::{contains_seq, contains_str, decimal, decimal_string, occurs_at};

verus! {

/// A downloadable file of a release, as the GitHub API reports it.
#[derive(Debug)]
pub struct GithubAsset {
    pub browser_download_url: String,
    pub name: String,
}

/// A release, as the GitHub API reports it.
#[derive(Debug)]
pub struct GithubRelease {
    pub tag_name: String,
    pub assets: Vec<GithubAsset>,
}

/// What an asset holds: its download address and its file name.
pub struct AssetView {
    pub url: Seq<char>,
    pub name: Seq<char>,
}

/// What a release holds: its tag and its assets in order.
pub struct GithubReleaseView {
    pub tag: Seq<char>,
    pub assets: Seq<AssetView>,
}

impl View for GithubAsset {
    type V = AssetView;

    open spec fn view(&self) -> AssetView {
        AssetView { url: self.browser_download_url@, name: self.name@ }
    }
}

impl View for GithubRelease {
    type V = GithubReleaseView;

    open spec fn view(&self) -> GithubReleaseView {
        GithubReleaseView {
            tag: self.tag_name@,
            assets: self.assets@.map_values(|a: GithubAsset| a@),
        }
    }
}

/// The API address of the latest release of `repo` (`owner/name`).
pub open spec fn spec_latest_release_url(repo: Seq<char>) -> Seq<char> {
    "https://api.github.com/repos/"@ + repo + "/releases/latest"@
}

/// The API address of the latest release of `repo` (`owner/name`).
pub fn latest_release_url(repo: &str) -> (url: String)
    ensures
        url@ == spec_latest_release_url(repo@),
{
    String::from_str("https://api.github.com/repos/").concat(repo).concat("/releases/latest")
}

/// Asset `i` is the first whose name holds `keyword`.
pub open spec fn is_first_match(assets: Seq<AssetView>, keyword: Seq<char>, i: int) -> bool {
    &&& 0 <= i < assets.len()
    &&& contains_seq(assets[i].name, keyword)
    &&& forall|j: int| 0 <= j < i ==> !contains_seq(#[trigger] assets[j].name, keyword)
}

/// The release information that downloading asset `a` of a release tagged `tag` gives.
pub open spec fn asset_release(tag: Seq<char>, a: AssetView) -> ReleaseView {
    ReleaseView { version: tag, download_url: a.url, filename: a.name }
}

pub open spec fn no_match_message(keyword: Seq<char>) -> Seq<char> {
    "No asset matching keyword '"@ + keyword + "' found in the latest release"@
}

pub open spec fn no_assets_message() -> Seq<char> {
    "No assets found in the latest release"@
}

pub open spec fn multiple_assets_message(n: nat) -> Seq<char> {
    "Multiple assets found in the latest release ("@ + decimal(n)
        + "). Please specify a release type using --release-type <keyword>."@
}

/// Which asset of `release` to download. With a keyword, the first asset whose name holds
/// it; without one, the only asset, which must exist and be alone.
pub open spec fn spec_select_asset(
    release: GithubReleaseView,
    release_type: Option<Seq<char>>,
) -> Result<ReleaseView, Seq<char>> {
    match release_type {
        Some(k) => if exists|i: int| is_first_match(release.assets, k, i) {
            let i = choose|i: int| is_first_match(release.assets, k, i);
            Ok(asset_release(release.tag, release.assets[i]))
        } else {
            Err(no_match_message(k))
        },
        None => if release.assets.len() == 1 {
            Ok(asset_release(release.tag, release.assets[0]))
        } else if release.assets.len() == 0 {
            Err(no_assets_message())
        } else {
            Err(multiple_assets_message(release.assets.len()))
        },
    }
}

/// The view of a release lookup.
pub open spec fn release_result_view(r: Result<ReleaseInfo, String>) -> Result<ReleaseView, Seq<char>> {
    match r {
        Ok(info) => Ok(info@),
        Err(e) => Err(e@),
    }
}

/// The view of an optional string slice.
pub open spec fn opt_str_view(o: Option<&str>) -> Option<Seq<char>> {
    match o {
        Some(s) => Some(s@),
        None => None,
    }
}

/// Two first matches are the same asset.
proof fn lemma_first_match_unique(assets: Seq<AssetView>, keyword: Seq<char>, i: int, j: int)
    requires
        is_first_match(assets, keyword, i),
        is_first_match(assets, keyword, j),
    ensures
        i == j,
{
    if i < j {
        assert(!contains_seq(assets[i].name, keyword));
    } else if j < i {
        assert(!contains_seq(assets[j].name, keyword));
    }
}

/// A chosen asset always reports the release's tag as the version; with a keyword, its
/// name holds the keyword and no earlier asset's name does; without one, it is the only asset.
pub proof fn law_selection(release: GithubReleaseView, release_type: Option<Seq<char>>)
    requires
        spec_select_asset(release, release_type) is Ok,
    ensures
        ({
            let info = spec_select_asset(release, release_type)->Ok_0;
            &&& info.version == release.tag
            &&& exists|i: int|
                0 <= i < release.assets.len() && info == asset_release(release.tag, #[trigger] release.assets[i])
                    && match release_type {
                    Some(k) => is_first_match(release.assets, k, i),
                    None => release.assets.len() == 1,
                }
        }),
{
    match release_type {
        Some(k) => {
            let i = choose|i: int| is_first_match(release.assets, k, i);
            assert(is_first_match(release.assets, k, i));
        },
        None => {
            assert(release.assets.len() == 1);
            let info = spec_select_asset(release, release_type)->Ok_0;
            assert(info == asset_release(release.tag, release.assets[0]));
        },
    }
}

/// Without a keyword, a release with no assets or with several is refused, and a keyword
/// that no asset name holds is refused.
pub proof fn law_selection_refusals(release: GithubReleaseView, keyword: Seq<char>)
    ensures
        release.assets.len() != 1 <==> spec_select_asset(release, None) is Err,
        (forall|i: int| 0 <= i < release.assets.len() ==> !contains_seq(#[trigger] release.assets[i].name, keyword))
            ==> spec_select_asset(release, Some(keyword)) == Err::<ReleaseView, Seq<char>>(
            no_match_message(keyword),
        ),
{
}

/// When some asset's name holds `keyword`, a first such asset exists.
proof fn lemma_first_match_exists(assets: Seq<AssetView>, keyword: Seq<char>, i: int)
    requires
        0 <= i < assets.len(),
        contains_seq(assets[i].name, keyword),
    ensures
        exists|j: int| is_first_match(assets, keyword, j),
    decreases i,
{
    if exists|j: int| 0 <= j < i && contains_seq(#[trigger] assets[j].name, keyword) {
        let j = choose|j: int| 0 <= j < i && contains_seq(#[trigger] assets[j].name, keyword);
        lemma_first_match_exists(assets, keyword, j);
    } else {
        assert(is_first_match(assets, keyword, i));
    }
}

/// `name` holds `keyword` as a run of consecutive characters.
pub open spec fn name_holds(name: Seq<char>, keyword: Seq<char>) -> bool {
    exists|p: int|
        0 <= p && p + keyword.len() <= name.len() && #[trigger] name.subrange(p, p + keyword.len())
            == keyword
}

/// `info` is what downloading asset `j` of `release` gives, and asset `j` is the first
/// whose name holds `keyword`.
pub open spec fn is_first_holder_release(
    release: GithubReleaseView,
    keyword: Seq<char>,
    info: ReleaseView,
    j: int,
) -> bool {
    &&& 0 <= j < release.assets.len()
    &&& name_holds(release.assets[j].name, keyword)
    &&& forall|m: int| 0 <= m < j ==> !name_holds(#[trigger] release.assets[m].name, keyword)
    &&& info.version == release.tag
    &&& info.download_url == release.assets[j].url
    &&& info.filename == release.assets[j].name
}

proof fn lemma_holds_is_contains(name: Seq<char>, keyword: Seq<char>)
    ensures
        name_holds(name, keyword) == contains_seq(name, keyword),
{
    if name_holds(name, keyword) {
        let p = choose|p: int|
            0 <= p && p + keyword.len() <= name.len() && #[trigger] name.subrange(p, p + keyword.len())
                == keyword;
        assert(occurs_at(name, keyword, p));
    }
    if contains_seq(name, keyword) {
        let p = choose|p: int| occurs_at(name, keyword, p);
        assert(name.subrange(p, p + keyword.len()) == keyword);
    }
}

/// With a keyword, the choice succeeds exactly when some asset's name holds the keyword,
/// and then it is the first asset, in the release's order, whose name holds it (reported
/// with the release's tag as version). When no name holds it, the choice is refused with a
/// message naming the keyword.
pub proof fn law_keyword_picks_first_holder(release: GithubReleaseView, keyword: Seq<char>)
    ensures
        (exists|i: int| 0 <= i < release.assets.len() && name_holds(#[trigger] release.assets[i].name, keyword))
            == (spec_select_asset(release, Some(keyword)) is Ok),
        (spec_select_asset(release, Some(keyword)) is Ok) ==> (exists|j: int|
            is_first_holder_release(release, keyword, spec_select_asset(release, Some(keyword))->Ok_0, j)),
        (spec_select_asset(release, Some(keyword)) is Err) ==> (spec_select_asset(release, Some(keyword))->Err_0
            == "No asset matching keyword '"@ + keyword + "' found in the latest release"@),
{
    let assets = release.assets;
    assert forall|i: int| 0 <= i < assets.len() implies name_holds(#[trigger] assets[i].name, keyword)
        == contains_seq(assets[i].name, keyword) by {
        lemma_holds_is_contains(assets[i].name, keyword);
    }
    if exists|i: int| 0 <= i < assets.len() && name_holds(#[trigger] assets[i].name, keyword) {
        let i = choose|i: int| 0 <= i < assets.len() && name_holds(#[trigger] assets[i].name, keyword);
        lemma_first_match_exists(assets, keyword, i);
        let c = choose|c: int| is_first_match(assets, keyword, c);
        assert(is_first_holder_release(release, keyword, spec_select_asset(release, Some(keyword))->Ok_0, c));
    } else {
        assert forall|c: int| !is_first_match(assets, keyword, c) by {
            if is_first_match(assets, keyword, c) {
                assert(name_holds(assets[c].name, keyword));
            }
        }
    }
}

fn asset_info(tag: &String, asset: &GithubAsset) -> (r: ReleaseInfo)
    ensures
        r@ == asset_release(tag@, asset@),
{
    ReleaseInfo {
        version: tag.clone(),
        download_url: asset.browser_download_url.clone(),
        filename: asset.name.clone(),
    }
}

/// Picks the asset to download from what the GitHub API reported of the latest release.
pub fn select_asset(release: &GithubRelease, release_type: Option<&str>) -> (r: Result<
    ReleaseInfo,
    String,
>)
    ensures
        release_result_view(r) == spec_select_asset(release@, opt_str_view(release_type)),
{
    let ghost rv = release@;
    match release_type {
        Some(rt) => {
            let mut i: usize = 0;
            while i < release.assets.len()
                invariant
                    rv == release@,
                    opt_str_view(release_type) == Some(rt@),
                    i <= release.assets@.len(),
                    forall|j: int| 0 <= j < i ==> !contains_seq(#[trigger] rv.assets[j].name, rt@),
                decreases release.assets@.len() - i,
            {
                assert(rv.assets[i as int] == release.assets@[i as int]@);
                if contains_str(release.assets[i].name.as_str(), rt) {
                    assert(is_first_match(rv.assets, rt@, i as int));
                    proof {
                        let c = choose|c: int| is_first_match(rv.assets, rt@, c);
                        lemma_first_match_unique(rv.assets, rt@, i as int, c);
                    }
                    return Ok(asset_info(&release.tag_name, &release.assets[i]));
                }
                i += 1;
            }
            assert(!exists|c: int| is_first_match(rv.assets, rt@, c));
            Err(String::from_str("No asset matching keyword '").concat(rt).concat(
                "' found in the latest release",
            ))
        },
        None => {
            if release.assets.len() == 1 {
                assert(rv.assets[0] == release.assets@[0]@);
                Ok(asset_info(&release.tag_name, &release.assets[0]))
            } else if release.assets.len() == 0 {
                Err(String::from_str("No assets found in the latest release"))
            } else {
                let n = decimal_string(release.assets.len());
                Err(String::from_str("Multiple assets found in the latest release (").concat(
                    n.as_str(),
                ).concat("). Please specify a release type using --release-type <keyword>."))
            }
        },
    }
}

} // verus!
