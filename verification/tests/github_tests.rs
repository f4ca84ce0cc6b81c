use grm::platforms::github::{latest_release_url, select_asset, GithubAsset, GithubRelease};

fn release(tag: &str, names: &[&str]) -> GithubRelease {
    GithubRelease {
        tag_name: tag.to_string(),
        assets: names
            .iter()
            .map(|n| GithubAsset {
                browser_download_url: format!("https://example.com/{}", n),
                name: n.to_string(),
            })
            .collect(),
    }
}

#[test]
fn api_address_of_latest_release() {
    assert_eq!(
        latest_release_url("owner/repo"),
        "https://api.github.com/repos/owner/repo/releases/latest"
    );
}

#[test]
fn keyword_picks_first_matching_asset() {
    let r = release("v2.0", &["tool-windows.zip", "tool-linux.tar.gz", "tool-linux-arm.tar.gz"]);
    let info = select_asset(&r, Some("linux")).unwrap();
    assert_eq!(info.version, "v2.0");
    assert_eq!(info.filename, "tool-linux.tar.gz");
    assert_eq!(info.download_url, "https://example.com/tool-linux.tar.gz");
}

#[test]
fn keyword_without_match_is_refused() {
    let r = release("v2.0", &["tool-windows.zip"]);
    assert_eq!(
        select_asset(&r, Some("linux")).unwrap_err(),
        "No asset matching keyword 'linux' found in the latest release"
    );
}

#[test]
fn single_asset_is_taken_without_keyword() {
    let r = release("v1", &["only.bin"]);
    let info = select_asset(&r, None).unwrap();
    assert_eq!(info.version, "v1");
    assert_eq!(info.filename, "only.bin");
    assert_eq!(info.download_url, "https://example.com/only.bin");
}

#[test]
fn no_assets_is_refused() {
    let r = release("v1", &[]);
    assert_eq!(
        select_asset(&r, None).unwrap_err(),
        "No assets found in the latest release"
    );
    assert_eq!(
        select_asset(&r, Some("x")).unwrap_err(),
        "No asset matching keyword 'x' found in the latest release"
    );
}

#[test]
fn several_assets_need_a_keyword() {
    let r = release("v1", &["a", "b", "c"]);
    assert_eq!(
        select_asset(&r, None).unwrap_err(),
        "Multiple assets found in the latest release (3). Please specify a release type using --release-type <keyword>."
    );
}
