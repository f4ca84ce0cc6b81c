//! What a release platform reports about a repository's latest release.
use vstd::prelude::*;

pub mod github;

verus! {

/// What a release holds, as character sequences.
pub struct ReleaseView {
    pub version: Seq<char>,
    pub download_url: Seq<char>,
    pub filename: Seq<char>,
}

/// The latest release of a repository: its version tag and the asset to download.
#[derive(Debug)]
pub struct ReleaseInfo {
    pub version: String,
    pub download_url: String,
    pub filename: String,
}

impl View for ReleaseInfo {
    type V = ReleaseView;

    open spec fn view(&self) -> ReleaseView {
        ReleaseView {
            version: self.version@,
            download_url: self.download_url@,
            filename: self.filename@,
        }
    }
}

impl ReleaseInfo {
    /// A copy of the release information.
    pub fn duplicate(&self) -> (r: ReleaseInfo)
        ensures
            r@ == self@,
    {
        ReleaseInfo {
            version: self.version.clone(),
            download_url: self.download_url.clone(),
            filename: self.filename.clone(),
        }
    }
}

} // verus!
