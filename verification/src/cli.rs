//! The commands of the `grm` command line.
use vstd::prelude::*;

verus! {

/// A parsed command line.
#[derive(Debug)]
pub struct Cli {
    pub command: Commands,
}

/// The subcommands.
#[derive(Debug)]
#[allow(inconsistent_fields)]
pub enum Commands {
    /// Add a repository (`owner/repo`) and download its latest release, to `path` or to the
    /// configured default; `release_type` is a keyword that picks the release asset.
    Add { repo: String, path: Option<String>, release_type: Option<String> },
    /// Upgrade one repository's release, or all of them.
    Upgrade { repo: Option<String> },
    /// List the managed repositories.
    List,
    /// Read, set, unset or list configuration settings.
    Config { key: Option<String>, value: Option<String>, list: bool, unset: bool },
}

} // verus!
