//! Adding and upgrading repositories. Both alternate questions to a release platform (which
//! release is the latest, download it) with decisions; the decisions are the steps of the
//! sessions below, and whoever talks to the platform feeds each answer back into its session.
use vstd::prelude::*;
use crate::config::{Config, ConfigState, RepoConfig, RepoEntry, full_name, opt_view};
use crate::platforms::{ReleaseInfo, ReleaseView};
use crate::platforms::github::release_result_view;
use crate::text::{chars_of, str_equal};

verus! {

/// `i` is the position of the first `/` in `s`.
pub open spec fn is_first_slash(s: Seq<char>, i: int) -> bool {
    &&& 0 <= i < s.len()
    &&& s[i] == '/'
    &&& forall|j: int| 0 <= j < i ==> #[trigger] s[j] != '/'
}

/// `owner/repo` split at its first `/`; `None` when there is no `/`.
pub open spec fn spec_split_repo(s: Seq<char>) -> Option<(Seq<char>, Seq<char>)> {
    if exists|i: int| is_first_slash(s, i) {
        let i = choose|i: int| is_first_slash(s, i);
        Some((s.subrange(0, i), s.subrange(i + 1, s.len() as int)))
    } else {
        None
    }
}

/// Entry `i` is the first of `repos` known as `name`.
pub open spec fn is_first_named(repos: Seq<RepoEntry>, name: Seq<char>, i: int) -> bool {
    &&& 0 <= i < repos.len()
    &&& full_name(repos[i]) == name
    &&& forall|j: int| 0 <= j < i ==> full_name(#[trigger] repos[j]) != name
}

/// The position of the first entry known as `name`.
pub open spec fn spec_find(repos: Seq<RepoEntry>, name: Seq<char>) -> Option<int> {
    if exists|i: int| is_first_named(repos, name, i) {
        Some(choose|i: int| is_first_named(repos, name, i))
    } else {
        None
    }
}

/// Why an add without a download path is refused.
pub open spec fn no_download_path_message() -> Seq<char> {
    "No download path provided and no default path configured. Use 'grm config default_download_path <path>'"@
}

/// Why a name that is not `owner/repo` is refused.
pub open spec fn invalid_repo_message(repo: Seq<char>) -> Seq<char> {
    "Invalid repository '"@ + repo + "': expected 'owner/repo'"@
}

/// Why upgrading a name that no entry has is refused.
pub open spec fn not_found_message(repo: Seq<char>) -> Seq<char> {
    "Repository "@ + repo + " not found in config"@
}

/// How a failed question for the latest release of `repo` is reported.
pub open spec fn fetch_failed_message(repo: Seq<char>, e: Seq<char>) -> Seq<char> {
    "Failed to get latest release for "@ + repo + ": "@ + e
}

/// How a failed download while adding `repo` is reported.
pub open spec fn add_download_failed_message(repo: Seq<char>, e: Seq<char>) -> Seq<char> {
    "Failed to download release for "@ + repo + ": "@ + e
}

/// How a failed download while upgrading `repo` is reported.
pub open spec fn upgrade_download_failed_message(repo: Seq<char>, e: Seq<char>) -> Seq<char> {
    "Failed to download update for "@ + repo + ": "@ + e
}

/// Where a new repository's release goes: the path given, else the configured default.
pub open spec fn spec_resolve_path(c: ConfigState, path: Option<Seq<char>>) -> Result<
    Seq<char>,
    Seq<char>,
> {
    match path {
        Some(p) => Ok(p),
        None => match c.default_download_path {
            Some(p) => Ok(p),
            None => Err(no_download_path_message()),
        },
    }
}

/// Where a session stands.
pub enum StageView {
    Fetch,
    Download(ReleaseView),
    Done,
    Failed(Seq<char>),
}

/// Where a session stands: asking for the latest release, downloading it, done, or failed.
#[derive(Debug)]
pub enum Stage {
    Fetch,
    Download(ReleaseInfo),
    Done,
    Failed(String),
}

impl View for Stage {
    type V = StageView;

    open spec fn view(&self) -> StageView {
        match self {
            Stage::Fetch => StageView::Fetch,
            Stage::Download(info) => StageView::Download(info@),
            Stage::Done => StageView::Done,
            Stage::Failed(e) => StageView::Failed(e@),
        }
    }
}

/// What the platform is to do next.
pub enum ActionView {
    FetchLatest { repo: Seq<char>, release_type: Option<Seq<char>> },
    Download { url: Seq<char>, destination: Seq<char> },
    Finished,
    Failed(Seq<char>),
}

/// What the platform is to do next: report the latest release of `repo` (picking the asset
/// by `release_type`), download `url` to `destination`; or the session is over.
#[derive(Debug)]
pub enum RepoAction {
    FetchLatest { repo: String, release_type: Option<String> },
    Download { url: String, destination: String },
    Finished,
    Failed(String),
}

impl View for RepoAction {
    type V = ActionView;

    open spec fn view(&self) -> ActionView {
        match self {
            RepoAction::FetchLatest { repo, release_type } => ActionView::FetchLatest {
                repo: repo@,
                release_type: opt_view(*release_type),
            },
            RepoAction::Download { url, destination } => ActionView::Download {
                url: url@,
                destination: destination@,
            },
            RepoAction::Finished => ActionView::Finished,
            RepoAction::Failed(e) => ActionView::Failed(e@),
        }
    }
}

/// The view of a download's outcome.
pub open spec fn unit_result_view(r: Result<(), String>) -> Result<(), Seq<char>> {
    match r {
        Ok(_) => Ok(()),
        Err(e) => Err(e@),
    }
}

fn copy_string(s: &String) -> (r: String)
    ensures
        r@ == s@,
{
    s.clone()
}

fn copy_opt_string(o: &Option<String>) -> (r: Option<String>)
    ensures
        opt_view(r) == opt_view(*o),
{
    match o {
        Some(s) => Some(s.clone()),
        None => None,
    }
}

fn copy_stage(s: &Stage) -> (r: Stage)
    ensures
        r@ == s@,
{
    match s {
        Stage::Fetch => Stage::Fetch,
        Stage::Download(info) => Stage::Download(info.duplicate()),
        Stage::Done => Stage::Done,
        Stage::Failed(e) => Stage::Failed(e.clone()),
    }
}

fn message3(a: &str, b: &str, c: &str) -> (r: String)
    ensures
        r@ == a@ + b@ + c@,
{
    String::from_str(a).concat(b).concat(c)
}

fn message4(a: &str, b: &str, c: &str, d: &str) -> (r: String)
    ensures
        r@ == a@ + b@ + c@ + d@,
{
    String::from_str(a).concat(b).concat(c).concat(d)
}

/// The manager of the repositories that the configuration lists.
pub struct RepoManager;

impl RepoManager {
    /// Splits `owner/repo` at its first `/`.
    pub fn split_repo(repo: &str) -> (r: Option<(String, String)>)
        ensures
            match r {
                Some((a, n)) => spec_split_repo(repo@) == Some((a@, n@)),
                None => spec_split_repo(repo@) is None,
            },
    {
        let cs = chars_of(repo);
        let mut i: usize = 0;
        while i < cs.len()
            invariant
                cs@ == repo@,
                i <= cs@.len(),
                forall|j: int| 0 <= j < i ==> #[trigger] repo@[j] != '/',
            decreases cs@.len() - i,
        {
            if cs[i] == '/' {
                assert(is_first_slash(repo@, i as int));
                proof {
                    let c = choose|c: int| is_first_slash(repo@, c);
                    if c < i {
                        assert(repo@[c] != '/');
                    } else if i < c {
                        assert(repo@[i as int] != '/');
                    }
                }
                let author = String::from_str(repo.substring_char(0, i));
                let name = String::from_str(repo.substring_char(i + 1, cs.len()));
                return Some((author, name));
            }
            i += 1;
        }
        assert(!exists|c: int| is_first_slash(repo@, c));
        None
    }

    /// The position of the first entry known as `name` (`author/repo`).
    pub fn find_repository(config: &Config, name: &str) -> (r: Option<usize>)
        ensures
            match r {
                Some(i) => spec_find(config@.repositories, name@) == Some(i as int),
                None => spec_find(config@.repositories, name@) is None,
            },
    {
        let ghost repos = config@.repositories;
        let mut i: usize = 0;
        while i < config.repositories.len()
            invariant
                repos == config@.repositories,
                repos.len() == config.repositories@.len(),
                i <= repos.len(),
                forall|j: int| 0 <= j < i ==> full_name(#[trigger] repos[j]) != name@,
            decreases repos.len() - i,
        {
            assert(repos[i as int] == config.repositories@[i as int]@);
            let full = config.repositories[i].full_name();
            if str_equal(full.as_str(), name) {
                assert(is_first_named(repos, name@, i as int));
                proof {
                    let c = choose|c: int| is_first_named(repos, name@, c);
                    if c < i {
                        assert(full_name(repos[c]) != name@);
                    } else if i < c {
                        assert(full_name(repos[i as int]) != name@);
                    }
                }
                return Some(i);
            }
            i += 1;
        }
        assert(!exists|c: int| is_first_named(repos, name@, c));
        None
    }

    /// Where a new repository's release goes: `path` when given, else the configured default.
    pub fn resolve_download_path(config: &Config, path: Option<String>) -> (r: Result<String, String>)
        ensures
            match r {
                Ok(p) => spec_resolve_path(config@, opt_view(path)) == Ok::<Seq<char>, Seq<char>>(p@),
                Err(e) => spec_resolve_path(config@, opt_view(path)) == Err::<Seq<char>, Seq<char>>(e@),
            },
    {
        match path {
            Some(p) => Ok(p),
            None => match &config.default_download_path {
                Some(p) => Ok(p.clone()),
                None => Err(String::from_str(
                    "No download path provided and no default path configured. Use 'grm config default_download_path <path>'",
                )),
            },
        }
    }
}

/// What an add session holds: the new entry's parts, the name the platform knows the
/// repository by, where the release goes, the keyword that picks the asset, and the stage.
pub struct AddState {
    pub author: Seq<char>,
    pub repo: Seq<char>,
    pub full_name: Seq<char>,
    pub path: Seq<char>,
    pub release_type: Option<Seq<char>>,
    pub stage: StageView,
}

impl AddState {
    pub open spec fn with_stage(self, stage: StageView) -> AddState {
        AddState { stage, ..self }
    }
}

impl ConfigState {
    /// The same state with `e` appended to the repositories.
    pub open spec fn with_entry_added(self, e: RepoEntry) -> ConfigState {
        ConfigState { repositories: self.repositories.push(e), ..self }
    }

    /// The same state with entry `i` recording `version`.
    pub open spec fn with_version(self, i: int, version: Seq<char>) -> ConfigState {
        ConfigState {
            repositories: self.repositories.update(i, RepoEntry { version, ..self.repositories[i] }),
            ..self
        }
    }
}

/// How adding `repo` starts: it needs a download path, given or configured, and a name of
/// the form `owner/repo`; then the latest release is asked for.
pub open spec fn spec_begin_add(
    c: ConfigState,
    repo: Seq<char>,
    path: Option<Seq<char>>,
    release_type: Option<Seq<char>>,
) -> Result<AddState, Seq<char>> {
    match spec_resolve_path(c, path) {
        Err(e) => Err(e),
        Ok(p) => match spec_split_repo(repo) {
            None => Err(invalid_repo_message(repo)),
            Some(parts) => Ok(
                AddState {
                    author: parts.0,
                    repo: parts.1,
                    full_name: repo,
                    path: p,
                    release_type,
                    stage: StageView::Fetch,
                },
            ),
        },
    }
}

/// What an add session asks of the platform in state `s`.
pub open spec fn spec_add_action(s: AddState) -> ActionView {
    match s.stage {
        StageView::Fetch => ActionView::FetchLatest {
            repo: s.full_name,
            release_type: s.release_type,
        },
        StageView::Download(info) => ActionView::Download {
            url: info.download_url,
            destination: s.path,
        },
        StageView::Done => ActionView::Finished,
        StageView::Failed(e) => ActionView::Failed(e),
    }
}

/// An add session after the platform answered which release is the latest.
pub open spec fn spec_add_after_latest(s: AddState, r: Result<ReleaseView, Seq<char>>) -> AddState {
    match r {
        Ok(info) => s.with_stage(StageView::Download(info)),
        Err(e) => s.with_stage(StageView::Failed(fetch_failed_message(s.full_name, e))),
    }
}

/// An add session, and the configuration, after the platform downloaded the release: on
/// success the new entry is appended with the release's version.
pub open spec fn spec_add_after_download(s: AddState, c: ConfigState, r: Result<(), Seq<char>>) -> (
    AddState,
    ConfigState,
) {
    match s.stage {
        StageView::Download(info) => match r {
            Ok(_) => (
                s.with_stage(StageView::Done),
                c.with_entry_added(
                    RepoEntry { author: s.author, repo: s.repo, path: s.path, version: info.version },
                ),
            ),
            Err(e) => (s.with_stage(StageView::Failed(add_download_failed_message(s.full_name, e))), c),
        },
        _ => (s, c),
    }
}

/// Adding a repository: ask for its latest release, download it, record it.
#[derive(Debug)]
pub struct AddSession {
    author: String,
    repo: String,
    full_name: String,
    path: String,
    release_type: Option<String>,
    stage: Stage,
}

impl View for AddSession {
    type V = AddState;

    closed spec fn view(&self) -> AddState {
        AddState {
            author: self.author@,
            repo: self.repo@,
            full_name: self.full_name@,
            path: self.path@,
            release_type: opt_view(self.release_type),
            stage: self.stage@,
        }
    }
}

/// The view of the start of a session.
pub open spec fn add_start_view(r: Result<AddSession, String>) -> Result<AddState, Seq<char>> {
    match r {
        Ok(s) => Ok(s@),
        Err(e) => Err(e@),
    }
}

impl RepoManager {
    /// Starts adding `repo` (`owner/repo`): its release goes to `path`, or to the configured
    /// default download path; `release_type` picks the asset.
    pub fn begin_add(
        config: &Config,
        repo: &str,
        path: Option<String>,
        release_type: Option<String>,
    ) -> (r: Result<AddSession, String>)
        ensures
            add_start_view(r) == spec_begin_add(config@, repo@, opt_view(path), opt_view(release_type)),
    {
        let p = match Self::resolve_download_path(config, path) {
            Ok(p) => p,
            Err(e) => {
                return Err(e);
            },
        };
        match Self::split_repo(repo) {
            Some((author, name)) => {
                let s = AddSession {
                    author,
                    repo: name,
                    full_name: String::from_str(repo),
                    path: p,
                    release_type,
                    stage: Stage::Fetch,
                };
                Ok(s)
            },
            None => Err(message3("Invalid repository '", repo, "': expected 'owner/repo'")),
        }
    }
}

impl AddSession {
    /// What to ask of the platform next.
    pub fn next_action(&self) -> (a: RepoAction)
        ensures
            a@ == spec_add_action(self@),
    {
        match &self.stage {
            Stage::Fetch => RepoAction::FetchLatest {
                repo: copy_string(&self.full_name),
                release_type: copy_opt_string(&self.release_type),
            },
            Stage::Download(info) => RepoAction::Download {
                url: copy_string(&info.download_url),
                destination: copy_string(&self.path),
            },
            Stage::Done => RepoAction::Finished,
            Stage::Failed(e) => RepoAction::Failed(copy_string(e)),
        }
    }

    /// Takes the platform's answer to `FetchLatest`.
    pub fn latest_release(&mut self, result: Result<ReleaseInfo, String>)
        requires
            old(self)@.stage is Fetch,
        ensures
            final(self)@ == spec_add_after_latest(old(self)@, release_result_view(result)),
    {
        match result {
            Ok(info) => {
                self.stage = Stage::Download(info);
            },
            Err(e) => {
                self.stage = Stage::Failed(
                    message4("Failed to get latest release for ", self.full_name.as_str(), ": ", e.as_str()),
                );
            },
        }
    }

    /// Takes the platform's answer to `Download`; on success the repository is recorded.
    pub fn downloaded(&mut self, config: &mut Config, result: Result<(), String>)
        requires
            old(self)@.stage is Download,
        ensures
            (final(self)@, final(config)@) == spec_add_after_download(
                old(self)@,
                old(config)@,
                unit_result_view(result),
            ),
    {
        let stage = copy_stage(&self.stage);
        match stage {
            Stage::Download(info) => match result {
                Ok(_) => {
                    let entry = RepoConfig {
                        author: copy_string(&self.author),
                        repo: copy_string(&self.repo),
                        path: copy_string(&self.path),
                        version: info.version,
                    };
                    let ghost before = config.repositories@;
                    config.repositories.push(entry);
                    assert(config.repositories@.map_values(|r: RepoConfig| r@) =~= before.map_values(
                        |r: RepoConfig| r@,
                    ).push(entry@));
                    self.stage = Stage::Done;
                },
                Err(e) => {
                    self.stage = Stage::Failed(
                        message4("Failed to download release for ", self.full_name.as_str(), ": ", e.as_str()),
                    );
                },
            },
            _ => {},
        }
    }
}

/// What an upgrade session holds: the positions of the entries to upgrade, in order, how
/// many of them are through, and the stage of the current one.
pub struct UpgradeState {
    pub targets: Seq<int>,
    pub pos: nat,
    pub stage: StageView,
}

impl UpgradeState {
    pub open spec fn with_stage(self, stage: StageView) -> UpgradeState {
        UpgradeState { stage, ..self }
    }

    /// The session after the current entry is through.
    pub open spec fn advanced(self) -> UpgradeState {
        UpgradeState {
            targets: self.targets,
            pos: self.pos + 1,
            stage: if self.pos + 1 == self.targets.len() {
                StageView::Done
            } else {
                StageView::Fetch
            },
        }
    }

    /// The session holds together with configuration `c`: its targets are entries of `c`,
    /// and while it works on an entry there is one.
    pub open spec fn wf(self, c: ConfigState) -> bool {
        &&& forall|i: int| 0 <= i < self.targets.len() ==> 0 <= #[trigger] self.targets[i] < c.repositories.len()
        &&& self.pos <= self.targets.len()
        &&& (self.stage is Fetch || self.stage is Download) ==> self.pos < self.targets.len()
        &&& self.stage is Done ==> self.pos == self.targets.len()
    }

    /// The entry that the session works on.
    pub open spec fn current(self, c: ConfigState) -> RepoEntry {
        c.repositories[self.targets[self.pos as int]]
    }
}

/// A session that upgrades the entries `targets`, in order.
pub open spec fn upgrade_start(targets: Seq<int>) -> UpgradeState {
    UpgradeState {
        targets,
        pos: 0,
        stage: if targets.len() == 0 {
            StageView::Done
        } else {
            StageView::Fetch
        },
    }
}

/// All positions of `c`'s entries, in order.
pub open spec fn all_positions(c: ConfigState) -> Seq<int> {
    Seq::new(c.repositories.len(), |i: int| i)
}

/// How upgrading starts: the entry named `repo` (which must exist), or all entries.
pub open spec fn spec_begin_upgrade(c: ConfigState, repo: Option<Seq<char>>) -> Result<
    UpgradeState,
    Seq<char>,
> {
    match repo {
        Some(r) => match spec_find(c.repositories, r) {
            Some(i) => Ok(upgrade_start(seq![i])),
            None => Err(not_found_message(r)),
        },
        None => Ok(upgrade_start(all_positions(c))),
    }
}

/// What an upgrade session asks of the platform in state `s`.
pub open spec fn spec_upgrade_action(s: UpgradeState, c: ConfigState) -> ActionView {
    match s.stage {
        StageView::Fetch => ActionView::FetchLatest {
            repo: full_name(s.current(c)),
            release_type: None,
        },
        StageView::Download(info) => ActionView::Download {
            url: info.download_url,
            destination: s.current(c).path,
        },
        StageView::Done => ActionView::Finished,
        StageView::Failed(e) => ActionView::Failed(e),
    }
}

/// An upgrade session after the platform answered which release is the latest: a release
/// whose version differs from the recorded one is downloaded; otherwise the entry is
/// up to date and the session moves on.
pub open spec fn spec_upgrade_after_latest(
    s: UpgradeState,
    c: ConfigState,
    r: Result<ReleaseView, Seq<char>>,
) -> UpgradeState {
    match r {
        Ok(info) => if info.version != s.current(c).version {
            s.with_stage(StageView::Download(info))
        } else {
            s.advanced()
        },
        Err(e) => s.with_stage(StageView::Failed(fetch_failed_message(full_name(s.current(c)), e))),
    }
}

/// An upgrade session, and the configuration, after the platform downloaded the release:
/// on success the entry records the new version and the session moves on.
pub open spec fn spec_upgrade_after_download(
    s: UpgradeState,
    c: ConfigState,
    r: Result<(), Seq<char>>,
) -> (UpgradeState, ConfigState) {
    match s.stage {
        StageView::Download(info) => match r {
            Ok(_) => (s.advanced(), c.with_version(s.targets[s.pos as int], info.version)),
            Err(e) => (
                s.with_stage(
                    StageView::Failed(upgrade_download_failed_message(full_name(s.current(c)), e)),
                ),
                c,
            ),
        },
        _ => (s, c),
    }
}

/// Upgrading entries of the configuration: for each, ask for the latest release and
/// download it when its version differs from the recorded one. The first failure ends it.
#[derive(Debug)]
pub struct UpgradeSession {
    targets: Vec<usize>,
    pos: usize,
    stage: Stage,
}

impl View for UpgradeSession {
    type V = UpgradeState;

    closed spec fn view(&self) -> UpgradeState {
        UpgradeState {
            targets: self.targets@.map_values(|t: usize| t as int),
            pos: self.pos as nat,
            stage: self.stage@,
        }
    }
}

/// The view of the start of an upgrade.
pub open spec fn upgrade_start_view(r: Result<UpgradeSession, String>) -> Result<UpgradeState, Seq<char>> {
    match r {
        Ok(s) => Ok(s@),
        Err(e) => Err(e@),
    }
}

impl RepoManager {
    /// Starts upgrading the entry named `repo` (`author/repo`), or every entry.
    pub fn begin_upgrade(config: &Config, repo: Option<&str>) -> (r: Result<UpgradeSession, String>)
        ensures
            upgrade_start_view(r) == spec_begin_upgrade(
                config@,
                match repo {
                    Some(x) => Some(x@),
                    None => None,
                },
            ),
            r matches Ok(s) ==> s@.wf(config@),
    {
        match repo {
            Some(name) => match Self::find_repository(config, name) {
                Some(i) => {
                    let mut targets: Vec<usize> = Vec::new();
                    targets.push(i);
                    let s = UpgradeSession { targets, pos: 0, stage: Stage::Fetch };
                    assert(s@.targets =~= seq![i as int]);
                    Ok(s)
                },
                None => Err(message3("Repository ", name, " not found in config")),
            },
            None => {
                let n: usize = config.repositories.len();
                let mut targets: Vec<usize> = Vec::new();
                let mut i: usize = 0;
                while i < n
                    invariant
                        n == config@.repositories.len(),
                        i <= n,
                        targets@.len() == i,
                        forall|k: int| 0 <= k < i ==> targets@[k] as int == k,
                    decreases n - i,
                {
                    targets.push(i);
                    i += 1;
                }
                assert(targets@.map_values(|t: usize| t as int) =~= Seq::new(n as nat, |k: int| k));
                assert(all_positions(config@) =~= Seq::new(n as nat, |k: int| k));
                let stage = if n == 0 {
                    Stage::Done
                } else {
                    Stage::Fetch
                };
                Ok(UpgradeSession { targets, pos: 0, stage })
            },
        }
    }
}

impl UpgradeSession {
    fn current_index(&self, Ghost(c): Ghost<ConfigState>) -> (t: usize)
        requires
            self@.wf(c),
            self@.pos < self@.targets.len(),
        ensures
            t as int == self@.targets[self@.pos as int],
            t < c.repositories.len(),
    {
        let t: usize = self.targets[self.pos];
        assert(self@.targets[self@.pos as int] == t as int);
        t
    }

    /// Moves on to the next target.
    fn advance(&mut self)
        requires
            old(self)@.pos < old(self)@.targets.len(),
        ensures
            final(self)@ == old(self)@.advanced(),
    {
        let n: usize = self.targets.len();
        assert(self.targets@.map_values(|t: usize| t as int).len() == n);
        self.pos = self.pos + 1;
        if self.pos == n {
            self.stage = Stage::Done;
        } else {
            self.stage = Stage::Fetch;
        }
    }

    /// The position of the entry that the session works on, while it works on one.
    pub fn current(&self, config: &Config) -> (r: Option<usize>)
        requires
            self@.wf(config@),
        ensures
            r == (if (self@.stage is Fetch || self@.stage is Download) {
                Some(self@.targets[self@.pos as int] as usize)
            } else {
                None::<usize>
            }),
    {
        match &self.stage {
            Stage::Fetch | Stage::Download(_) => Some(self.current_index(Ghost(config@))),
            _ => None,
        }
    }

    /// What to ask of the platform next.
    pub fn next_action(&self, config: &Config) -> (a: RepoAction)
        requires
            self@.wf(config@),
        ensures
            a@ == spec_upgrade_action(self@, config@),
    {
        match &self.stage {
            Stage::Fetch => {
                let t: usize = self.current_index(Ghost(config@));
                assert(config@.repositories[t as int] == config.repositories@[t as int]@);
                RepoAction::FetchLatest {
                    repo: config.repositories[t].full_name(),
                    release_type: None,
                }
            },
            Stage::Download(info) => {
                let t: usize = self.current_index(Ghost(config@));
                assert(config@.repositories[t as int] == config.repositories@[t as int]@);
                RepoAction::Download {
                    url: copy_string(&info.download_url),
                    destination: copy_string(&config.repositories[t].path),
                }
            },
            Stage::Done => RepoAction::Finished,
            Stage::Failed(e) => RepoAction::Failed(copy_string(e)),
        }
    }

    /// Takes the platform's answer to `FetchLatest`.
    pub fn latest_release(&mut self, config: &Config, result: Result<ReleaseInfo, String>)
        requires
            old(self)@.wf(config@),
            old(self)@.stage is Fetch,
        ensures
            final(self)@ == spec_upgrade_after_latest(old(self)@, config@, release_result_view(result)),
            final(self)@.wf(config@),
    {
        let t: usize = self.current_index(Ghost(config@));
        assert(config@.repositories[t as int] == config.repositories@[t as int]@);
        let entry = &config.repositories[t];
        match result {
            Ok(info) => {
                if !str_equal(info.version.as_str(), entry.version.as_str()) {
                    self.stage = Stage::Download(info);
                } else {
                    self.advance();
                }
            },
            Err(e) => {
                let name = entry.full_name();
                self.stage = Stage::Failed(
                    message4("Failed to get latest release for ", name.as_str(), ": ", e.as_str()),
                );
            },
        }
    }

    /// Takes the platform's answer to `Download`; on success the entry records the new version.
    pub fn downloaded(&mut self, config: &mut Config, result: Result<(), String>)
        requires
            old(self)@.wf(old(config)@),
            old(self)@.stage is Download,
        ensures
            (final(self)@, final(config)@) == spec_upgrade_after_download(
                old(self)@,
                old(config)@,
                unit_result_view(result),
            ),
            final(self)@.wf(final(config)@),
    {
        let t: usize = self.current_index(Ghost(config@));
        assert(config@.repositories[t as int] == config.repositories@[t as int]@);
        let stage = copy_stage(&self.stage);
        match stage {
            Stage::Download(info) => match result {
                Ok(_) => {
                    let old_entry = &config.repositories[t];
                    let entry = RepoConfig {
                        author: copy_string(&old_entry.author),
                        repo: copy_string(&old_entry.repo),
                        path: copy_string(&old_entry.path),
                        version: info.version,
                    };
                    let ghost before = config.repositories@;
                    config.repositories.set(t, entry);
                    assert(config.repositories@.map_values(|r: RepoConfig| r@) =~= before.map_values(
                        |r: RepoConfig| r@,
                    ).update(t as int, entry@));
                    self.advance();
                },
                Err(e) => {
                    let name = config.repositories[t].full_name();
                    self.stage = Stage::Failed(
                        message4("Failed to download update for ", name.as_str(), ": ", e.as_str()),
                    );
                },
            },
            _ => {},
        }
    }
}

/// Splitting a name and joining its parts with `/` gives the name back; the first part holds
/// no `/`.
pub proof fn law_split_then_join(s: Seq<char>)
    requires
        spec_split_repo(s) is Some,
    ensures
        ({
            let (a, n) = spec_split_repo(s)->Some_0;
            &&& a + "/"@ + n == s
            &&& forall|j: int| 0 <= j < a.len() ==> a[j] != '/'
        }),
{
    reveal_strlit("/");
    let i = choose|i: int| is_first_slash(s, i);
    let (a, n) = spec_split_repo(s)->Some_0;
    assert(a + "/"@ + n =~= s);
    assert forall|j: int| 0 <= j < a.len() implies a[j] != '/' by {
        assert(a[j] == s[j]);
    }
}

/// Adding a repository whose latest release the platform reports as `info`, and whose
/// download succeeds, appends exactly one entry: known by the requested name, at the
/// resolved download path, recording the release's version. Nothing else changes.
pub proof fn law_add_records_release(
    c: ConfigState,
    repo: Seq<char>,
    path: Option<Seq<char>>,
    release_type: Option<Seq<char>>,
    info: ReleaseView,
)
    requires
        spec_begin_add(c, repo, path, release_type) is Ok,
    ensures
        ({
            let s0 = spec_begin_add(c, repo, path, release_type)->Ok_0;
            let s1 = spec_add_after_latest(s0, Ok(info));
            let (s2, c2) = spec_add_after_download(s1, c, Ok(()));
            let n = c.repositories.len();
            &&& spec_add_action(s0) == ActionView::FetchLatest { repo, release_type }
            &&& spec_add_action(s1) == ActionView::Download {
                url: info.download_url,
                destination: spec_resolve_path(c, path)->Ok_0,
            }
            &&& s2.stage is Done
            &&& c2.default_download_path == c.default_download_path
            &&& c2.repositories.len() == n + 1
            &&& c2.repositories.subrange(0, n as int) == c.repositories
            &&& full_name(c2.repositories[n as int]) == repo
            &&& c2.repositories[n as int].path == spec_resolve_path(c, path)->Ok_0
            &&& c2.repositories[n as int].version == info.version
        }),
{
    law_split_then_join(repo);
    let s0 = spec_begin_add(c, repo, path, release_type)->Ok_0;
    let s1 = spec_add_after_latest(s0, Ok(info));
    let (s2, c2) = spec_add_after_download(s1, c, Ok(()));
    assert(c2.repositories.subrange(0, c.repositories.len() as int) =~= c.repositories);
}

/// When some entry is known as `name`, a first one is.
proof fn lemma_first_named_exists(repos: Seq<RepoEntry>, name: Seq<char>, i: int)
    requires
        0 <= i < repos.len(),
        full_name(repos[i]) == name,
    ensures
        exists|j: int| is_first_named(repos, name, j),
    decreases i,
{
    if exists|j: int| 0 <= j < i && full_name(#[trigger] repos[j]) == name {
        let j = choose|j: int| 0 <= j < i && full_name(#[trigger] repos[j]) == name;
        lemma_first_named_exists(repos, name, j);
    } else {
        assert(is_first_named(repos, name, i));
    }
}

/// A repository that was added can then be upgraded by the name it was added under.
pub proof fn law_added_repository_can_be_upgraded(
    c: ConfigState,
    repo: Seq<char>,
    path: Option<Seq<char>>,
    release_type: Option<Seq<char>>,
    info: ReleaseView,
)
    requires
        spec_begin_add(c, repo, path, release_type) is Ok,
    ensures
        ({
            let s1 = spec_add_after_latest(spec_begin_add(c, repo, path, release_type)->Ok_0, Ok(info));
            let c2 = spec_add_after_download(s1, c, Ok(())).1;
            spec_begin_upgrade(c2, Some(repo)) is Ok
        }),
{
    law_add_records_release(c, repo, path, release_type, info);
    let s1 = spec_add_after_latest(spec_begin_add(c, repo, path, release_type)->Ok_0, Ok(info));
    let c2 = spec_add_after_download(s1, c, Ok(())).1;
    lemma_first_named_exists(c2.repositories, repo, c.repositories.len() as int);
}

/// A failed answer to the question for the latest release ends an upgrade session at once:
/// it stays on the entry it was working on, reports the failure naming that entry and the
/// platform's error, and asks nothing more of the platform (no further entry is fetched or
/// downloaded), whatever entries remain.
pub proof fn law_upgrade_fetch_failure_ends_session(s: UpgradeState, c: ConfigState, e: Seq<char>)
    requires
        s.wf(c),
        s.stage is Fetch,
    ensures
        ({
            let after = spec_upgrade_after_latest(s, c, Err(e));
            let entry = c.repositories[s.targets[s.pos as int]];
            let msg = "Failed to get latest release for "@ + entry.author + "/"@ + entry.repo + ": "@ + e;
            &&& after.stage == StageView::Failed(msg)
            &&& after.pos == s.pos
            &&& after.targets == s.targets
            &&& spec_upgrade_action(after, c) == ActionView::Failed(msg)
        }),
{
    let entry = c.repositories[s.targets[s.pos as int]];
    assert(fetch_failed_message(full_name(entry), e) =~= "Failed to get latest release for "@
        + entry.author + "/"@ + entry.repo + ": "@ + e);
}

/// When the platform names a latest release whose version is the one recorded, nothing is
/// downloaded and the session moves on to the next entry (or finishes); when the version
/// differs, that release's asset is downloaded to the entry's path next. Either way the
/// configuration is not touched yet.
pub proof fn law_upgrade_downloads_only_new_versions(s: UpgradeState, c: ConfigState, info: ReleaseView)
    requires
        s.wf(c),
        s.stage is Fetch,
    ensures
        ({
            let after = spec_upgrade_after_latest(s, c, Ok(info));
            let entry = c.repositories[s.targets[s.pos as int]];
            &&& info.version == entry.version ==> after.pos == s.pos + 1 && after.targets == s.targets
                && !(spec_upgrade_action(after, c) is Download)
            &&& info.version == entry.version && s.pos + 1 < s.targets.len() ==> spec_upgrade_action(
                after,
                c,
            ) == ActionView::FetchLatest {
                repo: c.repositories[s.targets[s.pos + 1int]].author + "/"@ + c.repositories[s.targets[s.pos
                    + 1int]].repo,
                release_type: None,
            }
            &&& info.version == entry.version && s.pos + 1 == s.targets.len() ==> spec_upgrade_action(
                after,
                c,
            ) == ActionView::Finished
            &&& info.version != entry.version ==> after.pos == s.pos && spec_upgrade_action(after, c)
                == ActionView::Download { url: info.download_url, destination: entry.path }
        }),
{
}

/// A name that holds a `/` is accepted for adding whenever a download path is given or
/// configured: the session asks for the latest release of exactly that name, with the
/// keyword given, and will record the part before the first `/` as author and the rest as
/// repository. Adding is refused only for want of a download path or of a `/`.
pub proof fn law_add_accepts_owner_repo(
    c: ConfigState,
    repo: Seq<char>,
    path: Option<Seq<char>>,
    release_type: Option<Seq<char>>,
)
    ensures
        ((path is Some || c.default_download_path is Some) && (exists|i: int|
            0 <= i < repo.len() && #[trigger] repo[i] == '/')) == (spec_begin_add(
            c,
            repo,
            path,
            release_type,
        ) is Ok),
        (spec_begin_add(c, repo, path, release_type) is Ok) ==> ({
            let st = spec_begin_add(c, repo, path, release_type)->Ok_0;
            &&& spec_add_action(st) == ActionView::FetchLatest { repo, release_type }
            &&& st.author + "/"@ + st.repo == repo
            &&& (forall|j: int| 0 <= j < st.author.len() ==> st.author[j] != '/')
            &&& st.path == (match path {
                Some(p) => p,
                None => c.default_download_path->Some_0,
            })
        }),
{
    if exists|i: int| 0 <= i < repo.len() && #[trigger] repo[i] == '/' {
        let i = choose|i: int| 0 <= i < repo.len() && #[trigger] repo[i] == '/';
        lemma_first_slash_exists(repo, i);
        law_split_then_join(repo);
    } else {
        assert forall|c: int| !is_first_slash(repo, c) by {
            if is_first_slash(repo, c) {
                assert(repo[c] == '/');
            }
        }
    }
}

/// When `s` holds a `/`, a first one exists.
proof fn lemma_first_slash_exists(s: Seq<char>, i: int)
    requires
        0 <= i < s.len(),
        s[i] == '/',
    ensures
        exists|j: int| is_first_slash(s, j),
    decreases i,
{
    if exists|j: int| 0 <= j < i && #[trigger] s[j] == '/' {
        let j = choose|j: int| 0 <= j < i && #[trigger] s[j] == '/';
        lemma_first_slash_exists(s, j);
    } else {
        assert(is_first_slash(s, i));
    }
}

/// A failed question or download ends a session and leaves the configuration as it was.
pub proof fn law_failure_changes_nothing(
    a: AddState,
    u: UpgradeState,
    c: ConfigState,
    e: Seq<char>,
)
    requires
        a.stage is Download,
        u.stage is Download,
    ensures
        spec_add_after_download(a, c, Err(e)).1 == c,
        spec_add_after_download(a, c, Err(e)).0.stage is Failed,
        spec_upgrade_after_download(u, c, Err(e)).1 == c,
        spec_upgrade_after_download(u, c, Err(e)).0.stage is Failed,
        spec_add_after_latest(a.with_stage(StageView::Fetch), Err(e)).stage is Failed,
{
}

/// Entry `e` recording the version of the release that `latest` reports for it.
pub open spec fn upgraded_entry(e: RepoEntry, latest: spec_fn(Seq<char>) -> ReleaseView) -> RepoEntry {
    RepoEntry { version: latest(full_name(e)).version, ..e }
}

/// `c` with the entries at the positions in `done` upgraded as `latest` reports.
pub open spec fn upgraded_config(
    c: ConfigState,
    done: Seq<int>,
    latest: spec_fn(Seq<char>) -> ReleaseView,
) -> ConfigState {
    ConfigState {
        repositories: Seq::new(
            c.repositories.len(),
            |i: int|
                if done.contains(i) {
                    upgraded_entry(c.repositories[i], latest)
                } else {
                    c.repositories[i]
                },
        ),
        default_download_path: c.default_download_path,
    }
}

/// Runs an upgrade session for at most `fuel` steps against a platform that reports
/// `latest(name)` as the latest release of the repository named `name`, and whose
/// downloads succeed.
pub open spec fn upgrade_run(
    s: UpgradeState,
    c: ConfigState,
    latest: spec_fn(Seq<char>) -> ReleaseView,
    fuel: nat,
) -> (UpgradeState, ConfigState)
    decreases fuel,
{
    if fuel == 0 {
        (s, c)
    } else {
        match s.stage {
            StageView::Fetch => upgrade_run(
                spec_upgrade_after_latest(s, c, Ok(latest(full_name(s.current(c))))),
                c,
                latest,
                (fuel - 1) as nat,
            ),
            StageView::Download(_) => {
                let (s2, c2) = spec_upgrade_after_download(s, c, Ok(()));
                upgrade_run(s2, c2, latest, (fuel - 1) as nat)
            },
            _ => (s, c),
        }
    }
}

/// No position occurs twice in `ts`.
pub open spec fn distinct(ts: Seq<int>) -> bool {
    forall|i: int, j: int| 0 <= i < j < ts.len() ==> ts[i] != ts[j]
}

/// The session over `ts` after the first `k` targets.
pub open spec fn upgrade_at(ts: Seq<int>, k: nat) -> UpgradeState {
    UpgradeState {
        targets: ts,
        pos: k,
        stage: if k == ts.len() {
            StageView::Done
        } else {
            StageView::Fetch
        },
    }
}

proof fn lemma_upgrade_run(
    c0: ConfigState,
    ts: Seq<int>,
    k: nat,
    latest: spec_fn(Seq<char>) -> ReleaseView,
    fuel: nat,
)
    requires
        distinct(ts),
        forall|i: int| 0 <= i < ts.len() ==> 0 <= #[trigger] ts[i] < c0.repositories.len(),
        k <= ts.len(),
        fuel >= 2 * (ts.len() - k),
    ensures
        upgrade_run(upgrade_at(ts, k), upgraded_config(c0, ts.subrange(0, k as int), latest), latest, fuel)
            == (upgrade_at(ts, ts.len()), upgraded_config(c0, ts, latest)),
    decreases ts.len() - k,
{
    let ck = upgraded_config(c0, ts.subrange(0, k as int), latest);
    if k == ts.len() {
        assert(ts.subrange(0, k as int) =~= ts);
    } else {
        let t = ts[k as int];
        let s = upgrade_at(ts, k);
        let pre = ts.subrange(0, k as int);
        let pre1 = ts.subrange(0, k + 1 as int);
        let next = upgraded_config(c0, pre1, latest);
        assert(!pre.contains(t)) by {
            if pre.contains(t) {
                let j = choose|j: int| 0 <= j < pre.len() && pre[j] == t;
                assert(ts[j] == ts[k as int]);
            }
        }
        assert(s.current(ck) == c0.repositories[t]);
        assert forall|i: int| 0 <= i < c0.repositories.len() && i != t implies pre1.contains(i)
            == pre.contains(i) by {
            if pre1.contains(i) {
                let j = choose|j: int| 0 <= j < pre1.len() && pre1[j] == i;
                assert(pre[j] == i);
            }
            if pre.contains(i) {
                let j = choose|j: int| 0 <= j < pre.len() && pre[j] == i;
                assert(pre1[j] == i);
            }
        }
        assert(pre1[k as int] == t);
        assert(pre1.contains(t));
        let info = latest(full_name(c0.repositories[t]));
        if info.version != c0.repositories[t].version {
            let s1 = s.with_stage(StageView::Download(info));
            assert(spec_upgrade_after_latest(s, ck, Ok(info)) == s1);
            let (s2, c2) = spec_upgrade_after_download(s1, ck, Ok(()));
            assert(s2 == upgrade_at(ts, k + 1));
            assert(c2.repositories =~= next.repositories);
            lemma_upgrade_run(c0, ts, k + 1, latest, (fuel - 2) as nat);
            assert(upgrade_run(s1, ck, latest, (fuel - 1) as nat) == upgrade_run(
                s2,
                c2,
                latest,
                (fuel - 2) as nat,
            ));
        } else {
            assert(upgraded_entry(c0.repositories[t], latest) == c0.repositories[t]);
            assert(ck.repositories =~= next.repositories);
            assert(spec_upgrade_after_latest(s, ck, Ok(info)) == upgrade_at(ts, k + 1));
            lemma_upgrade_run(c0, ts, k + 1, latest, (fuel - 1) as nat);
        }
    }
}

proof fn lemma_nothing_done(c: ConfigState, latest: spec_fn(Seq<char>) -> ReleaseView)
    ensures
        upgraded_config(c, Seq::empty(), latest) == c,
{
    assert(upgraded_config(c, Seq::empty(), latest).repositories =~= c.repositories);
}

/// Upgrading every repository, against a platform that reports `latest(name)` as the latest
/// release of the repository named `name` and whose downloads succeed, ends with every
/// entry recording the version of its latest release; nothing else changes.
pub proof fn law_upgrade_all_reaches_latest(c: ConfigState, latest: spec_fn(Seq<char>) -> ReleaseView)
    ensures
        spec_begin_upgrade(c, None) is Ok,
        ({
            let s0 = spec_begin_upgrade(c, None)->Ok_0;
            let (s, c2) = upgrade_run(s0, c, latest, 2 * c.repositories.len());
            &&& s.stage is Done
            &&& c2.default_download_path == c.default_download_path
            &&& c2.repositories.len() == c.repositories.len()
            &&& forall|i: int| 0 <= i < c.repositories.len() ==> #[trigger] c2.repositories[i]
                == upgraded_entry(c.repositories[i], latest)
        }),
{
    let ts = all_positions(c);
    assert(ts.subrange(0, 0) =~= Seq::<int>::empty());
    lemma_nothing_done(c, latest);
    assert(upgrade_start(ts) == upgrade_at(ts, 0));
    lemma_upgrade_run(c, ts, 0, latest, 2 * c.repositories.len());
    let c2 = upgraded_config(c, ts, latest);
    assert forall|i: int| 0 <= i < c.repositories.len() implies #[trigger] c2.repositories[i]
        == upgraded_entry(c.repositories[i], latest) by {
        assert(ts[i] == i);
    }
}

/// Upgrading the repository named `name`, against such a platform, ends with that entry
/// recording the version of its latest release; no other entry changes.
pub proof fn law_upgrade_one_reaches_latest(
    c: ConfigState,
    name: Seq<char>,
    latest: spec_fn(Seq<char>) -> ReleaseView,
)
    requires
        spec_find(c.repositories, name) is Some,
    ensures
        ({
            let i = spec_find(c.repositories, name)->Some_0;
            let s0 = spec_begin_upgrade(c, Some(name))->Ok_0;
            let (s, c2) = upgrade_run(s0, c, latest, 2);
            &&& full_name(c.repositories[i]) == name
            &&& s.stage is Done
            &&& c2.default_download_path == c.default_download_path
            &&& c2.repositories == c.repositories.update(i, upgraded_entry(c.repositories[i], latest))
        }),
{
    let i = spec_find(c.repositories, name)->Some_0;
    let ts = seq![i];
    assert(ts.subrange(0, 0) =~= Seq::<int>::empty());
    lemma_nothing_done(c, latest);
    assert(upgrade_start(ts) == upgrade_at(ts, 0));
    lemma_upgrade_run(c, ts, 0, latest, 2);
    let c2 = upgraded_config(c, ts, latest);
    assert forall|j: int| 0 <= j < c.repositories.len() implies ts.contains(j) == (j == i) by {
        if j == i {
            assert(ts[0] == i);
        }
    }
    assert(c2.repositories =~= c.repositories.update(i, upgraded_entry(c.repositories[i], latest)));
}

/// Upgrading everything a second time, against the same platform, changes nothing more.
pub proof fn law_upgrade_twice_is_upgrade_once(
    c: ConfigState,
    latest: spec_fn(Seq<char>) -> ReleaseView,
)
    ensures
        ({
            let once = upgrade_run(spec_begin_upgrade(c, None)->Ok_0, c, latest, 2 * c.repositories.len()).1;
            let twice = upgrade_run(
                spec_begin_upgrade(once, None)->Ok_0,
                once,
                latest,
                2 * once.repositories.len(),
            ).1;
            twice == once
        }),
{
    law_upgrade_all_reaches_latest(c, latest);
    let once = upgrade_run(spec_begin_upgrade(c, None)->Ok_0, c, latest, 2 * c.repositories.len()).1;
    law_upgrade_all_reaches_latest(once, latest);
    let twice = upgrade_run(
        spec_begin_upgrade(once, None)->Ok_0,
        once,
        latest,
        2 * once.repositories.len(),
    ).1;
    assert forall|i: int| 0 <= i < once.repositories.len() implies #[trigger] twice.repositories[i]
        == once.repositories[i] by {
        assert(full_name(once.repositories[i]) == full_name(c.repositories[i]));
    }
    assert(twice.repositories =~= once.repositories);
}

} // verus!
