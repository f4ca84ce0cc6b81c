//! The configuration: the managed repositories and the settings that `grm config` reads and writes.
use vstd::prelude::*;
use crate::text::{str_equal, pad_right, pad_right_string, dashes, repeat_char};

verus! {

/// What a repository entry holds, as character sequences.
pub struct RepoEntry {
    pub author: Seq<char>,
    pub repo: Seq<char>,
    pub path: Seq<char>,
    pub version: Seq<char>,
}

/// What a configuration holds: its repository entries in order and the default download path.
pub struct ConfigState {
    pub repositories: Seq<RepoEntry>,
    pub default_download_path: Option<Seq<char>>,
}

impl ConfigState {
    /// The same state with the default download path replaced.
    pub open spec fn with_download_path(self, p: Option<Seq<char>>) -> ConfigState {
        ConfigState { repositories: self.repositories, default_download_path: p }
    }
}

/// One managed repository: `author/repo`, where its release went, and which release it is.
#[derive(Clone, Debug)]
pub struct RepoConfig {
    pub author: String,
    pub repo: String,
    pub path: String,
    pub version: String,
}

impl View for RepoConfig {
    type V = RepoEntry;

    open spec fn view(&self) -> RepoEntry {
        RepoEntry {
            author: self.author@,
            repo: self.repo@,
            path: self.path@,
            version: self.version@,
        }
    }
}

/// The name `author/repo` under which an entry is known.
pub open spec fn full_name(e: RepoEntry) -> Seq<char> {
    e.author + "/"@ + e.repo
}

impl RepoConfig {
    /// The name `author/repo` under which the entry is known.
    pub fn full_name(&self) -> (r: String)
        ensures
            r@ == full_name(self@),
    {
        String::from_str(self.author.as_str()).concat("/").concat(self.repo.as_str())
    }
}

/// The view of an optional string.
pub open spec fn opt_view(o: Option<String>) -> Option<Seq<char>> {
    match o {
        Some(s) => Some(s@),
        None => None,
    }
}

/// The configuration of the release manager.
#[derive(Debug)]
pub struct Config {
    pub repositories: Vec<RepoConfig>,
    pub default_download_path: Option<String>,
}

impl View for Config {
    type V = ConfigState;

    open spec fn view(&self) -> ConfigState {
        ConfigState {
            repositories: self.repositories@.map_values(|r: RepoConfig| r@),
            default_download_path: opt_view(self.default_download_path),
        }
    }
}

impl Default for Config {
    fn default() -> (c: Config)
        ensures
            c.repositories@.len() == 0,
            c.default_download_path is None,
    {
        Config { repositories: Vec::new(), default_download_path: None }
    }
}

/// The only key that `grm config` knows.
pub open spec fn download_path_key() -> Seq<char> {
    "default_download_path"@
}

/// The message for a key that `grm config` does not know.
pub open spec fn unknown_key_message(key: Seq<char>) -> Seq<char> {
    "Unknown config key: "@ + key
}

/// The value that `get_value` reports for `key` in state `c`.
pub open spec fn spec_get(c: ConfigState, key: Seq<char>) -> Option<Seq<char>> {
    if key == download_path_key() {
        c.default_download_path
    } else {
        None
    }
}

/// The settings that `list_values` reports, as (key, value) pairs in order.
pub open spec fn spec_list(c: ConfigState) -> Seq<(Seq<char>, Seq<char>)> {
    match c.default_download_path {
        Some(p) => seq![(download_path_key(), p)],
        None => Seq::empty(),
    }
}

/// The views of a list of key/value pairs.
pub open spec fn pairs_view(v: Seq<(String, String)>) -> Seq<(Seq<char>, Seq<char>)> {
    v.map_values(|kv: (String, String)| (kv.0@, kv.1@))
}

/// The views of a list of strings.
pub open spec fn lines_view(v: Seq<String>) -> Seq<Seq<char>> {
    v.map_values(|s: String| s@)
}

fn is_download_path_key(key: &str) -> (r: bool)
    ensures
        r == (key@ == download_path_key()),
{
    str_equal(key, "default_download_path")
}

fn unknown_key_error(key: &str) -> (e: String)
    ensures
        e@ == unknown_key_message(key@),
{
    String::from_str("Unknown config key: ").concat(key)
}

impl Config {
    /// Sets `key` to `value`. The only key is `default_download_path`; any other is refused
    /// with `Unknown config key: <key>` and leaves the configuration as it was.
    pub fn set_value(&mut self, key: &str, value: &str) -> (r: Result<(), String>)
        ensures
            key@ == download_path_key() ==> r is Ok && final(self)@ == old(self)@.with_download_path(
                Some(value@),
            ),
            key@ != download_path_key() ==> (r matches Err(e) && e@ == unknown_key_message(key@)),
            key@ != download_path_key() ==> final(self)@ == old(self)@,
    {
        if is_download_path_key(key) {
            self.default_download_path = Some(String::from_str(value));
            Ok(())
        } else {
            Err(unknown_key_error(key))
        }
    }

    /// The value of `key`, or `None` when the key is unknown or not set.
    pub fn get_value(&self, key: &str) -> (r: Option<String>)
        ensures
            opt_view(r) == spec_get(self@, key@),
    {
        if is_download_path_key(key) {
            match &self.default_download_path {
                Some(p) => Some(p.clone()),
                None => None,
            }
        } else {
            None
        }
    }

    /// Removes the setting of `key`. Unknown keys are refused as by `set_value`.
    pub fn unset_value(&mut self, key: &str) -> (r: Result<(), String>)
        ensures
            key@ == download_path_key() ==> r is Ok && final(self)@ == old(self)@.with_download_path(
                None,
            ),
            key@ != download_path_key() ==> (r matches Err(e) && e@ == unknown_key_message(key@)),
            key@ != download_path_key() ==> final(self)@ == old(self)@,
    {
        if is_download_path_key(key) {
            self.default_download_path = None;
            Ok(())
        } else {
            Err(unknown_key_error(key))
        }
    }

    /// Every setting that is set, as (key, value) pairs.
    pub fn list_values(&self) -> (r: Vec<(String, String)>)
        ensures
            pairs_view(r@) == spec_list(self@),
    {
        let mut values: Vec<(String, String)> = Vec::new();
        if let Some(path) = &self.default_download_path {
            proof {
                reveal_strlit("default_download_path");
            }
            values.push((String::from_str("default_download_path"), path.clone()));
            assert(pairs_view(values@) =~= spec_list(self@));
        } else {
            assert(pairs_view(values@) =~= spec_list(self@));
        }
        values
    }
}

/// What `grm config` answers: the lines to print, and whether the configuration changed and
/// must be saved before they are printed.
#[derive(Debug)]
pub struct ConfigReply {
    pub lines: Vec<String>,
    pub save: bool,
}

/// The line that shows one setting.
pub open spec fn setting_line(kv: (Seq<char>, Seq<char>)) -> Seq<char> {
    kv.0 + " = "@ + kv.1
}

/// What `grm config` does to state `c`: the new state, the lines it prints, and whether it saves.
/// `list` wins over `unset`; `unset` needs a key; a key with a value sets it, a key alone reads it.
pub open spec fn spec_config_command(
    c: ConfigState,
    key: Option<Seq<char>>,
    value: Option<Seq<char>>,
    list: bool,
    unset: bool,
) -> (ConfigState, Seq<Seq<char>>, bool) {
    if list {
        (c, spec_list(c).map_values(|kv: (Seq<char>, Seq<char>)| setting_line(kv)), false)
    } else if unset {
        match key {
            Some(k) => if k == download_path_key() {
                (c.with_download_path(None), seq!["Unset "@ + k + " successfully"@], true)
            } else {
                (c, seq!["Error: "@ + unknown_key_message(k)], false)
            },
            None => (c, seq!["Error: Key required for unset"@], false),
        }
    } else {
        match key {
            Some(k) => match value {
                Some(v) => if k == download_path_key() {
                    (c.with_download_path(Some(v)), seq!["Set "@ + k + " = "@ + v], true)
                } else {
                    (c, seq!["Error: "@ + unknown_key_message(k)], false)
                },
                None => match spec_get(c, k) {
                    Some(v) => (c, seq![v], false),
                    None => (c, seq!["Key "@ + k + " not set"@], false),
                },
            },
            None => (c, seq!["Error: Config key required"@], false),
        }
    }
}

fn one_line(s: String) -> (v: Vec<String>)
    ensures
        lines_view(v@) == seq![s@],
{
    let mut v: Vec<String> = Vec::new();
    v.push(s);
    assert(lines_view(v@) =~= seq![s@]);
    v
}

impl Config {
    /// Carries out `grm config`: lists the settings, unsets a key, sets a key to a value, or
    /// reads a key. The reply holds what to print and whether to save the configuration.
    pub fn handle_config_command(
        &mut self,
        key: Option<String>,
        value: Option<String>,
        list: bool,
        unset: bool,
    ) -> (reply: ConfigReply)
        ensures
            ({
                let r = spec_config_command(old(self)@, opt_view(key), opt_view(value), list, unset);
                &&& final(self)@ == r.0
                &&& lines_view(reply.lines@) == r.1
                &&& reply.save == r.2
            }),
    {
        if list {
            let values = self.list_values();
            let mut lines: Vec<String> = Vec::new();
            let ghost listed = pairs_view(values@);
            let mut i: usize = 0;
            while i < values.len()
                invariant
                    listed == pairs_view(values@),
                    i <= values@.len(),
                    lines_view(lines@) == listed.subrange(0, i as int).map_values(
                        |kv: (Seq<char>, Seq<char>)| setting_line(kv),
                    ),
                decreases values@.len() - i,
            {
                let line = values[i].0.clone().concat(" = ").concat(values[i].1.as_str());
                assert(line@ == setting_line(listed[i as int]));
                let ghost before = lines@;
                lines.push(line);
                assert(lines_view(lines@) =~= lines_view(before).push(line@));
                assert(listed.subrange(0, i + 1) =~= listed.subrange(0, i as int).push(listed[i as int]));
                i += 1;
                assert(lines_view(lines@) =~= listed.subrange(0, i as int).map_values(
                    |kv: (Seq<char>, Seq<char>)| setting_line(kv),
                ));
            }
            assert(listed.subrange(0, i as int) =~= listed);
            ConfigReply { lines, save: false }
        } else if unset {
            match key {
                Some(k) => match self.unset_value(k.as_str()) {
                    Ok(_) => {
                        let line = String::from_str("Unset ").concat(k.as_str()).concat(
                            " successfully",
                        );
                        ConfigReply { lines: one_line(line), save: true }
                    },
                    Err(e) => {
                        let line = String::from_str("Error: ").concat(e.as_str());
                        ConfigReply { lines: one_line(line), save: false }
                    },
                },
                None => ConfigReply {
                    lines: one_line(String::from_str("Error: Key required for unset")),
                    save: false,
                },
            }
        } else {
            match key {
                Some(k) => match value {
                    Some(v) => match self.set_value(k.as_str(), v.as_str()) {
                        Ok(_) => {
                            let line = String::from_str("Set ").concat(k.as_str()).concat(
                                " = ",
                            ).concat(v.as_str());
                            ConfigReply { lines: one_line(line), save: true }
                        },
                        Err(e) => {
                            let line = String::from_str("Error: ").concat(e.as_str());
                            ConfigReply { lines: one_line(line), save: false }
                        },
                    },
                    None => match self.get_value(k.as_str()) {
                        Some(v) => ConfigReply { lines: one_line(v), save: false },
                        None => {
                            let line = String::from_str("Key ").concat(k.as_str()).concat(
                                " not set",
                            );
                            ConfigReply { lines: one_line(line), save: false }
                        },
                    },
                },
                None => ConfigReply {
                    lines: one_line(String::from_str("Error: Config key required")),
                    save: false,
                },
            }
        }
    }
}

/// Reading the download path after setting it gives back the value that was set, and
/// setting it leaves the repositories alone.
pub proof fn law_get_after_set(c: ConfigState, value: Seq<char>)
    ensures
        spec_get(c.with_download_path(Some(value)), download_path_key()) == Some(value),
        c.with_download_path(Some(value)).repositories == c.repositories,
{
}

/// Reading the download path after unsetting it gives nothing, and unsetting it leaves the
/// repositories alone.
pub proof fn law_get_after_unset(c: ConfigState)
    ensures
        spec_get(c.with_download_path(None), download_path_key()) is None,
        c.with_download_path(None).repositories == c.repositories,
{
}

/// The last value set is the one that stays.
pub proof fn law_last_set_wins(c: ConfigState, first: Seq<char>, second: Seq<char>)
    ensures
        c.with_download_path(Some(first)).with_download_path(Some(second)) == c.with_download_path(
            Some(second),
        ),
{
}

/// A key other than `default_download_path` never has a value.
pub proof fn law_unknown_key_has_no_value(c: ConfigState, key: Seq<char>)
    requires
        key != download_path_key(),
    ensures
        spec_get(c, key) is None,
{
}

/// The listing shows exactly the settings that have a value, each with the value that
/// reading it gives.
pub proof fn law_list_agrees_with_get(c: ConfigState)
    ensures
        spec_list(c).len() <= 1,
        spec_list(c).len() == 1 <==> spec_get(c, download_path_key()) is Some,
        spec_list(c).len() == 1 ==> spec_list(c)[0] == (
            download_path_key(),
            spec_get(c, download_path_key())->Some_0,
        ),
{
}

/// Through `grm config`: setting the key and then reading it prints the value that was set,
/// and setting it asks for the configuration to be saved.
pub proof fn law_command_set_then_get(c: ConfigState, value: Seq<char>)
    ensures
        ({
            let after_set = spec_config_command(c, Some(download_path_key()), Some(value), false, false);
            let after_get = spec_config_command(after_set.0, Some(download_path_key()), None, false, false);
            &&& after_set.2
            &&& after_get.1 == seq![value]
            &&& after_get.0 == after_set.0
        }),
{
}

/// Through `grm config`: unsetting the key and then reading it reports it as not set.
pub proof fn law_command_unset_then_get(c: ConfigState)
    ensures
        ({
            let after_unset = spec_config_command(c, Some(download_path_key()), None, false, true);
            let after_get = spec_config_command(after_unset.0, Some(download_path_key()), None, false, false);
            &&& after_unset.2
            &&& after_get.1 == seq!["Key "@ + download_path_key() + " not set"@]
        }),
{
}

/// Through `grm config`: a command that does not ask for saving leaves the configuration as
/// it was; only setting or unsetting the known key asks for saving; no command touches the
/// repositories.
pub proof fn law_command_saves_only_changes(
    c: ConfigState,
    key: Option<Seq<char>>,
    value: Option<Seq<char>>,
    list: bool,
    unset: bool,
)
    ensures
        ({
            let r = spec_config_command(c, key, value, list, unset);
            &&& !r.2 ==> r.0 == c
            &&& r.2 ==> key == Some(download_path_key()) && !list
            &&& r.0.repositories == c.repositories
        }),
{
}

/// The header of the repository table.
pub open spec fn table_header() -> Seq<char> {
    pad_right("Repository"@, 20) + " "@ + pad_right("Path"@, 20) + " "@ + pad_right("Version"@, 10)
}

/// The table row of one entry.
pub open spec fn table_row(e: RepoEntry) -> Seq<char> {
    pad_right(full_name(e), 20) + " "@ + pad_right(e.path, 20) + " "@ + pad_right(e.version, 10)
}

/// What `grm list` prints for state `c`: a note when there are no entries, else a header,
/// a rule of 50 dashes and a row for each entry in order.
pub open spec fn spec_table(c: ConfigState) -> Seq<Seq<char>> {
    if c.repositories.len() == 0 {
        seq!["No repositories managed by grm."@]
    } else {
        seq![table_header(), repeat_char('-', 50)] + c.repositories.map_values(
            |e: RepoEntry| table_row(e),
        )
    }
}

/// `grm list` prints one note when nothing is managed; otherwise a header, a rule of 50
/// dashes, and then one row per entry in the configuration's order, each row the entry's
/// `author/repo`, path and version left-aligned in columns of 20, 20 and 10 characters.
pub proof fn law_table_layout(c: ConfigState)
    ensures
        c.repositories.len() == 0 ==> spec_table(c) == seq!["No repositories managed by grm."@],
        c.repositories.len() > 0 ==> spec_table(c).len() == c.repositories.len() + 2,
        c.repositories.len() > 0 ==> spec_table(c)[1] == Seq::new(50, |i: int| '-'),
        c.repositories.len() > 0 ==> forall|i: int| 0 <= i < c.repositories.len() ==> spec_table(c)[i + 2]
            == pad_right(#[trigger] c.repositories[i].author + "/"@ + c.repositories[i].repo, 20) + " "@
            + pad_right(c.repositories[i].path, 20) + " "@ + pad_right(c.repositories[i].version, 10),
{
    if c.repositories.len() > 0 {
        assert(spec_table(c)[1] =~= Seq::new(50, |i: int| '-'));
    }
}

fn three_columns(a: &str, b: &str, c: &str) -> (r: String)
    ensures
        r@ == pad_right(a@, 20) + " "@ + pad_right(b@, 20) + " "@ + pad_right(c@, 10),
{
    let x = pad_right_string(a, 20);
    let y = pad_right_string(b, 20);
    let z = pad_right_string(c, 10);
    x.concat(" ").concat(y.as_str()).concat(" ").concat(z.as_str())
}

impl Config {
    /// The lines that `grm list` prints.
    pub fn repository_table(&self) -> (lines: Vec<String>)
        ensures
            lines_view(lines@) == spec_table(self@),
    {
        let mut lines: Vec<String> = Vec::new();
        if self.repositories.len() == 0 {
            lines.push(String::from_str("No repositories managed by grm."));
            assert(lines_view(lines@) =~= spec_table(self@));
            return lines;
        }
        lines.push(three_columns("Repository", "Path", "Version"));
        lines.push(dashes(50));
        let ghost repos = self@.repositories;
        let mut i: usize = 0;
        while i < self.repositories.len()
            invariant
                repos == self@.repositories,
                repos.len() == self.repositories@.len(),
                i <= repos.len(),
                lines_view(lines@) == seq![table_header(), repeat_char('-', 50)] + repos.subrange(
                    0,
                    i as int,
                ).map_values(|e: RepoEntry| table_row(e)),
            decreases repos.len() - i,
        {
            let e = &self.repositories[i];
            assert(repos[i as int] == self.repositories@[i as int]@);
            let name = e.full_name();
            let row = three_columns(name.as_str(), e.path.as_str(), e.version.as_str());
            let ghost before = lines@;
            lines.push(row);
            assert(lines_view(lines@) =~= lines_view(before).push(row@));
            assert(repos.subrange(0, i + 1) =~= repos.subrange(0, i as int).push(repos[i as int]));
            i += 1;
            assert(lines_view(lines@) =~= seq![table_header(), repeat_char('-', 50)] + repos.subrange(
                0,
                i as int,
            ).map_values(|e: RepoEntry| table_row(e)));
        }
        assert(repos.subrange(0, i as int) =~= repos);
        lines
    }
}

} // verus!
