# grm — GitHub Release Manager

`grm` keeps track of GitHub repositories whose released assets you download, and upgrades
them when a new release appears.

Layout:

- `src/` — the verified library (Verus):
  - `config.rs`: the configuration, its settings (`grm config`), and the repository table (`grm list`);
  - `repo.rs`: adding and upgrading repositories, as sessions that decide each next step from the
    release platform's answers;
  - `platforms/`: release information, and GitHub's API address and asset choice;
  - `archive.rs`: how downloaded archives are unpacked and laid out;
  - `cli.rs`: the commands;
  - `text.rs`: string operations the rest is stated over.
- `app/` — the program around it: command-line parsing, the TOML configuration file, HTTP
  requests, and archive extraction on disk.
- `tests/` — tests of the library.
