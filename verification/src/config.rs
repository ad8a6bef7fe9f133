//! Stored credentials: which API key belongs to which server, where the
//! file that holds them lives, and what loading and saving decide.

use vstd::prelude::*;
use crate::text::{concat, concat3, ends_with_seq, opt_view, str_eq};

verus! {

/// The server and API key that every request is made with.
pub struct Config {
    pub server: String,
    pub api_key: String,
}

/// One stored credential.
pub struct Credential {
    pub server: String,
    pub api_key: String,
}

/// The credentials file: one API key per server.
pub struct FileConfig {
    entries: Vec<Credential>,
}

/// The map that a list of credentials stands for; a later entry for the
/// same server wins.
pub open spec fn credential_map(s: Seq<Credential>) -> Map<Seq<char>, Seq<char>>
    decreases s.len(),
{
    if s.len() == 0 {
        Map::empty()
    } else {
        credential_map(s.drop_last()).insert(s.last().server@, s.last().api_key@)
    }
}

/// No server occurs twice in `s`.
pub open spec fn distinct_servers(s: Seq<Credential>) -> bool {
    forall|i: int, j: int|
        0 <= i < s.len() && 0 <= j < s.len() && i != j ==> #[trigger] s[i].server@
            != #[trigger] s[j].server@
}

/// The key stored for `server` in `m`, if any.
pub open spec fn lookup(m: Map<Seq<char>, Seq<char>>, server: Seq<char>) -> Option<Seq<char>> {
    if m.dom().contains(server) {
        Some(m[server])
    } else {
        None
    }
}

/// The credentials after `server`'s key is set to `api_key` in the file that
/// was read (`None`: no readable file, which counts as empty).
pub open spec fn merged(
    existing: Option<Map<Seq<char>, Seq<char>>>,
    server: Seq<char>,
    api_key: Seq<char>,
) -> Map<Seq<char>, Seq<char>> {
    match existing {
        Some(m) => m.insert(server, api_key),
        None => Map::<Seq<char>, Seq<char>>::empty().insert(server, api_key),
    }
}

proof fn lemma_credential_map(s: Seq<Credential>)
    ensures
        forall|k: Seq<char>|
            credential_map(s).dom().contains(k) <==> exists|i: int|
                0 <= i < s.len() && #[trigger] s[i].server@ == k,
        distinct_servers(s) ==> forall|i: int|
            0 <= i < s.len() ==> credential_map(s)[#[trigger] s[i].server@] == s[i].api_key@,
        credential_map(s).dom().finite(),
    decreases s.len(),
{
    if s.len() > 0 {
        let p = s.drop_last();
        lemma_credential_map(p);
        assert forall|k: Seq<char>|
            credential_map(s).dom().contains(k) <==> exists|i: int|
                0 <= i < s.len() && #[trigger] s[i].server@ == k by {
            if credential_map(s).dom().contains(k) && k != s.last().server@ {
                let i = choose|i: int| 0 <= i < p.len() && #[trigger] p[i].server@ == k;
                assert(s[i] == p[i]);
            }
            if exists|i: int| 0 <= i < s.len() && #[trigger] s[i].server@ == k {
                let i = choose|i: int| 0 <= i < s.len() && #[trigger] s[i].server@ == k;
                if i < s.len() - 1 {
                    assert(p[i] == s[i]);
                }
            }
        }
        if distinct_servers(s) {
            assert(distinct_servers(p)) by {
                assert forall|i: int, j: int|
                    0 <= i < p.len() && 0 <= j < p.len() && i != j implies #[trigger] p[i].server@
                    != #[trigger] p[j].server@ by {
                    assert(p[i] == s[i] && p[j] == s[j]);
                }
            }
            assert forall|i: int| 0 <= i < s.len() implies credential_map(s)[#[trigger] s[i].server@]
                == s[i].api_key@ by {
                if i < s.len() - 1 {
                    assert(p[i] == s[i]);
                    assert(s[i].server@ != s[s.len() - 1].server@);
                }
            }
        }
    }
}

proof fn lemma_credential_map_len(s: Seq<Credential>)
    requires
        distinct_servers(s),
    ensures
        credential_map(s).dom().len() == s.len(),
{
    lemma_credential_map(s);
    let keys = Seq::new(s.len(), |i: int| s[i].server@);
    assert(keys.no_duplicates()) by {
        assert forall|i: int, j: int|
            0 <= i < keys.len() && 0 <= j < keys.len() && i != j implies keys[i] != keys[j] by {
            assert(keys[i] == s[i].server@);
            assert(keys[j] == s[j].server@);
        }
    }
    assert(keys.to_set() =~= credential_map(s).dom()) by {
        assert forall|k: Seq<char>| keys.to_set().contains(k) <==> credential_map(s).dom().contains(k) by {
            if credential_map(s).dom().contains(k) {
                let i = choose|i: int| 0 <= i < s.len() && #[trigger] s[i].server@ == k;
                assert(keys[i] == k);
            }
        }
    }
    keys.unique_seq_to_set();
}

/// Replacing the entry of a server keeps servers distinct and sets the
/// server's key.
proof fn lemma_replace_entry(s: Seq<Credential>, i: int, cred: Credential)
    requires
        distinct_servers(s),
        0 <= i < s.len(),
        s[i].server@ == cred.server@,
    ensures
        distinct_servers(s.update(i, cred)),
        credential_map(s.update(i, cred)) == credential_map(s).insert(cred.server@, cred.api_key@),
{
    let t = s.update(i, cred);
    let expected = credential_map(s).insert(cred.server@, cred.api_key@);
    assert forall|a: int, b: int|
        0 <= a < t.len() && 0 <= b < t.len() && a != b implies #[trigger] t[a].server@
        != #[trigger] t[b].server@ by {
        assert(a != i ==> t[a] == s[a]);
        assert(b != i ==> t[b] == s[b]);
    }
    lemma_credential_map(s);
    lemma_credential_map(t);
    assert forall|k: Seq<char>|
        #[trigger] credential_map(t).dom().contains(k) <==> expected.dom().contains(k) by {
        if k == cred.server@ {
            assert(t[i].server@ == k);
        }
        if credential_map(s).dom().contains(k) {
            let j = choose|j: int| 0 <= j < s.len() && #[trigger] s[j].server@ == k;
            assert(j != i ==> t[j] == s[j]);
        }
        if credential_map(t).dom().contains(k) {
            let j = choose|j: int| 0 <= j < t.len() && #[trigger] t[j].server@ == k;
            assert(j != i ==> t[j] == s[j]);
        }
    }
    assert forall|k: Seq<char>| #[trigger] credential_map(t).dom().contains(k) implies credential_map(
        t,
    )[k] == expected[k] by {
        let j = choose|j: int| 0 <= j < t.len() && #[trigger] t[j].server@ == k;
        assert(j != i ==> t[j] == s[j]);
    }
    assert(credential_map(t) =~= expected);
}

/// Appending an entry for a server that has none keeps servers distinct and
/// sets the server's key.
proof fn lemma_append_entry(s: Seq<Credential>, cred: Credential)
    requires
        distinct_servers(s),
        forall|i: int| 0 <= i < s.len() ==> #[trigger] s[i].server@ != cred.server@,
    ensures
        distinct_servers(s.push(cred)),
        credential_map(s.push(cred)) == credential_map(s).insert(cred.server@, cred.api_key@),
{
    let t = s.push(cred);
    assert(t.drop_last() =~= s);
    assert forall|a: int, b: int|
        0 <= a < t.len() && 0 <= b < t.len() && a != b implies #[trigger] t[a].server@
        != #[trigger] t[b].server@ by {
        assert(a < s.len() ==> t[a] == s[a]);
        assert(b < s.len() ==> t[b] == s[b]);
    }
}

impl View for FileConfig {
    type V = Map<Seq<char>, Seq<char>>;

    closed spec fn view(&self) -> Map<Seq<char>, Seq<char>> {
        credential_map(self.entries@)
    }
}

impl FileConfig {
    #[verifier::type_invariant]
    spec fn no_server_twice(self) -> bool {
        distinct_servers(self.entries@)
    }

    /// A file with no credentials.
    pub fn new() -> (f: FileConfig)
        ensures
            f@ == Map::<Seq<char>, Seq<char>>::empty(),
    {
        FileConfig { entries: Vec::new() }
    }

    /// The number of servers with a stored key.
    pub fn len(&self) -> (n: usize)
        ensures
            n == self@.dom().len(),
    {
        proof {
            use_type_invariant(self);
            lemma_credential_map_len(self.entries@);
        }
        self.entries.len()
    }

    /// The index of `server`'s entry in `entries`, if it has one.
    fn position_in(entries: &Vec<Credential>, server: &str) -> (p: Option<usize>)
        ensures
            match p {
                Some(i) => i < entries@.len() && entries@[i as int].server@ == server@,
                None => forall|i: int|
                    0 <= i < entries@.len() ==> #[trigger] entries@[i].server@ != server@,
            },
    {
        let mut i: usize = 0;
        while i < entries.len()
            invariant
                i <= entries@.len(),
                forall|j: int| 0 <= j < i ==> #[trigger] entries@[j].server@ != server@,
            decreases entries@.len() - i,
        {
            if str_eq(entries[i].server.as_str(), server) {
                return Some(i);
            }
            i = i + 1;
        }
        None
    }

    /// The API key stored for `server`, if any.
    pub fn get(&self, server: &str) -> (key: Option<String>)
        ensures
            match key {
                Some(k) => lookup(self@, server@) == Some(k@),
                None => lookup(self@, server@) is None,
            },
    {
        proof {
            use_type_invariant(self);
            lemma_credential_map(self.entries@);
        }
        match Self::position_in(&self.entries, server) {
            Some(i) => Some(self.entries[i].api_key.clone()),
            None => None,
        }
    }

    /// Stores `api_key` for `server`, replacing the key it had.
    pub fn insert(&mut self, server: &str, api_key: &str)
        ensures
            final(self)@ == old(self)@.insert(server@, api_key@),
    {
        proof {
            use_type_invariant(&*self);
        }
        let cred = Credential { server: String::from_str(server), api_key: String::from_str(api_key) };
        let ghost old_entries = self.entries@;
        let mut entries = Vec::new();
        std::mem::swap(&mut entries, &mut self.entries);
        match Self::position_in(&entries, server) {
            Some(i) => {
                proof {
                    lemma_replace_entry(old_entries, i as int, cred);
                }
                entries.set(i, cred);
            },
            None => {
                proof {
                    lemma_append_entry(old_entries, cred);
                }
                entries.push(cred);
            },
        }
        self.entries = entries;
    }

    /// The stored credentials, one per server.
    pub fn credentials(&self) -> (out: Vec<(String, String)>)
        ensures
            out@.len() == self@.dom().len(),
            forall|i: int|
                0 <= i < out@.len() ==> lookup(self@, (#[trigger] out@[i]).0@) == Some(out@[i].1@),
            forall|i: int, j: int|
                0 <= i < out@.len() && 0 <= j < out@.len() && i != j ==> (#[trigger] out@[i]).0@
                    != (#[trigger] out@[j]).0@,
    {
        proof {
            use_type_invariant(self);
            lemma_credential_map(self.entries@);
            lemma_credential_map_len(self.entries@);
        }
        let mut out: Vec<(String, String)> = Vec::new();
        let mut i: usize = 0;
        while i < self.entries.len()
            invariant
                i <= self.entries@.len(),
                out@.len() == i,
                distinct_servers(self.entries@),
                forall|j: int| 0 <= j < i ==> (#[trigger] out@[j]).0@ == self.entries@[j].server@ && out@[j].1@ == self.entries@[j].api_key@,
            decreases self.entries@.len() - i,
        {
            let e = &self.entries[i];
            out.push((e.server.clone(), e.api_key.clone()));
            i = i + 1;
        }
        proof {
            assert forall|a: int| 0 <= a < out@.len() implies lookup(self@, (#[trigger] out@[a]).0@) == Some(out@[a].1@) by {
                assert(self@.dom().contains(self.entries@[a].server@));
            }
        }
        out
    }
}

/// The server used when `GIGGLES_SERVER` is unset: a local one in a debug
/// build, the public one otherwise.
pub open spec fn default_server_spec(debug_build: bool) -> Seq<char> {
    if debug_build {
        "http://localhost:3000"@
    } else {
        "https://gggl.es"@
    }
}

/// The server used when `GIGGLES_SERVER` is unset.
pub fn default_server(debug_build: bool) -> (s: &'static str)
    ensures
        s@ == default_server_spec(debug_build),
{
    if debug_build {
        "http://localhost:3000"
    } else {
        "https://gggl.es"
    }
}

/// The server to use: `GIGGLES_SERVER` when it is set, the default otherwise.
pub fn resolve_server(env_server: Option<String>, debug_build: bool) -> (s: String)
    ensures
        s@ == match env_server {
            Some(e) => e@,
            None => default_server_spec(debug_build),
        },
{
    match env_server {
        Some(e) => e,
        None => String::from_str(default_server(debug_build)),
    }
}

/// What `std::path::Path::join` makes of `base` and `component`.
pub uninterp spec fn path_joined(base: Seq<char>, component: Seq<char>) -> Seq<char>;

/// A single plain path component: not empty, not `.` or `..`, and free of
/// the characters that separate components or start a drive prefix.
pub open spec fn plain_component(c: Seq<char>) -> bool {
    &&& c.len() > 0
    &&& c != "."@
    &&& c != ".."@
    &&& forall|i: int| 0 <= i < c.len() ==> #[trigger] c[i] != '/' && c[i] != '\\' && c[i] != ':'
}

/// Calls `std::path::Path::join`. The contract claims that the joined path
/// is a function of `base` and `component`, named `path_joined`, and, as
/// `PathBuf::push` documents, that a plain relative component is appended,
/// so that the result ends with it. The separator and when it is inserted
/// are the platform's and left unsaid.
#[verifier::external_body]
fn join_path(base: &str, component: &str) -> (p: String)
    ensures
        p@ == path_joined(base@, component@),
        plain_component(component@) ==> ends_with_seq(p@, component@),
{
    std::path::Path::new(base).join(component).to_string_lossy().into_owned()
}

/// Where the credentials file lives: under `$XDG_CONFIG_HOME` when it is
/// set, else under `.config` in the home directory (or in `.` when there is
/// no home directory).
pub open spec fn config_path_spec(xdg_config_home: Option<Seq<char>>, home_dir: Option<Seq<char>>) -> Seq<char> {
    let base = match xdg_config_home {
        Some(x) => x,
        None => path_joined(
            match home_dir {
                Some(h) => h,
                None => "."@,
            },
            ".config"@,
        ),
    };
    path_joined(path_joined(base, "giggles"@), "config.toml"@)
}

/// The path of the credentials file, given `$XDG_CONFIG_HOME` and the home
/// directory as the environment has them.
pub fn config_file_path(xdg_config_home: Option<String>, home_dir: Option<String>) -> (p: String)
    ensures
        p@ == config_path_spec(opt_view(xdg_config_home), opt_view(home_dir)),
        ends_with_seq(p@, "config.toml"@),
        exists|dir: Seq<char>|
            p@ == path_joined(dir, "config.toml"@) && ends_with_seq(dir, "giggles"@),
{
    proof {
        reveal_strlit(".config");
        reveal_strlit("giggles");
        reveal_strlit("config.toml");
        reveal_strlit(".");
        reveal_strlit("..");
        assert("."@.len() == 1 && ".."@.len() == 2);
        assert(plain_component(".config"@)) by {
            assert(".config"@.len() == 7);
        }
        assert(plain_component("giggles"@)) by {
            assert("giggles"@.len() == 7);
        }
        assert(plain_component("config.toml"@)) by {
            assert("config.toml"@.len() == 11);
        }
    }
    let base = match xdg_config_home {
        Some(x) => x,
        None => {
            let home = match home_dir {
                Some(h) => h,
                None => String::from_str("."),
            };
            join_path(home.as_str(), ".config")
        },
    };
    let dir = join_path(base.as_str(), "giggles");
    join_path(dir.as_str(), "config.toml")
}

/// Why credentials could not be loaded or saved.
pub enum ConfigError {
    /// There is no credentials file.
    NotLoggedIn,
    /// The credentials file at this path could not be read.
    ReadFailed(String),
    /// The credentials file is not valid.
    ParseFailed,
    /// The file holds no key for this server.
    NoCredentials(String),
    /// The directory of the credentials file could not be created.
    CreateDirFailed,
    /// The credentials file at this path could not be written.
    WriteFailed(String),
}

/// The message shown for `e`.
pub open spec fn config_error_text(e: ConfigError) -> Seq<char> {
    match e {
        ConfigError::NotLoggedIn => "Not logged in. Run `giggles login`."@,
        ConfigError::ReadFailed(path) => "Failed to read config: "@ + path@,
        ConfigError::ParseFailed => "Failed to parse config"@,
        ConfigError::NoCredentials(server) => "No credentials for "@ + server@
            + ". Run `giggles login --server "@ + server@ + "`."@,
        ConfigError::CreateDirFailed => "Failed to create config directory"@,
        ConfigError::WriteFailed(path) => "Failed to write config: "@ + path@,
    }
}

impl ConfigError {
    /// The message shown for this error.
    pub fn message(&self) -> (m: String)
        ensures
            m@ == config_error_text(*self),
    {
        match self {
            ConfigError::NotLoggedIn => String::from_str("Not logged in. Run `giggles login`."),
            ConfigError::ReadFailed(path) => concat("Failed to read config: ", path.as_str()),
            ConfigError::ParseFailed => String::from_str("Failed to parse config"),
            ConfigError::NoCredentials(server) => {
                let mut m = concat3("No credentials for ", server.as_str(), ". Run `giggles login --server ");
                m.append(server.as_str());
                m.append("`.");
                m
            },
            ConfigError::CreateDirFailed => String::from_str("Failed to create config directory"),
            ConfigError::WriteFailed(path) => concat("Failed to write config: ", path.as_str()),
        }
    }
}

/// What reading the credentials file gave.
pub enum StoredConfig {
    /// There is no file.
    Missing,
    /// The file exists but could not be read.
    Unreadable,
    /// The file was read but is not valid.
    Malformed,
    /// The file was read and parsed.
    Parsed(FileConfig),
}

/// The credentials for `server` in `file`.
pub fn credentials_for(file: &FileConfig, server: String) -> (r: Result<Config, ConfigError>)
    ensures
        match lookup(file@, server@) {
            Some(k) => r matches Ok(c) && c.server@ == server@ && c.api_key@ == k,
            None => r matches Err(ConfigError::NoCredentials(s)) && s@ == server@,
        },
{
    match file.get(server.as_str()) {
        Some(api_key) => Ok(Config { server, api_key }),
        None => Err(ConfigError::NoCredentials(server)),
    }
}

/// The configuration for `server`, from what reading the file at `path` gave.
pub fn load_config_from(server: String, path: &str, stored: StoredConfig) -> (r: Result<Config, ConfigError>)
    ensures
        match stored {
            StoredConfig::Missing => r matches Err(ConfigError::NotLoggedIn),
            StoredConfig::Unreadable => r matches Err(ConfigError::ReadFailed(p)) && p@ == path@,
            StoredConfig::Malformed => r matches Err(ConfigError::ParseFailed),
            StoredConfig::Parsed(f) => match lookup(f@, server@) {
                Some(k) => r matches Ok(c) && c.server@ == server@ && c.api_key@ == k,
                None => r matches Err(ConfigError::NoCredentials(s)) && s@ == server@,
            },
        },
{
    match stored {
        StoredConfig::Missing => Err(ConfigError::NotLoggedIn),
        StoredConfig::Unreadable => Err(ConfigError::ReadFailed(String::from_str(path))),
        StoredConfig::Malformed => Err(ConfigError::ParseFailed),
        StoredConfig::Parsed(f) => credentials_for(&f, server),
    }
}

/// The view of an optional credentials file.
pub open spec fn file_view(f: Option<FileConfig>) -> Option<Map<Seq<char>, Seq<char>>> {
    match f {
        Some(f) => Some(f@),
        None => None,
    }
}

/// The credentials to write after a login to `server` gave `api_key`:
/// those already stored (none when there was no readable file), with
/// `server`'s key replaced.
pub fn merge_credentials(existing: Option<FileConfig>, server: &str, api_key: &str) -> (f: FileConfig)
    ensures
        f@ == merged(file_view(existing), server@, api_key@),
{
    let mut f = match existing {
        Some(f) => f,
        None => FileConfig::new(),
    };
    f.insert(server, api_key);
    f
}

/// A key saved for a server is the key that loading for that server gives.
pub proof fn lemma_saved_key_is_loaded(
    existing: Option<Map<Seq<char>, Seq<char>>>,
    server: Seq<char>,
    api_key: Seq<char>,
)
    ensures
        lookup(merged(existing, server, api_key), server) == Some(api_key),
{
}

/// Saving a key for one server leaves the keys of every other server as
/// they were (none, when there was no readable file).
pub proof fn lemma_save_keeps_other_servers(
    existing: Option<Map<Seq<char>, Seq<char>>>,
    server: Seq<char>,
    api_key: Seq<char>,
    other: Seq<char>,
)
    requires
        other != server,
    ensures
        lookup(merged(existing, server, api_key), other) == match existing {
            Some(m) => lookup(m, other),
            None => None,
        },
{
}

} // verus!
