//! The Shuffle CLI's shared model: the project configuration, the layout of the
//! `~/.shuffle` home directory, the configured networks, and the search for the
//! project root.  Reading and writing files is left to the caller; this module
//! decides which paths, which values and which errors.

use crate::paths::{joined_path, parent_path, path_join, path_parent};
use crate::text::{decimal, push_decimal, string_push};
use crate::keyed::{keys_distinct, lemma_pairs_map, lemma_pairs_push, lemma_pairs_remove, pairs_map};
use vstd::prelude::*;

verus! {

/// The Move package of a project, relative to the project root.
pub const MAIN_PKG_PATH: &'static str = "main";

/// The name of the network that a local node serves.
pub const LOCALHOST_NETWORK_NAME: &'static str = "localhost";

/// The base address of the network that a local node serves.
pub const LOCALHOST_NETWORK_BASE: &'static str = "http://127.0.0.1";

/// `url::ParseError`, carried opaquely.
#[verifier::external_type_specification]
#[verifier::external_body]
pub struct ExUrlParseError(url::ParseError);

/// What `url::Url::from_str` makes of the text: the serialization of the URL it
/// parses to, or none where it does not parse.
pub uninterp spec fn parsed_url(text: Seq<char>) -> Option<Seq<char>>;

/// `url::Url::from_str`, giving the parsed URL as its serialization
/// (`Url::as_str`), which determines the URL; it succeeds exactly where
/// `parsed_url` is some, with that serialization.
#[verifier::external_body]
fn parse_url(text: &str) -> (res: Result<String, url::ParseError>)
    ensures
        match res {
            Ok(serialization) => parsed_url(text@) == Some(serialization@),
            Err(_) => parsed_url(text@) is None,
        },
{
    match <url::Url as std::str::FromStr>::from_str(text) {
        Ok(url) => Ok(url.as_str().to_string()),
        Err(e) => Err(e),
    }
}

/// The message of a `url::ParseError` (its `Display`); nothing is stated of it.
#[verifier::external_body]
fn url_error_text(e: &url::ParseError) -> String {
    e.to_string()
}

/// Errors of the Shuffle model.
#[derive(Debug, PartialEq, Eq)]
pub enum ShuffleError {
    /// No ancestor of the starting directory holds a `Shuffle.toml`.
    ProjectNotFound,
    /// The accounts directory does not exist yet.
    AccountNotCreated,
    /// The requested network is not configured.
    NetworkNotFound,
    /// The network's address does not parse as a URL.
    InvalidUrl(url::ParseError),
}

impl ShuffleError {
    /// The text shown to the user for the error.
    pub fn message(&self) -> (res: String)
        ensures
            *self == ShuffleError::ProjectNotFound ==> res@
                == "unable to find Shuffle.toml; are you in a Shuffle project?"@,
            *self == ShuffleError::AccountNotCreated ==> res@
                == "An account hasn't been created yet! Run shuffle account first"@,
            *self == ShuffleError::NetworkNotFound ==> res@
                == "Please add specified network to the ~/.shuffle/Networks.json"@,
    {
        match self {
            ShuffleError::ProjectNotFound => String::from_str(
                "unable to find Shuffle.toml; are you in a Shuffle project?",
            ),
            ShuffleError::AccountNotCreated => String::from_str(
                "An account hasn't been created yet! Run shuffle account first",
            ),
            ShuffleError::NetworkNotFound => String::from_str(
                "Please add specified network to the ~/.shuffle/Networks.json",
            ),
            ShuffleError::InvalidUrl(e) => url_error_text(e),
        }
    }
}

// ---------------------------------------------------------------------------
// Project configuration
// ---------------------------------------------------------------------------

/// The contents of a project's `Shuffle.toml`.
#[derive(Debug)]
pub struct ProjectConfig {
    blockchain: String,
}

impl View for ProjectConfig {
    type V = Seq<char>;

    /// The blockchain the project targets.
    closed spec fn view(&self) -> Seq<char> {
        self.blockchain@
    }
}

impl ProjectConfig {
    pub fn new(blockchain: String) -> (res: Self)
        ensures
            res@ == blockchain@,
    {
        Self { blockchain }
    }

    /// The blockchain the project targets.
    pub fn blockchain(&self) -> (res: &str)
        ensures
            res@ == self@,
    {
        self.blockchain.as_str()
    }
}

// ---------------------------------------------------------------------------
// Searching for the project root
// ---------------------------------------------------------------------------

/// One step of the upward search for the directory that holds `Shuffle.toml`.
#[derive(Debug, PartialEq, Eq)]
pub enum ProjectSearch {
    /// The project root was found.
    Found(String),
    /// Look next in this directory.
    Continue(String),
    /// The search reached the top without finding a project.
    NotFound,
}

/// The manifest whose existence decides whether `dir` is the project root.
pub open spec fn manifest_of(dir: Seq<char>) -> Seq<char> {
    joined_path(dir, "Shuffle.toml"@)
}

/// The path whose existence as a file decides whether `dir` is the project root.
pub fn project_manifest_path(dir: &str) -> (res: String)
    ensures
        res@ == manifest_of(dir@),
{
    path_join(dir, "Shuffle.toml")
}

/// Decides one step of the search for the project root, as
/// `get_shuffle_project_path` does: push `Shuffle.toml` onto `dir`; if that is a
/// file, pop it and answer the directory; otherwise pop twice, and fail where a
/// pop finds no parent.
pub fn project_search_step(dir: &str, manifest_is_file: bool) -> (res: ProjectSearch)
    ensures
        match parent_path(manifest_of(dir@)) {
            None => if manifest_is_file {
                res matches ProjectSearch::Found(p) && p@ == manifest_of(dir@)
            } else {
                res == ProjectSearch::NotFound
            },
            Some(base) => if manifest_is_file {
                res matches ProjectSearch::Found(p) && p@ == base
            } else {
                match parent_path(base) {
                    None => res == ProjectSearch::NotFound,
                    Some(up) => res matches ProjectSearch::Continue(p) && p@ == up,
                }
            },
        },
{
    let manifest = project_manifest_path(dir);
    match path_parent(manifest.as_str()) {
        None => {
            if manifest_is_file {
                ProjectSearch::Found(manifest)
            } else {
                ProjectSearch::NotFound
            }
        },
        Some(base) => {
            if manifest_is_file {
                ProjectSearch::Found(base)
            } else {
                match path_parent(base.as_str()) {
                    None => ProjectSearch::NotFound,
                    Some(up) => ProjectSearch::Continue(up),
                }
            }
        },
    }
}

// ---------------------------------------------------------------------------
// The home directory layout
// ---------------------------------------------------------------------------

/// The paths of a Shuffle home directory.
pub struct HomeView {
    pub account: Seq<char>,
    pub latest_address: Seq<char>,
    pub latest_key: Seq<char>,
    pub latest: Seq<char>,
    pub networks_config: Seq<char>,
    pub node_config: Seq<char>,
    pub root_key: Seq<char>,
    pub shuffle: Seq<char>,
    pub test_key_address: Seq<char>,
    pub test_key: Seq<char>,
    pub test: Seq<char>,
    pub validator_config: Seq<char>,
    pub validator_log: Seq<char>,
}

/// The layout under the home directory `home`.
pub open spec fn home_layout(home: Seq<char>) -> HomeView {
    HomeView {
        account: joined_path(home, ".shuffle/accounts"@),
        latest_address: joined_path(home, ".shuffle/accounts/latest/address"@),
        latest_key: joined_path(home, ".shuffle/accounts/latest/dev.key"@),
        latest: joined_path(home, ".shuffle/accounts/latest"@),
        networks_config: joined_path(home, ".shuffle/Networks.toml"@),
        node_config: joined_path(home, ".shuffle/nodeconfig"@),
        root_key: joined_path(home, ".shuffle/nodeconfig/mint.key"@),
        shuffle: joined_path(home, ".shuffle"@),
        test_key_address: joined_path(home, ".shuffle/accounts/test/address"@),
        test_key: joined_path(home, ".shuffle/accounts/test/dev.key"@),
        test: joined_path(home, ".shuffle/accounts/test"@),
        validator_config: joined_path(home, ".shuffle/nodeconfig/0/node.yaml"@),
        validator_log: joined_path(home, ".shuffle/nodeconfig/validator.log"@),
    }
}

/// All the commonly used paths of the Shuffle CLI.
pub struct Home {
    account_path: String,
    latest_address_path: String,
    latest_key_path: String,
    latest_path: String,
    networks_config_path: String,
    node_config_path: String,
    root_key_path: String,
    shuffle_path: String,
    test_key_address_path: String,
    test_key_path: String,
    test_path: String,
    validator_config_path: String,
    validator_log_path: String,
}

impl View for Home {
    type V = HomeView;

    closed spec fn view(&self) -> HomeView {
        HomeView {
            account: self.account_path@,
            latest_address: self.latest_address_path@,
            latest_key: self.latest_key_path@,
            latest: self.latest_path@,
            networks_config: self.networks_config_path@,
            node_config: self.node_config_path@,
            root_key: self.root_key_path@,
            shuffle: self.shuffle_path@,
            test_key_address: self.test_key_address_path@,
            test_key: self.test_key_path@,
            test: self.test_path@,
            validator_config: self.validator_config_path@,
            validator_log: self.validator_log_path@,
        }
    }
}

impl Home {
    /// The layout under `home_path`; it always succeeds.
    pub fn new(home_path: &str) -> (res: Result<Self, ShuffleError>)
        ensures
            res matches Ok(h) && h@ == home_layout(home_path@),
    {
        Ok(Self {
            account_path: path_join(home_path, ".shuffle/accounts"),
            latest_address_path: path_join(home_path, ".shuffle/accounts/latest/address"),
            latest_key_path: path_join(home_path, ".shuffle/accounts/latest/dev.key"),
            latest_path: path_join(home_path, ".shuffle/accounts/latest"),
            networks_config_path: path_join(home_path, ".shuffle/Networks.toml"),
            node_config_path: path_join(home_path, ".shuffle/nodeconfig"),
            root_key_path: path_join(home_path, ".shuffle/nodeconfig/mint.key"),
            shuffle_path: path_join(home_path, ".shuffle"),
            test_key_address_path: path_join(home_path, ".shuffle/accounts/test/address"),
            test_key_path: path_join(home_path, ".shuffle/accounts/test/dev.key"),
            test_path: path_join(home_path, ".shuffle/accounts/test"),
            validator_config_path: path_join(home_path, ".shuffle/nodeconfig/0/node.yaml"),
            validator_log_path: path_join(home_path, ".shuffle/nodeconfig/validator.log"),
        })
    }

    pub fn get_shuffle_path(&self) -> (res: &str)
        ensures
            res@ == self@.shuffle,
    {
        self.shuffle_path.as_str()
    }

    pub fn get_root_key_path(&self) -> (res: &str)
        ensures
            res@ == self@.root_key,
    {
        self.root_key_path.as_str()
    }

    pub fn get_node_config_path(&self) -> (res: &str)
        ensures
            res@ == self@.node_config,
    {
        self.node_config_path.as_str()
    }

    pub fn get_validator_config_path(&self) -> (res: &str)
        ensures
            res@ == self@.validator_config,
    {
        self.validator_config_path.as_str()
    }

    pub fn get_validator_log_path(&self) -> (res: &str)
        ensures
            res@ == self@.validator_log,
    {
        self.validator_log_path.as_str()
    }

    pub fn get_latest_path(&self) -> (res: &str)
        ensures
            res@ == self@.latest,
    {
        self.latest_path.as_str()
    }

    pub fn get_latest_key_path(&self) -> (res: &str)
        ensures
            res@ == self@.latest_key,
    {
        self.latest_key_path.as_str()
    }

    pub fn get_latest_address_path(&self) -> (res: &str)
        ensures
            res@ == self@.latest_address,
    {
        self.latest_address_path.as_str()
    }

    pub fn get_account_path(&self) -> (res: &str)
        ensures
            res@ == self@.account,
    {
        self.account_path.as_str()
    }

    pub fn get_test_key_path(&self) -> (res: &str)
        ensures
            res@ == self@.test_key,
    {
        self.test_key_path.as_str()
    }

    /// Where the test account's address file goes.
    pub fn get_test_key_address_path(&self) -> (res: &str)
        ensures
            res@ == self@.test_key_address,
    {
        self.test_key_address_path.as_str()
    }

    /// The test account's directory.
    pub fn get_test_path(&self) -> (res: &str)
        ensures
            res@ == self@.test,
    {
        self.test_path.as_str()
    }

    /// The networks configuration file that is read.
    pub fn get_networks_config_path(&self) -> (res: &str)
        ensures
            res@ == self@.networks_config,
    {
        self.networks_config_path.as_str()
    }

    /// The directory that archives the current account, named by the time in
    /// whole seconds (as `create_archive_dir` names it).
    pub fn archive_dir_path(&self, secs: u64) -> (res: String)
        ensures
            res@ == joined_path(self@.account, decimal(secs as nat)),
    {
        let name = crate::text::to_decimal_string(secs);
        path_join(self.account_path.as_str(), name.as_str())
    }

    /// The copy that `archive_old_key` makes: from the latest key to `dev.key`
    /// in the archive directory.
    pub fn key_archive_copy(&self, archived_dir: &str) -> (res: (String, String))
        ensures
            res.0@ == self@.latest_key,
            res.1@ == joined_path(archived_dir@, "dev.key"@),
    {
        (self.latest_key_path.clone(), path_join(archived_dir, "dev.key"))
    }

    /// The copy that `archive_old_address` makes: from the latest address to
    /// `address` in the archive directory.
    pub fn address_archive_copy(&self, archived_dir: &str) -> (res: (String, String))
        ensures
            res.0@ == self@.latest_address,
            res.1@ == joined_path(archived_dir@, "address"@),
    {
        (self.latest_address_path.clone(), path_join(archived_dir, "address"))
    }

    /// The file that the genesis waypoint is read from.
    pub fn genesis_waypoint_path(&self) -> (res: String)
        ensures
            res@ == joined_path(self@.node_config, "waypoint.txt"@),
    {
        path_join(self.node_config_path.as_str(), "waypoint.txt")
    }

    /// The file that the top-level networks configuration is written to.
    pub fn networks_config_write_path(&self) -> (res: String)
        ensures
            res@ == joined_path(self@.shuffle, "Networks.toml"@),
    {
        path_join(self.shuffle_path.as_str(), "Networks.toml")
    }

    /// Succeeds exactly when the accounts directory exists.
    pub fn check_account_path_exists(&self, account_dir_exists: bool) -> (res: Result<
        (),
        ShuffleError,
    >)
        ensures
            account_dir_exists ==> res == Ok::<(), ShuffleError>(()),
            !account_dir_exists ==> res == Err::<(), ShuffleError>(ShuffleError::AccountNotCreated),
    {
        match account_dir_exists {
            true => Ok(()),
            false => Err(ShuffleError::AccountNotCreated),
        }
    }
}

} // verus!

verus! {

// ---------------------------------------------------------------------------
// Networks
// ---------------------------------------------------------------------------

/// A configured network as values.
pub struct NetworkView {
    pub name: Seq<char>,
    pub base: Seq<char>,
    pub json_rpc_port: u16,
    pub dev_api_port: u16,
}

/// A network that the CLI can talk to.
#[derive(Debug)]
pub struct Network {
    name: String,
    base: String,
    json_rpc_port: u16,
    dev_api_port: u16,
}

impl View for Network {
    type V = NetworkView;

    closed spec fn view(&self) -> NetworkView {
        NetworkView {
            name: self.name@,
            base: self.base@,
            json_rpc_port: self.json_rpc_port,
            dev_api_port: self.dev_api_port,
        }
    }
}

impl PartialEq for Network {
    fn eq(&self, other: &Self) -> (r: bool) {
        self.name == other.name && self.base == other.base && self.json_rpc_port
            == other.json_rpc_port && self.dev_api_port == other.dev_api_port
    }
}

impl vstd::std_specs::cmp::PartialEqSpecImpl for Network {
    open spec fn obeys_eq_spec() -> bool {
        true
    }

    open spec fn eq_spec(&self, other: &Network) -> bool {
        self@ == other@
    }
}

impl Network {
    pub fn new(name: String, base: String, json_rpc_port: u16, dev_api_port: u16) -> (res:
        Network)
        ensures
            res@ == (NetworkView {
                name: name@,
                base: base@,
                json_rpc_port: json_rpc_port,
                dev_api_port: dev_api_port,
            }),
    {
        Network { name, base, json_rpc_port, dev_api_port }
    }

    pub fn name(&self) -> (res: &str)
        ensures
            res@ == self@.name,
    {
        self.name.as_str()
    }

    pub fn base(&self) -> (res: &str)
        ensures
            res@ == self@.base,
    {
        self.base.as_str()
    }

    pub fn json_rpc_port(&self) -> (res: u16)
        ensures
            res == self@.json_rpc_port,
    {
        self.json_rpc_port
    }

    pub fn dev_api_port(&self) -> (res: u16)
        ensures
            res == self@.dev_api_port,
    {
        self.dev_api_port
    }
}

/// The network that a local node serves.
pub open spec fn localhost_network() -> NetworkView {
    NetworkView {
        name: "localhost"@,
        base: "http://127.0.0.1"@,
        json_rpc_port: 8080,
        dev_api_port: 8081,
    }
}

/// The local network: JSON-RPC on 8080 and the developer API on 8081.
pub fn generate_localhost_network() -> (res: Network)
    ensures
        res@ == localhost_network(),
{
    Network {
        name: String::from_str(LOCALHOST_NETWORK_NAME),
        base: String::from_str(LOCALHOST_NETWORK_BASE),
        json_rpc_port: 8080,
        dev_api_port: 8081,
    }
}

/// The networks keyed by name, as values.
pub type NetworkEntries = Seq<(Seq<char>, NetworkView)>;

/// The configured networks, keyed by name.
#[derive(Debug)]
pub struct NetworksConfig {
    networks: Vec<(String, Network)>,
}

/// The entries of a list of named networks, as values.
pub open spec fn entry_views(v: Seq<(String, Network)>) -> NetworkEntries {
    v.map_values(|e: (String, Network)| (e.0@, e.1@))
}

impl View for NetworksConfig {
    type V = Map<Seq<char>, NetworkView>;

    closed spec fn view(&self) -> Map<Seq<char>, NetworkView> {
        pairs_map(entry_views(self.networks@))
    }
}

impl NetworksConfig {
    #[verifier::type_invariant]
    closed spec fn names_distinct(self) -> bool {
        keys_distinct(entry_views(self.networks@))
    }

    /// No networks.
    pub fn new() -> (res: Self)
        ensures
            res@ == Map::<Seq<char>, NetworkView>::empty(),
    {
        let res = NetworksConfig { networks: Vec::new() };
        assert(entry_views(res.networks@) =~= Seq::empty());
        res
    }

    /// The configured networks with their names, as values, in the order in
    /// which `entry` lists them.
    pub closed spec fn entries(&self) -> NetworkEntries {
        entry_views(self.networks@)
    }

    /// The number of configured networks.
    pub fn len(&self) -> (res: usize)
        ensures
            res == self@.len(),
            res == self.entries().len(),
            keys_distinct(self.entries()),
            pairs_map(self.entries()) == self@,
    {
        proof {
            use_type_invariant(self);
            self.lemma_len();
        }
        self.networks.len()
    }

    proof fn lemma_len(&self)
        requires
            self.names_distinct(),
        ensures
            self@.dom().finite(),
            self@.len() == self.networks@.len(),
    {
        lemma_pairs_map(entry_views(self.networks@));
    }

    /// The `i`-th configured network with its name.  The indices below `len`
    /// list every configured network once.
    pub fn entry(&self, i: usize) -> (res: (&str, &Network))
        requires
            i < self@.len(),
        ensures
            (res.0@, res.1@) == self.entries()[i as int],
            self.entries().len() == self@.len(),
            keys_distinct(self.entries()),
            pairs_map(self.entries()) == self@,
            self@.contains_key(res.0@),
            self@[res.0@] == res.1@,
    {
        proof {
            use_type_invariant(self);
            self.lemma_len();
            lemma_pairs_map(entry_views(self.networks@));
            let s = entry_views(self.networks@);
            assert(s[i as int] == (self.networks@[i as int].0@, self.networks@[i as int].1@));
            assert(pairs_map(s).contains_key(s[i as int].0));
        }
        let e = &self.networks[i];
        let name = e.0.as_str();
        assert(name@ == entry_views(self.networks@)[i as int].0);
        (name, &e.1)
    }

    fn position(&self, name: &String) -> (res: Option<usize>)
        ensures
            match res {
                Some(i) => i < self.networks@.len() && self.networks@[i as int].0@ == name@,
                None => forall|i: int|
                    0 <= i < self.networks@.len() ==> self.networks@[i].0@ != name@,
            },
    {
        let mut i: usize = 0;
        while i < self.networks.len()
            invariant
                i <= self.networks@.len(),
                forall|j: int| 0 <= j < i ==> self.networks@[j].0@ != name@,
            decreases self.networks@.len() - i,
        {
            if self.networks[i].0 == *name {
                return Some(i);
            }
            i = i + 1;
        }
        None
    }

    /// The network configured under `name`.
    pub fn get(&self, name: &str) -> (res: Option<&Network>)
        ensures
            match res {
                Some(n) => self@.contains_key(name@) && n@ == self@[name@],
                None => !self@.contains_key(name@),
            },
    {
        proof {
            use_type_invariant(self);
            lemma_pairs_map(entry_views(self.networks@));
        }
        let key = String::from_str(name);
        match self.position(&key) {
            Some(i) => {
                proof {
                    let s = entry_views(self.networks@);
                    assert(s[i as int] == (self.networks@[i as int].0@, self.networks@[i as int].1@));
                    assert(pairs_map(s).contains_key(s[i as int].0));
                }
                Some(&self.networks[i].1)
            },
            None => {
                proof {
                    if self@.contains_key(name@) {
                        let j = choose|j: int|
                            0 <= j < entry_views(self.networks@).len() && entry_views(
                                self.networks@,
                            )[j].0 == name@;
                        assert(self.networks@[j].0@ == name@);
                    }
                }
                None
            },
        }
    }

    /// Configures `network` under `name`, and gives back the network that was
    /// configured under it before, if any.
    pub fn insert(&mut self, name: String, network: Network) -> (res: Option<Network>)
        ensures
            final(self)@ == old(self)@.insert(name@, network@),
            match res {
                Some(n) => old(self)@.contains_key(name@) && n@ == old(self)@[name@],
                None => !old(self)@.contains_key(name@),
            },
    {
        proof {
            use_type_invariant(&*self);
        }
        let ghost before = entry_views(self.networks@);
        proof {
            lemma_pairs_map(before);
        }
        let pos = self.position(&name);
        let ghost gpos: Option<int> = match pos {
            Some(p) => Some(p as int),
            None => None,
        };
        proof {
            if let Some(p) = pos {
                assert(before[p as int] == (self.networks@[p as int].0@, self.networks@[p as int].1@));
            }
            match gpos {
                Some(p) => {
                    lemma_pairs_remove(before, p);
                    lemma_pairs_push(before.remove(p), name@, network@);
                    assert(pairs_map(before).remove(name@).insert(name@, network@) =~= pairs_map(
                        before,
                    ).insert(name@, network@));
                },
                None => {
                    lemma_pairs_push(before, name@, network@);
                    if pairs_map(before).contains_key(name@) {
                        let j = choose|j: int| 0 <= j < before.len() && before[j].0 == name@;
                        assert(before[j] == (self.networks@[j].0@, self.networks@[j].1@));
                    }
                },
            }
        }
        let mut entries: Vec<(String, Network)> = Vec::new();
        std::mem::swap(&mut entries, &mut self.networks);
        assert(entry_views(entries@) == before);
        let old_network = match pos {
            Some(i) => {
                let (_, n) = entries.remove(i);
                assert(n@ == before[i as int].1);
                Some(n)
            },
            None => None,
        };
        proof {
            if let Some(p) = pos {
                assert(entry_views(entries@) =~= before.remove(p as int));
            } else {
                assert(entry_views(entries@) =~= before);
            }
        }
        entries.push((name, network));
        proof {
            let after = match gpos {
                Some(p) => before.remove(p).push((name@, network@)),
                None => before.push((name@, network@)),
            };
            assert(entry_views(entries@) =~= after);
        }
        self.networks = entries;
        old_network
    }
}

impl NetworksConfig {
    /// Whether every network of `self` is configured identically in `other`.
    fn included_in(&self, other: &NetworksConfig) -> (r: bool)
        ensures
            r == (forall|k: Seq<char>|
                #[trigger] self@.contains_key(k) ==> other@.contains_key(k) && other@[k]
                    == self@[k]),
    {
        proof {
            use_type_invariant(self);
            lemma_pairs_map(entry_views(self.networks@));
        }
        let ghost s = entry_views(self.networks@);
        let mut i: usize = 0;
        while i < self.networks.len()
            invariant
                i <= self.networks@.len(),
                s == entry_views(self.networks@),
                keys_distinct(s),
                forall|j: int|
                    0 <= j < i ==> other@.contains_key(#[trigger] s[j].0) && other@[s[j].0]
                        == s[j].1,
            decreases self.networks@.len() - i,
        {
            let entry = &self.networks[i];
            assert(s[i as int] == (entry.0@, entry.1@));
            match other.get(entry.0.as_str()) {
                None => {
                    proof {
                        lemma_pairs_map(s);
                        assert(pairs_map(s).contains_key(s[i as int].0));
                        assert(self@.contains_key(s[i as int].0));
                    }
                    return false;
                },
                Some(n) => {
                    if !(*n == entry.1) {
                        proof {
                            lemma_pairs_map(s);
                            assert(pairs_map(s).contains_key(s[i as int].0));
                            assert(self@.contains_key(s[i as int].0));
                            assert(self@[s[i as int].0] == entry.1@);
                            assert(other@[s[i as int].0] == n@);
                        }
                        return false;
                    }
                },
            }
            i = i + 1;
        }
        proof {
            assert forall|k: Seq<char>| #[trigger] self@.contains_key(k) implies other@.contains_key(
                k,
            ) && other@[k] == self@[k] by {
                let j = choose|j: int| 0 <= j < s.len() && s[j].0 == k;
                assert(other@.contains_key(s[j].0));
            }
        }
        true
    }
}

impl PartialEq for NetworksConfig {
    fn eq(&self, other: &Self) -> (r: bool) {
        let r = self.included_in(other) && other.included_in(self);
        proof {
            if r {
                assert(self@ =~= other@);
            }
        }
        r
    }
}

impl vstd::std_specs::cmp::PartialEqSpecImpl for NetworksConfig {
    open spec fn obeys_eq_spec() -> bool {
        true
    }

    open spec fn eq_spec(&self, other: &NetworksConfig) -> bool {
        self@ == other@
    }
}

/// The networks file written by `shuffle node`: the local network under
/// "localhost".
pub fn generate_top_level_networks_config() -> (res: NetworksConfig)
    ensures
        res@ == Map::<Seq<char>, NetworkView>::empty().insert("localhost"@, localhost_network()),
{
    let mut networks = NetworksConfig::new();
    let _ = networks.insert(String::from_str("localhost"), generate_localhost_network());
    networks
}

/// The text of the developer API address of a network: its base, a colon and the
/// port in decimal.
pub open spec fn dev_api_url_text(n: NetworkView) -> Seq<char> {
    n.base + ":"@ + decimal(n.dev_api_port as nat)
}

/// The developer API address of a network is its base, a colon and the decimal
/// of its own developer API port: it depends on nothing else of the network
/// (not its name, not its JSON-RPC port), and networks whose developer API ports
/// differ have different addresses.
pub proof fn law_dev_api_url_uses_dev_api_port(n: NetworkView, m: NetworkView)
    ensures
        dev_api_url_text(n) == n.base + ":"@ + decimal(n.dev_api_port as nat),
        n.base == m.base && n.dev_api_port == m.dev_api_port ==> dev_api_url_text(n) == dev_api_url_text(m),
        n.base == m.base && n.dev_api_port != m.dev_api_port ==> dev_api_url_text(n) != dev_api_url_text(m),
{
    if n.base == m.base && n.dev_api_port != m.dev_api_port {
        crate::text::lemma_decimal_injective(n.dev_api_port as nat, m.dev_api_port as nat);
        let p = n.base + ":"@;
        assert(dev_api_url_text(n).subrange(p.len() as int, dev_api_url_text(n).len() as int) =~= decimal(
            n.dev_api_port as nat,
        ));
        assert(dev_api_url_text(m).subrange(p.len() as int, dev_api_url_text(m).len() as int) =~= decimal(
            m.dev_api_port as nat,
        ));
    }
}

/// The developer API address of a network, as text.
pub fn network_dev_api_url_text(network: &Network) -> (res: String)
    ensures
        res@ == dev_api_url_text(network@),
{
    let mut text = network.base.clone();
    string_push(&mut text, ':');
    push_decimal(&mut text, network.dev_api_port as u64);
    proof {
        reveal_strlit(":");
        assert(text@ =~= dev_api_url_text(network@));
    }
    text
}

/// The developer API URL of the network named `network_name`, as the
/// serialization of the parsed URL.
pub fn build_url(network_name: &str, all_networks: &NetworksConfig) -> (res: Result<
    String,
    ShuffleError,
>)
    ensures
        !all_networks@.contains_key(network_name@) ==> res == Err::<String, ShuffleError>(
            ShuffleError::NetworkNotFound,
        ),
        all_networks@.contains_key(network_name@) ==> match parsed_url(
            dev_api_url_text(all_networks@[network_name@]),
        ) {
            Some(url) => res matches Ok(s) && s@ == url,
            None => res matches Err(ShuffleError::InvalidUrl(_)),
        },
{
    match all_networks.get(network_name) {
        None => Err(ShuffleError::NetworkNotFound),
        Some(network) => {
            let text = network_dev_api_url_text(network);
            match parse_url(text.as_str()) {
                Ok(url) => Ok(url),
                Err(e) => Err(ShuffleError::InvalidUrl(e)),
            }
        },
    }
}

} // verus!

verus! {

// ---------------------------------------------------------------------------
// The local node
// ---------------------------------------------------------------------------

/// The line printed before the local node's configuration is loaded: it is
/// created where the Shuffle directory does not exist yet, and accessed otherwise.
pub fn node_config_notice(shuffle_dir: &str, shuffle_dir_exists: bool) -> (res: String)
    ensures
        !shuffle_dir_exists ==> res@ == "Creating node config in "@ + shuffle_dir@,
        shuffle_dir_exists ==> res@ == "Accessing node config in "@ + shuffle_dir@,
{
    let mut text = if shuffle_dir_exists {
        String::from_str("Accessing node config in ")
    } else {
        String::from_str("Creating node config in ")
    };
    text.append(shuffle_dir);
    text
}

/// The directory of the local node's configuration in the Shuffle directory.
pub fn node_config_dir(shuffle_dir: &str) -> (res: String)
    ensures
        res@ == joined_path(shuffle_dir@, "nodeconfig"@),
{
    path_join(shuffle_dir, "nodeconfig")
}

} // verus!

verus! {

/// A network configured under a name is what `get` then finds under that name;
/// every other name finds what it found before.
pub proof fn law_network_read_back(
    before: Map<Seq<char>, NetworkView>,
    name: Seq<char>,
    network: NetworkView,
    other: Seq<char>,
)
    requires
        other != name,
    ensures
        before.insert(name, network).contains_key(name),
        before.insert(name, network)[name] == network,
        before.insert(name, network).contains_key(other) == before.contains_key(other),
        before.contains_key(other) ==> before.insert(name, network)[other] == before[other],
{
}

/// Listing the entries of a configuration by index lists each configured
/// network exactly once: every entry is a configured network, no two indices
/// give the same name, and every configured name has an index.
pub proof fn law_network_entries_list_each_network_once(entries: NetworkEntries, networks: Map<Seq<char>, NetworkView>)
    requires
        keys_distinct(entries),
        pairs_map(entries) == networks,
    ensures
        entries.len() == networks.len(),
        forall|i: int|
            0 <= i < entries.len() ==> #[trigger] networks.contains_key(entries[i].0) && networks[entries[i].0]
                == entries[i].1,
        forall|i: int, j: int| 0 <= i < j < entries.len() ==> #[trigger] entries[i].0 != #[trigger] entries[j].0,
        forall|name: Seq<char>|
            #[trigger] networks.contains_key(name) ==> exists|i: int| 0 <= i < entries.len() && entries[i].0 == name,
{
    lemma_pairs_map(entries);
}

/// The order in which networks of different names are configured does not
/// matter: the configurations compare equal.
pub proof fn law_network_insert_order_irrelevant(
    m: Map<Seq<char>, NetworkView>,
    a: Seq<char>,
    va: NetworkView,
    b: Seq<char>,
    vb: NetworkView,
)
    requires
        a != b,
    ensures
        m.insert(a, va).insert(b, vb) == m.insert(b, vb).insert(a, va),
{
    assert(m.insert(a, va).insert(b, vb) =~= m.insert(b, vb).insert(a, va));
}

} // verus!

verus! {

// ---------------------------------------------------------------------------
// Generated TypeScript libraries
// ---------------------------------------------------------------------------

/// The directories that generating a project's TypeScript libraries uses: the
/// project's main Move package, and the `generated` directory in it that the
/// libraries are written to.
pub fn typescript_library_dirs(project_path: &str) -> (res: (String, String))
    ensures
        res.0@ == joined_path(project_path@, "main"@),
        res.1@ == joined_path(joined_path(project_path@, "main"@), "generated"@),
{
    let pkg_path = path_join(project_path, MAIN_PKG_PATH);
    let target_dir = path_join(pkg_path.as_str(), "generated");
    (pkg_path, target_dir)
}

} // verus!

verus! {

// ---------------------------------------------------------------------------
// Account address files
// ---------------------------------------------------------------------------

/// Whether Diem accepts the bytes as an Ed25519 public key: they encode a point
/// of the curve that lies outside its small subgroups.
pub uninterp spec fn is_ed25519_public_key(bytes: Seq<u8>) -> bool;

/// `diem_crypto::ed25519::Ed25519PublicKey::try_from` on the bytes: whether it
/// gives a key.  A key made from bytes gives those bytes back as its own.
#[verifier::external_body]
fn ed25519_public_key_is_valid(bytes: &[u8; 32]) -> (res: bool)
    ensures
        res == is_ed25519_public_key(bytes@),
{
    diem_crypto::ed25519::Ed25519PublicKey::try_from(&bytes[..]).is_ok()
}

/// The SHA3-256 digest of the bytes.
pub uninterp spec fn sha3_256(data: Seq<u8>) -> Seq<u8>;

/// `diem_crypto::HashValue::sha3_256_of`: the 32 bytes of the digest.
#[verifier::external_body]
fn sha3_256_of(data: &[u8]) -> (res: [u8; 32])
    ensures
        res@ == sha3_256(data@),
{
    let digest = diem_crypto::HashValue::sha3_256_of(data);
    *digest
}

/// The scheme byte that marks an Ed25519 key in the preimage of an
/// authentication key.
pub const ED25519_SCHEME_ID: u8 = 0;

/// The account address that Diem derives from an Ed25519 public key: the
/// authentication key is the SHA3-256 digest of the key's bytes followed by the
/// scheme byte, and the address is its last 16 bytes.
pub open spec fn ed25519_derived_address(public_key: Seq<u8>) -> Seq<u8> {
    sha3_256(public_key.push(ED25519_SCHEME_ID)).subrange(16, 32)
}

/// The text of an account's address file: the address derived from the public
/// key, as upper-case hex; none where the bytes are not a valid public key.
pub fn address_file_text(public_key: &[u8; 32]) -> (res: Option<String>)
    ensures
        match res {
            Some(s) => is_ed25519_public_key(public_key@) && s@ == crate::text::upper_hex(
                ed25519_derived_address(public_key@),
            ),
            None => !is_ed25519_public_key(public_key@),
        },
{
    if !ed25519_public_key_is_valid(public_key) {
        return None;
    }
    let mut preimage: Vec<u8> = Vec::new();
    for i in 0..32
        invariant
            preimage@ == public_key@.take(i as int),
            public_key@.len() == 32,
    {
        preimage.push(public_key[i]);
        assert(preimage@ =~= public_key@.take(i + 1));
    }
    assert(preimage@ =~= public_key@);
    preimage.push(ED25519_SCHEME_ID);
    let digest = sha3_256_of(preimage.as_slice());
    let mut address: Vec<u8> = Vec::new();
    for i in 16..32
        invariant
            address@ == digest@.subrange(16, i as int),
            digest@.len() == 32,
    {
        address.push(digest[i]);
        assert(address@ =~= digest@.subrange(16, i + 1));
    }
    let mut text = String::new();
    crate::text::push_upper_hex(&mut text, address.as_slice());
    proof {
        assert(text@ =~= crate::text::upper_hex(address@));
    }
    Some(text)
}

} // verus!
