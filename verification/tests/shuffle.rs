use diem_core::shuffle::{
    build_url, generate_localhost_network, generate_top_level_networks_config,
    node_config_notice, project_manifest_path, project_search_step, Home, Network,
    NetworksConfig, ProjectSearch, ShuffleError,
};
use diem_crypto::{ed25519::Ed25519PrivateKey, PrivateKey};
use diem_types::transaction::authenticator::AuthenticationKey;
use std::convert::TryFrom;
use std::path::{Path, PathBuf};
use std::str::FromStr;
use tempfile::tempdir;
use url::Url;

fn text(p: &Path) -> &str {
    p.to_str().unwrap()
}

fn get_test_network() -> Network {
    Network::new("localhost".to_string(), "http://127.0.0.1".to_string(), 8080, 8081)
}

/// Runs the search for the project root from `cwd`, looking at the file system.
fn search_project(cwd: &Path) -> Result<PathBuf, ShuffleError> {
    let mut dir = text(cwd).to_string();
    loop {
        let manifest = project_manifest_path(&dir);
        match project_search_step(&dir, Path::new(&manifest).is_file()) {
            ProjectSearch::Found(root) => return Ok(PathBuf::from(root)),
            ProjectSearch::Continue(next) => dir = next,
            ProjectSearch::NotFound => return Err(ShuffleError::ProjectNotFound),
        }
    }
}

#[test]
fn test_get_shuffle_project_path() {
    let tmpdir = tempdir().unwrap();
    let dir_path = tmpdir.path();

    let nested = tempfile::Builder::new()
        .prefix("nested")
        .rand_bytes(0)
        .tempdir_in(dir_path)
        .unwrap();
    let _manifest = tempfile::Builder::new()
        .prefix("Shuffle")
        .suffix(".toml")
        .rand_bytes(0)
        .tempfile_in(dir_path)
        .unwrap();

    let actual = search_project(nested.path()).unwrap();
    let expectation = dir_path;
    assert_eq!(&actual, expectation);
}

#[test]
fn test_project_search_without_manifest_fails() {
    let tmpdir = tempdir().unwrap();
    let nested = tempfile::Builder::new()
        .prefix("deeper")
        .rand_bytes(0)
        .tempdir_in(tmpdir.path())
        .unwrap();
    // no Shuffle.toml anywhere up to the root (the temp dir is outside any project)
    let mut dir = text(nested.path()).to_string();
    let mut steps = 0;
    loop {
        let manifest = project_manifest_path(&dir);
        assert!(manifest.ends_with("Shuffle.toml"));
        match project_search_step(&dir, false) {
            ProjectSearch::Found(_) => panic!("nothing to find"),
            ProjectSearch::Continue(next) => {
                assert!(next.len() < dir.len());
                dir = next;
            }
            ProjectSearch::NotFound => break,
        }
        steps += 1;
    }
    assert!(steps >= 2);
}

#[test]
fn test_project_search_step_found_answers_the_directory() {
    assert_eq!(
        project_search_step("/a/b", true),
        ProjectSearch::Found("/a/b".to_string())
    );
    assert_eq!(
        project_search_step("/a/b", false),
        ProjectSearch::Continue("/a".to_string())
    );
    assert_eq!(project_search_step("/", false), ProjectSearch::NotFound);
}

#[test]
fn test_home_get_shuffle_path() {
    let dir = tempdir().unwrap();
    let home = Home::new(text(dir.path())).unwrap();
    let correct_dir = dir.path().join(".shuffle");
    assert_eq!(text(&correct_dir), home.get_shuffle_path());
}

#[test]
fn test_home_get_latest_path() {
    let dir = tempdir().unwrap();
    let home = Home::new(text(dir.path())).unwrap();
    let correct_dir = dir.path().join(".shuffle/accounts/latest");
    assert_eq!(text(&correct_dir), home.get_latest_path());
}

#[test]
fn test_home_get_account_path() {
    let dir = tempdir().unwrap();
    let home = Home::new(text(dir.path())).unwrap();
    let correct_dir = dir.path().join(".shuffle/accounts");
    assert_eq!(text(&correct_dir), home.get_account_path());
}

#[test]
fn test_home_get_nodeconfig_path() {
    let dir = tempdir().unwrap();
    let home = Home::new(text(dir.path())).unwrap();
    let correct_dir = dir.path().join(".shuffle/nodeconfig/0/node.yaml");
    assert_eq!(text(&correct_dir), home.get_validator_config_path());
}

#[test]
fn test_home_get_root_key_path() {
    let dir = tempdir().unwrap();
    let home = Home::new(text(dir.path())).unwrap();
    let correct_dir = dir.path().join(".shuffle/nodeconfig/mint.key");
    assert_eq!(text(&correct_dir), home.get_root_key_path());
}

#[test]
fn test_home_get_latest_key_path() {
    let dir = tempdir().unwrap();
    let home = Home::new(text(dir.path())).unwrap();
    let correct_dir = dir.path().join(".shuffle/accounts/latest/dev.key");
    assert_eq!(text(&correct_dir), home.get_latest_key_path());
}

#[test]
fn test_home_other_paths() {
    let home = Home::new("/home/user").unwrap();
    assert_eq!(home.get_node_config_path(), "/home/user/.shuffle/nodeconfig");
    assert_eq!(
        home.get_validator_log_path(),
        "/home/user/.shuffle/nodeconfig/validator.log"
    );
    assert_eq!(
        home.get_latest_address_path(),
        "/home/user/.shuffle/accounts/latest/address"
    );
    assert_eq!(
        home.get_test_key_path(),
        "/home/user/.shuffle/accounts/test/dev.key"
    );
    assert_eq!(
        home.get_test_key_address_path(),
        "/home/user/.shuffle/accounts/test/address"
    );
    assert_eq!(home.get_test_path(), "/home/user/.shuffle/accounts/test");
    assert_eq!(
        home.get_networks_config_path(),
        "/home/user/.shuffle/Networks.toml"
    );
    assert_eq!(
        home.networks_config_write_path(),
        "/home/user/.shuffle/Networks.toml"
    );
    assert_eq!(
        home.genesis_waypoint_path(),
        "/home/user/.shuffle/nodeconfig/waypoint.txt"
    );
}

#[test]
fn test_home_archive_paths() {
    let home = Home::new("/h").unwrap();
    let archived = home.archive_dir_path(1634567890);
    assert_eq!(archived, "/h/.shuffle/accounts/1634567890");
    assert_eq!(
        home.key_archive_copy(&archived),
        (
            "/h/.shuffle/accounts/latest/dev.key".to_string(),
            "/h/.shuffle/accounts/1634567890/dev.key".to_string()
        )
    );
    assert_eq!(
        home.address_archive_copy(&archived),
        (
            "/h/.shuffle/accounts/latest/address".to_string(),
            "/h/.shuffle/accounts/1634567890/address".to_string()
        )
    );
    assert_eq!(home.archive_dir_path(0), "/h/.shuffle/accounts/0");
}

#[test]
fn test_check_account_dir_exists() {
    let bad_dir = tempdir().unwrap();
    let home = Home::new(text(bad_dir.path())).unwrap();
    let exists = Path::new(home.get_account_path()).is_dir();
    assert_eq!(home.check_account_path_exists(exists).is_err(), true);
    assert_eq!(
        home.check_account_path_exists(exists),
        Err(ShuffleError::AccountNotCreated)
    );

    let good_dir = tempdir().unwrap();
    let shuffle = tempfile::Builder::new()
        .prefix(".shuffle")
        .rand_bytes(0)
        .tempdir_in(good_dir.path())
        .unwrap();
    let _accounts = tempfile::Builder::new()
        .prefix("accounts")
        .rand_bytes(0)
        .tempdir_in(shuffle.path())
        .unwrap();
    let home = Home::new(text(good_dir.path())).unwrap();
    let exists = Path::new(home.get_account_path()).is_dir();
    assert_eq!(home.check_account_path_exists(exists).is_err(), false);
}

#[test]
fn test_error_messages() {
    assert_eq!(
        ShuffleError::ProjectNotFound.message(),
        "unable to find Shuffle.toml; are you in a Shuffle project?"
    );
    assert_eq!(
        ShuffleError::AccountNotCreated.message(),
        "An account hasn't been created yet! Run shuffle account first"
    );
    assert_eq!(
        ShuffleError::NetworkNotFound.message(),
        "Please add specified network to the ~/.shuffle/Networks.json"
    );
}

#[test]
fn test_generate_top_level_networks_config() {
    let mut network_map = NetworksConfig::new();
    network_map.insert("localhost".to_string(), get_test_network());
    let networks_cfg = network_map;
    assert_eq!(generate_top_level_networks_config(), networks_cfg);
}

#[test]
fn test_generate_localhost_network() {
    assert_eq!(generate_localhost_network(), get_test_network());
}

#[test]
fn test_build_url() {
    let mut network_map = NetworksConfig::new();
    network_map.insert("localhost".to_string(), generate_localhost_network());
    let all_networks = network_map;
    let generated_url = build_url("localhost", &all_networks).unwrap();
    let correct_url = Url::from_str("http://127.0.0.1:8081").unwrap();
    assert_eq!(Url::from_str(&generated_url).unwrap(), correct_url);
    assert_eq!(generated_url, "http://127.0.0.1:8081/");
    assert_eq!(build_url("trove", &all_networks).is_err(), true);
    assert_eq!(
        build_url("trove", &all_networks),
        Err(ShuffleError::NetworkNotFound)
    );
}

#[test]
fn test_build_url_invalid_base() {
    let mut networks = NetworksConfig::new();
    networks.insert(
        "broken".to_string(),
        Network::new("broken".to_string(), "not a url".to_string(), 1, 2),
    );
    assert!(matches!(
        build_url("broken", &networks),
        Err(ShuffleError::InvalidUrl(_))
    ));
}

#[test]
fn test_networks_insert_replaces_and_get_reads_back() {
    let mut networks = NetworksConfig::new();
    assert_eq!(networks.len(), 0);
    assert!(networks.get("localhost").is_none());
    assert!(networks
        .insert("localhost".to_string(), generate_localhost_network())
        .is_none());
    let other = Network::new("dev".to_string(), "http://10.0.0.1".to_string(), 1, 2);
    assert!(networks.insert("dev".to_string(), other).is_none());
    assert_eq!(networks.len(), 2);
    let replaced = networks.insert(
        "localhost".to_string(),
        Network::new("localhost".to_string(), "http://127.0.0.2".to_string(), 3, 4),
    );
    assert_eq!(replaced, Some(generate_localhost_network()));
    assert_eq!(networks.len(), 2);
    assert_eq!(networks.get("localhost").unwrap().base(), "http://127.0.0.2");
    assert_eq!(networks.get("localhost").unwrap().dev_api_port(), 4);
    assert_eq!(networks.get("dev").unwrap().json_rpc_port(), 1);
}

#[test]
fn test_networks_equality_ignores_insertion_order() {
    let a_net = || Network::new("a".to_string(), "http://a".to_string(), 1, 2);
    let b_net = || Network::new("b".to_string(), "http://b".to_string(), 3, 4);
    let mut first = NetworksConfig::new();
    first.insert("a".to_string(), a_net());
    first.insert("b".to_string(), b_net());
    let mut second = NetworksConfig::new();
    second.insert("b".to_string(), b_net());
    second.insert("a".to_string(), a_net());
    assert_eq!(first, second);
    second.insert("a".to_string(), b_net());
    assert_ne!(first, second);
}

#[test]
fn test_node_config_notice() {
    assert_eq!(
        node_config_notice("/h/.shuffle", false),
        "Creating node config in /h/.shuffle"
    );
    assert_eq!(
        node_config_notice("/h/.shuffle", true),
        "Accessing node config in /h/.shuffle"
    );
    assert_eq!(
        diem_core::shuffle::node_config_dir("/h/.shuffle"),
        "/h/.shuffle/nodeconfig"
    );
}

#[test]
fn test_project_config_keeps_blockchain() {
    let cfg = diem_core::shuffle::ProjectConfig::new("goodday".to_string());
    assert_eq!(cfg.blockchain(), "goodday");
}

#[test]
fn test_typescript_library_dirs() {
    assert_eq!(
        diem_core::shuffle::typescript_library_dirs("/p"),
        ("/p/main".to_string(), "/p/main/generated".to_string())
    );
}

#[test]
fn test_address_file_text_is_the_derived_address() {
    let private_key = Ed25519PrivateKey::try_from(&[7u8; 32][..]).unwrap();
    let public_key = private_key.public_key();
    let expected = AuthenticationKey::ed25519(&public_key)
        .derived_address()
        .to_string();
    let text = diem_core::shuffle::address_file_text(&public_key.to_bytes()).unwrap();
    assert_eq!(text, expected);
    assert_eq!(text.len(), 32);
    assert_ne!(text, diem_core::text::to_decimal_string(0));
}

#[test]
fn test_address_file_text_refuses_an_invalid_key() {
    let mut identity = [0u8; 32];
    identity[0] = 1;
    assert_eq!(diem_core::shuffle::address_file_text(&identity), None);
}

#[test]
fn test_networks_entries_list_each_network_once() {
    let mut networks = NetworksConfig::new();
    for (name, port) in [("c", 3u16), ("a", 1), ("b", 2), ("a", 4)] {
        networks.insert(
            name.to_string(),
            Network::new(name.to_string(), format!("http://{}", name), port, port + 100),
        );
    }
    assert_eq!(networks.len(), 3);
    let mut listed: Vec<(String, u16)> = (0..networks.len())
        .map(|i| {
            let (name, network) = networks.entry(i);
            (name.to_string(), network.json_rpc_port())
        })
        .collect();
    listed.sort();
    assert_eq!(
        listed,
        vec![("a".to_string(), 4), ("b".to_string(), 2), ("c".to_string(), 3)]
    );
}
