use diem_core::trusted_peers::{
    ConsensusPeerInfo, ConsensusPeersConfig, NetworkPeerInfo, NetworkPeersConfig, PeerId,
    PeerMap, UpstreamPeersConfig, ValidatorInfo, ValidatorVerifier,
};

fn configs(order: &[u128]) -> (ConsensusPeersConfig<String>, NetworkPeersConfig<String, String>) {
    let mut consensus = PeerMap::new();
    let mut network = PeerMap::new();
    for &p in order {
        consensus.insert(PeerId(p), ConsensusPeerInfo { consensus_pubkey: format!("c{}", p) });
        network.insert(
            PeerId(p),
            NetworkPeerInfo {
                network_signing_pubkey: format!("s{}", p),
                network_identity_pubkey: format!("i{}", p),
            },
        );
    }
    (ConsensusPeersConfig { peers: consensus }, NetworkPeersConfig { peers: network })
}

#[test]
fn test_validator_set_is_sorted_by_address() {
    let (consensus, network) = configs(&[30, 10, 20, u128::MAX, 0]);
    let set = consensus.get_validator_set(&network);
    let addresses: Vec<u128> = set.validators.iter().map(|v| v.account_address.0).collect();
    assert_eq!(addresses, vec![0, 10, 20, 30, u128::MAX]);
    for v in &set.validators {
        let p = v.account_address.0;
        assert_eq!(v.consensus_public_key, format!("c{}", p));
        assert_eq!(v.network_signing_public_key, format!("s{}", p));
        assert_eq!(v.network_identity_public_key, format!("i{}", p));
        assert_eq!(v.consensus_voting_power, 1);
    }
}

#[test]
fn test_validator_set_does_not_depend_on_configuration_order() {
    let (c1, n1) = configs(&[5, 3, 9, 1]);
    let (c2, n2) = configs(&[1, 9, 3, 5]);
    let a: Vec<PeerId> = c1.get_validator_set(&n1).validators.iter().map(|v| v.account_address).collect();
    let b: Vec<PeerId> = c2.get_validator_set(&n2).validators.iter().map(|v| v.account_address).collect();
    assert_eq!(a, b);
}

#[test]
fn test_validator_verifier_is_sorted_with_unit_power() {
    let (consensus, _) = configs(&[7, 2, 4]);
    let verifier = consensus.get_validator_verifier();
    let entries: Vec<(u128, String, u64)> = verifier
        .address_to_validator_info
        .iter()
        .map(|(p, info)| (p.0, info.public_key.clone(), info.voting_power))
        .collect();
    assert_eq!(
        entries,
        vec![
            (2, "c2".to_string(), 1),
            (4, "c4".to_string(), 1),
            (7, "c7".to_string(), 1)
        ]
    );
}

#[test]
fn test_peer_map_insert_replaces() {
    let mut peers: PeerMap<u32> = PeerMap::new();
    assert_eq!(peers.insert(PeerId(1), 10), None);
    assert_eq!(peers.insert(PeerId(2), 20), None);
    assert_eq!(peers.insert(PeerId(1), 11), Some(10));
    assert_eq!(peers.len(), 2);
    assert_eq!(peers.get(&PeerId(1)), Some(&11));
    assert_eq!(peers.get(&PeerId(3)), None);
    let first = peers.ordered_entries()[0];
    assert_eq!(first.0, PeerId(1));
    assert_eq!(peers.get(&first.0), Some(first.1));
}

#[test]
fn test_empty_configuration_gives_empty_set() {
    let (consensus, network) = configs(&[]);
    assert!(consensus.get_validator_set(&network).validators.is_empty());
    let upstream = UpstreamPeersConfig { upstream_peers: vec![PeerId(4)] };
    assert_eq!(upstream.upstream_peers.len(), 1);
}

#[test]
fn test_ordered_entries_follow_addresses() {
    let mut peers: PeerMap<&str> = PeerMap::new();
    peers.insert(PeerId(30), "c");
    peers.insert(PeerId(10), "a");
    peers.insert(PeerId(20), "b");
    let ordered: Vec<(u128, &str)> = peers
        .ordered_entries()
        .into_iter()
        .map(|(p, v)| (p.0, *v))
        .collect();
    assert_eq!(ordered, vec![(10, "a"), (20, "b"), (30, "c")]);
}

#[test]
fn test_validator_verifier_quorum_of_unit_powers() {
    let (consensus, _) = configs(&[7, 2, 4]);
    let verifier = consensus.get_validator_verifier();
    assert_eq!(verifier.total_voting_power(), 3);
    assert_eq!(verifier.quorum_voting_power(), 3);
    let (empty, _) = configs(&[]);
    let verifier = empty.get_validator_verifier();
    assert_eq!(verifier.total_voting_power(), 0);
    assert_eq!(verifier.quorum_voting_power(), 0);
}

#[test]
fn test_validator_verifier_quorum_is_two_thirds_plus_one() {
    let info = |p: u128, power: u64| (PeerId(p), ValidatorInfo { public_key: p, voting_power: power });
    let verifier = ValidatorVerifier::new(vec![info(1, 5), info(2, 10)]);
    assert_eq!(verifier.total_voting_power(), 15);
    assert_eq!(verifier.quorum_voting_power(), 11);
    let verifier = ValidatorVerifier::new(vec![info(1, 4)]);
    assert_eq!(verifier.quorum_voting_power(), 3);
    let verifier = ValidatorVerifier::new(vec![info(1, u64::MAX)]);
    assert_eq!(verifier.total_voting_power(), u64::MAX);
    assert_eq!(verifier.quorum_voting_power(), 12297829382473034411);
}
