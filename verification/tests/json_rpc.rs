use diem_core::generate_format::output_file;
use diem_core::json_rpc::params_count_error;
use diem_core::trusted_peers::{NetworkPeerInfo, NetworkPeersConfig, PeerId, PeerMap};
use diem_core::vm_status::{transaction_executed, VMStatusView};

#[test]
fn test_params_count_accepts_the_range() {
    assert_eq!(params_count_error(2, 2, 0), None);
    assert_eq!(params_count_error(1, 1, 2), None);
    assert_eq!(params_count_error(3, 1, 2), None);
}

#[test]
fn test_params_count_messages() {
    assert_eq!(
        params_count_error(3, 2, 0),
        Some("wrong number of arguments (given 3, expected 2)".to_string())
    );
    assert_eq!(
        params_count_error(0, 1, 2),
        Some("wrong number of arguments (given 0, expected 1..3)".to_string())
    );
    assert_eq!(
        params_count_error(4, 1, 2),
        Some("wrong number of arguments (given 4, expected 1..3)".to_string())
    );
}

#[test]
fn test_transaction_executed() {
    assert!(transaction_executed(&VMStatusView::Executed));
    assert!(!transaction_executed(&VMStatusView::OutOfGas));
    assert!(!transaction_executed(&VMStatusView::MoveAbort {
        location: "Script".to_string(),
        abort_code: 1,
        explanation: None
    }));
}

#[test]
fn test_network_peers_debug_text() {
    let mut peers = PeerMap::new();
    peers.insert(PeerId(1), NetworkPeerInfo { network_signing_pubkey: 1u8, network_identity_pubkey: 2u8 });
    peers.insert(PeerId(2), NetworkPeerInfo { network_signing_pubkey: 3u8, network_identity_pubkey: 4u8 });
    let config = NetworkPeersConfig { peers };
    assert_eq!(config.debug_text(), "<2 keys>");
}

#[test]
fn test_output_file() {
    assert_eq!(output_file(), Some("tests/staged/libra.yaml"));
}
