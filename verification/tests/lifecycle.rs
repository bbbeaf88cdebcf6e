use diem_core::health_checker::HealthCheckerBuilder;
use diem_core::state_store::{state_counter_bumps, RetiredRecordType, StateCounterBumps};
use diem_core::swarm_config::{swarm_layout, SwarmConfig};
use diem_core::text::to_decimal_string;

#[test]
fn test_health_checker_builder_lifecycle() {
    let mut builder: HealthCheckerBuilder<_, String> =
        HealthCheckerBuilder::create("ctx", "time", 1000, 500, 3, "tx", "rx");
    let config = builder.take_config_for_build();
    assert_eq!(config.ping_interval_ms, 1000);
    assert_eq!(config.ping_timeout_ms, 500);
    assert_eq!(config.ping_failures_tolerated, 3);
    assert_eq!(config.network_context, "ctx");
    builder.install_service(format!("checker every {}ms", config.ping_interval_ms));
    let service = builder.take_service_for_start();
    assert_eq!(service, Some("checker every 1000ms".to_string()));
}

#[test]
fn test_swarm_layout() {
    let layout = swarm_layout("/tmp/swarm", 3);
    assert_eq!(layout.node_dirs, vec!["/tmp/swarm/0", "/tmp/swarm/1", "/tmp/swarm/2"]);
    assert_eq!(
        layout.config_files,
        vec![
            "/tmp/swarm/0/node.yaml",
            "/tmp/swarm/1/node.yaml",
            "/tmp/swarm/2/node.yaml"
        ]
    );
    assert_eq!(layout.faucet_key_path, "/tmp/swarm/mint.key");
    let config = SwarmConfig::from_layout(layout, 17u8);
    assert_eq!(config.config_files.len(), 3);
    assert_eq!(config.waypoint, 17);
    assert!(swarm_layout("/x", 0).node_dirs.is_empty());
}

#[test]
fn test_state_counter_bumps() {
    assert_eq!(
        state_counter_bumps(4, 2, &vec![RetiredRecordType::Node, RetiredRecordType::Blob, RetiredRecordType::Node, RetiredRecordType::Node]),
        StateCounterBumps {
            state_nodes_created: 4,
            state_blobs_created: 2,
            state_nodes_retired: 3,
            state_blobs_retired: 1,
        }
    );
    assert_eq!(
        state_counter_bumps(0, 0, &vec![]),
        StateCounterBumps {
            state_nodes_created: 0,
            state_blobs_created: 0,
            state_nodes_retired: 0,
            state_blobs_retired: 0,
        }
    );
}

#[test]
fn test_decimal_text() {
    assert_eq!(to_decimal_string(0), "0");
    assert_eq!(to_decimal_string(8081), "8081");
    assert_eq!(to_decimal_string(u64::MAX), "18446744073709551615");
}
