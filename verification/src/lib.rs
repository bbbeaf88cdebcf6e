//! Verified building blocks of Diem Core: the Shuffle CLI's project layout and
//! network configuration, the storage service request handler, the data client's
//! error types, VM status views, validator-set assembly, component lifecycles and
//! test plans.

pub mod text;
pub mod keyed;
pub mod paths;
pub mod shuffle;
pub mod storage_service;
pub mod data_client;
pub mod vm_status;
pub mod trusted_peers;
pub mod reconfiguration;
pub mod health_checker;
pub mod swarm_config;
pub mod state_store;
pub mod json_rpc;
pub mod generate_format;
