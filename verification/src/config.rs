//! Process configuration: endpoint URLs, commitment level, program
//! addresses of interest, and service thresholds.  Loading the values
//! from the environment happens outside the library; the library only
//! carries them.

use vstd::prelude::*;

verus! {

/// RPC endpoints and the commitment level requested for chain reads.
#[derive(Clone, Debug)]
pub struct NetworkConfig {
    pub rpc_http_url: String,
    pub rpc_wss_url: String,
    pub commitment: String,
}

/// Ingestion thresholds; not read by the discovery core itself.
#[derive(Clone, Copy, Debug, PartialEq, Eq, Structural)]
pub struct IngestionConfig {
    pub min_tx_count_for_active_pair: u32,
}

/// Program addresses of interest, as base58 strings.
#[derive(Clone, Debug)]
pub struct ProgramsConfig {
    pub pump_fun: String,
    pub token_program: String,
}

/// Where discovery events are published.
#[derive(Clone, Debug)]
pub struct DatabaseConfig {
    pub redis_url: String,
}

/// The service's own listen address.
#[derive(Clone, Debug)]
pub struct ApiConfig {
    pub host: String,
    pub port: u16,
}

/// The full configuration surface of the process.
#[derive(Clone, Debug)]
pub struct Config {
    pub network: NetworkConfig,
    pub database: DatabaseConfig,
    pub programs: ProgramsConfig,
    pub ingestion: IngestionConfig,
    pub api: ApiConfig,
}

} // verus!
