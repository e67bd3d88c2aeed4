//! The node's local (per-instance) configuration and its defaults.  Time
//! intervals are carried in nanoseconds.

use vstd::prelude::*;

verus! {

use crate::vecmap::VecMap;
use vstd::string::StringExecFns;

/// Per-node settings, merged from defaults and an optional config file.
#[derive(Debug)]
pub struct Local {
    pub version: u32,
    pub archival: bool,
    pub gossip_fanout: i32,
    pub net_address: String,
    pub reconnect_time: u64,
    pub public_address: String,
    pub max_connections_per_ip: i32,
    pub peer_ping_period_seconds: i32,
    pub tls_cert_file: String,
    pub tls_key_file: String,
    pub base_logger_debug_level: u32,
    pub cadaver_size_target: u32,
    pub incoming_connections_limit: i32,
    pub broadcast_connections_limit: i32,
    pub announce_participation_key: bool,
    pub priority_peers: VecMap<String, bool>,
    pub reserved_f_ds: u32,
    pub endpoint_address: String,
    pub rest_read_timeout_seconds: i32,
    pub rest_write_timeout_seconds: i32,
    pub dns_bootstrap_id: String,
    pub log_size_limit: u32,
    pub log_archive_name: String,
    pub log_archive_max_age: String,
    pub catchup_failure_peer_refresh_rate: i32,
    pub node_exporter_listen_address: String,
    pub enable_metric_reporting: bool,
    pub enable_top_accounts_reporting: bool,
    pub enable_agreement_reporting: bool,
    pub enable_agreement_time_metrics: bool,
    pub node_exporter_path: String,
    pub fallback_dns_resolver_address: String,
    pub tx_pool_exponential_increase_factor: u32,
    pub suggested_fee_block_history: i32,
    pub tx_pool_size: i32,
    pub tx_sync_timeout_seconds: i64,
    pub tx_sync_interval_seconds: i64,
    pub incoming_message_filter_bucket_count: i32,
    pub incoming_message_filter_bucket_size: i32,
    pub outgoing_message_filter_bucket_count: i32,
    pub outgoing_message_filter_bucket_size: i32,
    pub enable_outgoing_network_message_filtering: bool,
    pub enable_incoming_message_filter: bool,
    pub deadlock_detection: i32,
    pub deadlock_detection_threshold: i32,
    pub run_hosted: bool,
    pub catchup_parallel_blocks: u32,
    pub enable_assemble_stats: bool,
    pub enable_process_block_stats: bool,
    pub suggested_fee_sliding_window_size: u32,
    pub tx_sync_serve_response_size: i32,
    pub is_indexer_active: bool,
    pub use_x_forwarded_for_address_field: String,
    pub force_relay_messages: bool,
    pub connections_rate_limiting_window_seconds: u32,
    pub connections_rate_limiting_count: u32,
    pub enable_request_logger: bool,
    pub peer_connections_update_interval: i32,
    pub enable_profiler: bool,
    pub enable_runtime_metrics: bool,
    pub telemetry_to_log: bool,
    pub dns_security_flags: u32,
    pub enable_ping_handler: bool,
    pub disable_outgoing_connection_throttling: bool,
    pub network_protocol_version: String,
    pub catchpoint_interval: u32,
    pub catchpoint_file_history_length: i32,
    pub enable_ledger_service: bool,
    pub enable_block_service: bool,
    pub enable_gossip_block_service: bool,
    pub catchup_http_block_fetch_timeout_sec: i32,
    pub catchup_gossip_block_fetch_timeout_sec: i32,
    pub catchup_ledger_download_retry_attempts: i32,
    pub catchup_block_download_retry_attempts: i32,
    pub enable_developer_api: bool,
    pub optimize_accounts_database_on_startup: bool,
    pub catchpoint_tracking: i64,
    pub ledger_synchronous_mode: i32,
    pub accounts_rebuild_synchronous_mode: i32,
    pub max_catchpoint_download_duration: u64,
    pub min_catchpoint_file_download_bytes_per_second: u32,
    pub network_message_trace_server: String,
    pub verified_transcations_cache_size: i32,
    pub enable_catchup_from_archive_servers: bool,
    pub disable_localhost_connection_rate_limit: bool,
    pub block_service_custom_fallback_endpoints: String,
    pub enable_block_service_fallback_to_archiver: bool,
    pub catchup_block_validate_mode: i32,
    pub enable_account_updates_stats: bool,
    pub account_updates_stats_interval: u64,
    pub participation_keys_refresh_interval: u64,
    pub disable_networking: bool,
    pub force_fetch_transactions: bool,
    pub enable_verbosed_transaction_sync_logging: bool,
    pub transaction_sync_data_exchange_rate: u32,
    pub transaction_sync_significant_message_threshold: u32,
    pub proposal_assembly_time: u64,
    pub rest_connections_soft_limit: u32,
    pub rest_connections_hard_limit: u32,
    pub max_api_resources_per_account: u32,
    pub agreement_incoming_votes_queue_length: u32,
    pub agreement_incoming_proposals_queue_length: u32,
    pub agreement_incoming_bundles_queue_length: u32,
}

/// Every field holds the built-in default.
pub open spec fn is_default_local(l: Local) -> bool {
    &&& l.version == 22
    &&& l.archival == false
    &&& l.gossip_fanout == 4
    &&& l.net_address@ == ""@
    &&& l.reconnect_time == 60000000000
    &&& l.public_address@ == ""@
    &&& l.max_connections_per_ip == 30
    &&& l.peer_ping_period_seconds == 0
    &&& l.tls_cert_file@ == ""@
    &&& l.tls_key_file@ == ""@
    &&& l.base_logger_debug_level == 4
    &&& l.cadaver_size_target == 1073741824
    &&& l.incoming_connections_limit == 800
    &&& l.broadcast_connections_limit == -1
    &&& l.announce_participation_key == true
    &&& l.priority_peers.as_map() == Map::<Seq<char>, bool>::empty()
    &&& l.reserved_f_ds == 256
    &&& l.endpoint_address@ == "127.0.0.1:0"@
    &&& l.rest_read_timeout_seconds == 15
    &&& l.rest_write_timeout_seconds == 120
    &&& l.dns_bootstrap_id@ == "<network>.algorand.network"@
    &&& l.log_size_limit == 1073741824
    &&& l.log_archive_name@ == "node.archive.log"@
    &&& l.log_archive_max_age@ == ""@
    &&& l.catchup_failure_peer_refresh_rate == 10
    &&& l.node_exporter_listen_address@ == ":9100"@
    &&& l.enable_metric_reporting == false
    &&& l.enable_top_accounts_reporting == false
    &&& l.enable_agreement_reporting == false
    &&& l.enable_agreement_time_metrics == false
    &&& l.node_exporter_path@ == "./node_exporter"@
    &&& l.fallback_dns_resolver_address@ == ""@
    &&& l.tx_pool_exponential_increase_factor == 2
    &&& l.suggested_fee_block_history == 3
    &&& l.tx_pool_size == 15000
    &&& l.tx_sync_timeout_seconds == 30
    &&& l.tx_sync_interval_seconds == 60
    &&& l.incoming_message_filter_bucket_count == 5
    &&& l.incoming_message_filter_bucket_size == 512
    &&& l.outgoing_message_filter_bucket_count == 3
    &&& l.outgoing_message_filter_bucket_size == 128
    &&& l.enable_outgoing_network_message_filtering == true
    &&& l.enable_incoming_message_filter == false
    &&& l.deadlock_detection == 0
    &&& l.deadlock_detection_threshold == 30
    &&& l.run_hosted == false
    &&& l.catchup_parallel_blocks == 16
    &&& l.enable_assemble_stats == false
    &&& l.enable_process_block_stats == false
    &&& l.suggested_fee_sliding_window_size == 50
    &&& l.tx_sync_serve_response_size == 1000000
    &&& l.is_indexer_active == false
    &&& l.use_x_forwarded_for_address_field@ == ""@
    &&& l.force_relay_messages == false
    &&& l.connections_rate_limiting_window_seconds == 1
    &&& l.connections_rate_limiting_count == 60
    &&& l.enable_request_logger == false
    &&& l.peer_connections_update_interval == 3600
    &&& l.enable_profiler == false
    &&& l.enable_runtime_metrics == false
    &&& l.telemetry_to_log == true
    &&& l.dns_security_flags == 1
    &&& l.enable_ping_handler == true
    &&& l.disable_outgoing_connection_throttling == false
    &&& l.network_protocol_version@ == ""@
    &&& l.catchpoint_interval == 10000
    &&& l.catchpoint_file_history_length == 365
    &&& l.enable_ledger_service == false
    &&& l.enable_block_service == false
    &&& l.enable_gossip_block_service == true
    &&& l.catchup_http_block_fetch_timeout_sec == 4
    &&& l.catchup_gossip_block_fetch_timeout_sec == 4
    &&& l.catchup_ledger_download_retry_attempts == 50
    &&& l.catchup_block_download_retry_attempts == 1000
    &&& l.enable_developer_api == false
    &&& l.optimize_accounts_database_on_startup == false
    &&& l.catchpoint_tracking == 0
    &&& l.ledger_synchronous_mode == 2
    &&& l.accounts_rebuild_synchronous_mode == 1
    &&& l.max_catchpoint_download_duration == 7200000000000
    &&& l.min_catchpoint_file_download_bytes_per_second == 20480
    &&& l.network_message_trace_server@ == ""@
    &&& l.verified_transcations_cache_size == 30000
    &&& l.enable_catchup_from_archive_servers == false
    &&& l.disable_localhost_connection_rate_limit == true
    &&& l.block_service_custom_fallback_endpoints@ == ""@
    &&& l.enable_block_service_fallback_to_archiver == true
    &&& l.catchup_block_validate_mode == 0
    &&& l.enable_account_updates_stats == false
    &&& l.account_updates_stats_interval == 5000000000
    &&& l.participation_keys_refresh_interval == 60000000000
    &&& l.disable_networking == false
    &&& l.force_fetch_transactions == false
    &&& l.enable_verbosed_transaction_sync_logging == false
    &&& l.transaction_sync_data_exchange_rate == 0
    &&& l.transaction_sync_significant_message_threshold == 0
    &&& l.proposal_assembly_time == 250000000
    &&& l.rest_connections_soft_limit == 1024
    &&& l.rest_connections_hard_limit == 2048
    &&& l.max_api_resources_per_account == 100000
    &&& l.agreement_incoming_votes_queue_length == 10000
    &&& l.agreement_incoming_proposals_queue_length == 25
    &&& l.agreement_incoming_bundles_queue_length == 7
}

/// The built-in defaults for every local setting.
pub fn default_local() -> (r: Local)
    ensures
        is_default_local(r),
        r.priority_peers.wf(),
{
    let priority_peers: VecMap<String, bool> = VecMap::new();
    Local {
        version: 22,
        archival: false,
        gossip_fanout: 4,
        net_address: String::from_str(""),
        reconnect_time: 60000000000,
        public_address: String::from_str(""),
        max_connections_per_ip: 30,
        peer_ping_period_seconds: 0,
        tls_cert_file: String::from_str(""),
        tls_key_file: String::from_str(""),
        base_logger_debug_level: 4,
        cadaver_size_target: 1073741824,
        incoming_connections_limit: 800,
        broadcast_connections_limit: -1,
        announce_participation_key: true,
        priority_peers,
        reserved_f_ds: 256,
        endpoint_address: String::from_str("127.0.0.1:0"),
        rest_read_timeout_seconds: 15,
        rest_write_timeout_seconds: 120,
        dns_bootstrap_id: String::from_str("<network>.algorand.network"),
        log_size_limit: 1073741824,
        log_archive_name: String::from_str("node.archive.log"),
        log_archive_max_age: String::from_str(""),
        catchup_failure_peer_refresh_rate: 10,
        node_exporter_listen_address: String::from_str(":9100"),
        enable_metric_reporting: false,
        enable_top_accounts_reporting: false,
        enable_agreement_reporting: false,
        enable_agreement_time_metrics: false,
        node_exporter_path: String::from_str("./node_exporter"),
        fallback_dns_resolver_address: String::from_str(""),
        tx_pool_exponential_increase_factor: 2,
        suggested_fee_block_history: 3,
        tx_pool_size: 15000,
        tx_sync_timeout_seconds: 30,
        tx_sync_interval_seconds: 60,
        incoming_message_filter_bucket_count: 5,
        incoming_message_filter_bucket_size: 512,
        outgoing_message_filter_bucket_count: 3,
        outgoing_message_filter_bucket_size: 128,
        enable_outgoing_network_message_filtering: true,
        enable_incoming_message_filter: false,
        deadlock_detection: 0,
        deadlock_detection_threshold: 30,
        run_hosted: false,
        catchup_parallel_blocks: 16,
        enable_assemble_stats: false,
        enable_process_block_stats: false,
        suggested_fee_sliding_window_size: 50,
        tx_sync_serve_response_size: 1000000,
        is_indexer_active: false,
        use_x_forwarded_for_address_field: String::from_str(""),
        force_relay_messages: false,
        connections_rate_limiting_window_seconds: 1,
        connections_rate_limiting_count: 60,
        enable_request_logger: false,
        peer_connections_update_interval: 3600,
        enable_profiler: false,
        enable_runtime_metrics: false,
        telemetry_to_log: true,
        dns_security_flags: 1,
        enable_ping_handler: true,
        disable_outgoing_connection_throttling: false,
        network_protocol_version: String::from_str(""),
        catchpoint_interval: 10000,
        catchpoint_file_history_length: 365,
        enable_ledger_service: false,
        enable_block_service: false,
        enable_gossip_block_service: true,
        catchup_http_block_fetch_timeout_sec: 4,
        catchup_gossip_block_fetch_timeout_sec: 4,
        catchup_ledger_download_retry_attempts: 50,
        catchup_block_download_retry_attempts: 1000,
        enable_developer_api: false,
        optimize_accounts_database_on_startup: false,
        catchpoint_tracking: 0,
        ledger_synchronous_mode: 2,
        accounts_rebuild_synchronous_mode: 1,
        max_catchpoint_download_duration: 7200000000000,
        min_catchpoint_file_download_bytes_per_second: 20480,
        network_message_trace_server: String::from_str(""),
        verified_transcations_cache_size: 30000,
        enable_catchup_from_archive_servers: false,
        disable_localhost_connection_rate_limit: true,
        block_service_custom_fallback_endpoints: String::from_str(""),
        enable_block_service_fallback_to_archiver: true,
        catchup_block_validate_mode: 0,
        enable_account_updates_stats: false,
        account_updates_stats_interval: 5000000000,
        participation_keys_refresh_interval: 60000000000,
        disable_networking: false,
        force_fetch_transactions: false,
        enable_verbosed_transaction_sync_logging: false,
        transaction_sync_data_exchange_rate: 0,
        transaction_sync_significant_message_threshold: 0,
        proposal_assembly_time: 250000000,
        rest_connections_soft_limit: 1024,
        rest_connections_hard_limit: 2048,
        max_api_resources_per_account: 100000,
        agreement_incoming_votes_queue_length: 10000,
        agreement_incoming_proposals_queue_length: 25,
        agreement_incoming_bundles_queue_length: 7,
    }
}

/// Why loading the configuration failed.
#[derive(Debug, Clone, Copy, PartialEq, Eq, Structural)]
pub enum ConfigError {
    /// The config file exists but is not valid JSON.
    InvalidConfigFile,
}

/// Whether serde_json parses this text as a JSON document.
pub uninterp spec fn json_valid(s: Seq<char>) -> bool;

/// Relies on serde_json::from_str::<serde_json::Value>: whether the text
/// parses is a function of the text alone.
#[verifier::external_body]
fn json_parses(s: &str) -> (r: bool)
    ensures
        r == json_valid(s@),
{
    serde_json::from_str::<serde_json::Value>(s).is_ok()
}

/// Validates a config file's text against the given settings: the settings
/// pass through unchanged, but a file that is not JSON is an error.
pub fn load_config(content: &str, c: Local) -> (r: Result<Local, ConfigError>)
    ensures
        json_valid(content@) ==> r == Result::<Local, ConfigError>::Ok(c),
        !json_valid(content@) ==> r == Result::<Local, ConfigError>::Err(
            ConfigError::InvalidConfigFile,
        ),
{
    if json_parses(content) {
        Ok(c)
    } else {
        Err(ConfigError::InvalidConfigFile)
    }
}

/// Migrates settings written by an older release; currently the identity.
pub fn migrate(c: Local) -> (r: Result<Local, ConfigError>)
    ensures
        r == Result::<Local, ConfigError>::Ok(c),
{
    Ok(c)
}

/// Builds the node's settings from the config file found in the data
/// directory: the defaults, checked against the file's text when the file
/// exists.  A file that is not JSON is rejected; a missing file leaves the
/// defaults.
pub fn load_config_from_disk(config_file: Option<&str>) -> (r: Result<Local, ConfigError>)
    ensures
        match config_file {
            Some(text) => {
                &&& json_valid(text@) ==> (r matches Ok(l) && is_default_local(l))
                &&& !json_valid(text@) ==> r == Result::<Local, ConfigError>::Err(
                    ConfigError::InvalidConfigFile,
                )
            },
            None => r matches Ok(l) && is_default_local(l),
        },
{
    let c = default_local();
    let c = match config_file {
        Some(text) => match load_config(text, c) {
            Ok(l) => l,
            Err(e) => {
                return Err(e);
            },
        },
        None => c,
    };
    migrate(c)
}

} // verus!