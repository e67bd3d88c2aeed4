use jatayud::consensus::{
    check_set_alloc_bounds, check_set_max, init, load_configurable_consensus_protocols, merge,
    ConsensusParams, PaysetCommitType,
};
use jatayud::genesis::{Genesis, GenesisAllocation, GenesisError};
use jatayud::local_config::{default_local, load_config_from_disk, ConfigError};
use jatayud::vecmap::VecMap;

#[test]
fn init_builds_every_version() {
    let table = init();
    assert_eq!(table.len(), 27);
    for v in [
        "v7", "v8", "v9", "v10", "v11", "v12", "v13", "v14", "v15", "v16", "v17", "v18", "v19",
        "v20", "v21", "v22", "v23", "v24", "v25", "v26", "v27", "v28", "v29", "v30", "v31", "v32",
        "future",
    ] {
        assert!(table.get(&v.to_string()).is_some(), "missing {}", v);
    }
}

#[test]
fn consensus_version_values() {
    let table = init();
    let v7 = table.get(&"v7".to_string()).unwrap();
    assert_eq!(v7.upgrade_vote_rounds, 10000);
    assert_eq!(v7.min_balance, 10000);
    assert_eq!(v7.rewards_rate_refresh_interval, 500_000);
    assert_eq!(v7.max_tx_group_size, 1);
    assert!(!v7.initial_rewards_rate_calculation);
    let v9 = table.get(&"v9".to_string()).unwrap();
    assert_eq!(v9.min_balance, 100000);
    let v18 = table.get(&"v18".to_string()).unwrap();
    assert_eq!(v18.max_tx_group_size, 16);
    assert_eq!(v18.logic_sig_max_size, 1000);
    let v26 = table.get(&"v26".to_string()).unwrap();
    assert!(v26.initial_rewards_rate_calculation);
    assert_eq!(v26.payset_commit, PaysetCommitType::PaysetCommitMerkle);
    let future = table.get(&"future".to_string()).unwrap();
    assert_eq!(future.logic_sig_version, 7);
    assert_eq!(future.compact_cert_weight_threshold, 1288490188);
    // the upgrade chain: v7 approves v8 with no delay
    assert_eq!(v7.approved_upgrades.get(&"v8".to_string()), Some(&0));
    let v23 = table.get(&"v23".to_string()).unwrap();
    assert_eq!(v23.approved_upgrades.get(&"v24".to_string()), Some(&1400000));
}

#[test]
fn check_set_max_raises() {
    let mut c = 5u64;
    check_set_max(3, &mut c);
    assert_eq!(c, 5);
    check_set_max(9, &mut c);
    assert_eq!(c, 9);
}

#[test]
fn alloc_bounds_of_builtin_table() {
    let table = init();
    let bounds = check_set_alloc_bounds(&table);
    assert_eq!(bounds.max_vote_threshold, 7750);
    assert_eq!(bounds.max_app_program_len, 2048);
    assert_eq!(bounds.max_extra_app_program_len, 3);
    assert_eq!(bounds.max_available_app_program_len, 8192);
    assert_eq!(bounds.max_txn_note_bytes, 1024);
    assert_eq!(bounds.max_tx_group_size, 16);
    assert_eq!(bounds.max_logic_sig_max_size, 1000);
    assert_eq!(bounds.max_bytes_key_value_len, 128);
    assert_eq!(bounds.max_inner_transactions_per_delta, 256);
    assert_eq!(bounds.max_proposed_expired_online_accounts, 32);
    assert_eq!(bounds.max_eval_delta_keys, 2048);
    assert_eq!(bounds.max_log_calls, 2048);
}

#[test]
fn merge_inserts_and_removes() {
    let base = init();
    // an override with upgrades replaces; one with none deletes and strips
    let mut overrides = VecMap::new();
    let mut custom = ConsensusParams::default();
    custom.min_balance = 77;
    custom
        .approved_upgrades
        .insert("v9".to_string(), 5);
    overrides.insert("v7".to_string(), custom);
    let empty_upgrades = ConsensusParams::default();
    overrides.insert("v8".to_string(), empty_upgrades);
    let merged = merge(&base, overrides);
    // v7 was replaced, then v8 stripped from every upgrade table
    let v7 = merged.get(&"v7".to_string()).unwrap();
    assert_eq!(v7.min_balance, 77);
    assert!(v7.approved_upgrades.get(&"v9".to_string()).is_some());
    // v8 was deleted outright
    assert!(merged.get(&"v8".to_string()).is_none());
    // untouched versions survive with their upgrades intact
    let v9 = merged.get(&"v9".to_string()).unwrap();
    assert_eq!(v9.min_balance, 100000);
    assert_eq!(v9.approved_upgrades.get(&"v10".to_string()), Some(&0));
}

#[test]
fn merge_strips_deleted_version_from_upgrades() {
    let base = init();
    let mut overrides = VecMap::new();
    overrides.insert("v8".to_string(), ConsensusParams::default());
    let merged = merge(&base, overrides);
    let v7 = merged.get(&"v7".to_string()).unwrap();
    // v7 approved v8; the deletion stripped it
    assert!(v7.approved_upgrades.get(&"v8".to_string()).is_none());
}

#[test]
fn load_configurable_without_file_keeps_table() {
    let base = init();
    let merged = load_configurable_consensus_protocols(&base, None);
    assert_eq!(merged.len(), 27);
    assert_eq!(
        merged.get(&"v9".to_string()).unwrap().min_balance,
        100000
    );
}

#[test]
fn default_local_values() {
    let local = default_local();
    assert_eq!(local.version, 22);
    assert_eq!(local.gossip_fanout, 4);
    assert_eq!(local.broadcast_connections_limit, -1);
    assert_eq!(local.tx_pool_size, 15000);
    assert_eq!(local.endpoint_address, "127.0.0.1:0");
    assert_eq!(local.dns_bootstrap_id, "<network>.algorand.network");
    assert_eq!(local.reconnect_time, 60000000000);
    assert_eq!(local.cadaver_size_target, 1073741824);
    assert!(local.announce_participation_key);
    assert!(!local.archival);
}

#[test]
fn load_config_from_disk_cases() {
    // no config file: the defaults
    let local = load_config_from_disk(None).unwrap();
    assert_eq!(local.version, 22);
    // a JSON config file: accepted
    let local = load_config_from_disk(Some("{\"GossipFanout\": 4}")).unwrap();
    assert_eq!(local.version, 22);
    // a file that is not JSON: rejected
    assert_eq!(
        load_config_from_disk(Some("not json")).unwrap_err(),
        ConfigError::InvalidConfigFile
    );
}

fn encoded_address(addr_bytes: &[u8; 32]) -> String {
    let digest = jatayud::crypto::hash(addr_bytes);
    let mut with_checksum = addr_bytes.to_vec();
    with_checksum.extend_from_slice(&digest.0[28..]);
    base32::encode(base32::Alphabet::Rfc4648 { padding: true }, &with_checksum)
}

#[test]
fn genesis_id_concatenates() {
    let mut genesis = Genesis::default();
    genesis.network = "mainnet".to_string();
    genesis.schema_id = "v1.0".to_string();
    assert_eq!(genesis.id(), "mainnet-v1.0");
}

#[test]
fn genesis_balances_parses_allocations() {
    let mut genesis = Genesis::default();
    genesis.timestamp = 123;
    genesis.fee_sink = encoded_address(&[1u8; 32]);
    genesis.rewards_pool = encoded_address(&[2u8; 32]);
    let mut alloc = GenesisAllocation::default();
    alloc.address = encoded_address(&[3u8; 32]);
    alloc.state.microalgos = jatayud::basics::MicroAlgos(5_000_000);
    genesis.allocation = vec![alloc];
    let balances = genesis.balances().unwrap();
    assert_eq!(balances.timestamp, 123);
    assert_eq!(balances.fee_sink.to_bytes(), [1u8; 32]);
    assert_eq!(balances.rewards_pool.to_bytes(), [2u8; 32]);
    assert_eq!(balances.balances.len(), 1);
}

#[test]
fn genesis_balances_rejects_duplicates() {
    let mut genesis = Genesis::default();
    genesis.fee_sink = encoded_address(&[1u8; 32]);
    genesis.rewards_pool = encoded_address(&[2u8; 32]);
    let mut alloc1 = GenesisAllocation::default();
    alloc1.address = encoded_address(&[3u8; 32]);
    let mut alloc2 = GenesisAllocation::default();
    alloc2.address = encoded_address(&[3u8; 32]);
    genesis.allocation = vec![alloc1, alloc2];
    assert_eq!(genesis.balances().unwrap_err(), GenesisError::RepeatedAllocation);
}

#[test]
fn genesis_balances_rejects_bad_address() {
    let mut genesis = Genesis::default();
    let mut alloc = GenesisAllocation::default();
    alloc.address = "***".to_string();
    genesis.allocation = vec![alloc];
    assert_eq!(
        genesis.balances().unwrap_err(),
        GenesisError::BadAllocationAddress
    );
}

#[test]
fn genesis_balances_rejects_bad_sink() {
    let mut genesis = Genesis::default();
    genesis.fee_sink = "***".to_string();
    assert_eq!(genesis.balances().unwrap_err(), GenesisError::BadFeeSink);
}

#[test]
fn make_genesis_block_v7() {
    let table = init();
    let mut genesis = Genesis::default();
    genesis.fee_sink = encoded_address(&[1u8; 32]);
    genesis.rewards_pool = encoded_address(&[2u8; 32]);
    let mut alloc = GenesisAllocation::default();
    alloc.address = encoded_address(&[2u8; 32]);
    alloc.state.microalgos = jatayud::basics::MicroAlgos(1_000_000_000);
    genesis.allocation = vec![alloc];
    let balances = genesis.balances().unwrap();
    let hash = jatayud::crypto::hash(b"genesis");
    let block = jatayud::genesis::make_genesis_block(
        &"v7".to_string(),
        balances,
        "test-v1.0".to_string(),
        hash,
        &table,
    )
    .unwrap();
    // v7 predates the genesis hash and computes rewards without the
    // minimum-balance correction: 1_000_000_000 / 500_000
    assert_eq!(block.header.rewards_state.rewards_rate, 2000);
    assert_eq!(block.header.rewards_state.rewards_recalculation_round, 500_000);
    assert_eq!(block.header.genesis_hash.0, [0u8; 32]);
    assert_eq!(block.header.rewards_state.fee_sink.to_bytes(), [1u8; 32]);
}

#[test]
fn make_genesis_block_v26_supports_hash() {
    let table = init();
    let mut genesis = Genesis::default();
    genesis.fee_sink = encoded_address(&[1u8; 32]);
    genesis.rewards_pool = encoded_address(&[2u8; 32]);
    let mut alloc = GenesisAllocation::default();
    alloc.address = encoded_address(&[2u8; 32]);
    alloc.state.microalgos = jatayud::basics::MicroAlgos(1_000_000_000);
    genesis.allocation = vec![alloc];
    let balances = genesis.balances().unwrap();
    let hash = jatayud::crypto::hash(b"genesis");
    let block = jatayud::genesis::make_genesis_block(
        &"v26".to_string(),
        balances,
        "test-v1.0".to_string(),
        hash,
        &table,
    )
    .unwrap();
    // v26 carries the genesis hash and corrects for the minimum balance:
    // (1_000_000_000 - 100_000) / 500_000
    assert_eq!(block.header.genesis_hash.0, hash.0);
    assert_eq!(block.header.rewards_state.rewards_rate, 1999);
}

#[test]
fn make_genesis_block_unknown_protocol() {
    let table = init();
    let mut genesis = Genesis::default();
    genesis.fee_sink = encoded_address(&[1u8; 32]);
    genesis.rewards_pool = encoded_address(&[2u8; 32]);
    let mut alloc = GenesisAllocation::default();
    alloc.address = encoded_address(&[2u8; 32]);
    alloc.state.microalgos = jatayud::basics::MicroAlgos(1_000_000_000);
    genesis.allocation = vec![alloc];
    let balances = genesis.balances().unwrap();
    let hash = jatayud::crypto::hash(b"genesis");
    assert_eq!(
        jatayud::genesis::make_genesis_block(
            &"v99".to_string(),
            balances,
            "test".to_string(),
            hash,
            &table
        )
        .unwrap_err(),
        GenesisError::UnsupportedProtocol
    );
}

#[test]
fn top_account_listener_new() {
    let listener = jatayud::node::TopAccountListener::new();
    assert_eq!(listener.round, 0);
    assert_eq!(listener.accounts.len(), 0);
}
