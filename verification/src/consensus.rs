//! The versioned consensus-parameter table.
//!
//! Every supported protocol version carries one `ConsensusParams` record;
//! the exact contents of the built-in table are stated by the spec
//! functions beside the builder, one per version.

use vstd::prelude::*;

verus! {

use crate::protocol::{CONSENSUS_V7, CONSENSUS_V8, CONSENSUS_V9, CONSENSUS_V10, CONSENSUS_V11,
    CONSENSUS_V12, CONSENSUS_V13, CONSENSUS_V14, CONSENSUS_V15, CONSENSUS_V16, CONSENSUS_V17,
    CONSENSUS_V18, CONSENSUS_V19, CONSENSUS_V20, CONSENSUS_V21, CONSENSUS_V22, CONSENSUS_V23,
    CONSENSUS_V24, CONSENSUS_V25, CONSENSUS_V26, CONSENSUS_V27, CONSENSUS_V28, CONSENSUS_V29,
    CONSENSUS_V30, CONSENSUS_V31, CONSENSUS_V32, CONSENSUS_VFUTURE};
use crate::vecmap::VecMap;
use vstd::string::StringExecFns;

/// How the payset of a block is committed to in the block header.
#[derive(Debug, Clone, Copy, PartialEq, Eq, Structural)]
pub enum PaysetCommitType {
    PaysetCommitUnsupported,
    PaysetCommitFlat,
    PaysetCommitMerkle,
}

impl Default for PaysetCommitType {
    fn default() -> (r: Self)
        ensures
            r == PaysetCommitType::PaysetCommitUnsupported,
    {
        PaysetCommitType::PaysetCommitUnsupported
    }
}

/// The parameters of one consensus protocol version.  Time intervals are
/// carried in nanoseconds.
#[derive(Debug)]
pub struct ConsensusParams {
    pub upgrade_vote_rounds: u64,
    pub upgrade_threshold: u64,
    pub default_upgrade_wait_rounds: u64,
    pub min_upgrade_wait_rounds: u64,
    pub max_upgrade_wait_rounds: u64,
    pub max_version_string_len: i32,
    pub max_txn_bytes_per_block: i32,
    pub max_txn_note_bytes: i32,
    pub max_txn_life: u64,
    pub approved_upgrades: VecMap<String, u64>,
    pub support_genesis_hash: bool,
    pub require_genesis_hash: bool,
    pub default_key_dilution: u64,
    pub min_balance: u64,
    pub min_txn_fee: u64,
    pub enable_fee_pooling: bool,
    pub enable_app_cost_pooling: bool,
    pub reward_unit: u64,
    pub rewards_rate_refresh_interval: u64,
    pub seed_lookback: u64,
    pub seed_refresh_interval: u64,
    pub max_bal_lookback: u64,
    pub num_proposers: u64,
    pub soft_committee_size: u64,
    pub soft_committee_threshold: u64,
    pub cert_committee_size: u64,
    pub cert_committee_threshold: u64,
    pub next_committee_size: u64,
    pub next_committee_threshold: u64,
    pub late_committee_size: u64,
    pub late_committee_threshold: u64,
    pub redo_committee_size: u64,
    pub redo_committee_threshold: u64,
    pub down_committee_size: u64,
    pub down_committee_threshold: u64,
    pub agreement_filter_timeout: u64,
    pub agreement_filter_timeout_period0: u64,
    pub fast_recovery_lambda: u64,
    pub payset_commit: PaysetCommitType,
    pub max_timestamp_increment: i64,
    pub support_signed_txn_in_block: bool,
    pub force_non_participating_fee_sink: bool,
    pub apply_data: bool,
    pub rewards_in_apply_data: bool,
    pub credential_domain_separation_enabled: bool,
    pub support_become_non_participating_transactions: bool,
    pub pending_residue_rewards: bool,
    pub asset: bool,
    pub max_assets_per_account: i32,
    pub max_asset_name_bytes: i32,
    pub max_asset_unit_name_bytes: i32,
    pub max_asset_url_bytes: i32,
    pub txn_counter: bool,
    pub support_tx_groups: bool,
    pub max_tx_group_size: i32,
    pub support_transaction_leases: bool,
    pub fix_transaction_leases: bool,
    pub logic_sig_version: u64,
    pub logic_sig_max_size: u64,
    pub logic_sig_max_cost: u64,
    pub max_asset_decimals: u32,
    pub support_rekeying: bool,
    pub application: bool,
    pub max_app_args: i32,
    pub max_app_total_arg_len: i32,
    pub max_app_program_len: i32,
    pub max_app_total_program_len: i32,
    pub max_extra_app_program_pages: i32,
    pub max_app_txn_accounts: i32,
    pub max_app_txn_foreign_apps: i32,
    pub max_app_txn_foreign_assets: i32,
    pub max_app_total_txn_references: i32,
    pub max_app_program_cost: i32,
    pub max_app_key_len: i32,
    pub max_app_bytes_value_len: i32,
    pub max_app_sum_key_value_lens: i32,
    pub max_inner_transactions: i32,
    pub enable_inner_transaction_pooling: bool,
    pub isolate_clear_state: bool,
    pub min_inner_appl_version: u64,
    pub max_apps_created: i32,
    pub max_apps_opted_in: i32,
    pub app_flat_params_min_balance: u64,
    pub app_flat_opt_in_min_balance: u64,
    pub schema_min_balance_per_entry: u64,
    pub schema_uint_min_balance: u64,
    pub schema_bytes_min_balance: u64,
    pub max_local_schema_entries: u64,
    pub max_global_schema_entries: u64,
    pub maximum_minimum_balance: u64,
    pub compact_cert_rounds: u64,
    pub compact_cert_top_voters: u64,
    pub compact_cert_voters_lookback: u64,
    pub compact_cert_weight_threshold: u64,
    pub compact_cert_sec_kq: u64,
    pub enable_asset_close_amount: bool,
    pub initial_rewards_rate_calculation: bool,
    pub no_empty_local_deltas: bool,
    pub enable_keyreg_coherency_check: bool,
    pub enable_extra_pages_on_app_update: bool,
    pub max_proposed_expired_online_accounts: i32,
    pub enable_account_data_resource_separation: bool,
    pub enable_batch_verification: bool,
    pub rewards_calculation_fix: bool,
    pub enable_state_proof_keyreg_check: bool,
    pub max_keyreg_valid_period: u64,
    pub unify_inner_tx_i_ds: bool,
    pub enable_sha256_txn_commitment_header: bool,
}

/// The mathematical value of a `ConsensusParams` record: the same fields,
/// with the upgrade table as a map.
pub struct ParamsAbs {
    pub upgrade_vote_rounds: u64,
    pub upgrade_threshold: u64,
    pub default_upgrade_wait_rounds: u64,
    pub min_upgrade_wait_rounds: u64,
    pub max_upgrade_wait_rounds: u64,
    pub max_version_string_len: i32,
    pub max_txn_bytes_per_block: i32,
    pub max_txn_note_bytes: i32,
    pub max_txn_life: u64,
    pub approved_upgrades: Map<Seq<char>, u64>,
    pub support_genesis_hash: bool,
    pub require_genesis_hash: bool,
    pub default_key_dilution: u64,
    pub min_balance: u64,
    pub min_txn_fee: u64,
    pub enable_fee_pooling: bool,
    pub enable_app_cost_pooling: bool,
    pub reward_unit: u64,
    pub rewards_rate_refresh_interval: u64,
    pub seed_lookback: u64,
    pub seed_refresh_interval: u64,
    pub max_bal_lookback: u64,
    pub num_proposers: u64,
    pub soft_committee_size: u64,
    pub soft_committee_threshold: u64,
    pub cert_committee_size: u64,
    pub cert_committee_threshold: u64,
    pub next_committee_size: u64,
    pub next_committee_threshold: u64,
    pub late_committee_size: u64,
    pub late_committee_threshold: u64,
    pub redo_committee_size: u64,
    pub redo_committee_threshold: u64,
    pub down_committee_size: u64,
    pub down_committee_threshold: u64,
    pub agreement_filter_timeout: u64,
    pub agreement_filter_timeout_period0: u64,
    pub fast_recovery_lambda: u64,
    pub payset_commit: PaysetCommitType,
    pub max_timestamp_increment: i64,
    pub support_signed_txn_in_block: bool,
    pub force_non_participating_fee_sink: bool,
    pub apply_data: bool,
    pub rewards_in_apply_data: bool,
    pub credential_domain_separation_enabled: bool,
    pub support_become_non_participating_transactions: bool,
    pub pending_residue_rewards: bool,
    pub asset: bool,
    pub max_assets_per_account: i32,
    pub max_asset_name_bytes: i32,
    pub max_asset_unit_name_bytes: i32,
    pub max_asset_url_bytes: i32,
    pub txn_counter: bool,
    pub support_tx_groups: bool,
    pub max_tx_group_size: i32,
    pub support_transaction_leases: bool,
    pub fix_transaction_leases: bool,
    pub logic_sig_version: u64,
    pub logic_sig_max_size: u64,
    pub logic_sig_max_cost: u64,
    pub max_asset_decimals: u32,
    pub support_rekeying: bool,
    pub application: bool,
    pub max_app_args: i32,
    pub max_app_total_arg_len: i32,
    pub max_app_program_len: i32,
    pub max_app_total_program_len: i32,
    pub max_extra_app_program_pages: i32,
    pub max_app_txn_accounts: i32,
    pub max_app_txn_foreign_apps: i32,
    pub max_app_txn_foreign_assets: i32,
    pub max_app_total_txn_references: i32,
    pub max_app_program_cost: i32,
    pub max_app_key_len: i32,
    pub max_app_bytes_value_len: i32,
    pub max_app_sum_key_value_lens: i32,
    pub max_inner_transactions: i32,
    pub enable_inner_transaction_pooling: bool,
    pub isolate_clear_state: bool,
    pub min_inner_appl_version: u64,
    pub max_apps_created: i32,
    pub max_apps_opted_in: i32,
    pub app_flat_params_min_balance: u64,
    pub app_flat_opt_in_min_balance: u64,
    pub schema_min_balance_per_entry: u64,
    pub schema_uint_min_balance: u64,
    pub schema_bytes_min_balance: u64,
    pub max_local_schema_entries: u64,
    pub max_global_schema_entries: u64,
    pub maximum_minimum_balance: u64,
    pub compact_cert_rounds: u64,
    pub compact_cert_top_voters: u64,
    pub compact_cert_voters_lookback: u64,
    pub compact_cert_weight_threshold: u64,
    pub compact_cert_sec_kq: u64,
    pub enable_asset_close_amount: bool,
    pub initial_rewards_rate_calculation: bool,
    pub no_empty_local_deltas: bool,
    pub enable_keyreg_coherency_check: bool,
    pub enable_extra_pages_on_app_update: bool,
    pub max_proposed_expired_online_accounts: i32,
    pub enable_account_data_resource_separation: bool,
    pub enable_batch_verification: bool,
    pub rewards_calculation_fix: bool,
    pub enable_state_proof_keyreg_check: bool,
    pub max_keyreg_valid_period: u64,
    pub unify_inner_tx_i_ds: bool,
    pub enable_sha256_txn_commitment_header: bool,
}

impl ConsensusParams {
    /// The record's mathematical value.
    pub open spec fn abs(self) -> ParamsAbs {
        ParamsAbs {
            upgrade_vote_rounds: self.upgrade_vote_rounds,
            upgrade_threshold: self.upgrade_threshold,
            default_upgrade_wait_rounds: self.default_upgrade_wait_rounds,
            min_upgrade_wait_rounds: self.min_upgrade_wait_rounds,
            max_upgrade_wait_rounds: self.max_upgrade_wait_rounds,
            max_version_string_len: self.max_version_string_len,
            max_txn_bytes_per_block: self.max_txn_bytes_per_block,
            max_txn_note_bytes: self.max_txn_note_bytes,
            max_txn_life: self.max_txn_life,
            approved_upgrades: self.approved_upgrades.as_map(),
            support_genesis_hash: self.support_genesis_hash,
            require_genesis_hash: self.require_genesis_hash,
            default_key_dilution: self.default_key_dilution,
            min_balance: self.min_balance,
            min_txn_fee: self.min_txn_fee,
            enable_fee_pooling: self.enable_fee_pooling,
            enable_app_cost_pooling: self.enable_app_cost_pooling,
            reward_unit: self.reward_unit,
            rewards_rate_refresh_interval: self.rewards_rate_refresh_interval,
            seed_lookback: self.seed_lookback,
            seed_refresh_interval: self.seed_refresh_interval,
            max_bal_lookback: self.max_bal_lookback,
            num_proposers: self.num_proposers,
            soft_committee_size: self.soft_committee_size,
            soft_committee_threshold: self.soft_committee_threshold,
            cert_committee_size: self.cert_committee_size,
            cert_committee_threshold: self.cert_committee_threshold,
            next_committee_size: self.next_committee_size,
            next_committee_threshold: self.next_committee_threshold,
            late_committee_size: self.late_committee_size,
            late_committee_threshold: self.late_committee_threshold,
            redo_committee_size: self.redo_committee_size,
            redo_committee_threshold: self.redo_committee_threshold,
            down_committee_size: self.down_committee_size,
            down_committee_threshold: self.down_committee_threshold,
            agreement_filter_timeout: self.agreement_filter_timeout,
            agreement_filter_timeout_period0: self.agreement_filter_timeout_period0,
            fast_recovery_lambda: self.fast_recovery_lambda,
            payset_commit: self.payset_commit,
            max_timestamp_increment: self.max_timestamp_increment,
            support_signed_txn_in_block: self.support_signed_txn_in_block,
            force_non_participating_fee_sink: self.force_non_participating_fee_sink,
            apply_data: self.apply_data,
            rewards_in_apply_data: self.rewards_in_apply_data,
            credential_domain_separation_enabled: self.credential_domain_separation_enabled,
            support_become_non_participating_transactions: self.support_become_non_participating_transactions,
            pending_residue_rewards: self.pending_residue_rewards,
            asset: self.asset,
            max_assets_per_account: self.max_assets_per_account,
            max_asset_name_bytes: self.max_asset_name_bytes,
            max_asset_unit_name_bytes: self.max_asset_unit_name_bytes,
            max_asset_url_bytes: self.max_asset_url_bytes,
            txn_counter: self.txn_counter,
            support_tx_groups: self.support_tx_groups,
            max_tx_group_size: self.max_tx_group_size,
            support_transaction_leases: self.support_transaction_leases,
            fix_transaction_leases: self.fix_transaction_leases,
            logic_sig_version: self.logic_sig_version,
            logic_sig_max_size: self.logic_sig_max_size,
            logic_sig_max_cost: self.logic_sig_max_cost,
            max_asset_decimals: self.max_asset_decimals,
            support_rekeying: self.support_rekeying,
            application: self.application,
            max_app_args: self.max_app_args,
            max_app_total_arg_len: self.max_app_total_arg_len,
            max_app_program_len: self.max_app_program_len,
            max_app_total_program_len: self.max_app_total_program_len,
            max_extra_app_program_pages: self.max_extra_app_program_pages,
            max_app_txn_accounts: self.max_app_txn_accounts,
            max_app_txn_foreign_apps: self.max_app_txn_foreign_apps,
            max_app_txn_foreign_assets: self.max_app_txn_foreign_assets,
            max_app_total_txn_references: self.max_app_total_txn_references,
            max_app_program_cost: self.max_app_program_cost,
            max_app_key_len: self.max_app_key_len,
            max_app_bytes_value_len: self.max_app_bytes_value_len,
            max_app_sum_key_value_lens: self.max_app_sum_key_value_lens,
            max_inner_transactions: self.max_inner_transactions,
            enable_inner_transaction_pooling: self.enable_inner_transaction_pooling,
            isolate_clear_state: self.isolate_clear_state,
            min_inner_appl_version: self.min_inner_appl_version,
            max_apps_created: self.max_apps_created,
            max_apps_opted_in: self.max_apps_opted_in,
            app_flat_params_min_balance: self.app_flat_params_min_balance,
            app_flat_opt_in_min_balance: self.app_flat_opt_in_min_balance,
            schema_min_balance_per_entry: self.schema_min_balance_per_entry,
            schema_uint_min_balance: self.schema_uint_min_balance,
            schema_bytes_min_balance: self.schema_bytes_min_balance,
            max_local_schema_entries: self.max_local_schema_entries,
            max_global_schema_entries: self.max_global_schema_entries,
            maximum_minimum_balance: self.maximum_minimum_balance,
            compact_cert_rounds: self.compact_cert_rounds,
            compact_cert_top_voters: self.compact_cert_top_voters,
            compact_cert_voters_lookback: self.compact_cert_voters_lookback,
            compact_cert_weight_threshold: self.compact_cert_weight_threshold,
            compact_cert_sec_kq: self.compact_cert_sec_kq,
            enable_asset_close_amount: self.enable_asset_close_amount,
            initial_rewards_rate_calculation: self.initial_rewards_rate_calculation,
            no_empty_local_deltas: self.no_empty_local_deltas,
            enable_keyreg_coherency_check: self.enable_keyreg_coherency_check,
            enable_extra_pages_on_app_update: self.enable_extra_pages_on_app_update,
            max_proposed_expired_online_accounts: self.max_proposed_expired_online_accounts,
            enable_account_data_resource_separation: self.enable_account_data_resource_separation,
            enable_batch_verification: self.enable_batch_verification,
            rewards_calculation_fix: self.rewards_calculation_fix,
            enable_state_proof_keyreg_check: self.enable_state_proof_keyreg_check,
            max_keyreg_valid_period: self.max_keyreg_valid_period,
            unify_inner_tx_i_ds: self.unify_inner_tx_i_ds,
            enable_sha256_txn_commitment_header: self.enable_sha256_txn_commitment_header,
        }
    }

    /// The upgrade table holds pairwise-distinct keys.
    pub open spec fn wf(self) -> bool {
        self.approved_upgrades.wf()
    }
}

impl Default for ConsensusParams {
    fn default() -> (r: Self)
        ensures
            r.abs() =~~= params_default_abs(),
            r.wf(),
    {
        ConsensusParams {
            upgrade_vote_rounds: 0,
            upgrade_threshold: 0,
            default_upgrade_wait_rounds: 0,
            min_upgrade_wait_rounds: 0,
            max_upgrade_wait_rounds: 0,
            max_version_string_len: 0,
            max_txn_bytes_per_block: 0,
            max_txn_note_bytes: 0,
            max_txn_life: 0,
            approved_upgrades: VecMap::new(),
            support_genesis_hash: false,
            require_genesis_hash: false,
            default_key_dilution: 0,
            min_balance: 0,
            min_txn_fee: 0,
            enable_fee_pooling: false,
            enable_app_cost_pooling: false,
            reward_unit: 0,
            rewards_rate_refresh_interval: 0,
            seed_lookback: 0,
            seed_refresh_interval: 0,
            max_bal_lookback: 0,
            num_proposers: 0,
            soft_committee_size: 0,
            soft_committee_threshold: 0,
            cert_committee_size: 0,
            cert_committee_threshold: 0,
            next_committee_size: 0,
            next_committee_threshold: 0,
            late_committee_size: 0,
            late_committee_threshold: 0,
            redo_committee_size: 0,
            redo_committee_threshold: 0,
            down_committee_size: 0,
            down_committee_threshold: 0,
            agreement_filter_timeout: 0,
            agreement_filter_timeout_period0: 0,
            fast_recovery_lambda: 0,
            payset_commit: PaysetCommitType::PaysetCommitUnsupported,
            max_timestamp_increment: 0,
            support_signed_txn_in_block: false,
            force_non_participating_fee_sink: false,
            apply_data: false,
            rewards_in_apply_data: false,
            credential_domain_separation_enabled: false,
            support_become_non_participating_transactions: false,
            pending_residue_rewards: false,
            asset: false,
            max_assets_per_account: 0,
            max_asset_name_bytes: 0,
            max_asset_unit_name_bytes: 0,
            max_asset_url_bytes: 0,
            txn_counter: false,
            support_tx_groups: false,
            max_tx_group_size: 0,
            support_transaction_leases: false,
            fix_transaction_leases: false,
            logic_sig_version: 0,
            logic_sig_max_size: 0,
            logic_sig_max_cost: 0,
            max_asset_decimals: 0,
            support_rekeying: false,
            application: false,
            max_app_args: 0,
            max_app_total_arg_len: 0,
            max_app_program_len: 0,
            max_app_total_program_len: 0,
            max_extra_app_program_pages: 0,
            max_app_txn_accounts: 0,
            max_app_txn_foreign_apps: 0,
            max_app_txn_foreign_assets: 0,
            max_app_total_txn_references: 0,
            max_app_program_cost: 0,
            max_app_key_len: 0,
            max_app_bytes_value_len: 0,
            max_app_sum_key_value_lens: 0,
            max_inner_transactions: 0,
            enable_inner_transaction_pooling: false,
            isolate_clear_state: false,
            min_inner_appl_version: 0,
            max_apps_created: 0,
            max_apps_opted_in: 0,
            app_flat_params_min_balance: 0,
            app_flat_opt_in_min_balance: 0,
            schema_min_balance_per_entry: 0,
            schema_uint_min_balance: 0,
            schema_bytes_min_balance: 0,
            max_local_schema_entries: 0,
            max_global_schema_entries: 0,
            maximum_minimum_balance: 0,
            compact_cert_rounds: 0,
            compact_cert_top_voters: 0,
            compact_cert_voters_lookback: 0,
            compact_cert_weight_threshold: 0,
            compact_cert_sec_kq: 0,
            enable_asset_close_amount: false,
            initial_rewards_rate_calculation: false,
            no_empty_local_deltas: false,
            enable_keyreg_coherency_check: false,
            enable_extra_pages_on_app_update: false,
            max_proposed_expired_online_accounts: 0,
            enable_account_data_resource_separation: false,
            enable_batch_verification: false,
            rewards_calculation_fix: false,
            enable_state_proof_keyreg_check: false,
            max_keyreg_valid_period: 0,
            unify_inner_tx_i_ds: false,
            enable_sha256_txn_commitment_header: false,
        }
    }
}

/// Every field at its default: zeroes, `false`, no upgrades.
pub open spec fn params_default_abs() -> ParamsAbs {
    ParamsAbs {
        upgrade_vote_rounds: 0,
        upgrade_threshold: 0,
        default_upgrade_wait_rounds: 0,
        min_upgrade_wait_rounds: 0,
        max_upgrade_wait_rounds: 0,
        max_version_string_len: 0,
        max_txn_bytes_per_block: 0,
        max_txn_note_bytes: 0,
        max_txn_life: 0,
        approved_upgrades: Map::empty(),
        support_genesis_hash: false,
        require_genesis_hash: false,
        default_key_dilution: 0,
        min_balance: 0,
        min_txn_fee: 0,
        enable_fee_pooling: false,
        enable_app_cost_pooling: false,
        reward_unit: 0,
        rewards_rate_refresh_interval: 0,
        seed_lookback: 0,
        seed_refresh_interval: 0,
        max_bal_lookback: 0,
        num_proposers: 0,
        soft_committee_size: 0,
        soft_committee_threshold: 0,
        cert_committee_size: 0,
        cert_committee_threshold: 0,
        next_committee_size: 0,
        next_committee_threshold: 0,
        late_committee_size: 0,
        late_committee_threshold: 0,
        redo_committee_size: 0,
        redo_committee_threshold: 0,
        down_committee_size: 0,
        down_committee_threshold: 0,
        agreement_filter_timeout: 0,
        agreement_filter_timeout_period0: 0,
        fast_recovery_lambda: 0,
        payset_commit: PaysetCommitType::PaysetCommitUnsupported,
        max_timestamp_increment: 0,
        support_signed_txn_in_block: false,
        force_non_participating_fee_sink: false,
        apply_data: false,
        rewards_in_apply_data: false,
        credential_domain_separation_enabled: false,
        support_become_non_participating_transactions: false,
        pending_residue_rewards: false,
        asset: false,
        max_assets_per_account: 0,
        max_asset_name_bytes: 0,
        max_asset_unit_name_bytes: 0,
        max_asset_url_bytes: 0,
        txn_counter: false,
        support_tx_groups: false,
        max_tx_group_size: 0,
        support_transaction_leases: false,
        fix_transaction_leases: false,
        logic_sig_version: 0,
        logic_sig_max_size: 0,
        logic_sig_max_cost: 0,
        max_asset_decimals: 0,
        support_rekeying: false,
        application: false,
        max_app_args: 0,
        max_app_total_arg_len: 0,
        max_app_program_len: 0,
        max_app_total_program_len: 0,
        max_extra_app_program_pages: 0,
        max_app_txn_accounts: 0,
        max_app_txn_foreign_apps: 0,
        max_app_txn_foreign_assets: 0,
        max_app_total_txn_references: 0,
        max_app_program_cost: 0,
        max_app_key_len: 0,
        max_app_bytes_value_len: 0,
        max_app_sum_key_value_lens: 0,
        max_inner_transactions: 0,
        enable_inner_transaction_pooling: false,
        isolate_clear_state: false,
        min_inner_appl_version: 0,
        max_apps_created: 0,
        max_apps_opted_in: 0,
        app_flat_params_min_balance: 0,
        app_flat_opt_in_min_balance: 0,
        schema_min_balance_per_entry: 0,
        schema_uint_min_balance: 0,
        schema_bytes_min_balance: 0,
        max_local_schema_entries: 0,
        max_global_schema_entries: 0,
        maximum_minimum_balance: 0,
        compact_cert_rounds: 0,
        compact_cert_top_voters: 0,
        compact_cert_voters_lookback: 0,
        compact_cert_weight_threshold: 0,
        compact_cert_sec_kq: 0,
        enable_asset_close_amount: false,
        initial_rewards_rate_calculation: false,
        no_empty_local_deltas: false,
        enable_keyreg_coherency_check: false,
        enable_extra_pages_on_app_update: false,
        max_proposed_expired_online_accounts: 0,
        enable_account_data_resource_separation: false,
        enable_batch_verification: false,
        rewards_calculation_fix: false,
        enable_state_proof_keyreg_check: false,
        max_keyreg_valid_period: 0,
        unify_inner_tx_i_ds: false,
        enable_sha256_txn_commitment_header: false,
    }
}

/// All fields except the upgrade table are equal.
pub open spec fn scalars_eq(a: ConsensusParams, b: ConsensusParams) -> bool {
    &&& a.upgrade_vote_rounds == b.upgrade_vote_rounds
    &&& a.upgrade_threshold == b.upgrade_threshold
    &&& a.default_upgrade_wait_rounds == b.default_upgrade_wait_rounds
    &&& a.min_upgrade_wait_rounds == b.min_upgrade_wait_rounds
    &&& a.max_upgrade_wait_rounds == b.max_upgrade_wait_rounds
    &&& a.max_version_string_len == b.max_version_string_len
    &&& a.max_txn_bytes_per_block == b.max_txn_bytes_per_block
    &&& a.max_txn_note_bytes == b.max_txn_note_bytes
    &&& a.max_txn_life == b.max_txn_life
    &&& a.support_genesis_hash == b.support_genesis_hash
    &&& a.require_genesis_hash == b.require_genesis_hash
    &&& a.default_key_dilution == b.default_key_dilution
    &&& a.min_balance == b.min_balance
    &&& a.min_txn_fee == b.min_txn_fee
    &&& a.enable_fee_pooling == b.enable_fee_pooling
    &&& a.enable_app_cost_pooling == b.enable_app_cost_pooling
    &&& a.reward_unit == b.reward_unit
    &&& a.rewards_rate_refresh_interval == b.rewards_rate_refresh_interval
    &&& a.seed_lookback == b.seed_lookback
    &&& a.seed_refresh_interval == b.seed_refresh_interval
    &&& a.max_bal_lookback == b.max_bal_lookback
    &&& a.num_proposers == b.num_proposers
    &&& a.soft_committee_size == b.soft_committee_size
    &&& a.soft_committee_threshold == b.soft_committee_threshold
    &&& a.cert_committee_size == b.cert_committee_size
    &&& a.cert_committee_threshold == b.cert_committee_threshold
    &&& a.next_committee_size == b.next_committee_size
    &&& a.next_committee_threshold == b.next_committee_threshold
    &&& a.late_committee_size == b.late_committee_size
    &&& a.late_committee_threshold == b.late_committee_threshold
    &&& a.redo_committee_size == b.redo_committee_size
    &&& a.redo_committee_threshold == b.redo_committee_threshold
    &&& a.down_committee_size == b.down_committee_size
    &&& a.down_committee_threshold == b.down_committee_threshold
    &&& a.agreement_filter_timeout == b.agreement_filter_timeout
    &&& a.agreement_filter_timeout_period0 == b.agreement_filter_timeout_period0
    &&& a.fast_recovery_lambda == b.fast_recovery_lambda
    &&& a.payset_commit == b.payset_commit
    &&& a.max_timestamp_increment == b.max_timestamp_increment
    &&& a.support_signed_txn_in_block == b.support_signed_txn_in_block
    &&& a.force_non_participating_fee_sink == b.force_non_participating_fee_sink
    &&& a.apply_data == b.apply_data
    &&& a.rewards_in_apply_data == b.rewards_in_apply_data
    &&& a.credential_domain_separation_enabled == b.credential_domain_separation_enabled
    &&& a.support_become_non_participating_transactions == b.support_become_non_participating_transactions
    &&& a.pending_residue_rewards == b.pending_residue_rewards
    &&& a.asset == b.asset
    &&& a.max_assets_per_account == b.max_assets_per_account
    &&& a.max_asset_name_bytes == b.max_asset_name_bytes
    &&& a.max_asset_unit_name_bytes == b.max_asset_unit_name_bytes
    &&& a.max_asset_url_bytes == b.max_asset_url_bytes
    &&& a.txn_counter == b.txn_counter
    &&& a.support_tx_groups == b.support_tx_groups
    &&& a.max_tx_group_size == b.max_tx_group_size
    &&& a.support_transaction_leases == b.support_transaction_leases
    &&& a.fix_transaction_leases == b.fix_transaction_leases
    &&& a.logic_sig_version == b.logic_sig_version
    &&& a.logic_sig_max_size == b.logic_sig_max_size
    &&& a.logic_sig_max_cost == b.logic_sig_max_cost
    &&& a.max_asset_decimals == b.max_asset_decimals
    &&& a.support_rekeying == b.support_rekeying
    &&& a.application == b.application
    &&& a.max_app_args == b.max_app_args
    &&& a.max_app_total_arg_len == b.max_app_total_arg_len
    &&& a.max_app_program_len == b.max_app_program_len
    &&& a.max_app_total_program_len == b.max_app_total_program_len
    &&& a.max_extra_app_program_pages == b.max_extra_app_program_pages
    &&& a.max_app_txn_accounts == b.max_app_txn_accounts
    &&& a.max_app_txn_foreign_apps == b.max_app_txn_foreign_apps
    &&& a.max_app_txn_foreign_assets == b.max_app_txn_foreign_assets
    &&& a.max_app_total_txn_references == b.max_app_total_txn_references
    &&& a.max_app_program_cost == b.max_app_program_cost
    &&& a.max_app_key_len == b.max_app_key_len
    &&& a.max_app_bytes_value_len == b.max_app_bytes_value_len
    &&& a.max_app_sum_key_value_lens == b.max_app_sum_key_value_lens
    &&& a.max_inner_transactions == b.max_inner_transactions
    &&& a.enable_inner_transaction_pooling == b.enable_inner_transaction_pooling
    &&& a.isolate_clear_state == b.isolate_clear_state
    &&& a.min_inner_appl_version == b.min_inner_appl_version
    &&& a.max_apps_created == b.max_apps_created
    &&& a.max_apps_opted_in == b.max_apps_opted_in
    &&& a.app_flat_params_min_balance == b.app_flat_params_min_balance
    &&& a.app_flat_opt_in_min_balance == b.app_flat_opt_in_min_balance
    &&& a.schema_min_balance_per_entry == b.schema_min_balance_per_entry
    &&& a.schema_uint_min_balance == b.schema_uint_min_balance
    &&& a.schema_bytes_min_balance == b.schema_bytes_min_balance
    &&& a.max_local_schema_entries == b.max_local_schema_entries
    &&& a.max_global_schema_entries == b.max_global_schema_entries
    &&& a.maximum_minimum_balance == b.maximum_minimum_balance
    &&& a.compact_cert_rounds == b.compact_cert_rounds
    &&& a.compact_cert_top_voters == b.compact_cert_top_voters
    &&& a.compact_cert_voters_lookback == b.compact_cert_voters_lookback
    &&& a.compact_cert_weight_threshold == b.compact_cert_weight_threshold
    &&& a.compact_cert_sec_kq == b.compact_cert_sec_kq
    &&& a.enable_asset_close_amount == b.enable_asset_close_amount
    &&& a.initial_rewards_rate_calculation == b.initial_rewards_rate_calculation
    &&& a.no_empty_local_deltas == b.no_empty_local_deltas
    &&& a.enable_keyreg_coherency_check == b.enable_keyreg_coherency_check
    &&& a.enable_extra_pages_on_app_update == b.enable_extra_pages_on_app_update
    &&& a.max_proposed_expired_online_accounts == b.max_proposed_expired_online_accounts
    &&& a.enable_account_data_resource_separation == b.enable_account_data_resource_separation
    &&& a.enable_batch_verification == b.enable_batch_verification
    &&& a.rewards_calculation_fix == b.rewards_calculation_fix
    &&& a.enable_state_proof_keyreg_check == b.enable_state_proof_keyreg_check
    &&& a.max_keyreg_valid_period == b.max_keyreg_valid_period
    &&& a.unify_inner_tx_i_ds == b.unify_inner_tx_i_ds
    &&& a.enable_sha256_txn_commitment_header == b.enable_sha256_txn_commitment_header
}

impl Clone for ConsensusParams {
    fn clone(&self) -> (r: Self)
        ensures
            scalars_eq(r, *self),
            r.approved_upgrades.as_map() == self.approved_upgrades.as_map(),
            r.wf() == self.wf(),
    {
        let r = ConsensusParams {
            upgrade_vote_rounds: self.upgrade_vote_rounds,
            upgrade_threshold: self.upgrade_threshold,
            default_upgrade_wait_rounds: self.default_upgrade_wait_rounds,
            min_upgrade_wait_rounds: self.min_upgrade_wait_rounds,
            max_upgrade_wait_rounds: self.max_upgrade_wait_rounds,
            max_version_string_len: self.max_version_string_len,
            max_txn_bytes_per_block: self.max_txn_bytes_per_block,
            max_txn_note_bytes: self.max_txn_note_bytes,
            max_txn_life: self.max_txn_life,
            approved_upgrades: self.approved_upgrades.clone(),
            support_genesis_hash: self.support_genesis_hash,
            require_genesis_hash: self.require_genesis_hash,
            default_key_dilution: self.default_key_dilution,
            min_balance: self.min_balance,
            min_txn_fee: self.min_txn_fee,
            enable_fee_pooling: self.enable_fee_pooling,
            enable_app_cost_pooling: self.enable_app_cost_pooling,
            reward_unit: self.reward_unit,
            rewards_rate_refresh_interval: self.rewards_rate_refresh_interval,
            seed_lookback: self.seed_lookback,
            seed_refresh_interval: self.seed_refresh_interval,
            max_bal_lookback: self.max_bal_lookback,
            num_proposers: self.num_proposers,
            soft_committee_size: self.soft_committee_size,
            soft_committee_threshold: self.soft_committee_threshold,
            cert_committee_size: self.cert_committee_size,
            cert_committee_threshold: self.cert_committee_threshold,
            next_committee_size: self.next_committee_size,
            next_committee_threshold: self.next_committee_threshold,
            late_committee_size: self.late_committee_size,
            late_committee_threshold: self.late_committee_threshold,
            redo_committee_size: self.redo_committee_size,
            redo_committee_threshold: self.redo_committee_threshold,
            down_committee_size: self.down_committee_size,
            down_committee_threshold: self.down_committee_threshold,
            agreement_filter_timeout: self.agreement_filter_timeout,
            agreement_filter_timeout_period0: self.agreement_filter_timeout_period0,
            fast_recovery_lambda: self.fast_recovery_lambda,
            payset_commit: self.payset_commit,
            max_timestamp_increment: self.max_timestamp_increment,
            support_signed_txn_in_block: self.support_signed_txn_in_block,
            force_non_participating_fee_sink: self.force_non_participating_fee_sink,
            apply_data: self.apply_data,
            rewards_in_apply_data: self.rewards_in_apply_data,
            credential_domain_separation_enabled: self.credential_domain_separation_enabled,
            support_become_non_participating_transactions: self.support_become_non_participating_transactions,
            pending_residue_rewards: self.pending_residue_rewards,
            asset: self.asset,
            max_assets_per_account: self.max_assets_per_account,
            max_asset_name_bytes: self.max_asset_name_bytes,
            max_asset_unit_name_bytes: self.max_asset_unit_name_bytes,
            max_asset_url_bytes: self.max_asset_url_bytes,
            txn_counter: self.txn_counter,
            support_tx_groups: self.support_tx_groups,
            max_tx_group_size: self.max_tx_group_size,
            support_transaction_leases: self.support_transaction_leases,
            fix_transaction_leases: self.fix_transaction_leases,
            logic_sig_version: self.logic_sig_version,
            logic_sig_max_size: self.logic_sig_max_size,
            logic_sig_max_cost: self.logic_sig_max_cost,
            max_asset_decimals: self.max_asset_decimals,
            support_rekeying: self.support_rekeying,
            application: self.application,
            max_app_args: self.max_app_args,
            max_app_total_arg_len: self.max_app_total_arg_len,
            max_app_program_len: self.max_app_program_len,
            max_app_total_program_len: self.max_app_total_program_len,
            max_extra_app_program_pages: self.max_extra_app_program_pages,
            max_app_txn_accounts: self.max_app_txn_accounts,
            max_app_txn_foreign_apps: self.max_app_txn_foreign_apps,
            max_app_txn_foreign_assets: self.max_app_txn_foreign_assets,
            max_app_total_txn_references: self.max_app_total_txn_references,
            max_app_program_cost: self.max_app_program_cost,
            max_app_key_len: self.max_app_key_len,
            max_app_bytes_value_len: self.max_app_bytes_value_len,
            max_app_sum_key_value_lens: self.max_app_sum_key_value_lens,
            max_inner_transactions: self.max_inner_transactions,
            enable_inner_transaction_pooling: self.enable_inner_transaction_pooling,
            isolate_clear_state: self.isolate_clear_state,
            min_inner_appl_version: self.min_inner_appl_version,
            max_apps_created: self.max_apps_created,
            max_apps_opted_in: self.max_apps_opted_in,
            app_flat_params_min_balance: self.app_flat_params_min_balance,
            app_flat_opt_in_min_balance: self.app_flat_opt_in_min_balance,
            schema_min_balance_per_entry: self.schema_min_balance_per_entry,
            schema_uint_min_balance: self.schema_uint_min_balance,
            schema_bytes_min_balance: self.schema_bytes_min_balance,
            max_local_schema_entries: self.max_local_schema_entries,
            max_global_schema_entries: self.max_global_schema_entries,
            maximum_minimum_balance: self.maximum_minimum_balance,
            compact_cert_rounds: self.compact_cert_rounds,
            compact_cert_top_voters: self.compact_cert_top_voters,
            compact_cert_voters_lookback: self.compact_cert_voters_lookback,
            compact_cert_weight_threshold: self.compact_cert_weight_threshold,
            compact_cert_sec_kq: self.compact_cert_sec_kq,
            enable_asset_close_amount: self.enable_asset_close_amount,
            initial_rewards_rate_calculation: self.initial_rewards_rate_calculation,
            no_empty_local_deltas: self.no_empty_local_deltas,
            enable_keyreg_coherency_check: self.enable_keyreg_coherency_check,
            enable_extra_pages_on_app_update: self.enable_extra_pages_on_app_update,
            max_proposed_expired_online_accounts: self.max_proposed_expired_online_accounts,
            enable_account_data_resource_separation: self.enable_account_data_resource_separation,
            enable_batch_verification: self.enable_batch_verification,
            rewards_calculation_fix: self.rewards_calculation_fix,
            enable_state_proof_keyreg_check: self.enable_state_proof_keyreg_check,
            max_keyreg_valid_period: self.max_keyreg_valid_period,
            unify_inner_tx_i_ds: self.unify_inner_tx_i_ds,
            enable_sha256_txn_commitment_header: self.enable_sha256_txn_commitment_header,
        };
        r
    }
}

/// The table's record for protocol version v7.
pub open spec fn consensus_v7_abs() -> ParamsAbs {
    ParamsAbs {
        upgrade_vote_rounds: 10000,
        upgrade_threshold: 9000,
        default_upgrade_wait_rounds: 10000,
        min_upgrade_wait_rounds: 0,
        max_upgrade_wait_rounds: 0,
        max_version_string_len: 64,
        max_txn_bytes_per_block: 1000000,
        max_txn_note_bytes: 1024,
        max_txn_life: 1000,
        approved_upgrades: map!["v8"@ => 0u64],
        support_genesis_hash: false,
        require_genesis_hash: false,
        default_key_dilution: 10000,
        min_balance: 10000,
        min_txn_fee: 1000,
        enable_fee_pooling: false,
        enable_app_cost_pooling: false,
        reward_unit: 1_000_000,
        rewards_rate_refresh_interval: 500_000,
        seed_lookback: 2,
        seed_refresh_interval: 100,
        max_bal_lookback: 320,
        num_proposers: 30,
        soft_committee_size: 2500,
        soft_committee_threshold: 1870,
        cert_committee_size: 1000,
        cert_committee_threshold: 720,
        next_committee_size: 10000,
        next_committee_threshold: 7750,
        late_committee_size: 10000,
        late_committee_threshold: 7750,
        redo_committee_size: 10000,
        redo_committee_threshold: 7750,
        down_committee_size: 10000,
        down_committee_threshold: 7750,
        agreement_filter_timeout: 4_000_000_000,
        agreement_filter_timeout_period0: 4_000_000_000,
        fast_recovery_lambda: 300_000_000_000,
        payset_commit: PaysetCommitType::PaysetCommitUnsupported,
        max_timestamp_increment: 25,
        support_signed_txn_in_block: false,
        force_non_participating_fee_sink: false,
        apply_data: false,
        rewards_in_apply_data: false,
        credential_domain_separation_enabled: false,
        support_become_non_participating_transactions: false,
        pending_residue_rewards: false,
        asset: false,
        max_assets_per_account: 0,
        max_asset_name_bytes: 0,
        max_asset_unit_name_bytes: 0,
        max_asset_url_bytes: 0,
        txn_counter: false,
        support_tx_groups: false,
        max_tx_group_size: 1,
        support_transaction_leases: false,
        fix_transaction_leases: false,
        logic_sig_version: 0,
        logic_sig_max_size: 0,
        logic_sig_max_cost: 0,
        max_asset_decimals: 0,
        support_rekeying: false,
        application: false,
        max_app_args: 0,
        max_app_total_arg_len: 0,
        max_app_program_len: 0,
        max_app_total_program_len: 0,
        max_extra_app_program_pages: 0,
        max_app_txn_accounts: 0,
        max_app_txn_foreign_apps: 0,
        max_app_txn_foreign_assets: 0,
        max_app_total_txn_references: 0,
        max_app_program_cost: 0,
        max_app_key_len: 0,
        max_app_bytes_value_len: 0,
        max_app_sum_key_value_lens: 0,
        max_inner_transactions: 0,
        enable_inner_transaction_pooling: false,
        isolate_clear_state: false,
        min_inner_appl_version: 0,
        max_apps_created: 0,
        max_apps_opted_in: 0,
        app_flat_params_min_balance: 0,
        app_flat_opt_in_min_balance: 0,
        schema_min_balance_per_entry: 0,
        schema_uint_min_balance: 0,
        schema_bytes_min_balance: 0,
        max_local_schema_entries: 0,
        max_global_schema_entries: 0,
        maximum_minimum_balance: 0,
        compact_cert_rounds: 0,
        compact_cert_top_voters: 0,
        compact_cert_voters_lookback: 0,
        compact_cert_weight_threshold: 0,
        compact_cert_sec_kq: 0,
        enable_asset_close_amount: false,
        initial_rewards_rate_calculation: false,
        no_empty_local_deltas: false,
        enable_keyreg_coherency_check: false,
        enable_extra_pages_on_app_update: false,
        max_proposed_expired_online_accounts: 0,
        enable_account_data_resource_separation: false,
        enable_batch_verification: false,
        rewards_calculation_fix: false,
        enable_state_proof_keyreg_check: false,
        max_keyreg_valid_period: 0,
        unify_inner_tx_i_ds: false,
        enable_sha256_txn_commitment_header: false,
    }
}

/// The table's record for protocol version v8.
pub open spec fn consensus_v8_abs() -> ParamsAbs {
    ParamsAbs {
        upgrade_vote_rounds: 10000,
        upgrade_threshold: 9000,
        default_upgrade_wait_rounds: 10000,
        min_upgrade_wait_rounds: 0,
        max_upgrade_wait_rounds: 0,
        max_version_string_len: 64,
        max_txn_bytes_per_block: 1000000,
        max_txn_note_bytes: 1024,
        max_txn_life: 1000,
        approved_upgrades: map!["v9"@ => 0u64],
        support_genesis_hash: false,
        require_genesis_hash: false,
        default_key_dilution: 10000,
        min_balance: 10000,
        min_txn_fee: 1000,
        enable_fee_pooling: false,
        enable_app_cost_pooling: false,
        reward_unit: 1_000_000,
        rewards_rate_refresh_interval: 500_000,
        seed_lookback: 2,
        seed_refresh_interval: 80,
        max_bal_lookback: 320,
        num_proposers: 9,
        soft_committee_size: 2990,
        soft_committee_threshold: 2267,
        cert_committee_size: 1500,
        cert_committee_threshold: 1112,
        next_committee_size: 5000,
        next_committee_threshold: 3838,
        late_committee_size: 5000,
        late_committee_threshold: 3838,
        redo_committee_size: 5000,
        redo_committee_threshold: 3838,
        down_committee_size: 5000,
        down_committee_threshold: 3838,
        agreement_filter_timeout: 4_000_000_000,
        agreement_filter_timeout_period0: 4_000_000_000,
        fast_recovery_lambda: 300_000_000_000,
        payset_commit: PaysetCommitType::PaysetCommitUnsupported,
        max_timestamp_increment: 25,
        support_signed_txn_in_block: false,
        force_non_participating_fee_sink: false,
        apply_data: false,
        rewards_in_apply_data: false,
        credential_domain_separation_enabled: false,
        support_become_non_participating_transactions: false,
        pending_residue_rewards: false,
        asset: false,
        max_assets_per_account: 0,
        max_asset_name_bytes: 0,
        max_asset_unit_name_bytes: 0,
        max_asset_url_bytes: 0,
        txn_counter: false,
        support_tx_groups: false,
        max_tx_group_size: 1,
        support_transaction_leases: false,
        fix_transaction_leases: false,
        logic_sig_version: 0,
        logic_sig_max_size: 0,
        logic_sig_max_cost: 0,
        max_asset_decimals: 0,
        support_rekeying: false,
        application: false,
        max_app_args: 0,
        max_app_total_arg_len: 0,
        max_app_program_len: 0,
        max_app_total_program_len: 0,
        max_extra_app_program_pages: 0,
        max_app_txn_accounts: 0,
        max_app_txn_foreign_apps: 0,
        max_app_txn_foreign_assets: 0,
        max_app_total_txn_references: 0,
        max_app_program_cost: 0,
        max_app_key_len: 0,
        max_app_bytes_value_len: 0,
        max_app_sum_key_value_lens: 0,
        max_inner_transactions: 0,
        enable_inner_transaction_pooling: false,
        isolate_clear_state: false,
        min_inner_appl_version: 0,
        max_apps_created: 0,
        max_apps_opted_in: 0,
        app_flat_params_min_balance: 0,
        app_flat_opt_in_min_balance: 0,
        schema_min_balance_per_entry: 0,
        schema_uint_min_balance: 0,
        schema_bytes_min_balance: 0,
        max_local_schema_entries: 0,
        max_global_schema_entries: 0,
        maximum_minimum_balance: 0,
        compact_cert_rounds: 0,
        compact_cert_top_voters: 0,
        compact_cert_voters_lookback: 0,
        compact_cert_weight_threshold: 0,
        compact_cert_sec_kq: 0,
        enable_asset_close_amount: false,
        initial_rewards_rate_calculation: false,
        no_empty_local_deltas: false,
        enable_keyreg_coherency_check: false,
        enable_extra_pages_on_app_update: false,
        max_proposed_expired_online_accounts: 0,
        enable_account_data_resource_separation: false,
        enable_batch_verification: false,
        rewards_calculation_fix: false,
        enable_state_proof_keyreg_check: false,
        max_keyreg_valid_period: 0,
        unify_inner_tx_i_ds: false,
        enable_sha256_txn_commitment_header: false,
    }
}

/// The table's record for protocol version v9.
pub open spec fn consensus_v9_abs() -> ParamsAbs {
    ParamsAbs {
        upgrade_vote_rounds: 10000,
        upgrade_threshold: 9000,
        default_upgrade_wait_rounds: 10000,
        min_upgrade_wait_rounds: 0,
        max_upgrade_wait_rounds: 0,
        max_version_string_len: 64,
        max_txn_bytes_per_block: 1000000,
        max_txn_note_bytes: 1024,
        max_txn_life: 1000,
        approved_upgrades: map!["v10"@ => 0u64],
        support_genesis_hash: false,
        require_genesis_hash: false,
        default_key_dilution: 10000,
        min_balance: 100000,
        min_txn_fee: 1000,
        enable_fee_pooling: false,
        enable_app_cost_pooling: false,
        reward_unit: 1_000_000,
        rewards_rate_refresh_interval: 500_000,
        seed_lookback: 2,
        seed_refresh_interval: 80,
        max_bal_lookback: 320,
        num_proposers: 9,
        soft_committee_size: 2990,
        soft_committee_threshold: 2267,
        cert_committee_size: 1500,
        cert_committee_threshold: 1112,
        next_committee_size: 5000,
        next_committee_threshold: 3838,
        late_committee_size: 5000,
        late_committee_threshold: 3838,
        redo_committee_size: 5000,
        redo_committee_threshold: 3838,
        down_committee_size: 5000,
        down_committee_threshold: 3838,
        agreement_filter_timeout: 4_000_000_000,
        agreement_filter_timeout_period0: 4_000_000_000,
        fast_recovery_lambda: 300_000_000_000,
        payset_commit: PaysetCommitType::PaysetCommitUnsupported,
        max_timestamp_increment: 25,
        support_signed_txn_in_block: false,
        force_non_participating_fee_sink: false,
        apply_data: false,
        rewards_in_apply_data: false,
        credential_domain_separation_enabled: false,
        support_become_non_participating_transactions: false,
        pending_residue_rewards: false,
        asset: false,
        max_assets_per_account: 0,
        max_asset_name_bytes: 0,
        max_asset_unit_name_bytes: 0,
        max_asset_url_bytes: 0,
        txn_counter: false,
        support_tx_groups: false,
        max_tx_group_size: 1,
        support_transaction_leases: false,
        fix_transaction_leases: false,
        logic_sig_version: 0,
        logic_sig_max_size: 0,
        logic_sig_max_cost: 0,
        max_asset_decimals: 0,
        support_rekeying: false,
        application: false,
        max_app_args: 0,
        max_app_total_arg_len: 0,
        max_app_program_len: 0,
        max_app_total_program_len: 0,
        max_extra_app_program_pages: 0,
        max_app_txn_accounts: 0,
        max_app_txn_foreign_apps: 0,
        max_app_txn_foreign_assets: 0,
        max_app_total_txn_references: 0,
        max_app_program_cost: 0,
        max_app_key_len: 0,
        max_app_bytes_value_len: 0,
        max_app_sum_key_value_lens: 0,
        max_inner_transactions: 0,
        enable_inner_transaction_pooling: false,
        isolate_clear_state: false,
        min_inner_appl_version: 0,
        max_apps_created: 0,
        max_apps_opted_in: 0,
        app_flat_params_min_balance: 0,
        app_flat_opt_in_min_balance: 0,
        schema_min_balance_per_entry: 0,
        schema_uint_min_balance: 0,
        schema_bytes_min_balance: 0,
        max_local_schema_entries: 0,
        max_global_schema_entries: 0,
        maximum_minimum_balance: 0,
        compact_cert_rounds: 0,
        compact_cert_top_voters: 0,
        compact_cert_voters_lookback: 0,
        compact_cert_weight_threshold: 0,
        compact_cert_sec_kq: 0,
        enable_asset_close_amount: false,
        initial_rewards_rate_calculation: false,
        no_empty_local_deltas: false,
        enable_keyreg_coherency_check: false,
        enable_extra_pages_on_app_update: false,
        max_proposed_expired_online_accounts: 0,
        enable_account_data_resource_separation: false,
        enable_batch_verification: false,
        rewards_calculation_fix: false,
        enable_state_proof_keyreg_check: false,
        max_keyreg_valid_period: 0,
        unify_inner_tx_i_ds: false,
        enable_sha256_txn_commitment_header: false,
    }
}

/// The table's record for protocol version v10.
pub open spec fn consensus_v10_abs() -> ParamsAbs {
    ParamsAbs {
        upgrade_vote_rounds: 10000,
        upgrade_threshold: 9000,
        default_upgrade_wait_rounds: 10000,
        min_upgrade_wait_rounds: 0,
        max_upgrade_wait_rounds: 0,
        max_version_string_len: 64,
        max_txn_bytes_per_block: 1000000,
        max_txn_note_bytes: 1024,
        max_txn_life: 1000,
        approved_upgrades: map!["v11"@ => 0u64],
        support_genesis_hash: false,
        require_genesis_hash: false,
        default_key_dilution: 10000,
        min_balance: 100000,
        min_txn_fee: 1000,
        enable_fee_pooling: false,
        enable_app_cost_pooling: false,
        reward_unit: 1_000_000,
        rewards_rate_refresh_interval: 500_000,
        seed_lookback: 2,
        seed_refresh_interval: 80,
        max_bal_lookback: 320,
        num_proposers: 20,
        soft_committee_size: 2990,
        soft_committee_threshold: 2267,
        cert_committee_size: 1500,
        cert_committee_threshold: 1112,
        next_committee_size: 5000,
        next_committee_threshold: 3838,
        late_committee_size: 500,
        late_committee_threshold: 320,
        redo_committee_size: 2400,
        redo_committee_threshold: 1768,
        down_committee_size: 6000,
        down_committee_threshold: 4560,
        agreement_filter_timeout: 4_000_000_000,
        agreement_filter_timeout_period0: 4_000_000_000,
        fast_recovery_lambda: 300_000_000_000,
        payset_commit: PaysetCommitType::PaysetCommitUnsupported,
        max_timestamp_increment: 25,
        support_signed_txn_in_block: false,
        force_non_participating_fee_sink: false,
        apply_data: false,
        rewards_in_apply_data: false,
        credential_domain_separation_enabled: false,
        support_become_non_participating_transactions: false,
        pending_residue_rewards: false,
        asset: false,
        max_assets_per_account: 0,
        max_asset_name_bytes: 0,
        max_asset_unit_name_bytes: 0,
        max_asset_url_bytes: 0,
        txn_counter: false,
        support_tx_groups: false,
        max_tx_group_size: 1,
        support_transaction_leases: false,
        fix_transaction_leases: false,
        logic_sig_version: 0,
        logic_sig_max_size: 0,
        logic_sig_max_cost: 0,
        max_asset_decimals: 0,
        support_rekeying: false,
        application: false,
        max_app_args: 0,
        max_app_total_arg_len: 0,
        max_app_program_len: 0,
        max_app_total_program_len: 0,
        max_extra_app_program_pages: 0,
        max_app_txn_accounts: 0,
        max_app_txn_foreign_apps: 0,
        max_app_txn_foreign_assets: 0,
        max_app_total_txn_references: 0,
        max_app_program_cost: 0,
        max_app_key_len: 0,
        max_app_bytes_value_len: 0,
        max_app_sum_key_value_lens: 0,
        max_inner_transactions: 0,
        enable_inner_transaction_pooling: false,
        isolate_clear_state: false,
        min_inner_appl_version: 0,
        max_apps_created: 0,
        max_apps_opted_in: 0,
        app_flat_params_min_balance: 0,
        app_flat_opt_in_min_balance: 0,
        schema_min_balance_per_entry: 0,
        schema_uint_min_balance: 0,
        schema_bytes_min_balance: 0,
        max_local_schema_entries: 0,
        max_global_schema_entries: 0,
        maximum_minimum_balance: 0,
        compact_cert_rounds: 0,
        compact_cert_top_voters: 0,
        compact_cert_voters_lookback: 0,
        compact_cert_weight_threshold: 0,
        compact_cert_sec_kq: 0,
        enable_asset_close_amount: false,
        initial_rewards_rate_calculation: false,
        no_empty_local_deltas: false,
        enable_keyreg_coherency_check: false,
        enable_extra_pages_on_app_update: false,
        max_proposed_expired_online_accounts: 0,
        enable_account_data_resource_separation: false,
        enable_batch_verification: false,
        rewards_calculation_fix: false,
        enable_state_proof_keyreg_check: false,
        max_keyreg_valid_period: 0,
        unify_inner_tx_i_ds: false,
        enable_sha256_txn_commitment_header: false,
    }
}

/// The table's record for protocol version v11.
pub open spec fn consensus_v11_abs() -> ParamsAbs {
    ParamsAbs {
        upgrade_vote_rounds: 10000,
        upgrade_threshold: 9000,
        default_upgrade_wait_rounds: 10000,
        min_upgrade_wait_rounds: 0,
        max_upgrade_wait_rounds: 0,
        max_version_string_len: 64,
        max_txn_bytes_per_block: 1000000,
        max_txn_note_bytes: 1024,
        max_txn_life: 1000,
        approved_upgrades: map!["v12"@ => 0u64],
        support_genesis_hash: false,
        require_genesis_hash: false,
        default_key_dilution: 10000,
        min_balance: 100000,
        min_txn_fee: 1000,
        enable_fee_pooling: false,
        enable_app_cost_pooling: false,
        reward_unit: 1_000_000,
        rewards_rate_refresh_interval: 500_000,
        seed_lookback: 2,
        seed_refresh_interval: 80,
        max_bal_lookback: 320,
        num_proposers: 20,
        soft_committee_size: 2990,
        soft_committee_threshold: 2267,
        cert_committee_size: 1500,
        cert_committee_threshold: 1112,
        next_committee_size: 5000,
        next_committee_threshold: 3838,
        late_committee_size: 500,
        late_committee_threshold: 320,
        redo_committee_size: 2400,
        redo_committee_threshold: 1768,
        down_committee_size: 6000,
        down_committee_threshold: 4560,
        agreement_filter_timeout: 4_000_000_000,
        agreement_filter_timeout_period0: 4_000_000_000,
        fast_recovery_lambda: 300_000_000_000,
        payset_commit: PaysetCommitType::PaysetCommitFlat,
        max_timestamp_increment: 25,
        support_signed_txn_in_block: true,
        force_non_participating_fee_sink: false,
        apply_data: false,
        rewards_in_apply_data: false,
        credential_domain_separation_enabled: false,
        support_become_non_participating_transactions: false,
        pending_residue_rewards: false,
        asset: false,
        max_assets_per_account: 0,
        max_asset_name_bytes: 0,
        max_asset_unit_name_bytes: 0,
        max_asset_url_bytes: 0,
        txn_counter: false,
        support_tx_groups: false,
        max_tx_group_size: 1,
        support_transaction_leases: false,
        fix_transaction_leases: false,
        logic_sig_version: 0,
        logic_sig_max_size: 0,
        logic_sig_max_cost: 0,
        max_asset_decimals: 0,
        support_rekeying: false,
        application: false,
        max_app_args: 0,
        max_app_total_arg_len: 0,
        max_app_program_len: 0,
        max_app_total_program_len: 0,
        max_extra_app_program_pages: 0,
        max_app_txn_accounts: 0,
        max_app_txn_foreign_apps: 0,
        max_app_txn_foreign_assets: 0,
        max_app_total_txn_references: 0,
        max_app_program_cost: 0,
        max_app_key_len: 0,
        max_app_bytes_value_len: 0,
        max_app_sum_key_value_lens: 0,
        max_inner_transactions: 0,
        enable_inner_transaction_pooling: false,
        isolate_clear_state: false,
        min_inner_appl_version: 0,
        max_apps_created: 0,
        max_apps_opted_in: 0,
        app_flat_params_min_balance: 0,
        app_flat_opt_in_min_balance: 0,
        schema_min_balance_per_entry: 0,
        schema_uint_min_balance: 0,
        schema_bytes_min_balance: 0,
        max_local_schema_entries: 0,
        max_global_schema_entries: 0,
        maximum_minimum_balance: 0,
        compact_cert_rounds: 0,
        compact_cert_top_voters: 0,
        compact_cert_voters_lookback: 0,
        compact_cert_weight_threshold: 0,
        compact_cert_sec_kq: 0,
        enable_asset_close_amount: false,
        initial_rewards_rate_calculation: false,
        no_empty_local_deltas: false,
        enable_keyreg_coherency_check: false,
        enable_extra_pages_on_app_update: false,
        max_proposed_expired_online_accounts: 0,
        enable_account_data_resource_separation: false,
        enable_batch_verification: false,
        rewards_calculation_fix: false,
        enable_state_proof_keyreg_check: false,
        max_keyreg_valid_period: 0,
        unify_inner_tx_i_ds: false,
        enable_sha256_txn_commitment_header: false,
    }
}

/// The table's record for protocol version v12.
pub open spec fn consensus_v12_abs() -> ParamsAbs {
    ParamsAbs {
        upgrade_vote_rounds: 10000,
        upgrade_threshold: 9000,
        default_upgrade_wait_rounds: 10000,
        min_upgrade_wait_rounds: 0,
        max_upgrade_wait_rounds: 0,
        max_version_string_len: 128,
        max_txn_bytes_per_block: 1000000,
        max_txn_note_bytes: 1024,
        max_txn_life: 1000,
        approved_upgrades: map!["v13"@ => 0u64],
        support_genesis_hash: false,
        require_genesis_hash: false,
        default_key_dilution: 10000,
        min_balance: 100000,
        min_txn_fee: 1000,
        enable_fee_pooling: false,
        enable_app_cost_pooling: false,
        reward_unit: 1_000_000,
        rewards_rate_refresh_interval: 500_000,
        seed_lookback: 2,
        seed_refresh_interval: 80,
        max_bal_lookback: 320,
        num_proposers: 20,
        soft_committee_size: 2990,
        soft_committee_threshold: 2267,
        cert_committee_size: 1500,
        cert_committee_threshold: 1112,
        next_committee_size: 5000,
        next_committee_threshold: 3838,
        late_committee_size: 500,
        late_committee_threshold: 320,
        redo_committee_size: 2400,
        redo_committee_threshold: 1768,
        down_committee_size: 6000,
        down_committee_threshold: 4560,
        agreement_filter_timeout: 4_000_000_000,
        agreement_filter_timeout_period0: 4_000_000_000,
        fast_recovery_lambda: 300_000_000_000,
        payset_commit: PaysetCommitType::PaysetCommitFlat,
        max_timestamp_increment: 25,
        support_signed_txn_in_block: true,
        force_non_participating_fee_sink: false,
        apply_data: false,
        rewards_in_apply_data: false,
        credential_domain_separation_enabled: false,
        support_become_non_participating_transactions: false,
        pending_residue_rewards: false,
        asset: false,
        max_assets_per_account: 0,
        max_asset_name_bytes: 0,
        max_asset_unit_name_bytes: 0,
        max_asset_url_bytes: 0,
        txn_counter: false,
        support_tx_groups: false,
        max_tx_group_size: 1,
        support_transaction_leases: false,
        fix_transaction_leases: false,
        logic_sig_version: 0,
        logic_sig_max_size: 0,
        logic_sig_max_cost: 0,
        max_asset_decimals: 0,
        support_rekeying: false,
        application: false,
        max_app_args: 0,
        max_app_total_arg_len: 0,
        max_app_program_len: 0,
        max_app_total_program_len: 0,
        max_extra_app_program_pages: 0,
        max_app_txn_accounts: 0,
        max_app_txn_foreign_apps: 0,
        max_app_txn_foreign_assets: 0,
        max_app_total_txn_references: 0,
        max_app_program_cost: 0,
        max_app_key_len: 0,
        max_app_bytes_value_len: 0,
        max_app_sum_key_value_lens: 0,
        max_inner_transactions: 0,
        enable_inner_transaction_pooling: false,
        isolate_clear_state: false,
        min_inner_appl_version: 0,
        max_apps_created: 0,
        max_apps_opted_in: 0,
        app_flat_params_min_balance: 0,
        app_flat_opt_in_min_balance: 0,
        schema_min_balance_per_entry: 0,
        schema_uint_min_balance: 0,
        schema_bytes_min_balance: 0,
        max_local_schema_entries: 0,
        max_global_schema_entries: 0,
        maximum_minimum_balance: 0,
        compact_cert_rounds: 0,
        compact_cert_top_voters: 0,
        compact_cert_voters_lookback: 0,
        compact_cert_weight_threshold: 0,
        compact_cert_sec_kq: 0,
        enable_asset_close_amount: false,
        initial_rewards_rate_calculation: false,
        no_empty_local_deltas: false,
        enable_keyreg_coherency_check: false,
        enable_extra_pages_on_app_update: false,
        max_proposed_expired_online_accounts: 0,
        enable_account_data_resource_separation: false,
        enable_batch_verification: false,
        rewards_calculation_fix: false,
        enable_state_proof_keyreg_check: false,
        max_keyreg_valid_period: 0,
        unify_inner_tx_i_ds: false,
        enable_sha256_txn_commitment_header: false,
    }
}

/// The table's record for protocol version v13.
pub open spec fn consensus_v13_abs() -> ParamsAbs {
    ParamsAbs {
        upgrade_vote_rounds: 10000,
        upgrade_threshold: 9000,
        default_upgrade_wait_rounds: 10000,
        min_upgrade_wait_rounds: 0,
        max_upgrade_wait_rounds: 0,
        max_version_string_len: 128,
        max_txn_bytes_per_block: 1000000,
        max_txn_note_bytes: 1024,
        max_txn_life: 1000,
        approved_upgrades: map!["v14"@ => 0u64],
        support_genesis_hash: false,
        require_genesis_hash: false,
        default_key_dilution: 10000,
        min_balance: 100000,
        min_txn_fee: 1000,
        enable_fee_pooling: false,
        enable_app_cost_pooling: false,
        reward_unit: 1_000_000,
        rewards_rate_refresh_interval: 500_000,
        seed_lookback: 2,
        seed_refresh_interval: 80,
        max_bal_lookback: 320,
        num_proposers: 20,
        soft_committee_size: 2990,
        soft_committee_threshold: 2267,
        cert_committee_size: 1500,
        cert_committee_threshold: 1112,
        next_committee_size: 5000,
        next_committee_threshold: 3838,
        late_committee_size: 500,
        late_committee_threshold: 320,
        redo_committee_size: 2400,
        redo_committee_threshold: 1768,
        down_committee_size: 6000,
        down_committee_threshold: 4560,
        agreement_filter_timeout: 4_000_000_000,
        agreement_filter_timeout_period0: 4_000_000_000,
        fast_recovery_lambda: 300_000_000_000,
        payset_commit: PaysetCommitType::PaysetCommitFlat,
        max_timestamp_increment: 25,
        support_signed_txn_in_block: true,
        force_non_participating_fee_sink: false,
        apply_data: false,
        rewards_in_apply_data: false,
        credential_domain_separation_enabled: false,
        support_become_non_participating_transactions: false,
        pending_residue_rewards: false,
        asset: false,
        max_assets_per_account: 0,
        max_asset_name_bytes: 0,
        max_asset_unit_name_bytes: 0,
        max_asset_url_bytes: 0,
        txn_counter: false,
        support_tx_groups: false,
        max_tx_group_size: 1,
        support_transaction_leases: false,
        fix_transaction_leases: false,
        logic_sig_version: 0,
        logic_sig_max_size: 0,
        logic_sig_max_cost: 0,
        max_asset_decimals: 0,
        support_rekeying: false,
        application: false,
        max_app_args: 0,
        max_app_total_arg_len: 0,
        max_app_program_len: 0,
        max_app_total_program_len: 0,
        max_extra_app_program_pages: 0,
        max_app_txn_accounts: 0,
        max_app_txn_foreign_apps: 0,
        max_app_txn_foreign_assets: 0,
        max_app_total_txn_references: 0,
        max_app_program_cost: 0,
        max_app_key_len: 0,
        max_app_bytes_value_len: 0,
        max_app_sum_key_value_lens: 0,
        max_inner_transactions: 0,
        enable_inner_transaction_pooling: false,
        isolate_clear_state: false,
        min_inner_appl_version: 0,
        max_apps_created: 0,
        max_apps_opted_in: 0,
        app_flat_params_min_balance: 0,
        app_flat_opt_in_min_balance: 0,
        schema_min_balance_per_entry: 0,
        schema_uint_min_balance: 0,
        schema_bytes_min_balance: 0,
        max_local_schema_entries: 0,
        max_global_schema_entries: 0,
        maximum_minimum_balance: 0,
        compact_cert_rounds: 0,
        compact_cert_top_voters: 0,
        compact_cert_voters_lookback: 0,
        compact_cert_weight_threshold: 0,
        compact_cert_sec_kq: 0,
        enable_asset_close_amount: false,
        initial_rewards_rate_calculation: false,
        no_empty_local_deltas: false,
        enable_keyreg_coherency_check: false,
        enable_extra_pages_on_app_update: false,
        max_proposed_expired_online_accounts: 0,
        enable_account_data_resource_separation: false,
        enable_batch_verification: false,
        rewards_calculation_fix: false,
        enable_state_proof_keyreg_check: false,
        max_keyreg_valid_period: 0,
        unify_inner_tx_i_ds: false,
        enable_sha256_txn_commitment_header: false,
    }
}

/// The table's record for protocol version v14.
pub open spec fn consensus_v14_abs() -> ParamsAbs {
    ParamsAbs {
        upgrade_vote_rounds: 10000,
        upgrade_threshold: 9000,
        default_upgrade_wait_rounds: 10000,
        min_upgrade_wait_rounds: 0,
        max_upgrade_wait_rounds: 0,
        max_version_string_len: 128,
        max_txn_bytes_per_block: 1000000,
        max_txn_note_bytes: 1024,
        max_txn_life: 1000,
        approved_upgrades: map!["v15"@ => 0u64],
        support_genesis_hash: true,
        require_genesis_hash: false,
        default_key_dilution: 10000,
        min_balance: 100000,
        min_txn_fee: 1000,
        enable_fee_pooling: false,
        enable_app_cost_pooling: false,
        reward_unit: 1_000_000,
        rewards_rate_refresh_interval: 500_000,
        seed_lookback: 2,
        seed_refresh_interval: 80,
        max_bal_lookback: 320,
        num_proposers: 20,
        soft_committee_size: 2990,
        soft_committee_threshold: 2267,
        cert_committee_size: 1500,
        cert_committee_threshold: 1112,
        next_committee_size: 5000,
        next_committee_threshold: 3838,
        late_committee_size: 500,
        late_committee_threshold: 320,
        redo_committee_size: 2400,
        redo_committee_threshold: 1768,
        down_committee_size: 6000,
        down_committee_threshold: 4560,
        agreement_filter_timeout: 4_000_000_000,
        agreement_filter_timeout_period0: 4_000_000_000,
        fast_recovery_lambda: 300_000_000_000,
        payset_commit: PaysetCommitType::PaysetCommitFlat,
        max_timestamp_increment: 25,
        support_signed_txn_in_block: true,
        force_non_participating_fee_sink: false,
        apply_data: true,
        rewards_in_apply_data: false,
        credential_domain_separation_enabled: false,
        support_become_non_participating_transactions: false,
        pending_residue_rewards: false,
        asset: false,
        max_assets_per_account: 0,
        max_asset_name_bytes: 0,
        max_asset_unit_name_bytes: 0,
        max_asset_url_bytes: 0,
        txn_counter: false,
        support_tx_groups: false,
        max_tx_group_size: 1,
        support_transaction_leases: false,
        fix_transaction_leases: false,
        logic_sig_version: 0,
        logic_sig_max_size: 0,
        logic_sig_max_cost: 0,
        max_asset_decimals: 0,
        support_rekeying: false,
        application: false,
        max_app_args: 0,
        max_app_total_arg_len: 0,
        max_app_program_len: 0,
        max_app_total_program_len: 0,
        max_extra_app_program_pages: 0,
        max_app_txn_accounts: 0,
        max_app_txn_foreign_apps: 0,
        max_app_txn_foreign_assets: 0,
        max_app_total_txn_references: 0,
        max_app_program_cost: 0,
        max_app_key_len: 0,
        max_app_bytes_value_len: 0,
        max_app_sum_key_value_lens: 0,
        max_inner_transactions: 0,
        enable_inner_transaction_pooling: false,
        isolate_clear_state: false,
        min_inner_appl_version: 0,
        max_apps_created: 0,
        max_apps_opted_in: 0,
        app_flat_params_min_balance: 0,
        app_flat_opt_in_min_balance: 0,
        schema_min_balance_per_entry: 0,
        schema_uint_min_balance: 0,
        schema_bytes_min_balance: 0,
        max_local_schema_entries: 0,
        max_global_schema_entries: 0,
        maximum_minimum_balance: 0,
        compact_cert_rounds: 0,
        compact_cert_top_voters: 0,
        compact_cert_voters_lookback: 0,
        compact_cert_weight_threshold: 0,
        compact_cert_sec_kq: 0,
        enable_asset_close_amount: false,
        initial_rewards_rate_calculation: false,
        no_empty_local_deltas: false,
        enable_keyreg_coherency_check: false,
        enable_extra_pages_on_app_update: false,
        max_proposed_expired_online_accounts: 0,
        enable_account_data_resource_separation: false,
        enable_batch_verification: false,
        rewards_calculation_fix: false,
        enable_state_proof_keyreg_check: false,
        max_keyreg_valid_period: 0,
        unify_inner_tx_i_ds: false,
        enable_sha256_txn_commitment_header: false,
    }
}

/// The table's record for protocol version v15.
pub open spec fn consensus_v15_abs() -> ParamsAbs {
    ParamsAbs {
        upgrade_vote_rounds: 10000,
        upgrade_threshold: 9000,
        default_upgrade_wait_rounds: 10000,
        min_upgrade_wait_rounds: 0,
        max_upgrade_wait_rounds: 0,
        max_version_string_len: 128,
        max_txn_bytes_per_block: 1000000,
        max_txn_note_bytes: 1024,
        max_txn_life: 1000,
        approved_upgrades: map!["v16"@ => 0u64],
        support_genesis_hash: true,
        require_genesis_hash: false,
        default_key_dilution: 10000,
        min_balance: 100000,
        min_txn_fee: 1000,
        enable_fee_pooling: false,
        enable_app_cost_pooling: false,
        reward_unit: 1_000_000,
        rewards_rate_refresh_interval: 500_000,
        seed_lookback: 2,
        seed_refresh_interval: 80,
        max_bal_lookback: 320,
        num_proposers: 20,
        soft_committee_size: 2990,
        soft_committee_threshold: 2267,
        cert_committee_size: 1500,
        cert_committee_threshold: 1112,
        next_committee_size: 5000,
        next_committee_threshold: 3838,
        late_committee_size: 500,
        late_committee_threshold: 320,
        redo_committee_size: 2400,
        redo_committee_threshold: 1768,
        down_committee_size: 6000,
        down_committee_threshold: 4560,
        agreement_filter_timeout: 4_000_000_000,
        agreement_filter_timeout_period0: 4_000_000_000,
        fast_recovery_lambda: 300_000_000_000,
        payset_commit: PaysetCommitType::PaysetCommitFlat,
        max_timestamp_increment: 25,
        support_signed_txn_in_block: true,
        force_non_participating_fee_sink: true,
        apply_data: true,
        rewards_in_apply_data: true,
        credential_domain_separation_enabled: false,
        support_become_non_participating_transactions: false,
        pending_residue_rewards: false,
        asset: false,
        max_assets_per_account: 0,
        max_asset_name_bytes: 0,
        max_asset_unit_name_bytes: 0,
        max_asset_url_bytes: 0,
        txn_counter: false,
        support_tx_groups: false,
        max_tx_group_size: 1,
        support_transaction_leases: false,
        fix_transaction_leases: false,
        logic_sig_version: 0,
        logic_sig_max_size: 0,
        logic_sig_max_cost: 0,
        max_asset_decimals: 0,
        support_rekeying: false,
        application: false,
        max_app_args: 0,
        max_app_total_arg_len: 0,
        max_app_program_len: 0,
        max_app_total_program_len: 0,
        max_extra_app_program_pages: 0,
        max_app_txn_accounts: 0,
        max_app_txn_foreign_apps: 0,
        max_app_txn_foreign_assets: 0,
        max_app_total_txn_references: 0,
        max_app_program_cost: 0,
        max_app_key_len: 0,
        max_app_bytes_value_len: 0,
        max_app_sum_key_value_lens: 0,
        max_inner_transactions: 0,
        enable_inner_transaction_pooling: false,
        isolate_clear_state: false,
        min_inner_appl_version: 0,
        max_apps_created: 0,
        max_apps_opted_in: 0,
        app_flat_params_min_balance: 0,
        app_flat_opt_in_min_balance: 0,
        schema_min_balance_per_entry: 0,
        schema_uint_min_balance: 0,
        schema_bytes_min_balance: 0,
        max_local_schema_entries: 0,
        max_global_schema_entries: 0,
        maximum_minimum_balance: 0,
        compact_cert_rounds: 0,
        compact_cert_top_voters: 0,
        compact_cert_voters_lookback: 0,
        compact_cert_weight_threshold: 0,
        compact_cert_sec_kq: 0,
        enable_asset_close_amount: false,
        initial_rewards_rate_calculation: false,
        no_empty_local_deltas: false,
        enable_keyreg_coherency_check: false,
        enable_extra_pages_on_app_update: false,
        max_proposed_expired_online_accounts: 0,
        enable_account_data_resource_separation: false,
        enable_batch_verification: false,
        rewards_calculation_fix: false,
        enable_state_proof_keyreg_check: false,
        max_keyreg_valid_period: 0,
        unify_inner_tx_i_ds: false,
        enable_sha256_txn_commitment_header: false,
    }
}

/// The table's record for protocol version v16.
pub open spec fn consensus_v16_abs() -> ParamsAbs {
    ParamsAbs {
        upgrade_vote_rounds: 10000,
        upgrade_threshold: 9000,
        default_upgrade_wait_rounds: 10000,
        min_upgrade_wait_rounds: 0,
        max_upgrade_wait_rounds: 0,
        max_version_string_len: 128,
        max_txn_bytes_per_block: 1000000,
        max_txn_note_bytes: 1024,
        max_txn_life: 1000,
        approved_upgrades: map!["v17"@ => 0u64],
        support_genesis_hash: true,
        require_genesis_hash: true,
        default_key_dilution: 10000,
        min_balance: 100000,
        min_txn_fee: 1000,
        enable_fee_pooling: false,
        enable_app_cost_pooling: false,
        reward_unit: 1_000_000,
        rewards_rate_refresh_interval: 500_000,
        seed_lookback: 2,
        seed_refresh_interval: 80,
        max_bal_lookback: 320,
        num_proposers: 20,
        soft_committee_size: 2990,
        soft_committee_threshold: 2267,
        cert_committee_size: 1500,
        cert_committee_threshold: 1112,
        next_committee_size: 5000,
        next_committee_threshold: 3838,
        late_committee_size: 500,
        late_committee_threshold: 320,
        redo_committee_size: 2400,
        redo_committee_threshold: 1768,
        down_committee_size: 6000,
        down_committee_threshold: 4560,
        agreement_filter_timeout: 4_000_000_000,
        agreement_filter_timeout_period0: 4_000_000_000,
        fast_recovery_lambda: 300_000_000_000,
        payset_commit: PaysetCommitType::PaysetCommitFlat,
        max_timestamp_increment: 25,
        support_signed_txn_in_block: true,
        force_non_participating_fee_sink: true,
        apply_data: true,
        rewards_in_apply_data: true,
        credential_domain_separation_enabled: true,
        support_become_non_participating_transactions: false,
        pending_residue_rewards: false,
        asset: false,
        max_assets_per_account: 0,
        max_asset_name_bytes: 0,
        max_asset_unit_name_bytes: 0,
        max_asset_url_bytes: 0,
        txn_counter: false,
        support_tx_groups: false,
        max_tx_group_size: 1,
        support_transaction_leases: false,
        fix_transaction_leases: false,
        logic_sig_version: 0,
        logic_sig_max_size: 0,
        logic_sig_max_cost: 0,
        max_asset_decimals: 0,
        support_rekeying: false,
        application: false,
        max_app_args: 0,
        max_app_total_arg_len: 0,
        max_app_program_len: 0,
        max_app_total_program_len: 0,
        max_extra_app_program_pages: 0,
        max_app_txn_accounts: 0,
        max_app_txn_foreign_apps: 0,
        max_app_txn_foreign_assets: 0,
        max_app_total_txn_references: 0,
        max_app_program_cost: 0,
        max_app_key_len: 0,
        max_app_bytes_value_len: 0,
        max_app_sum_key_value_lens: 0,
        max_inner_transactions: 0,
        enable_inner_transaction_pooling: false,
        isolate_clear_state: false,
        min_inner_appl_version: 0,
        max_apps_created: 0,
        max_apps_opted_in: 0,
        app_flat_params_min_balance: 0,
        app_flat_opt_in_min_balance: 0,
        schema_min_balance_per_entry: 0,
        schema_uint_min_balance: 0,
        schema_bytes_min_balance: 0,
        max_local_schema_entries: 0,
        max_global_schema_entries: 0,
        maximum_minimum_balance: 0,
        compact_cert_rounds: 0,
        compact_cert_top_voters: 0,
        compact_cert_voters_lookback: 0,
        compact_cert_weight_threshold: 0,
        compact_cert_sec_kq: 0,
        enable_asset_close_amount: false,
        initial_rewards_rate_calculation: false,
        no_empty_local_deltas: false,
        enable_keyreg_coherency_check: false,
        enable_extra_pages_on_app_update: false,
        max_proposed_expired_online_accounts: 0,
        enable_account_data_resource_separation: false,
        enable_batch_verification: false,
        rewards_calculation_fix: false,
        enable_state_proof_keyreg_check: false,
        max_keyreg_valid_period: 0,
        unify_inner_tx_i_ds: false,
        enable_sha256_txn_commitment_header: false,
    }
}

/// The table's record for protocol version v17.
pub open spec fn consensus_v17_abs() -> ParamsAbs {
    ParamsAbs {
        upgrade_vote_rounds: 10000,
        upgrade_threshold: 9000,
        default_upgrade_wait_rounds: 10000,
        min_upgrade_wait_rounds: 0,
        max_upgrade_wait_rounds: 0,
        max_version_string_len: 128,
        max_txn_bytes_per_block: 1000000,
        max_txn_note_bytes: 1024,
        max_txn_life: 1000,
        approved_upgrades: map!["v19"@ => 0u64],
        support_genesis_hash: true,
        require_genesis_hash: true,
        default_key_dilution: 10000,
        min_balance: 100000,
        min_txn_fee: 1000,
        enable_fee_pooling: false,
        enable_app_cost_pooling: false,
        reward_unit: 1_000_000,
        rewards_rate_refresh_interval: 500_000,
        seed_lookback: 2,
        seed_refresh_interval: 80,
        max_bal_lookback: 320,
        num_proposers: 20,
        soft_committee_size: 2990,
        soft_committee_threshold: 2267,
        cert_committee_size: 1500,
        cert_committee_threshold: 1112,
        next_committee_size: 5000,
        next_committee_threshold: 3838,
        late_committee_size: 500,
        late_committee_threshold: 320,
        redo_committee_size: 2400,
        redo_committee_threshold: 1768,
        down_committee_size: 6000,
        down_committee_threshold: 4560,
        agreement_filter_timeout: 4_000_000_000,
        agreement_filter_timeout_period0: 4_000_000_000,
        fast_recovery_lambda: 300_000_000_000,
        payset_commit: PaysetCommitType::PaysetCommitFlat,
        max_timestamp_increment: 25,
        support_signed_txn_in_block: true,
        force_non_participating_fee_sink: true,
        apply_data: true,
        rewards_in_apply_data: true,
        credential_domain_separation_enabled: true,
        support_become_non_participating_transactions: false,
        pending_residue_rewards: false,
        asset: false,
        max_assets_per_account: 0,
        max_asset_name_bytes: 0,
        max_asset_unit_name_bytes: 0,
        max_asset_url_bytes: 0,
        txn_counter: false,
        support_tx_groups: false,
        max_tx_group_size: 1,
        support_transaction_leases: false,
        fix_transaction_leases: false,
        logic_sig_version: 0,
        logic_sig_max_size: 0,
        logic_sig_max_cost: 0,
        max_asset_decimals: 0,
        support_rekeying: false,
        application: false,
        max_app_args: 0,
        max_app_total_arg_len: 0,
        max_app_program_len: 0,
        max_app_total_program_len: 0,
        max_extra_app_program_pages: 0,
        max_app_txn_accounts: 0,
        max_app_txn_foreign_apps: 0,
        max_app_txn_foreign_assets: 0,
        max_app_total_txn_references: 0,
        max_app_program_cost: 0,
        max_app_key_len: 0,
        max_app_bytes_value_len: 0,
        max_app_sum_key_value_lens: 0,
        max_inner_transactions: 0,
        enable_inner_transaction_pooling: false,
        isolate_clear_state: false,
        min_inner_appl_version: 0,
        max_apps_created: 0,
        max_apps_opted_in: 0,
        app_flat_params_min_balance: 0,
        app_flat_opt_in_min_balance: 0,
        schema_min_balance_per_entry: 0,
        schema_uint_min_balance: 0,
        schema_bytes_min_balance: 0,
        max_local_schema_entries: 0,
        max_global_schema_entries: 0,
        maximum_minimum_balance: 0,
        compact_cert_rounds: 0,
        compact_cert_top_voters: 0,
        compact_cert_voters_lookback: 0,
        compact_cert_weight_threshold: 0,
        compact_cert_sec_kq: 0,
        enable_asset_close_amount: false,
        initial_rewards_rate_calculation: false,
        no_empty_local_deltas: false,
        enable_keyreg_coherency_check: false,
        enable_extra_pages_on_app_update: false,
        max_proposed_expired_online_accounts: 0,
        enable_account_data_resource_separation: false,
        enable_batch_verification: false,
        rewards_calculation_fix: false,
        enable_state_proof_keyreg_check: false,
        max_keyreg_valid_period: 0,
        unify_inner_tx_i_ds: false,
        enable_sha256_txn_commitment_header: false,
    }
}

/// The table's record for protocol version v18.
pub open spec fn consensus_v18_abs() -> ParamsAbs {
    ParamsAbs {
        upgrade_vote_rounds: 10000,
        upgrade_threshold: 9000,
        default_upgrade_wait_rounds: 10000,
        min_upgrade_wait_rounds: 0,
        max_upgrade_wait_rounds: 0,
        max_version_string_len: 128,
        max_txn_bytes_per_block: 1000000,
        max_txn_note_bytes: 1024,
        max_txn_life: 1000,
        approved_upgrades: map!["v19"@ => 0u64],
        support_genesis_hash: true,
        require_genesis_hash: true,
        default_key_dilution: 10000,
        min_balance: 100000,
        min_txn_fee: 1000,
        enable_fee_pooling: false,
        enable_app_cost_pooling: false,
        reward_unit: 1_000_000,
        rewards_rate_refresh_interval: 500_000,
        seed_lookback: 2,
        seed_refresh_interval: 80,
        max_bal_lookback: 320,
        num_proposers: 20,
        soft_committee_size: 2990,
        soft_committee_threshold: 2267,
        cert_committee_size: 1500,
        cert_committee_threshold: 1112,
        next_committee_size: 5000,
        next_committee_threshold: 3838,
        late_committee_size: 500,
        late_committee_threshold: 320,
        redo_committee_size: 2400,
        redo_committee_threshold: 1768,
        down_committee_size: 6000,
        down_committee_threshold: 4560,
        agreement_filter_timeout: 4_000_000_000,
        agreement_filter_timeout_period0: 4_000_000_000,
        fast_recovery_lambda: 300_000_000_000,
        payset_commit: PaysetCommitType::PaysetCommitFlat,
        max_timestamp_increment: 25,
        support_signed_txn_in_block: true,
        force_non_participating_fee_sink: true,
        apply_data: true,
        rewards_in_apply_data: true,
        credential_domain_separation_enabled: true,
        support_become_non_participating_transactions: true,
        pending_residue_rewards: true,
        asset: true,
        max_assets_per_account: 1000,
        max_asset_name_bytes: 32,
        max_asset_unit_name_bytes: 8,
        max_asset_url_bytes: 32,
        txn_counter: true,
        support_tx_groups: true,
        max_tx_group_size: 16,
        support_transaction_leases: true,
        fix_transaction_leases: false,
        logic_sig_version: 1,
        logic_sig_max_size: 1000,
        logic_sig_max_cost: 20000,
        max_asset_decimals: 0,
        support_rekeying: false,
        application: false,
        max_app_args: 0,
        max_app_total_arg_len: 0,
        max_app_program_len: 0,
        max_app_total_program_len: 0,
        max_extra_app_program_pages: 0,
        max_app_txn_accounts: 0,
        max_app_txn_foreign_apps: 0,
        max_app_txn_foreign_assets: 0,
        max_app_total_txn_references: 0,
        max_app_program_cost: 0,
        max_app_key_len: 0,
        max_app_bytes_value_len: 0,
        max_app_sum_key_value_lens: 0,
        max_inner_transactions: 0,
        enable_inner_transaction_pooling: false,
        isolate_clear_state: false,
        min_inner_appl_version: 0,
        max_apps_created: 0,
        max_apps_opted_in: 0,
        app_flat_params_min_balance: 0,
        app_flat_opt_in_min_balance: 0,
        schema_min_balance_per_entry: 0,
        schema_uint_min_balance: 0,
        schema_bytes_min_balance: 0,
        max_local_schema_entries: 0,
        max_global_schema_entries: 0,
        maximum_minimum_balance: 0,
        compact_cert_rounds: 0,
        compact_cert_top_voters: 0,
        compact_cert_voters_lookback: 0,
        compact_cert_weight_threshold: 0,
        compact_cert_sec_kq: 0,
        enable_asset_close_amount: false,
        initial_rewards_rate_calculation: false,
        no_empty_local_deltas: false,
        enable_keyreg_coherency_check: false,
        enable_extra_pages_on_app_update: false,
        max_proposed_expired_online_accounts: 0,
        enable_account_data_resource_separation: false,
        enable_batch_verification: false,
        rewards_calculation_fix: false,
        enable_state_proof_keyreg_check: false,
        max_keyreg_valid_period: 0,
        unify_inner_tx_i_ds: false,
        enable_sha256_txn_commitment_header: false,
    }
}

/// The table's record for protocol version v19.
pub open spec fn consensus_v19_abs() -> ParamsAbs {
    ParamsAbs {
        upgrade_vote_rounds: 10000,
        upgrade_threshold: 9000,
        default_upgrade_wait_rounds: 10000,
        min_upgrade_wait_rounds: 0,
        max_upgrade_wait_rounds: 0,
        max_version_string_len: 128,
        max_txn_bytes_per_block: 1000000,
        max_txn_note_bytes: 1024,
        max_txn_life: 1000,
        approved_upgrades: map!["v20"@ => 0u64],
        support_genesis_hash: true,
        require_genesis_hash: true,
        default_key_dilution: 10000,
        min_balance: 100000,
        min_txn_fee: 1000,
        enable_fee_pooling: false,
        enable_app_cost_pooling: false,
        reward_unit: 1_000_000,
        rewards_rate_refresh_interval: 500_000,
        seed_lookback: 2,
        seed_refresh_interval: 80,
        max_bal_lookback: 320,
        num_proposers: 20,
        soft_committee_size: 2990,
        soft_committee_threshold: 2267,
        cert_committee_size: 1500,
        cert_committee_threshold: 1112,
        next_committee_size: 5000,
        next_committee_threshold: 3838,
        late_committee_size: 500,
        late_committee_threshold: 320,
        redo_committee_size: 2400,
        redo_committee_threshold: 1768,
        down_committee_size: 6000,
        down_committee_threshold: 4560,
        agreement_filter_timeout: 4_000_000_000,
        agreement_filter_timeout_period0: 4_000_000_000,
        fast_recovery_lambda: 300_000_000_000,
        payset_commit: PaysetCommitType::PaysetCommitFlat,
        max_timestamp_increment: 25,
        support_signed_txn_in_block: true,
        force_non_participating_fee_sink: true,
        apply_data: true,
        rewards_in_apply_data: true,
        credential_domain_separation_enabled: true,
        support_become_non_participating_transactions: true,
        pending_residue_rewards: true,
        asset: true,
        max_assets_per_account: 1000,
        max_asset_name_bytes: 32,
        max_asset_unit_name_bytes: 8,
        max_asset_url_bytes: 32,
        txn_counter: true,
        support_tx_groups: true,
        max_tx_group_size: 16,
        support_transaction_leases: true,
        fix_transaction_leases: false,
        logic_sig_version: 1,
        logic_sig_max_size: 1000,
        logic_sig_max_cost: 20000,
        max_asset_decimals: 0,
        support_rekeying: false,
        application: false,
        max_app_args: 0,
        max_app_total_arg_len: 0,
        max_app_program_len: 0,
        max_app_total_program_len: 0,
        max_extra_app_program_pages: 0,
        max_app_txn_accounts: 0,
        max_app_txn_foreign_apps: 0,
        max_app_txn_foreign_assets: 0,
        max_app_total_txn_references: 0,
        max_app_program_cost: 0,
        max_app_key_len: 0,
        max_app_bytes_value_len: 0,
        max_app_sum_key_value_lens: 0,
        max_inner_transactions: 0,
        enable_inner_transaction_pooling: false,
        isolate_clear_state: false,
        min_inner_appl_version: 0,
        max_apps_created: 0,
        max_apps_opted_in: 0,
        app_flat_params_min_balance: 0,
        app_flat_opt_in_min_balance: 0,
        schema_min_balance_per_entry: 0,
        schema_uint_min_balance: 0,
        schema_bytes_min_balance: 0,
        max_local_schema_entries: 0,
        max_global_schema_entries: 0,
        maximum_minimum_balance: 0,
        compact_cert_rounds: 0,
        compact_cert_top_voters: 0,
        compact_cert_voters_lookback: 0,
        compact_cert_weight_threshold: 0,
        compact_cert_sec_kq: 0,
        enable_asset_close_amount: false,
        initial_rewards_rate_calculation: false,
        no_empty_local_deltas: false,
        enable_keyreg_coherency_check: false,
        enable_extra_pages_on_app_update: false,
        max_proposed_expired_online_accounts: 0,
        enable_account_data_resource_separation: false,
        enable_batch_verification: false,
        rewards_calculation_fix: false,
        enable_state_proof_keyreg_check: false,
        max_keyreg_valid_period: 0,
        unify_inner_tx_i_ds: false,
        enable_sha256_txn_commitment_header: false,
    }
}

/// The table's record for protocol version v20.
pub open spec fn consensus_v20_abs() -> ParamsAbs {
    ParamsAbs {
        upgrade_vote_rounds: 10000,
        upgrade_threshold: 9000,
        default_upgrade_wait_rounds: 140000,
        min_upgrade_wait_rounds: 0,
        max_upgrade_wait_rounds: 0,
        max_version_string_len: 128,
        max_txn_bytes_per_block: 1000000,
        max_txn_note_bytes: 1024,
        max_txn_life: 1000,
        approved_upgrades: map!["v21"@ => 0u64],
        support_genesis_hash: true,
        require_genesis_hash: true,
        default_key_dilution: 10000,
        min_balance: 100000,
        min_txn_fee: 1000,
        enable_fee_pooling: false,
        enable_app_cost_pooling: false,
        reward_unit: 1_000_000,
        rewards_rate_refresh_interval: 500_000,
        seed_lookback: 2,
        seed_refresh_interval: 80,
        max_bal_lookback: 320,
        num_proposers: 20,
        soft_committee_size: 2990,
        soft_committee_threshold: 2267,
        cert_committee_size: 1500,
        cert_committee_threshold: 1112,
        next_committee_size: 5000,
        next_committee_threshold: 3838,
        late_committee_size: 500,
        late_committee_threshold: 320,
        redo_committee_size: 2400,
        redo_committee_threshold: 1768,
        down_committee_size: 6000,
        down_committee_threshold: 4560,
        agreement_filter_timeout: 4_000_000_000,
        agreement_filter_timeout_period0: 4_000_000_000,
        fast_recovery_lambda: 300_000_000_000,
        payset_commit: PaysetCommitType::PaysetCommitFlat,
        max_timestamp_increment: 25,
        support_signed_txn_in_block: true,
        force_non_participating_fee_sink: true,
        apply_data: true,
        rewards_in_apply_data: true,
        credential_domain_separation_enabled: true,
        support_become_non_participating_transactions: true,
        pending_residue_rewards: true,
        asset: true,
        max_assets_per_account: 1000,
        max_asset_name_bytes: 32,
        max_asset_unit_name_bytes: 8,
        max_asset_url_bytes: 32,
        txn_counter: true,
        support_tx_groups: true,
        max_tx_group_size: 16,
        support_transaction_leases: true,
        fix_transaction_leases: false,
        logic_sig_version: 1,
        logic_sig_max_size: 1000,
        logic_sig_max_cost: 20000,
        max_asset_decimals: 19,
        support_rekeying: false,
        application: false,
        max_app_args: 0,
        max_app_total_arg_len: 0,
        max_app_program_len: 0,
        max_app_total_program_len: 0,
        max_extra_app_program_pages: 0,
        max_app_txn_accounts: 0,
        max_app_txn_foreign_apps: 0,
        max_app_txn_foreign_assets: 0,
        max_app_total_txn_references: 0,
        max_app_program_cost: 0,
        max_app_key_len: 0,
        max_app_bytes_value_len: 0,
        max_app_sum_key_value_lens: 0,
        max_inner_transactions: 0,
        enable_inner_transaction_pooling: false,
        isolate_clear_state: false,
        min_inner_appl_version: 0,
        max_apps_created: 0,
        max_apps_opted_in: 0,
        app_flat_params_min_balance: 0,
        app_flat_opt_in_min_balance: 0,
        schema_min_balance_per_entry: 0,
        schema_uint_min_balance: 0,
        schema_bytes_min_balance: 0,
        max_local_schema_entries: 0,
        max_global_schema_entries: 0,
        maximum_minimum_balance: 0,
        compact_cert_rounds: 0,
        compact_cert_top_voters: 0,
        compact_cert_voters_lookback: 0,
        compact_cert_weight_threshold: 0,
        compact_cert_sec_kq: 0,
        enable_asset_close_amount: false,
        initial_rewards_rate_calculation: false,
        no_empty_local_deltas: false,
        enable_keyreg_coherency_check: false,
        enable_extra_pages_on_app_update: false,
        max_proposed_expired_online_accounts: 0,
        enable_account_data_resource_separation: false,
        enable_batch_verification: false,
        rewards_calculation_fix: false,
        enable_state_proof_keyreg_check: false,
        max_keyreg_valid_period: 0,
        unify_inner_tx_i_ds: false,
        enable_sha256_txn_commitment_header: false,
    }
}

/// The table's record for protocol version v21.
pub open spec fn consensus_v21_abs() -> ParamsAbs {
    ParamsAbs {
        upgrade_vote_rounds: 10000,
        upgrade_threshold: 9000,
        default_upgrade_wait_rounds: 140000,
        min_upgrade_wait_rounds: 0,
        max_upgrade_wait_rounds: 0,
        max_version_string_len: 128,
        max_txn_bytes_per_block: 1000000,
        max_txn_note_bytes: 1024,
        max_txn_life: 1000,
        approved_upgrades: map!["v23"@ => 0u64],
        support_genesis_hash: true,
        require_genesis_hash: true,
        default_key_dilution: 10000,
        min_balance: 100000,
        min_txn_fee: 1000,
        enable_fee_pooling: false,
        enable_app_cost_pooling: false,
        reward_unit: 1_000_000,
        rewards_rate_refresh_interval: 500_000,
        seed_lookback: 2,
        seed_refresh_interval: 80,
        max_bal_lookback: 320,
        num_proposers: 20,
        soft_committee_size: 2990,
        soft_committee_threshold: 2267,
        cert_committee_size: 1500,
        cert_committee_threshold: 1112,
        next_committee_size: 5000,
        next_committee_threshold: 3838,
        late_committee_size: 500,
        late_committee_threshold: 320,
        redo_committee_size: 2400,
        redo_committee_threshold: 1768,
        down_committee_size: 6000,
        down_committee_threshold: 4560,
        agreement_filter_timeout: 4_000_000_000,
        agreement_filter_timeout_period0: 4_000_000_000,
        fast_recovery_lambda: 300_000_000_000,
        payset_commit: PaysetCommitType::PaysetCommitFlat,
        max_timestamp_increment: 25,
        support_signed_txn_in_block: true,
        force_non_participating_fee_sink: true,
        apply_data: true,
        rewards_in_apply_data: true,
        credential_domain_separation_enabled: true,
        support_become_non_participating_transactions: true,
        pending_residue_rewards: true,
        asset: true,
        max_assets_per_account: 1000,
        max_asset_name_bytes: 32,
        max_asset_unit_name_bytes: 8,
        max_asset_url_bytes: 32,
        txn_counter: true,
        support_tx_groups: true,
        max_tx_group_size: 16,
        support_transaction_leases: true,
        fix_transaction_leases: false,
        logic_sig_version: 1,
        logic_sig_max_size: 1000,
        logic_sig_max_cost: 20000,
        max_asset_decimals: 19,
        support_rekeying: false,
        application: false,
        max_app_args: 0,
        max_app_total_arg_len: 0,
        max_app_program_len: 0,
        max_app_total_program_len: 0,
        max_extra_app_program_pages: 0,
        max_app_txn_accounts: 0,
        max_app_txn_foreign_apps: 0,
        max_app_txn_foreign_assets: 0,
        max_app_total_txn_references: 0,
        max_app_program_cost: 0,
        max_app_key_len: 0,
        max_app_bytes_value_len: 0,
        max_app_sum_key_value_lens: 0,
        max_inner_transactions: 0,
        enable_inner_transaction_pooling: false,
        isolate_clear_state: false,
        min_inner_appl_version: 0,
        max_apps_created: 0,
        max_apps_opted_in: 0,
        app_flat_params_min_balance: 0,
        app_flat_opt_in_min_balance: 0,
        schema_min_balance_per_entry: 0,
        schema_uint_min_balance: 0,
        schema_bytes_min_balance: 0,
        max_local_schema_entries: 0,
        max_global_schema_entries: 0,
        maximum_minimum_balance: 0,
        compact_cert_rounds: 0,
        compact_cert_top_voters: 0,
        compact_cert_voters_lookback: 0,
        compact_cert_weight_threshold: 0,
        compact_cert_sec_kq: 0,
        enable_asset_close_amount: false,
        initial_rewards_rate_calculation: false,
        no_empty_local_deltas: false,
        enable_keyreg_coherency_check: false,
        enable_extra_pages_on_app_update: false,
        max_proposed_expired_online_accounts: 0,
        enable_account_data_resource_separation: false,
        enable_batch_verification: false,
        rewards_calculation_fix: false,
        enable_state_proof_keyreg_check: false,
        max_keyreg_valid_period: 0,
        unify_inner_tx_i_ds: false,
        enable_sha256_txn_commitment_header: false,
    }
}

/// The table's record for protocol version v22.
pub open spec fn consensus_v22_abs() -> ParamsAbs {
    ParamsAbs {
        upgrade_vote_rounds: 10000,
        upgrade_threshold: 9000,
        default_upgrade_wait_rounds: 140000,
        min_upgrade_wait_rounds: 10000,
        max_upgrade_wait_rounds: 150000,
        max_version_string_len: 128,
        max_txn_bytes_per_block: 1000000,
        max_txn_note_bytes: 1024,
        max_txn_life: 1000,
        approved_upgrades: map!["v23"@ => 10000u64],
        support_genesis_hash: true,
        require_genesis_hash: true,
        default_key_dilution: 10000,
        min_balance: 100000,
        min_txn_fee: 1000,
        enable_fee_pooling: false,
        enable_app_cost_pooling: false,
        reward_unit: 1_000_000,
        rewards_rate_refresh_interval: 500_000,
        seed_lookback: 2,
        seed_refresh_interval: 80,
        max_bal_lookback: 320,
        num_proposers: 20,
        soft_committee_size: 2990,
        soft_committee_threshold: 2267,
        cert_committee_size: 1500,
        cert_committee_threshold: 1112,
        next_committee_size: 5000,
        next_committee_threshold: 3838,
        late_committee_size: 500,
        late_committee_threshold: 320,
        redo_committee_size: 2400,
        redo_committee_threshold: 1768,
        down_committee_size: 6000,
        down_committee_threshold: 4560,
        agreement_filter_timeout: 4_000_000_000,
        agreement_filter_timeout_period0: 4_000_000_000,
        fast_recovery_lambda: 300_000_000_000,
        payset_commit: PaysetCommitType::PaysetCommitFlat,
        max_timestamp_increment: 25,
        support_signed_txn_in_block: true,
        force_non_participating_fee_sink: true,
        apply_data: true,
        rewards_in_apply_data: true,
        credential_domain_separation_enabled: true,
        support_become_non_participating_transactions: true,
        pending_residue_rewards: true,
        asset: true,
        max_assets_per_account: 1000,
        max_asset_name_bytes: 32,
        max_asset_unit_name_bytes: 8,
        max_asset_url_bytes: 32,
        txn_counter: true,
        support_tx_groups: true,
        max_tx_group_size: 16,
        support_transaction_leases: true,
        fix_transaction_leases: false,
        logic_sig_version: 1,
        logic_sig_max_size: 1000,
        logic_sig_max_cost: 20000,
        max_asset_decimals: 19,
        support_rekeying: false,
        application: false,
        max_app_args: 0,
        max_app_total_arg_len: 0,
        max_app_program_len: 0,
        max_app_total_program_len: 0,
        max_extra_app_program_pages: 0,
        max_app_txn_accounts: 0,
        max_app_txn_foreign_apps: 0,
        max_app_txn_foreign_assets: 0,
        max_app_total_txn_references: 0,
        max_app_program_cost: 0,
        max_app_key_len: 0,
        max_app_bytes_value_len: 0,
        max_app_sum_key_value_lens: 0,
        max_inner_transactions: 0,
        enable_inner_transaction_pooling: false,
        isolate_clear_state: false,
        min_inner_appl_version: 0,
        max_apps_created: 0,
        max_apps_opted_in: 0,
        app_flat_params_min_balance: 0,
        app_flat_opt_in_min_balance: 0,
        schema_min_balance_per_entry: 0,
        schema_uint_min_balance: 0,
        schema_bytes_min_balance: 0,
        max_local_schema_entries: 0,
        max_global_schema_entries: 0,
        maximum_minimum_balance: 0,
        compact_cert_rounds: 0,
        compact_cert_top_voters: 0,
        compact_cert_voters_lookback: 0,
        compact_cert_weight_threshold: 0,
        compact_cert_sec_kq: 0,
        enable_asset_close_amount: false,
        initial_rewards_rate_calculation: false,
        no_empty_local_deltas: false,
        enable_keyreg_coherency_check: false,
        enable_extra_pages_on_app_update: false,
        max_proposed_expired_online_accounts: 0,
        enable_account_data_resource_separation: false,
        enable_batch_verification: false,
        rewards_calculation_fix: false,
        enable_state_proof_keyreg_check: false,
        max_keyreg_valid_period: 0,
        unify_inner_tx_i_ds: false,
        enable_sha256_txn_commitment_header: false,
    }
}

/// The table's record for protocol version v23.
pub open spec fn consensus_v23_abs() -> ParamsAbs {
    ParamsAbs {
        upgrade_vote_rounds: 10000,
        upgrade_threshold: 9000,
        default_upgrade_wait_rounds: 140000,
        min_upgrade_wait_rounds: 10000,
        max_upgrade_wait_rounds: 150000,
        max_version_string_len: 128,
        max_txn_bytes_per_block: 1000000,
        max_txn_note_bytes: 1024,
        max_txn_life: 1000,
        approved_upgrades: map!["v24"@ => 1400000u64],
        support_genesis_hash: true,
        require_genesis_hash: true,
        default_key_dilution: 10000,
        min_balance: 100000,
        min_txn_fee: 1000,
        enable_fee_pooling: false,
        enable_app_cost_pooling: false,
        reward_unit: 1_000_000,
        rewards_rate_refresh_interval: 500_000,
        seed_lookback: 2,
        seed_refresh_interval: 80,
        max_bal_lookback: 320,
        num_proposers: 20,
        soft_committee_size: 2990,
        soft_committee_threshold: 2267,
        cert_committee_size: 1500,
        cert_committee_threshold: 1112,
        next_committee_size: 5000,
        next_committee_threshold: 3838,
        late_committee_size: 500,
        late_committee_threshold: 320,
        redo_committee_size: 2400,
        redo_committee_threshold: 1768,
        down_committee_size: 6000,
        down_committee_threshold: 4560,
        agreement_filter_timeout: 4_000_000_000,
        agreement_filter_timeout_period0: 4_000_000_000,
        fast_recovery_lambda: 300_000_000_000,
        payset_commit: PaysetCommitType::PaysetCommitFlat,
        max_timestamp_increment: 25,
        support_signed_txn_in_block: true,
        force_non_participating_fee_sink: true,
        apply_data: true,
        rewards_in_apply_data: true,
        credential_domain_separation_enabled: true,
        support_become_non_participating_transactions: true,
        pending_residue_rewards: true,
        asset: true,
        max_assets_per_account: 1000,
        max_asset_name_bytes: 32,
        max_asset_unit_name_bytes: 8,
        max_asset_url_bytes: 32,
        txn_counter: true,
        support_tx_groups: true,
        max_tx_group_size: 16,
        support_transaction_leases: true,
        fix_transaction_leases: true,
        logic_sig_version: 1,
        logic_sig_max_size: 1000,
        logic_sig_max_cost: 20000,
        max_asset_decimals: 19,
        support_rekeying: false,
        application: false,
        max_app_args: 0,
        max_app_total_arg_len: 0,
        max_app_program_len: 0,
        max_app_total_program_len: 0,
        max_extra_app_program_pages: 0,
        max_app_txn_accounts: 0,
        max_app_txn_foreign_apps: 0,
        max_app_txn_foreign_assets: 0,
        max_app_total_txn_references: 0,
        max_app_program_cost: 0,
        max_app_key_len: 0,
        max_app_bytes_value_len: 0,
        max_app_sum_key_value_lens: 0,
        max_inner_transactions: 0,
        enable_inner_transaction_pooling: false,
        isolate_clear_state: false,
        min_inner_appl_version: 0,
        max_apps_created: 0,
        max_apps_opted_in: 0,
        app_flat_params_min_balance: 0,
        app_flat_opt_in_min_balance: 0,
        schema_min_balance_per_entry: 0,
        schema_uint_min_balance: 0,
        schema_bytes_min_balance: 0,
        max_local_schema_entries: 0,
        max_global_schema_entries: 0,
        maximum_minimum_balance: 0,
        compact_cert_rounds: 0,
        compact_cert_top_voters: 0,
        compact_cert_voters_lookback: 0,
        compact_cert_weight_threshold: 0,
        compact_cert_sec_kq: 0,
        enable_asset_close_amount: false,
        initial_rewards_rate_calculation: false,
        no_empty_local_deltas: false,
        enable_keyreg_coherency_check: false,
        enable_extra_pages_on_app_update: false,
        max_proposed_expired_online_accounts: 0,
        enable_account_data_resource_separation: false,
        enable_batch_verification: false,
        rewards_calculation_fix: false,
        enable_state_proof_keyreg_check: false,
        max_keyreg_valid_period: 0,
        unify_inner_tx_i_ds: false,
        enable_sha256_txn_commitment_header: false,
    }
}

/// The table's record for protocol version v24.
pub open spec fn consensus_v24_abs() -> ParamsAbs {
    ParamsAbs {
        upgrade_vote_rounds: 10000,
        upgrade_threshold: 9000,
        default_upgrade_wait_rounds: 140000,
        min_upgrade_wait_rounds: 10000,
        max_upgrade_wait_rounds: 150000,
        max_version_string_len: 128,
        max_txn_bytes_per_block: 1000000,
        max_txn_note_bytes: 1024,
        max_txn_life: 1000,
        approved_upgrades: map!["v26"@ => 140000u64],
        support_genesis_hash: true,
        require_genesis_hash: true,
        default_key_dilution: 10000,
        min_balance: 100000,
        min_txn_fee: 1000,
        enable_fee_pooling: false,
        enable_app_cost_pooling: false,
        reward_unit: 1_000_000,
        rewards_rate_refresh_interval: 500_000,
        seed_lookback: 2,
        seed_refresh_interval: 80,
        max_bal_lookback: 320,
        num_proposers: 20,
        soft_committee_size: 2990,
        soft_committee_threshold: 2267,
        cert_committee_size: 1500,
        cert_committee_threshold: 1112,
        next_committee_size: 5000,
        next_committee_threshold: 3838,
        late_committee_size: 500,
        late_committee_threshold: 320,
        redo_committee_size: 2400,
        redo_committee_threshold: 1768,
        down_committee_size: 6000,
        down_committee_threshold: 4560,
        agreement_filter_timeout: 4_000_000_000,
        agreement_filter_timeout_period0: 4_000_000_000,
        fast_recovery_lambda: 300_000_000_000,
        payset_commit: PaysetCommitType::PaysetCommitFlat,
        max_timestamp_increment: 25,
        support_signed_txn_in_block: true,
        force_non_participating_fee_sink: true,
        apply_data: true,
        rewards_in_apply_data: true,
        credential_domain_separation_enabled: true,
        support_become_non_participating_transactions: true,
        pending_residue_rewards: true,
        asset: true,
        max_assets_per_account: 1000,
        max_asset_name_bytes: 32,
        max_asset_unit_name_bytes: 8,
        max_asset_url_bytes: 32,
        txn_counter: true,
        support_tx_groups: true,
        max_tx_group_size: 16,
        support_transaction_leases: true,
        fix_transaction_leases: true,
        logic_sig_version: 2,
        logic_sig_max_size: 1000,
        logic_sig_max_cost: 20000,
        max_asset_decimals: 19,
        support_rekeying: true,
        application: true,
        max_app_args: 16,
        max_app_total_arg_len: 2048,
        max_app_program_len: 1024,
        max_app_total_program_len: 2048,
        max_extra_app_program_pages: 0,
        max_app_txn_accounts: 4,
        max_app_txn_foreign_apps: 2,
        max_app_txn_foreign_assets: 2,
        max_app_total_txn_references: 8,
        max_app_program_cost: 700,
        max_app_key_len: 64,
        max_app_bytes_value_len: 64,
        max_app_sum_key_value_lens: 128,
        max_inner_transactions: 0,
        enable_inner_transaction_pooling: false,
        isolate_clear_state: false,
        min_inner_appl_version: 6,
        max_apps_created: 10,
        max_apps_opted_in: 10,
        app_flat_params_min_balance: 100000,
        app_flat_opt_in_min_balance: 100000,
        schema_min_balance_per_entry: 25000,
        schema_uint_min_balance: 3500,
        schema_bytes_min_balance: 25000,
        max_local_schema_entries: 16,
        max_global_schema_entries: 64,
        maximum_minimum_balance: 100100000,
        compact_cert_rounds: 0,
        compact_cert_top_voters: 0,
        compact_cert_voters_lookback: 0,
        compact_cert_weight_threshold: 0,
        compact_cert_sec_kq: 0,
        enable_asset_close_amount: false,
        initial_rewards_rate_calculation: false,
        no_empty_local_deltas: false,
        enable_keyreg_coherency_check: false,
        enable_extra_pages_on_app_update: false,
        max_proposed_expired_online_accounts: 0,
        enable_account_data_resource_separation: false,
        enable_batch_verification: false,
        rewards_calculation_fix: false,
        enable_state_proof_keyreg_check: false,
        max_keyreg_valid_period: 0,
        unify_inner_tx_i_ds: false,
        enable_sha256_txn_commitment_header: false,
    }
}

/// The table's record for protocol version v25.
pub open spec fn consensus_v25_abs() -> ParamsAbs {
    ParamsAbs {
        upgrade_vote_rounds: 10000,
        upgrade_threshold: 9000,
        default_upgrade_wait_rounds: 140000,
        min_upgrade_wait_rounds: 10000,
        max_upgrade_wait_rounds: 150000,
        max_version_string_len: 128,
        max_txn_bytes_per_block: 1000000,
        max_txn_note_bytes: 1024,
        max_txn_life: 1000,
        approved_upgrades: map!["v26"@ => 140000u64],
        support_genesis_hash: true,
        require_genesis_hash: true,
        default_key_dilution: 10000,
        min_balance: 100000,
        min_txn_fee: 1000,
        enable_fee_pooling: false,
        enable_app_cost_pooling: false,
        reward_unit: 1_000_000,
        rewards_rate_refresh_interval: 500_000,
        seed_lookback: 2,
        seed_refresh_interval: 80,
        max_bal_lookback: 320,
        num_proposers: 20,
        soft_committee_size: 2990,
        soft_committee_threshold: 2267,
        cert_committee_size: 1500,
        cert_committee_threshold: 1112,
        next_committee_size: 5000,
        next_committee_threshold: 3838,
        late_committee_size: 500,
        late_committee_threshold: 320,
        redo_committee_size: 2400,
        redo_committee_threshold: 1768,
        down_committee_size: 6000,
        down_committee_threshold: 4560,
        agreement_filter_timeout: 4_000_000_000,
        agreement_filter_timeout_period0: 4_000_000_000,
        fast_recovery_lambda: 300_000_000_000,
        payset_commit: PaysetCommitType::PaysetCommitFlat,
        max_timestamp_increment: 25,
        support_signed_txn_in_block: true,
        force_non_participating_fee_sink: true,
        apply_data: true,
        rewards_in_apply_data: true,
        credential_domain_separation_enabled: true,
        support_become_non_participating_transactions: true,
        pending_residue_rewards: true,
        asset: true,
        max_assets_per_account: 1000,
        max_asset_name_bytes: 32,
        max_asset_unit_name_bytes: 8,
        max_asset_url_bytes: 32,
        txn_counter: true,
        support_tx_groups: true,
        max_tx_group_size: 16,
        support_transaction_leases: true,
        fix_transaction_leases: true,
        logic_sig_version: 2,
        logic_sig_max_size: 1000,
        logic_sig_max_cost: 20000,
        max_asset_decimals: 19,
        support_rekeying: true,
        application: true,
        max_app_args: 16,
        max_app_total_arg_len: 2048,
        max_app_program_len: 1024,
        max_app_total_program_len: 2048,
        max_extra_app_program_pages: 0,
        max_app_txn_accounts: 4,
        max_app_txn_foreign_apps: 2,
        max_app_txn_foreign_assets: 2,
        max_app_total_txn_references: 8,
        max_app_program_cost: 700,
        max_app_key_len: 64,
        max_app_bytes_value_len: 64,
        max_app_sum_key_value_lens: 128,
        max_inner_transactions: 0,
        enable_inner_transaction_pooling: false,
        isolate_clear_state: false,
        min_inner_appl_version: 6,
        max_apps_created: 10,
        max_apps_opted_in: 10,
        app_flat_params_min_balance: 100000,
        app_flat_opt_in_min_balance: 100000,
        schema_min_balance_per_entry: 25000,
        schema_uint_min_balance: 3500,
        schema_bytes_min_balance: 25000,
        max_local_schema_entries: 16,
        max_global_schema_entries: 64,
        maximum_minimum_balance: 100100000,
        compact_cert_rounds: 0,
        compact_cert_top_voters: 0,
        compact_cert_voters_lookback: 0,
        compact_cert_weight_threshold: 0,
        compact_cert_sec_kq: 0,
        enable_asset_close_amount: true,
        initial_rewards_rate_calculation: false,
        no_empty_local_deltas: false,
        enable_keyreg_coherency_check: false,
        enable_extra_pages_on_app_update: false,
        max_proposed_expired_online_accounts: 0,
        enable_account_data_resource_separation: false,
        enable_batch_verification: false,
        rewards_calculation_fix: false,
        enable_state_proof_keyreg_check: false,
        max_keyreg_valid_period: 0,
        unify_inner_tx_i_ds: false,
        enable_sha256_txn_commitment_header: false,
    }
}

/// The table's record for protocol version v26.
pub open spec fn consensus_v26_abs() -> ParamsAbs {
    ParamsAbs {
        upgrade_vote_rounds: 10000,
        upgrade_threshold: 9000,
        default_upgrade_wait_rounds: 140000,
        min_upgrade_wait_rounds: 10000,
        max_upgrade_wait_rounds: 150000,
        max_version_string_len: 128,
        max_txn_bytes_per_block: 1000000,
        max_txn_note_bytes: 1024,
        max_txn_life: 1000,
        approved_upgrades: map!["v27"@ => 60000u64],
        support_genesis_hash: true,
        require_genesis_hash: true,
        default_key_dilution: 10000,
        min_balance: 100000,
        min_txn_fee: 1000,
        enable_fee_pooling: false,
        enable_app_cost_pooling: false,
        reward_unit: 1_000_000,
        rewards_rate_refresh_interval: 500_000,
        seed_lookback: 2,
        seed_refresh_interval: 80,
        max_bal_lookback: 320,
        num_proposers: 20,
        soft_committee_size: 2990,
        soft_committee_threshold: 2267,
        cert_committee_size: 1500,
        cert_committee_threshold: 1112,
        next_committee_size: 5000,
        next_committee_threshold: 3838,
        late_committee_size: 500,
        late_committee_threshold: 320,
        redo_committee_size: 2400,
        redo_committee_threshold: 1768,
        down_committee_size: 6000,
        down_committee_threshold: 4560,
        agreement_filter_timeout: 4_000_000_000,
        agreement_filter_timeout_period0: 4_000_000_000,
        fast_recovery_lambda: 300_000_000_000,
        payset_commit: PaysetCommitType::PaysetCommitMerkle,
        max_timestamp_increment: 25,
        support_signed_txn_in_block: true,
        force_non_participating_fee_sink: true,
        apply_data: true,
        rewards_in_apply_data: true,
        credential_domain_separation_enabled: true,
        support_become_non_participating_transactions: true,
        pending_residue_rewards: true,
        asset: true,
        max_assets_per_account: 1000,
        max_asset_name_bytes: 32,
        max_asset_unit_name_bytes: 8,
        max_asset_url_bytes: 32,
        txn_counter: true,
        support_tx_groups: true,
        max_tx_group_size: 16,
        support_transaction_leases: true,
        fix_transaction_leases: true,
        logic_sig_version: 3,
        logic_sig_max_size: 1000,
        logic_sig_max_cost: 20000,
        max_asset_decimals: 19,
        support_rekeying: true,
        application: true,
        max_app_args: 16,
        max_app_total_arg_len: 2048,
        max_app_program_len: 1024,
        max_app_total_program_len: 2048,
        max_extra_app_program_pages: 0,
        max_app_txn_accounts: 4,
        max_app_txn_foreign_apps: 2,
        max_app_txn_foreign_assets: 2,
        max_app_total_txn_references: 8,
        max_app_program_cost: 700,
        max_app_key_len: 64,
        max_app_bytes_value_len: 64,
        max_app_sum_key_value_lens: 128,
        max_inner_transactions: 0,
        enable_inner_transaction_pooling: false,
        isolate_clear_state: false,
        min_inner_appl_version: 6,
        max_apps_created: 10,
        max_apps_opted_in: 10,
        app_flat_params_min_balance: 100000,
        app_flat_opt_in_min_balance: 100000,
        schema_min_balance_per_entry: 25000,
        schema_uint_min_balance: 3500,
        schema_bytes_min_balance: 25000,
        max_local_schema_entries: 16,
        max_global_schema_entries: 64,
        maximum_minimum_balance: 100100000,
        compact_cert_rounds: 0,
        compact_cert_top_voters: 0,
        compact_cert_voters_lookback: 0,
        compact_cert_weight_threshold: 0,
        compact_cert_sec_kq: 0,
        enable_asset_close_amount: true,
        initial_rewards_rate_calculation: true,
        no_empty_local_deltas: false,
        enable_keyreg_coherency_check: false,
        enable_extra_pages_on_app_update: false,
        max_proposed_expired_online_accounts: 0,
        enable_account_data_resource_separation: false,
        enable_batch_verification: false,
        rewards_calculation_fix: false,
        enable_state_proof_keyreg_check: false,
        max_keyreg_valid_period: 0,
        unify_inner_tx_i_ds: false,
        enable_sha256_txn_commitment_header: false,
    }
}

/// The table's record for protocol version v27.
pub open spec fn consensus_v27_abs() -> ParamsAbs {
    ParamsAbs {
        upgrade_vote_rounds: 10000,
        upgrade_threshold: 9000,
        default_upgrade_wait_rounds: 140000,
        min_upgrade_wait_rounds: 10000,
        max_upgrade_wait_rounds: 150000,
        max_version_string_len: 128,
        max_txn_bytes_per_block: 1000000,
        max_txn_note_bytes: 1024,
        max_txn_life: 1000,
        approved_upgrades: map!["v28"@ => 140000u64],
        support_genesis_hash: true,
        require_genesis_hash: true,
        default_key_dilution: 10000,
        min_balance: 100000,
        min_txn_fee: 1000,
        enable_fee_pooling: false,
        enable_app_cost_pooling: false,
        reward_unit: 1_000_000,
        rewards_rate_refresh_interval: 500_000,
        seed_lookback: 2,
        seed_refresh_interval: 80,
        max_bal_lookback: 320,
        num_proposers: 20,
        soft_committee_size: 2990,
        soft_committee_threshold: 2267,
        cert_committee_size: 1500,
        cert_committee_threshold: 1112,
        next_committee_size: 5000,
        next_committee_threshold: 3838,
        late_committee_size: 500,
        late_committee_threshold: 320,
        redo_committee_size: 2400,
        redo_committee_threshold: 1768,
        down_committee_size: 6000,
        down_committee_threshold: 4560,
        agreement_filter_timeout: 4_000_000_000,
        agreement_filter_timeout_period0: 4_000_000_000,
        fast_recovery_lambda: 300_000_000_000,
        payset_commit: PaysetCommitType::PaysetCommitMerkle,
        max_timestamp_increment: 25,
        support_signed_txn_in_block: true,
        force_non_participating_fee_sink: true,
        apply_data: true,
        rewards_in_apply_data: true,
        credential_domain_separation_enabled: true,
        support_become_non_participating_transactions: true,
        pending_residue_rewards: true,
        asset: true,
        max_assets_per_account: 1000,
        max_asset_name_bytes: 32,
        max_asset_unit_name_bytes: 8,
        max_asset_url_bytes: 32,
        txn_counter: true,
        support_tx_groups: true,
        max_tx_group_size: 16,
        support_transaction_leases: true,
        fix_transaction_leases: true,
        logic_sig_version: 3,
        logic_sig_max_size: 1000,
        logic_sig_max_cost: 20000,
        max_asset_decimals: 19,
        support_rekeying: true,
        application: true,
        max_app_args: 16,
        max_app_total_arg_len: 2048,
        max_app_program_len: 1024,
        max_app_total_program_len: 2048,
        max_extra_app_program_pages: 0,
        max_app_txn_accounts: 4,
        max_app_txn_foreign_apps: 2,
        max_app_txn_foreign_assets: 2,
        max_app_total_txn_references: 8,
        max_app_program_cost: 700,
        max_app_key_len: 64,
        max_app_bytes_value_len: 64,
        max_app_sum_key_value_lens: 128,
        max_inner_transactions: 0,
        enable_inner_transaction_pooling: false,
        isolate_clear_state: false,
        min_inner_appl_version: 6,
        max_apps_created: 10,
        max_apps_opted_in: 10,
        app_flat_params_min_balance: 100000,
        app_flat_opt_in_min_balance: 100000,
        schema_min_balance_per_entry: 25000,
        schema_uint_min_balance: 3500,
        schema_bytes_min_balance: 25000,
        max_local_schema_entries: 16,
        max_global_schema_entries: 64,
        maximum_minimum_balance: 100100000,
        compact_cert_rounds: 0,
        compact_cert_top_voters: 0,
        compact_cert_voters_lookback: 0,
        compact_cert_weight_threshold: 0,
        compact_cert_sec_kq: 0,
        enable_asset_close_amount: true,
        initial_rewards_rate_calculation: true,
        no_empty_local_deltas: true,
        enable_keyreg_coherency_check: false,
        enable_extra_pages_on_app_update: false,
        max_proposed_expired_online_accounts: 0,
        enable_account_data_resource_separation: false,
        enable_batch_verification: false,
        rewards_calculation_fix: false,
        enable_state_proof_keyreg_check: false,
        max_keyreg_valid_period: 0,
        unify_inner_tx_i_ds: false,
        enable_sha256_txn_commitment_header: false,
    }
}

/// The table's record for protocol version v28.
pub open spec fn consensus_v28_abs() -> ParamsAbs {
    ParamsAbs {
        upgrade_vote_rounds: 10000,
        upgrade_threshold: 9000,
        default_upgrade_wait_rounds: 140000,
        min_upgrade_wait_rounds: 10000,
        max_upgrade_wait_rounds: 150000,
        max_version_string_len: 128,
        max_txn_bytes_per_block: 1000000,
        max_txn_note_bytes: 1024,
        max_txn_life: 1000,
        approved_upgrades: map!["v29"@ => 60000u64],
        support_genesis_hash: true,
        require_genesis_hash: true,
        default_key_dilution: 10000,
        min_balance: 100000,
        min_txn_fee: 1000,
        enable_fee_pooling: true,
        enable_app_cost_pooling: false,
        reward_unit: 1_000_000,
        rewards_rate_refresh_interval: 500_000,
        seed_lookback: 2,
        seed_refresh_interval: 80,
        max_bal_lookback: 320,
        num_proposers: 20,
        soft_committee_size: 2990,
        soft_committee_threshold: 2267,
        cert_committee_size: 1500,
        cert_committee_threshold: 1112,
        next_committee_size: 5000,
        next_committee_threshold: 3838,
        late_committee_size: 500,
        late_committee_threshold: 320,
        redo_committee_size: 2400,
        redo_committee_threshold: 1768,
        down_committee_size: 6000,
        down_committee_threshold: 4560,
        agreement_filter_timeout: 4_000_000_000,
        agreement_filter_timeout_period0: 4_000_000_000,
        fast_recovery_lambda: 300_000_000_000,
        payset_commit: PaysetCommitType::PaysetCommitMerkle,
        max_timestamp_increment: 25,
        support_signed_txn_in_block: true,
        force_non_participating_fee_sink: true,
        apply_data: true,
        rewards_in_apply_data: true,
        credential_domain_separation_enabled: true,
        support_become_non_participating_transactions: true,
        pending_residue_rewards: true,
        asset: true,
        max_assets_per_account: 1000,
        max_asset_name_bytes: 32,
        max_asset_unit_name_bytes: 8,
        max_asset_url_bytes: 96,
        txn_counter: true,
        support_tx_groups: true,
        max_tx_group_size: 16,
        support_transaction_leases: true,
        fix_transaction_leases: true,
        logic_sig_version: 4,
        logic_sig_max_size: 1000,
        logic_sig_max_cost: 20000,
        max_asset_decimals: 19,
        support_rekeying: true,
        application: true,
        max_app_args: 16,
        max_app_total_arg_len: 2048,
        max_app_program_len: 2048,
        max_app_total_program_len: 2048,
        max_extra_app_program_pages: 3,
        max_app_txn_accounts: 4,
        max_app_txn_foreign_apps: 8,
        max_app_txn_foreign_assets: 8,
        max_app_total_txn_references: 8,
        max_app_program_cost: 700,
        max_app_key_len: 64,
        max_app_bytes_value_len: 128,
        max_app_sum_key_value_lens: 128,
        max_inner_transactions: 0,
        enable_inner_transaction_pooling: false,
        isolate_clear_state: false,
        min_inner_appl_version: 6,
        max_apps_created: 10,
        max_apps_opted_in: 10,
        app_flat_params_min_balance: 100000,
        app_flat_opt_in_min_balance: 100000,
        schema_min_balance_per_entry: 25000,
        schema_uint_min_balance: 3500,
        schema_bytes_min_balance: 25000,
        max_local_schema_entries: 16,
        max_global_schema_entries: 64,
        maximum_minimum_balance: 100100000,
        compact_cert_rounds: 0,
        compact_cert_top_voters: 0,
        compact_cert_voters_lookback: 0,
        compact_cert_weight_threshold: 0,
        compact_cert_sec_kq: 0,
        enable_asset_close_amount: true,
        initial_rewards_rate_calculation: true,
        no_empty_local_deltas: true,
        enable_keyreg_coherency_check: true,
        enable_extra_pages_on_app_update: false,
        max_proposed_expired_online_accounts: 0,
        enable_account_data_resource_separation: false,
        enable_batch_verification: false,
        rewards_calculation_fix: false,
        enable_state_proof_keyreg_check: false,
        max_keyreg_valid_period: 0,
        unify_inner_tx_i_ds: false,
        enable_sha256_txn_commitment_header: false,
    }
}

/// The table's record for protocol version v29.
pub open spec fn consensus_v29_abs() -> ParamsAbs {
    ParamsAbs {
        upgrade_vote_rounds: 10000,
        upgrade_threshold: 9000,
        default_upgrade_wait_rounds: 140000,
        min_upgrade_wait_rounds: 10000,
        max_upgrade_wait_rounds: 150000,
        max_version_string_len: 128,
        max_txn_bytes_per_block: 1000000,
        max_txn_note_bytes: 1024,
        max_txn_life: 1000,
        approved_upgrades: map!["v30"@ => 140000u64],
        support_genesis_hash: true,
        require_genesis_hash: true,
        default_key_dilution: 10000,
        min_balance: 100000,
        min_txn_fee: 1000,
        enable_fee_pooling: true,
        enable_app_cost_pooling: false,
        reward_unit: 1_000_000,
        rewards_rate_refresh_interval: 500_000,
        seed_lookback: 2,
        seed_refresh_interval: 80,
        max_bal_lookback: 320,
        num_proposers: 20,
        soft_committee_size: 2990,
        soft_committee_threshold: 2267,
        cert_committee_size: 1500,
        cert_committee_threshold: 1112,
        next_committee_size: 5000,
        next_committee_threshold: 3838,
        late_committee_size: 500,
        late_committee_threshold: 320,
        redo_committee_size: 2400,
        redo_committee_threshold: 1768,
        down_committee_size: 6000,
        down_committee_threshold: 4560,
        agreement_filter_timeout: 4_000_000_000,
        agreement_filter_timeout_period0: 4_000_000_000,
        fast_recovery_lambda: 300_000_000_000,
        payset_commit: PaysetCommitType::PaysetCommitMerkle,
        max_timestamp_increment: 25,
        support_signed_txn_in_block: true,
        force_non_participating_fee_sink: true,
        apply_data: true,
        rewards_in_apply_data: true,
        credential_domain_separation_enabled: true,
        support_become_non_participating_transactions: true,
        pending_residue_rewards: true,
        asset: true,
        max_assets_per_account: 1000,
        max_asset_name_bytes: 32,
        max_asset_unit_name_bytes: 8,
        max_asset_url_bytes: 96,
        txn_counter: true,
        support_tx_groups: true,
        max_tx_group_size: 16,
        support_transaction_leases: true,
        fix_transaction_leases: true,
        logic_sig_version: 4,
        logic_sig_max_size: 1000,
        logic_sig_max_cost: 20000,
        max_asset_decimals: 19,
        support_rekeying: true,
        application: true,
        max_app_args: 16,
        max_app_total_arg_len: 2048,
        max_app_program_len: 2048,
        max_app_total_program_len: 2048,
        max_extra_app_program_pages: 3,
        max_app_txn_accounts: 4,
        max_app_txn_foreign_apps: 8,
        max_app_txn_foreign_assets: 8,
        max_app_total_txn_references: 8,
        max_app_program_cost: 700,
        max_app_key_len: 64,
        max_app_bytes_value_len: 128,
        max_app_sum_key_value_lens: 128,
        max_inner_transactions: 0,
        enable_inner_transaction_pooling: false,
        isolate_clear_state: false,
        min_inner_appl_version: 6,
        max_apps_created: 10,
        max_apps_opted_in: 10,
        app_flat_params_min_balance: 100000,
        app_flat_opt_in_min_balance: 100000,
        schema_min_balance_per_entry: 25000,
        schema_uint_min_balance: 3500,
        schema_bytes_min_balance: 25000,
        max_local_schema_entries: 16,
        max_global_schema_entries: 64,
        maximum_minimum_balance: 100100000,
        compact_cert_rounds: 0,
        compact_cert_top_voters: 0,
        compact_cert_voters_lookback: 0,
        compact_cert_weight_threshold: 0,
        compact_cert_sec_kq: 0,
        enable_asset_close_amount: true,
        initial_rewards_rate_calculation: true,
        no_empty_local_deltas: true,
        enable_keyreg_coherency_check: true,
        enable_extra_pages_on_app_update: true,
        max_proposed_expired_online_accounts: 0,
        enable_account_data_resource_separation: false,
        enable_batch_verification: false,
        rewards_calculation_fix: false,
        enable_state_proof_keyreg_check: false,
        max_keyreg_valid_period: 0,
        unify_inner_tx_i_ds: false,
        enable_sha256_txn_commitment_header: false,
    }
}

/// The table's record for protocol version v30.
pub open spec fn consensus_v30_abs() -> ParamsAbs {
    ParamsAbs {
        upgrade_vote_rounds: 10000,
        upgrade_threshold: 9000,
        default_upgrade_wait_rounds: 140000,
        min_upgrade_wait_rounds: 10000,
        max_upgrade_wait_rounds: 150000,
        max_version_string_len: 128,
        max_txn_bytes_per_block: 1000000,
        max_txn_note_bytes: 1024,
        max_txn_life: 1000,
        approved_upgrades: map!["v31"@ => 140000u64],
        support_genesis_hash: true,
        require_genesis_hash: true,
        default_key_dilution: 10000,
        min_balance: 100000,
        min_txn_fee: 1000,
        enable_fee_pooling: true,
        enable_app_cost_pooling: true,
        reward_unit: 1_000_000,
        rewards_rate_refresh_interval: 500_000,
        seed_lookback: 2,
        seed_refresh_interval: 80,
        max_bal_lookback: 320,
        num_proposers: 20,
        soft_committee_size: 2990,
        soft_committee_threshold: 2267,
        cert_committee_size: 1500,
        cert_committee_threshold: 1112,
        next_committee_size: 5000,
        next_committee_threshold: 3838,
        late_committee_size: 500,
        late_committee_threshold: 320,
        redo_committee_size: 2400,
        redo_committee_threshold: 1768,
        down_committee_size: 6000,
        down_committee_threshold: 4560,
        agreement_filter_timeout: 4_000_000_000,
        agreement_filter_timeout_period0: 4_000_000_000,
        fast_recovery_lambda: 300_000_000_000,
        payset_commit: PaysetCommitType::PaysetCommitMerkle,
        max_timestamp_increment: 25,
        support_signed_txn_in_block: true,
        force_non_participating_fee_sink: true,
        apply_data: true,
        rewards_in_apply_data: true,
        credential_domain_separation_enabled: true,
        support_become_non_participating_transactions: true,
        pending_residue_rewards: true,
        asset: true,
        max_assets_per_account: 1000,
        max_asset_name_bytes: 32,
        max_asset_unit_name_bytes: 8,
        max_asset_url_bytes: 96,
        txn_counter: true,
        support_tx_groups: true,
        max_tx_group_size: 16,
        support_transaction_leases: true,
        fix_transaction_leases: true,
        logic_sig_version: 5,
        logic_sig_max_size: 1000,
        logic_sig_max_cost: 20000,
        max_asset_decimals: 19,
        support_rekeying: true,
        application: true,
        max_app_args: 16,
        max_app_total_arg_len: 2048,
        max_app_program_len: 2048,
        max_app_total_program_len: 2048,
        max_extra_app_program_pages: 3,
        max_app_txn_accounts: 4,
        max_app_txn_foreign_apps: 8,
        max_app_txn_foreign_assets: 8,
        max_app_total_txn_references: 8,
        max_app_program_cost: 700,
        max_app_key_len: 64,
        max_app_bytes_value_len: 128,
        max_app_sum_key_value_lens: 128,
        max_inner_transactions: 16,
        enable_inner_transaction_pooling: false,
        isolate_clear_state: false,
        min_inner_appl_version: 6,
        max_apps_created: 10,
        max_apps_opted_in: 50,
        app_flat_params_min_balance: 100000,
        app_flat_opt_in_min_balance: 100000,
        schema_min_balance_per_entry: 25000,
        schema_uint_min_balance: 3500,
        schema_bytes_min_balance: 25000,
        max_local_schema_entries: 16,
        max_global_schema_entries: 64,
        maximum_minimum_balance: 100100000,
        compact_cert_rounds: 0,
        compact_cert_top_voters: 0,
        compact_cert_voters_lookback: 0,
        compact_cert_weight_threshold: 0,
        compact_cert_sec_kq: 0,
        enable_asset_close_amount: true,
        initial_rewards_rate_calculation: true,
        no_empty_local_deltas: true,
        enable_keyreg_coherency_check: true,
        enable_extra_pages_on_app_update: true,
        max_proposed_expired_online_accounts: 0,
        enable_account_data_resource_separation: false,
        enable_batch_verification: false,
        rewards_calculation_fix: false,
        enable_state_proof_keyreg_check: false,
        max_keyreg_valid_period: 0,
        unify_inner_tx_i_ds: false,
        enable_sha256_txn_commitment_header: false,
    }
}

/// The table's record for protocol version v31.
pub open spec fn consensus_v31_abs() -> ParamsAbs {
    ParamsAbs {
        upgrade_vote_rounds: 10000,
        upgrade_threshold: 9000,
        default_upgrade_wait_rounds: 140000,
        min_upgrade_wait_rounds: 10000,
        max_upgrade_wait_rounds: 150000,
        max_version_string_len: 128,
        max_txn_bytes_per_block: 1000000,
        max_txn_note_bytes: 1024,
        max_txn_life: 1000,
        approved_upgrades: map!["v32"@ => 140000u64],
        support_genesis_hash: true,
        require_genesis_hash: true,
        default_key_dilution: 10000,
        min_balance: 100000,
        min_txn_fee: 1000,
        enable_fee_pooling: true,
        enable_app_cost_pooling: true,
        reward_unit: 1_000_000,
        rewards_rate_refresh_interval: 500_000,
        seed_lookback: 2,
        seed_refresh_interval: 80,
        max_bal_lookback: 320,
        num_proposers: 20,
        soft_committee_size: 2990,
        soft_committee_threshold: 2267,
        cert_committee_size: 1500,
        cert_committee_threshold: 1112,
        next_committee_size: 5000,
        next_committee_threshold: 3838,
        late_committee_size: 500,
        late_committee_threshold: 320,
        redo_committee_size: 2400,
        redo_committee_threshold: 1768,
        down_committee_size: 6000,
        down_committee_threshold: 4560,
        agreement_filter_timeout: 4_000_000_000,
        agreement_filter_timeout_period0: 4_000_000_000,
        fast_recovery_lambda: 300_000_000_000,
        payset_commit: PaysetCommitType::PaysetCommitMerkle,
        max_timestamp_increment: 25,
        support_signed_txn_in_block: true,
        force_non_participating_fee_sink: true,
        apply_data: true,
        rewards_in_apply_data: true,
        credential_domain_separation_enabled: true,
        support_become_non_participating_transactions: true,
        pending_residue_rewards: true,
        asset: true,
        max_assets_per_account: 1000,
        max_asset_name_bytes: 32,
        max_asset_unit_name_bytes: 8,
        max_asset_url_bytes: 96,
        txn_counter: true,
        support_tx_groups: true,
        max_tx_group_size: 16,
        support_transaction_leases: true,
        fix_transaction_leases: true,
        logic_sig_version: 6,
        logic_sig_max_size: 1000,
        logic_sig_max_cost: 20000,
        max_asset_decimals: 19,
        support_rekeying: true,
        application: true,
        max_app_args: 16,
        max_app_total_arg_len: 2048,
        max_app_program_len: 2048,
        max_app_total_program_len: 2048,
        max_extra_app_program_pages: 3,
        max_app_txn_accounts: 4,
        max_app_txn_foreign_apps: 8,
        max_app_txn_foreign_assets: 8,
        max_app_total_txn_references: 8,
        max_app_program_cost: 700,
        max_app_key_len: 64,
        max_app_bytes_value_len: 128,
        max_app_sum_key_value_lens: 128,
        max_inner_transactions: 16,
        enable_inner_transaction_pooling: true,
        isolate_clear_state: true,
        min_inner_appl_version: 6,
        max_apps_created: 10,
        max_apps_opted_in: 50,
        app_flat_params_min_balance: 100000,
        app_flat_opt_in_min_balance: 100000,
        schema_min_balance_per_entry: 25000,
        schema_uint_min_balance: 3500,
        schema_bytes_min_balance: 25000,
        max_local_schema_entries: 16,
        max_global_schema_entries: 64,
        maximum_minimum_balance: 100100000,
        compact_cert_rounds: 0,
        compact_cert_top_voters: 0,
        compact_cert_voters_lookback: 0,
        compact_cert_weight_threshold: 0,
        compact_cert_sec_kq: 0,
        enable_asset_close_amount: true,
        initial_rewards_rate_calculation: true,
        no_empty_local_deltas: true,
        enable_keyreg_coherency_check: true,
        enable_extra_pages_on_app_update: true,
        max_proposed_expired_online_accounts: 32,
        enable_account_data_resource_separation: false,
        enable_batch_verification: true,
        rewards_calculation_fix: true,
        enable_state_proof_keyreg_check: true,
        max_keyreg_valid_period: 16777215,
        unify_inner_tx_i_ds: false,
        enable_sha256_txn_commitment_header: false,
    }
}

/// The table's record for protocol version v32.
pub open spec fn consensus_v32_abs() -> ParamsAbs {
    ParamsAbs {
        upgrade_vote_rounds: 10000,
        upgrade_threshold: 9000,
        default_upgrade_wait_rounds: 140000,
        min_upgrade_wait_rounds: 10000,
        max_upgrade_wait_rounds: 150000,
        max_version_string_len: 128,
        max_txn_bytes_per_block: 1000000,
        max_txn_note_bytes: 1024,
        max_txn_life: 1000,
        approved_upgrades: Map::empty(),
        support_genesis_hash: true,
        require_genesis_hash: true,
        default_key_dilution: 10000,
        min_balance: 100000,
        min_txn_fee: 1000,
        enable_fee_pooling: true,
        enable_app_cost_pooling: true,
        reward_unit: 1_000_000,
        rewards_rate_refresh_interval: 500_000,
        seed_lookback: 2,
        seed_refresh_interval: 80,
        max_bal_lookback: 320,
        num_proposers: 20,
        soft_committee_size: 2990,
        soft_committee_threshold: 2267,
        cert_committee_size: 1500,
        cert_committee_threshold: 1112,
        next_committee_size: 5000,
        next_committee_threshold: 3838,
        late_committee_size: 500,
        late_committee_threshold: 320,
        redo_committee_size: 2400,
        redo_committee_threshold: 1768,
        down_committee_size: 6000,
        down_committee_threshold: 4560,
        agreement_filter_timeout: 4_000_000_000,
        agreement_filter_timeout_period0: 4_000_000_000,
        fast_recovery_lambda: 300_000_000_000,
        payset_commit: PaysetCommitType::PaysetCommitMerkle,
        max_timestamp_increment: 25,
        support_signed_txn_in_block: true,
        force_non_participating_fee_sink: true,
        apply_data: true,
        rewards_in_apply_data: true,
        credential_domain_separation_enabled: true,
        support_become_non_participating_transactions: true,
        pending_residue_rewards: true,
        asset: true,
        max_assets_per_account: 0,
        max_asset_name_bytes: 32,
        max_asset_unit_name_bytes: 8,
        max_asset_url_bytes: 96,
        txn_counter: true,
        support_tx_groups: true,
        max_tx_group_size: 16,
        support_transaction_leases: true,
        fix_transaction_leases: true,
        logic_sig_version: 6,
        logic_sig_max_size: 1000,
        logic_sig_max_cost: 20000,
        max_asset_decimals: 19,
        support_rekeying: true,
        application: true,
        max_app_args: 16,
        max_app_total_arg_len: 2048,
        max_app_program_len: 2048,
        max_app_total_program_len: 2048,
        max_extra_app_program_pages: 3,
        max_app_txn_accounts: 4,
        max_app_txn_foreign_apps: 8,
        max_app_txn_foreign_assets: 8,
        max_app_total_txn_references: 8,
        max_app_program_cost: 700,
        max_app_key_len: 64,
        max_app_bytes_value_len: 128,
        max_app_sum_key_value_lens: 128,
        max_inner_transactions: 16,
        enable_inner_transaction_pooling: true,
        isolate_clear_state: true,
        min_inner_appl_version: 6,
        max_apps_created: 0,
        max_apps_opted_in: 0,
        app_flat_params_min_balance: 100000,
        app_flat_opt_in_min_balance: 100000,
        schema_min_balance_per_entry: 25000,
        schema_uint_min_balance: 3500,
        schema_bytes_min_balance: 25000,
        max_local_schema_entries: 16,
        max_global_schema_entries: 64,
        maximum_minimum_balance: 0,
        compact_cert_rounds: 0,
        compact_cert_top_voters: 0,
        compact_cert_voters_lookback: 0,
        compact_cert_weight_threshold: 0,
        compact_cert_sec_kq: 0,
        enable_asset_close_amount: true,
        initial_rewards_rate_calculation: true,
        no_empty_local_deltas: true,
        enable_keyreg_coherency_check: true,
        enable_extra_pages_on_app_update: true,
        max_proposed_expired_online_accounts: 32,
        enable_account_data_resource_separation: true,
        enable_batch_verification: true,
        rewards_calculation_fix: true,
        enable_state_proof_keyreg_check: true,
        max_keyreg_valid_period: 16777215,
        unify_inner_tx_i_ds: false,
        enable_sha256_txn_commitment_header: false,
    }
}

/// The table's record for protocol version vFuture.
pub open spec fn consensus_vfuture_abs() -> ParamsAbs {
    ParamsAbs {
        upgrade_vote_rounds: 10000,
        upgrade_threshold: 9000,
        default_upgrade_wait_rounds: 140000,
        min_upgrade_wait_rounds: 10000,
        max_upgrade_wait_rounds: 150000,
        max_version_string_len: 128,
        max_txn_bytes_per_block: 1000000,
        max_txn_note_bytes: 1024,
        max_txn_life: 1000,
        approved_upgrades: Map::empty(),
        support_genesis_hash: true,
        require_genesis_hash: true,
        default_key_dilution: 10000,
        min_balance: 100000,
        min_txn_fee: 1000,
        enable_fee_pooling: true,
        enable_app_cost_pooling: true,
        reward_unit: 1_000_000,
        rewards_rate_refresh_interval: 500_000,
        seed_lookback: 2,
        seed_refresh_interval: 80,
        max_bal_lookback: 320,
        num_proposers: 20,
        soft_committee_size: 2990,
        soft_committee_threshold: 2267,
        cert_committee_size: 1500,
        cert_committee_threshold: 1112,
        next_committee_size: 5000,
        next_committee_threshold: 3838,
        late_committee_size: 500,
        late_committee_threshold: 320,
        redo_committee_size: 2400,
        redo_committee_threshold: 1768,
        down_committee_size: 6000,
        down_committee_threshold: 4560,
        agreement_filter_timeout: 4_000_000_000,
        agreement_filter_timeout_period0: 4_000_000_000,
        fast_recovery_lambda: 300_000_000_000,
        payset_commit: PaysetCommitType::PaysetCommitMerkle,
        max_timestamp_increment: 25,
        support_signed_txn_in_block: true,
        force_non_participating_fee_sink: true,
        apply_data: true,
        rewards_in_apply_data: true,
        credential_domain_separation_enabled: true,
        support_become_non_participating_transactions: true,
        pending_residue_rewards: true,
        asset: true,
        max_assets_per_account: 0,
        max_asset_name_bytes: 32,
        max_asset_unit_name_bytes: 8,
        max_asset_url_bytes: 96,
        txn_counter: true,
        support_tx_groups: true,
        max_tx_group_size: 16,
        support_transaction_leases: true,
        fix_transaction_leases: true,
        logic_sig_version: 7,
        logic_sig_max_size: 1000,
        logic_sig_max_cost: 20000,
        max_asset_decimals: 19,
        support_rekeying: true,
        application: true,
        max_app_args: 16,
        max_app_total_arg_len: 2048,
        max_app_program_len: 2048,
        max_app_total_program_len: 2048,
        max_extra_app_program_pages: 3,
        max_app_txn_accounts: 4,
        max_app_txn_foreign_apps: 8,
        max_app_txn_foreign_assets: 8,
        max_app_total_txn_references: 8,
        max_app_program_cost: 700,
        max_app_key_len: 64,
        max_app_bytes_value_len: 128,
        max_app_sum_key_value_lens: 128,
        max_inner_transactions: 16,
        enable_inner_transaction_pooling: true,
        isolate_clear_state: true,
        min_inner_appl_version: 4,
        max_apps_created: 0,
        max_apps_opted_in: 0,
        app_flat_params_min_balance: 100000,
        app_flat_opt_in_min_balance: 100000,
        schema_min_balance_per_entry: 25000,
        schema_uint_min_balance: 3500,
        schema_bytes_min_balance: 25000,
        max_local_schema_entries: 16,
        max_global_schema_entries: 64,
        maximum_minimum_balance: 0,
        compact_cert_rounds: 256,
        compact_cert_top_voters: 1048576,
        compact_cert_voters_lookback: 16,
        compact_cert_weight_threshold: 1288490188,
        compact_cert_sec_kq: 128,
        enable_asset_close_amount: true,
        initial_rewards_rate_calculation: true,
        no_empty_local_deltas: true,
        enable_keyreg_coherency_check: true,
        enable_extra_pages_on_app_update: true,
        max_proposed_expired_online_accounts: 32,
        enable_account_data_resource_separation: true,
        enable_batch_verification: true,
        rewards_calculation_fix: true,
        enable_state_proof_keyreg_check: true,
        max_keyreg_valid_period: 16777215,
        unify_inner_tx_i_ds: true,
        enable_sha256_txn_commitment_header: true,
    }
}

/// The consensus table that `init_consensus_protocols` adds to a base map:
/// one record per supported version, later entries inserted last.
pub open spec fn consensus_table_over(base: Map<Seq<char>, ParamsAbs>) -> Map<Seq<char>, ParamsAbs> {
    base
        .insert("v7"@, consensus_v7_abs())
        .insert("v8"@, consensus_v8_abs())
        .insert("v9"@, consensus_v9_abs())
        .insert("v10"@, consensus_v10_abs())
        .insert("v11"@, consensus_v11_abs())
        .insert("v12"@, consensus_v12_abs())
        .insert("v13"@, consensus_v13_abs())
        .insert("v14"@, consensus_v14_abs())
        .insert("v15"@, consensus_v15_abs())
        .insert("v16"@, consensus_v16_abs())
        .insert("v17"@, consensus_v17_abs())
        .insert("v18"@, consensus_v18_abs())
        .insert("v19"@, consensus_v19_abs())
        .insert("v20"@, consensus_v20_abs())
        .insert("v21"@, consensus_v21_abs())
        .insert("v22"@, consensus_v22_abs())
        .insert("v23"@, consensus_v23_abs())
        .insert("v24"@, consensus_v24_abs())
        .insert("v25"@, consensus_v25_abs())
        .insert("v26"@, consensus_v26_abs())
        .insert("v27"@, consensus_v27_abs())
        .insert("v28"@, consensus_v28_abs())
        .insert("v29"@, consensus_v29_abs())
        .insert("v30"@, consensus_v30_abs())
        .insert("v31"@, consensus_v31_abs())
        .insert("v32"@, consensus_v32_abs())
        .insert("future"@, consensus_vfuture_abs())
}

/// The built-in consensus table.
pub open spec fn consensus_table() -> Map<Seq<char>, ParamsAbs> {
    consensus_table_over(Map::empty())
}

/// The versioned parameter table, keyed by consensus version.
pub type ConsensusProtocols = VecMap<String, ConsensusParams>;

/// The table's mathematical value: each record abstracted.
pub open spec fn abs_table(m: Map<Seq<char>, ConsensusParams>) -> Map<Seq<char>, ParamsAbs> {
    m.map_values(|p: ConsensusParams| p.abs())
}

/// Abstracting a table commutes with inserting one record.
pub proof fn lemma_abs_table_insert(m: Map<Seq<char>, ConsensusParams>, k: Seq<char>, v: ConsensusParams)
    ensures
        abs_table(m.insert(k, v)) =~= abs_table(m).insert(k, v.abs()),
{
}

/// Every record in the table has a well-formed upgrade map.
pub open spec fn protocols_wf(m: ConsensusProtocols) -> bool {
    &&& m.wf()
    &&& forall|i: int|
        0 <= i < m.entries_seq().len() ==> (#[trigger] m.entries_seq()[i].1).wf()
}

/// Builds the record for protocol version v7.
fn consensus_v7_params() -> (r: ConsensusParams)
    ensures
        r.wf(),
        r.abs() == consensus_v7_abs(),
{
    let mut upgrades: VecMap<String, u64> = VecMap::new();
    upgrades.insert(String::from_str(CONSENSUS_V8), 0);
    proof {
        assert(upgrades.as_map() =~= map!["v8"@ => 0u64]);
    }
    let p = ConsensusParams {
        upgrade_vote_rounds: 10000,
        upgrade_threshold: 9000,
        default_upgrade_wait_rounds: 10000,
        min_upgrade_wait_rounds: 0,
        max_upgrade_wait_rounds: 0,
        max_version_string_len: 64,
        max_txn_bytes_per_block: 1000000,
        max_txn_note_bytes: 1024,
        max_txn_life: 1000,
        approved_upgrades: upgrades,
        support_genesis_hash: false,
        require_genesis_hash: false,
        default_key_dilution: 10000,
        min_balance: 10000,
        min_txn_fee: 1000,
        enable_fee_pooling: false,
        enable_app_cost_pooling: false,
        reward_unit: 1_000_000,
        rewards_rate_refresh_interval: 500_000,
        seed_lookback: 2,
        seed_refresh_interval: 100,
        max_bal_lookback: 320,
        num_proposers: 30,
        soft_committee_size: 2500,
        soft_committee_threshold: 1870,
        cert_committee_size: 1000,
        cert_committee_threshold: 720,
        next_committee_size: 10000,
        next_committee_threshold: 7750,
        late_committee_size: 10000,
        late_committee_threshold: 7750,
        redo_committee_size: 10000,
        redo_committee_threshold: 7750,
        down_committee_size: 10000,
        down_committee_threshold: 7750,
        agreement_filter_timeout: 4_000_000_000,
        agreement_filter_timeout_period0: 4_000_000_000,
        fast_recovery_lambda: 300_000_000_000,
        payset_commit: PaysetCommitType::PaysetCommitUnsupported,
        max_timestamp_increment: 25,
        support_signed_txn_in_block: false,
        force_non_participating_fee_sink: false,
        apply_data: false,
        rewards_in_apply_data: false,
        credential_domain_separation_enabled: false,
        support_become_non_participating_transactions: false,
        pending_residue_rewards: false,
        asset: false,
        max_assets_per_account: 0,
        max_asset_name_bytes: 0,
        max_asset_unit_name_bytes: 0,
        max_asset_url_bytes: 0,
        txn_counter: false,
        support_tx_groups: false,
        max_tx_group_size: 1,
        support_transaction_leases: false,
        fix_transaction_leases: false,
        logic_sig_version: 0,
        logic_sig_max_size: 0,
        logic_sig_max_cost: 0,
        max_asset_decimals: 0,
        support_rekeying: false,
        application: false,
        max_app_args: 0,
        max_app_total_arg_len: 0,
        max_app_program_len: 0,
        max_app_total_program_len: 0,
        max_extra_app_program_pages: 0,
        max_app_txn_accounts: 0,
        max_app_txn_foreign_apps: 0,
        max_app_txn_foreign_assets: 0,
        max_app_total_txn_references: 0,
        max_app_program_cost: 0,
        max_app_key_len: 0,
        max_app_bytes_value_len: 0,
        max_app_sum_key_value_lens: 0,
        max_inner_transactions: 0,
        enable_inner_transaction_pooling: false,
        isolate_clear_state: false,
        min_inner_appl_version: 0,
        max_apps_created: 0,
        max_apps_opted_in: 0,
        app_flat_params_min_balance: 0,
        app_flat_opt_in_min_balance: 0,
        schema_min_balance_per_entry: 0,
        schema_uint_min_balance: 0,
        schema_bytes_min_balance: 0,
        max_local_schema_entries: 0,
        max_global_schema_entries: 0,
        maximum_minimum_balance: 0,
        compact_cert_rounds: 0,
        compact_cert_top_voters: 0,
        compact_cert_voters_lookback: 0,
        compact_cert_weight_threshold: 0,
        compact_cert_sec_kq: 0,
        enable_asset_close_amount: false,
        initial_rewards_rate_calculation: false,
        no_empty_local_deltas: false,
        enable_keyreg_coherency_check: false,
        enable_extra_pages_on_app_update: false,
        max_proposed_expired_online_accounts: 0,
        enable_account_data_resource_separation: false,
        enable_batch_verification: false,
        rewards_calculation_fix: false,
        enable_state_proof_keyreg_check: false,
        max_keyreg_valid_period: 0,
        unify_inner_tx_i_ds: false,
        enable_sha256_txn_commitment_header: false,
    };
    proof {
        assert(p.abs() == consensus_v7_abs());
    }
    p
}

/// Builds the record for protocol version v8.
fn consensus_v8_params() -> (r: ConsensusParams)
    ensures
        r.wf(),
        r.abs() == consensus_v8_abs(),
{
    let mut upgrades: VecMap<String, u64> = VecMap::new();
    upgrades.insert(String::from_str(CONSENSUS_V9), 0);
    proof {
        assert(upgrades.as_map() =~= map!["v9"@ => 0u64]);
    }
    let p = ConsensusParams {
        upgrade_vote_rounds: 10000,
        upgrade_threshold: 9000,
        default_upgrade_wait_rounds: 10000,
        min_upgrade_wait_rounds: 0,
        max_upgrade_wait_rounds: 0,
        max_version_string_len: 64,
        max_txn_bytes_per_block: 1000000,
        max_txn_note_bytes: 1024,
        max_txn_life: 1000,
        approved_upgrades: upgrades,
        support_genesis_hash: false,
        require_genesis_hash: false,
        default_key_dilution: 10000,
        min_balance: 10000,
        min_txn_fee: 1000,
        enable_fee_pooling: false,
        enable_app_cost_pooling: false,
        reward_unit: 1_000_000,
        rewards_rate_refresh_interval: 500_000,
        seed_lookback: 2,
        seed_refresh_interval: 80,
        max_bal_lookback: 320,
        num_proposers: 9,
        soft_committee_size: 2990,
        soft_committee_threshold: 2267,
        cert_committee_size: 1500,
        cert_committee_threshold: 1112,
        next_committee_size: 5000,
        next_committee_threshold: 3838,
        late_committee_size: 5000,
        late_committee_threshold: 3838,
        redo_committee_size: 5000,
        redo_committee_threshold: 3838,
        down_committee_size: 5000,
        down_committee_threshold: 3838,
        agreement_filter_timeout: 4_000_000_000,
        agreement_filter_timeout_period0: 4_000_000_000,
        fast_recovery_lambda: 300_000_000_000,
        payset_commit: PaysetCommitType::PaysetCommitUnsupported,
        max_timestamp_increment: 25,
        support_signed_txn_in_block: false,
        force_non_participating_fee_sink: false,
        apply_data: false,
        rewards_in_apply_data: false,
        credential_domain_separation_enabled: false,
        support_become_non_participating_transactions: false,
        pending_residue_rewards: false,
        asset: false,
        max_assets_per_account: 0,
        max_asset_name_bytes: 0,
        max_asset_unit_name_bytes: 0,
        max_asset_url_bytes: 0,
        txn_counter: false,
        support_tx_groups: false,
        max_tx_group_size: 1,
        support_transaction_leases: false,
        fix_transaction_leases: false,
        logic_sig_version: 0,
        logic_sig_max_size: 0,
        logic_sig_max_cost: 0,
        max_asset_decimals: 0,
        support_rekeying: false,
        application: false,
        max_app_args: 0,
        max_app_total_arg_len: 0,
        max_app_program_len: 0,
        max_app_total_program_len: 0,
        max_extra_app_program_pages: 0,
        max_app_txn_accounts: 0,
        max_app_txn_foreign_apps: 0,
        max_app_txn_foreign_assets: 0,
        max_app_total_txn_references: 0,
        max_app_program_cost: 0,
        max_app_key_len: 0,
        max_app_bytes_value_len: 0,
        max_app_sum_key_value_lens: 0,
        max_inner_transactions: 0,
        enable_inner_transaction_pooling: false,
        isolate_clear_state: false,
        min_inner_appl_version: 0,
        max_apps_created: 0,
        max_apps_opted_in: 0,
        app_flat_params_min_balance: 0,
        app_flat_opt_in_min_balance: 0,
        schema_min_balance_per_entry: 0,
        schema_uint_min_balance: 0,
        schema_bytes_min_balance: 0,
        max_local_schema_entries: 0,
        max_global_schema_entries: 0,
        maximum_minimum_balance: 0,
        compact_cert_rounds: 0,
        compact_cert_top_voters: 0,
        compact_cert_voters_lookback: 0,
        compact_cert_weight_threshold: 0,
        compact_cert_sec_kq: 0,
        enable_asset_close_amount: false,
        initial_rewards_rate_calculation: false,
        no_empty_local_deltas: false,
        enable_keyreg_coherency_check: false,
        enable_extra_pages_on_app_update: false,
        max_proposed_expired_online_accounts: 0,
        enable_account_data_resource_separation: false,
        enable_batch_verification: false,
        rewards_calculation_fix: false,
        enable_state_proof_keyreg_check: false,
        max_keyreg_valid_period: 0,
        unify_inner_tx_i_ds: false,
        enable_sha256_txn_commitment_header: false,
    };
    proof {
        assert(p.abs() == consensus_v8_abs());
    }
    p
}

/// Builds the record for protocol version v9.
fn consensus_v9_params() -> (r: ConsensusParams)
    ensures
        r.wf(),
        r.abs() == consensus_v9_abs(),
{
    let mut upgrades: VecMap<String, u64> = VecMap::new();
    upgrades.insert(String::from_str(CONSENSUS_V10), 0);
    proof {
        assert(upgrades.as_map() =~= map!["v10"@ => 0u64]);
    }
    let p = ConsensusParams {
        upgrade_vote_rounds: 10000,
        upgrade_threshold: 9000,
        default_upgrade_wait_rounds: 10000,
        min_upgrade_wait_rounds: 0,
        max_upgrade_wait_rounds: 0,
        max_version_string_len: 64,
        max_txn_bytes_per_block: 1000000,
        max_txn_note_bytes: 1024,
        max_txn_life: 1000,
        approved_upgrades: upgrades,
        support_genesis_hash: false,
        require_genesis_hash: false,
        default_key_dilution: 10000,
        min_balance: 100000,
        min_txn_fee: 1000,
        enable_fee_pooling: false,
        enable_app_cost_pooling: false,
        reward_unit: 1_000_000,
        rewards_rate_refresh_interval: 500_000,
        seed_lookback: 2,
        seed_refresh_interval: 80,
        max_bal_lookback: 320,
        num_proposers: 9,
        soft_committee_size: 2990,
        soft_committee_threshold: 2267,
        cert_committee_size: 1500,
        cert_committee_threshold: 1112,
        next_committee_size: 5000,
        next_committee_threshold: 3838,
        late_committee_size: 5000,
        late_committee_threshold: 3838,
        redo_committee_size: 5000,
        redo_committee_threshold: 3838,
        down_committee_size: 5000,
        down_committee_threshold: 3838,
        agreement_filter_timeout: 4_000_000_000,
        agreement_filter_timeout_period0: 4_000_000_000,
        fast_recovery_lambda: 300_000_000_000,
        payset_commit: PaysetCommitType::PaysetCommitUnsupported,
        max_timestamp_increment: 25,
        support_signed_txn_in_block: false,
        force_non_participating_fee_sink: false,
        apply_data: false,
        rewards_in_apply_data: false,
        credential_domain_separation_enabled: false,
        support_become_non_participating_transactions: false,
        pending_residue_rewards: false,
        asset: false,
        max_assets_per_account: 0,
        max_asset_name_bytes: 0,
        max_asset_unit_name_bytes: 0,
        max_asset_url_bytes: 0,
        txn_counter: false,
        support_tx_groups: false,
        max_tx_group_size: 1,
        support_transaction_leases: false,
        fix_transaction_leases: false,
        logic_sig_version: 0,
        logic_sig_max_size: 0,
        logic_sig_max_cost: 0,
        max_asset_decimals: 0,
        support_rekeying: false,
        application: false,
        max_app_args: 0,
        max_app_total_arg_len: 0,
        max_app_program_len: 0,
        max_app_total_program_len: 0,
        max_extra_app_program_pages: 0,
        max_app_txn_accounts: 0,
        max_app_txn_foreign_apps: 0,
        max_app_txn_foreign_assets: 0,
        max_app_total_txn_references: 0,
        max_app_program_cost: 0,
        max_app_key_len: 0,
        max_app_bytes_value_len: 0,
        max_app_sum_key_value_lens: 0,
        max_inner_transactions: 0,
        enable_inner_transaction_pooling: false,
        isolate_clear_state: false,
        min_inner_appl_version: 0,
        max_apps_created: 0,
        max_apps_opted_in: 0,
        app_flat_params_min_balance: 0,
        app_flat_opt_in_min_balance: 0,
        schema_min_balance_per_entry: 0,
        schema_uint_min_balance: 0,
        schema_bytes_min_balance: 0,
        max_local_schema_entries: 0,
        max_global_schema_entries: 0,
        maximum_minimum_balance: 0,
        compact_cert_rounds: 0,
        compact_cert_top_voters: 0,
        compact_cert_voters_lookback: 0,
        compact_cert_weight_threshold: 0,
        compact_cert_sec_kq: 0,
        enable_asset_close_amount: false,
        initial_rewards_rate_calculation: false,
        no_empty_local_deltas: false,
        enable_keyreg_coherency_check: false,
        enable_extra_pages_on_app_update: false,
        max_proposed_expired_online_accounts: 0,
        enable_account_data_resource_separation: false,
        enable_batch_verification: false,
        rewards_calculation_fix: false,
        enable_state_proof_keyreg_check: false,
        max_keyreg_valid_period: 0,
        unify_inner_tx_i_ds: false,
        enable_sha256_txn_commitment_header: false,
    };
    proof {
        assert(p.abs() == consensus_v9_abs());
    }
    p
}

/// Builds the record for protocol version v10.
fn consensus_v10_params() -> (r: ConsensusParams)
    ensures
        r.wf(),
        r.abs() == consensus_v10_abs(),
{
    let mut upgrades: VecMap<String, u64> = VecMap::new();
    upgrades.insert(String::from_str(CONSENSUS_V11), 0);
    proof {
        assert(upgrades.as_map() =~= map!["v11"@ => 0u64]);
    }
    let p = ConsensusParams {
        upgrade_vote_rounds: 10000,
        upgrade_threshold: 9000,
        default_upgrade_wait_rounds: 10000,
        min_upgrade_wait_rounds: 0,
        max_upgrade_wait_rounds: 0,
        max_version_string_len: 64,
        max_txn_bytes_per_block: 1000000,
        max_txn_note_bytes: 1024,
        max_txn_life: 1000,
        approved_upgrades: upgrades,
        support_genesis_hash: false,
        require_genesis_hash: false,
        default_key_dilution: 10000,
        min_balance: 100000,
        min_txn_fee: 1000,
        enable_fee_pooling: false,
        enable_app_cost_pooling: false,
        reward_unit: 1_000_000,
        rewards_rate_refresh_interval: 500_000,
        seed_lookback: 2,
        seed_refresh_interval: 80,
        max_bal_lookback: 320,
        num_proposers: 20,
        soft_committee_size: 2990,
        soft_committee_threshold: 2267,
        cert_committee_size: 1500,
        cert_committee_threshold: 1112,
        next_committee_size: 5000,
        next_committee_threshold: 3838,
        late_committee_size: 500,
        late_committee_threshold: 320,
        redo_committee_size: 2400,
        redo_committee_threshold: 1768,
        down_committee_size: 6000,
        down_committee_threshold: 4560,
        agreement_filter_timeout: 4_000_000_000,
        agreement_filter_timeout_period0: 4_000_000_000,
        fast_recovery_lambda: 300_000_000_000,
        payset_commit: PaysetCommitType::PaysetCommitUnsupported,
        max_timestamp_increment: 25,
        support_signed_txn_in_block: false,
        force_non_participating_fee_sink: false,
        apply_data: false,
        rewards_in_apply_data: false,
        credential_domain_separation_enabled: false,
        support_become_non_participating_transactions: false,
        pending_residue_rewards: false,
        asset: false,
        max_assets_per_account: 0,
        max_asset_name_bytes: 0,
        max_asset_unit_name_bytes: 0,
        max_asset_url_bytes: 0,
        txn_counter: false,
        support_tx_groups: false,
        max_tx_group_size: 1,
        support_transaction_leases: false,
        fix_transaction_leases: false,
        logic_sig_version: 0,
        logic_sig_max_size: 0,
        logic_sig_max_cost: 0,
        max_asset_decimals: 0,
        support_rekeying: false,
        application: false,
        max_app_args: 0,
        max_app_total_arg_len: 0,
        max_app_program_len: 0,
        max_app_total_program_len: 0,
        max_extra_app_program_pages: 0,
        max_app_txn_accounts: 0,
        max_app_txn_foreign_apps: 0,
        max_app_txn_foreign_assets: 0,
        max_app_total_txn_references: 0,
        max_app_program_cost: 0,
        max_app_key_len: 0,
        max_app_bytes_value_len: 0,
        max_app_sum_key_value_lens: 0,
        max_inner_transactions: 0,
        enable_inner_transaction_pooling: false,
        isolate_clear_state: false,
        min_inner_appl_version: 0,
        max_apps_created: 0,
        max_apps_opted_in: 0,
        app_flat_params_min_balance: 0,
        app_flat_opt_in_min_balance: 0,
        schema_min_balance_per_entry: 0,
        schema_uint_min_balance: 0,
        schema_bytes_min_balance: 0,
        max_local_schema_entries: 0,
        max_global_schema_entries: 0,
        maximum_minimum_balance: 0,
        compact_cert_rounds: 0,
        compact_cert_top_voters: 0,
        compact_cert_voters_lookback: 0,
        compact_cert_weight_threshold: 0,
        compact_cert_sec_kq: 0,
        enable_asset_close_amount: false,
        initial_rewards_rate_calculation: false,
        no_empty_local_deltas: false,
        enable_keyreg_coherency_check: false,
        enable_extra_pages_on_app_update: false,
        max_proposed_expired_online_accounts: 0,
        enable_account_data_resource_separation: false,
        enable_batch_verification: false,
        rewards_calculation_fix: false,
        enable_state_proof_keyreg_check: false,
        max_keyreg_valid_period: 0,
        unify_inner_tx_i_ds: false,
        enable_sha256_txn_commitment_header: false,
    };
    proof {
        assert(p.abs() == consensus_v10_abs());
    }
    p
}

/// Builds the record for protocol version v11.
fn consensus_v11_params() -> (r: ConsensusParams)
    ensures
        r.wf(),
        r.abs() == consensus_v11_abs(),
{
    let mut upgrades: VecMap<String, u64> = VecMap::new();
    upgrades.insert(String::from_str(CONSENSUS_V12), 0);
    proof {
        assert(upgrades.as_map() =~= map!["v12"@ => 0u64]);
    }
    let p = ConsensusParams {
        upgrade_vote_rounds: 10000,
        upgrade_threshold: 9000,
        default_upgrade_wait_rounds: 10000,
        min_upgrade_wait_rounds: 0,
        max_upgrade_wait_rounds: 0,
        max_version_string_len: 64,
        max_txn_bytes_per_block: 1000000,
        max_txn_note_bytes: 1024,
        max_txn_life: 1000,
        approved_upgrades: upgrades,
        support_genesis_hash: false,
        require_genesis_hash: false,
        default_key_dilution: 10000,
        min_balance: 100000,
        min_txn_fee: 1000,
        enable_fee_pooling: false,
        enable_app_cost_pooling: false,
        reward_unit: 1_000_000,
        rewards_rate_refresh_interval: 500_000,
        seed_lookback: 2,
        seed_refresh_interval: 80,
        max_bal_lookback: 320,
        num_proposers: 20,
        soft_committee_size: 2990,
        soft_committee_threshold: 2267,
        cert_committee_size: 1500,
        cert_committee_threshold: 1112,
        next_committee_size: 5000,
        next_committee_threshold: 3838,
        late_committee_size: 500,
        late_committee_threshold: 320,
        redo_committee_size: 2400,
        redo_committee_threshold: 1768,
        down_committee_size: 6000,
        down_committee_threshold: 4560,
        agreement_filter_timeout: 4_000_000_000,
        agreement_filter_timeout_period0: 4_000_000_000,
        fast_recovery_lambda: 300_000_000_000,
        payset_commit: PaysetCommitType::PaysetCommitFlat,
        max_timestamp_increment: 25,
        support_signed_txn_in_block: true,
        force_non_participating_fee_sink: false,
        apply_data: false,
        rewards_in_apply_data: false,
        credential_domain_separation_enabled: false,
        support_become_non_participating_transactions: false,
        pending_residue_rewards: false,
        asset: false,
        max_assets_per_account: 0,
        max_asset_name_bytes: 0,
        max_asset_unit_name_bytes: 0,
        max_asset_url_bytes: 0,
        txn_counter: false,
        support_tx_groups: false,
        max_tx_group_size: 1,
        support_transaction_leases: false,
        fix_transaction_leases: false,
        logic_sig_version: 0,
        logic_sig_max_size: 0,
        logic_sig_max_cost: 0,
        max_asset_decimals: 0,
        support_rekeying: false,
        application: false,
        max_app_args: 0,
        max_app_total_arg_len: 0,
        max_app_program_len: 0,
        max_app_total_program_len: 0,
        max_extra_app_program_pages: 0,
        max_app_txn_accounts: 0,
        max_app_txn_foreign_apps: 0,
        max_app_txn_foreign_assets: 0,
        max_app_total_txn_references: 0,
        max_app_program_cost: 0,
        max_app_key_len: 0,
        max_app_bytes_value_len: 0,
        max_app_sum_key_value_lens: 0,
        max_inner_transactions: 0,
        enable_inner_transaction_pooling: false,
        isolate_clear_state: false,
        min_inner_appl_version: 0,
        max_apps_created: 0,
        max_apps_opted_in: 0,
        app_flat_params_min_balance: 0,
        app_flat_opt_in_min_balance: 0,
        schema_min_balance_per_entry: 0,
        schema_uint_min_balance: 0,
        schema_bytes_min_balance: 0,
        max_local_schema_entries: 0,
        max_global_schema_entries: 0,
        maximum_minimum_balance: 0,
        compact_cert_rounds: 0,
        compact_cert_top_voters: 0,
        compact_cert_voters_lookback: 0,
        compact_cert_weight_threshold: 0,
        compact_cert_sec_kq: 0,
        enable_asset_close_amount: false,
        initial_rewards_rate_calculation: false,
        no_empty_local_deltas: false,
        enable_keyreg_coherency_check: false,
        enable_extra_pages_on_app_update: false,
        max_proposed_expired_online_accounts: 0,
        enable_account_data_resource_separation: false,
        enable_batch_verification: false,
        rewards_calculation_fix: false,
        enable_state_proof_keyreg_check: false,
        max_keyreg_valid_period: 0,
        unify_inner_tx_i_ds: false,
        enable_sha256_txn_commitment_header: false,
    };
    proof {
        assert(p.abs() == consensus_v11_abs());
    }
    p
}

/// Builds the record for protocol version v12.
fn consensus_v12_params() -> (r: ConsensusParams)
    ensures
        r.wf(),
        r.abs() == consensus_v12_abs(),
{
    let mut upgrades: VecMap<String, u64> = VecMap::new();
    upgrades.insert(String::from_str(CONSENSUS_V13), 0);
    proof {
        assert(upgrades.as_map() =~= map!["v13"@ => 0u64]);
    }
    let p = ConsensusParams {
        upgrade_vote_rounds: 10000,
        upgrade_threshold: 9000,
        default_upgrade_wait_rounds: 10000,
        min_upgrade_wait_rounds: 0,
        max_upgrade_wait_rounds: 0,
        max_version_string_len: 128,
        max_txn_bytes_per_block: 1000000,
        max_txn_note_bytes: 1024,
        max_txn_life: 1000,
        approved_upgrades: upgrades,
        support_genesis_hash: false,
        require_genesis_hash: false,
        default_key_dilution: 10000,
        min_balance: 100000,
        min_txn_fee: 1000,
        enable_fee_pooling: false,
        enable_app_cost_pooling: false,
        reward_unit: 1_000_000,
        rewards_rate_refresh_interval: 500_000,
        seed_lookback: 2,
        seed_refresh_interval: 80,
        max_bal_lookback: 320,
        num_proposers: 20,
        soft_committee_size: 2990,
        soft_committee_threshold: 2267,
        cert_committee_size: 1500,
        cert_committee_threshold: 1112,
        next_committee_size: 5000,
        next_committee_threshold: 3838,
        late_committee_size: 500,
        late_committee_threshold: 320,
        redo_committee_size: 2400,
        redo_committee_threshold: 1768,
        down_committee_size: 6000,
        down_committee_threshold: 4560,
        agreement_filter_timeout: 4_000_000_000,
        agreement_filter_timeout_period0: 4_000_000_000,
        fast_recovery_lambda: 300_000_000_000,
        payset_commit: PaysetCommitType::PaysetCommitFlat,
        max_timestamp_increment: 25,
        support_signed_txn_in_block: true,
        force_non_participating_fee_sink: false,
        apply_data: false,
        rewards_in_apply_data: false,
        credential_domain_separation_enabled: false,
        support_become_non_participating_transactions: false,
        pending_residue_rewards: false,
        asset: false,
        max_assets_per_account: 0,
        max_asset_name_bytes: 0,
        max_asset_unit_name_bytes: 0,
        max_asset_url_bytes: 0,
        txn_counter: false,
        support_tx_groups: false,
        max_tx_group_size: 1,
        support_transaction_leases: false,
        fix_transaction_leases: false,
        logic_sig_version: 0,
        logic_sig_max_size: 0,
        logic_sig_max_cost: 0,
        max_asset_decimals: 0,
        support_rekeying: false,
        application: false,
        max_app_args: 0,
        max_app_total_arg_len: 0,
        max_app_program_len: 0,
        max_app_total_program_len: 0,
        max_extra_app_program_pages: 0,
        max_app_txn_accounts: 0,
        max_app_txn_foreign_apps: 0,
        max_app_txn_foreign_assets: 0,
        max_app_total_txn_references: 0,
        max_app_program_cost: 0,
        max_app_key_len: 0,
        max_app_bytes_value_len: 0,
        max_app_sum_key_value_lens: 0,
        max_inner_transactions: 0,
        enable_inner_transaction_pooling: false,
        isolate_clear_state: false,
        min_inner_appl_version: 0,
        max_apps_created: 0,
        max_apps_opted_in: 0,
        app_flat_params_min_balance: 0,
        app_flat_opt_in_min_balance: 0,
        schema_min_balance_per_entry: 0,
        schema_uint_min_balance: 0,
        schema_bytes_min_balance: 0,
        max_local_schema_entries: 0,
        max_global_schema_entries: 0,
        maximum_minimum_balance: 0,
        compact_cert_rounds: 0,
        compact_cert_top_voters: 0,
        compact_cert_voters_lookback: 0,
        compact_cert_weight_threshold: 0,
        compact_cert_sec_kq: 0,
        enable_asset_close_amount: false,
        initial_rewards_rate_calculation: false,
        no_empty_local_deltas: false,
        enable_keyreg_coherency_check: false,
        enable_extra_pages_on_app_update: false,
        max_proposed_expired_online_accounts: 0,
        enable_account_data_resource_separation: false,
        enable_batch_verification: false,
        rewards_calculation_fix: false,
        enable_state_proof_keyreg_check: false,
        max_keyreg_valid_period: 0,
        unify_inner_tx_i_ds: false,
        enable_sha256_txn_commitment_header: false,
    };
    proof {
        assert(p.abs() == consensus_v12_abs());
    }
    p
}

/// Builds the record for protocol version v13.
fn consensus_v13_params() -> (r: ConsensusParams)
    ensures
        r.wf(),
        r.abs() == consensus_v13_abs(),
{
    let mut upgrades: VecMap<String, u64> = VecMap::new();
    upgrades.insert(String::from_str(CONSENSUS_V14), 0);
    proof {
        assert(upgrades.as_map() =~= map!["v14"@ => 0u64]);
    }
    let p = ConsensusParams {
        upgrade_vote_rounds: 10000,
        upgrade_threshold: 9000,
        default_upgrade_wait_rounds: 10000,
        min_upgrade_wait_rounds: 0,
        max_upgrade_wait_rounds: 0,
        max_version_string_len: 128,
        max_txn_bytes_per_block: 1000000,
        max_txn_note_bytes: 1024,
        max_txn_life: 1000,
        approved_upgrades: upgrades,
        support_genesis_hash: false,
        require_genesis_hash: false,
        default_key_dilution: 10000,
        min_balance: 100000,
        min_txn_fee: 1000,
        enable_fee_pooling: false,
        enable_app_cost_pooling: false,
        reward_unit: 1_000_000,
        rewards_rate_refresh_interval: 500_000,
        seed_lookback: 2,
        seed_refresh_interval: 80,
        max_bal_lookback: 320,
        num_proposers: 20,
        soft_committee_size: 2990,
        soft_committee_threshold: 2267,
        cert_committee_size: 1500,
        cert_committee_threshold: 1112,
        next_committee_size: 5000,
        next_committee_threshold: 3838,
        late_committee_size: 500,
        late_committee_threshold: 320,
        redo_committee_size: 2400,
        redo_committee_threshold: 1768,
        down_committee_size: 6000,
        down_committee_threshold: 4560,
        agreement_filter_timeout: 4_000_000_000,
        agreement_filter_timeout_period0: 4_000_000_000,
        fast_recovery_lambda: 300_000_000_000,
        payset_commit: PaysetCommitType::PaysetCommitFlat,
        max_timestamp_increment: 25,
        support_signed_txn_in_block: true,
        force_non_participating_fee_sink: false,
        apply_data: false,
        rewards_in_apply_data: false,
        credential_domain_separation_enabled: false,
        support_become_non_participating_transactions: false,
        pending_residue_rewards: false,
        asset: false,
        max_assets_per_account: 0,
        max_asset_name_bytes: 0,
        max_asset_unit_name_bytes: 0,
        max_asset_url_bytes: 0,
        txn_counter: false,
        support_tx_groups: false,
        max_tx_group_size: 1,
        support_transaction_leases: false,
        fix_transaction_leases: false,
        logic_sig_version: 0,
        logic_sig_max_size: 0,
        logic_sig_max_cost: 0,
        max_asset_decimals: 0,
        support_rekeying: false,
        application: false,
        max_app_args: 0,
        max_app_total_arg_len: 0,
        max_app_program_len: 0,
        max_app_total_program_len: 0,
        max_extra_app_program_pages: 0,
        max_app_txn_accounts: 0,
        max_app_txn_foreign_apps: 0,
        max_app_txn_foreign_assets: 0,
        max_app_total_txn_references: 0,
        max_app_program_cost: 0,
        max_app_key_len: 0,
        max_app_bytes_value_len: 0,
        max_app_sum_key_value_lens: 0,
        max_inner_transactions: 0,
        enable_inner_transaction_pooling: false,
        isolate_clear_state: false,
        min_inner_appl_version: 0,
        max_apps_created: 0,
        max_apps_opted_in: 0,
        app_flat_params_min_balance: 0,
        app_flat_opt_in_min_balance: 0,
        schema_min_balance_per_entry: 0,
        schema_uint_min_balance: 0,
        schema_bytes_min_balance: 0,
        max_local_schema_entries: 0,
        max_global_schema_entries: 0,
        maximum_minimum_balance: 0,
        compact_cert_rounds: 0,
        compact_cert_top_voters: 0,
        compact_cert_voters_lookback: 0,
        compact_cert_weight_threshold: 0,
        compact_cert_sec_kq: 0,
        enable_asset_close_amount: false,
        initial_rewards_rate_calculation: false,
        no_empty_local_deltas: false,
        enable_keyreg_coherency_check: false,
        enable_extra_pages_on_app_update: false,
        max_proposed_expired_online_accounts: 0,
        enable_account_data_resource_separation: false,
        enable_batch_verification: false,
        rewards_calculation_fix: false,
        enable_state_proof_keyreg_check: false,
        max_keyreg_valid_period: 0,
        unify_inner_tx_i_ds: false,
        enable_sha256_txn_commitment_header: false,
    };
    proof {
        assert(p.abs() == consensus_v13_abs());
    }
    p
}

/// Builds the record for protocol version v14.
fn consensus_v14_params() -> (r: ConsensusParams)
    ensures
        r.wf(),
        r.abs() == consensus_v14_abs(),
{
    let mut upgrades: VecMap<String, u64> = VecMap::new();
    upgrades.insert(String::from_str(CONSENSUS_V15), 0);
    proof {
        assert(upgrades.as_map() =~= map!["v15"@ => 0u64]);
    }
    let p = ConsensusParams {
        upgrade_vote_rounds: 10000,
        upgrade_threshold: 9000,
        default_upgrade_wait_rounds: 10000,
        min_upgrade_wait_rounds: 0,
        max_upgrade_wait_rounds: 0,
        max_version_string_len: 128,
        max_txn_bytes_per_block: 1000000,
        max_txn_note_bytes: 1024,
        max_txn_life: 1000,
        approved_upgrades: upgrades,
        support_genesis_hash: true,
        require_genesis_hash: false,
        default_key_dilution: 10000,
        min_balance: 100000,
        min_txn_fee: 1000,
        enable_fee_pooling: false,
        enable_app_cost_pooling: false,
        reward_unit: 1_000_000,
        rewards_rate_refresh_interval: 500_000,
        seed_lookback: 2,
        seed_refresh_interval: 80,
        max_bal_lookback: 320,
        num_proposers: 20,
        soft_committee_size: 2990,
        soft_committee_threshold: 2267,
        cert_committee_size: 1500,
        cert_committee_threshold: 1112,
        next_committee_size: 5000,
        next_committee_threshold: 3838,
        late_committee_size: 500,
        late_committee_threshold: 320,
        redo_committee_size: 2400,
        redo_committee_threshold: 1768,
        down_committee_size: 6000,
        down_committee_threshold: 4560,
        agreement_filter_timeout: 4_000_000_000,
        agreement_filter_timeout_period0: 4_000_000_000,
        fast_recovery_lambda: 300_000_000_000,
        payset_commit: PaysetCommitType::PaysetCommitFlat,
        max_timestamp_increment: 25,
        support_signed_txn_in_block: true,
        force_non_participating_fee_sink: false,
        apply_data: true,
        rewards_in_apply_data: false,
        credential_domain_separation_enabled: false,
        support_become_non_participating_transactions: false,
        pending_residue_rewards: false,
        asset: false,
        max_assets_per_account: 0,
        max_asset_name_bytes: 0,
        max_asset_unit_name_bytes: 0,
        max_asset_url_bytes: 0,
        txn_counter: false,
        support_tx_groups: false,
        max_tx_group_size: 1,
        support_transaction_leases: false,
        fix_transaction_leases: false,
        logic_sig_version: 0,
        logic_sig_max_size: 0,
        logic_sig_max_cost: 0,
        max_asset_decimals: 0,
        support_rekeying: false,
        application: false,
        max_app_args: 0,
        max_app_total_arg_len: 0,
        max_app_program_len: 0,
        max_app_total_program_len: 0,
        max_extra_app_program_pages: 0,
        max_app_txn_accounts: 0,
        max_app_txn_foreign_apps: 0,
        max_app_txn_foreign_assets: 0,
        max_app_total_txn_references: 0,
        max_app_program_cost: 0,
        max_app_key_len: 0,
        max_app_bytes_value_len: 0,
        max_app_sum_key_value_lens: 0,
        max_inner_transactions: 0,
        enable_inner_transaction_pooling: false,
        isolate_clear_state: false,
        min_inner_appl_version: 0,
        max_apps_created: 0,
        max_apps_opted_in: 0,
        app_flat_params_min_balance: 0,
        app_flat_opt_in_min_balance: 0,
        schema_min_balance_per_entry: 0,
        schema_uint_min_balance: 0,
        schema_bytes_min_balance: 0,
        max_local_schema_entries: 0,
        max_global_schema_entries: 0,
        maximum_minimum_balance: 0,
        compact_cert_rounds: 0,
        compact_cert_top_voters: 0,
        compact_cert_voters_lookback: 0,
        compact_cert_weight_threshold: 0,
        compact_cert_sec_kq: 0,
        enable_asset_close_amount: false,
        initial_rewards_rate_calculation: false,
        no_empty_local_deltas: false,
        enable_keyreg_coherency_check: false,
        enable_extra_pages_on_app_update: false,
        max_proposed_expired_online_accounts: 0,
        enable_account_data_resource_separation: false,
        enable_batch_verification: false,
        rewards_calculation_fix: false,
        enable_state_proof_keyreg_check: false,
        max_keyreg_valid_period: 0,
        unify_inner_tx_i_ds: false,
        enable_sha256_txn_commitment_header: false,
    };
    proof {
        assert(p.abs() == consensus_v14_abs());
    }
    p
}

/// Builds the record for protocol version v15.
fn consensus_v15_params() -> (r: ConsensusParams)
    ensures
        r.wf(),
        r.abs() == consensus_v15_abs(),
{
    let mut upgrades: VecMap<String, u64> = VecMap::new();
    upgrades.insert(String::from_str(CONSENSUS_V16), 0);
    proof {
        assert(upgrades.as_map() =~= map!["v16"@ => 0u64]);
    }
    let p = ConsensusParams {
        upgrade_vote_rounds: 10000,
        upgrade_threshold: 9000,
        default_upgrade_wait_rounds: 10000,
        min_upgrade_wait_rounds: 0,
        max_upgrade_wait_rounds: 0,
        max_version_string_len: 128,
        max_txn_bytes_per_block: 1000000,
        max_txn_note_bytes: 1024,
        max_txn_life: 1000,
        approved_upgrades: upgrades,
        support_genesis_hash: true,
        require_genesis_hash: false,
        default_key_dilution: 10000,
        min_balance: 100000,
        min_txn_fee: 1000,
        enable_fee_pooling: false,
        enable_app_cost_pooling: false,
        reward_unit: 1_000_000,
        rewards_rate_refresh_interval: 500_000,
        seed_lookback: 2,
        seed_refresh_interval: 80,
        max_bal_lookback: 320,
        num_proposers: 20,
        soft_committee_size: 2990,
        soft_committee_threshold: 2267,
        cert_committee_size: 1500,
        cert_committee_threshold: 1112,
        next_committee_size: 5000,
        next_committee_threshold: 3838,
        late_committee_size: 500,
        late_committee_threshold: 320,
        redo_committee_size: 2400,
        redo_committee_threshold: 1768,
        down_committee_size: 6000,
        down_committee_threshold: 4560,
        agreement_filter_timeout: 4_000_000_000,
        agreement_filter_timeout_period0: 4_000_000_000,
        fast_recovery_lambda: 300_000_000_000,
        payset_commit: PaysetCommitType::PaysetCommitFlat,
        max_timestamp_increment: 25,
        support_signed_txn_in_block: true,
        force_non_participating_fee_sink: true,
        apply_data: true,
        rewards_in_apply_data: true,
        credential_domain_separation_enabled: false,
        support_become_non_participating_transactions: false,
        pending_residue_rewards: false,
        asset: false,
        max_assets_per_account: 0,
        max_asset_name_bytes: 0,
        max_asset_unit_name_bytes: 0,
        max_asset_url_bytes: 0,
        txn_counter: false,
        support_tx_groups: false,
        max_tx_group_size: 1,
        support_transaction_leases: false,
        fix_transaction_leases: false,
        logic_sig_version: 0,
        logic_sig_max_size: 0,
        logic_sig_max_cost: 0,
        max_asset_decimals: 0,
        support_rekeying: false,
        application: false,
        max_app_args: 0,
        max_app_total_arg_len: 0,
        max_app_program_len: 0,
        max_app_total_program_len: 0,
        max_extra_app_program_pages: 0,
        max_app_txn_accounts: 0,
        max_app_txn_foreign_apps: 0,
        max_app_txn_foreign_assets: 0,
        max_app_total_txn_references: 0,
        max_app_program_cost: 0,
        max_app_key_len: 0,
        max_app_bytes_value_len: 0,
        max_app_sum_key_value_lens: 0,
        max_inner_transactions: 0,
        enable_inner_transaction_pooling: false,
        isolate_clear_state: false,
        min_inner_appl_version: 0,
        max_apps_created: 0,
        max_apps_opted_in: 0,
        app_flat_params_min_balance: 0,
        app_flat_opt_in_min_balance: 0,
        schema_min_balance_per_entry: 0,
        schema_uint_min_balance: 0,
        schema_bytes_min_balance: 0,
        max_local_schema_entries: 0,
        max_global_schema_entries: 0,
        maximum_minimum_balance: 0,
        compact_cert_rounds: 0,
        compact_cert_top_voters: 0,
        compact_cert_voters_lookback: 0,
        compact_cert_weight_threshold: 0,
        compact_cert_sec_kq: 0,
        enable_asset_close_amount: false,
        initial_rewards_rate_calculation: false,
        no_empty_local_deltas: false,
        enable_keyreg_coherency_check: false,
        enable_extra_pages_on_app_update: false,
        max_proposed_expired_online_accounts: 0,
        enable_account_data_resource_separation: false,
        enable_batch_verification: false,
        rewards_calculation_fix: false,
        enable_state_proof_keyreg_check: false,
        max_keyreg_valid_period: 0,
        unify_inner_tx_i_ds: false,
        enable_sha256_txn_commitment_header: false,
    };
    proof {
        assert(p.abs() == consensus_v15_abs());
    }
    p
}

/// Builds the record for protocol version v16.
fn consensus_v16_params() -> (r: ConsensusParams)
    ensures
        r.wf(),
        r.abs() == consensus_v16_abs(),
{
    let mut upgrades: VecMap<String, u64> = VecMap::new();
    upgrades.insert(String::from_str(CONSENSUS_V17), 0);
    proof {
        assert(upgrades.as_map() =~= map!["v17"@ => 0u64]);
    }
    let p = ConsensusParams {
        upgrade_vote_rounds: 10000,
        upgrade_threshold: 9000,
        default_upgrade_wait_rounds: 10000,
        min_upgrade_wait_rounds: 0,
        max_upgrade_wait_rounds: 0,
        max_version_string_len: 128,
        max_txn_bytes_per_block: 1000000,
        max_txn_note_bytes: 1024,
        max_txn_life: 1000,
        approved_upgrades: upgrades,
        support_genesis_hash: true,
        require_genesis_hash: true,
        default_key_dilution: 10000,
        min_balance: 100000,
        min_txn_fee: 1000,
        enable_fee_pooling: false,
        enable_app_cost_pooling: false,
        reward_unit: 1_000_000,
        rewards_rate_refresh_interval: 500_000,
        seed_lookback: 2,
        seed_refresh_interval: 80,
        max_bal_lookback: 320,
        num_proposers: 20,
        soft_committee_size: 2990,
        soft_committee_threshold: 2267,
        cert_committee_size: 1500,
        cert_committee_threshold: 1112,
        next_committee_size: 5000,
        next_committee_threshold: 3838,
        late_committee_size: 500,
        late_committee_threshold: 320,
        redo_committee_size: 2400,
        redo_committee_threshold: 1768,
        down_committee_size: 6000,
        down_committee_threshold: 4560,
        agreement_filter_timeout: 4_000_000_000,
        agreement_filter_timeout_period0: 4_000_000_000,
        fast_recovery_lambda: 300_000_000_000,
        payset_commit: PaysetCommitType::PaysetCommitFlat,
        max_timestamp_increment: 25,
        support_signed_txn_in_block: true,
        force_non_participating_fee_sink: true,
        apply_data: true,
        rewards_in_apply_data: true,
        credential_domain_separation_enabled: true,
        support_become_non_participating_transactions: false,
        pending_residue_rewards: false,
        asset: false,
        max_assets_per_account: 0,
        max_asset_name_bytes: 0,
        max_asset_unit_name_bytes: 0,
        max_asset_url_bytes: 0,
        txn_counter: false,
        support_tx_groups: false,
        max_tx_group_size: 1,
        support_transaction_leases: false,
        fix_transaction_leases: false,
        logic_sig_version: 0,
        logic_sig_max_size: 0,
        logic_sig_max_cost: 0,
        max_asset_decimals: 0,
        support_rekeying: false,
        application: false,
        max_app_args: 0,
        max_app_total_arg_len: 0,
        max_app_program_len: 0,
        max_app_total_program_len: 0,
        max_extra_app_program_pages: 0,
        max_app_txn_accounts: 0,
        max_app_txn_foreign_apps: 0,
        max_app_txn_foreign_assets: 0,
        max_app_total_txn_references: 0,
        max_app_program_cost: 0,
        max_app_key_len: 0,
        max_app_bytes_value_len: 0,
        max_app_sum_key_value_lens: 0,
        max_inner_transactions: 0,
        enable_inner_transaction_pooling: false,
        isolate_clear_state: false,
        min_inner_appl_version: 0,
        max_apps_created: 0,
        max_apps_opted_in: 0,
        app_flat_params_min_balance: 0,
        app_flat_opt_in_min_balance: 0,
        schema_min_balance_per_entry: 0,
        schema_uint_min_balance: 0,
        schema_bytes_min_balance: 0,
        max_local_schema_entries: 0,
        max_global_schema_entries: 0,
        maximum_minimum_balance: 0,
        compact_cert_rounds: 0,
        compact_cert_top_voters: 0,
        compact_cert_voters_lookback: 0,
        compact_cert_weight_threshold: 0,
        compact_cert_sec_kq: 0,
        enable_asset_close_amount: false,
        initial_rewards_rate_calculation: false,
        no_empty_local_deltas: false,
        enable_keyreg_coherency_check: false,
        enable_extra_pages_on_app_update: false,
        max_proposed_expired_online_accounts: 0,
        enable_account_data_resource_separation: false,
        enable_batch_verification: false,
        rewards_calculation_fix: false,
        enable_state_proof_keyreg_check: false,
        max_keyreg_valid_period: 0,
        unify_inner_tx_i_ds: false,
        enable_sha256_txn_commitment_header: false,
    };
    proof {
        assert(p.abs() == consensus_v16_abs());
    }
    p
}

/// Builds the record for protocol version v17.
fn consensus_v17_params() -> (r: ConsensusParams)
    ensures
        r.wf(),
        r.abs() == consensus_v17_abs(),
{
    let mut upgrades: VecMap<String, u64> = VecMap::new();
    upgrades.insert(String::from_str(CONSENSUS_V19), 0);
    proof {
        assert(upgrades.as_map() =~= map!["v19"@ => 0u64]);
    }
    let p = ConsensusParams {
        upgrade_vote_rounds: 10000,
        upgrade_threshold: 9000,
        default_upgrade_wait_rounds: 10000,
        min_upgrade_wait_rounds: 0,
        max_upgrade_wait_rounds: 0,
        max_version_string_len: 128,
        max_txn_bytes_per_block: 1000000,
        max_txn_note_bytes: 1024,
        max_txn_life: 1000,
        approved_upgrades: upgrades,
        support_genesis_hash: true,
        require_genesis_hash: true,
        default_key_dilution: 10000,
        min_balance: 100000,
        min_txn_fee: 1000,
        enable_fee_pooling: false,
        enable_app_cost_pooling: false,
        reward_unit: 1_000_000,
        rewards_rate_refresh_interval: 500_000,
        seed_lookback: 2,
        seed_refresh_interval: 80,
        max_bal_lookback: 320,
        num_proposers: 20,
        soft_committee_size: 2990,
        soft_committee_threshold: 2267,
        cert_committee_size: 1500,
        cert_committee_threshold: 1112,
        next_committee_size: 5000,
        next_committee_threshold: 3838,
        late_committee_size: 500,
        late_committee_threshold: 320,
        redo_committee_size: 2400,
        redo_committee_threshold: 1768,
        down_committee_size: 6000,
        down_committee_threshold: 4560,
        agreement_filter_timeout: 4_000_000_000,
        agreement_filter_timeout_period0: 4_000_000_000,
        fast_recovery_lambda: 300_000_000_000,
        payset_commit: PaysetCommitType::PaysetCommitFlat,
        max_timestamp_increment: 25,
        support_signed_txn_in_block: true,
        force_non_participating_fee_sink: true,
        apply_data: true,
        rewards_in_apply_data: true,
        credential_domain_separation_enabled: true,
        support_become_non_participating_transactions: false,
        pending_residue_rewards: false,
        asset: false,
        max_assets_per_account: 0,
        max_asset_name_bytes: 0,
        max_asset_unit_name_bytes: 0,
        max_asset_url_bytes: 0,
        txn_counter: false,
        support_tx_groups: false,
        max_tx_group_size: 1,
        support_transaction_leases: false,
        fix_transaction_leases: false,
        logic_sig_version: 0,
        logic_sig_max_size: 0,
        logic_sig_max_cost: 0,
        max_asset_decimals: 0,
        support_rekeying: false,
        application: false,
        max_app_args: 0,
        max_app_total_arg_len: 0,
        max_app_program_len: 0,
        max_app_total_program_len: 0,
        max_extra_app_program_pages: 0,
        max_app_txn_accounts: 0,
        max_app_txn_foreign_apps: 0,
        max_app_txn_foreign_assets: 0,
        max_app_total_txn_references: 0,
        max_app_program_cost: 0,
        max_app_key_len: 0,
        max_app_bytes_value_len: 0,
        max_app_sum_key_value_lens: 0,
        max_inner_transactions: 0,
        enable_inner_transaction_pooling: false,
        isolate_clear_state: false,
        min_inner_appl_version: 0,
        max_apps_created: 0,
        max_apps_opted_in: 0,
        app_flat_params_min_balance: 0,
        app_flat_opt_in_min_balance: 0,
        schema_min_balance_per_entry: 0,
        schema_uint_min_balance: 0,
        schema_bytes_min_balance: 0,
        max_local_schema_entries: 0,
        max_global_schema_entries: 0,
        maximum_minimum_balance: 0,
        compact_cert_rounds: 0,
        compact_cert_top_voters: 0,
        compact_cert_voters_lookback: 0,
        compact_cert_weight_threshold: 0,
        compact_cert_sec_kq: 0,
        enable_asset_close_amount: false,
        initial_rewards_rate_calculation: false,
        no_empty_local_deltas: false,
        enable_keyreg_coherency_check: false,
        enable_extra_pages_on_app_update: false,
        max_proposed_expired_online_accounts: 0,
        enable_account_data_resource_separation: false,
        enable_batch_verification: false,
        rewards_calculation_fix: false,
        enable_state_proof_keyreg_check: false,
        max_keyreg_valid_period: 0,
        unify_inner_tx_i_ds: false,
        enable_sha256_txn_commitment_header: false,
    };
    proof {
        assert(p.abs() == consensus_v17_abs());
    }
    p
}

/// Builds the record for protocol version v18.
fn consensus_v18_params() -> (r: ConsensusParams)
    ensures
        r.wf(),
        r.abs() == consensus_v18_abs(),
{
    let mut upgrades: VecMap<String, u64> = VecMap::new();
    upgrades.insert(String::from_str(CONSENSUS_V19), 0);
    proof {
        assert(upgrades.as_map() =~= map!["v19"@ => 0u64]);
    }
    let p = ConsensusParams {
        upgrade_vote_rounds: 10000,
        upgrade_threshold: 9000,
        default_upgrade_wait_rounds: 10000,
        min_upgrade_wait_rounds: 0,
        max_upgrade_wait_rounds: 0,
        max_version_string_len: 128,
        max_txn_bytes_per_block: 1000000,
        max_txn_note_bytes: 1024,
        max_txn_life: 1000,
        approved_upgrades: upgrades,
        support_genesis_hash: true,
        require_genesis_hash: true,
        default_key_dilution: 10000,
        min_balance: 100000,
        min_txn_fee: 1000,
        enable_fee_pooling: false,
        enable_app_cost_pooling: false,
        reward_unit: 1_000_000,
        rewards_rate_refresh_interval: 500_000,
        seed_lookback: 2,
        seed_refresh_interval: 80,
        max_bal_lookback: 320,
        num_proposers: 20,
        soft_committee_size: 2990,
        soft_committee_threshold: 2267,
        cert_committee_size: 1500,
        cert_committee_threshold: 1112,
        next_committee_size: 5000,
        next_committee_threshold: 3838,
        late_committee_size: 500,
        late_committee_threshold: 320,
        redo_committee_size: 2400,
        redo_committee_threshold: 1768,
        down_committee_size: 6000,
        down_committee_threshold: 4560,
        agreement_filter_timeout: 4_000_000_000,
        agreement_filter_timeout_period0: 4_000_000_000,
        fast_recovery_lambda: 300_000_000_000,
        payset_commit: PaysetCommitType::PaysetCommitFlat,
        max_timestamp_increment: 25,
        support_signed_txn_in_block: true,
        force_non_participating_fee_sink: true,
        apply_data: true,
        rewards_in_apply_data: true,
        credential_domain_separation_enabled: true,
        support_become_non_participating_transactions: true,
        pending_residue_rewards: true,
        asset: true,
        max_assets_per_account: 1000,
        max_asset_name_bytes: 32,
        max_asset_unit_name_bytes: 8,
        max_asset_url_bytes: 32,
        txn_counter: true,
        support_tx_groups: true,
        max_tx_group_size: 16,
        support_transaction_leases: true,
        fix_transaction_leases: false,
        logic_sig_version: 1,
        logic_sig_max_size: 1000,
        logic_sig_max_cost: 20000,
        max_asset_decimals: 0,
        support_rekeying: false,
        application: false,
        max_app_args: 0,
        max_app_total_arg_len: 0,
        max_app_program_len: 0,
        max_app_total_program_len: 0,
        max_extra_app_program_pages: 0,
        max_app_txn_accounts: 0,
        max_app_txn_foreign_apps: 0,
        max_app_txn_foreign_assets: 0,
        max_app_total_txn_references: 0,
        max_app_program_cost: 0,
        max_app_key_len: 0,
        max_app_bytes_value_len: 0,
        max_app_sum_key_value_lens: 0,
        max_inner_transactions: 0,
        enable_inner_transaction_pooling: false,
        isolate_clear_state: false,
        min_inner_appl_version: 0,
        max_apps_created: 0,
        max_apps_opted_in: 0,
        app_flat_params_min_balance: 0,
        app_flat_opt_in_min_balance: 0,
        schema_min_balance_per_entry: 0,
        schema_uint_min_balance: 0,
        schema_bytes_min_balance: 0,
        max_local_schema_entries: 0,
        max_global_schema_entries: 0,
        maximum_minimum_balance: 0,
        compact_cert_rounds: 0,
        compact_cert_top_voters: 0,
        compact_cert_voters_lookback: 0,
        compact_cert_weight_threshold: 0,
        compact_cert_sec_kq: 0,
        enable_asset_close_amount: false,
        initial_rewards_rate_calculation: false,
        no_empty_local_deltas: false,
        enable_keyreg_coherency_check: false,
        enable_extra_pages_on_app_update: false,
        max_proposed_expired_online_accounts: 0,
        enable_account_data_resource_separation: false,
        enable_batch_verification: false,
        rewards_calculation_fix: false,
        enable_state_proof_keyreg_check: false,
        max_keyreg_valid_period: 0,
        unify_inner_tx_i_ds: false,
        enable_sha256_txn_commitment_header: false,
    };
    proof {
        assert(p.abs() == consensus_v18_abs());
    }
    p
}

/// Builds the record for protocol version v19.
fn consensus_v19_params() -> (r: ConsensusParams)
    ensures
        r.wf(),
        r.abs() == consensus_v19_abs(),
{
    let mut upgrades: VecMap<String, u64> = VecMap::new();
    upgrades.insert(String::from_str(CONSENSUS_V20), 0);
    proof {
        assert(upgrades.as_map() =~= map!["v20"@ => 0u64]);
    }
    let p = ConsensusParams {
        upgrade_vote_rounds: 10000,
        upgrade_threshold: 9000,
        default_upgrade_wait_rounds: 10000,
        min_upgrade_wait_rounds: 0,
        max_upgrade_wait_rounds: 0,
        max_version_string_len: 128,
        max_txn_bytes_per_block: 1000000,
        max_txn_note_bytes: 1024,
        max_txn_life: 1000,
        approved_upgrades: upgrades,
        support_genesis_hash: true,
        require_genesis_hash: true,
        default_key_dilution: 10000,
        min_balance: 100000,
        min_txn_fee: 1000,
        enable_fee_pooling: false,
        enable_app_cost_pooling: false,
        reward_unit: 1_000_000,
        rewards_rate_refresh_interval: 500_000,
        seed_lookback: 2,
        seed_refresh_interval: 80,
        max_bal_lookback: 320,
        num_proposers: 20,
        soft_committee_size: 2990,
        soft_committee_threshold: 2267,
        cert_committee_size: 1500,
        cert_committee_threshold: 1112,
        next_committee_size: 5000,
        next_committee_threshold: 3838,
        late_committee_size: 500,
        late_committee_threshold: 320,
        redo_committee_size: 2400,
        redo_committee_threshold: 1768,
        down_committee_size: 6000,
        down_committee_threshold: 4560,
        agreement_filter_timeout: 4_000_000_000,
        agreement_filter_timeout_period0: 4_000_000_000,
        fast_recovery_lambda: 300_000_000_000,
        payset_commit: PaysetCommitType::PaysetCommitFlat,
        max_timestamp_increment: 25,
        support_signed_txn_in_block: true,
        force_non_participating_fee_sink: true,
        apply_data: true,
        rewards_in_apply_data: true,
        credential_domain_separation_enabled: true,
        support_become_non_participating_transactions: true,
        pending_residue_rewards: true,
        asset: true,
        max_assets_per_account: 1000,
        max_asset_name_bytes: 32,
        max_asset_unit_name_bytes: 8,
        max_asset_url_bytes: 32,
        txn_counter: true,
        support_tx_groups: true,
        max_tx_group_size: 16,
        support_transaction_leases: true,
        fix_transaction_leases: false,
        logic_sig_version: 1,
        logic_sig_max_size: 1000,
        logic_sig_max_cost: 20000,
        max_asset_decimals: 0,
        support_rekeying: false,
        application: false,
        max_app_args: 0,
        max_app_total_arg_len: 0,
        max_app_program_len: 0,
        max_app_total_program_len: 0,
        max_extra_app_program_pages: 0,
        max_app_txn_accounts: 0,
        max_app_txn_foreign_apps: 0,
        max_app_txn_foreign_assets: 0,
        max_app_total_txn_references: 0,
        max_app_program_cost: 0,
        max_app_key_len: 0,
        max_app_bytes_value_len: 0,
        max_app_sum_key_value_lens: 0,
        max_inner_transactions: 0,
        enable_inner_transaction_pooling: false,
        isolate_clear_state: false,
        min_inner_appl_version: 0,
        max_apps_created: 0,
        max_apps_opted_in: 0,
        app_flat_params_min_balance: 0,
        app_flat_opt_in_min_balance: 0,
        schema_min_balance_per_entry: 0,
        schema_uint_min_balance: 0,
        schema_bytes_min_balance: 0,
        max_local_schema_entries: 0,
        max_global_schema_entries: 0,
        maximum_minimum_balance: 0,
        compact_cert_rounds: 0,
        compact_cert_top_voters: 0,
        compact_cert_voters_lookback: 0,
        compact_cert_weight_threshold: 0,
        compact_cert_sec_kq: 0,
        enable_asset_close_amount: false,
        initial_rewards_rate_calculation: false,
        no_empty_local_deltas: false,
        enable_keyreg_coherency_check: false,
        enable_extra_pages_on_app_update: false,
        max_proposed_expired_online_accounts: 0,
        enable_account_data_resource_separation: false,
        enable_batch_verification: false,
        rewards_calculation_fix: false,
        enable_state_proof_keyreg_check: false,
        max_keyreg_valid_period: 0,
        unify_inner_tx_i_ds: false,
        enable_sha256_txn_commitment_header: false,
    };
    proof {
        assert(p.abs() == consensus_v19_abs());
    }
    p
}

/// Builds the record for protocol version v20.
fn consensus_v20_params() -> (r: ConsensusParams)
    ensures
        r.wf(),
        r.abs() == consensus_v20_abs(),
{
    let mut upgrades: VecMap<String, u64> = VecMap::new();
    upgrades.insert(String::from_str(CONSENSUS_V21), 0);
    proof {
        assert(upgrades.as_map() =~= map!["v21"@ => 0u64]);
    }
    let p = ConsensusParams {
        upgrade_vote_rounds: 10000,
        upgrade_threshold: 9000,
        default_upgrade_wait_rounds: 140000,
        min_upgrade_wait_rounds: 0,
        max_upgrade_wait_rounds: 0,
        max_version_string_len: 128,
        max_txn_bytes_per_block: 1000000,
        max_txn_note_bytes: 1024,
        max_txn_life: 1000,
        approved_upgrades: upgrades,
        support_genesis_hash: true,
        require_genesis_hash: true,
        default_key_dilution: 10000,
        min_balance: 100000,
        min_txn_fee: 1000,
        enable_fee_pooling: false,
        enable_app_cost_pooling: false,
        reward_unit: 1_000_000,
        rewards_rate_refresh_interval: 500_000,
        seed_lookback: 2,
        seed_refresh_interval: 80,
        max_bal_lookback: 320,
        num_proposers: 20,
        soft_committee_size: 2990,
        soft_committee_threshold: 2267,
        cert_committee_size: 1500,
        cert_committee_threshold: 1112,
        next_committee_size: 5000,
        next_committee_threshold: 3838,
        late_committee_size: 500,
        late_committee_threshold: 320,
        redo_committee_size: 2400,
        redo_committee_threshold: 1768,
        down_committee_size: 6000,
        down_committee_threshold: 4560,
        agreement_filter_timeout: 4_000_000_000,
        agreement_filter_timeout_period0: 4_000_000_000,
        fast_recovery_lambda: 300_000_000_000,
        payset_commit: PaysetCommitType::PaysetCommitFlat,
        max_timestamp_increment: 25,
        support_signed_txn_in_block: true,
        force_non_participating_fee_sink: true,
        apply_data: true,
        rewards_in_apply_data: true,
        credential_domain_separation_enabled: true,
        support_become_non_participating_transactions: true,
        pending_residue_rewards: true,
        asset: true,
        max_assets_per_account: 1000,
        max_asset_name_bytes: 32,
        max_asset_unit_name_bytes: 8,
        max_asset_url_bytes: 32,
        txn_counter: true,
        support_tx_groups: true,
        max_tx_group_size: 16,
        support_transaction_leases: true,
        fix_transaction_leases: false,
        logic_sig_version: 1,
        logic_sig_max_size: 1000,
        logic_sig_max_cost: 20000,
        max_asset_decimals: 19,
        support_rekeying: false,
        application: false,
        max_app_args: 0,
        max_app_total_arg_len: 0,
        max_app_program_len: 0,
        max_app_total_program_len: 0,
        max_extra_app_program_pages: 0,
        max_app_txn_accounts: 0,
        max_app_txn_foreign_apps: 0,
        max_app_txn_foreign_assets: 0,
        max_app_total_txn_references: 0,
        max_app_program_cost: 0,
        max_app_key_len: 0,
        max_app_bytes_value_len: 0,
        max_app_sum_key_value_lens: 0,
        max_inner_transactions: 0,
        enable_inner_transaction_pooling: false,
        isolate_clear_state: false,
        min_inner_appl_version: 0,
        max_apps_created: 0,
        max_apps_opted_in: 0,
        app_flat_params_min_balance: 0,
        app_flat_opt_in_min_balance: 0,
        schema_min_balance_per_entry: 0,
        schema_uint_min_balance: 0,
        schema_bytes_min_balance: 0,
        max_local_schema_entries: 0,
        max_global_schema_entries: 0,
        maximum_minimum_balance: 0,
        compact_cert_rounds: 0,
        compact_cert_top_voters: 0,
        compact_cert_voters_lookback: 0,
        compact_cert_weight_threshold: 0,
        compact_cert_sec_kq: 0,
        enable_asset_close_amount: false,
        initial_rewards_rate_calculation: false,
        no_empty_local_deltas: false,
        enable_keyreg_coherency_check: false,
        enable_extra_pages_on_app_update: false,
        max_proposed_expired_online_accounts: 0,
        enable_account_data_resource_separation: false,
        enable_batch_verification: false,
        rewards_calculation_fix: false,
        enable_state_proof_keyreg_check: false,
        max_keyreg_valid_period: 0,
        unify_inner_tx_i_ds: false,
        enable_sha256_txn_commitment_header: false,
    };
    proof {
        assert(p.abs() == consensus_v20_abs());
    }
    p
}

/// Builds the record for protocol version v21.
fn consensus_v21_params() -> (r: ConsensusParams)
    ensures
        r.wf(),
        r.abs() == consensus_v21_abs(),
{
    let mut upgrades: VecMap<String, u64> = VecMap::new();
    upgrades.insert(String::from_str(CONSENSUS_V23), 0);
    proof {
        assert(upgrades.as_map() =~= map!["v23"@ => 0u64]);
    }
    let p = ConsensusParams {
        upgrade_vote_rounds: 10000,
        upgrade_threshold: 9000,
        default_upgrade_wait_rounds: 140000,
        min_upgrade_wait_rounds: 0,
        max_upgrade_wait_rounds: 0,
        max_version_string_len: 128,
        max_txn_bytes_per_block: 1000000,
        max_txn_note_bytes: 1024,
        max_txn_life: 1000,
        approved_upgrades: upgrades,
        support_genesis_hash: true,
        require_genesis_hash: true,
        default_key_dilution: 10000,
        min_balance: 100000,
        min_txn_fee: 1000,
        enable_fee_pooling: false,
        enable_app_cost_pooling: false,
        reward_unit: 1_000_000,
        rewards_rate_refresh_interval: 500_000,
        seed_lookback: 2,
        seed_refresh_interval: 80,
        max_bal_lookback: 320,
        num_proposers: 20,
        soft_committee_size: 2990,
        soft_committee_threshold: 2267,
        cert_committee_size: 1500,
        cert_committee_threshold: 1112,
        next_committee_size: 5000,
        next_committee_threshold: 3838,
        late_committee_size: 500,
        late_committee_threshold: 320,
        redo_committee_size: 2400,
        redo_committee_threshold: 1768,
        down_committee_size: 6000,
        down_committee_threshold: 4560,
        agreement_filter_timeout: 4_000_000_000,
        agreement_filter_timeout_period0: 4_000_000_000,
        fast_recovery_lambda: 300_000_000_000,
        payset_commit: PaysetCommitType::PaysetCommitFlat,
        max_timestamp_increment: 25,
        support_signed_txn_in_block: true,
        force_non_participating_fee_sink: true,
        apply_data: true,
        rewards_in_apply_data: true,
        credential_domain_separation_enabled: true,
        support_become_non_participating_transactions: true,
        pending_residue_rewards: true,
        asset: true,
        max_assets_per_account: 1000,
        max_asset_name_bytes: 32,
        max_asset_unit_name_bytes: 8,
        max_asset_url_bytes: 32,
        txn_counter: true,
        support_tx_groups: true,
        max_tx_group_size: 16,
        support_transaction_leases: true,
        fix_transaction_leases: false,
        logic_sig_version: 1,
        logic_sig_max_size: 1000,
        logic_sig_max_cost: 20000,
        max_asset_decimals: 19,
        support_rekeying: false,
        application: false,
        max_app_args: 0,
        max_app_total_arg_len: 0,
        max_app_program_len: 0,
        max_app_total_program_len: 0,
        max_extra_app_program_pages: 0,
        max_app_txn_accounts: 0,
        max_app_txn_foreign_apps: 0,
        max_app_txn_foreign_assets: 0,
        max_app_total_txn_references: 0,
        max_app_program_cost: 0,
        max_app_key_len: 0,
        max_app_bytes_value_len: 0,
        max_app_sum_key_value_lens: 0,
        max_inner_transactions: 0,
        enable_inner_transaction_pooling: false,
        isolate_clear_state: false,
        min_inner_appl_version: 0,
        max_apps_created: 0,
        max_apps_opted_in: 0,
        app_flat_params_min_balance: 0,
        app_flat_opt_in_min_balance: 0,
        schema_min_balance_per_entry: 0,
        schema_uint_min_balance: 0,
        schema_bytes_min_balance: 0,
        max_local_schema_entries: 0,
        max_global_schema_entries: 0,
        maximum_minimum_balance: 0,
        compact_cert_rounds: 0,
        compact_cert_top_voters: 0,
        compact_cert_voters_lookback: 0,
        compact_cert_weight_threshold: 0,
        compact_cert_sec_kq: 0,
        enable_asset_close_amount: false,
        initial_rewards_rate_calculation: false,
        no_empty_local_deltas: false,
        enable_keyreg_coherency_check: false,
        enable_extra_pages_on_app_update: false,
        max_proposed_expired_online_accounts: 0,
        enable_account_data_resource_separation: false,
        enable_batch_verification: false,
        rewards_calculation_fix: false,
        enable_state_proof_keyreg_check: false,
        max_keyreg_valid_period: 0,
        unify_inner_tx_i_ds: false,
        enable_sha256_txn_commitment_header: false,
    };
    proof {
        assert(p.abs() == consensus_v21_abs());
    }
    p
}

/// Builds the record for protocol version v22.
fn consensus_v22_params() -> (r: ConsensusParams)
    ensures
        r.wf(),
        r.abs() == consensus_v22_abs(),
{
    let mut upgrades: VecMap<String, u64> = VecMap::new();
    upgrades.insert(String::from_str(CONSENSUS_V23), 10000);
    proof {
        assert(upgrades.as_map() =~= map!["v23"@ => 10000u64]);
    }
    let p = ConsensusParams {
        upgrade_vote_rounds: 10000,
        upgrade_threshold: 9000,
        default_upgrade_wait_rounds: 140000,
        min_upgrade_wait_rounds: 10000,
        max_upgrade_wait_rounds: 150000,
        max_version_string_len: 128,
        max_txn_bytes_per_block: 1000000,
        max_txn_note_bytes: 1024,
        max_txn_life: 1000,
        approved_upgrades: upgrades,
        support_genesis_hash: true,
        require_genesis_hash: true,
        default_key_dilution: 10000,
        min_balance: 100000,
        min_txn_fee: 1000,
        enable_fee_pooling: false,
        enable_app_cost_pooling: false,
        reward_unit: 1_000_000,
        rewards_rate_refresh_interval: 500_000,
        seed_lookback: 2,
        seed_refresh_interval: 80,
        max_bal_lookback: 320,
        num_proposers: 20,
        soft_committee_size: 2990,
        soft_committee_threshold: 2267,
        cert_committee_size: 1500,
        cert_committee_threshold: 1112,
        next_committee_size: 5000,
        next_committee_threshold: 3838,
        late_committee_size: 500,
        late_committee_threshold: 320,
        redo_committee_size: 2400,
        redo_committee_threshold: 1768,
        down_committee_size: 6000,
        down_committee_threshold: 4560,
        agreement_filter_timeout: 4_000_000_000,
        agreement_filter_timeout_period0: 4_000_000_000,
        fast_recovery_lambda: 300_000_000_000,
        payset_commit: PaysetCommitType::PaysetCommitFlat,
        max_timestamp_increment: 25,
        support_signed_txn_in_block: true,
        force_non_participating_fee_sink: true,
        apply_data: true,
        rewards_in_apply_data: true,
        credential_domain_separation_enabled: true,
        support_become_non_participating_transactions: true,
        pending_residue_rewards: true,
        asset: true,
        max_assets_per_account: 1000,
        max_asset_name_bytes: 32,
        max_asset_unit_name_bytes: 8,
        max_asset_url_bytes: 32,
        txn_counter: true,
        support_tx_groups: true,
        max_tx_group_size: 16,
        support_transaction_leases: true,
        fix_transaction_leases: false,
        logic_sig_version: 1,
        logic_sig_max_size: 1000,
        logic_sig_max_cost: 20000,
        max_asset_decimals: 19,
        support_rekeying: false,
        application: false,
        max_app_args: 0,
        max_app_total_arg_len: 0,
        max_app_program_len: 0,
        max_app_total_program_len: 0,
        max_extra_app_program_pages: 0,
        max_app_txn_accounts: 0,
        max_app_txn_foreign_apps: 0,
        max_app_txn_foreign_assets: 0,
        max_app_total_txn_references: 0,
        max_app_program_cost: 0,
        max_app_key_len: 0,
        max_app_bytes_value_len: 0,
        max_app_sum_key_value_lens: 0,
        max_inner_transactions: 0,
        enable_inner_transaction_pooling: false,
        isolate_clear_state: false,
        min_inner_appl_version: 0,
        max_apps_created: 0,
        max_apps_opted_in: 0,
        app_flat_params_min_balance: 0,
        app_flat_opt_in_min_balance: 0,
        schema_min_balance_per_entry: 0,
        schema_uint_min_balance: 0,
        schema_bytes_min_balance: 0,
        max_local_schema_entries: 0,
        max_global_schema_entries: 0,
        maximum_minimum_balance: 0,
        compact_cert_rounds: 0,
        compact_cert_top_voters: 0,
        compact_cert_voters_lookback: 0,
        compact_cert_weight_threshold: 0,
        compact_cert_sec_kq: 0,
        enable_asset_close_amount: false,
        initial_rewards_rate_calculation: false,
        no_empty_local_deltas: false,
        enable_keyreg_coherency_check: false,
        enable_extra_pages_on_app_update: false,
        max_proposed_expired_online_accounts: 0,
        enable_account_data_resource_separation: false,
        enable_batch_verification: false,
        rewards_calculation_fix: false,
        enable_state_proof_keyreg_check: false,
        max_keyreg_valid_period: 0,
        unify_inner_tx_i_ds: false,
        enable_sha256_txn_commitment_header: false,
    };
    proof {
        assert(p.abs() == consensus_v22_abs());
    }
    p
}

/// Builds the record for protocol version v23.
fn consensus_v23_params() -> (r: ConsensusParams)
    ensures
        r.wf(),
        r.abs() == consensus_v23_abs(),
{
    let mut upgrades: VecMap<String, u64> = VecMap::new();
    upgrades.insert(String::from_str(CONSENSUS_V24), 1400000);
    proof {
        assert(upgrades.as_map() =~= map!["v24"@ => 1400000u64]);
    }
    let p = ConsensusParams {
        upgrade_vote_rounds: 10000,
        upgrade_threshold: 9000,
        default_upgrade_wait_rounds: 140000,
        min_upgrade_wait_rounds: 10000,
        max_upgrade_wait_rounds: 150000,
        max_version_string_len: 128,
        max_txn_bytes_per_block: 1000000,
        max_txn_note_bytes: 1024,
        max_txn_life: 1000,
        approved_upgrades: upgrades,
        support_genesis_hash: true,
        require_genesis_hash: true,
        default_key_dilution: 10000,
        min_balance: 100000,
        min_txn_fee: 1000,
        enable_fee_pooling: false,
        enable_app_cost_pooling: false,
        reward_unit: 1_000_000,
        rewards_rate_refresh_interval: 500_000,
        seed_lookback: 2,
        seed_refresh_interval: 80,
        max_bal_lookback: 320,
        num_proposers: 20,
        soft_committee_size: 2990,
        soft_committee_threshold: 2267,
        cert_committee_size: 1500,
        cert_committee_threshold: 1112,
        next_committee_size: 5000,
        next_committee_threshold: 3838,
        late_committee_size: 500,
        late_committee_threshold: 320,
        redo_committee_size: 2400,
        redo_committee_threshold: 1768,
        down_committee_size: 6000,
        down_committee_threshold: 4560,
        agreement_filter_timeout: 4_000_000_000,
        agreement_filter_timeout_period0: 4_000_000_000,
        fast_recovery_lambda: 300_000_000_000,
        payset_commit: PaysetCommitType::PaysetCommitFlat,
        max_timestamp_increment: 25,
        support_signed_txn_in_block: true,
        force_non_participating_fee_sink: true,
        apply_data: true,
        rewards_in_apply_data: true,
        credential_domain_separation_enabled: true,
        support_become_non_participating_transactions: true,
        pending_residue_rewards: true,
        asset: true,
        max_assets_per_account: 1000,
        max_asset_name_bytes: 32,
        max_asset_unit_name_bytes: 8,
        max_asset_url_bytes: 32,
        txn_counter: true,
        support_tx_groups: true,
        max_tx_group_size: 16,
        support_transaction_leases: true,
        fix_transaction_leases: true,
        logic_sig_version: 1,
        logic_sig_max_size: 1000,
        logic_sig_max_cost: 20000,
        max_asset_decimals: 19,
        support_rekeying: false,
        application: false,
        max_app_args: 0,
        max_app_total_arg_len: 0,
        max_app_program_len: 0,
        max_app_total_program_len: 0,
        max_extra_app_program_pages: 0,
        max_app_txn_accounts: 0,
        max_app_txn_foreign_apps: 0,
        max_app_txn_foreign_assets: 0,
        max_app_total_txn_references: 0,
        max_app_program_cost: 0,
        max_app_key_len: 0,
        max_app_bytes_value_len: 0,
        max_app_sum_key_value_lens: 0,
        max_inner_transactions: 0,
        enable_inner_transaction_pooling: false,
        isolate_clear_state: false,
        min_inner_appl_version: 0,
        max_apps_created: 0,
        max_apps_opted_in: 0,
        app_flat_params_min_balance: 0,
        app_flat_opt_in_min_balance: 0,
        schema_min_balance_per_entry: 0,
        schema_uint_min_balance: 0,
        schema_bytes_min_balance: 0,
        max_local_schema_entries: 0,
        max_global_schema_entries: 0,
        maximum_minimum_balance: 0,
        compact_cert_rounds: 0,
        compact_cert_top_voters: 0,
        compact_cert_voters_lookback: 0,
        compact_cert_weight_threshold: 0,
        compact_cert_sec_kq: 0,
        enable_asset_close_amount: false,
        initial_rewards_rate_calculation: false,
        no_empty_local_deltas: false,
        enable_keyreg_coherency_check: false,
        enable_extra_pages_on_app_update: false,
        max_proposed_expired_online_accounts: 0,
        enable_account_data_resource_separation: false,
        enable_batch_verification: false,
        rewards_calculation_fix: false,
        enable_state_proof_keyreg_check: false,
        max_keyreg_valid_period: 0,
        unify_inner_tx_i_ds: false,
        enable_sha256_txn_commitment_header: false,
    };
    proof {
        assert(p.abs() == consensus_v23_abs());
    }
    p
}

/// Builds the record for protocol version v24.
fn consensus_v24_params() -> (r: ConsensusParams)
    ensures
        r.wf(),
        r.abs() == consensus_v24_abs(),
{
    let mut upgrades: VecMap<String, u64> = VecMap::new();
    upgrades.insert(String::from_str(CONSENSUS_V26), 140000);
    proof {
        assert(upgrades.as_map() =~= map!["v26"@ => 140000u64]);
    }
    let p = ConsensusParams {
        upgrade_vote_rounds: 10000,
        upgrade_threshold: 9000,
        default_upgrade_wait_rounds: 140000,
        min_upgrade_wait_rounds: 10000,
        max_upgrade_wait_rounds: 150000,
        max_version_string_len: 128,
        max_txn_bytes_per_block: 1000000,
        max_txn_note_bytes: 1024,
        max_txn_life: 1000,
        approved_upgrades: upgrades,
        support_genesis_hash: true,
        require_genesis_hash: true,
        default_key_dilution: 10000,
        min_balance: 100000,
        min_txn_fee: 1000,
        enable_fee_pooling: false,
        enable_app_cost_pooling: false,
        reward_unit: 1_000_000,
        rewards_rate_refresh_interval: 500_000,
        seed_lookback: 2,
        seed_refresh_interval: 80,
        max_bal_lookback: 320,
        num_proposers: 20,
        soft_committee_size: 2990,
        soft_committee_threshold: 2267,
        cert_committee_size: 1500,
        cert_committee_threshold: 1112,
        next_committee_size: 5000,
        next_committee_threshold: 3838,
        late_committee_size: 500,
        late_committee_threshold: 320,
        redo_committee_size: 2400,
        redo_committee_threshold: 1768,
        down_committee_size: 6000,
        down_committee_threshold: 4560,
        agreement_filter_timeout: 4_000_000_000,
        agreement_filter_timeout_period0: 4_000_000_000,
        fast_recovery_lambda: 300_000_000_000,
        payset_commit: PaysetCommitType::PaysetCommitFlat,
        max_timestamp_increment: 25,
        support_signed_txn_in_block: true,
        force_non_participating_fee_sink: true,
        apply_data: true,
        rewards_in_apply_data: true,
        credential_domain_separation_enabled: true,
        support_become_non_participating_transactions: true,
        pending_residue_rewards: true,
        asset: true,
        max_assets_per_account: 1000,
        max_asset_name_bytes: 32,
        max_asset_unit_name_bytes: 8,
        max_asset_url_bytes: 32,
        txn_counter: true,
        support_tx_groups: true,
        max_tx_group_size: 16,
        support_transaction_leases: true,
        fix_transaction_leases: true,
        logic_sig_version: 2,
        logic_sig_max_size: 1000,
        logic_sig_max_cost: 20000,
        max_asset_decimals: 19,
        support_rekeying: true,
        application: true,
        max_app_args: 16,
        max_app_total_arg_len: 2048,
        max_app_program_len: 1024,
        max_app_total_program_len: 2048,
        max_extra_app_program_pages: 0,
        max_app_txn_accounts: 4,
        max_app_txn_foreign_apps: 2,
        max_app_txn_foreign_assets: 2,
        max_app_total_txn_references: 8,
        max_app_program_cost: 700,
        max_app_key_len: 64,
        max_app_bytes_value_len: 64,
        max_app_sum_key_value_lens: 128,
        max_inner_transactions: 0,
        enable_inner_transaction_pooling: false,
        isolate_clear_state: false,
        min_inner_appl_version: 6,
        max_apps_created: 10,
        max_apps_opted_in: 10,
        app_flat_params_min_balance: 100000,
        app_flat_opt_in_min_balance: 100000,
        schema_min_balance_per_entry: 25000,
        schema_uint_min_balance: 3500,
        schema_bytes_min_balance: 25000,
        max_local_schema_entries: 16,
        max_global_schema_entries: 64,
        maximum_minimum_balance: 100100000,
        compact_cert_rounds: 0,
        compact_cert_top_voters: 0,
        compact_cert_voters_lookback: 0,
        compact_cert_weight_threshold: 0,
        compact_cert_sec_kq: 0,
        enable_asset_close_amount: false,
        initial_rewards_rate_calculation: false,
        no_empty_local_deltas: false,
        enable_keyreg_coherency_check: false,
        enable_extra_pages_on_app_update: false,
        max_proposed_expired_online_accounts: 0,
        enable_account_data_resource_separation: false,
        enable_batch_verification: false,
        rewards_calculation_fix: false,
        enable_state_proof_keyreg_check: false,
        max_keyreg_valid_period: 0,
        unify_inner_tx_i_ds: false,
        enable_sha256_txn_commitment_header: false,
    };
    proof {
        assert(p.abs() == consensus_v24_abs());
    }
    p
}

/// Builds the record for protocol version v25.
fn consensus_v25_params() -> (r: ConsensusParams)
    ensures
        r.wf(),
        r.abs() == consensus_v25_abs(),
{
    let mut upgrades: VecMap<String, u64> = VecMap::new();
    upgrades.insert(String::from_str(CONSENSUS_V26), 140000);
    proof {
        assert(upgrades.as_map() =~= map!["v26"@ => 140000u64]);
    }
    let p = ConsensusParams {
        upgrade_vote_rounds: 10000,
        upgrade_threshold: 9000,
        default_upgrade_wait_rounds: 140000,
        min_upgrade_wait_rounds: 10000,
        max_upgrade_wait_rounds: 150000,
        max_version_string_len: 128,
        max_txn_bytes_per_block: 1000000,
        max_txn_note_bytes: 1024,
        max_txn_life: 1000,
        approved_upgrades: upgrades,
        support_genesis_hash: true,
        require_genesis_hash: true,
        default_key_dilution: 10000,
        min_balance: 100000,
        min_txn_fee: 1000,
        enable_fee_pooling: false,
        enable_app_cost_pooling: false,
        reward_unit: 1_000_000,
        rewards_rate_refresh_interval: 500_000,
        seed_lookback: 2,
        seed_refresh_interval: 80,
        max_bal_lookback: 320,
        num_proposers: 20,
        soft_committee_size: 2990,
        soft_committee_threshold: 2267,
        cert_committee_size: 1500,
        cert_committee_threshold: 1112,
        next_committee_size: 5000,
        next_committee_threshold: 3838,
        late_committee_size: 500,
        late_committee_threshold: 320,
        redo_committee_size: 2400,
        redo_committee_threshold: 1768,
        down_committee_size: 6000,
        down_committee_threshold: 4560,
        agreement_filter_timeout: 4_000_000_000,
        agreement_filter_timeout_period0: 4_000_000_000,
        fast_recovery_lambda: 300_000_000_000,
        payset_commit: PaysetCommitType::PaysetCommitFlat,
        max_timestamp_increment: 25,
        support_signed_txn_in_block: true,
        force_non_participating_fee_sink: true,
        apply_data: true,
        rewards_in_apply_data: true,
        credential_domain_separation_enabled: true,
        support_become_non_participating_transactions: true,
        pending_residue_rewards: true,
        asset: true,
        max_assets_per_account: 1000,
        max_asset_name_bytes: 32,
        max_asset_unit_name_bytes: 8,
        max_asset_url_bytes: 32,
        txn_counter: true,
        support_tx_groups: true,
        max_tx_group_size: 16,
        support_transaction_leases: true,
        fix_transaction_leases: true,
        logic_sig_version: 2,
        logic_sig_max_size: 1000,
        logic_sig_max_cost: 20000,
        max_asset_decimals: 19,
        support_rekeying: true,
        application: true,
        max_app_args: 16,
        max_app_total_arg_len: 2048,
        max_app_program_len: 1024,
        max_app_total_program_len: 2048,
        max_extra_app_program_pages: 0,
        max_app_txn_accounts: 4,
        max_app_txn_foreign_apps: 2,
        max_app_txn_foreign_assets: 2,
        max_app_total_txn_references: 8,
        max_app_program_cost: 700,
        max_app_key_len: 64,
        max_app_bytes_value_len: 64,
        max_app_sum_key_value_lens: 128,
        max_inner_transactions: 0,
        enable_inner_transaction_pooling: false,
        isolate_clear_state: false,
        min_inner_appl_version: 6,
        max_apps_created: 10,
        max_apps_opted_in: 10,
        app_flat_params_min_balance: 100000,
        app_flat_opt_in_min_balance: 100000,
        schema_min_balance_per_entry: 25000,
        schema_uint_min_balance: 3500,
        schema_bytes_min_balance: 25000,
        max_local_schema_entries: 16,
        max_global_schema_entries: 64,
        maximum_minimum_balance: 100100000,
        compact_cert_rounds: 0,
        compact_cert_top_voters: 0,
        compact_cert_voters_lookback: 0,
        compact_cert_weight_threshold: 0,
        compact_cert_sec_kq: 0,
        enable_asset_close_amount: true,
        initial_rewards_rate_calculation: false,
        no_empty_local_deltas: false,
        enable_keyreg_coherency_check: false,
        enable_extra_pages_on_app_update: false,
        max_proposed_expired_online_accounts: 0,
        enable_account_data_resource_separation: false,
        enable_batch_verification: false,
        rewards_calculation_fix: false,
        enable_state_proof_keyreg_check: false,
        max_keyreg_valid_period: 0,
        unify_inner_tx_i_ds: false,
        enable_sha256_txn_commitment_header: false,
    };
    proof {
        assert(p.abs() == consensus_v25_abs());
    }
    p
}

/// Builds the record for protocol version v26.
fn consensus_v26_params() -> (r: ConsensusParams)
    ensures
        r.wf(),
        r.abs() == consensus_v26_abs(),
{
    let mut upgrades: VecMap<String, u64> = VecMap::new();
    upgrades.insert(String::from_str(CONSENSUS_V27), 60000);
    proof {
        assert(upgrades.as_map() =~= map!["v27"@ => 60000u64]);
    }
    let p = ConsensusParams {
        upgrade_vote_rounds: 10000,
        upgrade_threshold: 9000,
        default_upgrade_wait_rounds: 140000,
        min_upgrade_wait_rounds: 10000,
        max_upgrade_wait_rounds: 150000,
        max_version_string_len: 128,
        max_txn_bytes_per_block: 1000000,
        max_txn_note_bytes: 1024,
        max_txn_life: 1000,
        approved_upgrades: upgrades,
        support_genesis_hash: true,
        require_genesis_hash: true,
        default_key_dilution: 10000,
        min_balance: 100000,
        min_txn_fee: 1000,
        enable_fee_pooling: false,
        enable_app_cost_pooling: false,
        reward_unit: 1_000_000,
        rewards_rate_refresh_interval: 500_000,
        seed_lookback: 2,
        seed_refresh_interval: 80,
        max_bal_lookback: 320,
        num_proposers: 20,
        soft_committee_size: 2990,
        soft_committee_threshold: 2267,
        cert_committee_size: 1500,
        cert_committee_threshold: 1112,
        next_committee_size: 5000,
        next_committee_threshold: 3838,
        late_committee_size: 500,
        late_committee_threshold: 320,
        redo_committee_size: 2400,
        redo_committee_threshold: 1768,
        down_committee_size: 6000,
        down_committee_threshold: 4560,
        agreement_filter_timeout: 4_000_000_000,
        agreement_filter_timeout_period0: 4_000_000_000,
        fast_recovery_lambda: 300_000_000_000,
        payset_commit: PaysetCommitType::PaysetCommitMerkle,
        max_timestamp_increment: 25,
        support_signed_txn_in_block: true,
        force_non_participating_fee_sink: true,
        apply_data: true,
        rewards_in_apply_data: true,
        credential_domain_separation_enabled: true,
        support_become_non_participating_transactions: true,
        pending_residue_rewards: true,
        asset: true,
        max_assets_per_account: 1000,
        max_asset_name_bytes: 32,
        max_asset_unit_name_bytes: 8,
        max_asset_url_bytes: 32,
        txn_counter: true,
        support_tx_groups: true,
        max_tx_group_size: 16,
        support_transaction_leases: true,
        fix_transaction_leases: true,
        logic_sig_version: 3,
        logic_sig_max_size: 1000,
        logic_sig_max_cost: 20000,
        max_asset_decimals: 19,
        support_rekeying: true,
        application: true,
        max_app_args: 16,
        max_app_total_arg_len: 2048,
        max_app_program_len: 1024,
        max_app_total_program_len: 2048,
        max_extra_app_program_pages: 0,
        max_app_txn_accounts: 4,
        max_app_txn_foreign_apps: 2,
        max_app_txn_foreign_assets: 2,
        max_app_total_txn_references: 8,
        max_app_program_cost: 700,
        max_app_key_len: 64,
        max_app_bytes_value_len: 64,
        max_app_sum_key_value_lens: 128,
        max_inner_transactions: 0,
        enable_inner_transaction_pooling: false,
        isolate_clear_state: false,
        min_inner_appl_version: 6,
        max_apps_created: 10,
        max_apps_opted_in: 10,
        app_flat_params_min_balance: 100000,
        app_flat_opt_in_min_balance: 100000,
        schema_min_balance_per_entry: 25000,
        schema_uint_min_balance: 3500,
        schema_bytes_min_balance: 25000,
        max_local_schema_entries: 16,
        max_global_schema_entries: 64,
        maximum_minimum_balance: 100100000,
        compact_cert_rounds: 0,
        compact_cert_top_voters: 0,
        compact_cert_voters_lookback: 0,
        compact_cert_weight_threshold: 0,
        compact_cert_sec_kq: 0,
        enable_asset_close_amount: true,
        initial_rewards_rate_calculation: true,
        no_empty_local_deltas: false,
        enable_keyreg_coherency_check: false,
        enable_extra_pages_on_app_update: false,
        max_proposed_expired_online_accounts: 0,
        enable_account_data_resource_separation: false,
        enable_batch_verification: false,
        rewards_calculation_fix: false,
        enable_state_proof_keyreg_check: false,
        max_keyreg_valid_period: 0,
        unify_inner_tx_i_ds: false,
        enable_sha256_txn_commitment_header: false,
    };
    proof {
        assert(p.abs() == consensus_v26_abs());
    }
    p
}

/// Builds the record for protocol version v27.
fn consensus_v27_params() -> (r: ConsensusParams)
    ensures
        r.wf(),
        r.abs() == consensus_v27_abs(),
{
    let mut upgrades: VecMap<String, u64> = VecMap::new();
    upgrades.insert(String::from_str(CONSENSUS_V28), 140000);
    proof {
        assert(upgrades.as_map() =~= map!["v28"@ => 140000u64]);
    }
    let p = ConsensusParams {
        upgrade_vote_rounds: 10000,
        upgrade_threshold: 9000,
        default_upgrade_wait_rounds: 140000,
        min_upgrade_wait_rounds: 10000,
        max_upgrade_wait_rounds: 150000,
        max_version_string_len: 128,
        max_txn_bytes_per_block: 1000000,
        max_txn_note_bytes: 1024,
        max_txn_life: 1000,
        approved_upgrades: upgrades,
        support_genesis_hash: true,
        require_genesis_hash: true,
        default_key_dilution: 10000,
        min_balance: 100000,
        min_txn_fee: 1000,
        enable_fee_pooling: false,
        enable_app_cost_pooling: false,
        reward_unit: 1_000_000,
        rewards_rate_refresh_interval: 500_000,
        seed_lookback: 2,
        seed_refresh_interval: 80,
        max_bal_lookback: 320,
        num_proposers: 20,
        soft_committee_size: 2990,
        soft_committee_threshold: 2267,
        cert_committee_size: 1500,
        cert_committee_threshold: 1112,
        next_committee_size: 5000,
        next_committee_threshold: 3838,
        late_committee_size: 500,
        late_committee_threshold: 320,
        redo_committee_size: 2400,
        redo_committee_threshold: 1768,
        down_committee_size: 6000,
        down_committee_threshold: 4560,
        agreement_filter_timeout: 4_000_000_000,
        agreement_filter_timeout_period0: 4_000_000_000,
        fast_recovery_lambda: 300_000_000_000,
        payset_commit: PaysetCommitType::PaysetCommitMerkle,
        max_timestamp_increment: 25,
        support_signed_txn_in_block: true,
        force_non_participating_fee_sink: true,
        apply_data: true,
        rewards_in_apply_data: true,
        credential_domain_separation_enabled: true,
        support_become_non_participating_transactions: true,
        pending_residue_rewards: true,
        asset: true,
        max_assets_per_account: 1000,
        max_asset_name_bytes: 32,
        max_asset_unit_name_bytes: 8,
        max_asset_url_bytes: 32,
        txn_counter: true,
        support_tx_groups: true,
        max_tx_group_size: 16,
        support_transaction_leases: true,
        fix_transaction_leases: true,
        logic_sig_version: 3,
        logic_sig_max_size: 1000,
        logic_sig_max_cost: 20000,
        max_asset_decimals: 19,
        support_rekeying: true,
        application: true,
        max_app_args: 16,
        max_app_total_arg_len: 2048,
        max_app_program_len: 1024,
        max_app_total_program_len: 2048,
        max_extra_app_program_pages: 0,
        max_app_txn_accounts: 4,
        max_app_txn_foreign_apps: 2,
        max_app_txn_foreign_assets: 2,
        max_app_total_txn_references: 8,
        max_app_program_cost: 700,
        max_app_key_len: 64,
        max_app_bytes_value_len: 64,
        max_app_sum_key_value_lens: 128,
        max_inner_transactions: 0,
        enable_inner_transaction_pooling: false,
        isolate_clear_state: false,
        min_inner_appl_version: 6,
        max_apps_created: 10,
        max_apps_opted_in: 10,
        app_flat_params_min_balance: 100000,
        app_flat_opt_in_min_balance: 100000,
        schema_min_balance_per_entry: 25000,
        schema_uint_min_balance: 3500,
        schema_bytes_min_balance: 25000,
        max_local_schema_entries: 16,
        max_global_schema_entries: 64,
        maximum_minimum_balance: 100100000,
        compact_cert_rounds: 0,
        compact_cert_top_voters: 0,
        compact_cert_voters_lookback: 0,
        compact_cert_weight_threshold: 0,
        compact_cert_sec_kq: 0,
        enable_asset_close_amount: true,
        initial_rewards_rate_calculation: true,
        no_empty_local_deltas: true,
        enable_keyreg_coherency_check: false,
        enable_extra_pages_on_app_update: false,
        max_proposed_expired_online_accounts: 0,
        enable_account_data_resource_separation: false,
        enable_batch_verification: false,
        rewards_calculation_fix: false,
        enable_state_proof_keyreg_check: false,
        max_keyreg_valid_period: 0,
        unify_inner_tx_i_ds: false,
        enable_sha256_txn_commitment_header: false,
    };
    proof {
        assert(p.abs() == consensus_v27_abs());
    }
    p
}

/// Builds the record for protocol version v28.
fn consensus_v28_params() -> (r: ConsensusParams)
    ensures
        r.wf(),
        r.abs() == consensus_v28_abs(),
{
    let mut upgrades: VecMap<String, u64> = VecMap::new();
    upgrades.insert(String::from_str(CONSENSUS_V29), 60000);
    proof {
        assert(upgrades.as_map() =~= map!["v29"@ => 60000u64]);
    }
    let p = ConsensusParams {
        upgrade_vote_rounds: 10000,
        upgrade_threshold: 9000,
        default_upgrade_wait_rounds: 140000,
        min_upgrade_wait_rounds: 10000,
        max_upgrade_wait_rounds: 150000,
        max_version_string_len: 128,
        max_txn_bytes_per_block: 1000000,
        max_txn_note_bytes: 1024,
        max_txn_life: 1000,
        approved_upgrades: upgrades,
        support_genesis_hash: true,
        require_genesis_hash: true,
        default_key_dilution: 10000,
        min_balance: 100000,
        min_txn_fee: 1000,
        enable_fee_pooling: true,
        enable_app_cost_pooling: false,
        reward_unit: 1_000_000,
        rewards_rate_refresh_interval: 500_000,
        seed_lookback: 2,
        seed_refresh_interval: 80,
        max_bal_lookback: 320,
        num_proposers: 20,
        soft_committee_size: 2990,
        soft_committee_threshold: 2267,
        cert_committee_size: 1500,
        cert_committee_threshold: 1112,
        next_committee_size: 5000,
        next_committee_threshold: 3838,
        late_committee_size: 500,
        late_committee_threshold: 320,
        redo_committee_size: 2400,
        redo_committee_threshold: 1768,
        down_committee_size: 6000,
        down_committee_threshold: 4560,
        agreement_filter_timeout: 4_000_000_000,
        agreement_filter_timeout_period0: 4_000_000_000,
        fast_recovery_lambda: 300_000_000_000,
        payset_commit: PaysetCommitType::PaysetCommitMerkle,
        max_timestamp_increment: 25,
        support_signed_txn_in_block: true,
        force_non_participating_fee_sink: true,
        apply_data: true,
        rewards_in_apply_data: true,
        credential_domain_separation_enabled: true,
        support_become_non_participating_transactions: true,
        pending_residue_rewards: true,
        asset: true,
        max_assets_per_account: 1000,
        max_asset_name_bytes: 32,
        max_asset_unit_name_bytes: 8,
        max_asset_url_bytes: 96,
        txn_counter: true,
        support_tx_groups: true,
        max_tx_group_size: 16,
        support_transaction_leases: true,
        fix_transaction_leases: true,
        logic_sig_version: 4,
        logic_sig_max_size: 1000,
        logic_sig_max_cost: 20000,
        max_asset_decimals: 19,
        support_rekeying: true,
        application: true,
        max_app_args: 16,
        max_app_total_arg_len: 2048,
        max_app_program_len: 2048,
        max_app_total_program_len: 2048,
        max_extra_app_program_pages: 3,
        max_app_txn_accounts: 4,
        max_app_txn_foreign_apps: 8,
        max_app_txn_foreign_assets: 8,
        max_app_total_txn_references: 8,
        max_app_program_cost: 700,
        max_app_key_len: 64,
        max_app_bytes_value_len: 128,
        max_app_sum_key_value_lens: 128,
        max_inner_transactions: 0,
        enable_inner_transaction_pooling: false,
        isolate_clear_state: false,
        min_inner_appl_version: 6,
        max_apps_created: 10,
        max_apps_opted_in: 10,
        app_flat_params_min_balance: 100000,
        app_flat_opt_in_min_balance: 100000,
        schema_min_balance_per_entry: 25000,
        schema_uint_min_balance: 3500,
        schema_bytes_min_balance: 25000,
        max_local_schema_entries: 16,
        max_global_schema_entries: 64,
        maximum_minimum_balance: 100100000,
        compact_cert_rounds: 0,
        compact_cert_top_voters: 0,
        compact_cert_voters_lookback: 0,
        compact_cert_weight_threshold: 0,
        compact_cert_sec_kq: 0,
        enable_asset_close_amount: true,
        initial_rewards_rate_calculation: true,
        no_empty_local_deltas: true,
        enable_keyreg_coherency_check: true,
        enable_extra_pages_on_app_update: false,
        max_proposed_expired_online_accounts: 0,
        enable_account_data_resource_separation: false,
        enable_batch_verification: false,
        rewards_calculation_fix: false,
        enable_state_proof_keyreg_check: false,
        max_keyreg_valid_period: 0,
        unify_inner_tx_i_ds: false,
        enable_sha256_txn_commitment_header: false,
    };
    proof {
        assert(p.abs() == consensus_v28_abs());
    }
    p
}

/// Builds the record for protocol version v29.
fn consensus_v29_params() -> (r: ConsensusParams)
    ensures
        r.wf(),
        r.abs() == consensus_v29_abs(),
{
    let mut upgrades: VecMap<String, u64> = VecMap::new();
    upgrades.insert(String::from_str(CONSENSUS_V30), 140000);
    proof {
        assert(upgrades.as_map() =~= map!["v30"@ => 140000u64]);
    }
    let p = ConsensusParams {
        upgrade_vote_rounds: 10000,
        upgrade_threshold: 9000,
        default_upgrade_wait_rounds: 140000,
        min_upgrade_wait_rounds: 10000,
        max_upgrade_wait_rounds: 150000,
        max_version_string_len: 128,
        max_txn_bytes_per_block: 1000000,
        max_txn_note_bytes: 1024,
        max_txn_life: 1000,
        approved_upgrades: upgrades,
        support_genesis_hash: true,
        require_genesis_hash: true,
        default_key_dilution: 10000,
        min_balance: 100000,
        min_txn_fee: 1000,
        enable_fee_pooling: true,
        enable_app_cost_pooling: false,
        reward_unit: 1_000_000,
        rewards_rate_refresh_interval: 500_000,
        seed_lookback: 2,
        seed_refresh_interval: 80,
        max_bal_lookback: 320,
        num_proposers: 20,
        soft_committee_size: 2990,
        soft_committee_threshold: 2267,
        cert_committee_size: 1500,
        cert_committee_threshold: 1112,
        next_committee_size: 5000,
        next_committee_threshold: 3838,
        late_committee_size: 500,
        late_committee_threshold: 320,
        redo_committee_size: 2400,
        redo_committee_threshold: 1768,
        down_committee_size: 6000,
        down_committee_threshold: 4560,
        agreement_filter_timeout: 4_000_000_000,
        agreement_filter_timeout_period0: 4_000_000_000,
        fast_recovery_lambda: 300_000_000_000,
        payset_commit: PaysetCommitType::PaysetCommitMerkle,
        max_timestamp_increment: 25,
        support_signed_txn_in_block: true,
        force_non_participating_fee_sink: true,
        apply_data: true,
        rewards_in_apply_data: true,
        credential_domain_separation_enabled: true,
        support_become_non_participating_transactions: true,
        pending_residue_rewards: true,
        asset: true,
        max_assets_per_account: 1000,
        max_asset_name_bytes: 32,
        max_asset_unit_name_bytes: 8,
        max_asset_url_bytes: 96,
        txn_counter: true,
        support_tx_groups: true,
        max_tx_group_size: 16,
        support_transaction_leases: true,
        fix_transaction_leases: true,
        logic_sig_version: 4,
        logic_sig_max_size: 1000,
        logic_sig_max_cost: 20000,
        max_asset_decimals: 19,
        support_rekeying: true,
        application: true,
        max_app_args: 16,
        max_app_total_arg_len: 2048,
        max_app_program_len: 2048,
        max_app_total_program_len: 2048,
        max_extra_app_program_pages: 3,
        max_app_txn_accounts: 4,
        max_app_txn_foreign_apps: 8,
        max_app_txn_foreign_assets: 8,
        max_app_total_txn_references: 8,
        max_app_program_cost: 700,
        max_app_key_len: 64,
        max_app_bytes_value_len: 128,
        max_app_sum_key_value_lens: 128,
        max_inner_transactions: 0,
        enable_inner_transaction_pooling: false,
        isolate_clear_state: false,
        min_inner_appl_version: 6,
        max_apps_created: 10,
        max_apps_opted_in: 10,
        app_flat_params_min_balance: 100000,
        app_flat_opt_in_min_balance: 100000,
        schema_min_balance_per_entry: 25000,
        schema_uint_min_balance: 3500,
        schema_bytes_min_balance: 25000,
        max_local_schema_entries: 16,
        max_global_schema_entries: 64,
        maximum_minimum_balance: 100100000,
        compact_cert_rounds: 0,
        compact_cert_top_voters: 0,
        compact_cert_voters_lookback: 0,
        compact_cert_weight_threshold: 0,
        compact_cert_sec_kq: 0,
        enable_asset_close_amount: true,
        initial_rewards_rate_calculation: true,
        no_empty_local_deltas: true,
        enable_keyreg_coherency_check: true,
        enable_extra_pages_on_app_update: true,
        max_proposed_expired_online_accounts: 0,
        enable_account_data_resource_separation: false,
        enable_batch_verification: false,
        rewards_calculation_fix: false,
        enable_state_proof_keyreg_check: false,
        max_keyreg_valid_period: 0,
        unify_inner_tx_i_ds: false,
        enable_sha256_txn_commitment_header: false,
    };
    proof {
        assert(p.abs() == consensus_v29_abs());
    }
    p
}

/// Builds the record for protocol version v30.
fn consensus_v30_params() -> (r: ConsensusParams)
    ensures
        r.wf(),
        r.abs() == consensus_v30_abs(),
{
    let mut upgrades: VecMap<String, u64> = VecMap::new();
    upgrades.insert(String::from_str(CONSENSUS_V31), 140000);
    proof {
        assert(upgrades.as_map() =~= map!["v31"@ => 140000u64]);
    }
    let p = ConsensusParams {
        upgrade_vote_rounds: 10000,
        upgrade_threshold: 9000,
        default_upgrade_wait_rounds: 140000,
        min_upgrade_wait_rounds: 10000,
        max_upgrade_wait_rounds: 150000,
        max_version_string_len: 128,
        max_txn_bytes_per_block: 1000000,
        max_txn_note_bytes: 1024,
        max_txn_life: 1000,
        approved_upgrades: upgrades,
        support_genesis_hash: true,
        require_genesis_hash: true,
        default_key_dilution: 10000,
        min_balance: 100000,
        min_txn_fee: 1000,
        enable_fee_pooling: true,
        enable_app_cost_pooling: true,
        reward_unit: 1_000_000,
        rewards_rate_refresh_interval: 500_000,
        seed_lookback: 2,
        seed_refresh_interval: 80,
        max_bal_lookback: 320,
        num_proposers: 20,
        soft_committee_size: 2990,
        soft_committee_threshold: 2267,
        cert_committee_size: 1500,
        cert_committee_threshold: 1112,
        next_committee_size: 5000,
        next_committee_threshold: 3838,
        late_committee_size: 500,
        late_committee_threshold: 320,
        redo_committee_size: 2400,
        redo_committee_threshold: 1768,
        down_committee_size: 6000,
        down_committee_threshold: 4560,
        agreement_filter_timeout: 4_000_000_000,
        agreement_filter_timeout_period0: 4_000_000_000,
        fast_recovery_lambda: 300_000_000_000,
        payset_commit: PaysetCommitType::PaysetCommitMerkle,
        max_timestamp_increment: 25,
        support_signed_txn_in_block: true,
        force_non_participating_fee_sink: true,
        apply_data: true,
        rewards_in_apply_data: true,
        credential_domain_separation_enabled: true,
        support_become_non_participating_transactions: true,
        pending_residue_rewards: true,
        asset: true,
        max_assets_per_account: 1000,
        max_asset_name_bytes: 32,
        max_asset_unit_name_bytes: 8,
        max_asset_url_bytes: 96,
        txn_counter: true,
        support_tx_groups: true,
        max_tx_group_size: 16,
        support_transaction_leases: true,
        fix_transaction_leases: true,
        logic_sig_version: 5,
        logic_sig_max_size: 1000,
        logic_sig_max_cost: 20000,
        max_asset_decimals: 19,
        support_rekeying: true,
        application: true,
        max_app_args: 16,
        max_app_total_arg_len: 2048,
        max_app_program_len: 2048,
        max_app_total_program_len: 2048,
        max_extra_app_program_pages: 3,
        max_app_txn_accounts: 4,
        max_app_txn_foreign_apps: 8,
        max_app_txn_foreign_assets: 8,
        max_app_total_txn_references: 8,
        max_app_program_cost: 700,
        max_app_key_len: 64,
        max_app_bytes_value_len: 128,
        max_app_sum_key_value_lens: 128,
        max_inner_transactions: 16,
        enable_inner_transaction_pooling: false,
        isolate_clear_state: false,
        min_inner_appl_version: 6,
        max_apps_created: 10,
        max_apps_opted_in: 50,
        app_flat_params_min_balance: 100000,
        app_flat_opt_in_min_balance: 100000,
        schema_min_balance_per_entry: 25000,
        schema_uint_min_balance: 3500,
        schema_bytes_min_balance: 25000,
        max_local_schema_entries: 16,
        max_global_schema_entries: 64,
        maximum_minimum_balance: 100100000,
        compact_cert_rounds: 0,
        compact_cert_top_voters: 0,
        compact_cert_voters_lookback: 0,
        compact_cert_weight_threshold: 0,
        compact_cert_sec_kq: 0,
        enable_asset_close_amount: true,
        initial_rewards_rate_calculation: true,
        no_empty_local_deltas: true,
        enable_keyreg_coherency_check: true,
        enable_extra_pages_on_app_update: true,
        max_proposed_expired_online_accounts: 0,
        enable_account_data_resource_separation: false,
        enable_batch_verification: false,
        rewards_calculation_fix: false,
        enable_state_proof_keyreg_check: false,
        max_keyreg_valid_period: 0,
        unify_inner_tx_i_ds: false,
        enable_sha256_txn_commitment_header: false,
    };
    proof {
        assert(p.abs() == consensus_v30_abs());
    }
    p
}

/// Builds the record for protocol version v31.
fn consensus_v31_params() -> (r: ConsensusParams)
    ensures
        r.wf(),
        r.abs() == consensus_v31_abs(),
{
    let mut upgrades: VecMap<String, u64> = VecMap::new();
    upgrades.insert(String::from_str(CONSENSUS_V32), 140000);
    proof {
        assert(upgrades.as_map() =~= map!["v32"@ => 140000u64]);
    }
    let p = ConsensusParams {
        upgrade_vote_rounds: 10000,
        upgrade_threshold: 9000,
        default_upgrade_wait_rounds: 140000,
        min_upgrade_wait_rounds: 10000,
        max_upgrade_wait_rounds: 150000,
        max_version_string_len: 128,
        max_txn_bytes_per_block: 1000000,
        max_txn_note_bytes: 1024,
        max_txn_life: 1000,
        approved_upgrades: upgrades,
        support_genesis_hash: true,
        require_genesis_hash: true,
        default_key_dilution: 10000,
        min_balance: 100000,
        min_txn_fee: 1000,
        enable_fee_pooling: true,
        enable_app_cost_pooling: true,
        reward_unit: 1_000_000,
        rewards_rate_refresh_interval: 500_000,
        seed_lookback: 2,
        seed_refresh_interval: 80,
        max_bal_lookback: 320,
        num_proposers: 20,
        soft_committee_size: 2990,
        soft_committee_threshold: 2267,
        cert_committee_size: 1500,
        cert_committee_threshold: 1112,
        next_committee_size: 5000,
        next_committee_threshold: 3838,
        late_committee_size: 500,
        late_committee_threshold: 320,
        redo_committee_size: 2400,
        redo_committee_threshold: 1768,
        down_committee_size: 6000,
        down_committee_threshold: 4560,
        agreement_filter_timeout: 4_000_000_000,
        agreement_filter_timeout_period0: 4_000_000_000,
        fast_recovery_lambda: 300_000_000_000,
        payset_commit: PaysetCommitType::PaysetCommitMerkle,
        max_timestamp_increment: 25,
        support_signed_txn_in_block: true,
        force_non_participating_fee_sink: true,
        apply_data: true,
        rewards_in_apply_data: true,
        credential_domain_separation_enabled: true,
        support_become_non_participating_transactions: true,
        pending_residue_rewards: true,
        asset: true,
        max_assets_per_account: 1000,
        max_asset_name_bytes: 32,
        max_asset_unit_name_bytes: 8,
        max_asset_url_bytes: 96,
        txn_counter: true,
        support_tx_groups: true,
        max_tx_group_size: 16,
        support_transaction_leases: true,
        fix_transaction_leases: true,
        logic_sig_version: 6,
        logic_sig_max_size: 1000,
        logic_sig_max_cost: 20000,
        max_asset_decimals: 19,
        support_rekeying: true,
        application: true,
        max_app_args: 16,
        max_app_total_arg_len: 2048,
        max_app_program_len: 2048,
        max_app_total_program_len: 2048,
        max_extra_app_program_pages: 3,
        max_app_txn_accounts: 4,
        max_app_txn_foreign_apps: 8,
        max_app_txn_foreign_assets: 8,
        max_app_total_txn_references: 8,
        max_app_program_cost: 700,
        max_app_key_len: 64,
        max_app_bytes_value_len: 128,
        max_app_sum_key_value_lens: 128,
        max_inner_transactions: 16,
        enable_inner_transaction_pooling: true,
        isolate_clear_state: true,
        min_inner_appl_version: 6,
        max_apps_created: 10,
        max_apps_opted_in: 50,
        app_flat_params_min_balance: 100000,
        app_flat_opt_in_min_balance: 100000,
        schema_min_balance_per_entry: 25000,
        schema_uint_min_balance: 3500,
        schema_bytes_min_balance: 25000,
        max_local_schema_entries: 16,
        max_global_schema_entries: 64,
        maximum_minimum_balance: 100100000,
        compact_cert_rounds: 0,
        compact_cert_top_voters: 0,
        compact_cert_voters_lookback: 0,
        compact_cert_weight_threshold: 0,
        compact_cert_sec_kq: 0,
        enable_asset_close_amount: true,
        initial_rewards_rate_calculation: true,
        no_empty_local_deltas: true,
        enable_keyreg_coherency_check: true,
        enable_extra_pages_on_app_update: true,
        max_proposed_expired_online_accounts: 32,
        enable_account_data_resource_separation: false,
        enable_batch_verification: true,
        rewards_calculation_fix: true,
        enable_state_proof_keyreg_check: true,
        max_keyreg_valid_period: 16777215,
        unify_inner_tx_i_ds: false,
        enable_sha256_txn_commitment_header: false,
    };
    proof {
        assert(p.abs() == consensus_v31_abs());
    }
    p
}

/// Builds the record for protocol version v32.
fn consensus_v32_params() -> (r: ConsensusParams)
    ensures
        r.wf(),
        r.abs() == consensus_v32_abs(),
{
    let mut upgrades: VecMap<String, u64> = VecMap::new();
    proof {
        assert(upgrades.as_map() =~= Map::<Seq<char>, u64>::empty());
    }
    let p = ConsensusParams {
        upgrade_vote_rounds: 10000,
        upgrade_threshold: 9000,
        default_upgrade_wait_rounds: 140000,
        min_upgrade_wait_rounds: 10000,
        max_upgrade_wait_rounds: 150000,
        max_version_string_len: 128,
        max_txn_bytes_per_block: 1000000,
        max_txn_note_bytes: 1024,
        max_txn_life: 1000,
        approved_upgrades: upgrades,
        support_genesis_hash: true,
        require_genesis_hash: true,
        default_key_dilution: 10000,
        min_balance: 100000,
        min_txn_fee: 1000,
        enable_fee_pooling: true,
        enable_app_cost_pooling: true,
        reward_unit: 1_000_000,
        rewards_rate_refresh_interval: 500_000,
        seed_lookback: 2,
        seed_refresh_interval: 80,
        max_bal_lookback: 320,
        num_proposers: 20,
        soft_committee_size: 2990,
        soft_committee_threshold: 2267,
        cert_committee_size: 1500,
        cert_committee_threshold: 1112,
        next_committee_size: 5000,
        next_committee_threshold: 3838,
        late_committee_size: 500,
        late_committee_threshold: 320,
        redo_committee_size: 2400,
        redo_committee_threshold: 1768,
        down_committee_size: 6000,
        down_committee_threshold: 4560,
        agreement_filter_timeout: 4_000_000_000,
        agreement_filter_timeout_period0: 4_000_000_000,
        fast_recovery_lambda: 300_000_000_000,
        payset_commit: PaysetCommitType::PaysetCommitMerkle,
        max_timestamp_increment: 25,
        support_signed_txn_in_block: true,
        force_non_participating_fee_sink: true,
        apply_data: true,
        rewards_in_apply_data: true,
        credential_domain_separation_enabled: true,
        support_become_non_participating_transactions: true,
        pending_residue_rewards: true,
        asset: true,
        max_assets_per_account: 0,
        max_asset_name_bytes: 32,
        max_asset_unit_name_bytes: 8,
        max_asset_url_bytes: 96,
        txn_counter: true,
        support_tx_groups: true,
        max_tx_group_size: 16,
        support_transaction_leases: true,
        fix_transaction_leases: true,
        logic_sig_version: 6,
        logic_sig_max_size: 1000,
        logic_sig_max_cost: 20000,
        max_asset_decimals: 19,
        support_rekeying: true,
        application: true,
        max_app_args: 16,
        max_app_total_arg_len: 2048,
        max_app_program_len: 2048,
        max_app_total_program_len: 2048,
        max_extra_app_program_pages: 3,
        max_app_txn_accounts: 4,
        max_app_txn_foreign_apps: 8,
        max_app_txn_foreign_assets: 8,
        max_app_total_txn_references: 8,
        max_app_program_cost: 700,
        max_app_key_len: 64,
        max_app_bytes_value_len: 128,
        max_app_sum_key_value_lens: 128,
        max_inner_transactions: 16,
        enable_inner_transaction_pooling: true,
        isolate_clear_state: true,
        min_inner_appl_version: 6,
        max_apps_created: 0,
        max_apps_opted_in: 0,
        app_flat_params_min_balance: 100000,
        app_flat_opt_in_min_balance: 100000,
        schema_min_balance_per_entry: 25000,
        schema_uint_min_balance: 3500,
        schema_bytes_min_balance: 25000,
        max_local_schema_entries: 16,
        max_global_schema_entries: 64,
        maximum_minimum_balance: 0,
        compact_cert_rounds: 0,
        compact_cert_top_voters: 0,
        compact_cert_voters_lookback: 0,
        compact_cert_weight_threshold: 0,
        compact_cert_sec_kq: 0,
        enable_asset_close_amount: true,
        initial_rewards_rate_calculation: true,
        no_empty_local_deltas: true,
        enable_keyreg_coherency_check: true,
        enable_extra_pages_on_app_update: true,
        max_proposed_expired_online_accounts: 32,
        enable_account_data_resource_separation: true,
        enable_batch_verification: true,
        rewards_calculation_fix: true,
        enable_state_proof_keyreg_check: true,
        max_keyreg_valid_period: 16777215,
        unify_inner_tx_i_ds: false,
        enable_sha256_txn_commitment_header: false,
    };
    proof {
        assert(p.abs() == consensus_v32_abs());
    }
    p
}

/// Builds the record for protocol version vFuture.
fn consensus_vfuture_params() -> (r: ConsensusParams)
    ensures
        r.wf(),
        r.abs() == consensus_vfuture_abs(),
{
    let mut upgrades: VecMap<String, u64> = VecMap::new();
    proof {
        assert(upgrades.as_map() =~= Map::<Seq<char>, u64>::empty());
    }
    let p = ConsensusParams {
        upgrade_vote_rounds: 10000,
        upgrade_threshold: 9000,
        default_upgrade_wait_rounds: 140000,
        min_upgrade_wait_rounds: 10000,
        max_upgrade_wait_rounds: 150000,
        max_version_string_len: 128,
        max_txn_bytes_per_block: 1000000,
        max_txn_note_bytes: 1024,
        max_txn_life: 1000,
        approved_upgrades: upgrades,
        support_genesis_hash: true,
        require_genesis_hash: true,
        default_key_dilution: 10000,
        min_balance: 100000,
        min_txn_fee: 1000,
        enable_fee_pooling: true,
        enable_app_cost_pooling: true,
        reward_unit: 1_000_000,
        rewards_rate_refresh_interval: 500_000,
        seed_lookback: 2,
        seed_refresh_interval: 80,
        max_bal_lookback: 320,
        num_proposers: 20,
        soft_committee_size: 2990,
        soft_committee_threshold: 2267,
        cert_committee_size: 1500,
        cert_committee_threshold: 1112,
        next_committee_size: 5000,
        next_committee_threshold: 3838,
        late_committee_size: 500,
        late_committee_threshold: 320,
        redo_committee_size: 2400,
        redo_committee_threshold: 1768,
        down_committee_size: 6000,
        down_committee_threshold: 4560,
        agreement_filter_timeout: 4_000_000_000,
        agreement_filter_timeout_period0: 4_000_000_000,
        fast_recovery_lambda: 300_000_000_000,
        payset_commit: PaysetCommitType::PaysetCommitMerkle,
        max_timestamp_increment: 25,
        support_signed_txn_in_block: true,
        force_non_participating_fee_sink: true,
        apply_data: true,
        rewards_in_apply_data: true,
        credential_domain_separation_enabled: true,
        support_become_non_participating_transactions: true,
        pending_residue_rewards: true,
        asset: true,
        max_assets_per_account: 0,
        max_asset_name_bytes: 32,
        max_asset_unit_name_bytes: 8,
        max_asset_url_bytes: 96,
        txn_counter: true,
        support_tx_groups: true,
        max_tx_group_size: 16,
        support_transaction_leases: true,
        fix_transaction_leases: true,
        logic_sig_version: 7,
        logic_sig_max_size: 1000,
        logic_sig_max_cost: 20000,
        max_asset_decimals: 19,
        support_rekeying: true,
        application: true,
        max_app_args: 16,
        max_app_total_arg_len: 2048,
        max_app_program_len: 2048,
        max_app_total_program_len: 2048,
        max_extra_app_program_pages: 3,
        max_app_txn_accounts: 4,
        max_app_txn_foreign_apps: 8,
        max_app_txn_foreign_assets: 8,
        max_app_total_txn_references: 8,
        max_app_program_cost: 700,
        max_app_key_len: 64,
        max_app_bytes_value_len: 128,
        max_app_sum_key_value_lens: 128,
        max_inner_transactions: 16,
        enable_inner_transaction_pooling: true,
        isolate_clear_state: true,
        min_inner_appl_version: 4,
        max_apps_created: 0,
        max_apps_opted_in: 0,
        app_flat_params_min_balance: 100000,
        app_flat_opt_in_min_balance: 100000,
        schema_min_balance_per_entry: 25000,
        schema_uint_min_balance: 3500,
        schema_bytes_min_balance: 25000,
        max_local_schema_entries: 16,
        max_global_schema_entries: 64,
        maximum_minimum_balance: 0,
        compact_cert_rounds: 256,
        compact_cert_top_voters: 1048576,
        compact_cert_voters_lookback: 16,
        compact_cert_weight_threshold: 1288490188,
        compact_cert_sec_kq: 128,
        enable_asset_close_amount: true,
        initial_rewards_rate_calculation: true,
        no_empty_local_deltas: true,
        enable_keyreg_coherency_check: true,
        enable_extra_pages_on_app_update: true,
        max_proposed_expired_online_accounts: 32,
        enable_account_data_resource_separation: true,
        enable_batch_verification: true,
        rewards_calculation_fix: true,
        enable_state_proof_keyreg_check: true,
        max_keyreg_valid_period: 16777215,
        unify_inner_tx_i_ds: true,
        enable_sha256_txn_commitment_header: true,
    };
    proof {
        assert(p.abs() == consensus_vfuture_abs());
    }
    p
}

/// Builds the built-in table into `consensus`, one version at a time.
pub fn init_consensus_protocols(consensus: &mut ConsensusProtocols)
    requires
        old(consensus).wf(),
    ensures
        final(consensus).wf(),
        abs_table(final(consensus).as_map()) =~= consensus_table_over(abs_table(old(consensus).as_map())),
{
    let ghost pre_v7 = consensus.as_map();
    let p_v7 = consensus_v7_params();
    consensus.insert(String::from_str(CONSENSUS_V7), p_v7);
    proof { lemma_abs_table_insert(pre_v7, CONSENSUS_V7@, p_v7); }
    let ghost pre_v8 = consensus.as_map();
    let p_v8 = consensus_v8_params();
    consensus.insert(String::from_str(CONSENSUS_V8), p_v8);
    proof { lemma_abs_table_insert(pre_v8, CONSENSUS_V8@, p_v8); }
    let ghost pre_v9 = consensus.as_map();
    let p_v9 = consensus_v9_params();
    consensus.insert(String::from_str(CONSENSUS_V9), p_v9);
    proof { lemma_abs_table_insert(pre_v9, CONSENSUS_V9@, p_v9); }
    let ghost pre_v10 = consensus.as_map();
    let p_v10 = consensus_v10_params();
    consensus.insert(String::from_str(CONSENSUS_V10), p_v10);
    proof { lemma_abs_table_insert(pre_v10, CONSENSUS_V10@, p_v10); }
    let ghost pre_v11 = consensus.as_map();
    let p_v11 = consensus_v11_params();
    consensus.insert(String::from_str(CONSENSUS_V11), p_v11);
    proof { lemma_abs_table_insert(pre_v11, CONSENSUS_V11@, p_v11); }
    let ghost pre_v12 = consensus.as_map();
    let p_v12 = consensus_v12_params();
    consensus.insert(String::from_str(CONSENSUS_V12), p_v12);
    proof { lemma_abs_table_insert(pre_v12, CONSENSUS_V12@, p_v12); }
    let ghost pre_v13 = consensus.as_map();
    let p_v13 = consensus_v13_params();
    consensus.insert(String::from_str(CONSENSUS_V13), p_v13);
    proof { lemma_abs_table_insert(pre_v13, CONSENSUS_V13@, p_v13); }
    let ghost pre_v14 = consensus.as_map();
    let p_v14 = consensus_v14_params();
    consensus.insert(String::from_str(CONSENSUS_V14), p_v14);
    proof { lemma_abs_table_insert(pre_v14, CONSENSUS_V14@, p_v14); }
    let ghost pre_v15 = consensus.as_map();
    let p_v15 = consensus_v15_params();
    consensus.insert(String::from_str(CONSENSUS_V15), p_v15);
    proof { lemma_abs_table_insert(pre_v15, CONSENSUS_V15@, p_v15); }
    let ghost pre_v16 = consensus.as_map();
    let p_v16 = consensus_v16_params();
    consensus.insert(String::from_str(CONSENSUS_V16), p_v16);
    proof { lemma_abs_table_insert(pre_v16, CONSENSUS_V16@, p_v16); }
    let ghost pre_v17 = consensus.as_map();
    let p_v17 = consensus_v17_params();
    consensus.insert(String::from_str(CONSENSUS_V17), p_v17);
    proof { lemma_abs_table_insert(pre_v17, CONSENSUS_V17@, p_v17); }
    let ghost pre_v18 = consensus.as_map();
    let p_v18 = consensus_v18_params();
    consensus.insert(String::from_str(CONSENSUS_V18), p_v18);
    proof { lemma_abs_table_insert(pre_v18, CONSENSUS_V18@, p_v18); }
    let ghost pre_v19 = consensus.as_map();
    let p_v19 = consensus_v19_params();
    consensus.insert(String::from_str(CONSENSUS_V19), p_v19);
    proof { lemma_abs_table_insert(pre_v19, CONSENSUS_V19@, p_v19); }
    let ghost pre_v20 = consensus.as_map();
    let p_v20 = consensus_v20_params();
    consensus.insert(String::from_str(CONSENSUS_V20), p_v20);
    proof { lemma_abs_table_insert(pre_v20, CONSENSUS_V20@, p_v20); }
    let ghost pre_v21 = consensus.as_map();
    let p_v21 = consensus_v21_params();
    consensus.insert(String::from_str(CONSENSUS_V21), p_v21);
    proof { lemma_abs_table_insert(pre_v21, CONSENSUS_V21@, p_v21); }
    let ghost pre_v22 = consensus.as_map();
    let p_v22 = consensus_v22_params();
    consensus.insert(String::from_str(CONSENSUS_V22), p_v22);
    proof { lemma_abs_table_insert(pre_v22, CONSENSUS_V22@, p_v22); }
    let ghost pre_v23 = consensus.as_map();
    let p_v23 = consensus_v23_params();
    consensus.insert(String::from_str(CONSENSUS_V23), p_v23);
    proof { lemma_abs_table_insert(pre_v23, CONSENSUS_V23@, p_v23); }
    let ghost pre_v24 = consensus.as_map();
    let p_v24 = consensus_v24_params();
    consensus.insert(String::from_str(CONSENSUS_V24), p_v24);
    proof { lemma_abs_table_insert(pre_v24, CONSENSUS_V24@, p_v24); }
    let ghost pre_v25 = consensus.as_map();
    let p_v25 = consensus_v25_params();
    consensus.insert(String::from_str(CONSENSUS_V25), p_v25);
    proof { lemma_abs_table_insert(pre_v25, CONSENSUS_V25@, p_v25); }
    let ghost pre_v26 = consensus.as_map();
    let p_v26 = consensus_v26_params();
    consensus.insert(String::from_str(CONSENSUS_V26), p_v26);
    proof { lemma_abs_table_insert(pre_v26, CONSENSUS_V26@, p_v26); }
    let ghost pre_v27 = consensus.as_map();
    let p_v27 = consensus_v27_params();
    consensus.insert(String::from_str(CONSENSUS_V27), p_v27);
    proof { lemma_abs_table_insert(pre_v27, CONSENSUS_V27@, p_v27); }
    let ghost pre_v28 = consensus.as_map();
    let p_v28 = consensus_v28_params();
    consensus.insert(String::from_str(CONSENSUS_V28), p_v28);
    proof { lemma_abs_table_insert(pre_v28, CONSENSUS_V28@, p_v28); }
    let ghost pre_v29 = consensus.as_map();
    let p_v29 = consensus_v29_params();
    consensus.insert(String::from_str(CONSENSUS_V29), p_v29);
    proof { lemma_abs_table_insert(pre_v29, CONSENSUS_V29@, p_v29); }
    let ghost pre_v30 = consensus.as_map();
    let p_v30 = consensus_v30_params();
    consensus.insert(String::from_str(CONSENSUS_V30), p_v30);
    proof { lemma_abs_table_insert(pre_v30, CONSENSUS_V30@, p_v30); }
    let ghost pre_v31 = consensus.as_map();
    let p_v31 = consensus_v31_params();
    consensus.insert(String::from_str(CONSENSUS_V31), p_v31);
    proof { lemma_abs_table_insert(pre_v31, CONSENSUS_V31@, p_v31); }
    let ghost pre_v32 = consensus.as_map();
    let p_v32 = consensus_v32_params();
    consensus.insert(String::from_str(CONSENSUS_V32), p_v32);
    proof { lemma_abs_table_insert(pre_v32, CONSENSUS_V32@, p_v32); }
    let ghost pre_vfuture = consensus.as_map();
    let p_vfuture = consensus_vfuture_params();
    consensus.insert(String::from_str(CONSENSUS_VFUTURE), p_vfuture);
    proof { lemma_abs_table_insert(pre_vfuture, CONSENSUS_VFUTURE@, p_vfuture); }
    proof {
        assert(abs_table(consensus.as_map()) =~= consensus_table_over(abs_table(old(consensus).as_map())));
    }
}

/// Builds the built-in consensus table.
pub fn init() -> (r: ConsensusProtocols)
    ensures
        r.wf(),
        abs_table(r.as_map()) =~= consensus_table(),
{
    let mut consensus_map = VecMap::new();
    init_consensus_protocols(&mut consensus_map);
    consensus_map
}


/// The record's upgrade table is empty.
pub open spec fn upgrades_empty(p: ConsensusParams) -> bool {
    p.approved_upgrades.entries_seq().len() == 0
}

/// Keys of override entries with an empty upgrade table at an index in
/// the open interval `(lo, hi)`.
pub open spec fn empties_between(t: ConsensusProtocols, lo: int, hi: int) -> Set<Seq<char>> {
    Set::new(
        |kk: Seq<char>|
            exists|j: int|
                lo < j < hi && #[trigger] t.entries_seq()[j].0@ == kk && upgrades_empty(
                    t.entries_seq()[j].1,
                ),
    )
}

/// Some override entry carries this key with an empty upgrade table.
pub open spec fn removed_key(t: ConsensusProtocols, k: Seq<char>) -> bool {
    empties_between(t, -1, t.entries_seq().len() as int).contains(k)
}

/// Some override entry carries this key with a non-empty upgrade table.
pub open spec fn inserted_key(t: ConsensusProtocols, k: Seq<char>) -> bool {
    exists|j: int|
        0 <= j < t.entries_seq().len() && #[trigger] t.entries_seq()[j].0@ == k
            && !upgrades_empty(t.entries_seq()[j].1)
}

/// Merges a set of override records into a base table, the overrides
/// applied in entry order.  An override with a non-empty upgrade table
/// replaces the base record under its version; one with an empty upgrade
/// table deletes that version and strips it from every remaining record's
/// upgrade table.
#[verifier::rlimit(100)]
pub fn merge(c: &ConsensusProtocols, t: ConsensusProtocols) -> (r: ConsensusProtocols)
    requires
        protocols_wf(*c),
        protocols_wf(t),
    ensures
        protocols_wf(r),
        forall|k: Seq<char>| #[trigger]
            r.as_map().dom().contains(k) <==> (inserted_key(t, k) || (c.as_map().dom().contains(k)
                && !removed_key(t, k))),
        forall|j: int|
            0 <= j < t.entries_seq().len() && !upgrades_empty(#[trigger] t.entries_seq()[j].1)
                ==> {
                let k = t.entries_seq()[j].0@;
                &&& r.as_map().dom().contains(k)
                &&& scalars_eq(r.as_map()[k], t.entries_seq()[j].1)
                &&& r.as_map()[k].approved_upgrades.as_map()
                    =~= t.entries_seq()[j].1.approved_upgrades.as_map().remove_keys(
                    empties_between(t, j, t.entries_seq().len() as int),
                )
            },
        forall|k: Seq<char>|
            #![trigger c.as_map()[k]]
            c.as_map().dom().contains(k) && !removed_key(t, k) && !inserted_key(t, k) ==> {
                &&& r.as_map().dom().contains(k)
                &&& scalars_eq(r.as_map()[k], c.as_map()[k])
                &&& r.as_map()[k].approved_upgrades.as_map()
                    =~= c.as_map()[k].approved_upgrades.as_map().remove_keys(
                    empties_between(t, -1, t.entries_seq().len() as int),
                )
            },
{
    let mut acc: ConsensusProtocols = VecMap::new();
    let clen = c.len();
    let mut ci: usize = 0;
    while ci < clen
        invariant
            protocols_wf(*c),
            clen == c.entries_seq().len(),
            0 <= ci <= clen,
            acc.wf(),
            forall|k: Seq<char>| #[trigger]
                acc.as_map().dom().contains(k) <==> exists|i0: int|
                    0 <= i0 < ci && #[trigger] c.entries_seq()[i0].0@ == k,
            forall|i0: int|
                0 <= i0 < ci ==> {
                    let k = #[trigger] c.entries_seq()[i0].0@;
                    &&& acc.as_map().dom().contains(k)
                    &&& scalars_eq(acc.as_map()[k], c.entries_seq()[i0].1)
                    &&& acc.as_map()[k].approved_upgrades.as_map()
                        == c.entries_seq()[i0].1.approved_upgrades.as_map()
                    &&& acc.as_map()[k].wf()
                },
        decreases clen - ci,
    {
        let (k, v) = c.entry_at(ci);
        proof {
            c.lemma_seq_map();
            crate::vecmap::lemma_entries_map_index(c.entries_seq(), ci as int);
            assert(c.entries_seq()[ci as int].1.wf());
        }
        let nk = k.clone();
        let nv = v.clone();
        acc.insert(nk, nv);
        ci += 1;
        proof {
            assert forall|i0: int| 0 <= i0 < ci implies {
                let kk = #[trigger] c.entries_seq()[i0].0@;
                &&& acc.as_map().dom().contains(kk)
                &&& scalars_eq(acc.as_map()[kk], c.entries_seq()[i0].1)
                &&& acc.as_map()[kk].approved_upgrades.as_map()
                    == c.entries_seq()[i0].1.approved_upgrades.as_map()
                &&& acc.as_map()[kk].wf()
            } by {
                if i0 < ci - 1 {
                    assert(c.entries_seq()[i0].0@ != c.entries_seq()[ci - 1].0@);
                }
            }
        }
    }
    // `acc` now copies the base table.
    proof {
        c.lemma_seq_map();
        crate::vecmap::lemma_entries_map_dom::<String, ConsensusParams>(c.entries_seq());
        assert forall|k: Seq<char>|
            #![trigger c.as_map()[k]]
            c.as_map().dom().contains(k) implies acc.as_map().dom().contains(k) && scalars_eq(
            acc.as_map()[k],
            c.as_map()[k],
        ) && acc.as_map()[k].approved_upgrades.as_map() == c.as_map()[k].approved_upgrades.as_map()
            && acc.as_map()[k].wf() by {
            let i0 = choose|i0: int|
                0 <= i0 < c.entries_seq().len() && #[trigger] c.entries_seq()[i0].0@ == k;
            crate::vecmap::lemma_entries_map_index(c.entries_seq(), i0);
        }
        assert(empties_between(t, -1, 0) =~= Set::<Seq<char>>::empty());
    }
    let tlen = t.len();
    let mut j: usize = 0;
    while j < tlen
        invariant
            protocols_wf(*c),
            protocols_wf(t),
            tlen == t.entries_seq().len(),
            0 <= j <= tlen,
            acc.wf(),
            forall|k: Seq<char>| #[trigger]
                acc.as_map().dom().contains(k) <==> ((exists|j0: int|
                    0 <= j0 < j && #[trigger] t.entries_seq()[j0].0@ == k && !upgrades_empty(
                        t.entries_seq()[j0].1,
                    )) || (c.as_map().dom().contains(k) && !empties_between(t, -1, j as int)
                    .contains(k))),
            forall|j0: int|
                0 <= j0 < j && !upgrades_empty(#[trigger] t.entries_seq()[j0].1) ==> {
                    let k = t.entries_seq()[j0].0@;
                    &&& acc.as_map().dom().contains(k)
                    &&& scalars_eq(acc.as_map()[k], t.entries_seq()[j0].1)
                    &&& acc.as_map()[k].approved_upgrades.as_map()
                        =~= t.entries_seq()[j0].1.approved_upgrades.as_map().remove_keys(
                        empties_between(t, j0, j as int),
                    )
                    &&& acc.as_map()[k].wf()
                },
            forall|k: Seq<char>|
                #![trigger c.as_map()[k]]
                c.as_map().dom().contains(k) && !empties_between(t, -1, j as int).contains(k) && !(
                exists|j0: int|
                    0 <= j0 < j && #[trigger] t.entries_seq()[j0].0@ == k && !upgrades_empty(
                        t.entries_seq()[j0].1,
                    )) ==> {
                    &&& acc.as_map().dom().contains(k)
                    &&& scalars_eq(acc.as_map()[k], c.as_map()[k])
                    &&& acc.as_map()[k].approved_upgrades.as_map()
                        =~= c.as_map()[k].approved_upgrades.as_map().remove_keys(
                        empties_between(t, -1, j as int),
                    )
                    &&& acc.as_map()[k].wf()
                },
        decreases tlen - j,
    {
        let (ver, params) = t.entry_at(j);
        proof {
            t.lemma_seq_map();
        }
        let ghost pre_step = acc;
        if params.approved_upgrades.len() == 0 {
            let b = ver.clone();
            proof {
                assert(upgrades_empty(t.entries_seq()[j as int].1));
            }
            acc.remove(&b);
            let ghost pre = acc;
            proof {
                pre.lemma_seq_map();
                pre_step.lemma_seq_map();
                crate::vecmap::lemma_entries_map_dom::<String, ConsensusParams>(
                    pre.entries_seq(),
                );
                assert forall|i0: int|
                    0 <= i0 < pre.entries_seq().len() implies (#[trigger] pre.entries_seq()[i0].1).wf() by {
                    crate::vecmap::lemma_entries_map_index(pre.entries_seq(), i0);
                    let kk = pre.entries_seq()[i0].0@;
                    assert(pre.as_map() =~= pre_step.as_map().remove(b@));
                    assert(pre_step.as_map().dom().contains(kk));
                    assert(pre.as_map()[kk] == pre_step.as_map()[kk]);
                    if exists|j0: int|
                        0 <= j0 < j && #[trigger] t.entries_seq()[j0].0@ == kk && !upgrades_empty(
                            t.entries_seq()[j0].1,
                        ) {
                        let j0 = choose|j0: int|
                            0 <= j0 < j && #[trigger] t.entries_seq()[j0].0@ == kk
                                && !upgrades_empty(t.entries_seq()[j0].1);
                        assert(!upgrades_empty(t.entries_seq()[j0].1));
                        assert(pre_step.as_map()[kk].wf());
                    } else {
                        assert(c.as_map().dom().contains(kk) && !empties_between(t, -1, j as int)
                            .contains(kk));
                        let ghost cv = c.as_map()[kk];
                        assert(pre_step.as_map()[kk].wf());
                    }
                    assert(pre.as_map()[kk].wf());
                }
            }
            let alen = acc.len();
            let mut i: usize = 0;
            while i < alen
                invariant
                    0 <= i <= alen,
                    acc.wf(),
                    pre.wf(),
                    alen == pre.entries_seq().len(),
                    acc.entries_seq().len() == alen,
                    forall|i0: int|
                        0 <= i0 < alen ==> #[trigger] acc.entries_seq()[i0].0 == pre.entries_seq()[i0].0,
                    forall|i0: int|
                        i <= i0 < alen ==> #[trigger] acc.entries_seq()[i0].1
                            == pre.entries_seq()[i0].1,
                    forall|i0: int|
                        0 <= i0 < i ==> {
                            &&& scalars_eq(
                                #[trigger] acc.entries_seq()[i0].1,
                                pre.entries_seq()[i0].1,
                            )
                            &&& acc.entries_seq()[i0].1.approved_upgrades.as_map()
                                =~= pre.entries_seq()[i0].1.approved_upgrades.as_map().remove(b@)
                            &&& acc.entries_seq()[i0].1.wf()
                        },
                    forall|i0: int|
                        0 <= i0 < alen ==> (#[trigger] pre.entries_seq()[i0].1).wf(),
                decreases alen - i,
            {
                proof {
                    acc.lemma_seq_map();
                }
                let (_ek, ev) = acc.entry_at(i);
                let mut nv = ev.clone();
                nv.approved_upgrades.remove(&b);
                acc.set_value_at(i, nv);
                i += 1;
            }
            j += 1;
            proof {
                acc.lemma_seq_map();
                pre.lemma_seq_map();
                crate::vecmap::lemma_entries_map_dom::<String, ConsensusParams>(acc.entries_seq());
                crate::vecmap::lemma_entries_map_dom::<String, ConsensusParams>(pre.entries_seq());
                // the two tables have the same keys; values of `acc` are those
                // of `pre` with `b` stripped from their upgrade tables
                assert forall|k: Seq<char>| #[trigger] acc.as_map().dom().contains(k) implies
                    pre.as_map().dom().contains(k) && scalars_eq(acc.as_map()[k], pre.as_map()[k])
                    && acc.as_map()[k].approved_upgrades.as_map() =~= pre.as_map()[k]
                    .approved_upgrades.as_map().remove(b@) && acc.as_map()[k].wf() by {
                    let i0 = choose|i0: int|
                        0 <= i0 < acc.entries_seq().len() && #[trigger] acc.entries_seq()[i0].0@
                            == k;
                    crate::vecmap::lemma_entries_map_index(acc.entries_seq(), i0);
                    assert(pre.entries_seq()[i0].0@ == k);
                    crate::vecmap::lemma_entries_map_index(pre.entries_seq(), i0);
                }
                assert forall|k: Seq<char>| #[trigger] pre.as_map().dom().contains(k) implies
                    acc.as_map().dom().contains(k) by {
                    let i0 = choose|i0: int|
                        0 <= i0 < pre.entries_seq().len() && #[trigger] pre.entries_seq()[i0].0@
                            == k;
                    assert(acc.entries_seq()[i0].0@ == k);
                }
                // the interval of empty overrides grows by exactly `b`
                assert(b@ == t.entries_seq()[j - 1].0@);
                assert forall|kk: Seq<char>| #[trigger]
                    empties_between(t, -1, j as int).contains(kk) <==> (empties_between(
                    t,
                    -1,
                    j - 1,
                ).contains(kk) || kk == b@) by {
                    if empties_between(t, -1, j as int).contains(kk) {
                        let j0 = choose|j0: int|
                            -1 < j0 < j && #[trigger] t.entries_seq()[j0].0@ == kk
                                && upgrades_empty(t.entries_seq()[j0].1);
                        if j0 == j - 1 {
                            assert(kk == b@);
                        } else {
                            assert(empties_between(t, -1, j - 1).contains(kk));
                        }
                    }
                    if empties_between(t, -1, j - 1).contains(kk) {
                        let j0 = choose|j0: int|
                            -1 < j0 < j - 1 && #[trigger] t.entries_seq()[j0].0@ == kk
                                && upgrades_empty(t.entries_seq()[j0].1);
                        assert(-1 < j0 < j && t.entries_seq()[j0].0@ == kk);
                    }
                    if kk == b@ {
                        assert(-1 < j - 1 < j && t.entries_seq()[j - 1].0@ == kk
                            && upgrades_empty(t.entries_seq()[j - 1].1));
                    }
                }
                assert forall|j0: int, kk: Seq<char>|
                    0 <= j0 < j - 1 implies (#[trigger] empties_between(t, j0, j as int).contains(
                    kk,
                ) <==> (empties_between(t, j0, j - 1).contains(kk) || kk == b@)) by {
                    if empties_between(t, j0, j as int).contains(kk) {
                        let j1 = choose|j1: int|
                            j0 < j1 < j && #[trigger] t.entries_seq()[j1].0@ == kk
                                && upgrades_empty(t.entries_seq()[j1].1);
                        if j1 == j - 1 {
                            assert(kk == b@);
                        } else {
                            assert(empties_between(t, j0, j - 1).contains(kk));
                        }
                    }
                    if empties_between(t, j0, j - 1).contains(kk) {
                        let j1 = choose|j1: int|
                            j0 < j1 < j - 1 && #[trigger] t.entries_seq()[j1].0@ == kk
                                && upgrades_empty(t.entries_seq()[j1].1);
                        assert(j0 < j1 < j && t.entries_seq()[j1].0@ == kk);
                    }
                    if kk == b@ {
                        assert(j0 < j - 1 < j && t.entries_seq()[j - 1].0@ == kk
                            && upgrades_empty(t.entries_seq()[j - 1].1));
                    }
                }
                // re-establish the outer invariants
                assert forall|j0: int|
                    0 <= j0 < j && !upgrades_empty(#[trigger] t.entries_seq()[j0].1) implies {
                    let k = t.entries_seq()[j0].0@;
                    &&& acc.as_map().dom().contains(k)
                    &&& scalars_eq(acc.as_map()[k], t.entries_seq()[j0].1)
                    &&& acc.as_map()[k].approved_upgrades.as_map()
                        =~= t.entries_seq()[j0].1.approved_upgrades.as_map().remove_keys(
                        empties_between(t, j0, j as int),
                    )
                    &&& acc.as_map()[k].wf()
                } by {
                    let k = t.entries_seq()[j0].0@;
                    assert(j0 < j - 1) by {
                        assert(!upgrades_empty(t.entries_seq()[j0].1));
                        assert(upgrades_empty(t.entries_seq()[j - 1].1));
                    }
                    assert(k != b@) by {
                        assert(t.entries_seq()[j0].0@ != t.entries_seq()[j - 1].0@);
                    }
                    assert(pre_step.as_map().dom().contains(k));
                    assert(pre.as_map() =~= pre_step.as_map().remove(b@));
                    assert(pre.as_map().dom().contains(k));
                    assert(acc.as_map()[k].approved_upgrades.as_map() =~= t.entries_seq()[j0].1
                        .approved_upgrades.as_map().remove_keys(
                        empties_between(t, j0, j as int),
                    )) by {
                        assert(acc.as_map()[k].approved_upgrades.as_map() =~= pre.as_map()[k]
                            .approved_upgrades.as_map().remove(b@));
                        assert(pre.as_map()[k] == pre_step.as_map()[k]);
                    }
                }
                assert forall|k: Seq<char>|
                    #![trigger c.as_map()[k]]
                    c.as_map().dom().contains(k) && !empties_between(t, -1, j as int).contains(k)
                        && !(exists|j0: int|
                        0 <= j0 < j && #[trigger] t.entries_seq()[j0].0@ == k && !upgrades_empty(
                            t.entries_seq()[j0].1,
                        )) implies {
                    &&& acc.as_map().dom().contains(k)
                    &&& scalars_eq(acc.as_map()[k], c.as_map()[k])
                    &&& acc.as_map()[k].approved_upgrades.as_map()
                        =~= c.as_map()[k].approved_upgrades.as_map().remove_keys(
                        empties_between(t, -1, j as int),
                    )
                    &&& acc.as_map()[k].wf()
                } by {
                    assert(k != b@);
                    assert(!empties_between(t, -1, j - 1).contains(k));
                    assert(pre_step.as_map().dom().contains(k));
                    assert(pre.as_map() =~= pre_step.as_map().remove(b@));
                    assert(pre.as_map().dom().contains(k));
                    assert(pre.as_map()[k] == pre_step.as_map()[k]);
                    assert(acc.as_map().dom().contains(k));
                    assert(scalars_eq(acc.as_map()[k], pre.as_map()[k]));
                    assert(scalars_eq(pre_step.as_map()[k], c.as_map()[k]));
                    assert(acc.as_map()[k].approved_upgrades.as_map() =~= pre.as_map()[k]
                        .approved_upgrades.as_map().remove(b@));
                    assert(pre_step.as_map()[k].approved_upgrades.as_map() =~= c.as_map()[k]
                        .approved_upgrades.as_map().remove_keys(empties_between(t, -1, j - 1)));
                    assert(acc.as_map()[k].approved_upgrades.as_map() =~= c.as_map()[k]
                        .approved_upgrades.as_map().remove_keys(
                        empties_between(t, -1, j as int),
                    ));
                }
                assert forall|k: Seq<char>| #[trigger] acc.as_map().dom().contains(k) implies ((
                exists|j0: int|
                    0 <= j0 < j && #[trigger] t.entries_seq()[j0].0@ == k && !upgrades_empty(
                        t.entries_seq()[j0].1,
                    )) || (c.as_map().dom().contains(k) && !empties_between(t, -1, j as int)
                    .contains(k))) by {
                    assert(pre.as_map() =~= pre_step.as_map().remove(b@));
                    assert(pre_step.as_map().dom().contains(k));
                    assert(k != b@);
                }
                assert forall|k: Seq<char>|
                    ((exists|j0: int|
                        0 <= j0 < j && #[trigger] t.entries_seq()[j0].0@ == k && !upgrades_empty(
                            t.entries_seq()[j0].1,
                        )) || (c.as_map().dom().contains(k) && !empties_between(t, -1, j as int)
                        .contains(k))) implies #[trigger] acc.as_map().dom().contains(k) by {
                    assert(pre.as_map() =~= pre_step.as_map().remove(b@));
                    if exists|j0: int|
                        0 <= j0 < j && #[trigger] t.entries_seq()[j0].0@ == k && !upgrades_empty(
                            t.entries_seq()[j0].1,
                        ) {
                        let j0 = choose|j0: int|
                            0 <= j0 < j && #[trigger] t.entries_seq()[j0].0@ == k
                                && !upgrades_empty(t.entries_seq()[j0].1);
                        assert(j0 < j - 1);
                        assert(k != b@) by {
                            assert(t.entries_seq()[j0].0@ != t.entries_seq()[j - 1].0@);
                        }
                        assert(pre_step.as_map().dom().contains(k));
                        assert(pre.as_map().dom().contains(k));
                    } else {
                        assert(k != b@);
                        assert(!empties_between(t, -1, j - 1).contains(k));
                        assert(pre_step.as_map().dom().contains(k));
                        assert(pre.as_map().dom().contains(k));
                    }
                }
            }
        } else {
            let nk = ver.clone();
            let nv = params.clone();
            acc.insert(nk, nv);
            j += 1;
            proof {
                let k = t.entries_seq()[j - 1].0@;
                assert(!upgrades_empty(t.entries_seq()[j - 1].1));
                assert(empties_between(t, -1, j as int) =~= empties_between(t, -1, j - 1)) by {
                    assert forall|kk: Seq<char>| #[trigger]
                        empties_between(t, -1, j as int).contains(kk) implies empties_between(
                        t,
                        -1,
                        j - 1,
                    ).contains(kk) by {
                        let j0 = choose|j0: int|
                            -1 < j0 < j && #[trigger] t.entries_seq()[j0].0@ == kk
                                && upgrades_empty(t.entries_seq()[j0].1);
                        assert(j0 != j - 1);
                    }
                }
                assert forall|j0: int, kk: Seq<char>|
                    0 <= j0 < j - 1 implies (#[trigger] empties_between(t, j0, j as int).contains(
                    kk,
                ) <==> empties_between(t, j0, j - 1).contains(kk)) by {
                    if empties_between(t, j0, j as int).contains(kk) {
                        let j1 = choose|j1: int|
                            j0 < j1 < j && #[trigger] t.entries_seq()[j1].0@ == kk
                                && upgrades_empty(t.entries_seq()[j1].1);
                        assert(j1 != j - 1);
                        assert(empties_between(t, j0, j - 1).contains(kk));
                    }
                    if empties_between(t, j0, j - 1).contains(kk) {
                        let j1 = choose|j1: int|
                            j0 < j1 < j - 1 && #[trigger] t.entries_seq()[j1].0@ == kk
                                && upgrades_empty(t.entries_seq()[j1].1);
                        assert(j0 < j1 < j && t.entries_seq()[j1].0@ == kk);
                    }
                }
                assert(empties_between(t, j - 1, j as int) =~= Set::<Seq<char>>::empty());
                assert(acc.as_map()[k].approved_upgrades.as_map() =~= t.entries_seq()[j - 1].1
                    .approved_upgrades.as_map().remove_keys(empties_between(t, j - 1, j as int)));
                assert forall|j0: int|
                    0 <= j0 < j && !upgrades_empty(#[trigger] t.entries_seq()[j0].1) implies {
                    let kk = t.entries_seq()[j0].0@;
                    &&& acc.as_map().dom().contains(kk)
                    &&& scalars_eq(acc.as_map()[kk], t.entries_seq()[j0].1)
                    &&& acc.as_map()[kk].approved_upgrades.as_map()
                        =~= t.entries_seq()[j0].1.approved_upgrades.as_map().remove_keys(
                        empties_between(t, j0, j as int),
                    )
                    &&& acc.as_map()[kk].wf()
                } by {
                    let kk = t.entries_seq()[j0].0@;
                    if j0 < j - 1 {
                        assert(kk != k) by {
                            assert(t.entries_seq()[j0].0@ != t.entries_seq()[j - 1].0@);
                        }
                        assert(acc.as_map()[kk] == pre_step.as_map()[kk]);
                    }
                }
                assert forall|kk: Seq<char>|
                    #![trigger c.as_map()[kk]]
                    c.as_map().dom().contains(kk) && !empties_between(t, -1, j as int).contains(kk)
                        && !(exists|j0: int|
                        0 <= j0 < j && #[trigger] t.entries_seq()[j0].0@ == kk && !upgrades_empty(
                            t.entries_seq()[j0].1,
                        )) implies {
                    &&& acc.as_map().dom().contains(kk)
                    &&& scalars_eq(acc.as_map()[kk], c.as_map()[kk])
                    &&& acc.as_map()[kk].approved_upgrades.as_map()
                        =~= c.as_map()[kk].approved_upgrades.as_map().remove_keys(
                        empties_between(t, -1, j as int),
                    )
                    &&& acc.as_map()[kk].wf()
                } by {
                    assert(kk != k);
                    assert(acc.as_map()[kk] == pre_step.as_map()[kk]);
                }
            }
        }
    }
    proof {
        assert(empties_between(t, -1, tlen as int) == empties_between(
            t,
            -1,
            t.entries_seq().len() as int,
        ));
        acc.lemma_seq_map();
        crate::vecmap::lemma_entries_map_dom::<String, ConsensusParams>(acc.entries_seq());
        assert forall|i0: int|
            0 <= i0 < acc.entries_seq().len() implies (#[trigger] acc.entries_seq()[i0].1).wf() by {
            crate::vecmap::lemma_entries_map_index(acc.entries_seq(), i0);
            let k = acc.entries_seq()[i0].0@;
            assert(acc.as_map().dom().contains(k));
            if exists|j0: int|
                0 <= j0 < tlen && #[trigger] t.entries_seq()[j0].0@ == k && !upgrades_empty(
                    t.entries_seq()[j0].1,
                ) {
                let j0 = choose|j0: int|
                    0 <= j0 < tlen && #[trigger] t.entries_seq()[j0].0@ == k && !upgrades_empty(
                        t.entries_seq()[j0].1,
                    );
                assert(!upgrades_empty(t.entries_seq()[j0].1));
                assert(acc.as_map()[k].wf());
            } else {
                assert(c.as_map().dom().contains(k) && !empties_between(t, -1, tlen as int)
                    .contains(k));
                let ghost cv = c.as_map()[k];
                assert(acc.as_map()[k].wf());
            }
        }
    }
    acc
}


/// The larger of two values; `check_set_max` raises a running maximum.
pub open spec fn max2_u64(a: u64, b: u64) -> u64 {
    if b > a { b } else { a }
}

pub open spec fn max2_i32(a: i32, b: i32) -> i32 {
    if b > a { b } else { a }
}

pub open spec fn max2_i64(a: i64, b: i64) -> i64 {
    if b > a { b } else { a }
}

/// Raises the running maximum `c` to `v` when `v` is larger.
pub fn check_set_max(v: u64, c: &mut u64)
    ensures
        *final(c) == max2_u64(*old(c), v),
{
    if v > *c {
        *c = v;
    }
}

/// Raises the running maximum `c` to `v` when `v` is larger.
pub fn check_set_max_i32(v: i32, c: &mut i32)
    ensures
        *final(c) == max2_i32(*old(c), v),
{
    if v > *c {
        *c = v;
    }
}

/// Allocation bounds drawn from a parameter table: the largest value each
/// size-relevant parameter takes over all versions.  The two derived
/// products are carried widened so that no table can overflow them.
#[derive(Debug, Clone, Copy, PartialEq, Eq, Structural)]
pub struct AllocBounds {
    pub max_vote_threshold: u64,
    pub max_eval_delta_keys: i32,
    pub max_eval_delta_accounts: i32,
    pub max_app_program_len: i32,
    pub max_logic_sig_max_size: u64,
    pub max_txn_note_bytes: i32,
    pub max_tx_group_size: i32,
    pub max_bytes_key_value_len: i32,
    pub max_extra_app_program_len: i32,
    pub max_available_app_program_len: i64,
    pub max_log_calls: i32,
    pub max_inner_transactions_per_delta: i64,
    pub max_proposed_expired_online_accounts: i32,
}

/// The widened product of a record's inner-transaction and group-size
/// limits; it always fits, both factors being 32-bit.
pub open spec fn inner_txn_product(p: ConsensusParams) -> i64 {
    ((p.max_inner_transactions as i64) * (p.max_tx_group_size as i64)) as i64
}

/// One record's contribution folded into the running bounds.
pub open spec fn bounds_step(b: AllocBounds, p: ConsensusParams) -> AllocBounds {
    AllocBounds {
        max_vote_threshold: max2_u64(
            max2_u64(
                max2_u64(
                    max2_u64(
                        max2_u64(
                            max2_u64(b.max_vote_threshold, p.soft_committee_threshold),
                            p.cert_committee_threshold,
                        ),
                        p.next_committee_threshold,
                    ),
                    p.late_committee_threshold,
                ),
                p.redo_committee_threshold,
            ),
            p.down_committee_threshold,
        ),
        max_eval_delta_keys: max2_i32(b.max_eval_delta_keys, p.max_app_program_len),
        max_eval_delta_accounts: max2_i32(b.max_eval_delta_accounts, p.max_app_program_len),
        max_app_program_len: max2_i32(b.max_app_program_len, p.max_app_program_len),
        max_logic_sig_max_size: max2_u64(b.max_logic_sig_max_size, p.logic_sig_max_size),
        max_txn_note_bytes: max2_i32(b.max_txn_note_bytes, p.max_txn_note_bytes),
        max_tx_group_size: max2_i32(b.max_tx_group_size, p.max_tx_group_size),
        max_bytes_key_value_len: max2_i32(
            max2_i32(b.max_bytes_key_value_len, p.max_app_key_len),
            p.max_app_bytes_value_len,
        ),
        max_extra_app_program_len: max2_i32(
            b.max_extra_app_program_len,
            p.max_extra_app_program_pages,
        ),
        max_available_app_program_len: 0,
        max_log_calls: max2_i32(b.max_log_calls, p.max_app_program_len),
        max_inner_transactions_per_delta: max2_i64(
            b.max_inner_transactions_per_delta,
            inner_txn_product(p),
        ),
        max_proposed_expired_online_accounts: max2_i32(
            b.max_proposed_expired_online_accounts,
            p.max_proposed_expired_online_accounts,
        ),
    }
}

/// All bounds at zero.
pub open spec fn bounds_zero() -> AllocBounds {
    AllocBounds {
        max_vote_threshold: 0,
        max_eval_delta_keys: 0,
        max_eval_delta_accounts: 0,
        max_app_program_len: 0,
        max_logic_sig_max_size: 0,
        max_txn_note_bytes: 0,
        max_tx_group_size: 0,
        max_bytes_key_value_len: 0,
        max_extra_app_program_len: 0,
        max_available_app_program_len: 0,
        max_log_calls: 0,
        max_inner_transactions_per_delta: 0,
        max_proposed_expired_online_accounts: 0,
    }
}

/// The bounds a table's entry sequence folds to (the derived product field
/// is left at zero; it is fixed up from the folded maxima).
pub open spec fn bounds_fold(s: Seq<(String, ConsensusParams)>) -> AllocBounds
    decreases s.len(),
{
    if s.len() == 0 {
        bounds_zero()
    } else {
        bounds_step(bounds_fold(s.drop_last()), s.last().1)
    }
}

/// Computes the allocation bounds of a parameter table: each field is the
/// maximum of the matching parameter over every version in the table, and
/// the available-program-length field is the product of the two maxima it
/// is derived from.
pub fn check_set_alloc_bounds(consensus: &ConsensusProtocols) -> (r: AllocBounds)
    ensures
        ({
            let folded = bounds_fold(consensus.entries_seq());
            r == AllocBounds {
                max_available_app_program_len: ((folded.max_app_program_len as i64) * (1
                    + folded.max_extra_app_program_len as i64)) as i64,
                ..folded
            }
        }),
{
    let mut max_vote_threshold: u64 = 0;
    let mut max_eval_delta_keys: i32 = 0;
    let mut max_eval_delta_accounts: i32 = 0;
    let mut max_app_program_len: i32 = 0;
    let mut max_logic_sig_max_size: u64 = 0;
    let mut max_txn_note_bytes: i32 = 0;
    let mut max_tx_group_size: i32 = 0;
    let mut max_bytes_key_value_len: i32 = 0;
    let mut max_extra_app_program_len: i32 = 0;
    let mut max_log_calls: i32 = 0;
    let mut max_inner_transactions_per_delta: i64 = 0;
    let mut max_proposed_expired_online_accounts: i32 = 0;
    let n = consensus.len();
    let mut i: usize = 0;
    while i < n
        invariant
            0 <= i <= n,
            n == consensus.entries_seq().len(),
            ({
                let folded = bounds_fold(consensus.entries_seq().subrange(0, i as int));
                &&& max_vote_threshold == folded.max_vote_threshold
                &&& max_eval_delta_keys == folded.max_eval_delta_keys
                &&& max_eval_delta_accounts == folded.max_eval_delta_accounts
                &&& max_app_program_len == folded.max_app_program_len
                &&& max_logic_sig_max_size == folded.max_logic_sig_max_size
                &&& max_txn_note_bytes == folded.max_txn_note_bytes
                &&& max_tx_group_size == folded.max_tx_group_size
                &&& max_bytes_key_value_len == folded.max_bytes_key_value_len
                &&& max_extra_app_program_len == folded.max_extra_app_program_len
                &&& max_log_calls == folded.max_log_calls
                &&& max_inner_transactions_per_delta
                    == folded.max_inner_transactions_per_delta
                &&& max_proposed_expired_online_accounts
                    == folded.max_proposed_expired_online_accounts
            }),
        decreases n - i,
    {
        let (_ver, p) = consensus.entry_at(i);
        check_set_max(p.soft_committee_threshold, &mut max_vote_threshold);
        check_set_max(p.cert_committee_threshold, &mut max_vote_threshold);
        check_set_max(p.next_committee_threshold, &mut max_vote_threshold);
        check_set_max(p.late_committee_threshold, &mut max_vote_threshold);
        check_set_max(p.redo_committee_threshold, &mut max_vote_threshold);
        check_set_max(p.down_committee_threshold, &mut max_vote_threshold);
        check_set_max_i32(p.max_app_program_len, &mut max_eval_delta_keys);
        check_set_max_i32(p.max_app_program_len, &mut max_eval_delta_accounts);
        check_set_max_i32(p.max_app_program_len, &mut max_app_program_len);
        check_set_max(p.logic_sig_max_size, &mut max_logic_sig_max_size);
        check_set_max_i32(p.max_txn_note_bytes, &mut max_txn_note_bytes);
        check_set_max_i32(p.max_tx_group_size, &mut max_tx_group_size);
        check_set_max_i32(p.max_app_key_len, &mut max_bytes_key_value_len);
        check_set_max_i32(p.max_app_bytes_value_len, &mut max_bytes_key_value_len);
        check_set_max_i32(p.max_extra_app_program_pages, &mut max_extra_app_program_len);
        check_set_max_i32(p.max_app_program_len, &mut max_log_calls);
        proof {
            assert((p.max_inner_transactions as int) * (p.max_tx_group_size as int)
                <= 0x7fff_ffff_ffff_ffff && (p.max_inner_transactions as int) * (
            p.max_tx_group_size as int) >= -0x8000_0000_0000_0000) by (nonlinear_arith)
                requires
                    -0x8000_0000 <= p.max_inner_transactions as int <= 0x7fff_ffff,
                    -0x8000_0000 <= p.max_tx_group_size as int <= 0x7fff_ffff,
            ;
        }
        let inner_product: i64 = p.max_inner_transactions as i64 * p.max_tx_group_size as i64;
        if inner_product > max_inner_transactions_per_delta {
            max_inner_transactions_per_delta = inner_product;
        }
        check_set_max_i32(
            p.max_proposed_expired_online_accounts,
            &mut max_proposed_expired_online_accounts,
        );
        i += 1;
        proof {
            assert(consensus.entries_seq().subrange(0, i as int).drop_last()
                =~= consensus.entries_seq().subrange(0, i - 1));
            assert(consensus.entries_seq().subrange(0, i as int).last()
                == consensus.entries_seq()[i - 1]);
        }
    }
    proof {
        assert(consensus.entries_seq().subrange(0, n as int) =~= consensus.entries_seq());
    }
    proof {
        assert((max_app_program_len as int) * (1 + max_extra_app_program_len as int)
            <= 0x7fff_ffff_ffff_ffff && (max_app_program_len as int) * (1
            + max_extra_app_program_len as int) >= -0x8000_0000_0000_0000) by (nonlinear_arith)
            requires
                -0x8000_0000 <= max_app_program_len as int <= 0x7fff_ffff,
                -0x8000_0000 <= max_extra_app_program_len as int <= 0x7fff_ffff,
        ;
    }
    let max_available_app_program_len: i64 = max_app_program_len as i64 * (1
        + max_extra_app_program_len as i64);
    AllocBounds {
        max_vote_threshold,
        max_eval_delta_keys,
        max_eval_delta_accounts,
        max_app_program_len,
        max_logic_sig_max_size,
        max_txn_note_bytes,
        max_tx_group_size,
        max_bytes_key_value_len,
        max_extra_app_program_len,
        max_available_app_program_len,
        max_log_calls,
        max_inner_transactions_per_delta,
        max_proposed_expired_online_accounts,
    }
}

/// Applies a set of configurable overrides to the current table: with no
/// override file the table is returned as it stands; with one, the
/// overrides are merged in.
pub fn load_configurable_consensus_protocols(
    current: &ConsensusProtocols,
    configurable: Option<ConsensusProtocols>,
) -> (r: ConsensusProtocols)
    requires
        protocols_wf(*current),
        configurable matches Some(t) ==> protocols_wf(t),
    ensures
        protocols_wf(r),
        configurable is None ==> {
            &&& forall|k: Seq<char>| #[trigger]
                r.as_map().dom().contains(k) == current.as_map().dom().contains(k)
            &&& forall|k: Seq<char>|
                #![trigger r.as_map()[k]]
                current.as_map().dom().contains(k) ==> scalars_eq(
                    r.as_map()[k],
                    current.as_map()[k],
                ) && r.as_map()[k].approved_upgrades.as_map() == current.as_map()[k]
                    .approved_upgrades.as_map()
        },
        configurable matches Some(t) ==> {
            &&& forall|k: Seq<char>| #[trigger]
                r.as_map().dom().contains(k) <==> (inserted_key(t, k) || (current.as_map().dom()
                    .contains(k) && !removed_key(t, k)))
            &&& forall|j: int|
                0 <= j < t.entries_seq().len() && !upgrades_empty(#[trigger] t.entries_seq()[j].1)
                    ==> {
                    let k = t.entries_seq()[j].0@;
                    &&& r.as_map().dom().contains(k)
                    &&& scalars_eq(r.as_map()[k], t.entries_seq()[j].1)
                    &&& r.as_map()[k].approved_upgrades.as_map()
                        =~= t.entries_seq()[j].1.approved_upgrades.as_map().remove_keys(
                        empties_between(t, j, t.entries_seq().len() as int),
                    )
                }
            &&& forall|k: Seq<char>|
                #![trigger current.as_map()[k]]
                current.as_map().dom().contains(k) && !removed_key(t, k) && !inserted_key(t, k)
                    ==> {
                    &&& r.as_map().dom().contains(k)
                    &&& scalars_eq(r.as_map()[k], current.as_map()[k])
                    &&& r.as_map()[k].approved_upgrades.as_map()
                        =~= current.as_map()[k].approved_upgrades.as_map().remove_keys(
                        empties_between(t, -1, t.entries_seq().len() as int),
                    )
                }
        },
{
    match configurable {
        Some(t) => merge(current, t),
        None => {
            let empty: ConsensusProtocols = VecMap::new();
            proof {
                assert(empty.entries_seq().len() == 0);
                assert forall|k: Seq<char>| !(#[trigger] inserted_key(empty, k)) by {}
                assert forall|k: Seq<char>| !(#[trigger] removed_key(empty, k)) by {
                    assert(empties_between(empty, -1, 0) =~= Set::<Seq<char>>::empty());
                }
            }
            let r = merge(current, empty);
            proof {
                assert forall|k: Seq<char>|
                    #![trigger r.as_map()[k]]
                    current.as_map().dom().contains(k) implies scalars_eq(
                    r.as_map()[k],
                    current.as_map()[k],
                ) && r.as_map()[k].approved_upgrades.as_map() == current.as_map()[k]
                    .approved_upgrades.as_map() by {
                    assert(!removed_key(empty, k));
                    assert(!inserted_key(empty, k));
                    let ghost cv = current.as_map()[k];
                    assert(r.as_map()[k].approved_upgrades.as_map() =~= current.as_map()[k]
                        .approved_upgrades.as_map().remove_keys(
                        empties_between(empty, -1, empty.entries_seq().len() as int),
                    ));
                    assert(empties_between(empty, -1, 0) =~= Set::<Seq<char>>::empty());
                    assert(current.as_map()[k].approved_upgrades.as_map().remove_keys(
                        Set::<Seq<char>>::empty(),
                    ) =~= current.as_map()[k].approved_upgrades.as_map());
                }
            }
            r
        },
    }
}

} // verus!
