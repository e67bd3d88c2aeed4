//! Block bookkeeping: headers, reward state and upgrade tracking.

use vstd::prelude::*;

verus! {

use crate::basics::{Address, Round};
use crate::crypto::HashDigest;
use crate::protocol::ConsensusVersion;
use vstd::string::StringExecFns;

pub type BlockHash = HashDigest;

/// A committee selection seed.
#[derive(Debug, Clone, Copy)]
pub struct Seed(pub [u8; 32]);

impl Default for Seed {
    fn default() -> (r: Self)
        ensures
            forall|i: int| 0 <= i < 32 ==> r.0@[i] == 0,
    {
        Seed([0u8; 32])
    }
}

/// Commitments to a block's payset.
#[derive(Debug, Clone, Copy)]
pub struct TxnCommitments {
    pub native_sha512_256_commitment: HashDigest,
    pub sha256_commitment: HashDigest,
}

impl Default for TxnCommitments {
    fn default() -> (r: Self)
        ensures
            forall|i: int| 0 <= i < 32 ==> r.native_sha512_256_commitment@[i] == 0,
            forall|i: int| 0 <= i < 32 ==> r.sha256_commitment@[i] == 0,
    {
        TxnCommitments {
            native_sha512_256_commitment: HashDigest::default(),
            sha256_commitment: HashDigest::default(),
        }
    }
}

/// Accounts whose participation keys expired in this block.
#[derive(Debug)]
pub struct ParticipationUpdates {
    expired_participation_accounts: Vec<Address>,
}

impl ParticipationUpdates {
    /// The recorded accounts.
    pub closed spec fn expired(self) -> Seq<Address> {
        self.expired_participation_accounts@
    }
}

impl Default for ParticipationUpdates {
    fn default() -> (r: Self)
        ensures
            r.expired() =~= Seq::<Address>::empty(),
    {
        ParticipationUpdates { expired_participation_accounts: Vec::new() }
    }
}

/// The rewards bookkeeping carried in each block header.
#[derive(Debug, Clone, Copy)]
pub struct RewardsState {
    pub fee_sink: Address,
    pub rewards_pool: Address,
    pub rewards_level: u64,
    pub rewards_rate: u64,
    pub rewards_residue: u64,
    pub rewards_recalculation_round: Round,
}

impl Default for RewardsState {
    fn default() -> (r: Self)
        ensures
            forall|i: int| 0 <= i < 32 ==> r.fee_sink@[i] == 0,
            forall|i: int| 0 <= i < 32 ==> r.rewards_pool@[i] == 0,
            r.rewards_level == 0,
            r.rewards_rate == 0,
            r.rewards_residue == 0,
            r.rewards_recalculation_round == 0,
    {
        RewardsState {
            fee_sink: Address::default(),
            rewards_pool: Address::default(),
            rewards_level: 0,
            rewards_rate: 0,
            rewards_residue: 0,
            rewards_recalculation_round: 0,
        }
    }
}

/// One node's vote on a pending protocol upgrade.
#[derive(Debug)]
pub struct UpgradeVote {
    upgrade_propose: ConsensusVersion,
    upgrade_delay: Round,
    upgrade_approve: bool,
}

impl Default for UpgradeVote {
    fn default() -> (r: Self)
        ensures
            r.is_default(),
    {
        UpgradeVote { upgrade_propose: String::new(), upgrade_delay: 0, upgrade_approve: false }
    }
}

impl UpgradeVote {
    /// No proposal, no delay, no approval.
    pub closed spec fn is_default(self) -> bool {
        self.upgrade_propose@ =~= Seq::<char>::empty() && self.upgrade_delay == 0
            && !self.upgrade_approve
    }
}

/// The upgrade state machine carried in each block header.
#[derive(Debug)]
pub struct UpgradeState {
    current_protocol: ConsensusVersion,
    next_protocol: ConsensusVersion,
    next_protocol_approvals: u64,
    next_protcol_vote_before: Round,
    next_protocol_switch_on: Round,
}

impl Default for UpgradeState {
    fn default() -> (r: Self)
        ensures
            r.is_default(),
    {
        UpgradeState {
            current_protocol: String::new(),
            next_protocol: String::new(),
            next_protocol_approvals: 0,
            next_protcol_vote_before: 0,
            next_protocol_switch_on: 0,
        }
    }
}

impl UpgradeState {
    /// No protocols named, no approvals, no deadlines.
    pub closed spec fn is_default(self) -> bool {
        self.current_protocol@ =~= Seq::<char>::empty() && self.next_protocol@ =~= Seq::<
            char,
        >::empty() && self.next_protocol_approvals == 0 && self.next_protcol_vote_before == 0
            && self.next_protocol_switch_on == 0
    }
}

/// A block's header.
#[derive(Debug)]
pub struct BlockHeader {
    pub round: Round,
    pub branch: BlockHash,
    pub seed: Seed,
    pub txn_commitments: TxnCommitments,
    pub timestamp: u32,
    pub genesis_id: String,
    pub genesis_hash: HashDigest,
    pub rewards_state: RewardsState,
    pub upgrade_state: UpgradeState,
    pub upgrade_vote: UpgradeVote,
    pub txn_counter: u64,
    pub participation_updates: ParticipationUpdates,
}

impl Default for BlockHeader {
    fn default() -> (r: Self)
        ensures
            r.round == 0,
            forall|i: int| 0 <= i < 32 ==> r.branch@[i] == 0,
            r.timestamp == 0,
            r.genesis_id@ =~= Seq::<char>::empty(),
            forall|i: int| 0 <= i < 32 ==> r.genesis_hash@[i] == 0,
            r.rewards_state.rewards_rate == 0,
            forall|i: int| 0 <= i < 32 ==> r.rewards_state.fee_sink@[i] == 0,
            forall|i: int| 0 <= i < 32 ==> r.rewards_state.rewards_pool@[i] == 0,
            r.rewards_state.rewards_recalculation_round == 0,
            r.upgrade_state.is_default(),
            r.upgrade_vote.is_default(),
            r.txn_counter == 0,
            r.participation_updates.expired() =~= Seq::<Address>::empty(),
    {
        BlockHeader {
            round: 0,
            branch: HashDigest::default(),
            seed: Seed::default(),
            txn_commitments: TxnCommitments::default(),
            timestamp: 0,
            genesis_id: String::new(),
            genesis_hash: HashDigest::default(),
            rewards_state: RewardsState::default(),
            upgrade_state: UpgradeState::default(),
            upgrade_vote: UpgradeVote::default(),
            txn_counter: 0,
            participation_updates: ParticipationUpdates::default(),
        }
    }
}

/// A block: its header and its payset.
#[derive(Debug)]
pub struct Block {
    pub header: BlockHeader,
    pub payset: crate::payset::PaySet,
}

impl Default for Block {
    fn default() -> (r: Self)
        ensures
            forall|i: int| 0 <= i < 32 ==> r.header.genesis_hash@[i] == 0,
            r.header.rewards_state.rewards_rate == 0,
            r.payset.0@.len() == 0,
    {
        Block { header: BlockHeader::default(), payset: crate::payset::PaySet(Vec::new()) }
    }
}

} // verus!
