//! Protocol-level identifiers: domain-separation prefixes for hashing,
//! consensus version tags, and the canonical encoder entry point.

use vstd::prelude::*;

verus! {

use crate::msgp::Marshaler;

/// Domain-separation prefix put in front of an object's encoding before
/// hashing.  Hash ids must be prefix-free.
pub type HashId = &'static str;

/// Name of one consensus protocol version; keys the parameter table.
pub type ConsensusVersion = String;

/// Name of a network (mainnet, testnet, ...).
pub type NetworkId = String;

pub const APP_INDEX: HashId = "appID";
pub const ARC_RESERVED: HashId = "arc";
pub const AUCTION_BID: HashId = "aB";
pub const AUCTION_DEPOSIT: HashId = "aD";
pub const AUCTION_OUTCOMES: HashId = "aO";
pub const AUCTION_PARAMS: HashId = "aP";
pub const AUCTION_SETTLEMENT: HashId = "aS";
pub const COMPACT_CERT_COIN: HashId = "ccc";
pub const COMPACT_CERT_PART: HashId = "ccp";
pub const COMPACT_CERT_SIG: HashId = "ccs";
pub const AGREEMENT_SELECTOR: HashId = "AS";
pub const BLOCK_HEADER: HashId = "BH";
pub const BALANCE_RECORD: HashId = "BR";
pub const CREDENTIAL: HashId = "CR";
pub const GENESIS: HashId = "GE";
pub const KEYS_IN_MSS: HashId = "KP";
pub const MERKLE_ARRAY_NODE: HashId = "MA";
pub const MERKLE_VECTOR_COMMITMENT_BOTTOM_LEAF: HashId = "MB";
pub const MESSAGE: HashId = "MX";
pub const NET_PRIO_RESPONSE: HashId = "NPR";
pub const ONE_TIME_SIG_KEY1: HashId = "OT1";
pub const ONE_TIME_SIG_KEY2: HashId = "OT2";
pub const PAYSET_FLAT: HashId = "PF";
pub const PAYLOAD: HashId = "PL";
pub const PROGRAM: HashId = "Program";
pub const PROGRAM_DATA: HashId = "ProgData";
pub const PROPOSER_SEED: HashId = "PS";
pub const PARTICIPATION_KEYS: HashId = "PK";
pub const SEED: HashId = "SD";
pub const SPECIAL_ADDR: HashId = "SpecialAddr";
pub const SIGNED_TXN_IN_BLOCK: HashId = "STIB";
pub const TEST_HASHABLE: HashId = "TE";
pub const TX_GROUP: HashId = "TG";
pub const TXN_MERKLE_LEAF: HashId = "TL";
pub const TRANSACTION: HashId = "TX";
pub const VOTE: HashId = "VO";

pub const CONSENSUS_V7: &'static str = "v7";
pub const CONSENSUS_V8: &'static str = "v8";
pub const CONSENSUS_V9: &'static str = "v9";
pub const CONSENSUS_V10: &'static str = "v10";
pub const CONSENSUS_V11: &'static str = "v11";
pub const CONSENSUS_V12: &'static str = "v12";
pub const CONSENSUS_V13: &'static str = "v13";
pub const CONSENSUS_V14: &'static str = "v14";
pub const CONSENSUS_V15: &'static str = "v15";
pub const CONSENSUS_V16: &'static str = "v16";
pub const CONSENSUS_V17: &'static str = "v17";
pub const CONSENSUS_V18: &'static str = "v18";
pub const CONSENSUS_V19: &'static str = "v19";
pub const CONSENSUS_V20: &'static str = "v20";
pub const CONSENSUS_V21: &'static str = "v21";
pub const CONSENSUS_V22: &'static str = "v22";
pub const CONSENSUS_V23: &'static str = "v23";
pub const CONSENSUS_V24: &'static str = "v24";
pub const CONSENSUS_V25: &'static str = "v25";
pub const CONSENSUS_V26: &'static str = "v26";
pub const CONSENSUS_V27: &'static str = "v27";
pub const CONSENSUS_V28: &'static str = "v28";
pub const CONSENSUS_V29: &'static str = "v29";
pub const CONSENSUS_V30: &'static str = "v30";
pub const CONSENSUS_V31: &'static str = "v31";
pub const CONSENSUS_V32: &'static str = "v32";
pub const CONSENSUS_VFUTURE: &'static str = "future";

fn encode_msgp<M: Marshaler>(m: &M) -> (r: Vec<u8>)
    requires
        m.marshaled().len() < 0x100000000,
    ensures
        r@ == m.marshaled(),
{
    let mut buffer: Vec<u8> = Vec::new();
    m.marshal_msg(&mut buffer);
    buffer
}

/// Canonical encoding of a value: its MessagePack bytes.
pub fn encode<M: Marshaler>(m: &M) -> (r: Vec<u8>)
    requires
        m.marshaled().len() < 0x100000000,
    ensures
        r@ == m.marshaled(),
{
    encode_msgp(m)
}

} // verus!
