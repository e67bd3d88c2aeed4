//! Genesis bookkeeping: the genesis description, its parsed balances, and
//! the genesis block.

use vstd::prelude::*;

verus! {

use crate::basics::{
    base32_decode_rfc4648, checksum_of, unmarshal_checksum_address, AccountData, Address,
};
use crate::block::{Block, RewardsState};
use crate::consensus::ConsensusProtocols;
use crate::crypto::HashDigest;
use crate::protocol::{ConsensusVersion, NetworkId};
use crate::msgp::{
    msgp_map_header, msgp_str, msgp_uint, write_map_header, write_str, write_uint, Marshaler,
};
use crate::payset::{msgp_byte_seq, write_byte_array};
use crate::vecmap::VecMap;
use vstd::string::StringExecFns;
use vstd::string::StringSliceAdditionalSpecFns;

/// One account's opening allocation in the genesis description.
#[derive(Debug)]
pub struct GenesisAllocation {
    pub address: String,
    pub comment: String,
    pub state: AccountData,
}

impl Default for GenesisAllocation {
    fn default() -> (r: Self)
        ensures
            r.address@ =~= Seq::<char>::empty(),
            r.comment@ =~= Seq::<char>::empty(),
            r.state.is_default(),
    {
        GenesisAllocation { address: String::new(), comment: String::new(), state: AccountData::default() }
    }
}

/// The canonical map encoding of an account's state: each field appears
/// under its short key only when it differs from the default; key arrays
/// are encoded as arrays of integers.
/// The number of non-default fields an account state encodes.
pub open spec fn account_field_count(a: AccountData) -> int {
    let zero_key = Seq::new(32, |_i: int| 0u8);
    (if a.status != 0 { 1int } else { 0 }) + (if a.microalgos.0 != 0 { 1int } else { 0 })
        + (if a.rewards_base != 0 { 1int } else { 0 }) + (if a.rewarded_micro_algos.0 != 0 {
        1int
    } else {
        0
    }) + (if a.vote_id@ != zero_key { 1int } else { 0 }) + (if a.selection_id@ != zero_key {
        1int
    } else {
        0
    }) + (if a.vote_first_valid != 0 { 1int } else { 0 }) + (if a.vote_last_valid != 0 {
        1int
    } else {
        0
    }) + (if a.vote_key_dilution != 0 { 1int } else { 0 })
}

/// The encoded balance fields of an account state.
pub open spec fn account_fields_balance(a: AccountData) -> Seq<u8> {
    (if a.status != 0 {
        msgp_str(ascii_key_bytes("onl"@)) + msgp_uint(a.status as u64)
    } else {
        Seq::empty()
    }) + (if a.microalgos.0 != 0 {
        msgp_str(ascii_key_bytes("algo"@)) + msgp_uint(a.microalgos.0)
    } else {
        Seq::empty()
    }) + (if a.rewards_base != 0 {
        msgp_str(ascii_key_bytes("ebase"@)) + msgp_uint(a.rewards_base)
    } else {
        Seq::empty()
    }) + (if a.rewarded_micro_algos.0 != 0 {
        msgp_str(ascii_key_bytes("ern"@)) + msgp_uint(a.rewarded_micro_algos.0)
    } else {
        Seq::empty()
    })
}

/// The encoded participation keys of an account state.
pub open spec fn account_fields_keys(a: AccountData) -> Seq<u8> {
    let zero_key = Seq::new(32, |_i: int| 0u8);
    (if a.vote_id@ != zero_key {
        msgp_str(ascii_key_bytes("vote"@)) + crate::msgp::msgp_array_header(32) + msgp_byte_seq(
            a.vote_id@,
        )
    } else {
        Seq::empty()
    }) + (if a.selection_id@ != zero_key {
        msgp_str(ascii_key_bytes("sel"@)) + crate::msgp::msgp_array_header(32) + msgp_byte_seq(
            a.selection_id@,
        )
    } else {
        Seq::empty()
    })
}

/// The encoded voting window of an account state.
pub open spec fn account_fields_voting(a: AccountData) -> Seq<u8> {
    (if a.vote_first_valid != 0 {
        msgp_str(ascii_key_bytes("voteFst"@)) + msgp_uint(a.vote_first_valid)
    } else {
        Seq::empty()
    }) + (if a.vote_last_valid != 0 {
        msgp_str(ascii_key_bytes("voteLst"@)) + msgp_uint(a.vote_last_valid)
    } else {
        Seq::empty()
    }) + (if a.vote_key_dilution != 0 {
        msgp_str(ascii_key_bytes("voteKD"@)) + msgp_uint(a.vote_key_dilution)
    } else {
        Seq::empty()
    })
}

/// The canonical map encoding of an account's state: each field appears
/// under its short key only when it differs from the default; key arrays
/// are encoded as arrays of integers.
pub open spec fn account_data_marshaled(a: AccountData) -> Seq<u8> {
    msgp_map_header(account_field_count(a) as u64) + account_fields_balance(a)
        + account_fields_keys(a) + account_fields_voting(a)
}

/// The bytes of an ASCII key.
pub open spec fn ascii_key_bytes(s: Seq<char>) -> Seq<u8> {
    s.map(|_i: int, c: char| c as u8)
}

/// The genesis description a network starts from.
#[derive(Debug)]
pub struct Genesis {
    pub schema_id: String,
    pub network: NetworkId,
    pub proto: ConsensusVersion,
    pub allocation: Vec<GenesisAllocation>,
    pub rewards_pool: String,
    pub fee_sink: String,
    pub comment: String,
    pub timestamp: u32,
    pub dev_mode: bool,
}

impl Default for Genesis {
    fn default() -> (r: Self)
        ensures
            r.schema_id@ =~= Seq::<char>::empty(),
            r.network@ =~= Seq::<char>::empty(),
            r.proto@ =~= Seq::<char>::empty(),
            r.allocation@.len() == 0,
            r.rewards_pool@ =~= Seq::<char>::empty(),
            r.fee_sink@ =~= Seq::<char>::empty(),
            r.comment@ =~= Seq::<char>::empty(),
            r.timestamp == 0,
            !r.dev_mode,
    {
        Genesis {
            schema_id: String::new(),
            network: String::new(),
            proto: String::new(),
            allocation: Vec::new(),
            rewards_pool: String::new(),
            fee_sink: String::new(),
            comment: String::new(),
            timestamp: 0,
            dev_mode: false,
        }
    }
}

/// What a textual address parses to, if anything: the first 32 decoded
/// bytes, accepted only when the decoding's trailing checksum matches.
pub open spec fn parsed_address(s: Seq<char>) -> Option<Seq<u8>> {
    match base32_decode_rfc4648(s) {
        Some(d) => if d.len() >= 32 && d.subrange(d.len() - 4, d.len() as int) =~= checksum_of(
            d.subrange(0, 32),
        ) {
            Some(d.subrange(0, 32))
        } else {
            None
        },
        None => None,
    }
}

/// Why a genesis description could not be turned into balances.
#[derive(Debug, Clone, Copy, PartialEq, Eq, Structural)]
pub enum GenesisError {
    /// An allocation entry's address does not parse.
    BadAllocationAddress,
    /// Two allocation entries name the same address.
    RepeatedAllocation,
    /// The fee sink address does not parse.
    BadFeeSink,
    /// The rewards pool address does not parse.
    BadRewardsPool,
    /// The named protocol is not in the parameter table.
    UnsupportedProtocol,
}

pub type GenesisResult<T> = Result<T, GenesisError>;

/// The opening balances a genesis description denotes.
#[derive(Debug)]
pub struct GenesisBalances {
    pub balances: VecMap<Address, AccountData>,
    pub fee_sink: Address,
    pub rewards_pool: Address,
    pub timestamp: u32,
}

impl GenesisBalances {
    /// Packs parsed balances with their special addresses and timestamp.
    pub fn new_with_timestamp(
        balances: VecMap<Address, AccountData>,
        fee_sink: Address,
        rewards_pool: Address,
        timestamp: u32,
    ) -> (r: Self)
        ensures
            r.balances == balances,
            r.fee_sink == fee_sink,
            r.rewards_pool == rewards_pool,
            r.timestamp == timestamp,
    {
        GenesisBalances { balances, fee_sink, rewards_pool, timestamp }
    }
}


fn key_nonzero(a: &[u8; 32]) -> (r: bool)
    ensures
        r == (a@ != Seq::new(32, |_i: int| 0u8)),
{
    let mut i: usize = 0;
    while i < 32
        invariant
            0 <= i <= 32,
            forall|j: int| 0 <= j < i ==> a@[j] == 0,
        decreases 32 - i,
    {
        if a[i] != 0 {
            proof {
                assert(a@[i as int] != Seq::new(32, |_i: int| 0u8)[i as int]);
            }
            return true;
        }
        i += 1;
    }
    proof {
        assert(a@ =~= Seq::new(32, |_i: int| 0u8));
    }
    false
}

fn write_key(bytes: &mut Vec<u8>, key: &str)
    requires
        vstd::string::is_ascii(key),
        key@.len() < 0x100000000,
    ensures
        final(bytes)@ == old(bytes)@ + msgp_str(ascii_key_bytes(key@)),
{
    proof {
        vstd::string::is_ascii_spec_bytes(key);
        assert(key.spec_bytes() =~= ascii_key_bytes(key@));
    }
    write_str(bytes, key);
}

#[verifier::rlimit(100)]
fn write_fields_balance(bytes: &mut Vec<u8>, a: &AccountData)
    ensures
        final(bytes)@ == old(bytes)@ + account_fields_balance(*a),
{
    proof {
        reveal_strlit("onl");
        reveal_strlit("algo");
        reveal_strlit("ebase");
        reveal_strlit("ern");
    }
    if a.status != 0 {
        write_key(bytes, "onl");
        write_uint(bytes, a.status as u64);
    }
    if a.microalgos.0 != 0 {
        write_key(bytes, "algo");
        write_uint(bytes, a.microalgos.0);
    }
    if a.rewards_base != 0 {
        write_key(bytes, "ebase");
        write_uint(bytes, a.rewards_base);
    }
    if a.rewarded_micro_algos.0 != 0 {
        write_key(bytes, "ern");
        write_uint(bytes, a.rewarded_micro_algos.0);
    }
    proof {
        assert(bytes@ =~= old(bytes)@ + account_fields_balance(*a));
    }
}

#[verifier::rlimit(100)]
fn write_fields_keys(bytes: &mut Vec<u8>, a: &AccountData)
    ensures
        final(bytes)@ == old(bytes)@ + account_fields_keys(*a),
{
    proof {
        reveal_strlit("vote");
        reveal_strlit("sel");
    }
    if key_nonzero(&a.vote_id) {
        write_key(bytes, "vote");
        crate::msgp::write_array_header(bytes, 32);
        write_byte_array(bytes, a.vote_id.as_slice());
    }
    if key_nonzero(&a.selection_id) {
        write_key(bytes, "sel");
        crate::msgp::write_array_header(bytes, 32);
        write_byte_array(bytes, a.selection_id.as_slice());
    }
    proof {
        assert(bytes@ =~= old(bytes)@ + account_fields_keys(*a));
    }
}

#[verifier::rlimit(100)]
fn write_fields_voting(bytes: &mut Vec<u8>, a: &AccountData)
    ensures
        final(bytes)@ == old(bytes)@ + account_fields_voting(*a),
{
    proof {
        reveal_strlit("voteFst");
        reveal_strlit("voteLst");
        reveal_strlit("voteKD");
    }
    if a.vote_first_valid != 0 {
        write_key(bytes, "voteFst");
        write_uint(bytes, a.vote_first_valid);
    }
    if a.vote_last_valid != 0 {
        write_key(bytes, "voteLst");
        write_uint(bytes, a.vote_last_valid);
    }
    if a.vote_key_dilution != 0 {
        write_key(bytes, "voteKD");
        write_uint(bytes, a.vote_key_dilution);
    }
    proof {
        assert(bytes@ =~= old(bytes)@ + account_fields_voting(*a));
    }
}

fn count_account_fields(a: &AccountData) -> (n: u64)
    ensures
        n == account_field_count(*a),
{
    let mut n: u64 = 0;
    if a.status != 0 { n = n + 1; }
    if a.microalgos.0 != 0 { n = n + 1; }
    if a.rewards_base != 0 { n = n + 1; }
    if a.rewarded_micro_algos.0 != 0 { n = n + 1; }
    if key_nonzero(&a.vote_id) { n = n + 1; }
    if key_nonzero(&a.selection_id) { n = n + 1; }
    if a.vote_first_valid != 0 { n = n + 1; }
    if a.vote_last_valid != 0 { n = n + 1; }
    if a.vote_key_dilution != 0 { n = n + 1; }
    n
}

impl Marshaler for AccountData {
    open spec fn marshaled(&self) -> Seq<u8> {
        account_data_marshaled(*self)
    }

    #[verifier::rlimit(100)]
    fn marshal_msg(&self, bytes: &mut Vec<u8>) {
        let n = count_account_fields(self);
        write_map_header(bytes, n);
        write_fields_balance(bytes, self);
        write_fields_keys(bytes, self);
        write_fields_voting(bytes, self);
        proof {
            assert(bytes@ =~= old(bytes)@ + account_data_marshaled(*self));
        }
    }
}

/// The canonical map encoding of one allocation entry: its address, its
/// comment, and the account state.
pub open spec fn allocation_marshaled(g: GenesisAllocation) -> Seq<u8> {
    msgp_map_header(3) + msgp_str(ascii_key_bytes("addr"@)) + msgp_str(
        vstd::utf8::encode_utf8(g.address@),
    ) + msgp_str(ascii_key_bytes("comment"@)) + msgp_str(vstd::utf8::encode_utf8(g.comment@))
        + msgp_str(ascii_key_bytes("state"@)) + account_data_marshaled(g.state)
}

impl Marshaler for GenesisAllocation {
    open spec fn marshaled(&self) -> Seq<u8> {
        allocation_marshaled(*self)
    }

    fn marshal_msg(&self, bytes: &mut Vec<u8>) {
        proof {
            reveal_strlit("addr");
            reveal_strlit("comment");
            reveal_strlit("state");
        }
        write_map_header(bytes, 3);
        write_key(bytes, "addr");
        write_str(bytes, self.address.as_str());
        write_key(bytes, "comment");
        write_str(bytes, self.comment.as_str());
        write_key(bytes, "state");
        self.state.marshal_msg(bytes);
        proof {
            assert(bytes@ =~= old(bytes)@ + allocation_marshaled(*self));
        }
    }
}


/// The allocation entries before position `i` all parse and name pairwise
/// distinct addresses.
pub open spec fn alloc_ok_upto(allocation: Seq<GenesisAllocation>, i: int) -> bool {
    &&& forall|j: int| 0 <= j < i ==> (#[trigger] parsed_address(allocation[j].address@)) is Some
    &&& forall|j1: int, j2: int|
        0 <= j1 < j2 < i ==> parsed_address(allocation[j1].address@) != parsed_address(
            allocation[j2].address@,
        )
}

impl Genesis {
    /// The canonical name of this genesis: network and schema id.
    pub fn id(&self) -> (r: String)
        ensures
            r@ == self.network@ + "-"@ + self.schema_id@,
    {
        let mut s = self.network.clone();
        s.append("-");
        s.append(self.schema_id.as_str());
        s
    }

    /// Parses the balances this genesis allocates: each entry's address,
    /// rejected on the first entry that fails to parse or repeats an
    /// earlier address, then the fee sink and the rewards pool.
    pub fn balances(&self) -> (r: GenesisResult<GenesisBalances>)
        ensures
            match r {
                Ok(gb) => {
                    &&& alloc_ok_upto(self.allocation@, self.allocation@.len() as int)
                    &&& parsed_address(self.fee_sink@) is Some
                    &&& parsed_address(self.rewards_pool@) is Some
                    &&& gb.fee_sink@ == parsed_address(self.fee_sink@)->0
                    &&& gb.rewards_pool@ == parsed_address(self.rewards_pool@)->0
                    &&& gb.timestamp == self.timestamp
                    &&& gb.balances.wf()
                    &&& forall|k: Seq<u8>| #[trigger]
                        gb.balances.as_map().dom().contains(k) <==> exists|j: int|
                            0 <= j < self.allocation@.len() && parsed_address(
                                #[trigger] self.allocation@[j].address@,
                            ) == Some(k)
                    &&& forall|j: int|
                        0 <= j < self.allocation@.len() ==> gb.balances.as_map()[parsed_address(
                            #[trigger] self.allocation@[j].address@,
                        )->0] == self.allocation@[j].state
                },
                Err(GenesisError::BadAllocationAddress) => exists|i: int|
                    0 <= i < self.allocation@.len() && alloc_ok_upto(self.allocation@, i)
                        && parsed_address(#[trigger] self.allocation@[i].address@) is None,
                Err(GenesisError::RepeatedAllocation) => exists|i: int, j: int|
                    0 <= j < i < self.allocation@.len() && alloc_ok_upto(self.allocation@, i)
                        && parsed_address(#[trigger] self.allocation@[i].address@)
                        == parsed_address(#[trigger] self.allocation@[j].address@)
                        && parsed_address(self.allocation@[i].address@) is Some,
                Err(GenesisError::BadFeeSink) => alloc_ok_upto(
                    self.allocation@,
                    self.allocation@.len() as int,
                ) && parsed_address(self.fee_sink@) is None,
                Err(GenesisError::BadRewardsPool) => alloc_ok_upto(
                    self.allocation@,
                    self.allocation@.len() as int,
                ) && parsed_address(self.fee_sink@) is Some && parsed_address(
                    self.rewards_pool@,
                ) is None,
                Err(GenesisError::UnsupportedProtocol) => false,
            },
    {
        let mut gen_alloc: VecMap<Address, AccountData> = VecMap::new();
        let n = self.allocation.len();
        let mut i: usize = 0;
        while i < n
            invariant
                0 <= i <= n,
                n == self.allocation@.len(),
                gen_alloc.wf(),
                alloc_ok_upto(self.allocation@, i as int),
                forall|k: Seq<u8>| #[trigger]
                    gen_alloc.as_map().dom().contains(k) <==> exists|j: int|
                        0 <= j < i && parsed_address(#[trigger] self.allocation@[j].address@)
                            == Some(k),
                forall|j: int|
                    0 <= j < i ==> gen_alloc.as_map()[parsed_address(
                        #[trigger] self.allocation@[j].address@,
                    )->0] == self.allocation@[j].state,
            decreases n - i,
        {
            let entry = &self.allocation[i];
            let addr = match unmarshal_checksum_address(&entry.address) {
                Ok(a) => a,
                Err(_) => {
                    proof {
                        assert(parsed_address(self.allocation@[i as int].address@) is None);
                    }
                    return Err(GenesisError::BadAllocationAddress);
                },
            };
            proof {
                assert(parsed_address(self.allocation@[i as int].address@) == Some(addr@));
            }
            if gen_alloc.contains_key(&addr) {
                proof {
                    let k = addr@;
                    let j = choose|j: int|
                        0 <= j < i && parsed_address(#[trigger] self.allocation@[j].address@)
                            == Some(k);
                    assert(parsed_address(self.allocation@[i as int].address@) == parsed_address(
                        self.allocation@[j].address@,
                    ));
                }
                return Err(GenesisError::RepeatedAllocation);
            }
            let ghost pre_alloc = gen_alloc;
            gen_alloc.insert(addr, entry.state);
            i += 1;
            proof {
                assert forall|j1: int, j2: int|
                    0 <= j1 < j2 < i implies parsed_address(self.allocation@[j1].address@)
                    != parsed_address(self.allocation@[j2].address@) by {
                    if j2 == i - 1 {
                        assert(parsed_address(self.allocation@[j1].address@) is Some);
                        if parsed_address(self.allocation@[j1].address@) == parsed_address(
                            self.allocation@[j2].address@,
                        ) {
                            assert(pre_alloc.as_map().dom().contains(addr@));
                            assert(false);
                        }
                    }
                }
                assert forall|j: int|
                    0 <= j < i implies gen_alloc.as_map()[parsed_address(
                    #[trigger] self.allocation@[j].address@,
                )->0] == self.allocation@[j].state by {
                    if j < i - 1 {
                        assert(parsed_address(self.allocation@[j].address@)->0 != addr@) by {
                            assert(pre_alloc.as_map().dom().contains(
                                parsed_address(self.allocation@[j].address@)->0,
                            ));
                        }
                    }
                }
            }
        }
        proof {
            assert(alloc_ok_upto(self.allocation@, n as int));
        }
        let fee_sink = match unmarshal_checksum_address(&self.fee_sink) {
            Ok(a) => a,
            Err(_) => {
                return Err(GenesisError::BadFeeSink);
            },
        };
        let rewards_pool = match unmarshal_checksum_address(&self.rewards_pool) {
            Ok(a) => a,
            Err(_) => {
                return Err(GenesisError::BadRewardsPool);
            },
        };
        Ok(GenesisBalances::new_with_timestamp(gen_alloc, fee_sink, rewards_pool, self.timestamp))
    }
}

/// Builds the genesis block for one protocol version: the default block
/// carrying the genesis hash (when the version supports one) and the
/// opening rewards state drawn from the rewards pool's balance.
pub fn make_genesis_block(
    proto: &ConsensusVersion,
    genesis_bal: GenesisBalances,
    genesis_id: String,
    genesis_hash: HashDigest,
    consensus: &ConsensusProtocols,
) -> (r: GenesisResult<Block>)
    requires
        consensus.wf(),
        genesis_bal.balances.wf(),
        consensus.as_map().dom().contains(proto@) ==> {
            &&& consensus.as_map()[proto@].rewards_rate_refresh_interval > 0
            &&& genesis_bal.balances.as_map().dom().contains(genesis_bal.rewards_pool@)
        },
    ensures
        match r {
            Ok(blk) => {
                &&& consensus.as_map().dom().contains(proto@)
                &&& ({
                    let params = consensus.as_map()[proto@];
                    let initial = genesis_bal.balances.as_map()[genesis_bal.rewards_pool@]
                        .microalgos.0;
                    &&& blk.header.rewards_state.fee_sink@ == genesis_bal.fee_sink@
                    &&& blk.header.rewards_state.rewards_pool@ == genesis_bal.rewards_pool@
                    &&& blk.header.rewards_state.rewards_recalculation_round
                        == params.rewards_rate_refresh_interval
                    &&& blk.header.rewards_state.rewards_rate as int == (
                    if params.initial_rewards_rate_calculation {
                        if initial >= params.min_balance {
                            (initial - params.min_balance) as int / (
                            params.rewards_rate_refresh_interval as int)
                        } else {
                            0int / (params.rewards_rate_refresh_interval as int)
                        }
                    } else {
                        initial as int / (params.rewards_rate_refresh_interval as int)
                    })
                    &&& (params.support_genesis_hash ==> blk.header.genesis_hash@
                        == genesis_hash@)
                    &&& (!params.support_genesis_hash ==> forall|i: int|
                        0 <= i < 32 ==> blk.header.genesis_hash@[i] == 0)
                    &&& blk.payset.0@.len() == 0
                })
            },
            Err(e) => e == GenesisError::UnsupportedProtocol && !consensus.as_map().dom().contains(
                proto@,
            ),
        },
{
    let _ = genesis_id;
    let params = match consensus.get(proto) {
        Some(p) => p,
        None => {
            return Err(GenesisError::UnsupportedProtocol);
        },
    };
    let mut genesis_rewards_state = RewardsState::default();
    genesis_rewards_state.fee_sink = genesis_bal.fee_sink;
    genesis_rewards_state.rewards_pool = genesis_bal.rewards_pool;
    genesis_rewards_state.rewards_recalculation_round = params.rewards_rate_refresh_interval;
    let initial_rewards = match genesis_bal.balances.get(&genesis_bal.rewards_pool) {
        Some(state) => state.microalgos.0,
        None => {
            // excluded by the precondition: the rewards pool is funded
            proof {
                assert(false);
            }
            0
        },
    };
    if params.initial_rewards_rate_calculation {
        let base = if initial_rewards >= params.min_balance {
            initial_rewards - params.min_balance
        } else {
            0
        };
        genesis_rewards_state.rewards_rate = base / params.rewards_rate_refresh_interval;
    } else {
        genesis_rewards_state.rewards_rate = initial_rewards
            / params.rewards_rate_refresh_interval;
    }
    let mut blk = Block::default();
    if params.support_genesis_hash {
        blk.header.genesis_hash = genesis_hash;
    }
    blk.header.rewards_state = genesis_rewards_state;
    Ok(blk)
}

} // verus!
