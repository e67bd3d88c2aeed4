//! Signed transactions as they stand in a block, and the payset — the
//! block's transaction list — with its commitment hash.

use vstd::prelude::*;

verus! {

use crate::basics::Address;
use crate::crypto::{ascii_bytes, hash_obj, sha512_256_of, HashDigest, MsgpHashable, Signature};
use crate::msgp::{
    msgp_array_header, msgp_bool, msgp_map_header, msgp_str, msgp_uint, write_array_header,
    write_bool, write_map_header, write_str, write_uint, Marshaler,
};
use crate::protocol::{HashId, PAYSET_FLAT};
use vstd::string::StringSliceAdditionalSpecFns;

/// A multi-party signature.  The signing scheme itself lives outside this
/// core; the carrier is kept so a signed transaction has its shape.
#[derive(Debug, Clone, Copy, PartialEq, Eq, Structural)]
pub struct MultiSig;

/// A logic signature; the evaluator lives outside this core.
#[derive(Debug, Clone, Copy, PartialEq, Eq, Structural)]
pub struct LogicSig;

/// A transaction body; transaction semantics live outside this core.
#[derive(Debug, Clone, Copy, PartialEq, Eq, Structural)]
pub struct Transaction;

/// The effects a transaction had when it was applied.
#[derive(Debug, Clone, Copy, PartialEq, Eq, Structural)]
pub struct ApplyData;

/// How a transaction was signed.
#[derive(Debug, Clone, Copy)]
pub enum SignatureType {
    Sig(Signature),
    MutltiSig(MultiSig),
    LogicSig(LogicSig),
}

impl Default for SignatureType {
    fn default() -> (r: Self)
        ensures
            r matches SignatureType::Sig(s) && s.is_blank(),
    {
        SignatureType::Sig(Signature::default())
    }
}

/// A transaction together with its signature.
#[derive(Debug, Clone, Copy)]
pub struct SignedTxn {
    pub sig: Signature,
    pub msig: MultiSig,
    pub lsig: LogicSig,
    pub txn: Transaction,
    pub auth_addr: Address,
}

impl SignedTxn {
    /// Blank signature and zero authorizer.
    pub open spec fn is_default(self) -> bool {
        &&& self.sig.is_blank()
        &&& forall|i: int| 0 <= i < 32 ==> self.auth_addr@[i] == 0
    }
}

impl Default for SignedTxn {
    fn default() -> (r: Self)
        ensures
            r.is_default(),
    {
        SignedTxn {
            sig: Signature::default(),
            msig: MultiSig,
            lsig: LogicSig,
            txn: Transaction,
            auth_addr: Address::default(),
        }
    }
}

/// A signed transaction with the effects of applying it.
#[derive(Debug, Clone, Copy)]
pub struct SignedTxnWithAD {
    pub signed_txn: SignedTxn,
    pub apply_data: ApplyData,
}

impl SignedTxnWithAD {
    pub open spec fn is_default(self) -> bool {
        self.signed_txn.is_default()
    }
}

impl Default for SignedTxnWithAD {
    fn default() -> (r: Self)
        ensures
            r.is_default(),
    {
        SignedTxnWithAD { signed_txn: SignedTxn::default(), apply_data: ApplyData }
    }
}

/// A signed transaction as recorded in a block.
#[derive(Debug, Clone, Copy)]
pub struct SignedTxnInBlock {
    pub sigend_txn_with_ad: SignedTxnWithAD,
    pub has_genesis_id: bool,
    pub has_genesis_hash: bool,
}

impl Default for SignedTxnInBlock {
    fn default() -> (r: Self)
        ensures
            r.sigend_txn_with_ad.is_default(),
            !r.has_genesis_id,
            !r.has_genesis_hash,
    {
        SignedTxnInBlock {
            sigend_txn_with_ad: SignedTxnWithAD::default(),
            has_genesis_id: false,
            has_genesis_hash: false,
        }
    }
}

/// The encoding of a byte string as a MessagePack array of integers.
pub open spec fn msgp_byte_seq(s: Seq<u8>) -> Seq<u8>
    decreases s.len(),
{
    if s.len() == 0 {
        Seq::empty()
    } else {
        msgp_byte_seq(s.drop_last()) + msgp_uint(s.last() as u64)
    }
}

/// Appends each byte of the slice as a MessagePack integer.
pub fn write_byte_array(bytes: &mut Vec<u8>, data: &[u8])
    ensures
        final(bytes)@ == old(bytes)@ + msgp_byte_seq(data@),
{
    let n = data.len();
    let mut i: usize = 0;
    while i < n
        invariant
            0 <= i <= n,
            n == data@.len(),
            bytes@ == old(bytes)@ + msgp_byte_seq(data@.subrange(0, i as int)),
        decreases n - i,
    {
        write_uint(bytes, data[i] as u64);
        i += 1;
        proof {
            assert(data@.subrange(0, i as int).drop_last() =~= data@.subrange(0, i - 1));
            assert(data@.subrange(0, i as int).last() == data@[i - 1]);
        }
    }
    proof {
        assert(data@.subrange(0, n as int) =~= data@);
        assert(bytes@ =~= old(bytes)@ + msgp_byte_seq(data@));
    }
}

/// The canonical map encoding of a signed transaction: a non-blank
/// signature and a non-zero authorizer appear under their keys, default
/// fields are left out.
pub open spec fn signed_txn_marshaled(x: SignedTxn) -> Seq<u8> {
    let sig_present = !x.sig.is_blank();
    let addr_present = !(forall|i: int| 0 <= i < 32 ==> x.auth_addr@[i] == 0);
    let n = (if sig_present { 1int } else { 0 }) + (if addr_present { 1int } else { 0 });
    msgp_map_header(n as u64) + (if sig_present {
        msgp_str("sig"@.map(|_i: int, c: char| c as u8)) + msgp_array_header(64)
            + msgp_byte_seq(x.sig.0@)
    } else {
        Seq::empty()
    }) + (if addr_present {
        msgp_str("auth_addr"@.map(|_i: int, c: char| c as u8)) + msgp_array_header(32)
            + msgp_byte_seq(x.auth_addr@)
    } else {
        Seq::empty()
    })
}

/// The canonical map encoding of one block transaction: default fields are
/// left out, so the default record is the empty map.
pub open spec fn stib_marshaled(x: SignedTxnInBlock) -> Seq<u8> {
    let ad_present = !x.sigend_txn_with_ad.is_default();
    let gid = x.has_genesis_id;
    let gh = x.has_genesis_hash;
    let n = (if ad_present { 1int } else { 0 }) + (if gid { 1int } else { 0 }) + (if gh {
        1int
    } else {
        0
    });
    msgp_map_header(n as u64) + (if ad_present {
        msgp_str("sigend_txn_with_ad"@.map(|_i: int, c: char| c as u8)) + msgp_map_header(1)
            + msgp_str("signed_txn"@.map(|_i: int, c: char| c as u8)) + signed_txn_marshaled(
            x.sigend_txn_with_ad.signed_txn,
        )
    } else {
        Seq::empty()
    }) + (if gid {
        msgp_str("has_genesis_id"@.map(|_i: int, c: char| c as u8)) + msgp_bool(true)
    } else {
        Seq::empty()
    }) + (if gh {
        msgp_str("has_genesis_hash"@.map(|_i: int, c: char| c as u8)) + msgp_bool(true)
    } else {
        Seq::empty()
    })
}

/// The transactions of one block.
#[derive(Debug)]
pub struct PaySet(pub Vec<SignedTxnInBlock>);

/// The canonical encoding of a payset: the array of its transactions'
/// encodings.
pub open spec fn payset_elements_marshaled(s: Seq<SignedTxnInBlock>) -> Seq<u8>
    decreases s.len(),
{
    if s.len() == 0 {
        Seq::empty()
    } else {
        payset_elements_marshaled(s.drop_last()) + stib_marshaled(s.last())
    }
}

impl Default for PaySet {
    fn default() -> (r: Self)
        ensures
            r.0@.len() == 0,
    {
        PaySet(Vec::new())
    }
}

fn all_zero_32(a: &[u8; 32]) -> (r: bool)
    ensures
        r == (forall|i: int| 0 <= i < 32 ==> a@[i] == 0),
{
    let mut i: usize = 0;
    while i < 32
        invariant
            0 <= i <= 32,
            forall|j: int| 0 <= j < i ==> a@[j] == 0,
        decreases 32 - i,
    {
        if a[i] != 0 {
            return false;
        }
        i += 1;
    }
    true
}

fn all_zero_64(a: &[u8; 64]) -> (r: bool)
    ensures
        r == (forall|i: int| 0 <= i < 64 ==> a@[i] == 0),
{
    let mut i: usize = 0;
    while i < 64
        invariant
            0 <= i <= 64,
            forall|j: int| 0 <= j < i ==> a@[j] == 0,
        decreases 64 - i,
    {
        if a[i] != 0 {
            return false;
        }
        i += 1;
    }
    true
}

fn write_ascii_key(bytes: &mut Vec<u8>, key: &str)
    requires
        vstd::string::is_ascii(key),
        key@.len() < 0x100000000,
    ensures
        final(bytes)@ == old(bytes)@ + msgp_str(key@.map(|_i: int, c: char| c as u8)),
{
    proof {
        vstd::string::is_ascii_spec_bytes(key);
        assert(key.spec_bytes() =~= key@.map(|_i: int, c: char| c as u8));
    }
    write_str(bytes, key);
}

impl Marshaler for SignedTxnInBlock {
    open spec fn marshaled(&self) -> Seq<u8> {
        stib_marshaled(*self)
    }

    #[verifier::rlimit(100)]
    fn marshal_msg(&self, bytes: &mut Vec<u8>) {
        let addr_bytes = self.sigend_txn_with_ad.signed_txn.auth_addr.to_bytes();
        let sig_blank = all_zero_64(&self.sigend_txn_with_ad.signed_txn.sig.0);
        let addr_zero = all_zero_32(&addr_bytes);
        let ad_present = !(sig_blank && addr_zero);
        let mut n: u64 = 0;
        if ad_present {
            n = n + 1;
        }
        if self.has_genesis_id {
            n = n + 1;
        }
        if self.has_genesis_hash {
            n = n + 1;
        }
        proof {
            reveal_strlit("sigend_txn_with_ad");
            reveal_strlit("signed_txn");
            reveal_strlit("has_genesis_id");
            reveal_strlit("has_genesis_hash");
            reveal_strlit("sig");
            reveal_strlit("auth_addr");
            assert(self.sigend_txn_with_ad.is_default() == (sig_blank && addr_zero));
        }
        write_map_header(bytes, n);
        if ad_present {
            write_ascii_key(bytes, "sigend_txn_with_ad");
            write_map_header(bytes, 1);
            write_ascii_key(bytes, "signed_txn");
            let sig_present = !sig_blank;
            let addr_present = !addr_zero;
            let mut inner: u64 = 0;
            if sig_present {
                inner = inner + 1;
            }
            if addr_present {
                inner = inner + 1;
            }
            write_map_header(bytes, inner);
            if sig_present {
                write_ascii_key(bytes, "sig");
                write_array_header(bytes, 64);
                write_byte_array(bytes, self.sigend_txn_with_ad.signed_txn.sig.0.as_slice());
            }
            if addr_present {
                write_ascii_key(bytes, "auth_addr");
                write_array_header(bytes, 32);
                write_byte_array(bytes, addr_bytes.as_slice());
            }
        }
        if self.has_genesis_id {
            write_ascii_key(bytes, "has_genesis_id");
            write_bool(bytes, true);
        }
        if self.has_genesis_hash {
            write_ascii_key(bytes, "has_genesis_hash");
            write_bool(bytes, true);
        }
        proof {
            assert(bytes@ =~= old(bytes)@ + stib_marshaled(*self));
        }
    }
}

impl Marshaler for PaySet {
    open spec fn marshaled(&self) -> Seq<u8> {
        msgp_array_header(self.0@.len() as u64) + payset_elements_marshaled(self.0@)
    }

    fn marshal_msg(&self, bytes: &mut Vec<u8>) {
        let n = self.0.len();
        proof {
            assert(n < 0x100000000) by {
                assert(msgp_array_header(n as u64).len() >= 1);
                assert(self.marshaled().len() >= n) by {
                    lemma_payset_elements_len(self.0@);
                }
            }
        }
        write_array_header(bytes, n as u64);
        let mut i: usize = 0;
        while i < n
            invariant
                0 <= i <= n,
                n == self.0@.len(),
                old(bytes)@.len() + self.marshaled().len() < 0x100000000,
                bytes@ == old(bytes)@ + msgp_array_header(n as u64) + payset_elements_marshaled(
                    self.0@.subrange(0, i as int),
                ),
                bytes@.len() <= old(bytes)@.len() + msgp_array_header(n as u64).len()
                    + payset_elements_marshaled(self.0@).len(),
            decreases n - i,
        {
            proof {
                lemma_payset_elements_prefix(self.0@, i as int);
            }
            self.0[i].marshal_msg(bytes);
            i += 1;
            proof {
                assert(self.0@.subrange(0, i as int).drop_last() =~= self.0@.subrange(0, i - 1));
                assert(self.0@.subrange(0, i as int).last() == self.0@[i - 1]);
                assert(bytes@ =~= old(bytes)@ + msgp_array_header(n as u64)
                    + payset_elements_marshaled(self.0@.subrange(0, i as int)));
            }
        }
        proof {
            assert(self.0@.subrange(0, n as int) =~= self.0@);
            assert(bytes@ =~= old(bytes)@ + self.marshaled());
        }
    }
}

/// Each transaction contributes at least one byte to the array encoding.
proof fn lemma_payset_elements_len(s: Seq<SignedTxnInBlock>)
    ensures
        payset_elements_marshaled(s).len() >= s.len(),
    decreases s.len(),
{
    if s.len() > 0 {
        lemma_payset_elements_len(s.drop_last());
        assert(msgp_map_header(0).len() >= 1);
        assert(stib_marshaled(s.last()).len() >= 1);
    }
}

/// The encoding of a prefix is a prefix of the encoding.
proof fn lemma_payset_elements_prefix(s: Seq<SignedTxnInBlock>, i: int)
    requires
        0 <= i < s.len(),
    ensures
        payset_elements_marshaled(s.subrange(0, i)).len() + stib_marshaled(s[i]).len()
            <= payset_elements_marshaled(s).len(),
    decreases s.len() - i,
{
    if i == s.len() - 1 {
        assert(s.subrange(0, i) =~= s.drop_last());
    } else {
        lemma_payset_elements_prefix(s.drop_last(), i);
        assert(s.drop_last().subrange(0, i) =~= s.subrange(0, i));
        assert(s.drop_last()[i] == s[i]);
    }
}

impl MsgpHashable for PaySet {
    open spec fn hash_id_spec(&self) -> Seq<char> {
        PAYSET_FLAT@
    }

    fn hash_id(&self) -> (r: HashId) {
        proof {
            reveal_strlit("PF");
        }
        PAYSET_FLAT
    }
}

impl PaySet {
    /// The commitment of a genesis block's payset.
    pub fn commit_genesis(&self) -> (r: HashDigest)
        requires
            self.hash_id_spec().len() + self.marshaled().len() < 0x100000000,
        ensures
            r@ == sha512_256_of(ascii_bytes(self.hash_id_spec()) + self.marshaled()),
    {
        self.commit(true)
    }

    /// The commitment of this payset: the hash of its domain-separated
    /// canonical encoding.  An empty payset commits to the encoding of the
    /// empty transaction array.
    pub fn commit(&self, genesis: bool) -> (r: HashDigest)
        requires
            self.hash_id_spec().len() + self.marshaled().len() < 0x100000000,
        ensures
            r@ == sha512_256_of(ascii_bytes(self.hash_id_spec()) + self.marshaled()),
    {
        if !genesis && self.0.len() == 0 {
            let payset = PaySet(Vec::new());
            proof {
                assert(payset.marshaled() =~= self.marshaled());
                assert(ascii_bytes(payset.hash_id_spec()) + payset.marshaled() =~= ascii_bytes(
                    self.hash_id_spec(),
                ) + self.marshaled());
            }
            hash_obj(&payset)
        } else {
            hash_obj(self)
        }
    }
}

} // verus!
