//! Hashing primitives: the 32-byte digest type, the node's canonical hash
//! (SHA-512/256 over a domain-separated encoding), and signature carriers.

use vstd::prelude::*;

verus! {

use crate::msgp::Marshaler;
use crate::protocol::HashId;

pub const DIGEST_SIZE: usize = 32;

pub type Ed25519PublicKey = [u8; 32];

pub type Ed25519PrivateKey = [u8; 64];

pub type Ed25519Signature = [u8; 64];

pub type Ed25519Seed = [u8; 32];

pub const MASTER_DERIVATION_KEY_LEN: usize = 32;

pub type MaterDerivationKey = [u8; 32];

/// Verifier key of a one-time signature scheme.
pub type OneTimeSignatureVerifier = [u8; 32];

/// Public key of the verifiable random function.
pub type VRFVerifier = [u8; 32];

/// Proof produced by the verifiable random function.
pub type VRFProof = [u8; 80];

/// An ed25519 signature, carried as its 64 raw bytes.
#[derive(Debug, Clone, Copy)]
pub struct Signature(pub Ed25519Signature);

impl Signature {
    /// All 64 bytes zero: the blank signature.
    pub open spec fn is_blank(self) -> bool {
        forall|i: int| 0 <= i < 64 ==> self.0@[i] == 0
    }
}

impl Default for Signature {
    fn default() -> (r: Self)
        ensures
            r.is_blank(),
    {
        Signature([0u8; 64])
    }
}

/// A 32-byte hash output.
#[derive(Debug, Clone, Copy, Eq, Hash)]
pub struct HashDigest(pub [u8; 32]);

impl View for HashDigest {
    type V = Seq<u8>;

    open spec fn view(&self) -> Seq<u8> {
        self.0@
    }
}

impl PartialEq for HashDigest {
    fn eq(&self, other: &HashDigest) -> (r: bool) {
        let mut i: usize = 0;
        while i < 32
            invariant
                0 <= i <= 32,
                forall|j: int| 0 <= j < i ==> self.0@[j] == other.0@[j],
            decreases 32 - i,
        {
            if self.0[i] != other.0[i] {
                return false;
            }
            i += 1;
        }
        proof {
            assert(self.0@ =~= other.0@);
        }
        true
    }
}

impl vstd::std_specs::cmp::PartialEqSpecImpl for HashDigest {
    open spec fn obeys_eq_spec() -> bool {
        true
    }

    open spec fn eq_spec(&self, other: &HashDigest) -> bool {
        self.0@ == other.0@
    }
}

impl Default for HashDigest {
    fn default() -> (r: Self)
        ensures
            forall|i: int| 0 <= i < 32 ==> r@[i] == 0,
    {
        HashDigest([0u8; 32])
    }
}

impl HashDigest {
    /// Width of the digest in bytes.
    pub fn len(&self) -> (r: usize)
        ensures
            r == self@.len(),
            r == 32,
    {
        32
    }
}

/// What SHA-512/256 returns on the given input.
pub uninterp spec fn sha512_256_of(data: Seq<u8>) -> Seq<u8>;

/// What SHA-256 returns on the given input.
pub uninterp spec fn sha256_of(data: Seq<u8>) -> Seq<u8>;

/// The node's canonical hash of a byte string.
///
/// Relies on sha2::Sha512_256::digest: the SHA-512/256 digest, 32 bytes,
/// a function of the input bytes alone.
#[verifier::external_body]
pub fn hash(data: &[u8]) -> (r: HashDigest)
    ensures
        r@ == sha512_256_of(data@),
{
    let dg = <sha2::Sha512_256 as sha2::Digest>::digest(data);
    HashDigest(dg.into())
}

/// Relies on sha2::Sha256::digest: the SHA-256 digest, 32 bytes, a
/// function of the input bytes alone.
#[verifier::external_body]
pub fn sha256(data: &[u8; 32]) -> (r: HashDigest)
    ensures
        r@ == sha256_of(data@),
{
    let mut output = [0u8; 32];
    output.copy_from_slice(<sha2::Sha256 as sha2::Digest>::digest(data).as_slice());
    HashDigest(output)
}

/// A value that is hashed as its domain-separation prefix followed by its
/// canonical encoding.
pub trait MsgpHashable: Marshaler {
    /// The characters of this type's domain-separation prefix.
    spec fn hash_id_spec(&self) -> Seq<char>;

    /// The domain-separation prefix; always ASCII.
    fn hash_id(&self) -> (r: HashId)
        ensures
            r@ == self.hash_id_spec(),
            vstd::string::is_ascii(r),
    ;
}

/// The characters of an ASCII string as bytes.
pub open spec fn ascii_bytes(s: Seq<char>) -> Seq<u8> {
    Seq::new(s.len(), |i: int| s[i] as u8)
}

/// The exact byte string that `hash_rep` produces: prefix, then encoding.
pub open spec fn hash_rep_bytes<H: MsgpHashable>(h: H) -> Seq<u8> {
    ascii_bytes(h.hash_id_spec()) + h.marshaled()
}

/// The domain-separated representation of a hashable value: its hash id's
/// bytes followed by its canonical encoding.
pub fn hash_rep<H: MsgpHashable>(hashable: &H) -> (r: Vec<u8>)
    requires
        hashable.hash_id_spec().len() + hashable.marshaled().len() < 0x100000000,
    ensures
        r@ == hash_rep_bytes(*hashable),
{
    let hash_id = hashable.hash_id();
    let hash_id_bytes: &[u8] = hash_id.as_bytes();
    proof {
        vstd::string::is_ascii_spec_bytes(hash_id);
        assert(hash_id_bytes@ =~= ascii_bytes(hashable.hash_id_spec()));
    }
    let mut hashed: Vec<u8> = Vec::new();
    hashed.extend_from_slice(hash_id_bytes);
    hashable.marshal_msg(&mut hashed);
    proof {
        assert(hashed@ =~= hash_rep_bytes(*hashable));
    }
    hashed
}

/// Hash of a hashable value: SHA-512/256 over its domain-separated
/// representation.
pub fn hash_obj<H: MsgpHashable>(hashable: &H) -> (r: HashDigest)
    requires
        hashable.hash_id_spec().len() + hashable.marshaled().len() < 0x100000000,
    ensures
        r@ == sha512_256_of(hash_rep_bytes(*hashable)),
{
    let rep = hash_rep(hashable);
    hash(rep.as_slice())
}

} // verus!
