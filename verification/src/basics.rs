//! Account addresses and balances.
//!
//! An address is a 32-byte digest; its textual form carries a 4-byte
//! checksum taken from the tail of the address's own hash.

use vstd::prelude::*;

verus! {

use crate::crypto::{hash, sha512_256_of, HashDigest};

pub const CHECKSUM_LENGTH: usize = 4;

/// A 32-byte account address.
#[derive(Debug, Clone, Copy, Eq, Hash)]
pub struct Address(HashDigest);

impl View for Address {
    type V = Seq<u8>;

    closed spec fn view(&self) -> Seq<u8> {
        self.0@
    }
}

impl PartialEq for Address {
    fn eq(&self, other: &Address) -> (r: bool) {
        self.0 == other.0
    }
}

impl vstd::std_specs::cmp::PartialEqSpecImpl for Address {
    open spec fn obeys_eq_spec() -> bool {
        true
    }

    open spec fn eq_spec(&self, other: &Address) -> bool {
        self@ == other@
    }
}

impl Default for Address {
    fn default() -> (r: Self)
        ensures
            forall|i: int| 0 <= i < 32 ==> r@[i] == 0,
    {
        Address(HashDigest([0u8; 32]))
    }
}

/// The 4-byte checksum of an address: the last four bytes of the hash of
/// its 32 address bytes.
pub open spec fn checksum_of(addr: Seq<u8>) -> Seq<u8> {
    sha512_256_of(addr).subrange(28, 32)
}

impl Address {
    /// Checksum appended to the address in its textual form.
    pub fn get_checksum(&self) -> (r: [u8; CHECKSUM_LENGTH])
        ensures
            r@ =~= checksum_of(self@),
    {
        let short_addr_hash = hash(self.0.0.as_slice());
        let check_sum: [u8; CHECKSUM_LENGTH] = [
            short_addr_hash.0[28],
            short_addr_hash.0[29],
            short_addr_hash.0[30],
            short_addr_hash.0[31],
        ];
        check_sum
    }

    /// The raw 32 address bytes.
    pub fn to_bytes(&self) -> (r: [u8; 32])
        ensures
            r@ == self@,
    {
        self.0.0
    }

    /// Width of the address in bytes.
    pub fn len(&self) -> (r: usize)
        ensures
            r == self@.len(),
            r == 32,
    {
        self.0.len()
    }

    /// Overwrites the address with the first 32 bytes of the slice.
    pub fn clone_from_slice(&mut self, slice: &[u8])
        requires
            slice@.len() >= 32,
        ensures
            final(self)@ =~= slice@.subrange(0, 32),
    {
        let mut i: usize = 0;
        while i < 32
            invariant
                0 <= i <= 32,
                slice@.len() >= 32,
                forall|j: int| 0 <= j < i ==> self.0.0@[j] == slice@[j],
            decreases 32 - i,
        {
            self.0.0[i] = slice[i];
            i += 1;
        }
    }
}

/// The bytes of an address's textual form: the address, then its checksum.
pub open spec fn checksummed_bytes(addr: Seq<u8>) -> Seq<u8> {
    addr + checksum_of(addr)
}

/// Relies on String::from_utf8: ASCII bytes are valid UTF-8 and convert to
/// exactly their characters.
#[verifier::external_body]
fn string_from_ascii(bytes: Vec<u8>) -> (r: String)
    requires
        forall|i: int| 0 <= i < bytes@.len() ==> bytes@[i] < 0x80,
    ensures
        r@.len() == bytes@.len(),
        forall|i: int| 0 <= i < bytes@.len() ==> r@[i] == bytes@[i] as char,
{
    String::from_utf8(bytes).expect("ASCII bytes are valid UTF-8")
}

impl Address {
    /// The textual form of the address: its 36 checksummed bytes read as
    /// characters.  Callable only when those bytes are all ASCII; use
    /// `string_checked` to test that first.
    pub fn string(&self) -> (r: String)
        requires
            forall|i: int|
                0 <= i < checksummed_bytes(self@).len() ==> checksummed_bytes(self@)[i] < 0x80,
        ensures
            r@.len() == 36,
            forall|i: int| 0 <= i < 36 ==> r@[i] == checksummed_bytes(self@)[i] as char,
    {
        let mut addr_with_checksum: Vec<u8> = Vec::new();
        let bytes = self.to_bytes();
        addr_with_checksum.extend_from_slice(bytes.as_slice());
        let check_sum = self.get_checksum();
        addr_with_checksum.extend_from_slice(check_sum.as_slice());
        proof {
            assert(addr_with_checksum@ =~= checksummed_bytes(self@));
        }
        string_from_ascii(addr_with_checksum)
    }

    /// The textual form of the address, when its checksummed bytes are all
    /// ASCII; `None` otherwise.
    pub fn string_checked(&self) -> (r: Option<String>)
        ensures
            match r {
                Some(s) => {
                    &&& forall|i: int|
                        0 <= i < checksummed_bytes(self@).len() ==> checksummed_bytes(self@)[i]
                            < 0x80
                    &&& s@.len() == 36
                    &&& forall|i: int| 0 <= i < 36 ==> s@[i] == checksummed_bytes(self@)[i] as char
                },
                None => !(forall|i: int|
                    0 <= i < checksummed_bytes(self@).len() ==> checksummed_bytes(self@)[i]
                        < 0x80),
            },
    {
        let bytes = self.to_bytes();
        let check_sum = self.get_checksum();
        let mut ascii = true;
        let mut i: usize = 0;
        while i < 32
            invariant
                0 <= i <= 32,
                bytes@ == self@,
                ascii <==> (forall|j: int| 0 <= j < i ==> self@[j] < 0x80),
            decreases 32 - i,
        {
            if bytes[i] >= 0x80 {
                ascii = false;
            }
            i += 1;
        }
        let mut k: usize = 0;
        while k < 4
            invariant
                0 <= k <= 4,
                bytes@ == self@,
                check_sum@ =~= checksum_of(self@),
                ascii <==> ((forall|j: int| 0 <= j < 32 ==> self@[j] < 0x80) && (forall|j: int|
                    0 <= j < k ==> checksum_of(self@)[j] < 0x80)),
            decreases 4 - k,
        {
            if check_sum[k] >= 0x80 {
                ascii = false;
            }
            k += 1;
        }
        if ascii {
            proof {
                assert(forall|i2: int|
                    0 <= i2 < checksummed_bytes(self@).len() ==> checksummed_bytes(self@)[i2]
                        < 0x80);
            }
            Some(self.string())
        } else {
            proof {
                if forall|i2: int|
                    0 <= i2 < checksummed_bytes(self@).len() ==> checksummed_bytes(self@)[i2]
                        < 0x80 {
                    assert(forall|j: int| 0 <= j < 32 ==> self@[j] < 0x80) by {
                        assert(forall|j: int|
                            0 <= j < 32 ==> checksummed_bytes(self@)[j] == self@[j]);
                    }
                    assert(forall|j: int| 0 <= j < 4 ==> checksum_of(self@)[j] < 0x80) by {
                        assert(forall|j: int|
                            0 <= j < 4 ==> checksummed_bytes(self@)[32 + j] == checksum_of(
                                self@,
                            )[j]);
                    }
                    assert(false);
                }
            }
            None
        }
    }
}

/// Why a textual address failed to parse.
#[derive(Debug, Clone, Copy, PartialEq, Eq, Structural)]
pub enum AddressError {
    /// The string is not valid padded RFC 4648 base32.
    Base32DecodeFailed,
    /// The string decodes to fewer bytes than an address holds.
    DecodedBadAddr,
    /// The trailing checksum does not match the decoded address.
    ChecksumMismatch,
}

pub type AddressResult<T> = Result<T, AddressError>;

/// What base32::decode returns on the given string with the padded
/// RFC 4648 alphabet.
pub uninterp spec fn base32_decode_rfc4648(s: Seq<char>) -> Option<Seq<u8>>;

/// Relies on base32::decode with Alphabet::Rfc4648 { padding: true }: the
/// result is a function of the input string alone.
#[verifier::external_body]
fn base32_decode(address: &str) -> (r: Option<Vec<u8>>)
    ensures
        r is Some <==> base32_decode_rfc4648(address@) is Some,
        r is Some ==> r->0@ == base32_decode_rfc4648(address@)->0,
{
    base32::decode(base32::Alphabet::Rfc4648 { padding: true }, address)
}

/// Parses a textual address: base32-decode, take the first 32 bytes as the
/// address, and check the trailing 4 bytes of the decoding against the
/// address's checksum.
pub fn unmarshal_checksum_address(address: &String) -> (r: AddressResult<Address>)
    ensures
        ({
            let decoded = base32_decode_rfc4648(address@);
            match r {
                Ok(addr) => {
                    &&& decoded is Some
                    &&& decoded->0.len() >= 32
                    &&& addr@ == decoded->0.subrange(0, 32)
                    &&& decoded->0.subrange(
                        decoded->0.len() - 4,
                        decoded->0.len() as int,
                    ) =~= checksum_of(addr@)
                },
                Err(AddressError::Base32DecodeFailed) => decoded is None,
                Err(AddressError::DecodedBadAddr) => decoded is Some && decoded->0.len() < 32,
                Err(AddressError::ChecksumMismatch) => {
                    &&& decoded is Some
                    &&& decoded->0.len() >= 32
                    &&& !(decoded->0.subrange(decoded->0.len() - 4, decoded->0.len() as int)
                        =~= checksum_of(decoded->0.subrange(0, 32)))
                },
            }
        }),
{
    if let Some(decoded) = base32_decode(address.as_str()) {
        let mut short = Address::default();
        if decoded.len() < short.len() {
            return Err(AddressError::DecodedBadAddr);
        }
        short.clone_from_slice(decoded.as_slice());
        let dlen = decoded.len();
        let tail_start = dlen - CHECKSUM_LENGTH;
        let calculated_checksum = short.get_checksum();
        let mut matches = true;
        let mut i: usize = 0;
        while i < CHECKSUM_LENGTH
            invariant
                0 <= i <= 4,
                decoded@.len() >= 32,
                dlen == decoded@.len(),
                tail_start + 4 == dlen,
                tail_start == decoded@.len() - 4,
                matches <==> (forall|j: int|
                    0 <= j < i ==> decoded@[tail_start + j] == calculated_checksum@[j]),
            decreases 4 - i,
        {
            if decoded[tail_start + i] != calculated_checksum[i] {
                matches = false;
            }
            i += 1;
        }
        if !matches {
            proof {
                let d = base32_decode_rfc4648(address@).unwrap();
                assert(!(d.subrange(d.len() - 4, d.len() as int) =~= checksum_of(
                    d.subrange(0, 32),
                ))) by {
                    let k = choose|j: int|
                        0 <= j < 4 && d[d.len() - 4 + j] != calculated_checksum@[j];
                    assert(d.subrange(d.len() - 4, d.len() as int)[k] != checksum_of(
                        d.subrange(0, 32),
                    )[k]);
                }
            }
            return Err(AddressError::ChecksumMismatch);
        }
        proof {
            let d = base32_decode_rfc4648(address@).unwrap();
            assert(d.subrange(d.len() - 4, d.len() as int) =~= checksum_of(short@));
        }
        Ok(short)
    } else {
        Err(AddressError::Base32DecodeFailed)
    }
}

impl crate::vecmap::ViewKey for Address {
    fn key_eq(&self, other: &Self) -> (r: bool) {
        self == other
    }
}

/// An amount of the native currency, in its smallest unit.
#[derive(Debug, Clone, Copy, PartialEq, Eq, Structural)]
pub struct MicroAlgos(pub u64);

impl Default for MicroAlgos {
    fn default() -> (r: Self)
        ensures
            r.0 == 0,
    {
        MicroAlgos(0)
    }
}

/// A round number.
pub type Round = u64;

/// The balance-relevant state of one account.
#[derive(Debug, Clone, Copy)]
pub struct AccountData {
    pub status: u8,
    pub microalgos: MicroAlgos,
    pub rewards_base: u64,
    pub rewarded_micro_algos: MicroAlgos,
    pub vote_id: crate::crypto::OneTimeSignatureVerifier,
    pub selection_id: crate::crypto::VRFVerifier,
    pub vote_first_valid: Round,
    pub vote_last_valid: Round,
    pub vote_key_dilution: u64,
}

impl Default for AccountData {
    fn default() -> (r: Self)
        ensures
            r.is_default(),
    {
        AccountData {
            status: 0,
            microalgos: MicroAlgos(0),
            rewards_base: 0,
            rewarded_micro_algos: MicroAlgos(0),
            vote_id: [0u8; 32],
            selection_id: [0u8; 32],
            vote_first_valid: 0,
            vote_last_valid: 0,
            vote_key_dilution: 0,
        }
    }
}

impl AccountData {
    /// Every field holds its default value.
    pub open spec fn is_default(self) -> bool {
        &&& self.status == 0
        &&& self.microalgos.0 == 0
        &&& self.rewards_base == 0
        &&& self.rewarded_micro_algos.0 == 0
        &&& self.vote_id@ =~= Seq::new(32, |i: int| 0u8)
        &&& self.selection_id@ =~= Seq::new(32, |i: int| 0u8)
        &&& self.vote_first_valid == 0
        &&& self.vote_last_valid == 0
        &&& self.vote_key_dilution == 0
    }
}

/// Participation status of an account.
#[derive(Debug, Clone, Copy, PartialEq, Eq, Structural)]
pub enum Status {
    Offline,
    Online,
    NotParticipating,
}

impl Default for Status {
    fn default() -> (r: Self)
        ensures
            r == Status::Offline,
    {
        Status::Offline
    }
}

/// An account with its balance and status, as reported to listeners.
#[derive(Debug)]
pub struct AccountDetails {
    pub address: Address,
    pub algos: MicroAlgos,
    pub status: Status,
}

impl Default for AccountDetails {
    fn default() -> (r: Self)
        ensures
            forall|i: int| 0 <= i < 32 ==> r.address@[i] == 0,
            r.algos.0 == 0,
            r.status == Status::Offline,
    {
        AccountDetails { address: Address::default(), algos: MicroAlgos(0), status: Status::Offline }
    }
}

} // verus!
