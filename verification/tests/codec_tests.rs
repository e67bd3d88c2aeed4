use jatayud::basics::{unmarshal_checksum_address, Address, AddressError};
use jatayud::crypto::{hash, hash_obj, hash_rep, sha256, HashDigest};
use jatayud::msgp::{
    write_array_header, write_bool, write_map_header, write_str, write_uint, Marshaler,
};
use jatayud::payset::{PaySet, SignedTxnInBlock};
use jatayud::protocol::encode;

#[test]
fn marshal_payset() {
    let payset = PaySet::default();
    let mut buffer = vec![];
    payset.marshal_msg(&mut buffer);
    assert_eq!(hex::encode(buffer), "90");
}

#[test]
fn marshal_payset_with_transactions() {
    // default transactions marshal as empty maps; a flagged one carries
    // its flag
    let mut stib = SignedTxnInBlock::default();
    stib.has_genesis_id = true;
    let payset = PaySet(vec![SignedTxnInBlock::default(), stib]);
    let mut buffer = vec![];
    payset.marshal_msg(&mut buffer);
    // fixarray(2), fixmap(0), fixmap(1) { "has_genesis_id": true }
    let mut expected = vec![0x92u8, 0x80, 0x81];
    expected.extend(rmp_serde::to_vec("has_genesis_id").unwrap());
    expected.push(0xc3);
    assert_eq!(hex::encode(&buffer), hex::encode(&expected));
}

#[test]
fn uint_encoding_matches_rmp() {
    for v in [0u64, 5, 127, 128, 255, 256, 65535, 65536, 4294967295, 4294967296, u64::MAX] {
        let mut buffer = vec![];
        write_uint(&mut buffer, v);
        assert_eq!(buffer, rmp_serde::to_vec(&v).unwrap(), "value {}", v);
    }
}

#[test]
fn bool_encoding_matches_rmp() {
    for b in [false, true] {
        let mut buffer = vec![];
        write_bool(&mut buffer, b);
        assert_eq!(buffer, rmp_serde::to_vec(&b).unwrap());
    }
}

#[test]
fn str_encoding_matches_rmp() {
    for s in ["", "a", "hello world", "0123456789012345678901234567890123456789"] {
        let mut buffer = vec![];
        write_str(&mut buffer, s);
        assert_eq!(buffer, rmp_serde::to_vec(s).unwrap(), "string {:?}", s);
    }
}

#[test]
fn array_and_map_headers() {
    let mut buffer = vec![];
    write_array_header(&mut buffer, 0);
    assert_eq!(buffer, vec![0x90]);
    let mut buffer = vec![];
    write_array_header(&mut buffer, 16);
    assert_eq!(buffer, vec![0xdc, 0x00, 0x10]);
    let mut buffer = vec![];
    write_map_header(&mut buffer, 3);
    assert_eq!(buffer, vec![0x83]);
    let mut buffer = vec![];
    write_map_header(&mut buffer, 70000);
    assert_eq!(buffer, vec![0xdf, 0x00, 0x01, 0x11, 0x70]);
}

#[test]
fn encode_is_marshal() {
    let payset = PaySet::default();
    assert_eq!(encode(&payset), vec![0x90]);
}

#[test]
fn hash_is_sha512_256() {
    // SHA-512/256 of the empty string, from the function's reference vectors
    let d = hash(&[]);
    assert_eq!(
        hex::encode(d.0),
        "c672b8d1ef56ed28ab87c3622c5114069bdd3ad7b8f9737498d0c01ecef0967a"
    );
}

#[test]
fn sha256_of_zero_block() {
    let input = [0u8; 32];
    let d = sha256(&input);
    let expected = <sha2::Sha256 as sha2::Digest>::digest(&input);
    assert_eq!(d.0.as_slice(), expected.as_slice());
}

#[test]
fn hash_rep_prefixes_hash_id() {
    let payset = PaySet::default();
    let rep = hash_rep(&payset);
    assert_eq!(rep, vec![b'P', b'F', 0x90]);
}

#[test]
fn payset_commit_hashes_domain_separated_encoding() {
    let payset = PaySet::default();
    let commitment = payset.commit_genesis();
    let expected = <sha2::Sha512_256 as sha2::Digest>::digest(b"PF\x90");
    assert_eq!(commitment.0.as_slice(), expected.as_slice());
    // a non-genesis commit of an empty payset commits to the same bytes
    let commitment2 = payset.commit(false);
    assert_eq!(commitment2.0.as_slice(), expected.as_slice());
    assert_eq!(hash_obj(&payset).0, commitment.0);
}

#[test]
fn digest_len() {
    let d = HashDigest::default();
    assert_eq!(d.len(), 32);
}

fn encoded_address(addr_bytes: &[u8; 32]) -> String {
    let digest = hash(addr_bytes);
    let mut with_checksum = addr_bytes.to_vec();
    with_checksum.extend_from_slice(&digest.0[28..]);
    base32::encode(base32::Alphabet::Rfc4648 { padding: true }, &with_checksum)
}

#[test]
fn address_round_trip() {
    let bytes = [7u8; 32];
    let text = encoded_address(&bytes);
    let addr = unmarshal_checksum_address(&text).unwrap();
    assert_eq!(addr.to_bytes(), bytes);
    assert_eq!(addr.len(), 32);
    let check = addr.get_checksum();
    assert_eq!(&check[..], &hash(&bytes).0[28..]);
}

#[test]
fn address_bad_checksum() {
    let bytes = [7u8; 32];
    let mut with_checksum = bytes.to_vec();
    // a checksum that cannot match
    let digest = hash(&bytes);
    with_checksum.extend_from_slice(&digest.0[28..]);
    with_checksum[35] = with_checksum[35].wrapping_add(1);
    let text = base32::encode(base32::Alphabet::Rfc4648 { padding: true }, &with_checksum);
    assert_eq!(
        unmarshal_checksum_address(&text),
        Err(AddressError::ChecksumMismatch)
    );
}

#[test]
fn address_not_base32() {
    let text = String::from("not base32 at all!");
    assert_eq!(
        unmarshal_checksum_address(&text),
        Err(AddressError::Base32DecodeFailed)
    );
}

#[test]
fn address_too_short() {
    let text = base32::encode(base32::Alphabet::Rfc4648 { padding: true }, &[1u8, 2, 3]);
    assert_eq!(
        unmarshal_checksum_address(&text),
        Err(AddressError::DecodedBadAddr)
    );
}

#[test]
fn address_string_form() {
    // an address whose checksummed bytes are all ASCII has a textual form
    let bytes = [b'A'; 32];
    let mut addr = Address::default();
    addr.clone_from_slice(&bytes);
    match addr.string_checked() {
        Some(s) => {
            assert_eq!(s.len(), 36);
            assert_eq!(&s.as_bytes()[..32], &bytes[..]);
            assert_eq!(&s.as_bytes()[32..], &hash(&bytes).0[28..]);
        }
        None => {
            // the checksum of this address happens to hold a non-ASCII byte
            assert!(hash(&bytes).0[28..].iter().any(|b| *b >= 0x80));
        }
    }
}

#[test]
fn marshal_unmarshal_genesis_allocation() {
    let gen_alloc = jatayud::genesis::GenesisAllocation::default();
    let mut buffer = vec![];
    gen_alloc.marshal_msg(&mut buffer);
    println!("{}", hex::encode(&buffer));
    // map { "addr": "", "comment": "", "state": {} }
    assert_eq!(
        hex::encode(&buffer),
        "83a461646472a0a7636f6d6d656e74a0a5737461746580"
    );
}

#[test]
fn marshal_genesis_allocation_with_state() {
    let mut gen_alloc = jatayud::genesis::GenesisAllocation::default();
    gen_alloc.address = "addr1".to_string();
    gen_alloc.state.microalgos = jatayud::basics::MicroAlgos(1000);
    let mut buffer = vec![];
    gen_alloc.marshal_msg(&mut buffer);
    // map { "addr": "addr1", "comment": "", "state": { "algo": 1000 } }
    let mut expected = vec![0x83u8];
    expected.extend(rmp_serde::to_vec("addr").unwrap());
    expected.extend(rmp_serde::to_vec("addr1").unwrap());
    expected.extend(rmp_serde::to_vec("comment").unwrap());
    expected.extend(rmp_serde::to_vec("").unwrap());
    expected.extend(rmp_serde::to_vec("state").unwrap());
    expected.push(0x81);
    expected.extend(rmp_serde::to_vec("algo").unwrap());
    expected.extend(rmp_serde::to_vec(&1000u64).unwrap());
    assert_eq!(hex::encode(&buffer), hex::encode(&expected));
}
