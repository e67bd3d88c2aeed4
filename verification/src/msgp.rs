//! MessagePack encoding.
//!
//! The wire format the node uses for hashing and storage.  Each writer
//! appends the compact encoding of one value to a byte buffer; the spec
//! functions beside them define the exact bytes produced, and every
//! writer is proved to match its spec function.

use vstd::prelude::*;

verus! {

use vstd::string::StringSliceAdditionalSpecFns;

/// Compact MessagePack encoding of an unsigned integer: positive fixint,
/// or the shortest of uint8 / uint16 / uint32 / uint64.
pub open spec fn msgp_uint(v: u64) -> Seq<u8> {
    if v < 0x80 {
        seq![v as u8]
    } else if v < 0x100 {
        seq![0xccu8, v as u8]
    } else if v < 0x10000 {
        seq![0xcdu8, (v >> 8) as u8, v as u8]
    } else if v < 0x100000000 {
        seq![0xceu8, (v >> 24) as u8, (v >> 16) as u8, (v >> 8) as u8, v as u8]
    } else {
        seq![
            0xcfu8,
            (v >> 56) as u8,
            (v >> 48) as u8,
            (v >> 40) as u8,
            (v >> 32) as u8,
            (v >> 24) as u8,
            (v >> 16) as u8,
            (v >> 8) as u8,
            v as u8,
        ]
    }
}

/// MessagePack encoding of a boolean.
pub open spec fn msgp_bool(b: bool) -> Seq<u8> {
    if b {
        seq![0xc3u8]
    } else {
        seq![0xc2u8]
    }
}

/// MessagePack string header for a payload of `n` bytes: fixstr, str8,
/// str16 or str32, whichever is shortest.
pub open spec fn msgp_str_header(n: u64) -> Seq<u8> {
    if n < 0x20 {
        seq![(0xa0 | n) as u8]
    } else if n < 0x100 {
        seq![0xd9u8, n as u8]
    } else if n < 0x10000 {
        seq![0xdau8, (n >> 8) as u8, n as u8]
    } else {
        seq![0xdbu8, (n >> 24) as u8, (n >> 16) as u8, (n >> 8) as u8, n as u8]
    }
}

/// MessagePack encoding of a string given as its UTF-8 bytes.
pub open spec fn msgp_str(bytes: Seq<u8>) -> Seq<u8> {
    msgp_str_header(bytes.len() as u64) + bytes
}

/// MessagePack array header for `n` elements.
pub open spec fn msgp_array_header(n: u64) -> Seq<u8> {
    if n < 0x10 {
        seq![(0x90 | n) as u8]
    } else if n < 0x10000 {
        seq![0xdcu8, (n >> 8) as u8, n as u8]
    } else {
        seq![0xddu8, (n >> 24) as u8, (n >> 16) as u8, (n >> 8) as u8, n as u8]
    }
}

/// MessagePack map header for `n` key/value pairs.
pub open spec fn msgp_map_header(n: u64) -> Seq<u8> {
    if n < 0x10 {
        seq![(0x80 | n) as u8]
    } else if n < 0x10000 {
        seq![0xdeu8, (n >> 8) as u8, n as u8]
    } else {
        seq![0xdfu8, (n >> 24) as u8, (n >> 16) as u8, (n >> 8) as u8, n as u8]
    }
}

/// Appends the compact encoding of an unsigned integer.
pub fn write_uint(bytes: &mut Vec<u8>, v: u64)
    ensures
        final(bytes)@ == old(bytes)@ + msgp_uint(v),
{
    if v < 0x80 {
        bytes.push(v as u8);
    } else if v < 0x100 {
        bytes.push(0xcc);
        bytes.push(v as u8);
    } else if v < 0x10000 {
        bytes.push(0xcd);
        bytes.push((v >> 8) as u8);
        bytes.push(v as u8);
    } else if v < 0x100000000 {
        bytes.push(0xce);
        bytes.push((v >> 24) as u8);
        bytes.push((v >> 16) as u8);
        bytes.push((v >> 8) as u8);
        bytes.push(v as u8);
    } else {
        bytes.push(0xcf);
        bytes.push((v >> 56) as u8);
        bytes.push((v >> 48) as u8);
        bytes.push((v >> 40) as u8);
        bytes.push((v >> 32) as u8);
        bytes.push((v >> 24) as u8);
        bytes.push((v >> 16) as u8);
        bytes.push((v >> 8) as u8);
        bytes.push(v as u8);
    }
    proof {
        assert(bytes@ =~= old(bytes)@ + msgp_uint(v));
    }
}

/// Appends the encoding of a boolean.
pub fn write_bool(bytes: &mut Vec<u8>, b: bool)
    ensures
        final(bytes)@ == old(bytes)@ + msgp_bool(b),
{
    if b {
        bytes.push(0xc3);
    } else {
        bytes.push(0xc2);
    }
    proof {
        assert(bytes@ =~= old(bytes)@ + msgp_bool(b));
    }
}

/// Appends a string header for a payload of `n` bytes.
pub fn write_str_header(bytes: &mut Vec<u8>, n: u64)
    requires
        n < 0x100000000,
    ensures
        final(bytes)@ == old(bytes)@ + msgp_str_header(n),
{
    if n < 0x20 {
        bytes.push((0xa0 | n) as u8);
    } else if n < 0x100 {
        bytes.push(0xd9);
        bytes.push(n as u8);
    } else if n < 0x10000 {
        bytes.push(0xda);
        bytes.push((n >> 8) as u8);
        bytes.push(n as u8);
    } else {
        bytes.push(0xdb);
        bytes.push((n >> 24) as u8);
        bytes.push((n >> 16) as u8);
        bytes.push((n >> 8) as u8);
        bytes.push(n as u8);
    }
    proof {
        assert(bytes@ =~= old(bytes)@ + msgp_str_header(n));
    }
}

/// Appends the encoding of a string: header, then its UTF-8 bytes.
pub fn write_str(bytes: &mut Vec<u8>, s: &str)
    requires
        s.spec_bytes().len() < 0x100000000,
    ensures
        final(bytes)@ == old(bytes)@ + msgp_str(s.spec_bytes()),
{
    let payload = s.as_bytes();
    write_str_header(bytes, payload.len() as u64);
    bytes.extend_from_slice(payload);
    proof {
        assert(bytes@ =~= old(bytes)@ + msgp_str(s.spec_bytes()));
    }
}

/// Appends an array header for `n` elements.
pub fn write_array_header(bytes: &mut Vec<u8>, n: u64)
    requires
        n < 0x100000000,
    ensures
        final(bytes)@ == old(bytes)@ + msgp_array_header(n),
{
    if n < 0x10 {
        bytes.push((0x90 | n) as u8);
    } else if n < 0x10000 {
        bytes.push(0xdc);
        bytes.push((n >> 8) as u8);
        bytes.push(n as u8);
    } else {
        bytes.push(0xdd);
        bytes.push((n >> 24) as u8);
        bytes.push((n >> 16) as u8);
        bytes.push((n >> 8) as u8);
        bytes.push(n as u8);
    }
    proof {
        assert(bytes@ =~= old(bytes)@ + msgp_array_header(n));
    }
}

/// Appends a map header for `n` key/value pairs.
pub fn write_map_header(bytes: &mut Vec<u8>, n: u64)
    requires
        n < 0x100000000,
    ensures
        final(bytes)@ == old(bytes)@ + msgp_map_header(n),
{
    if n < 0x10 {
        bytes.push((0x80 | n) as u8);
    } else if n < 0x10000 {
        bytes.push(0xde);
        bytes.push((n >> 8) as u8);
        bytes.push(n as u8);
    } else {
        bytes.push(0xdf);
        bytes.push((n >> 24) as u8);
        bytes.push((n >> 16) as u8);
        bytes.push((n >> 8) as u8);
        bytes.push(n as u8);
    }
    proof {
        assert(bytes@ =~= old(bytes)@ + msgp_map_header(n));
    }
}

/// A value with a canonical MessagePack encoding.  `marshaled` is the
/// exact byte sequence; `marshal_msg` appends it to the buffer.
pub trait Marshaler {
    spec fn marshaled(&self) -> Seq<u8>;

    fn marshal_msg(&self, bytes: &mut Vec<u8>)
        requires
            old(bytes)@.len() + self.marshaled().len() < 0x100000000,
        ensures
            final(bytes)@ == old(bytes)@ + self.marshaled(),
    ;
}

} // verus!
