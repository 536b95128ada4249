//! Fixed-width integer fields of the wire protocol: the 8-byte length that
//! follows the operation code in every frame header, most significant byte
//! first.

use vstd::prelude::*;

verus! {

/// The eight bytes that stand for `x` on the wire, most significant first.
pub open spec fn spec_u64_to_be_bytes(x: u64) -> Seq<u8> {
    seq![
        ((x >> 56) & 0xff) as u8,
        ((x >> 48) & 0xff) as u8,
        ((x >> 40) & 0xff) as u8,
        ((x >> 32) & 0xff) as u8,
        ((x >> 24) & 0xff) as u8,
        ((x >> 16) & 0xff) as u8,
        ((x >> 8) & 0xff) as u8,
        (x & 0xff) as u8,
    ]
}

/// The value that eight wire bytes stand for, most significant first.
pub open spec fn spec_u64_from_be_bytes(s: Seq<u8>) -> u64
    recommends
        s.len() == 8,
{
    ((s[0] as u64) << 56 | (s[1] as u64) << 48 | (s[2] as u64) << 40 | (s[3] as u64) << 32 | (
    s[4] as u64) << 24 | (s[5] as u64) << 16 | (s[6] as u64) << 8 | (s[7] as u64)) as u64
}

/// Encoding a value and reading it back yields the value, and reading eight
/// bytes and encoding the result yields the bytes: the length field of a
/// frame round-trips exactly.
pub proof fn lemma_u64_be_bytes_round_trip()
    ensures
        forall|x: u64|
            #![trigger spec_u64_to_be_bytes(x)]
            {
                &&& spec_u64_to_be_bytes(x).len() == 8
                &&& spec_u64_from_be_bytes(spec_u64_to_be_bytes(x)) == x
            },
        forall|s: Seq<u8>|
            #![trigger spec_u64_to_be_bytes(spec_u64_from_be_bytes(s))]
            s.len() == 8 ==> spec_u64_to_be_bytes(spec_u64_from_be_bytes(s)) == s,
{
    assert forall|x: u64|
        {
            &&& #[trigger] spec_u64_to_be_bytes(x).len() == 8
            &&& spec_u64_from_be_bytes(spec_u64_to_be_bytes(x)) == x
        } by {
        assert((((x >> 56) & 0xff) << 56) | (((x >> 48) & 0xff) << 48) | (((x >> 40) & 0xff) << 40)
            | (((x >> 32) & 0xff) << 32) | (((x >> 24) & 0xff) << 24) | (((x >> 16) & 0xff) << 16)
            | (((x >> 8) & 0xff) << 8) | (x & 0xff) == x) by (bit_vector);
        assert((((x >> 56) & 0xff) as u8) as u64 == (x >> 56) & 0xff) by (bit_vector);
        assert((((x >> 48) & 0xff) as u8) as u64 == (x >> 48) & 0xff) by (bit_vector);
        assert((((x >> 40) & 0xff) as u8) as u64 == (x >> 40) & 0xff) by (bit_vector);
        assert((((x >> 32) & 0xff) as u8) as u64 == (x >> 32) & 0xff) by (bit_vector);
        assert((((x >> 24) & 0xff) as u8) as u64 == (x >> 24) & 0xff) by (bit_vector);
        assert((((x >> 16) & 0xff) as u8) as u64 == (x >> 16) & 0xff) by (bit_vector);
        assert((((x >> 8) & 0xff) as u8) as u64 == (x >> 8) & 0xff) by (bit_vector);
        assert(((x & 0xff) as u8) as u64 == x & 0xff) by (bit_vector);
    }
    assert forall|s: Seq<u8>| s.len() == 8 implies #[trigger] spec_u64_to_be_bytes(
        spec_u64_from_be_bytes(s),
    ) == s by {
        let b0 = s[0] as u64;
        let b1 = s[1] as u64;
        let b2 = s[2] as u64;
        let b3 = s[3] as u64;
        let b4 = s[4] as u64;
        let b5 = s[5] as u64;
        let b6 = s[6] as u64;
        let b7 = s[7] as u64;
        let x = spec_u64_from_be_bytes(s);
        assert((b0 < 256 && b1 < 256 && b2 < 256 && b3 < 256 && b4 < 256 && b5 < 256 && b6 < 256
            && b7 < 256 && x == (b0 << 56 | b1 << 48 | b2 << 40 | b3 << 32 | b4 << 24 | b5 << 16
            | b6 << 8 | b7)) ==> ((x >> 56) & 0xff == b0 && (x >> 48) & 0xff == b1 && (x >> 40)
            & 0xff == b2 && (x >> 32) & 0xff == b3 && (x >> 24) & 0xff == b4 && (x >> 16) & 0xff
            == b5 && (x >> 8) & 0xff == b6 && x & 0xff == b7)) by (bit_vector);
        assert(spec_u64_to_be_bytes(spec_u64_from_be_bytes(s)) =~= s);
    }
}

/// Writes the 8-byte length field of a frame header.
pub fn write_u64(num: u64) -> (r: Vec<u8>)
    ensures
        r@ == spec_u64_to_be_bytes(num),
        r@.len() == 8,
{
    let mut r: Vec<u8> = Vec::new();
    r.push(((num >> 56) & 0xff) as u8);
    r.push(((num >> 48) & 0xff) as u8);
    r.push(((num >> 40) & 0xff) as u8);
    r.push(((num >> 32) & 0xff) as u8);
    r.push(((num >> 24) & 0xff) as u8);
    r.push(((num >> 16) & 0xff) as u8);
    r.push(((num >> 8) & 0xff) as u8);
    r.push((num & 0xff) as u8);
    proof {
        assert(r@ =~= spec_u64_to_be_bytes(num));
    }
    r
}

/// Reads the 8-byte length field of a frame header.
pub fn read_u64(buf: &[u8]) -> (r: u64)
    requires
        buf@.len() == 8,
    ensures
        r == spec_u64_from_be_bytes(buf@),
{
    (buf[0] as u64) << 56 | (buf[1] as u64) << 48 | (buf[2] as u64) << 40 | (buf[3] as u64) << 32
        | (buf[4] as u64) << 24 | (buf[5] as u64) << 16 | (buf[6] as u64) << 8 | (buf[7] as u64)
}

} // verus!
