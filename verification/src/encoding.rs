//! The canonical encoder: a deterministic, self-delimiting byte envelope
//! around a topic name, used only as input to the cryptographic hash.
//!
//! The envelope is one length-delimited record field: a tag byte naming the
//! name field, a varint byte count, then the name's UTF-8 bytes.  The layout
//! must stay byte-for-byte stable: peers that derive keys independently must
//! hash identical envelopes for identical names.

use vstd::prelude::*;

verus! {

/// Unsigned LEB128: seven value bits per byte, least-significant group
/// first, the high bit set on every byte except the last.
pub open spec fn spec_varint(n: nat) -> Seq<u8>
    decreases n,
{
    if n < 128 {
        seq![n as u8]
    } else {
        seq![(n % 128 + 128) as u8] + spec_varint(n / 128)
    }
}

/// Tag of the name field: field number 1, wire type 2 (length-delimited).
pub open spec fn name_field_tag() -> u8 {
    0x0au8
}

/// The canonical envelope of a topic name: the tag of the name field, the
/// varint count of the name's UTF-8 bytes, then those bytes.  The envelope
/// reserves two further fields, for authenticity and encryption markers;
/// no strategy populates them, so they contribute no bytes here.
pub open spec fn spec_topic_descriptor(name: Seq<char>) -> Seq<u8> {
    let bytes = vstd::utf8::encode_utf8(name);
    seq![name_field_tag()] + spec_varint(bytes.len()) + bytes
}

/// Appends the LEB128 form of `n` to a fresh vector.
pub fn encode_varint(n: u64) -> (r: Vec<u8>)
    ensures
        r@ == spec_varint(n as nat),
{
    let mut out: Vec<u8> = Vec::new();
    let mut m: u64 = n;
    proof {
        assert(out@ + spec_varint(m as nat) =~= spec_varint(n as nat));
    }
    while m >= 128
        invariant
            out@ + spec_varint(m as nat) =~= spec_varint(n as nat),
        decreases m,
    {
        let ghost m0: nat = m as nat;
        out.push((m % 128 + 128) as u8);
        m = m / 128;
        proof {
            assert(spec_varint(m0) == seq![(m0 % 128 + 128) as u8] + spec_varint(m0 / 128));
            assert(out@ + spec_varint(m as nat) =~= spec_varint(n as nat));
        }
    }
    out.push(m as u8);
    proof {
        assert(spec_varint(m as nat) == seq![m as u8]);
        assert(out@ =~= spec_varint(n as nat));
    }
    out
}

/// Serializes the canonical envelope of `name`.  Pure and total: every name
/// string encodes successfully.
pub fn encode_topic_descriptor(name: &str) -> (r: Vec<u8>)
    ensures
        r@ == spec_topic_descriptor(name@),
{
    let name_bytes: &[u8] = name.as_bytes();
    let mut out: Vec<u8> = Vec::new();
    out.push(0x0au8);
    let mut length = encode_varint(name_bytes.len() as u64);
    out.append(&mut length);
    out.extend_from_slice(name_bytes);
    proof {
        assert(out@ =~= spec_topic_descriptor(name@));
    }
    out
}

} // verus!
