//! SCALE encoding of the XCM data model, as the punner hashes it.
//!
//! Integers in compact form and byte strings are encoded by the codec
//! library; this module frames them with the variant indices of the
//! model's enums, in declaration order, as the derived encoding does.

use crate::location::{Junction, MultiLocation, MultiNetwork};
use parity_scale_codec::{Compact, Encode};
use vstd::prelude::*;

verus! {

/// The `n` least significant base-256 digits of `v`, least significant first.
pub open spec fn le_bytes(v: nat, n: nat) -> Seq<u8>
    decreases n,
{
    if n == 0 {
        Seq::empty()
    } else {
        seq![(v % 256) as u8] + le_bytes(v / 256, (n - 1) as nat)
    }
}

/// The least number of bytes (at least one) that hold `v`.
pub open spec fn byte_len(v: nat) -> nat
    decreases v,
{
    if v < 256 {
        1
    } else {
        1 + byte_len(v / 256)
    }
}

/// The SCALE compact encoding of the unsigned integer `v`: one, two or four
/// little-endian bytes holding `v` shifted left by two and tagged with the
/// mode in the two low bits, or, from 2^30 on, a header byte giving the
/// byte count followed by the minimal little-endian bytes of `v`.
pub open spec fn compact_encoding(v: nat) -> Seq<u8> {
    if v < 0x40 {
        le_bytes(v * 4, 1)
    } else if v < 0x4000 {
        le_bytes(v * 4 + 1, 2)
    } else if v < 0x4000_0000 {
        le_bytes(v * 4 + 2, 4)
    } else {
        seq![((byte_len(v) - 4) * 4 + 3) as u8] + le_bytes(v, byte_len(v))
    }
}

/// The SCALE encoding of a byte string: its compact length, then its bytes.
pub open spec fn bytes_encoding(b: Seq<u8>) -> Seq<u8> {
    compact_encoding(b.len()) + b
}

/// Whether every byte string inside `n` has a length that SCALE can encode.
pub open spec fn network_encodable(n: MultiNetwork) -> bool {
    match n {
        MultiNetwork::Named(v) => v@.len() <= u32::MAX,
        _ => true,
    }
}

/// Whether every byte string inside `j` has a length that SCALE can encode.
pub open spec fn junction_encodable(j: Junction) -> bool {
    match j {
        Junction::AccountId32 { network, .. } => network_encodable(network),
        Junction::AccountIndex64 { network, .. } => network_encodable(network),
        Junction::AccountKey20 { network, .. } => network_encodable(network),
        Junction::GeneralKey(v) => v@.len() <= u32::MAX,
        _ => true,
    }
}

/// Whether every byte string inside `l` has a length that SCALE can encode.
pub open spec fn location_encodable(l: MultiLocation) -> bool {
    match l {
        MultiLocation::Null => true,
        MultiLocation::X1(a) => junction_encodable(a),
        MultiLocation::X2(a, b) => junction_encodable(a) && junction_encodable(b),
        MultiLocation::X3(a, b, c) => junction_encodable(a) && junction_encodable(b)
            && junction_encodable(c),
        MultiLocation::X4(a, b, c, d) => junction_encodable(a) && junction_encodable(b)
            && junction_encodable(c) && junction_encodable(d),
    }
}

/// The SCALE encoding of a network identifier.
pub open spec fn network_encoding(n: MultiNetwork) -> Seq<u8> {
    match n {
        MultiNetwork::Any => seq![0u8],
        MultiNetwork::Named(v) => seq![1u8] + bytes_encoding(v@),
        MultiNetwork::Polkadot => seq![2u8],
        MultiNetwork::Kusama => seq![3u8],
    }
}

/// The SCALE encoding of a junction; the integer fields of `Parachain`,
/// `AccountIndex64` and `GeneralIndex` are in compact form.
pub open spec fn junction_encoding(j: Junction) -> Seq<u8> {
    match j {
        Junction::Parent => seq![0u8],
        Junction::Parachain { id } => seq![1u8] + compact_encoding(id as nat),
        Junction::AccountId32 { network, id } => seq![2u8] + network_encoding(network) + id@,
        Junction::AccountIndex64 { network, index } => seq![3u8] + network_encoding(network)
            + compact_encoding(index as nat),
        Junction::AccountKey20 { network, key } => seq![4u8] + network_encoding(network) + key@,
        Junction::PalletInstance { id } => seq![5u8, id],
        Junction::GeneralIndex { id } => seq![6u8] + compact_encoding(id as nat),
        Junction::GeneralKey(v) => seq![7u8] + bytes_encoding(v@),
        Junction::OnlyChild => seq![8u8],
    }
}

/// The SCALE encoding of a multi-location.
pub open spec fn location_encoding(l: MultiLocation) -> Seq<u8> {
    match l {
        MultiLocation::Null => seq![0u8],
        MultiLocation::X1(a) => seq![1u8] + junction_encoding(a),
        MultiLocation::X2(a, b) => seq![2u8] + junction_encoding(a) + junction_encoding(b),
        MultiLocation::X3(a, b, c) => seq![3u8] + junction_encoding(a) + junction_encoding(b)
            + junction_encoding(c),
        MultiLocation::X4(a, b, c, d) => seq![4u8] + junction_encoding(a) + junction_encoding(b)
            + junction_encoding(c) + junction_encoding(d),
    }
}

/// Encodes `v` in SCALE compact form: `Compact(v).encode()` of the codec library,
/// which by its source writes the bytes that `compact_encoding` describes.
#[verifier::external_body]
fn compact_u32(v: u32) -> (out: Vec<u8>)
    ensures
        out@ == compact_encoding(v as nat),
{
    Compact(v).encode()
}

/// Encodes `v` in SCALE compact form: `Compact(v).encode()` of the codec library,
/// which by its source writes the bytes that `compact_encoding` describes.
#[verifier::external_body]
fn compact_u64(v: u64) -> (out: Vec<u8>)
    ensures
        out@ == compact_encoding(v as nat),
{
    Compact(v).encode()
}

/// Encodes `v` in SCALE compact form: `Compact(v).encode()` of the codec library,
/// which by its source writes the bytes that `compact_encoding` describes.
#[verifier::external_body]
fn compact_u128(v: u128) -> (out: Vec<u8>)
    ensures
        out@ == compact_encoding(v as nat),
{
    Compact(v).encode()
}

/// Encodes a byte string with the codec library's `Encode` for `[u8]`: the
/// compact length, then the bytes. The library panics on a length above
/// `u32::MAX`, which `requires` rules out.
#[verifier::external_body]
pub(crate) fn encode_byte_slice(b: &[u8]) -> (out: Vec<u8>)
    requires
        b@.len() <= u32::MAX,
    ensures
        out@ == bytes_encoding(b@),
{
    b.encode()
}

/// Whether every byte string inside `n` has a length that SCALE can encode.
fn is_network_encodable(n: &MultiNetwork) -> (r: bool)
    ensures
        r == network_encodable(*n),
{
    match n {
        MultiNetwork::Named(v) => v.len() as u64 <= u32::MAX as u64,
        _ => true,
    }
}

/// Whether every byte string inside `j` has a length that SCALE can encode.
fn is_junction_encodable(j: &Junction) -> (r: bool)
    ensures
        r == junction_encodable(*j),
{
    match j {
        Junction::AccountId32 { network, .. } => is_network_encodable(network),
        Junction::AccountIndex64 { network, .. } => is_network_encodable(network),
        Junction::AccountKey20 { network, .. } => is_network_encodable(network),
        Junction::GeneralKey(v) => v.len() as u64 <= u32::MAX as u64,
        _ => true,
    }
}

/// Whether every byte string inside `l` has a length that SCALE can
/// encode, which is what encoding `l` needs.
pub fn is_location_encodable(l: &MultiLocation) -> (r: bool)
    ensures
        r == location_encodable(*l),
{
    match l {
        MultiLocation::Null => true,
        MultiLocation::X1(a) => is_junction_encodable(a),
        MultiLocation::X2(a, b) => is_junction_encodable(a) && is_junction_encodable(b),
        MultiLocation::X3(a, b, c) => is_junction_encodable(a) && is_junction_encodable(b)
            && is_junction_encodable(c),
        MultiLocation::X4(a, b, c, d) => is_junction_encodable(a) && is_junction_encodable(b)
            && is_junction_encodable(c) && is_junction_encodable(d),
    }
}

/// Appends `bytes` to `out`.
fn push_all(out: &mut Vec<u8>, bytes: &[u8])
    ensures
        final(out)@ == old(out)@ + bytes@,
{
    let n = bytes.len();
    let mut i: usize = 0;
    while i < n
        invariant
            n == bytes@.len(),
            i <= n,
            out@ == old(out)@ + bytes@.subrange(0, i as int),
        decreases n - i,
    {
        out.push(bytes[i]);
        i = i + 1;
        assert(bytes@.subrange(0, i as int) =~= bytes@.subrange(0, i - 1).push(bytes@[i - 1]));
    }
    assert(bytes@.subrange(0, n as int) =~= bytes@);
}

/// Appends the SCALE encoding of `n` to `out`.
fn encode_network_to(n: &MultiNetwork, out: &mut Vec<u8>)
    requires
        network_encodable(*n),
    ensures
        final(out)@ == old(out)@ + network_encoding(*n),
{
    match n {
        MultiNetwork::Any => out.push(0u8),
        MultiNetwork::Named(v) => {
            out.push(1u8);
            let mut e = encode_byte_slice(v.as_slice());
            out.append(&mut e);
        },
        MultiNetwork::Polkadot => out.push(2u8),
        MultiNetwork::Kusama => out.push(3u8),
    }
    assert(out@ =~= old(out)@ + network_encoding(*n));
}

/// Appends the SCALE encoding of `j` to `out`.
fn encode_junction_to(j: &Junction, out: &mut Vec<u8>)
    requires
        junction_encodable(*j),
    ensures
        final(out)@ == old(out)@ + junction_encoding(*j),
{
    match j {
        Junction::Parent => out.push(0u8),
        Junction::Parachain { id } => {
            out.push(1u8);
            let mut e = compact_u32(*id);
            out.append(&mut e);
        },
        Junction::AccountId32 { network, id } => {
            out.push(2u8);
            encode_network_to(network, out);
            push_all(out, id.as_slice());
        },
        Junction::AccountIndex64 { network, index } => {
            out.push(3u8);
            encode_network_to(network, out);
            let mut e = compact_u64(*index);
            out.append(&mut e);
        },
        Junction::AccountKey20 { network, key } => {
            out.push(4u8);
            encode_network_to(network, out);
            push_all(out, key.as_slice());
        },
        Junction::PalletInstance { id } => {
            out.push(5u8);
            out.push(*id);
        },
        Junction::GeneralIndex { id } => {
            out.push(6u8);
            let mut e = compact_u128(*id);
            out.append(&mut e);
        },
        Junction::GeneralKey(v) => {
            out.push(7u8);
            let mut e = encode_byte_slice(v.as_slice());
            out.append(&mut e);
        },
        Junction::OnlyChild => out.push(8u8),
    }
    assert(out@ =~= old(out)@ + junction_encoding(*j));
}

/// Appends the SCALE encoding of `l` to `out`.
pub fn encode_location_to(l: &MultiLocation, out: &mut Vec<u8>)
    requires
        location_encodable(*l),
    ensures
        final(out)@ == old(out)@ + location_encoding(*l),
{
    match l {
        MultiLocation::Null => out.push(0u8),
        MultiLocation::X1(a) => {
            out.push(1u8);
            encode_junction_to(a, out);
        },
        MultiLocation::X2(a, b) => {
            out.push(2u8);
            encode_junction_to(a, out);
            encode_junction_to(b, out);
        },
        MultiLocation::X3(a, b, c) => {
            out.push(3u8);
            encode_junction_to(a, out);
            encode_junction_to(b, out);
            encode_junction_to(c, out);
        },
        MultiLocation::X4(a, b, c, d) => {
            out.push(4u8);
            encode_junction_to(a, out);
            encode_junction_to(b, out);
            encode_junction_to(c, out);
            encode_junction_to(d, out);
        },
    }
    assert(out@ =~= old(out)@ + location_encoding(*l));
}

} // verus!
