//! Reading the SCALE encoding of the XCM data model back: a decoder,
//! written from the byte layout alone, and the laws that it recovers
//! every encoded location, field by field and in order, whatever bytes
//! follow it.

use crate::encoding::{
    byte_len, bytes_encoding, compact_encoding, junction_encodable, junction_encoding, le_bytes,
    location_encodable, location_encoding, network_encodable, network_encoding,
};
use crate::location::{Junction, MultiLocation, MultiNetwork};
use vstd::arithmetic::div_mod::{lemma_mod_breakdown, lemma_mod_mod, lemma_small_mod};
use vstd::prelude::*;

verus! {

/// `256` to the power `n`.
pub open spec fn pow256(n: nat) -> nat
    decreases n,
{
    if n == 0 {
        1
    } else {
        256 * pow256((n - 1) as nat)
    }
}

/// The number whose base-256 digits, least significant first, are `b`.
pub open spec fn le_value(b: Seq<u8>) -> nat
    decreases b.len(),
{
    if b.len() == 0 {
        0
    } else {
        b[0] as nat + 256 * le_value(b.drop_first())
    }
}

/// Reads a SCALE compact integer from the front of `b`: the value and the
/// number of bytes it takes, or `None` when `b` is too short. The two low
/// bits of the first byte give the mode: one, two or four bytes holding the
/// value shifted left by two, or a header whose upper six bits give the
/// byte count less four, followed by the value's bytes.
pub open spec fn compact_decode(b: Seq<u8>) -> Option<(nat, nat)> {
    if b.len() == 0 {
        None
    } else if b[0] % 4 == 0 {
        Some(((b[0] / 4) as nat, 1))
    } else if b[0] % 4 == 1 {
        if b.len() >= 2 {
            Some((le_value(b.subrange(0, 2)) / 4, 2))
        } else {
            None
        }
    } else if b[0] % 4 == 2 {
        if b.len() >= 4 {
            Some((le_value(b.subrange(0, 4)) / 4, 4))
        } else {
            None
        }
    } else {
        let n = (b[0] / 4) as nat + 4;
        if b.len() >= 1 + n {
            Some((le_value(b.subrange(1, 1 + n as int)), 1 + n))
        } else {
            None
        }
    }
}

proof fn lemma_pow256_positive(n: nat)
    ensures
        pow256(n) > 0,
    decreases n,
{
    if n > 0 {
        lemma_pow256_positive((n - 1) as nat);
    }
}

proof fn lemma_le_bytes(v: nat, n: nat)
    ensures
        le_bytes(v, n).len() == n,
        le_value(le_bytes(v, n)) == v % pow256(n),
    decreases n,
{
    if n > 0 {
        lemma_le_bytes(v / 256, (n - 1) as nat);
        lemma_pow256_positive((n - 1) as nat);
        let s = le_bytes(v, n);
        assert(s.drop_first() =~= le_bytes(v / 256, (n - 1) as nat));
        lemma_mod_breakdown(v as int, 256, pow256((n - 1) as nat) as int);
    }
}

proof fn lemma_byte_len(v: nat)
    ensures
        byte_len(v) >= 1,
        v < pow256(byte_len(v)),
    decreases v,
{
    if v >= 256 {
        lemma_byte_len(v / 256);
        assert(byte_len(v) == 1 + byte_len(v / 256));
        assert(pow256(byte_len(v)) == 256 * pow256(byte_len(v / 256)));
    } else {
        reveal_with_fuel(pow256, 2);
    }
}

proof fn lemma_byte_len_at_most(v: nat, k: nat)
    requires
        1 <= k,
        v < pow256(k),
    ensures
        byte_len(v) <= k,
    decreases k,
{
    if v >= 256 {
        if k == 1 {
            assert(pow256(1) == 256) by {
                reveal_with_fuel(pow256, 2);
            }
        } else {
            lemma_byte_len_at_most(v / 256, (k - 1) as nat);
        }
    }
}

proof fn lemma_pow256_values()
    ensures
        pow256(1) == 0x100,
        pow256(2) == 0x1_0000,
        pow256(3) == 0x100_0000,
        pow256(4) == 0x1_0000_0000,
        pow256(16) == 0x1_0000_0000_0000_0000_0000_0000_0000_0000,
{
    reveal_with_fuel(pow256, 17);
}

/// The compact decoder reads back every compact-encoded integer below
/// 2^128, and how many bytes it took, whatever bytes follow it.
pub proof fn lemma_compact_decode(v: nat, rest: Seq<u8>)
    requires
        v < 0x1_0000_0000_0000_0000_0000_0000_0000_0000,
    ensures
        compact_decode(compact_encoding(v) + rest) == Some((v, compact_encoding(v).len())),
{
    lemma_pow256_values();
    let e = compact_encoding(v);
    let b = e + rest;
    if v < 0x40 {
        lemma_le_bytes(v * 4, 1);
        assert(b[0] == e[0]);
        assert(e[0] == (v * 4) as u8);
        assert(b[0] % 4 == 0);
    } else if v < 0x4000 {
        lemma_le_bytes(v * 4 + 1, 2);
        assert(b[0] == e[0]);
        assert(e[0] == ((v * 4 + 1) % 256) as u8);
        lemma_mod_mod((v * 4 + 1) as int, 4, 64);
        assert(b[0] % 4 == 1);
        assert(b.subrange(0, 2) =~= e);
        assert(le_value(b.subrange(0, 2)) == v * 4 + 1);
    } else if v < 0x4000_0000 {
        lemma_le_bytes(v * 4 + 2, 4);
        assert(b[0] == e[0]);
        assert(e[0] == ((v * 4 + 2) % 256) as u8);
        lemma_mod_mod((v * 4 + 2) as int, 4, 64);
        assert(b[0] % 4 == 2);
        assert(b.subrange(0, 4) =~= e);
        assert(le_value(b.subrange(0, 4)) == v * 4 + 2);
    } else {
        let n = byte_len(v);
        lemma_byte_len(v);
        lemma_byte_len_at_most(v, 16);
        if n < 4 {
            assert(pow256(n) <= pow256(3)) by {
                reveal_with_fuel(pow256, 4);
            }
        }
        lemma_le_bytes(v, n);
        assert(4 <= n <= 16);
        assert(b[0] == ((n - 4) * 4 + 3) as u8);
        assert(b[0] % 4 == 3);
        assert(b[0] / 4 == n - 4);
        assert(b.subrange(1, 1 + n as int) =~= le_bytes(v, n));
        lemma_small_mod(v, pow256(n));
    }
}

/// A compact integer below 2^128 is read back whole from the front of any
/// byte string that starts with its encoding, so two such encodings that
/// start two equal byte strings are the encodings of one value, and what
/// follows them is equal too.
pub proof fn lemma_compact_prefix(v: nat, w: nat, r1: Seq<u8>, r2: Seq<u8>)
    requires
        v < 0x1_0000_0000_0000_0000_0000_0000_0000_0000,
        w < 0x1_0000_0000_0000_0000_0000_0000_0000_0000,
        compact_encoding(v) + r1 == compact_encoding(w) + r2,
    ensures
        v == w,
        r1 == r2,
{
    lemma_compact_decode(v, r1);
    lemma_compact_decode(w, r2);
    let b = compact_encoding(v) + r1;
    assert(r1 =~= b.subrange(compact_encoding(v).len() as int, b.len() as int));
    assert(r2 =~= b.subrange(compact_encoding(w).len() as int, b.len() as int));
}

/// A network identifier as plain data.
pub enum NetworkModel {
    Any,
    Named(Seq<u8>),
    Polkadot,
    Kusama,
}

/// A junction as plain data: integers as numbers, byte strings and fixed
/// arrays as byte sequences.
pub enum JunctionModel {
    Parent,
    Parachain(nat),
    AccountId32 { network: NetworkModel, id: Seq<u8> },
    AccountIndex64 { network: NetworkModel, index: nat },
    AccountKey20 { network: NetworkModel, key: Seq<u8> },
    PalletInstance(nat),
    GeneralIndex(nat),
    GeneralKey(Seq<u8>),
    OnlyChild,
}

/// The plain data of a network identifier.
pub open spec fn network_model(n: MultiNetwork) -> NetworkModel {
    match n {
        MultiNetwork::Any => NetworkModel::Any,
        MultiNetwork::Named(v) => NetworkModel::Named(v@),
        MultiNetwork::Polkadot => NetworkModel::Polkadot,
        MultiNetwork::Kusama => NetworkModel::Kusama,
    }
}

/// The plain data of a junction.
pub open spec fn junction_model(j: Junction) -> JunctionModel {
    match j {
        Junction::Parent => JunctionModel::Parent,
        Junction::Parachain { id } => JunctionModel::Parachain(id as nat),
        Junction::AccountId32 { network, id } => JunctionModel::AccountId32 {
            network: network_model(network),
            id: id@,
        },
        Junction::AccountIndex64 { network, index } => JunctionModel::AccountIndex64 {
            network: network_model(network),
            index: index as nat,
        },
        Junction::AccountKey20 { network, key } => JunctionModel::AccountKey20 {
            network: network_model(network),
            key: key@,
        },
        Junction::PalletInstance { id } => JunctionModel::PalletInstance(id as nat),
        Junction::GeneralIndex { id } => JunctionModel::GeneralIndex(id as nat),
        Junction::GeneralKey(v) => JunctionModel::GeneralKey(v@),
        Junction::OnlyChild => JunctionModel::OnlyChild,
    }
}

/// The junctions of a location as plain data, in path order.
pub open spec fn location_model(l: MultiLocation) -> Seq<JunctionModel> {
    match l {
        MultiLocation::Null => seq![],
        MultiLocation::X1(a) => seq![junction_model(a)],
        MultiLocation::X2(a, b) => seq![junction_model(a), junction_model(b)],
        MultiLocation::X3(a, b, c) => seq![junction_model(a), junction_model(b), junction_model(c)],
        MultiLocation::X4(a, b, c, d) => seq![
            junction_model(a),
            junction_model(b),
            junction_model(c),
            junction_model(d),
        ],
    }
}

/// Reads a SCALE byte string from the front of `b`: a compact length, then
/// that many bytes in order.
pub open spec fn decode_bytes(b: Seq<u8>) -> Option<(Seq<u8>, nat)> {
    match compact_decode(b) {
        Some((n, k)) => if k + n <= b.len() {
            Some((b.subrange(k as int, (k + n) as int), k + n))
        } else {
            None
        },
        None => None,
    }
}

/// Reads `n` bytes in order from the front of `b`.
pub open spec fn decode_array(b: Seq<u8>, n: nat) -> Option<(Seq<u8>, nat)> {
    if n <= b.len() {
        Some((b.subrange(0, n as int), n))
    } else {
        None
    }
}

/// Reads a network identifier from the front of `b`: the variant index
/// (Any 0, Named 1, Polkadot 2, Kusama 3), then the name of a named network.
pub open spec fn decode_network(b: Seq<u8>) -> Option<(NetworkModel, nat)> {
    if b.len() == 0 {
        None
    } else if b[0] == 0 {
        Some((NetworkModel::Any, 1))
    } else if b[0] == 1 {
        match decode_bytes(b.drop_first()) {
            Some((v, k)) => Some((NetworkModel::Named(v), 1 + k)),
            None => None,
        }
    } else if b[0] == 2 {
        Some((NetworkModel::Polkadot, 1))
    } else if b[0] == 3 {
        Some((NetworkModel::Kusama, 1))
    } else {
        None
    }
}

/// Reads a network identifier and then `n` bytes in order.
pub open spec fn decode_network_and_array(b: Seq<u8>, n: nat) -> Option<(NetworkModel, Seq<u8>, nat)> {
    match decode_network(b) {
        Some((net, k)) => match decode_array(b.subrange(k as int, b.len() as int), n) {
            Some((a, m)) => Some((net, a, k + m)),
            None => None,
        },
        None => None,
    }
}

/// Reads a network identifier and then a compact integer.
pub open spec fn decode_network_and_compact(b: Seq<u8>) -> Option<(NetworkModel, nat, nat)> {
    match decode_network(b) {
        Some((net, k)) => match compact_decode(b.subrange(k as int, b.len() as int)) {
            Some((v, m)) => Some((net, v, k + m)),
            None => None,
        },
        None => None,
    }
}

/// Reads a junction from the front of `b`: the variant index (Parent 0,
/// Parachain 1, AccountId32 2, AccountIndex64 3, AccountKey20 4,
/// PalletInstance 5, GeneralIndex 6, GeneralKey 7, OnlyChild 8), then its
/// fields in declaration order.
pub open spec fn decode_junction(b: Seq<u8>) -> Option<(JunctionModel, nat)> {
    if b.len() == 0 {
        None
    } else {
        let r = b.drop_first();
        if b[0] == 0 {
            Some((JunctionModel::Parent, 1))
        } else if b[0] == 1 {
            match compact_decode(r) {
                Some((v, k)) => Some((JunctionModel::Parachain(v), 1 + k)),
                None => None,
            }
        } else if b[0] == 2 {
            match decode_network_and_array(r, 32) {
                Some((network, id, k)) => Some((JunctionModel::AccountId32 { network, id }, 1 + k)),
                None => None,
            }
        } else if b[0] == 3 {
            match decode_network_and_compact(r) {
                Some((network, index, k)) => Some(
                    (JunctionModel::AccountIndex64 { network, index }, 1 + k),
                ),
                None => None,
            }
        } else if b[0] == 4 {
            match decode_network_and_array(r, 20) {
                Some((network, key, k)) => Some((JunctionModel::AccountKey20 { network, key }, 1 + k)),
                None => None,
            }
        } else if b[0] == 5 {
            if r.len() >= 1 {
                Some((JunctionModel::PalletInstance(r[0] as nat), 2))
            } else {
                None
            }
        } else if b[0] == 6 {
            match compact_decode(r) {
                Some((v, k)) => Some((JunctionModel::GeneralIndex(v), 1 + k)),
                None => None,
            }
        } else if b[0] == 7 {
            match decode_bytes(r) {
                Some((v, k)) => Some((JunctionModel::GeneralKey(v), 1 + k)),
                None => None,
            }
        } else if b[0] == 8 {
            Some((JunctionModel::OnlyChild, 1))
        } else {
            None
        }
    }
}

/// Reads `count` junctions one after another from the front of `b`.
pub open spec fn decode_junctions(b: Seq<u8>, count: nat) -> Option<(Seq<JunctionModel>, nat)>
    decreases count,
{
    if count == 0 {
        Some((seq![], 0))
    } else {
        match decode_junction(b) {
            Some((j, k)) => match decode_junctions(
                b.subrange(k as int, b.len() as int),
                (count - 1) as nat,
            ) {
                Some((js, m)) => Some((seq![j] + js, k + m)),
                None => None,
            },
            None => None,
        }
    }
}

/// Reads a location from the front of `b`: the number of junctions (at
/// most four), then the junctions in path order.
pub open spec fn decode_location(b: Seq<u8>) -> Option<(Seq<JunctionModel>, nat)> {
    if b.len() == 0 || b[0] > 4 {
        None
    } else {
        match decode_junctions(b.drop_first(), b[0] as nat) {
            Some((js, k)) => Some((js, 1 + k)),
            None => None,
        }
    }
}

/// A byte string is read back whole, and in order, from the front of any
/// byte string that starts with its encoding.
pub proof fn lemma_bytes_decode(v: Seq<u8>, rest: Seq<u8>)
    requires
        v.len() <= u32::MAX,
    ensures
        decode_bytes(bytes_encoding(v) + rest) == Some((v, bytes_encoding(v).len())),
{
    let c = compact_encoding(v.len());
    let b = bytes_encoding(v) + rest;
    assert(b =~= c + (v + rest));
    lemma_compact_decode(v.len(), v + rest);
    assert(b.subrange(c.len() as int, (c.len() + v.len()) as int) =~= v);
}

/// A network identifier is read back from the front of any byte string
/// that starts with its encoding.
pub proof fn lemma_network_decode(n: MultiNetwork, rest: Seq<u8>)
    requires
        network_encodable(n),
    ensures
        decode_network(network_encoding(n) + rest) == Some(
            (network_model(n), network_encoding(n).len()),
        ),
{
    let b = network_encoding(n) + rest;
    if let MultiNetwork::Named(v) = n {
        assert(b.drop_first() =~= bytes_encoding(v@) + rest);
        lemma_bytes_decode(v@, rest);
    }
}

proof fn lemma_network_then_array(n: MultiNetwork, a: Seq<u8>, rest: Seq<u8>)
    requires
        network_encodable(n),
    ensures
        decode_network_and_array(network_encoding(n) + a + rest, a.len()) == Some(
            (network_model(n), a, network_encoding(n).len() + a.len()),
        ),
{
    let e = network_encoding(n);
    let b = e + a + rest;
    assert(b =~= e + (a + rest));
    lemma_network_decode(n, a + rest);
    assert(b.subrange(e.len() as int, b.len() as int) =~= a + rest);
    assert((a + rest).subrange(0, a.len() as int) =~= a);
}

proof fn lemma_network_then_compact(n: MultiNetwork, v: nat, rest: Seq<u8>)
    requires
        network_encodable(n),
        v < 0x1_0000_0000_0000_0000_0000_0000_0000_0000,
    ensures
        decode_network_and_compact(network_encoding(n) + compact_encoding(v) + rest) == Some(
            (network_model(n), v, network_encoding(n).len() + compact_encoding(v).len()),
        ),
{
    let e = network_encoding(n);
    let c = compact_encoding(v);
    let b = e + c + rest;
    assert(b =~= e + (c + rest));
    lemma_network_decode(n, c + rest);
    assert(b.subrange(e.len() as int, b.len() as int) =~= c + rest);
    lemma_compact_decode(v, rest);
}

/// A junction is read back, field by field and in order, from the front of
/// any byte string that starts with its encoding.
pub proof fn lemma_junction_decode(j: Junction, rest: Seq<u8>)
    requires
        junction_encodable(j),
    ensures
        decode_junction(junction_encoding(j) + rest) == Some(
            (junction_model(j), junction_encoding(j).len()),
        ),
{
    let e = junction_encoding(j);
    let b = e + rest;
    let r = b.drop_first();
    assert(r =~= e.drop_first() + rest);
    match j {
        Junction::Parachain { id } => {
            assert(e.drop_first() =~= compact_encoding(id as nat));
            lemma_compact_decode(id as nat, rest);
        },
        Junction::AccountId32 { network, id } => {
            assert(e.drop_first() =~= network_encoding(network) + id@);
            lemma_network_then_array(network, id@, rest);
        },
        Junction::AccountIndex64 { network, index } => {
            assert(e.drop_first() =~= network_encoding(network) + compact_encoding(index as nat));
            lemma_network_then_compact(network, index as nat, rest);
        },
        Junction::AccountKey20 { network, key } => {
            assert(e.drop_first() =~= network_encoding(network) + key@);
            lemma_network_then_array(network, key@, rest);
        },
        Junction::PalletInstance { id } => {
            assert(r[0] == id);
        },
        Junction::GeneralIndex { id } => {
            assert(e.drop_first() =~= compact_encoding(id as nat));
            lemma_compact_decode(id as nat, rest);
        },
        Junction::GeneralKey(v) => {
            assert(e.drop_first() =~= bytes_encoding(v@));
            lemma_bytes_decode(v@, rest);
        },
        _ => {},
    }
}

proof fn lemma_junctions_step(j: Junction, rest: Seq<u8>, count: nat)
    requires
        junction_encodable(j),
    ensures
        decode_junctions(junction_encoding(j) + rest, count + 1) == match decode_junctions(
            rest,
            count,
        ) {
            Some((js, m)) => Some((seq![junction_model(j)] + js, junction_encoding(j).len() + m)),
            None => None,
        },
{
    let b = junction_encoding(j) + rest;
    lemma_junction_decode(j, rest);
    assert(b.subrange(junction_encoding(j).len() as int, b.len() as int) =~= rest);
}

proof fn lemma_two_junctions(a: Junction, c: Junction, rest: Seq<u8>)
    requires
        junction_encodable(a),
        junction_encodable(c),
    ensures
        decode_junctions(junction_encoding(a) + (junction_encoding(c) + rest), 2) == Some(
            (
                seq![junction_model(a), junction_model(c)],
                junction_encoding(a).len() + junction_encoding(c).len(),
            ),
        ),
{
    assert(decode_junctions(rest, 0) == Some((Seq::<JunctionModel>::empty(), 0nat)));
    lemma_junctions_step(c, rest, 0);
    lemma_junctions_step(a, junction_encoding(c) + rest, 1);
    assert(seq![junction_model(a)] + (seq![junction_model(c)] + Seq::<JunctionModel>::empty())
        =~= seq![junction_model(a), junction_model(c)]);
}

proof fn lemma_three_junctions(a: Junction, c: Junction, d: Junction, rest: Seq<u8>)
    requires
        junction_encodable(a),
        junction_encodable(c),
        junction_encodable(d),
    ensures
        decode_junctions(
            junction_encoding(a) + (junction_encoding(c) + (junction_encoding(d) + rest)),
            3,
        ) == Some(
            (
                seq![junction_model(a), junction_model(c), junction_model(d)],
                junction_encoding(a).len() + junction_encoding(c).len() + junction_encoding(
                    d,
                ).len(),
            ),
        ),
{
    lemma_two_junctions(c, d, rest);
    lemma_junctions_step(a, junction_encoding(c) + (junction_encoding(d) + rest), 2);
    assert(seq![junction_model(a)] + seq![junction_model(c), junction_model(d)]
        =~= seq![junction_model(a), junction_model(c), junction_model(d)]);
}

proof fn lemma_four_junctions(a: Junction, c: Junction, d: Junction, f: Junction, rest: Seq<u8>)
    requires
        junction_encodable(a),
        junction_encodable(c),
        junction_encodable(d),
        junction_encodable(f),
    ensures
        decode_junctions(
            junction_encoding(a) + (junction_encoding(c) + (junction_encoding(d) + (
            junction_encoding(f) + rest))),
            4,
        ) == Some(
            (
                seq![junction_model(a), junction_model(c), junction_model(d), junction_model(f)],
                junction_encoding(a).len() + junction_encoding(c).len() + junction_encoding(
                    d,
                ).len() + junction_encoding(f).len(),
            ),
        ),
{
    lemma_three_junctions(c, d, f, rest);
    lemma_junctions_step(
        a,
        junction_encoding(c) + (junction_encoding(d) + (junction_encoding(f) + rest)),
        3,
    );
    assert(seq![junction_model(a)] + seq![junction_model(c), junction_model(d), junction_model(f)]
        =~= seq![junction_model(a), junction_model(c), junction_model(d), junction_model(f)]);
}

/// A location is read back, junction by junction and in path order, from
/// the front of any byte string that starts with its encoding.
pub proof fn lemma_location_decode(l: MultiLocation, rest: Seq<u8>)
    requires
        location_encodable(l),
    ensures
        decode_location(location_encoding(l) + rest) == Some(
            (location_model(l), location_encoding(l).len()),
        ),
{
    let b = location_encoding(l) + rest;
    match l {
        MultiLocation::Null => {
            assert(decode_junctions(b.drop_first(), 0) == Some((Seq::<JunctionModel>::empty(), 0nat)));
        },
        MultiLocation::X1(a) => {
            assert(b.drop_first() =~= junction_encoding(a) + rest);
            assert(decode_junctions(rest, 0) == Some((Seq::<JunctionModel>::empty(), 0nat)));
            lemma_junctions_step(a, rest, 0);
            assert(seq![junction_model(a)] + Seq::<JunctionModel>::empty() =~= location_model(l));
        },
        MultiLocation::X2(a, c) => {
            assert(b.drop_first() =~= junction_encoding(a) + (junction_encoding(c) + rest));
            lemma_two_junctions(a, c, rest);
        },
        MultiLocation::X3(a, c, d) => {
            assert(b.drop_first() =~= junction_encoding(a) + (junction_encoding(c) + (
            junction_encoding(d) + rest)));
            lemma_three_junctions(a, c, d, rest);
        },
        MultiLocation::X4(a, c, d, f) => {
            assert(b.drop_first() =~= junction_encoding(a) + (junction_encoding(c) + (
            junction_encoding(d) + (junction_encoding(f) + rest))));
            lemma_four_junctions(a, c, d, f, rest);
        },
    }
}

/// Two locations whose encodings start two equal byte strings hold the
/// same junctions with the same fields, and what follows the encodings is
/// equal too: the encoding tells locations apart and ends where it ends.
pub proof fn lemma_location_encoding_unique(
    l1: MultiLocation,
    l2: MultiLocation,
    r1: Seq<u8>,
    r2: Seq<u8>,
)
    requires
        location_encodable(l1),
        location_encodable(l2),
        location_encoding(l1) + r1 == location_encoding(l2) + r2,
    ensures
        location_model(l1) == location_model(l2),
        r1 == r2,
{
    lemma_location_decode(l1, r1);
    lemma_location_decode(l2, r2);
    let b = location_encoding(l1) + r1;
    assert(r1 =~= b.subrange(location_encoding(l1).len() as int, b.len() as int));
    assert(r2 =~= b.subrange(location_encoding(l2).len() as int, b.len() as int));
}

} // verus!
