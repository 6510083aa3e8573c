//! `LocalPunner`: the correspondence between XCM locations and the
//! accounts of this chain.

use crate::decoding::{lemma_location_encoding_unique, location_model};
use crate::encoding::{
    bytes_encoding, compact_encoding, encode_byte_slice, encode_location_to, le_bytes,
    location_encodable, location_encoding,
};
use crate::location::{
    default_account, is_default_account, AccountId, Junction, MultiLocation, MultiNetwork,
};
use crate::parachain::{
    lemma_sibling_account_decodes, lemma_sibling_account_unique, sibling_account_bytes,
    sibling_into_account, sibling_of_account, sibling_try_from_account,
};
use vstd::prelude::*;

verus! {

broadcast use vstd::array::group_array_axioms;

/// The BLAKE2b-256 digest of `data`, as `sp_io::hashing::blake2_256` computes it.
pub uninterp spec fn blake2_256_digest(data: Seq<u8>) -> Seq<u8>;

/// The 256-bit BLAKE2b hash of `data`: `sp_io::hashing::blake2_256`.
/// The contract only names the digest as a function of the bytes hashed;
/// nothing is claimed of its value.
#[verifier::external_body]
pub(crate) fn blake2_256(data: &[u8]) -> (hash: [u8; 32])
    ensures
        hash@ == blake2_256_digest(data@),
{
    sp_io::hashing::blake2_256(data)
}

/// The ASCII bytes of the tag "multiloc" that is hashed in front of a
/// location (a `str` encodes as its UTF-8 bytes).
pub open spec fn multiloc_tag() -> Seq<u8> {
    seq![0x6du8, 0x75u8, 0x6cu8, 0x74u8, 0x69u8, 0x6cu8, 0x6fu8, 0x63u8]
}

/// The SCALE encoding of the pair `("multiloc", l)`, which is hashed to
/// give the account of a location that has no account of its own.
pub open spec fn punning_preimage(l: MultiLocation) -> Seq<u8> {
    bytes_encoding(multiloc_tag()) + location_encoding(l)
}

/// The account that location `l` is punned into: the default account for
/// the parent, the sovereign account for a sibling parachain, the account
/// itself for a 32-byte account on the Polkadot network or on any network,
/// and the hash of `("multiloc", l)` for every other location.
pub open spec fn punned_account(l: MultiLocation) -> Seq<u8> {
    match l {
        MultiLocation::X1(Junction::Parent) => default_account(),
        MultiLocation::X2(Junction::Parent, Junction::Parachain { id }) => sibling_account_bytes(id),
        MultiLocation::X1(Junction::AccountId32 { network: MultiNetwork::Polkadot, id }) => id@,
        MultiLocation::X1(Junction::AccountId32 { network: MultiNetwork::Any, id }) => id@,
        _ => blake2_256_digest(punning_preimage(l)),
    }
}

/// The location that account `who` is punned into: the parent for the
/// default account, the sibling parachain whose sovereign account `who`
/// is, and otherwise the 32-byte account `who` on the Polkadot network.
pub open spec fn punned_location(who: AccountId) -> MultiLocation {
    if who@ == default_account() {
        MultiLocation::X1(Junction::Parent)
    } else {
        match sibling_of_account(who@) {
            Some(id) => MultiLocation::X2(Junction::Parent, Junction::Parachain { id }),
            None => MultiLocation::X1(
                Junction::AccountId32 { network: MultiNetwork::Polkadot, id: who },
            ),
        }
    }
}

/// Converts between XCM locations and local accounts.
pub struct LocalPunner;

impl LocalPunner {
    /// The local account that stands for `location`; every location has one.
    pub fn punn_from_location(location: &MultiLocation) -> (account: Option<AccountId>)
        requires
            location_encodable(*location),
        ensures
            account is Some,
            account.unwrap()@ == punned_account(*location),
    {
        let a: AccountId = match location {
            MultiLocation::X1(Junction::Parent) => [0u8; 32],
            MultiLocation::X2(Junction::Parent, Junction::Parachain { id }) => sibling_into_account(
                *id,
            ),
            MultiLocation::X1(Junction::AccountId32 { network: MultiNetwork::Polkadot, id }) => *id,
            MultiLocation::X1(Junction::AccountId32 { network: MultiNetwork::Any, id }) => *id,
            x => {
                let mut preimage: Vec<u8> = Vec::new();
                let mut tag: Vec<u8> = Vec::new();
                tag.push(0x6du8);
                tag.push(0x75u8);
                tag.push(0x6cu8);
                tag.push(0x74u8);
                tag.push(0x69u8);
                tag.push(0x6cu8);
                tag.push(0x6fu8);
                tag.push(0x63u8);
                assert(tag@ =~= multiloc_tag());
                let mut encoded_tag = encode_byte_slice(tag.as_slice());
                preimage.append(&mut encoded_tag);
                encode_location_to(x, &mut preimage);
                assert(preimage@ =~= punning_preimage(*location));
                blake2_256(preimage.as_slice())
            },
        };
        assert(a@ =~= punned_account(*location));
        Some(a)
    }

    /// The location that the local account `who` stands for; every account has one.
    pub fn punn_into_location(who: AccountId) -> (location: Option<MultiLocation>)
        ensures
            location == Some(punned_location(who)),
    {
        if is_default_account(&who) {
            return Some(MultiLocation::X1(Junction::Parent));
        }
        if let Some(id) = sibling_try_from_account(&who) {
            return Some(MultiLocation::X2(Junction::Parent, Junction::Parachain { id }));
        }
        Some(MultiLocation::X1(Junction::AccountId32 { network: MultiNetwork::Polkadot, id: who }))
    }
}

/// Punning an account into a location and punning that location back
/// gives the account again, for every account.
pub proof fn lemma_account_round_trip(who: AccountId)
    ensures
        location_encodable(punned_location(who)),
        punned_account(punned_location(who)) == who@,
{
    if who@ != default_account() {
        if let Some(id) = sibling_of_account(who@) {
            lemma_sibling_account_unique(who@, id);
        }
    }
}

/// Punning a location into an account and that account back gives the
/// location again, for the parent, for every sibling parachain, and for
/// every 32-byte Polkadot account that is neither the default account nor
/// shaped as a sibling's sovereign account.
pub proof fn lemma_location_round_trip(l: MultiLocation, a: AccountId)
    requires
        a@ == punned_account(l),
        ({
            ||| l matches MultiLocation::X1(Junction::Parent)
            ||| l matches MultiLocation::X2(Junction::Parent, Junction::Parachain { .. })
            ||| l matches MultiLocation::X1(
                Junction::AccountId32 { network: MultiNetwork::Polkadot, id },
            ) && id@ != default_account() && sibling_of_account(id@) is None
        }),
    ensures
        punned_location(a) == l,
{
    match l {
        MultiLocation::X2(Junction::Parent, Junction::Parachain { id }) => {
            lemma_sibling_account_decodes(id);
            assert(a@[0] != default_account()[0]);
        },
        MultiLocation::X1(Junction::AccountId32 { network: MultiNetwork::Polkadot, id }) => {
            assert(a =~= id);
        },
        _ => {},
    }
}

/// Every location other than the parent, a sibling parachain and a 32-byte
/// account on the Polkadot network or on any network is punned into the
/// BLAKE2b-256 digest of the byte 0x20 (the compact length eight), the
/// ASCII bytes "multiloc" and the location's SCALE encoding; the parent is
/// the all-zero account and such an account is itself.
pub proof fn lemma_punned_account_cases(l: MultiLocation)
    ensures
        !({
            ||| l matches MultiLocation::X1(Junction::Parent)
            ||| l matches MultiLocation::X2(Junction::Parent, Junction::Parachain { .. })
            ||| l matches MultiLocation::X1(
                Junction::AccountId32 { network: MultiNetwork::Polkadot, .. },
            )
            ||| l matches MultiLocation::X1(Junction::AccountId32 { network: MultiNetwork::Any, .. })
        }) ==> punned_account(l) == blake2_256_digest(
            seq![0x20u8, 0x6du8, 0x75u8, 0x6cu8, 0x74u8, 0x69u8, 0x6cu8, 0x6fu8, 0x63u8]
                + location_encoding(l),
        ),
        l matches MultiLocation::X1(Junction::Parent) ==> punned_account(l) == Seq::new(
            32,
            |i: int| 0u8,
        ),
        l matches MultiLocation::X1(Junction::AccountId32 { network: MultiNetwork::Polkadot, id })
            ==> punned_account(l) == id@,
        l matches MultiLocation::X1(Junction::AccountId32 { network: MultiNetwork::Any, id })
            ==> punned_account(l) == id@,
{
    assert(compact_encoding(8) == seq![0x20u8]) by {
        reveal_with_fuel(le_bytes, 2);
    }
    assert(bytes_encoding(multiloc_tag()) =~= seq![
        0x20u8,
        0x6du8,
        0x75u8,
        0x6cu8,
        0x74u8,
        0x69u8,
        0x6cu8,
        0x6fu8,
        0x63u8,
    ]);
    assert(default_account() =~= Seq::new(32, |i: int| 0u8));
}

/// Two hashed locations are punned from the same bytes only when they hold
/// the same junctions with the same fields.
pub proof fn lemma_punning_preimage_unique(l1: MultiLocation, l2: MultiLocation)
    requires
        location_encodable(l1),
        location_encodable(l2),
        punning_preimage(l1) == punning_preimage(l2),
    ensures
        location_model(l1) == location_model(l2),
{
    let t = bytes_encoding(multiloc_tag());
    assert(location_encoding(l1) =~= punning_preimage(l1).subrange(t.len() as int, punning_preimage(l1).len() as int));
    assert(location_encoding(l2) =~= punning_preimage(l2).subrange(t.len() as int, punning_preimage(l2).len() as int));
    lemma_location_encoding_unique(l1, l2, Seq::empty(), Seq::empty());
    assert(location_encoding(l1) + Seq::<u8>::empty() =~= location_encoding(l1));
    assert(location_encoding(l2) + Seq::<u8>::empty() =~= location_encoding(l2));
}

} // verus!
