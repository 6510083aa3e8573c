//! The XCM (version 0) data model that the runtime's conversions read:
//! networks, junctions, multi-locations and origin kinds, and the
//! 32-byte account identifier of this chain.

use vstd::prelude::*;

verus! {

/// A 32-byte account identifier (`AccountId32`), held as its raw bytes.
pub type AccountId = [u8; 32];

/// A global identifier of an account-bearing consensus system.
#[derive(Clone, Debug, PartialEq, Eq)]
pub enum MultiNetwork {
    /// Unidentified or any network.
    Any,
    /// Some named network.
    Named(Vec<u8>),
    /// The Polkadot relay chain.
    Polkadot,
    /// Kusama.
    Kusama,
}

/// A single item in a path describing the relative location of a consensus system.
#[derive(Clone, Debug, PartialEq, Eq)]
pub enum Junction {
    /// The consensus system of which the context is a member and state-wise super-set.
    Parent,
    /// An indexed parachain belonging to and operated by the context.
    Parachain { id: u32 },
    /// A 32-byte identifier for an account of a specific network.
    AccountId32 { network: MultiNetwork, id: [u8; 32] },
    /// An 8-byte index for an account of a specific network.
    AccountIndex64 { network: MultiNetwork, index: u64 },
    /// A 20-byte identifier for an account of a specific network.
    AccountKey20 { network: MultiNetwork, key: [u8; 20] },
    /// An instanced pallet on a FRAME-based chain.
    PalletInstance { id: u8 },
    /// A nondescript index within the context location.
    GeneralIndex { id: u128 },
    /// A nondescript datum acting as a key within the context location.
    GeneralKey(Vec<u8>),
    /// The unambiguous child.
    OnlyChild,
}

/// A relative path between consensus systems, of at most four junctions.
#[derive(Clone, Debug, PartialEq, Eq)]
pub enum MultiLocation {
    /// The interpreting consensus system itself.
    Null,
    /// A relative path comprising one junction.
    X1(Junction),
    /// A relative path comprising two junctions.
    X2(Junction, Junction),
    /// A relative path comprising three junctions.
    X3(Junction, Junction, Junction),
    /// A relative path comprising four junctions.
    X4(Junction, Junction, Junction, Junction),
}

/// The kind of origin that an XCM message asks to be dispatched with.
#[derive(Clone, Copy, Debug, PartialEq, Eq)]
pub enum MultiOrigin {
    /// The sovereign account of the location.
    SovereignAccount,
    /// The native origin of the location.
    Native,
    /// Superuser (root) privileges.
    Superuser,
}

/// The account identifier that is all zero bytes (`AccountId::default()`).
pub open spec fn default_account() -> Seq<u8> {
    Seq::new(32, |i: int| 0u8)
}

/// Whether every byte of `a` is zero.
pub fn is_default_account(a: &AccountId) -> (r: bool)
    ensures
        r == (a@ == default_account()),
{
    let mut i: usize = 0;
    while i < 32
        invariant
            0 <= i <= 32,
            forall|j: int| 0 <= j < i ==> a@[j] == 0u8,
        decreases 32 - i,
    {
        if a[i] != 0 {
            assert(a@[i as int] != default_account()[i as int]);
            return false;
        }
        i = i + 1;
    }
    assert(a@ =~= default_account());
    true
}

} // verus!
