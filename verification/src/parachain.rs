//! Parachain identifiers: the sovereign account of a sibling parachain,
//! its inverse, and which parachains are system parachains. The
//! conversions are those of the Polkadot parachain primitives.

use crate::location::AccountId;
use polkadot_parachain_primitives::primitives::{Id as ParaId, IsSystem, Sibling};
use sp_runtime::traits::AccountIdConversion;
use sp_runtime::AccountId32;
use vstd::prelude::*;

verus! {

/// The four little-endian bytes of `v`.
pub open spec fn le_u32_bytes(v: u32) -> Seq<u8> {
    seq![(v & 0xff) as u8, ((v >> 8u32) & 0xff) as u8, ((v >> 16u32) & 0xff) as u8, (v >> 24u32) as u8]
}

/// The `u32` whose little-endian bytes are `b0`, `b1`, `b2`, `b3`.
pub open spec fn le_u32_value(b0: u8, b1: u8, b2: u8, b3: u8) -> u32 {
    (b0 as u32) | ((b1 as u32) << 8u32) | ((b2 as u32) << 16u32) | ((b3 as u32) << 24u32)
}

/// The type identifier of a sibling parachain: the ASCII bytes of "sibl".
pub open spec fn sibling_type_id() -> Seq<u8> {
    seq![0x73u8, 0x69u8, 0x62u8, 0x6cu8]
}

/// The sovereign account of sibling parachain `id`: the type identifier,
/// the SCALE encoding of `id` (four little-endian bytes), then zero bytes
/// up to 32.
pub open spec fn sibling_account_bytes(id: u32) -> Seq<u8> {
    sibling_type_id() + le_u32_bytes(id) + Seq::new(24, |i: int| 0u8)
}

/// The sibling parachain whose sovereign account is `a`, if `a` is one:
/// `a` starts with the type identifier, the next four bytes decode the
/// identifier, and all bytes after them are zero.
pub open spec fn sibling_of_account(a: Seq<u8>) -> Option<u32> {
    if a.len() == 32 && a.subrange(0, 4) == sibling_type_id() && (forall|i: int|
        8 <= i < 32 ==> a[i] == 0u8) {
        Some(le_u32_value(a[4], a[5], a[6], a[7]))
    } else {
        None
    }
}

/// The sovereign account of sibling parachain `id`:
/// `Sibling::from(id).into_account_truncating()` of the parachain
/// primitives, which by its source lays out the bytes that
/// `sibling_account_bytes` describes (type id, encoded id, zero padding).
#[verifier::external_body]
pub(crate) fn sibling_into_account(id: u32) -> (account: AccountId)
    ensures
        account@ == sibling_account_bytes(id),
{
    let account: AccountId32 = Sibling::from(id).into_account_truncating();
    account.into()
}

/// The sibling parachain whose sovereign account is `who`:
/// `Sibling::try_from_account` of the parachain primitives, which by its
/// source checks the type id, decodes the `u32` after it and requires the
/// remaining bytes to be zero, as `sibling_of_account` describes.
#[verifier::external_body]
pub(crate) fn sibling_try_from_account(who: &AccountId) -> (id: Option<u32>)
    ensures
        id == sibling_of_account(who@),
{
    match Sibling::try_from_account(&AccountId32::new(*who)) {
        Some(s) => Some(u32::from(s)),
        None => None,
    }
}

/// Whether parachain `id` is a system parachain: the identifiers up to 1999.
/// The bound is that of the parachain primitives release this crate is
/// built against; earlier releases of the primitives drew it lower, so
/// which parachains count as system ones follows that dependency.
pub open spec fn is_system_parachain(id: u32) -> bool {
    id <= 1999
}

/// Whether parachain `id` is a system parachain: `IsSystem::is_system` of
/// the parachain primitives, which by its source holds exactly for the
/// identifiers up to 1999. The bound belongs to the release of the
/// primitives in use; earlier releases drew it lower.
#[verifier::external_body]
pub(crate) fn para_is_system(id: u32) -> (r: bool)
    ensures
        r == is_system_parachain(id),
{
    ParaId::from(id).is_system()
}

/// The bytes of a sovereign account decode back to the parachain it was made for.
pub proof fn lemma_sibling_account_decodes(id: u32)
    ensures
        sibling_of_account(sibling_account_bytes(id)) == Some(id),
{
    let a = sibling_account_bytes(id);
    assert(a.subrange(0, 4) =~= sibling_type_id());
    assert(le_u32_value(
        (id & 0xff) as u8,
        ((id >> 8u32) & 0xff) as u8,
        ((id >> 16u32) & 0xff) as u8,
        (id >> 24u32) as u8,
    ) == id) by (bit_vector);
}

/// An account that decodes to a sibling parachain is that parachain's sovereign account.
pub proof fn lemma_sibling_account_unique(a: Seq<u8>, id: u32)
    requires
        sibling_of_account(a) == Some(id),
    ensures
        a == sibling_account_bytes(id),
{
    let (b0, b1, b2, b3) = (a[4], a[5], a[6], a[7]);
    assert(le_u32_bytes(le_u32_value(b0, b1, b2, b3)) =~= seq![b0, b1, b2, b3]) by {
        let v = le_u32_value(b0, b1, b2, b3);
        assert((v & 0xff) as u8 == b0 && ((v >> 8u32) & 0xff) as u8 == b1
            && ((v >> 16u32) & 0xff) as u8 == b2 && (v >> 24u32) as u8 == b3) by (bit_vector)
            requires
                v == (b0 as u32) | ((b1 as u32) << 8u32) | ((b2 as u32) << 16u32) | ((b3 as u32)
                    << 24u32),
        ;
    }
    assert(a.subrange(0, 4) == sibling_type_id());
    assert forall|i: int| 0 <= i < 32 implies a[i] == sibling_account_bytes(id)[i] by {
        if i < 4 {
            assert(a[i] == a.subrange(0, 4)[i]);
        }
    }
    assert(a =~= sibling_account_bytes(id));
}

} // verus!
