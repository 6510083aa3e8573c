//! `LocalOriginConverter`: which local dispatch origin an XCM message
//! from a given location, asking for a given kind of origin, runs with.

use crate::encoding::location_encodable;
use crate::location::{AccountId, Junction, MultiLocation, MultiNetwork, MultiOrigin};
use crate::parachain::{is_system_parachain, para_is_system};
use crate::punner::{punned_account, LocalPunner};
use vstd::prelude::*;

verus! {

/// A dispatch origin of this runtime.
#[derive(Clone, Debug, PartialEq, Eq)]
pub enum Origin {
    /// Signed by an account (`frame_system::RawOrigin::Signed`).
    Signed(AccountId),
    /// The relay chain (`cumulus_message_broker::Origin::Relay`).
    Relay,
    /// A sibling parachain (`cumulus_message_broker::Origin::SiblingParachain`).
    SiblingParachain(u32),
    /// Root privileges (`frame_system::RawOrigin::Root`).
    Root,
}

/// The error an origin conversion fails with: the one that the unit error
/// converts into, `Undefined`.
#[derive(Clone, Debug, PartialEq, Eq)]
pub enum XcmError {
    /// An unspecified failure.
    Undefined,
}

/// The origin that a native or superuser request converts to, or the
/// error when it is refused: the relay chain and sibling parachains have
/// their native origins and 32-byte accounts on the Polkadot network or on
/// any network sign as themselves; the relay chain and the system
/// parachains have root privileges; everything else is refused.
pub open spec fn privileged_origin(origin: MultiLocation, kind: MultiOrigin) -> Result<
    Origin,
    XcmError,
> {
    match kind {
        MultiOrigin::Native => match origin {
            MultiLocation::X1(Junction::Parent) => Ok(Origin::Relay),
            MultiLocation::X2(Junction::Parent, Junction::Parachain { id }) => Ok(
                Origin::SiblingParachain(id),
            ),
            MultiLocation::X1(Junction::AccountId32 { network: MultiNetwork::Polkadot, id }) => Ok(
                Origin::Signed(id),
            ),
            MultiLocation::X1(Junction::AccountId32 { network: MultiNetwork::Any, id }) => Ok(
                Origin::Signed(id),
            ),
            _ => Err(XcmError::Undefined),
        },
        MultiOrigin::Superuser => match origin {
            MultiLocation::X2(Junction::Parent, Junction::Parachain { id }) => if is_system_parachain(
                id,
            ) {
                Ok(Origin::Root)
            } else {
                Err(XcmError::Undefined)
            },
            MultiLocation::X1(Junction::Parent) => Ok(Origin::Root),
            _ => Err(XcmError::Undefined),
        },
        MultiOrigin::SovereignAccount => Err(XcmError::Undefined),
    }
}

/// Converts XCM origins into local dispatch origins.
pub struct LocalOriginConverter;

impl LocalOriginConverter {
    /// The local origin for a message from `origin` that asks for an origin of kind `kind`.
    /// A sovereign-account request is always granted, signed by the account
    /// that the location is punned into.
    pub fn convert_origin(origin: MultiLocation, kind: MultiOrigin) -> (r: Result<
        Origin,
        XcmError,
    >)
        requires
            kind is SovereignAccount ==> location_encodable(origin),
        ensures
            kind is SovereignAccount ==> (r matches Ok(Origin::Signed(a)) && a@ == punned_account(
                origin,
            )),
            !(kind is SovereignAccount) ==> r == privileged_origin(origin, kind),
    {
        match kind {
            MultiOrigin::SovereignAccount => match LocalPunner::punn_from_location(&origin) {
                Some(a) => Ok(Origin::Signed(a)),
                None => Err(XcmError::Undefined),
            },
            MultiOrigin::Native => match origin {
                MultiLocation::X1(Junction::Parent) => Ok(Origin::Relay),
                MultiLocation::X2(Junction::Parent, Junction::Parachain { id }) => Ok(
                    Origin::SiblingParachain(id),
                ),
                MultiLocation::X1(
                    Junction::AccountId32 { network: MultiNetwork::Polkadot, id },
                ) => Ok(Origin::Signed(id)),
                MultiLocation::X1(Junction::AccountId32 { network: MultiNetwork::Any, id }) => Ok(
                    Origin::Signed(id),
                ),
                _ => Err(XcmError::Undefined),
            },
            MultiOrigin::Superuser => match origin {
                MultiLocation::X2(Junction::Parent, Junction::Parachain { id }) => {
                    if para_is_system(id) {
                        Ok(Origin::Root)
                    } else {
                        Err(XcmError::Undefined)
                    }
                },
                MultiLocation::X1(Junction::Parent) => Ok(Origin::Root),
                _ => Err(XcmError::Undefined),
            },
        }
    }
}

/// Only a superuser request is granted root privileges: a sovereign-account
/// request is granted a signed origin, and a native one never root.
pub proof fn lemma_root_only_for_superuser(origin: MultiLocation, kind: MultiOrigin)
    ensures
        privileged_origin(origin, kind) matches Ok(Origin::Root) ==> kind is Superuser,
{
}

/// A 32-byte account on the Polkadot network or on any network signs as
/// the same account whether its sovereign account or its native origin is
/// asked for.
pub proof fn lemma_account_signs_as_itself(network: MultiNetwork, id: AccountId)
    requires
        network is Polkadot || network is Any,
    ensures
        privileged_origin(
            MultiLocation::X1(Junction::AccountId32 { network, id }),
            MultiOrigin::Native,
        ) == Ok::<Origin, XcmError>(Origin::Signed(id)),
        punned_account(MultiLocation::X1(Junction::AccountId32 { network, id })) == id@,
{
}

/// The relay chain and the system parachains are granted root privileges;
/// other parachains are refused them.
pub proof fn lemma_root_locations(id: u32)
    ensures
        privileged_origin(MultiLocation::X1(Junction::Parent), MultiOrigin::Superuser) == Ok::<
            Origin,
            XcmError,
        >(Origin::Root),
        privileged_origin(
            MultiLocation::X2(Junction::Parent, Junction::Parachain { id }),
            MultiOrigin::Superuser,
        ) is Ok <==> is_system_parachain(id),
{
}

/// A native origin is granted exactly to the relay chain, to sibling
/// parachains and to 32-byte accounts on the Polkadot network or on any
/// network; the relay chain gets the relay origin, a sibling its own
/// parachain origin, and an account is signed as itself. Every other
/// location is refused with `Undefined`.
pub proof fn lemma_native_origin_table(o: MultiLocation)
    ensures
        privileged_origin(o, MultiOrigin::Native) is Ok <==> ({
            ||| o matches MultiLocation::X1(Junction::Parent)
            ||| o matches MultiLocation::X2(Junction::Parent, Junction::Parachain { .. })
            ||| o matches MultiLocation::X1(
                Junction::AccountId32 { network: MultiNetwork::Polkadot, .. },
            )
            ||| o matches MultiLocation::X1(Junction::AccountId32 { network: MultiNetwork::Any, .. })
        }),
        privileged_origin(o, MultiOrigin::Native) == Ok::<Origin, XcmError>(Origin::Relay) <==> o
            matches MultiLocation::X1(Junction::Parent),
        privileged_origin(o, MultiOrigin::Native) matches Ok(Origin::SiblingParachain(id)) ==> o
            == MultiLocation::X2(Junction::Parent, Junction::Parachain { id }),
        privileged_origin(o, MultiOrigin::Native) matches Ok(Origin::Signed(a)) ==> (o
            == MultiLocation::X1(Junction::AccountId32 { network: MultiNetwork::Polkadot, id: a })
            || o == MultiLocation::X1(Junction::AccountId32 { network: MultiNetwork::Any, id: a })),
        !(privileged_origin(o, MultiOrigin::Native) matches Ok(Origin::Root)),
        privileged_origin(o, MultiOrigin::Native) is Err ==> privileged_origin(
            o,
            MultiOrigin::Native,
        ) == Err::<Origin, XcmError>(XcmError::Undefined),
{
}

/// Root privileges are granted exactly to superuser requests from the
/// relay chain and from parachains numbered below 2000; a superuser
/// request is granted nothing else, and every refusal is `Undefined`.
pub proof fn lemma_root_origin_table(o: MultiLocation, k: MultiOrigin)
    ensures
        privileged_origin(o, k) == Ok::<Origin, XcmError>(Origin::Root) <==> (k is Superuser && ({
            ||| o matches MultiLocation::X1(Junction::Parent)
            ||| o matches MultiLocation::X2(Junction::Parent, Junction::Parachain { id }) && id < 2000
        })),
        k is Superuser && privileged_origin(o, k) is Ok ==> privileged_origin(o, k) == Ok::<
            Origin,
            XcmError,
        >(Origin::Root),
        privileged_origin(o, k) is Err ==> privileged_origin(o, k) == Err::<Origin, XcmError>(
            XcmError::Undefined,
        ),
{
}

} // verus!
