use contracts_runtime::location::{Junction, MultiLocation, MultiNetwork, MultiOrigin};
use contracts_runtime::origin::{LocalOriginConverter, Origin, XcmError};
use contracts_runtime::punner::LocalPunner;

fn parachain(id: u32) -> MultiLocation {
    MultiLocation::X2(Junction::Parent, Junction::Parachain { id })
}

fn account_id(network: MultiNetwork, id: [u8; 32]) -> MultiLocation {
    MultiLocation::X1(Junction::AccountId32 { network, id })
}

#[test]
fn sovereign_account_is_always_signed() {
    let locations = vec![
        MultiLocation::Null,
        MultiLocation::X1(Junction::Parent),
        parachain(7),
        account_id(MultiNetwork::Kusama, [4u8; 32]),
        MultiLocation::X1(Junction::GeneralKey(vec![1, 2, 3])),
    ];
    for location in locations {
        let expected = LocalPunner::punn_from_location(&location).unwrap();
        assert_eq!(
            LocalOriginConverter::convert_origin(location, MultiOrigin::SovereignAccount),
            Ok(Origin::Signed(expected))
        );
    }
}

#[test]
fn native_origins() {
    let c = |l| LocalOriginConverter::convert_origin(l, MultiOrigin::Native);
    assert_eq!(c(MultiLocation::X1(Junction::Parent)), Ok(Origin::Relay));
    assert_eq!(c(parachain(2000)), Ok(Origin::SiblingParachain(2000)));
    assert_eq!(c(account_id(MultiNetwork::Polkadot, [8u8; 32])), Ok(Origin::Signed([8u8; 32])));
    assert_eq!(c(account_id(MultiNetwork::Any, [8u8; 32])), Ok(Origin::Signed([8u8; 32])));
    assert_eq!(c(account_id(MultiNetwork::Kusama, [8u8; 32])), Err(XcmError::Undefined));
    assert_eq!(c(MultiLocation::Null), Err(XcmError::Undefined));
    assert_eq!(c(MultiLocation::X1(Junction::Parachain { id: 1 })), Err(XcmError::Undefined));
}

#[test]
fn superuser_origins() {
    let c = |l| LocalOriginConverter::convert_origin(l, MultiOrigin::Superuser);
    assert_eq!(c(MultiLocation::X1(Junction::Parent)), Ok(Origin::Root));
    assert_eq!(c(parachain(0)), Ok(Origin::Root));
    assert_eq!(c(parachain(1000)), Ok(Origin::Root));
    assert_eq!(c(parachain(1999)), Ok(Origin::Root));
    assert_eq!(c(parachain(2000)), Err(XcmError::Undefined));
    assert_eq!(c(account_id(MultiNetwork::Polkadot, [8u8; 32])), Err(XcmError::Undefined));
    assert_eq!(c(MultiLocation::Null), Err(XcmError::Undefined));
}

#[test]
fn account_signs_as_itself_for_both_kinds() {
    for network in [MultiNetwork::Polkadot, MultiNetwork::Any] {
        let l = account_id(network, [6u8; 32]);
        assert_eq!(
            LocalOriginConverter::convert_origin(l.clone(), MultiOrigin::Native),
            LocalOriginConverter::convert_origin(l, MultiOrigin::SovereignAccount)
        );
    }
}
