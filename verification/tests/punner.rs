use contracts_runtime::location::{Junction, MultiLocation, MultiNetwork};
use contracts_runtime::punner::LocalPunner;

fn sibling_account(id: u32) -> [u8; 32] {
    let mut a = [0u8; 32];
    a[..4].copy_from_slice(b"sibl");
    a[4..8].copy_from_slice(&id.to_le_bytes());
    a
}

fn account_id(network: MultiNetwork, id: [u8; 32]) -> MultiLocation {
    MultiLocation::X1(Junction::AccountId32 { network, id })
}

#[test]
fn parent_is_the_default_account() {
    let a = LocalPunner::punn_from_location(&MultiLocation::X1(Junction::Parent));
    assert_eq!(a, Some([0u8; 32]));
}

#[test]
fn sibling_parachain_has_its_sovereign_account() {
    let l = MultiLocation::X2(Junction::Parent, Junction::Parachain { id: 1000 });
    let a = LocalPunner::punn_from_location(&l).unwrap();
    let mut expected = [0u8; 32];
    expected[..8].copy_from_slice(&[0x73, 0x69, 0x62, 0x6c, 0xe8, 0x03, 0x00, 0x00]);
    assert_eq!(a, expected);
    assert_eq!(a, sibling_account(1000));
    assert_eq!(
        LocalPunner::punn_from_location(&MultiLocation::X2(
            Junction::Parent,
            Junction::Parachain { id: 0xdead_beef },
        )),
        Some(sibling_account(0xdead_beef))
    );
}

#[test]
fn polkadot_and_any_accounts_are_themselves() {
    let id = [7u8; 32];
    assert_eq!(LocalPunner::punn_from_location(&account_id(MultiNetwork::Polkadot, id)), Some(id));
    assert_eq!(LocalPunner::punn_from_location(&account_id(MultiNetwork::Any, id)), Some(id));
}

#[test]
fn other_locations_are_hashed() {
    let cases: Vec<(MultiLocation, [u8; 32])> = vec![
        (
            MultiLocation::Null,
            [16, 24, 185, 144, 110, 248, 10, 53, 77, 174, 183, 107, 116, 72, 222, 74, 170, 110, 8,
                72, 254, 107, 103, 31, 220, 4, 16, 70, 234, 166, 168, 69],
        ),
        (
            account_id(MultiNetwork::Kusama, [1u8; 32]),
            [194, 211, 14, 201, 253, 118, 198, 59, 136, 237, 196, 66, 111, 219, 82, 9, 204, 108,
                191, 37, 76, 164, 68, 96, 4, 46, 238, 254, 80, 169, 121, 123],
        ),
        (
            MultiLocation::X1(Junction::Parachain { id: 1000 }),
            [226, 80, 247, 194, 192, 218, 167, 77, 213, 195, 249, 132, 249, 219, 128, 85, 206,
                240, 116, 153, 40, 212, 146, 131, 206, 66, 74, 12, 183, 68, 53, 89],
        ),
        (
            MultiLocation::X1(Junction::GeneralKey(vec![0xaa, 0xbb])),
            [224, 184, 35, 168, 86, 10, 252, 191, 31, 230, 219, 15, 15, 5, 58, 60, 69, 229, 39,
                49, 106, 178, 37, 231, 102, 87, 241, 145, 111, 199, 192, 78],
        ),
        (
            MultiLocation::X1(Junction::GeneralIndex { id: 1u128 << 32 }),
            [84, 91, 36, 12, 147, 143, 149, 66, 20, 223, 7, 165, 178, 100, 19, 216, 199, 124, 93,
                25, 24, 250, 129, 151, 203, 187, 209, 12, 32, 116, 2, 210],
        ),
        (
            MultiLocation::X1(Junction::AccountIndex64 { network: MultiNetwork::Any, index: 16384 }),
            [149, 28, 9, 167, 13, 30, 32, 190, 254, 13, 35, 202, 232, 138, 29, 246, 207, 15, 31,
                26, 216, 89, 107, 177, 66, 163, 204, 124, 29, 175, 232, 144],
        ),
        (
            account_id(MultiNetwork::Named(b"abc".to_vec()), [9u8; 32]),
            [205, 123, 178, 119, 251, 217, 242, 241, 54, 155, 255, 13, 1, 238, 61, 170, 122, 42,
                58, 122, 175, 3, 192, 141, 227, 126, 231, 9, 94, 209, 114, 181],
        ),
        (
            MultiLocation::X4(
                Junction::Parent,
                Junction::OnlyChild,
                Junction::PalletInstance { id: 7 },
                Junction::AccountKey20 { network: MultiNetwork::Kusama, key: [0x11u8; 20] },
            ),
            [12, 106, 4, 173, 221, 165, 179, 34, 145, 52, 185, 208, 69, 0, 149, 220, 121, 80, 186,
                174, 166, 168, 185, 126, 45, 239, 188, 162, 184, 224, 103, 26],
        ),
    ];
    for (location, expected) in cases {
        assert_eq!(LocalPunner::punn_from_location(&location), Some(expected), "{:?}", location);
    }
}

#[test]
fn default_account_is_the_parent() {
    assert_eq!(
        LocalPunner::punn_into_location([0u8; 32]),
        Some(MultiLocation::X1(Junction::Parent))
    );
}

#[test]
fn sovereign_account_is_its_sibling_parachain() {
    assert_eq!(
        LocalPunner::punn_into_location(sibling_account(2004)),
        Some(MultiLocation::X2(Junction::Parent, Junction::Parachain { id: 2004 }))
    );
}

#[test]
fn other_accounts_are_polkadot_accounts() {
    let mut almost_sibling = sibling_account(5);
    almost_sibling[31] = 1;
    for who in [[3u8; 32], almost_sibling] {
        assert_eq!(
            LocalPunner::punn_into_location(who),
            Some(account_id(MultiNetwork::Polkadot, who))
        );
    }
}

#[test]
fn account_round_trip() {
    let mut almost_sibling = sibling_account(5);
    almost_sibling[20] = 9;
    for who in [[0u8; 32], [0xffu8; 32], sibling_account(0), sibling_account(u32::MAX), almost_sibling] {
        let location = LocalPunner::punn_into_location(who).unwrap();
        assert_eq!(LocalPunner::punn_from_location(&location), Some(who));
    }
}

#[test]
fn location_round_trip() {
    let locations = vec![
        MultiLocation::X1(Junction::Parent),
        MultiLocation::X2(Junction::Parent, Junction::Parachain { id: 0 }),
        MultiLocation::X2(Junction::Parent, Junction::Parachain { id: 3000 }),
        account_id(MultiNetwork::Polkadot, [5u8; 32]),
    ];
    for location in locations {
        let who = LocalPunner::punn_from_location(&location).unwrap();
        assert_eq!(LocalPunner::punn_into_location(who), Some(location));
    }
}

#[test]
fn any_network_account_comes_back_on_polkadot() {
    let who = LocalPunner::punn_from_location(&account_id(MultiNetwork::Any, [5u8; 32])).unwrap();
    assert_eq!(
        LocalPunner::punn_into_location(who),
        Some(account_id(MultiNetwork::Polkadot, [5u8; 32]))
    );
}
