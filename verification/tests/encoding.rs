use contracts_runtime::encoding::{encode_location_to, is_location_encodable};
use contracts_runtime::location::{Junction, MultiLocation, MultiNetwork};

fn encode(l: &MultiLocation) -> Vec<u8> {
    let mut out = vec![0xee];
    encode_location_to(l, &mut out);
    assert_eq!(out[0], 0xee);
    out.split_off(1)
}

#[test]
fn compact_integers() {
    let para = |id| encode(&MultiLocation::X1(Junction::Parachain { id }));
    assert_eq!(para(0), vec![1, 1, 0x00]);
    assert_eq!(para(63), vec![1, 1, 0xfc]);
    assert_eq!(para(64), vec![1, 1, 0x01, 0x01]);
    assert_eq!(para(16383), vec![1, 1, 0xfd, 0xff]);
    assert_eq!(para(16384), vec![1, 1, 0x02, 0x00, 0x01, 0x00]);
    assert_eq!(para((1 << 30) - 1), vec![1, 1, 0xfe, 0xff, 0xff, 0xff]);
    assert_eq!(para(1 << 30), vec![1, 1, 0x03, 0x00, 0x00, 0x00, 0x40]);
    assert_eq!(para(u32::MAX), vec![1, 1, 0x03, 0xff, 0xff, 0xff, 0xff]);
    let index = |index| {
        encode(&MultiLocation::X1(Junction::AccountIndex64 { network: MultiNetwork::Kusama, index }))
    };
    assert_eq!(index(1), vec![1, 3, 3, 0x04]);
    assert_eq!(index(u64::MAX), vec![1, 3, 3, 0x13, 0xff, 0xff, 0xff, 0xff, 0xff, 0xff, 0xff, 0xff]);
    let general = |id| encode(&MultiLocation::X1(Junction::GeneralIndex { id }));
    assert_eq!(general(1 << 40), vec![1, 6, 0x0b, 0, 0, 0, 0, 0, 1]);
}

#[test]
fn byte_strings_and_fixed_arrays() {
    assert_eq!(
        encode(&MultiLocation::X1(Junction::GeneralKey(vec![]))),
        vec![1, 7, 0x00]
    );
    assert_eq!(
        encode(&MultiLocation::X1(Junction::GeneralKey(vec![5; 64]))),
        [vec![1, 7, 0x01, 0x01], vec![5; 64]].concat()
    );
    assert_eq!(
        encode(&MultiLocation::X1(Junction::AccountId32 {
            network: MultiNetwork::Named(b"xy".to_vec()),
            id: [2; 32],
        })),
        [vec![1, 2, 1, 0x08, b'x', b'y'], vec![2; 32]].concat()
    );
}

#[test]
fn paths_of_every_length() {
    assert_eq!(encode(&MultiLocation::Null), vec![0]);
    assert_eq!(
        encode(&MultiLocation::X2(Junction::Parent, Junction::Parachain { id: 1000 })),
        vec![2, 0, 1, 0xa1, 0x0f]
    );
    assert_eq!(
        encode(&MultiLocation::X3(
            Junction::OnlyChild,
            Junction::PalletInstance { id: 9 },
            Junction::Parent,
        )),
        vec![3, 8, 5, 9, 0]
    );
}

#[test]
fn short_byte_strings_are_encodable() {
    assert!(is_location_encodable(&MultiLocation::Null));
    assert!(is_location_encodable(&MultiLocation::X2(
        Junction::GeneralKey(vec![1; 100]),
        Junction::AccountKey20 { network: MultiNetwork::Named(vec![2; 10]), key: [0; 20] },
    )));
}
