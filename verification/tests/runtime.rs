use contracts_runtime::location::{Junction, MultiLocation, MultiNetwork};
use contracts_runtime::runtime::{
    contract_exec_result, maximum_extrinsic_weight, native_version, polkadot_network,
    roc_location, version, ContractExecResult, ExecReturnValue, XCMPMessage, DAYS,
    EPOCH_DURATION_IN_BLOCKS, HOURS, MAXIMUM_BLOCK_WEIGHT, MILLISECS_PER_BLOCK, MINIMUM_PERIOD,
    MINUTES, PRIMARY_PROBABILITY, SLOT_DURATION,
};

#[test]
fn time_units_in_blocks() {
    assert_eq!(MINUTES, 10);
    assert_eq!(HOURS, 600);
    assert_eq!(DAYS, 14_400);
    assert_eq!(EPOCH_DURATION_IN_BLOCKS, 100);
    assert_eq!(MINUTES as u64 * MILLISECS_PER_BLOCK, 60_000);
    assert_eq!(SLOT_DURATION, 6000);
    assert_eq!(MINIMUM_PERIOD, 3000);
    assert_eq!(PRIMARY_PROBABILITY, (1, 4));
}

#[test]
fn extrinsic_weight_is_sixty_five_percent_of_block_weight() {
    assert_eq!(MAXIMUM_BLOCK_WEIGHT, 2_000_000_000_000);
    assert_eq!(maximum_extrinsic_weight(), 1_300_000_000_000);
}

#[test]
fn runtime_version() {
    let v = version();
    assert_eq!(v.spec_name, "cumulus-contracts-parachain");
    assert_eq!(v.impl_name, "cumulus-contracts-parachain");
    assert_eq!((v.authoring_version, v.spec_version, v.impl_version, v.transaction_version), (1, 4, 1, 1));
    let n = native_version();
    assert_eq!(n.runtime_version, v);
    assert!(n.can_author_with.is_empty());
}

#[test]
fn xcm_settings() {
    assert_eq!(roc_location(), MultiLocation::X1(Junction::Parent));
    assert_eq!(polkadot_network(), MultiNetwork::Polkadot);
}

#[test]
fn contract_call_results() {
    let ok: Result<ExecReturnValue, ()> = Ok(ExecReturnValue { status: 1, data: vec![1, 2] });
    assert_eq!(
        contract_exec_result(ok, 77),
        ContractExecResult::Success { flags: 1, data: vec![1, 2], gas_consumed: 77 }
    );
    let err: Result<ExecReturnValue, &str> = Err("trapped");
    assert_eq!(contract_exec_result(err, 77), ContractExecResult::Error);
}

#[test]
fn xcmp_message_holds_its_fields() {
    let m: XCMPMessage<[u8; 32], u128> = XCMPMessage::TransferToken([1; 32], 10);
    let XCMPMessage::TransferToken(to, amount) = m;
    assert_eq!((to, amount), ([1; 32], 10));
}
