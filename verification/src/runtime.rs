//! The runtime's configuration: its version, its time units in blocks,
//! its block limits and fees, the XCM executor's settings, and the value
//! a contract call reports.

use crate::location::{Junction, MultiLocation, MultiNetwork};
use sp_runtime::traits::Saturating;
use sp_runtime::Perbill;
use std::collections::HashSet;
use vstd::prelude::*;

verus! {

/// Milliseconds per block.
pub const MILLISECS_PER_BLOCK: u64 = 6000;

/// The duration of a slot, in milliseconds: one block.
pub const SLOT_DURATION: u64 = MILLISECS_PER_BLOCK;

/// The number of blocks in a minute.
pub const MINUTES: u32 = 10;

/// The number of blocks in an hour.
pub const HOURS: u32 = MINUTES * 60;

/// The number of blocks in a day.
pub const DAYS: u32 = HOURS * 24;

/// The length of an epoch, in blocks.
pub const EPOCH_DURATION_IN_BLOCKS: u32 = 10 * MINUTES;

/// The chance of a block being a primary BABE block (1 in 4), as numerator and denominator.
pub const PRIMARY_PROBABILITY: (u64, u64) = (1, 4);

/// Weight of one second of execution (`frame_support`'s `WEIGHT_PER_SECOND`).
pub const WEIGHT_PER_SECOND: u64 = 1_000_000_000_000;

/// The number of block-number-to-hash mappings kept.
pub const BLOCK_HASH_COUNT: u32 = 250;

/// The maximum weight of a block: two seconds of execution.
pub const MAXIMUM_BLOCK_WEIGHT: u64 = 2 * WEIGHT_PER_SECOND;

/// The share of a block's weight and length available to normal transactions, in percent.
pub const AVAILABLE_BLOCK_RATIO_PERCENT: u32 = 75;

/// The share of a block's weight assumed to go to `on_initialize` calls, in percent.
pub const ON_INITIALIZE_RATIO_PERCENT: u32 = 10;

/// The maximum length of a block, in bytes.
pub const MAXIMUM_BLOCK_LENGTH: u32 = 5 * 1024 * 1024;

/// The base weight of an extrinsic.
pub const EXTRINSIC_BASE_WEIGHT: u64 = 10_000_000;

/// The minimum period between blocks, in milliseconds: half a slot.
pub const MINIMUM_PERIOD: u64 = SLOT_DURATION / 2;

/// The minimum balance an account must keep.
pub const EXISTENTIAL_DEPOSIT: u128 = 500;

/// The fee of a transfer.
pub const TRANSFER_FEE: u128 = 0;

/// The fee of creating an account.
pub const CREATION_FEE: u128 = 0;

/// The fee per byte of a transaction.
pub const TRANSACTION_BYTE_FEE: u128 = 1;

/// The deposit that a contract tombstone keeps (rent is disabled).
pub const TOMBSTONE_DEPOSIT: u128 = 0;

/// The rent per byte of contract storage (rent is disabled).
pub const RENT_BYTE_FEE: u128 = 0;

/// The rent deposit offset of contracts (rent is disabled).
pub const RENT_DEPOSIT_OFFSET: u128 = 0;

/// The reward for evicting a contract (rent is disabled).
pub const SURCHARGE_REWARD: u128 = 0;

/// The parts per billion of `Perbill::from_percent(x)`.
pub open spec fn perbill_from_percent_parts(x: u32) -> u32 {
    if x > 100 {
        1_000_000_000
    } else {
        (x * 10_000_000) as u32
    }
}

/// `p` parts per billion of `x`, rounded to the nearest integer, a tie rounding down.
pub open spec fn perbill_of(p: u32, x: u64) -> int {
    (x * p) / 1_000_000_000 + if (x * p) % 1_000_000_000 > 500_000_000 {
        1int
    } else {
        0int
    }
}

/// The parts per billion of `Perbill::from_percent(x)` of `sp_runtime`,
/// which by its source are `min(x, 100) * 10_000_000`.
#[verifier::external_body]
fn perbill_from_percent(x: u32) -> (parts: u32)
    ensures
        parts == perbill_from_percent_parts(x),
{
    Perbill::from_percent(x).deconstruct()
}

/// The parts per billion of `Perbill::saturating_sub` of `sp_runtime` on
/// `a` and `b` parts, which by its source are `a - b`, or zero when `b > a`.
#[verifier::external_body]
fn perbill_saturating_sub(a: u32, b: u32) -> (parts: u32)
    requires
        a <= 1_000_000_000,
    ensures
        parts == (if b > a {
            0
        } else {
            a - b
        }),
{
    Perbill::from_parts(a).saturating_sub(Perbill::from_parts(b)).deconstruct()
}

/// `Perbill * x` of `sp_runtime` for `p` parts per billion, which by its
/// source rounds to the nearest integer, a tie rounding down.
#[verifier::external_body]
fn perbill_mul(p: u32, x: u64) -> (r: u64)
    requires
        p <= 1_000_000_000,
    ensures
        r == perbill_of(p, x),
{
    Perbill::from_parts(p) * x
}

/// The maximum weight of an extrinsic: the available block ratio less the
/// share assumed for `on_initialize` calls, applied to the maximum block weight.
pub fn maximum_extrinsic_weight() -> (w: u64)
    ensures
        w == 1_300_000_000_000,
        w == perbill_of(
            (perbill_from_percent_parts(AVAILABLE_BLOCK_RATIO_PERCENT) - perbill_from_percent_parts(
                ON_INITIALIZE_RATIO_PERCENT,
            )) as u32,
            MAXIMUM_BLOCK_WEIGHT,
        ),
{
    let ratio = perbill_saturating_sub(
        perbill_from_percent(AVAILABLE_BLOCK_RATIO_PERCENT),
        perbill_from_percent(ON_INITIALIZE_RATIO_PERCENT),
    );
    assert(MAXIMUM_BLOCK_WEIGHT * 650_000_000u64 == 1_300_000_000_000_000_000_000int);
    perbill_mul(ratio, MAXIMUM_BLOCK_WEIGHT)
}

/// The location of the relay chain's native token: the parent.
pub fn roc_location() -> (l: MultiLocation)
    ensures
        l == MultiLocation::X1(Junction::Parent),
{
    MultiLocation::X1(Junction::Parent)
}

/// The network this chain belongs to: Polkadot.
pub fn polkadot_network() -> (n: MultiNetwork)
    ensures
        n == MultiNetwork::Polkadot,
{
    MultiNetwork::Polkadot
}

/// The version information of this runtime. The list of runtime APIs and
/// their versions, which the runtime-API macro assembles when the runtime
/// is built, is not part of this value.
#[derive(Clone, Debug, PartialEq, Eq)]
pub struct RuntimeVersion {
    /// The name of the runtime's specification.
    pub spec_name: &'static str,
    /// The name of the implementation.
    pub impl_name: &'static str,
    /// The version of the authorship interface.
    pub authoring_version: u32,
    /// The version of the runtime's specification.
    pub spec_version: u32,
    /// The version of the implementation.
    pub impl_version: u32,
    /// The version of the extrinsic format.
    pub transaction_version: u32,
}

/// The version information of a runtime compiled natively.
#[derive(Debug)]
pub struct NativeVersion {
    /// The runtime's version.
    pub runtime_version: RuntimeVersion,
    /// The `spec_version`s of the runtimes this native runtime may author blocks for.
    pub can_author_with: HashSet<u32>,
}

/// This runtime's version: the "cumulus-contracts-parachain" specification, version 4.
pub fn version() -> (v: RuntimeVersion)
    ensures
        v.spec_name@ == "cumulus-contracts-parachain"@,
        v.impl_name@ == "cumulus-contracts-parachain"@,
        v.authoring_version == 1,
        v.spec_version == 4,
        v.impl_version == 1,
        v.transaction_version == 1,
{
    RuntimeVersion {
        spec_name: "cumulus-contracts-parachain",
        impl_name: "cumulus-contracts-parachain",
        authoring_version: 1,
        spec_version: 4,
        impl_version: 1,
        transaction_version: 1,
    }
}

/// The version information used to identify this runtime when compiled
/// natively: this runtime's version, authoring for no other runtime.
pub fn native_version() -> (v: NativeVersion)
    ensures
        v.runtime_version.spec_name@ == "cumulus-contracts-parachain"@,
        v.runtime_version.impl_name@ == "cumulus-contracts-parachain"@,
        v.runtime_version.authoring_version == 1,
        v.runtime_version.spec_version == 4,
        v.runtime_version.impl_version == 1,
        v.runtime_version.transaction_version == 1,
        v.can_author_with@ == Set::<u32>::empty(),
{
    NativeVersion { runtime_version: version(), can_author_with: HashSet::new() }
}

/// A message between parachains of this network.
#[derive(Clone, Debug, PartialEq, Eq)]
pub enum XCMPMessage<XAccountId, XBalance> {
    /// Transfer tokens to the given account from the parachain account.
    TransferToken(XAccountId, XBalance),
}

/// The XCM executor configuration of this runtime. Its settings are
/// wired together with the runtime, outside this library; of them, this
/// library holds the location conversions (`LocalPunner`) and the origin
/// conversion (`LocalOriginConverter`) they use.
pub struct XcmConfig;

/// What a contract call returned, as the contracts pallet reports it.
#[derive(Clone, Debug, PartialEq, Eq)]
pub struct ExecReturnValue {
    /// The status code the contract exited with.
    pub status: u8,
    /// The output data of the contract.
    pub data: Vec<u8>,
}

/// The result of a contract call as the runtime API reports it.
#[derive(Clone, Debug, PartialEq, Eq)]
pub enum ContractExecResult {
    /// The call ran to completion.
    Success {
        /// The status code the contract exited with.
        flags: u32,
        /// The output data of the contract.
        data: Vec<u8>,
        /// The gas the call consumed.
        gas_consumed: u64,
    },
    /// The call failed.
    Error,
}

/// The runtime API's report of a contract call that ended with
/// `exec_result` after consuming `gas_consumed`: the status, output and
/// gas of a completed call, or a bare error for a failed one.
pub fn contract_exec_result<E>(exec_result: Result<ExecReturnValue, E>, gas_consumed: u64) -> (r:
    ContractExecResult)
    ensures
        match exec_result {
            Ok(v) => r == (ContractExecResult::Success {
                flags: v.status as u32,
                data: v.data,
                gas_consumed,
            }),
            Err(_) => r is Error,
        },
{
    match exec_result {
        Ok(v) => ContractExecResult::Success {
            flags: v.status as u32,
            data: v.data,
            gas_consumed: gas_consumed,
        },
        Err(_) => ContractExecResult::Error,
    }
}

/// The time units agree with the block time: a minute of blocks lasts
/// sixty seconds, an hour is sixty minutes, a day is twenty-four hours,
/// an epoch is ten minutes, and the minimum period is half a slot.
pub proof fn lemma_time_units()
    ensures
        MINUTES * MILLISECS_PER_BLOCK == 60_000,
        HOURS == 60 * MINUTES,
        DAYS == 24 * HOURS,
        EPOCH_DURATION_IN_BLOCKS == 10 * MINUTES,
        SLOT_DURATION == MILLISECS_PER_BLOCK,
        2 * MINIMUM_PERIOD == SLOT_DURATION,
{
}

} // verus!
