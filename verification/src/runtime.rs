//! The part of the runtime's dispatchable calls that the engine submits.

use vstd::prelude::*;
use crate::account::AccountId;

verus! {

/// `Clone::clone` of std's `Range`. Nothing is claimed of the copy.
pub assume_specification<Idx>[ <core::ops::Range<Idx> as Clone>::clone ](
    range: &core::ops::Range<Idx>,
) -> core::ops::Range<Idx> where Idx: Clone
;

/// `Clone::clone` of std's `RangeInclusive`. Nothing is claimed of the copy.
pub assume_specification<Idx>[ <core::ops::RangeInclusive<Idx> as Clone>::clone ](
    range: &core::ops::RangeInclusive<Idx>,
) -> core::ops::RangeInclusive<Idx> where Idx: Clone
;

/// An asset of the chain.
#[derive(Debug, Clone, Copy, PartialEq, Eq, Structural)]
pub enum ZeitgeistAsset {
    CategoricalOutcome,
    ScalarOutcome,
    CombinatorialOutcome,
    PoolShare,
    Ztg,
    ForeignAsset(u32),
}

/// How disputes over a market's outcome are settled.
#[derive(Debug, Clone, Copy, PartialEq, Eq, Structural)]
pub enum MarketDisputeMechanism {
    Authorized,
    Court,
    SimpleDisputes,
}

#[derive(Debug, Clone, PartialEq)]
pub enum MarketType {
    /// A market with a number of categorical outcomes.
    Categorical(u16),
    /// A market with a range of potential outcomes.
    Scalar(core::ops::RangeInclusive<u128>),
}

#[derive(Debug, Clone, PartialEq)]
pub enum MultiHash {
    Sha3_384([u8; 50]),
}

#[derive(Debug, Clone, PartialEq)]
pub struct Deadlines<BN> {
    pub grace_period: BN,
    pub oracle_duration: BN,
    pub dispute_duration: BN,
}

#[derive(Debug, Clone, PartialEq)]
pub enum MarketPeriod<BN, M> {
    Block(core::ops::Range<BN>),
    Timestamp(core::ops::Range<M>),
}

/// The metadata hash of the market that `test_create_market` asks for.
pub const MARKET_METADATA: [u8; 50] = [
    0x15, 0x30, 0x74, 0x0b, 0x1c, 0x25, 0x97, 0x6a, 0x79, 0xa1,
    0xd5, 0xe7, 0x5e, 0xfa, 0xb7, 0x70, 0x59, 0x61, 0x7c, 0xa2,
    0x26, 0x60, 0xe4, 0x3b, 0x2a, 0xa0, 0x5a, 0xe1, 0x4a, 0x59,
    0x94, 0xf9, 0xda, 0x2d, 0x9d, 0x71, 0xe4, 0x47, 0x37, 0x77,
    0xdd, 0x3d, 0x59, 0xac, 0x8c, 0x9a, 0x46, 0x1c, 0x7a, 0x68,
];

/// A call into the system pallet.
#[derive(Debug, Clone, PartialEq)]
pub enum SystemCall {
    /// Leave a remark on chain, with an event.
    RemarkWithEvent { remark: Vec<u8> },
}

/// A call into the asset manager.
#[derive(Debug, Clone, Copy, PartialEq)]
pub enum AssetManagerCall {
    /// Move `amount` of `currency_id` from the engine's account to `dest`.
    Transfer { dest: AccountId, currency_id: ZeitgeistAsset, amount: u128 },
}

/// A call into the prediction markets pallet.
#[derive(Debug, Clone, PartialEq)]
pub enum PredictionMarketsCall {
    CreateCpmmMarketAndDeployAssets {
        base_asset: ZeitgeistAsset,
        creator_fee: u32,
        oracle: AccountId,
        period: MarketPeriod<u64, u64>,
        deadlines: Deadlines<u64>,
        metadata: MultiHash,
        market_type: MarketType,
        dispute_mechanism: MarketDisputeMechanism,
        swap_fee: u128,
        amount: u128,
        weights: Vec<u128>,
    },
}

/// A request to the runtime: the privileged operation that the host is to
/// dispatch on the engine's behalf.
#[derive(Debug, Clone, PartialEq)]
pub enum RuntimeCall {
    System(SystemCall),
    AssetManager(AssetManagerCall),
    PredictionMarkets(PredictionMarketsCall),
}

/// What a `SystemCall` asks for.
pub enum SystemCallView {
    RemarkWithEvent { remark: Seq<u8> },
}

/// What a `PredictionMarketsCall` asks for.
pub enum PredictionMarketsCallView {
    CreateCpmmMarketAndDeployAssets {
        base_asset: ZeitgeistAsset,
        creator_fee: u32,
        oracle: AccountId,
        period: MarketPeriod<u64, u64>,
        deadlines: Deadlines<u64>,
        metadata: MultiHash,
        market_type: MarketType,
        dispute_mechanism: MarketDisputeMechanism,
        swap_fee: u128,
        amount: u128,
        weights: Seq<u128>,
    },
}

/// What a `RuntimeCall` asks for.
pub enum RuntimeCallView {
    System(SystemCallView),
    AssetManager(AssetManagerCall),
    PredictionMarkets(PredictionMarketsCallView),
}

impl View for SystemCall {
    type V = SystemCallView;

    open spec fn view(&self) -> SystemCallView {
        match *self {
            SystemCall::RemarkWithEvent { remark } => SystemCallView::RemarkWithEvent {
                remark: remark@,
            },
        }
    }
}

impl View for PredictionMarketsCall {
    type V = PredictionMarketsCallView;

    open spec fn view(&self) -> PredictionMarketsCallView {
        match *self {
            PredictionMarketsCall::CreateCpmmMarketAndDeployAssets {
                base_asset,
                creator_fee,
                oracle,
                period,
                deadlines,
                metadata,
                market_type,
                dispute_mechanism,
                swap_fee,
                amount,
                weights,
            } => PredictionMarketsCallView::CreateCpmmMarketAndDeployAssets {
                base_asset,
                creator_fee,
                oracle,
                period,
                deadlines,
                metadata,
                market_type,
                dispute_mechanism,
                swap_fee,
                amount,
                weights: weights@,
            },
        }
    }
}

impl View for RuntimeCall {
    type V = RuntimeCallView;

    open spec fn view(&self) -> RuntimeCallView {
        match *self {
            RuntimeCall::System(call) => RuntimeCallView::System(call@),
            RuntimeCall::AssetManager(call) => RuntimeCallView::AssetManager(call),
            RuntimeCall::PredictionMarkets(call) => RuntimeCallView::PredictionMarkets(call@),
        }
    }
}

/// The views of a sequence of calls, in order.
pub open spec fn call_views(calls: Seq<RuntimeCall>) -> Seq<RuntimeCallView> {
    calls.map_values(|call: RuntimeCall| call@)
}

/// The request to move `amount` of the native asset to `dest`.
pub open spec fn transfer_call(dest: AccountId, amount: u128) -> RuntimeCallView {
    RuntimeCallView::AssetManager(
        AssetManagerCall::Transfer { dest, currency_id: ZeitgeistAsset::Ztg, amount },
    )
}

/// The request to leave `remark` on chain.
pub open spec fn remark_call(remark: Seq<u8>) -> RuntimeCallView {
    RuntimeCallView::System(SystemCallView::RemarkWithEvent { remark })
}

/// The request for a categorical market with two outcomes that is open from
/// the block after `block_number` for 149 blocks, with `oracle` as its oracle.
pub open spec fn create_market_call(oracle: AccountId, block_number: u32) -> RuntimeCallView {
    RuntimeCallView::PredictionMarkets(
        PredictionMarketsCallView::CreateCpmmMarketAndDeployAssets {
            base_asset: ZeitgeistAsset::Ztg,
            creator_fee: 1000,
            oracle,
            period: MarketPeriod::Block(
                core::ops::Range {
                    start: (block_number + 1) as u64,
                    end: (block_number + 150) as u64,
                },
            ),
            deadlines: Deadlines {
                grace_period: 0,
                oracle_duration: 28_800,
                dispute_duration: 28_800,
            },
            metadata: MultiHash::Sha3_384(MARKET_METADATA),
            market_type: MarketType::Categorical(2),
            dispute_mechanism: MarketDisputeMechanism::Authorized,
            swap_fee: 10000,
            amount: 1000,
            weights: seq![0u128, 1u128],
        },
    )
}

impl RuntimeCall {
    /// The request to move `amount` of the native asset to `dest`.
    pub fn transfer(dest: AccountId, amount: u128) -> (call: RuntimeCall)
        ensures
            call@ == transfer_call(dest, amount),
    {
        RuntimeCall::AssetManager(
            AssetManagerCall::Transfer { dest, currency_id: ZeitgeistAsset::Ztg, amount },
        )
    }

    /// The request to leave a copy of `remark` on chain.
    pub fn remark(remark: &Vec<u8>) -> (call: RuntimeCall)
        ensures
            call@ == remark_call(remark@),
    {
        RuntimeCall::System(SystemCall::RemarkWithEvent { remark: remark.clone() })
    }

    /// The request to create the sample market.
    pub fn create_market(oracle: AccountId, block_number: u32) -> (call: RuntimeCall)
        requires
            block_number + 150 <= u32::MAX,
        ensures
            call@ == create_market_call(oracle, block_number),
    {
        let mut weights: Vec<u128> = Vec::new();
        weights.push(0);
        weights.push(1);
        assert(weights@ =~= seq![0u128, 1u128]);
        RuntimeCall::PredictionMarkets(
            PredictionMarketsCall::CreateCpmmMarketAndDeployAssets {
                base_asset: ZeitgeistAsset::Ztg,
                creator_fee: 1000,
                oracle,
                period: MarketPeriod::Block(
                    core::ops::Range {
                        start: (block_number + 1) as u64,
                        end: (block_number + 150) as u64,
                    },
                ),
                deadlines: Deadlines {
                    grace_period: 0,
                    oracle_duration: 28_800,
                    dispute_duration: 28_800,
                },
                metadata: MultiHash::Sha3_384(MARKET_METADATA),
                market_type: MarketType::Categorical(2),
                dispute_mechanism: MarketDisputeMechanism::Authorized,
                swap_fee: 10000,
                amount: 1000,
                weights,
            },
        )
    }
}

} // verus!
