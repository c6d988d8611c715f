//! Price feed data model: sources, price observations, feed configurations
//! and valuations.

use crate::decimal::{Decimal, DecimalView};
use crate::timestamp::Timestamp;
use vstd::prelude::*;

verus! {

/// Where a price observation comes from.
#[derive(Debug, Clone, Copy, PartialEq, Eq, Structural)]
pub enum PriceFeedSource {
    Pyth,
    Chainlink,
    Custom,
}

impl PriceFeedSource {
    /// The lower-case tag under which the source is stored and exchanged.
    pub open spec fn tag(self) -> Seq<char> {
        match self {
            PriceFeedSource::Pyth => "pyth"@,
            PriceFeedSource::Chainlink => "chainlink"@,
            PriceFeedSource::Custom => "custom"@,
        }
    }

    pub fn as_str(&self) -> (tag: &'static str)
        ensures
            tag@ == self.tag(),
    {
        match self {
            PriceFeedSource::Pyth => "pyth",
            PriceFeedSource::Chainlink => "chainlink",
            PriceFeedSource::Custom => "custom",
        }
    }
}

/// Distinct sources have distinct tags.
pub proof fn lemma_tag_injective(a: PriceFeedSource, b: PriceFeedSource)
    ensures
        a.tag() == b.tag() <==> a == b,
{
    reveal_strlit("pyth");
    reveal_strlit("chainlink");
    reveal_strlit("custom");
    if a != b {
        assert(a.tag().len() != b.tag().len());
    }
}

/// One observation of an asset's price. Once recorded it never changes: a
/// new observation is a new value.
#[derive(Debug)]
pub struct AssetPrice {
    pub asset_code: String,
    pub price: Decimal,
    pub timestamp: Timestamp,
    pub source: String,
}

/// The mathematical content of an [`AssetPrice`].
pub struct AssetPriceView {
    pub asset_code: Seq<char>,
    pub price: DecimalView,
    pub timestamp: Timestamp,
    pub source: Seq<char>,
}

impl View for AssetPrice {
    type V = AssetPriceView;

    open spec fn view(&self) -> AssetPriceView {
        AssetPriceView {
            asset_code: self.asset_code@,
            price: self.price@,
            timestamp: self.timestamp,
            source: self.source@,
        }
    }
}

impl Clone for AssetPrice {
    fn clone(&self) -> (copy: AssetPrice)
        ensures
            copy == *self,
    {
        AssetPrice {
            asset_code: self.asset_code.clone(),
            price: self.price,
            timestamp: self.timestamp,
            source: self.source.clone(),
        }
    }
}

/// The view of an optional price.
pub open spec fn price_view(price: Option<AssetPrice>) -> Option<AssetPriceView> {
    match price {
        Some(p) => Some(p@),
        None => None,
    }
}

/// The registration of a price feed for one asset.
#[derive(Debug)]
pub struct PriceFeedConfig {
    pub id: u128,
    pub asset_code: String,
    pub source: String,
    pub feed_id: String,
    pub is_active: bool,
    pub last_updated: Option<Timestamp>,
}

/// The mathematical content of a [`PriceFeedConfig`].
pub struct PriceFeedConfigView {
    pub id: u128,
    pub asset_code: Seq<char>,
    pub source: Seq<char>,
    pub feed_id: Seq<char>,
    pub is_active: bool,
    pub last_updated: Option<Timestamp>,
}

impl View for PriceFeedConfig {
    type V = PriceFeedConfigView;

    open spec fn view(&self) -> PriceFeedConfigView {
        PriceFeedConfigView {
            id: self.id,
            asset_code: self.asset_code@,
            source: self.source@,
            feed_id: self.feed_id@,
            is_active: self.is_active,
            last_updated: self.last_updated,
        }
    }
}

impl Clone for PriceFeedConfig {
    fn clone(&self) -> (copy: PriceFeedConfig)
        ensures
            copy == *self,
    {
        PriceFeedConfig {
            id: self.id,
            asset_code: self.asset_code.clone(),
            source: self.source.clone(),
            feed_id: self.feed_id.clone(),
            is_active: self.is_active,
            last_updated: self.last_updated,
        }
    }
}

/// What a quantity of an asset is worth. It is computed on request from the
/// current price and never stored.
#[derive(Debug)]
pub struct CollateralValuation {
    /// The plan the valuation is for; zero until a caller sets it.
    pub plan_id: u128,
    pub asset_code: String,
    pub amount: Decimal,
    pub current_price: Decimal,
    pub valuation_usd: Decimal,
    /// The collateral ratio in percent.
    pub collateral_ratio: Decimal,
    /// The timestamp of the price that was used.
    pub last_updated: Timestamp,
}

/// The mathematical content of a [`CollateralValuation`].
pub struct CollateralValuationView {
    pub plan_id: u128,
    pub asset_code: Seq<char>,
    pub amount: DecimalView,
    pub current_price: DecimalView,
    pub valuation_usd: DecimalView,
    pub collateral_ratio: DecimalView,
    pub last_updated: Timestamp,
}

impl View for CollateralValuation {
    type V = CollateralValuationView;

    open spec fn view(&self) -> CollateralValuationView {
        CollateralValuationView {
            plan_id: self.plan_id,
            asset_code: self.asset_code@,
            amount: self.amount@,
            current_price: self.current_price@,
            valuation_usd: self.valuation_usd@,
            collateral_ratio: self.collateral_ratio@,
            last_updated: self.last_updated,
        }
    }
}

impl Clone for CollateralValuation {
    fn clone(&self) -> (copy: CollateralValuation)
        ensures
            copy == *self,
    {
        CollateralValuation {
            plan_id: self.plan_id,
            asset_code: self.asset_code.clone(),
            amount: self.amount,
            current_price: self.current_price,
            valuation_usd: self.valuation_usd,
            collateral_ratio: self.collateral_ratio,
            last_updated: self.last_updated,
        }
    }
}

} // verus!
