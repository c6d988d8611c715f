//! Rows of a relational price store, turned into values of the data model.
//!
//! A relational store hands out prices and timestamps as text. The functions
//! here decide what a row, or the lack of one, means: a missing price is
//! `NotFound`, text that is no number or no timestamp is `Internal`, and a
//! feed whose last update cannot be read has none.

use crate::api_error::{unit_result_view, ApiError, ApiErrorView};
use crate::decimal::{option_view, parsed_decimal, Decimal, DecimalView};
use crate::price_feed::{AssetPrice, AssetPriceView, PriceFeedConfig, PriceFeedConfigView};
use crate::price_feed_service::{
    custom_source, feed_not_found_text, observation, price_result_view,
};
use crate::price_store::{price_not_found_text, price_not_positive_text};
use crate::text::join;
use crate::timestamp::{parsed_rfc3339, timestamp_of, Timestamp};
use vstd::prelude::*;
use vstd::string::*;

verus! {

/// A row of the price history: price, timestamp and source, as text.
#[derive(Debug)]
pub struct PriceRow {
    pub price: String,
    pub price_timestamp: String,
    pub source: String,
}

/// A row of the feed registry, the last update as text.
#[derive(Debug)]
pub struct FeedRow {
    pub id: u128,
    pub asset_code: String,
    pub source: String,
    pub feed_id: String,
    pub last_updated: Option<String>,
}

/// The observation that a row with the given price and timestamp stands
/// for: `Internal` where either could not be read.
pub open spec fn assembled(
    code: Seq<char>,
    price: Option<DecimalView>,
    timestamp: Option<Timestamp>,
    source: Seq<char>,
) -> Result<AssetPriceView, ApiErrorView> {
    match (price, timestamp) {
        (Some(p), Some(t)) => Ok(
            AssetPriceView { asset_code: code, price: p, timestamp: t, source },
        ),
        _ => Err(ApiErrorView::Internal),
    }
}

/// The observation that a row of text stands for.
pub open spec fn decoded(
    code: Seq<char>,
    price_text: Seq<char>,
    timestamp_text: Seq<char>,
    source: Seq<char>,
) -> Result<AssetPriceView, ApiErrorView> {
    assembled(
        code,
        parsed_decimal(price_text),
        timestamp_of(parsed_rfc3339(timestamp_text)),
        source,
    )
}

/// The observation of history row `i`.
pub open spec fn decoded_row(code: Seq<char>, rows: Seq<PriceRow>, i: int) -> Result<
    AssetPriceView,
    ApiErrorView,
> {
    decoded(code, rows[i].price@, rows[i].price_timestamp@, rows[i].source@)
}

/// The feed that a registry row stands for: active, and last updated at
/// the time its text gives, if it gives one.
pub open spec fn decoded_feed(row: FeedRow) -> PriceFeedConfigView {
    PriceFeedConfigView {
        id: row.id,
        asset_code: row.asset_code@,
        source: row.source@,
        feed_id: row.feed_id@,
        is_active: true,
        last_updated: match row.last_updated {
            Some(text) => timestamp_of(parsed_rfc3339(text@)),
            None => None,
        },
    }
}

/// Puts an observation together from a price and a timestamp that were
/// read, or not, from a row.
pub fn assemble_price_row(
    asset_code: &str,
    price: Option<Decimal>,
    timestamp: Option<Timestamp>,
    source: &str,
) -> (r: Result<AssetPrice, ApiError>)
    ensures
        price_result_view(r) == assembled(asset_code@, option_view(price), timestamp, source@),
{
    let price = match price {
        Some(p) => p,
        None => {
            return Err(ApiError::Internal);
        },
    };
    let timestamp = match timestamp {
        Some(t) => t,
        None => {
            return Err(ApiError::Internal);
        },
    };
    Ok(
        AssetPrice {
            asset_code: String::from_str(asset_code),
            price,
            timestamp,
            source: String::from_str(source),
        },
    )
}

/// Reads an observation from a row of text: the price as a decimal number,
/// the timestamp as RFC 3339.
pub fn decode_price_row(asset_code: &str, price_text: &str, timestamp_text: &str, source: &str) -> (r:
    Result<AssetPrice, ApiError>)
    ensures
        price_result_view(r) == decoded(asset_code@, price_text@, timestamp_text@, source@),
{
    let price = match Decimal::from_str(price_text) {
        Ok(p) => Some(p),
        Err(_) => None,
    };
    let timestamp = Timestamp::parse_from_rfc3339(timestamp_text);
    assemble_price_row(asset_code, price, timestamp, source)
}

/// The latest observation of an asset from the row that the store found
/// for it: `NotFound` where it found none. The observation is reported under
/// the service's own source.
pub fn decode_latest_row(asset_code: &str, row: Option<(String, String)>) -> (r: Result<
    AssetPrice,
    ApiError,
>)
    ensures
        price_result_view(r) == (match row {
            Some(texts) => decoded(asset_code@, texts.0@, texts.1@, custom_source()),
            None => Err(ApiErrorView::NotFound(price_not_found_text(asset_code@))),
        }),
{
    match row {
        Some(texts) => decode_price_row(asset_code, texts.0.as_str(), texts.1.as_str(), "custom"),
        None => Err(ApiError::NotFound(join("Price not found for asset: ", asset_code))),
    }
}

/// The observations of the history rows of an asset, in the order of the
/// rows. One row that cannot be read fails the whole history with
/// `Internal`.
pub fn decode_history_rows(asset_code: &str, rows: &Vec<PriceRow>) -> (r: Result<
    Vec<AssetPrice>,
    ApiError,
>)
    ensures
        match r {
            Ok(prices) => prices.len() == rows.len() && forall|i: int|
                0 <= i < rows.len() ==> decoded_row(asset_code@, rows@, i) == Ok::<
                    AssetPriceView,
                    ApiErrorView,
                >((#[trigger] prices[i])@),
            Err(e) => e@ == ApiErrorView::Internal && exists|i: int|
                0 <= i < rows.len() && #[trigger] decoded_row(asset_code@, rows@, i) is Err,
        },
{
    let mut prices: Vec<AssetPrice> = Vec::new();
    let mut i: usize = 0;
    while i < rows.len()
        invariant
            i <= rows.len(),
            prices.len() == i,
            forall|j: int|
                0 <= j < i ==> decoded_row(asset_code@, rows@, j) == Ok::<
                    AssetPriceView,
                    ApiErrorView,
                >((#[trigger] prices[j])@),
        decreases rows.len() - i,
    {
        let row = &rows[i];
        match decode_price_row(
            asset_code,
            row.price.as_str(),
            row.price_timestamp.as_str(),
            row.source.as_str(),
        ) {
            Ok(price) => {
                prices.push(price);
            },
            Err(e) => {
                assert(decoded_row(asset_code@, rows@, i as int) is Err);
                return Err(e);
            },
        }
        i = i + 1;
    }
    Ok(prices)
}

/// The feed of one registry row.
pub fn decode_feed_row(row: &FeedRow) -> (feed: PriceFeedConfig)
    ensures
        feed@ == decoded_feed(*row),
{
    let last_updated = match &row.last_updated {
        Some(text) => Timestamp::parse_from_rfc3339(text.as_str()),
        None => None,
    };
    PriceFeedConfig {
        id: row.id,
        asset_code: row.asset_code.clone(),
        source: row.source.clone(),
        feed_id: row.feed_id.clone(),
        is_active: true,
        last_updated,
    }
}

/// The feeds of the registry rows, in the order of the rows.
pub fn decode_feed_rows(rows: &Vec<FeedRow>) -> (feeds: Vec<PriceFeedConfig>)
    ensures
        feeds.len() == rows.len(),
        forall|i: int| 0 <= i < rows.len() ==> (#[trigger] feeds[i])@ == decoded_feed(rows[i]),
{
    let mut feeds: Vec<PriceFeedConfig> = Vec::new();
    let mut i: usize = 0;
    while i < rows.len()
        invariant
            i <= rows.len(),
            feeds.len() == i,
            forall|j: int| 0 <= j < i ==> (#[trigger] feeds[j])@ == decoded_feed(rows[j]),
        decreases rows.len() - i,
    {
        feeds.push(decode_feed_row(&rows[i]));
        i = i + 1;
    }
    feeds
}

/// Whether a price may be pushed for an asset, given the source of its
/// active feed as the store found it: `Validation` where it found none.
pub fn check_active_feed(asset_code: &str, feed_source: &Option<String>) -> (r: Result<
    (),
    ApiError,
>)
    ensures
        unit_result_view(r) == (if feed_source is Some {
            Ok(())
        } else {
            Err(ApiErrorView::Validation(feed_not_found_text(asset_code@)))
        }),
{
    match feed_source {
        Some(_) => Ok(()),
        None => Err(ApiError::Validation(join("Price feed not found for asset: ", asset_code))),
    }
}

/// What pushing a price at `now` comes to, given the source of the asset's
/// active feed as the store found it: the observation to append, or
/// `Validation` where the asset has no active feed or the price is not
/// greater than zero.
pub open spec fn push_decision(
    code: Seq<char>,
    feed_source: Option<String>,
    price: DecimalView,
    now: Timestamp,
) -> Result<AssetPriceView, ApiErrorView> {
    if feed_source is None {
        Err(ApiErrorView::Validation(feed_not_found_text(code)))
    } else if !price.is_positive() {
        Err(ApiErrorView::Validation(price_not_positive_text()))
    } else {
        Ok(observation(code, price, now))
    }
}

/// The observation that a push of `price` at `now` appends to the history
/// of a relational store, once the store has looked up the asset's active
/// feed.
pub fn prepare_observation(
    asset_code: &str,
    feed_source: &Option<String>,
    price: Decimal,
    now: Timestamp,
) -> (r: Result<AssetPrice, ApiError>)
    ensures
        price_result_view(r) == push_decision(asset_code@, *feed_source, price@, now),
{
    match check_active_feed(asset_code, feed_source) {
        Ok(_) => {},
        Err(e) => {
            return Err(e);
        },
    }
    if !price.is_positive() {
        return Err(ApiError::Validation(String::from_str("Price must be greater than zero")));
    }
    Ok(
        AssetPrice {
            asset_code: String::from_str(asset_code),
            price,
            timestamp: now,
            source: String::from_str("custom"),
        },
    )
}

} // verus!
