//! Asset price feed and collateral valuation engine.
//!
//! The crate keeps a freshness-bounded cache of asset prices in front of an
//! append-only price history, turns a quantity of an asset into a USD
//! valuation, and re-checks price freshness and collateral on the ledger side.
//! What a function returns or changes is stated in its contract, and Verus
//! proves each contract.
//!
//! The engine: [`decimal`] and [`timestamp`] are the numbers and instants it
//! works on, [`price_feed`] is its data model, [`price_cache`] and
//! [`price_store`] hold prices, [`price_feed_service`] serves them,
//! [`price_feed_handlers`] and [`price_rows`] stand between the service and
//! its clients and its relational store, [`price_feed_laws`] states what holds
//! across calls, and [`collateral_guard`] is the ledger side. Around it:
//! [`api_error`], [`config`], [`models`], [`bridge`], [`payments`],
//! [`inheritance_plan`] and [`text`].

pub mod api_error;
pub mod bridge;
pub mod collateral_guard;
pub mod config;
pub mod decimal;
pub mod inheritance_plan;
pub mod models;
pub mod payments;
pub mod price_cache;
pub mod price_feed;
pub mod price_feed_handlers;
pub mod price_feed_laws;
pub mod price_feed_service;
pub mod price_rows;
pub mod price_store;
pub mod text;
pub mod timestamp;

pub use api_error::ApiError;
pub use config::Config;
pub use price_feed::PriceFeedSource;
pub use price_feed_service::DefaultPriceFeedService;
