//! The price feed service: prices read through the cache, prices pushed by
//! administrators, feed registration and collateral valuation.
//!
//! Every operation is stated as a function on the state of the service, which
//! is the store, the contents of the cache and the cache's time to live. The
//! operations that read the clock or draw an identifier are stated for an
//! instant or an identifier given, and the variants without that argument
//! read the clock or draw the identifier themselves.

use crate::api_error::{ApiError, ApiErrorView};
use crate::decimal::{decimal_product, exact_product, product_fits, Decimal, DecimalView};
use crate::price_cache::{fresh_entry, PriceCache};
use crate::price_feed::{
    AssetPrice, AssetPriceView, CollateralValuation, CollateralValuationView, PriceFeedConfig,
    PriceFeedConfigView, PriceFeedSource,
};
use crate::price_store::{
    active_feeds, feed_views, feeds_ordered, first_rows, has_active_feed, has_feed, latest,
    newest_first, price_not_found_text, price_not_positive_text, price_views, with_feed,
    PriceStore, PriceStoreView,
};
use crate::text::join;
use crate::timestamp::Timestamp;
use vstd::prelude::*;
use vstd::string::*;

verus! {

/// The source under which the service records and reports prices.
pub open spec fn custom_source() -> Seq<char> {
    "custom"@
}

/// The message of the error for a price pushed to an asset without an
/// active feed.
pub open spec fn feed_not_found_text(code: Seq<char>) -> Seq<char> {
    "Price feed not found for asset: "@ + code
}

/// The message of the error for an amount that is not greater than zero.
pub open spec fn amount_not_positive_text() -> Seq<char> {
    "Amount must be greater than zero"@
}

/// The message of the error for a valuation too large for a decimal.
pub open spec fn valuation_out_of_range_text() -> Seq<char> {
    "Valuation out of range"@
}

/// The collateral ratio of every valuation, in percent.
pub open spec fn full_ratio() -> DecimalView {
    DecimalView { mantissa: 100, scale: 0 }
}

/// The view of the result of an operation that yields a price.
pub open spec fn price_result_view(r: Result<AssetPrice, ApiError>) -> Result<
    AssetPriceView,
    ApiErrorView,
> {
    match r {
        Ok(p) => Ok(p@),
        Err(e) => Err(e@),
    }
}

/// The view of the result of an operation that yields a list of prices.
pub open spec fn prices_result_view(r: Result<Vec<AssetPrice>, ApiError>) -> Result<
    Seq<AssetPriceView>,
    ApiErrorView,
> {
    match r {
        Ok(rows) => Ok(price_views(rows@)),
        Err(e) => Err(e@),
    }
}

/// The view of the result of an operation that yields a valuation.
pub open spec fn valuation_result_view(r: Result<CollateralValuation, ApiError>) -> Result<
    CollateralValuationView,
    ApiErrorView,
> {
    match r {
        Ok(v) => Ok(v@),
        Err(e) => Err(e@),
    }
}

/// The price as the service reports it when it comes from the store: the
/// store's latest observation under the service's own source.
pub open spec fn reported(row: AssetPriceView) -> AssetPriceView {
    AssetPriceView {
        asset_code: row.asset_code,
        price: row.price,
        timestamp: row.timestamp,
        source: custom_source(),
    }
}

/// The observation that a price pushed at `now` becomes.
pub open spec fn observation(code: Seq<char>, price: DecimalView, now: Timestamp) -> AssetPriceView {
    AssetPriceView { asset_code: code, price, timestamp: now, source: custom_source() }
}

/// The configuration that registering a feed reports.
pub open spec fn registration(
    id: u128,
    code: Seq<char>,
    source: PriceFeedSource,
    feed_id: Seq<char>,
) -> PriceFeedConfigView {
    PriceFeedConfigView {
        id,
        asset_code: code,
        source: source.tag(),
        feed_id,
        is_active: true,
        last_updated: None,
    }
}

/// The valuation of `amount` of an asset at the price `price`: the amount
/// times the price at a ratio of 100 percent, stamped with the time of the
/// price. An amount that is not greater than zero, or a product too large
/// for a decimal, is rejected with `Validation`.
pub open spec fn valuation_of(code: Seq<char>, amount: DecimalView, price: AssetPriceView) -> Result<
    CollateralValuationView,
    ApiErrorView,
> {
    if !amount.is_positive() {
        Err(ApiErrorView::Validation(amount_not_positive_text()))
    } else {
        match decimal_product(amount, price.price) {
            Some(value) => Ok(
                CollateralValuationView {
                    plan_id: 0,
                    asset_code: code,
                    amount,
                    current_price: price.price,
                    valuation_usd: value,
                    collateral_ratio: full_ratio(),
                    last_updated: price.timestamp,
                },
            ),
            None => Err(ApiErrorView::Validation(valuation_out_of_range_text())),
        }
    }
}

/// Every cached price is greater than zero.
pub open spec fn cache_positive(cache: Map<Seq<char>, AssetPriceView>) -> bool {
    forall|code: Seq<char>| cache.contains_key(code) ==> (#[trigger] cache[code]).price.is_positive()
}

/// The state of the service.
pub struct ServiceView {
    pub store: PriceStoreView,
    pub cache: Map<Seq<char>, AssetPriceView>,
    pub ttl_secs: u64,
}

impl ServiceView {
    /// The store is well formed and no price in the cache is zero or less:
    /// every price that the service hands out is greater than zero.
    pub open spec fn wf(self) -> bool {
        self.store.wf() && cache_positive(self.cache)
    }

    /// What `get_price` reports at `now`: the cached price while it is
    /// fresh, else the store's latest observation, else `NotFound`.
    pub open spec fn price_at(self, code: Seq<char>, now: Timestamp) -> Result<
        AssetPriceView,
        ApiErrorView,
    > {
        match fresh_entry(self.cache, self.ttl_secs, code, now) {
            Some(hit) => Ok(hit),
            None => match latest(self.store.history, code) {
                Some(row) => Ok(reported(row)),
                None => Err(ApiErrorView::NotFound(price_not_found_text(code))),
            },
        }
    }

    /// The state after `get_price` at `now`: a price read from the store
    /// has replaced the cache entry of the asset; nothing else changes.
    pub open spec fn after_get_price(self, code: Seq<char>, now: Timestamp) -> ServiceView {
        match fresh_entry(self.cache, self.ttl_secs, code, now) {
            Some(hit) => self,
            None => match latest(self.store.history, code) {
                Some(row) => ServiceView {
                    store: self.store,
                    cache: self.cache.insert(code, reported(row)),
                    ttl_secs: self.ttl_secs,
                },
                None => self,
            },
        }
    }

    /// What `update_price` reports at `now`.
    pub open spec fn update_result(self, code: Seq<char>, price: DecimalView, now: Timestamp) -> Result<
        AssetPriceView,
        ApiErrorView,
    > {
        if !has_active_feed(self.store.feeds, code) {
            Err(ApiErrorView::Validation(feed_not_found_text(code)))
        } else if !price.is_positive() {
            Err(ApiErrorView::Validation(price_not_positive_text()))
        } else {
            Ok(observation(code, price, now))
        }
    }

    /// The state after `update_price` at `now`: on success the observation
    /// is appended to the history, the feed is stamped, and the observation
    /// is the cache entry of the asset; on failure nothing changes.
    pub open spec fn after_update(
        self,
        code: Seq<char>,
        price: DecimalView,
        now: Timestamp,
    ) -> ServiceView {
        if self.update_result(code, price, now) is Ok {
            ServiceView {
                store: self.store.with_observation(observation(code, price, now)),
                cache: self.cache.insert(code, observation(code, price, now)),
                ttl_secs: self.ttl_secs,
            }
        } else {
            self
        }
    }

    /// The state after a feed was registered.
    pub open spec fn after_register(
        self,
        id: u128,
        code: Seq<char>,
        source: PriceFeedSource,
        feed_id: Seq<char>,
    ) -> ServiceView {
        ServiceView {
            store: PriceStoreView {
                feeds: with_feed(self.store.feeds, id, code, source.tag(), feed_id),
                history: self.store.history,
            },
            cache: self.cache,
            ttl_secs: self.ttl_secs,
        }
    }

    /// What `get_price_history` reports: a negative limit is an error of
    /// the store.
    pub open spec fn history_result(self, code: Seq<char>, limit: i64) -> Result<
        Seq<AssetPriceView>,
        ApiErrorView,
    > {
        if limit < 0 {
            Err(ApiErrorView::Internal)
        } else {
            Ok(first_rows(newest_first(self.store.history, code), limit as int))
        }
    }

    /// What `calculate_valuation` reports at `now`.
    pub open spec fn valuation_at(self, code: Seq<char>, amount: DecimalView, now: Timestamp) -> Result<
        CollateralValuationView,
        ApiErrorView,
    > {
        match self.price_at(code, now) {
            Ok(price) => valuation_of(code, amount, price),
            Err(e) => Err(e),
        }
    }

    /// The state after the default feed was ensured: a feed for USDC is
    /// registered if the asset had none.
    pub open spec fn after_initialize(self, id: u128) -> ServiceView {
        if has_feed(self.store.feeds, "USDC"@) {
            self
        } else {
            ServiceView {
                store: PriceStoreView {
                    feeds: with_feed(self.store.feeds, id, "USDC"@, "custom"@, "usdc-usd"@),
                    history: self.store.history,
                },
                cache: self.cache,
                ttl_secs: self.ttl_secs,
            }
        }
    }
}

/// Draws a random identifier through `uuid::Uuid::new_v4` and hands it back
/// as a number. The result is random, so the contract promises nothing of it.
/// `uuid` gives up where the system has no randomness to offer.
#[verifier::external_body]
fn outside_new_id() -> (id: u128) {
    uuid::Uuid::new_v4().as_u128()
}

/// The valuation of `amount` of the asset at the given price.
pub fn value_collateral(asset_code: &str, amount: Decimal, price: &AssetPrice) -> (r: Result<
    CollateralValuation,
    ApiError,
>)
    ensures
        valuation_result_view(r) == valuation_of(asset_code@, amount@, price@),
        amount@.is_positive() && product_fits(amount@, price@.price) ==> r is Ok,
        r matches Ok(v) ==> (product_fits(amount@, price@.price) ==> v@.valuation_usd
            == exact_product(amount@, price@.price)),
{
    if !amount.is_positive() {
        return Err(ApiError::Validation(String::from_str("Amount must be greater than zero")));
    }
    match amount.checked_mul(&price.price) {
        Some(valuation_usd) => Ok(
            CollateralValuation {
                plan_id: 0,
                asset_code: String::from_str(asset_code),
                amount,
                current_price: price.price,
                valuation_usd,
                collateral_ratio: Decimal::from_int(100),
                last_updated: price.timestamp,
            },
        ),
        None => Err(ApiError::Validation(String::from_str("Valuation out of range"))),
    }
}

/// The configuration that registering a feed under the identifier `id`
/// reports: active, and not yet updated.
pub fn registered(id: u128, asset_code: &str, source: PriceFeedSource, feed_id: &str) -> (config:
    PriceFeedConfig)
    ensures
        config@ == registration(id, asset_code@, source, feed_id@),
{
    PriceFeedConfig {
        id,
        asset_code: String::from_str(asset_code),
        source: String::from_str(source.as_str()),
        feed_id: String::from_str(feed_id),
        is_active: true,
        last_updated: None,
    }
}

/// The price feed service: a price store behind a cache.
pub struct DefaultPriceFeedService {
    store: PriceStore,
    price_cache: PriceCache,
}

impl View for DefaultPriceFeedService {
    type V = ServiceView;

    closed spec fn view(&self) -> ServiceView {
        ServiceView {
            store: self.store@,
            cache: if self.inv() {
                self.price_cache@
            } else {
                Map::empty()
            },
            ttl_secs: self.price_cache.ttl(),
        }
    }
}

impl DefaultPriceFeedService {
    #[verifier::type_invariant]
    spec fn inv(self) -> bool {
        cache_positive(self.price_cache@)
    }

    /// Every service is well formed.
    pub proof fn lemma_wf(self)
        ensures
            self@.wf(),
    {
        self.store.lemma_wf();
    }

    /// A service over `store` with an empty cache whose entries live for
    /// `cache_ttl_secs` seconds.
    pub fn new(store: PriceStore, cache_ttl_secs: u64) -> (service: DefaultPriceFeedService)
        ensures
            service@.store == store@,
            service@.cache == Map::<Seq<char>, AssetPriceView>::empty(),
            service@.ttl_secs == cache_ttl_secs,
    {
        let service = DefaultPriceFeedService {
            store,
            price_cache: PriceCache::new(cache_ttl_secs),
        };
        assert(service@.cache =~= Map::<Seq<char>, AssetPriceView>::empty());
        service
    }

    /// Whether a cache entry with the given timestamp is still served at
    /// `now`.
    pub fn is_cache_valid_at(&self, timestamp: &Timestamp, now: &Timestamp) -> (valid: bool)
        ensures
            valid == timestamp.younger_than(*now, self@.ttl_secs),
    {
        timestamp.is_younger_than(now, self.price_cache.ttl_secs())
    }

    /// Registers the default feed, for USDC, unless the asset has a feed
    /// already. `id` becomes the identifier of the feed if it is new.
    pub fn initialize_defaults_with_id(&mut self, id: u128) -> (r: Result<(), ApiError>)
        ensures
            r is Ok,
            final(self)@ == old(self)@.after_initialize(id),
    {
        proof {
            use_type_invariant(&*self);
        }
        if !self.store.has_feed("USDC") {
            let mut store = PriceStore::new();
            core::mem::swap(&mut self.store, &mut store);
            store.upsert_feed(id, "USDC", "custom", "usdc-usd");
            core::mem::swap(&mut self.store, &mut store);
        }
        assert(self@.store =~= old(self)@.after_initialize(id).store);
        Ok(())
    }

    /// Registers the default feed, for USDC, unless the asset has a feed
    /// already.
    pub fn initialize_defaults(&mut self) -> (r: Result<(), ApiError>)
        ensures
            r is Ok,
            exists|id: u128| final(self)@ == #[trigger] old(self)@.after_initialize(id),
    {
        let id = outside_new_id();
        self.initialize_defaults_with_id(id)
    }

    /// Makes `price`, which is greater than zero, the cache entry of
    /// `asset_code`.
    fn cache_put(&mut self, asset_code: &str, price: AssetPrice)
        requires
            price@.price.is_positive(),
        ensures
            final(self)@ == (ServiceView {
                store: old(self)@.store,
                cache: old(self)@.cache.insert(asset_code@, price@),
                ttl_secs: old(self)@.ttl_secs,
            }),
    {
        proof {
            use_type_invariant(&*self);
        }
        let mut cache = PriceCache::new(self.price_cache.ttl_secs());
        core::mem::swap(&mut self.price_cache, &mut cache);
        cache.put(asset_code, price);
        core::mem::swap(&mut self.price_cache, &mut cache);
    }

    /// The current price of `asset_code` at the instant `now`: the cached
    /// price while it is fresh; otherwise the latest observation in the
    /// store, which then becomes the cache entry; `NotFound` where the asset
    /// has no observation.
    pub fn get_price_at(&mut self, asset_code: &str, now: &Timestamp) -> (r: Result<
        AssetPrice,
        ApiError,
    >)
        ensures
            price_result_view(r) == old(self)@.price_at(asset_code@, *now),
            final(self)@ == old(self)@.after_get_price(asset_code@, *now),
    {
        proof {
            use_type_invariant(&*self);
        }
        match self.price_cache.get_at(asset_code, now) {
            Some(hit) => {
                return Ok(hit);
            },
            None => {},
        }
        match self.store.get_latest(asset_code) {
            Ok(row) => {
                let asset_price = AssetPrice {
                    asset_code: String::from_str(asset_code),
                    price: row.price,
                    timestamp: row.timestamp,
                    source: String::from_str("custom"),
                };
                proof {
                    lemma_newest_first_of_code(self@.store.history, asset_code@);
                }
                self.cache_put(asset_code, asset_price.clone());
                Ok(asset_price)
            },
            Err(e) => Err(e),
        }
    }

    /// The current price of `asset_code` by the system clock.
    pub fn get_price(&mut self, asset_code: &str) -> (r: Result<AssetPrice, ApiError>)
        ensures
            exists|now: Timestamp|
                price_result_view(r) == #[trigger] old(self)@.price_at(asset_code@, now)
                    && final(self)@ == old(self)@.after_get_price(asset_code@, now),
    {
        let now = Timestamp::now();
        self.get_price_at(asset_code, &now)
    }

    /// The `limit` most recent observations of `asset_code`, the newest
    /// first. An asset without observations has an empty history; a negative
    /// limit is an error.
    pub fn get_price_history(&self, asset_code: &str, limit: i64) -> (r: Result<
        Vec<AssetPrice>,
        ApiError,
    >)
        ensures
            prices_result_view(r) == self@.history_result(asset_code@, limit),
    {
        if limit < 0 {
            return Err(ApiError::Internal);
        }
        let wanted: usize = if limit as u64 > usize::MAX as u64 {
            usize::MAX
        } else {
            limit as usize
        };
        let rows = self.store.get_history(asset_code, wanted);
        proof {
            let all = newest_first(self@.store.history, asset_code@);
            lemma_newest_first_len(self@.store.history, asset_code@);
            assert(first_rows(all, wanted as int) == first_rows(all, limit as int));
        }
        Ok(rows)
    }

    /// Registers a feed for `asset_code` under the identifier `id`, or
    /// overwrites the source and the feed identifier of the feed that the
    /// asset has. The feed is active afterwards.
    pub fn register_feed_with_id(
        &mut self,
        id: u128,
        asset_code: &str,
        source: PriceFeedSource,
        feed_id: &str,
    ) -> (r: Result<PriceFeedConfig, ApiError>)
        ensures
            r matches Ok(config) && config@ == registration(id, asset_code@, source, feed_id@),
            final(self)@ == old(self)@.after_register(id, asset_code@, source, feed_id@),
    {
        proof {
            use_type_invariant(&*self);
        }
        let mut store = PriceStore::new();
        core::mem::swap(&mut self.store, &mut store);
        store.upsert_feed(id, asset_code, source.as_str(), feed_id);
        core::mem::swap(&mut self.store, &mut store);
        assert(self@.store =~= old(self)@.after_register(id, asset_code@, source, feed_id@).store);
        Ok(registered(id, asset_code, source, feed_id))
    }

    /// Registers a feed for `asset_code` under a fresh random identifier.
    pub fn register_feed(&mut self, asset_code: &str, source: PriceFeedSource, feed_id: &str) -> (r:
        Result<PriceFeedConfig, ApiError>)
        ensures
            exists|id: u128|
                r matches Ok(config) && config@ == #[trigger] registration(
                    id,
                    asset_code@,
                    source,
                    feed_id@,
                ) && final(self)@ == old(self)@.after_register(id, asset_code@, source, feed_id@),
    {
        let id = outside_new_id();
        let r = self.register_feed_with_id(id, asset_code, source, feed_id);
        assert(r matches Ok(config) && config@ == registration(id, asset_code@, source, feed_id@)
            && self@ == old(self)@.after_register(id, asset_code@, source, feed_id@));
        r
    }

    /// Records `price` as the price of `asset_code` observed at `now`. The
    /// asset needs an active feed and the price must be greater than zero,
    /// else the call fails with `Validation` and changes nothing. On success
    /// the observation is in the history and in the cache.
    pub fn update_price_at(&mut self, asset_code: &str, price: Decimal, now: &Timestamp) -> (r:
        Result<AssetPrice, ApiError>)
        ensures
            price_result_view(r) == old(self)@.update_result(asset_code@, price@, *now),
            final(self)@ == old(self)@.after_update(asset_code@, price@, *now),
    {
        proof {
            use_type_invariant(&*self);
        }
        if !self.store.has_active_feed(asset_code) {
            return Err(
                ApiError::Validation(join("Price feed not found for asset: ", asset_code)),
            );
        }
        let mut store = PriceStore::new();
        core::mem::swap(&mut self.store, &mut store);
        let appended = store.append_observation(asset_code, price, *now, "custom");
        core::mem::swap(&mut self.store, &mut store);
        match appended {
            Ok(asset_price) => {
                self.cache_put(asset_code, asset_price.clone());
                Ok(asset_price)
            },
            Err(e) => Err(e),
        }
    }

    /// Records `price` as the price of `asset_code` observed now, by the
    /// system clock.
    pub fn update_price(&mut self, asset_code: &str, price: Decimal) -> (r: Result<
        AssetPrice,
        ApiError,
    >)
        ensures
            exists|now: Timestamp|
                price_result_view(r) == #[trigger] old(self)@.update_result(
                    asset_code@,
                    price@,
                    now,
                ) && final(self)@ == old(self)@.after_update(asset_code@, price@, now),
    {
        let now = Timestamp::now();
        self.update_price_at(asset_code, price, &now)
    }

    /// What `amount` of `asset_code` is worth at the price current at `now`.
    /// The price is resolved as `get_price_at` does, cache refresh included.
    pub fn calculate_valuation_at(&mut self, asset_code: &str, amount: Decimal, now: &Timestamp) -> (r:
        Result<CollateralValuation, ApiError>)
        ensures
            valuation_result_view(r) == old(self)@.valuation_at(asset_code@, amount@, *now),
            final(self)@ == old(self)@.after_get_price(asset_code@, *now),
            old(self)@.price_at(asset_code@, *now) matches Ok(p) ==> (amount@.is_positive()
                && product_fits(amount@, p.price) ==> r is Ok),
            r matches Ok(v) ==> (product_fits(v@.amount, v@.current_price) ==> v@.valuation_usd
                == exact_product(v@.amount, v@.current_price)),
    {
        match self.get_price_at(asset_code, now) {
            Ok(asset_price) => value_collateral(asset_code, amount, &asset_price),
            Err(e) => Err(e),
        }
    }

    /// What `amount` of `asset_code` is worth at the current price, by the
    /// system clock.
    pub fn calculate_valuation(&mut self, asset_code: &str, amount: Decimal) -> (r: Result<
        CollateralValuation,
        ApiError,
    >)
        ensures
            exists|now: Timestamp|
                valuation_result_view(r) == #[trigger] old(self)@.valuation_at(
                    asset_code@,
                    amount@,
                    now,
                ) && final(self)@ == old(self)@.after_get_price(asset_code@, now),
            r matches Ok(v) ==> (product_fits(v@.amount, v@.current_price) ==> v@.valuation_usd
                == exact_product(v@.amount, v@.current_price)),
    {
        let now = Timestamp::now();
        self.calculate_valuation_at(asset_code, amount, &now)
    }

    /// The active feeds in ascending order of asset code.
    pub fn get_active_feeds(&self) -> (r: Result<Vec<PriceFeedConfig>, ApiError>)
        ensures
            r matches Ok(list) && feed_views(list@) == active_feeds(self@.store.feeds)
                && feeds_ordered(feed_views(list@)),
    {
        Ok(self.store.active_feeds())
    }
}

/// Every observation listed for a code carries that code.
pub proof fn lemma_newest_first_of_code(history: Seq<AssetPriceView>, code: Seq<char>)
    ensures
        forall|i: int|
            0 <= i < newest_first(history, code).len() ==> (#[trigger] newest_first(
                history,
                code,
            )[i]).asset_code == code,
    decreases history.len(),
{
    if history.len() > 0 {
        lemma_newest_first_of_code(history.drop_last(), code);
        let rest = newest_first(history.drop_last(), code);
        assert forall|i: int| 0 <= i < newest_first(history, code).len() implies (
        #[trigger] newest_first(history, code)[i]).asset_code == code by {
            if history.last().asset_code == code {
                if i > 0 {
                    assert(newest_first(history, code)[i] == rest[i - 1]);
                }
            } else {
                assert(newest_first(history, code)[i] == rest[i]);
            }
        }
    }
}

/// An asset has no more observations than the history holds.
pub proof fn lemma_newest_first_len(history: Seq<AssetPriceView>, code: Seq<char>)
    ensures
        newest_first(history, code).len() <= history.len(),
    decreases history.len(),
{
    if history.len() > 0 {
        lemma_newest_first_len(history.drop_last(), code);
    }
}

} // verus!
