use inheritx_backend::api_error::ApiError;
use inheritx_backend::decimal::Decimal;
use inheritx_backend::price_feed::{AssetPrice, PriceFeedSource};
use inheritx_backend::price_feed_service::{
    registered, value_collateral, DefaultPriceFeedService,
};
use inheritx_backend::price_store::PriceStore;
use inheritx_backend::timestamp::Timestamp;

fn dec(text: &str) -> Decimal {
    Decimal::from_str(text).unwrap()
}

fn at(secs: i64) -> Timestamp {
    Timestamp::new(secs, 0)
}

fn service(ttl: u64) -> DefaultPriceFeedService {
    DefaultPriceFeedService::new(PriceStore::new(), ttl)
}

fn validation_message<T: std::fmt::Debug>(r: Result<T, ApiError>) -> String {
    match r {
        Err(ApiError::Validation(message)) => message,
        other => panic!("unexpected {:?}", other),
    }
}

#[test]
fn price_is_not_found_without_history() {
    let mut s = service(60);
    match s.get_price_at("BTC", &at(1_000)) {
        Err(ApiError::NotFound(message)) => assert_eq!(message, "Price not found for asset: BTC"),
        other => panic!("unexpected {:?}", other),
    }
    s.register_feed_with_id(1, "BTC", PriceFeedSource::Pyth, "btc-usd").unwrap();
    assert!(matches!(s.get_price("BTC"), Err(ApiError::NotFound(_))));
}

#[test]
fn update_needs_an_active_feed() {
    let mut s = service(60);
    assert_eq!(
        validation_message(s.update_price_at("BTC", dec("45000.00"), &at(1_000))),
        "Price feed not found for asset: BTC"
    );
    assert!(s.get_price_history("BTC", 10).unwrap().is_empty());
    s.register_feed_with_id(1, "BTC", PriceFeedSource::Pyth, "btc-usd").unwrap();
    let pushed = s.update_price_at("BTC", dec("45000.00"), &at(1_000)).unwrap();
    assert_eq!(pushed.asset_code, "BTC");
    assert_eq!(pushed.price, dec("45000.00"));
    assert_eq!(pushed.timestamp, at(1_000));
    assert_eq!(pushed.source, "custom");
}

#[test]
fn update_rejects_a_price_that_is_not_positive() {
    let mut s = service(60);
    s.register_feed_with_id(1, "BTC", PriceFeedSource::Pyth, "btc-usd").unwrap();
    assert_eq!(
        validation_message(s.update_price_at("BTC", dec("0"), &at(1_000))),
        "Price must be greater than zero"
    );
    assert_eq!(
        validation_message(s.update_price_at("BTC", dec("-5.5"), &at(1_000))),
        "Price must be greater than zero"
    );
    // Without a feed, the missing feed is reported first.
    assert_eq!(
        validation_message(s.update_price_at("ETH", dec("0"), &at(1_000))),
        "Price feed not found for asset: ETH"
    );
    assert!(matches!(s.get_price_at("BTC", &at(1_000)), Err(ApiError::NotFound(_))));
}

#[test]
fn price_right_after_update_is_the_price_pushed() {
    let mut s = service(60);
    s.register_feed_with_id(1, "BTC", PriceFeedSource::Pyth, "btc-usd").unwrap();
    s.update_price_at("BTC", dec("44000.10"), &at(900)).unwrap();
    let pushed = s.update_price_at("BTC", dec("45000.123456789"), &at(1_000)).unwrap();
    let read = s.get_price_at("BTC", &at(1_000)).unwrap();
    assert_eq!(read.price.mantissa(), 45_000_123_456_789);
    assert_eq!(read.price.scale(), 9);
    assert_eq!(read.timestamp, pushed.timestamp);
    assert_eq!(read.asset_code, "BTC");
    assert_eq!(read.source, "custom");
    // Also once the cache entry has gone stale and the store is read.
    let later = s.get_price_at("BTC", &at(10_000)).unwrap();
    assert_eq!(later.price, dec("45000.123456789"));
    assert_eq!(later.timestamp, at(1_000));
}

#[test]
fn price_by_the_clock_is_stamped_between_call_and_return() {
    let mut s = service(60);
    s.register_feed("BTC", PriceFeedSource::Custom, "btc-usd").unwrap();
    let before = Timestamp::now();
    let pushed = s.update_price("BTC", dec("45000.00")).unwrap();
    let read = s.get_price("BTC").unwrap();
    let after = Timestamp::now();
    assert_eq!(read.price, dec("45000.00"));
    assert_eq!(read.timestamp, pushed.timestamp);
    assert!(before.is_at_or_before(&read.timestamp));
    assert!(read.timestamp.is_at_or_before(&after));
}

#[test]
fn a_push_stamped_in_the_past_does_not_hide_a_later_observation() {
    let mut s = service(0);
    s.register_feed_with_id(1, "BTC", PriceFeedSource::Pyth, "btc-usd").unwrap();
    s.update_price_at("BTC", dec("2"), &at(2_000)).unwrap();
    s.update_price_at("BTC", dec("1"), &at(1_000)).unwrap();
    // With a time to live of zero every read goes to the store, whose latest
    // observation is the one stamped last.
    assert_eq!(s.get_price_at("BTC", &at(2_000)).unwrap().price, dec("2"));
}

#[test]
fn cache_serves_within_the_ttl_and_refreshes_after() {
    let mut store = PriceStore::new();
    store.upsert_feed(1, "BTC", "pyth", "btc-usd");
    store.append_observation("BTC", dec("100"), at(1_000), "pyth").unwrap();
    let mut s = DefaultPriceFeedService::new(store, 60);
    // The first read fills the cache from the store.
    let first = s.get_price_at("BTC", &at(1_010)).unwrap();
    assert_eq!(first.price, dec("100"));
    assert_eq!(first.timestamp, at(1_000));
    assert_eq!(first.source, "custom");
    let second = s.get_price_at("BTC", &at(1_059)).unwrap();
    assert_eq!(second.price, first.price);
    assert_eq!(second.timestamp, first.timestamp);
    assert_eq!(second.source, first.source);
    assert!(s.is_cache_valid_at(&first.timestamp, &at(1_059)));
    assert!(!s.is_cache_valid_at(&first.timestamp, &at(1_060)));
    let third = s.get_price_at("BTC", &at(1_060)).unwrap();
    assert_eq!(third.price, dec("100"));
}

#[test]
fn history_lists_every_push_newest_first() {
    let mut s = service(60);
    s.register_feed_with_id(1, "BTC", PriceFeedSource::Pyth, "btc-usd").unwrap();
    s.register_feed_with_id(2, "ETH", PriceFeedSource::Pyth, "eth-usd").unwrap();
    for (i, text) in ["10", "11", "12", "13"].iter().enumerate() {
        s.update_price_at("BTC", dec(text), &at(1_000 + i as i64)).unwrap();
        s.update_price_at("ETH", dec("1"), &at(1_000 + i as i64)).unwrap();
    }
    let all = s.get_price_history("BTC", 100).unwrap();
    let prices: Vec<i128> = all.iter().map(|p| p.price.mantissa()).collect();
    assert_eq!(prices, vec![13, 12, 11, 10]);
    // The push of rank 3 is part of every listing of three or more.
    for limit in 3..6 {
        let listed = s.get_price_history("BTC", limit).unwrap();
        assert_eq!(listed[2].price, dec("11"));
        assert_eq!(listed[2].timestamp, at(1_001));
    }
    assert_eq!(s.get_price_history("BTC", 2).unwrap().len(), 2);
    assert!(s.get_price_history("BTC", 0).unwrap().is_empty());
    assert!(s.get_price_history("SOL", 10).unwrap().is_empty());
    assert!(matches!(s.get_price_history("BTC", -1), Err(ApiError::Internal)));
    assert_eq!(s.get_price_history("BTC", i64::MAX).unwrap().len(), 4);
}

#[test]
fn registering_twice_leaves_one_feed() {
    let mut s = service(60);
    let first = s.register_feed_with_id(7, "BTC", PriceFeedSource::Pyth, "btc-usd").unwrap();
    assert_eq!(first.id, 7);
    assert_eq!(first.asset_code, "BTC");
    assert_eq!(first.source, "pyth");
    assert_eq!(first.feed_id, "btc-usd");
    assert!(first.is_active);
    assert_eq!(first.last_updated, None);
    let second = s.register_feed_with_id(8, "BTC", PriceFeedSource::Chainlink, "btc-v2").unwrap();
    assert_eq!(second.id, 8);
    assert_eq!(second.source, "chainlink");
    let feeds = s.get_active_feeds().unwrap();
    assert_eq!(feeds.len(), 1);
    assert_eq!(feeds[0].asset_code, "BTC");
    assert_eq!(feeds[0].source, "chainlink");
    assert_eq!(feeds[0].feed_id, "btc-v2");
    assert_eq!(feeds[0].id, 7);
}

#[test]
fn register_draws_a_fresh_identifier() {
    let mut s = service(60);
    let a = s.register_feed("BTC", PriceFeedSource::Pyth, "btc-usd").unwrap();
    let b = s.register_feed("ETH", PriceFeedSource::Pyth, "eth-usd").unwrap();
    assert_ne!(a.id, b.id);
    assert_ne!(a.id, 0);
}

#[test]
fn active_feeds_are_in_order_of_asset_code() {
    let mut s = service(60);
    for (i, code) in ["USDC", "BTC", "XLM", "ETH"].iter().enumerate() {
        s.register_feed_with_id(i as u128, code, PriceFeedSource::Custom, "feed").unwrap();
    }
    let codes: Vec<String> =
        s.get_active_feeds().unwrap().iter().map(|f| f.asset_code.clone()).collect();
    assert_eq!(codes, vec!["BTC", "ETH", "USDC", "XLM"]);
}

#[test]
fn defaults_register_usdc_once() {
    let mut s = service(60);
    s.initialize_defaults_with_id(42).unwrap();
    let feeds = s.get_active_feeds().unwrap();
    assert_eq!(feeds.len(), 1);
    assert_eq!(feeds[0].id, 42);
    assert_eq!(feeds[0].asset_code, "USDC");
    assert_eq!(feeds[0].source, "custom");
    assert_eq!(feeds[0].feed_id, "usdc-usd");
    s.register_feed_with_id(1, "USDC", PriceFeedSource::Pyth, "mine").unwrap();
    s.initialize_defaults().unwrap();
    let feeds = s.get_active_feeds().unwrap();
    assert_eq!(feeds.len(), 1);
    assert_eq!(feeds[0].source, "pyth");
    assert_eq!(feeds[0].feed_id, "mine");
}

#[test]
fn defaults_leave_a_deactivated_feed_alone() {
    let mut store = PriceStore::new();
    store.upsert_feed(1, "USDC", "pyth", "mine");
    store.deactivate_feed("USDC");
    let mut s = DefaultPriceFeedService::new(store, 60);
    s.initialize_defaults().unwrap();
    assert!(s.get_active_feeds().unwrap().is_empty());
    assert_eq!(
        validation_message(s.update_price_at("USDC", dec("1"), &at(1))),
        "Price feed not found for asset: USDC"
    );
    s.register_feed_with_id(2, "USDC", PriceFeedSource::Custom, "usdc-usd").unwrap();
    assert!(s.update_price_at("USDC", dec("1"), &at(1)).is_ok());
}

#[test]
fn valuation_is_amount_times_price_exactly() {
    let mut s = service(60);
    s.register_feed_with_id(1, "BTC", PriceFeedSource::Pyth, "btc-usd").unwrap();
    s.update_price_at("BTC", dec("100.00"), &at(1_000)).unwrap();
    let v = s.calculate_valuation_at("BTC", dec("2.5"), &at(1_030)).unwrap();
    assert_eq!(v.plan_id, 0);
    assert_eq!(v.asset_code, "BTC");
    assert_eq!(v.amount, dec("2.5"));
    assert_eq!(v.current_price, dec("100.00"));
    assert_eq!(v.valuation_usd, dec("250.00"));
    assert_eq!(v.valuation_usd.mantissa(), 250_000);
    assert_eq!(v.valuation_usd.scale(), 3);
    assert_eq!(v.collateral_ratio, dec("100"));
    // Stamped with the time of the price, not of the request.
    assert_eq!(v.last_updated, at(1_000));
    let by_clock = s.calculate_valuation("BTC", dec("0.000001")).unwrap();
    assert_eq!(by_clock.valuation_usd, dec("0.0001"));
}

#[test]
fn valuation_fails_as_price_resolution_does() {
    let mut s = service(60);
    match s.calculate_valuation_at("BTC", dec("2.5"), &at(1_000)) {
        Err(ApiError::NotFound(message)) => assert_eq!(message, "Price not found for asset: BTC"),
        other => panic!("unexpected {:?}", other),
    }
    // The price is resolved first: an unknown asset is not found whatever
    // the amount.
    assert!(matches!(
        s.calculate_valuation_at("BTC", dec("0"), &at(1_000)),
        Err(ApiError::NotFound(_))
    ));
}

#[test]
fn valuation_rejects_an_amount_that_is_not_positive() {
    let mut s = service(60);
    s.register_feed_with_id(1, "BTC", PriceFeedSource::Pyth, "btc-usd").unwrap();
    s.update_price_at("BTC", dec("100.00"), &at(1_000)).unwrap();
    for text in ["0", "-1", "-0.5"] {
        assert_eq!(
            validation_message(s.calculate_valuation_at("BTC", dec(text), &at(1_000))),
            "Amount must be greater than zero"
        );
    }
}

#[test]
fn valuation_too_large_is_rejected() {
    let max: i128 = 79_228_162_514_264_337_593_543_950_335;
    let price = AssetPrice {
        asset_code: "BTC".to_string(),
        price: Decimal::try_new(max, 0).unwrap(),
        timestamp: at(1),
        source: "custom".to_string(),
    };
    assert_eq!(
        validation_message(value_collateral("BTC", dec("2"), &price)),
        "Valuation out of range"
    );
    let fits = value_collateral("BTC", dec("1"), &price).unwrap();
    assert_eq!(fits.valuation_usd.mantissa(), max);
}

#[test]
fn a_registration_is_active_and_not_yet_updated() {
    let config = registered(9, "XLM", PriceFeedSource::Chainlink, "xlm-usd");
    assert_eq!(config.id, 9);
    assert_eq!(config.asset_code, "XLM");
    assert_eq!(config.source, "chainlink");
    assert_eq!(config.feed_id, "xlm-usd");
    assert!(config.is_active);
    assert_eq!(config.last_updated, None);
}
