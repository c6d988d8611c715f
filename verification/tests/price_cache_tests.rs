use inheritx_backend::decimal::Decimal;
use inheritx_backend::price_cache::PriceCache;
use inheritx_backend::price_feed::AssetPrice;
use inheritx_backend::timestamp::Timestamp;

fn price(code: &str, text: &str, secs: i64) -> AssetPrice {
    AssetPrice {
        asset_code: code.to_string(),
        price: Decimal::from_str(text).unwrap(),
        timestamp: Timestamp::new(secs, 0),
        source: "custom".to_string(),
    }
}

#[test]
fn empty_cache_misses() {
    let cache = PriceCache::new(60);
    assert_eq!(cache.ttl_secs(), 60);
    assert!(cache.get_at("USDC", &Timestamp::new(0, 0)).is_none());
    assert!(cache.get("USDC").is_none());
}

#[test]
fn entry_is_served_while_fresh() {
    let mut cache = PriceCache::new(60);
    cache.put("BTC", price("BTC", "45000.00", 1_000));
    let first = cache.get_at("BTC", &Timestamp::new(1_000, 0)).unwrap();
    let second = cache.get_at("BTC", &Timestamp::new(1_059, 999_999_999)).unwrap();
    assert_eq!(first.price, Decimal::from_str("45000.00").unwrap());
    assert_eq!(first.price, second.price);
    assert_eq!(first.timestamp, second.timestamp);
    assert_eq!(first.asset_code, second.asset_code);
    assert_eq!(first.source, second.source);
}

#[test]
fn entry_is_stale_once_the_ttl_has_passed() {
    let mut cache = PriceCache::new(60);
    cache.put("BTC", price("BTC", "45000.00", 1_000));
    assert!(cache.get_at("BTC", &Timestamp::new(1_060, 0)).is_none());
    assert!(cache.get_at("BTC", &Timestamp::new(5_000, 0)).is_none());
    // A stale entry stays where it is: it is served again to a reader whose
    // clock is within the time to live.
    assert!(cache.get_at("BTC", &Timestamp::new(1_030, 0)).is_some());
}

#[test]
fn zero_ttl_never_serves() {
    let mut cache = PriceCache::new(0);
    cache.put("BTC", price("BTC", "1", 1_000));
    assert!(cache.get_at("BTC", &Timestamp::new(1_000, 0)).is_none());
}

#[test]
fn put_overwrites_last_writer_wins() {
    let mut cache = PriceCache::new(60);
    cache.put("BTC", price("BTC", "45000.00", 1_000));
    cache.put("BTC", price("BTC", "46000.00", 1_010));
    let hit = cache.get_at("BTC", &Timestamp::new(1_020, 0)).unwrap();
    assert_eq!(hit.price, Decimal::from_str("46000.00").unwrap());
    assert_eq!(hit.timestamp, Timestamp::new(1_010, 0));
}

#[test]
fn assets_are_independent_entries() {
    let mut cache = PriceCache::new(60);
    cache.put("BTC", price("BTC", "45000.00", 1_000));
    cache.put("ETH", price("ETH", "2500.00", 1_050));
    cache.put("BTC", price("BTC", "45001.00", 1_001));
    let now = Timestamp::new(1_055, 0);
    assert_eq!(cache.get_at("ETH", &now).unwrap().price, Decimal::from_str("2500").unwrap());
    assert_eq!(cache.get_at("BTC", &now).unwrap().price, Decimal::from_str("45001").unwrap());
    assert!(cache.get_at("btc", &now).is_none());
    assert!(cache.get_at("BT", &now).is_none());
    // One is stale while the other is fresh.
    let later = Timestamp::new(1_100, 0);
    assert!(cache.get_at("BTC", &later).is_none());
    assert!(cache.get_at("ETH", &later).is_some());
}

#[test]
fn get_reads_the_clock() {
    let mut cache = PriceCache::new(3_600);
    let now = Timestamp::now();
    cache.put("BTC", price("BTC", "45000.00", now.secs));
    assert!(cache.get("BTC").is_some());
    cache.put("OLD", price("OLD", "1.00", now.secs - 7_200));
    assert!(cache.get("OLD").is_none());
}

#[test]
fn the_key_is_the_one_given_to_put() {
    let mut cache = PriceCache::new(60);
    cache.put("alias", price("BTC", "45000.00", 1_000));
    let now = Timestamp::new(1_001, 0);
    assert!(cache.get_at("BTC", &now).is_none());
    assert_eq!(cache.get_at("alias", &now).unwrap().asset_code, "BTC");
}
