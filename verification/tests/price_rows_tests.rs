use inheritx_backend::api_error::ApiError;
use inheritx_backend::decimal::Decimal;
use inheritx_backend::price_rows::{
    assemble_price_row, check_active_feed, decode_feed_row, decode_feed_rows,
    decode_history_rows, decode_latest_row, decode_price_row, prepare_observation, FeedRow,
    PriceRow,
};
use inheritx_backend::timestamp::Timestamp;

fn row(price: &str, timestamp: &str, source: &str) -> PriceRow {
    PriceRow {
        price: price.to_string(),
        price_timestamp: timestamp.to_string(),
        source: source.to_string(),
    }
}

#[test]
fn a_row_of_text_becomes_an_observation() {
    let p = decode_price_row("BTC", "45000.50", "2024-05-01T12:00:00Z", "pyth").unwrap();
    assert_eq!(p.asset_code, "BTC");
    assert_eq!(p.price.mantissa(), 4_500_050);
    assert_eq!(p.price.scale(), 2);
    assert_eq!(p.timestamp, Timestamp::new(1_714_564_800, 0));
    assert_eq!(p.source, "pyth");
}

#[test]
fn malformed_text_is_an_internal_error() {
    assert!(matches!(
        decode_price_row("BTC", "n/a", "2024-05-01T12:00:00Z", "pyth"),
        Err(ApiError::Internal)
    ));
    assert!(matches!(
        decode_price_row("BTC", "45000.50", "2024-05-01 12:00:00+00", "pyth"),
        Err(ApiError::Internal)
    ));
    assert!(matches!(decode_price_row("BTC", "", "", ""), Err(ApiError::Internal)));
}

#[test]
fn assembling_needs_both_parts() {
    let price = Decimal::from_str("1").unwrap();
    let time = Timestamp::new(5, 0);
    assert!(assemble_price_row("BTC", Some(price), Some(time), "x").is_ok());
    assert!(matches!(
        assemble_price_row("BTC", None, Some(time), "x"),
        Err(ApiError::Internal)
    ));
    assert!(matches!(
        assemble_price_row("BTC", Some(price), None, "x"),
        Err(ApiError::Internal)
    ));
    assert!(matches!(assemble_price_row("BTC", None, None, "x"), Err(ApiError::Internal)));
}

#[test]
fn latest_row_is_reported_as_custom_or_not_found() {
    let found = Some(("1.25".to_string(), "2024-05-01T12:00:00Z".to_string()));
    let p = decode_latest_row("USDC", found).unwrap();
    assert_eq!(p.asset_code, "USDC");
    assert_eq!(p.price, Decimal::from_str("1.25").unwrap());
    assert_eq!(p.source, "custom");
    match decode_latest_row("USDC", None) {
        Err(ApiError::NotFound(message)) => assert_eq!(message, "Price not found for asset: USDC"),
        other => panic!("unexpected {:?}", other),
    }
    let broken = Some(("1.25".to_string(), "noon".to_string()));
    assert!(matches!(decode_latest_row("USDC", broken), Err(ApiError::Internal)));
}

#[test]
fn history_rows_keep_their_order() {
    let rows = vec![
        row("3", "2024-05-01T12:00:02Z", "custom"),
        row("2", "2024-05-01T12:00:01Z", "pyth"),
        row("1", "2024-05-01T12:00:00Z", "chainlink"),
    ];
    let prices = decode_history_rows("BTC", &rows).unwrap();
    assert_eq!(prices.len(), 3);
    assert_eq!(prices[0].price.mantissa(), 3);
    assert_eq!(prices[1].source, "pyth");
    assert_eq!(prices[2].timestamp, Timestamp::new(1_714_564_800, 0));
    assert!(prices.iter().all(|p| p.asset_code == "BTC"));
    assert!(decode_history_rows("BTC", &Vec::new()).unwrap().is_empty());
}

#[test]
fn one_bad_history_row_fails_the_history() {
    let rows = vec![
        row("3", "2024-05-01T12:00:02Z", "custom"),
        row("two", "2024-05-01T12:00:01Z", "pyth"),
        row("1", "2024-05-01T12:00:00Z", "chainlink"),
    ];
    assert!(matches!(decode_history_rows("BTC", &rows), Err(ApiError::Internal)));
}

#[test]
fn feed_rows_are_active_and_lenient_on_the_last_update() {
    let rows = vec![
        FeedRow {
            id: 1,
            asset_code: "BTC".to_string(),
            source: "pyth".to_string(),
            feed_id: "btc-usd".to_string(),
            last_updated: Some("2024-05-01T12:00:00Z".to_string()),
        },
        FeedRow {
            id: 2,
            asset_code: "ETH".to_string(),
            source: "custom".to_string(),
            feed_id: "eth-usd".to_string(),
            last_updated: Some("2024-05-01 12:00:00+00".to_string()),
        },
        FeedRow {
            id: 3,
            asset_code: "USDC".to_string(),
            source: "custom".to_string(),
            feed_id: "usdc-usd".to_string(),
            last_updated: None,
        },
    ];
    let feeds = decode_feed_rows(&rows);
    assert_eq!(feeds.len(), 3);
    assert_eq!(feeds[0].id, 1);
    assert_eq!(feeds[0].asset_code, "BTC");
    assert_eq!(feeds[0].source, "pyth");
    assert_eq!(feeds[0].feed_id, "btc-usd");
    assert_eq!(feeds[0].last_updated, Some(Timestamp::new(1_714_564_800, 0)));
    assert_eq!(feeds[1].last_updated, None);
    assert_eq!(feeds[2].last_updated, None);
    assert!(feeds.iter().all(|f| f.is_active));
    assert_eq!(decode_feed_row(&rows[2]).asset_code, "USDC");
}

#[test]
fn a_push_needs_the_source_of_an_active_feed() {
    assert!(check_active_feed("BTC", &Some("pyth".to_string())).is_ok());
    match check_active_feed("BTC", &None) {
        Err(ApiError::Validation(message)) => {
            assert_eq!(message, "Price feed not found for asset: BTC")
        }
        other => panic!("unexpected {:?}", other),
    }
}

#[test]
fn a_push_is_prepared_or_refused() {
    let feed = Some("pyth".to_string());
    let now = Timestamp::new(1_714_564_800, 5);
    let price = Decimal::from_str("45000.50").unwrap();
    let observation = prepare_observation("BTC", &feed, price, now).unwrap();
    assert_eq!(observation.asset_code, "BTC");
    assert_eq!(observation.price, price);
    assert_eq!(observation.timestamp, now);
    assert_eq!(observation.source, "custom");
    match prepare_observation("BTC", &None, price, now) {
        Err(ApiError::Validation(message)) => {
            assert_eq!(message, "Price feed not found for asset: BTC")
        }
        other => panic!("unexpected {:?}", other),
    }
    match prepare_observation("BTC", &feed, Decimal::zero(), now) {
        Err(ApiError::Validation(message)) => assert_eq!(message, "Price must be greater than zero"),
        other => panic!("unexpected {:?}", other),
    }
    // The missing feed is reported first.
    match prepare_observation("BTC", &None, Decimal::zero(), now) {
        Err(ApiError::Validation(message)) => {
            assert_eq!(message, "Price feed not found for asset: BTC")
        }
        other => panic!("unexpected {:?}", other),
    }
}
