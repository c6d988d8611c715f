//! The requests that the price feed service takes from its clients and the
//! answers it gives them.
//!
//! A handler checks what the client sent, calls the service and shapes the
//! answer: instants leave as RFC 3339 text. The clock and the identifier of a
//! new feed are arguments, so that each handler is stated exactly; the
//! transport, and the guard that admits administrators only, stand outside.

use crate::api_error::{unit_result_view, ApiError, ApiErrorView};
use crate::decimal::{exact_product, option_view, parsed_decimal, product_fits, Decimal, DecimalView};
use crate::price_feed::{
    AssetPrice, AssetPriceView, CollateralValuation, CollateralValuationView, PriceFeedConfig,
    PriceFeedConfigView, PriceFeedSource,
};
use crate::price_feed_service::{
    amount_not_positive_text, registration, DefaultPriceFeedService,
};
use crate::price_store::{
    active_feeds, feed_views, feeds_ordered, price_not_positive_text, price_views,
};
use crate::text::{join, lowercased, str_eq, to_lowercase};
use crate::timestamp::{rfc3339_text, Timestamp};
use vstd::prelude::*;
use vstd::string::*;

verus! {

/// How many observations a history request lists at most.
pub const HISTORY_LIMIT: i64 = 100;

/// The current price of an asset, as a client sees it.
#[derive(Debug)]
pub struct GetPriceResponse {
    pub asset_code: String,
    pub price: Decimal,
    pub timestamp: String,
    pub source: String,
}

/// One observation in a price history, as a client sees it.
#[derive(Debug)]
pub struct PricePoint {
    pub price: Decimal,
    pub timestamp: String,
    pub source: String,
}

/// The price history of an asset, the newest observation first.
#[derive(Debug)]
pub struct PriceHistoryResponse {
    pub asset_code: String,
    pub prices: Vec<PricePoint>,
}

/// A request to register a price feed.
#[derive(Debug)]
pub struct RegisterFeedRequest {
    pub asset_code: String,
    pub source: String,
    pub feed_id: String,
}

/// A request to push a price.
#[derive(Debug)]
pub struct UpdatePriceRequest {
    pub price: Decimal,
}

/// A valuation, as a client sees it.
#[derive(Debug)]
pub struct ValuationResponse {
    pub asset_code: String,
    pub amount: Decimal,
    pub current_price: Decimal,
    pub valuation_usd: Decimal,
    pub collateral_ratio: Decimal,
    pub last_updated: String,
}

/// The valuation of a plan, as a client sees it.
#[derive(Debug)]
pub struct PlanValuationResponse {
    pub plan_id: u128,
    pub asset_code: String,
    pub amount: Decimal,
    pub current_price: Decimal,
    pub valuation_usd: Decimal,
    pub collateral_ratio: Decimal,
    pub last_updated: String,
}

/// The mathematical content of a [`GetPriceResponse`].
pub struct GetPriceResponseView {
    pub asset_code: Seq<char>,
    pub price: DecimalView,
    pub timestamp: Seq<char>,
    pub source: Seq<char>,
}

/// The mathematical content of a [`PricePoint`].
pub struct PricePointView {
    pub price: DecimalView,
    pub timestamp: Seq<char>,
    pub source: Seq<char>,
}

/// The mathematical content of a [`ValuationResponse`], and with the
/// identifier of the plan that of a [`PlanValuationResponse`].
pub struct ValuationResponseView {
    pub plan_id: u128,
    pub asset_code: Seq<char>,
    pub amount: DecimalView,
    pub current_price: DecimalView,
    pub valuation_usd: DecimalView,
    pub collateral_ratio: DecimalView,
    pub last_updated: Seq<char>,
}

impl View for GetPriceResponse {
    type V = GetPriceResponseView;

    open spec fn view(&self) -> GetPriceResponseView {
        GetPriceResponseView {
            asset_code: self.asset_code@,
            price: self.price@,
            timestamp: self.timestamp@,
            source: self.source@,
        }
    }
}

impl View for PricePoint {
    type V = PricePointView;

    open spec fn view(&self) -> PricePointView {
        PricePointView { price: self.price@, timestamp: self.timestamp@, source: self.source@ }
    }
}

impl View for ValuationResponse {
    type V = ValuationResponseView;

    open spec fn view(&self) -> ValuationResponseView {
        ValuationResponseView {
            plan_id: 0,
            asset_code: self.asset_code@,
            amount: self.amount@,
            current_price: self.current_price@,
            valuation_usd: self.valuation_usd@,
            collateral_ratio: self.collateral_ratio@,
            last_updated: self.last_updated@,
        }
    }
}

impl View for PlanValuationResponse {
    type V = ValuationResponseView;

    open spec fn view(&self) -> ValuationResponseView {
        ValuationResponseView {
            plan_id: self.plan_id,
            asset_code: self.asset_code@,
            amount: self.amount@,
            current_price: self.current_price@,
            valuation_usd: self.valuation_usd@,
            collateral_ratio: self.collateral_ratio@,
            last_updated: self.last_updated@,
        }
    }
}

/// The message of the error for a source that is none of the three.
pub open spec fn invalid_source_text() -> Seq<char> {
    "Invalid source. Must be 'pyth', 'chainlink', or 'custom'"@
}

/// The message of the error for an amount that is no decimal number.
pub open spec fn invalid_amount_text() -> Seq<char> {
    "Invalid amount format"@
}

/// What `uuid::Uuid` writes for the identifier: 32 hexadecimal digits in
/// five groups.
pub uninterp spec fn uuid_text(id: u128) -> Seq<char>;

/// The message of the error for a plan that does not exist.
pub open spec fn plan_not_found_text(plan_id: u128) -> Seq<char> {
    "Plan "@ + uuid_text(plan_id) + " not found"@
}

/// The source that a lower-case tag names.
pub open spec fn source_of_tag(tag: Seq<char>) -> Result<PriceFeedSource, ApiErrorView> {
    if tag == "pyth"@ {
        Ok(PriceFeedSource::Pyth)
    } else if tag == "chainlink"@ {
        Ok(PriceFeedSource::Chainlink)
    } else if tag == "custom"@ {
        Ok(PriceFeedSource::Custom)
    } else {
        Err(ApiErrorView::Validation(invalid_source_text()))
    }
}

/// The price that a client is shown for an observation: `Internal` where
/// its timestamp has no RFC 3339 text.
pub open spec fn price_shown(price: AssetPriceView) -> Result<GetPriceResponseView, ApiErrorView> {
    match rfc3339_text(price.timestamp.secs, price.timestamp.nanos) {
        Some(text) => Ok(
            GetPriceResponseView {
                asset_code: price.asset_code,
                price: price.price,
                timestamp: text,
                source: price.source,
            },
        ),
        None => Err(ApiErrorView::Internal),
    }
}

/// The point that a client is shown for an observation.
pub open spec fn point_shown(price: AssetPriceView) -> Result<PricePointView, ApiErrorView> {
    match rfc3339_text(price.timestamp.secs, price.timestamp.nanos) {
        Some(text) => Ok(PricePointView { price: price.price, timestamp: text, source: price.source }),
        None => Err(ApiErrorView::Internal),
    }
}

/// The valuation that a client is shown, under the identifier of a plan.
pub open spec fn valuation_shown(plan_id: u128, valuation: CollateralValuationView) -> Result<
    ValuationResponseView,
    ApiErrorView,
> {
    match rfc3339_text(valuation.last_updated.secs, valuation.last_updated.nanos) {
        Some(text) => Ok(
            ValuationResponseView {
                plan_id,
                asset_code: valuation.asset_code,
                amount: valuation.amount,
                current_price: valuation.current_price,
                valuation_usd: valuation.valuation_usd,
                collateral_ratio: valuation.collateral_ratio,
                last_updated: text,
            },
        ),
        None => Err(ApiErrorView::Internal),
    }
}

/// The amount that a request for a valuation names: `Validation` where the
/// text is no decimal number or the number is not greater than zero.
pub open spec fn amount_asked(amount: Option<DecimalView>) -> Result<DecimalView, ApiErrorView> {
    match amount {
        Some(a) => if a.is_positive() {
            Ok(a)
        } else {
            Err(ApiErrorView::Validation(amount_not_positive_text()))
        },
        None => Err(ApiErrorView::Validation(invalid_amount_text())),
    }
}

/// The asset and the amount of a plan, from the row that the store found
/// for it: `NotFound` where it found none, `Internal` where the amount is no
/// decimal number.
pub open spec fn plan_asked(
    plan_id: u128,
    row: Option<(Seq<char>, Option<DecimalView>)>,
) -> Result<(Seq<char>, DecimalView), ApiErrorView> {
    match row {
        Some((code, Some(amount))) => Ok((code, amount)),
        Some((_, None)) => Err(ApiErrorView::Internal),
        None => Err(ApiErrorView::NotFound(plan_not_found_text(plan_id))),
    }
}

/// The view of an answer to a price request.
pub open spec fn price_answer_view(r: Result<GetPriceResponse, ApiError>) -> Result<
    GetPriceResponseView,
    ApiErrorView,
> {
    match r {
        Ok(shown) => Ok(shown@),
        Err(e) => Err(e@),
    }
}

/// The view of an answer to a valuation request.
pub open spec fn valuation_answer_view(r: Result<ValuationResponse, ApiError>) -> Result<
    ValuationResponseView,
    ApiErrorView,
> {
    match r {
        Ok(shown) => Ok(shown@),
        Err(e) => Err(e@),
    }
}

/// The view of an answer to a request for the valuation of a plan.
pub open spec fn plan_answer_view(r: Result<PlanValuationResponse, ApiError>) -> Result<
    ValuationResponseView,
    ApiErrorView,
> {
    match r {
        Ok(shown) => Ok(shown@),
        Err(e) => Err(e@),
    }
}

/// The view of a source that was read, or not.
pub open spec fn source_view(r: Result<PriceFeedSource, ApiError>) -> Result<
    PriceFeedSource,
    ApiErrorView,
> {
    match r {
        Ok(source) => Ok(source),
        Err(e) => Err(e@),
    }
}

/// The view of an amount that was read, or not.
pub open spec fn amount_view(r: Result<Decimal, ApiError>) -> Result<DecimalView, ApiErrorView> {
    match r {
        Ok(amount) => Ok(amount@),
        Err(e) => Err(e@),
    }
}

/// The view of a feed that was registered, or not.
pub open spec fn feed_answer_view(r: Result<PriceFeedConfig, ApiError>) -> Result<
    PriceFeedConfigView,
    ApiErrorView,
> {
    match r {
        Ok(config) => Ok(config@),
        Err(e) => Err(e@),
    }
}

/// The answer to a price request, given what the service reported.
pub open spec fn price_answer(reported: Result<AssetPriceView, ApiErrorView>) -> Result<
    GetPriceResponseView,
    ApiErrorView,
> {
    match reported {
        Ok(price) => price_shown(price),
        Err(e) => Err(e),
    }
}

/// The answer to a valuation request, given what the service reported.
pub open spec fn valuation_answer(
    plan_id: u128,
    reported: Result<CollateralValuationView, ApiErrorView>,
) -> Result<ValuationResponseView, ApiErrorView> {
    match reported {
        Ok(valuation) => valuation_shown(plan_id, valuation),
        Err(e) => Err(e),
    }
}

/// The history that a client is shown for the observations `rows`, given
/// as what the answer holds: a point for each observation, in their order.
pub open spec fn history_shown(
    asset_code: Seq<char>,
    rows: Seq<AssetPriceView>,
    r: Result<PriceHistoryResponse, ApiError>,
) -> bool {
    match r {
        Ok(shown) => shown.asset_code@ == asset_code && shown.prices.len() == rows.len()
            && forall|i: int|
            0 <= i < rows.len() ==> point_shown(#[trigger] rows[i]) == Ok::<
                PricePointView,
                ApiErrorView,
            >(shown.prices[i]@),
        Err(e) => e@ == ApiErrorView::Internal && exists|i: int|
            0 <= i < rows.len() && point_shown(#[trigger] rows[i]) is Err,
    }
}

/// The view of the row of a plan, the amount already read.
pub open spec fn plan_row_view(row: Option<(String, Option<Decimal>)>) -> Option<
    (Seq<char>, Option<DecimalView>),
> {
    match row {
        Some((code, amount)) => Some((code@, option_view(amount))),
        None => None,
    }
}

/// Calls `uuid::Uuid::from_u128` and writes the identifier with its
/// `to_string`. The contract names the text and claims no more.
#[verifier::external_body]
fn outside_uuid_text(id: u128) -> (text: String)
    ensures
        text@ == uuid_text(id),
{
    uuid::Uuid::from_u128(id).to_string()
}

/// The source named by a tag in lower case.
pub fn source_from_tag(tag: &str) -> (r: Result<PriceFeedSource, ApiError>)
    ensures
        source_view(r) == source_of_tag(tag@),
{
    if str_eq(tag, "pyth") {
        Ok(PriceFeedSource::Pyth)
    } else if str_eq(tag, "chainlink") {
        Ok(PriceFeedSource::Chainlink)
    } else if str_eq(tag, "custom") {
        Ok(PriceFeedSource::Custom)
    } else {
        Err(
            ApiError::Validation(
                String::from_str("Invalid source. Must be 'pyth', 'chainlink', or 'custom'"),
            ),
        )
    }
}

/// The source named by a text, whatever its case.
pub fn parse_source(text: &str) -> (r: Result<PriceFeedSource, ApiError>)
    ensures
        source_view(r) == source_of_tag(lowercased(text@)),
{
    let tag = to_lowercase(text);
    source_from_tag(tag.as_str())
}

/// Checks the amount of a valuation request once it was read.
pub fn check_amount(amount: Option<Decimal>) -> (r: Result<Decimal, ApiError>)
    ensures
        amount_view(r) == amount_asked(option_view(amount)),
{
    match amount {
        Some(a) => {
            if a.is_positive() {
                Ok(a)
            } else {
                Err(ApiError::Validation(String::from_str("Amount must be greater than zero")))
            }
        },
        None => Err(ApiError::Validation(String::from_str("Invalid amount format"))),
    }
}

/// Reads and checks the amount of a valuation request.
pub fn parse_amount(text: &str) -> (r: Result<Decimal, ApiError>)
    ensures
        amount_view(r) == amount_asked(parsed_decimal(text@)),
{
    let amount = match Decimal::from_str(text) {
        Ok(a) => Some(a),
        Err(_) => None,
    };
    check_amount(amount)
}

/// Checks the price of an update request: it must be greater than zero.
pub fn check_price(request: &UpdatePriceRequest) -> (r: Result<(), ApiError>)
    ensures
        unit_result_view(r) == (if request.price@.is_positive() {
            Ok(())
        } else {
            Err(ApiErrorView::Validation(price_not_positive_text()))
        }),
{
    if request.price.is_positive() {
        Ok(())
    } else {
        Err(ApiError::Validation(String::from_str("Price must be greater than zero")))
    }
}

/// Shapes an observation into the answer to a price request.
pub fn price_response(price: AssetPrice) -> (r: Result<GetPriceResponse, ApiError>)
    ensures
        price_answer_view(r) == price_shown(price@),
{
    match price.timestamp.to_rfc3339() {
        Some(timestamp) => Ok(
            GetPriceResponse {
                asset_code: price.asset_code,
                price: price.price,
                timestamp,
                source: price.source,
            },
        ),
        None => Err(ApiError::Internal),
    }
}

/// Shapes a history into the answer to a history request. One observation
/// whose timestamp has no text fails the whole answer with `Internal`.
pub fn history_response(asset_code: &str, history: Vec<AssetPrice>) -> (r: Result<
    PriceHistoryResponse,
    ApiError,
>)
    ensures
        history_shown(asset_code@, price_views(history@), r),
{
    let mut prices: Vec<PricePoint> = Vec::new();
    let mut i: usize = 0;
    let ghost rows = price_views(history@);
    while i < history.len()
        invariant
            i <= history.len(),
            prices.len() == i,
            rows == price_views(history@),
            forall|j: int|
                0 <= j < i ==> point_shown(#[trigger] rows[j]) == Ok::<
                    PricePointView,
                    ApiErrorView,
                >(prices[j]@),
        decreases history.len() - i,
    {
        let p = &history[i];
        assert(rows[i as int] == history[i as int]@);
        match p.timestamp.to_rfc3339() {
            Some(timestamp) => {
                prices.push(PricePoint { price: p.price, timestamp, source: p.source.clone() });
            },
            None => {
                assert(point_shown(rows[i as int]) is Err);
                return Err(ApiError::Internal);
            },
        }
        i = i + 1;
    }
    Ok(PriceHistoryResponse { asset_code: String::from_str(asset_code), prices })
}

/// Shapes a valuation into the answer to a valuation request.
pub fn valuation_response(valuation: CollateralValuation) -> (r: Result<ValuationResponse, ApiError>)
    ensures
        valuation_answer_view(r) == valuation_shown(0, valuation@),
{
    match valuation.last_updated.to_rfc3339() {
        Some(last_updated) => Ok(
            ValuationResponse {
                asset_code: valuation.asset_code,
                amount: valuation.amount,
                current_price: valuation.current_price,
                valuation_usd: valuation.valuation_usd,
                collateral_ratio: valuation.collateral_ratio,
                last_updated,
            },
        ),
        None => Err(ApiError::Internal),
    }
}

/// Shapes a valuation into the answer to a request for the valuation of
/// the plan `plan_id`.
pub fn plan_valuation_response(plan_id: u128, valuation: CollateralValuation) -> (r: Result<
    PlanValuationResponse,
    ApiError,
>)
    ensures
        plan_answer_view(r) == valuation_shown(plan_id, valuation@),
{
    match valuation.last_updated.to_rfc3339() {
        Some(last_updated) => Ok(
            PlanValuationResponse {
                plan_id,
                asset_code: valuation.asset_code,
                amount: valuation.amount,
                current_price: valuation.current_price,
                valuation_usd: valuation.valuation_usd,
                collateral_ratio: valuation.collateral_ratio,
                last_updated,
            },
        ),
        None => Err(ApiError::Internal),
    }
}

/// The asset and the amount of a plan from the row that the store found
/// for it, the amount already read.
pub fn plan_inputs(plan_id: u128, row: Option<(String, Option<Decimal>)>) -> (r: Result<
    (String, Decimal),
    ApiError,
>)
    ensures
        match r {
            Ok(inputs) => plan_asked(plan_id, plan_row_view(row)) == Ok::<
                (Seq<char>, DecimalView),
                ApiErrorView,
            >((inputs.0@, inputs.1@)),
            Err(e) => plan_asked(plan_id, plan_row_view(row)) == Err::<
                (Seq<char>, DecimalView),
                ApiErrorView,
            >(e@),
        },
{
    match row {
        Some((code, Some(amount))) => Ok((code, amount)),
        Some((_, None)) => Err(ApiError::Internal),
        None => {
            let id = outside_uuid_text(plan_id);
            let head = join("Plan ", id.as_str());
            Err(ApiError::NotFound(join(head.as_str(), " not found")))
        },
    }
}

/// Answers a request for the current price of an asset at `now`.
pub fn get_price(service: &mut DefaultPriceFeedService, asset_code: &str, now: &Timestamp) -> (r:
    Result<GetPriceResponse, ApiError>)
    ensures
        price_answer_view(r) == price_answer(old(service)@.price_at(asset_code@, *now)),
        final(service)@ == old(service)@.after_get_price(asset_code@, *now),
{
    match service.get_price_at(asset_code, now) {
        Ok(asset_price) => price_response(asset_price),
        Err(e) => Err(e),
    }
}

/// Answers a request for the price history of an asset: the 100 most
/// recent observations, the newest first.
pub fn get_price_history(service: &DefaultPriceFeedService, asset_code: &str) -> (r: Result<
    PriceHistoryResponse,
    ApiError,
>)
    ensures
        service@.history_result(asset_code@, HISTORY_LIMIT) is Ok,
        history_shown(
            asset_code@,
            service@.history_result(asset_code@, HISTORY_LIMIT)->Ok_0,
            r,
        ),
{
    match service.get_price_history(asset_code, HISTORY_LIMIT) {
        Ok(history) => history_response(asset_code, history),
        Err(e) => Err(e),
    }
}

/// Answers a request to register a price feed. The source may be written
/// in any case; a source that is none of the three is rejected with
/// `Validation` and nothing is registered. `id` becomes the identifier of a
/// feed that is new.
pub fn register_price_feed(
    service: &mut DefaultPriceFeedService,
    request: &RegisterFeedRequest,
    id: u128,
) -> (r: Result<PriceFeedConfig, ApiError>)
    ensures
        feed_answer_view(r) == (match source_of_tag(lowercased(request.source@)) {
            Ok(source) => Ok(registration(id, request.asset_code@, source, request.feed_id@)),
            Err(invalid) => Err(invalid),
        }),
        final(service)@ == (match source_of_tag(lowercased(request.source@)) {
            Ok(source) => old(service)@.after_register(
                id,
                request.asset_code@,
                source,
                request.feed_id@,
            ),
            Err(_) => old(service)@,
        }),
{
    let source = match parse_source(request.source.as_str()) {
        Ok(source) => source,
        Err(e) => {
            return Err(e);
        },
    };
    service.register_feed_with_id(
        id,
        request.asset_code.as_str(),
        source,
        request.feed_id.as_str(),
    )
}

/// Answers a request to push a price for an asset at `now`. A price that
/// is not greater than zero is rejected before the service is asked.
pub fn update_price(
    service: &mut DefaultPriceFeedService,
    asset_code: &str,
    request: &UpdatePriceRequest,
    now: &Timestamp,
) -> (r: Result<GetPriceResponse, ApiError>)
    ensures
        price_answer_view(r) == (if request.price@.is_positive() {
            price_answer(old(service)@.update_result(asset_code@, request.price@, *now))
        } else {
            Err(ApiErrorView::Validation(price_not_positive_text()))
        }),
        final(service)@ == old(service)@.after_update(asset_code@, request.price@, *now),
{
    match check_price(request) {
        Ok(_) => {},
        Err(e) => {
            return Err(e);
        },
    }
    match service.update_price_at(asset_code, request.price, now) {
        Ok(asset_price) => price_response(asset_price),
        Err(e) => Err(e),
    }
}

/// Answers a request for the valuation of an amount, given as text, of an
/// asset at `now`. The amount is checked before the price is resolved.
pub fn calculate_valuation(
    service: &mut DefaultPriceFeedService,
    asset_code: &str,
    amount_text: &str,
    now: &Timestamp,
) -> (r: Result<ValuationResponse, ApiError>)
    ensures
        valuation_answer_view(r) == (match amount_asked(parsed_decimal(amount_text@)) {
            Ok(amount) => valuation_answer(
                0,
                old(service)@.valuation_at(asset_code@, amount, *now),
            ),
            Err(invalid) => Err(invalid),
        }),
        final(service)@ == (match amount_asked(parsed_decimal(amount_text@)) {
            Ok(_) => old(service)@.after_get_price(asset_code@, *now),
            Err(_) => old(service)@,
        }),
        r matches Ok(shown) ==> (product_fits(shown@.amount, shown@.current_price)
            ==> shown@.valuation_usd == exact_product(shown@.amount, shown@.current_price)),
{
    let amount = match parse_amount(amount_text) {
        Ok(amount) => amount,
        Err(e) => {
            return Err(e);
        },
    };
    match service.calculate_valuation_at(asset_code, amount, now) {
        Ok(valuation) => valuation_response(valuation),
        Err(e) => Err(e),
    }
}

/// Answers a request for the valuation of a plan at `now`, given the row
/// that the store found for the plan: its asset and its amount as text. A
/// plan that was not found is `NotFound`; an amount that is no decimal number
/// is `Internal`.
pub fn get_plan_valuation(
    service: &mut DefaultPriceFeedService,
    plan_id: u128,
    plan: Option<(String, String)>,
    now: &Timestamp,
) -> (r: Result<PlanValuationResponse, ApiError>)
    ensures
        plan_answer_view(r) == (match plan {
            Some(texts) => match parsed_decimal(texts.1@) {
                Some(amount) => valuation_answer(
                    plan_id,
                    old(service)@.valuation_at(texts.0@, amount, *now),
                ),
                None => Err(ApiErrorView::Internal),
            },
            None => Err(ApiErrorView::NotFound(plan_not_found_text(plan_id))),
        }),
        final(service)@ == (match plan {
            Some(texts) => match parsed_decimal(texts.1@) {
                Some(_) => old(service)@.after_get_price(texts.0@, *now),
                None => old(service)@,
            },
            None => old(service)@,
        }),
{
    let row = match plan {
        Some(texts) => {
            let amount = match Decimal::from_str(texts.1.as_str()) {
                Ok(a) => Some(a),
                Err(_) => None,
            };
            Some((texts.0, amount))
        },
        None => None,
    };
    let (asset_code, amount) = match plan_inputs(plan_id, row) {
        Ok(inputs) => inputs,
        Err(e) => {
            return Err(e);
        },
    };
    match service.calculate_valuation_at(asset_code.as_str(), amount, now) {
        Ok(valuation) => plan_valuation_response(plan_id, valuation),
        Err(e) => Err(e),
    }
}

/// Answers a request for the active feeds: the feeds in ascending order of
/// asset code, and how many they are.
pub fn get_active_feeds(service: &DefaultPriceFeedService) -> (r: Result<
    (Vec<PriceFeedConfig>, usize),
    ApiError,
>)
    ensures
        r matches Ok(answer) && feed_views(answer.0@) == active_feeds(service@.store.feeds)
            && feeds_ordered(feed_views(answer.0@)) && answer.1 == answer.0.len(),
{
    match service.get_active_feeds() {
        Ok(feeds) => {
            let count = feeds.len();
            Ok((feeds, count))
        },
        Err(e) => Err(e),
    }
}

} // verus!
