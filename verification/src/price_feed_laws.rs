//! What holds of the price feed service across calls.
//!
//! The statements are about the states and results that the contracts of
//! [`DefaultPriceFeedService`](crate::price_feed_service::DefaultPriceFeedService)
//! speak of, so each of them holds of every run of the service.

use crate::api_error::ApiErrorView;
use crate::decimal::DecimalView;
use crate::price_feed::{AssetPriceView, PriceFeedSource};
use crate::price_feed_service::{
    feed_not_found_text, lemma_newest_first_of_code, observation, reported, ServiceView,
};
use crate::price_store::{
    active_feeds, feed_slot, first_rows, has_active_feed, history_ordered, holds_feed, latest,
    lemma_active_feeds, lemma_feed_slot, lemma_row_slot, lemma_with_feed,
    lemma_with_observation_wf, lemma_with_row_ordered, newest_first, row_slot, with_row,
    PriceStoreView,
};
use crate::text::{lemma_text_lt_total, text_lt};
use crate::timestamp::Timestamp;
use vstd::prelude::*;

verus! {

/// The observations of a code in two histories laid end to end are those of
/// the second followed by those of the first.
pub proof fn lemma_newest_first_concat(
    a: Seq<AssetPriceView>,
    b: Seq<AssetPriceView>,
    code: Seq<char>,
)
    ensures
        newest_first(a + b, code) == newest_first(b, code) + newest_first(a, code),
    decreases b.len(),
{
    if b.len() == 0 {
        assert(a + b =~= a);
        assert(newest_first(b, code) + newest_first(a, code) =~= newest_first(a, code));
    } else {
        assert((a + b).drop_last() =~= a + b.drop_last());
        assert((a + b).last() == b.last());
        lemma_newest_first_concat(a, b.drop_last(), code);
        if b.last().asset_code == code {
            assert(seq![b.last()] + (newest_first(b.drop_last(), code) + newest_first(a, code))
                =~= (seq![b.last()] + newest_first(b.drop_last(), code)) + newest_first(a, code));
        }
    }
}

/// A history of one observation lists it for its code.
pub proof fn lemma_newest_first_single(row: AssetPriceView)
    ensures
        newest_first(seq![row], row.asset_code) == seq![row],
{
    let one = seq![row];
    assert(one.last() == row);
    assert(one.drop_last().len() == 0);
    assert(newest_first(one.drop_last(), row.asset_code) =~= Seq::<AssetPriceView>::empty());
    assert(newest_first(one, row.asset_code) =~= seq![row]);
}

/// A history without an observation of a code lists none for it.
pub proof fn lemma_newest_first_none(history: Seq<AssetPriceView>, code: Seq<char>)
    requires
        forall|i: int| 0 <= i < history.len() ==> (#[trigger] history[i]).asset_code != code,
    ensures
        newest_first(history, code).len() == 0,
    decreases history.len(),
{
    if history.len() > 0 {
        let rest = history.drop_last();
        assert(history.last() == history[history.len() - 1]);
        assert forall|i: int| 0 <= i < rest.len() implies (#[trigger] rest[i]).asset_code != code by {
            assert(rest[i] == history[i]);
        }
        lemma_newest_first_none(rest, code);
    }
}

/// Every observation listed for a code stands in the history.
pub proof fn lemma_newest_first_member(history: Seq<AssetPriceView>, code: Seq<char>, i: int)
    requires
        0 <= i < newest_first(history, code).len(),
    ensures
        exists|j: int|
            0 <= j < history.len() && #[trigger] history[j] == newest_first(history, code)[i],
    decreases history.len(),
{
    let rest = history.drop_last();
    let last = history.len() - 1;
    if history.last().asset_code == code && i == 0 {
        assert(history[last] == newest_first(history, code)[i]);
    } else {
        let k = if history.last().asset_code == code {
            i - 1
        } else {
            i
        };
        assert(newest_first(history, code)[i] == newest_first(rest, code)[k]);
        lemma_newest_first_member(rest, code, k);
        let j = choose|j: int| 0 <= j < rest.len() && #[trigger] rest[j] == newest_first(rest, code)[k];
        assert(history[j] == rest[j]);
    }
}

/// In a history in order of timestamp, the observations listed for a code
/// stand in reverse-chronological order.
pub proof fn lemma_newest_first_descending(history: Seq<AssetPriceView>, code: Seq<char>)
    requires
        history_ordered(history),
    ensures
        forall|i: int, j: int|
            #![trigger newest_first(history, code)[i], newest_first(history, code)[j]]
            0 <= i < j < newest_first(history, code).len() ==> newest_first(
                history,
                code,
            )[j].timestamp.at_or_before(newest_first(history, code)[i].timestamp),
    decreases history.len(),
{
    if history.len() > 0 {
        let rest = history.drop_last();
        let rows = newest_first(history, code);
        let older = newest_first(rest, code);
        assert forall|i: int, j: int| 0 <= i < j < rest.len() implies rest[i].timestamp.at_or_before(
            rest[j].timestamp,
        ) by {
            assert(rest[i] == history[i] && rest[j] == history[j]);
        }
        lemma_newest_first_descending(rest, code);
        assert forall|i: int, j: int| 0 <= i < j < rows.len() implies rows[j].timestamp.at_or_before(
            rows[i].timestamp,
        ) by {
            if history.last().asset_code == code {
                assert(rows[j] == older[j - 1]);
                if i == 0 {
                    lemma_newest_first_member(rest, code, j - 1);
                    let m = choose|m: int| 0 <= m < rest.len() && #[trigger] rest[m] == older[j - 1];
                    assert(history[m] == rest[m]);
                    assert(history[m].timestamp.at_or_before(
                        history[history.len() - 1].timestamp,
                    ));
                } else {
                    assert(rows[i] == older[i - 1]);
                }
            } else {
                assert(rows[i] == older[i] && rows[j] == older[j]);
            }
        }
    }
}

/// Every observation of a code in the history is listed for the code.
pub proof fn lemma_newest_first_complete(history: Seq<AssetPriceView>, code: Seq<char>, j: int)
    requires
        0 <= j < history.len(),
        history[j].asset_code == code,
    ensures
        exists|i: int|
            0 <= i < newest_first(history, code).len() && #[trigger] newest_first(history, code)[i]
                == history[j],
    decreases history.len(),
{
    let rest = history.drop_last();
    let rows = newest_first(history, code);
    if j == history.len() - 1 {
        assert(rows[0] == history[j]);
    } else {
        assert(rest[j] == history[j]);
        lemma_newest_first_complete(rest, code, j);
        let i = choose|i: int|
            0 <= i < newest_first(rest, code).len() && #[trigger] newest_first(rest, code)[i]
                == rest[j];
        if history.last().asset_code == code {
            assert(rows[i + 1] == newest_first(rest, code)[i]);
        } else {
            assert(rows[i] == newest_first(rest, code)[i]);
        }
    }
}

/// The latest observation of an asset is an observation of that asset in
/// the store, and no observation of the asset is stamped later. An asset has
/// a latest observation exactly if it has an observation at all.
pub proof fn law_latest_is_most_recent(store: PriceStoreView, code: Seq<char>, j: int)
    requires
        store.wf(),
        0 <= j < store.history.len(),
        store.history[j].asset_code == code,
    ensures
        latest(store.history, code) matches Some(row) && row.asset_code == code
            && store.history[j].timestamp.at_or_before(row.timestamp) && exists|k: int|
            0 <= k < store.history.len() && #[trigger] store.history[k] == row,
{
    let rows = newest_first(store.history, code);
    lemma_newest_first_complete(store.history, code, j);
    let i = choose|i: int| 0 <= i < rows.len() && #[trigger] rows[i] == store.history[j];
    lemma_newest_first_descending(store.history, code);
    lemma_newest_first_member(store.history, code, 0);
    lemma_newest_first_of_code(store.history, code);
    if i > 0 {
        assert(rows[i].timestamp.at_or_before(rows[0].timestamp));
    }
}

/// An asset without an observation in the store has no latest observation.
pub proof fn law_latest_of_nothing(store: PriceStoreView, code: Seq<char>)
    requires
        forall|j: int|
            0 <= j < store.history.len() ==> (#[trigger] store.history[j]).asset_code != code,
    ensures
        latest(store.history, code) is None,
{
    lemma_newest_first_none(store.history, code);
}

/// The history only grows: appending an observation leaves every
/// observation that was there in the history, in the order they had.
pub proof fn law_history_only_grows(store: PriceStoreView, row: AssetPriceView)
    requires
        store.wf(),
    ensures
        store.with_observation(row).history.len() == store.history.len() + 1,
        store.with_observation(row).history.remove(row_slot(store.history, row.timestamp))
            == store.history,
        store.with_observation(row).history[row_slot(store.history, row.timestamp)] == row,
{
    lemma_row_slot(store.history, row.timestamp);
    let k = row_slot(store.history, row.timestamp);
    assert(store.history.insert(k, row).remove(k) =~= store.history);
}

/// Every price that the service hands out is greater than zero.
pub proof fn law_price_is_positive(service: ServiceView, code: Seq<char>, now: Timestamp)
    requires
        service.wf(),
    ensures
        service.price_at(code, now) matches Ok(price) ==> price.price.is_positive(),
{
    let rows = newest_first(service.store.history, code);
    if rows.len() > 0 {
        lemma_newest_first_member(service.store.history, code, 0);
    }
}

/// Every operation of the service keeps its state well formed.
pub proof fn law_wf_is_kept(
    service: ServiceView,
    code: Seq<char>,
    price: DecimalView,
    now: Timestamp,
    id: u128,
    source: PriceFeedSource,
    feed_id: Seq<char>,
)
    requires
        service.wf(),
    ensures
        service.after_get_price(code, now).wf(),
        service.after_update(code, price, now).wf(),
        service.after_register(id, code, source, feed_id).wf(),
        service.after_initialize(id).wf(),
{
    law_price_is_positive(service, code, now);
    if service.update_result(code, price, now) is Ok {
        lemma_with_observation_wf(service.store, observation(code, price, now));
    }
    lemma_with_feed(service.store.feeds, id, code, source.tag(), feed_id);
    lemma_with_feed(service.store.feeds, id, "USDC"@, "custom"@, "usdc-usd"@);
}

/// No asset code occurs twice among the active feeds.
pub proof fn law_active_feeds_unique(service: ServiceView, i: int, j: int)
    requires
        service.wf(),
        0 <= i < active_feeds(service.store.feeds).len(),
        0 <= j < active_feeds(service.store.feeds).len(),
        active_feeds(service.store.feeds)[i].asset_code == active_feeds(
            service.store.feeds,
        )[j].asset_code,
    ensures
        i == j,
{
    let list = active_feeds(service.store.feeds);
    lemma_active_feeds(service.store.feeds);
    lemma_text_lt_total(list[i].asset_code, list[j].asset_code);
    if i < j {
        assert(text_lt(list[i].asset_code, list[j].asset_code));
    } else if j < i {
        assert(text_lt(list[j].asset_code, list[i].asset_code));
    }
}

/// Pushing a price for an asset without an active feed fails with
/// `Validation` and changes nothing; once a feed is registered for the
/// asset, pushing the same price succeeds if the price is greater than zero.
pub proof fn law_update_needs_feed(
    service: ServiceView,
    code: Seq<char>,
    price: DecimalView,
    now: Timestamp,
    id: u128,
    source: PriceFeedSource,
    feed_id: Seq<char>,
    later: Timestamp,
)
    requires
        service.wf(),
        !has_active_feed(service.store.feeds, code),
    ensures
        service.update_result(code, price, now) == Err::<AssetPriceView, ApiErrorView>(
            ApiErrorView::Validation(feed_not_found_text(code)),
        ),
        service.after_update(code, price, now) == service,
        price.is_positive() ==> service.after_register(id, code, source, feed_id).update_result(
            code,
            price,
            later,
        ) == Ok::<AssetPriceView, ApiErrorView>(observation(code, price, later)),
{
    lemma_with_feed(service.store.feeds, id, code, source.tag(), feed_id);
}

/// Registering a feed twice for one asset leaves one active feed for it,
/// with the source and the feed identifier of the second registration.
pub proof fn law_register_twice(
    service: ServiceView,
    code: Seq<char>,
    first_id: u128,
    first_source: PriceFeedSource,
    first_feed_id: Seq<char>,
    second_id: u128,
    second_source: PriceFeedSource,
    second_feed_id: Seq<char>,
)
    requires
        service.wf(),
    ensures
        ({
            let twice = service.after_register(
                first_id,
                code,
                first_source,
                first_feed_id,
            ).after_register(second_id, code, second_source, second_feed_id);
            let list = active_feeds(twice.store.feeds);
            &&& twice.wf()
            &&& exists|k: int|
                0 <= k < list.len() && (#[trigger] list[k]).asset_code == code && list[k].source
                    == second_source.tag() && list[k].feed_id == second_feed_id
            &&& forall|i: int, j: int|
                0 <= i < list.len() && 0 <= j < list.len() && (#[trigger] list[i]).asset_code
                    == code && (#[trigger] list[j]).asset_code == code ==> i == j
        }),
{
    let once = service.after_register(first_id, code, first_source, first_feed_id);
    lemma_with_feed(service.store.feeds, first_id, code, first_source.tag(), first_feed_id);
    let twice = once.after_register(second_id, code, second_source, second_feed_id);
    lemma_with_feed(once.store.feeds, second_id, code, second_source.tag(), second_feed_id);
    let feeds = twice.store.feeds;
    let list = active_feeds(feeds);
    let slot = feed_slot(once.store.feeds, code);
    lemma_feed_slot(once.store.feeds, code);
    lemma_active_feeds(feeds);
    assert(feeds[slot].is_active && feeds[slot].asset_code == code);
    assert(holds_feed(list, feeds[slot]));
    let k = choose|k: int| 0 <= k < list.len() && #[trigger] list[k] == feeds[slot];
    assert(list[k].asset_code == code && list[k].source == second_source.tag() && list[k].feed_id
        == second_feed_id);
    assert forall|i: int, j: int|
        0 <= i < list.len() && 0 <= j < list.len() && (#[trigger] list[i]).asset_code == code && (
        #[trigger] list[j]).asset_code == code implies i == j by {
        law_active_feeds_unique(twice, i, j);
    }
}

/// A price pushed for an asset is what `get_price` reports right after, to
/// the digit and with the timestamp of the push, provided no observation of
/// the asset in the store is stamped later than the push.
pub proof fn law_price_after_update(
    service: ServiceView,
    code: Seq<char>,
    price: DecimalView,
    now: Timestamp,
    then: Timestamp,
)
    requires
        service.wf(),
        service.update_result(code, price, now) is Ok,
        forall|i: int|
            0 <= i < service.store.history.len() && (#[trigger] service.store.history[i]).asset_code
                == code ==> service.store.history[i].timestamp.at_or_before(now),
    ensures
        service.update_result(code, price, now) == Ok::<AssetPriceView, ApiErrorView>(
            observation(code, price, now),
        ),
        service.after_update(code, price, now).price_at(code, then) == Ok::<
            AssetPriceView,
            ApiErrorView,
        >(observation(code, price, now)),
{
    let row = observation(code, price, now);
    let history = service.store.history;
    let after = service.after_update(code, price, now);
    let k = row_slot(history, now);
    lemma_row_slot(history, now);
    let newer = history.skip(k);
    assert forall|i: int| 0 <= i < newer.len() implies (#[trigger] newer[i]).asset_code != code by {
        assert(newer[i] == history[k + i]);
    }
    lemma_newest_first_none(newer, code);
    assert(with_row(history, row) =~= (history.take(k) + seq![row]) + newer);
    lemma_newest_first_concat(history.take(k) + seq![row], newer, code);
    lemma_newest_first_concat(history.take(k), seq![row], code);
    lemma_newest_first_single(row);
    assert(newest_first(with_row(history, row), code)[0] == row);
    assert(after.cache[code] == row);
}

/// While a cache entry is fresh, `get_price` reports it whatever the store
/// holds and leaves the state as it is: no read of the store takes place.
/// Once the entry is no longer fresh, `get_price` reports the store's latest
/// observation, which becomes the entry.
pub proof fn law_cache(
    service: ServiceView,
    other_store: PriceStoreView,
    code: Seq<char>,
    at: Timestamp,
)
    requires
        service.cache.contains_key(code),
    ensures
        service.cache[code].timestamp.younger_than(at, service.ttl_secs) ==> {
            &&& service.price_at(code, at) == Ok::<AssetPriceView, ApiErrorView>(
                service.cache[code],
            )
            &&& service.after_get_price(code, at) == service
            &&& (ServiceView {
                store: other_store,
                cache: service.cache,
                ttl_secs: service.ttl_secs,
            }).price_at(code, at) == service.price_at(code, at)
        },
        !service.cache[code].timestamp.younger_than(at, service.ttl_secs) ==> (match latest(
            service.store.history,
            code,
        ) {
            Some(row) => service.price_at(code, at) == Ok::<AssetPriceView, ApiErrorView>(
                reported(row),
            ) && service.after_get_price(code, at).cache[code] == reported(row),
            None => service.price_at(code, at) is Err,
        }),
{
}

/// An observation appended to the history of an asset is listed in the
/// asset's history at its rank: behind the observations that are later than
/// it and before all others. It is part of every listing that is at least as
/// long as its rank, and every listing is in reverse-chronological order.
pub proof fn law_history_round_trip(store: PriceStoreView, row: AssetPriceView, limit: int)
    requires
        store.wf(),
    ensures
        ({
            let rows = newest_first(store.with_observation(row).history, row.asset_code);
            let rank = newest_first(
                store.history.skip(row_slot(store.history, row.timestamp)),
                row.asset_code,
            ).len() as int;
            &&& rank < rows.len()
            &&& rows[rank] == row
            &&& forall|i: int|
                0 <= i < rank ==> !(#[trigger] rows[i]).timestamp.at_or_before(row.timestamp)
            &&& forall|i: int|
                rank < i < rows.len() ==> (#[trigger] rows[i]).timestamp.at_or_before(row.timestamp)
            &&& limit > rank ==> first_rows(rows, limit).len() > rank && first_rows(
                rows,
                limit,
            )[rank] == row
            &&& forall|i: int, j: int|
                #![trigger rows[i], rows[j]]
                0 <= i < j < rows.len() ==> rows[j].timestamp.at_or_before(rows[i].timestamp)
        }),
{
    let code = row.asset_code;
    let history = store.history;
    let k = row_slot(history, row.timestamp);
    lemma_row_slot(history, row.timestamp);
    let older = history.take(k);
    let newer = history.skip(k);
    let after = with_row(history, row);
    let rows = newest_first(after, code);
    let rank = newest_first(newer, code).len() as int;
    assert(after =~= (older + seq![row]) + newer);
    lemma_newest_first_concat(older + seq![row], newer, code);
    lemma_newest_first_concat(older, seq![row], code);
    lemma_newest_first_single(row);
    assert(rows =~= newest_first(newer, code) + (seq![row] + newest_first(older, code)));
    assert(rows[rank] == row);
    assert forall|i: int| 0 <= i < rank implies !(#[trigger] rows[i]).timestamp.at_or_before(
        row.timestamp,
    ) by {
        assert(rows[i] == newest_first(newer, code)[i]);
        lemma_newest_first_member(newer, code, i);
        let m = choose|m: int|
            0 <= m < newer.len() && #[trigger] newer[m] == newest_first(newer, code)[i];
        assert(newer[m] == history[k + m]);
    }
    assert forall|i: int| rank < i < rows.len() implies (#[trigger] rows[i]).timestamp.at_or_before(
        row.timestamp,
    ) by {
        let n = i - rank - 1;
        assert(rows[i] == newest_first(older, code)[n]);
        lemma_newest_first_member(older, code, n);
        let m = choose|m: int|
            0 <= m < older.len() && #[trigger] older[m] == newest_first(older, code)[n];
        assert(older[m] == history[m]);
    }
    lemma_with_row_ordered(history, row);
    lemma_newest_first_descending(after, code);
}

/// A price pushed through `update_price` is listed by `get_price_history`
/// for the asset at its rank, for every limit that reaches the rank.
pub proof fn law_update_in_history(
    service: ServiceView,
    code: Seq<char>,
    price: DecimalView,
    now: Timestamp,
    limit: i64,
)
    requires
        service.wf(),
        service.update_result(code, price, now) is Ok,
    ensures
        ({
            let row = observation(code, price, now);
            let rank = newest_first(
                service.store.history.skip(row_slot(service.store.history, now)),
                code,
            ).len() as int;
            let listed = service.after_update(code, price, now).history_result(code, limit);
            &&& service.after_update(code, price, now).wf()
            &&& limit >= 0 ==> listed is Ok
            &&& limit > rank ==> listed->Ok_0.len() > rank && listed->Ok_0[rank] == row
        }),
{
    let row = observation(code, price, now);
    law_history_round_trip(service.store, row, limit as int);
    lemma_with_observation_wf(service.store, row);
}

} // verus!
