//! The price store: the history of price observations and the registry of
//! price feeds.
//!
//! The history only grows. It is kept in order of timestamp, an observation
//! going behind every other that is not later than it, so the latest
//! observation of an asset is the last one the history holds for it. The
//! registry holds at most one feed per asset code and is kept in ascending
//! order of asset code.

use crate::api_error::{ApiError, ApiErrorView};
use crate::decimal::Decimal;
use crate::price_feed::{AssetPrice, AssetPriceView, PriceFeedConfig, PriceFeedConfigView};
use crate::text::{
    lemma_text_lt_total, lemma_text_lt_transitive, str_eq, str_lt, text_lt,
};
use crate::timestamp::Timestamp;
use vstd::prelude::*;
use vstd::string::*;

verus! {

/// The views of a sequence of feed configurations.
pub open spec fn feed_views(feeds: Seq<PriceFeedConfig>) -> Seq<PriceFeedConfigView> {
    Seq::new(feeds.len(), |i: int| feeds[i]@)
}

/// The views of a sequence of price observations.
pub open spec fn price_views(rows: Seq<AssetPrice>) -> Seq<AssetPriceView> {
    Seq::new(rows.len(), |i: int| rows[i]@)
}

/// The feeds stand in strictly ascending order of asset code.
pub open spec fn feeds_ordered(feeds: Seq<PriceFeedConfigView>) -> bool {
    forall|i: int, j: int|
        #![trigger feeds[i], feeds[j]]
        0 <= i < j < feeds.len() ==> text_lt(feeds[i].asset_code, feeds[j].asset_code)
}

/// The observations stand in ascending order of timestamp.
pub open spec fn history_ordered(history: Seq<AssetPriceView>) -> bool {
    forall|i: int, j: int|
        #![trigger history[i], history[j]]
        0 <= i < j < history.len() ==> history[i].timestamp.at_or_before(history[j].timestamp)
}

/// Every observation carries a price greater than zero.
pub open spec fn prices_positive(history: Seq<AssetPriceView>) -> bool {
    forall|i: int| 0 <= i < history.len() ==> (#[trigger] history[i]).price.is_positive()
}

/// The first index at or after `i` whose feed does not come before `code`.
pub open spec fn feed_slot_from(feeds: Seq<PriceFeedConfigView>, code: Seq<char>, i: int) -> int
    decreases feeds.len() - i,
{
    if i < 0 || i >= feeds.len() || !text_lt(feeds[i].asset_code, code) {
        i
    } else {
        feed_slot_from(feeds, code, i + 1)
    }
}

/// The place of `code` in the registry: the index of its feed if it has
/// one, else the index at which a feed for it would be inserted.
pub open spec fn feed_slot(feeds: Seq<PriceFeedConfigView>, code: Seq<char>) -> int {
    feed_slot_from(feeds, code, 0)
}

/// A feed is registered for `code`, active or not.
pub open spec fn has_feed(feeds: Seq<PriceFeedConfigView>, code: Seq<char>) -> bool {
    let k = feed_slot(feeds, code);
    k < feeds.len() && feeds[k].asset_code == code
}

/// An active feed is registered for `code`.
pub open spec fn has_active_feed(feeds: Seq<PriceFeedConfigView>, code: Seq<char>) -> bool {
    has_feed(feeds, code) && feeds[feed_slot(feeds, code)].is_active
}

/// The registry after a feed was registered for `code`: an existing feed
/// keeps its identifier and its last update and takes the new source and feed
/// identifier; otherwise a new feed with identifier `id` takes its place in
/// the order. Either way the feed is active.
pub open spec fn with_feed(
    feeds: Seq<PriceFeedConfigView>,
    id: u128,
    code: Seq<char>,
    source: Seq<char>,
    feed_id: Seq<char>,
) -> Seq<PriceFeedConfigView> {
    let k = feed_slot(feeds, code);
    if has_feed(feeds, code) {
        feeds.update(
            k,
            PriceFeedConfigView {
                id: feeds[k].id,
                asset_code: code,
                source,
                feed_id,
                is_active: true,
                last_updated: feeds[k].last_updated,
            },
        )
    } else {
        feeds.insert(
            k,
            PriceFeedConfigView {
                id,
                asset_code: code,
                source,
                feed_id,
                is_active: true,
                last_updated: None,
            },
        )
    }
}

/// The registry after the feed of `code`, if there is one, was stamped with
/// the time of its latest observation.
pub open spec fn with_last_updated(
    feeds: Seq<PriceFeedConfigView>,
    code: Seq<char>,
    at: Timestamp,
) -> Seq<PriceFeedConfigView> {
    let k = feed_slot(feeds, code);
    if has_feed(feeds, code) {
        feeds.update(
            k,
            PriceFeedConfigView {
                id: feeds[k].id,
                asset_code: feeds[k].asset_code,
                source: feeds[k].source,
                feed_id: feeds[k].feed_id,
                is_active: feeds[k].is_active,
                last_updated: Some(at),
            },
        )
    } else {
        feeds
    }
}

/// The registry after the feed of `code`, if there is one, was deactivated.
pub open spec fn with_feed_deactivated(
    feeds: Seq<PriceFeedConfigView>,
    code: Seq<char>,
) -> Seq<PriceFeedConfigView> {
    let k = feed_slot(feeds, code);
    if has_feed(feeds, code) {
        feeds.update(
            k,
            PriceFeedConfigView {
                id: feeds[k].id,
                asset_code: feeds[k].asset_code,
                source: feeds[k].source,
                feed_id: feeds[k].feed_id,
                is_active: false,
                last_updated: feeds[k].last_updated,
            },
        )
    } else {
        feeds
    }
}

/// The active feeds, in the order of the registry.
pub open spec fn active_feeds(feeds: Seq<PriceFeedConfigView>) -> Seq<PriceFeedConfigView>
    decreases feeds.len(),
{
    if feeds.len() == 0 {
        Seq::empty()
    } else if feeds.last().is_active {
        active_feeds(feeds.drop_last()).push(feeds.last())
    } else {
        active_feeds(feeds.drop_last())
    }
}

/// The index behind the last observation that is not later than `at`.
pub open spec fn row_slot(history: Seq<AssetPriceView>, at: Timestamp) -> int
    decreases history.len(),
{
    if history.len() == 0 {
        0
    } else if history.last().timestamp.at_or_before(at) {
        history.len() as int
    } else {
        row_slot(history.drop_last(), at)
    }
}

/// The history after `row` was appended: `row` stands behind every
/// observation that is not later than it.
pub open spec fn with_row(history: Seq<AssetPriceView>, row: AssetPriceView) -> Seq<
    AssetPriceView,
> {
    history.insert(row_slot(history, row.timestamp), row)
}

/// The observations of `code`, the newest first.
pub open spec fn newest_first(history: Seq<AssetPriceView>, code: Seq<char>) -> Seq<
    AssetPriceView,
>
    decreases history.len(),
{
    if history.len() == 0 {
        Seq::empty()
    } else if history.last().asset_code == code {
        seq![history.last()] + newest_first(history.drop_last(), code)
    } else {
        newest_first(history.drop_last(), code)
    }
}

/// The latest observation of `code`, if it has any.
pub open spec fn latest(history: Seq<AssetPriceView>, code: Seq<char>) -> Option<AssetPriceView> {
    let rows = newest_first(history, code);
    if rows.len() > 0 {
        Some(rows[0])
    } else {
        None
    }
}

/// The first `limit` of `rows`, or all of them if there are fewer.
pub open spec fn first_rows(rows: Seq<AssetPriceView>, limit: int) -> Seq<AssetPriceView> {
    if limit <= 0 {
        Seq::empty()
    } else if limit >= rows.len() {
        rows
    } else {
        rows.take(limit)
    }
}

/// The message of the error for a price that is not greater than zero.
pub open spec fn price_not_positive_text() -> Seq<char> {
    "Price must be greater than zero"@
}

/// The mathematical content of a [`PriceStore`].
pub struct PriceStoreView {
    pub feeds: Seq<PriceFeedConfigView>,
    pub history: Seq<AssetPriceView>,
}

impl PriceStoreView {
    /// The registry and the history are in order, and every observation
    /// carries a price greater than zero.
    pub open spec fn wf(self) -> bool {
        feeds_ordered(self.feeds) && history_ordered(self.history) && prices_positive(
            self.history,
        )
    }

    /// The store after an observation was appended and the asset's feed was
    /// stamped with its time.
    pub open spec fn with_observation(self, row: AssetPriceView) -> PriceStoreView {
        PriceStoreView {
            feeds: with_last_updated(self.feeds, row.asset_code, row.timestamp),
            history: with_row(self.history, row),
        }
    }
}

/// In an ordered registry the slot of a code splits the feeds into those
/// that come before the code and those that do not, and the code is
/// registered exactly if some feed carries it: then that feed stands at the
/// slot.
pub proof fn lemma_feed_slot(feeds: Seq<PriceFeedConfigView>, code: Seq<char>)
    requires
        feeds_ordered(feeds),
    ensures
        0 <= feed_slot(feeds, code) <= feeds.len(),
        forall|i: int|
            0 <= i < feed_slot(feeds, code) ==> text_lt((#[trigger] feeds[i]).asset_code, code),
        forall|i: int|
            feed_slot(feeds, code) <= i < feeds.len() ==> !text_lt(
                (#[trigger] feeds[i]).asset_code,
                code,
            ),
        forall|i: int|
            0 <= i < feeds.len() && (#[trigger] feeds[i]).asset_code == code ==> i == feed_slot(
                feeds,
                code,
            ),
        forall|i: int|
            feed_slot(feeds, code) <= i < feeds.len() && (#[trigger] feeds[i]).asset_code != code
                ==> text_lt(code, feeds[i].asset_code),
{
    lemma_feed_slot_from(feeds, code, 0);
    let k = feed_slot(feeds, code);
    assert forall|i: int| k <= i < feeds.len() implies !text_lt(
        (#[trigger] feeds[i]).asset_code,
        code,
    ) by {
        if i > k {
            lemma_text_lt_total(feeds[k].asset_code, feeds[i].asset_code);
            if text_lt(feeds[i].asset_code, code) {
                lemma_text_lt_transitive(feeds[k].asset_code, feeds[i].asset_code, code);
            }
        }
    }
    assert forall|i: int| 0 <= i < feeds.len() && (#[trigger] feeds[i]).asset_code == code implies i
        == k by {
        lemma_text_lt_total(code, code);
        if i > k {
            lemma_text_lt_total(feeds[k].asset_code, code);
        }
    }
    assert forall|i: int|
        k <= i < feeds.len() && (#[trigger] feeds[i]).asset_code != code implies text_lt(
        code,
        feeds[i].asset_code,
    ) by {
        lemma_text_lt_total(code, feeds[i].asset_code);
    }
}

/// In an ordered registry a code is registered exactly if some feed
/// carries it, and has an active feed exactly if some active feed carries it.
pub proof fn lemma_has_feed(feeds: Seq<PriceFeedConfigView>, code: Seq<char>)
    requires
        feeds_ordered(feeds),
    ensures
        has_feed(feeds, code) <==> exists|i: int|
            0 <= i < feeds.len() && (#[trigger] feeds[i]).asset_code == code,
        has_active_feed(feeds, code) <==> exists|i: int|
            0 <= i < feeds.len() && (#[trigger] feeds[i]).asset_code == code && feeds[i].is_active,
{
    lemma_feed_slot(feeds, code);
    let k = feed_slot(feeds, code);
    if has_feed(feeds, code) {
        assert(feeds[k].asset_code == code);
    }
}

proof fn lemma_feed_slot_from(feeds: Seq<PriceFeedConfigView>, code: Seq<char>, i: int)
    requires
        0 <= i <= feeds.len(),
    ensures
        i <= feed_slot_from(feeds, code, i) <= feeds.len(),
        forall|j: int|
            i <= j < feed_slot_from(feeds, code, i) ==> text_lt(
                (#[trigger] feeds[j]).asset_code,
                code,
            ),
        feed_slot_from(feeds, code, i) < feeds.len() ==> !text_lt(
            feeds[feed_slot_from(feeds, code, i)].asset_code,
            code,
        ),
    decreases feeds.len() - i,
{
    if i < feeds.len() && text_lt(feeds[i].asset_code, code) {
        lemma_feed_slot_from(feeds, code, i + 1);
    }
}

/// Registering a feed keeps the registry in order, and afterwards the code
/// has an active feed with the source and feed identifier given.
pub proof fn lemma_with_feed(
    feeds: Seq<PriceFeedConfigView>,
    id: u128,
    code: Seq<char>,
    source: Seq<char>,
    feed_id: Seq<char>,
)
    requires
        feeds_ordered(feeds),
    ensures
        feeds_ordered(with_feed(feeds, id, code, source, feed_id)),
        feed_slot(with_feed(feeds, id, code, source, feed_id), code) == feed_slot(feeds, code),
        has_active_feed(with_feed(feeds, id, code, source, feed_id), code),
        with_feed(feeds, id, code, source, feed_id)[feed_slot(feeds, code)].source == source,
        with_feed(feeds, id, code, source, feed_id)[feed_slot(feeds, code)].feed_id == feed_id,
{
    lemma_feed_slot(feeds, code);
    let k = feed_slot(feeds, code);
    let after = with_feed(feeds, id, code, source, feed_id);
    assert(after[k].asset_code == code);
    assert forall|i: int, j: int| 0 <= i < j < after.len() implies text_lt(
        after[i].asset_code,
        after[j].asset_code,
    ) by {
        if has_feed(feeds, code) {
            assert(after[i].asset_code == feeds[i].asset_code);
            assert(after[j].asset_code == feeds[j].asset_code);
        } else {
            if j < k {
                assert(after[i] == feeds[i] && after[j] == feeds[j]);
            } else if j == k {
                assert(after[i] == feeds[i]);
            } else if i < k {
                assert(after[i] == feeds[i] && after[j] == feeds[j - 1]);
            } else if i == k {
                assert(after[j] == feeds[j - 1]);
            } else {
                assert(after[i] == feeds[i - 1] && after[j] == feeds[j - 1]);
            }
        }
    }
    lemma_feed_slot(after, code);
}

/// Changing a feed in place, its asset code kept, keeps the registry in
/// order and every slot where it was.
proof fn lemma_feed_replaced(
    feeds: Seq<PriceFeedConfigView>,
    k: int,
    feed: PriceFeedConfigView,
    code: Seq<char>,
)
    requires
        feeds_ordered(feeds),
        0 <= k < feeds.len(),
        feed.asset_code == feeds[k].asset_code,
    ensures
        feeds_ordered(feeds.update(k, feed)),
        feed_slot(feeds.update(k, feed), code) == feed_slot(feeds, code),
{
    let after = feeds.update(k, feed);
    assert forall|i: int, j: int| 0 <= i < j < after.len() implies text_lt(
        after[i].asset_code,
        after[j].asset_code,
    ) by {
        assert(after[i].asset_code == feeds[i].asset_code);
        assert(after[j].asset_code == feeds[j].asset_code);
    }
    lemma_same_codes_same_slot(feeds, after, code, 0);
}

proof fn lemma_same_codes_same_slot(
    a: Seq<PriceFeedConfigView>,
    b: Seq<PriceFeedConfigView>,
    code: Seq<char>,
    i: int,
)
    requires
        a.len() == b.len(),
        forall|j: int| 0 <= j < a.len() ==> (#[trigger] a[j]).asset_code == b[j].asset_code,
        0 <= i <= a.len(),
    ensures
        feed_slot_from(a, code, i) == feed_slot_from(b, code, i),
    decreases a.len() - i,
{
    if i < a.len() {
        assert(a[i].asset_code == b[i].asset_code);
        if text_lt(a[i].asset_code, code) {
            lemma_same_codes_same_slot(a, b, code, i + 1);
        }
    }
}

/// Stamping a feed with the time of an observation keeps the registry in
/// order, every slot where it was, and every feed as active as it was.
pub proof fn lemma_stamp_keeps_order(feeds: Seq<PriceFeedConfigView>, code: Seq<char>, at: Timestamp)
    requires
        feeds_ordered(feeds),
    ensures
        feeds_ordered(with_last_updated(feeds, code, at)),
        forall|other: Seq<char>|
            feed_slot(with_last_updated(feeds, code, at), other) == feed_slot(feeds, other),
        forall|other: Seq<char>|
            has_active_feed(with_last_updated(feeds, code, at), other) == has_active_feed(
                feeds,
                other,
            ),
{
    lemma_feed_slot(feeds, code);
    let k = feed_slot(feeds, code);
    if has_feed(feeds, code) {
        let stamped = with_last_updated(feeds, code, at);
        lemma_feed_replaced(feeds, k, stamped[k], code);
        assert forall|other: Seq<char>|
            feed_slot(stamped, other) == feed_slot(feeds, other) && has_active_feed(stamped, other)
                == has_active_feed(feeds, other) by {
            lemma_feed_replaced(feeds, k, stamped[k], other);
            lemma_feed_slot(feeds, other);
            let slot = feed_slot(feeds, other);
            if slot < feeds.len() {
                assert(stamped[slot].asset_code == feeds[slot].asset_code);
                assert(stamped[slot].is_active == feeds[slot].is_active);
            }
        }
    }
}

/// Deactivating a feed keeps the registry in order, and afterwards the
/// code has no active feed.
pub proof fn lemma_deactivate_keeps_order(feeds: Seq<PriceFeedConfigView>, code: Seq<char>)
    requires
        feeds_ordered(feeds),
    ensures
        feeds_ordered(with_feed_deactivated(feeds, code)),
        !has_active_feed(with_feed_deactivated(feeds, code), code),
{
    lemma_feed_slot(feeds, code);
    let k = feed_slot(feeds, code);
    if has_feed(feeds, code) {
        let off = with_feed_deactivated(feeds, code);
        lemma_feed_replaced(feeds, k, off[k], code);
    }
}

/// `feed` stands in `feeds`.
pub open spec fn holds_feed(feeds: Seq<PriceFeedConfigView>, feed: PriceFeedConfigView) -> bool {
    exists|i: int| 0 <= i < feeds.len() && #[trigger] feeds[i] == feed
}

/// The active feeds of a registry in order are in order themselves; each
/// of them is an active feed of the registry, and each active feed of the
/// registry is one of them.
pub proof fn lemma_active_feeds(feeds: Seq<PriceFeedConfigView>)
    requires
        feeds_ordered(feeds),
    ensures
        feeds_ordered(active_feeds(feeds)),
        forall|k: int|
            0 <= k < active_feeds(feeds).len() ==> holds_feed(
                feeds,
                #[trigger] active_feeds(feeds)[k],
            ) && active_feeds(feeds)[k].is_active,
        forall|i: int|
            0 <= i < feeds.len() && (#[trigger] feeds[i]).is_active ==> holds_feed(
                active_feeds(feeds),
                feeds[i],
            ),
    decreases feeds.len(),
{
    if feeds.len() > 0 {
        let rest = feeds.drop_last();
        let last = feeds.len() - 1;
        let list = active_feeds(feeds);
        let shorter = active_feeds(rest);
        assert forall|i: int, j: int| 0 <= i < j < rest.len() implies text_lt(
            rest[i].asset_code,
            rest[j].asset_code,
        ) by {
            assert(rest[i] == feeds[i] && rest[j] == feeds[j]);
        }
        lemma_active_feeds(rest);
        assert forall|k: int| 0 <= k < list.len() implies holds_feed(feeds, #[trigger] list[k])
            && list[k].is_active by {
            if k < shorter.len() {
                assert(list[k] == shorter[k]);
                assert(holds_feed(rest, shorter[k]));
                let i = choose|i: int| 0 <= i < rest.len() && #[trigger] rest[i] == shorter[k];
                assert(feeds[i] == rest[i]);
            } else {
                assert(feeds[last] == list[k]);
            }
        }
        assert forall|i: int| 0 <= i < feeds.len() && (#[trigger] feeds[i]).is_active implies holds_feed(
            list,
            feeds[i],
        ) by {
            if i < last {
                assert(rest[i] == feeds[i]);
                assert(holds_feed(shorter, rest[i]));
                let k = choose|k: int| 0 <= k < shorter.len() && #[trigger] shorter[k] == rest[i];
                assert(list[k] == shorter[k]);
            } else {
                assert(list[list.len() - 1] == feeds[i]);
            }
        }
        assert forall|a: int, b: int| 0 <= a < b < list.len() implies text_lt(
            list[a].asset_code,
            list[b].asset_code,
        ) by {
            if b < shorter.len() {
                assert(list[a] == shorter[a] && list[b] == shorter[b]);
            } else {
                assert(list[b] == feeds[last]);
                assert(list[a] == shorter[a]);
                assert(holds_feed(rest, shorter[a]));
                let i = choose|i: int| 0 <= i < rest.len() && #[trigger] rest[i] == shorter[a];
                assert(feeds[i] == rest[i]);
            }
        }
    }
}

/// In an ordered history the slot for a timestamp splits the observations
/// into those not later than it and those later than it.
pub proof fn lemma_row_slot(history: Seq<AssetPriceView>, at: Timestamp)
    requires
        history_ordered(history),
    ensures
        0 <= row_slot(history, at) <= history.len(),
        forall|i: int|
            0 <= i < row_slot(history, at) ==> (#[trigger] history[i]).timestamp.at_or_before(at),
        forall|i: int|
            row_slot(history, at) <= i < history.len() ==> !(#[trigger] history[i]).timestamp.at_or_before(
                at,
            ),
    decreases history.len(),
{
    if history.len() > 0 {
        let rest = history.drop_last();
        if history.last().timestamp.at_or_before(at) {
            assert forall|i: int| 0 <= i < history.len() implies (#[trigger] history[i]).timestamp.at_or_before(
                at,
            ) by {
                if i < history.len() - 1 {
                    assert(history[i].timestamp.at_or_before(history[history.len() - 1].timestamp));
                }
            }
        } else {
            assert forall|i: int, j: int| 0 <= i < j < rest.len() implies rest[i].timestamp.at_or_before(
                rest[j].timestamp,
            ) by {
                assert(rest[i] == history[i] && rest[j] == history[j]);
            }
            lemma_row_slot(rest, at);
            assert forall|i: int| row_slot(history, at) <= i < history.len() implies !(
            #[trigger] history[i]).timestamp.at_or_before(at) by {
                if i < rest.len() {
                    assert(history[i] == rest[i]);
                }
            }
            assert forall|i: int| 0 <= i < row_slot(history, at) implies (#[trigger] history[i]).timestamp.at_or_before(
                at,
            ) by {
                assert(history[i] == rest[i]);
            }
        }
    }
}

/// Appending an observation keeps the history in order.
pub proof fn lemma_with_row_ordered(history: Seq<AssetPriceView>, row: AssetPriceView)
    requires
        history_ordered(history),
    ensures
        history_ordered(with_row(history, row)),
{
    lemma_row_slot(history, row.timestamp);
    let k = row_slot(history, row.timestamp);
    let after = with_row(history, row);
    assert forall|i: int, j: int| 0 <= i < j < after.len() implies after[i].timestamp.at_or_before(
        after[j].timestamp,
    ) by {
        if j < k {
            assert(after[i] == history[i] && after[j] == history[j]);
        } else if j == k {
            assert(after[i] == history[i]);
        } else if i < k {
            assert(after[i] == history[i] && after[j] == history[j - 1]);
            assert(history[i].timestamp.at_or_before(row.timestamp));
            assert(!history[j - 1].timestamp.at_or_before(row.timestamp));
        } else if i == k {
            assert(after[j] == history[j - 1]);
            assert(!history[j - 1].timestamp.at_or_before(row.timestamp));
        } else {
            assert(after[i] == history[i - 1] && after[j] == history[j - 1]);
        }
    }
}

/// Appending an observation with a price greater than zero keeps the
/// store well formed.
pub proof fn lemma_with_observation_wf(store: PriceStoreView, row: AssetPriceView)
    requires
        store.wf(),
        row.price.is_positive(),
    ensures
        store.with_observation(row).wf(),
{
    lemma_stamp_keeps_order(store.feeds, row.asset_code, row.timestamp);
    lemma_with_row_ordered(store.history, row);
    lemma_row_slot(store.history, row.timestamp);
    let k = row_slot(store.history, row.timestamp);
    let after = with_row(store.history, row);
    assert forall|i: int| 0 <= i < after.len() implies (#[trigger] after[i]).price.is_positive() by {
        if i < k {
            assert(after[i] == store.history[i]);
        } else if i > k {
            assert(after[i] == store.history[i - 1]);
        }
    }
}

/// The price store.
pub struct PriceStore {
    feeds: Vec<PriceFeedConfig>,
    history: Vec<AssetPrice>,
}

impl View for PriceStore {
    type V = PriceStoreView;

    closed spec fn view(&self) -> PriceStoreView {
        if self.inv() {
            PriceStoreView { feeds: feed_views(self.feeds@), history: price_views(self.history@) }
        } else {
            PriceStoreView { feeds: Seq::empty(), history: Seq::empty() }
        }
    }
}

impl PriceStore {
    #[verifier::type_invariant]
    spec fn inv(self) -> bool {
        feeds_ordered(feed_views(self.feeds@)) && history_ordered(price_views(self.history@))
            && prices_positive(price_views(self.history@))
    }

    /// Every store is well formed.
    pub proof fn lemma_wf(self)
        ensures
            self@.wf(),
    {
    }

    /// A store without feeds and without observations.
    pub fn new() -> (store: PriceStore)
        ensures
            store@.feeds.len() == 0,
            store@.history.len() == 0,
    {
        PriceStore { feeds: Vec::new(), history: Vec::new() }
    }

    /// The index of the feed of `asset_code`, or the index at which it would
    /// be inserted.
    fn locate_feed(&self, asset_code: &str) -> (k: usize)
        ensures
            k == feed_slot(self@.feeds, asset_code@),
            k <= self.feeds.len(),
    {
        proof {
            use_type_invariant(self);
        }
        let mut i: usize = 0;
        while i < self.feeds.len() && str_lt(self.feeds[i].asset_code.as_str(), asset_code)
            invariant
                i <= self.feeds.len(),
                feed_slot(self@.feeds, asset_code@) == feed_slot_from(
                    self@.feeds,
                    asset_code@,
                    i as int,
                ),
                self@.feeds == feed_views(self.feeds@),
            decreases self.feeds.len() - i,
        {
            assert(self@.feeds[i as int].asset_code == self.feeds[i as int].asset_code@);
            i = i + 1;
        }
        proof {
            if i < self.feeds.len() {
                assert(self@.feeds[i as int].asset_code == self.feeds[i as int].asset_code@);
            }
        }
        i
    }

    /// Whether a feed is registered for `asset_code`, active or not.
    pub fn has_feed(&self, asset_code: &str) -> (r: bool)
        ensures
            r == has_feed(self@.feeds, asset_code@),
    {
        proof {
            use_type_invariant(self);
        }
        let k = self.locate_feed(asset_code);
        k < self.feeds.len() && str_eq(self.feeds[k].asset_code.as_str(), asset_code)
    }

    /// Whether an active feed is registered for `asset_code`.
    pub fn has_active_feed(&self, asset_code: &str) -> (r: bool)
        ensures
            r == has_active_feed(self@.feeds, asset_code@),
    {
        proof {
            use_type_invariant(self);
        }
        let k = self.locate_feed(asset_code);
        k < self.feeds.len() && str_eq(self.feeds[k].asset_code.as_str(), asset_code)
            && self.feeds[k].is_active
    }

    /// Registers a feed for `asset_code`, or overwrites the source and the
    /// feed identifier of the one it has; the feed is active afterwards.
    /// `id` becomes the identifier of a feed that is new.
    pub fn upsert_feed(&mut self, id: u128, asset_code: &str, source: &str, feed_id: &str)
        ensures
            final(self)@.feeds == with_feed(
                old(self)@.feeds,
                id,
                asset_code@,
                source@,
                feed_id@,
            ),
            final(self)@.history == old(self)@.history,
    {
        let k = self.locate_feed(asset_code);
        let found = k < self.feeds.len() && str_eq(self.feeds[k].asset_code.as_str(), asset_code);
        let ghost before = self@.feeds;
        proof {
            use_type_invariant(&*self);
            lemma_with_feed(before, id, asset_code@, source@, feed_id@);
        }
        let mut feeds: Vec<PriceFeedConfig> = Vec::new();
        core::mem::swap(&mut self.feeds, &mut feeds);
        if found {
            let feed = PriceFeedConfig {
                id: feeds[k].id,
                asset_code: String::from_str(asset_code),
                source: String::from_str(source),
                feed_id: String::from_str(feed_id),
                is_active: true,
                last_updated: feeds[k].last_updated,
            };
            feeds.set(k, feed);
        } else {
            let feed = PriceFeedConfig {
                id,
                asset_code: String::from_str(asset_code),
                source: String::from_str(source),
                feed_id: String::from_str(feed_id),
                is_active: true,
                last_updated: None,
            };
            feeds.insert(k, feed);
        }
        proof {
            assert(feed_views(feeds@) =~= with_feed(before, id, asset_code@, source@, feed_id@));
        }
        core::mem::swap(&mut self.feeds, &mut feeds);
    }

    /// Deactivates the feed of `asset_code`, if it has one.
    pub fn deactivate_feed(&mut self, asset_code: &str)
        ensures
            final(self)@.feeds == with_feed_deactivated(old(self)@.feeds, asset_code@),
            final(self)@.history == old(self)@.history,
    {
        let k = self.locate_feed(asset_code);
        let found = k < self.feeds.len() && str_eq(self.feeds[k].asset_code.as_str(), asset_code);
        let ghost before = self@.feeds;
        proof {
            use_type_invariant(&*self);
            lemma_deactivate_keeps_order(before, asset_code@);
        }
        let mut feeds: Vec<PriceFeedConfig> = Vec::new();
        core::mem::swap(&mut self.feeds, &mut feeds);
        if found {
            let mut feed = feeds[k].clone();
            feed.is_active = false;
            feeds.set(k, feed);
        }
        proof {
            assert(feed_views(feeds@) =~= with_feed_deactivated(before, asset_code@));
        }
        core::mem::swap(&mut self.feeds, &mut feeds);
    }

    /// The active feeds in ascending order of asset code.
    pub fn active_feeds(&self) -> (list: Vec<PriceFeedConfig>)
        ensures
            feed_views(list@) == active_feeds(self@.feeds),
            feeds_ordered(feed_views(list@)),
    {
        proof {
            use_type_invariant(self);
            lemma_active_feeds(self@.feeds);
        }
        let mut list: Vec<PriceFeedConfig> = Vec::new();
        let mut i: usize = 0;
        assert(self@.feeds.take(0) =~= Seq::<PriceFeedConfigView>::empty());
        while i < self.feeds.len()
            invariant
                i <= self.feeds.len(),
                self@.feeds == feed_views(self.feeds@),
                feed_views(list@) == active_feeds(self@.feeds.take(i as int)),
            decreases self.feeds.len() - i,
        {
            let ghost seen = self@.feeds.take(i as int);
            let ghost next = self@.feeds.take(i + 1);
            assert(next.drop_last() =~= seen);
            assert(next.last() == self.feeds[i as int]@);
            if self.feeds[i].is_active {
                let ghost so_far = feed_views(list@);
                list.push(self.feeds[i].clone());
                assert(feed_views(list@) =~= so_far.push(self.feeds[i as int]@));
            }
            i = i + 1;
        }
        assert(self@.feeds.take(i as int) =~= self@.feeds);
        list
    }

    /// The latest observation of `asset_code`; `NotFound` if there is none.
    pub fn get_latest(&self, asset_code: &str) -> (r: Result<AssetPrice, ApiError>)
        ensures
            match r {
                Ok(row) => latest(self@.history, asset_code@) == Some(row@)
                    && row@.price.is_positive(),
                Err(e) => latest(self@.history, asset_code@) is None && e@
                    == ApiErrorView::NotFound(price_not_found_text(asset_code@)),
            },
    {
        proof {
            use_type_invariant(self);
        }
        let mut i: usize = self.history.len();
        assert(self@.history.take(i as int) =~= self@.history);
        while i > 0
            invariant
                i <= self.history.len(),
                self@.history == price_views(self.history@),
                newest_first(self@.history, asset_code@) == newest_first(
                    self@.history.take(i as int),
                    asset_code@,
                ),
            decreases i,
        {
            let ghost seen = self@.history.take(i as int);
            assert(seen.drop_last() =~= self@.history.take(i - 1));
            assert(seen.last() == self.history[i - 1]@);
            i = i - 1;
            if str_eq(self.history[i].asset_code.as_str(), asset_code) {
                assert(price_views(self.history@)[i as int].price.is_positive());
                return Ok(self.history[i].clone());
            }
        }
        Err(ApiError::NotFound(crate::text::join("Price not found for asset: ", asset_code)))
    }

    /// The `limit` most recent observations of `asset_code`, the newest
    /// first; fewer if the asset has fewer, none if it has none.
    pub fn get_history(&self, asset_code: &str, limit: usize) -> (rows: Vec<AssetPrice>)
        ensures
            price_views(rows@) == first_rows(
                newest_first(self@.history, asset_code@),
                limit as int,
            ),
            self@.history.len() <= usize::MAX,
    {
        proof {
            use_type_invariant(self);
        }
        let mut rows: Vec<AssetPrice> = Vec::new();
        let mut i: usize = self.history.len();
        assert(self@.history.take(i as int) =~= self@.history);
        assert(price_views(rows@) =~= Seq::<AssetPriceView>::empty());
        while i > 0 && rows.len() < limit
            invariant
                i <= self.history.len(),
                rows.len() <= limit,
                self@.history == price_views(self.history@),
                newest_first(self@.history, asset_code@) == price_views(rows@) + newest_first(
                    self@.history.take(i as int),
                    asset_code@,
                ),
            decreases i,
        {
            let ghost seen = self@.history.take(i as int);
            assert(seen.drop_last() =~= self@.history.take(i - 1));
            assert(seen.last() == self.history[i - 1]@);
            i = i - 1;
            if str_eq(self.history[i].asset_code.as_str(), asset_code) {
                let ghost so_far = price_views(rows@);
                rows.push(self.history[i].clone());
                assert(price_views(rows@) =~= so_far.push(self.history[i as int]@));
                assert(so_far + (seq![self.history[i as int]@] + newest_first(
                    self@.history.take(i as int),
                    asset_code@,
                )) =~= price_views(rows@) + newest_first(
                    self@.history.take(i as int),
                    asset_code@,
                ));
            }
        }
        proof {
            let all = newest_first(self@.history, asset_code@);
            let got = price_views(rows@);
            if i == 0 {
                assert(self@.history.take(0) =~= Seq::<AssetPriceView>::empty());
                assert(all =~= got);
            }
            if got.len() == limit {
                assert(all.take(limit as int) =~= got);
            }
        }
        rows
    }

    /// Appends an observation of `asset_code` and stamps the asset's feed
    /// with its time. A price that is not greater than zero is rejected with
    /// `Validation`, and nothing changes.
    pub fn append_observation(
        &mut self,
        asset_code: &str,
        price: Decimal,
        timestamp: Timestamp,
        source: &str,
    ) -> (r: Result<AssetPrice, ApiError>)
        ensures
            match r {
                Ok(row) => price@.is_positive() && row@ == (AssetPriceView {
                    asset_code: asset_code@,
                    price: price@,
                    timestamp,
                    source: source@,
                }) && final(self)@ == old(self)@.with_observation(row@),
                Err(e) => !price@.is_positive() && e@ == ApiErrorView::Validation(
                    price_not_positive_text(),
                ) && final(self)@ == old(self)@,
            },
    {
        proof {
            use_type_invariant(&*self);
        }
        if !price.is_positive() {
            return Err(ApiError::Validation(String::from_str("Price must be greater than zero")));
        }
        let row = AssetPrice {
            asset_code: String::from_str(asset_code),
            price,
            timestamp,
            source: String::from_str(source),
        };
        let ghost before = self@;
        proof {
            lemma_with_observation_wf(before, row@);
        }
        // The place of the row: behind the last one that is not later.
        let mut i: usize = self.history.len();
        assert(before.history.take(i as int) =~= before.history);
        while i > 0 && !self.history[i - 1].timestamp.is_at_or_before(&timestamp)
            invariant
                i <= self.history.len(),
                before == self@,
                before.history == price_views(self.history@),
                row_slot(before.history, timestamp) == row_slot(
                    before.history.take(i as int),
                    timestamp,
                ),
            decreases i,
        {
            let ghost seen = before.history.take(i as int);
            assert(seen.drop_last() =~= before.history.take(i - 1));
            assert(seen.last() == self.history[i - 1]@);
            i = i - 1;
        }
        proof {
            let seen = before.history.take(i as int);
            if i > 0 {
                assert(seen.last() == self.history[i - 1]@);
            }
            assert(row_slot(before.history, timestamp) == i);
        }
        let mut history: Vec<AssetPrice> = Vec::new();
        core::mem::swap(&mut self.history, &mut history);
        history.insert(i, row.clone());
        proof {
            assert(price_views(history@) =~= with_row(before.history, row@));
        }
        core::mem::swap(&mut self.history, &mut history);
        self.touch_feed(asset_code, timestamp);
        Ok(row)
    }

    /// Stamps the feed of `asset_code`, if it has one, with the time of its
    /// latest observation.
    fn touch_feed(&mut self, asset_code: &str, at: Timestamp)
        ensures
            final(self)@.feeds == with_last_updated(old(self)@.feeds, asset_code@, at),
            final(self)@.history == old(self)@.history,
    {
        let k = self.locate_feed(asset_code);
        let found = k < self.feeds.len() && str_eq(self.feeds[k].asset_code.as_str(), asset_code);
        let ghost before = self@.feeds;
        proof {
            use_type_invariant(&*self);
            lemma_stamp_keeps_order(before, asset_code@, at);
        }
        let mut feeds: Vec<PriceFeedConfig> = Vec::new();
        core::mem::swap(&mut self.feeds, &mut feeds);
        if found {
            let mut feed = feeds[k].clone();
            feed.last_updated = Some(at);
            feeds.set(k, feed);
        }
        proof {
            assert(feed_views(feeds@) =~= with_last_updated(before, asset_code@, at));
        }
        core::mem::swap(&mut self.feeds, &mut feeds);
    }
}

/// The message of the error for an asset without any observation.
pub open spec fn price_not_found_text(code: Seq<char>) -> Seq<char> {
    "Price not found for asset: "@ + code
}

} // verus!
