//! The price cache: the latest known price of each asset, trusted for a
//! limited time.
//!
//! An entry is served while less than the time to live has passed since the
//! timestamp of its price. Older entries are not removed; they are passed
//! over until the next `put` for the asset replaces them.

use crate::price_feed::{price_view, AssetPrice, AssetPriceView};
use crate::text::str_eq;
use crate::timestamp::Timestamp;
use vstd::prelude::*;
use vstd::string::*;

verus! {

struct CacheEntry {
    code: String,
    price: AssetPrice,
}

/// A mapping from asset code to the latest known price, with a time to live
/// in seconds.
pub struct PriceCache {
    entries: Vec<CacheEntry>,
    ttl_secs: u64,
}

/// The entry that a cache with the given contents and time to live serves
/// for `code` at the instant `now`: the one stored for `code`, if less than
/// `ttl_secs` seconds have passed since its timestamp.
pub open spec fn fresh_entry(
    entries: Map<Seq<char>, AssetPriceView>,
    ttl_secs: u64,
    code: Seq<char>,
    now: Timestamp,
) -> Option<AssetPriceView> {
    if entries.contains_key(code) && entries[code].timestamp.younger_than(now, ttl_secs) {
        Some(entries[code])
    } else {
        None
    }
}

impl View for PriceCache {
    type V = Map<Seq<char>, AssetPriceView>;

    closed spec fn view(&self) -> Map<Seq<char>, AssetPriceView> {
        Map::new(
            |code: Seq<char>| self.holds(code),
            |code: Seq<char>| self.entries[self.slot_of(code)].price@,
        )
    }
}

impl PriceCache {
    spec fn holds(self, code: Seq<char>) -> bool {
        exists|i: int| 0 <= i < self.entries.len() && #[trigger] self.entries[i].code@ == code
    }

    spec fn slot_of(self, code: Seq<char>) -> int {
        choose|i: int| 0 <= i < self.entries.len() && #[trigger] self.entries[i].code@ == code
    }

    #[verifier::type_invariant]
    spec fn inv(self) -> bool {
        forall|i: int, j: int|
            0 <= i < j < self.entries.len() ==> #[trigger] self.entries[i].code@
                != #[trigger] self.entries[j].code@
    }

    /// The time to live of an entry, in seconds.
    pub closed spec fn ttl(&self) -> u64 {
        self.ttl_secs
    }

    /// An empty cache whose entries live for `ttl_secs` seconds.
    pub fn new(ttl_secs: u64) -> (cache: PriceCache)
        ensures
            cache@ == Map::<Seq<char>, AssetPriceView>::empty(),
            cache.ttl() == ttl_secs,
    {
        let cache = PriceCache { entries: Vec::new(), ttl_secs };
        assert(cache@ =~= Map::<Seq<char>, AssetPriceView>::empty());
        cache
    }

    pub fn ttl_secs(&self) -> (ttl: u64)
        ensures
            ttl == self.ttl(),
    {
        self.ttl_secs
    }

    /// The index of the entry for `asset_code`.
    fn find(&self, asset_code: &str) -> (slot: Option<usize>)
        ensures
            match slot {
                Some(i) => i < self.entries.len() && self.entries[i as int].code@ == asset_code@,
                None => !self.holds(asset_code@),
            },
    {
        let mut i: usize = 0;
        while i < self.entries.len()
            invariant
                i <= self.entries.len(),
                forall|j: int| 0 <= j < i ==> #[trigger] self.entries[j].code@ != asset_code@,
            decreases self.entries.len() - i,
        {
            if str_eq(self.entries[i].code.as_str(), asset_code) {
                return Some(i);
            }
            i = i + 1;
        }
        None
    }

    /// The cached price of `asset_code` if it is still fresh at `now`;
    /// otherwise `None`, and the caller falls through to the store.
    pub fn get_at(&self, asset_code: &str, now: &Timestamp) -> (hit: Option<AssetPrice>)
        ensures
            price_view(hit) == fresh_entry(self@, self.ttl(), asset_code@, *now),
    {
        proof {
            use_type_invariant(self);
        }
        match self.find(asset_code) {
            Some(i) => {
                assert(self.holds(asset_code@));
                assert(self.slot_of(asset_code@) == i);
                let entry = &self.entries[i];
                if entry.price.timestamp.is_younger_than(now, self.ttl_secs) {
                    Some(entry.price.clone())
                } else {
                    None
                }
            },
            None => None,
        }
    }

    /// The cached price of `asset_code` if it is still fresh by the system
    /// clock.
    pub fn get(&self, asset_code: &str) -> (hit: Option<AssetPrice>)
        ensures
            exists|now: Timestamp|
                price_view(hit) == #[trigger] fresh_entry(self@, self.ttl(), asset_code@, now),
    {
        let now = Timestamp::now();
        self.get_at(asset_code, &now)
    }

    /// Stores `price` as the entry of `asset_code`, replacing any entry the
    /// asset had.
    pub fn put(&mut self, asset_code: &str, price: AssetPrice)
        ensures
            final(self)@ == old(self)@.insert(asset_code@, price@),
            final(self).ttl() == old(self).ttl(),
    {
        proof {
            use_type_invariant(&*self);
        }
        let ghost before = *self;
        let entry = CacheEntry { code: String::from_str(asset_code), price };
        let slot = self.find(asset_code);
        let mut entries: Vec<CacheEntry> = Vec::new();
        core::mem::swap(&mut self.entries, &mut entries);
        match slot {
            Some(i) => {
                entries.set(i, entry);
            },
            None => {
                entries.push(entry);
            },
        }
        core::mem::swap(&mut self.entries, &mut entries);
        proof {
            let after = *self;
            assert forall|code: Seq<char>| after.holds(code) <==> (before.holds(code) || code
                == asset_code@) by {
                if before.holds(code) {
                    let k = before.slot_of(code);
                    assert(after.entries[k].code@ == code);
                }
                if code == asset_code@ {
                    let k = if before.holds(code) {
                        before.slot_of(code)
                    } else {
                        before.entries.len() as int
                    };
                    assert(after.entries[k].code@ == code);
                }
                if after.holds(code) {
                    let k = after.slot_of(code);
                    if code != asset_code@ {
                        assert(before.entries[k].code@ == code);
                    }
                }
            }
            assert forall|code: Seq<char>| after.holds(code) implies #[trigger] after@[code]
                == before@.insert(asset_code@, price@)[code] by {
                let k = after.slot_of(code);
                if code != asset_code@ {
                    assert(before.entries[k].code@ == code);
                    assert(before.slot_of(code) == k);
                }
            }
            assert(after@ =~= before@.insert(asset_code@, price@));
        }
    }
}

} // verus!
