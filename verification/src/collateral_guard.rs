//! The ledger-side guard: the checks that a contract runs on a price handed
//! to it before it authorizes an action backed by collateral.
//!
//! The guard keeps no state. It is given the ledger's time, the price and its
//! timestamp, and either accepts or names the reason for which the
//! transaction has to be rejected as a whole.

use vstd::prelude::*;
use vstd::string::*;

verus! {

/// The minimum collateral ratio of a plan, in basis points: 100 percent.
pub const MIN_COLLATERAL_RATIO_BP: u32 = 10000;

/// The ratio, in basis points, that collateral of any value is taken to
/// meet.
pub const FULL_RATIO_BP: u32 = 10000;

/// A price as a caller hands it to the contract.
#[derive(Debug)]
pub struct PriceData {
    pub asset: String,
    /// The price in USD, with 8 decimal places.
    pub price: u128,
    /// The time of the observation, in seconds since the Unix epoch.
    pub timestamp: u64,
    pub source: String,
}

/// What the guard computed for an amount of collateral.
#[derive(Debug)]
pub struct CollateralValuation {
    pub asset: String,
    pub amount: u64,
    pub price: u128,
    pub valuation_usd: u128,
    pub collateral_ratio_bp: u32,
}

/// The mathematical content of a [`CollateralValuation`].
pub struct CollateralValuationView {
    pub asset: Seq<char>,
    pub amount: u64,
    pub price: u128,
    pub valuation_usd: int,
    pub collateral_ratio_bp: int,
}

impl View for CollateralValuation {
    type V = CollateralValuationView;

    open spec fn view(&self) -> CollateralValuationView {
        CollateralValuationView {
            asset: self.asset@,
            amount: self.amount,
            price: self.price,
            valuation_usd: self.valuation_usd as int,
            collateral_ratio_bp: self.collateral_ratio_bp as int,
        }
    }
}

/// The view of what the guard hands back.
pub open spec fn decision_view(r: Result<CollateralValuation, PriceGuardError>) -> Result<
    CollateralValuationView,
    PriceGuardError,
> {
    match r {
        Ok(v) => Ok(v@),
        Err(e) => Err(e),
    }
}

/// Why the guard rejects.
#[derive(Debug, Clone, Copy, PartialEq, Eq, Structural)]
pub enum PriceGuardError {
    /// The valuation does not fit 128 bits.
    Overflow,
    /// The collateral ratio is below the minimum asked for.
    InsufficientCollateral,
    /// The price is stamped later than the ledger's time.
    FutureTimestamp,
    /// The price is older than the maximum age.
    Stale,
}

impl PriceGuardError {
    /// The message with which the transaction is rejected.
    pub open spec fn text(self) -> Seq<char> {
        match self {
            PriceGuardError::Overflow => "Valuation overflow"@,
            PriceGuardError::InsufficientCollateral => "Insufficient collateral ratio"@,
            PriceGuardError::FutureTimestamp => "Price timestamp is in the future"@,
            PriceGuardError::Stale => "Price data is stale"@,
        }
    }

    pub fn message(&self) -> (text: &'static str)
        ensures
            text@ == self.text(),
    {
        match self {
            PriceGuardError::Overflow => "Valuation overflow",
            PriceGuardError::InsufficientCollateral => "Insufficient collateral ratio",
            PriceGuardError::FutureTimestamp => "Price timestamp is in the future",
            PriceGuardError::Stale => "Price data is stale",
        }
    }
}

/// The collateral ratio, in basis points, of collateral worth `valuation`:
/// any value above zero meets 100 percent.
pub open spec fn ratio_of(valuation: int) -> int {
    if valuation > 0 {
        FULL_RATIO_BP as int
    } else {
        0
    }
}

/// What the guard decides for `amount` of collateral at `price` against a
/// minimum ratio: the valuation is the exact product, which must fit 128
/// bits, and the ratio of that valuation must reach the minimum.
pub open spec fn collateral_decision(amount: u64, price: u128, min_ratio_bp: u32) -> Result<
    CollateralValuationView,
    PriceGuardError,
> {
    if amount * price > u128::MAX {
        Err(PriceGuardError::Overflow)
    } else if ratio_of(amount * price) < min_ratio_bp {
        Err(PriceGuardError::InsufficientCollateral)
    } else {
        Ok(
            CollateralValuationView {
                asset: "USDC"@,
                amount,
                price,
                valuation_usd: amount * price,
                collateral_ratio_bp: ratio_of(amount * price),
            },
        )
    }
}

/// What the guard decides on the age of a price at the ledger time
/// `ledger_now`.
pub open spec fn freshness_decision(ledger_now: u64, price_timestamp: u64, max_age_secs: u64) -> Result<
    (),
    PriceGuardError,
> {
    if price_timestamp > ledger_now {
        Err(PriceGuardError::FutureTimestamp)
    } else if ledger_now - price_timestamp > max_age_secs {
        Err(PriceGuardError::Stale)
    } else {
        Ok(())
    }
}

/// Values `amount` of collateral at `price` and checks the collateral
/// ratio against `min_ratio_bp`. The product is computed in full: where it
/// does not fit 128 bits the guard rejects with `Overflow`.
pub fn validate_collateral(amount: u64, price: u128, min_ratio_bp: u32) -> (r: Result<
    CollateralValuation,
    PriceGuardError,
>)
    ensures
        decision_view(r) == collateral_decision(amount, price, min_ratio_bp),
{
    let amount_wide: u128 = amount as u128;
    let valuation = match amount_wide.checked_mul(price) {
        Some(v) => v,
        None => {
            return Err(PriceGuardError::Overflow);
        },
    };
    let collateral_ratio_bp: u32 = if valuation > 0 {
        FULL_RATIO_BP
    } else {
        0
    };
    if collateral_ratio_bp < min_ratio_bp {
        return Err(PriceGuardError::InsufficientCollateral);
    }
    Ok(
        CollateralValuation {
            asset: String::from_str("USDC"),
            amount,
            price,
            valuation_usd: valuation,
            collateral_ratio_bp,
        },
    )
}

/// Values the collateral of a plan: `validate_collateral` against the
/// minimum ratio of 100 percent.
pub fn calculate_plan_valuation(plan_amount: u64, price: u128) -> (r: Result<
    CollateralValuation,
    PriceGuardError,
>)
    ensures
        decision_view(r) == collateral_decision(plan_amount, price, MIN_COLLATERAL_RATIO_BP),
{
    validate_collateral(plan_amount, price, MIN_COLLATERAL_RATIO_BP)
}

/// Checks that a price stamped `price_timestamp` may still be used at the
/// ledger time `ledger_now`: it must not be stamped in the future, and not
/// more than `max_age_secs` seconds may have passed since.
pub fn verify_price_freshness(ledger_now: u64, price_timestamp: u64, max_age_secs: u64) -> (r:
    Result<(), PriceGuardError>)
    ensures
        r == freshness_decision(ledger_now, price_timestamp, max_age_secs),
{
    if ledger_now < price_timestamp {
        return Err(PriceGuardError::FutureTimestamp);
    }
    let age = ledger_now - price_timestamp;
    if age > max_age_secs {
        return Err(PriceGuardError::Stale);
    }
    Ok(())
}

/// A price one second older than the maximum age is stale, a price one
/// second ahead of the ledger is from the future, and a price stamped with
/// the ledger's own time is fresh.
pub proof fn law_freshness_boundaries(ledger_now: u64, max_age_secs: u64)
    ensures
        ledger_now - max_age_secs - 1 >= 0 ==> freshness_decision(
            ledger_now,
            (ledger_now - max_age_secs - 1) as u64,
            max_age_secs,
        ) == Err::<(), PriceGuardError>(PriceGuardError::Stale),
        ledger_now + 1 <= u64::MAX ==> freshness_decision(
            ledger_now,
            (ledger_now + 1) as u64,
            max_age_secs,
        ) == Err::<(), PriceGuardError>(PriceGuardError::FutureTimestamp),
        freshness_decision(ledger_now, ledger_now, max_age_secs) == Ok::<(), PriceGuardError>(()),
{
}

/// A product beyond 128 bits is always rejected with `Overflow`, and an
/// accepted valuation is the full product, never less than the price of one
/// unit: nothing wraps around.
pub proof fn law_overflow_is_rejected(amount: u64, price: u128, min_ratio_bp: u32)
    ensures
        amount * price > u128::MAX ==> collateral_decision(amount, price, min_ratio_bp) == Err::<
            CollateralValuationView,
            PriceGuardError,
        >(PriceGuardError::Overflow),
        collateral_decision(amount, price, min_ratio_bp) matches Ok(v) ==> v.valuation_usd == amount
            * price && (amount >= 1 ==> v.valuation_usd >= price),
{
    if amount >= 1 {
        assert(amount * price >= price) by (nonlinear_arith)
            requires
                amount >= 1,
                price >= 0,
        ;
    }
}

} // verus!
