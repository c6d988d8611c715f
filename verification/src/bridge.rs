//! What a bridge transfer has to meet before it is initiated.

use crate::api_error::{unit_result_view, ApiError, ApiErrorView};
use crate::config::BridgeConfig;
use crate::text::{decimal_text, join, str_eq, u64_text};
use vstd::prelude::*;
use vstd::string::*;

verus! {

/// A request to move an asset from another chain.
#[derive(Debug)]
pub struct BridgeTransferRequest {
    pub from_chain: String,
    pub to_chain: String,
    pub asset: String,
    pub amount: u64,
    pub destination_address: String,
    pub user_id: String,
}

/// The asset is one of those listed.
pub open spec fn lists_asset(assets: Seq<String>, asset: Seq<char>) -> bool {
    exists|i: int| 0 <= i < assets.len() && (#[trigger] assets[i])@ == asset
}

/// The chain is one from which the bridge takes transfers.
pub open spec fn is_source_chain(chain: Seq<char>) -> bool {
    chain == "ethereum"@ || chain == "polygon"@ || chain == "bsc"@ || chain == "stellar"@
}

/// The message for an asset that the bridge does not carry.
pub open spec fn unsupported_asset_text(asset: Seq<char>) -> Seq<char> {
    "Asset "@ + asset + " is not supported for bridging"@
}

/// The message for an amount under the minimum.
pub open spec fn below_minimum_text(amount: u64, minimum: u64) -> Seq<char> {
    "Amount "@ + decimal_text(amount as nat) + " is below minimum bridge amount "@ + decimal_text(
        minimum as nat,
    )
}

/// The message for an amount over the maximum.
pub open spec fn above_maximum_text(amount: u64, maximum: u64) -> Seq<char> {
    "Amount "@ + decimal_text(amount as nat) + " exceeds maximum bridge amount "@ + decimal_text(
        maximum as nat,
    )
}

/// The message for a chain from which the bridge takes no transfers.
pub open spec fn unsupported_chain_text(chain: Seq<char>) -> Seq<char> {
    "Unsupported source chain: "@ + chain
}

/// The message for a destination other than Stellar.
pub open spec fn stellar_only_text() -> Seq<char> {
    "Only bridging to Stellar is currently supported"@
}

/// What the bridge decides on a request: the first of its rules that the
/// request breaks, in this order: the asset, the minimum, the maximum, the
/// source chain, the destination.
pub open spec fn bridge_decision(config: BridgeConfig, request: BridgeTransferRequest) -> Result<
    (),
    ApiErrorView,
> {
    if !lists_asset(config.supported_assets@, request.asset@) {
        Err(ApiErrorView::Validation(unsupported_asset_text(request.asset@)))
    } else if request.amount < config.min_bridge_amount {
        Err(
            ApiErrorView::Validation(
                below_minimum_text(request.amount, config.min_bridge_amount),
            ),
        )
    } else if request.amount > config.max_bridge_amount {
        Err(
            ApiErrorView::Validation(
                above_maximum_text(request.amount, config.max_bridge_amount),
            ),
        )
    } else if !is_source_chain(request.from_chain@) {
        Err(ApiErrorView::Validation(unsupported_chain_text(request.from_chain@)))
    } else if request.to_chain@ != "stellar"@ {
        Err(ApiErrorView::Validation(stellar_only_text()))
    } else {
        Ok(())
    }
}

/// Whether `asset` is among `assets`.
fn contains_asset(assets: &Vec<String>, asset: &str) -> (r: bool)
    ensures
        r == lists_asset(assets@, asset@),
{
    let mut i: usize = 0;
    while i < assets.len()
        invariant
            i <= assets.len(),
            forall|j: int| 0 <= j < i ==> (#[trigger] assets[j])@ != asset@,
        decreases assets.len() - i,
    {
        if str_eq(assets[i].as_str(), asset) {
            return true;
        }
        i = i + 1;
    }
    false
}

/// "Amount `amount` `middle` `bound`".
fn amount_message(amount: u64, middle: &str, bound: u64) -> (r: String)
    ensures
        r@ == "Amount "@ + decimal_text(amount as nat) + middle@ + decimal_text(bound as nat),
{
    let mut r = join("Amount ", u64_text(amount).as_str());
    r.append(middle);
    r.append(u64_text(bound).as_str());
    r
}

/// Checks a bridge request against the configuration of the bridge.
pub fn validate_bridge_request(config: &BridgeConfig, request: &BridgeTransferRequest) -> (r:
    Result<(), ApiError>)
    ensures
        unit_result_view(r) == bridge_decision(*config, *request),
{
    if !contains_asset(&config.supported_assets, request.asset.as_str()) {
        let head = join("Asset ", request.asset.as_str());
        return Err(ApiError::Validation(join(head.as_str(), " is not supported for bridging")));
    }
    if request.amount < config.min_bridge_amount {
        return Err(
            ApiError::Validation(
                amount_message(
                    request.amount,
                    " is below minimum bridge amount ",
                    config.min_bridge_amount,
                ),
            ),
        );
    }
    if request.amount > config.max_bridge_amount {
        return Err(
            ApiError::Validation(
                amount_message(
                    request.amount,
                    " exceeds maximum bridge amount ",
                    config.max_bridge_amount,
                ),
            ),
        );
    }
    let from = request.from_chain.as_str();
    if !(str_eq(from, "ethereum") || str_eq(from, "polygon") || str_eq(from, "bsc") || str_eq(
        from,
        "stellar",
    )) {
        return Err(ApiError::Validation(join("Unsupported source chain: ", from)));
    }
    if !str_eq(request.to_chain.as_str(), "stellar") {
        return Err(
            ApiError::Validation(
                String::from_str("Only bridging to Stellar is currently supported"),
            ),
        );
    }
    Ok(())
}

} // verus!
