//! Decisions of the cross-chain send prepare flow: which asset funds the
//! provider leg, whether the route takes it, and the response assembled
//! from the provider's quote.

use vstd::prelude::*;
use vstd::string::StringExecFns;

use crate::cross_chain::{
    accepts, asset_eq, generic_result_is, rescale_decimals, same_asset, spec_rescale,
    CrossChainSendPrepared,
};
use crate::error::{invalid_input_is, SdkError};
use crate::models::{
    ConversionEstimate, ConversionOptions, ConversionType, CrossChainAcceptedAsset, CrossChainRoutePair,
    FeePolicy, PrepareSendPaymentResponse, SendPaymentMethod, SparkAsset, TokenBalance,
};
use crate::sdk::validation::validate_amount;

verus! {

/// Dispatcher-side overrides for response fields. `None` leaves the
/// provider's value through; `Some` replaces it with a user-facing figure.
#[derive(Debug, Clone, Copy, PartialEq, Eq, Structural, Default)]
pub struct PrepareResponseOverrides {
    pub amount_in: Option<u128>,
    pub asset_amount_in: Option<u128>,
    pub fee_amount: Option<u128>,
}

/// Source-token ticker and decimals from the wallet's balances.
#[derive(Debug, Clone)]
pub struct SrcTokenMetadata {
    pub ticker: String,
    pub decimals: u32,
}

/// Whether `balances` holds a balance of the token `token_id`.
pub open spec fn holds_token(balances: Seq<TokenBalance>, token_id: Seq<char>) -> bool {
    exists|i: int| 0 <= i < balances.len() && (#[trigger] balances[i]).token_metadata.identifier@ == token_id
}

/// The wallet's balance of the token `token_id`: that of its entry among
/// the token balances, zero when it holds none.
pub fn token_balance_of(balances: &Vec<TokenBalance>, token_id: &str) -> (r: u128)
    ensures
        !holds_token(balances@, token_id@) ==> r == 0,
        holds_token(balances@, token_id@) ==> exists|i: int|
            {
                &&& 0 <= i < balances@.len()
                &&& (#[trigger] balances@[i]).token_metadata.identifier@ == token_id@
                &&& forall|j: int| 0 <= j < i ==> (#[trigger] balances@[j]).token_metadata.identifier@ != token_id@
                &&& r == balances@[i].balance
            },
{
    let mut i: usize = 0;
    while i < balances.len()
        invariant
            i <= balances@.len(),
            forall|j: int| 0 <= j < i ==> (#[trigger] balances@[j]).token_metadata.identifier@ != token_id@,
        decreases balances.len() - i,
    {
        if crate::text::str_eq(balances[i].token_metadata.identifier.as_str(), token_id) {
            return balances[i].balance;
        }
        i = i + 1;
    }
    0
}

/// Ticker and decimals of the source token, looked up among the wallet's
/// token balances by identifier. A token the wallet holds none of is
/// rejected.
pub fn src_token_metadata(balances: &Vec<TokenBalance>, token_id: &str) -> (r: Result<SrcTokenMetadata, SdkError>)
    ensures
        holds_token(balances@, token_id@) <==> r is Ok,
        !holds_token(balances@, token_id@) ==> invalid_input_is(
            r,
            "Source token "@ + token_id@ + " not found in wallet balances"@,
        ),
        r matches Ok(m) ==> exists|i: int|
            {
                &&& 0 <= i < balances@.len()
                &&& (#[trigger] balances@[i]).token_metadata.identifier@ == token_id@
                &&& forall|j: int| 0 <= j < i ==> (#[trigger] balances@[j]).token_metadata.identifier@ != token_id@
                &&& m.ticker@ == balances@[i].token_metadata.ticker@
                &&& m.decimals == balances@[i].token_metadata.decimals
            },
{
    let mut i: usize = 0;
    while i < balances.len()
        invariant
            i <= balances@.len(),
            forall|j: int| 0 <= j < i ==> (#[trigger] balances@[j]).token_metadata.identifier@ != token_id@,
        decreases balances.len() - i,
    {
        let tb = &balances[i];
        if crate::text::str_eq(tb.token_metadata.identifier.as_str(), token_id) {
            return Ok(
                SrcTokenMetadata { ticker: tb.token_metadata.ticker.clone(), decimals: tb.token_metadata.decimals },
            );
        }
        i = i + 1;
    }
    Err(
        SdkError::InvalidInput(
            String::from_str("Source token ").concat(token_id).concat(" not found in wallet balances"),
        ),
    )
}

/// Pre-resolution validation for cross-chain sends: the amount must be
/// positive, and a `FromBitcoin` conversion is not supported.
pub fn validate_request(amount: u128, conversion_options: Option<&ConversionOptions>) -> (r: Result<(), SdkError>)
    ensures
        amount == 0 ==> invalid_input_is(r, "Amount must be greater than 0"@),
        amount != 0 ==> (conversion_options matches Some(o) && o.conversion_type is FromBitcoin
            ==> invalid_input_is(r, "FromBitcoin conversion is not supported for cross-chain sends."@)),
        amount != 0 ==> (!(conversion_options matches Some(o) && o.conversion_type is FromBitcoin) ==> r is Ok),
{
    match validate_amount(Some(amount)) {
        Ok(()) => {},
        Err(e) => {
            return Err(e);
        },
    }
    if let Some(o) = conversion_options {
        if let ConversionType::FromBitcoin = o.conversion_type {
            return Err(
                SdkError::InvalidInput(
                    String::from_str("FromBitcoin conversion is not supported for cross-chain sends."),
                ),
            );
        }
    }
    Ok(())
}

/// The label of an accepted asset in a list of supported sources.
pub open spec fn source_label(a: SparkAsset) -> Seq<char> {
    match a {
        SparkAsset::Bitcoin => "sats"@,
        SparkAsset::Token { token_identifier } => token_identifier@,
    }
}

/// The labels of the accepted assets, joined by `", "`.
pub open spec fn supported_list(assets: Seq<CrossChainAcceptedAsset>) -> Seq<char>
    decreases assets.len(),
{
    if assets.len() == 0 {
        Seq::empty()
    } else if assets.len() == 1 {
        source_label(assets[0].asset)
    } else {
        supported_list(assets.drop_last()) + ", "@ + source_label(assets.last().asset)
    }
}

fn supported_list_string(assets: &Vec<CrossChainAcceptedAsset>) -> (r: String)
    ensures
        r@ == supported_list(assets@),
{
    let mut r = String::new();
    let mut i: usize = 0;
    while i < assets.len()
        invariant
            i <= assets@.len(),
            r@ == supported_list(assets@.take(i as int)),
        decreases assets.len() - i,
    {
        let label: &str = match &assets[i].asset {
            SparkAsset::Bitcoin => "sats",
            SparkAsset::Token { token_identifier } => token_identifier.as_str(),
        };
        proof {
            reveal_strlit("sats");
            assert(assets@.take(i + 1).drop_last() =~= assets@.take(i as int));
            assert(label@ == source_label(assets@[i as int].asset));
        }
        if i == 0 {
            r = String::from_str(label);
            proof { assert(r@ =~= supported_list(assets@.take(1))); }
        } else {
            r = r.concat(", ").concat(label);
        }
        i = i + 1;
    }
    proof { assert(assets@.take(assets@.len() as int) =~= assets@); }
    r
}

/// The asset the wallet actually pays the provider leg in: sats when a
/// conversion runs first, else the requested token, else sats.
pub open spec fn effective_source(token_identifier: Option<String>, has_conversion: bool) -> SparkAsset {
    if has_conversion {
        SparkAsset::Bitcoin
    } else {
        match token_identifier {
            Some(t) => SparkAsset::Token { token_identifier: t },
            None => SparkAsset::Bitcoin,
        }
    }
}

/// Post-resolution check: the effective source asset must be one the route
/// accepts. The error names the supported sources.
pub fn validate_route_supports_effective_source(
    route: &CrossChainRoutePair,
    token_identifier: Option<&String>,
    effective_conversion_options: Option<&ConversionOptions>,
) -> (r: Result<(), SdkError>)
    ensures
        ({
            let src = effective_source(
                match token_identifier { Some(t) => Some(*t), None => None },
                effective_conversion_options is Some,
            );
            &&& r is Ok <==> accepts(route.accepted_assets@, src)
            &&& r is Err ==> (token_identifier matches Some(t) ==> invalid_input_is(
                r,
                "Route does not accept source asset "@ + t@ + ". Supported: "@ + supported_list(
                    route.accepted_assets@,
                )
                    + ". Provide a token_identifier matching one of the supported sources, or pick another route."@,
            ))
            &&& (r is Err && token_identifier is None) ==> invalid_input_is(
                r,
                "Route does not accept sats. Provide a token_identifier matching one of: "@ + supported_list(
                    route.accepted_assets@,
                ) + "."@,
            )
        }),
{
    let effective = if effective_conversion_options.is_some() {
        SparkAsset::Bitcoin
    } else {
        match token_identifier {
            Some(tid) => SparkAsset::Token { token_identifier: tid.clone() },
            None => SparkAsset::Bitcoin,
        }
    };
    if !route.accepts_asset(&effective) {
        let list = supported_list_string(&route.accepted_assets);
        let m = match token_identifier {
            Some(tid) => String::from_str("Route does not accept source asset ").concat(tid.as_str()).concat(
                ". Supported: ",
            ).concat(list.as_str()).concat(
                ". Provide a token_identifier matching one of the supported sources, or pick another route.",
            ),
            None => String::from_str(
                "Route does not accept sats. Provide a token_identifier matching one of: ",
            ).concat(list.as_str()).concat("."),
        };
        return Err(SdkError::InvalidInput(m));
    }
    Ok(())
}

/// Surfaces the token-side debit on the response: with no conversion estimate
/// the provider's values stand; with one, the estimate's input, that input
/// rescaled to the destination's decimals, and the difference between that
/// and what the provider delivers (floored at zero).
pub fn compute_conversion_overrides(
    estimate: Option<&ConversionEstimate>,
    src_meta: &SrcTokenMetadata,
    dest_decimals: u32,
    provider_estimated_out: u128,
) -> (r: Result<PrepareResponseOverrides, SdkError>)
    ensures
        estimate is None ==> r == Ok::<PrepareResponseOverrides, SdkError>(
            PrepareResponseOverrides { amount_in: None, asset_amount_in: None, fee_amount: None },
        ),
        estimate matches Some(e) ==> match spec_rescale(e.amount_in, src_meta.decimals, dest_decimals) {
            Ok(a) => r == Ok::<PrepareResponseOverrides, SdkError>(
                PrepareResponseOverrides {
                    amount_in: Some(e.amount_in),
                    asset_amount_in: Some(a),
                    fee_amount: Some(
                        (if a >= provider_estimated_out { a - provider_estimated_out } else { 0 }) as u128,
                    ),
                },
            ),
            Err(m) => generic_result_is(r, Err(m)),
        },
{
    let e = match estimate {
        Some(e) => e,
        None => {
            return Ok(PrepareResponseOverrides { amount_in: None, asset_amount_in: None, fee_amount: None });
        },
    };
    let asset_amount_in = match rescale_decimals(e.amount_in, src_meta.decimals, dest_decimals) {
        Ok(a) => a,
        Err(err) => {
            return Err(err);
        },
    };
    let fee_amount = asset_amount_in.saturating_sub(provider_estimated_out);
    Ok(
        PrepareResponseOverrides {
            amount_in: Some(e.amount_in),
            asset_amount_in: Some(asset_amount_in),
            fee_amount: Some(fee_amount),
        },
    )
}

/// The prepare response for a cross-chain send: the provider's quote, with
/// the dispatcher's overrides in place of the provider's figures where given.
pub open spec fn spec_build_response(
    prepared: CrossChainSendPrepared,
    response_amount: u128,
    response_token_identifier: Option<String>,
    conversion_estimate: Option<ConversionEstimate>,
    fee_policy: FeePolicy,
    overrides: PrepareResponseOverrides,
) -> PrepareSendPaymentResponse {
    PrepareSendPaymentResponse {
        payment_method: SendPaymentMethod::CrossChainAddress {
            route: prepared.pair,
            recipient_address: prepared.recipient_address,
            amount_in: match overrides.amount_in { Some(v) => v, None => prepared.amount_in },
            asset_amount_in: match overrides.asset_amount_in {
                Some(v) => v,
                None => prepared.asset_amount_in,
            },
            estimated_out: prepared.estimated_out,
            fee_amount: match overrides.fee_amount { Some(v) => v, None => prepared.fee_amount },
            service_fee_amount: prepared.service_fee_amount,
            service_fee_asset: prepared.service_fee_asset,
            source_transfer_fee_sats: prepared.source_transfer_fee_sats,
            fee_mode: prepared.fee_mode,
            expires_at: prepared.expires_at,
            provider_context: prepared.provider_context,
        },
        amount: response_amount,
        token_identifier: response_token_identifier,
        conversion_estimate,
        fee_policy,
    }
}

/// The token identifier the prepare response carries: after a
/// token-to-bitcoin conversion the outbound leg is sats, so it carries none;
/// otherwise the caller's token passes through.
pub fn response_token_identifier(estimate: Option<&ConversionEstimate>, token_identifier: Option<String>) -> (r:
    Option<String>)
    ensures
        r == (if estimate matches Some(e) && e.options.conversion_type is ToBitcoin {
            None
        } else {
            token_identifier
        }),
{
    match estimate {
        Some(e) => match e.options.conversion_type {
            ConversionType::ToBitcoin { .. } => None,
            ConversionType::FromBitcoin => token_identifier,
        },
        None => token_identifier,
    }
}

/// Assembles the prepare response from the provider's quote.
pub fn build_response(
    prepared: CrossChainSendPrepared,
    response_amount: u128,
    response_token_identifier: Option<String>,
    conversion_estimate: Option<ConversionEstimate>,
    fee_policy: FeePolicy,
    overrides: &PrepareResponseOverrides,
) -> (r: PrepareSendPaymentResponse)
    ensures
        r == spec_build_response(
            prepared,
            response_amount,
            response_token_identifier,
            conversion_estimate,
            fee_policy,
            *overrides,
        ),
{
    let amount_in = match overrides.amount_in {
        Some(v) => v,
        None => prepared.amount_in,
    };
    let asset_amount_in = match overrides.asset_amount_in {
        Some(v) => v,
        None => prepared.asset_amount_in,
    };
    let fee_amount = match overrides.fee_amount {
        Some(v) => v,
        None => prepared.fee_amount,
    };
    PrepareSendPaymentResponse {
        payment_method: SendPaymentMethod::CrossChainAddress {
            route: prepared.pair,
            recipient_address: prepared.recipient_address,
            amount_in,
            asset_amount_in,
            estimated_out: prepared.estimated_out,
            fee_amount,
            service_fee_amount: prepared.service_fee_amount,
            service_fee_asset: prepared.service_fee_asset,
            source_transfer_fee_sats: prepared.source_transfer_fee_sats,
            fee_mode: prepared.fee_mode,
            expires_at: prepared.expires_at,
            provider_context: prepared.provider_context,
        },
        amount: response_amount,
        token_identifier: response_token_identifier,
        conversion_estimate,
        fee_policy,
    }
}

/// The sats an AMM conversion must produce to fund the provider leg: the
/// provider's `amount_in` plus the source-leg transfer fee, capped at
/// `u128::MAX`.
pub fn amm_target_sats(prepared: &CrossChainSendPrepared) -> (r: u128)
    ensures
        r == (if prepared.amount_in + prepared.source_transfer_fee_sats > u128::MAX {
            u128::MAX
        } else {
            (prepared.amount_in + prepared.source_transfer_fee_sats) as u128
        }),
{
    prepared.amount_in.saturating_add(prepared.source_transfer_fee_sats as u128)
}

/// Outcome of the source-selection decision tree.
#[derive(Debug, PartialEq)]
pub enum CrossChainSourceDecision {
    /// Use these conversion options (none: send the source as it is).
    UseAsIs(Option<ConversionOptions>),
    /// Let the stable balance decide whether a top-up conversion is needed.
    DeferToStableBalance,
}

/// The decision tree for the source side of a cross-chain send: explicit
/// conversion options win; then a direct send when the route accepts the
/// requested token; then an automatic token-to-bitcoin conversion when the
/// token is the active stable-balance token and the route accepts sats; with
/// no token named, the stable balance decides when the route accepts sats.
pub open spec fn spec_decide_source(
    route: CrossChainRoutePair,
    token_identifier: Option<String>,
    conversion_options: Option<ConversionOptions>,
    active_stable_token: Option<String>,
    stable_max_slippage_bps: Option<u32>,
) -> CrossChainSourceDecision {
    match conversion_options {
        Some(o) => CrossChainSourceDecision::UseAsIs(Some(o)),
        None => match token_identifier {
            Some(t) => {
                if accepts(route.accepted_assets@, SparkAsset::Token { token_identifier: t }) {
                    CrossChainSourceDecision::UseAsIs(None)
                } else if !accepts(route.accepted_assets@, SparkAsset::Bitcoin) {
                    CrossChainSourceDecision::UseAsIs(None)
                } else if active_stable_token matches Some(a) && a@ == t@ {
                    CrossChainSourceDecision::UseAsIs(
                        Some(
                            ConversionOptions {
                                conversion_type: ConversionType::ToBitcoin { from_token_identifier: t },
                                max_slippage_bps: stable_max_slippage_bps,
                                completion_timeout_secs: None,
                            },
                        ),
                    )
                } else {
                    CrossChainSourceDecision::UseAsIs(None)
                }
            },
            None => if accepts(route.accepted_assets@, SparkAsset::Bitcoin) {
                CrossChainSourceDecision::DeferToStableBalance
            } else {
                CrossChainSourceDecision::UseAsIs(None)
            },
        },
    }
}

/// Decides the source-side conversion options for a cross-chain send.
pub fn decide_cross_chain_source(
    route: &CrossChainRoutePair,
    token_identifier: Option<&String>,
    conversion_options: Option<&ConversionOptions>,
    active_stable_token: Option<&String>,
    stable_max_slippage_bps: Option<u32>,
) -> (r: CrossChainSourceDecision)
    ensures
        r == spec_decide_source(
            *route,
            match token_identifier { Some(t) => Some(*t), None => None },
            match conversion_options { Some(o) => Some(*o), None => None },
            match active_stable_token { Some(a) => Some(*a), None => None },
            stable_max_slippage_bps,
        ),
{
    if let Some(opts) = conversion_options {
        return CrossChainSourceDecision::UseAsIs(Some(opts.clone()));
    }
    match token_identifier {
        Some(token_id) => {
            let as_token = SparkAsset::Token { token_identifier: token_id.clone() };
            if route.accepts_asset(&as_token) {
                return CrossChainSourceDecision::UseAsIs(None);
            }
            if !route.accepts_asset(&SparkAsset::Bitcoin) {
                return CrossChainSourceDecision::UseAsIs(None);
            }
            let is_active = match active_stable_token {
                Some(a) => crate::text::str_eq(a.as_str(), token_id.as_str()),
                None => false,
            };
            if is_active {
                return CrossChainSourceDecision::UseAsIs(
                    Some(
                        ConversionOptions {
                            conversion_type: ConversionType::ToBitcoin { from_token_identifier: token_id.clone() },
                            max_slippage_bps: stable_max_slippage_bps,
                            completion_timeout_secs: None,
                        },
                    ),
                );
            }
            CrossChainSourceDecision::UseAsIs(None)
        },
        None => {
            if route.accepts_asset(&SparkAsset::Bitcoin) {
                CrossChainSourceDecision::DeferToStableBalance
            } else {
                CrossChainSourceDecision::UseAsIs(None)
            }
        },
    }
}

/// Which prepare path a cross-chain send takes.
#[derive(Debug, Clone, Copy, PartialEq, Eq, Structural)]
pub enum CrossChainPreparePath {
    /// No conversion: the amount is in the route's source-asset units.
    SatsDenominated,
    /// A conversion funds a sats-denominated amount.
    SatsDenominatedWithConversion,
    /// A conversion funds a token-denominated budget, fees included.
    TokenDenominatedFeesIncluded,
    /// A conversion funds a token-denominated target, fees on top.
    TokenDenominatedFeesExcluded,
}

/// Selects the prepare path from whether a conversion runs, whether a token
/// was named, and the fee policy.
pub fn choose_prepare_path(has_conversion: bool, has_token: bool, fee_policy: FeePolicy) -> (r: CrossChainPreparePath)
    ensures
        r == (if !has_conversion {
            CrossChainPreparePath::SatsDenominated
        } else if !has_token {
            CrossChainPreparePath::SatsDenominatedWithConversion
        } else if fee_policy == FeePolicy::FeesIncluded {
            CrossChainPreparePath::TokenDenominatedFeesIncluded
        } else {
            CrossChainPreparePath::TokenDenominatedFeesExcluded
        }),
{
    if !has_conversion {
        CrossChainPreparePath::SatsDenominated
    } else if !has_token {
        CrossChainPreparePath::SatsDenominatedWithConversion
    } else {
        match fee_policy {
            FeePolicy::FeesIncluded => CrossChainPreparePath::TokenDenominatedFeesIncluded,
            FeePolicy::FeesExcluded => CrossChainPreparePath::TokenDenominatedFeesExcluded,
        }
    }
}

/// Rejects a token-funded conversion whose source-token balance (`have`, zero
/// when the wallet holds none of the token) cannot cover the conversion's
/// input. Nothing to check without a conversion, or for one not funded by a
/// token.
pub fn check_token_balance(estimate: Option<&ConversionEstimate>, have: u128) -> (r: Result<(), SdkError>)
    ensures
        match estimate {
            Some(e) => match e.options.conversion_type {
                ConversionType::ToBitcoin { from_token_identifier } => if have < e.amount_in {
                    invalid_input_is(
                        r,
                        "Insufficient "@ + from_token_identifier@ + " balance for cross-chain conversion: have "@
                            + crate::text::decimal(have as nat) + ", need "@ + crate::text::decimal(
                            e.amount_in as nat,
                        ) + " (includes conversion and bridge fees)."@,
                    )
                } else {
                    r is Ok
                },
                _ => r is Ok,
            },
            None => r is Ok,
        },
{
    let e = match estimate {
        Some(e) => e,
        None => {
            return Ok(());
        },
    };
    match &e.options.conversion_type {
        ConversionType::ToBitcoin { from_token_identifier } => {
            if have < e.amount_in {
                return Err(
                    SdkError::InvalidInput(
                        String::from_str("Insufficient ").concat(from_token_identifier.as_str()).concat(
                            " balance for cross-chain conversion: have ",
                        ).concat(crate::text::decimal_string(have).as_str()).concat(", need ").concat(
                            crate::text::decimal_string(e.amount_in).as_str(),
                        ).concat(" (includes conversion and bridge fees)."),
                    ),
                );
            }
            Ok(())
        },
        _ => Ok(()),
    }
}

/// The token a cross-chain conversion converts from; the conversion paths
/// only run token-to-bitcoin conversions.
pub fn conversion_source_token(options: &ConversionOptions) -> (r: Result<&String, SdkError>)
    ensures
        match options.conversion_type {
            ConversionType::ToBitcoin { from_token_identifier } => r == Ok::<&String, SdkError>(
                &from_token_identifier,
            ),
            ConversionType::FromBitcoin => crate::error::generic_error_is(
                r,
                "Cross-chain conversion path requires ToBitcoin options"@,
            ),
        },
{
    match &options.conversion_type {
        ConversionType::ToBitcoin { from_token_identifier } => Ok(from_token_identifier),
        ConversionType::FromBitcoin => Err(
            SdkError::Generic(String::from_str("Cross-chain conversion path requires ToBitcoin options")),
        ),
    }
}

} // verus!
