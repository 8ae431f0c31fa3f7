//! Cross-chain payments: route descriptions, amount arithmetic shared by the
//! providers, and the provider-specific decision logic.

pub mod boltz;
pub mod orchestra;

use vstd::prelude::*;
use vstd::string::StringExecFns;

use crate::error::SdkError;
use crate::models::{
    ConversionInfo, ConversionStatus, CrossChainAcceptedAsset, CrossChainFeeMode,
    CrossChainProvider, CrossChainProviderContext, CrossChainRouteLimits, CrossChainRoutePair,
    DeliveryMethod, FeePolicy, Payment, PaymentDetails, SparkAsset,
};
use crate::text::{decimal, decimal_string, eq_ignore_ascii_case, eq_ignore_case, str_eq};

verus! {

/// SDK-level bounds for cross-chain slippage.
pub const MIN_CROSS_CHAIN_SLIPPAGE_BPS: u32 = 10;
pub const MAX_CROSS_CHAIN_SLIPPAGE_BPS: u32 = 500;
/// Used when neither the request nor the configuration supplies a value.
pub const DEFAULT_CROSS_CHAIN_SLIPPAGE_BPS: u32 = 100;

/// Bounds for the target-overpay pad applied to the user's destination amount
/// on `FeesExcluded` sends. `0` opts out; `500` caps at 5%.
pub const MIN_TARGET_OVERPAY_BPS: u32 = 0;
pub const MAX_TARGET_OVERPAY_BPS: u32 = 500;
/// Default pad applied when neither the request nor the configuration
/// specifies one.
pub const DEFAULT_TARGET_OVERPAY_BPS: u32 = 15;

/// Each provider's background monitor interval, in seconds.
pub const MONITOR_INTERVAL_SECS: u64 = 30;

/// Whether two Spark-side assets are the same asset: both bitcoin, or both the
/// same token.
pub open spec fn same_asset(a: SparkAsset, b: SparkAsset) -> bool {
    match (a, b) {
        (SparkAsset::Bitcoin, SparkAsset::Bitcoin) => true,
        (SparkAsset::Token { token_identifier: x }, SparkAsset::Token { token_identifier: y }) =>
            x@ == y@,
        _ => false,
    }
}

/// Whether `i` is the first entry of `assets` that is `asset`.
pub open spec fn is_first_accepting(assets: Seq<CrossChainAcceptedAsset>, asset: SparkAsset, i: int) -> bool {
    &&& 0 <= i < assets.len()
    &&& same_asset(assets[i].asset, asset)
    &&& forall|j: int| 0 <= j < i ==> !same_asset(#[trigger] assets[j].asset, asset)
}

/// Whether `assets` holds `asset`.
pub open spec fn accepts(assets: Seq<CrossChainAcceptedAsset>, asset: SparkAsset) -> bool {
    exists|i: int| 0 <= i < assets.len() && same_asset(#[trigger] assets[i].asset, asset)
}

/// Decides whether two Spark-side assets are the same asset.
pub fn asset_eq(a: &SparkAsset, b: &SparkAsset) -> (r: bool)
    ensures
        r == same_asset(*a, *b),
{
    match (a, b) {
        (SparkAsset::Bitcoin, SparkAsset::Bitcoin) => true,
        (SparkAsset::Token { token_identifier: x }, SparkAsset::Token { token_identifier: y }) =>
            str_eq(x.as_str(), y.as_str()),
        _ => false,
    }
}

fn position_of_asset(assets: &Vec<CrossChainAcceptedAsset>, asset: &SparkAsset) -> (r: Option<usize>)
    ensures
        match r {
            Some(i) => is_first_accepting(assets@, *asset, i as int),
            None => !accepts(assets@, *asset),
        },
{
    let mut i: usize = 0;
    while i < assets.len()
        invariant
            i <= assets.len(),
            forall|j: int| 0 <= j < i ==> !same_asset(#[trigger] assets@[j].asset, *asset),
        decreases assets.len() - i,
    {
        if asset_eq(&assets[i].asset, asset) {
            return Some(i);
        }
        i = i + 1;
    }
    None
}

impl CrossChainRoutePair {
    /// The bounds published for moving this route with `asset`, if the route
    /// accepts it at all: those of the first accepted entry for the asset.
    pub fn limits_for(&self, asset: &SparkAsset) -> (r: Option<&CrossChainRouteLimits>)
        ensures
            !accepts(self.accepted_assets@, *asset) ==> r is None,
            forall|i: int| #[trigger] is_first_accepting(self.accepted_assets@, *asset, i) ==> (
                match r {
                    Some(l) => self.accepted_assets@[i].limits == Some(*l),
                    None => self.accepted_assets@[i].limits is None,
                }),
    {
        match position_of_asset(&self.accepted_assets, asset) {
            Some(i) => {
                proof {
                    assert forall|k: int| #[trigger] is_first_accepting(self.accepted_assets@, *asset, k) implies k == i by {
                        if k < i {
                            assert(!same_asset(self.accepted_assets@[k].asset, *asset));
                        } else if k > i {
                            assert(!same_asset(self.accepted_assets@[i as int].asset, *asset));
                        }
                    }
                }
                match &self.accepted_assets[i].limits {
                    Some(l) => Some(l),
                    None => None,
                }
            },
            None => None,
        }
    }

    /// Whether `asset` is one of the Spark-side assets this route accepts.
    pub fn accepts_asset(&self, asset: &SparkAsset) -> (r: bool)
        ensures
            r == accepts(self.accepted_assets@, *asset),
    {
        position_of_asset(&self.accepted_assets, asset).is_some()
    }
}

impl CrossChainProvider {
    /// The provider's display name.
    pub fn display_name(&self) -> (r: &'static str)
        ensures
            r@ == (match self {
                CrossChainProvider::Orchestra => "Orchestra"@,
                CrossChainProvider::Boltz => "Boltz"@,
            }),
    {
        match self {
            CrossChainProvider::Orchestra => "Orchestra",
            CrossChainProvider::Boltz => "Boltz",
        }
    }
}

impl DeliveryMethod {
    /// The rail's display name.
    pub fn display_name(&self) -> (r: &'static str)
        ensures
            r@ == (match self {
                DeliveryMethod::Spark => "Spark"@,
                DeliveryMethod::Lightning => "Lightning"@,
                DeliveryMethod::Bitcoin => "Bitcoin"@,
            }),
    {
        match self {
            DeliveryMethod::Spark => "Spark",
            DeliveryMethod::Lightning => "Lightning",
            DeliveryMethod::Bitcoin => "Bitcoin",
        }
    }
}

/// The cross-chain fee mode a payment fee policy selects.
pub open spec fn fee_mode_of(policy: FeePolicy) -> CrossChainFeeMode {
    match policy {
        FeePolicy::FeesExcluded => CrossChainFeeMode::FeesExcluded,
        FeePolicy::FeesIncluded => CrossChainFeeMode::FeesIncluded,
    }
}

impl From<FeePolicy> for CrossChainFeeMode {
    fn from(policy: FeePolicy) -> (r: CrossChainFeeMode) {
        match policy {
            FeePolicy::FeesExcluded => CrossChainFeeMode::FeesExcluded,
            FeePolicy::FeesIncluded => CrossChainFeeMode::FeesIncluded,
        }
    }
}

impl vstd::std_specs::convert::FromSpecImpl<FeePolicy> for CrossChainFeeMode {
    open spec fn obeys_from_spec() -> bool {
        true
    }

    open spec fn from_spec(v: FeePolicy) -> CrossChainFeeMode {
        fee_mode_of(v)
    }
}

/// The payment details of a freshly converted payment, with `conversion_info`
/// attached where the details have a slot for one.
pub open spec fn details_with_conversion(
    details: Option<PaymentDetails>,
    conversion_info: Option<ConversionInfo>,
) -> Option<PaymentDetails> {
    match details {
        Some(PaymentDetails::Spark { invoice_details, htlc_details, .. }) => Some(
            PaymentDetails::Spark { invoice_details, htlc_details, conversion_info },
        ),
        Some(PaymentDetails::Token { metadata, tx_hash, tx_type, invoice_details, .. }) => Some(
            PaymentDetails::Token { metadata, tx_hash, tx_type, invoice_details, conversion_info },
        ),
        Some(
            PaymentDetails::Lightning {
                description,
                invoice,
                destination_pubkey,
                htlc_details,
                lnurl_pay_info,
                lnurl_withdraw_info,
                lnurl_receive_metadata,
                ..
            },
        ) => Some(
            PaymentDetails::Lightning {
                description,
                invoice,
                destination_pubkey,
                htlc_details,
                lnurl_pay_info,
                lnurl_withdraw_info,
                lnurl_receive_metadata,
                conversion_info,
            },
        ),
        other => other,
    }
}

/// Attaches a cross-chain conversion info to a freshly converted payment. The
/// payment's top-level status and every other field are left as they are.
pub fn payment_with_conversion_info(payment: Payment, conversion_info: Option<ConversionInfo>) -> (r: Payment)
    ensures
        r == (Payment { details: details_with_conversion(payment.details, conversion_info), ..payment }),
{
    let Payment { id, payment_type, status, amount, fees, timestamp, method, details, conversion_details } =
        payment;
    let details = match details {
        Some(PaymentDetails::Spark { invoice_details, htlc_details, .. }) => Some(
            PaymentDetails::Spark { invoice_details, htlc_details, conversion_info },
        ),
        Some(PaymentDetails::Token { metadata, tx_hash, tx_type, invoice_details, .. }) => Some(
            PaymentDetails::Token { metadata, tx_hash, tx_type, invoice_details, conversion_info },
        ),
        Some(
            PaymentDetails::Lightning {
                description,
                invoice,
                destination_pubkey,
                htlc_details,
                lnurl_pay_info,
                lnurl_withdraw_info,
                lnurl_receive_metadata,
                ..
            },
        ) => Some(
            PaymentDetails::Lightning {
                description,
                invoice,
                destination_pubkey,
                htlc_details,
                lnurl_pay_info,
                lnurl_withdraw_info,
                lnurl_receive_metadata,
                conversion_info,
            },
        ),
        other => other,
    };
    Payment { id, payment_type, status, amount, fees, timestamp, method, details, conversion_details }
}

/// Whether `asset` is one of the tickers treated as pegged to one US dollar,
/// compared without regard to ASCII case.
pub open spec fn is_usd_stable(asset: Seq<char>) -> bool {
    ||| eq_ignore_case(asset, "USDB"@)
    ||| eq_ignore_case(asset, "USDC"@)
    ||| eq_ignore_case(asset, "USDT"@)
    ||| eq_ignore_case(asset, "USDT0"@)
}

/// Whether `asset` is a ticker treated as pegged to one US dollar.
pub fn is_usd_stable_asset(asset: &str) -> (r: bool)
    ensures
        r == is_usd_stable(asset@),
{
    eq_ignore_ascii_case(asset, "USDB") || eq_ignore_ascii_case(asset, "USDC") || eq_ignore_ascii_case(
        asset,
        "USDT",
    ) || eq_ignore_ascii_case(asset, "USDT0")
}

/// Best-available fee: the realized `asset_amount_in - delivered_amount`
/// (floored at zero) on a completed conversion with both figures known, else
/// the prepare-time estimate.
pub fn compute_terminal_fee_amount(
    new_status: &ConversionStatus,
    asset_amount_in: Option<u128>,
    delivered_amount: Option<u128>,
    prepare_estimate: Option<u128>,
) -> (r: Option<u128>)
    ensures
        r == (match (*new_status, asset_amount_in, delivered_amount) {
            (ConversionStatus::Completed, Some(a), Some(d)) => Some(
                (if a >= d { a - d } else { 0 }) as u128,
            ),
            _ => prepare_estimate,
        }),
{
    match (new_status, asset_amount_in, delivered_amount) {
        (ConversionStatus::Completed, Some(a), Some(d)) => Some(a.saturating_sub(d)),
        _ => prepare_estimate,
    }
}

/// Ten to the power `n`.
pub open spec fn pow10(n: nat) -> nat
    decreases n,
{
    if n == 0 { 1 } else { 10 * pow10((n - 1) as nat) }
}

proof fn lemma_pow10_grows(a: nat, b: nat)
    requires
        a <= b,
    ensures
        pow10(a) <= pow10(b),
        pow10(a) >= 1,
    decreases b,
{
    if b > a {
        lemma_pow10_grows(a, (b - 1) as nat);
    } else if a > 0 {
        lemma_pow10_grows((a - 1) as nat, (a - 1) as nat);
    }
}

/// `10^n`, or `None` when it does not fit in a `u128`.
pub fn checked_pow10(n: u32) -> (r: Option<u128>)
    ensures
        r == (if pow10(n as nat) <= u128::MAX { Some(pow10(n as nat) as u128) } else { None }),
{
    let mut acc: u128 = 1;
    let mut i: u32 = 0;
    while i < n
        invariant
            i <= n,
            acc == pow10(i as nat),
        decreases n - i,
    {
        match acc.checked_mul(10) {
            Some(v) => { acc = v; },
            None => {
                proof { lemma_pow10_grows((i + 1) as nat, n as nat); }
                return None;
            },
        }
        i = i + 1;
    }
    Some(acc)
}

/// What `rescale_decimals` gives: the amount scaled between two base-unit
/// precisions at face value (up by multiplication, down by truncating
/// division), or the message of the overflow that stops it.
pub open spec fn spec_rescale(amount: u128, src_decimals: u32, dest_decimals: u32) -> Result<u128, Seq<char>> {
    if dest_decimals >= src_decimals {
        let f = pow10((dest_decimals - src_decimals) as nat);
        if f > u128::MAX {
            Err("Cross-chain: decimal scale overflow"@)
        } else if amount * f > u128::MAX {
            Err("Cross-chain: decimal rescale overflow"@)
        } else {
            Ok((amount * f) as u128)
        }
    } else {
        let f = pow10((src_decimals - dest_decimals) as nat);
        if f > u128::MAX {
            Err("Cross-chain: decimal scale overflow"@)
        } else {
            Ok((amount as nat / f) as u128)
        }
    }
}

/// Whether an SDK result is the given spec outcome, an error being a generic
/// one with that message.
pub open spec fn generic_result_is<T>(r: Result<T, SdkError>, s: Result<T, Seq<char>>) -> bool {
    match (r, s) {
        (Ok(a), Ok(b)) => a == b,
        (Err(SdkError::Generic(m)), Err(t)) => m@ == t,
        _ => false,
    }
}

/// Rescales an amount between two base-unit precisions. Assumes one source
/// unit is worth one destination unit at face value; errors on overflow.
pub fn rescale_decimals(amount: u128, src_decimals: u32, dest_decimals: u32) -> (r: Result<u128, SdkError>)
    ensures
        generic_result_is(r, spec_rescale(amount, src_decimals, dest_decimals)),
{
    if dest_decimals >= src_decimals {
        let factor = match checked_pow10(dest_decimals - src_decimals) {
            Some(f) => f,
            None => {
                return Err(SdkError::Generic(String::from_str("Cross-chain: decimal scale overflow")));
            },
        };
        match amount.checked_mul(factor) {
            Some(v) => Ok(v),
            None => Err(SdkError::Generic(String::from_str("Cross-chain: decimal rescale overflow"))),
        }
    } else {
        let factor = match checked_pow10(src_decimals - dest_decimals) {
            Some(f) => f,
            None => {
                return Err(SdkError::Generic(String::from_str("Cross-chain: decimal scale overflow")));
            },
        };
        proof { lemma_pow10_grows(0, (src_decimals - dest_decimals) as nat); }
        Ok(amount / factor)
    }
}

/// The message of an out-of-range basis-point request.
pub open spec fn bps_range_text(field: Seq<char>, bps: u32, min: u32, max: u32) -> Seq<char> {
    field + " "@ + decimal(bps as nat) + " must be in "@ + decimal(min as nat) + " to "@ + decimal(max as nat)
}

/// Renders the message of an out-of-range basis-point request.
pub fn bps_range_message(field: &str, bps: u32, min: u32, max: u32) -> (r: String)
    ensures
        r@ == bps_range_text(field@, bps, min, max),
{
    String::from_str(field).concat(" ").concat(decimal_string(bps as u128).as_str()).concat(" must be in ").concat(
        decimal_string(min as u128).as_str(),
    ).concat(" to ").concat(decimal_string(max as u128).as_str())
}

/// Resolves the target-overpay basis points for `FeesExcluded` preparations:
/// the request's value when given (which must lie in the allowed band), else
/// the configured default, else the built-in default.
pub fn resolve_target_overpay_bps(requested: Option<u32>, config_default: Option<u32>) -> (r: Result<u32, SdkError>)
    ensures
        match requested {
            Some(b) if b > MAX_TARGET_OVERPAY_BPS => r matches Err(SdkError::InvalidInput(m)) && m@
                == bps_range_text("target_overpay_bps"@, b, MIN_TARGET_OVERPAY_BPS, MAX_TARGET_OVERPAY_BPS),
            Some(b) => r == Ok::<u32, SdkError>(b),
            None => r == Ok::<u32, SdkError>(
                match config_default {
                    Some(c) => c,
                    None => DEFAULT_TARGET_OVERPAY_BPS,
                },
            ),
        },
{
    if let Some(bps) = requested {
        if bps > MAX_TARGET_OVERPAY_BPS {
            return Err(
                SdkError::InvalidInput(
                    bps_range_message(
                        "target_overpay_bps",
                        bps,
                        MIN_TARGET_OVERPAY_BPS,
                        MAX_TARGET_OVERPAY_BPS,
                    ),
                ),
            );
        }
        return Ok(bps);
    }
    match config_default {
        Some(c) => Ok(c),
        None => Ok(DEFAULT_TARGET_OVERPAY_BPS),
    }
}

/// `a * b`, capped at `u128::MAX`.
pub open spec fn sat_mul(a: u128, b: u128) -> u128 {
    if a * b > u128::MAX { u128::MAX } else { (a * b) as u128 }
}

/// `a + b`, capped at `u128::MAX`.
pub open spec fn sat_add(a: u128, b: u128) -> u128 {
    if a + b > u128::MAX { u128::MAX } else { (a + b) as u128 }
}

/// `a * b`, capped at `u128::MAX`.
pub fn saturating_mul_u128(a: u128, b: u128) -> (r: u128)
    ensures
        r == sat_mul(a, b),
{
    match a.checked_mul(b) {
        Some(v) => v,
        None => u128::MAX,
    }
}

/// The target amount inflated by `overpay_bps`: `amount + amount * bps / 10000`,
/// each step capped at `u128::MAX`; zero basis points leave it as it is.
pub open spec fn spec_inflate(amount: u128, overpay_bps: u32) -> u128 {
    if overpay_bps == 0 {
        amount
    } else {
        sat_add(amount, (sat_mul(amount, overpay_bps as u128) / 10000) as u128)
    }
}

/// Inflates a target amount by `overpay_bps` so the realized delivery lands at
/// or above target despite provider slippage. Zero basis points is identity.
pub fn inflate_target_amount(amount: u128, overpay_bps: u32) -> (r: u128)
    ensures
        r == spec_inflate(amount, overpay_bps),
{
    if overpay_bps == 0 {
        return amount;
    }
    amount.saturating_add(saturating_mul_u128(amount, overpay_bps as u128) / 10_000)
}

/// Inflating never lowers the target, and never raises it by more than the
/// pad the basis points ask for.
pub proof fn law_inflation_bounds(amount: u128, overpay_bps: u32)
    ensures
        spec_inflate(amount, overpay_bps) >= amount,
        amount as int * overpay_bps as int <= u128::MAX ==> spec_inflate(amount, overpay_bps) <= amount
            + amount as int * overpay_bps as int / 10000,
{
}

/// Data stashed on a prepared send so the provider can resume the send stage
/// without re-quoting.
#[derive(Debug, Clone)]
pub struct CrossChainSendPrepared {
    pub amount_in: u128,
    /// `amount_in` expressed in the destination asset's base units.
    pub asset_amount_in: u128,
    /// Amount the recipient will receive, in destination asset base units.
    pub estimated_out: u128,
    /// Total user-visible fee in destination asset base units.
    pub fee_amount: u128,
    /// Provider's own service fee, in its native denomination.
    pub service_fee_amount: u128,
    /// Asset the service fee is denominated in. Unset means sats.
    pub service_fee_asset: Option<String>,
    /// Sats cost of moving `amount_in` from the wallet to the provider.
    pub source_transfer_fee_sats: u64,
    /// Fee mode the prepare was called with.
    pub fee_mode: CrossChainFeeMode,
    pub expires_at: String,
    pub pair: CrossChainRoutePair,
    pub recipient_address: String,
    /// The token on the Spark source. `None` for sats.
    pub token_identifier: Option<String>,
    /// Provider-internal state carried between prepare and send.
    pub provider_context: CrossChainProviderContext,
}

/// The `Debug` name of an address family.
pub open spec fn family_debug(f: crate::models::CrossChainAddressFamily) -> Seq<char> {
    match f {
        crate::models::CrossChainAddressFamily::Evm => "Evm"@,
        crate::models::CrossChainAddressFamily::Solana => "Solana"@,
        crate::models::CrossChainAddressFamily::Tron => "Tron"@,
    }
}

/// Guards a provider's deposit address before it is turned into a payment
/// request: its family must be recognised (`family`, as detected from the
/// address) and must match the route's chain (`family_matches_chain`, as the
/// family decides for the chain and contract). Returns the family.
pub fn check_deposit_address_family(
    deposit_address: &str,
    chain: &str,
    family: Option<crate::models::CrossChainAddressFamily>,
    family_matches_chain: bool,
) -> (r: Result<crate::models::CrossChainAddressFamily, SdkError>)
    ensures
        match family {
            None => crate::error::generic_error_is(
                r,
                "Cross-chain provider returned unrecognised deposit address: "@ + deposit_address@,
            ),
            Some(f) => if family_matches_chain {
                r == Ok::<crate::models::CrossChainAddressFamily, SdkError>(f)
            } else {
                crate::error::generic_error_is(
                    r,
                    "Cross-chain provider returned "@ + family_debug(f) + " deposit address for "@ + chain@
                        + " route"@,
                )
            },
        },
{
    let f = match family {
        Some(f) => f,
        None => {
            return Err(
                SdkError::Generic(
                    String::from_str("Cross-chain provider returned unrecognised deposit address: ").concat(
                        deposit_address,
                    ),
                ),
            );
        },
    };
    if !family_matches_chain {
        let name = match f {
            crate::models::CrossChainAddressFamily::Evm => "Evm",
            crate::models::CrossChainAddressFamily::Solana => "Solana",
            crate::models::CrossChainAddressFamily::Tron => "Tron",
        };
        return Err(
            SdkError::Generic(
                String::from_str("Cross-chain provider returned ").concat(name).concat(" deposit address for ").concat(
                    chain,
                ).concat(" route"),
            ),
        );
    }
    Ok(f)
}

} // verus!
