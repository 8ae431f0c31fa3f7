//! The Orchestra cross-chain provider: the shape of its routes, limits and
//! orders as this library reads them, and every decision the provider makes
//! on them (route discovery, quote checks, deposit sizing, the order
//! lifecycle and the background monitor's choices).

use vstd::prelude::*;
use vstd::string::{StrSliceExecFns, StringExecFns};

use crate::error::{generic_error_is, invalid_input_is, SdkError};
use crate::models::{
    ConversionInfo, ConversionStatus, CrossChainAcceptedAsset, CrossChainProvider, CrossChainRouteLimits,
    CrossChainRoutePair, DeliveryMethod, Payment, PaymentDetails, PaymentMetadata, PaymentStatus,
    SparkAsset,
};
use crate::cross_chain::{sat_add, sat_mul, saturating_mul_u128, CrossChainSendPrepared};
use crate::models::{ConversionFilter, StorageListPaymentsRequest, StoragePaymentDetailsFilter};
use crate::text::{
    decimal, decimal_string, eq_ignore_ascii_case, eq_ignore_case, parse_u128, spec_parse_u128,
    u128_parse_error, u128_parse_error_text,
};

verus! {

/// One end of an Orchestra route.
#[derive(Clone, Debug, PartialEq)]
pub struct RouteAsset {
    pub chain: String,
    pub asset: String,
    pub contract_address: Option<String>,
    pub decimals: u8,
    pub chain_id: Option<String>,
}

/// A route Orchestra offers, from `source` to `destination`.
#[derive(Clone, Debug, PartialEq)]
pub struct Route {
    pub source_chain: String,
    pub source_asset: String,
    pub destination_chain: String,
    pub destination_asset: String,
    pub exact_out_eligible: bool,
    pub source: RouteAsset,
    pub destination: RouteAsset,
}

/// A USD band in cents, as decimal text.
#[derive(Clone, Debug, PartialEq)]
pub struct UsdBounds {
    pub min_cents: Option<String>,
    pub max_cents: Option<String>,
}

/// The bounds on the request leg of one amount mode, as decimal text.
#[derive(Clone, Debug, PartialEq)]
pub struct RequestAmountLimits {
    pub min_amount_smallest: Option<String>,
    pub max_amount_smallest: Option<String>,
    pub min_usd_cents: Option<String>,
    pub max_usd_cents: Option<String>,
}

/// What Orchestra publishes for one amount mode.
#[derive(Clone, Debug, PartialEq)]
pub struct ModeLimits {
    pub supported: bool,
    pub request_amount: Option<RequestAmountLimits>,
}

/// Whether the provider may enforce more than it publishes.
#[derive(Clone, Copy, Debug, PartialEq, Eq, Structural)]
pub struct DynamicProviderLimits {
    pub possible: Option<bool>,
}

/// The limits Orchestra publishes for a route.
#[derive(Clone, Debug, PartialEq)]
pub struct RouteLimits {
    pub order_notional_usd: Option<UsdBounds>,
    pub exact_in: Option<ModeLimits>,
    pub dynamic_provider_limits: Option<DynamicProviderLimits>,
}

/// A route with the limits published for it.
#[derive(Clone, Debug, PartialEq)]
pub struct RouteWithLimits {
    pub route: Route,
    pub limits: RouteLimits,
}

/// The state of an Orchestra order.
#[derive(Clone, Copy, Debug, PartialEq, Eq, Structural)]
pub enum OrderStatus {
    /// Waiting for or processing the deposit.
    Processing,
    Completed,
    Failed,
    Refunded,
}

impl OrderStatus {
    pub open spec fn terminal(self) -> bool {
        !(self is Processing)
    }

    /// Whether the order has settled one way or the other.
    pub fn is_terminal(&self) -> (r: bool)
        ensures
            r == self.terminal(),
    {
        !matches!(self, OrderStatus::Processing)
    }
}

/// The fields of an Orchestra order this library reads.
#[derive(Clone, Debug, PartialEq)]
pub struct Order {
    pub id: String,
    pub status: OrderStatus,
    pub amount_in: Option<String>,
    pub amount_out: Option<String>,
    pub source_tx_hash: Option<String>,
    pub destination_tx_hash: Option<String>,
    pub spark_tx_hash: Option<String>,
}

/// An answer of Orchestra's `/status`.
#[derive(Clone, Debug, PartialEq)]
pub struct StatusResponse {
    pub order: Order,
}

/// An error of the Orchestra client, as this library tells them apart.
#[derive(Clone, Debug, PartialEq)]
pub enum FlashnetError {
    /// The provider rejected the amount as outside what the route accepts.
    AmountOutOfRange { reason: String, too_small: bool },
    /// A transport failure or an HTTP error answer, with its status code.
    Network { reason: String, code: Option<u16> },
    /// Any other failure, with the message it renders to.
    Other { message: String },
}

/// What a quote stashed for a cross-chain receive holds.
#[derive(Clone, Debug, PartialEq)]
pub struct OrchestraSwapData {
    pub quote_id: String,
    pub order_id: Option<String>,
    pub read_token: Option<String>,
    pub recipient_address: String,
    pub source_chain: String,
    pub source_asset: String,
    pub source_chain_id: Option<String>,
    pub source_contract_address: Option<String>,
    pub source_decimals: u32,
    pub destination_chain: String,
    pub destination_asset: String,
    pub destination_decimals: u32,
    pub token_identifier: Option<String>,
    pub amount_in: String,
    pub expected_amount_out: String,
    pub fee_amount: Option<String>,
    /// Quote expiry, in Unix seconds.
    pub expires_at: u64,
}

/// Orchestra's `/quote` `source_chain` wire value for a delivery method.
pub open spec fn wire_chain(m: DeliveryMethod) -> Seq<char> {
    match m {
        DeliveryMethod::Spark => "spark"@,
        DeliveryMethod::Lightning => "lightning"@,
        DeliveryMethod::Bitcoin => "bitcoin"@,
    }
}

/// The delivery method a `source_chain` wire value names, up to ASCII case;
/// `None` for a chain that is not a local delivery rail.
pub open spec fn method_of_wire(chain: Seq<char>) -> Option<DeliveryMethod> {
    if eq_ignore_case(chain, "spark"@) {
        Some(DeliveryMethod::Spark)
    } else if eq_ignore_case(chain, "lightning"@) {
        Some(DeliveryMethod::Lightning)
    } else if eq_ignore_case(chain, "bitcoin"@) {
        Some(DeliveryMethod::Bitcoin)
    } else {
        None
    }
}

/// The Orchestra `source_chain` wire value for a delivery method.
pub fn delivery_method_to_wire(delivery_method: DeliveryMethod) -> (r: &'static str)
    ensures
        r@ == wire_chain(delivery_method),
{
    match delivery_method {
        DeliveryMethod::Spark => "spark",
        DeliveryMethod::Lightning => "lightning",
        DeliveryMethod::Bitcoin => "bitcoin",
    }
}

/// Parses an Orchestra `source_chain` wire value into a delivery method.
pub fn delivery_method_from_wire(chain: &str) -> (r: Option<DeliveryMethod>)
    ensures
        r == method_of_wire(chain@),
{
    if eq_ignore_ascii_case(chain, "spark") {
        Some(DeliveryMethod::Spark)
    } else if eq_ignore_ascii_case(chain, "lightning") {
        Some(DeliveryMethod::Lightning)
    } else if eq_ignore_ascii_case(chain, "bitcoin") {
        Some(DeliveryMethod::Bitcoin)
    } else {
        None
    }
}

/// A delivery method written to the wire reads back as itself.
pub proof fn law_delivery_method_wire_roundtrip(m: DeliveryMethod)
    ensures
        method_of_wire(wire_chain(m)) == Some(m),
{
    reveal_strlit("spark");
    reveal_strlit("lightning");
    reveal_strlit("bitcoin");
    assert(eq_ignore_case(wire_chain(m), wire_chain(m)));
    if !(m is Spark) {
        assert(wire_chain(m).len() != 5);
    }
    if m is Bitcoin {
        assert(wire_chain(m).len() != 9);
    }
}

/// The error for an amount field Orchestra sent that does not read as an
/// amount, given the parse failure's message.
pub fn invalid_amount_error(field: &str, reason: &str) -> (r: SdkError)
    ensures
        r == SdkError::Generic(r->Generic_0) && r->Generic_0@ == "Orchestra returned invalid "@ + field@
            + ": "@ + reason@,
{
    SdkError::Generic(String::from_str("Orchestra returned invalid ").concat(field).concat(": ").concat(reason))
}

/// An amount Orchestra sent as decimal text, read; the error names the field.
pub open spec fn amount_read(value: Seq<char>, field: Seq<char>) -> Result<u128, Seq<char>> {
    match spec_parse_u128(value) {
        Some(v) => Ok(v),
        None => Err("Orchestra returned invalid "@ + field + ": "@ + u128_parse_error_text(value)),
    }
}

/// Reads an amount Orchestra sent as decimal text.
pub fn parse_amount(value: &str, field: &str) -> (r: Result<u128, SdkError>)
    ensures
        crate::cross_chain::generic_result_is(r, amount_read(value@, field@)),
{
    match parse_u128(value) {
        Some(v) => Ok(v),
        None => {
            let reason = u128_parse_error(value);
            Err(invalid_amount_error(field, reason.as_str()))
        },
    }
}

/// `source * destination / delivered`, floored at `source`.
pub open spec fn inflation(source: u128, destination: u128, delivered: u128) -> int {
    let scaled = (source * destination) / (delivered as int);
    if scaled < source { source as int } else { scaled }
}

/// Scales `source_amount` by how far an estimate fell short of the target:
/// `source_amount * destination_amount / estimated_delivered`, floored at
/// `source_amount`. An error for a zero estimate or an overflowing product.
pub fn proportional_inflation(source_amount: u128, destination_amount: u128, estimated_delivered: u128) -> (r:
    Result<u128, SdkError>)
    ensures
        estimated_delivered == 0 ==> generic_error_is(
            r,
            "Cross-chain: ExactIn estimate returned zero delivered amount"@,
        ),
        estimated_delivered != 0 && source_amount * destination_amount > u128::MAX ==> generic_error_is(
            r,
            "Cross-chain: inflation scaling overflow"@,
        ),
        estimated_delivered != 0 && source_amount * destination_amount <= u128::MAX ==> r == Ok::<
            u128,
            SdkError,
        >(inflation(source_amount, destination_amount, estimated_delivered) as u128),
{
    if estimated_delivered == 0 {
        return Err(
            SdkError::Generic(String::from_str("Cross-chain: ExactIn estimate returned zero delivered amount")),
        );
    }
    match source_amount.checked_mul(destination_amount) {
        Some(p) => {
            let scaled = p / estimated_delivered;
            if scaled < source_amount {
                Ok(source_amount)
            } else {
                Ok(scaled)
            }
        },
        None => Err(SdkError::Generic(String::from_str("Cross-chain: inflation scaling overflow"))),
    }
}

/// The deposit grown by a reported pad, the pad capped at the deposit itself,
/// and the pad actually applied.
pub open spec fn padded(scaled: u128, reported_pad: u128) -> (u128, u128) {
    let applied = if reported_pad < scaled { reported_pad } else { scaled };
    (sat_add(scaled, applied), applied)
}

/// Adds `reported_pad` to `scaled`, capping the pad at `scaled` so a bogus
/// estimate can at most double the deposit. Returns the padded amount and
/// the pad applied.
pub fn pad_required_in(scaled: u128, reported_pad: u128) -> (r: (u128, u128))
    ensures
        r == padded(scaled, reported_pad),
        r.1 <= scaled,
        r.1 <= reported_pad,
        scaled <= r.0 <= 2 * scaled,
{
    let applied = if reported_pad < scaled { reported_pad } else { scaled };
    let total = match scaled.checked_add(applied) {
        Some(t) => t,
        None => u128::MAX,
    };
    (total, applied)
}

/// Basis points of slack allowed between the requested source amount and the
/// `amount_in` a quote echoes back.
pub const QUOTE_AMOUNT_IN_TOLERANCE_BPS: u32 = 10;

/// The slack allowed around a requested source amount.
pub open spec fn amount_in_tolerance(requested: u128) -> int {
    (sat_mul(requested, QUOTE_AMOUNT_IN_TOLERANCE_BPS as u128) / 10_000) as int
}

pub open spec fn amount_in_mismatch_text(requested: u128, quoted: u128) -> Seq<char> {
    "Cross-chain quote amountIn out of range: requested "@ + decimal(requested as nat) + ", got "@
        + decimal(quoted as nat) + " (tolerance "@ + decimal(QUOTE_AMOUNT_IN_TOLERANCE_BPS as nat)
        + " bps). Please re-prepare."@
}

/// Rejects a quote whose echoed `amount_in` differs from the requested source
/// amount by more than the tolerance.
pub fn verify_quote_amount_in(requested_source_amount: u128, quoted_amount_in: u128) -> (r: Result<(), SdkError>)
    ensures
        (requested_source_amount - amount_in_tolerance(requested_source_amount) <= quoted_amount_in
            <= sat_add(requested_source_amount, amount_in_tolerance(requested_source_amount) as u128))
            ==> r is Ok,
        !(requested_source_amount - amount_in_tolerance(requested_source_amount) <= quoted_amount_in
            <= sat_add(requested_source_amount, amount_in_tolerance(requested_source_amount) as u128))
            ==> invalid_input_is(r, amount_in_mismatch_text(requested_source_amount, quoted_amount_in)),
{
    let tolerance = saturating_mul_u128(requested_source_amount, QUOTE_AMOUNT_IN_TOLERANCE_BPS as u128)
        / 10_000u128;
    let low = requested_source_amount - tolerance;
    let high = match requested_source_amount.checked_add(tolerance) {
        Some(h) => h,
        None => u128::MAX,
    };
    if quoted_amount_in < low || quoted_amount_in > high {
        let msg = String::from_str("Cross-chain quote amountIn out of range: requested ").concat(
            decimal_string(requested_source_amount).as_str(),
        ).concat(", got ").concat(decimal_string(quoted_amount_in).as_str()).concat(" (tolerance ").concat(
            decimal_string(QUOTE_AMOUNT_IN_TOLERANCE_BPS as u128).as_str(),
        ).concat(" bps). Please re-prepare.");
        return Err(SdkError::InvalidInput(msg));
    }
    Ok(())
}

/// The least delivery a quote may promise: the target less the slippage
/// budget, rounded down.
pub open spec fn min_acceptable_out(destination_amount: u128, max_slippage_bps: u32) -> int {
    let keep: u32 = if max_slippage_bps < 10_000 { (10_000 - max_slippage_bps) as u32 } else { 0 };
    (sat_mul(destination_amount, keep as u128) / 10_000) as int
}

/// How far a quote fell short of the target, in basis points of the target.
pub open spec fn drift_bps(destination_amount: u128, quoted: u128) -> int {
    let short: u128 = if quoted < destination_amount { (destination_amount - quoted) as u128 } else { 0 };
    if destination_amount == 0 {
        0
    } else {
        (sat_mul(short, 10_000) / destination_amount) as int
    }
}

pub open spec fn drift_text(destination_amount: u128, quoted: u128, max_slippage_bps: u32) -> Seq<char> {
    "Cross-chain quote rate drift: expected destination amount "@ + decimal(destination_amount as nat)
        + ", got "@ + decimal(quoted as nat) + " (drift "@ + decimal(
        drift_bps(destination_amount, quoted) as nat,
    ) + " bps > slippage budget "@ + decimal(max_slippage_bps as nat)
        + " bps). Retry with a larger `target_overpay_bps` or send a bigger amount."@
}

/// Rejects a quote whose estimated delivery falls below the target less the
/// slippage budget.
pub fn verify_quote_not_drifted(destination_amount: u128, quoted_estimated_out: u128, max_slippage_bps: u32) -> (r:
    Result<(), SdkError>)
    ensures
        quoted_estimated_out >= min_acceptable_out(destination_amount, max_slippage_bps) ==> r is Ok,
        quoted_estimated_out < min_acceptable_out(destination_amount, max_slippage_bps) ==> invalid_input_is(
            r,
            drift_text(destination_amount, quoted_estimated_out, max_slippage_bps),
        ),
{
    let keep: u32 = if max_slippage_bps < 10_000 { 10_000 - max_slippage_bps } else { 0 };
    let min_acceptable = saturating_mul_u128(destination_amount, keep as u128) / 10_000u128;
    proof {
        let m = sat_mul(destination_amount, keep as u128);
        assert(m <= destination_amount * keep);
        assert(min_acceptable <= destination_amount) by (nonlinear_arith)
            requires
                min_acceptable == m / 10_000,
                m <= destination_amount * keep,
                keep <= 10_000,
                0 <= m,
        ;
    }
    if quoted_estimated_out < min_acceptable {
        let short: u128 = destination_amount - quoted_estimated_out;
        let drift = saturating_mul_u128(short, 10_000) / destination_amount;
        let msg = String::from_str("Cross-chain quote rate drift: expected destination amount ").concat(
            decimal_string(destination_amount).as_str(),
        ).concat(", got ").concat(decimal_string(quoted_estimated_out).as_str()).concat(" (drift ").concat(
            decimal_string(drift).as_str(),
        ).concat(" bps > slippage budget ").concat(decimal_string(max_slippage_bps as u128).as_str()).concat(
            " bps). Retry with a larger `target_overpay_bps` or send a bigger amount.",
        );
        return Err(SdkError::InvalidInput(msg));
    }
    Ok(())
}

/// The bounds an amount rejection names: the published minimum for a
/// too-small amount, the maximum otherwise.
pub open spec fn published_bound(limits: CrossChainRouteLimits, too_small: bool) -> (Option<u128>, Option<u64>) {
    if too_small {
        (limits.min_amount, limits.min_usd_cents)
    } else {
        (limits.max_amount, limits.max_usd_cents)
    }
}

/// Whether `r` is the amount rejection `reason`/`too_small` with its bounds
/// filled in from `limits` (all unset when the route publishes none).
pub open spec fn is_bounded_rejection(
    r: SdkError,
    reason: String,
    too_small: bool,
    limits: Option<CrossChainRouteLimits>,
) -> bool {
    match r {
        SdkError::CrossChainAmountOutOfRange {
            reason: r_reason,
            too_small: r_too_small,
            bound_amount,
            bound_usd_cents,
            dynamic_limits_possible,
        } => {
            &&& r_reason == reason
            &&& r_too_small == too_small
            &&& match limits {
                Some(l) => {
                    &&& (bound_amount, bound_usd_cents) == published_bound(l, too_small)
                    &&& dynamic_limits_possible == l.dynamic_limits_possible
                },
                None => bound_amount is None && bound_usd_cents is None && !dynamic_limits_possible,
            }
        },
        _ => false,
    }
}

/// Fills in the bounds of an amount rejection from what the route publishes
/// for the asset the payment moves (those of the route's first entry for the
/// asset). Any other error is returned untouched.
pub fn attach_route_limits(error: SdkError, route: &CrossChainRoutePair, asset: &SparkAsset) -> (r: SdkError)
    ensures
        !(error is CrossChainAmountOutOfRange) ==> r == error,
        error matches SdkError::CrossChainAmountOutOfRange { reason, too_small, .. } ==> {
            &&& !crate::cross_chain::accepts(route.accepted_assets@, *asset) ==> is_bounded_rejection(
                r,
                reason,
                too_small,
                None,
            )
            &&& forall|i: int|
                #[trigger] crate::cross_chain::is_first_accepting(route.accepted_assets@, *asset, i)
                    ==> is_bounded_rejection(r, reason, too_small, route.accepted_assets@[i].limits)
        },
{
    match error {
        SdkError::CrossChainAmountOutOfRange { reason, too_small, .. } => {
            let limits = route.limits_for(asset);
            let (bound_amount, bound_usd_cents, dynamic_limits_possible) = match limits {
                Some(l) => if too_small {
                    (l.min_amount, l.min_usd_cents, l.dynamic_limits_possible)
                } else {
                    (l.max_amount, l.max_usd_cents, l.dynamic_limits_possible)
                },
                None => (None, None, false),
            };
            SdkError::CrossChainAmountOutOfRange {
                reason,
                too_small,
                bound_amount,
                bound_usd_cents,
                dynamic_limits_possible,
            }
        },
        other => other,
    }
}

/// An optional text read as a `u128`; unset when absent or unreadable.
pub open spec fn read_u128(s: Option<String>) -> Option<u128> {
    match s {
        Some(t) => spec_parse_u128(t@),
        None => None,
    }
}

/// An optional text read as a `u64`; unset when absent or unreadable.
pub open spec fn read_u64(s: Option<String>) -> Option<u64> {
    match s {
        Some(t) => crate::text::spec_parse_u64(t@),
        None => None,
    }
}

pub open spec fn or_else<T>(a: Option<T>, b: Option<T>) -> Option<T> {
    match a {
        Some(x) => Some(x),
        None => b,
    }
}

/// The bounds on the request leg of the `ExactIn` mode, when that mode is
/// supported and publishes any.
pub open spec fn exact_in_leg(l: RouteLimits) -> Option<RequestAmountLimits> {
    match l.exact_in {
        Some(m) => if m.supported {
            m.request_amount
        } else {
            None
        },
        None => None,
    }
}

/// The bounds the SDK surfaces for a route's published limits: base-unit
/// bounds from the `ExactIn` leg, USD bounds from that leg or else from the
/// route-level band, unreadable values dropped, and moving limits assumed
/// unless Orchestra says otherwise. `None` when nothing usable is left.
pub open spec fn route_limits_of(l: RouteLimits) -> Option<CrossChainRouteLimits> {
    let leg = exact_in_leg(l);
    let min_amount = match leg {
        Some(r) => read_u128(r.min_amount_smallest),
        None => None,
    };
    let max_amount = match leg {
        Some(r) => read_u128(r.max_amount_smallest),
        None => None,
    };
    let min_usd_cents = or_else(
        match leg {
            Some(r) => read_u64(r.min_usd_cents),
            None => None,
        },
        match l.order_notional_usd {
            Some(b) => read_u64(b.min_cents),
            None => None,
        },
    );
    let max_usd_cents = or_else(
        match leg {
            Some(r) => read_u64(r.max_usd_cents),
            None => None,
        },
        match l.order_notional_usd {
            Some(b) => read_u64(b.max_cents),
            None => None,
        },
    );
    let dynamic_limits_possible = match l.dynamic_provider_limits {
        Some(d) => match d.possible {
            Some(p) => p,
            None => true,
        },
        None => true,
    };
    if min_amount is None && max_amount is None && min_usd_cents is None && max_usd_cents is None {
        None
    } else {
        Some(
            CrossChainRouteLimits {
                min_amount,
                max_amount,
                min_usd_cents,
                max_usd_cents,
                dynamic_limits_possible,
            },
        )
    }
}

fn read_opt_u128(s: &Option<String>) -> (r: Option<u128>)
    ensures
        r == read_u128(*s),
{
    match s {
        Some(t) => parse_u128(t.as_str()),
        None => None,
    }
}

fn read_opt_u64(s: &Option<String>) -> (r: Option<u64>)
    ensures
        r == read_u64(*s),
{
    match s {
        Some(t) => crate::text::parse_u64(t.as_str()),
        None => None,
    }
}

/// Narrows the limits Orchestra publishes for a route to the bounds the SDK
/// surfaces.
pub fn to_route_limits(limits: &RouteLimits) -> (r: Option<CrossChainRouteLimits>)
    ensures
        r == route_limits_of(*limits),
{
    let leg: Option<&RequestAmountLimits> = match &limits.exact_in {
        Some(m) => if m.supported {
            match &m.request_amount {
                Some(r) => Some(r),
                None => None,
            }
        } else {
            None
        },
        None => None,
    };
    let (min_amount, max_amount, leg_min_usd, leg_max_usd) = match leg {
        Some(r) => (
            read_opt_u128(&r.min_amount_smallest),
            read_opt_u128(&r.max_amount_smallest),
            read_opt_u64(&r.min_usd_cents),
            read_opt_u64(&r.max_usd_cents),
        ),
        None => (None, None, None, None),
    };
    let min_usd_cents = match leg_min_usd {
        Some(v) => Some(v),
        None => match &limits.order_notional_usd {
            Some(b) => read_opt_u64(&b.min_cents),
            None => None,
        },
    };
    let max_usd_cents = match leg_max_usd {
        Some(v) => Some(v),
        None => match &limits.order_notional_usd {
            Some(b) => read_opt_u64(&b.max_cents),
            None => None,
        },
    };
    let dynamic_limits_possible = match limits.dynamic_provider_limits {
        Some(d) => match d.possible {
            Some(p) => p,
            None => true,
        },
        None => true,
    };
    if min_amount.is_none() && max_amount.is_none() && min_usd_cents.is_none() && max_usd_cents.is_none() {
        return None;
    }
    Some(CrossChainRouteLimits { min_amount, max_amount, min_usd_cents, max_usd_cents, dynamic_limits_possible })
}

/// The route pair one side of an Orchestra route describes, with no accepted
/// assets or delivery methods yet.
pub open spec fn is_pair_of_side(p: CrossChainRoutePair, side: RouteAsset, exact_out_eligible: bool) -> bool {
    &&& p.provider == CrossChainProvider::Orchestra
    &&& p.chain == side.chain
    &&& p.chain_id == side.chain_id
    &&& p.asset == side.asset
    &&& p.contract_address == side.contract_address
    &&& p.decimals == side.decimals
    &&& p.exact_out_eligible == exact_out_eligible
    &&& p.accepted_assets@.len() == 0
    &&& p.delivery_methods@.len() == 0
}

/// Builds a route pair from one side of an Orchestra route: chain, chain id,
/// asset, contract and decimals pass through verbatim.
pub fn side_to_route_pair(side: &RouteAsset, exact_out_eligible: bool) -> (r: CrossChainRoutePair)
    ensures
        is_pair_of_side(r, *side, exact_out_eligible),
{
    CrossChainRoutePair {
        provider: CrossChainProvider::Orchestra,
        chain: side.chain.clone(),
        chain_id: crate::models::clone_opt_string(&side.chain_id),
        asset: side.asset.clone(),
        contract_address: crate::models::clone_opt_string(&side.contract_address),
        decimals: side.decimals,
        exact_out_eligible,
        accepted_assets: Vec::new(),
        delivery_methods: Vec::new(),
    }
}

/// The side of a route opposite the Spark wallet: the destination of a send,
/// the source of a receive.
pub open spec fn external_side(r: Route, is_send: bool) -> RouteAsset {
    if is_send {
        r.destination
    } else {
        r.source
    }
}

/// The Spark side of a route: the source of a send, the destination of a
/// receive.
pub open spec fn spark_side(r: Route, is_send: bool) -> RouteAsset {
    if is_send {
        r.source
    } else {
        r.destination
    }
}

/// Returns the route side opposite the Spark wallet.
pub fn non_spark_side(r: &Route, is_send: bool) -> (side: &RouteAsset)
    ensures
        *side == external_side(*r, is_send),
{
    if is_send {
        &r.destination
    } else {
        &r.source
    }
}

pub open spec fn opt_view(s: Option<String>) -> Option<Seq<char>> {
    match s {
        Some(t) => Some(t@),
        None => None,
    }
}

/// Whether a raw route belongs in the route list: never a same-chain route
/// (those are on-Spark swaps), and on the external side matching the address
/// family (`family_ok`, decided by the caller) and the wanted contract.
pub open spec fn passes_filters(r: Route, is_send: bool, family_ok: bool, contract_filter: Option<Seq<char>>) -> bool {
    &&& !eq_ignore_case(r.source_chain@, r.destination_chain@)
    &&& family_ok
    &&& match contract_filter {
        Some(wanted) => opt_view(external_side(r, is_send).contract_address) == Some(wanted),
        None => true,
    }
}

fn opt_str_is(s: &Option<String>, wanted: &str) -> (r: bool)
    ensures
        r == (opt_view(*s) == Some(wanted@)),
{
    match s {
        Some(t) => crate::text::str_eq(t.as_str(), wanted),
        None => false,
    }
}

/// Whether a raw Orchestra route should appear in the route list, given
/// whether its external side matches the caller's address family (`true`
/// when there is no family filter) and the caller's contract filter.
pub fn route_passes_filters(r: &Route, is_send: bool, family_ok: bool, contract_filter: Option<&str>) -> (b: bool)
    ensures
        b == passes_filters(
            *r,
            is_send,
            family_ok,
            match contract_filter {
                Some(c) => Some(c@),
                None => None,
            },
        ),
{
    if eq_ignore_ascii_case(r.source_chain.as_str(), r.destination_chain.as_str()) {
        return false;
    }
    let side = non_spark_side(r, is_send);
    let contract_ok = match contract_filter {
        Some(wanted) => opt_str_is(&side.contract_address, wanted),
        None => true,
    };
    family_ok && contract_ok
}

/// Whether a side's asset is the one a Spark asset names: bitcoin as `BTC`
/// up to case, a token by its identifier as the contract address.
pub open spec fn side_is_asset(side: RouteAsset, asset: SparkAsset) -> bool {
    match asset {
        SparkAsset::Bitcoin => eq_ignore_case(side.asset@, "BTC"@),
        SparkAsset::Token { token_identifier } => opt_view(side.contract_address) == Some(token_identifier@),
    }
}

/// Whether a route joins `external_pair`'s endpoint to `spark_asset` on the
/// Spark side.
pub open spec fn route_joins(r: Route, external_pair: CrossChainRoutePair, spark_asset: SparkAsset, is_send: bool) -> bool {
    let external = external_side(r, is_send);
    &&& external.chain@ == external_pair.chain@
    &&& external.asset@ == external_pair.asset@
    &&& opt_view(external.contract_address) == opt_view(external_pair.contract_address)
    &&& side_is_asset(spark_side(r, is_send), spark_asset)
}

/// The Spark-side wire symbol and decimals of a matched route.
#[derive(Clone, Debug, PartialEq)]
pub struct ResolvedSparkAsset {
    pub asset: String,
    pub decimals: u8,
}

fn opt_eq(a: &Option<String>, b: &Option<String>) -> (r: bool)
    ensures
        r == (opt_view(*a) == opt_view(*b)),
{
    match (a, b) {
        (Some(x), Some(y)) => crate::text::str_eq(x.as_str(), y.as_str()),
        (None, None) => true,
        _ => false,
    }
}

fn side_matches_asset(side: &RouteAsset, asset: &SparkAsset) -> (r: bool)
    ensures
        r == side_is_asset(*side, *asset),
{
    match asset {
        SparkAsset::Bitcoin => eq_ignore_ascii_case(side.asset.as_str(), "BTC"),
        SparkAsset::Token { token_identifier } => opt_str_is(&side.contract_address, token_identifier.as_str()),
    }
}

fn joins(r: &Route, external_pair: &CrossChainRoutePair, spark_asset: &SparkAsset, is_send: bool) -> (b: bool)
    ensures
        b == route_joins(*r, *external_pair, *spark_asset, is_send),
{
    let (external, spark) = if is_send {
        (&r.destination, &r.source)
    } else {
        (&r.source, &r.destination)
    };
    crate::text::str_eq(external.chain.as_str(), external_pair.chain.as_str()) && crate::text::str_eq(
        external.asset.as_str(),
        external_pair.asset.as_str(),
    ) && opt_eq(&external.contract_address, &external_pair.contract_address) && side_matches_asset(
        spark,
        spark_asset,
    )
}

/// Finds the Spark side of the first route joining `external_pair` to
/// `spark_asset`; `is_send` puts Spark at the source (send) or the
/// destination (receive). `None` when no route joins them.
pub fn find_spark_side(
    routes: &Vec<Route>,
    external_pair: &CrossChainRoutePair,
    spark_asset: &SparkAsset,
    is_send: bool,
) -> (r: Option<ResolvedSparkAsset>)
    ensures
        match r {
            Some(found) => exists|i: int|
                {
                    &&& 0 <= i < routes@.len()
                    &&& route_joins(#[trigger] routes@[i], *external_pair, *spark_asset, is_send)
                    &&& forall|j: int| 0 <= j < i ==> !route_joins(#[trigger] routes@[j], *external_pair, *spark_asset, is_send)
                    &&& found.asset == spark_side(routes@[i], is_send).asset
                    &&& found.decimals == spark_side(routes@[i], is_send).decimals
                },
            None => forall|i: int|
                0 <= i < routes@.len() ==> !route_joins(#[trigger] routes@[i], *external_pair, *spark_asset, is_send),
        },
{
    let mut i: usize = 0;
    while i < routes.len()
        invariant
            i <= routes@.len(),
            forall|j: int| 0 <= j < i ==> !route_joins(#[trigger] routes@[j], *external_pair, *spark_asset, is_send),
        decreases routes.len() - i,
    {
        let r = &routes[i];
        if joins(r, external_pair, spark_asset, is_send) {
            let spark = if is_send { &r.source } else { &r.destination };
            return Some(ResolvedSparkAsset { asset: spark.asset.clone(), decimals: spark.decimals });
        }
        i = i + 1;
    }
    None
}

/// The Spark-side wire symbol of the first receive route joining `pair` to
/// `destination`; `None` when no route joins them.
pub fn find_destination_asset_symbol(routes: &Vec<Route>, pair: &CrossChainRoutePair, destination: &SparkAsset) -> (r:
    Option<String>)
    ensures
        match r {
            Some(sym) => exists|i: int|
                {
                    &&& 0 <= i < routes@.len()
                    &&& route_joins(#[trigger] routes@[i], *pair, *destination, false)
                    &&& forall|j: int| 0 <= j < i ==> !route_joins(#[trigger] routes@[j], *pair, *destination, false)
                    &&& sym == spark_side(routes@[i], false).asset
                },
            None => forall|i: int| 0 <= i < routes@.len() ==> !route_joins(#[trigger] routes@[i], *pair, *destination, false),
        },
{
    match find_spark_side(routes, pair, destination, false) {
        Some(found) => Some(found.asset),
        None => None,
    }
}

/// Whether a route's Spark source is what a send pays from: bitcoin when no
/// token is given, else the token by its identifier.
pub open spec fn side_is_source(side: RouteAsset, token_identifier: Option<Seq<char>>) -> bool {
    match token_identifier {
        None => eq_ignore_case(side.asset@, "BTC"@),
        Some(t) => opt_view(side.contract_address) == Some(t),
    }
}

/// Whether an outbound route leads to `dest` from the given source.
pub open spec fn route_serves_send(r: Route, dest: CrossChainRoutePair, token_identifier: Option<Seq<char>>) -> bool {
    &&& r.destination.chain@ == dest.chain@
    &&& r.destination.asset@ == dest.asset@
    &&& opt_view(r.destination.contract_address) == opt_view(dest.contract_address)
    &&& side_is_source(r.source, token_identifier)
}

/// Finds the Orchestra source asset of the first outbound route to `dest`,
/// paid from bitcoin (`token_identifier` unset) or from the given token.
pub fn find_source_asset(routes: &Vec<Route>, dest: &CrossChainRoutePair, token_identifier: Option<&str>) -> (r:
    Option<ResolvedSparkAsset>)
    ensures
        ({
            let t = match token_identifier {
                Some(t) => Some(t@),
                None => None,
            };
            match r {
                Some(found) => exists|i: int|
                    {
                        &&& 0 <= i < routes@.len()
                        &&& route_serves_send(#[trigger] routes@[i], *dest, t)
                        &&& forall|j: int| 0 <= j < i ==> !route_serves_send(#[trigger] routes@[j], *dest, t)
                        &&& found.asset == routes@[i].source.asset
                        &&& found.decimals == routes@[i].source.decimals
                    },
                None => forall|i: int| 0 <= i < routes@.len() ==> !route_serves_send(#[trigger] routes@[i], *dest, t),
            }
        }),
{
    let spark = match token_identifier {
        None => SparkAsset::Bitcoin,
        Some(tid) => SparkAsset::Token { token_identifier: String::from_str(tid) },
    };
    let ghost t = match token_identifier {
        Some(t) => Some(t@),
        None => None,
    };
    assert forall|r: Route| route_joins(r, *dest, spark, true) == route_serves_send(r, *dest, t) by {}
    find_spark_side(routes, dest, &spark, true)
}

/// What a send is refused with when Orchestra lists no `source_chain` route
/// from the source to `dest`.
pub open spec fn no_source_route_text(source_chain: Seq<char>, token_identifier: Option<Seq<char>>, dest:
    CrossChainRoutePair) -> Seq<char> {
    "Orchestra does not offer a "@ + source_chain + " route for source "@ + (match token_identifier {
        Some(t) => t,
        None => "BTC"@,
    }) + " → "@ + dest.chain@ + "/"@ + dest.asset@
}

/// Resolves the Orchestra-side source asset of a send to `dest` among the
/// routes Orchestra lists from `source_chain`; a missing route is refused
/// with a message naming the source and the destination.
pub fn resolve_source_asset(
    routes: &Vec<Route>,
    dest: &CrossChainRoutePair,
    source_chain: &str,
    token_identifier: Option<&str>,
) -> (r: Result<ResolvedSparkAsset, SdkError>)
    ensures
        ({
            let t = match token_identifier {
                Some(t) => Some(t@),
                None => None,
            };
            match r {
                Ok(found) => exists|i: int|
                    {
                        &&& 0 <= i < routes@.len()
                        &&& route_serves_send(#[trigger] routes@[i], *dest, t)
                        &&& forall|j: int| 0 <= j < i ==> !route_serves_send(#[trigger] routes@[j], *dest, t)
                        &&& found.asset == routes@[i].source.asset
                        &&& found.decimals == routes@[i].source.decimals
                    },
                Err(_) => {
                    &&& forall|i: int| 0 <= i < routes@.len() ==> !route_serves_send(#[trigger] routes@[i], *dest, t)
                    &&& invalid_input_is(r, no_source_route_text(source_chain@, t, *dest))
                },
            }
        }),
{
    match find_source_asset(routes, dest, token_identifier) {
        Some(found) => Ok(found),
        None => {
            let source = match token_identifier {
                Some(t) => t,
                None => "BTC",
            };
            Err(
                SdkError::InvalidInput(
                    String::from_str("Orchestra does not offer a ").concat(source_chain).concat(
                        " route for source ",
                    ).concat(source).concat(" → ").concat(dest.chain.as_str()).concat("/").concat(
                        dest.asset.as_str(),
                    ),
                ),
            )
        },
    }
}

pub open spec fn submit_identity(payment: Payment) -> Option<(String, bool)> {
    match payment.details {
        Some(PaymentDetails::Spark { .. }) => Some((payment.id, true)),
        Some(PaymentDetails::Token { tx_hash, .. }) => Some((tx_hash, false)),
        _ => None,
    }
}

/// The deposit a submit names, and whether Orchestra needs the sender's
/// address to verify it: a Spark deposit by its payment id (with the
/// address), a token deposit by its transaction hash (without). `None` for
/// any other payment.
pub fn deposit_submit_identity(payment: &Payment) -> (r: Option<(String, bool)>)
    ensures
        r == submit_identity(*payment),
{
    match &payment.details {
        Some(PaymentDetails::Spark { .. }) => Some((payment.id.clone(), true)),
        Some(PaymentDetails::Token { tx_hash, .. }) => Some((tx_hash.clone(), false)),
        _ => None,
    }
}

/// Whether an error on the receive-side `/submit` probe is the expected "no
/// deposit yet": an HTTP 4xx other than 401, 403 and 429.
pub fn is_expected_no_deposit_error(err: &FlashnetError) -> (r: bool)
    ensures
        r == (err matches FlashnetError::Network { code: Some(c), .. } && c < 500 && c != 401 && c != 403
            && c != 429),
{
    match err {
        FlashnetError::Network { code: Some(c), .. } => *c < 500 && *c != 401 && *c != 403 && *c != 429,
        _ => false,
    }
}

/// Whether a status read was refused because its read token is not usable
/// (an HTTP 403).
pub fn is_invalid_read_token(err: &FlashnetError) -> (r: bool)
    ensures
        r == (err matches FlashnetError::Network { code: Some(c), .. } && c == 403),
{
    match err {
        FlashnetError::Network { code: Some(c), .. } => *c == 403,
        _ => false,
    }
}

/// An Orchestra conversion with its order id, read token and status replaced
/// and every other field kept. Any other conversion is returned as it is.
pub open spec fn reissued(
    info: ConversionInfo,
    order_id: String,
    read_token: Option<String>,
    status: ConversionStatus,
) -> ConversionInfo {
    match info {
        ConversionInfo::Orchestra {
            chain,
            chain_id,
            asset,
            asset_contract,
            recipient_address,
            asset_amount_in,
            estimated_out,
            delivered_amount,
            external_tx_hash,
            fee_amount,
            service_fee_amount,
            service_fee_asset,
            asset_decimals,
            quote_id,
            ..
        } => ConversionInfo::Orchestra {
            chain,
            chain_id,
            asset,
            asset_contract,
            recipient_address,
            asset_amount_in,
            estimated_out,
            delivered_amount,
            external_tx_hash,
            status,
            fee_amount,
            service_fee_amount,
            service_fee_asset,
            asset_decimals,
            order_id,
            quote_id,
            read_token,
        },
        _ => info,
    }
}

fn rebuild_orchestra(
    info: &ConversionInfo,
    order_id: String,
    read_token: Option<String>,
    status: ConversionStatus,
) -> (r: Option<ConversionInfo>)
    ensures
        info is Orchestra ==> r == Some(reissued(*info, order_id, read_token, status)),
        !(info is Orchestra) ==> r is None,
{
    match info {
        ConversionInfo::Orchestra {
            chain,
            chain_id,
            asset,
            asset_contract,
            recipient_address,
            asset_amount_in,
            estimated_out,
            delivered_amount,
            external_tx_hash,
            fee_amount,
            service_fee_amount,
            service_fee_asset,
            asset_decimals,
            quote_id,
            ..
        } => Some(
            ConversionInfo::Orchestra {
                chain: chain.clone(),
                chain_id: crate::models::clone_opt_string(chain_id),
                asset: asset.clone(),
                asset_contract: crate::models::clone_opt_string(asset_contract),
                recipient_address: recipient_address.clone(),
                asset_amount_in: *asset_amount_in,
                estimated_out: *estimated_out,
                delivered_amount: *delivered_amount,
                external_tx_hash: crate::models::clone_opt_string(external_tx_hash),
                status,
                fee_amount: *fee_amount,
                service_fee_amount: *service_fee_amount,
                service_fee_asset: crate::models::clone_opt_string(service_fee_asset),
                asset_decimals: *asset_decimals,
                order_id,
                quote_id: quote_id.clone(),
                read_token,
            },
        ),
        _ => None,
    }
}

/// The same conversion with its read token dropped, the order id kept.
/// `None` for a conversion that is not an Orchestra one.
pub fn without_read_token(info: &ConversionInfo) -> (r: Option<ConversionInfo>)
    ensures
        *info matches ConversionInfo::Orchestra { order_id, status, .. } ==> r == Some(
            reissued(*info, order_id, None, status),
        ),
        !(info is Orchestra) ==> r is None,
{
    match info {
        ConversionInfo::Orchestra { order_id, status, .. } => rebuild_orchestra(info, order_id.clone(), None, *status),
        _ => None,
    }
}

/// The same conversion, carrying a different status. `None` for a
/// conversion that is not an Orchestra one.
pub fn with_status(info: &ConversionInfo, status: ConversionStatus) -> (r: Option<ConversionInfo>)
    ensures
        *info matches ConversionInfo::Orchestra { order_id, read_token, .. } ==> r == Some(
            reissued(*info, order_id, read_token, status),
        ),
        !(info is Orchestra) ==> r is None,
{
    match info {
        ConversionInfo::Orchestra { order_id, read_token, .. } => rebuild_orchestra(
            info,
            order_id.clone(),
            crate::models::clone_opt_string(read_token),
            status,
        ),
        _ => None,
    }
}

/// The status a conversion has once its order is recovered: no longer
/// refundable, since the deposit is in flight.
pub open spec fn recovered_status(status: ConversionStatus) -> ConversionStatus {
    if status == ConversionStatus::RefundNeeded {
        ConversionStatus::Pending
    } else {
        status
    }
}

/// The same conversion, now carrying the order it was submitted under (and
/// exactly the read token that came with it), and no longer marked
/// refundable. `None` for a conversion that is not an Orchestra one.
pub fn with_submitted_order(info: &ConversionInfo, order_id: String, read_token: Option<String>) -> (r: Option<
    ConversionInfo,
>)
    ensures
        *info matches ConversionInfo::Orchestra { status, .. } ==> r == Some(
            reissued(*info, order_id, read_token, recovered_status(status)),
        ),
        !(info is Orchestra) ==> r is None,
{
    match info {
        ConversionInfo::Orchestra { status, .. } => {
            let new_status = if *status == ConversionStatus::RefundNeeded {
                ConversionStatus::Pending
            } else {
                *status
            };
            rebuild_orchestra(info, order_id, read_token, new_status)
        },
        _ => None,
    }
}

/// The conversion status a settled order maps to.
pub open spec fn settled_status(s: OrderStatus) -> ConversionStatus {
    match s {
        OrderStatus::Completed => ConversionStatus::Completed,
        OrderStatus::Refunded => ConversionStatus::Refunded,
        _ => ConversionStatus::Failed,
    }
}

/// The best fee known once a conversion settles: the realized
/// `asset_amount_in - delivered` (floored at zero) for a completed one with
/// both known, else the estimate.
pub open spec fn settled_fee(
    status: ConversionStatus,
    asset_amount_in: Option<u128>,
    delivered: Option<u128>,
    estimate: Option<u128>,
) -> Option<u128> {
    match (status, asset_amount_in, delivered) {
        (ConversionStatus::Completed, Some(a), Some(d)) => Some((if a >= d { a - d } else { 0 }) as u128),
        _ => estimate,
    }
}

/// An Orchestra conversion updated with what a settled order reports: the
/// delivered amount and destination transaction, the final status and the
/// realized fee.
pub open spec fn settled_info(info: ConversionInfo, order: Order) -> ConversionInfo {
    match info {
        ConversionInfo::Orchestra {
            chain,
            chain_id,
            asset,
            asset_contract,
            recipient_address,
            asset_amount_in,
            estimated_out,
            fee_amount,
            service_fee_amount,
            service_fee_asset,
            asset_decimals,
            order_id,
            quote_id,
            read_token,
            ..
        } => {
            let status = settled_status(order.status);
            let delivered = read_u128(order.amount_out);
            ConversionInfo::Orchestra {
                chain,
                chain_id,
                asset,
                asset_contract,
                recipient_address,
                asset_amount_in,
                estimated_out,
                delivered_amount: delivered,
                external_tx_hash: order.destination_tx_hash,
                status,
                fee_amount: settled_fee(status, asset_amount_in, delivered, fee_amount),
                service_fee_amount,
                service_fee_asset,
                asset_decimals,
                order_id,
                quote_id,
                read_token,
            }
        },
        _ => info,
    }
}

/// Payment metadata that carries a conversion and nothing else.
pub open spec fn metadata_with(info: ConversionInfo) -> PaymentMetadata {
    PaymentMetadata {
        parent_payment_id: None,
        lnurl_pay_info: None,
        lnurl_withdraw_info: None,
        lnurl_description: None,
        conversion_info: Some(info),
        conversion_status: None,
    }
}

/// Wraps a conversion into payment metadata that carries nothing else.
pub fn conversion_metadata(info: ConversionInfo) -> (r: PaymentMetadata)
    ensures
        r == metadata_with(info),
{
    PaymentMetadata {
        parent_payment_id: None,
        lnurl_pay_info: None,
        lnurl_withdraw_info: None,
        lnurl_description: None,
        conversion_info: Some(info),
        conversion_status: None,
    }
}

/// The metadata update for an Orchestra order that has settled: `Completed`
/// completes the conversion, `Refunded` refunds it, anything else terminal
/// fails it; the delivered amount comes from the order's `amount_out` when it
/// reads as an amount. `None` while the order is in flight, and for a
/// conversion that is not an Orchestra one.
pub fn apply_terminal_status(info: &ConversionInfo, status_response: &StatusResponse) -> (r: Option<PaymentMetadata>)
    ensures
        (info is Orchestra && status_response.order.status.terminal()) ==> r == Some(
            metadata_with(settled_info(*info, status_response.order)),
        ),
        !(info is Orchestra && status_response.order.status.terminal()) ==> r is None,
{
    match info {
        ConversionInfo::Orchestra {
            chain,
            chain_id,
            asset,
            asset_contract,
            recipient_address,
            asset_amount_in,
            estimated_out,
            fee_amount,
            service_fee_amount,
            service_fee_asset,
            asset_decimals,
            order_id,
            quote_id,
            read_token,
            ..
        } => {
            let order = &status_response.order;
            if !order.status.is_terminal() {
                return None;
            }
            let new_status = match order.status {
                OrderStatus::Completed => ConversionStatus::Completed,
                OrderStatus::Refunded => ConversionStatus::Refunded,
                _ => ConversionStatus::Failed,
            };
            let delivered_amount = read_opt_u128(&order.amount_out);
            let updated_fee_amount = crate::cross_chain::compute_terminal_fee_amount(
                &new_status,
                *asset_amount_in,
                delivered_amount,
                *fee_amount,
            );
            let updated = ConversionInfo::Orchestra {
                chain: chain.clone(),
                chain_id: crate::models::clone_opt_string(chain_id),
                asset: asset.clone(),
                asset_contract: crate::models::clone_opt_string(asset_contract),
                recipient_address: recipient_address.clone(),
                asset_amount_in: *asset_amount_in,
                estimated_out: *estimated_out,
                delivered_amount,
                external_tx_hash: crate::models::clone_opt_string(&order.destination_tx_hash),
                status: new_status,
                fee_amount: updated_fee_amount,
                service_fee_amount: *service_fee_amount,
                service_fee_asset: crate::models::clone_opt_string(service_fee_asset),
                asset_decimals: *asset_decimals,
                order_id: order_id.clone(),
                quote_id: quote_id.clone(),
                read_token: crate::models::clone_opt_string(read_token),
            };
            Some(conversion_metadata(updated))
        },
        _ => None,
    }
}

impl SdkError {
    /// The SDK error an Orchestra client error surfaces as: an amount
    /// rejection keeps its reason and direction (bounds unset), a network
    /// failure names its status code, anything else is generic.
    pub fn from_flashnet_error(e: FlashnetError) -> (r: SdkError)
        ensures
            match e {
                FlashnetError::AmountOutOfRange { reason, too_small } => r == SdkError::CrossChainAmountOutOfRange {
                    reason,
                    too_small,
                    bound_amount: None,
                    bound_usd_cents: None,
                    dynamic_limits_possible: false,
                },
                FlashnetError::Network { reason, code } => r is NetworkError && r->NetworkError_0@ == reason@
                    + match code {
                    Some(c) => " (code: "@ + decimal(c as nat) + ")"@,
                    None => Seq::empty(),
                },
                FlashnetError::Other { message } => r == SdkError::Generic(message),
            },
    {
        match e {
            FlashnetError::AmountOutOfRange { reason, too_small } => SdkError::CrossChainAmountOutOfRange {
                reason,
                too_small,
                bound_amount: None,
                bound_usd_cents: None,
                dynamic_limits_possible: false,
            },
            FlashnetError::Network { reason, code } => {
                let text = match code {
                    Some(c) => reason.concat(" (code: ").concat(decimal_string(c as u128).as_str()).concat(")"),
                    None => reason,
                };
                SdkError::NetworkError(text)
            },
            FlashnetError::Other { message } => SdkError::Generic(message),
        }
    }
}

/// How long past its quote's expiry an unfunded receive row is still probed
/// for a late deposit.
pub const RECEIVE_GRACE_SECS: u64 = 86_400;

/// How often a receive row off the every-tick cadence may hit `/submit`.
pub const RECEIVE_EXPIRED_PROBE_SECS: u64 = 600;

pub open spec fn sat_add_u64(a: u64, b: u64) -> u64 {
    if a + b > u64::MAX {
        u64::MAX
    } else {
        (a + b) as u64
    }
}

/// Whether an unfunded receive row is past the grace window after its
/// quote's expiry, at `now_secs`.
pub fn is_past_receive_grace(data: &OrchestraSwapData, now_secs: u64) -> (r: bool)
    ensures
        r == (now_secs >= sat_add_u64(data.expires_at, RECEIVE_GRACE_SECS)),
{
    let limit = match data.expires_at.checked_add(RECEIVE_GRACE_SECS) {
        Some(l) => l,
        None => u64::MAX,
    };
    now_secs >= limit
}

/// Whether the quote behind a receive row has expired at `now_secs`.
pub fn is_past_quote_expiry(data: &OrchestraSwapData, now_secs: u64) -> (r: bool)
    ensures
        r == (now_secs >= data.expires_at),
{
    now_secs >= data.expires_at
}

pub open spec fn probe_due(last_probe_secs: Option<u64>, now_secs: u64) -> bool {
    match last_probe_secs {
        None => true,
        Some(last) => now_secs >= last && now_secs - last >= RECEIVE_EXPIRED_PROBE_SECS,
    }
}

/// Whether a quote is due another `/submit`: at once if it was never probed,
/// else once the probe window since the last probe has passed.
pub fn is_probe_due_at(last_probe_secs: Option<u64>, now_secs: u64) -> (r: bool)
    ensures
        r == probe_due(last_probe_secs, now_secs),
{
    match last_probe_secs {
        None => true,
        Some(last) => {
            let elapsed = if now_secs >= last { now_secs - last } else { 0 };
            elapsed >= RECEIVE_EXPIRED_PROBE_SECS
        },
    }
}

/// The last probe time recorded for `quote_id`: the latest entry wins.
pub open spec fn last_probe(entries: Seq<(String, u64)>, quote_id: Seq<char>) -> Option<u64>
    decreases entries.len(),
{
    if entries.len() == 0 {
        None
    } else if entries.last().0@ == quote_id {
        Some(entries.last().1)
    } else {
        last_probe(entries.drop_last(), quote_id)
    }
}

/// When each receive quote was last probed, kept in memory by the monitor.
pub struct ProbeClock {
    pub entries: Vec<(String, u64)>,
}

impl ProbeClock {
    pub open spec fn last(self, quote_id: Seq<char>) -> Option<u64> {
        last_probe(self.entries@, quote_id)
    }

    /// A clock that has seen no probe.
    pub fn new() -> (r: ProbeClock)
        ensures
            forall|q: Seq<char>| r.last(q) is None,
    {
        ProbeClock { entries: Vec::new() }
    }

    /// The last probe time of `quote_id`, if any.
    pub fn last_probe_of(&self, quote_id: &str) -> (r: Option<u64>)
        ensures
            r == self.last(quote_id@),
    {
        let mut i: usize = self.entries.len();
        proof { assert(self.entries@.take(i as int) =~= self.entries@); }
        while i > 0
            invariant
                i <= self.entries@.len(),
                last_probe(self.entries@, quote_id@) == last_probe(self.entries@.take(i as int), quote_id@),
            decreases i,
        {
            proof { assert(self.entries@.take(i as int).drop_last() =~= self.entries@.take(i - 1)); }
            let (q, t) = &self.entries[i - 1];
            if crate::text::str_eq(q.as_str(), quote_id) {
                return Some(*t);
            }
            i = i - 1;
        }
        None
    }

    /// Whether `quote_id` is due another `/submit` at `now_secs`.
    pub fn is_probe_due(&self, quote_id: &str, now_secs: u64) -> (r: bool)
        ensures
            r == probe_due(self.last(quote_id@), now_secs),
    {
        is_probe_due_at(self.last_probe_of(quote_id), now_secs)
    }

    /// Records a probe of `quote_id` at `now_secs`; other quotes keep theirs.
    pub fn record_probe(&mut self, quote_id: &str, now_secs: u64)
        ensures
            final(self).last(quote_id@) == Some(now_secs),
            forall|q: Seq<char>| q != quote_id@ ==> final(self).last(q) == old(self).last(q),
    {
        let ghost old_entries = self.entries@;
        let mut kept: Vec<(String, u64)> = Vec::new();
        let mut i: usize = 0;
        while i < self.entries.len()
            invariant
                i <= self.entries@.len(),
                self.entries@ == old_entries,
                forall|q: Seq<char>|
                    q != quote_id@ ==> #[trigger] last_probe(kept@, q) == last_probe(old_entries.take(i as int), q),
            decreases self.entries.len() - i,
        {
            proof { assert(old_entries.take(i + 1).drop_last() =~= old_entries.take(i as int)); }
            let (q, t) = &self.entries[i];
            let ghost before = kept@;
            if !crate::text::str_eq(q.as_str(), quote_id) {
                kept.push((q.clone(), *t));
                proof { assert(kept@.drop_last() =~= before); }
            }
            proof {
                assert forall|qq: Seq<char>| qq != quote_id@ implies #[trigger] last_probe(kept@, qq)
                    == last_probe(old_entries.take(i + 1), qq) by {
                    assert(old_entries.take(i + 1).last() == old_entries[i as int]);
                    assert(last_probe(before, qq) == last_probe(old_entries.take(i as int), qq));
                }
            }
            i = i + 1;
        }
        proof { assert(old_entries.take(old_entries.len() as int) =~= old_entries); }
        let ghost before = kept@;
        kept.push((String::from_str(quote_id), now_secs));
        proof {
            assert(kept@.drop_last() =~= before);
            assert forall|qq: Seq<char>| qq != quote_id@ implies #[trigger] last_probe(kept@, qq) == last_probe(
                old_entries,
                qq,
            ) by {
                assert(last_probe(before, qq) == last_probe(old_entries.take(old_entries.len() as int), qq));
            }
        }
        self.entries = kept;
    }

    /// Drops the entries of quotes no longer among the active rows, so a
    /// quote that went terminal cannot hold an entry forever.
    pub fn prune(&mut self, active_quote_ids: &Vec<String>)
        ensures
            forall|q: Seq<char>|
                #![trigger final(self).last(q)]
                (exists|j: int| 0 <= j < active_quote_ids@.len() && active_quote_ids@[j]@ == q) ==> final(self).last(q)
                    == old(self).last(q),
            forall|q: Seq<char>|
                #![trigger final(self).last(q)]
                (forall|j: int| 0 <= j < active_quote_ids@.len() ==> active_quote_ids@[j]@ != q) ==> final(self).last(q)
                    is None,
    {
        let ghost old_entries = self.entries@;
        let mut kept: Vec<(String, u64)> = Vec::new();
        let mut i: usize = 0;
        while i < self.entries.len()
            invariant
                i <= self.entries@.len(),
                self.entries@ == old_entries,
                forall|q: Seq<char>|
                    (exists|j: int| 0 <= j < active_quote_ids@.len() && active_quote_ids@[j]@ == q) ==> #[trigger] last_probe(kept@, q)
                        == last_probe(old_entries.take(i as int), q),
                forall|q: Seq<char>|
                    (forall|j: int| 0 <= j < active_quote_ids@.len() ==> active_quote_ids@[j]@ != q) ==> #[trigger] last_probe(kept@, q)
                        is None,
            decreases self.entries.len() - i,
        {
            proof { assert(old_entries.take(i + 1).drop_last() =~= old_entries.take(i as int)); }
            let (q, t) = &self.entries[i];
            let ghost before = kept@;
            let keep = contains_str(active_quote_ids, q.as_str());
            if keep {
                kept.push((q.clone(), *t));
                proof { assert(kept@.drop_last() =~= before); }
            }
            proof {
                assert(old_entries.take(i + 1).last() == old_entries[i as int]);
                assert forall|qq: Seq<char>|
                    (exists|j: int| 0 <= j < active_quote_ids@.len() && active_quote_ids@[j]@ == qq) implies #[trigger] last_probe(
                        kept@,
                        qq,
                    ) == last_probe(old_entries.take(i + 1), qq) by {
                    assert(last_probe(before, qq) == last_probe(old_entries.take(i as int), qq));
                }
                assert forall|qq: Seq<char>|
                    (forall|j: int| 0 <= j < active_quote_ids@.len() ==> active_quote_ids@[j]@ != qq) implies #[trigger] last_probe(
                        kept@,
                        qq,
                    ) is None by {
                    assert(last_probe(before, qq) is None);
                }
            }
            i = i + 1;
        }
        proof { assert(old_entries.take(old_entries.len() as int) =~= old_entries); }
        self.entries = kept;
    }
}

/// Whether `items` holds `s`.
pub fn contains_str(items: &Vec<String>, s: &str) -> (r: bool)
    ensures
        r == (exists|j: int| 0 <= j < items@.len() && items@[j]@ == s@),
{
    let mut i: usize = 0;
    while i < items.len()
        invariant
            i <= items@.len(),
            forall|j: int| 0 <= j < i ==> items@[j]@ != s@,
        decreases items.len() - i,
    {
        if crate::text::str_eq(items[i].as_str(), s) {
            return true;
        }
        i = i + 1;
    }
    false
}

/// After a probe, the quote is not probed again until the window has passed,
/// and then it is.
pub proof fn law_probe_window(recorded_at: u64, now_secs: u64)
    ensures
        recorded_at <= now_secs < recorded_at + RECEIVE_EXPIRED_PROBE_SECS ==> !probe_due(
            Some(recorded_at),
            now_secs,
        ),
        now_secs >= recorded_at + RECEIVE_EXPIRED_PROBE_SECS ==> probe_due(Some(recorded_at), now_secs),
        probe_due(None, now_secs),
{
}

/// The payments the send monitor looks at: Spark and token payments whose
/// Orchestra conversion has not settled.
pub fn pending_send_query() -> (r: StorageListPaymentsRequest)
    ensures
        r.type_filter is None,
        r.status_filter is None,
        r.asset_filter is None,
        r.from_timestamp is None,
        r.to_timestamp is None,
        r.offset is None,
        r.limit is None,
        r.sort_ascending is None,
        r.payment_details_filter matches Some(filters) && filters@ == seq![
            StoragePaymentDetailsFilter::Spark {
                htlc_status: None,
                conversion_filter: Some(ConversionFilter::OrchestraPending),
            },
            StoragePaymentDetailsFilter::Token {
                conversion_filter: Some(ConversionFilter::OrchestraPending),
                tx_hash: None,
                tx_type: None,
            },
        ],
{
    let mut filters: Vec<StoragePaymentDetailsFilter> = Vec::new();
    filters.push(
        StoragePaymentDetailsFilter::Spark {
            htlc_status: None,
            conversion_filter: Some(ConversionFilter::OrchestraPending),
        },
    );
    filters.push(
        StoragePaymentDetailsFilter::Token {
            conversion_filter: Some(ConversionFilter::OrchestraPending),
            tx_hash: None,
            tx_type: None,
        },
    );
    let mut request = StorageListPaymentsRequest::default();
    request.payment_details_filter = Some(filters);
    request
}

/// The Orchestra conversion a Spark or token payment carries, if any.
pub open spec fn orchestra_conversion(p: Payment) -> Option<ConversionInfo> {
    match p.details {
        Some(PaymentDetails::Spark { conversion_info: Some(ci), .. }) => if ci is Orchestra {
            Some(ci)
        } else {
            None
        },
        Some(PaymentDetails::Token { conversion_info: Some(ci), .. }) => if ci is Orchestra {
            Some(ci)
        } else {
            None
        },
        _ => None,
    }
}

/// What the send monitor does next for one pending payment.
#[derive(Debug, PartialEq)]
pub enum SendPollStep {
    /// Nothing to do: the payment carries no Orchestra conversion, or its
    /// deposit cannot be named for a resubmit.
    Skip,
    /// The transfer failed and never reached the deposit address: record the
    /// conversion as failed.
    MarkFailed { metadata: PaymentMetadata },
    /// The order (or its read token) is missing: resubmit the deposit, which
    /// is idempotent on the quote.
    Resubmit { spark_tx_hash: String, needs_source_address: bool, quote_id: String },
    /// Read the order's status.
    PollStatus { order_id: String, read_token: Option<String> },
}

/// The step for a pending payment and the conversion it carries.
pub open spec fn send_poll_step(payment: Payment) -> SendPollStep {
    match orchestra_conversion(payment) {
        None => SendPollStep::Skip,
        Some(ci) => match ci {
            ConversionInfo::Orchestra { order_id, read_token, quote_id, .. } => if payment.status
                == PaymentStatus::Failed {
                SendPollStep::MarkFailed {
                    metadata: metadata_with(reissued(ci, order_id, read_token, ConversionStatus::Failed)),
                }
            } else if order_id@.len() == 0 || read_token is None {
                match submit_identity(payment) {
                    Some((hash, needs)) => SendPollStep::Resubmit {
                        spark_tx_hash: hash,
                        needs_source_address: needs,
                        quote_id,
                    },
                    None => SendPollStep::Skip,
                }
            } else {
                SendPollStep::PollStatus { order_id, read_token }
            },
            _ => SendPollStep::Skip,
        },
    }
}

fn orchestra_conversion_of(payment: &Payment) -> (r: Option<&ConversionInfo>)
    ensures
        match orchestra_conversion(*payment) {
            Some(ci) => r == Some(&ci),
            None => r is None,
        },
{
    let ci = match &payment.details {
        Some(PaymentDetails::Spark { conversion_info: Some(ci), .. }) => ci,
        Some(PaymentDetails::Token { conversion_info: Some(ci), .. }) => ci,
        _ => {
            return None;
        },
    };
    match ci {
        ConversionInfo::Orchestra { .. } => Some(ci),
        _ => None,
    }
}

/// Decides what the send monitor does for one pending payment.
pub fn plan_send_poll(payment: &Payment) -> (r: SendPollStep)
    ensures
        r == send_poll_step(*payment),
{
    let ci = match orchestra_conversion_of(payment) {
        Some(ci) => ci,
        None => {
            return SendPollStep::Skip;
        },
    };
    match ci {
        ConversionInfo::Orchestra { order_id, read_token, quote_id, .. } => {
            if payment.status == PaymentStatus::Failed {
                match with_status(ci, ConversionStatus::Failed) {
                    Some(failed) => SendPollStep::MarkFailed { metadata: conversion_metadata(failed) },
                    None => SendPollStep::Skip,
                }
            } else if order_id.as_str().unicode_len() == 0 || read_token.is_none() {
                match deposit_submit_identity(payment) {
                    Some((hash, needs)) => SendPollStep::Resubmit {
                        spark_tx_hash: hash,
                        needs_source_address: needs,
                        quote_id: quote_id.clone(),
                    },
                    None => SendPollStep::Skip,
                }
            } else {
                SendPollStep::PollStatus {
                    order_id: order_id.clone(),
                    read_token: crate::models::clone_opt_string(read_token),
                }
            }
        },
        _ => SendPollStep::Skip,
    }
}

/// Sends funded from sats (Spark details) and from a token (Token details)
/// are monitored alike. A failed payment has its conversion marked failed,
/// keeping its order; a conversion still missing its order id or read token
/// has its deposit resubmitted (named by the payment id for sats, by the
/// transaction hash for a token) under its quote; one with both has its
/// order status read with that order id and read token.
pub proof fn law_send_poll_covers_sats_and_token_sends(payment: Payment, ci: ConversionInfo)
    requires
        ci is Orchestra,
        (payment.details matches Some(PaymentDetails::Spark { conversion_info: Some(c), .. }) && c == ci)
            || (payment.details matches Some(PaymentDetails::Token { conversion_info: Some(c), .. }) && c == ci),
    ensures
        payment.status == PaymentStatus::Failed ==> (send_poll_step(payment) matches SendPollStep::MarkFailed {
            metadata,
        } && metadata.conversion_info matches Some(m) && m is Orchestra && m->Orchestra_status
            == ConversionStatus::Failed && m->Orchestra_order_id == ci->Orchestra_order_id
            && m->Orchestra_quote_id == ci->Orchestra_quote_id),
        (payment.status != PaymentStatus::Failed && ci->Orchestra_order_id@.len() > 0
            && ci->Orchestra_read_token is Some) ==> send_poll_step(payment) == (SendPollStep::PollStatus {
            order_id: ci->Orchestra_order_id,
            read_token: ci->Orchestra_read_token,
        }),
        (payment.status != PaymentStatus::Failed && (ci->Orchestra_order_id@.len() == 0
            || ci->Orchestra_read_token is None)) ==> send_poll_step(payment) == (SendPollStep::Resubmit {
            spark_tx_hash: match payment.details {
                Some(PaymentDetails::Token { tx_hash, .. }) => tx_hash,
                _ => payment.id,
            },
            needs_source_address: payment.details matches Some(PaymentDetails::Spark { .. }),
            quote_id: ci->Orchestra_quote_id,
        }),
{
}

/// After a resubmit recovered the order: the metadata to record (the
/// conversion carrying the recovered order), and the status read that
/// follows, skipped when the recovered order id is empty. `None` for a
/// conversion that is not an Orchestra one.
pub fn after_resubmit(info: &ConversionInfo, order_id: String, read_token: Option<String>) -> (r: Option<
    (PaymentMetadata, SendPollStep),
>)
    ensures
        *info matches ConversionInfo::Orchestra { status, .. } ==> r == Some(
            (
                metadata_with(reissued(*info, order_id, read_token, recovered_status(status))),
                if order_id@.len() == 0 {
                    SendPollStep::Skip
                } else {
                    SendPollStep::PollStatus { order_id, read_token }
                },
            ),
        ),
        !(info is Orchestra) ==> r is None,
{
    let next = if order_id.as_str().unicode_len() == 0 {
        SendPollStep::Skip
    } else {
        SendPollStep::PollStatus {
            order_id: order_id.clone(),
            read_token: crate::models::clone_opt_string(&read_token),
        }
    };
    match with_submitted_order(info, order_id, read_token) {
        Some(updated) => Some((conversion_metadata(updated), next)),
        None => None,
    }
}

/// After a status read failed: when the read token was refused, the metadata
/// that drops it (keeping the order id) so the next pass reacquires one;
/// nothing otherwise.
pub fn after_status_error(info: &ConversionInfo, err: &FlashnetError) -> (r: Option<PaymentMetadata>)
    ensures
        (err matches FlashnetError::Network { code: Some(c), .. } && c == 403) ==> (
        *info matches ConversionInfo::Orchestra { order_id, status, .. } ==> r == Some(
            metadata_with(reissued(*info, order_id, None, status)),
        )),
        !(info is Orchestra && (err matches FlashnetError::Network { code: Some(c), .. } && c == 403)) ==> r is None,
{
    if !is_invalid_read_token(err) {
        return None;
    }
    match without_read_token(info) {
        Some(stale) => Some(conversion_metadata(stale)),
        None => None,
    }
}

/// What the receive monitor does next for one active receive row.
#[derive(Debug, PartialEq)]
pub enum ReceiveRowStep {
    /// The quote went unfunded past the grace window: close the row.
    CloseUnfunded,
    /// An expired quote probed within the last window: nothing this tick.
    Wait,
    /// Record a probe and ask `/submit` whether the deposit has arrived.
    Probe,
    /// The order is known: read its status.
    PollStatus { order_id: String },
}

pub open spec fn receive_row_step(data: OrchestraSwapData, last_probe_secs: Option<u64>, now_secs: u64) -> ReceiveRowStep {
    match data.order_id {
        Some(id) => ReceiveRowStep::PollStatus { order_id: id },
        None => if now_secs >= sat_add_u64(data.expires_at, RECEIVE_GRACE_SECS) {
            ReceiveRowStep::CloseUnfunded
        } else if now_secs >= data.expires_at && !probe_due(last_probe_secs, now_secs) {
            ReceiveRowStep::Wait
        } else {
            ReceiveRowStep::Probe
        },
    }
}

/// Decides what the receive monitor does for one active row at `now_secs`:
/// a live quote is probed every tick, an expired one at most once per probe
/// window, and one unfunded past the grace window is closed.
pub fn plan_receive_row(data: &OrchestraSwapData, clock: &ProbeClock, now_secs: u64) -> (r: ReceiveRowStep)
    ensures
        r == receive_row_step(*data, clock.last(data.quote_id@), now_secs),
{
    match &data.order_id {
        Some(id) => ReceiveRowStep::PollStatus { order_id: id.clone() },
        None => {
            if is_past_receive_grace(data, now_secs) {
                ReceiveRowStep::CloseUnfunded
            } else if is_past_quote_expiry(data, now_secs) && !clock.is_probe_due(data.quote_id.as_str(), now_secs) {
                ReceiveRowStep::Wait
            } else {
                ReceiveRowStep::Probe
            }
        },
    }
}

/// Whether a failed status read of a receive order triggers a resubmit to
/// reacquire the read token: only for a refused token, and at most once per
/// probe window.
pub fn reprobe_after_status_error(err: &FlashnetError, clock: &ProbeClock, quote_id: &str, now_secs: u64) -> (r: bool)
    ensures
        r == ((err matches FlashnetError::Network { code: Some(c), .. } && c == 403) && probe_due(
            clock.last(quote_id@),
            now_secs,
        )),
{
    is_invalid_read_token(err) && clock.is_probe_due(quote_id, now_secs)
}

/// A completed receive records the fee it actually cost when that could be
/// worked out, and the quote's fee only when it could not; the quote's fee
/// is always kept as the service fee, and the conversion is completed.
pub proof fn law_receive_records_realized_fee(data: OrchestraSwapData, order: Order, realized_fee: Option<u128>)
    ensures
        receive_info(data, order, realized_fee) is Orchestra,
        realized_fee matches Some(f) ==> receive_info(data, order, realized_fee)->Orchestra_fee_amount == Some(f),
        realized_fee is None ==> receive_info(data, order, realized_fee)->Orchestra_fee_amount == match data.fee_amount {
            Some(q) => spec_parse_u128(q@),
            None => None,
        },
        receive_info(data, order, realized_fee)->Orchestra_service_fee_amount == match data.fee_amount {
            Some(q) => spec_parse_u128(q@),
            None => None,
        },
        receive_info(data, order, realized_fee)->Orchestra_status == ConversionStatus::Completed,
{
}

/// Whether a receive row is closed after a status read: a completed order
/// once its metadata reached the payment (or the grace window ran out), a
/// failed or refunded one at once, one in flight never.
pub fn closes_receive_row(status: OrderStatus, metadata_attached: bool, past_grace: bool) -> (r: bool)
    ensures
        r == match status {
            OrderStatus::Completed => metadata_attached || past_grace,
            OrderStatus::Failed | OrderStatus::Refunded => true,
            OrderStatus::Processing => false,
        },
{
    match status {
        OrderStatus::Completed => metadata_attached || past_grace,
        OrderStatus::Failed | OrderStatus::Refunded => true,
        OrderStatus::Processing => false,
    }
}

/// What a receive actually took in: the order's deposit when it reports one
/// that reads as an amount, else the quoted amount.
pub open spec fn receive_amount_in(data: OrchestraSwapData, order: Order) -> Option<u128> {
    or_else(read_u128(order.amount_in), spec_parse_u128(data.amount_in@))
}

/// The conversion recorded for a completed receive: quote-time fields from
/// the stashed quote, live fields from the order, and the realized fee when
/// known (else the quoted one).
pub open spec fn receive_info(data: OrchestraSwapData, order: Order, realized_fee: Option<u128>) -> ConversionInfo {
    ConversionInfo::Orchestra {
        order_id: order.id,
        quote_id: data.quote_id,
        read_token: None,
        chain: data.source_chain,
        chain_id: data.source_chain_id,
        asset: data.source_asset,
        recipient_address: data.recipient_address,
        asset_amount_in: receive_amount_in(data, order),
        estimated_out: match spec_parse_u128(data.expected_amount_out@) {
            Some(v) => v,
            None => 0,
        },
        delivered_amount: read_u128(order.amount_out),
        external_tx_hash: order.source_tx_hash,
        status: ConversionStatus::Completed,
        fee_amount: or_else(realized_fee, read_u128(data.fee_amount)),
        service_fee_amount: read_u128(data.fee_amount),
        service_fee_asset: Some(data.source_asset),
        asset_decimals: data.source_decimals,
        asset_contract: data.source_contract_address,
    }
}

/// The amount a receive took in (see `receive_amount_in`).
pub fn receive_deposit_amount(data: &OrchestraSwapData, order: &Order) -> (r: Option<u128>)
    ensures
        r == receive_amount_in(*data, *order),
{
    match read_opt_u128(&order.amount_in) {
        Some(v) => Some(v),
        None => parse_u128(data.amount_in.as_str()),
    }
}

/// Builds the conversion recorded for a completed receive, given the
/// realized fee in source-asset units (when it could be computed).
pub fn build_receive_conversion_info(data: &OrchestraSwapData, order: &Order, realized_fee: Option<u128>) -> (r:
    ConversionInfo)
    ensures
        r == receive_info(*data, *order, realized_fee),
{
    let quote_fee_amount = read_opt_u128(&data.fee_amount);
    let estimated_out = match parse_u128(data.expected_amount_out.as_str()) {
        Some(v) => v,
        None => 0,
    };
    let fee_amount = match realized_fee {
        Some(f) => Some(f),
        None => quote_fee_amount,
    };
    ConversionInfo::Orchestra {
        order_id: order.id.clone(),
        quote_id: data.quote_id.clone(),
        read_token: None,
        chain: data.source_chain.clone(),
        chain_id: crate::models::clone_opt_string(&data.source_chain_id),
        asset: data.source_asset.clone(),
        recipient_address: data.recipient_address.clone(),
        asset_amount_in: receive_deposit_amount(data, order),
        estimated_out,
        delivered_amount: read_opt_u128(&order.amount_out),
        external_tx_hash: crate::models::clone_opt_string(&order.source_tx_hash),
        status: ConversionStatus::Completed,
        fee_amount,
        service_fee_amount: quote_fee_amount,
        service_fee_asset: Some(data.source_asset.clone()),
        asset_decimals: data.source_decimals,
        asset_contract: crate::models::clone_opt_string(&data.source_contract_address),
    }
}

/// The realized receive fee: the deposit less the delivery restated in
/// source units; `None` when either is unknown or the delivery exceeds the
/// deposit.
pub fn receive_fee(asset_amount_in: Option<u128>, delivered_in_source: Option<u128>) -> (r: Option<u128>)
    ensures
        r == match (asset_amount_in, delivered_in_source) {
            (Some(a), Some(d)) => if a >= d {
                Some((a - d) as u128)
            } else {
                None
            },
            _ => None,
        },
{
    match (asset_amount_in, delivered_in_source) {
        (Some(a), Some(d)) => a.checked_sub(d),
        _ => None,
    }
}

/// A token delivery restated in source-asset units: both sides are USD
/// stable, so the amount is only rescaled between decimals. `None` when the
/// rescale overflows.
pub fn token_delivery_in_source(data: &OrchestraSwapData, delivered: u128) -> (r: Option<u128>)
    ensures
        r == match crate::cross_chain::spec_rescale(
            delivered,
            data.destination_decimals,
            data.source_decimals,
        ) {
            Ok(v) => Some(v),
            Err(_) => None,
        },
{
    match crate::cross_chain::rescale_decimals(delivered, data.destination_decimals, data.source_decimals) {
        Ok(v) => Some(v),
        Err(_) => None,
    }
}

/// The Unix timestamp (seconds, possibly negative) of an RFC 3339 date-time,
/// as chrono reads it; `None` for text chrono rejects.
pub uninterp spec fn rfc3339_unix_seconds(s: Seq<char>) -> Option<i64>;

/// What chrono's parse error says for text it rejects as RFC 3339.
pub uninterp spec fn rfc3339_error_text(s: Seq<char>) -> Seq<char>;

/// Reads an RFC 3339 date-time with chrono's `DateTime::parse_from_rfc3339`
/// and takes its `timestamp()`. The outcome is the name `rfc3339_unix_seconds`
/// of the text, and a rejection carries the `Display` of chrono's
/// `ParseError`, named `rfc3339_error_text`; chrono's grammar is not written
/// out here.
#[verifier::external_body]
fn rfc3339_timestamp(s: &str) -> (r: Result<i64, String>)
    ensures
        match rfc3339_unix_seconds(s@) {
            Some(t) => r matches Ok(v) && v == t,
            None => r matches Err(m) && m@ == rfc3339_error_text(s@),
        },
{
    match chrono::DateTime::parse_from_rfc3339(s) {
        Ok(dt) => Ok(dt.timestamp()),
        Err(e) => Err(e.to_string()),
    }
}

/// What std's `TryFromIntError` says when a negative `i64` is converted to a
/// `u64`.
pub uninterp spec fn u64_conversion_error_text(v: int) -> Seq<char>;

/// Converts with `u64::try_from`: the value itself when it is not negative,
/// else the `Display` of the `TryFromIntError`, named
/// `u64_conversion_error_text`.
#[verifier::external_body]
fn u64_from_i64(v: i64) -> (r: Result<u64, String>)
    ensures
        r is Ok == (v >= 0),
        r matches Ok(u) ==> u == v,
        r matches Err(m) ==> m@ == u64_conversion_error_text(v as int),
{
    match u64::try_from(v) {
        Ok(u) => Ok(u),
        Err(e) => Err(e.to_string()),
    }
}

/// The result of reading Orchestra's RFC 3339 `expires_at` as Unix seconds.
pub open spec fn expiry_seconds(expires_at: Seq<char>) -> Result<u64, Seq<char>> {
    match rfc3339_unix_seconds(expires_at) {
        None => Err(
            "Orchestra: invalid expires_at "@ + crate::text::debug_quoted(expires_at) + ": "@
                + rfc3339_error_text(expires_at),
        ),
        Some(t) => if t >= 0 {
            Ok(t as u64)
        } else {
            Err(
                "Orchestra: invalid expires_at "@ + crate::text::debug_quoted(expires_at)
                    + ": negative or overflowing timestamp: "@ + u64_conversion_error_text(t as int),
            )
        },
    }
}

/// Parses Orchestra's RFC 3339 `expires_at` into Unix seconds.
pub fn parse_rfc3339_to_unix_seconds(expires_at: &str) -> (r: Result<u64, SdkError>)
    ensures
        crate::cross_chain::generic_result_is(r, expiry_seconds(expires_at@)),
{
    match rfc3339_timestamp(expires_at) {
        Ok(t) => match u64_from_i64(t) {
            Ok(u) => Ok(u),
            Err(e) => Err(
                SdkError::Generic(
                    String::from_str("Orchestra: invalid expires_at ").concat(
                        crate::text::quoted_debug(expires_at).as_str(),
                    ).concat(": negative or overflowing timestamp: ").concat(e.as_str()),
                ),
            ),
        },
        Err(e) => Err(
            SdkError::Generic(
                String::from_str("Orchestra: invalid expires_at ").concat(
                    crate::text::quoted_debug(expires_at).as_str(),
                ).concat(": ").concat(e.as_str()),
            ),
        ),
    }
}

/// Rejects a quote that has expired at `now_secs` so the caller can
/// re-prepare; an error too when `expires_at` does not read as a date-time.
pub fn validate_quote_expiry_at(expires_at: &str, now_secs: u64) -> (r: Result<(), SdkError>)
    ensures
        match expiry_seconds(expires_at@) {
            Err(m) => crate::error::generic_error_is(r, m),
            Ok(exp) => if now_secs >= exp {
                invalid_input_is(r, "Cross-chain quote has expired. Please re-prepare."@)
            } else {
                r is Ok
            },
        },
{
    let exp_secs = match parse_rfc3339_to_unix_seconds(expires_at) {
        Ok(e) => e,
        Err(e) => {
            return Err(e);
        },
    };
    if now_secs >= exp_secs {
        return Err(SdkError::InvalidInput(String::from_str("Cross-chain quote has expired. Please re-prepare.")));
    }
    Ok(())
}

/// Rejects an expired quote at send time, reading the wall clock. Whatever
/// the clock reads, a malformed `expires_at` is reported as such, and the
/// answer is otherwise success, the expiry error, or the clock's own error.
pub fn validate_quote_expiry(expires_at: &str) -> (r: Result<(), SdkError>)
    ensures
        match expiry_seconds(expires_at@) {
            Err(m) => crate::error::generic_error_is(r, m),
            Ok(_) => r is Ok || invalid_input_is(r, "Cross-chain quote has expired. Please re-prepare."@)
                || r is Err && r->Err_0 is Generic,
        },
{
    match parse_rfc3339_to_unix_seconds(expires_at) {
        Ok(_) => {},
        Err(e) => {
            return Err(e);
        },
    }
    match crate::time::try_now_secs() {
        Ok(now) => validate_quote_expiry_at(expires_at, now),
        Err(msg) => Err(SdkError::from(msg)),
    }
}

/// A route pair as the route list holds it, with its lists as sequences.
#[verifier::ext_equal]
pub struct PairView {
    pub provider: CrossChainProvider,
    pub chain: Seq<char>,
    pub chain_id: Option<Seq<char>>,
    pub asset: Seq<char>,
    pub contract_address: Option<Seq<char>>,
    pub decimals: u8,
    pub exact_out_eligible: bool,
    pub accepted_assets: Seq<CrossChainAcceptedAsset>,
    pub delivery_methods: Seq<DeliveryMethod>,
}

pub open spec fn pair_view(p: CrossChainRoutePair) -> PairView {
    PairView {
        provider: p.provider,
        chain: p.chain@,
        chain_id: opt_view(p.chain_id),
        asset: p.asset@,
        contract_address: opt_view(p.contract_address),
        decimals: p.decimals,
        exact_out_eligible: p.exact_out_eligible,
        accepted_assets: p.accepted_assets@,
        delivery_methods: p.delivery_methods@,
    }
}

pub open spec fn pair_views(s: Seq<CrossChainRoutePair>) -> Seq<PairView> {
    s.map_values(|p: CrossChainRoutePair| pair_view(p))
}

/// The endpoint a route pair stands for: chain, asset and contract.
pub open spec fn pair_key(p: PairView) -> (Seq<char>, Seq<char>, Option<Seq<char>>) {
    (p.chain, p.asset, p.contract_address)
}

/// The endpoint one side of a route stands for.
pub open spec fn side_key(side: RouteAsset) -> (Seq<char>, Seq<char>, Option<Seq<char>>) {
    (side.chain@, side.asset@, opt_view(side.contract_address))
}

/// The first pair in `acc` that stands for endpoint `k`.
pub open spec fn key_index(acc: Seq<PairView>, k: (Seq<char>, Seq<char>, Option<Seq<char>>)) -> Option<int>
    decreases acc.len(),
{
    if acc.len() == 0 {
        None
    } else {
        match key_index(acc.drop_last(), k) {
            Some(i) => Some(i),
            None => if pair_key(acc.last()) == k {
                Some(acc.len() - 1)
            } else {
                None
            },
        }
    }
}

proof fn lemma_key_index(acc: Seq<PairView>, k: (Seq<char>, Seq<char>, Option<Seq<char>>))
    ensures
        match key_index(acc, k) {
            Some(i) => 0 <= i < acc.len() && pair_key(acc[i]) == k && forall|j: int|
                0 <= j < i ==> pair_key(#[trigger] acc[j]) != k,
            None => forall|j: int| 0 <= j < acc.len() ==> pair_key(#[trigger] acc[j]) != k,
        },
    decreases acc.len(),
{
    if acc.len() > 0 {
        lemma_key_index(acc.drop_last(), k);
        assert forall|j: int| 0 <= j < acc.len() - 1 implies acc[j] == acc.drop_last()[j] by {}
    }
}

/// The pair a route side opens, before any asset or delivery method is
/// recorded on it.
pub open spec fn side_view(side: RouteAsset, exact_out_eligible: bool) -> PairView {
    PairView {
        provider: CrossChainProvider::Orchestra,
        chain: side.chain@,
        chain_id: opt_view(side.chain_id),
        asset: side.asset@,
        contract_address: opt_view(side.contract_address),
        decimals: side.decimals,
        exact_out_eligible,
        accepted_assets: Seq::empty(),
        delivery_methods: Seq::empty(),
    }
}

/// The Spark asset a route moves: bitcoin for a `BTC` Spark side (up to
/// case), else the token its contract names; `None` for a non-bitcoin Spark
/// side without a contract.
pub open spec fn route_spark_asset(r: Route, is_send: bool) -> Option<SparkAsset> {
    let spark = spark_side(r, is_send);
    if eq_ignore_case(spark.asset@, "BTC"@) {
        Some(SparkAsset::Bitcoin)
    } else {
        match spark.contract_address {
            Some(c) => Some(SparkAsset::Token { token_identifier: c }),
            None => None,
        }
    }
}

/// How a route is funded: from its source chain on a send (when that names a
/// delivery rail), always on Spark for a receive.
pub open spec fn route_delivery_method(r: Route, is_send: bool) -> Option<DeliveryMethod> {
    if is_send {
        method_of_wire(r.source_chain@)
    } else {
        Some(DeliveryMethod::Spark)
    }
}

/// A pair with a route's Spark asset and delivery method recorded, each only
/// when not already there; the asset carries the bounds published with the
/// route.
pub open spec fn absorb(base: PairView, rl: RouteWithLimits, is_send: bool) -> PairView {
    let with_asset = match route_spark_asset(rl.route, is_send) {
        Some(a) => if crate::cross_chain::accepts(base.accepted_assets, a) {
            base
        } else {
            PairView {
                accepted_assets: base.accepted_assets.push(
                    CrossChainAcceptedAsset { asset: a, limits: route_limits_of(rl.limits) },
                ),
                ..base
            }
        },
        None => base,
    };
    match route_delivery_method(rl.route, is_send) {
        Some(m) => if with_asset.delivery_methods.contains(m) {
            with_asset
        } else {
            PairView { delivery_methods: with_asset.delivery_methods.push(m), ..with_asset }
        },
        None => with_asset,
    }
}

/// The route list after one more route: folded into the pair of its external
/// endpoint, which is opened at the end of the list if there is none yet.
pub open spec fn group_step(acc: Seq<PairView>, rl: RouteWithLimits, is_send: bool) -> Seq<PairView> {
    let side = external_side(rl.route, is_send);
    match key_index(acc, side_key(side)) {
        Some(i) => acc.update(i, absorb(acc[i], rl, is_send)),
        None => acc.push(absorb(side_view(side, rl.route.exact_out_eligible), rl, is_send)),
    }
}

/// The route list built from the first `n` raw routes: each route that passes
/// the filters folded in, in order.
pub open spec fn grouped(
    routes: Seq<RouteWithLimits>,
    family_ok: Seq<bool>,
    contract_filter: Option<Seq<char>>,
    is_send: bool,
    n: nat,
) -> Seq<PairView>
    decreases n,
{
    if n == 0 {
        Seq::empty()
    } else {
        let prev = grouped(routes, family_ok, contract_filter, is_send, (n - 1) as nat);
        let rl = routes[n - 1];
        if passes_filters(rl.route, is_send, family_ok[n - 1], contract_filter) {
            group_step(prev, rl, is_send)
        } else {
            prev
        }
    }
}

fn find_pair(out: &Vec<CrossChainRoutePair>, side: &RouteAsset) -> (r: Option<usize>)
    ensures
        match r {
            Some(i) => i < out@.len() && key_index(pair_views(out@), side_key(*side)) == Some(i as int),
            None => key_index(pair_views(out@), side_key(*side)) is None,
        },
{
    let ghost acc = pair_views(out@);
    proof { lemma_key_index(acc, side_key(*side)); }
    let mut i: usize = 0;
    while i < out.len()
        invariant
            i <= out@.len(),
            acc == pair_views(out@),
            forall|j: int| 0 <= j < i ==> pair_key(#[trigger] acc[j]) != side_key(*side),
        decreases out.len() - i,
    {
        let p = &out[i];
        if crate::text::str_eq(p.chain.as_str(), side.chain.as_str()) && crate::text::str_eq(
            p.asset.as_str(),
            side.asset.as_str(),
        ) && opt_eq(&p.contract_address, &side.contract_address) {
            proof {
                let k = side_key(*side);
                lemma_key_index(acc, k);
                assert(pair_key(acc[i as int]) == k);
                match key_index(acc, k) {
                    Some(ii) => {
                        if ii < i {
                            assert(pair_key(acc[ii]) != k);
                        }
                        if ii > i {
                            assert(pair_key(acc[i as int]) != k);
                        }
                    },
                    None => {
                        assert(pair_key(acc[i as int]) != k);
                    },
                }
            }
            return Some(i);
        }
        proof { assert(pair_key(acc[i as int]) != side_key(*side)); }
        i = i + 1;
    }
    None
}

fn spark_asset_of_route(r: &Route, is_send: bool) -> (a: Option<SparkAsset>)
    ensures
        a == route_spark_asset(*r, is_send),
{
    let spark = if is_send { &r.source } else { &r.destination };
    if eq_ignore_ascii_case(spark.asset.as_str(), "BTC") {
        Some(SparkAsset::Bitcoin)
    } else {
        match &spark.contract_address {
            Some(c) => Some(SparkAsset::Token { token_identifier: c.clone() }),
            None => None,
        }
    }
}

fn contains_method(methods: &Vec<DeliveryMethod>, m: DeliveryMethod) -> (r: bool)
    ensures
        r == methods@.contains(m),
{
    let mut i: usize = 0;
    while i < methods.len()
        invariant
            i <= methods@.len(),
            forall|j: int| 0 <= j < i ==> methods@[j] != m,
        decreases methods.len() - i,
    {
        if methods[i] == m {
            return true;
        }
        i = i + 1;
    }
    false
}

fn absorb_route(entry: &mut CrossChainRoutePair, rl: &RouteWithLimits, is_send: bool)
    ensures
        pair_view(*final(entry)) == absorb(pair_view(*old(entry)), *rl, is_send),
{
    let r = &rl.route;
    let ghost base = pair_view(*entry);
    match spark_asset_of_route(r, is_send) {
        Some(asset) => {
            if !entry.accepts_asset(&asset) {
                let limits = to_route_limits(&rl.limits);
                entry.accepted_assets.push(CrossChainAcceptedAsset { asset, limits });
            }
        },
        None => {},
    }
    let ghost with_asset = pair_view(*entry);
    let method = if is_send {
        delivery_method_from_wire(r.source_chain.as_str())
    } else {
        Some(DeliveryMethod::Spark)
    };
    match method {
        Some(m) => {
            if !contains_method(&entry.delivery_methods, m) {
                entry.delivery_methods.push(m);
            }
        },
        None => {},
    }
    proof {
        assert(pair_view(*entry) =~= absorb(base, *rl, is_send));
    }
}

/// Collapses Orchestra's raw routes into one route pair per external
/// endpoint (chain, asset, contract), in order of first appearance, each
/// accumulating the Spark assets it can be moved with (with the bounds
/// published for each) and the ways it can be funded. Only routes that pass
/// the filters count; `family_ok[i]` says whether route `i` matches the
/// caller's address family (all `true` without a family filter).
pub fn dedupe_routes(
    routes: &Vec<RouteWithLimits>,
    is_send: bool,
    family_ok: &Vec<bool>,
    contract_filter: Option<&str>,
) -> (r: Vec<CrossChainRoutePair>)
    requires
        family_ok@.len() == routes@.len(),
    ensures
        pair_views(r@) == grouped(
            routes@,
            family_ok@,
            match contract_filter {
                Some(c) => Some(c@),
                None => None,
            },
            is_send,
            routes@.len(),
        ),
{
    let ghost cf = match contract_filter {
        Some(c) => Some(c@),
        None => None,
    };
    let mut out: Vec<CrossChainRoutePair> = Vec::new();
    let mut i: usize = 0;
    while i < routes.len()
        invariant
            i <= routes@.len(),
            family_ok@.len() == routes@.len(),
            cf == match contract_filter {
                Some(c) => Some(c@),
                None => None,
            },
            pair_views(out@) == grouped(routes@, family_ok@, cf, is_send, i as nat),
        decreases routes.len() - i,
    {
        let rl = &routes[i];
        let r = &rl.route;
        let ghost acc = pair_views(out@);
        if route_passes_filters(r, is_send, family_ok[i], contract_filter) {
            let side = non_spark_side(r, is_send);
            match find_pair(&out, side) {
                Some(j) => {
                    let mut entry = out.remove(j);
                    absorb_route(&mut entry, rl, is_send);
                    out.insert(j, entry);
                    proof {
                        assert(pair_views(out@) =~= acc.update(j as int, absorb(acc[j as int], *rl, is_send)));
                    }
                },
                None => {
                    let mut entry = side_to_route_pair(side, r.exact_out_eligible);
                    proof {
                        assert(pair_view(entry) =~= side_view(*side, r.exact_out_eligible));
                    }
                    absorb_route(&mut entry, rl, is_send);
                    out.push(entry);
                    proof {
                        assert(pair_views(out@) =~= acc.push(
                            absorb(side_view(*side, r.exact_out_eligible), *rl, is_send),
                        ));
                    }
                },
            }
        }
        i = i + 1;
    }
    out
}

/// No two pairs of a route list stand for the same endpoint.
pub open spec fn keys_distinct(g: Seq<PairView>) -> bool {
    forall|i: int, j: int| 0 <= i < j < g.len() ==> pair_key(#[trigger] g[i]) != pair_key(#[trigger] g[j])
}

/// Some pair of the route list stands for endpoint `k`.
pub open spec fn has_endpoint(g: Seq<PairView>, k: (Seq<char>, Seq<char>, Option<Seq<char>>)) -> bool {
    exists|j: int| 0 <= j < g.len() && pair_key(#[trigger] g[j]) == k
}

/// A pair lists each Spark asset and each delivery method at most once.
pub open spec fn lists_distinct(p: PairView) -> bool {
    &&& forall|i: int, j: int|
        0 <= i < j < p.accepted_assets.len() ==> !crate::cross_chain::same_asset(
            #[trigger] p.accepted_assets[i].asset,
            #[trigger] p.accepted_assets[j].asset,
        )
    &&& forall|i: int, j: int|
        0 <= i < j < p.delivery_methods.len() ==> #[trigger] p.delivery_methods[i] != #[trigger] p.delivery_methods[j]
}

proof fn lemma_absorb(base: PairView, rl: RouteWithLimits, is_send: bool)
    requires
        lists_distinct(base),
    ensures
        pair_key(absorb(base, rl, is_send)) == pair_key(base),
        lists_distinct(absorb(base, rl, is_send)),
{
    let with_asset = match route_spark_asset(rl.route, is_send) {
        Some(a) => if crate::cross_chain::accepts(base.accepted_assets, a) {
            base
        } else {
            PairView {
                accepted_assets: base.accepted_assets.push(
                    CrossChainAcceptedAsset { asset: a, limits: route_limits_of(rl.limits) },
                ),
                ..base
            }
        },
        None => base,
    };
    assert(lists_distinct(with_asset)) by {
        if let Some(a) = route_spark_asset(rl.route, is_send) {
            if !crate::cross_chain::accepts(base.accepted_assets, a) {
                let s = with_asset.accepted_assets;
                assert forall|i: int, j: int| 0 <= i < j < s.len() implies !crate::cross_chain::same_asset(
                    #[trigger] s[i].asset,
                    #[trigger] s[j].asset,
                ) by {
                    if j == s.len() - 1 {
                        assert(s[i] == base.accepted_assets[i]);
                        assert(!crate::cross_chain::same_asset(base.accepted_assets[i].asset, a));
                        match (s[i].asset, a) {
                            (SparkAsset::Token { token_identifier: x }, SparkAsset::Token { token_identifier: y }) => {
                                assert(crate::cross_chain::same_asset(s[i].asset, a) == (x@ == y@));
                            },
                            _ => {},
                        }
                    } else {
                        assert(s[i] == base.accepted_assets[i]);
                        assert(s[j] == base.accepted_assets[j]);
                    }
                }
            }
        }
    }
    if let Some(m) = route_delivery_method(rl.route, is_send) {
        if !with_asset.delivery_methods.contains(m) {
            let d = with_asset.delivery_methods.push(m);
            assert forall|i: int, j: int| 0 <= i < j < d.len() implies #[trigger] d[i] != #[trigger] d[j] by {
                if j == d.len() - 1 {
                    assert(d[i] == with_asset.delivery_methods[i]);
                }
            }
        }
    }
}

/// A route list, and every pair in it, keeps its distinctness through one
/// more route, and the route's endpoint is then in the list.
proof fn lemma_group_step(acc: Seq<PairView>, rl: RouteWithLimits, is_send: bool)
    requires
        keys_distinct(acc),
        forall|i: int| 0 <= i < acc.len() ==> lists_distinct(#[trigger] acc[i]),
    ensures
        keys_distinct(group_step(acc, rl, is_send)),
        forall|i: int|
            0 <= i < group_step(acc, rl, is_send).len() ==> lists_distinct(#[trigger] group_step(acc, rl, is_send)[i]),
        has_endpoint(group_step(acc, rl, is_send), side_key(external_side(rl.route, is_send))),
        forall|k: (Seq<char>, Seq<char>, Option<Seq<char>>)| #[trigger] has_endpoint(acc, k) ==> has_endpoint(
            group_step(acc, rl, is_send),
            k,
        ),
{
    let side = external_side(rl.route, is_send);
    let k0 = side_key(side);
    let g = group_step(acc, rl, is_send);
    lemma_key_index(acc, k0);
    match key_index(acc, k0) {
        Some(i) => {
            lemma_absorb(acc[i], rl, is_send);
            assert(g == acc.update(i, absorb(acc[i], rl, is_send)));
            assert forall|a: int, b: int| 0 <= a < b < g.len() implies pair_key(#[trigger] g[a]) != pair_key(
                #[trigger] g[b],
            ) by {
                assert(pair_key(g[a]) == pair_key(acc[a]));
                assert(pair_key(g[b]) == pair_key(acc[b]));
            }
            assert forall|a: int| 0 <= a < g.len() implies lists_distinct(#[trigger] g[a]) by {
                if a != i {
                    assert(g[a] == acc[a]);
                }
            }
            assert(pair_key(g[i]) == k0);
            assert forall|k: (Seq<char>, Seq<char>, Option<Seq<char>>)| #[trigger] has_endpoint(acc, k) implies has_endpoint(
                g,
                k,
            ) by {
                let j = choose|j: int| 0 <= j < acc.len() && pair_key(#[trigger] acc[j]) == k;
                assert(pair_key(g[j]) == pair_key(acc[j]));
            }
        },
        None => {
            let fresh = absorb(side_view(side, rl.route.exact_out_eligible), rl, is_send);
            let base = side_view(side, rl.route.exact_out_eligible);
            assert(lists_distinct(base));
            lemma_absorb(base, rl, is_send);
            assert(g == acc.push(fresh));
            assert forall|a: int, b: int| 0 <= a < b < g.len() implies pair_key(#[trigger] g[a]) != pair_key(
                #[trigger] g[b],
            ) by {
                if b == acc.len() {
                    assert(g[a] == acc[a]);
                    assert(pair_key(acc[a]) != k0);
                } else {
                    assert(g[a] == acc[a]);
                    assert(g[b] == acc[b]);
                }
            }
            assert forall|a: int| 0 <= a < g.len() implies lists_distinct(#[trigger] g[a]) by {
                if a < acc.len() {
                    assert(g[a] == acc[a]);
                }
            }
            assert(pair_key(g[acc.len() as int]) == k0);
            assert forall|k: (Seq<char>, Seq<char>, Option<Seq<char>>)| #[trigger] has_endpoint(acc, k) implies has_endpoint(
                g,
                k,
            ) by {
                let j = choose|j: int| 0 <= j < acc.len() && pair_key(#[trigger] acc[j]) == k;
                assert(g[j] == acc[j]);
            }
        },
    }
}

/// Route discovery lists each endpoint once, each pair names each Spark
/// asset and each delivery method once, and every raw route that passes the
/// filters is represented by the pair of its external endpoint.
pub proof fn law_dedupe_routes(
    routes: Seq<RouteWithLimits>,
    family_ok: Seq<bool>,
    contract_filter: Option<Seq<char>>,
    is_send: bool,
    n: nat,
)
    requires
        n <= routes.len(),
        family_ok.len() == routes.len(),
    ensures
        keys_distinct(grouped(routes, family_ok, contract_filter, is_send, n)),
        forall|i: int|
            0 <= i < grouped(routes, family_ok, contract_filter, is_send, n).len() ==> lists_distinct(
                #[trigger] grouped(routes, family_ok, contract_filter, is_send, n)[i],
            ),
        forall|k: int|
            0 <= k < n && passes_filters(#[trigger] routes[k].route, is_send, family_ok[k], contract_filter)
                ==> has_endpoint(
                grouped(routes, family_ok, contract_filter, is_send, n),
                side_key(external_side(routes[k].route, is_send)),
            ),
    decreases n,
{
    if n > 0 {
        let m = (n - 1) as nat;
        law_dedupe_routes(routes, family_ok, contract_filter, is_send, m);
        let prev = grouped(routes, family_ok, contract_filter, is_send, m);
        let rl = routes[m as int];
        if passes_filters(rl.route, is_send, family_ok[m as int], contract_filter) {
            lemma_group_step(prev, rl, is_send);
        }
        let g = grouped(routes, family_ok, contract_filter, is_send, n);
        assert forall|k: int|
            0 <= k < n && passes_filters(#[trigger] routes[k].route, is_send, family_ok[k], contract_filter)
                implies has_endpoint(g, side_key(external_side(routes[k].route, is_send))) by {
            if k < m {
                assert(has_endpoint(prev, side_key(external_side(routes[k].route, is_send))));
            }
        }
    }
}

/// Each route that passes the filters is listed under a pair for exactly
/// its external endpoint (the same chain, asset and contract), and no two
/// pairs share all three: routes to different assets or contracts on one
/// chain are listed apart.
pub proof fn law_dedupe_routes_keep_endpoints_apart(
    routes: Seq<RouteWithLimits>,
    family_ok: Seq<bool>,
    contract_filter: Option<Seq<char>>,
    is_send: bool,
)
    requires
        family_ok.len() == routes.len(),
    ensures
        ({
            let g = grouped(routes, family_ok, contract_filter, is_send, routes.len());
            &&& forall|k: int|
                0 <= k < routes.len() && passes_filters(#[trigger] routes[k].route, is_send, family_ok[k], contract_filter)
                    ==> exists|j: int|
                    {
                        &&& 0 <= j < g.len()
                        &&& (#[trigger] g[j]).chain == external_side(routes[k].route, is_send).chain@
                        &&& g[j].asset == external_side(routes[k].route, is_send).asset@
                        &&& g[j].contract_address == opt_view(external_side(routes[k].route, is_send).contract_address)
                    }
            &&& forall|j1: int, j2: int|
                0 <= j1 < j2 < g.len() ==> !((#[trigger] g[j1]).chain == (#[trigger] g[j2]).chain && g[j1].asset
                    == g[j2].asset && g[j1].contract_address == g[j2].contract_address)
        }),
{
    let g = grouped(routes, family_ok, contract_filter, is_send, routes.len());
    law_dedupe_routes(routes, family_ok, contract_filter, is_send, routes.len());
    assert forall|k: int|
        0 <= k < routes.len() && passes_filters(#[trigger] routes[k].route, is_send, family_ok[k], contract_filter)
            implies exists|j: int|
            {
                &&& 0 <= j < g.len()
                &&& (#[trigger] g[j]).chain == external_side(routes[k].route, is_send).chain@
                &&& g[j].asset == external_side(routes[k].route, is_send).asset@
                &&& g[j].contract_address == opt_view(external_side(routes[k].route, is_send).contract_address)
            } by {
        let key = side_key(external_side(routes[k].route, is_send));
        assert(has_endpoint(g, key));
        let j = choose|j: int| 0 <= j < g.len() && pair_key(#[trigger] g[j]) == key;
        assert(g[j].chain == key.0 && g[j].asset == key.1 && g[j].contract_address == key.2);
    }
    assert forall|j1: int, j2: int| 0 <= j1 < j2 < g.len() implies !((#[trigger] g[j1]).chain == (#[trigger] g[
        j2]).chain && g[j1].asset == g[j2].asset && g[j1].contract_address == g[j2].contract_address) by {
        assert(pair_key(g[j1]) != pair_key(g[j2]));
    }
}

/// Which way a quote fixes the amount.
#[derive(Clone, Copy, Debug, PartialEq, Eq, Structural)]
pub enum AmountMode {
    /// The source amount is fixed; the delivery follows from it.
    ExactIn,
    /// The delivered amount is fixed.
    ExactOut,
}

/// The affiliate id sent with every quote and estimate.
pub const DEFAULT_AFFILIATE_ID: &'static str = "breez_sdk";

/// What is asked of Orchestra's `/quote`.
#[derive(Clone, Debug, PartialEq)]
pub struct QuoteRequest {
    pub source_chain: String,
    pub source_asset: String,
    pub destination_chain: String,
    pub destination_asset: String,
    pub amount: String,
    pub recipient_address: String,
    pub amount_mode: Option<AmountMode>,
    pub slippage_bps: Option<u32>,
    pub affiliate_id: Option<String>,
}

/// What Orchestra's `/quote` answers, as this library reads it.
#[derive(Clone, Debug, PartialEq)]
pub struct QuoteResponse {
    pub quote_id: String,
    pub deposit_address: String,
    pub amount_in: String,
    pub estimated_out: String,
    pub total_fee_amount: String,
    pub fee_asset: String,
    pub expires_at: String,
}

/// What is asked of Orchestra's `/estimate`.
#[derive(Clone, Debug, PartialEq)]
pub struct EstimateRequest {
    pub source_chain: String,
    pub source_asset: String,
    pub destination_chain: String,
    pub destination_asset: String,
    pub amount: String,
    pub amount_mode: Option<AmountMode>,
    pub affiliate_id: Option<String>,
}

/// What Orchestra's `/estimate` answers, as this library reads it.
#[derive(Clone, Debug, PartialEq)]
pub struct EstimateResponse {
    pub estimated_out: String,
    pub fee_asset: String,
    pub fee_amount: String,
}

/// An `ExactIn` quote request for `amount` from the given source to the given
/// destination, with the slippage budget and the SDK's affiliate id.
pub fn quote_request(
    source_chain: &str,
    source_asset: &str,
    destination_chain: &str,
    destination_asset: &str,
    amount: u128,
    recipient_address: &str,
    max_slippage_bps: u32,
) -> (r: QuoteRequest)
    ensures
        r.source_chain@ == source_chain@,
        r.source_asset@ == source_asset@,
        r.destination_chain@ == destination_chain@,
        r.destination_asset@ == destination_asset@,
        r.amount@ == decimal(amount as nat),
        r.recipient_address@ == recipient_address@,
        r.amount_mode == Some(AmountMode::ExactIn),
        r.slippage_bps == Some(max_slippage_bps),
        r.affiliate_id matches Some(a) && a@ == "breez_sdk"@,
{
    QuoteRequest {
        source_chain: String::from_str(source_chain),
        source_asset: String::from_str(source_asset),
        destination_chain: String::from_str(destination_chain),
        destination_asset: String::from_str(destination_asset),
        amount: decimal_string(amount),
        recipient_address: String::from_str(recipient_address),
        amount_mode: Some(AmountMode::ExactIn),
        slippage_bps: Some(max_slippage_bps),
        affiliate_id: Some(String::from_str(DEFAULT_AFFILIATE_ID)),
    }
}

/// An `ExactIn` estimate request for `amount` from the given source to the
/// given destination, with the SDK's affiliate id.
pub fn estimate_request(
    source_chain: &str,
    source_asset: &str,
    destination_chain: &str,
    destination_asset: &str,
    amount: u128,
) -> (r: EstimateRequest)
    ensures
        r.source_chain@ == source_chain@,
        r.source_asset@ == source_asset@,
        r.destination_chain@ == destination_chain@,
        r.destination_asset@ == destination_asset@,
        r.amount@ == decimal(amount as nat),
        r.amount_mode == Some(AmountMode::ExactIn),
        r.affiliate_id matches Some(a) && a@ == "breez_sdk"@,
{
    EstimateRequest {
        source_chain: String::from_str(source_chain),
        source_asset: String::from_str(source_asset),
        destination_chain: String::from_str(destination_chain),
        destination_asset: String::from_str(destination_asset),
        amount: decimal_string(amount),
        amount_mode: Some(AmountMode::ExactIn),
        affiliate_id: Some(String::from_str(DEFAULT_AFFILIATE_ID)),
    }
}

/// The margin, in 6-decimal USDB base units, covering Orchestra's rounding of
/// USDB deliveries to the cent below its estimate.
pub const USDB_RECEIVE_ROUNDING_MARGIN: u128 = 10_000;

pub open spec fn sat_sub(a: u128, b: u128) -> u128 {
    if a >= b { (a - b) as u128 } else { 0 }
}

/// The result of sizing a deposit from an estimate (see
/// `required_source_from_estimate`).
pub open spec fn required_source(
    estimate: EstimateResponse,
    source_asset: Seq<char>,
    source_amount: u128,
    destination_amount: u128,
    apply_rounding_margin: bool,
    apply_base_fee_pad: bool,
) -> Result<u128, Seq<char>> {
    match amount_read(estimate.estimated_out@, "estimatedOut"@) {
        Err(m) => Err(m),
        Ok(delivered) => {
            let effective = if apply_rounding_margin {
                sat_sub(delivered, USDB_RECEIVE_ROUNDING_MARGIN)
            } else {
                delivered
            };
            if effective == 0 {
                Err("Cross-chain: ExactIn estimate returned zero delivered amount"@)
            } else if source_amount * destination_amount > u128::MAX {
                Err("Cross-chain: inflation scaling overflow"@)
            } else {
                let scaled = inflation(source_amount, destination_amount, effective) as u128;
                let pad = if apply_base_fee_pad && eq_ignore_case(estimate.fee_asset@, source_asset) {
                    amount_read(estimate.fee_amount@, "feeAmount"@)
                } else {
                    Ok(0u128)
                };
                match pad {
                    Err(m) => Err(m),
                    Ok(p) => Ok(padded(scaled, p).0),
                }
            }
        },
    }
}

/// Sizes the source deposit from an `ExactIn` estimate made at
/// `source_amount`: the source scaled by how far the estimated delivery
/// (less the USDB rounding margin when asked) falls short of
/// `destination_amount`, plus the estimate's fee when asked for and reported
/// in the source asset (the pad capped at the scaled amount).
pub fn required_source_from_estimate(
    estimate: &EstimateResponse,
    source_asset: &str,
    source_amount: u128,
    destination_amount: u128,
    apply_rounding_margin: bool,
    apply_base_fee_pad: bool,
) -> (r: Result<u128, SdkError>)
    ensures
        crate::cross_chain::generic_result_is(
            r,
            required_source(
                *estimate,
                source_asset@,
                source_amount,
                destination_amount,
                apply_rounding_margin,
                apply_base_fee_pad,
            ),
        ),
{
    let delivered = match parse_amount(estimate.estimated_out.as_str(), "estimatedOut") {
        Ok(d) => d,
        Err(e) => {
            return Err(e);
        },
    };
    let effective = if apply_rounding_margin {
        if delivered >= USDB_RECEIVE_ROUNDING_MARGIN { delivered - USDB_RECEIVE_ROUNDING_MARGIN } else { 0 }
    } else {
        delivered
    };
    let scaled = match proportional_inflation(source_amount, destination_amount, effective) {
        Ok(v) => v,
        Err(e) => {
            return Err(e);
        },
    };
    let reported_pad = if apply_base_fee_pad && eq_ignore_ascii_case(estimate.fee_asset.as_str(), source_asset) {
        match parse_amount(estimate.fee_amount.as_str(), "feeAmount") {
            Ok(p) => p,
            Err(e) => {
                return Err(e);
            },
        }
    } else {
        0
    };
    let (required_in, _applied) = pad_required_in(scaled, reported_pad);
    Ok(required_in)
}

/// The three amounts of a quote, read: the deposit, the estimated delivery
/// and the total fee.
pub open spec fn quote_amounts(q: QuoteResponse) -> Result<(u128, u128, u128), Seq<char>> {
    match amount_read(q.amount_in@, "amountIn"@) {
        Err(m) => Err(m),
        Ok(a) => match amount_read(q.estimated_out@, "estimatedOut"@) {
            Err(m) => Err(m),
            Ok(e) => match amount_read(q.total_fee_amount@, "totalFeeAmount"@) {
                Err(m) => Err(m),
                Ok(f) => Ok((a, e, f)),
            },
        },
    }
}

/// Reads a quote's deposit, estimated delivery and total fee.
pub fn parse_quote_amounts(quote: &QuoteResponse) -> (r: Result<(u128, u128, u128), SdkError>)
    ensures
        crate::cross_chain::generic_result_is(r, quote_amounts(*quote)),
{
    let amount_in = match parse_amount(quote.amount_in.as_str(), "amountIn") {
        Ok(v) => v,
        Err(e) => {
            return Err(e);
        },
    };
    let estimated_out = match parse_amount(quote.estimated_out.as_str(), "estimatedOut") {
        Ok(v) => v,
        Err(e) => {
            return Err(e);
        },
    };
    let service_fee_amount = match parse_amount(quote.total_fee_amount.as_str(), "totalFeeAmount") {
        Ok(v) => v,
        Err(e) => {
            return Err(e);
        },
    };
    Ok((amount_in, estimated_out, service_fee_amount))
}

/// Why a quote's figures are refused, `None` when they pass: the echoed
/// deposit must be within tolerance of the requested one, and (on a
/// fees-excluded quote) the delivery within the slippage budget of the
/// target.
pub open spec fn quote_rejection(
    source_amount: u128,
    amount_in: u128,
    target: Option<u128>,
    estimated_out: u128,
    max_slippage_bps: u32,
) -> Option<Seq<char>> {
    if !(source_amount - amount_in_tolerance(source_amount) <= amount_in <= sat_add(
        source_amount,
        amount_in_tolerance(source_amount) as u128,
    )) {
        Some(amount_in_mismatch_text(source_amount, amount_in))
    } else {
        match target {
            Some(t) => if estimated_out < min_acceptable_out(t, max_slippage_bps) {
                Some(drift_text(t, estimated_out, max_slippage_bps))
            } else {
                None
            },
            None => None,
        }
    }
}

/// The drift check holds the quote's promised delivery against the target:
/// a quote promising less than the target less the slippage budget is
/// refused with the drift message, and one promising at least the target is
/// never refused.
pub proof fn law_quote_drift_against_target(
    source_amount: u128,
    amount_in: u128,
    target: u128,
    estimated_out: u128,
    max_slippage_bps: u32,
)
    requires
        source_amount - amount_in_tolerance(source_amount) <= amount_in <= sat_add(
            source_amount,
            amount_in_tolerance(source_amount) as u128,
        ),
    ensures
        (max_slippage_bps <= 10_000 && target * (10_000 - max_slippage_bps) <= u128::MAX && estimated_out < target
            * (10_000 - max_slippage_bps) / 10_000) ==> quote_rejection(
            source_amount,
            amount_in,
            Some(target),
            estimated_out,
            max_slippage_bps,
        ) == Some(drift_text(target, estimated_out, max_slippage_bps)),
        estimated_out >= target ==> quote_rejection(
            source_amount,
            amount_in,
            Some(target),
            estimated_out,
            max_slippage_bps,
        ) is None,
{
    let keep: u32 = if max_slippage_bps < 10_000 { (10_000 - max_slippage_bps) as u32 } else { 0 };
    let m = sat_mul(target, keep as u128);
    assert(m <= target * keep);
    assert(m as int / 10_000 <= target) by (nonlinear_arith)
        requires
            m <= target * keep,
            keep <= 10_000,
            0 <= m,
    ;
    assert(min_acceptable_out(target, max_slippage_bps) == m as int / 10_000);
    if max_slippage_bps <= 10_000 && target * (10_000 - max_slippage_bps) <= u128::MAX {
        assert(keep == 10_000 - max_slippage_bps);
        assert(m == target * keep);
    }
}

/// Checks a quote's figures: the deposit echo first, then the drift of the
/// delivery against the target (when there is one).
pub fn verify_quote(
    source_amount: u128,
    amount_in: u128,
    target: Option<u128>,
    estimated_out: u128,
    max_slippage_bps: u32,
) -> (r: Result<(), SdkError>)
    ensures
        match quote_rejection(source_amount, amount_in, target, estimated_out, max_slippage_bps) {
            None => r is Ok,
            Some(m) => invalid_input_is(r, m),
        },
{
    match verify_quote_amount_in(source_amount, amount_in) {
        Ok(()) => {},
        Err(e) => {
            return Err(e);
        },
    }
    match target {
        Some(t) => verify_quote_not_drifted(t, estimated_out, max_slippage_bps),
        None => Ok(()),
    }
}

/// The asset a service fee is reported in: unset for bitcoin (sats).
pub open spec fn fee_asset_of(fee_asset: String) -> Option<String> {
    if eq_ignore_case(fee_asset@, "BTC"@) {
        None
    } else {
        Some(fee_asset)
    }
}

fn fee_asset_or_sats(fee_asset: String) -> (r: Option<String>)
    ensures
        r == fee_asset_of(fee_asset),
{
    if eq_ignore_ascii_case(fee_asset.as_str(), "BTC") {
        None
    } else {
        Some(fee_asset)
    }
}

/// Whether `p` is the prepared Orchestra send for a checked quote: the
/// deposit as source amount, the fee the gap between what the deposit is
/// worth at the destination and the quoted delivery, and the quote carried
/// for the send.
pub open spec fn is_orchestra_prepared(
    p: CrossChainSendPrepared,
    quote: QuoteResponse,
    amount_in: u128,
    estimated_out: u128,
    service_fee_amount: u128,
    asset_amount_in: u128,
    fee_mode: crate::models::CrossChainFeeMode,
    route: CrossChainRoutePair,
    recipient_address: Seq<char>,
    token_identifier: Option<String>,
) -> bool {
    &&& p.amount_in == amount_in
    &&& p.asset_amount_in == asset_amount_in
    &&& p.estimated_out == estimated_out
    &&& p.fee_amount == sat_sub(asset_amount_in, estimated_out)
    &&& p.service_fee_amount == service_fee_amount
    &&& p.service_fee_asset == fee_asset_of(quote.fee_asset)
    &&& p.source_transfer_fee_sats == 0
    &&& p.fee_mode == fee_mode
    &&& p.expires_at == quote.expires_at
    &&& p.pair.same_as(route)
    &&& p.recipient_address@ == recipient_address
    &&& p.token_identifier == token_identifier
    &&& p.provider_context == crate::models::CrossChainProviderContext::Orchestra {
        quote_id: quote.quote_id,
        deposit_address: quote.deposit_address,
        deposit_amount: amount_in,
    }
}

/// Assembles the prepared send for a checked Orchestra quote.
pub fn assemble_send_prepared(
    quote: QuoteResponse,
    amount_in: u128,
    estimated_out: u128,
    service_fee_amount: u128,
    asset_amount_in: u128,
    fee_mode: crate::models::CrossChainFeeMode,
    route: &CrossChainRoutePair,
    recipient_address: &str,
    token_identifier: Option<String>,
) -> (r: crate::cross_chain::CrossChainSendPrepared)
    ensures
        is_orchestra_prepared(
            r,
            quote,
            amount_in,
            estimated_out,
            service_fee_amount,
            asset_amount_in,
            fee_mode,
            *route,
            recipient_address@,
            token_identifier,
        ),
{
    let fee_amount = if asset_amount_in >= estimated_out { asset_amount_in - estimated_out } else { 0 };
    let provider_context = crate::models::CrossChainProviderContext::Orchestra {
        quote_id: quote.quote_id,
        deposit_address: quote.deposit_address,
        deposit_amount: amount_in,
    };
    crate::cross_chain::CrossChainSendPrepared {
        amount_in,
        asset_amount_in,
        estimated_out,
        fee_amount,
        service_fee_amount,
        service_fee_asset: fee_asset_or_sats(quote.fee_asset),
        source_transfer_fee_sats: 0,
        fee_mode,
        expires_at: quote.expires_at,
        pair: route.clone(),
        recipient_address: String::from_str(recipient_address),
        token_identifier,
        provider_context,
    }
}

/// The `Debug` rendering of a Spark asset.
pub open spec fn spark_asset_debug(a: SparkAsset) -> Seq<char> {
    match a {
        SparkAsset::Bitcoin => "Bitcoin"@,
        SparkAsset::Token { token_identifier } => "Token { token_identifier: "@ + crate::text::debug_quoted(
            token_identifier@,
        ) + " }"@,
    }
}

fn spark_asset_debug_text(a: &SparkAsset) -> (r: String)
    ensures
        r@ == spark_asset_debug(*a),
{
    match a {
        SparkAsset::Bitcoin => String::from_str("Bitcoin"),
        SparkAsset::Token { token_identifier } => String::from_str("Token { token_identifier: ").concat(
            crate::text::quoted_debug(token_identifier.as_str()).as_str(),
        ).concat(" }"),
    }
}

/// The Spark side a receive lands on, as checked for quoting.
#[derive(Clone, Debug, PartialEq)]
pub struct ReceiveDestination {
    /// The wire symbol (`BTC`, `USDB`).
    pub asset: String,
    pub decimals: u32,
    /// The token received; unset for bitcoin.
    pub token_identifier: Option<String>,
    /// Whether the delivery rounds down at the cent (USDB), so sizing and
    /// reporting keep a margin.
    pub apply_rounding_margin: bool,
}

/// Checks the Spark side a receive lands on against what the route's raw
/// entry says (`resolved`, as `find_spark_side` found it).
pub fn check_receive_destination(
    resolved: Option<ResolvedSparkAsset>,
    route: &CrossChainRoutePair,
    destination: &SparkAsset,
    fee_mode: crate::models::CrossChainFeeMode,
) -> (r: Result<ReceiveDestination, SdkError>)
    ensures
        match resolved {
            None => generic_error_is(
                r,
                "Orchestra route "@ + route.chain@ + "/"@ + route.asset@ + " has no entry matching destination "@
                    + spark_asset_debug(*destination),
            ),
            Some(found) => {
                let is_token = destination is Token;
                if is_token && found.decimals != 6 {
                    generic_error_is(
                        r,
                        "Cross-chain receive: Spark-side token "@ + found.asset@ + " has unexpected decimals "@
                            + decimal(found.decimals as nat) + " (expected 6)"@,
                    )
                } else if fee_mode == crate::models::CrossChainFeeMode::FeesExcluded && is_token
                    && !eq_ignore_case(found.asset@, "USDB"@) {
                    invalid_input_is(
                        r,
                        "Cross-chain receive with FeesExcluded currently only supports USDB or Bitcoin destinations. Requested destination asset: "@
                            + found.asset@ + "."@,
                    )
                } else {
                    r matches Ok(d) && d.asset == found.asset && d.decimals == found.decimals as u32
                        && d.token_identifier == (match *destination {
                        SparkAsset::Token { token_identifier } => Some(token_identifier),
                        SparkAsset::Bitcoin => None,
                    }) && d.apply_rounding_margin == eq_ignore_case(found.asset@, "USDB"@)
                }
            },
        },
{
    let found = match resolved {
        Some(f) => f,
        None => {
            return Err(
                SdkError::Generic(
                    String::from_str("Orchestra route ").concat(route.chain.as_str()).concat("/").concat(
                        route.asset.as_str(),
                    ).concat(" has no entry matching destination ").concat(
                        spark_asset_debug_text(destination).as_str(),
                    ),
                ),
            );
        },
    };
    let token_identifier = match destination {
        SparkAsset::Bitcoin => None,
        SparkAsset::Token { token_identifier } => Some(token_identifier.clone()),
    };
    if token_identifier.is_some() && found.decimals != 6 {
        return Err(
            SdkError::Generic(
                String::from_str("Cross-chain receive: Spark-side token ").concat(found.asset.as_str()).concat(
                    " has unexpected decimals ",
                ).concat(decimal_string(found.decimals as u128).as_str()).concat(" (expected 6)"),
            ),
        );
    }
    let is_usdb = eq_ignore_ascii_case(found.asset.as_str(), "USDB");
    if fee_mode == crate::models::CrossChainFeeMode::FeesExcluded && token_identifier.is_some() && !is_usdb {
        return Err(
            SdkError::InvalidInput(
                String::from_str(
                    "Cross-chain receive with FeesExcluded currently only supports USDB or Bitcoin destinations. Requested destination asset: ",
                ).concat(found.asset.as_str()).concat("."),
            ),
        );
    }
    Ok(
        ReceiveDestination {
            asset: found.asset,
            decimals: found.decimals as u32,
            token_identifier,
            apply_rounding_margin: is_usdb,
        },
    )
}

/// The figures of a checked receive quote.
#[derive(Clone, Copy, Debug, PartialEq, Eq, Structural)]
pub struct ReceiveQuoteFigures {
    pub deposit_amount: u128,
    pub quote_estimated_out: u128,
    pub service_fee_amount: u128,
    pub expires_at_secs: u64,
    /// What the receiver is told to expect: the estimate, less the rounding
    /// margin when the delivery rounds at the cent.
    pub expected_received_amount: u128,
}

/// Reads and checks a receive quote: its three amounts and its expiry are
/// read first, then the deposit echo and (when sizing to a target) the drift
/// are checked.
pub fn check_receive_quote(
    quote: &QuoteResponse,
    source_amount: u128,
    target: Option<u128>,
    max_slippage_bps: u32,
    apply_rounding_margin: bool,
) -> (r: Result<ReceiveQuoteFigures, SdkError>)
    ensures
        match quote_amounts(*quote) {
            Err(m) => generic_error_is(r, m),
            Ok((a, e, f)) => match expiry_seconds(quote.expires_at@) {
                Err(m) => generic_error_is(r, m),
                Ok(exp) => match quote_rejection(source_amount, a, target, e, max_slippage_bps) {
                    Some(m) => invalid_input_is(r, m),
                    None => r == Ok::<ReceiveQuoteFigures, SdkError>(
                        ReceiveQuoteFigures {
                            deposit_amount: a,
                            quote_estimated_out: e,
                            service_fee_amount: f,
                            expires_at_secs: exp,
                            expected_received_amount: if apply_rounding_margin {
                                sat_sub(e, USDB_RECEIVE_ROUNDING_MARGIN)
                            } else {
                                e
                            },
                        },
                    ),
                },
            },
        },
{
    let (deposit_amount, quote_estimated_out, service_fee_amount) = match parse_quote_amounts(quote) {
        Ok(v) => v,
        Err(e) => {
            return Err(e);
        },
    };
    let expires_at_secs = match parse_rfc3339_to_unix_seconds(quote.expires_at.as_str()) {
        Ok(v) => v,
        Err(e) => {
            return Err(e);
        },
    };
    match verify_quote(source_amount, deposit_amount, target, quote_estimated_out, max_slippage_bps) {
        Ok(()) => {},
        Err(e) => {
            return Err(e);
        },
    }
    let expected_received_amount = if apply_rounding_margin {
        if quote_estimated_out >= USDB_RECEIVE_ROUNDING_MARGIN {
            quote_estimated_out - USDB_RECEIVE_ROUNDING_MARGIN
        } else {
            0
        }
    } else {
        quote_estimated_out
    };
    Ok(
        ReceiveQuoteFigures {
            deposit_amount,
            quote_estimated_out,
            service_fee_amount,
            expires_at_secs,
            expected_received_amount,
        },
    )
}

/// The quote stashed for a receive, for the monitor to follow: the route's
/// external side as source, the Spark side as destination.
pub fn receive_swap_data(
    quote: &QuoteResponse,
    route: &CrossChainRoutePair,
    recipient_address: &str,
    destination: &ReceiveDestination,
    figures: &ReceiveQuoteFigures,
) -> (r: OrchestraSwapData)
    ensures
        r.quote_id == quote.quote_id,
        r.order_id is None,
        r.read_token is None,
        r.recipient_address@ == recipient_address@,
        r.source_chain == route.chain,
        r.source_asset == route.asset,
        r.source_chain_id == route.chain_id,
        r.source_contract_address == route.contract_address,
        r.source_decimals == route.decimals as u32,
        r.destination_chain@ == "spark"@,
        r.destination_asset == destination.asset,
        r.destination_decimals == destination.decimals,
        r.token_identifier == destination.token_identifier,
        r.amount_in == quote.amount_in,
        r.expected_amount_out@ == decimal(figures.expected_received_amount as nat),
        r.fee_amount == Some(quote.total_fee_amount),
        r.expires_at == figures.expires_at_secs,
{
    OrchestraSwapData {
        quote_id: quote.quote_id.clone(),
        order_id: None,
        read_token: None,
        recipient_address: String::from_str(recipient_address),
        source_chain: route.chain.clone(),
        source_asset: route.asset.clone(),
        source_chain_id: crate::models::clone_opt_string(&route.chain_id),
        source_contract_address: crate::models::clone_opt_string(&route.contract_address),
        source_decimals: route.decimals as u32,
        destination_chain: String::from_str("spark"),
        destination_asset: destination.asset.clone(),
        destination_decimals: destination.decimals,
        token_identifier: crate::models::clone_opt_string(&destination.token_identifier),
        amount_in: quote.amount_in.clone(),
        expected_amount_out: decimal_string(figures.expected_received_amount),
        fee_amount: Some(quote.total_fee_amount.clone()),
        expires_at: figures.expires_at_secs,
    }
}

/// What the caller of a receive is told about it.
pub fn receive_info_of(
    quote: QuoteResponse,
    destination: ReceiveDestination,
    figures: &ReceiveQuoteFigures,
) -> (r: crate::models::CrossChainReceiveInfo)
    ensures
        r == (crate::models::CrossChainReceiveInfo {
            deposit_address: quote.deposit_address,
            deposit_amount: figures.deposit_amount,
            expected_received_amount: figures.expected_received_amount,
            destination_asset: destination.asset,
            token_identifier: destination.token_identifier,
            service_fee_amount: figures.service_fee_amount,
            service_fee_asset: fee_asset_of(quote.fee_asset),
            expires_at: figures.expires_at_secs,
        }),
{
    crate::models::CrossChainReceiveInfo {
        deposit_address: quote.deposit_address,
        deposit_amount: figures.deposit_amount,
        expected_received_amount: figures.expected_received_amount,
        destination_asset: destination.asset,
        token_identifier: destination.token_identifier,
        service_fee_amount: figures.service_fee_amount,
        service_fee_asset: fee_asset_or_sats(quote.fee_asset),
        expires_at: figures.expires_at_secs,
    }
}

/// The Orchestra quote a prepared send carries: its id, the deposit address
/// and the deposit amount.
pub fn orchestra_context(prepared: &CrossChainSendPrepared) -> (r: Result<(String, String, u128), SdkError>)
    ensures
        match prepared.provider_context {
            crate::models::CrossChainProviderContext::Orchestra { quote_id, deposit_address, deposit_amount } => r
                == Ok::<(String, String, u128), SdkError>((quote_id, deposit_address, deposit_amount)),
            _ => generic_error_is(r, "Orchestra send called with non-Orchestra provider context"@),
        },
{
    match &prepared.provider_context {
        crate::models::CrossChainProviderContext::Orchestra { quote_id, deposit_address, deposit_amount } => Ok(
            (quote_id.clone(), deposit_address.clone(), *deposit_amount),
        ),
        _ => Err(SdkError::Generic(String::from_str("Orchestra send called with non-Orchestra provider context"))),
    }
}

/// What an Orchestra send records once its deposit went out: the order and
/// read token the submit returned, or none when the submit failed (the
/// monitor recovers them), the conversion pending either way.
pub fn send_conversion_info(
    prepared: &CrossChainSendPrepared,
    quote_id: String,
    submitted: Option<(String, Option<String>)>,
) -> (r: ConversionInfo)
    ensures
        r == (ConversionInfo::Orchestra {
            order_id: match submitted {
                Some((id, _)) => id,
                None => r->Orchestra_order_id,
            },
            quote_id,
            chain: prepared.pair.chain,
            chain_id: prepared.pair.chain_id,
            asset: prepared.pair.asset,
            recipient_address: prepared.recipient_address,
            asset_amount_in: Some(prepared.asset_amount_in),
            estimated_out: prepared.estimated_out,
            delivered_amount: None,
            external_tx_hash: None,
            status: ConversionStatus::Pending,
            fee_amount: Some(prepared.fee_amount),
            service_fee_amount: Some(prepared.service_fee_amount),
            service_fee_asset: prepared.service_fee_asset,
            read_token: match submitted {
                Some((_, t)) => t,
                None => None,
            },
            asset_decimals: prepared.pair.decimals as u32,
            asset_contract: prepared.pair.contract_address,
        }),
        submitted is None ==> r->Orchestra_order_id@.len() == 0,
{
    let (order_id, read_token) = match submitted {
        Some((id, t)) => (id, t),
        None => (String::new(), None),
    };
    ConversionInfo::Orchestra {
        order_id,
        quote_id,
        chain: prepared.pair.chain.clone(),
        chain_id: crate::models::clone_opt_string(&prepared.pair.chain_id),
        asset: prepared.pair.asset.clone(),
        recipient_address: prepared.recipient_address.clone(),
        asset_amount_in: Some(prepared.asset_amount_in),
        estimated_out: prepared.estimated_out,
        delivered_amount: None,
        external_tx_hash: None,
        status: ConversionStatus::Pending,
        fee_amount: Some(prepared.fee_amount),
        service_fee_amount: Some(prepared.service_fee_amount),
        service_fee_asset: crate::models::clone_opt_string(&prepared.service_fee_asset),
        read_token,
        asset_decimals: prepared.pair.decimals as u32,
        asset_contract: crate::models::clone_opt_string(&prepared.pair.contract_address),
    }
}

/// What route discovery asks Orchestra for: the source chain whose routes to
/// list, the direction, the contract to keep, and the address family to
/// match (none on a receive).
#[derive(Clone, Debug, PartialEq)]
pub struct RouteQuery {
    pub source_chain: String,
    pub is_send: bool,
    pub contract_filter: Option<String>,
    pub family_filter: Option<crate::models::CrossChainAddressFamily>,
}

/// The route query for a route filter: a send lists Spark-sourced routes, a
/// payment link Lightning-funded ones (both matched to the recipient's family
/// and contract), a receive Spark-destined ones matched to a contract.
pub fn route_query(filter: &crate::models::CrossChainRouteFilter) -> (r: RouteQuery)
    ensures
        match *filter {
            crate::models::CrossChainRouteFilter::Send { address_details } => r.source_chain@ == "spark"@
                && r.is_send && r.contract_filter == address_details.contract_address && r.family_filter == Some(
                address_details.address_family,
            ),
            crate::models::CrossChainRouteFilter::PaymentLink { address_details } => r.source_chain@
                == "lightning"@ && r.is_send && r.contract_filter == address_details.contract_address
                && r.family_filter == Some(address_details.address_family),
            crate::models::CrossChainRouteFilter::Receive { contract_address } => r.source_chain@ == "spark"@
                && !r.is_send && r.contract_filter == contract_address && r.family_filter is None,
        },
{
    match filter {
        crate::models::CrossChainRouteFilter::Send { address_details } => RouteQuery {
            source_chain: String::from_str("spark"),
            is_send: true,
            contract_filter: crate::models::clone_opt_string(&address_details.contract_address),
            family_filter: Some(address_details.address_family),
        },
        crate::models::CrossChainRouteFilter::PaymentLink { address_details } => RouteQuery {
            source_chain: String::from_str("lightning"),
            is_send: true,
            contract_filter: crate::models::clone_opt_string(&address_details.contract_address),
            family_filter: Some(address_details.address_family),
        },
        crate::models::CrossChainRouteFilter::Receive { contract_address } => RouteQuery {
            source_chain: String::from_str("spark"),
            is_send: false,
            contract_filter: crate::models::clone_opt_string(contract_address),
            family_filter: None,
        },
    }
}

/// A source amount restated in destination units for a non-bitcoin source:
/// rescaled between decimals for a USD-stable token, refused for any other.
/// (A bitcoin source goes through the BTC/USD rate instead.)
pub fn token_target_destination_amount(source_asset: &ResolvedSparkAsset, route: &CrossChainRoutePair, amount: u128) -> (r:
    Result<u128, SdkError>)
    ensures
        crate::cross_chain::is_usd_stable(source_asset.asset@) ==> crate::cross_chain::generic_result_is(
            r,
            crate::cross_chain::spec_rescale(amount, source_asset.decimals as u32, route.decimals as u32),
        ),
        !crate::cross_chain::is_usd_stable(source_asset.asset@) ==> invalid_input_is(
            r,
            "Cross-chain source asset not supported for inflation: "@ + source_asset.asset@,
        ),
{
    if crate::cross_chain::is_usd_stable_asset(source_asset.asset.as_str()) {
        crate::cross_chain::rescale_decimals(amount, source_asset.decimals as u32, route.decimals as u32)
    } else {
        Err(
            SdkError::InvalidInput(
                String::from_str("Cross-chain source asset not supported for inflation: ").concat(
                    source_asset.asset.as_str(),
                ),
            ),
        )
    }
}

} // verus!
