//! The Boltz cross-chain provider (reverse swaps paid over Lightning): its
//! destinations as route pairs, the checks and sizing of a send, and what a
//! send records.

use vstd::prelude::*;
use vstd::string::StringExecFns;

use crate::cross_chain::CrossChainSendPrepared;
use crate::error::{generic_error_is, invalid_input_is, SdkError, StorageError};
use crate::models::{
    ConversionInfo, ConversionStatus, CrossChainAcceptedAsset, CrossChainFeeMode, CrossChainProvider,
    CrossChainProviderContext, CrossChainRoutePair, DeliveryMethod, Payment, PaymentStatus, SparkAsset,
};
use crate::text::{
    debug_quoted, decimal, decimal_string, parse_u64, quoted_debug, spec_parse_u64, u64_parse_error,
    u64_parse_error_text,
};

verus! {

/// A destination Boltz can deliver to.
#[derive(Clone, Debug, PartialEq)]
pub struct DestinationOption {
    /// The human chain label (`"Arbitrum One"`, `"Base"`, `"Solana"`).
    pub chain_label: String,
    /// The EVM chain id; unset for non-EVM transports.
    pub evm_chain_id: Option<u64>,
    /// The delivered stablecoin's ticker.
    pub asset: String,
    /// The destination token contract.
    pub dest_token_address: Option<String>,
}

/// A reverse swap as quoted, before it is created.
#[derive(Clone, Copy, Debug, PartialEq, Eq, Structural)]
pub struct PreparedSwap {
    /// What the swap pays out on chain, in sats.
    pub estimated_onchain_amount: u64,
    /// What the recipient is quoted to receive, in destination base units.
    pub output_amount: u64,
    /// The slippage Boltz applies when none is asked for.
    pub slippage_bps: u32,
    /// Quote expiry, in Unix seconds.
    pub expires_at: u64,
}

/// A reverse swap as created: the hold invoice to pay.
#[derive(Clone, Debug, PartialEq)]
pub struct CreatedSwap {
    pub swap_id: String,
    pub invoice: String,
    pub invoice_amount_sats: u64,
}

/// An error of the Boltz client, as this library tells them apart.
#[derive(Clone, Debug, PartialEq)]
pub enum BoltzError {
    /// An HTTP error answer of the Boltz API, with its status code.
    Api { reason: String, code: Option<u16> },
    WebSocket(String),
    Store(String),
    /// The amount is outside the pair's limits; `message` is what the error
    /// renders to.
    AmountOutOfRange { min: u64, message: String },
    /// A rejection of the request itself (an expired or invalid quote, a
    /// quote degraded beyond the slippage, a duplicate preimage, a bad
    /// configuration), with what it renders to.
    Rejected { message: String },
    /// Any other failure, with what it renders to.
    Other { message: String },
}

pub open spec fn code_suffix(code: Option<u16>) -> Seq<char> {
    match code {
        Some(c) => " (code: "@ + decimal(c as nat) + ")"@,
        None => Seq::empty(),
    }
}

fn code_suffix_text(code: Option<u16>) -> (r: String)
    ensures
        r@ == code_suffix(code),
{
    match code {
        Some(c) => String::from_str(" (code: ").concat(decimal_string(c as u128).as_str()).concat(")"),
        None => String::new(),
    }
}

/// Whether `r` is the SDK error the Boltz error `e` surfaces as.
pub open spec fn surfaces_boltz_error(r: SdkError, e: BoltzError) -> bool {
    match e {
        BoltzError::Api { reason, code } => r is NetworkError && r->NetworkError_0@ == "Boltz API: "@ + reason@
            + code_suffix(code),
        BoltzError::WebSocket(s) => r is NetworkError && r->NetworkError_0@ == "Boltz WebSocket: "@ + s@,
        BoltzError::Store(s) => r is StorageError && r->StorageError_0@ == "Boltz store: "@ + s@,
        BoltzError::AmountOutOfRange { message, .. } => r == SdkError::InvalidInput(message),
        BoltzError::Rejected { message } => r == SdkError::InvalidInput(message),
        BoltzError::Other { message } => r is Generic && r->Generic_0@ == "Boltz: "@ + message@,
    }
}

impl SdkError {
    /// The SDK error a Boltz client error surfaces as.
    pub fn from_boltz_error(e: BoltzError) -> (r: SdkError)
        ensures
            surfaces_boltz_error(r, e),
    {
        match e {
            BoltzError::Api { reason, code } => SdkError::NetworkError(
                String::from_str("Boltz API: ").concat(reason.as_str()).concat(code_suffix_text(code).as_str()),
            ),
            BoltzError::WebSocket(s) => SdkError::NetworkError(String::from_str("Boltz WebSocket: ").concat(s.as_str())),
            BoltzError::Store(s) => SdkError::StorageError(String::from_str("Boltz store: ").concat(s.as_str())),
            BoltzError::AmountOutOfRange { message, .. } => SdkError::InvalidInput(message),
            BoltzError::Rejected { message } => SdkError::InvalidInput(message),
            BoltzError::Other { message } => SdkError::Generic(String::from_str("Boltz: ").concat(message.as_str())),
        }
    }
}

/// The result of reading a Boltz `expires_at` (Unix seconds as text).
pub open spec fn boltz_expiry_seconds(expires_at: Seq<char>) -> Result<u64, Seq<char>> {
    match spec_parse_u64(expires_at) {
        Some(t) => Ok(t),
        None => Err("Boltz: invalid expires_at "@ + debug_quoted(expires_at) + ": "@ + u64_parse_error_text(expires_at)),
    }
}

/// Rejects a Boltz quote that has expired at `now_secs`; an error too when
/// `expires_at` is not Unix seconds.
pub fn validate_quote_expiry_at(expires_at: &str, now_secs: u64) -> (r: Result<(), SdkError>)
    ensures
        match boltz_expiry_seconds(expires_at@) {
            Err(m) => generic_error_is(r, m),
            Ok(exp) => if now_secs >= exp {
                invalid_input_is(r, "Cross-chain quote has expired. Please re-prepare."@)
            } else {
                r is Ok
            },
        },
{
    let exp_secs = match parse_u64(expires_at) {
        Some(e) => e,
        None => {
            let reason = u64_parse_error(expires_at);
            return Err(
                SdkError::Generic(
                    String::from_str("Boltz: invalid expires_at ").concat(quoted_debug(expires_at).as_str()).concat(
                        ": ",
                    ).concat(reason.as_str()),
                ),
            );
        },
    };
    if now_secs >= exp_secs {
        return Err(SdkError::InvalidInput(String::from_str("Cross-chain quote has expired. Please re-prepare.")));
    }
    Ok(())
}

/// Rejects an expired Boltz quote at send time, reading the wall clock. A
/// malformed `expires_at` is reported as such whatever the clock reads; the
/// answer is otherwise success, the expiry error, or the clock's own error.
pub fn validate_quote_expiry(expires_at: &str) -> (r: Result<(), SdkError>)
    ensures
        match boltz_expiry_seconds(expires_at@) {
            Err(m) => generic_error_is(r, m),
            Ok(_) => r is Ok || invalid_input_is(r, "Cross-chain quote has expired. Please re-prepare."@)
                || r is Err && r->Err_0 is Generic,
        },
{
    if parse_u64(expires_at).is_none() {
        return validate_quote_expiry_at(expires_at, 0);
    }
    match crate::time::try_now_secs() {
        Ok(now) => validate_quote_expiry_at(expires_at, now),
        Err(msg) => Err(SdkError::from(msg)),
    }
}

/// The size of the real invoice on a fees-included send: the budget less
/// the probed Lightning fee, refused when the fee eats the whole budget.
pub fn fees_included_real_invoice_sats(total_sats: u64, ln_fee_probe_sats: u64) -> (r: Result<u64, SdkError>)
    ensures
        total_sats > ln_fee_probe_sats ==> r == Ok::<u64, SdkError>((total_sats - ln_fee_probe_sats) as u64),
        total_sats <= ln_fee_probe_sats ==> invalid_input_is(
            r,
            "Amount too small for cross-chain send: "@ + decimal(total_sats as nat) + " sats <= LN fee "@
                + decimal(ln_fee_probe_sats as nat) + " sats."@,
        ),
{
    if total_sats <= ln_fee_probe_sats {
        return Err(
            SdkError::InvalidInput(
                String::from_str("Amount too small for cross-chain send: ").concat(
                    decimal_string(total_sats as u128).as_str(),
                ).concat(" sats <= LN fee ").concat(decimal_string(ln_fee_probe_sats as u128).as_str()).concat(
                    " sats.",
                ),
            ),
        );
    }
    Ok(total_sats - ln_fee_probe_sats)
}

/// The live Lightning fee of a fees-included send must not exceed the fee
/// probed at prepare time (equality is allowed).
pub fn validate_ln_fee_did_not_drift(ln_fee_probe_sats: u64, ln_fee_final_sats: u64) -> (r: Result<(), SdkError>)
    ensures
        ln_fee_final_sats <= ln_fee_probe_sats ==> r is Ok,
        ln_fee_final_sats > ln_fee_probe_sats ==> generic_error_is(
            r,
            "Boltz LN fee increased between prepare queries (probe: "@ + decimal(ln_fee_probe_sats as nat)
                + " sats, final: "@ + decimal(ln_fee_final_sats as nat) + " sats). Please retry."@,
        ),
{
    if ln_fee_final_sats > ln_fee_probe_sats {
        return Err(
            SdkError::Generic(
                String::from_str("Boltz LN fee increased between prepare queries (probe: ").concat(
                    decimal_string(ln_fee_probe_sats as u128).as_str(),
                ).concat(" sats, final: ").concat(decimal_string(ln_fee_final_sats as u128).as_str()).concat(
                    " sats). Please retry.",
                ),
            ),
        );
    }
    Ok(())
}

/// The error of a fees-included send whose real invoice falls below the
/// Boltz minimum, in terms the caller chose; any other error as Boltz's own.
pub fn fees_included_amount_error(e: BoltzError, total_sats: u64, ln_fee_probe_sats: u64, real_invoice_sats: u64) -> (r:
    SdkError)
    ensures
        match e {
            BoltzError::AmountOutOfRange { min, .. } => r is InvalidInput && r->InvalidInput_0@ == "Amount "@
                + decimal(total_sats as nat) + " sats too small for cross-chain send: after subtracting LN fee ("@
                + decimal(ln_fee_probe_sats as nat) + " sats), the remaining invoice ("@ + decimal(
                real_invoice_sats as nat,
            ) + " sats) is below Boltz minimum ("@ + decimal(min as nat) + " sats)."@,
            _ => surfaces_boltz_error(r, e),
        },
{
    match e {
        BoltzError::AmountOutOfRange { min, .. } => SdkError::InvalidInput(
            String::from_str("Amount ").concat(decimal_string(total_sats as u128).as_str()).concat(
                " sats too small for cross-chain send: after subtracting LN fee (",
            ).concat(decimal_string(ln_fee_probe_sats as u128).as_str()).concat(
                " sats), the remaining invoice (",
            ).concat(decimal_string(real_invoice_sats as u128).as_str()).concat(
                " sats) is below Boltz minimum (",
            ).concat(decimal_string(min as u128).as_str()).concat(" sats)."),
        ),
        other => SdkError::from_boltz_error(other),
    }
}

/// The destination target of a fees-excluded send, which Boltz takes as a
/// `u64`.
pub fn target_destination_u64(target: u128) -> (r: Result<u64, SdkError>)
    ensures
        target <= u64::MAX ==> r == Ok::<u64, SdkError>(target as u64),
        target > u64::MAX ==> generic_error_is(
            r,
            "Boltz: target destination amount "@ + decimal(target as nat) + " exceeds u64"@,
        ),
{
    if target > u64::MAX as u128 {
        return Err(
            SdkError::Generic(
                String::from_str("Boltz: target destination amount ").concat(decimal_string(target).as_str()).concat(
                    " exceeds u64",
                ),
            ),
        );
    }
    Ok(target as u64)
}

/// The checks a Boltz send request must pass before any quote, in order:
/// funded over Lightning, paid from bitcoin, an amount that fits in `u64`
/// sats, an asset Boltz supports (`asset_supported`, as the Boltz client
/// reads the route's ticker), and a slippage within Boltz's maximum.
/// Returns the amount in sats.
pub fn check_send_request(
    route: &CrossChainRoutePair,
    amount: u128,
    delivery_method: Option<DeliveryMethod>,
    source_token_identifier: &Option<String>,
    max_slippage_bps: u32,
    asset_supported: bool,
    max_supported_slippage_bps: u32,
) -> (r: Result<u64, SdkError>)
    ensures
        !(delivery_method is None || delivery_method == Some(DeliveryMethod::Lightning)) ==> invalid_input_is(
            r,
            "Boltz routes can only be funded over Lightning"@,
        ),
        (delivery_method is None || delivery_method == Some(DeliveryMethod::Lightning))
            && source_token_identifier is Some ==> invalid_input_is(r, "Boltz does not support token sends"@),
        (delivery_method is None || delivery_method == Some(DeliveryMethod::Lightning))
            && source_token_identifier is None && amount > u64::MAX ==> invalid_input_is(
            r,
            "Amount "@ + decimal(amount as nat) + " exceeds u64::MAX sats for Boltz reverse swap"@,
        ),
        (delivery_method is None || delivery_method == Some(DeliveryMethod::Lightning))
            && source_token_identifier is None && amount <= u64::MAX && !asset_supported ==> invalid_input_is(
            r,
            "Boltz does not support asset '"@ + route.asset@ + "' on "@ + route.chain@,
        ),
        (delivery_method is None || delivery_method == Some(DeliveryMethod::Lightning))
            && source_token_identifier is None && amount <= u64::MAX && asset_supported && max_slippage_bps
            > max_supported_slippage_bps ==> invalid_input_is(
            r,
            "max_slippage_bps "@ + decimal(max_slippage_bps as nat) + " exceeds Boltz maximum "@ + decimal(
                max_supported_slippage_bps as nat,
            ),
        ),
        (delivery_method is None || delivery_method == Some(DeliveryMethod::Lightning))
            && source_token_identifier is None && amount <= u64::MAX && asset_supported && max_slippage_bps
            <= max_supported_slippage_bps ==> r == Ok::<u64, SdkError>(amount as u64),
{
    match delivery_method {
        None | Some(DeliveryMethod::Lightning) => {},
        _ => {
            return Err(SdkError::InvalidInput(String::from_str("Boltz routes can only be funded over Lightning")));
        },
    }
    if source_token_identifier.is_some() {
        return Err(SdkError::InvalidInput(String::from_str("Boltz does not support token sends")));
    }
    if amount > u64::MAX as u128 {
        return Err(
            SdkError::InvalidInput(
                String::from_str("Amount ").concat(decimal_string(amount).as_str()).concat(
                    " exceeds u64::MAX sats for Boltz reverse swap",
                ),
            ),
        );
    }
    if !asset_supported {
        return Err(
            SdkError::InvalidInput(
                String::from_str("Boltz does not support asset '").concat(route.asset.as_str()).concat("' on ").concat(
                    route.chain.as_str(),
                ),
            ),
        );
    }
    if max_slippage_bps > max_supported_slippage_bps {
        return Err(
            SdkError::InvalidInput(
                String::from_str("max_slippage_bps ").concat(decimal_string(max_slippage_bps as u128).as_str()).concat(
                    " exceeds Boltz maximum ",
                ).concat(decimal_string(max_supported_slippage_bps as u128).as_str()),
            ),
        );
    }
    Ok(amount as u64)
}

/// Whether `p` is the route pair a Boltz destination maps to: the chain
/// label and ticker as chain and asset, the EVM chain id in decimal, the
/// token contract, six decimals, bitcoin accepted without published bounds,
/// and Lightning as the only way to fund it.
pub open spec fn is_pair_of_destination(p: CrossChainRoutePair, dest: DestinationOption) -> bool {
    &&& p.provider == CrossChainProvider::Boltz
    &&& p.chain == dest.chain_label
    &&& match dest.evm_chain_id {
        Some(id) => p.chain_id matches Some(c) && c@ == decimal(id as nat),
        None => p.chain_id is None,
    }
    &&& p.asset@ == dest.asset@
    &&& p.contract_address == dest.dest_token_address
    &&& p.decimals == 6
    &&& !p.exact_out_eligible
    &&& p.accepted_assets@ == seq![CrossChainAcceptedAsset { asset: SparkAsset::Bitcoin, limits: None }]
    &&& p.delivery_methods@ == seq![DeliveryMethod::Lightning]
}

/// Builds the route pair of a Boltz destination.
pub fn destination_to_route_pair(dest: &DestinationOption) -> (r: CrossChainRoutePair)
    ensures
        is_pair_of_destination(r, *dest),
{
    let chain_id = match dest.evm_chain_id {
        Some(id) => Some(decimal_string(id as u128)),
        None => None,
    };
    let mut accepted_assets: Vec<CrossChainAcceptedAsset> = Vec::new();
    accepted_assets.push(CrossChainAcceptedAsset { asset: SparkAsset::Bitcoin, limits: None });
    let mut delivery_methods: Vec<DeliveryMethod> = Vec::new();
    delivery_methods.push(DeliveryMethod::Lightning);
    CrossChainRoutePair {
        provider: CrossChainProvider::Boltz,
        chain: dest.chain_label.clone(),
        chain_id,
        asset: String::from_str(dest.asset.as_str()),
        contract_address: crate::models::clone_opt_string(&dest.dest_token_address),
        decimals: 6,
        exact_out_eligible: false,
        accepted_assets,
        delivery_methods,
    }
}

/// Whether a Boltz route pair fits the recipient: its chain matches the
/// recipient's address family (`family_ok`, decided by the caller) and, when
/// the recipient names a contract, the pair's contract is exactly that one.
pub fn route_matches_address_details(pair: &CrossChainRoutePair, wanted_contract: &Option<String>, family_ok: bool) -> (r:
    bool)
    ensures
        r == (family_ok && match *wanted_contract {
            Some(w) => pair.contract_address matches Some(c) && c@ == w@,
            None => true,
        }),
{
    let contract_ok = match wanted_contract {
        Some(w) => match &pair.contract_address {
            Some(c) => crate::text::str_eq(c.as_str(), w.as_str()),
            None => false,
        },
        None => true,
    };
    family_ok && contract_ok
}

/// Whether `p` is the prepared send for a created Boltz swap: the invoice is
/// the source amount, the Boltz spread (invoice less on-chain payout) its
/// service fee in sats, the Lightning fee budget its transfer fee, and the
/// fee the gap between what the invoice is worth and what is quoted out.
pub open spec fn is_boltz_prepared(
    p: CrossChainSendPrepared,
    route: CrossChainRoutePair,
    recipient_address: Seq<char>,
    prepared: PreparedSwap,
    created: CreatedSwap,
    ln_fee_sats: u64,
    asset_amount_in: u128,
    max_slippage_bps: Option<u32>,
    fee_mode: CrossChainFeeMode,
) -> bool {
    let spread: int = if created.invoice_amount_sats >= prepared.estimated_onchain_amount {
        created.invoice_amount_sats - prepared.estimated_onchain_amount
    } else {
        0
    };
    &&& p.amount_in == created.invoice_amount_sats as u128
    &&& p.asset_amount_in == asset_amount_in
    &&& p.estimated_out == prepared.output_amount as u128
    &&& p.fee_amount == (if asset_amount_in >= prepared.output_amount { asset_amount_in - prepared.output_amount } else { 0 })
    &&& p.service_fee_amount == spread
    &&& p.service_fee_asset is None
    &&& p.source_transfer_fee_sats == ln_fee_sats
    &&& p.fee_mode == fee_mode
    &&& p.expires_at@ == decimal(prepared.expires_at as nat)
    &&& p.pair.same_as(route)
    &&& p.recipient_address@ == recipient_address
    &&& p.token_identifier is None
    &&& p.provider_context == CrossChainProviderContext::Boltz {
        swap_id: created.swap_id,
        invoice: created.invoice,
        invoice_amount_sats: created.invoice_amount_sats,
        max_slippage_bps: match max_slippage_bps {
            Some(s) => s,
            None => prepared.slippage_bps,
        },
    }
}

/// Assembles the prepared send for a created Boltz swap.
pub fn build_send_prepared(
    route: &CrossChainRoutePair,
    recipient_address: &str,
    prepared: &PreparedSwap,
    created: CreatedSwap,
    ln_fee_sats: u64,
    asset_amount_in: u128,
    max_slippage_bps: Option<u32>,
    fee_mode: CrossChainFeeMode,
) -> (r: CrossChainSendPrepared)
    ensures
        is_boltz_prepared(
            r,
            *route,
            recipient_address@,
            *prepared,
            created,
            ln_fee_sats,
            asset_amount_in,
            max_slippage_bps,
            fee_mode,
        ),
{
    let spread: u64 = if created.invoice_amount_sats >= prepared.estimated_onchain_amount {
        created.invoice_amount_sats - prepared.estimated_onchain_amount
    } else {
        0
    };
    let estimated_out = prepared.output_amount as u128;
    let fee_amount = if asset_amount_in >= estimated_out { asset_amount_in - estimated_out } else { 0 };
    let resolved_slippage = match max_slippage_bps {
        Some(s) => s,
        None => prepared.slippage_bps,
    };
    let invoice_amount_sats = created.invoice_amount_sats;
    let provider_context = CrossChainProviderContext::Boltz {
        swap_id: created.swap_id,
        invoice: created.invoice,
        invoice_amount_sats,
        max_slippage_bps: resolved_slippage,
    };
    CrossChainSendPrepared {
        amount_in: invoice_amount_sats as u128,
        asset_amount_in,
        estimated_out,
        fee_amount,
        service_fee_amount: spread as u128,
        service_fee_asset: None,
        source_transfer_fee_sats: ln_fee_sats,
        fee_mode,
        expires_at: decimal_string(prepared.expires_at as u128),
        pair: route.clone(),
        recipient_address: String::from_str(recipient_address),
        token_identifier: None,
        provider_context,
    }
}

/// The Boltz swap a prepared send carries.
pub fn boltz_context(prepared: &CrossChainSendPrepared) -> (r: Result<(String, String, u64, u32), SdkError>)
    ensures
        match prepared.provider_context {
            CrossChainProviderContext::Boltz { swap_id, invoice, invoice_amount_sats, max_slippage_bps } => r == Ok::<
                (String, String, u64, u32),
                SdkError,
            >((swap_id, invoice, invoice_amount_sats, max_slippage_bps)),
            _ => generic_error_is(r, "Boltz send called with non-Boltz provider context"@),
        },
{
    match &prepared.provider_context {
        CrossChainProviderContext::Boltz { swap_id, invoice, invoice_amount_sats, max_slippage_bps } => Ok(
            (swap_id.clone(), invoice.clone(), *invoice_amount_sats, *max_slippage_bps),
        ),
        _ => Err(SdkError::Generic(String::from_str("Boltz send called with non-Boltz provider context"))),
    }
}

/// What a Boltz send records while the swap is in flight.
pub fn send_conversion_info(
    prepared: &CrossChainSendPrepared,
    swap_id: String,
    invoice: String,
    invoice_amount_sats: u64,
    max_slippage_bps: u32,
) -> (r: ConversionInfo)
    ensures
        r == (ConversionInfo::Boltz {
            swap_id,
            chain: prepared.pair.chain,
            chain_id: prepared.pair.chain_id,
            asset: prepared.pair.asset,
            recipient_address: prepared.recipient_address,
            invoice,
            invoice_amount_sats,
            asset_amount_in: Some(prepared.asset_amount_in),
            estimated_out: prepared.estimated_out,
            delivered_amount: None,
            bridge_ref: None,
            status: ConversionStatus::Pending,
            fee_amount: Some(prepared.fee_amount),
            service_fee_amount: Some(prepared.service_fee_amount),
            service_fee_asset: prepared.service_fee_asset,
            max_slippage_bps,
            quote_degraded: false,
            asset_decimals: prepared.pair.decimals as u32,
            asset_contract: prepared.pair.contract_address,
        }),
{
    ConversionInfo::Boltz {
        swap_id,
        chain: prepared.pair.chain.clone(),
        chain_id: crate::models::clone_opt_string(&prepared.pair.chain_id),
        asset: prepared.pair.asset.clone(),
        recipient_address: prepared.recipient_address.clone(),
        invoice,
        invoice_amount_sats,
        asset_amount_in: Some(prepared.asset_amount_in),
        estimated_out: prepared.estimated_out,
        delivered_amount: None,
        bridge_ref: None,
        status: ConversionStatus::Pending,
        fee_amount: Some(prepared.fee_amount),
        service_fee_amount: Some(prepared.service_fee_amount),
        service_fee_asset: crate::models::clone_opt_string(&prepared.service_fee_asset),
        max_slippage_bps,
        quote_degraded: false,
        asset_decimals: prepared.pair.decimals as u32,
        asset_contract: crate::models::clone_opt_string(&prepared.pair.contract_address),
    }
}

/// One read of the send's payment row while waiting for it to settle: the
/// payment once it is no longer pending, nothing yet while it is, and an
/// error naming the payment when storage fails.
pub fn settled_payment(payment_id: &str, fetched: Result<Payment, StorageError>) -> (r: Result<Option<Payment>, SdkError>)
    ensures
        match fetched {
            Ok(p) => if p.status != PaymentStatus::Pending {
                r == Ok::<Option<Payment>, SdkError>(Some(p))
            } else {
                r == Ok::<Option<Payment>, SdkError>(None)
            },
            Err(e) => generic_error_is(r, "Failed to fetch Boltz payment "@ + payment_id@ + ": "@ + e.text()),
        },
{
    match fetched {
        Ok(p) => if p.status != PaymentStatus::Pending {
            Ok(Some(p))
        } else {
            Ok(None)
        },
        Err(e) => Err(
            SdkError::Generic(
                String::from_str("Failed to fetch Boltz payment ").concat(payment_id).concat(": ").concat(
                    e.message().as_str(),
                ),
            ),
        ),
    }
}

} // verus!
