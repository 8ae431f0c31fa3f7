//! Shared validation building blocks for the send-payment prepare flow.

use vstd::prelude::*;
use vstd::string::StringExecFns;

use crate::cross_chain::{
    bps_range_message, bps_range_text, inflate_target_amount, spec_inflate,
    DEFAULT_CROSS_CHAIN_SLIPPAGE_BPS, MAX_CROSS_CHAIN_SLIPPAGE_BPS, MIN_CROSS_CHAIN_SLIPPAGE_BPS,
};
use crate::error::{invalid_input_is, SdkError};
use crate::models::{
    ConversionOptions, ConversionType, CrossChainAddressFamily, CrossChainRoutePair, FeePolicy,
    SparkInvoiceDetails,
};
use crate::text::{eq_ignore_ascii_case, eq_ignore_case, str_eq};
use crate::time::try_now_secs;

verus! {

/// Whether the Spark invoice can be paid at time `now` by the wallet whose
/// identity key is `identity_public_key`: `Ok` unless it has expired (now past
/// its expiry time) or is bound to a different sender.
pub open spec fn invoice_payable(details: SparkInvoiceDetails, identity_public_key: Seq<char>, now: u64) -> bool {
    &&& (details.expiry_time matches Some(t) ==> now <= t)
    &&& (details.sender_public_key matches Some(k) ==> identity_public_key == k@)
}

/// Validates, at time `now`, that a Spark invoice can be paid by us: it has
/// not expired, and it is not bound to a different sender.
pub fn validate_spark_invoice_payable_at(
    details: &SparkInvoiceDetails,
    identity_public_key: &str,
    now: u64,
) -> (r: Result<(), SdkError>)
    ensures
        r is Ok <==> invoice_payable(*details, identity_public_key@, now),
        (details.expiry_time matches Some(t) && now > t) ==> invalid_input_is(r, "Invoice has expired"@),
        !(details.expiry_time matches Some(t) && now > t) ==> (details.sender_public_key matches Some(k)
            ==> (identity_public_key@ != k@ ==> invalid_input_is(r, "Invoice can only be paid by sender public key "@ + k@))),
{
    if let Some(expiry_time) = details.expiry_time {
        if now > expiry_time {
            return Err(SdkError::InvalidInput(String::from_str("Invoice has expired")));
        }
    }
    if let Some(sender_public_key) = &details.sender_public_key {
        if !str_eq(identity_public_key, sender_public_key.as_str()) {
            return Err(
                SdkError::InvalidInput(
                    String::from_str("Invoice can only be paid by sender public key ").concat(
                        sender_public_key.as_str(),
                    ),
                ),
            );
        }
    }
    Ok(())
}

/// Validates that a Spark invoice can be paid by us now: it has not expired,
/// and it is not bound to a different sender. A clock that cannot be read is
/// a generic error.
pub fn validate_spark_invoice_payable(details: &SparkInvoiceDetails, identity_public_key: &str) -> (r: Result<
    (),
    SdkError,
>)
    ensures
        (details.expiry_time is None && (details.sender_public_key matches Some(k) ==> identity_public_key@
            == k@)) ==> r is Ok,
        (details.sender_public_key matches Some(k) && identity_public_key@ != k@) ==> r is Err,
{
    let now = match details.expiry_time {
        Some(_) => match try_now_secs() {
            Ok(n) => n,
            Err(e) => {
                return Err(SdkError::Generic(e));
            },
        },
        None => 0,
    };
    validate_spark_invoice_payable_at(details, identity_public_key, now)
}

/// Validates that an amount, if given, is greater than zero.
pub fn validate_amount(amount: Option<u128>) -> (r: Result<(), SdkError>)
    ensures
        amount == Some(0u128) ==> invalid_input_is(r, "Amount must be greater than 0"@),
        amount != Some(0u128) ==> r is Ok,
{
    if let Some(0) = amount {
        return Err(SdkError::InvalidInput(String::from_str("Amount must be greater than 0")));
    }
    Ok(())
}

/// Whether a fee policy and conversion options cannot be combined: fees
/// included together with any conversion other than a token-to-bitcoin one.
pub open spec fn fee_policy_conflicts(fee_policy: Option<FeePolicy>, conversion_options: Option<ConversionOptions>) -> bool {
    &&& fee_policy == Some(FeePolicy::FeesIncluded)
    &&& conversion_options is Some
    &&& !(conversion_options->0.conversion_type is ToBitcoin)
}

/// Validates that `FeesIncluded` is not combined with a `FromBitcoin`
/// conversion. `FeesIncluded` with `ToBitcoin` is allowed.
pub fn validate_fee_policy_for_conversion(
    fee_policy: Option<FeePolicy>,
    conversion_options: Option<&ConversionOptions>,
) -> (r: Result<(), SdkError>)
    ensures
        fee_policy_conflicts(
            fee_policy,
            match conversion_options {
                Some(o) => Some(*o),
                None => None,
            },
        ) ==> invalid_input_is(r, "FeesIncluded cannot be combined with FromBitcoin conversion"@),
        !fee_policy_conflicts(
            fee_policy,
            match conversion_options {
                Some(o) => Some(*o),
                None => None,
            },
        ) ==> r is Ok,
{
    let fees_included = match fee_policy {
        Some(FeePolicy::FeesIncluded) => true,
        _ => false,
    };
    let conflicting = match conversion_options {
        Some(o) => match o.conversion_type {
            ConversionType::ToBitcoin { .. } => false,
            ConversionType::FromBitcoin => true,
        },
        None => false,
    };
    if fees_included && conflicting {
        return Err(
            SdkError::InvalidInput(
                String::from_str("FeesIncluded cannot be combined with FromBitcoin conversion"),
            ),
        );
    }
    Ok(())
}

/// Human-readable label of an address family.
pub open spec fn family_label(family: CrossChainAddressFamily) -> Seq<char> {
    match family {
        CrossChainAddressFamily::Evm => "EVM"@,
        CrossChainAddressFamily::Solana => "Solana"@,
        CrossChainAddressFamily::Tron => "Tron"@,
    }
}

/// Human-readable label of an address family, for error messages.
pub fn address_family_label(family: CrossChainAddressFamily) -> (r: &'static str)
    ensures
        r@ == family_label(family),
{
    match family {
        CrossChainAddressFamily::Evm => "EVM",
        CrossChainAddressFamily::Solana => "Solana",
        CrossChainAddressFamily::Tron => "Tron",
    }
}

/// Fails when the recipient address's family does not match the family the
/// route's destination was inferred to have (`route_family`). Skipped when the
/// route's family cannot be inferred (a native-asset route).
pub fn validate_address_family_against_route(
    address_family: CrossChainAddressFamily,
    route_family: Option<CrossChainAddressFamily>,
    route: &CrossChainRoutePair,
) -> (r: Result<(), SdkError>)
    ensures
        (route_family matches Some(f) && f != address_family) ==> invalid_input_is(r, "Address family ("@ + family_label(address_family)
            + ") does not match the selected route's chain ("@ + route.chain@ + ")."@),
        !(route_family matches Some(f) && f != address_family) ==> r is Ok,
{
    if let Some(f) = route_family {
        if f != address_family {
            return Err(
                SdkError::InvalidInput(
                    String::from_str("Address family (").concat(address_family_label(address_family)).concat(
                        ") does not match the selected route's chain (",
                    ).concat(route.chain.as_str()).concat(")."),
                ),
            );
        }
    }
    Ok(())
}

/// Whether two addresses of a family name the same account: EVM addresses
/// compare without regard to ASCII case (hex), base58 ones exactly.
pub open spec fn same_address(family: CrossChainAddressFamily, a: Seq<char>, b: Seq<char>) -> bool {
    match family {
        CrossChainAddressFamily::Evm => eq_ignore_case(a, b),
        _ => a == b,
    }
}

/// Decides whether two addresses of a family name the same account.
pub fn addresses_equal(family: CrossChainAddressFamily, a: &str, b: &str) -> (r: bool)
    ensures
        r == same_address(family, a@, b@),
{
    match family {
        CrossChainAddressFamily::Evm => eq_ignore_ascii_case(a, b),
        _ => str_eq(a, b),
    }
}

/// The message rejecting a recipient that is a token contract.
pub open spec fn contract_recipient_text(asset: Seq<char>, chain: Seq<char>) -> Seq<char> {
    "Recipient address is the "@ + asset + " token contract on "@ + chain
        + ". Funds sent to a token contract cannot be recovered. Use the wallet address of the recipient instead."@
}

/// Rejects a recipient that is one of the known token contracts
/// `(contract_address, asset, chain)`; the message names the first match.
pub fn validate_recipient_not_contract_address(
    address: &str,
    address_family: CrossChainAddressFamily,
    known_contracts: &[(String, String, String)],
) -> (r: Result<(), SdkError>)
    ensures
        r is Ok <==> forall|i: int| 0 <= i < known_contracts@.len() ==> !same_address(
            address_family,
            #[trigger] known_contracts@[i].0@,
            address@,
        ),
        r is Err ==> exists|i: int| {
            &&& 0 <= i < known_contracts@.len()
            &&& same_address(address_family, #[trigger] known_contracts@[i].0@, address@)
            &&& forall|j: int| 0 <= j < i ==> !same_address(address_family, #[trigger] known_contracts@[j].0@, address@)
            &&& invalid_input_is(r, contract_recipient_text(known_contracts@[i].1@, known_contracts@[i].2@))
        },
{
    let mut i: usize = 0;
    while i < known_contracts.len()
        invariant
            i <= known_contracts@.len(),
            forall|j: int| 0 <= j < i ==> !same_address(address_family, #[trigger] known_contracts@[j].0@, address@),
        decreases known_contracts.len() - i,
    {
        let (contract, asset, chain) = &known_contracts[i];
        if addresses_equal(address_family, contract.as_str(), address) {
            let m = String::from_str("Recipient address is the ").concat(asset.as_str()).concat(
                " token contract on ",
            ).concat(chain.as_str()).concat(
                ". Funds sent to a token contract cannot be recovered. Use the wallet address of the recipient instead.",
            );
            let r = Err(SdkError::InvalidInput(m));
            proof {
                assert(same_address(address_family, known_contracts@[i as int].0@, address@));
            }
            return r;
        }
        i = i + 1;
    }
    Ok(())
}

/// The token contracts to screen a recipient against, as
/// `(contract_address, asset, chain)`: those of every listed route, then the
/// selected route's, each route without a contract contributing nothing.
pub open spec fn contracts_of(routes: Seq<CrossChainRoutePair>) -> Seq<(Seq<char>, Seq<char>, Seq<char>)>
    decreases routes.len(),
{
    if routes.len() == 0 {
        Seq::empty()
    } else {
        let last = routes.last();
        let rest = contracts_of(routes.drop_last());
        match last.contract_address {
            Some(c) => rest.push((c@, last.asset@, last.chain@)),
            None => rest,
        }
    }
}

/// The token contracts to screen a recipient against, drawn from the route
/// listing `listed` (empty when it could not be fetched) plus the selected
/// route itself.
pub fn known_token_contracts(listed: Vec<CrossChainRoutePair>, route: &CrossChainRoutePair) -> (r: Vec<(String, String, String)>)
    ensures
        r@.map_values(|t: (String, String, String)| (t.0@, t.1@, t.2@)) == contracts_of(listed@.push(*route)),
{
    let mut out: Vec<(String, String, String)> = Vec::new();
    let mut i: usize = 0;
    while i < listed.len()
        invariant
            i <= listed@.len(),
            out@.map_values(|t: (String, String, String)| (t.0@, t.1@, t.2@)) == contracts_of(listed@.take(i as int)),
        decreases listed.len() - i,
    {
        let r = &listed[i];
        proof { assert(listed@.take(i + 1).drop_last() =~= listed@.take(i as int)); }
        if let Some(c) = &r.contract_address {
            out.push((c.clone(), r.asset.clone(), r.chain.clone()));
        }
        proof {
            assert(out@.map_values(|t: (String, String, String)| (t.0@, t.1@, t.2@)) =~= contracts_of(
                listed@.take(i + 1),
            ));
        }
        i = i + 1;
    }
    if let Some(c) = &route.contract_address {
        out.push((c.clone(), route.asset.clone(), route.chain.clone()));
    }
    proof {
        assert(listed@.take(listed@.len() as int) =~= listed@);
        assert(listed@.push(*route).drop_last() =~= listed@);
        assert(out@.map_values(|t: (String, String, String)| (t.0@, t.1@, t.2@)) =~= contracts_of(
            listed@.push(*route),
        ));
    }
    out
}

/// Resolves the slippage basis points for the provider leg: the request's
/// value when given (which must lie in the allowed band), else the configured
/// default, else the built-in default.
pub fn resolve_slippage_bps(requested: Option<u32>, config_default: Option<u32>) -> (r: Result<u32, SdkError>)
    ensures
        match requested {
            Some(b) if b < MIN_CROSS_CHAIN_SLIPPAGE_BPS || b > MAX_CROSS_CHAIN_SLIPPAGE_BPS => r matches Err(
                SdkError::InvalidInput(m),
            ) && m@ == bps_range_text(
                "max_slippage_bps"@,
                b,
                MIN_CROSS_CHAIN_SLIPPAGE_BPS,
                MAX_CROSS_CHAIN_SLIPPAGE_BPS,
            ),
            Some(b) => r == Ok::<u32, SdkError>(b),
            None => r == Ok::<u32, SdkError>(
                match config_default {
                    Some(c) => c,
                    None => DEFAULT_CROSS_CHAIN_SLIPPAGE_BPS,
                },
            ),
        },
{
    if let Some(bps) = requested {
        if bps < MIN_CROSS_CHAIN_SLIPPAGE_BPS || bps > MAX_CROSS_CHAIN_SLIPPAGE_BPS {
            return Err(
                SdkError::InvalidInput(
                    bps_range_message(
                        "max_slippage_bps",
                        bps,
                        MIN_CROSS_CHAIN_SLIPPAGE_BPS,
                        MAX_CROSS_CHAIN_SLIPPAGE_BPS,
                    ),
                ),
            );
        }
        return Ok(bps);
    }
    match config_default {
        Some(c) => Ok(c),
        None => Ok(DEFAULT_CROSS_CHAIN_SLIPPAGE_BPS),
    }
}

/// Pads a sats-denominated order for `FeesExcluded` by `overpay_bps`;
/// `FeesIncluded` and zero basis points pass the amount through.
pub fn resolve_direct_overpay_amount(amount: u128, fee_policy: FeePolicy, overpay_bps: u32) -> (r: u128)
    ensures
        r == (if overpay_bps == 0 || fee_policy == FeePolicy::FeesIncluded {
            amount
        } else {
            spec_inflate(amount, overpay_bps)
        }),
{
    if overpay_bps == 0 || fee_policy == FeePolicy::FeesIncluded {
        return amount;
    }
    inflate_target_amount(amount, overpay_bps)
}

} // verus!
