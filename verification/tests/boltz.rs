use breez_cross_chain::cross_chain::boltz::{
    build_send_prepared, check_send_request, destination_to_route_pair, fees_included_amount_error,
    fees_included_real_invoice_sats, route_matches_address_details, send_conversion_info, settled_payment,
    target_destination_u64, validate_ln_fee_did_not_drift, validate_quote_expiry, validate_quote_expiry_at,
    BoltzError, CreatedSwap, DestinationOption, PreparedSwap,
};
use breez_cross_chain::error::{SdkError, StorageError};
use breez_cross_chain::models::{
    ConversionInfo, ConversionStatus, CrossChainAcceptedAsset, CrossChainFeeMode, CrossChainProvider,
    CrossChainProviderContext, CrossChainRoutePair, DeliveryMethod, Payment, PaymentMethod, PaymentStatus,
    PaymentType, SparkAsset,
};

const CONTRACT_A: &str = "0x1111111111111111111111111111111111111111";
const CONTRACT_B: &str = "0x2222222222222222222222222222222222222222";

fn destination(label: &str, asset: &str, evm_chain_id: Option<u64>, token: Option<&str>) -> DestinationOption {
    DestinationOption {
        chain_label: label.to_string(),
        evm_chain_id,
        asset: asset.to_string(),
        dest_token_address: token.map(str::to_string),
    }
}

fn route_pair(chain: &str, contract: Option<&str>) -> CrossChainRoutePair {
    CrossChainRoutePair {
        provider: CrossChainProvider::Boltz,
        chain: chain.to_string(),
        chain_id: None,
        asset: "USDC".to_string(),
        contract_address: contract.map(str::to_string),
        decimals: 6,
        exact_out_eligible: false,
        accepted_assets: vec![CrossChainAcceptedAsset { asset: SparkAsset::Bitcoin, limits: None }],
        delivery_methods: vec![DeliveryMethod::Lightning],
    }
}

#[test]
fn destination_to_pair_maps_evm_chain_id_to_decimal_string() {
    let pair = destination_to_route_pair(&destination("Polygon PoS", "USDT0", Some(137), Some("0xtoken")));
    assert_eq!(pair.provider, CrossChainProvider::Boltz);
    assert_eq!(pair.chain_id, Some("137".to_string()));
    assert_eq!(pair.chain, "Polygon PoS");
    assert_eq!(pair.asset, "USDT0");
    assert_eq!(pair.contract_address.as_deref(), Some("0xtoken"));
    assert_eq!(pair.decimals, 6);
    assert!(!pair.exact_out_eligible);
    assert_eq!(pair.delivery_methods, vec![DeliveryMethod::Lightning]);
    assert!(pair.accepts_asset(&SparkAsset::Bitcoin));
}

#[test]
fn destination_to_pair_preserves_none_for_non_evm_transports() {
    let pair = destination_to_route_pair(&destination("Solana", "USDT", None, None));
    assert_eq!(pair.chain_id, None);
}

#[test]
fn route_filter_keeps_only_matching_contract() {
    let wanted = Some(CONTRACT_A.to_string());
    assert!(route_matches_address_details(&route_pair("Base", Some(CONTRACT_A)), &wanted, true));
    assert!(!route_matches_address_details(&route_pair("Base", Some(CONTRACT_B)), &wanted, true));
    assert!(route_matches_address_details(&route_pair("Base", Some(CONTRACT_B)), &None, true));
    assert!(!route_matches_address_details(&route_pair("Base", Some(CONTRACT_A)), &None, false));
}

#[test]
fn fees_included_real_invoice_sats_subtracts_probe_fee() {
    assert_eq!(fees_included_real_invoice_sats(10_000, 250).unwrap(), 9_750);
}

#[test]
fn fees_included_real_invoice_sats_rejects_when_fee_eats_budget() {
    match fees_included_real_invoice_sats(500, 500).unwrap_err() {
        SdkError::InvalidInput(msg) => {
            assert_eq!(msg, "Amount too small for cross-chain send: 500 sats <= LN fee 500 sats.")
        }
        other => panic!("expected InvalidInput, got {other:?}"),
    }
    assert!(matches!(fees_included_real_invoice_sats(100, 250), Err(SdkError::InvalidInput(_))));
}

#[test]
fn validate_ln_fee_did_not_drift_accepts_equal_or_lower_final() {
    assert!(validate_ln_fee_did_not_drift(250, 250).is_ok());
    assert!(validate_ln_fee_did_not_drift(250, 100).is_ok());
}

#[test]
fn validate_ln_fee_did_not_drift_rejects_increase_with_actionable_message() {
    match validate_ln_fee_did_not_drift(250, 300).unwrap_err() {
        SdkError::Generic(msg) => assert_eq!(
            msg,
            "Boltz LN fee increased between prepare queries (probe: 250 sats, final: 300 sats). Please retry."
        ),
        other => panic!("expected Generic, got {other:?}"),
    }
}

#[test]
fn validate_quote_expiry_accepts_future_unix_secs() {
    assert!(validate_quote_expiry("99999999999").is_ok());
    assert!(validate_quote_expiry_at("1000", 999).is_ok());
}

#[test]
fn validate_quote_expiry_rejects_past_unix_secs() {
    let err = validate_quote_expiry("1000000000").unwrap_err();
    assert!(matches!(err, SdkError::InvalidInput(ref m) if m.contains("expired")));
    assert!(validate_quote_expiry_at("1000", 1000).is_err());
}

#[test]
fn boltz_quote_expiry_rejects_malformed() {
    let err = validate_quote_expiry("not-a-number").unwrap_err();
    assert!(matches!(err, SdkError::Generic(ref m) if m.starts_with("Boltz: invalid expires_at \"not-a-number\": ")));
}

#[test]
fn boltz_errors_surface_with_their_kind() {
    assert_eq!(
        SdkError::from_boltz_error(BoltzError::Api { reason: "bad".to_string(), code: Some(429) }),
        SdkError::NetworkError("Boltz API: bad (code: 429)".to_string())
    );
    assert_eq!(
        SdkError::from_boltz_error(BoltzError::Store("io".to_string())),
        SdkError::StorageError("Boltz store: io".to_string())
    );
    assert_eq!(
        SdkError::from_boltz_error(BoltzError::Other { message: "odd".to_string() }),
        SdkError::Generic("Boltz: odd".to_string())
    );
    assert_eq!(
        SdkError::from_boltz_error(BoltzError::Rejected { message: "quote expired".to_string() }),
        SdkError::InvalidInput("quote expired".to_string())
    );
}

#[test]
fn a_too_small_real_invoice_is_explained_in_the_callers_terms() {
    let e = fees_included_amount_error(
        BoltzError::AmountOutOfRange { min: 25_000, message: "below min".to_string() },
        20_000,
        300,
        19_700,
    );
    assert_eq!(
        e,
        SdkError::InvalidInput(
            "Amount 20000 sats too small for cross-chain send: after subtracting LN fee (300 sats), \
             the remaining invoice (19700 sats) is below Boltz minimum (25000 sats)."
                .to_string()
        )
    );
    assert_eq!(
        fees_included_amount_error(BoltzError::WebSocket("down".to_string()), 1, 1, 1),
        SdkError::NetworkError("Boltz WebSocket: down".to_string())
    );
}

#[test]
fn send_requests_are_checked_in_order() {
    let route = route_pair("Base", Some(CONTRACT_A));
    assert!(matches!(
        check_send_request(&route, 1_000, Some(DeliveryMethod::Spark), &None, 100, true, 500),
        Err(SdkError::InvalidInput(ref m)) if m == "Boltz routes can only be funded over Lightning"
    ));
    assert!(matches!(
        check_send_request(&route, 1_000, None, &Some("btkn1".to_string()), 100, true, 500),
        Err(SdkError::InvalidInput(ref m)) if m == "Boltz does not support token sends"
    ));
    assert!(matches!(
        check_send_request(&route, u128::from(u64::MAX) + 1, None, &None, 100, true, 500),
        Err(SdkError::InvalidInput(ref m)) if m.ends_with("exceeds u64::MAX sats for Boltz reverse swap")
    ));
    assert!(matches!(
        check_send_request(&route, 1_000, None, &None, 100, false, 500),
        Err(SdkError::InvalidInput(ref m)) if m == "Boltz does not support asset 'USDC' on Base"
    ));
    assert!(matches!(
        check_send_request(&route, 1_000, None, &None, 600, true, 500),
        Err(SdkError::InvalidInput(ref m)) if m == "max_slippage_bps 600 exceeds Boltz maximum 500"
    ));
    assert_eq!(check_send_request(&route, 1_000, Some(DeliveryMethod::Lightning), &None, 100, true, 500).unwrap(), 1_000);
}

#[test]
fn a_prepared_send_carries_the_spread_and_the_fee_budget() {
    let route = route_pair("Base", Some(CONTRACT_A));
    let prepared = PreparedSwap { estimated_onchain_amount: 9_500, output_amount: 6_000_000, slippage_bps: 50, expires_at: 1_700_000_000 };
    let created = CreatedSwap { swap_id: "s1".to_string(), invoice: "lnbc1".to_string(), invoice_amount_sats: 10_000 };
    let p = build_send_prepared(&route, "0xrecipient", &prepared, created, 25, 6_100_000, None, CrossChainFeeMode::FeesExcluded);
    assert_eq!(p.amount_in, 10_000);
    assert_eq!(p.service_fee_amount, 500);
    assert_eq!(p.fee_amount, 100_000);
    assert_eq!(p.estimated_out, 6_000_000);
    assert_eq!(p.source_transfer_fee_sats, 25);
    assert_eq!(p.expires_at, "1700000000");
    assert_eq!(
        p.provider_context,
        CrossChainProviderContext::Boltz { swap_id: "s1".to_string(), invoice: "lnbc1".to_string(), invoice_amount_sats: 10_000, max_slippage_bps: 50 }
    );
    let info = send_conversion_info(&p, "s1".to_string(), "lnbc1".to_string(), 10_000, 50);
    assert!(matches!(info, ConversionInfo::Boltz { status: ConversionStatus::Pending, fee_amount: Some(100_000), .. }));
}

#[test]
fn the_destination_target_must_fit_in_u64() {
    assert_eq!(target_destination_u64(6_000_000).unwrap(), 6_000_000);
    assert!(matches!(
        target_destination_u64(u128::from(u64::MAX) + 1),
        Err(SdkError::Generic(ref m)) if m.ends_with("exceeds u64")
    ));
}

fn stored_payment(status: PaymentStatus) -> Payment {
    Payment {
        id: "pay".to_string(),
        payment_type: PaymentType::Send,
        status,
        amount: 1,
        fees: 0,
        timestamp: 0,
        method: PaymentMethod::Lightning,
        details: None,
        conversion_details: None,
    }
}

#[test]
fn the_send_waits_until_the_payment_settles() {
    assert!(settled_payment("pay", Ok(stored_payment(PaymentStatus::Pending))).unwrap().is_none());
    assert!(settled_payment("pay", Ok(stored_payment(PaymentStatus::Completed))).unwrap().is_some());
    assert_eq!(
        settled_payment("pay", Err(StorageError::NotFound)).unwrap_err(),
        SdkError::Generic("Failed to fetch Boltz payment pay: Not found".to_string())
    );
}
