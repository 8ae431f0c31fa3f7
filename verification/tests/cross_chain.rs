use breez_cross_chain::cross_chain::{
    check_deposit_address_family, compute_terminal_fee_amount, inflate_target_amount, is_usd_stable_asset,
    payment_with_conversion_info, rescale_decimals, resolve_target_overpay_bps, DEFAULT_TARGET_OVERPAY_BPS,
    MAX_TARGET_OVERPAY_BPS,
};
use breez_cross_chain::error::SdkError;
use breez_cross_chain::models::{
    ConversionInfo, ConversionStatus, CrossChainAddressFamily, CrossChainFeeMode, CrossChainProvider, DeliveryMethod,
    FeePolicy, Payment, PaymentDetails, PaymentMethod, PaymentStatus, PaymentType,
};

#[test]
fn rescale_decimals_scales_both_ways() {
    assert_eq!(rescale_decimals(100_000_000, 8, 6).unwrap(), 1_000_000);
    assert_eq!(rescale_decimals(123_456_789, 6, 6).unwrap(), 123_456_789);
    assert_eq!(rescale_decimals(1_000_000, 6, 8).unwrap(), 100_000_000);
    assert_eq!(rescale_decimals(0, 8, 6).unwrap(), 0);
    assert_eq!(rescale_decimals(0, 6, 8).unwrap(), 0);
    assert!(matches!(rescale_decimals(u128::MAX, 6, 8), Err(SdkError::Generic(ref m)) if m == "Cross-chain: decimal rescale overflow"));
    assert!(matches!(rescale_decimals(1, 0, 60), Err(SdkError::Generic(ref m)) if m == "Cross-chain: decimal scale overflow"));
}

#[test]
fn is_usd_stable_asset_recognizes_known_stables_only() {
    for ticker in ["USDB", "USDC", "USDT", "USDT0", "usdb", "uSdC"] {
        assert!(is_usd_stable_asset(ticker), "{ticker} should be stable");
    }
    for ticker in ["BTC", "ETH", "DAI", "", "USD"] {
        assert!(!is_usd_stable_asset(ticker), "{ticker} should not be stable");
    }
}

#[test]
fn compute_terminal_fee_overwrites_estimate_only_when_realized() {
    assert_eq!(compute_terminal_fee_amount(&ConversionStatus::Completed, Some(1_020_434), Some(997_498), Some(20_434)), Some(22_936));
    assert_eq!(compute_terminal_fee_amount(&ConversionStatus::Refunded, Some(1_020_434), None, Some(20_434)), Some(20_434));
    assert_eq!(compute_terminal_fee_amount(&ConversionStatus::Failed, Some(1_020_434), None, Some(20_434)), Some(20_434));
    assert_eq!(compute_terminal_fee_amount(&ConversionStatus::Completed, None, Some(997_498), Some(20_434)), Some(20_434));
    assert_eq!(compute_terminal_fee_amount(&ConversionStatus::Completed, Some(1_020_434), None, Some(20_434)), Some(20_434));
    assert_eq!(compute_terminal_fee_amount(&ConversionStatus::Completed, Some(1_000_000), Some(1_005_000), Some(0)), Some(0));
}

#[test]
fn resolve_target_overpay_prefers_request_then_config_then_default() {
    assert_eq!(resolve_target_overpay_bps(Some(50), Some(75)).unwrap(), 50);
    assert_eq!(resolve_target_overpay_bps(None, Some(75)).unwrap(), 75);
    assert_eq!(resolve_target_overpay_bps(None, None).unwrap(), DEFAULT_TARGET_OVERPAY_BPS);
    assert_eq!(resolve_target_overpay_bps(Some(0), Some(50)).unwrap(), 0);
    assert!(matches!(resolve_target_overpay_bps(Some(MAX_TARGET_OVERPAY_BPS + 1), None), Err(SdkError::InvalidInput(_))));
}

#[test]
fn inflate_target_amount_applies_the_pad() {
    assert_eq!(inflate_target_amount(1_000_000, 0), 1_000_000);
    assert_eq!(inflate_target_amount(1_000_000, 25), 1_002_500);
    assert_eq!(inflate_target_amount(100, 25), 100);
}

fn boltz_info(swap_id: &str) -> ConversionInfo {
    ConversionInfo::Boltz {
        swap_id: swap_id.to_string(),
        invoice: "lnbc1".to_string(),
        invoice_amount_sats: 1_000,
        bridge_ref: None,
        max_slippage_bps: 100,
        quote_degraded: false,
        chain: "polygon".to_string(),
        chain_id: None,
        asset: "USDC".to_string(),
        recipient_address: "0xabc".to_string(),
        estimated_out: 1_000_000,
        delivered_amount: None,
        status: ConversionStatus::Pending,
        asset_amount_in: None,
        fee_amount: None,
        service_fee_amount: None,
        service_fee_asset: None,
        asset_decimals: 6,
        asset_contract: None,
    }
}

#[test]
fn payment_with_conversion_info_fills_the_slot_or_passes_through() {
    let spark = Payment {
        id: "p1".to_string(),
        payment_type: PaymentType::Send,
        status: PaymentStatus::Pending,
        amount: 1_000,
        fees: 0,
        timestamp: 100,
        method: PaymentMethod::Spark,
        details: Some(PaymentDetails::Spark { invoice_details: None, htlc_details: None, conversion_info: None }),
        conversion_details: None,
    };
    let out = payment_with_conversion_info(spark, Some(boltz_info("swap1")));
    assert_eq!(out.status, PaymentStatus::Pending);
    assert!(matches!(
        out.details,
        Some(PaymentDetails::Spark { conversion_info: Some(ConversionInfo::Boltz { ref swap_id, .. }), .. }) if swap_id == "swap1"
    ));

    let withdraw = Payment {
        id: "p2".to_string(),
        payment_type: PaymentType::Send,
        status: PaymentStatus::Completed,
        amount: 1_000,
        fees: 0,
        timestamp: 100,
        method: PaymentMethod::Withdraw,
        details: Some(PaymentDetails::Withdraw { tx_id: "tx1".to_string() }),
        conversion_details: None,
    };
    let out = payment_with_conversion_info(withdraw, Some(boltz_info("swap1")));
    assert!(matches!(out.details, Some(PaymentDetails::Withdraw { ref tx_id }) if tx_id == "tx1"));
}

#[test]
fn display_names_are_human_readable() {
    assert_eq!(DeliveryMethod::Spark.display_name(), "Spark");
    assert_eq!(DeliveryMethod::Lightning.display_name(), "Lightning");
    assert_eq!(DeliveryMethod::Bitcoin.display_name(), "Bitcoin");
    assert_eq!(CrossChainProvider::Orchestra.display_name(), "Orchestra");
}

#[test]
fn a_fee_policy_selects_the_fee_mode() {
    assert_eq!(CrossChainFeeMode::from(FeePolicy::FeesIncluded), CrossChainFeeMode::FeesIncluded);
    assert_eq!(CrossChainFeeMode::from(FeePolicy::FeesExcluded), CrossChainFeeMode::FeesExcluded);
}

#[test]
fn deposit_addresses_must_match_the_route_family() {
    assert_eq!(
        check_deposit_address_family("0x00Df", "arbitrum", Some(CrossChainAddressFamily::Evm), true).unwrap(),
        CrossChainAddressFamily::Evm
    );
    assert_eq!(
        check_deposit_address_family("not-an-address", "arbitrum", None, false).unwrap_err(),
        SdkError::Generic("Cross-chain provider returned unrecognised deposit address: not-an-address".to_string())
    );
    match check_deposit_address_family("0x00Df", "solana", Some(CrossChainAddressFamily::Evm), false).unwrap_err() {
        SdkError::Generic(msg) => {
            assert_eq!(msg, "Cross-chain provider returned Evm deposit address for solana route");
        }
        other => panic!("unexpected: {other:?}"),
    }
}
