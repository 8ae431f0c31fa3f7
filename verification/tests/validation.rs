use breez_cross_chain::cross_chain::{DEFAULT_CROSS_CHAIN_SLIPPAGE_BPS, MAX_CROSS_CHAIN_SLIPPAGE_BPS, MIN_CROSS_CHAIN_SLIPPAGE_BPS};
use breez_cross_chain::error::SdkError;
use breez_cross_chain::models::{
    BitcoinNetwork, ConversionOptions, ConversionType, CrossChainAcceptedAsset, CrossChainAddressFamily,
    CrossChainProvider, CrossChainRoutePair, DeliveryMethod, FeePolicy, SparkAsset, SparkInvoiceDetails,
};
use breez_cross_chain::sdk::validation::{
    addresses_equal, known_token_contracts, resolve_direct_overpay_amount, resolve_slippage_bps,
    validate_address_family_against_route, validate_amount, validate_fee_policy_for_conversion,
    validate_recipient_not_contract_address, validate_spark_invoice_payable_at,
};

fn from_bitcoin_options() -> ConversionOptions {
    ConversionOptions { conversion_type: ConversionType::FromBitcoin, max_slippage_bps: None, completion_timeout_secs: None }
}

fn to_bitcoin_options() -> ConversionOptions {
    ConversionOptions {
        conversion_type: ConversionType::ToBitcoin { from_token_identifier: "token123".to_string() },
        max_slippage_bps: None,
        completion_timeout_secs: None,
    }
}

#[test]
fn test_validate_amount_zero() {
    match validate_amount(Some(0)) {
        Err(SdkError::InvalidInput(msg)) => assert!(msg.contains("must be greater than 0")),
        other => panic!("Expected InvalidInput error, got {other:?}"),
    }
}

#[test]
fn test_validate_amount_none_and_positive_ok() {
    assert!(validate_amount(None).is_ok());
    assert!(validate_amount(Some(1)).is_ok());
}

#[test]
fn test_validate_fees_included_with_from_bitcoin_conversion_fails() {
    match validate_fee_policy_for_conversion(Some(FeePolicy::FeesIncluded), Some(&from_bitcoin_options())) {
        Err(SdkError::InvalidInput(msg)) => {
            assert!(msg.contains("FeesIncluded cannot be combined with FromBitcoin conversion"))
        }
        other => panic!("Expected InvalidInput error, got {other:?}"),
    }
}

#[test]
fn test_validate_fees_included_with_to_bitcoin_conversion_succeeds() {
    assert!(validate_fee_policy_for_conversion(Some(FeePolicy::FeesIncluded), Some(&to_bitcoin_options())).is_ok());
    assert!(validate_fee_policy_for_conversion(Some(FeePolicy::FeesIncluded), None).is_ok());
}

#[test]
fn resolve_slippage_prefers_request_then_config_then_default() {
    assert_eq!(resolve_slippage_bps(Some(50), Some(200)).unwrap(), 50);
    assert_eq!(resolve_slippage_bps(None, Some(200)).unwrap(), 200);
    assert_eq!(resolve_slippage_bps(None, None).unwrap(), DEFAULT_CROSS_CHAIN_SLIPPAGE_BPS);
    let too_low = MIN_CROSS_CHAIN_SLIPPAGE_BPS - 1;
    match resolve_slippage_bps(Some(too_low), None).unwrap_err() {
        SdkError::InvalidInput(msg) => assert!(msg.contains(&too_low.to_string()), "{msg}"),
        other => panic!("expected InvalidInput, got {other:?}"),
    }
    assert!(matches!(resolve_slippage_bps(Some(MAX_CROSS_CHAIN_SLIPPAGE_BPS + 1), None), Err(SdkError::InvalidInput(_))));
}

#[test]
fn resolve_direct_overpay_pads_only_fees_excluded() {
    assert_eq!(resolve_direct_overpay_amount(1_000_000, FeePolicy::FeesExcluded, 25), 1_002_500);
    assert_eq!(resolve_direct_overpay_amount(1_000_000, FeePolicy::FeesIncluded, 25), 1_000_000);
    assert_eq!(resolve_direct_overpay_amount(1_000_000, FeePolicy::FeesExcluded, 0), 1_000_000);
}

fn route_with_contract(chain: &str, contract: Option<&str>) -> CrossChainRoutePair {
    CrossChainRoutePair {
        provider: CrossChainProvider::Orchestra,
        chain: chain.to_string(),
        chain_id: None,
        asset: "USDC".to_string(),
        contract_address: contract.map(str::to_string),
        decimals: 6,
        exact_out_eligible: false,
        accepted_assets: vec![CrossChainAcceptedAsset { asset: SparkAsset::Bitcoin, limits: None }],
        delivery_methods: vec![DeliveryMethod::Spark],
    }
}

#[test]
fn family_check_compares_with_the_routes_family() {
    let route = route_with_contract("base", Some("0x833589fCD6eDb6E08f4c7C32D4f71b54bdA02913"));
    assert!(validate_address_family_against_route(CrossChainAddressFamily::Evm, Some(CrossChainAddressFamily::Evm), &route).is_ok());
    match validate_address_family_against_route(CrossChainAddressFamily::Solana, Some(CrossChainAddressFamily::Evm), &route)
        .unwrap_err()
    {
        SdkError::InvalidInput(msg) => assert!(msg.contains("Solana") && msg.contains("base"), "{msg}"),
        other => panic!("expected InvalidInput, got {other:?}"),
    }
    let native = route_with_contract("base", None);
    assert!(validate_address_family_against_route(CrossChainAddressFamily::Solana, None, &native).is_ok());
}

const USDT_TRON: &str = "TR7NHqjeKQxGTCi8q8ZY4pL8otSzgjLj6t";
const USDC_ARBITRUM: &str = "0xaf88d065e77c8cC2239327C5EDb3A432268e5831";
const USDC_BASE: &str = "0x833589fCD6eDb6E08f4c7C32D4f71b54bdA02913";

fn contracts(triples: &[(&str, &str, &str)]) -> Vec<(String, String, String)> {
    triples.iter().map(|(c, a, ch)| ((*c).to_string(), (*a).to_string(), (*ch).to_string())).collect()
}

#[test]
fn contract_check_rejects_known_contracts() {
    match validate_recipient_not_contract_address(USDT_TRON, CrossChainAddressFamily::Tron, &contracts(&[(USDT_TRON, "USDT", "tron")]))
        .unwrap_err()
    {
        SdkError::InvalidInput(msg) => assert!(msg.contains("USDT") && msg.contains("tron")),
        other => panic!("expected InvalidInput, got {other:?}"),
    }
    let err = validate_recipient_not_contract_address(
        USDC_ARBITRUM,
        CrossChainAddressFamily::Evm,
        &contracts(&[(USDC_BASE, "USDC", "base"), (USDC_ARBITRUM, "USDC", "arbitrum")]),
    )
    .unwrap_err();
    assert!(matches!(err, SdkError::InvalidInput(ref m) if m.contains("arbitrum")));
}

#[test]
fn contract_check_folds_case_only_for_evm() {
    assert!(validate_recipient_not_contract_address(
        &USDC_ARBITRUM.to_lowercase(),
        CrossChainAddressFamily::Evm,
        &contracts(&[(USDC_ARBITRUM, "USDC", "arbitrum")]),
    )
    .is_err());
    assert!(validate_recipient_not_contract_address(
        &USDT_TRON.to_lowercase(),
        CrossChainAddressFamily::Tron,
        &contracts(&[(USDT_TRON, "USDT", "tron")]),
    )
    .is_ok());
    assert!(addresses_equal(CrossChainAddressFamily::Evm, "0xAB", "0xab"));
    assert!(!addresses_equal(CrossChainAddressFamily::Tron, "TAB", "Tab"));
}

#[test]
fn contract_check_allows_wallets_and_empty_lists() {
    assert!(validate_recipient_not_contract_address(
        "0x9d9089eE0D37EF0815336de64FbBCB8a99da8344",
        CrossChainAddressFamily::Evm,
        &contracts(&[(USDC_ARBITRUM, "USDC", "arbitrum")]),
    )
    .is_ok());
    assert!(validate_recipient_not_contract_address(USDT_TRON, CrossChainAddressFamily::Tron, &[]).is_ok());
}

#[test]
fn known_contracts_include_the_selected_route() {
    let listed = vec![route_with_contract("base", Some(USDC_BASE)), route_with_contract("solana", None)];
    let selected = route_with_contract("arbitrum", Some(USDC_ARBITRUM));
    let known = known_token_contracts(listed, &selected);
    assert!(known.contains(&(USDC_BASE.to_string(), "USDC".to_string(), "base".to_string())));
    assert!(known.contains(&(USDC_ARBITRUM.to_string(), "USDC".to_string(), "arbitrum".to_string())));
    assert_eq!(known.len(), 2);
}

fn invoice(expiry: Option<u64>, sender: Option<&str>) -> SparkInvoiceDetails {
    SparkInvoiceDetails {
        invoice: "spark1inv".to_string(),
        identity_public_key: "02receiver".to_string(),
        network: BitcoinNetwork::Bitcoin,
        amount: None,
        token_identifier: None,
        expiry_time: expiry,
        description: None,
        sender_public_key: sender.map(str::to_string),
    }
}

#[test]
fn a_spark_invoice_is_payable_until_it_expires_and_only_by_its_sender() {
    assert!(validate_spark_invoice_payable_at(&invoice(Some(100), None), "02me", 100).is_ok());
    assert!(matches!(
        validate_spark_invoice_payable_at(&invoice(Some(100), None), "02me", 101),
        Err(SdkError::InvalidInput(ref m)) if m == "Invoice has expired"
    ));
    assert!(validate_spark_invoice_payable_at(&invoice(None, Some("02me")), "02me", 0).is_ok());
    assert!(matches!(
        validate_spark_invoice_payable_at(&invoice(None, Some("02other")), "02me", 0),
        Err(SdkError::InvalidInput(ref m)) if m == "Invoice can only be paid by sender public key 02other"
    ));
}
