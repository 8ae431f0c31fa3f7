use breez_cross_chain::cross_chain::CrossChainSendPrepared;
use breez_cross_chain::error::SdkError;
use breez_cross_chain::models::{
    ConversionEstimate, ConversionOptions, ConversionType, CrossChainAcceptedAsset, CrossChainFeeMode,
    CrossChainProvider, CrossChainProviderContext, CrossChainRoutePair, DeliveryMethod, FeePolicy,
    SendPaymentMethod, SparkAsset, TokenBalance, TokenMetadata,
};
use breez_cross_chain::sdk::prepare_cross_chain::{
    amm_target_sats, build_response, check_token_balance, choose_prepare_path, compute_conversion_overrides,
    decide_cross_chain_source, response_token_identifier, src_token_metadata, token_balance_of, validate_request, validate_route_supports_effective_source,
    CrossChainPreparePath, CrossChainSourceDecision, SrcTokenMetadata,
};

// ---- validate_request ----

#[test]
fn validate_request_rejects_zero_amount() {
    let err = validate_request(0, None).unwrap_err();
    assert!(matches!(err, SdkError::InvalidInput(_)));
}

#[test]
fn validate_request_rejects_from_bitcoin_conversion() {
    let opts = ConversionOptions {
        conversion_type: ConversionType::FromBitcoin,
        max_slippage_bps: None,
        completion_timeout_secs: None,
    };
    let err = validate_request(1000, Some(&opts)).unwrap_err();
    let SdkError::InvalidInput(msg) = err else {
        panic!("expected InvalidInput, got {err:?}");
    };
    assert!(msg.contains("FromBitcoin"));
}

#[test]
fn validate_request_allows_to_bitcoin_conversion() {
    let opts = ConversionOptions {
        conversion_type: ConversionType::ToBitcoin { from_token_identifier: "USDB".to_string() },
        max_slippage_bps: None,
        completion_timeout_secs: None,
    };
    assert!(validate_request(1000, Some(&opts)).is_ok());
}

#[test]
fn validate_request_allows_no_conversion() {
    assert!(validate_request(1000, None).is_ok());
}

// ---- decide_cross_chain_source ----

fn route_with_sources(sources: Vec<SparkAsset>) -> CrossChainRoutePair {
    CrossChainRoutePair {
        provider: CrossChainProvider::Orchestra,
        chain: "base".to_string(),
        chain_id: Some("8453".to_string()),
        asset: "USDC".to_string(),
        contract_address: None,
        decimals: 6,
        exact_out_eligible: false,
        accepted_assets: sources
            .into_iter()
            .map(|asset| CrossChainAcceptedAsset { asset, limits: None })
            .collect(),
        delivery_methods: vec![DeliveryMethod::Spark],
    }
}

#[test]
fn source_resolution_explicit_options_win() {
    let opts = ConversionOptions {
        conversion_type: ConversionType::FromBitcoin,
        max_slippage_bps: None,
        completion_timeout_secs: None,
    };
    let route = route_with_sources(vec![SparkAsset::Bitcoin]);
    let result = decide_cross_chain_source(&route, None, Some(&opts), None, None);
    assert!(matches!(result, CrossChainSourceDecision::UseAsIs(Some(_))));
}

#[test]
fn source_resolution_token_directly_supported() {
    let token = "USDB".to_string();
    let route = route_with_sources(vec![SparkAsset::Token { token_identifier: "USDB".to_string() }]);
    let result = decide_cross_chain_source(&route, Some(&token), None, None, None);
    assert_eq!(result, CrossChainSourceDecision::UseAsIs(None));
}

#[test]
fn source_resolution_auto_inject_to_bitcoin_for_active_stable_token() {
    let token = "USDB".to_string();
    let route = route_with_sources(vec![SparkAsset::Bitcoin]);
    let result = decide_cross_chain_source(&route, Some(&token), None, Some(&token), Some(150));
    match result {
        CrossChainSourceDecision::UseAsIs(Some(opts)) => {
            assert!(matches!(
                opts.conversion_type,
                ConversionType::ToBitcoin { ref from_token_identifier } if from_token_identifier == "USDB"
            ));
            assert_eq!(opts.max_slippage_bps, Some(150));
        }
        other => panic!("expected ToBitcoin auto-inject, got {other:?}"),
    }
}

#[test]
fn source_resolution_token_not_supported_no_stable() {
    let token = "USDC".to_string();
    let route = route_with_sources(vec![SparkAsset::Bitcoin]);
    let other = "USDB".to_string();
    let result = decide_cross_chain_source(&route, Some(&token), None, Some(&other), None);
    assert_eq!(result, CrossChainSourceDecision::UseAsIs(None));
}

#[test]
fn source_resolution_no_token_route_accepts_bitcoin_defers_to_stable() {
    let route = route_with_sources(vec![SparkAsset::Bitcoin]);
    let result = decide_cross_chain_source(&route, None, None, None, None);
    assert_eq!(result, CrossChainSourceDecision::DeferToStableBalance);
}

#[test]
fn source_resolution_no_token_route_token_only() {
    let route = route_with_sources(vec![SparkAsset::Token { token_identifier: "USDB".to_string() }]);
    let result = decide_cross_chain_source(&route, None, None, None, None);
    assert_eq!(result, CrossChainSourceDecision::UseAsIs(None));
}

#[test]
fn source_resolution_explicit_options_override_token_and_stable() {
    let token = "USDB".to_string();
    let explicit = ConversionOptions {
        conversion_type: ConversionType::ToBitcoin { from_token_identifier: "USDC".to_string() },
        max_slippage_bps: Some(75),
        completion_timeout_secs: None,
    };
    let route = route_with_sources(vec![
        SparkAsset::Token { token_identifier: "USDB".to_string() },
        SparkAsset::Bitcoin,
    ]);
    let result = decide_cross_chain_source(&route, Some(&token), Some(&explicit), Some(&token), None);
    match result {
        CrossChainSourceDecision::UseAsIs(Some(opts)) => {
            assert!(matches!(
                opts.conversion_type,
                ConversionType::ToBitcoin { ref from_token_identifier } if from_token_identifier == "USDC"
            ));
            assert_eq!(opts.max_slippage_bps, Some(75));
        }
        other => panic!("explicit options should win; got {other:?}"),
    }
}

#[test]
fn source_resolution_token_directly_supported_wins_over_stable_auto_inject() {
    let token = "USDB".to_string();
    let route = route_with_sources(vec![
        SparkAsset::Token { token_identifier: "USDB".to_string() },
        SparkAsset::Bitcoin,
    ]);
    let result = decide_cross_chain_source(&route, Some(&token), None, Some(&token), Some(150));
    assert_eq!(
        result,
        CrossChainSourceDecision::UseAsIs(None),
        "direct token send should be preferred when supported"
    );
}

#[test]
fn source_resolution_stable_token_but_route_token_only() {
    let token = "USDB".to_string();
    let route = route_with_sources(vec![SparkAsset::Token { token_identifier: "USDC".to_string() }]);
    let result = decide_cross_chain_source(&route, Some(&token), None, Some(&token), Some(150));
    assert_eq!(result, CrossChainSourceDecision::UseAsIs(None));
}

// ---- validate_route_supports_effective_source ----

#[test]
fn validate_effective_source_no_token_no_conversion_route_accepts_bitcoin() {
    let route = route_with_sources(vec![SparkAsset::Bitcoin]);
    assert!(validate_route_supports_effective_source(&route, None, None).is_ok());
}

#[test]
fn validate_effective_source_no_token_no_conversion_route_token_only_errors() {
    let route = route_with_sources(vec![SparkAsset::Token { token_identifier: "USDB".to_string() }]);
    let err = validate_route_supports_effective_source(&route, None, None).unwrap_err();
    let SdkError::InvalidInput(msg) = err else {
        panic!("expected InvalidInput, got {err:?}");
    };
    assert!(
        msg.contains("sats") && msg.contains("USDB"),
        "error should mention 'sats' and list supported token (got: {msg})"
    );
}

#[test]
fn validate_effective_source_token_supported_directly() {
    let token = "USDB".to_string();
    let route = route_with_sources(vec![SparkAsset::Token { token_identifier: "USDB".to_string() }]);
    assert!(validate_route_supports_effective_source(&route, Some(&token), None).is_ok());
}

#[test]
fn validate_effective_source_token_unsupported_errors() {
    let token = "USDC".to_string();
    let route = route_with_sources(vec![
        SparkAsset::Token { token_identifier: "USDB".to_string() },
        SparkAsset::Bitcoin,
    ]);
    let err = validate_route_supports_effective_source(&route, Some(&token), None).unwrap_err();
    let SdkError::InvalidInput(msg) = err else {
        panic!("expected InvalidInput, got {err:?}");
    };
    assert!(
        msg.contains("USDC") && msg.contains("USDB") && msg.contains("sats"),
        "error should mention unsupported token + supported list (got: {msg})"
    );
}

#[test]
fn validate_effective_source_conversion_present_route_must_accept_sats() {
    let token = "USDB".to_string();
    let opts = ConversionOptions {
        conversion_type: ConversionType::ToBitcoin { from_token_identifier: "USDB".to_string() },
        max_slippage_bps: None,
        completion_timeout_secs: None,
    };
    let route = route_with_sources(vec![SparkAsset::Bitcoin]);
    assert!(
        validate_route_supports_effective_source(&route, Some(&token), Some(&opts)).is_ok(),
        "conversion -> sats should pass when route accepts sats"
    );
}

#[test]
fn validate_effective_source_conversion_present_but_route_token_only_errors() {
    let token = "USDB".to_string();
    let opts = ConversionOptions {
        conversion_type: ConversionType::ToBitcoin { from_token_identifier: "USDB".to_string() },
        max_slippage_bps: None,
        completion_timeout_secs: None,
    };
    let route = route_with_sources(vec![SparkAsset::Token { token_identifier: "USDC".to_string() }]);
    let err = validate_route_supports_effective_source(&route, Some(&token), Some(&opts)).unwrap_err();
    assert!(matches!(err, SdkError::InvalidInput(_)));
}

// ---- compute_conversion_overrides ----

fn estimate_with_amount_in(amount_in: u128, amount_out: u128) -> ConversionEstimate {
    ConversionEstimate {
        options: ConversionOptions {
            conversion_type: ConversionType::ToBitcoin { from_token_identifier: "tok".to_string() },
            max_slippage_bps: None,
            completion_timeout_secs: None,
        },
        amount_in,
        amount_out,
        fee: 0,
        amount_adjustment: None,
    }
}

fn usdb_meta(decimals: u32) -> SrcTokenMetadata {
    SrcTokenMetadata { ticker: "USDB".to_string(), decimals }
}

#[test]
fn compute_overrides_returns_default_when_estimate_is_none() {
    let overrides = compute_conversion_overrides(None, &usdb_meta(6), 6, 1_000_000).expect("pure helper");
    assert!(overrides.amount_in.is_none());
    assert!(overrides.asset_amount_in.is_none());
    assert!(overrides.fee_amount.is_none());
}

#[test]
fn compute_overrides_stable_pair_populates_all_three_fields() {
    let est = estimate_with_amount_in(1_020_434, 1_002_502);
    let overrides = compute_conversion_overrides(Some(&est), &usdb_meta(6), 6, 1_000_000).unwrap();
    assert_eq!(overrides.amount_in, Some(1_020_434));
    assert_eq!(overrides.asset_amount_in, Some(1_020_434));
    assert_eq!(overrides.fee_amount, Some(20_434));
}

#[test]
fn compute_overrides_rescales_decimals_when_source_dest_differ() {
    let est = estimate_with_amount_in(102_043_400, 0);
    let overrides = compute_conversion_overrides(Some(&est), &usdb_meta(8), 6, 1_000_000).unwrap();
    assert_eq!(overrides.asset_amount_in, Some(1_020_434));
    assert_eq!(overrides.fee_amount, Some(20_434));
}

#[test]
fn compute_overrides_saturating_sub_clamps_when_delivery_over_input() {
    let est = estimate_with_amount_in(1_000_000, 0);
    let overrides = compute_conversion_overrides(Some(&est), &usdb_meta(6), 6, 2_000_000).unwrap();
    assert_eq!(overrides.fee_amount, Some(0), "saturating_sub must clamp at 0 instead of underflowing");
}

#[test]
fn compute_overrides_scales_up_when_destination_has_more_decimals() {
    let est = estimate_with_amount_in(1_020_434, 0);
    let overrides = compute_conversion_overrides(Some(&est), &usdb_meta(6), 8, 100_000_000).unwrap();
    assert_eq!(overrides.amount_in, Some(1_020_434));
    assert_eq!(overrides.asset_amount_in, Some(102_043_400));
    assert_eq!(overrides.fee_amount, Some(2_043_400));
}

// ---- build_response ----

fn mk_prepared(amount_in: u128, source_transfer_fee_sats: u64) -> CrossChainSendPrepared {
    CrossChainSendPrepared {
        amount_in,
        asset_amount_in: amount_in,
        estimated_out: amount_in.saturating_sub(30),
        fee_amount: 30,
        service_fee_amount: 20,
        service_fee_asset: None,
        source_transfer_fee_sats,
        fee_mode: CrossChainFeeMode::FeesExcluded,
        expires_at: "2099-01-01T00:00:00Z".to_string(),
        pair: CrossChainRoutePair {
            provider: CrossChainProvider::Orchestra,
            chain: "base".to_string(),
            chain_id: Some("8453".to_string()),
            asset: "USDC".to_string(),
            contract_address: None,
            decimals: 6,
            exact_out_eligible: false,
            accepted_assets: vec![],
            delivery_methods: vec![],
        },
        recipient_address: "0xabc".to_string(),
        token_identifier: None,
        provider_context: CrossChainProviderContext::Orchestra {
            quote_id: "q1".to_string(),
            deposit_address: "sp1...".to_string(),
            deposit_amount: amount_in,
        },
    }
}

#[test]
fn response_token_identifier_clears_on_to_bitcoin_for_cross_chain() {
    let est = estimate_with_amount_in(1_015_000, 1_050);
    let cleared = response_token_identifier(Some(&est), Some("USDB".to_string()));
    assert!(cleared.is_none());

    let preserved = response_token_identifier(None, Some("USDB".to_string()));
    assert_eq!(preserved, Some("USDB".to_string()));
}

fn extract_cross_chain(method: &SendPaymentMethod) -> (u128, u128, u128, u64) {
    let SendPaymentMethod::CrossChainAddress {
        amount_in, asset_amount_in, fee_amount, source_transfer_fee_sats, ..
    } = method
    else {
        panic!("expected CrossChainAddress");
    };
    (*amount_in, *asset_amount_in, *fee_amount, *source_transfer_fee_sats)
}

#[test]
fn build_response_feesexcluded_orchestra_shape_applies_token_debit_override() {
    let prepared = mk_prepared(1_050, 0);
    let est = estimate_with_amount_in(1_020_000, 1_050);
    let overrides =
        compute_conversion_overrides(Some(&est), &usdb_meta(6), 6, prepared.estimated_out).expect("pure helper");
    let response_token_identifier = response_token_identifier(Some(&est), Some("USDB".to_string()));
    let resp =
        build_response(prepared, 1_050, response_token_identifier, Some(est), FeePolicy::FeesExcluded, &overrides);
    assert_eq!(resp.amount, 1_050, "response.amount = provider invoice");
    assert!(resp.token_identifier.is_none(), "ToBitcoin clears it");
    let (amount_in, asset_amount_in, fee_amount, sttf) = extract_cross_chain(&resp.payment_method);
    assert_eq!(amount_in, 1_020_000, "amount_in = USDB debit");
    assert_eq!(asset_amount_in, 1_020_000, "USDB in USDC base units (parity)");
    assert_eq!(fee_amount, 1_020_000 - 1_020);
    assert_eq!(sttf, 0);
}

#[test]
fn build_response_feesexcluded_boltz_shape_applies_token_debit_override_and_carries_ln_fee() {
    let prepared = mk_prepared(1_050, 25);
    let est = estimate_with_amount_in(1_020_000, 1_075);
    let overrides =
        compute_conversion_overrides(Some(&est), &usdb_meta(6), 6, prepared.estimated_out).expect("pure helper");
    let response_token_identifier = response_token_identifier(Some(&est), Some("USDB".to_string()));
    let resp =
        build_response(prepared, 1_050, response_token_identifier, Some(est), FeePolicy::FeesExcluded, &overrides);
    assert_eq!(resp.amount, 1_050, "response.amount = invoice only");
    assert!(resp.token_identifier.is_none());
    let (amount_in, asset_amount_in, fee_amount, sttf) = extract_cross_chain(&resp.payment_method);
    assert_eq!(amount_in, 1_020_000, "amount_in = USDB debit (override)");
    assert_eq!(asset_amount_in, 1_020_000);
    assert_eq!(fee_amount, 1_020_000 - 1_020);
    assert_eq!(sttf, 25, "LN routing fee carried separately for send-side MinAmountOut expansion");
}

#[test]
fn build_response_feesincluded_conversion_applies_token_debit_override_symmetrically() {
    let prepared = mk_prepared(1_050, 25);
    let est = estimate_with_amount_in(1_020_000, 1_075);
    let overrides =
        compute_conversion_overrides(Some(&est), &usdb_meta(6), 6, prepared.estimated_out).expect("pure helper");
    let response_token_identifier = response_token_identifier(Some(&est), Some("USDB".to_string()));
    let resp =
        build_response(prepared, 1_075, response_token_identifier, Some(est), FeePolicy::FeesIncluded, &overrides);
    assert_eq!(resp.amount, 1_075, "FeesIncluded response.amount = user's gross sats budget");
    assert!(resp.token_identifier.is_none());
    let (amount_in, asset_amount_in, fee_amount, sttf) = extract_cross_chain(&resp.payment_method);
    assert_eq!(amount_in, 1_020_000, "amount_in = USDB debit (override)");
    assert_eq!(asset_amount_in, 1_020_000);
    assert_eq!(fee_amount, 1_020_000 - 1_020);
    assert_eq!(sttf, 25);
}

#[test]
fn build_response_without_overrides_keeps_provider_figures() {
    let prepared = mk_prepared(1_050, 7);
    let overrides = compute_conversion_overrides(None, &usdb_meta(6), 6, prepared.estimated_out).unwrap();
    let resp = build_response(prepared, 1_057, Some("USDB".to_string()), None, FeePolicy::FeesExcluded, &overrides);
    assert_eq!(resp.amount, 1_057);
    assert_eq!(resp.token_identifier, Some("USDB".to_string()));
    assert!(resp.conversion_estimate.is_none());
    let (amount_in, asset_amount_in, fee_amount, sttf) = extract_cross_chain(&resp.payment_method);
    assert_eq!((amount_in, asset_amount_in, fee_amount, sttf), (1_050, 1_050, 30, 7));
}

// ---- smaller decisions ----

#[test]
fn amm_target_adds_the_source_leg_fee_and_saturates() {
    assert_eq!(amm_target_sats(&mk_prepared(1_050, 25)), 1_075);
    assert_eq!(amm_target_sats(&mk_prepared(u128::MAX, 1)), u128::MAX);
}

#[test]
fn prepare_path_follows_conversion_token_and_fee_policy() {
    assert_eq!(choose_prepare_path(false, false, FeePolicy::FeesExcluded), CrossChainPreparePath::SatsDenominated);
    assert_eq!(
        choose_prepare_path(true, false, FeePolicy::FeesIncluded),
        CrossChainPreparePath::SatsDenominatedWithConversion
    );
    assert_eq!(
        choose_prepare_path(true, true, FeePolicy::FeesIncluded),
        CrossChainPreparePath::TokenDenominatedFeesIncluded
    );
    assert_eq!(
        choose_prepare_path(true, true, FeePolicy::FeesExcluded),
        CrossChainPreparePath::TokenDenominatedFeesExcluded
    );
}

#[test]
fn token_balance_must_cover_the_estimated_debit() {
    let est = estimate_with_amount_in(1_000, 0);
    assert!(check_token_balance(Some(&est), 1_000).is_ok());
    assert!(check_token_balance(None, 0).is_ok());
    match check_token_balance(Some(&est), 999) {
        Err(SdkError::InvalidInput(msg)) => assert_eq!(
            msg,
            "Insufficient tok balance for cross-chain conversion: have 999, need 1000 (includes conversion and bridge fees)."
        ),
        other => panic!("expected InvalidInput, got {other:?}"),
    }
}

fn balance(identifier: &str, ticker: &str, decimals: u32) -> TokenBalance {
    TokenBalance {
        balance: 5,
        token_metadata: TokenMetadata {
            identifier: identifier.to_string(),
            issuer_public_key: "02aa".to_string(),
            name: ticker.to_string(),
            ticker: ticker.to_string(),
            decimals,
            max_supply: 1_000_000,
            is_freezable: false,
        },
    }
}

#[test]
fn source_token_metadata_comes_from_the_wallet_balance() {
    let balances = vec![balance("btkn1usdc", "USDC", 6), balance("btkn1usdb", "USDB", 8)];
    let meta = src_token_metadata(&balances, "btkn1usdb").unwrap();
    assert_eq!(meta.ticker, "USDB");
    assert_eq!(meta.decimals, 8);
    match src_token_metadata(&balances, "btkn1none") {
        Err(SdkError::InvalidInput(msg)) => assert_eq!(msg, "Source token btkn1none not found in wallet balances"),
        other => panic!("expected InvalidInput, got {other:?}"),
    }
}

#[test]
fn token_balance_is_zero_for_a_token_the_wallet_does_not_hold() {
    let balances = vec![balance("btkn1usdc", "USDC", 6)];
    assert_eq!(token_balance_of(&balances, "btkn1usdc"), 5);
    assert_eq!(token_balance_of(&balances, "btkn1usdb"), 0);
}
