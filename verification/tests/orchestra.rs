use breez_cross_chain::cross_chain::orchestra::{
    apply_terminal_status, attach_route_limits, closes_receive_row, dedupe_routes, deposit_submit_identity,
    delivery_method_from_wire, delivery_method_to_wire, find_destination_asset_symbol, find_source_asset, find_spark_side, is_expected_no_deposit_error,
    is_invalid_read_token, is_probe_due_at, pad_required_in, parse_amount, parse_rfc3339_to_unix_seconds,
    plan_receive_row, plan_send_poll, resolve_source_asset, proportional_inflation, required_source_from_estimate, route_passes_filters,
    side_to_route_pair, to_route_limits, validate_quote_expiry, validate_quote_expiry_at, verify_quote_amount_in,
    verify_quote_not_drifted, with_status, with_submitted_order, without_read_token, DynamicProviderLimits,
    EstimateResponse, FlashnetError, ModeLimits, OrchestraSwapData, Order, OrderStatus, ProbeClock,
    ReceiveRowStep, RequestAmountLimits, Route, RouteAsset, RouteLimits, RouteWithLimits, SendPollStep,
    StatusResponse, UsdBounds, RECEIVE_EXPIRED_PROBE_SECS,
};
use breez_cross_chain::error::SdkError;
use breez_cross_chain::models::{
    ConversionInfo, ConversionStatus, CrossChainProvider, CrossChainRoutePair, DeliveryMethod, Payment,
    PaymentDetails, PaymentMethod, PaymentStatus, PaymentType, SparkAsset, TokenMetadata, TokenTransactionType,
};

fn ra(chain: &str, asset: &str, contract: Option<&str>) -> RouteAsset {
    RouteAsset {
        chain: chain.to_string(),
        asset: asset.to_string(),
        contract_address: contract.map(str::to_string),
        decimals: 6,
        chain_id: None,
    }
}

fn route(source: RouteAsset, destination: RouteAsset) -> Route {
    Route {
        source_chain: source.chain.clone(),
        source_asset: source.asset.clone(),
        destination_chain: destination.chain.clone(),
        destination_asset: destination.asset.clone(),
        exact_out_eligible: false,
        source,
        destination,
    }
}

fn no_limits() -> RouteLimits {
    RouteLimits { order_notional_usd: None, exact_in: None, dynamic_provider_limits: None }
}

fn unlimited(routes: Vec<Route>) -> Vec<RouteWithLimits> {
    routes.into_iter().map(|route| RouteWithLimits { route, limits: no_limits() }).collect()
}

fn all_families(n: usize) -> Vec<bool> {
    vec![true; n]
}

fn limits(min_amount: Option<&str>, min_usd: &str, max_usd: &str, dynamic: bool) -> RouteLimits {
    RouteLimits {
        order_notional_usd: Some(UsdBounds { min_cents: Some(min_usd.to_string()), max_cents: Some(max_usd.to_string()) }),
        exact_in: Some(ModeLimits {
            supported: true,
            request_amount: Some(RequestAmountLimits {
                min_amount_smallest: min_amount.map(str::to_string),
                max_amount_smallest: None,
                min_usd_cents: Some(min_usd.to_string()),
                max_usd_cents: Some(max_usd.to_string()),
            }),
        }),
        dynamic_provider_limits: Some(DynamicProviderLimits { possible: Some(dynamic) }),
    }
}

fn dedupe(routes: &Vec<RouteWithLimits>, is_send: bool, contract: Option<&str>) -> Vec<CrossChainRoutePair> {
    dedupe_routes(routes, is_send, &all_families(routes.len()), contract)
}

#[test]
fn delivery_method_wire_round_trips_case_insensitively() {
    for chain in [DeliveryMethod::Spark, DeliveryMethod::Lightning, DeliveryMethod::Bitcoin] {
        assert_eq!(delivery_method_from_wire(delivery_method_to_wire(chain)), Some(chain));
    }
    assert_eq!(delivery_method_from_wire("Lightning"), Some(DeliveryMethod::Lightning));
    assert_eq!(delivery_method_from_wire("base"), None);
}

#[test]
fn side_to_pair_passes_through_chain_id() {
    let mut side = ra("base", "USDC", Some("0xA0b86991c6218b36c1d19D4a2e9Eb0cE3606eB48"));
    side.chain_id = Some("8453".to_string());
    let pair = side_to_route_pair(&side, true);
    assert_eq!(pair.provider, CrossChainProvider::Orchestra);
    assert_eq!(pair.chain, "base");
    assert_eq!(pair.chain_id, Some("8453".to_string()));
    assert_eq!(pair.asset, "USDC");
    assert_eq!(pair.decimals, 6);
    assert!(pair.exact_out_eligible);
    assert!(!side_to_route_pair(&ra("solana", "USDC", None), false).exact_out_eligible);
}

#[test]
fn to_route_limits_reads_both_denominations() {
    let parsed = to_route_limits(&limits(Some("1200"), "80", "8980000", true)).expect("bounds");
    assert_eq!(parsed.min_amount, Some(1200));
    assert_eq!(parsed.max_amount, None);
    assert_eq!(parsed.min_usd_cents, Some(80));
    assert_eq!(parsed.max_usd_cents, Some(8_980_000));
    assert!(parsed.dynamic_limits_possible);
}

#[test]
fn to_route_limits_falls_back_to_the_route_level_usd_band() {
    let mut raw = limits(None, "500", "1200000000", false);
    raw.exact_in = None;
    let parsed = to_route_limits(&raw).expect("route-level band should survive");
    assert_eq!(parsed.min_usd_cents, Some(500));
    assert_eq!(parsed.max_usd_cents, Some(1_200_000_000));
    assert_eq!(parsed.min_amount, None);
    assert!(!parsed.dynamic_limits_possible);
}

#[test]
fn to_route_limits_assumes_moving_limits_when_orchestra_does_not_say() {
    let mut raw = limits(Some("1200"), "80", "8980000", false);
    raw.dynamic_provider_limits = None;
    assert!(to_route_limits(&raw).expect("bounds present").dynamic_limits_possible);
    raw.dynamic_provider_limits = Some(DynamicProviderLimits { possible: None });
    assert!(to_route_limits(&raw).expect("bounds present").dynamic_limits_possible);
}

#[test]
fn to_route_limits_is_none_when_nothing_is_published() {
    assert!(to_route_limits(&no_limits()).is_none());
}

#[test]
fn to_route_limits_drops_unparseable_values() {
    let mut raw = limits(Some("not-a-number"), "80", "8980000", false);
    raw.order_notional_usd = None;
    let parsed = to_route_limits(&raw).expect("the USD band should still survive");
    assert_eq!(parsed.min_amount, None);
    assert_eq!(parsed.min_usd_cents, Some(80));
}

#[test]
fn dedupe_routes_keeps_bounds_per_spark_asset() {
    let usdb = "btkn1usdb_contract";
    let routes = vec![
        RouteWithLimits {
            route: route(ra("spark", "BTC", None), ra("tron", "USDT", Some("TXYZtronUsdt"))),
            limits: limits(Some("1200"), "80", "8980000", true),
        },
        RouteWithLimits {
            route: route(ra("spark", "USDB", Some(usdb)), ra("tron", "USDT", Some("TXYZtronUsdt"))),
            limits: limits(None, "80", "8980000", true),
        },
    ];
    let pairs = dedupe(&routes, true, None);
    assert_eq!(pairs.len(), 1);
    let btc = pairs[0].limits_for(&SparkAsset::Bitcoin).expect("BTC publishes bounds");
    assert_eq!(btc.min_amount, Some(1200));
    let token = pairs[0]
        .limits_for(&SparkAsset::Token { token_identifier: usdb.to_string() })
        .expect("token publishes bounds");
    assert_eq!(token.min_amount, None);
    assert_eq!(token.min_usd_cents, Some(80));
}

#[test]
fn attach_route_limits_fills_in_the_published_bound() {
    let pairs = dedupe(
        &vec![RouteWithLimits {
            route: route(ra("spark", "BTC", None), ra("tron", "USDT", Some("TXYZtronUsdt"))),
            limits: limits(Some("1200"), "80", "8980000", true),
        }],
        true,
        None,
    );
    let enriched = attach_route_limits(
        SdkError::CrossChainAmountOutOfRange {
            reason: "Amount too small".to_string(),
            too_small: true,
            bound_amount: None,
            bound_usd_cents: None,
            dynamic_limits_possible: false,
        },
        &pairs[0],
        &SparkAsset::Bitcoin,
    );
    match enriched {
        SdkError::CrossChainAmountOutOfRange { bound_amount, bound_usd_cents, dynamic_limits_possible, .. } => {
            assert_eq!(bound_amount, Some(1200));
            assert_eq!(bound_usd_cents, Some(80));
            assert!(dynamic_limits_possible);
        }
        other => panic!("variant must be preserved: {other:?}"),
    }
}

#[test]
fn attach_route_limits_leaves_other_errors_alone() {
    let pairs = dedupe(&unlimited(vec![route(ra("spark", "BTC", None), ra("tron", "USDT", Some("TXYZ")))]), true, None);
    let untouched = attach_route_limits(SdkError::NetworkError("boom".to_string()), &pairs[0], &SparkAsset::Bitcoin);
    assert!(matches!(untouched, SdkError::NetworkError(_)));
}

#[test]
fn dedupe_routes_keeps_bounds_on_the_receive_side_too() {
    let routes = vec![RouteWithLimits {
        route: route(ra("arbitrum", "USDC", Some("0xUSDC")), ra("spark", "USDB", Some("btkn1usdb"))),
        limits: limits(None, "80", "8980000", false),
    }];
    let pairs = dedupe(&routes, false, None);
    assert_eq!(pairs.len(), 1);
    assert_eq!(pairs[0].chain, "arbitrum");
    let bounds = pairs[0]
        .limits_for(&SparkAsset::Token { token_identifier: "btkn1usdb".to_string() })
        .expect("bounds keyed by the Spark-side asset");
    assert_eq!(bounds.min_usd_cents, Some(80));
}

#[test]
fn dedupe_routes_accumulates_source_variants() {
    let usdb_contract = "btkn1usdb_contract";
    let routes = vec![
        route(ra("spark", "BTC", None), ra("tron", "USDT", Some("TXYZtronUsdt"))),
        route(ra("spark", "USDB", Some(usdb_contract)), ra("tron", "USDT", Some("TXYZtronUsdt"))),
    ];
    let pairs = dedupe(&unlimited(routes), true, None);
    assert_eq!(pairs.len(), 1);
    let p = &pairs[0];
    assert_eq!(p.chain, "tron");
    assert_eq!(p.asset, "USDT");
    assert!(p.accepts_asset(&SparkAsset::Bitcoin));
    assert!(p.accepts_asset(&SparkAsset::Token { token_identifier: usdb_contract.to_string() }));
    assert_eq!(p.delivery_methods, vec![DeliveryMethod::Spark]);
}

#[test]
fn dedupe_routes_accumulates_buy_source_chains() {
    let routes = vec![
        route(ra("lightning", "BTC", None), ra("base", "USDC", Some("0xUSDC"))),
        route(ra("bitcoin", "BTC", None), ra("base", "USDC", Some("0xUSDC"))),
    ];
    let pairs = dedupe(&unlimited(routes), true, None);
    assert_eq!(pairs.len(), 1);
    let p = &pairs[0];
    assert!(p.delivery_methods.contains(&DeliveryMethod::Lightning));
    assert!(p.delivery_methods.contains(&DeliveryMethod::Bitcoin));
    assert_eq!(p.delivery_methods.len(), 2);
    assert_eq!(p.accepted_assets.len(), 1, "bitcoin is listed once");
}

#[test]
fn dedupe_routes_receive_delivery_method_is_spark() {
    let pairs = dedupe(&unlimited(vec![route(ra("base", "USDC", Some("0xUSDC")), ra("spark", "BTC", None))]), false, None);
    assert_eq!(pairs.len(), 1);
    assert_eq!(pairs[0].delivery_methods, vec![DeliveryMethod::Spark]);
}

#[test]
fn dedupe_routes_separates_different_endpoints() {
    let routes = vec![
        route(ra("spark", "BTC", None), ra("tron", "USDT", Some("TXYZ1"))),
        route(ra("spark", "BTC", None), ra("base", "USDC", Some("0xABC"))),
    ];
    let pairs = dedupe(&unlimited(routes), true, None);
    assert_eq!(pairs.len(), 2);
    assert_eq!(pairs[0].chain, "tron");
    assert_eq!(pairs[1].chain, "base");
}

#[test]
fn dedupe_routes_applies_contract_filter() {
    let routes = vec![
        route(ra("spark", "BTC", None), ra("base", "USDC", Some("0xAAA"))),
        route(ra("spark", "BTC", None), ra("base", "USDC", Some("0xBBB"))),
    ];
    let pairs = dedupe(&unlimited(routes), true, Some("0xBBB"));
    assert_eq!(pairs.len(), 1);
    assert_eq!(pairs[0].contract_address.as_deref(), Some("0xBBB"));
}

#[test]
fn dedupe_routes_applies_the_family_verdicts() {
    let routes = unlimited(vec![
        route(ra("spark", "BTC", None), ra("base", "USDC", Some("0xAAA"))),
        route(ra("spark", "BTC", None), ra("tron", "USDT", Some("TXYZ"))),
    ]);
    let pairs = dedupe_routes(&routes, true, &vec![false, true], None);
    assert_eq!(pairs.len(), 1);
    assert_eq!(pairs[0].chain, "tron");
}

#[test]
fn dedupe_routes_receive_swaps_spark_side() {
    let routes = vec![
        route(ra("base", "USDC", Some("0xABC")), ra("spark", "BTC", None)),
        route(ra("base", "USDC", Some("0xABC")), ra("spark", "USDB", Some("btkn1usdb"))),
    ];
    let pairs = dedupe(&unlimited(routes), false, None);
    assert_eq!(pairs.len(), 1);
    assert!(pairs[0].accepts_asset(&SparkAsset::Bitcoin));
    assert!(pairs[0].accepts_asset(&SparkAsset::Token { token_identifier: "btkn1usdb".to_string() }));
}

#[test]
fn dedupe_routes_skips_non_btc_spark_source_without_contract() {
    let pairs = dedupe(&unlimited(vec![route(ra("spark", "MYSTERY", None), ra("base", "USDC", Some("0xABC")))]), true, None);
    assert_eq!(pairs.len(), 1);
    assert!(pairs[0].accepted_assets.is_empty());
}

#[test]
fn route_passes_filters_checks_chain_family_and_contract() {
    let r = route(ra("spark", "BTC", None), ra("base", "USDC", Some("0xAAA")));
    assert!(route_passes_filters(&r, true, true, None));
    assert!(!route_passes_filters(&r, true, true, Some("0xBBB")));
    assert!(route_passes_filters(&r, true, true, Some("0xAAA")));
    assert!(!route_passes_filters(&r, true, false, Some("0xAAA")));
    let same_chain = route(ra("spark", "USDB", Some("btkn1")), ra("Spark", "BTC", None));
    assert!(!route_passes_filters(&same_chain, false, true, None));
    assert!(!route_passes_filters(&same_chain, true, true, None));
}

fn dest_pair(chain: &str, asset: &str, contract: Option<&str>) -> CrossChainRoutePair {
    CrossChainRoutePair {
        provider: CrossChainProvider::Orchestra,
        chain: chain.to_string(),
        chain_id: None,
        asset: asset.to_string(),
        contract_address: contract.map(str::to_string),
        decimals: 6,
        exact_out_eligible: false,
        accepted_assets: Vec::new(),
        delivery_methods: Vec::new(),
    }
}

#[test]
fn find_source_asset_matches_btc_source_case_insensitively() {
    let routes = vec![route(ra("spark", "btc", None), ra("base", "USDC", Some("0xUSDC")))];
    let found = find_source_asset(&routes, &dest_pair("base", "USDC", Some("0xUSDC")), None).expect("match");
    assert_eq!(found.asset, "btc");
}

#[test]
fn find_source_asset_matches_token_source_by_contract_address() {
    let routes = vec![
        route(ra("spark", "BTC", None), ra("base", "USDC", Some("0xUSDC"))),
        route(ra("spark", "USDB", Some("btkn1usdb_contract")), ra("base", "USDC", Some("0xUSDC"))),
    ];
    let dest = dest_pair("base", "USDC", Some("0xUSDC"));
    assert_eq!(find_source_asset(&routes, &dest, Some("btkn1usdb_contract")).expect("match").asset, "USDB");
    assert!(find_source_asset(&routes, &dest, Some("btkn1other")).is_none());
    assert!(find_source_asset(&routes, &dest_pair("tron", "USDC", Some("0xUSDC")), None).is_none());
}

#[test]
fn resolve_source_asset_names_the_missing_route() {
    let routes = vec![route(ra("spark", "BTC", None), ra("base", "USDC", Some("0xUSDC")))];
    let dest = dest_pair("base", "USDC", Some("0xUSDC"));
    assert_eq!(resolve_source_asset(&routes, &dest, "spark", None).unwrap().asset, "BTC");
    match resolve_source_asset(&routes, &dest, "spark", Some("btkn1usdb")) {
        Err(SdkError::InvalidInput(msg)) => {
            assert_eq!(msg, "Orchestra does not offer a spark route for source btkn1usdb → base/USDC")
        }
        other => panic!("expected InvalidInput, got {other:?}"),
    }
    match resolve_source_asset(&Vec::new(), &dest, "lightning", None) {
        Err(SdkError::InvalidInput(msg)) => {
            assert_eq!(msg, "Orchestra does not offer a lightning route for source BTC → base/USDC")
        }
        other => panic!("expected InvalidInput, got {other:?}"),
    }
}

#[test]
fn find_spark_side_resolves_the_receive_destination() {
    let routes = vec![
        route(ra("base", "USDC", Some("0xUSDC")), ra("spark", "BTC", None)),
        route(ra("base", "USDC", Some("0xUSDC")), ra("spark", "USDB", Some("btkn1usdb"))),
    ];
    let pair = dest_pair("base", "USDC", Some("0xUSDC"));
    assert_eq!(find_spark_side(&routes, &pair, &SparkAsset::Bitcoin, false).unwrap().asset, "BTC");
    assert_eq!(
        find_spark_side(&routes, &pair, &SparkAsset::Token { token_identifier: "btkn1usdb".to_string() }, false)
            .unwrap()
            .asset,
        "USDB"
    );
    assert!(find_spark_side(&routes, &pair, &SparkAsset::Token { token_identifier: "btkn1x".to_string() }, false).is_none());
    assert!(find_spark_side(&routes, &dest_pair("solana", "USDC", Some("USDCsol")), &SparkAsset::Bitcoin, false).is_none());
}

#[test]
fn find_destination_asset_symbol_resolves_bitcoin() {
    let routes = vec![
        route(ra("base", "USDC", Some("0xUSDC")), ra("spark", "BTC", None)),
        route(ra("base", "USDC", Some("0xUSDC")), ra("spark", "USDB", Some("btkn1usdb"))),
    ];
    let pair = dest_pair("base", "USDC", Some("0xUSDC"));
    assert_eq!(find_destination_asset_symbol(&routes, &pair, &SparkAsset::Bitcoin).as_deref(), Some("BTC"));
    assert_eq!(
        find_destination_asset_symbol(&routes, &pair, &SparkAsset::Token { token_identifier: "btkn1usdb".to_string() })
            .as_deref(),
        Some("USDB")
    );
    assert!(find_destination_asset_symbol(&routes, &pair, &SparkAsset::Token { token_identifier: "btkn1x".to_string() })
        .is_none());
}

#[test]
fn proportional_inflation_scales_and_floors() {
    assert_eq!(proportional_inflation(10_000, 6_000_000, 5_980_000).unwrap(), 10_033);
    assert_eq!(proportional_inflation(10_000, 6_000_000, 6_010_000).unwrap(), 10_000);
    assert_eq!(proportional_inflation(10_000, 6_000_000, 6_000_000).unwrap(), 10_000);
    let err = proportional_inflation(10_000, 6_000_000, 0).unwrap_err();
    assert!(matches!(err, SdkError::Generic(ref m) if m.contains("zero delivered")));
    assert!(matches!(proportional_inflation(u128::MAX, 2, 1), Err(SdkError::Generic(ref m)) if m.contains("overflow")));
}

#[test]
fn pad_required_in_caps_the_pad_at_the_scaled_amount() {
    assert_eq!(pad_required_in(1_000_244, 10_000), (1_010_244, 10_000));
    assert_eq!(pad_required_in(1000, 10_000_000), (2000, 1000));
    assert_eq!(pad_required_in(1_000_244, 0), (1_000_244, 0));
    assert_eq!(pad_required_in(500, 500), (1000, 500));
}

#[test]
fn verify_quote_not_drifted_checks_the_slippage_budget() {
    assert!(verify_quote_not_drifted(1_000_000, 1_000_000, 100).is_ok());
    assert!(verify_quote_not_drifted(1_000_000, 990_000, 100).is_ok());
    match verify_quote_not_drifted(1_000_000, 989_999, 100).unwrap_err() {
        SdkError::InvalidInput(msg) => assert_eq!(
            msg,
            "Cross-chain quote rate drift: expected destination amount 1000000, got 989999 \
             (drift 100 bps > slippage budget 100 bps). Retry with a larger `target_overpay_bps` \
             or send a bigger amount."
        ),
        other => panic!("unexpected: {other:?}"),
    }
    assert!(verify_quote_not_drifted(1_000_000, 0, 10_000).is_ok());
}

#[test]
fn verify_quote_amount_in_checks_the_echo() {
    assert!(verify_quote_amount_in(1_000_000, 1_000_000).is_ok());
    assert!(verify_quote_amount_in(1_000_000, 999_000).is_ok());
    assert!(verify_quote_amount_in(1_000_000, 1_001_000).is_ok());
    match verify_quote_amount_in(1_000_000, 10_000_000).unwrap_err() {
        SdkError::InvalidInput(msg) => assert_eq!(
            msg,
            "Cross-chain quote amountIn out of range: requested 1000000, got 10000000 \
             (tolerance 10 bps). Please re-prepare."
        ),
        other => panic!("unexpected: {other:?}"),
    }
    assert!(verify_quote_amount_in(1_000_000, 500_000).is_err());
}

#[test]
fn parse_amount_names_the_field() {
    assert_eq!(parse_amount("1200", "amountIn").unwrap(), 1200);
    match parse_amount("12x", "amountIn").unwrap_err() {
        SdkError::Generic(m) => assert!(m.starts_with("Orchestra returned invalid amountIn: "), "{m}"),
        other => panic!("unexpected: {other:?}"),
    }
}

#[test]
fn a_deposit_is_sized_from_the_estimate() {
    let estimate = EstimateResponse {
        estimated_out: "5980000".to_string(),
        fee_asset: "USDC".to_string(),
        fee_amount: "10000".to_string(),
    };
    assert_eq!(required_source_from_estimate(&estimate, "BTC", 10_000, 6_000_000, false, true).unwrap(), 10_033);
    let usdc = EstimateResponse {
        estimated_out: "987000".to_string(),
        fee_asset: "USDC".to_string(),
        fee_amount: "10000".to_string(),
    };
    assert_eq!(required_source_from_estimate(&usdc, "usdc", 1_000_000, 1_000_000, false, true).unwrap(), 1_023_171);
    assert_eq!(required_source_from_estimate(&usdc, "USDC", 1_000_000, 1_000_000, true, false).unwrap(), 1_023_541);
}

#[test]
fn rfc3339_expiries_read_as_unix_seconds() {
    assert_eq!(parse_rfc3339_to_unix_seconds("2001-09-09T01:46:40Z").unwrap(), 1_000_000_000);
    assert!(matches!(
        parse_rfc3339_to_unix_seconds("1960-01-01T00:00:00Z"),
        Err(SdkError::Generic(ref m)) if m.contains("negative or overflowing timestamp")
    ));
}

#[test]
fn validate_quote_expiry_accepts_future_rfc3339() {
    assert!(validate_quote_expiry("2999-01-01T00:00:00Z").is_ok());
}

#[test]
fn validate_quote_expiry_rejects_past_rfc3339() {
    let err = validate_quote_expiry("2001-09-09T01:46:40Z").unwrap_err();
    assert!(matches!(err, SdkError::InvalidInput(ref m) if m.contains("expired")));
    assert!(validate_quote_expiry_at("2001-09-09T01:46:40Z", 999_999_999).is_ok());
    assert!(validate_quote_expiry_at("2001-09-09T01:46:40Z", 1_000_000_000).is_err());
}

#[test]
fn validate_quote_expiry_rejects_malformed() {
    let err = validate_quote_expiry("not-a-timestamp").unwrap_err();
    assert!(matches!(err, SdkError::Generic(ref m) if m.starts_with("Orchestra: invalid expires_at \"not-a-timestamp\": ")));
}

fn orchestra_info(order_id: &str, quote_id: &str) -> ConversionInfo {
    ConversionInfo::Orchestra {
        order_id: order_id.to_string(),
        quote_id: quote_id.to_string(),
        chain: "base".to_string(),
        chain_id: Some("8453".to_string()),
        asset: "USDC".to_string(),
        recipient_address: "0xabc".to_string(),
        asset_amount_in: Some(1_010_000),
        estimated_out: 1_000_000,
        delivered_amount: None,
        external_tx_hash: None,
        status: ConversionStatus::Pending,
        fee_amount: Some(10_000),
        service_fee_amount: Some(50),
        service_fee_asset: Some("USDC".to_string()),
        read_token: Some("rt_token".to_string()),
        asset_decimals: 6,
        asset_contract: Some("0xUSDC".to_string()),
    }
}

fn status_response(status: OrderStatus, amount_out: Option<&str>, tx: Option<&str>) -> StatusResponse {
    StatusResponse {
        order: Order {
            id: "ord1".to_string(),
            status,
            amount_in: Some("1000".to_string()),
            amount_out: amount_out.map(str::to_string),
            source_tx_hash: Some("txh".to_string()),
            destination_tx_hash: tx.map(str::to_string),
            spark_tx_hash: None,
        },
    }
}

fn conversion_of(metadata: &breez_cross_chain::models::PaymentMetadata) -> &ConversionInfo {
    metadata.conversion_info.as_ref().expect("conversion info")
}

#[test]
fn apply_terminal_status_skips_pending_and_other_conversions() {
    let info = orchestra_info("ord1", "q1");
    assert!(apply_terminal_status(&info, &status_response(OrderStatus::Processing, Some("999000"), None)).is_none());
    let amm = ConversionInfo::Amm {
        pool_id: "pool".to_string(),
        conversion_id: "cid".to_string(),
        status: ConversionStatus::Pending,
        fee: None,
        purpose: None,
        amount_adjustment: None,
        degradation: None,
    };
    assert!(apply_terminal_status(&amm, &status_response(OrderStatus::Completed, Some("999000"), None)).is_none());
}

#[test]
fn apply_terminal_status_maps_completed() {
    let info = orchestra_info("ord1", "q1");
    let updated = apply_terminal_status(&info, &status_response(OrderStatus::Completed, Some("999000"), Some("0xdeadbeef")))
        .expect("terminal");
    match conversion_of(&updated) {
        ConversionInfo::Orchestra { delivered_amount, estimated_out, fee_amount, external_tx_hash, status, .. } => {
            assert_eq!(*status, ConversionStatus::Completed);
            assert_eq!(*delivered_amount, Some(999_000));
            assert_eq!(*estimated_out, 1_000_000);
            assert_eq!(*fee_amount, Some(11_000));
            assert_eq!(external_tx_hash.as_deref(), Some("0xdeadbeef"));
        }
        _ => panic!("expected Orchestra"),
    }
}

#[test]
fn apply_terminal_status_maps_refunded_and_failed() {
    let info = orchestra_info("ord1", "q1");
    let refunded = apply_terminal_status(&info, &status_response(OrderStatus::Refunded, None, None)).expect("terminal");
    match conversion_of(&refunded) {
        ConversionInfo::Orchestra { delivered_amount, fee_amount, status, .. } => {
            assert_eq!(*status, ConversionStatus::Refunded);
            assert_eq!(*delivered_amount, None);
            assert_eq!(*fee_amount, Some(10_000));
        }
        _ => panic!("expected Orchestra"),
    }
    let failed = apply_terminal_status(&info, &status_response(OrderStatus::Failed, None, None)).expect("terminal");
    assert!(matches!(conversion_of(&failed), ConversionInfo::Orchestra { status: ConversionStatus::Failed, .. }));
    let garbled = apply_terminal_status(&info, &status_response(OrderStatus::Completed, Some("not-a-number"), None)).unwrap();
    assert!(matches!(conversion_of(&garbled), ConversionInfo::Orchestra { delivered_amount: None, .. }));
}

#[test]
fn a_recovered_order_replaces_the_empty_one_and_survives_the_terminal_update() {
    let mut info = orchestra_info("", "q1");
    if let ConversionInfo::Orchestra { status, .. } = &mut info {
        *status = ConversionStatus::RefundNeeded;
    }
    let recovered = with_submitted_order(&info, "ord9".to_string(), Some("rt".to_string())).unwrap();
    match &recovered {
        ConversionInfo::Orchestra { order_id, read_token, quote_id, status, .. } => {
            assert_eq!(order_id, "ord9");
            assert_eq!(read_token.as_deref(), Some("rt"));
            assert_eq!(quote_id, "q1");
            assert_eq!(*status, ConversionStatus::Pending);
        }
        _ => panic!("not an Orchestra conversion"),
    }
    let metadata = apply_terminal_status(&recovered, &status_response(OrderStatus::Completed, Some("969311"), None)).unwrap();
    match conversion_of(&metadata) {
        ConversionInfo::Orchestra { order_id, read_token, delivered_amount, .. } => {
            assert_eq!(order_id, "ord9");
            assert_eq!(read_token.as_deref(), Some("rt"));
            assert_eq!(*delivered_amount, Some(969_311));
        }
        _ => panic!("not an Orchestra conversion"),
    }
    let no_token = with_submitted_order(&info, "ord9".to_string(), None).unwrap();
    assert!(matches!(no_token, ConversionInfo::Orchestra { read_token: None, .. }));
}

#[test]
fn a_stale_credential_is_dropped_but_the_order_kept() {
    let updated = without_read_token(&orchestra_info("ord9", "q1")).unwrap();
    assert!(matches!(updated, ConversionInfo::Orchestra { ref order_id, read_token: None, .. } if order_id == "ord9"));
    let failed = with_status(&orchestra_info("", "q1"), ConversionStatus::Failed).unwrap();
    assert!(matches!(failed, ConversionInfo::Orchestra { status: ConversionStatus::Failed, .. }));
    let amm = ConversionInfo::Amm {
        pool_id: "pool".to_string(),
        conversion_id: "conv".to_string(),
        status: ConversionStatus::Pending,
        fee: None,
        purpose: None,
        amount_adjustment: None,
        degradation: None,
    };
    assert!(with_status(&amm, ConversionStatus::Failed).is_none());
    assert!(with_submitted_order(&amm, "ord9".to_string(), None).is_none());
    assert!(without_read_token(&amm).is_none());
}

#[test]
fn only_a_rejected_token_drops_the_token() {
    assert!(is_invalid_read_token(&FlashnetError::Network { reason: "x".to_string(), code: Some(403) }));
    for code in [401u16, 404, 429, 500] {
        assert!(!is_invalid_read_token(&FlashnetError::Network { reason: "no".to_string(), code: Some(code) }));
    }
    assert!(!is_invalid_read_token(&FlashnetError::Other { message: "boom".to_string() }));
}

#[test]
fn a_rate_limit_is_not_read_as_a_missing_deposit() {
    for code in [400u16, 404] {
        assert!(is_expected_no_deposit_error(&FlashnetError::Network { reason: "invalid_tx_hash".to_string(), code: Some(code) }));
    }
    for code in [401u16, 403, 429, 500, 503] {
        assert!(!is_expected_no_deposit_error(&FlashnetError::Network { reason: "throttled".to_string(), code: Some(code) }));
    }
}

fn receive_swap_data() -> OrchestraSwapData {
    OrchestraSwapData {
        quote_id: "q_xyz".to_string(),
        order_id: None,
        read_token: None,
        recipient_address: "sp1rcv".to_string(),
        source_chain: "ethereum".to_string(),
        source_asset: "USDC".to_string(),
        source_chain_id: Some("1".to_string()),
        source_contract_address: Some("0xUSDC".to_string()),
        source_decimals: 6,
        destination_chain: "spark".to_string(),
        destination_asset: "BTC".to_string(),
        destination_decimals: 8,
        token_identifier: None,
        amount_in: "100".to_string(),
        expected_amount_out: "50000".to_string(),
        fee_amount: Some("250".to_string()),
        expires_at: 1_700_000_120,
    }
}

#[test]
fn an_expired_quote_is_probed_on_the_slower_clock() {
    assert!(is_probe_due_at(None, 1_000));
    assert!(!is_probe_due_at(Some(1_000), 1_000 + RECEIVE_EXPIRED_PROBE_SECS - 1));
    assert!(is_probe_due_at(Some(1_000), 1_000 + RECEIVE_EXPIRED_PROBE_SECS));

    let mut data = receive_swap_data();
    data.expires_at = 1_000;
    let mut clock = ProbeClock::new();
    assert_eq!(plan_receive_row(&data, &clock, 500), ReceiveRowStep::Probe);
    assert_eq!(plan_receive_row(&data, &clock, 2_000), ReceiveRowStep::Probe);
    clock.record_probe("q_xyz", 2_000);
    assert_eq!(plan_receive_row(&data, &clock, 2_100), ReceiveRowStep::Wait);
    assert_eq!(plan_receive_row(&data, &clock, 2_600), ReceiveRowStep::Probe);
    assert_eq!(plan_receive_row(&data, &clock, 1_000 + 86_400), ReceiveRowStep::CloseUnfunded);
    data.order_id = Some("ord1".to_string());
    assert_eq!(plan_receive_row(&data, &clock, 1_000 + 86_400), ReceiveRowStep::PollStatus { order_id: "ord1".to_string() });
}

#[test]
fn a_probe_clock_entry_dies_with_its_row() {
    let mut clock = ProbeClock::new();
    clock.record_probe("q_live", 1_000);
    clock.record_probe("q_gone", 1_000);
    clock.prune(&vec!["q_live".to_string()]);
    assert!(!clock.is_probe_due("q_live", 1_100));
    assert!(clock.is_probe_due("q_gone", 1_100));
    clock.record_probe("q_live", 1_200);
    assert_eq!(clock.last_probe_of("q_live"), Some(1_200));
}

#[test]
fn a_receive_row_closes_once_settled() {
    assert!(closes_receive_row(OrderStatus::Completed, true, false));
    assert!(!closes_receive_row(OrderStatus::Completed, false, false));
    assert!(closes_receive_row(OrderStatus::Completed, false, true));
    assert!(closes_receive_row(OrderStatus::Refunded, false, false));
    assert!(!closes_receive_row(OrderStatus::Processing, true, true));
}

fn payment_with(status: PaymentStatus, details: Option<PaymentDetails>) -> Payment {
    Payment {
        id: "p1".to_string(),
        payment_type: PaymentType::Send,
        status,
        amount: 1,
        fees: 0,
        timestamp: 0,
        method: PaymentMethod::Spark,
        details,
        conversion_details: None,
    }
}

fn token_details(info: Option<ConversionInfo>) -> PaymentDetails {
    PaymentDetails::Token {
        metadata: TokenMetadata {
            identifier: "token123".to_string(),
            issuer_public_key: "02abcdef".to_string(),
            name: "Test Token".to_string(),
            ticker: "TTK".to_string(),
            decimals: 6,
            max_supply: 0,
            is_freezable: false,
        },
        tx_hash: "abc123".to_string(),
        tx_type: TokenTransactionType::Transfer,
        invoice_details: None,
        conversion_info: info,
    }
}

#[test]
fn deposits_are_named_for_resubmission() {
    let spark = payment_with(
        PaymentStatus::Pending,
        Some(PaymentDetails::Spark { invoice_details: None, htlc_details: None, conversion_info: None }),
    );
    assert_eq!(deposit_submit_identity(&spark), Some(("p1".to_string(), true)));
    let token = payment_with(PaymentStatus::Pending, Some(token_details(None)));
    assert_eq!(deposit_submit_identity(&token), Some(("abc123".to_string(), false)));
}

#[test]
fn the_send_monitor_plans_each_payment() {
    let none = payment_with(PaymentStatus::Pending, Some(token_details(None)));
    assert_eq!(plan_send_poll(&none), SendPollStep::Skip);

    let failed = payment_with(PaymentStatus::Failed, Some(token_details(Some(orchestra_info("ord1", "q1")))));
    assert!(matches!(plan_send_poll(&failed), SendPollStep::MarkFailed { .. }));

    let orphan = payment_with(PaymentStatus::Pending, Some(token_details(Some(orchestra_info("", "q1")))));
    assert_eq!(
        plan_send_poll(&orphan),
        SendPollStep::Resubmit { spark_tx_hash: "abc123".to_string(), needs_source_address: false, quote_id: "q1".to_string() }
    );

    let live = payment_with(PaymentStatus::Pending, Some(token_details(Some(orchestra_info("ord1", "q1")))));
    assert_eq!(
        plan_send_poll(&live),
        SendPollStep::PollStatus { order_id: "ord1".to_string(), read_token: Some("rt_token".to_string()) }
    );
}
