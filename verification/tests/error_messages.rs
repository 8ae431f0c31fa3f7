use breez_cross_chain::error::{render_bound, SdkError, StorageError};
use breez_cross_chain::models::{DepositClaimError, Fee};

fn message(
    too_small: bool,
    bound_amount: Option<u128>,
    bound_usd_cents: Option<u64>,
    dynamic_limits_possible: bool,
) -> String {
    SdkError::CrossChainAmountOutOfRange {
        reason: "Amount too small".to_string(),
        too_small,
        bound_amount,
        bound_usd_cents,
        dynamic_limits_possible,
    }
    .message()
}

#[test]
fn names_both_denominations_when_both_are_published() {
    assert_eq!(
        message(true, Some(1200), Some(80), false),
        "Amount too small for this route: Amount too small \
         (published minimum: 1200 base units or 0.80 USD)"
    );
}

#[test]
fn flags_a_route_that_can_enforce_a_higher_minimum() {
    assert_eq!(
        message(true, None, Some(80), true),
        "Amount too small for this route: Amount too small \
         (published minimum: 0.80 USD; the route can enforce a higher one)"
    );
}

#[test]
fn a_too_large_rejection_reads_as_a_maximum_without_the_caveat() {
    assert_eq!(
        message(false, None, Some(8_980_000), true),
        "Amount too large for this route: Amount too small (published maximum: 89800.00 USD)"
    );
}

#[test]
fn says_nothing_when_the_provider_publishes_no_bound() {
    assert_eq!(
        message(true, None, None, true),
        "Amount too small for this route: Amount too small"
    );
}

#[test]
fn pads_a_sub_dollar_bound_to_two_decimals() {
    assert!(message(true, None, Some(5), false).ends_with("(published minimum: 0.05 USD)"));
}

#[test]
fn render_bound_is_empty_without_a_published_bound() {
    assert_eq!(render_bound(true, None, None, true), "");
    assert_eq!(
        render_bound(false, Some(5_000), None, false),
        " (published maximum: 5000 base units)"
    );
}

#[test]
fn simple_errors_render_with_their_prefix() {
    assert_eq!(
        SdkError::InvalidInput("bad".to_string()).message(),
        "Invalid input: bad"
    );
    assert_eq!(
        SdkError::Generic("boom".to_string()).message(),
        "Error: boom"
    );
    assert_eq!(
        SdkError::InsufficientFunds { token_identifier: Some("btkn1".to_string()) }.message(),
        "Insufficient funds for token btkn1"
    );
    assert_eq!(
        SdkError::InsufficientFunds { token_identifier: None }.message(),
        "Insufficient funds"
    );
}

#[test]
fn a_string_becomes_a_generic_error() {
    let e: SdkError = String::from("plain").into();
    assert_eq!(e, SdkError::Generic("plain".to_string()));
}

#[test]
fn storage_errors_render_and_convert() {
    assert_eq!(StorageError::NotFound.message(), "Not found");
    assert_eq!(
        StorageError::Connection("refused".to_string()).message(),
        "Connection error: refused"
    );
    let sdk = SdkError::from_storage_error(StorageError::Serialization("x".to_string()));
    assert!(matches!(sdk, SdkError::StorageError(_)));
}

#[test]
fn deposit_claim_errors_keep_the_fee_details() {
    let e = SdkError::MaxDepositClaimFeeExceeded {
        tx: "tx1".to_string(),
        vout: 2,
        max_fee: Some(Fee::Fixed { amount: 10 }),
        required_fee_sats: 500,
        required_fee_rate_sat_per_vbyte: 3,
    };
    let claim = DepositClaimError::from_sdk_error(e);
    assert!(matches!(
        claim,
        DepositClaimError::MaxDepositClaimFeeExceeded { vout: 2, required_fee_sats: 500, .. }
    ));
}
