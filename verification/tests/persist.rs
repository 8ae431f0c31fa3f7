use breez_cross_chain::error::StorageError;
use breez_cross_chain::models::{
    ConversionFilter, ListPaymentsRequest, PaymentDetailsFilter, PaymentStatus, StorageListPaymentsRequest,
    StoragePaymentDetailsFilter, TokenTransactionType,
};
use breez_cross_chain::persist::{
    last_sync_time_from, last_sync_time_value, lnurl_metadata_updated_after_from,
    lnurl_metadata_updated_after_value, private_mode_initialized_from, private_mode_initialized_value,
    CacheFamily,
};

#[test]
fn cache_keys_follow_their_family() {
    assert_eq!(CacheFamily::Tx.key("abc"), "tx_cache-abc");
    assert_eq!(CacheFamily::PaymentMetadata.key("p1"), "payment_metadata-p1");
    assert_eq!(CacheFamily::TokenMetadata.key("btkn1"), "token_metadata_btkn1");
    assert_eq!(CacheFamily::PublishedPackage.key("pkg"), "published_package_pkg");
}

#[test]
fn the_private_mode_flag_reads_back_only_as_written() {
    assert!(private_mode_initialized_from(Some(private_mode_initialized_value())));
    assert!(!private_mode_initialized_from(Some("TRUE".to_string())));
    assert!(!private_mode_initialized_from(None));
}

#[test]
fn the_last_sync_time_reads_back_and_rejects_garbage() {
    assert_eq!(last_sync_time_value(1_700_000_000), "1700000000");
    assert_eq!(last_sync_time_from(Some(last_sync_time_value(42))).unwrap(), Some(42));
    assert_eq!(last_sync_time_from(None).unwrap(), None);
    match last_sync_time_from(Some("soon".to_string())) {
        Err(StorageError::Serialization(m)) => assert_eq!(m, "invalid last_sync_time"),
        other => panic!("unexpected: {other:?}"),
    }
}

#[test]
fn the_lnurl_offset_reads_back_signed_and_defaults_to_zero() {
    assert_eq!(lnurl_metadata_updated_after_value(-15), "-15");
    assert_eq!(lnurl_metadata_updated_after_from(Some(lnurl_metadata_updated_after_value(-15))).unwrap(), -15);
    assert_eq!(lnurl_metadata_updated_after_from(Some(lnurl_metadata_updated_after_value(i64::MIN))).unwrap(), i64::MIN);
    assert_eq!(lnurl_metadata_updated_after_from(None).unwrap(), 0);
    assert_eq!(lnurl_metadata_updated_after_from(Some("+7".to_string())).unwrap(), 7);
    assert!(matches!(
        lnurl_metadata_updated_after_from(Some("9223372036854775808".to_string())),
        Err(StorageError::Serialization(_))
    ));
}

#[test]
fn a_refund_flag_maps_to_the_refund_filter_and_back() {
    let f = PaymentDetailsFilter::Spark { htlc_status: None, conversion_refund_needed: Some(true) };
    let s = StoragePaymentDetailsFilter::from(f.clone());
    assert_eq!(
        s,
        StoragePaymentDetailsFilter::Spark { htlc_status: None, conversion_filter: Some(ConversionFilter::AmmRefundNeeded) }
    );
    assert_eq!(PaymentDetailsFilter::from(s), f);

    // An explicit "no refund" cannot be told from no flag once stored.
    let no = PaymentDetailsFilter::Token {
        conversion_refund_needed: Some(false),
        tx_hash: Some("h".to_string()),
        tx_type: Some(TokenTransactionType::Transfer),
    };
    let back = PaymentDetailsFilter::from(StoragePaymentDetailsFilter::from(no));
    assert_eq!(
        back,
        PaymentDetailsFilter::Token {
            conversion_refund_needed: None,
            tx_hash: Some("h".to_string()),
            tx_type: Some(TokenTransactionType::Transfer),
        }
    );

    // An Orchestra-pending storage filter reads as "no refund".
    let pending = StoragePaymentDetailsFilter::Spark {
        htlc_status: None,
        conversion_filter: Some(ConversionFilter::OrchestraPending),
    };
    assert_eq!(
        PaymentDetailsFilter::from(pending),
        PaymentDetailsFilter::Spark { htlc_status: None, conversion_refund_needed: Some(false) }
    );
}

#[test]
fn a_payment_query_goes_to_storage_and_back() {
    let q = ListPaymentsRequest {
        type_filter: None,
        status_filter: Some(vec![PaymentStatus::Pending]),
        asset_filter: None,
        payment_details_filter: Some(vec![
            PaymentDetailsFilter::Lightning { htlc_status: None },
            PaymentDetailsFilter::Spark { htlc_status: None, conversion_refund_needed: Some(true) },
        ]),
        from_timestamp: Some(5),
        to_timestamp: None,
        offset: Some(1),
        limit: Some(10),
        sort_ascending: Some(true),
    };
    let stored = StorageListPaymentsRequest::from_request(q.clone());
    assert_eq!(stored.payment_details_filter.as_ref().unwrap().len(), 2);
    assert_eq!(stored.limit, Some(10));
    assert_eq!(stored.into_request(), q);
    assert_eq!(StorageListPaymentsRequest::default().payment_details_filter, None);
}
