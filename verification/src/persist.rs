//! What the SDK keeps in its key-value cache, how the scalar values there are
//! written and read back, and how storage-level payment queries map to the
//! public ones.

use vstd::prelude::*;
use vstd::string::StringExecFns;

use crate::error::StorageError;
use crate::models::{
    ConversionFilter, ListPaymentsRequest, PaymentDetailsFilter, StorageListPaymentsRequest,
    StoragePaymentDetailsFilter,
};
use crate::text::{
    decimal, decimal_string, parse_i64, parse_u64, signed_decimal, signed_decimal_string, spec_parse_i64,
    spec_parse_u64, str_eq, lemma_parse_decimal_roundtrip, lemma_parse_i64_roundtrip,
};

verus! {

pub const ACCOUNT_INFO_KEY: &'static str = "account_info";

pub const LAST_SYNC_TIME_KEY: &'static str = "last_sync_time";

pub const LIGHTNING_ADDRESS_KEY: &'static str = "lightning_address";

pub const LNURL_METADATA_UPDATED_AFTER_KEY: &'static str = "lnurl_metadata_updated_after";

pub const SYNC_OFFSET_KEY: &'static str = "sync_offset";

pub const SPARK_PRIVATE_MODE_INITIALIZED_KEY: &'static str = "spark_private_mode_initialized";

pub const STABLE_BALANCE_ACTIVE_LABEL_KEY: &'static str = "stable_balance_active_label";

pub const PENDING_CONVERSIONS_KEY: &'static str = "pending_conversions";

pub const PENDING_DEACTIVATION_KEY: &'static str = "pending_deactivation";

pub const PENDING_LIGHTNING_SENDS_KEY: &'static str = "pending_lightning_sends";

/// The families of per-item cache entries, each keyed by an id.
#[derive(Clone, Copy, Debug, PartialEq, Eq, Structural)]
pub enum CacheFamily {
    /// A published signed package, keyed by package id.
    PublishedPackage,
    /// A cached transaction, keyed by txid.
    Tx,
    /// Token metadata, keyed by token identifier.
    TokenMetadata,
    /// Payment metadata, keyed by payment id.
    PaymentMetadata,
}

impl CacheFamily {
    /// What a key of the family starts with, before the id.
    pub open spec fn key_prefix(self) -> Seq<char> {
        match self {
            CacheFamily::PublishedPackage => "published_package_"@,
            CacheFamily::Tx => "tx_cache"@ + "-"@,
            CacheFamily::TokenMetadata => "token_metadata_"@,
            CacheFamily::PaymentMetadata => "payment_metadata"@ + "-"@,
        }
    }

    /// The cache key of the entry for `id`.
    pub fn key(self, id: &str) -> (r: String)
        ensures
            r@ == self.key_prefix() + id@,
    {
        match self {
            CacheFamily::PublishedPackage => String::from_str("published_package_").concat(id),
            CacheFamily::Tx => String::from_str("tx_cache").concat("-").concat(id),
            CacheFamily::TokenMetadata => String::from_str("token_metadata_").concat(id),
            CacheFamily::PaymentMetadata => String::from_str("payment_metadata").concat("-").concat(id),
        }
    }
}

/// Within a family, distinct ids get distinct keys: an entry is never read
/// back under another item's id.
pub proof fn law_cache_keys_are_distinct(family: CacheFamily, a: Seq<char>, b: Seq<char>)
    requires
        family.key_prefix() + a == family.key_prefix() + b,
    ensures
        a == b,
{
    let p = family.key_prefix();
    assert((p + a).subrange(p.len() as int, (p + a).len() as int) =~= a);
    assert((p + b).subrange(p.len() as int, (p + b).len() as int) =~= b);
}

/// Whether `r` is the serialization error with message `msg`.
pub open spec fn serialization_error_is<T>(r: Result<T, StorageError>, msg: Seq<char>) -> bool {
    r matches Err(StorageError::Serialization(m)) && m@ == msg
}

/// The value stored once Spark private mode has been set up.
pub fn private_mode_initialized_value() -> (r: String)
    ensures
        r@ == "true"@,
{
    String::from_str("true")
}

/// Reads the private-mode flag from its cache entry: set only when the entry
/// holds exactly `true`.
pub fn private_mode_initialized_from(value: Option<String>) -> (r: bool)
    ensures
        r == (value matches Some(v) && v@ == "true"@),
{
    match value {
        Some(v) => str_eq(v.as_str(), "true"),
        None => false,
    }
}

/// The cache value of a last-sync time: its decimal digits.
pub fn last_sync_time_value(time: u64) -> (r: String)
    ensures
        r@ == decimal(time as nat),
{
    decimal_string(time as u128)
}

/// Reads the last-sync time from its cache entry: absent when there is no
/// entry, an error when the entry is not a `u64`.
pub fn last_sync_time_from(value: Option<String>) -> (r: Result<Option<u64>, StorageError>)
    ensures
        value is None ==> r == Ok::<Option<u64>, StorageError>(None),
        value matches Some(v) ==> match spec_parse_u64(v@) {
            Some(t) => r == Ok::<Option<u64>, StorageError>(Some(t)),
            None => serialization_error_is(r, "invalid last_sync_time"@),
        },
{
    match value {
        Some(v) => match parse_u64(v.as_str()) {
            Some(t) => Ok(Some(t)),
            None => Err(StorageError::Serialization(String::from_str("invalid last_sync_time"))),
        },
        None => Ok(None),
    }
}

/// The cache value of the lnurl metadata offset: its signed decimal digits.
pub fn lnurl_metadata_updated_after_value(offset: i64) -> (r: String)
    ensures
        r@ == signed_decimal(offset as int),
{
    signed_decimal_string(offset)
}

/// Reads the lnurl metadata offset from its cache entry: zero when there is
/// no entry, an error when the entry is not an `i64`.
pub fn lnurl_metadata_updated_after_from(value: Option<String>) -> (r: Result<i64, StorageError>)
    ensures
        value is None ==> r == Ok::<i64, StorageError>(0),
        value matches Some(v) ==> match spec_parse_i64(v@) {
            Some(t) => r == Ok::<i64, StorageError>(t),
            None => serialization_error_is(r, "invalid lnurl_metadata_updated_after"@),
        },
{
    match value {
        Some(v) => match parse_i64(v.as_str()) {
            Some(t) => Ok(t),
            None => Err(
                StorageError::Serialization(String::from_str("invalid lnurl_metadata_updated_after")),
            ),
        },
        None => Ok(0),
    }
}

/// What is written for a last-sync time reads back as that time.
pub proof fn law_last_sync_time_roundtrip(time: u64)
    ensures
        spec_parse_u64(decimal(time as nat)) == Some(time),
{
    lemma_parse_decimal_roundtrip(time as nat);
}

/// What is written for the lnurl metadata offset reads back as that offset.
pub proof fn law_lnurl_offset_roundtrip(offset: i64)
    ensures
        spec_parse_i64(signed_decimal(offset as int)) == Some(offset),
{
    lemma_parse_i64_roundtrip(offset);
}

/// The storage filter for a conversion-refund flag: a refund filter when the
/// flag asks for one, none otherwise.
pub open spec fn refund_filter(flag: Option<bool>) -> Option<ConversionFilter> {
    match flag {
        Some(true) => Some(ConversionFilter::AmmRefundNeeded),
        _ => None,
    }
}

/// The conversion-refund flag a storage filter answers: whether it selects
/// refunds, when it selects anything.
pub open spec fn refund_flag(filter: Option<ConversionFilter>) -> Option<bool> {
    match filter {
        Some(f) => Some(f == ConversionFilter::AmmRefundNeeded),
        None => None,
    }
}

pub open spec fn storage_filter_of(f: PaymentDetailsFilter) -> StoragePaymentDetailsFilter {
    match f {
        PaymentDetailsFilter::Spark { htlc_status, conversion_refund_needed } =>
            StoragePaymentDetailsFilter::Spark {
                htlc_status,
                conversion_filter: refund_filter(conversion_refund_needed),
            },
        PaymentDetailsFilter::Token { conversion_refund_needed, tx_hash, tx_type } =>
            StoragePaymentDetailsFilter::Token {
                conversion_filter: refund_filter(conversion_refund_needed),
                tx_hash,
                tx_type,
            },
        PaymentDetailsFilter::Lightning { htlc_status } => StoragePaymentDetailsFilter::Lightning {
            htlc_status,
            conversion_filter: None,
        },
    }
}

pub open spec fn public_filter_of(f: StoragePaymentDetailsFilter) -> PaymentDetailsFilter {
    match f {
        StoragePaymentDetailsFilter::Spark { htlc_status, conversion_filter } =>
            PaymentDetailsFilter::Spark {
                htlc_status,
                conversion_refund_needed: refund_flag(conversion_filter),
            },
        StoragePaymentDetailsFilter::Token { conversion_filter, tx_hash, tx_type } =>
            PaymentDetailsFilter::Token {
                conversion_refund_needed: refund_flag(conversion_filter),
                tx_hash,
                tx_type,
            },
        StoragePaymentDetailsFilter::Lightning { htlc_status, .. } => PaymentDetailsFilter::Lightning {
            htlc_status,
        },
    }
}

fn refund_filter_of(flag: Option<bool>) -> (r: Option<ConversionFilter>)
    ensures
        r == refund_filter(flag),
{
    match flag {
        Some(true) => Some(ConversionFilter::AmmRefundNeeded),
        _ => None,
    }
}

fn refund_flag_of(filter: Option<ConversionFilter>) -> (r: Option<bool>)
    ensures
        r == refund_flag(filter),
{
    match filter {
        Some(ConversionFilter::AmmRefundNeeded) => Some(true),
        Some(_) => Some(false),
        None => None,
    }
}

impl From<PaymentDetailsFilter> for StoragePaymentDetailsFilter {
    fn from(filter: PaymentDetailsFilter) -> (r: StoragePaymentDetailsFilter) {
        match filter {
            PaymentDetailsFilter::Spark { htlc_status, conversion_refund_needed } =>
                StoragePaymentDetailsFilter::Spark {
                htlc_status,
                conversion_filter: refund_filter_of(conversion_refund_needed),
            },
            PaymentDetailsFilter::Token { conversion_refund_needed, tx_hash, tx_type } =>
                StoragePaymentDetailsFilter::Token {
                conversion_filter: refund_filter_of(conversion_refund_needed),
                tx_hash,
                tx_type,
            },
            PaymentDetailsFilter::Lightning { htlc_status } => StoragePaymentDetailsFilter::Lightning {
                htlc_status,
                conversion_filter: None,
            },
        }
    }
}

impl vstd::std_specs::convert::FromSpecImpl<PaymentDetailsFilter> for StoragePaymentDetailsFilter {
    open spec fn obeys_from_spec() -> bool {
        true
    }

    open spec fn from_spec(v: PaymentDetailsFilter) -> StoragePaymentDetailsFilter {
        storage_filter_of(v)
    }
}

impl From<StoragePaymentDetailsFilter> for PaymentDetailsFilter {
    fn from(filter: StoragePaymentDetailsFilter) -> (r: PaymentDetailsFilter) {
        match filter {
            StoragePaymentDetailsFilter::Spark { htlc_status, conversion_filter } =>
                PaymentDetailsFilter::Spark {
                htlc_status,
                conversion_refund_needed: refund_flag_of(conversion_filter),
            },
            StoragePaymentDetailsFilter::Token { conversion_filter, tx_hash, tx_type } =>
                PaymentDetailsFilter::Token {
                conversion_refund_needed: refund_flag_of(conversion_filter),
                tx_hash,
                tx_type,
            },
            StoragePaymentDetailsFilter::Lightning { htlc_status, .. } => PaymentDetailsFilter::Lightning {
                htlc_status,
            },
        }
    }
}

impl vstd::std_specs::convert::FromSpecImpl<StoragePaymentDetailsFilter> for PaymentDetailsFilter {
    open spec fn obeys_from_spec() -> bool {
        true
    }

    open spec fn from_spec(v: StoragePaymentDetailsFilter) -> PaymentDetailsFilter {
        public_filter_of(v)
    }
}

/// Whether a public filter's conversion-refund flag reads back unchanged
/// through storage: everything but an explicit "no refund needed", which
/// storage cannot tell from no flag.
pub open spec fn refund_flag_survives(f: PaymentDetailsFilter) -> bool {
    match f {
        PaymentDetailsFilter::Spark { conversion_refund_needed, .. } => conversion_refund_needed
            != Some(false),
        PaymentDetailsFilter::Token { conversion_refund_needed, .. } => conversion_refund_needed
            != Some(false),
        PaymentDetailsFilter::Lightning { .. } => true,
    }
}

/// A public filter taken to storage and back is the filter it was, unless
/// it carried an explicit "no refund needed" flag, which comes back unset.
pub proof fn law_filter_roundtrip(f: PaymentDetailsFilter)
    ensures
        refund_flag_survives(f) ==> public_filter_of(storage_filter_of(f)) == f,
        !refund_flag_survives(f) ==> refund_flag_survives(public_filter_of(storage_filter_of(f))),
{
}

fn storage_filters_of(filters: Vec<PaymentDetailsFilter>) -> (r: Vec<StoragePaymentDetailsFilter>)
    ensures
        r@ == filters@.map_values(|f: PaymentDetailsFilter| storage_filter_of(f)),
{
    let ghost all = filters@;
    let mut out: Vec<StoragePaymentDetailsFilter> = Vec::new();
    for f in it: filters.into_iter()
        invariant
            it.seq() == all,
            out@ == all.take(it.index() as int).map_values(|f: PaymentDetailsFilter| storage_filter_of(f)),
    {
        let s = StoragePaymentDetailsFilter::from(f);
        proof {
            assert(all.take(it.index() as int + 1) =~= all.take(it.index() as int).push(f));
        }
        out.push(s);
        proof {
            assert(out@ =~= all.take(it.index() as int + 1).map_values(
                |f: PaymentDetailsFilter| storage_filter_of(f),
            ));
        }
    }
    proof { assert(all.take(all.len() as int) =~= all); }
    out
}

fn public_filters_of(filters: Vec<StoragePaymentDetailsFilter>) -> (r: Vec<PaymentDetailsFilter>)
    ensures
        r@ == filters@.map_values(|f: StoragePaymentDetailsFilter| public_filter_of(f)),
{
    let ghost all = filters@;
    let mut out: Vec<PaymentDetailsFilter> = Vec::new();
    for f in it: filters.into_iter()
        invariant
            it.seq() == all,
            out@ == all.take(it.index() as int).map_values(|f: StoragePaymentDetailsFilter| public_filter_of(f)),
    {
        let s = PaymentDetailsFilter::from(f);
        proof {
            assert(all.take(it.index() as int + 1) =~= all.take(it.index() as int).push(f));
        }
        out.push(s);
        proof {
            assert(out@ =~= all.take(it.index() as int + 1).map_values(
                |f: StoragePaymentDetailsFilter| public_filter_of(f),
            ));
        }
    }
    proof { assert(all.take(all.len() as int) =~= all); }
    out
}

/// Whether `r` is the storage form of the public request `q`: every field
/// carried over, each payment-details filter mapped to its storage form.
pub open spec fn is_storage_request_of(r: StorageListPaymentsRequest, q: ListPaymentsRequest) -> bool {
    &&& r.type_filter == q.type_filter
    &&& r.status_filter == q.status_filter
    &&& r.asset_filter == q.asset_filter
    &&& r.from_timestamp == q.from_timestamp
    &&& r.to_timestamp == q.to_timestamp
    &&& r.offset == q.offset
    &&& r.limit == q.limit
    &&& r.sort_ascending == q.sort_ascending
    &&& r.payment_details_filter is Some == q.payment_details_filter is Some
    &&& q.payment_details_filter matches Some(fs) ==> r.payment_details_filter->0@ == fs@.map_values(
        |f: PaymentDetailsFilter| storage_filter_of(f),
    )
}

/// Whether `q` is the public form of the storage request `r`.
pub open spec fn is_public_request_of(q: ListPaymentsRequest, r: StorageListPaymentsRequest) -> bool {
    &&& q.type_filter == r.type_filter
    &&& q.status_filter == r.status_filter
    &&& q.asset_filter == r.asset_filter
    &&& q.from_timestamp == r.from_timestamp
    &&& q.to_timestamp == r.to_timestamp
    &&& q.offset == r.offset
    &&& q.limit == r.limit
    &&& q.sort_ascending == r.sort_ascending
    &&& q.payment_details_filter is Some == r.payment_details_filter is Some
    &&& r.payment_details_filter matches Some(fs) ==> q.payment_details_filter->0@ == fs@.map_values(
        |f: StoragePaymentDetailsFilter| public_filter_of(f),
    )
}

impl StorageListPaymentsRequest {
    /// The storage form of a public payment query.
    pub fn from_request(request: ListPaymentsRequest) -> (r: StorageListPaymentsRequest)
        ensures
            is_storage_request_of(r, request),
    {
        let payment_details_filter = match request.payment_details_filter {
            Some(filters) => Some(storage_filters_of(filters)),
            None => None,
        };
        StorageListPaymentsRequest {
            type_filter: request.type_filter,
            status_filter: request.status_filter,
            asset_filter: request.asset_filter,
            payment_details_filter,
            from_timestamp: request.from_timestamp,
            to_timestamp: request.to_timestamp,
            offset: request.offset,
            limit: request.limit,
            sort_ascending: request.sort_ascending,
        }
    }

    /// The public form of a storage payment query.
    pub fn into_request(self) -> (q: ListPaymentsRequest)
        ensures
            is_public_request_of(q, self),
    {
        let payment_details_filter = match self.payment_details_filter {
            Some(filters) => Some(public_filters_of(filters)),
            None => None,
        };
        ListPaymentsRequest {
            type_filter: self.type_filter,
            status_filter: self.status_filter,
            asset_filter: self.asset_filter,
            payment_details_filter,
            from_timestamp: self.from_timestamp,
            to_timestamp: self.to_timestamp,
            offset: self.offset,
            limit: self.limit,
            sort_ascending: self.sort_ascending,
        }
    }
}

impl Default for StorageListPaymentsRequest {
    fn default() -> (r: StorageListPaymentsRequest)
        ensures
            r == (StorageListPaymentsRequest {
                type_filter: None,
                status_filter: None,
                asset_filter: None,
                payment_details_filter: None,
                from_timestamp: None,
                to_timestamp: None,
                offset: None,
                limit: None,
                sort_ascending: None,
            }),
    {
        StorageListPaymentsRequest {
            type_filter: None,
            status_filter: None,
            asset_filter: None,
            payment_details_filter: None,
            from_timestamp: None,
            to_timestamp: None,
            offset: None,
            limit: None,
            sort_ascending: None,
        }
    }
}

/// A public query taken to storage and back asks for the same payments:
/// every field but the payment-details filters comes back as it was, and so
/// does each filter whose refund flag survives storage.
pub proof fn law_request_roundtrip(
    q: ListPaymentsRequest,
    r: StorageListPaymentsRequest,
    back: ListPaymentsRequest,
)
    requires
        is_storage_request_of(r, q),
        is_public_request_of(back, r),
    ensures
        back.type_filter == q.type_filter,
        back.status_filter == q.status_filter,
        back.asset_filter == q.asset_filter,
        back.from_timestamp == q.from_timestamp,
        back.to_timestamp == q.to_timestamp,
        back.offset == q.offset,
        back.limit == q.limit,
        back.sort_ascending == q.sort_ascending,
        back.payment_details_filter is Some == q.payment_details_filter is Some,
        q.payment_details_filter matches Some(fs) ==> {
            &&& back.payment_details_filter->0@.len() == fs@.len()
            &&& forall|i: int|
                0 <= i < fs@.len() && refund_flag_survives(#[trigger] fs@[i])
                    ==> back.payment_details_filter->0@[i] == fs@[i]
        },
{
    if let Some(fs) = q.payment_details_filter {
        let mid = r.payment_details_filter->0@;
        let out = back.payment_details_filter->0@;
        assert forall|i: int| 0 <= i < fs@.len() && refund_flag_survives(#[trigger] fs@[i]) implies out[i]
            == fs@[i] by {
            assert(mid[i] == storage_filter_of(fs@[i]));
            assert(out[i] == public_filter_of(mid[i]));
            law_filter_roundtrip(fs@[i]);
        }
    }
}

} // verus!
