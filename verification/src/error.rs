//! The SDK's error types and the messages they render to.

use vstd::prelude::*;
use vstd::string::StringExecFns;

use crate::models::{DepositClaimError, Fee};
use crate::text::{decimal, decimal_string};

verus! {

/// Error type for the SDK.
#[derive(Clone, Debug, PartialEq)]
pub enum SdkError {
    SparkError(String),
    InsufficientFunds {
        /// The token that cannot cover the payment. Unset when the shortfall is
        /// in sats or when no single token can be named.
        token_identifier: Option<String>,
    },
    InvalidUuid(String),
    /// Invalid input error
    InvalidInput(String),
    /// A cross-chain provider rejected the amount as outside what it accepts
    /// for the route. The bound fields carry what the route publishes in the
    /// direction that failed.
    CrossChainAmountOutOfRange {
        reason: String,
        /// `true` for a rejection below the minimum, `false` for one above the
        /// maximum or beyond available liquidity.
        too_small: bool,
        /// The published bound in the base units of the asset paid in.
        bound_amount: Option<u128>,
        /// The published bound as an order value in USD cents.
        bound_usd_cents: Option<u64>,
        /// Whether the provider can reject an amount that satisfies the bound.
        dynamic_limits_possible: bool,
    },
    /// Network error
    NetworkError(String),
    /// Storage error
    StorageError(String),
    ChainServiceError(String),
    MaxDepositClaimFeeExceeded {
        tx: String,
        vout: u32,
        max_fee: Option<Fee>,
        required_fee_sats: u64,
        required_fee_rate_sat_per_vbyte: u64,
    },
    MissingUtxo { tx: String, vout: u32 },
    /// Another claim on this deposit is already running.
    DepositClaimInProgress { tx: String, vout: u32 },
    /// A refund for this deposit is already on the network, and the requested
    /// replacement does not pay enough to displace it.
    RefundReplacementFeeTooLow { pending_fee_sats: u64, required_fee_sats: u64 },
    LnurlError(String),
    Signer(String),
    /// `optimize_leaves` was called while another optimization run was in flight.
    OptimizationAlreadyRunning,
    /// `optimize_leaves` was preempted to free leaves for a payment.
    OptimizationCancelled,
    /// The provided CPFP funding is too low to cover the exit's on-chain fees.
    InsufficientCpfpFunds { required_sat: u64 },
    Generic(String),
}

/// Errors that can occur during storage operations
#[derive(Clone, Debug, PartialEq)]
pub enum StorageError {
    /// Connection-related errors; often transient.
    Connection(String),
    Implementation(String),
    /// Database initialization error
    InitializationError(String),
    Serialization(String),
    NotFound,
}

/// Error type for signer operations
#[derive(Clone, Debug, PartialEq)]
pub enum SignerError {
    KeyDerivation(String),
    Signing(String),
    Encryption(String),
    Decryption(String),
    EncryptionUnavailable(String),
    Frost(String),
    InvalidInput(String),
    Generic(String),
}

/// Whether `r` is an invalid-input error carrying the message `msg`.
pub open spec fn invalid_input_is<T>(r: Result<T, SdkError>, msg: Seq<char>) -> bool {
    match r {
        Err(SdkError::InvalidInput(m)) => m@ == msg,
        _ => false,
    }
}

/// Whether `r` is a generic error carrying the message `msg`.
pub open spec fn generic_error_is<T>(r: Result<T, SdkError>, msg: Seq<char>) -> bool {
    match r {
        Err(SdkError::Generic(m)) => m@ == msg,
        _ => false,
    }
}

/// `x` as two decimal digits, zero padded.
pub open spec fn two_digits(x: nat) -> Seq<char> {
    if x < 10 { "0"@ + decimal(x) } else { decimal(x) }
}

/// An amount of USD cents written as dollars with two decimals.
pub open spec fn usd_text(cents: nat) -> Seq<char> {
    decimal(cents / 100) + "."@ + two_digits(cents % 100)
}

/// The published bounds named in an amount rejection, joined by `" or "`.
pub open spec fn bounds_text(bound_amount: Option<u128>, bound_usd_cents: Option<u64>) -> Seq<char> {
    match (bound_amount, bound_usd_cents) {
        (Some(a), Some(c)) => decimal(a as nat) + " base units"@ + " or "@ + usd_text(c as nat) + " USD"@,
        (Some(a), None) => decimal(a as nat) + " base units"@,
        (None, Some(c)) => usd_text(c as nat) + " USD"@,
        (None, None) => Seq::empty(),
    }
}

/// What `render_bound` renders: empty when nothing is published; otherwise
/// the bounds labelled as a minimum or a maximum, with a caveat on a minimum
/// the route can raise.
pub open spec fn spec_render_bound(
    too_small: bool,
    bound_amount: Option<u128>,
    bound_usd_cents: Option<u64>,
    dynamic_limits_possible: bool,
) -> Seq<char> {
    if bound_amount is None && bound_usd_cents is None {
        Seq::empty()
    } else {
        let label = if too_small { "minimum"@ } else { "maximum"@ };
        let caveat = if dynamic_limits_possible && too_small {
            "; the route can enforce a higher one"@
        } else {
            Seq::empty()
        };
        " (published "@ + label + ": "@ + bounds_text(bound_amount, bound_usd_cents) + caveat + ")"@
    }
}

fn two_digit_string(x: u64) -> (r: String)
    requires
        x < 100,
    ensures
        r@ == two_digits(x as nat),
{
    if x < 10 {
        String::from_str("0").concat(decimal_string(x as u128).as_str())
    } else {
        decimal_string(x as u128)
    }
}

fn usd_string(cents: u64) -> (r: String)
    ensures
        r@ == usd_text(cents as nat),
{
    decimal_string((cents / 100) as u128).concat(".").concat(two_digit_string(cents % 100).as_str())
}

/// Renders the bound an amount rejection ran into, for the error message.
/// Empty when the provider publishes nothing in that direction. Both
/// denominations are named when both are published.
pub fn render_bound(
    too_small: bool,
    bound_amount: Option<u128>,
    bound_usd_cents: Option<u64>,
    dynamic_limits_possible: bool,
) -> (r: String)
    ensures
        r@ == spec_render_bound(too_small, bound_amount, bound_usd_cents, dynamic_limits_possible),
{
    let bounds: String = match (bound_amount, bound_usd_cents) {
        (Some(a), Some(c)) => decimal_string(a).concat(" base units").concat(" or ").concat(
            usd_string(c).as_str(),
        ).concat(" USD"),
        (Some(a), None) => decimal_string(a).concat(" base units"),
        (None, Some(c)) => usd_string(c).concat(" USD"),
        (None, None) => {
            return String::new();
        },
    };
    let label = if too_small { "minimum" } else { "maximum" };
    let caveat = if dynamic_limits_possible && too_small {
        "; the route can enforce a higher one"
    } else {
        ""
    };
    proof {
        reveal_strlit("");
        assert(""@ =~= Seq::<char>::empty());
    }
    let r = String::from_str(" (published ").concat(label).concat(": ").concat(bounds.as_str()).concat(
        caveat,
    ).concat(")");
    proof {
        assert(r@ =~= spec_render_bound(too_small, bound_amount, bound_usd_cents, dynamic_limits_possible));
    }
    r
}

/// The `Debug` rendering of an optional on-chain fee.
pub open spec fn fee_debug(fee: Option<Fee>) -> Seq<char> {
    match fee {
        None => "None"@,
        Some(Fee::Fixed { amount }) => "Some(Fixed { amount: "@ + decimal(amount as nat) + " })"@,
        Some(Fee::Rate { sat_per_vbyte }) => "Some(Rate { sat_per_vbyte: "@ + decimal(sat_per_vbyte as nat) + " })"@,
    }
}

fn fee_debug_string(fee: Option<Fee>) -> (r: String)
    ensures
        r@ == fee_debug(fee),
{
    match fee {
        None => String::from_str("None"),
        Some(Fee::Fixed { amount }) => String::from_str("Some(Fixed { amount: ").concat(
            decimal_string(amount as u128).as_str(),
        ).concat(" })"),
        Some(Fee::Rate { sat_per_vbyte }) => String::from_str("Some(Rate { sat_per_vbyte: ").concat(
            decimal_string(sat_per_vbyte as u128).as_str(),
        ).concat(" })"),
    }
}

/// The text of a deposit-claim fee rejection.
pub open spec fn max_claim_fee_text(
    tx: Seq<char>,
    vout: u32,
    max_fee: Option<Fee>,
    required_fee_sats: u64,
    required_fee_rate_sat_per_vbyte: u64,
) -> Seq<char> {
    "Max deposit claim fee exceeded for utxo: "@ + tx + ":"@ + decimal(vout as nat)
        + " with max fee: "@ + fee_debug(max_fee) + " and required fee: "@
        + decimal(required_fee_sats as nat) + " sats or "@
        + decimal(required_fee_rate_sat_per_vbyte as nat) + " sats/vbyte"@
}

fn max_claim_fee_string(
    tx: &String,
    vout: u32,
    max_fee: Option<Fee>,
    required_fee_sats: u64,
    required_fee_rate_sat_per_vbyte: u64,
) -> (r: String)
    ensures
        r@ == max_claim_fee_text(tx@, vout, max_fee, required_fee_sats, required_fee_rate_sat_per_vbyte),
{
    String::from_str("Max deposit claim fee exceeded for utxo: ").concat(tx.as_str()).concat(":").concat(
        decimal_string(vout as u128).as_str(),
    ).concat(" with max fee: ").concat(fee_debug_string(max_fee).as_str()).concat(
        " and required fee: ",
    ).concat(decimal_string(required_fee_sats as u128).as_str()).concat(" sats or ").concat(
        decimal_string(required_fee_rate_sat_per_vbyte as u128).as_str(),
    ).concat(" sats/vbyte")
}

/// The text of a missing-UTXO error.
pub open spec fn utxo_text(prefix: Seq<char>, tx: Seq<char>, vout: u32) -> Seq<char> {
    prefix + tx + ":"@ + decimal(vout as nat)
}

fn utxo_string(prefix: &str, tx: &String, vout: u32) -> (r: String)
    ensures
        r@ == utxo_text(prefix@, tx@, vout),
{
    String::from_str(prefix).concat(tx.as_str()).concat(":").concat(decimal_string(vout as u128).as_str())
}

impl SdkError {
    /// The human-readable message of this error.
    pub open spec fn text(self) -> Seq<char> {
        match self {
            SdkError::SparkError(s) => "SparkSdkError: "@ + s@,
            SdkError::InsufficientFunds { token_identifier } => match token_identifier {
                Some(t) => "Insufficient funds"@ + " for token "@ + t@,
                None => "Insufficient funds"@,
            },
            SdkError::InvalidUuid(s) => "Invalid UUID: "@ + s@,
            SdkError::InvalidInput(s) => "Invalid input: "@ + s@,
            SdkError::CrossChainAmountOutOfRange {
                reason,
                too_small,
                bound_amount,
                bound_usd_cents,
                dynamic_limits_possible,
            } => "Amount "@ + (if too_small { "too small"@ } else { "too large"@ })
                + " for this route: "@ + reason@
                + spec_render_bound(too_small, bound_amount, bound_usd_cents, dynamic_limits_possible),
            SdkError::NetworkError(s) => "Network error: "@ + s@,
            SdkError::StorageError(s) => "Storage error: "@ + s@,
            SdkError::ChainServiceError(s) => "Chain service error: "@ + s@,
            SdkError::MaxDepositClaimFeeExceeded {
                tx,
                vout,
                max_fee,
                required_fee_sats,
                required_fee_rate_sat_per_vbyte,
            } => max_claim_fee_text(tx@, vout, max_fee, required_fee_sats, required_fee_rate_sat_per_vbyte),
            SdkError::MissingUtxo { tx, vout } => utxo_text("Missing utxo: "@, tx@, vout),
            SdkError::DepositClaimInProgress { tx, vout } => utxo_text(
                "Deposit claim already in progress: "@,
                tx@,
                vout,
            ),
            SdkError::RefundReplacementFeeTooLow { pending_fee_sats, required_fee_sats } =>
                "A refund is already pending at "@ + decimal(pending_fee_sats as nat)
                + " sats: a replacement must pay at least "@ + decimal(required_fee_sats as nat)
                + " sats"@,
            SdkError::LnurlError(s) => "Lnurl error: "@ + s@,
            SdkError::Signer(s) => "Signer error: "@ + s@,
            SdkError::OptimizationAlreadyRunning => "Optimization is already in progress"@,
            SdkError::OptimizationCancelled => "Optimization was cancelled by the SDK to free leaves"@,
            SdkError::InsufficientCpfpFunds { required_sat } =>
                "Insufficient CPFP funding: need at least "@ + decimal(required_sat as nat) + " sats"@,
            SdkError::Generic(s) => "Error: "@ + s@,
        }
    }

    /// The human-readable message of this error (what `to_string` renders).
    pub fn message(&self) -> (r: String)
        ensures
            r@ == self.text(),
    {
        match self {
            SdkError::SparkError(s) => String::from_str("SparkSdkError: ").concat(s.as_str()),
            SdkError::InsufficientFunds { token_identifier } => match token_identifier {
                Some(t) => String::from_str("Insufficient funds").concat(" for token ").concat(t.as_str()),
                None => String::from_str("Insufficient funds"),
            },
            SdkError::InvalidUuid(s) => String::from_str("Invalid UUID: ").concat(s.as_str()),
            SdkError::InvalidInput(s) => String::from_str("Invalid input: ").concat(s.as_str()),
            SdkError::CrossChainAmountOutOfRange {
                reason,
                too_small,
                bound_amount,
                bound_usd_cents,
                dynamic_limits_possible,
            } => {
                let size = if *too_small { "too small" } else { "too large" };
                String::from_str("Amount ").concat(size).concat(" for this route: ").concat(
                    reason.as_str(),
                ).concat(
                    render_bound(
                        *too_small,
                        *bound_amount,
                        *bound_usd_cents,
                        *dynamic_limits_possible,
                    ).as_str(),
                )
            },
            SdkError::NetworkError(s) => String::from_str("Network error: ").concat(s.as_str()),
            SdkError::StorageError(s) => String::from_str("Storage error: ").concat(s.as_str()),
            SdkError::ChainServiceError(s) => String::from_str("Chain service error: ").concat(
                s.as_str(),
            ),
            SdkError::MaxDepositClaimFeeExceeded {
                tx,
                vout,
                max_fee,
                required_fee_sats,
                required_fee_rate_sat_per_vbyte,
            } => max_claim_fee_string(
                tx,
                *vout,
                *max_fee,
                *required_fee_sats,
                *required_fee_rate_sat_per_vbyte,
            ),
            SdkError::MissingUtxo { tx, vout } => utxo_string("Missing utxo: ", tx, *vout),
            SdkError::DepositClaimInProgress { tx, vout } => utxo_string(
                "Deposit claim already in progress: ",
                tx,
                *vout,
            ),
            SdkError::RefundReplacementFeeTooLow { pending_fee_sats, required_fee_sats } =>
                String::from_str("A refund is already pending at ").concat(
                decimal_string(*pending_fee_sats as u128).as_str(),
            ).concat(" sats: a replacement must pay at least ").concat(
                decimal_string(*required_fee_sats as u128).as_str(),
            ).concat(" sats"),
            SdkError::LnurlError(s) => String::from_str("Lnurl error: ").concat(s.as_str()),
            SdkError::Signer(s) => String::from_str("Signer error: ").concat(s.as_str()),
            SdkError::OptimizationAlreadyRunning => String::from_str(
                "Optimization is already in progress",
            ),
            SdkError::OptimizationCancelled => String::from_str(
                "Optimization was cancelled by the SDK to free leaves",
            ),
            SdkError::InsufficientCpfpFunds { required_sat } => String::from_str(
                "Insufficient CPFP funding: need at least ",
            ).concat(decimal_string(*required_sat as u128).as_str()).concat(" sats"),
            SdkError::Generic(s) => String::from_str("Error: ").concat(s.as_str()),
        }
    }
}

impl DepositClaimError {
    /// A deposit-claim error from an SDK error: the claim-specific variants
    /// carry over field for field, a generic error keeps its message, and any
    /// other error becomes a generic one carrying its rendered message.
    pub fn from_sdk_error(value: SdkError) -> (r: DepositClaimError)
        ensures
            r == (match value {
                SdkError::MaxDepositClaimFeeExceeded {
                    tx,
                    vout,
                    max_fee,
                    required_fee_sats,
                    required_fee_rate_sat_per_vbyte,
                } => DepositClaimError::MaxDepositClaimFeeExceeded {
                    tx,
                    vout,
                    max_fee,
                    required_fee_sats,
                    required_fee_rate_sat_per_vbyte,
                },
                SdkError::MissingUtxo { tx, vout } => DepositClaimError::MissingUtxo { tx, vout },
                SdkError::Generic(e) => DepositClaimError::Generic { message: e },
                _ => r,
            }),
            (r is Generic && !(value is Generic)) ==> r->Generic_message@ == value.text(),
            !(value is MaxDepositClaimFeeExceeded || value is MissingUtxo) ==> r is Generic,
    {
        let message = value.message();
        match value {
            SdkError::MaxDepositClaimFeeExceeded {
                tx,
                vout,
                max_fee,
                required_fee_sats,
                required_fee_rate_sat_per_vbyte,
            } => DepositClaimError::MaxDepositClaimFeeExceeded {
                tx,
                vout,
                max_fee,
                required_fee_sats,
                required_fee_rate_sat_per_vbyte,
            },
            SdkError::MissingUtxo { tx, vout } => DepositClaimError::MissingUtxo { tx, vout },
            SdkError::Generic(e) => DepositClaimError::Generic { message: e },
            _ => DepositClaimError::Generic { message },
        }
    }
}

impl SdkError {
    /// An SDK error from a storage error: a missing record reads as invalid
    /// input, anything else as a storage error carrying the storage error's
    /// message.
    pub fn from_storage_error(e: StorageError) -> (r: SdkError)
        ensures
            e is NotFound ==> r == SdkError::InvalidInput(r->InvalidInput_0) && r->InvalidInput_0@
                == "Not found"@,
            !(e is NotFound) ==> r is StorageError && r->StorageError_0@ == e.text(),
    {
        match e {
            StorageError::NotFound => SdkError::InvalidInput(String::from_str("Not found")),
            _ => SdkError::StorageError(e.message()),
        }
    }
}

impl StorageError {
    /// The human-readable message of this error.
    pub open spec fn text(self) -> Seq<char> {
        match self {
            StorageError::Connection(s) => "Connection error: "@ + s@,
            StorageError::Implementation(s) => "Underlying implementation error: "@ + s@,
            StorageError::InitializationError(s) => "Failed to initialize database: "@ + s@,
            StorageError::Serialization(s) => "Failed to serialize/deserialize data: "@ + s@,
            StorageError::NotFound => "Not found"@,
        }
    }

    /// The human-readable message of this error (what `to_string` renders).
    pub fn message(&self) -> (r: String)
        ensures
            r@ == self.text(),
    {
        match self {
            StorageError::Connection(s) => String::from_str("Connection error: ").concat(s.as_str()),
            StorageError::Implementation(s) => String::from_str(
                "Underlying implementation error: ",
            ).concat(s.as_str()),
            StorageError::InitializationError(s) => String::from_str(
                "Failed to initialize database: ",
            ).concat(s.as_str()),
            StorageError::Serialization(s) => String::from_str(
                "Failed to serialize/deserialize data: ",
            ).concat(s.as_str()),
            StorageError::NotFound => String::from_str("Not found"),
        }
    }
}

impl From<String> for SdkError {
    fn from(s: String) -> (r: SdkError) {
        SdkError::Generic(s)
    }
}

impl vstd::std_specs::convert::FromSpecImpl<String> for SdkError {
    open spec fn obeys_from_spec() -> bool {
        true
    }

    open spec fn from_spec(v: String) -> SdkError {
        SdkError::Generic(v)
    }
}

impl From<String> for SignerError {
    fn from(s: String) -> (r: SignerError) {
        SignerError::Generic(s)
    }
}

impl vstd::std_specs::convert::FromSpecImpl<String> for SignerError {
    open spec fn obeys_from_spec() -> bool {
        true
    }

    open spec fn from_spec(v: String) -> SignerError {
        SignerError::Generic(v)
    }
}

} // verus!
