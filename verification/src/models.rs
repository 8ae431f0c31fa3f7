//! The data model of the wallet SDK: payments, conversions, requests and
//! responses, and the events the SDK emits.

use std::collections::HashMap;
use vstd::prelude::*;

verus! {

/// Events emitted by the SDK
#[derive(Clone, Debug, PartialEq)]
pub enum SdkEvent {
    /// Emitted when the wallet has been synchronized with the network
    Synced,
    /// Emitted when the SDK was unable to claim deposits. Each deposit carries a
    /// `claim_error` with the reason.
    UnclaimedDeposits { unclaimed_deposits: Vec<DepositInfo> },
    /// Emitted when deposits were claimed into the wallet. The resulting payment
    /// is emitted separately as `PaymentSucceeded`.
    ClaimedDeposits { claimed_deposits: Vec<DepositInfo> },
    /// Emitted when a payment completed.
    PaymentSucceeded { payment: Payment },
    /// Emitted when a payment is in flight.
    PaymentPending { payment: Payment },
    /// Emitted when a payment failed.
    PaymentFailed { payment: Payment },
    /// Emitted while the background auto-optimizer is running.
    AutoOptimization { optimization_event: AutoOptimizationEvent },
    /// Emitted when the Lightning address changed on another device.
    LightningAddressChanged { lightning_address: Option<LightningAddressInfo> },
    /// Emitted when on-chain deposits are detected.
    NewDeposits { new_deposits: Vec<DepositInfo> },
    /// Emitted when an exported unilateral exit state is out of date.
    UnilateralExitStateChanged,
    /// Emitted when a Stable Balance conversion the SDK runs on its own failed.
    /// The SDK keeps retrying with backoff; `retry_in_secs` is how long until
    /// the next attempt.
    StableBalanceConversionFailed {
        conversion: StableBalanceConversionKind,
        error: String,
        retry_in_secs: u64,
    },
}

/// Which Stable Balance conversion a `StableBalanceConversionFailed` event
/// refers to.
#[derive(Clone, Copy, Debug, PartialEq, Eq, Hash, Structural)]
pub enum StableBalanceConversionKind {
    /// Bitcoin above the threshold being swept into the stable token.
    AutoConvert,
    /// The stable token being converted back to bitcoin after deactivation.
    Deactivation,
}

#[derive(Clone, Debug, PartialEq)]
pub enum AutoOptimizationEvent {
    Started {
        total_rounds: u32,
    },
    RoundCompleted {
        current_round: u32,
        total_rounds: u32,
    },
    Completed,
    Cancelled,
    Failed {
        error: String,
    },
    Skipped,
}

#[derive(Clone, Debug, PartialEq)]
pub enum Seed {
    /// A BIP-39 mnemonic phrase with an optional passphrase.
    Mnemonic {
        /// The mnemonic phrase. 12 or 24 words.
        mnemonic: String,
        /// An optional passphrase for the mnemonic.
        passphrase: Option<String>,
    },
    /// Raw entropy bytes.
    Entropy(Vec<u8>),
}

#[derive(Clone, Debug, PartialEq)]
pub struct ConnectRequest {
    pub config: Config,
    pub seed: Seed,
    pub storage_dir: String,
}

#[derive(Clone, Debug, PartialEq)]
pub enum RefundState {
    BroadcastPending { last_error: Option<String> },
    Broadcast,
}

#[derive(Clone, Debug, PartialEq)]
pub struct DepositInfo {
    pub txid: String,
    pub vout: u32,
    pub amount_sats: u64,
    pub is_mature: bool,
    pub refund_tx: Option<String>,
    pub refund_tx_id: Option<String>,
    pub claim_error: Option<DepositClaimError>,
    pub instant_claim_status: Option<InstantClaimStatus>,
    pub refund_state: Option<RefundState>,
}

#[derive(Clone, Debug, PartialEq)]
pub struct ClaimDepositRequest {
    pub txid: String,
    pub vout: u32,
    pub max_fee: Option<MaxFee>,
}

#[derive(Clone, Debug, PartialEq)]
pub struct ClaimDepositResponse {
    pub payment: Option<Payment>,
}

#[derive(Clone, Debug, PartialEq)]
pub struct FetchClaimDepositQuoteRequest {
    pub txid: String,
    pub vout: u32,
}

#[derive(Clone, Debug, PartialEq)]
pub struct ClaimDepositQuote {
    pub confirmations_required: u32,
    pub credit_amount_sats: u64,
    pub fee_sats: u64,
    pub fee_rate_sat_per_vbyte: u64,
    pub is_estimate: bool,
}

#[derive(Clone, Debug, PartialEq)]
pub struct FetchClaimDepositQuoteResponse {
    pub amount_sats: u64,
    pub confirmations: u32,
    pub instant: Option<ClaimDepositQuote>,
    pub mature: ClaimDepositQuote,
}

#[derive(Clone, Debug, PartialEq)]
pub struct RefundDepositRequest {
    pub txid: String,
    pub vout: u32,
    pub destination_address: String,
    pub fee: Fee,
}

#[derive(Clone, Debug, PartialEq)]
pub struct RefundDepositResponse {
    pub tx_id: String,
    pub tx_hex: String,
}

#[derive(Clone, Debug, PartialEq)]
pub struct ListUnclaimedDepositsRequest {}

#[derive(Clone, Debug, PartialEq)]
pub struct ListUnclaimedDepositsResponse {
    pub deposits: Vec<DepositInfo>,
}

#[derive(Clone, Debug, PartialEq)]
pub enum DepositClaimError {
    MaxDepositClaimFeeExceeded {
        tx: String,
        vout: u32,
        max_fee: Option<Fee>,
        required_fee_sats: u64,
        required_fee_rate_sat_per_vbyte: u64,
    },
    MissingUtxo {
        tx: String,
        vout: u32,
    },
    Generic {
        message: String,
    },
}

#[derive(Clone, Debug, PartialEq)]
pub enum InstantClaimStatus {
    Declined {
        max_fee_sats: Option<u64>,
        confirmations: u32,
    },
    Submitted {
        claim_id: String,
    },
}

#[derive(Clone, Debug, PartialEq)]
pub struct CrossChainAddressDetails {
    pub address: String,
    pub address_family: CrossChainAddressFamily,
    pub contract_address: Option<String>,
    pub chain_id: Option<u64>,
    pub amount: Option<u128>,
}

#[derive(Clone, Debug, PartialEq)]
pub struct SparkAddressDetails {
    pub address: String,
    pub identity_public_key: String,
    pub network: BitcoinNetwork,
    pub source: PaymentRequestSource,
}

#[derive(Clone, Debug, PartialEq)]
pub struct SparkInvoiceDetails {
    pub invoice: String,
    pub identity_public_key: String,
    pub network: BitcoinNetwork,
    pub amount: Option<u128>,
    pub token_identifier: Option<String>,
    pub expiry_time: Option<u64>,
    pub description: Option<String>,
    pub sender_public_key: Option<String>,
}

#[derive(Clone, Debug, PartialEq)]
pub struct BitcoinAddressDetails {
    pub address: String,
    pub network: BitcoinNetwork,
    pub source: PaymentRequestSource,
}

#[derive(Clone, Copy, Debug, PartialEq, Eq, Hash, Structural)]
pub enum BitcoinNetwork {
    Bitcoin,
    Testnet3,
    Testnet4,
    Signet,
    Regtest,
}

#[derive(Clone, Debug, PartialEq)]
pub struct PaymentRequestSource {
    pub bip_21_uri: Option<String>,
    pub bip_353_address: Option<String>,
}

#[derive(Clone, Debug, PartialEq)]
pub struct Bolt11InvoiceDetails {
    pub amount_msat: Option<u64>,
    pub description: Option<String>,
    pub description_hash: Option<String>,
    pub expiry: u64,
    pub invoice: Bolt11Invoice,
    pub min_final_cltv_expiry_delta: u64,
    pub network: BitcoinNetwork,
    pub payee_pubkey: String,
    pub payment_hash: String,
    pub payment_secret: String,
    pub routing_hints: Vec<Bolt11RouteHint>,
    pub timestamp: u64,
}

#[derive(Clone, Debug, PartialEq)]
pub struct Bolt11Invoice {
    pub bolt11: String,
    pub source: PaymentRequestSource,
}

#[derive(Clone, Debug, PartialEq)]
pub struct Bolt11RouteHint {
    pub hops: Vec<Bolt11RouteHintHop>,
}

#[derive(Clone, Debug, PartialEq)]
pub struct Bolt11RouteHintHop {
    pub src_node_id: String,
    pub short_channel_id: String,
    pub fees_base_msat: u32,
    pub fees_proportional_millionths: u32,
    pub cltv_expiry_delta: u16,
    pub htlc_minimum_msat: Option<u64>,
    pub htlc_maximum_msat: Option<u64>,
}

#[derive(Clone, Debug, PartialEq)]
pub struct Bolt12InvoiceDetails {
    pub amount_msat: u64,
    pub invoice: Bolt12Invoice,
}

#[derive(Clone, Debug, PartialEq)]
pub struct Bolt12Invoice {
    pub invoice: String,
    pub source: PaymentRequestSource,
}

#[derive(Clone, Debug, PartialEq)]
pub struct Bolt12Offer {
    pub offer: String,
    pub source: PaymentRequestSource,
}

#[derive(Clone, Debug, PartialEq)]
pub struct Bolt12OfferDetails {
    pub absolute_expiry: Option<u64>,
    pub chains: Vec<String>,
    pub description: Option<String>,
    pub issuer: Option<String>,
    pub min_amount: Option<Amount>,
    pub offer: Bolt12Offer,
    pub paths: Vec<Bolt12OfferBlindedPath>,
    pub signing_pubkey: Option<String>,
}

#[derive(Clone, Debug, PartialEq)]
pub struct Bolt12OfferBlindedPath {
    pub blinded_hops: Vec<String>,
}

#[derive(Clone, Debug, PartialEq)]
pub enum Amount {
    Bitcoin {
        amount_msat: u64,
    },
    Currency {
        iso4217_code: String,
        fractional_amount: u64,
    },
}

#[derive(Clone, Debug, PartialEq)]
pub struct LightningAddressDetails {
    pub address: String,
    pub pay_request: LnurlPayRequestDetails,
}

#[derive(Clone, Debug, PartialEq)]
pub struct LnurlPayRequestDetails {
    pub callback: String,
    pub min_sendable: u64,
    pub max_sendable: u64,
    pub metadata_str: String,
    pub comment_allowed: u16,
    pub domain: String,
    pub url: String,
    pub address: Option<String>,
    pub allows_nostr: Option<bool>,
    pub nostr_pubkey: Option<String>,
}

#[derive(Clone, Debug, PartialEq)]
pub struct SilentPaymentAddressDetails {
    pub address: String,
    pub network: BitcoinNetwork,
    pub source: PaymentRequestSource,
}

#[derive(Clone, Debug, PartialEq)]
pub struct LnurlAuthRequestDetails {
    pub k1: String,
    pub action: Option<String>,
    pub domain: String,
    pub url: String,
}

#[derive(Clone, Debug, PartialEq)]
pub struct Bip21Extra {
    pub key: String,
    pub value: String,
}

/// A BOLT12 invoice request; it carries no fields yet.
#[derive(Clone, Debug, PartialEq)]
pub struct Bolt12InvoiceRequestDetails {}

#[derive(Clone, Debug, PartialEq)]
pub struct LnurlWithdrawRequestDetails {
    pub callback: String,
    pub k1: String,
    pub default_description: String,
    pub min_withdrawable: u64,
    pub max_withdrawable: u64,
    /// The URL of the LNURL-withdraw endpoint these details were fetched from.
    /// Set when the details come from parsing an input; determines how far the
    /// withdraw flow trusts the endpoint-chosen `callback`. Absent or empty
    /// means no exemption: the callback is held to the public-host rules.
    pub url: String,
}

#[derive(Clone, Debug, PartialEq)]
pub struct LnurlErrorDetails {
    pub reason: String,
}

#[derive(Clone, Debug, PartialEq)]
pub enum LnurlCallbackStatus {
    OkStatus,
    ErrorStatus { error_details: LnurlErrorDetails },
}

#[derive(Clone, Copy, Debug, PartialEq, Eq, Hash, Structural)]
pub enum PaymentType {
    Send,
    Receive,
}

#[derive(Clone, Copy, Debug, PartialEq, Eq, Hash, Structural)]
pub enum PaymentStatus {
    Completed,
    Pending,
    Failed,
}

#[derive(Clone, Debug, PartialEq)]
pub struct Payment {
    pub id: String,
    pub payment_type: PaymentType,
    pub status: PaymentStatus,
    pub amount: u128,
    pub fees: u128,
    pub timestamp: u64,
    pub method: PaymentMethod,
    pub details: Option<PaymentDetails>,
    pub conversion_details: Option<ConversionDetails>,
}

#[derive(Clone, Debug, PartialEq)]
pub struct ConversionDetails {
    pub status: ConversionStatus,
    pub conversions: Vec<Conversion>,
}

#[derive(Clone, Copy, Debug, PartialEq, Eq, Hash, Structural)]
pub enum ConversionProvider {
    Amm,
    Orchestra,
    Boltz,
}

#[derive(Clone, Debug, PartialEq)]
pub enum ConversionChain {
    Spark,
    Lightning,
    External {
        name: String,
        chain_id: Option<String>,
    },
}

#[derive(Clone, Debug, PartialEq)]
pub struct ConversionAsset {
    pub ticker: String,
    pub identifier: Option<String>,
    pub decimals: u32,
}

#[derive(Clone, Debug, PartialEq)]
pub struct ConversionSide {
    pub chain: ConversionChain,
    pub asset: ConversionAsset,
    pub amount: u128,
    pub fee: u128,
}

#[derive(Clone, Debug, PartialEq)]
pub struct Conversion {
    pub provider: ConversionProvider,
    pub status: ConversionStatus,
    pub from: ConversionSide,
    pub to: ConversionSide,
    pub amount_adjustment: Option<AmountAdjustmentReason>,
}

#[derive(Clone, Debug, PartialEq)]
pub enum PaymentDetails {
    Spark {
        invoice_details: Option<SparkInvoicePaymentDetails>,
        htlc_details: Option<SparkHtlcDetails>,
        conversion_info: Option<ConversionInfo>,
    },
    Token {
        metadata: TokenMetadata,
        tx_hash: String,
        tx_type: TokenTransactionType,
        invoice_details: Option<SparkInvoicePaymentDetails>,
        conversion_info: Option<ConversionInfo>,
    },
    Lightning {
        description: Option<String>,
        invoice: String,
        destination_pubkey: String,
        htlc_details: SparkHtlcDetails,
        lnurl_pay_info: Option<LnurlPayInfo>,
        lnurl_withdraw_info: Option<LnurlWithdrawInfo>,
        lnurl_receive_metadata: Option<LnurlReceiveMetadata>,
        conversion_info: Option<ConversionInfo>,
    },
    Withdraw {
        tx_id: String,
    },
    Deposit {
        tx_id: String,
        vout: u32,
    },
}

#[derive(Clone, Copy, Debug, PartialEq, Eq, Hash, Structural)]
pub enum TokenTransactionType {
    Transfer,
    Mint,
    Burn,
}

#[derive(Clone, Debug, PartialEq)]
pub struct SparkInvoicePaymentDetails {
    pub description: Option<String>,
    pub invoice: String,
}

#[derive(Clone, Debug, PartialEq)]
pub struct SparkHtlcDetails {
    pub payment_hash: String,
    pub preimage: Option<String>,
    pub expiry_time: u64,
    pub status: SparkHtlcStatus,
}

#[derive(Clone, Copy, Debug, PartialEq, Eq, Hash, Structural)]
pub enum SparkHtlcStatus {
    WaitingForPreimage,
    PreimageShared,
    Returned,
}

#[derive(Clone, Copy, Debug, PartialEq, Eq, Hash, Structural)]
pub enum PaymentMethod {
    Lightning,
    Spark,
    Token,
    Deposit,
    Withdraw,
    Unknown,
}

#[derive(Clone, Debug, PartialEq)]
pub struct LnurlPayInfo {
    pub ln_address: Option<String>,
    pub comment: Option<String>,
    pub domain: Option<String>,
    pub metadata: Option<String>,
    pub processed_success_action: Option<SuccessActionProcessed>,
    pub raw_success_action: Option<SuccessAction>,
}

#[derive(Clone, Debug, PartialEq)]
pub enum SuccessActionProcessed {
    Aes { result: AesSuccessActionDataResult },
    Message { data: MessageSuccessActionData },
    Url { data: UrlSuccessActionData },
}

#[derive(Clone, Debug, PartialEq)]
pub enum AesSuccessActionDataResult {
    Decrypted { data: AesSuccessActionDataDecrypted },
    ErrorStatus { reason: String },
}

#[derive(Clone, Debug, PartialEq)]
pub struct AesSuccessActionDataDecrypted {
    pub description: String,
    pub plaintext: String,
}

#[derive(Clone, Debug, PartialEq)]
pub struct MessageSuccessActionData {
    pub message: String,
}

#[derive(Clone, Debug, PartialEq)]
pub struct UrlSuccessActionData {
    pub description: String,
    pub url: String,
    pub matches_callback_domain: bool,
}

#[derive(Clone, Debug, PartialEq)]
pub enum SuccessAction {
    Aes { data: AesSuccessActionData },
    Message { data: MessageSuccessActionData },
    Url { data: UrlSuccessActionData },
}

#[derive(Clone, Debug, PartialEq)]
pub struct AesSuccessActionData {
    pub description: String,
    pub ciphertext: String,
    pub iv: String,
}

#[derive(Clone, Debug, PartialEq)]
pub struct LnurlWithdrawInfo {
    pub withdraw_url: String,
}

#[derive(Clone, Copy, Debug, PartialEq, Eq, Hash, Structural)]
pub enum Network {
    Mainnet,
    Regtest,
}

impl Network {
    /// The network's display name.
    pub fn display_name(&self) -> (r: &'static str)
        ensures
            r@ == (match self {
                Network::Mainnet => "Mainnet"@,
                Network::Regtest => "Regtest"@,
            }),
    {
        match self {
            Network::Mainnet => "Mainnet",
            Network::Regtest => "Regtest",
        }
    }
}

#[derive(Clone, Debug, PartialEq)]
pub struct Config {
    pub api_key: Option<String>,
    pub network: Network,
    pub sync_interval_secs: u32,
    pub max_deposit_claim_fee: Option<MaxFee>,
    pub lnurl_domain: Option<String>,
    pub prefer_spark_over_lightning: bool,
    pub exit_chain_auto_fetch_enabled: bool,
    pub external_input_parsers: Option<Vec<ExternalInputParser>>,
    pub use_default_external_input_parsers: bool,
    pub real_time_sync_server_url: Option<String>,
    pub private_enabled_default: bool,
    pub leaf_optimization_config: LeafOptimizationConfig,
    pub token_optimization_config: TokenOptimizationConfig,
    pub stable_balance_config: Option<StableBalanceConfig>,
    /// Maximum number of concurrent transfer claims.
    ///
    /// Controls how many pending Spark transfers can be claimed in parallel.
    /// Default is 4. Increase for server environments with high incoming
    /// payment volume to improve throughput.
    pub max_concurrent_claims: u32,
    pub spark_config: Option<SparkConfig>,
    pub background_tasks_enabled: bool,
    /// Routes the connections the SDK opens through a SOCKS5 proxy. Not
    /// supported on WASM: setting this always fails validation, since the
    /// browser owns connection setup and exposes no proxy control.
    pub proxy: Option<ProxyConfig>,
    pub cross_chain_config: Option<CrossChainConfig>,
}

#[derive(Clone, Debug, PartialEq)]
pub struct ProxyConfig {
    pub host: String,
    pub port: u16,
    pub username: Option<String>,
    pub password: Option<String>,
}

#[derive(Clone, Debug, PartialEq)]
pub struct CrossChainConfig {
    pub default_slippage_bps: Option<u32>,
    pub default_target_overpay_bps: Option<u32>,
}

#[derive(Clone, Debug, PartialEq)]
pub struct SparkConfig {
    pub coordinator_identifier: String,
    pub threshold: u32,
    pub signing_operators: Vec<SparkSigningOperator>,
    pub ssp_config: SparkSspConfig,
    pub expected_withdraw_bond_sats: u64,
    pub expected_withdraw_relative_block_locktime: u64,
    pub max_token_transaction_inputs: Option<u32>,
}

#[derive(Clone, Debug, PartialEq)]
pub struct SparkSigningOperator {
    pub id: u32,
    pub identifier: String,
    pub address: String,
    pub identity_public_key: String,
    pub ca_cert_pem: Option<String>,
}

#[derive(Clone, Debug, PartialEq)]
pub struct SparkSspConfig {
    pub base_url: String,
    pub identity_public_key: String,
    pub schema_endpoint: Option<String>,
}

#[derive(Clone, Debug, PartialEq)]
pub struct LeafOptimizationConfig {
    pub auto_enabled: bool,
    pub multiplicity: u8,
}

#[derive(Clone, Debug, PartialEq)]
pub struct TokenOptimizationConfig {
    pub auto_enabled: bool,
    pub target_output_count: u32,
    pub min_outputs_threshold: u32,
}

#[derive(Clone, Debug, PartialEq)]
pub struct StableBalanceToken {
    pub label: String,
    pub token_identifier: String,
}

#[derive(Clone, Debug, PartialEq)]
pub struct StableBalanceConfig {
    pub tokens: Vec<StableBalanceToken>,
    pub default_active_label: Option<String>,
    pub threshold_sats: Option<u64>,
    pub max_slippage_bps: Option<u32>,
}

#[derive(Clone, Debug, PartialEq)]
pub enum MaxFee {
    Fixed { amount: u64 },
    Rate { sat_per_vbyte: u64 },
    NetworkRecommended { leeway_sat_per_vbyte: u64 },
}

#[derive(Clone, Copy, Debug, PartialEq, Eq, Structural)]
pub enum Fee {
    Fixed { amount: u64 },
    Rate { sat_per_vbyte: u64 },
}

#[derive(Clone, Debug, PartialEq)]
pub struct ExternalInputParser {
    pub provider_id: String,
    pub input_regex: String,
    pub parser_url: String,
}

#[derive(Clone, Debug, PartialEq)]
pub enum CpfpInput {
    P2wpkh {
        txid: String,
        vout: u32,
        value: u64,
        pubkey: String,
    },
    P2tr {
        txid: String,
        vout: u32,
        value: u64,
        pubkey: String,
    },
    Custom {
        txid: String,
        vout: u32,
        value: u64,
        script_pubkey_hex: String,
        signed_input_weight: u64,
    },
}

#[derive(Clone, Debug, PartialEq)]
pub enum CpfpFundingKind {
    P2wpkh,
    P2tr,
    Custom {
        script_pubkey_hex: String,
        signed_input_weight: u64,
    },
}

#[derive(Clone, Debug, PartialEq)]
pub enum ExitLeafSelection {
    Auto,
    Specific { leaf_ids: Vec<String> },
}

#[derive(Clone, Copy, Debug, PartialEq, Eq, Hash, Structural)]
pub enum UnilateralExitTxKind {
    FanOut,
    Node,
    Refund,
    Sweep,
}

#[derive(Clone, Debug, PartialEq)]
pub enum ExitTransactionStatus {
    Confirmed { block_height: Option<u32> },
    Ready,
    WaitingForDependencies,
    WaitingForTimelock { spendable_at_height: Option<u32> },
    Unverified,
}

#[derive(Clone, Debug, PartialEq)]
pub struct UnilateralExitTransaction {
    pub kind: UnilateralExitTxKind,
    pub node_id: Option<String>,
    pub txid: String,
    pub tx_hex: String,
    pub cpfp_tx_hex: Option<String>,
    pub csv_timelock_blocks: Option<u32>,
    pub depends_on: Vec<String>,
    pub status: ExitTransactionStatus,
}

#[derive(Clone, Debug, PartialEq)]
pub struct UnilateralExitLeaf {
    pub leaf_id: String,
    pub value: u64,
}

#[derive(Clone, Debug, PartialEq)]
pub struct PerBranchFunding {
    pub leaf_id: String,
    pub funding_sat: u64,
}

#[derive(Clone, Debug, PartialEq)]
pub struct PrepareUnilateralExitRequest {
    pub fee_rate_sat_per_vbyte: u64,
    pub funding_kind: CpfpFundingKind,
    pub destination: String,
    pub selection: ExitLeafSelection,
}

#[derive(Clone, Debug, PartialEq)]
pub struct ExitChainState {
    pub confirmed_nodes: Vec<ConfirmedExitNode>,
    pub refunds: Vec<ExitRefund>,
    pub stopped_leaf_ids: Vec<String>,
    pub unverified_node_ids: Vec<String>,
    pub unverifiable_confirmed_node_ids: Vec<String>,
}

#[derive(Clone, Debug, PartialEq)]
pub struct ConfirmedExitNode {
    pub node_id: String,
    pub confirmed_by: ExitNodeConfirmation,
    pub block_height: Option<u32>,
}

#[derive(Clone, Copy, Debug, PartialEq, Eq, Hash, Structural)]
pub enum ExitNodeConfirmation {
    Cpfp,
    Direct,
}

#[derive(Clone, Debug, PartialEq)]
pub struct ExitRefund {
    pub leaf_id: String,
    pub state: ExitRefundState,
}

#[derive(Clone, Debug, PartialEq)]
pub enum ExitRefundState {
    OnChain {
        tx_hex: String,
        vout: u32,
        value_sat: u64,
        block_height: Option<u32>,
    },
    Swept,
}

#[derive(Clone, Debug, PartialEq)]
pub struct PrepareUnilateralExitResponse {
    pub leaves: Vec<UnilateralExitLeaf>,
    pub recoverable_value_sat: u64,
    pub total_fee_sat: u64,
    pub cpfp_fee_sat: u64,
    pub fanout_fee_sat: u64,
    pub sweep_fee_sat: u64,
    pub single_utxo_funding_sat: u64,
    pub per_branch_funding: Vec<PerBranchFunding>,
    pub fee_rate_sat_per_vbyte: u64,
    pub destination: String,
    pub exit_chain_state: ExitChainState,
}

#[derive(Clone, Debug, PartialEq)]
pub struct UnilateralExitRequest {
    pub prepared: PrepareUnilateralExitResponse,
    pub funding_inputs: Vec<CpfpInput>,
}

#[derive(Clone, Debug, PartialEq)]
pub struct CheckUnilateralExitRequest {
    pub exit: UnilateralExitResponse,
}

#[derive(Clone, Debug, PartialEq)]
pub struct CheckUnilateralExitResponse {
    pub exit: UnilateralExitResponse,
    pub verdict: UnilateralExitVerdict,
}

#[derive(Clone, Debug, PartialEq)]
pub enum UnilateralExitVerdict {
    Valid,
    Done,
    Redo { reason: UnilateralExitRedoReason },
}

#[derive(Clone, Copy, Debug, PartialEq, Eq, Hash, Structural)]
pub enum UnilateralExitRedoReason {
    OnChainStateDiverged,
}

#[derive(Clone, Debug, PartialEq)]
pub struct UnilateralExitResponse {
    pub recoverable_value_sat: u64,
    pub total_fee_sat: u64,
    pub cpfp_fee_sat: u64,
    pub fanout_fee_sat: u64,
    pub sweep_fee_sat: u64,
    pub leaves: Vec<UnilateralExitLeaf>,
    pub transactions: Vec<UnilateralExitTransaction>,
    pub funding_inputs: Vec<CpfpInput>,
}

#[derive(Clone, Debug, PartialEq)]
pub struct ExportUnilateralExitStateResponse {
    pub exit_state: String,
}

#[derive(Clone, Debug, PartialEq)]
pub struct ImportUnilateralExitStateRequest {
    pub exit_state: String,
}

#[derive(Clone, Debug, PartialEq)]
pub struct ImportUnilateralExitStateResponse {
    pub imported_leaves: u32,
    pub skipped_foreign_leaves: u32,
    pub skipped_conflicting_leaves: u32,
    pub skipped_chains: u32,
}

#[derive(Clone, Debug, PartialEq)]
pub struct Credentials {
    pub username: String,
    pub password: String,
}

#[derive(Clone, Debug, PartialEq)]
pub struct GetInfoRequest {
    pub ensure_synced: Option<bool>,
}

#[derive(Clone, Debug, PartialEq)]
pub struct GetInfoResponse {
    pub identity_pubkey: String,
    pub balance_sats: u64,
    pub token_balances: HashMap<String, TokenBalance>,
}

#[derive(Clone, Debug, PartialEq)]
pub struct TokenBalance {
    pub balance: u128,
    pub token_metadata: TokenMetadata,
}

#[derive(Clone, Debug, PartialEq)]
pub struct TokenMetadata {
    pub identifier: String,
    pub issuer_public_key: String,
    pub name: String,
    pub ticker: String,
    pub decimals: u32,
    // Serde doesn't support deserializing u128 types whenever they are used with flatten: https://github.com/serde-rs/json/issues/625
    // This occurs in the storage implementation when parsing `PaymentDetails` due to the use of flatten in LnurlRequestDetails
    // Serializing as string is a workaround to avoid the issue.
    pub max_supply: u128,
    pub is_freezable: bool,
}

#[derive(Clone, Debug, PartialEq)]
pub struct SyncWalletRequest {}

#[derive(Clone, Debug, PartialEq)]
pub struct SyncWalletResponse {}

#[derive(Clone, Debug, PartialEq)]
pub enum ReceivePaymentMethod {
    SparkAddress,
    SparkInvoice {
        amount: Option<u128>,
        token_identifier: Option<String>,
        expiry_time: Option<u64>,
        description: Option<String>,
        sender_public_key: Option<String>,
    },
    BitcoinAddress {
        new_address: Option<bool>,
    },
    Bolt11Invoice {
        description: String,
        amount_sats: Option<u64>,
        expiry_secs: Option<u32>,
        payment_hash: Option<String>,
        receiver_identity_public_key: Option<String>,
    },
    CrossChain {
        route: CrossChainRoutePair,
        amount: u128,
        destination: Option<SparkAsset>,
        fee_mode: Option<CrossChainFeeMode>,
        max_slippage_bps: Option<u32>,
        target_overpay_bps: Option<u32>,
    },
}

#[derive(Clone, Debug, PartialEq)]
pub struct SendOnchainFeeQuote {
    pub id: String,
    pub expires_at: u64,
    pub speed_fast: SendOnchainSpeedFeeQuote,
    pub speed_medium: SendOnchainSpeedFeeQuote,
    pub speed_slow: SendOnchainSpeedFeeQuote,
    pub is_estimate: bool,
}

#[derive(Clone, Debug, PartialEq)]
pub struct SendOnchainSpeedFeeQuote {
    pub user_fee_sat: u64,
    pub l1_broadcast_fee_sat: u64,
}

#[derive(Clone, Copy, Debug, PartialEq, Eq, Hash, Structural)]
pub enum CrossChainProvider {
    Orchestra,
    Boltz,
}

#[derive(Clone, Copy, Debug, PartialEq, Eq, Hash, Structural)]
pub enum CrossChainAddressFamily {
    Evm,
    Solana,
    Tron,
}

#[derive(Clone, Debug, PartialEq)]
pub enum CrossChainRouteFilter {
    Send {
        address_details: CrossChainAddressDetails,
    },
    Receive {
        contract_address: Option<String>,
    },
    PaymentLink {
        address_details: CrossChainAddressDetails,
    },
}

#[derive(Debug, PartialEq)]
pub enum SparkAsset {
    Bitcoin,
    Token { token_identifier: String },
}

#[derive(Clone, Copy, Debug, PartialEq, Eq, Structural)]
pub struct CrossChainRouteLimits {
    pub min_amount: Option<u128>,
    pub max_amount: Option<u128>,
    pub min_usd_cents: Option<u64>,
    pub max_usd_cents: Option<u64>,
    pub dynamic_limits_possible: bool,
}

#[derive(Debug, PartialEq)]
pub struct CrossChainAcceptedAsset {
    pub asset: SparkAsset,
    pub limits: Option<CrossChainRouteLimits>,
}

#[derive(Clone, Copy, Debug, PartialEq, Eq, Hash, Structural)]
pub enum DeliveryMethod {
    Spark,
    Lightning,
    Bitcoin,
}

#[derive(Clone, Copy, Debug, PartialEq, Eq, Hash, Structural)]
pub enum CrossChainFeeMode {
    FeesExcluded,
    FeesIncluded,
}

#[derive(Debug, PartialEq)]
pub struct CrossChainRoutePair {
    pub provider: CrossChainProvider,
    pub chain: String,
    pub chain_id: Option<String>,
    pub asset: String,
    pub contract_address: Option<String>,
    pub decimals: u8,
    pub exact_out_eligible: bool,
    pub accepted_assets: Vec<CrossChainAcceptedAsset>,
    pub delivery_methods: Vec<DeliveryMethod>,
}

#[derive(Clone, Debug, PartialEq)]
pub enum CrossChainProviderContext {
    Orchestra {
        quote_id: String,
        deposit_address: String,
        deposit_amount: u128,
    },
    Boltz {
        swap_id: String,
        invoice: String,
        invoice_amount_sats: u64,
        max_slippage_bps: u32,
    },
}

#[derive(Clone, Debug, PartialEq)]
pub enum PaymentRequest {
    Input {
        input: String,
    },
    CrossChain {
        address: String,
        route: CrossChainRoutePair,
        max_slippage_bps: Option<u32>,
        target_overpay_bps: Option<u32>,
    },
}

#[derive(Clone, Debug, PartialEq)]
pub enum SendPaymentMethod {
    BitcoinAddress {
        address: BitcoinAddressDetails,
        fee_quote: SendOnchainFeeQuote,
    },
    Bolt11Invoice {
        invoice_details: Bolt11InvoiceDetails,
        spark_transfer_fee_sats: Option<u64>,
        lightning_fee_sats: u64,
    }, // should be replaced with the parsed invoice
    SparkAddress {
        address: String,
        fee: u128,
        token_identifier: Option<String>,
    },
    SparkInvoice {
        spark_invoice_details: SparkInvoiceDetails,
        fee: u128,
        token_identifier: Option<String>,
    },
    CrossChainAddress {
        route: CrossChainRoutePair,
        recipient_address: String,
        amount_in: u128,
        asset_amount_in: u128,
        estimated_out: u128,
        fee_amount: u128,
        service_fee_amount: u128,
        service_fee_asset: Option<String>,
        source_transfer_fee_sats: u64,
        fee_mode: CrossChainFeeMode,
        expires_at: String,
        provider_context: CrossChainProviderContext,
    },
}

#[derive(Clone, Debug, PartialEq)]
pub struct ReceivePaymentRequest {
    pub payment_method: ReceivePaymentMethod,
}

#[derive(Clone, Debug, PartialEq)]
pub struct ReceivePaymentResponse {
    pub payment_request: String,
    pub fee: u128,
    pub cross_chain_info: Option<CrossChainReceiveInfo>,
}

#[derive(Clone, Debug, PartialEq)]
pub struct CrossChainReceiveInfo {
    pub deposit_address: String,
    pub deposit_amount: u128,
    pub expected_received_amount: u128,
    pub destination_asset: String,
    pub token_identifier: Option<String>,
    pub service_fee_amount: u128,
    pub service_fee_asset: Option<String>,
    pub expires_at: u64,
}

#[derive(Clone, Copy, Debug, PartialEq, Eq, Hash, Structural, Default)]
pub enum FeePolicy {
    /// Fees are added on top of the specified amount (default behavior).
    #[default]
    FeesExcluded,
    /// Fees are deducted from the specified amount.
    FeesIncluded,
}

#[derive(Clone, Debug, PartialEq)]
pub struct PrepareLnurlPayRequest {
    pub amount: u128,
    pub comment: Option<String>,
    pub pay_request: LnurlPayRequestDetails,
    pub validate_success_action_url: Option<bool>,
    pub token_identifier: Option<String>,
    pub conversion_options: Option<ConversionOptions>,
    pub fee_policy: Option<FeePolicy>,
}

#[derive(Clone, Debug, PartialEq)]
pub struct PrepareLnurlPayResponse {
    pub amount_sats: u64,
    pub comment: Option<String>,
    pub pay_request: LnurlPayRequestDetails,
    pub fee_sats: u64,
    pub invoice_details: Bolt11InvoiceDetails,
    pub success_action: Option<SuccessAction>,
    pub conversion_estimate: Option<ConversionEstimate>,
    pub fee_policy: FeePolicy,
}

#[derive(Clone, Debug, PartialEq)]
pub struct LnurlPayRequest {
    pub prepare_response: PrepareLnurlPayResponse,
    pub idempotency_key: Option<String>,
}

#[derive(Clone, Debug, PartialEq)]
pub struct LnurlPayResponse {
    pub payment: Payment,
    pub success_action: Option<SuccessActionProcessed>,
}

#[derive(Clone, Debug, PartialEq)]
pub struct BuildUnsignedLnurlPayPackageRequest {
    pub prepare_response: PrepareLnurlPayResponse,
}

#[derive(Clone, Debug, PartialEq)]
pub enum PublishSignedLnurlPayResponse {
    SwapCompleted,
    PaymentSent { response: LnurlPayResponse },
}

#[derive(Clone, Debug, PartialEq)]
pub struct LnurlWithdrawRequest {
    pub amount_sats: u64,
    pub withdraw_request: LnurlWithdrawRequestDetails,
    pub completion_timeout_secs: Option<u32>,
}

#[derive(Clone, Debug, PartialEq)]
pub struct LnurlWithdrawResponse {
    pub payment_request: String,
    pub payment: Option<Payment>,
}

#[derive(Clone, Debug, PartialEq)]
pub enum TransferTarget {
    Spark {
        address: String,
        spark_invoice: Option<String>,
    },
    Lightning {
        bolt11: String,
        lnurl_pay: Option<LnurlPayContext>,
        fee_policy: FeePolicy,
        completion_timeout_secs: Option<u32>,
    },
    CoopExit {
        address: String,
        fee_quote: SendOnchainFeeQuote,
        confirmation_speed: OnchainConfirmationSpeed,
    },
}

#[derive(Clone, Debug, PartialEq)]
pub struct LnurlPayContext {
    pub pay_request: LnurlPayRequestDetails,
    pub comment: Option<String>,
    pub success_action: Option<SuccessAction>,
}

#[derive(Clone, Debug, PartialEq)]
pub enum BuildTransferPackageOptions {
    BitcoinAddress {
        confirmation_speed: OnchainConfirmationSpeed,
    },
    Bolt11Invoice {
        prefer_spark: bool,
        completion_timeout_secs: Option<u32>,
    },
}

#[derive(Clone, Debug, PartialEq)]
pub struct BuildUnsignedTransferPackageRequest {
    pub prepare_response: PrepareSendPaymentResponse,
    pub options: Option<BuildTransferPackageOptions>,
}

#[derive(Clone, Debug, PartialEq)]
pub struct PrepareSendPaymentRequest {
    pub payment_request: PaymentRequest,
    pub amount: Option<u128>,
    pub token_identifier: Option<String>,
    pub conversion_options: Option<ConversionOptions>,
    pub fee_policy: Option<FeePolicy>,
}

#[derive(Clone, Debug, PartialEq)]
pub struct PrepareSendPaymentResponse {
    pub payment_method: SendPaymentMethod,
    pub amount: u128,
    pub token_identifier: Option<String>,
    pub conversion_estimate: Option<ConversionEstimate>,
    pub fee_policy: FeePolicy,
}

#[derive(Clone, Copy, Debug, PartialEq, Eq, Hash, Structural)]
pub enum OnchainConfirmationSpeed {
    Fast,
    Medium,
    Slow,
}

#[derive(Clone, Debug, PartialEq)]
pub enum SendPaymentOptions {
    BitcoinAddress {
        confirmation_speed: OnchainConfirmationSpeed,
    },
    Bolt11Invoice {
        prefer_spark: bool,
        completion_timeout_secs: Option<u32>,
    },
    SparkAddress {
        htlc_options: Option<SparkHtlcOptions>,
    },
}

#[derive(Clone, Debug, PartialEq)]
pub struct SparkHtlcOptions {
    pub payment_hash: String,
    pub expiry_duration_secs: u64,
}

#[derive(Clone, Debug, PartialEq)]
pub struct SendPaymentRequest {
    pub prepare_response: PrepareSendPaymentResponse,
    pub options: Option<SendPaymentOptions>,
    pub idempotency_key: Option<String>,
}

#[derive(Clone, Debug, PartialEq)]
pub struct BatchRecipient {
    pub payment_request: String,
    pub amount: Option<u128>,
    pub token_identifier: Option<String>,
}

#[derive(Clone, Debug, PartialEq)]
pub struct PrepareSendBatchRequest {
    pub recipients: Vec<BatchRecipient>,
}

#[derive(Clone, Debug, PartialEq)]
pub enum BatchDestination {
    SparkAddress {
        address: String,
    },
    SparkInvoice {
        invoice_details: SparkInvoiceDetails,
    },
}

#[derive(Clone, Debug, PartialEq)]
pub struct ResolvedBatchRecipient {
    pub destination: BatchDestination,
    pub amount: u128,
    pub token_identifier: Option<String>,
}

#[derive(Clone, Debug, PartialEq)]
pub struct BatchTotal {
    pub token_identifier: Option<String>,
    pub amount: u128,
}

#[derive(Clone, Debug, PartialEq)]
pub struct PrepareSendBatchResponse {
    pub recipients: Vec<ResolvedBatchRecipient>,
    pub totals: Vec<BatchTotal>,
}

#[derive(Clone, Debug, PartialEq)]
pub struct SendBatchRequest {
    pub prepare_response: PrepareSendBatchResponse,
}

#[derive(Clone, Debug, PartialEq)]
pub struct SendBatchResponse {
    pub payments: Vec<Payment>,
}

#[derive(Clone, Debug, PartialEq)]
pub struct BuildUnsignedBatchPackageRequest {
    pub prepare_response: PrepareSendBatchResponse,
}

#[derive(Clone, Debug, PartialEq)]
pub enum PublishSignedTransferPackageResponse {
    SwapCompleted,
    PaymentSent { payment: Payment },
    PaymentsSent { payments: Vec<Payment> },
}

#[derive(Clone, Debug, PartialEq)]
pub struct SendPaymentResponse {
    pub payment: Payment,
}

#[derive(Clone, Debug, PartialEq)]
pub enum PaymentDetailsFilter {
    Spark {
        htlc_status: Option<Vec<SparkHtlcStatus>>,
        conversion_refund_needed: Option<bool>,
    },
    Token {
        conversion_refund_needed: Option<bool>,
        tx_hash: Option<String>,
        tx_type: Option<TokenTransactionType>,
    },
    Lightning {
        htlc_status: Option<Vec<SparkHtlcStatus>>,
    },
}

#[derive(Clone, Copy, Debug, PartialEq, Eq, Hash, Structural)]
pub enum ConversionFilter {
    AmmRefundNeeded,
    OrchestraPending,
    BoltzPending,
}

#[derive(Clone, Debug, PartialEq)]
pub enum StoragePaymentDetailsFilter {
    Spark {
        htlc_status: Option<Vec<SparkHtlcStatus>>,
        conversion_filter: Option<ConversionFilter>,
    },
    Token {
        conversion_filter: Option<ConversionFilter>,
        tx_hash: Option<String>,
        tx_type: Option<TokenTransactionType>,
    },
    Lightning {
        htlc_status: Option<Vec<SparkHtlcStatus>>,
        conversion_filter: Option<ConversionFilter>,
    },
}

#[derive(Clone, Debug, PartialEq)]
pub struct ListPaymentsRequest {
    pub type_filter: Option<Vec<PaymentType>>,
    pub status_filter: Option<Vec<PaymentStatus>>,
    pub asset_filter: Option<AssetFilter>,
    pub payment_details_filter: Option<Vec<PaymentDetailsFilter>>,
    pub from_timestamp: Option<u64>,
    pub to_timestamp: Option<u64>,
    pub offset: Option<u32>,
    pub limit: Option<u32>,
    pub sort_ascending: Option<bool>,
}

#[derive(Clone, Debug, PartialEq)]
pub struct StorageListPaymentsRequest {
    pub type_filter: Option<Vec<PaymentType>>,
    pub status_filter: Option<Vec<PaymentStatus>>,
    pub asset_filter: Option<AssetFilter>,
    pub payment_details_filter: Option<Vec<StoragePaymentDetailsFilter>>,
    pub from_timestamp: Option<u64>,
    pub to_timestamp: Option<u64>,
    pub offset: Option<u32>,
    pub limit: Option<u32>,
    pub sort_ascending: Option<bool>,
}

#[derive(Clone, Debug, PartialEq)]
pub enum AssetFilter {
    Bitcoin,
    Token { token_identifier: Option<String> },
}

#[derive(Clone, Debug, PartialEq)]
pub struct ListPaymentsResponse {
    pub payments: Vec<Payment>,
}

#[derive(Clone, Debug, PartialEq)]
pub struct GetPaymentRequest {
    pub payment_id: String,
}

#[derive(Clone, Debug, PartialEq)]
pub struct GetPaymentResponse {
    pub payment: Payment,
}

#[derive(Clone, Debug, PartialEq)]
pub struct LogEntry {
    pub line: String,
    pub level: String,
}

#[derive(Clone, Debug, PartialEq)]
pub struct PaymentMetadata {
    pub parent_payment_id: Option<String>,
    pub lnurl_pay_info: Option<LnurlPayInfo>,
    pub lnurl_withdraw_info: Option<LnurlWithdrawInfo>,
    pub lnurl_description: Option<String>,
    pub conversion_info: Option<ConversionInfo>,
    pub conversion_status: Option<ConversionStatus>,
}

#[derive(Clone, Debug, PartialEq)]
pub struct SetLnurlMetadataItem {
    pub payment_hash: String,
    pub sender_comment: Option<String>,
    pub nostr_zap_request: Option<String>,
    pub nostr_zap_receipt: Option<String>,
}

#[derive(Clone, Debug, PartialEq)]
pub enum UpdateDepositPayload {
    ClaimError {
        error: DepositClaimError,
    },
    Refund {
        refund_txid: String,
        refund_tx: String,
        state: RefundState,
    },
    InstantClaim {
        status: InstantClaimStatus,
    },
    RefundBroadcastState {
        refund_txid: String,
        state: RefundState,
    },
}

#[derive(Clone, Debug, PartialEq)]
pub struct CheckLightningAddressRequest {
    pub username: String,
}

#[derive(Clone, Debug, PartialEq)]
pub struct RegisterLightningAddressRequest {
    pub username: String,
    pub description: Option<String>,
}

#[derive(Clone, Debug, PartialEq)]
pub struct TransferAuthorization {
    pub username: String,
    pub pubkey: String,
    pub signature: String,
    pub domain: String,
    pub timestamp: u64,
}

#[derive(Clone, Debug, PartialEq)]
pub struct AuthorizeTransferRequest {
    pub transferee_pubkey: String,
}

#[derive(Clone, Debug, PartialEq)]
pub struct ClaimTransferRequest {
    pub authorization: TransferAuthorization,
    pub description: Option<String>,
}

#[derive(Clone, Debug, PartialEq)]
pub struct LnurlInfo {
    pub url: String,
    pub bech32: String,
}

#[derive(Clone, Debug, PartialEq)]
pub struct LightningAddressInfo {
    pub description: String,
    pub lightning_address: String,
    pub lnurl: LnurlInfo,
    pub username: String,
}

#[derive(Clone, Debug, PartialEq)]
pub struct ListFiatCurrenciesResponse {
    pub currencies: Vec<FiatCurrency>,
}

#[derive(Clone, Debug, PartialEq)]
pub struct FiatCurrency {
    pub id: String,
    pub info: CurrencyInfo,
}

#[derive(Clone, Debug, PartialEq)]
pub struct CurrencyInfo {
    pub name: String,
    pub fraction_size: u32,
    pub spacing: Option<u32>,
    pub symbol: Option<Symbol>,
    pub uniq_symbol: Option<Symbol>,
    pub localized_name: Vec<LocalizedName>,
    pub locale_overrides: Vec<LocaleOverrides>,
}

#[derive(Clone, Debug, PartialEq)]
pub struct LocaleOverrides {
    pub locale: String,
    pub spacing: Option<u32>,
    pub symbol: Symbol,
}

#[derive(Clone, Debug, PartialEq)]
pub struct LocalizedName {
    pub locale: String,
    pub name: String,
}

#[derive(Clone, Debug, PartialEq)]
pub struct Symbol {
    pub grapheme: Option<String>,
    pub template: Option<String>,
    pub rtl: Option<bool>,
    pub position: Option<u32>,
}

#[derive(Clone, Debug, PartialEq)]
pub struct GetTokensMetadataRequest {
    pub token_identifiers: Vec<String>,
}

#[derive(Clone, Debug, PartialEq)]
pub struct GetTokensMetadataResponse {
    pub tokens_metadata: Vec<TokenMetadata>,
}

#[derive(Clone, Debug, PartialEq)]
pub struct Session {
    pub token: String,
    pub expiration: u64,
}

#[derive(Clone, Debug, PartialEq)]
pub enum SessionStoreError {
    NotFound,
    Generic(String),
}

#[derive(Clone, Debug, PartialEq)]
pub struct ProvisionalPayment {
    pub payment_id: String,
    pub amount: u128,
    pub details: ProvisionalPaymentDetails,
}

#[derive(Clone, Debug, PartialEq)]
pub enum ProvisionalPaymentDetails {
    Bitcoin {
        withdrawal_address: String,
    },
    Lightning {
        invoice: String,
    },
    Spark {
        pay_request: String,
    },
    Token {
        token_id: String,
        pay_request: String,
    },
}

#[derive(Clone, Debug, PartialEq)]
pub struct PaymentIdUpdate {
    pub provisional_payment_id: String,
    pub final_payment_id: String,
}

#[derive(Clone, Debug, PartialEq)]
pub struct SignMessageRequest {
    pub message: String,
    pub compact: bool,
}

#[derive(Clone, Debug, PartialEq)]
pub struct SignMessageResponse {
    pub pubkey: String,
    pub signature: String,
}

#[derive(Clone, Debug, PartialEq)]
pub struct CheckMessageRequest {
    pub message: String,
    pub pubkey: String,
    pub signature: String,
}

#[derive(Clone, Debug, PartialEq)]
pub struct CheckMessageResponse {
    pub is_valid: bool,
}

#[derive(Clone, Debug, PartialEq)]
pub struct RecordId {
    pub record_type: String,
    pub data_id: String,
}

#[derive(Clone, Debug, PartialEq)]
pub struct UnversionedRecordChange {
    pub id: RecordId,
    pub schema_version: String,
    pub updated_fields: HashMap<String, String>,
}

#[derive(Clone, Debug, PartialEq)]
pub struct RecordChange {
    pub id: RecordId,
    pub schema_version: String,
    pub updated_fields: HashMap<String, String>,
    pub local_revision: u64,
}

#[derive(Clone, Debug, PartialEq)]
pub struct Record {
    pub id: RecordId,
    pub revision: u64,
    pub schema_version: String,
    pub data: HashMap<String, String>,
}

#[derive(Clone, Debug, PartialEq)]
pub struct IncomingChange {
    pub new_state: Record,
    pub old_state: Option<Record>,
}

#[derive(Clone, Debug, PartialEq)]
pub struct OutgoingChange {
    pub change: RecordChange,
    pub parent: Option<Record>,
}

#[derive(Clone, Debug, PartialEq)]
pub struct UserSettings {
    pub spark_private_mode_enabled: bool,
    pub stable_balance_active_label: Option<String>,
    pub spark_master_identity_public_key: Option<String>,
}

#[derive(Clone, Debug, PartialEq)]
pub enum StableBalanceActiveLabel {
    SetTo { label: String },
    Unset,
}

#[derive(Clone, Debug, PartialEq)]
pub enum SparkMasterIdentityPublicKey {
    SetTo { public_key: String },
    Unset,
}

#[derive(Clone, Debug, PartialEq)]
pub struct UpdateUserSettingsRequest {
    pub spark_private_mode_enabled: Option<bool>,
    pub stable_balance_active_label: Option<StableBalanceActiveLabel>,
    pub spark_master_identity_public_key: Option<SparkMasterIdentityPublicKey>,
}

#[derive(Clone, Debug, PartialEq)]
pub struct ClaimHtlcPaymentRequest {
    pub preimage: String,
}

#[derive(Clone, Debug, PartialEq)]
pub struct ClaimHtlcPaymentResponse {
    pub payment: Payment,
}

#[derive(Clone, Debug, PartialEq)]
pub struct LnurlReceiveMetadata {
    pub nostr_zap_request: Option<String>,
    pub nostr_zap_receipt: Option<String>,
    pub sender_comment: Option<String>,
}

#[derive(Clone, Copy, Debug, PartialEq, Eq, Hash, Structural)]
pub enum OptimizationMode {
    Full,
    SingleRound,
}

#[derive(Clone, Debug, PartialEq)]
pub struct OptimizeLeavesRequest {
    pub mode: OptimizationMode,
}

#[derive(Clone, Debug, PartialEq)]
pub enum OptimizationOutcome {
    Completed { rounds_executed: u32 },
    InProgress,
}

#[derive(Clone, Debug, PartialEq)]
pub struct OptimizeLeavesResponse {
    pub outcome: OptimizationOutcome,
}

#[derive(Clone, Debug, PartialEq)]
pub struct ConversionEstimate {
    pub options: ConversionOptions,
    pub amount_in: u128,
    pub amount_out: u128,
    pub fee: u128,
    pub amount_adjustment: Option<AmountAdjustmentReason>,
}

#[derive(Debug, PartialEq)]
pub enum ConversionPurpose {
    OngoingPayment { payment_request: String },
    SelfTransfer,
    AutoConversion,
}

#[derive(Clone, Copy, Debug, PartialEq, Eq, Hash, Structural)]
pub enum AmountAdjustmentReason {
    FlooredToMinLimit,
    IncreasedToAvoidDust,
}

#[derive(Clone, Copy, Debug, PartialEq, Eq, Hash, Structural)]
pub enum SwapDegradation {
    BelowMinimum,
    UnexpectedAsset,
    MissingInfo,
}

#[derive(Clone, Copy, Debug, PartialEq, Eq, Hash, Structural)]
pub enum ConversionStatus {
    Pending,
    Completed,
    Failed,
    RefundNeeded,
    Refunded,
}

#[derive(Debug, PartialEq)]
pub enum ConversionInfo {
    Amm {
        pool_id: String,
        conversion_id: String,
        status: ConversionStatus,
        fee: Option<u128>,
        purpose: Option<ConversionPurpose>,
        amount_adjustment: Option<AmountAdjustmentReason>,
        degradation: Option<SwapDegradation>,
    },
    Orchestra {
        chain: String,
        chain_id: Option<String>,
        asset: String,
        asset_contract: Option<String>,
        recipient_address: String,
        asset_amount_in: Option<u128>,
        estimated_out: u128,
        delivered_amount: Option<u128>,
        external_tx_hash: Option<String>,
        status: ConversionStatus,
        fee_amount: Option<u128>,
        service_fee_amount: Option<u128>,
        service_fee_asset: Option<String>,
        asset_decimals: u32,
        order_id: String,
        quote_id: String,
        read_token: Option<String>,
    },
    Boltz {
        chain: String,
        chain_id: Option<String>,
        asset: String,
        asset_contract: Option<String>,
        recipient_address: String,
        asset_amount_in: Option<u128>,
        estimated_out: u128,
        delivered_amount: Option<u128>,
        status: ConversionStatus,
        fee_amount: Option<u128>,
        service_fee_amount: Option<u128>,
        service_fee_asset: Option<String>,
        asset_decimals: u32,
        swap_id: String,
        invoice: String,
        invoice_amount_sats: u64,
        bridge_ref: Option<String>,
        max_slippage_bps: u32,
        quote_degraded: bool,
    },
}

#[derive(Debug, PartialEq)]
pub struct ConversionOptions {
    pub conversion_type: ConversionType,
    pub max_slippage_bps: Option<u32>,
    pub completion_timeout_secs: Option<u32>,
}

#[derive(Debug, PartialEq)]
pub enum ConversionType {
    FromBitcoin,
    ToBitcoin { from_token_identifier: String },
}

#[derive(Clone, Debug, PartialEq)]
pub struct FetchConversionLimitsRequest {
    pub conversion_type: ConversionType,
    pub token_identifier: Option<String>,
}

#[derive(Clone, Debug, PartialEq)]
pub struct FetchConversionLimitsResponse {
    pub min_from_amount: Option<u128>,
    pub min_to_amount: Option<u128>,
}

#[derive(Clone, Copy, Debug, PartialEq, Eq, Hash, Structural)]
pub enum ServiceStatus {
    Operational,
    Degraded,
    Partial,
    Unknown,
    Major,
}

#[derive(Clone, Debug, PartialEq)]
pub struct SparkStatus {
    pub status: ServiceStatus,
    pub last_updated: u64,
}

#[derive(Clone, Debug, PartialEq)]
pub enum BuyBitcoinRequest {
    Moonpay {
        locked_amount_sat: Option<u64>,
        redirect_url: Option<String>,
    },
    CashApp {
        amount_sats: u64,
    },
}

#[derive(Clone, Debug, PartialEq)]
pub struct BuyBitcoinResponse {
    pub url: String,
}

#[derive(Clone, Debug, PartialEq)]
pub struct RefundPendingConversionsResponse {
    pub refunded: u32,
    pub skipped: u32,
    pub failed: u32,
}

#[derive(Clone, Debug, PartialEq)]
pub struct PreparePaymentLinkRequest {
    pub address: String,
    pub route: CrossChainRoutePair,
    pub amount: u128,
    pub fee_policy: Option<FeePolicy>,
    pub max_slippage_bps: Option<u32>,
}

#[derive(Clone, Debug, PartialEq)]
pub struct PreparePaymentLinkResponse {
    pub url: String,
    pub amount_sats: u64,
    pub estimated_out: u128,
    pub asset: String,
    pub service_fee_amount: u128,
    pub service_fee_asset: Option<String>,
    pub expires_at: String,
}

#[derive(Clone, Debug, PartialEq)]
pub struct Contact {
    pub id: String,
    pub name: String,
    pub payment_identifier: String,
    pub created_at: u64,
    pub updated_at: u64,
}

#[derive(Clone, Debug, PartialEq)]
pub struct AddContactRequest {
    pub name: String,
    pub payment_identifier: String,
}

#[derive(Clone, Debug, PartialEq)]
pub struct UpdateContactRequest {
    pub id: String,
    pub name: String,
    pub payment_identifier: String,
}

#[derive(Clone, Debug, PartialEq)]
pub struct ListContactsRequest {
    pub offset: Option<u32>,
    pub limit: Option<u32>,
}

#[derive(Clone, Debug, PartialEq)]
pub struct StoredCrossChainSwap {
    pub provider: String,
    pub id: String,
    pub is_terminal: bool,
    pub updated_at: u64,
    pub data: String,
    pub secrets: String,
}

#[derive(Clone, Debug, PartialEq)]
pub enum WebhookEventType {
    LightningReceiveFinished,
    LightningSendFinished,
    CoopExitFinished,
    StaticDepositFinished,
    Unknown(String),
}

#[derive(Clone, Debug, PartialEq)]
pub struct Webhook {
    pub id: String,
    pub url: String,
    pub event_types: Vec<WebhookEventType>,
}

#[derive(Clone, Debug, PartialEq)]
pub struct RegisterWebhookRequest {
    pub url: String,
    pub secret: String,
    pub event_types: Vec<WebhookEventType>,
}

#[derive(Clone, Debug, PartialEq)]
pub struct RegisterWebhookResponse {
    pub webhook_id: String,
}

#[derive(Clone, Debug, PartialEq)]
pub struct UnregisterWebhookRequest {
    pub webhook_id: String,
}

/// A copy of an optional string.
pub fn clone_opt_string(s: &Option<String>) -> (r: Option<String>)
    ensures
        r == *s,
{
    match s {
        Some(x) => Some(x.clone()),
        None => None,
    }
}

impl Clone for SparkAsset {
    fn clone(&self) -> (r: Self)
        ensures
            r == *self,
    {
        match self {
            SparkAsset::Bitcoin => SparkAsset::Bitcoin,
            SparkAsset::Token { token_identifier } => SparkAsset::Token {
                token_identifier: token_identifier.clone(),
            },
        }
    }
}

impl Clone for CrossChainAcceptedAsset {
    fn clone(&self) -> (r: Self)
        ensures
            r == *self,
    {
        CrossChainAcceptedAsset { asset: self.asset.clone(), limits: self.limits }
    }
}

/// A copy of a list of accepted assets.
pub fn clone_accepted_assets(v: &Vec<CrossChainAcceptedAsset>) -> (r: Vec<CrossChainAcceptedAsset>)
    ensures
        r@ == v@,
{
    let mut r: Vec<CrossChainAcceptedAsset> = Vec::new();
    let mut i: usize = 0;
    while i < v.len()
        invariant
            i <= v.len(),
            r@ == v@.take(i as int),
        decreases v.len() - i,
    {
        r.push(v[i].clone());
        proof { assert(v@.take(i + 1) =~= v@.take(i as int).push(v@[i as int])); }
        i = i + 1;
    }
    proof { assert(v@.take(v.len() as int) =~= v@); }
    r
}

/// A copy of a list of delivery methods.
pub fn clone_delivery_methods(v: &Vec<DeliveryMethod>) -> (r: Vec<DeliveryMethod>)
    ensures
        r@ == v@,
{
    let mut r: Vec<DeliveryMethod> = Vec::new();
    let mut i: usize = 0;
    while i < v.len()
        invariant
            i <= v.len(),
            r@ == v@.take(i as int),
        decreases v.len() - i,
    {
        r.push(v[i]);
        proof { assert(v@.take(i + 1) =~= v@.take(i as int).push(v@[i as int])); }
        i = i + 1;
    }
    proof { assert(v@.take(v.len() as int) =~= v@); }
    r
}

impl CrossChainRoutePair {
    /// Whether two route pairs describe the same route: every field equal,
    /// and the two lists holding the same entries in the same order.
    pub open spec fn same_as(self, other: CrossChainRoutePair) -> bool {
        &&& self.provider == other.provider
        &&& self.chain == other.chain
        &&& self.chain_id == other.chain_id
        &&& self.asset == other.asset
        &&& self.contract_address == other.contract_address
        &&& self.decimals == other.decimals
        &&& self.exact_out_eligible == other.exact_out_eligible
        &&& self.accepted_assets@ == other.accepted_assets@
        &&& self.delivery_methods@ == other.delivery_methods@
    }
}

impl Clone for CrossChainRoutePair {
    fn clone(&self) -> (r: Self)
        ensures
            r.same_as(*self),
    {
        let accepted_assets = clone_accepted_assets(&self.accepted_assets);
        let delivery_methods = clone_delivery_methods(&self.delivery_methods);
        let r = CrossChainRoutePair {
            provider: self.provider,
            chain: self.chain.clone(),
            chain_id: clone_opt_string(&self.chain_id),
            asset: self.asset.clone(),
            contract_address: clone_opt_string(&self.contract_address),
            decimals: self.decimals,
            exact_out_eligible: self.exact_out_eligible,
            accepted_assets,
            delivery_methods,
        };
        r
    }
}

impl Clone for ConversionType {
    fn clone(&self) -> (r: Self)
        ensures
            r == *self,
    {
        match self {
            ConversionType::FromBitcoin => ConversionType::FromBitcoin,
            ConversionType::ToBitcoin { from_token_identifier } => ConversionType::ToBitcoin {
                from_token_identifier: from_token_identifier.clone(),
            },
        }
    }
}

impl Clone for ConversionOptions {
    fn clone(&self) -> (r: Self)
        ensures
            r == *self,
    {
        ConversionOptions {
            conversion_type: self.conversion_type.clone(),
            max_slippage_bps: self.max_slippage_bps,
            completion_timeout_secs: self.completion_timeout_secs,
        }
    }
}

impl Clone for ConversionPurpose {
    fn clone(&self) -> (r: Self)
        ensures
            r == *self,
    {
        match self {
            ConversionPurpose::OngoingPayment { payment_request } => ConversionPurpose::OngoingPayment {
                payment_request: payment_request.clone(),
            },
            ConversionPurpose::SelfTransfer => ConversionPurpose::SelfTransfer,
            ConversionPurpose::AutoConversion => ConversionPurpose::AutoConversion,
        }
    }
}

impl Clone for ConversionInfo {
    fn clone(&self) -> (r: Self)
        ensures
            r == *self,
    {
        match self {
            ConversionInfo::Amm {
                pool_id,
                conversion_id,
                status,
                fee,
                purpose,
                amount_adjustment,
                degradation,
            } => ConversionInfo::Amm {
                pool_id: pool_id.clone(),
                conversion_id: conversion_id.clone(),
                status: *status,
                fee: *fee,
                purpose: match purpose {
                    Some(p) => Some(p.clone()),
                    None => None,
                },
                amount_adjustment: *amount_adjustment,
                degradation: *degradation,
            },
            ConversionInfo::Orchestra {
                chain,
                chain_id,
                asset,
                asset_contract,
                recipient_address,
                asset_amount_in,
                estimated_out,
                delivered_amount,
                external_tx_hash,
                status,
                fee_amount,
                service_fee_amount,
                service_fee_asset,
                asset_decimals,
                order_id,
                quote_id,
                read_token,
            } => ConversionInfo::Orchestra {
                chain: chain.clone(),
                chain_id: clone_opt_string(chain_id),
                asset: asset.clone(),
                asset_contract: clone_opt_string(asset_contract),
                recipient_address: recipient_address.clone(),
                asset_amount_in: *asset_amount_in,
                estimated_out: *estimated_out,
                delivered_amount: *delivered_amount,
                external_tx_hash: clone_opt_string(external_tx_hash),
                status: *status,
                fee_amount: *fee_amount,
                service_fee_amount: *service_fee_amount,
                service_fee_asset: clone_opt_string(service_fee_asset),
                asset_decimals: *asset_decimals,
                order_id: order_id.clone(),
                quote_id: quote_id.clone(),
                read_token: clone_opt_string(read_token),
            },
            ConversionInfo::Boltz {
                chain,
                chain_id,
                asset,
                asset_contract,
                recipient_address,
                asset_amount_in,
                estimated_out,
                delivered_amount,
                status,
                fee_amount,
                service_fee_amount,
                service_fee_asset,
                asset_decimals,
                swap_id,
                invoice,
                invoice_amount_sats,
                bridge_ref,
                max_slippage_bps,
                quote_degraded,
            } => ConversionInfo::Boltz {
                chain: chain.clone(),
                chain_id: clone_opt_string(chain_id),
                asset: asset.clone(),
                asset_contract: clone_opt_string(asset_contract),
                recipient_address: recipient_address.clone(),
                asset_amount_in: *asset_amount_in,
                estimated_out: *estimated_out,
                delivered_amount: *delivered_amount,
                status: *status,
                fee_amount: *fee_amount,
                service_fee_amount: *service_fee_amount,
                service_fee_asset: clone_opt_string(service_fee_asset),
                asset_decimals: *asset_decimals,
                swap_id: swap_id.clone(),
                invoice: invoice.clone(),
                invoice_amount_sats: *invoice_amount_sats,
                bridge_ref: clone_opt_string(bridge_ref),
                max_slippage_bps: *max_slippage_bps,
                quote_degraded: *quote_degraded,
            },
        }
    }
}

} // verus!
