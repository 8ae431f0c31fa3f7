//! Sync notifications and the rule that decides when the SDK announces that
//! the wallet is synced.
//!
//! Several background jobs report that they finished a sync round. A `SyncedEventGate`
//! buffers those reports until the first one worth announcing (a wallet sync,
//! and with real-time sync also a storage pull or a real-time sync failure),
//! then lets later reports through one by one.

use vstd::prelude::*;
use vstd::string::StringExecFns;

use crate::models::{AutoOptimizationEvent, Payment, PaymentStatus, SdkEvent, StableBalanceConversionKind};
use crate::ids::{is_hyphenated_uuid, random_uuid};
use crate::text::{
    debug_quoted, decimal, decimal_string, is_digit, lemma_decimal_is_digits, lemma_parse_decimal_roundtrip,
    quoted_debug,
};

verus! {

/// What one sync round covered.
#[derive(Clone, Copy, Debug, PartialEq, Eq, Structural)]
pub struct InternalSyncedEvent {
    pub wallet: bool,
    pub wallet_state: bool,
    pub deposits: bool,
    pub lnurl_metadata: bool,
    /// Set when a real-time storage pull finished, with the number of records
    /// it brought in.
    pub storage_incoming: Option<u32>,
}

/// `a + b`, held at `u32::MAX`.
pub open spec fn sat_add_u32(a: u32, b: u32) -> u32 {
    if a + b > u32::MAX {
        u32::MAX
    } else {
        (a + b) as u32
    }
}

/// Two storage counts taken together: summed when both are set, else the one
/// that is set.
pub open spec fn merged_incoming(a: Option<u32>, b: Option<u32>) -> Option<u32> {
    match (a, b) {
        (Some(x), Some(y)) => Some(sat_add_u32(x, y)),
        (Some(x), None) => Some(x),
        (None, y) => y,
    }
}

impl InternalSyncedEvent {
    /// The report of a round that covered nothing.
    pub open spec fn nothing() -> InternalSyncedEvent {
        InternalSyncedEvent {
            wallet: false,
            wallet_state: false,
            deposits: false,
            lnurl_metadata: false,
            storage_incoming: None,
        }
    }

    pub open spec fn covers_any(self) -> bool {
        self.wallet || self.wallet_state || self.deposits || self.lnurl_metadata
            || self.storage_incoming is Some
    }

    pub open spec fn covers_any_non_zero(self) -> bool {
        self.wallet || self.wallet_state || self.deposits || self.lnurl_metadata || (
        self.storage_incoming matches Some(v) && v > 0)
    }

    pub open spec fn merged(self, other: InternalSyncedEvent) -> InternalSyncedEvent {
        InternalSyncedEvent {
            wallet: self.wallet || other.wallet,
            wallet_state: self.wallet_state || other.wallet_state,
            deposits: self.deposits || other.deposits,
            lnurl_metadata: self.lnurl_metadata || other.lnurl_metadata,
            storage_incoming: merged_incoming(self.storage_incoming, other.storage_incoming),
        }
    }

    /// Whether the round covered anything at all (a storage pull that brought
    /// in nothing counts).
    pub fn any(&self) -> (r: bool)
        ensures
            r == self.covers_any(),
    {
        self.wallet || self.wallet_state || self.deposits || self.lnurl_metadata
            || self.storage_incoming.is_some()
    }

    /// Whether the round covered anything, not counting a storage pull that
    /// brought in nothing.
    pub fn any_non_zero(&self) -> (r: bool)
        ensures
            r == self.covers_any_non_zero(),
    {
        let incoming = match self.storage_incoming {
            Some(v) => v > 0,
            None => false,
        };
        self.wallet || self.wallet_state || self.deposits || self.lnurl_metadata || incoming
    }

    /// The two reports taken together: each flag set in either, storage
    /// counts summed (held at `u32::MAX`).
    pub fn merge(&self, other: &InternalSyncedEvent) -> (r: InternalSyncedEvent)
        ensures
            r == self.merged(*other),
    {
        let storage_incoming = match (self.storage_incoming, other.storage_incoming) {
            (Some(a), Some(b)) => Some(a.saturating_add(b)),
            (Some(a), None) => Some(a),
            (None, b) => b,
        };
        InternalSyncedEvent {
            wallet: self.wallet || other.wallet,
            wallet_state: self.wallet_state || other.wallet_state,
            deposits: self.deposits || other.deposits,
            lnurl_metadata: self.lnurl_metadata || other.lnurl_metadata,
            storage_incoming,
        }
    }
}

impl Default for InternalSyncedEvent {
    fn default() -> (r: InternalSyncedEvent)
        ensures
            r == InternalSyncedEvent::nothing(),
    {
        InternalSyncedEvent {
            wallet: false,
            wallet_state: false,
            deposits: false,
            lnurl_metadata: false,
            storage_incoming: None,
        }
    }
}

/// Merging reports does not depend on their order.
pub proof fn law_merge_commutative(a: InternalSyncedEvent, b: InternalSyncedEvent)
    ensures
        a.merged(b) == b.merged(a),
{
}

/// Merging reports does not depend on how they are grouped.
pub proof fn law_merge_associative(a: InternalSyncedEvent, b: InternalSyncedEvent, c: InternalSyncedEvent)
    ensures
        a.merged(b).merged(c) == a.merged(b.merged(c)),
{
}

/// A report that covered nothing changes nothing it is merged with.
pub proof fn law_merge_nothing_is_identity(a: InternalSyncedEvent)
    ensures
        InternalSyncedEvent::nothing().merged(a) == a,
        a.merged(InternalSyncedEvent::nothing()) == a,
{
}

/// A merged report covers something exactly when one of its parts does, and
/// it keeps every flag of both parts.
pub proof fn law_merge_covers_both(a: InternalSyncedEvent, b: InternalSyncedEvent)
    ensures
        a.merged(b).covers_any() == (a.covers_any() || b.covers_any()),
        a.merged(b).covers_any_non_zero() <== (a.covers_any_non_zero() || b.covers_any_non_zero()),
        a.wallet ==> a.merged(b).wallet,
        b.wallet ==> a.merged(b).wallet,
{
}

/// A report with a non-zero part covers something.
pub proof fn law_non_zero_implies_any(a: InternalSyncedEvent)
    ensures
        a.covers_any_non_zero() ==> a.covers_any(),
        !a.covers_any() ==> !a.covers_any_non_zero(),
{
}

/// Decides when the SDK emits `Synced`.
///
/// Until the first `Synced`, reports are merged into a buffer; the buffer is
/// released once it covers a wallet sync and, when real-time sync is on, also
/// a storage pull (or real-time sync has failed). After that, each report
/// that brings in something is announced on its own.
pub struct SyncedEventGate {
    pub has_real_time_sync: bool,
    pub rtsync_failed: bool,
    /// The reports merged so far, until the first `Synced` is emitted.
    pub buffered: Option<InternalSyncedEvent>,
}

impl SyncedEventGate {
    /// Whether a merged buffer is ready to be announced as the first `Synced`.
    pub open spec fn releases(self, merged: InternalSyncedEvent) -> bool {
        merged.wallet && (!self.has_real_time_sync || merged.storage_incoming is Some
            || self.rtsync_failed)
    }

    /// The state after a report, and whether `Synced` is emitted for it.
    pub open spec fn after_report(self, synced: InternalSyncedEvent) -> (SyncedEventGate, bool) {
        if !synced.covers_any() {
            (self, false)
        } else {
            match self.buffered {
                Some(b) => {
                    let merged = b.merged(synced);
                    if self.releases(merged) {
                        (SyncedEventGate { buffered: None, ..self }, true)
                    } else {
                        (SyncedEventGate { buffered: Some(merged), ..self }, false)
                    }
                },
                None => (self, synced.covers_any_non_zero()),
            }
        }
    }

    /// The state after real-time sync failed, and whether the buffered first
    /// `Synced` is released by it.
    pub open spec fn after_rtsync_failure(self) -> (SyncedEventGate, bool) {
        match self.buffered {
            Some(b) => if b.wallet {
                (SyncedEventGate { rtsync_failed: true, buffered: None, ..self }, true)
            } else {
                (SyncedEventGate { rtsync_failed: true, ..self }, false)
            },
            None => (SyncedEventGate { rtsync_failed: true, ..self }, false),
        }
    }

    /// A gate that has announced nothing yet.
    pub fn new(has_real_time_sync: bool) -> (r: SyncedEventGate)
        ensures
            r == (SyncedEventGate {
                has_real_time_sync,
                rtsync_failed: false,
                buffered: Some(InternalSyncedEvent::nothing()),
            }),
    {
        SyncedEventGate { has_real_time_sync, rtsync_failed: false, buffered: Some(InternalSyncedEvent::default()) }
    }

    /// Takes in a finished sync round; returns whether `Synced` is emitted.
    pub fn on_synced(&mut self, synced: &InternalSyncedEvent) -> (emit: bool)
        ensures
            (*final(self), emit) == old(self).after_report(*synced),
    {
        if !synced.any() {
            return false;
        }
        match self.buffered {
            Some(buffered) => {
                let merged = buffered.merge(synced);
                if merged.wallet && (!self.has_real_time_sync || merged.storage_incoming.is_some()
                    || self.rtsync_failed) {
                    self.buffered = None;
                    true
                } else {
                    self.buffered = Some(merged);
                    false
                }
            },
            None => synced.any_non_zero(),
        }
    }

    /// Takes in that real-time sync failed; returns whether the buffered first
    /// `Synced` is released now, because the wallet has already synced.
    pub fn notify_rtsync_failed(&mut self) -> (emit: bool)
        ensures
            (*final(self), emit) == old(self).after_rtsync_failure(),
    {
        self.rtsync_failed = true;
        match self.buffered {
            Some(buffered) => {
                if buffered.wallet {
                    self.buffered = None;
                    true
                } else {
                    false
                }
            },
            None => false,
        }
    }
}

/// A report that covered nothing is never announced and leaves the state as it
/// was.
pub proof fn law_empty_report_is_ignored(g: SyncedEventGate, synced: InternalSyncedEvent)
    requires
        !synced.covers_any(),
    ensures
        g.after_report(synced) == (g, false),
{
}

/// The first `Synced` always covers a wallet sync: while the buffer is held,
/// a report is announced only when the merged buffer includes the wallet, and
/// a real-time sync failure releases only a buffer that includes it.
pub proof fn law_first_synced_covers_wallet(g: SyncedEventGate, synced: InternalSyncedEvent)
    requires
        g.buffered is Some,
    ensures
        g.after_report(synced).1 ==> g.buffered->0.merged(synced).wallet,
        g.after_rtsync_failure().1 ==> g.buffered->0.wallet,
        !g.after_report(synced).1 ==> g.after_report(synced).0.buffered is Some,
        !g.after_rtsync_failure().1 ==> g.after_rtsync_failure().0.buffered is Some,
{
}

/// With real-time sync on and working, the first `Synced` also waits for a
/// storage pull.
pub proof fn law_first_synced_waits_for_storage(g: SyncedEventGate, synced: InternalSyncedEvent)
    requires
        g.buffered is Some,
        g.has_real_time_sync,
        !g.rtsync_failed,
    ensures
        g.after_report(synced).1 ==> g.buffered->0.merged(synced).storage_incoming is Some,
{
}

/// Once the first `Synced` is out, nothing is buffered again, and each
/// later report is announced exactly when it brings in something.
pub proof fn law_after_release_reports_pass_through(g: SyncedEventGate, synced: InternalSyncedEvent)
    requires
        g.buffered is None,
    ensures
        g.after_report(synced).0 == g,
        g.after_report(synced).1 == synced.covers_any_non_zero(),
        g.after_rtsync_failure().0.buffered is None,
        !g.after_rtsync_failure().1,
{
}

/// Whether a report is announced or held, nothing it covered is lost: the
/// buffer after a held report is the old buffer merged with it.
pub proof fn law_held_reports_accumulate(g: SyncedEventGate, synced: InternalSyncedEvent)
    requires
        g.buffered is Some,
        synced.covers_any(),
        !g.after_report(synced).1,
    ensures
        g.after_report(synced).0.buffered == Some(g.buffered->0.merged(synced)),
{
}

impl SdkEvent {
    /// The payment event that matches the payment's status.
    pub fn from_payment(payment: Payment) -> (e: SdkEvent)
        ensures
            e == (match payment.status {
                PaymentStatus::Completed => SdkEvent::PaymentSucceeded { payment },
                PaymentStatus::Pending => SdkEvent::PaymentPending { payment },
                PaymentStatus::Failed => SdkEvent::PaymentFailed { payment },
            }),
    {
        match payment.status {
            PaymentStatus::Completed => SdkEvent::PaymentSucceeded { payment },
            PaymentStatus::Pending => SdkEvent::PaymentPending { payment },
            PaymentStatus::Failed => SdkEvent::PaymentFailed { payment },
        }
    }
}

/// The `Debug` rendering of an optimizer event, given the `Debug` rendering
/// of its error text.
pub open spec fn auto_optimization_text(e: AutoOptimizationEvent, quoted_error: Seq<char>) -> Seq<char> {
    match e {
        AutoOptimizationEvent::Started { total_rounds } => "Started { total_rounds: "@ + decimal(
            total_rounds as nat,
        ) + " }"@,
        AutoOptimizationEvent::RoundCompleted { current_round, total_rounds } =>
            "RoundCompleted { current_round: "@ + decimal(current_round as nat) + ", total_rounds: "@
                + decimal(total_rounds as nat) + " }"@,
        AutoOptimizationEvent::Completed => "Completed"@,
        AutoOptimizationEvent::Cancelled => "Cancelled"@,
        AutoOptimizationEvent::Failed { .. } => "Failed { error: "@ + quoted_error + " }"@,
        AutoOptimizationEvent::Skipped => "Skipped"@,
    }
}

pub open spec fn conversion_kind_text(k: StableBalanceConversionKind) -> Seq<char> {
    match k {
        StableBalanceConversionKind::AutoConvert => "AutoConvert"@,
        StableBalanceConversionKind::Deactivation => "Deactivation"@,
    }
}

/// The quoted error text of a failed optimizer run; empty for the others.
pub open spec fn quoted_failure(e: AutoOptimizationEvent) -> Seq<char> {
    match e {
        AutoOptimizationEvent::Failed { error } => debug_quoted(error@),
        _ => Seq::empty(),
    }
}

/// The one-line label of an event, as logs show it.
pub open spec fn event_label(e: SdkEvent) -> Seq<char> {
    match e {
        SdkEvent::Synced => "Synced"@,
        SdkEvent::UnclaimedDeposits { unclaimed_deposits } => "UnclaimedDeposits"@ + "["@ + decimal(
            unclaimed_deposits.len() as nat,
        ) + "]"@,
        SdkEvent::ClaimedDeposits { claimed_deposits } => "ClaimedDeposits"@ + "["@ + decimal(
            claimed_deposits.len() as nat,
        ) + "]"@,
        SdkEvent::PaymentSucceeded { payment } => "PaymentSucceeded"@ + "("@ + payment.id@ + ")"@,
        SdkEvent::PaymentPending { payment } => "PaymentPending"@ + "("@ + payment.id@ + ")"@,
        SdkEvent::PaymentFailed { payment } => "PaymentFailed"@ + "("@ + payment.id@ + ")"@,
        SdkEvent::AutoOptimization { optimization_event } => "AutoOptimization: "@
            + auto_optimization_text(optimization_event, quoted_failure(optimization_event)),
        SdkEvent::LightningAddressChanged { .. } => "LightningAddressChanged"@,
        SdkEvent::NewDeposits { new_deposits } => "NewDeposits"@ + "["@ + decimal(new_deposits.len() as nat)
            + "]"@,
        SdkEvent::UnilateralExitStateChanged => "UnilateralExitStateChanged"@,
        SdkEvent::StableBalanceConversionFailed { conversion, retry_in_secs, .. } =>
            "StableBalanceConversionFailed("@ + conversion_kind_text(conversion) + ", retry in "@
                + decimal(retry_in_secs as nat) + "s)"@,
    }
}

/// Renders an optimizer event as its `Debug` does, given the `Debug`
/// rendering of its error text (used by the `Failed` variant only).
pub fn describe_auto_optimization(e: &AutoOptimizationEvent, quoted_error: &str) -> (r: String)
    ensures
        r@ == auto_optimization_text(*e, quoted_error@),
{
    match e {
        AutoOptimizationEvent::Started { total_rounds } => String::from_str("Started { total_rounds: ")
            .concat(decimal_string(*total_rounds as u128).as_str()).concat(" }"),
        AutoOptimizationEvent::RoundCompleted { current_round, total_rounds } => String::from_str(
            "RoundCompleted { current_round: ",
        ).concat(decimal_string(*current_round as u128).as_str()).concat(", total_rounds: ").concat(
            decimal_string(*total_rounds as u128).as_str(),
        ).concat(" }"),
        AutoOptimizationEvent::Completed => String::from_str("Completed"),
        AutoOptimizationEvent::Cancelled => String::from_str("Cancelled"),
        AutoOptimizationEvent::Failed { .. } => String::from_str("Failed { error: ").concat(
            quoted_error,
        ).concat(" }"),
        AutoOptimizationEvent::Skipped => String::from_str("Skipped"),
    }
}

fn bracketed_count(name: &str, n: usize) -> (r: String)
    ensures
        r@ == name@ + "["@ + decimal(n as nat) + "]"@,
{
    String::from_str(name).concat("[").concat(decimal_string(n as u128).as_str()).concat("]")
}

fn parenthesized_id(name: &str, id: &str) -> (r: String)
    ensures
        r@ == name@ + "("@ + id@ + ")"@,
{
    String::from_str(name).concat("(").concat(id).concat(")")
}

impl SdkEvent {
    /// The one-line label of the event (what its `Display` renders).
    pub fn describe(&self) -> (r: String)
        ensures
            r@ == event_label(*self),
    {
        match self {
            SdkEvent::Synced => String::from_str("Synced"),
            SdkEvent::UnclaimedDeposits { unclaimed_deposits } => bracketed_count(
                "UnclaimedDeposits",
                unclaimed_deposits.len(),
            ),
            SdkEvent::ClaimedDeposits { claimed_deposits } => bracketed_count(
                "ClaimedDeposits",
                claimed_deposits.len(),
            ),
            SdkEvent::PaymentSucceeded { payment } => parenthesized_id(
                "PaymentSucceeded",
                payment.id.as_str(),
            ),
            SdkEvent::PaymentPending { payment } => parenthesized_id("PaymentPending", payment.id.as_str()),
            SdkEvent::PaymentFailed { payment } => parenthesized_id("PaymentFailed", payment.id.as_str()),
            SdkEvent::AutoOptimization { optimization_event } => {
                let quoted = match optimization_event {
                    AutoOptimizationEvent::Failed { error } => quoted_debug(error.as_str()),
                    _ => String::new(),
                };
                String::from_str("AutoOptimization: ").concat(
                    describe_auto_optimization(optimization_event, quoted.as_str()).as_str(),
                )
            },
            SdkEvent::LightningAddressChanged { .. } => String::from_str("LightningAddressChanged"),
            SdkEvent::NewDeposits { new_deposits } => bracketed_count("NewDeposits", new_deposits.len()),
            SdkEvent::UnilateralExitStateChanged => String::from_str("UnilateralExitStateChanged"),
            SdkEvent::StableBalanceConversionFailed { conversion, retry_in_secs, .. } => {
                let kind = match conversion {
                    StableBalanceConversionKind::AutoConvert => "AutoConvert",
                    StableBalanceConversionKind::Deactivation => "Deactivation",
                };
                String::from_str("StableBalanceConversionFailed(").concat(kind).concat(", retry in ").concat(
                    decimal_string(*retry_in_secs as u128).as_str(),
                ).concat("s)")
            },
        }
    }
}

/// Which registry a listener joins.
#[derive(Clone, Copy, Debug, PartialEq, Eq, Structural)]
pub enum ListenerKind {
    /// Client listeners, which see events after the middleware.
    External,
    /// SDK components, which see every raw event.
    Internal,
}

impl ListenerKind {
    pub open spec fn prefix(self) -> Seq<char> {
        match self {
            ListenerKind::External => "listener"@,
            ListenerKind::Internal => "internal"@,
        }
    }
}

/// A listener id: the registry's prefix, the registration counter and a
/// random UUID, as `prefix_index-uuid`.
pub open spec fn listener_id_text(kind: ListenerKind, index: u64, uuid: Seq<char>) -> Seq<char> {
    kind.prefix() + "_"@ + decimal(index as nat) + "-"@ + uuid
}

/// Formats a listener id from the registration counter and a UUID.
pub fn listener_id(kind: ListenerKind, index: u64, uuid: &str) -> (r: String)
    ensures
        r@ == listener_id_text(kind, index, uuid@),
{
    let prefix = match kind {
        ListenerKind::External => "listener",
        ListenerKind::Internal => "internal",
    };
    String::from_str(prefix).concat("_").concat(decimal_string(index as u128).as_str()).concat("-").concat(
        uuid,
    )
}

/// A fresh listener id for the `index`-th registration: the counter keeps ids
/// apart within one emitter, the random UUID across emitters.
pub fn new_listener_id(kind: ListenerKind, index: u64) -> (r: String)
    ensures
        exists|u: Seq<char>| is_hyphenated_uuid(u) && r@ == listener_id_text(kind, index, u),
{
    let uuid = random_uuid();
    listener_id(kind, index, uuid.as_str())
}

/// Listener ids never repeat: two registrations in different registries,
/// or with different counter values, get different ids whatever UUIDs they
/// drew.
pub proof fn law_listener_ids_are_distinct(
    kind_a: ListenerKind,
    index_a: u64,
    uuid_a: Seq<char>,
    kind_b: ListenerKind,
    index_b: u64,
    uuid_b: Seq<char>,
)
    requires
        kind_a != kind_b || index_a != index_b,
    ensures
        listener_id_text(kind_a, index_a, uuid_a) != listener_id_text(kind_b, index_b, uuid_b),
{
    reveal_strlit("listener");
    reveal_strlit("internal");
    reveal_strlit("_");
    reveal_strlit("-");
    let a = listener_id_text(kind_a, index_a, uuid_a);
    let b = listener_id_text(kind_b, index_b, uuid_b);
    if kind_a != kind_b {
        assert(a[0] != b[0]);
    } else {
        let da = decimal(index_a as nat);
        let db = decimal(index_b as nat);
        lemma_decimal_is_digits(index_a as nat);
        lemma_decimal_is_digits(index_b as nat);
        lemma_parse_decimal_roundtrip(index_a as nat);
        lemma_parse_decimal_roundtrip(index_b as nat);
        assert(da != db);
        let p = kind_a.prefix() + "_"@;
        assert(p.len() == 9);
        assert(a =~= p + da + "-"@ + uuid_a);
        assert(b =~= p + db + "-"@ + uuid_b);
        if a == b {
            if da.len() < db.len() {
                assert(a[9 + da.len() as int] == '-');
                assert(b[9 + da.len() as int] == db[da.len() as int]);
                assert(is_digit(db[da.len() as int]));
            } else if db.len() < da.len() {
                assert(b[9 + db.len() as int] == '-');
                assert(a[9 + db.len() as int] == da[db.len() as int]);
                assert(is_digit(da[db.len() as int]));
            } else {
                assert(a.subrange(9, 9 + da.len() as int) =~= da);
                assert(b.subrange(9, 9 + db.len() as int) =~= db);
            }
        }
    }
}

} // verus!
