//! The conversion queue's state and rules. The worker that drains it, the
//! lock around it, and the storage it is persisted to stand outside; each
//! operation here reports what it asks of them.

use vstd::prelude::*;

use crate::text::str_eq;

verus! {

/// A conversion task to be processed by the worker.
#[derive(Debug)]
pub enum ConversionTask {
    /// Convert a single received payment's sats to the stable token.
    PerReceive(String),
    /// Batch-convert accumulated BTC above the threshold.
    AutoConvert,
    /// Convert all tokens back to BTC on deactivation.
    Deactivation(String),
}

/// A conversion task as a mathematical value.
pub enum TaskView {
    PerReceive(Seq<char>),
    AutoConvert,
    Deactivation(Seq<char>),
}

impl View for ConversionTask {
    type V = TaskView;

    open spec fn view(&self) -> TaskView {
        match self {
            ConversionTask::PerReceive(id) => TaskView::PerReceive(id@),
            ConversionTask::AutoConvert => TaskView::AutoConvert,
            ConversionTask::Deactivation(t) => TaskView::Deactivation(t@),
        }
    }
}

impl Clone for ConversionTask {
    fn clone(&self) -> (r: Self)
        ensures
            r == *self,
    {
        match self {
            ConversionTask::PerReceive(id) => ConversionTask::PerReceive(id.clone()),
            ConversionTask::AutoConvert => ConversionTask::AutoConvert,
            ConversionTask::Deactivation(t) => ConversionTask::Deactivation(t.clone()),
        }
    }
}

/// State of a pending per-receive conversion in the queue.
#[derive(Clone, Copy, Debug, PartialEq, Eq, Structural, Default)]
pub enum PendingState {
    /// Ready to be processed by the worker.
    #[default]
    Ready,
    /// Failed at least once: skipped by the worker until resolved by a
    /// matching incoming payment or by timeout.
    Deferred,
}

/// How long to keep a deferred task before dropping it as failed (seconds).
pub const DEFERRED_TASK_TIMEOUT_SECS: u64 = 120;

/// Backoff between attempts of a failed auto-convert or deactivation
/// conversion: 30 s, doubling to a cap of one hour.
pub const CONVERSION_BACKOFF_BASE_SECS: u64 = 30;
pub const CONVERSION_BACKOFF_MAX_SECS: u64 = 3_600;

/// Two to the power `n`.
pub open spec fn pow2(n: nat) -> nat
    decreases n,
{
    if n == 0 { 1 } else { 2 * pow2((n - 1) as nat) }
}

/// How many times the base wait doubles before the `consecutive_failures`-th
/// retry: one less than the failures, at most twenty.
pub open spec fn doublings(consecutive_failures: u32) -> nat {
    if consecutive_failures <= 1 {
        0
    } else if consecutive_failures - 1 > 20 {
        20
    } else {
        (consecutive_failures - 1) as nat
    }
}

/// Seconds to wait before the `consecutive_failures`-th retry: thirty seconds
/// doubled per earlier failure, capped at an hour.
pub open spec fn spec_backoff_secs(consecutive_failures: u32) -> u64 {
    let v = 30 * pow2(doublings(consecutive_failures));
    if v > 3600 { 3600 } else { v as u64 }
}

/// Seconds to wait before the `consecutive_failures`-th retry.
pub fn backoff_secs(consecutive_failures: u32) -> (r: u64)
    ensures
        r == spec_backoff_secs(consecutive_failures),
{
    let d: u32 = if consecutive_failures <= 1 {
        0
    } else if consecutive_failures - 1 > 20 {
        20
    } else {
        consecutive_failures - 1
    };
    let mut v: u64 = CONVERSION_BACKOFF_BASE_SECS;
    let mut i: u32 = 0;
    while i < d
        invariant
            i <= d,
            d == doublings(consecutive_failures),
            v == (if 30 * pow2(i as nat) > 3600 { 3600 } else { 30 * pow2(i as nat) }),
        decreases d - i,
    {
        v = if v >= CONVERSION_BACKOFF_MAX_SECS / 2 { CONVERSION_BACKOFF_MAX_SECS } else { v * 2 };
        i = i + 1;
    }
    v
}

/// The wait never shrinks as failures accumulate, and never exceeds an hour.
pub proof fn lemma_backoff_monotone(a: u32, b: u32)
    requires
        a <= b,
    ensures
        spec_backoff_secs(a) <= spec_backoff_secs(b),
        spec_backoff_secs(b) <= CONVERSION_BACKOFF_MAX_SECS,
        spec_backoff_secs(a) >= CONVERSION_BACKOFF_BASE_SECS,
{
    lemma_pow2_monotone(doublings(a), doublings(b));
    lemma_pow2_monotone(0, doublings(a));
}

proof fn lemma_pow2_monotone(a: nat, b: nat)
    requires
        a <= b,
    ensures
        1 <= pow2(a) <= pow2(b),
    decreases b,
{
    if b > a {
        lemma_pow2_monotone(a, (b - 1) as nat);
    } else if a > 0 {
        lemma_pow2_monotone((a - 1) as nat, (a - 1) as nat);
    }
}

/// A pending per-receive conversion with its processing state.
#[derive(Debug)]
pub struct PendingConversion {
    pub payment_id: String,
    pub state: PendingState,
    /// When the task was queued, in seconds since the Unix epoch.
    pub created_at: u64,
}

impl Clone for PendingConversion {
    fn clone(&self) -> (r: Self)
        ensures
            r == *self,
    {
        PendingConversion { payment_id: self.payment_id.clone(), state: self.state, created_at: self.created_at }
    }
}

/// A pending per-receive conversion as a mathematical value.
pub struct PendingView {
    pub payment_id: Seq<char>,
    pub state: PendingState,
    pub created_at: u64,
}

impl View for PendingConversion {
    type V = PendingView;

    open spec fn view(&self) -> PendingView {
        PendingView { payment_id: self.payment_id@, state: self.state, created_at: self.created_at }
    }
}

/// The pending list as mathematical values.
pub open spec fn pending_views(v: Seq<PendingConversion>) -> Seq<PendingView> {
    v.map_values(|p: PendingConversion| p@)
}

/// Whether some entry of `s` carries payment id `id`.
pub open spec fn has_id(s: Seq<PendingView>, id: Seq<char>) -> bool {
    exists|i: int| 0 <= i < s.len() && (#[trigger] s[i]).payment_id == id
}

/// Whether no two entries of `s` carry the same payment id.
pub open spec fn ids_unique(s: Seq<PendingView>) -> bool {
    forall|i: int, j: int| 0 <= i < s.len() && 0 <= j < s.len() && i != j ==> (#[trigger] s[i]).payment_id
        != (#[trigger] s[j]).payment_id
}

/// The conversion queue as a mathematical value.
pub struct QueueView {
    /// Ordered pending per-receive conversions.
    pub per_receive: Seq<PendingView>,
    /// A pending auto-convert or deactivation task.
    pub pending_task: Option<TaskView>,
    /// Consecutive failures of `pending_task`.
    pub task_failures: u32,
    /// Unix time before which `pending_task` must not run again.
    pub task_not_before: Option<u64>,
}

/// Internal state of the conversion queue.
pub struct ConversionQueueState {
    /// Ordered list of pending per-receive conversions.
    pub per_receive: Vec<PendingConversion>,
    /// A pending non-per-receive task (auto-convert or deactivation).
    pub pending_task: Option<ConversionTask>,
    /// How many times `pending_task` has failed in a row.
    pub task_failures: u32,
    /// Unix time before which `pending_task` must not run again.
    pub task_not_before: Option<u64>,
}

impl View for ConversionQueueState {
    type V = QueueView;

    open spec fn view(&self) -> QueueView {
        QueueView {
            per_receive: pending_views(self.per_receive@),
            pending_task: match self.pending_task {
                Some(t) => Some(t@),
                None => None,
            },
            task_failures: self.task_failures,
            task_not_before: self.task_not_before,
        }
    }
}

impl ConversionQueueState {
    /// Clears the failure count and the not-before time.
    pub fn reset_backoff(&mut self)
        ensures
            final(self)@ == (QueueView { task_failures: 0, task_not_before: None, ..old(self)@ }),
    {
        self.task_failures = 0;
        self.task_not_before = None;
    }
}

/// What an operation asks of the surroundings of the queue.
#[derive(Debug, Clone, PartialEq, Eq, Default)]
pub struct QueueEffects {
    /// Persist the per-receive list (delete the persisted copy when empty).
    pub persist_pending: bool,
    /// Wake the worker.
    pub notify: bool,
    /// Persist this token as the pending deactivation.
    pub save_deactivation: Option<String>,
    /// Delete the persisted pending deactivation.
    pub forget_deactivation: bool,
}

/// No effect at all.
pub open spec fn no_effects(e: QueueEffects) -> bool {
    &&& !e.persist_pending
    &&& !e.notify
    &&& e.save_deactivation is None
    &&& !e.forget_deactivation
}

/// A priority queue that serializes conversion tasks: per-receive tasks run
/// before auto-convert and deactivation. Items stay in the queue while being
/// processed and are removed on completion.
pub struct ConversionQueue {
    state: ConversionQueueState,
}

impl View for ConversionQueue {
    type V = QueueView;

    closed spec fn view(&self) -> QueueView {
        self.state@
    }
}

/// The view of `q` with `task_failures` and `task_not_before` cleared.
pub open spec fn without_backoff(q: QueueView) -> QueueView {
    QueueView { task_failures: 0, task_not_before: None, ..q }
}

/// Whether the pending task may run at time `now`.
pub open spec fn task_due(q: QueueView, now: u64) -> bool {
    match q.task_not_before {
        None => true,
        Some(nb) => now >= nb,
    }
}

/// The index of the first entry of `s` that is not deferred.
pub open spec fn is_first_ready(s: Seq<PendingView>, i: int) -> bool {
    &&& 0 <= i < s.len()
    &&& s[i].state != PendingState::Deferred
    &&& forall|j: int| 0 <= j < i ==> (#[trigger] s[j]).state == PendingState::Deferred
}

/// The next task to hand out at time `now`: the first ready per-receive task;
/// with no per-receive task at all, the pending task once it is due.
pub open spec fn spec_next_task(q: QueueView, now: u64) -> Option<TaskView> {
    if exists|i: int| is_first_ready(q.per_receive, i) {
        let i = choose|i: int| is_first_ready(q.per_receive, i);
        Some(TaskView::PerReceive(q.per_receive[i].payment_id))
    } else if q.per_receive.len() == 0 && task_due(q, now) {
        q.pending_task
    } else {
        None
    }
}

/// Whether a failure reported for `task` concerns the queue's pending task.
pub open spec fn same_pending_task(pending: Option<TaskView>, task: TaskView) -> bool {
    match (pending, task) {
        (Some(TaskView::AutoConvert), TaskView::AutoConvert) => true,
        (Some(TaskView::Deactivation(a)), TaskView::Deactivation(b)) => a == b,
        _ => false,
    }
}

/// The entries of `s` whose payment id is not `id`, in order.
pub open spec fn without_id(s: Seq<PendingView>, id: Seq<char>) -> Seq<PendingView>
    decreases s.len(),
{
    if s.len() == 0 {
        s
    } else {
        let rest = without_id(s.drop_last(), id);
        if s.last().payment_id == id { rest } else { rest.push(s.last()) }
    }
}

/// Whether a pending entry has timed out at `now`: deferred, with a known
/// creation time, and older than the deferral timeout.
pub open spec fn timed_out(p: PendingView, now: u64) -> bool {
    &&& p.state == PendingState::Deferred
    &&& p.created_at > 0
    &&& now - p.created_at > DEFERRED_TASK_TIMEOUT_SECS
}

/// The entries of `s` that have not timed out at `now`, in order.
pub open spec fn live_entries(s: Seq<PendingView>, now: u64) -> Seq<PendingView>
    decreases s.len(),
{
    if s.len() == 0 {
        s
    } else {
        let rest = live_entries(s.drop_last(), now);
        if timed_out(s.last(), now) { rest } else { rest.push(s.last()) }
    }
}

/// The payment ids of the entries of `s` that have timed out at `now`, in order.
pub open spec fn timed_out_ids(s: Seq<PendingView>, now: u64) -> Seq<Seq<char>>
    decreases s.len(),
{
    if s.len() == 0 {
        Seq::empty()
    } else {
        let rest = timed_out_ids(s.drop_last(), now);
        if timed_out(s.last(), now) { rest.push(s.last().payment_id) } else { rest }
    }
}

/// `s` followed by the entries of `incoming` whose payment id is not already
/// present, in order, each checked against what came before it.
pub open spec fn merge_recovered(s: Seq<PendingView>, incoming: Seq<PendingView>) -> Seq<PendingView>
    decreases incoming.len(),
{
    if incoming.len() == 0 {
        s
    } else {
        let before = merge_recovered(s, incoming.drop_last());
        if has_id(before, incoming.last().payment_id) { before } else { before.push(incoming.last()) }
    }
}

/// The queue after queueing a per-receive conversion for `id` at time `now`:
/// unchanged when `id` is queued already, else with a ready entry appended.
pub open spec fn spec_push_per_receive(q: QueueView, id: Seq<char>, now: u64) -> QueueView {
    if has_id(q.per_receive, id) {
        q
    } else {
        QueueView {
            per_receive: q.per_receive.push(PendingView { payment_id: id, state: PendingState::Ready, created_at: now }),
            ..q
        }
    }
}

/// The queue after an auto-convert trigger: it becomes the pending task
/// unless a task is pending already.
pub open spec fn spec_push_auto_convert(q: QueueView) -> QueueView {
    if q.pending_task is None {
        QueueView { pending_task: Some(TaskView::AutoConvert), ..q }
    } else {
        q
    }
}

/// The queue after a deactivation request: it replaces the pending task and
/// clears the backoff.
pub open spec fn spec_push_deactivation(q: QueueView, token: Seq<char>) -> QueueView {
    without_backoff(QueueView { pending_task: Some(TaskView::Deactivation(token)), ..q })
}

/// The failure count after one more failure, capped at `u32::MAX`.
pub open spec fn next_failures(q: QueueView) -> u32 {
    if q.task_failures == u32::MAX { u32::MAX } else { (q.task_failures + 1) as u32 }
}

/// `now + delay`, capped at `u64::MAX`.
pub open spec fn not_before_after(now: u64, delay: u64) -> u64 {
    if now + delay > u64::MAX { u64::MAX } else { (now + delay) as u64 }
}

/// The queue after a failure of `task` reported at time `now`, and the delay
/// and failure count reported: a failure of the pending task counts one more
/// failure and puts it off by the backoff; any other leaves the queue as it
/// is and reports `(0, 0)`.
pub open spec fn spec_retry_later(q: QueueView, task: TaskView, now: u64) -> (QueueView, (u64, u32)) {
    if same_pending_task(q.pending_task, task) {
        let failures = next_failures(q);
        let delay = spec_backoff_secs(failures);
        (
            QueueView { task_failures: failures, task_not_before: Some(not_before_after(now, delay)), ..q },
            (delay, failures),
        )
    } else {
        (q, (0, 0))
    }
}

/// The queue after `task` completed: a per-receive task leaves the list; an
/// auto-convert or deactivation task clears the pending task and its backoff.
pub open spec fn spec_complete_task(q: QueueView, task: TaskView) -> QueueView {
    match task {
        TaskView::PerReceive(id) => QueueView { per_receive: without_id(q.per_receive, id), ..q },
        _ => without_backoff(QueueView { pending_task: None, ..q }),
    }
}

/// The delay until the pending task may run at time `now`, when it is under
/// backoff.
pub open spec fn spec_retry_delay(q: QueueView, now: u64) -> Option<u64> {
    match (q.task_not_before, q.pending_task) {
        (Some(nb), Some(_)) => Some((if nb >= now { nb - now } else { 0 }) as u64),
        _ => None,
    }
}

proof fn lemma_first_ready_exists(s: Seq<PendingView>, k: int)
    requires
        0 <= k < s.len(),
        s[k].state != PendingState::Deferred,
    ensures
        exists|i: int| is_first_ready(s, i),
    decreases k,
{
    if forall|j: int| 0 <= j < k ==> (#[trigger] s[j]).state == PendingState::Deferred {
        assert(is_first_ready(s, k));
    } else {
        let j = choose|j: int| 0 <= j < k && (#[trigger] s[j]).state != PendingState::Deferred;
        lemma_first_ready_exists(s, j);
    }
}

proof fn lemma_pow2_seven()
    ensures
        pow2(7) == 128,
{
    reveal_with_fuel(pow2, 8);
}

/// Whether `id` is the payment id of a deferred entry of `s`.
pub open spec fn is_deferred_entry(s: Seq<PendingView>, id: Seq<char>) -> bool {
    exists|i: int| 0 <= i < s.len() && (#[trigger] s[i]).payment_id == id && s[i].state == PendingState::Deferred
}

/// The expiry sweep drops only conversions that failed and were deferred:
/// every id it sweeps belongs to a deferred entry, and every ready entry
/// stays queued whatever its age.
pub proof fn law_expiry_sweeps_only_deferred(s: Seq<PendingView>, now: u64)
    ensures
        forall|k: int|
            0 <= k < timed_out_ids(s, now).len() ==> is_deferred_entry(s, #[trigger] timed_out_ids(s, now)[k]),
        forall|i: int|
            0 <= i < s.len() && (#[trigger] s[i]).state == PendingState::Ready ==> live_entries(s, now).contains(s[i]),
    decreases s.len(),
{
    if s.len() > 0 {
        let t = s.drop_last();
        law_expiry_sweeps_only_deferred(t, now);
        let ids = timed_out_ids(s, now);
        let rest = timed_out_ids(t, now);
        assert forall|k: int| 0 <= k < ids.len() implies is_deferred_entry(s, #[trigger] ids[k]) by {
            if timed_out(s.last(), now) {
                assert(ids == rest.push(s.last().payment_id));
            } else {
                assert(ids == rest);
            }
            if k < rest.len() {
                assert(ids[k] == rest[k]);
                assert(is_deferred_entry(t, rest[k]));
                let i = choose|i: int|
                    0 <= i < t.len() && (#[trigger] t[i]).payment_id == rest[k] && t[i].state == PendingState::Deferred;
                assert(s[i] == t[i]);
            } else {
                assert(ids[k] == s.last().payment_id);
                assert(s[s.len() - 1] == s.last());
            }
        }
        let live = live_entries(s, now);
        let live_t = live_entries(t, now);
        assert forall|i: int| 0 <= i < s.len() && (#[trigger] s[i]).state == PendingState::Ready implies live.contains(
            s[i],
        ) by {
            if i < s.len() - 1 {
                assert(s[i] == t[i]);
                assert(live_t.contains(t[i]));
                let j = choose|j: int| 0 <= j < live_t.len() && live_t[j] == t[i];
                if !timed_out(s.last(), now) {
                    assert(live[j] == live_t[j]);
                }
            } else {
                assert(s[i] == s.last());
                assert(live[live.len() - 1] == s.last());
            }
        }
    }
}

/// Queueing the same per-receive conversion twice leaves the queue as
/// queueing it once: the queue deduplicates by payment id.
pub proof fn law_push_per_receive_deduplicates(q: QueueView, id: Seq<char>, t1: u64, t2: u64)
    ensures
        spec_push_per_receive(spec_push_per_receive(q, id, t1), id, t2) == spec_push_per_receive(q, id, t1),
        has_id(spec_push_per_receive(q, id, t1).per_receive, id),
{
    let q1 = spec_push_per_receive(q, id, t1);
    if !has_id(q.per_receive, id) {
        let n = q.per_receive.len() as int;
        assert(q1.per_receive[n].payment_id == id);
    }
}

/// Per-receive tasks come first: while any per-receive task is queued, the
/// pending auto-convert or deactivation task is not handed out, and when one
/// of them is ready, a per-receive task is.
pub proof fn law_per_receive_first(q: QueueView, now: u64)
    requires
        q.per_receive.len() > 0,
    ensures
        spec_next_task(q, now) is None || spec_next_task(q, now) matches Some(TaskView::PerReceive(_)),
        (exists|k: int| 0 <= k < q.per_receive.len() && (#[trigger] q.per_receive[k]).state
            != PendingState::Deferred) ==> spec_next_task(q, now) matches Some(TaskView::PerReceive(_)),
{
    if exists|k: int| 0 <= k < q.per_receive.len() && (#[trigger] q.per_receive[k]).state != PendingState::Deferred {
        let k = choose|k: int| 0 <= k < q.per_receive.len() && (#[trigger] q.per_receive[k]).state != PendingState::Deferred;
        lemma_first_ready_exists(q.per_receive, k);
    }
}

/// A failed pending task stays queued but is not handed out before its
/// backoff has elapsed, and is handed out again once it has.
pub proof fn law_failed_task_waits_for_backoff(q: QueueView, task: TaskView, now: u64, later: u64)
    requires
        q.per_receive.len() == 0,
        same_pending_task(q.pending_task, task),
    ensures
        ({
            let (q2, (delay, failures)) = spec_retry_later(q, task, now);
            &&& q2.pending_task == q.pending_task
            &&& delay == spec_backoff_secs(failures)
            &&& later < not_before_after(now, delay) ==> spec_next_task(q2, later) is None
            &&& later >= not_before_after(now, delay) ==> spec_next_task(q2, later) == q.pending_task
            &&& now + delay <= u64::MAX ==> spec_retry_delay(q2, now) == Some(delay)
        }),
{
    let (q2, (delay, failures)) = spec_retry_later(q, task, now);
    assert(forall|i: int| !is_first_ready(q2.per_receive, i));
    lemma_backoff_monotone(failures, failures);
}

/// The wait after consecutive failures starts at thirty seconds, doubles
/// with each further failure, and is capped at an hour.
pub proof fn law_backoff_doubles_and_caps(n: u32)
    ensures
        spec_backoff_secs(0) == 30,
        spec_backoff_secs(1) == 30,
        1 <= n < u32::MAX ==> spec_backoff_secs((n + 1) as u32) == (if 2 * spec_backoff_secs(n) > 3600 {
            3600
        } else {
            2 * spec_backoff_secs(n)
        }),
        n >= 8 ==> spec_backoff_secs(n) == 3600,
{
    if 1 <= n < u32::MAX {
        if n <= 20 {
            assert(doublings((n + 1) as u32) == doublings(n) + 1);
            assert(pow2(doublings((n + 1) as u32)) == 2 * pow2(doublings(n)));
        } else {
            assert(doublings((n + 1) as u32) == 20);
            assert(doublings(n) == 20);
            lemma_pow2_seven();
            lemma_pow2_monotone(7, 20);
        }
    }
    if n >= 8 {
        lemma_pow2_monotone(7, doublings(n));
        lemma_pow2_seven();
    }
}

/// A deactivation runs now: it replaces the pending task and any backoff it
/// was under, and with no per-receive task queued it is the next task at any
/// time.
pub proof fn law_deactivation_runs_now(q: QueueView, token: Seq<char>, now: u64)
    requires
        q.per_receive.len() == 0,
    ensures
        spec_next_task(spec_push_deactivation(q, token), now) == Some(TaskView::Deactivation(token)),
        spec_retry_delay(spec_push_deactivation(q, token), now) is None,
{
    let q2 = spec_push_deactivation(q, token);
    assert(forall|i: int| !is_first_ready(q2.per_receive, i));
}

/// A failure reported for a task that has been replaced (a deactivation that
/// arrived while an auto-convert ran) does not back off the new task.
pub proof fn law_replaced_task_failure_is_ignored(q: QueueView, token: Seq<char>, now: u64)
    ensures
        spec_retry_later(spec_push_deactivation(spec_push_auto_convert(q), token), TaskView::AutoConvert, now)
            == (spec_push_deactivation(spec_push_auto_convert(q), token), (0u64, 0u32)),
{
}

/// Auto-convert triggers collapse into one pending task and never override
/// a pending deactivation.
pub proof fn law_auto_convert_collapses(q: QueueView)
    ensures
        spec_push_auto_convert(spec_push_auto_convert(q)) == spec_push_auto_convert(q),
        q.pending_task matches Some(TaskView::Deactivation(t)) ==> spec_push_auto_convert(q) == q,
{
}

/// Completing the pending task clears it together with its backoff, so a
/// fresh trigger runs at once and a later failure starts the backoff anew.
pub proof fn law_completion_resets_backoff(q: QueueView, now: u64)
    requires
        q.per_receive.len() == 0,
    ensures
        ({
            let q2 = spec_push_auto_convert(spec_complete_task(q, TaskView::AutoConvert));
            &&& spec_next_task(q2, now) == Some(TaskView::AutoConvert)
            &&& spec_retry_delay(spec_complete_task(q, TaskView::AutoConvert), now) is None
            &&& spec_retry_later(q2, TaskView::AutoConvert, now).1 == (30u64, 1u32)
        }),
{
    let q2 = spec_push_auto_convert(spec_complete_task(q, TaskView::AutoConvert));
    assert(forall|i: int| !is_first_ready(q2.per_receive, i));
    law_backoff_doubles_and_caps(1);
}

fn position_of_id(v: &Vec<PendingConversion>, id: &str) -> (r: Option<usize>)
    ensures
        match r {
            Some(i) => i < v@.len() && v@[i as int].payment_id@ == id@ && forall|j: int|
                0 <= j < i ==> (#[trigger] v@[j]).payment_id@ != id@,
            None => !has_id(pending_views(v@), id@),
        },
{
    let mut i: usize = 0;
    while i < v.len()
        invariant
            i <= v@.len(),
            forall|j: int| 0 <= j < i ==> (#[trigger] v@[j]).payment_id@ != id@,
        decreases v.len() - i,
    {
        if str_eq(v[i].payment_id.as_str(), id) {
            return Some(i);
        }
        i = i + 1;
    }
    proof {
        assert forall|j: int| 0 <= j < pending_views(v@).len() implies (#[trigger] pending_views(v@)[j]).payment_id
            != id@ by {
            assert(v@[j].payment_id@ != id@);
        }
    }
    None
}

fn task_matches(pending: &Option<ConversionTask>, task: &ConversionTask) -> (r: bool)
    ensures
        r == same_pending_task(
            match *pending {
                Some(t) => Some(t@),
                None => None,
            },
            task@,
        ),
{
    match (pending, task) {
        (Some(ConversionTask::AutoConvert), ConversionTask::AutoConvert) => true,
        (Some(ConversionTask::Deactivation(a)), ConversionTask::Deactivation(b)) => str_eq(a.as_str(), b.as_str()),
        _ => false,
    }
}

impl ConversionQueue {
    /// Whether the queue is well formed: no payment id is queued twice.
    pub open spec fn wf(&self) -> bool {
        ids_unique(self@.per_receive)
    }

    /// An empty queue.
    pub fn new() -> (r: ConversionQueue)
        ensures
            r.wf(),
            r@.per_receive.len() == 0,
            r@.pending_task is None,
            r@.task_failures == 0,
            r@.task_not_before is None,
    {
        ConversionQueue {
            state: ConversionQueueState {
                per_receive: Vec::new(),
                pending_task: None,
                task_failures: 0,
                task_not_before: None,
            },
        }
    }

    /// The pending per-receive conversions, for persisting them.
    pub fn pending(&self) -> (r: &Vec<PendingConversion>)
        ensures
            pending_views(r@) == self@.per_receive,
    {
        &self.state.per_receive
    }

    /// Queues a per-receive conversion for `payment_id`, queued at `now`,
    /// unless one is queued already. A new entry is persisted and wakes the
    /// worker.
    pub fn push_per_receive(&mut self, payment_id: String, now: u64) -> (e: QueueEffects)
        requires
            old(self).wf(),
        ensures
            final(self).wf(),
            final(self)@ == spec_push_per_receive(old(self)@, payment_id@, now),
            has_id(old(self)@.per_receive, payment_id@) ==> no_effects(e),
            !has_id(old(self)@.per_receive, payment_id@) ==> e.persist_pending && e.notify
                && e.save_deactivation is None && !e.forget_deactivation,
    {
        match position_of_id(&self.state.per_receive, payment_id.as_str()) {
            Some(i) => {
                proof {
                    assert(pending_views(self.state.per_receive@)[i as int].payment_id == payment_id@);
                }
                QueueEffects { persist_pending: false, notify: false, save_deactivation: None, forget_deactivation: false }
            },
            None => {
                let ghost old_v = self.state.per_receive@;
                self.state.per_receive.push(
                    PendingConversion { payment_id, state: PendingState::Ready, created_at: now },
                );
                proof {
                    assert(pending_views(self.state.per_receive@) =~= pending_views(old_v).push(
                        self.state.per_receive@.last()@,
                    ));
                    assert forall|i: int, j: int|
                        0 <= i < pending_views(self.state.per_receive@).len() && 0 <= j < pending_views(
                            self.state.per_receive@,
                        ).len() && i != j implies (#[trigger] pending_views(self.state.per_receive@)[i]).payment_id
                        != (#[trigger] pending_views(self.state.per_receive@)[j]).payment_id by {
                        let s = pending_views(self.state.per_receive@);
                        let n = old_v.len() as int;
                        if i < n && j < n {
                            assert(s[i] == pending_views(old_v)[i]);
                            assert(s[j] == pending_views(old_v)[j]);
                        } else if i == n {
                            assert(s[j] == pending_views(old_v)[j]);
                        } else {
                            assert(s[i] == pending_views(old_v)[i]);
                        }
                    }
                }
                QueueEffects { persist_pending: true, notify: true, save_deactivation: None, forget_deactivation: false }
            },
        }
    }

    /// Queues an auto-convert task, collapsing repeated triggers into one and
    /// never overriding a pending deactivation. Returns whether the worker
    /// should be woken.
    pub fn push_auto_convert(&mut self) -> (notify: bool)
        requires
            old(self).wf(),
        ensures
            final(self).wf(),
            final(self)@ == spec_push_auto_convert(old(self)@),
            notify == (old(self)@.pending_task is None),
    {
        if self.state.pending_task.is_none() {
            self.state.pending_task = Some(ConversionTask::AutoConvert);
            true
        } else {
            false
        }
    }

    /// Queues a deactivation conversion for `token_identifier`. It overrides
    /// any pending auto-convert and any backoff, is persisted so it survives a
    /// restart, and wakes the worker.
    pub fn push_deactivation(&mut self, token_identifier: String) -> (e: QueueEffects)
        requires
            old(self).wf(),
        ensures
            final(self).wf(),
            final(self)@ == spec_push_deactivation(old(self)@, token_identifier@),
            e.save_deactivation == Some(token_identifier),
            e.notify && !e.persist_pending && !e.forget_deactivation,
    {
        let saved = token_identifier.clone();
        self.state.pending_task = Some(ConversionTask::Deactivation(token_identifier));
        self.state.reset_backoff();
        QueueEffects { persist_pending: false, notify: true, save_deactivation: Some(saved), forget_deactivation: false }
    }

    /// Drops a pending auto-convert task, if that is what is pending.
    pub fn clear_pending_auto_convert(&mut self)
        requires
            old(self).wf(),
        ensures
            final(self).wf(),
            old(self)@.pending_task == Some(TaskView::AutoConvert) ==> final(self)@ == (QueueView {
                pending_task: None,
                ..old(self)@
            }),
            old(self)@.pending_task != Some(TaskView::AutoConvert) ==> final(self)@ == old(self)@,
    {
        let is_auto = match &self.state.pending_task {
            Some(ConversionTask::AutoConvert) => true,
            _ => false,
        };
        if is_auto {
            self.state.pending_task = None;
        }
    }

    /// Whether any per-receive task (ready or deferred) is queued.
    pub fn has_per_receive(&self) -> (r: bool)
        ensures
            r == (self@.per_receive.len() > 0),
    {
        self.state.per_receive.len() > 0
    }

    /// Clears every task and the backoff. Returns the payment ids of the
    /// cleared per-receive tasks, in order; the persisted list is rewritten
    /// (now empty), and a pending deactivation's persisted copy is dropped.
    pub fn clear_queue(&mut self) -> (r: (Vec<String>, QueueEffects))
        requires
            old(self).wf(),
        ensures
            final(self).wf(),
            r.0@.map_values(|s: String| s@) == old(self)@.per_receive.map_values(|p: PendingView| p.payment_id),
            final(self)@ == (QueueView {
                per_receive: Seq::empty(),
                pending_task: None,
                task_failures: 0,
                task_not_before: None,
            }),
            r.1.persist_pending && !r.1.notify && r.1.save_deactivation is None,
            r.1.forget_deactivation == (old(self)@.pending_task matches Some(TaskView::Deactivation(_))),
    {
        let mut cleared: Vec<String> = Vec::new();
        let mut i: usize = 0;
        while i < self.state.per_receive.len()
            invariant
                i <= self.state.per_receive@.len(),
                self.state.per_receive@ == old(self).state.per_receive@,
                cleared@.map_values(|s: String| s@) =~= pending_views(self.state.per_receive@).take(i as int).map_values(
                    |p: PendingView| p.payment_id,
                ),
            decreases self.state.per_receive.len() - i,
        {
            let ghost before = cleared@;
            cleared.push(self.state.per_receive[i].payment_id.clone());
            proof {
                let pv = pending_views(self.state.per_receive@);
                assert(pv.take(i + 1) =~= pv.take(i as int).push(pv[i as int]));
                assert(cleared@.map_values(|s: String| s@) =~= before.map_values(|s: String| s@).push(pv[i as int].payment_id));
            }
            i = i + 1;
        }
        proof {
            assert(pending_views(self.state.per_receive@).take(i as int) =~= pending_views(self.state.per_receive@));
        }
        let forget = match &self.state.pending_task {
            Some(ConversionTask::Deactivation(_)) => true,
            _ => false,
        };
        self.state.per_receive = Vec::new();
        self.state.pending_task = None;
        self.state.reset_backoff();
        proof { assert(pending_views(self.state.per_receive@) =~= Seq::<PendingView>::empty()); }
        (cleared, QueueEffects { persist_pending: true, notify: false, save_deactivation: None, forget_deactivation: forget })
    }

    /// Marks the per-receive task for `payment_id` as deferred. Returns
    /// whether one was found (and the list must be persisted).
    pub fn defer_task(&mut self, payment_id: &str) -> (persist: bool)
        requires
            old(self).wf(),
        ensures
            final(self).wf(),
            persist == has_id(old(self)@.per_receive, payment_id@),
            !persist ==> final(self)@ == old(self)@,
            persist ==> exists|i: int| {
                &&& 0 <= i < old(self)@.per_receive.len()
                &&& (#[trigger] old(self)@.per_receive[i]).payment_id == payment_id@
                &&& final(self)@ == (QueueView {
                    per_receive: old(self)@.per_receive.update(
                        i,
                        PendingView { state: PendingState::Deferred, ..old(self)@.per_receive[i] },
                    ),
                    ..old(self)@
                })
            },
    {
        match position_of_id(&self.state.per_receive, payment_id) {
            Some(i) => {
                let ghost old_v = self.state.per_receive@;
                let mut entry = self.state.per_receive[i].clone();
                entry.state = PendingState::Deferred;
                self.state.per_receive.set(i, entry);
                proof {
                    assert(pending_views(self.state.per_receive@) =~= pending_views(old_v).update(
                        i as int,
                        PendingView { state: PendingState::Deferred, ..pending_views(old_v)[i as int] },
                    ));
                }
                true
            },
            None => false,
        }
    }

    /// The next task to process at time `now`, without removing it: the
    /// first ready per-receive task; when no per-receive task is queued at
    /// all, the pending task once its backoff has elapsed.
    pub fn next_task(&self, now: u64) -> (r: Option<ConversionTask>)
        requires
            self.wf(),
        ensures
            match r {
                Some(t) => spec_next_task(self@, now) == Some(t@),
                None => spec_next_task(self@, now) is None,
            },
    {
        let mut i: usize = 0;
        while i < self.state.per_receive.len()
            invariant
                i <= self.state.per_receive@.len(),
                forall|j: int| 0 <= j < i ==> (#[trigger] self.state.per_receive@[j]).state == PendingState::Deferred,
            decreases self.state.per_receive.len() - i,
        {
            if self.state.per_receive[i].state != PendingState::Deferred {
                proof {
                    let s = self@.per_receive;
                    assert forall|j: int| 0 <= j < i implies (#[trigger] s[j]).state == PendingState::Deferred by {
                        assert(s[j] == self.state.per_receive@[j]@);
                    }
                    assert(is_first_ready(s, i as int));
                    assert forall|k: int| is_first_ready(s, k) implies k == i by {
                        if k < i { assert(s[k].state == PendingState::Deferred); }
                        if k > i { assert(s[i as int].state != PendingState::Deferred); }
                    }
                }
                return Some(ConversionTask::PerReceive(self.state.per_receive[i].payment_id.clone()));
            }
            i = i + 1;
        }
        proof {
            let s = self@.per_receive;
            assert forall|k: int| !is_first_ready(s, k) by {
                if 0 <= k < s.len() { assert(s[k] == self.state.per_receive@[k]@); }
            }
        }
        if self.state.per_receive.len() == 0 {
            let due = match self.state.task_not_before {
                None => true,
                Some(nb) => now >= nb,
            };
            if due {
                match &self.state.pending_task {
                    Some(t) => Some(t.clone()),
                    None => None,
                }
            } else {
                None
            }
        } else {
            None
        }
    }

    /// How long, in seconds from `now`, until the pending task may run again
    /// when it is under backoff. `None` when nothing is waiting on time.
    pub fn retry_delay(&self, now: u64) -> (r: Option<u64>)
        ensures
            r == spec_retry_delay(self@, now),
    {
        match (self.state.task_not_before, &self.state.pending_task) {
            (Some(nb), Some(_)) => Some(nb.saturating_sub(now)),
            _ => None,
        }
    }

    /// Keeps the pending task queued after a failure of `task` at time `now`
    /// and schedules its next attempt. Returns the delay in seconds and the
    /// failure count so far. A failure reported for a task that has since
    /// been replaced changes nothing and returns `(0, 0)`.
    pub fn retry_later(&mut self, task: &ConversionTask, now: u64) -> (r: (u64, u32))
        requires
            old(self).wf(),
        ensures
            final(self).wf(),
            (final(self)@, r) == spec_retry_later(old(self)@, task@, now),
    {
        if !task_matches(&self.state.pending_task, task) {
            return (0, 0);
        }
        self.state.task_failures = self.state.task_failures.saturating_add(1);
        let delay = backoff_secs(self.state.task_failures);
        self.state.task_not_before = Some(now.saturating_add(delay));
        (delay, self.state.task_failures)
    }

    /// Removes a completed task. A per-receive task leaves the list (which is
    /// persisted); an auto-convert or deactivation task clears the pending
    /// task and its backoff, and a deactivation's persisted copy is dropped.
    pub fn complete_task(&mut self, task: &ConversionTask) -> (e: QueueEffects)
        requires
            old(self).wf(),
        ensures
            final(self).wf(),
            final(self)@ == spec_complete_task(old(self)@, task@),
            e.persist_pending == (task@ is PerReceive),
            e.forget_deactivation == (task@ is Deactivation),
            !e.notify && e.save_deactivation is None,
    {
        match task {
            ConversionTask::PerReceive(id) => {
                let ghost old_s = self@.per_receive;
                let mut kept: Vec<PendingConversion> = Vec::new();
                let mut i: usize = 0;
                while i < self.state.per_receive.len()
                    invariant
                        i <= self.state.per_receive@.len(),
                        pending_views(self.state.per_receive@) == old_s,
                        ids_unique(old_s),
                        pending_views(kept@) =~= without_id(old_s.take(i as int), id@),
                        forall|a: int| 0 <= a < kept@.len() ==> exists|b: int| 0 <= b < i && (#[trigger] kept@[a])@ == old_s[b],
                        forall|a: int, b: int| 0 <= a < b < kept@.len() ==> exists|x: int, y: int| 0 <= x < y < i && (#[trigger] kept@[a])@ == old_s[x] && (#[trigger] kept@[b])@ == old_s[y],
                    decreases self.state.per_receive.len() - i,
                {
                    proof { assert(old_s.take(i + 1).drop_last() =~= old_s.take(i as int)); }
                    if !str_eq(self.state.per_receive[i].payment_id.as_str(), id.as_str()) {
                        let ghost before = kept@;
                        kept.push(self.state.per_receive[i].clone());
                        proof {
                            assert(pending_views(kept@) =~= pending_views(before).push(old_s[i as int]));
                            assert forall|a: int| 0 <= a < kept@.len() implies exists|b: int| 0 <= b < i + 1 && (#[trigger] kept@[a])@ == old_s[b] by {
                                if a < before.len() {
                                    assert(kept@[a] == before[a]);
                                } else {
                                    assert(kept@[a]@ == old_s[i as int]);
                                }
                            }
                            assert forall|a: int, b: int| 0 <= a < b < kept@.len() implies exists|x: int, y: int| 0 <= x < y < i + 1 && (#[trigger] kept@[a])@ == old_s[x] && (#[trigger] kept@[b])@ == old_s[y] by {
                                if b < before.len() {
                                    assert(kept@[a] == before[a]);
                                    assert(kept@[b] == before[b]);
                                } else {
                                    assert(kept@[a] == before[a]);
                                    let x = choose|x: int| 0 <= x < i && (#[trigger] before[a])@ == old_s[x];
                                    assert(kept@[b]@ == old_s[i as int]);
                                    assert(0 <= x < (i as int) < i + 1);
                                }
                            }
                        }
                    }
                    i = i + 1;
                }
                proof {
                    assert(old_s.take(old_s.len() as int) =~= old_s);
                    let s = pending_views(kept@);
                    assert forall|a: int, b: int| 0 <= a < s.len() && 0 <= b < s.len() && a != b implies (#[trigger] s[a]).payment_id != (#[trigger] s[b]).payment_id by {
                        if a < b {
                            let (x, y) = choose|x: int, y: int| 0 <= x < y < i && (#[trigger] kept@[a])@ == old_s[x] && (#[trigger] kept@[b])@ == old_s[y];
                            assert(s[a] == kept@[a]@);
                            assert(s[b] == kept@[b]@);
                        } else {
                            let (x, y) = choose|x: int, y: int| 0 <= x < y < i && (#[trigger] kept@[b])@ == old_s[x] && (#[trigger] kept@[a])@ == old_s[y];
                            assert(s[a] == kept@[a]@);
                            assert(s[b] == kept@[b]@);
                        }
                    }
                }
                self.state.per_receive = kept;
                QueueEffects { persist_pending: true, notify: false, save_deactivation: None, forget_deactivation: false }
            },
            ConversionTask::AutoConvert => {
                self.state.pending_task = None;
                self.state.reset_backoff();
                QueueEffects { persist_pending: false, notify: false, save_deactivation: None, forget_deactivation: false }
            },
            ConversionTask::Deactivation(_) => {
                self.state.pending_task = None;
                self.state.reset_backoff();
                QueueEffects { persist_pending: false, notify: false, save_deactivation: None, forget_deactivation: true }
            },
        }
    }

    /// Checks whether an incoming payment is the conversion result of a
    /// deferred task: `transfer_ids[i]` is the deterministic transfer id of the
    /// conversion for the `i`-th queued entry. The first deferred entry whose
    /// id matches leaves the queue, the list is persisted, the worker is
    /// woken, and its payment id is returned.
    pub fn resolve_by_conversion_payment(&mut self, incoming_payment_id: &str, transfer_ids: &Vec<String>) -> (r: (
        Option<String>,
        QueueEffects,
    ))
        requires
            old(self).wf(),
            transfer_ids@.len() == old(self)@.per_receive.len(),
        ensures
            final(self).wf(),
            r.0 is None ==> {
                &&& forall|i: int| 0 <= i < transfer_ids@.len() ==> !(
                    old(self)@.per_receive[i].state == PendingState::Deferred
                    && (#[trigger] transfer_ids@[i])@ == incoming_payment_id@)
                &&& final(self)@ == old(self)@
                &&& no_effects(r.1)
            },
            r.0 is Some ==> ({
                let id = r.0->0;
                exists|i: int| {
                    &&& 0 <= i < transfer_ids@.len()
                    &&& old(self)@.per_receive[i].state == PendingState::Deferred
                    &&& (#[trigger] transfer_ids@[i])@ == incoming_payment_id@
                    &&& forall|j: int| 0 <= j < i ==> !(old(self)@.per_receive[j].state == PendingState::Deferred
                        && (#[trigger] transfer_ids@[j])@ == incoming_payment_id@)
                    &&& id@ == old(self)@.per_receive[i].payment_id
                    &&& final(self)@ == (QueueView { per_receive: old(self)@.per_receive.remove(i), ..old(self)@ })
                    &&& r.1.persist_pending && r.1.notify && r.1.save_deactivation is None && !r.1.forget_deactivation
                }
            }),
    {
        let ghost old_s = self@.per_receive;
        let mut i: usize = 0;
        while i < self.state.per_receive.len()
            invariant
                i <= self.state.per_receive@.len(),
                pending_views(self.state.per_receive@) == old_s,
                self@ == old(self)@,
                old_s == old(self)@.per_receive,
                transfer_ids@.len() == old_s.len(),
                ids_unique(old_s),
                forall|j: int| 0 <= j < i ==> !(old_s[j].state == PendingState::Deferred
                    && (#[trigger] transfer_ids@[j])@ == incoming_payment_id@),
            decreases self.state.per_receive.len() - i,
        {
            if self.state.per_receive[i].state == PendingState::Deferred && str_eq(
                transfer_ids[i].as_str(),
                incoming_payment_id,
            ) {
                let removed = self.state.per_receive.remove(i);
                proof {
                    assert(pending_views(self.state.per_receive@) =~= old_s.remove(i as int));
                    let s = pending_views(self.state.per_receive@);
                    assert forall|a: int, b: int| 0 <= a < s.len() && 0 <= b < s.len() && a != b implies (#[trigger] s[a]).payment_id != (#[trigger] s[b]).payment_id by {
                        let a2 = if a < i { a } else { a + 1 };
                        let b2 = if b < i { b } else { b + 1 };
                        assert(s[a] == old_s[a2]);
                        assert(s[b] == old_s[b2]);
                    }
                    assert(removed@ == old_s[i as int]);
                    assert(transfer_ids@[i as int]@ == incoming_payment_id@);
                }
                return (
                    Some(removed.payment_id),
                    QueueEffects { persist_pending: true, notify: true, save_deactivation: None, forget_deactivation: false },
                );
            }
            i = i + 1;
        }
        (None, QueueEffects { persist_pending: false, notify: false, save_deactivation: None, forget_deactivation: false })
    }

    /// Removes the deferred tasks that have exceeded the deferral timeout at
    /// time `now` and returns their payment ids in order. When any were
    /// removed the list is persisted and the worker is woken.
    pub fn clear_expired_tasks(&mut self, now: u64) -> (r: (Vec<String>, QueueEffects))
        requires
            old(self).wf(),
        ensures
            final(self).wf(),
            final(self)@ == (QueueView { per_receive: live_entries(old(self)@.per_receive, now), ..old(self)@ }),
            r.0@.map_values(|s: String| s@) == timed_out_ids(old(self)@.per_receive, now),
            r.1.persist_pending == (r.0@.len() > 0),
            r.1.notify == (r.0@.len() > 0),
            r.1.save_deactivation is None && !r.1.forget_deactivation,
    {
        let ghost old_s = self@.per_receive;
        let mut kept: Vec<PendingConversion> = Vec::new();
        let mut out: Vec<String> = Vec::new();
        let mut i: usize = 0;
        while i < self.state.per_receive.len()
            invariant
                i <= self.state.per_receive@.len(),
                pending_views(self.state.per_receive@) == old_s,
                ids_unique(old_s),
                pending_views(kept@) =~= live_entries(old_s.take(i as int), now),
                out@.map_values(|s: String| s@) =~= timed_out_ids(old_s.take(i as int), now),
                forall|a: int| 0 <= a < kept@.len() ==> exists|b: int| 0 <= b < i && (#[trigger] kept@[a])@ == old_s[b],
                forall|a: int, b: int| 0 <= a < b < kept@.len() ==> exists|x: int, y: int| 0 <= x < y < i && (#[trigger] kept@[a])@ == old_s[x] && (#[trigger] kept@[b])@ == old_s[y],
            decreases self.state.per_receive.len() - i,
        {
            proof { assert(old_s.take(i + 1).drop_last() =~= old_s.take(i as int)); }
            let p = &self.state.per_receive[i];
            let expired = p.state == PendingState::Deferred && p.created_at > 0 && now.saturating_sub(p.created_at)
                > DEFERRED_TASK_TIMEOUT_SECS;
            proof {
                assert(p@ == old_s[i as int]);
                assert(expired == timed_out(old_s[i as int], now));
            }
            if expired {
                let ghost before = out@;
                out.push(p.payment_id.clone());
                proof {
                    assert(out@.map_values(|s: String| s@) =~= before.map_values(|s: String| s@).push(old_s[i as int].payment_id));
                }
            } else {
                let ghost before = kept@;
                kept.push(p.clone());
                proof {
                    assert(pending_views(kept@) =~= pending_views(before).push(old_s[i as int]));
                    assert forall|a: int| 0 <= a < kept@.len() implies exists|b: int| 0 <= b < i + 1 && (#[trigger] kept@[a])@ == old_s[b] by {
                        if a < before.len() {
                            assert(kept@[a] == before[a]);
                        } else {
                            assert(kept@[a]@ == old_s[i as int]);
                        }
                    }
                    assert forall|a: int, b: int| 0 <= a < b < kept@.len() implies exists|x: int, y: int| 0 <= x < y < i + 1 && (#[trigger] kept@[a])@ == old_s[x] && (#[trigger] kept@[b])@ == old_s[y] by {
                        if b < before.len() {
                            assert(kept@[a] == before[a]);
                            assert(kept@[b] == before[b]);
                        } else {
                            assert(kept@[a] == before[a]);
                            let x = choose|x: int| 0 <= x < i && (#[trigger] before[a])@ == old_s[x];
                            assert(kept@[b]@ == old_s[i as int]);
                            assert(0 <= x < (i as int) < i + 1);
                        }
                    }
                }
            }
            i = i + 1;
        }
        proof {
            assert(old_s.take(old_s.len() as int) =~= old_s);
            let s = pending_views(kept@);
            assert forall|a: int, b: int| 0 <= a < s.len() && 0 <= b < s.len() && a != b implies (#[trigger] s[a]).payment_id != (#[trigger] s[b]).payment_id by {
                if a < b {
                    let (x, y) = choose|x: int, y: int| 0 <= x < y < i && (#[trigger] kept@[a])@ == old_s[x] && (#[trigger] kept@[b])@ == old_s[y];
                    assert(s[a] == kept@[a]@);
                    assert(s[b] == kept@[b]@);
                } else {
                    let (x, y) = choose|x: int, y: int| 0 <= x < y < i && (#[trigger] kept@[b])@ == old_s[x] && (#[trigger] kept@[a])@ == old_s[y];
                    assert(s[a] == kept@[a]@);
                    assert(s[b] == kept@[b]@);
                }
            }
        }
        self.state.per_receive = kept;
        let any = out.len() > 0;
        (out, QueueEffects { persist_pending: any, notify: any, save_deactivation: None, forget_deactivation: false })
    }

    /// Restores per-receive conversions persisted by an earlier session: each
    /// entry whose payment id is not queued yet is appended, in order.
    /// Returns whether the list must be persisted (anything was recovered).
    pub fn recover_pending(&mut self, pending: Vec<PendingConversion>) -> (persist: bool)
        requires
            old(self).wf(),
        ensures
            final(self).wf(),
            final(self)@ == (QueueView {
                per_receive: merge_recovered(old(self)@.per_receive, pending_views(pending@)),
                ..old(self)@
            }),
            persist == (pending@.len() > 0),
    {
        let ghost old_s = self@.per_receive;
        let ghost inc = pending_views(pending@);
        let n = pending.len();
        let mut i: usize = 0;
        while i < n
            invariant
                n == pending@.len(),
                inc == pending_views(pending@),
                i <= n,
                ids_unique(self@.per_receive),
                self@.per_receive =~= merge_recovered(old_s, inc.take(i as int)),
                self@.pending_task == old(self)@.pending_task,
                self@.task_failures == old(self)@.task_failures,
                self@.task_not_before == old(self)@.task_not_before,
            decreases n - i,
        {
            proof { assert(inc.take(i + 1).drop_last() =~= inc.take(i as int)); }
            let entry = &pending[i];
            match position_of_id(&self.state.per_receive, entry.payment_id.as_str()) {
                Some(k) => {
                    proof {
                        assert(self@.per_receive[k as int].payment_id == inc[i as int].payment_id);
                    }
                },
                None => {
                    let ghost old_v = self.state.per_receive@;
                    self.state.per_receive.push(entry.clone());
                    proof {
                        assert(pending_views(self.state.per_receive@) =~= pending_views(old_v).push(inc[i as int]));
                        let s = pending_views(self.state.per_receive@);
                        let m = old_v.len() as int;
                        assert forall|a: int, b: int| 0 <= a < s.len() && 0 <= b < s.len() && a != b implies (#[trigger] s[a]).payment_id != (#[trigger] s[b]).payment_id by {
                            if a < m && b < m {
                                assert(s[a] == pending_views(old_v)[a]);
                                assert(s[b] == pending_views(old_v)[b]);
                            } else if a == m {
                                assert(s[b] == pending_views(old_v)[b]);
                            } else {
                                assert(s[a] == pending_views(old_v)[a]);
                            }
                        }
                    }
                },
            }
            i = i + 1;
        }
        proof { assert(inc.take(n as int) =~= inc); }
        n > 0
    }
}

/// How a conversion attempt ended, as the worker saw it.
pub enum TaskOutcome {
    /// The conversion ran; `true` when something was converted.
    Converted(bool),
    /// The conversion failed. `duplicate_transfer` is set when a per-receive
    /// transfer had already been made by another instance of the wallet.
    Failed { error: String, duplicate_transfer: bool },
}

/// What the worker must do after a task, besides the queue's own effects.
pub struct TaskFollowUp {
    pub effects: QueueEffects,
    /// Record the per-receive conversion as completed on its payment.
    pub mark_completed: bool,
    /// Tell listeners a conversion completed.
    pub emit_completed: bool,
    /// The failure to report to listeners.
    pub failure: Option<crate::models::SdkEvent>,
}

/// The queue after a pending auto-convert (if that is what is pending) is
/// dropped.
pub open spec fn spec_clear_auto_convert(q: QueueView) -> QueueView {
    if q.pending_task == Some(TaskView::AutoConvert) {
        QueueView { pending_task: None, ..q }
    } else {
        q
    }
}

/// Whether `after` is `before` with the per-receive task for `id` deferred.
pub open spec fn deferred_in(before: QueueView, after: QueueView, id: Seq<char>) -> bool {
    if has_id(before.per_receive, id) {
        exists|i: int|
            {
                &&& 0 <= i < before.per_receive.len()
                &&& (#[trigger] before.per_receive[i]).payment_id == id
                &&& after == (QueueView {
                    per_receive: before.per_receive.update(
                        i,
                        PendingView { state: PendingState::Deferred, ..before.per_receive[i] },
                    ),
                    ..before
                })
            }
    } else {
        after == before
    }
}

impl ConversionQueue {
    /// Takes in how a task ended and applies it: a finished task leaves the
    /// queue (a per-receive conversion that converted also drops a pending
    /// auto-convert, whose balance is stale until the next sync); a failed
    /// per-receive conversion is deferred unless another instance already
    /// made its transfer; a failed auto-convert or deactivation stays queued
    /// under backoff and is reported with its retry delay.
    pub fn finish_task(&mut self, task: &ConversionTask, outcome: TaskOutcome, now: u64) -> (r: TaskFollowUp)
        requires
            old(self).wf(),
        ensures
            final(self).wf(),
            match (task@, outcome) {
                (TaskView::PerReceive(id), TaskOutcome::Converted(c)) => {
                    &&& final(self)@ == (if c {
                        spec_clear_auto_convert(spec_complete_task(old(self)@, task@))
                    } else {
                        spec_complete_task(old(self)@, task@)
                    })
                    &&& r.effects.persist_pending
                    &&& r.mark_completed == c
                    &&& r.emit_completed == c
                    &&& r.failure is None
                },
                (TaskView::PerReceive(id), TaskOutcome::Failed { duplicate_transfer, .. }) => if duplicate_transfer {
                    &&& final(self)@ == spec_complete_task(old(self)@, task@)
                    &&& r.effects.persist_pending
                    &&& !r.mark_completed
                    &&& !r.emit_completed
                    &&& r.failure is None
                } else {
                    &&& deferred_in(old(self)@, final(self)@, id)
                    &&& r.effects.persist_pending == has_id(old(self)@.per_receive, id)
                    &&& !r.mark_completed
                    &&& !r.emit_completed
                    &&& r.failure is None
                },
                (_, TaskOutcome::Converted(c)) => {
                    &&& final(self)@ == spec_complete_task(old(self)@, task@)
                    &&& r.effects.forget_deactivation == (task@ is Deactivation)
                    &&& !r.mark_completed
                    &&& r.emit_completed == c
                    &&& r.failure is None
                },
                (_, TaskOutcome::Failed { error, .. }) => {
                    let (q, (delay, _)) = spec_retry_later(old(self)@, task@, now);
                    &&& final(self)@ == q
                    &&& no_effects(r.effects)
                    &&& !r.mark_completed
                    &&& !r.emit_completed
                    &&& r.failure == Some(
                        crate::models::SdkEvent::StableBalanceConversionFailed {
                            conversion: if task@ is AutoConvert {
                                crate::models::StableBalanceConversionKind::AutoConvert
                            } else {
                                crate::models::StableBalanceConversionKind::Deactivation
                            },
                            error,
                            retry_in_secs: delay,
                        },
                    )
                },
            },
    {
        match task {
            ConversionTask::PerReceive(id) => match outcome {
                TaskOutcome::Converted(converted) => {
                    let effects = self.complete_task(task);
                    if converted {
                        self.clear_pending_auto_convert();
                    }
                    TaskFollowUp { effects, mark_completed: converted, emit_completed: converted, failure: None }
                },
                TaskOutcome::Failed { duplicate_transfer, .. } => {
                    if duplicate_transfer {
                        let effects = self.complete_task(task);
                        TaskFollowUp { effects, mark_completed: false, emit_completed: false, failure: None }
                    } else {
                        let persist = self.defer_task(id.as_str());
                        TaskFollowUp {
                            effects: QueueEffects {
                                persist_pending: persist,
                                notify: false,
                                save_deactivation: None,
                                forget_deactivation: false,
                            },
                            mark_completed: false,
                            emit_completed: false,
                            failure: None,
                        }
                    }
                },
            },
            _ => match outcome {
                TaskOutcome::Converted(converted) => {
                    let effects = self.complete_task(task);
                    TaskFollowUp { effects, mark_completed: false, emit_completed: converted, failure: None }
                },
                TaskOutcome::Failed { error, .. } => {
                    let (retry_in_secs, _failures) = self.retry_later(task, now);
                    let conversion = match task {
                        ConversionTask::AutoConvert => crate::models::StableBalanceConversionKind::AutoConvert,
                        _ => crate::models::StableBalanceConversionKind::Deactivation,
                    };
                    TaskFollowUp {
                        effects: QueueEffects {
                            persist_pending: false,
                            notify: false,
                            save_deactivation: None,
                            forget_deactivation: false,
                        },
                        mark_completed: false,
                        emit_completed: false,
                        failure: Some(
                            crate::models::SdkEvent::StableBalanceConversionFailed { conversion, error, retry_in_secs },
                        ),
                    }
                },
            },
        }
    }
}

} // verus!
