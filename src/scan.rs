//! The bookkeeping of one scan: counters, phases and the events that reach the consumer.
//!
//! Workers inspect archives concurrently and hand each outcome to one aggregator, which owns
//! the session; the session decides which events are emitted and when.
use vstd::prelude::*;
use crate::detector::ThreatResult;

verus! {

/// Statistics are emitted every this many checked files.
pub const STATS_INTERVAL: usize = 50;

/// Counters of a scan.
#[derive(Clone, Copy, Debug, PartialEq, Eq, Structural)]
pub struct ScanStats {
    pub total: usize,
    pub checked: usize,
    pub found: usize,
}

/// An event for the consumer of a scan.
#[derive(Clone, Debug)]
pub enum ScanMessage {
    /// `checked` of `total` files are done.
    Progress { checked: usize, total: usize },
    /// An archive matched a signature.
    ThreatFound(ThreatResult),
    /// The counters.
    Stats(ScanStats),
    /// The scan is over; always the last event.
    Complete,
    /// The scan could not start.
    Error(String),
}

/// The phase of a scan session.
#[derive(Clone, Copy, Debug, PartialEq, Eq, Structural)]
pub enum ScanPhase {
    Idle,
    Discovering,
    Scanning,
    Completed,
    Cancelled,
    Failed,
}

/// What a worker made of one candidate file.
#[derive(Clone, Debug)]
pub enum UnitOutcome {
    /// The worker saw the cancellation flag and did not start.
    Skipped,
    /// The file was checked, and matched nothing or could not be read.
    Clean,
    /// The file matched.
    Threat(ThreatResult),
}

/// The abstract state of a session.
pub struct SessionView {
    pub phase: ScanPhase,
    pub total: nat,
    pub checked: nat,
    pub found: nat,
}

/// The state of one scan, owned by the aggregator.
pub struct ScanSession {
    phase: ScanPhase,
    stats: ScanStats,
}

impl View for ScanSession {
    type V = SessionView;

    closed spec fn view(&self) -> SessionView {
        SessionView {
            phase: self.phase,
            total: self.stats.total as nat,
            checked: self.stats.checked as nat,
            found: self.stats.found as nat,
        }
    }
}

/// Counters stay ordered: found ≤ checked ≤ total.
pub open spec fn counters_ordered(s: SessionView) -> bool {
    s.found <= s.checked <= s.total
}

/// The counters as a statistics record.
pub open spec fn stats_of(s: SessionView) -> ScanStats {
    ScanStats { total: s.total as usize, checked: s.checked as usize, found: s.found as usize }
}

/// Statistics are due after a check that reaches a multiple of the interval or the end.
pub open spec fn stats_due(checked: nat, total: nat) -> bool {
    checked % (STATS_INTERVAL as nat) == 0 || checked == total
}

/// The progress events owed once the counters are `s`.
pub open spec fn progress_events(s: SessionView) -> Seq<ScanMessage> {
    if stats_due(s.checked, s.total) {
        seq![
            ScanMessage::Progress { checked: s.checked as usize, total: s.total as usize },
            ScanMessage::Stats(stats_of(s)),
        ]
    } else {
        Seq::empty()
    }
}

/// The session and events after one outcome.
pub open spec fn record_step(s: SessionView, o: UnitOutcome) -> (SessionView, Seq<ScanMessage>) {
    match o {
        UnitOutcome::Skipped => (s, Seq::empty()),
        UnitOutcome::Clean => {
            let n = SessionView { checked: s.checked + 1, ..s };
            (n, progress_events(n))
        },
        UnitOutcome::Threat(t) => {
            let n = SessionView { checked: s.checked + 1, found: s.found + 1, ..s };
            (n, seq![ScanMessage::ThreatFound(t)] + progress_events(n))
        },
    }
}

/// The session and events after a sequence of outcomes, in order.
pub open spec fn run_steps(s: SessionView, outcomes: Seq<UnitOutcome>) -> (
    SessionView,
    Seq<ScanMessage>,
)
    decreases outcomes.len(),
{
    if outcomes.len() == 0 {
        (s, Seq::empty())
    } else {
        let first = record_step(s, outcomes[0]);
        let rest = run_steps(first.0, outcomes.drop_first());
        (rest.0, first.1 + rest.1)
    }
}

/// The session and events when the workers are done: cancelled if the flag was seen before
/// every file was checked, completed otherwise.
pub open spec fn finish_step(s: SessionView, cancel_seen: bool) -> (SessionView, Seq<ScanMessage>) {
    let phase = if cancel_seen && s.checked < s.total {
        ScanPhase::Cancelled
    } else {
        ScanPhase::Completed
    };
    let n = SessionView { phase, ..s };
    (n, seq![ScanMessage::Stats(stats_of(n)), ScanMessage::Complete])
}

/// The message reports a threat.
pub open spec fn is_threat_event(m: ScanMessage) -> bool {
    m is ThreatFound
}

impl ScanSession {
    /// A session that has not started.
    pub fn new() -> (r: ScanSession)
        ensures
            r@ == (SessionView { phase: ScanPhase::Idle, total: 0, checked: 0, found: 0 }),
    {
        ScanSession { phase: ScanPhase::Idle, stats: ScanStats { total: 0, checked: 0, found: 0 } }
    }

    /// The current phase.
    pub fn phase(&self) -> (r: ScanPhase)
        ensures
            r == self@.phase,
    {
        self.phase
    }

    /// The current counters.
    pub fn stats(&self) -> (r: ScanStats)
        ensures
            r == stats_of(self@),
    {
        self.stats
    }

    /// Discovery of candidate files begins.
    pub fn begin_discovery(&mut self)
        requires
            old(self)@.phase == ScanPhase::Idle,
        ensures
            final(self)@ == (SessionView { phase: ScanPhase::Discovering, ..old(self)@ }),
    {
        self.phase = ScanPhase::Discovering;
    }

    /// Discovery found `total` candidates; scanning begins, and the counters are announced.
    pub fn begin_scan(&mut self, total: usize) -> (r: Vec<ScanMessage>)
        requires
            old(self)@.phase == ScanPhase::Discovering,
        ensures
            final(self)@ == (SessionView {
                phase: ScanPhase::Scanning,
                total: total as nat,
                checked: 0,
                found: 0,
            }),
            r@ == seq![ScanMessage::Stats(ScanStats { total, checked: 0, found: 0 })],
    {
        self.phase = ScanPhase::Scanning;
        self.stats = ScanStats { total, checked: 0, found: 0 };
        let mut r: Vec<ScanMessage> = Vec::new();
        r.push(ScanMessage::Stats(self.stats));
        assert(r@ =~= seq![ScanMessage::Stats(ScanStats { total, checked: 0, found: 0 })]);
        r
    }

    /// The scan could not start or had to stop before any work: the session fails with
    /// one error event.
    pub fn fail(&mut self, reason: String) -> (r: Vec<ScanMessage>)
        requires
            old(self)@.phase == ScanPhase::Idle || old(self)@.phase == ScanPhase::Discovering
                || old(self)@.phase == ScanPhase::Scanning,
        ensures
            final(self)@ == (SessionView { phase: ScanPhase::Failed, ..old(self)@ }),
            r@ == seq![ScanMessage::Error(reason)],
    {
        self.phase = ScanPhase::Failed;
        let mut r: Vec<ScanMessage> = Vec::new();
        r.push(ScanMessage::Error(reason));
        assert(r@ =~= seq![ScanMessage::Error(reason)]);
        r
    }

    /// Takes one worker outcome into account and returns the events it causes.
    ///
    /// Each candidate file yields one outcome; a skipped one changes nothing.
    pub fn record(&mut self, outcome: UnitOutcome) -> (r: Vec<ScanMessage>)
        requires
            old(self)@.phase == ScanPhase::Scanning,
            counters_ordered(old(self)@),
            outcome is Skipped || old(self)@.checked < old(self)@.total,
        ensures
            (final(self)@, r@) == record_step(old(self)@, outcome),
            counters_ordered(final(self)@),
    {
        let mut r: Vec<ScanMessage> = Vec::new();
        match outcome {
            UnitOutcome::Skipped => {
                assert(r@ =~= Seq::<ScanMessage>::empty());
                return r;
            },
            UnitOutcome::Clean => {
                self.stats.checked = self.stats.checked + 1;
            },
            UnitOutcome::Threat(t) => {
                self.stats.checked = self.stats.checked + 1;
                self.stats.found = self.stats.found + 1;
                r.push(ScanMessage::ThreatFound(t));
            },
        }
        let checked = self.stats.checked;
        let total = self.stats.total;
        if checked % STATS_INTERVAL == 0 || checked == total {
            r.push(ScanMessage::Progress { checked, total });
            r.push(ScanMessage::Stats(self.stats));
        }
        proof {
            let ghost step = record_step(old(self)@, outcome);
            assert(self@ == step.0);
            assert(r@ =~= step.1);
        }
        r
    }

    /// The workers are done; `cancel_seen` tells whether the cancellation flag was set.
    /// Returns the final statistics followed by the completion event.
    pub fn finish(&mut self, cancel_seen: bool) -> (r: Vec<ScanMessage>)
        requires
            old(self)@.phase == ScanPhase::Scanning,
        ensures
            (final(self)@, r@) == finish_step(old(self)@, cancel_seen),
    {
        if cancel_seen && self.stats.checked < self.stats.total {
            self.phase = ScanPhase::Cancelled;
        } else {
            self.phase = ScanPhase::Completed;
        }
        let mut r: Vec<ScanMessage> = Vec::new();
        r.push(ScanMessage::Stats(self.stats));
        r.push(ScanMessage::Complete);
        proof {
            let ghost step = finish_step(old(self)@, cancel_seen);
            assert(self@ == step.0);
            assert(r@ =~= step.1);
        }
        r
    }
}

/// Outcomes of workers that all read the cancellation flag set before starting; such a
/// worker's outcome is `Skipped` (see `Scanner::unit_outcome`).
pub open spec fn all_skipped(outcomes: Seq<UnitOutcome>) -> bool {
    forall|i: int| 0 <= i < outcomes.len() ==> #[trigger] outcomes[i] is Skipped
}

/// A scan whose cancellation flag is set before it starts reports no threat: every worker
/// skips its file, nothing is emitted for them, and the run ends at once with the final
/// statistics and the completion event, in the cancelled phase when files were pending.
pub proof fn lemma_cancel_before_start(s: SessionView, outcomes: Seq<UnitOutcome>)
    requires
        s.phase == ScanPhase::Scanning,
        s.checked == 0,
        s.found == 0,
        all_skipped(outcomes),
    ensures
        run_steps(s, outcomes).1.len() == 0,
        run_steps(s, outcomes).0 == s,
        ({
            let end = finish_step(run_steps(s, outcomes).0, true);
            &&& end.1 == seq![ScanMessage::Stats(stats_of(s)), ScanMessage::Complete]
            &&& forall|i: int| 0 <= i < end.1.len() ==> !is_threat_event(#[trigger] end.1[i])
            &&& s.total > 0 ==> end.0.phase == ScanPhase::Cancelled
        }),
    decreases outcomes.len(),
{
    if outcomes.len() > 0 {
        assert(outcomes[0] is Skipped);
        assert(all_skipped(outcomes.drop_first())) by {
            assert forall|i: int| 0 <= i < outcomes.drop_first().len() implies #[trigger] outcomes.drop_first()[i] is Skipped by {
                assert(outcomes.drop_first()[i] == outcomes[i + 1]);
            }
        }
        lemma_cancel_before_start(s, outcomes.drop_first());
    }
    let end = finish_step(run_steps(s, outcomes).0, true);
    assert(end.1.len() == 2);
}


/// No message of the sequence is the completion event.
pub open spec fn no_completion(msgs: Seq<ScanMessage>) -> bool {
    forall|i: int| 0 <= i < msgs.len() ==> !(#[trigger] msgs[i] is Complete)
}

proof fn lemma_steps_never_complete(s: SessionView, outcomes: Seq<UnitOutcome>)
    ensures
        no_completion(run_steps(s, outcomes).1),
    decreases outcomes.len(),
{
    if outcomes.len() > 0 {
        let first = record_step(s, outcomes[0]);
        lemma_steps_never_complete(first.0, outcomes.drop_first());
        let rest = run_steps(first.0, outcomes.drop_first());
        assert(no_completion(first.1));
        assert forall|i: int| 0 <= i < (first.1 + rest.1).len() implies !(#[trigger] (first.1
            + rest.1)[i] is Complete) by {
            if i >= first.1.len() {
                assert((first.1 + rest.1)[i] == rest.1[i - first.1.len()]);
            }
        }
    }
}

/// Whatever the workers report, the events of a scan end with exactly one completion
/// event, after every other event.
pub proof fn lemma_completion_is_last(s: SessionView, outcomes: Seq<UnitOutcome>, cancel_seen: bool)
    ensures
        ({
            let run = run_steps(s, outcomes);
            let all = run.1 + finish_step(run.0, cancel_seen).1;
            &&& all.last() is Complete
            &&& no_completion(all.drop_last())
        }),
{
    lemma_steps_never_complete(s, outcomes);
    let run = run_steps(s, outcomes);
    let fin = finish_step(run.0, cancel_seen).1;
    let all = run.1 + fin;
    assert(all.drop_last() =~= run.1.push(fin[0]));
}


/// The checked count a progress or statistics event carries.
pub open spec fn checked_count(m: ScanMessage) -> Option<nat> {
    match m {
        ScanMessage::Progress { checked, total: _ } => Some(checked as nat),
        ScanMessage::Stats(st) => Some(st.checked as nat),
        _ => None,
    }
}

/// Checked counts never decrease along the sequence.
pub open spec fn counts_nondecreasing(msgs: Seq<ScanMessage>) -> bool {
    forall|i: int, j: int|
        0 <= i < j < msgs.len() && checked_count(msgs[i]) is Some && checked_count(msgs[j]) is Some
            ==> #[trigger] checked_count(msgs[i])->0 <= #[trigger] checked_count(msgs[j])->0
}

/// Every checked count lies between `lo` and `hi`.
pub open spec fn counts_within(msgs: Seq<ScanMessage>, lo: nat, hi: nat) -> bool {
    forall|i: int|
        0 <= i < msgs.len() && #[trigger] checked_count(msgs[i]) is Some ==> lo
            <= checked_count(msgs[i])->0 <= hi
}

proof fn lemma_step_counts(s: SessionView, o: UnitOutcome)
    requires
        s.checked + 1 <= usize::MAX,
    ensures
        counts_within(record_step(s, o).1, s.checked + 1, record_step(s, o).0.checked),
        counts_nondecreasing(record_step(s, o).1),
        s.checked <= record_step(s, o).0.checked <= s.checked + 1,
{
}

proof fn lemma_run_counts(s: SessionView, outcomes: Seq<UnitOutcome>)
    requires
        s.checked + outcomes.len() <= usize::MAX,
    ensures
        counts_within(run_steps(s, outcomes).1, s.checked + 1, run_steps(s, outcomes).0.checked),
        counts_nondecreasing(run_steps(s, outcomes).1),
        s.checked <= run_steps(s, outcomes).0.checked <= s.checked + outcomes.len(),
    decreases outcomes.len(),
{
    if outcomes.len() > 0 {
        let first = record_step(s, outcomes[0]);
        lemma_step_counts(s, outcomes[0]);
        lemma_run_counts(first.0, outcomes.drop_first());
        let rest = run_steps(first.0, outcomes.drop_first());
        let all = first.1 + rest.1;
        assert forall|i: int|
            0 <= i < all.len() && #[trigger] checked_count(all[i]) is Some implies s.checked + 1
                <= checked_count(all[i])->0 <= rest.0.checked by {
            if i >= first.1.len() {
                assert(all[i] == rest.1[i - first.1.len()]);
            }
        }
        assert forall|i: int, j: int|
            0 <= i < j < all.len() && checked_count(all[i]) is Some && checked_count(all[j]) is Some
                implies #[trigger] checked_count(all[i])->0 <= #[trigger] checked_count(all[j])->0 by {
            if j < first.1.len() {
            } else if i >= first.1.len() {
                assert(all[i] == rest.1[i - first.1.len()]);
                assert(all[j] == rest.1[j - first.1.len()]);
            } else {
                assert(all[j] == rest.1[j - first.1.len()]);
                assert(checked_count(rest.1[j - first.1.len()]) is Some);
            }
        }
    }
}

/// Progress and statistics events carry checked counts that never decrease, up to and
/// including the final statistics, as long as the counts fit in a `usize`.
pub proof fn lemma_progress_monotone(s: SessionView, outcomes: Seq<UnitOutcome>, cancel_seen: bool)
    requires
        s.checked + outcomes.len() <= usize::MAX,
    ensures
        ({
            let run = run_steps(s, outcomes);
            counts_nondecreasing(run.1 + finish_step(run.0, cancel_seen).1)
        }),
{
    lemma_run_counts(s, outcomes);
    let run = run_steps(s, outcomes);
    let fin = finish_step(run.0, cancel_seen).1;
    let all = run.1 + fin;
    assert(checked_count(fin[0]) == Some(run.0.checked));
    assert(checked_count(fin[1]) is None);
    assert forall|i: int, j: int|
        0 <= i < j < all.len() && checked_count(all[i]) is Some && checked_count(all[j]) is Some
            implies #[trigger] checked_count(all[i])->0 <= #[trigger] checked_count(all[j])->0 by {
        if j >= run.1.len() {
            assert(all[j] == fin[j - run.1.len()]);
            if i >= run.1.len() {
                assert(all[i] == fin[i - run.1.len()]);
            }
        }
    }
}

} // verus!
