//! Frame pacing: decides on which ticks of the event loop a frame is
//! submitted, so that submissions follow a target virtual frame rate no
//! matter how often the loop is polled, and reports once per wall-clock
//! second how many submissions that second saw.
use vstd::prelude::*;

verus! {

/// Microseconds in one second.
pub const MICROS_PER_SECOND: u64 = 1_000_000;

/// Upper bound of the time that can stand in the accumulator: less than one
/// frame period (at most a second) plus one sample.
pub const MAX_BACKLOG_US: u64 = 1_000_000 + 0xffff_ffff;

/// The pacer as a mathematical state.
pub struct PacerState {
    /// Target frames per second.
    pub rate: nat,
    /// Time accumulated since the last submission, in microseconds.
    pub since_submission: nat,
    /// Time accumulated since the last rate report, in microseconds.
    pub since_report: nat,
    /// Submissions since the last rate report.
    pub submissions: nat,
}

impl PacerState {
    /// The state of a pacer that has seen no tick yet.
    pub open spec fn fresh(rate: nat) -> PacerState {
        PacerState { rate, since_submission: 0, since_report: 0, submissions: 0 }
    }

    /// A submission is due once the accumulator holds at least one frame
    /// period, `1_000_000 / rate` microseconds.
    pub open spec fn is_due(self) -> bool {
        self.since_submission * self.rate >= MICROS_PER_SECOND
    }

    /// Submissions counted once this tick's possible submission is added.
    pub open spec fn counted(self) -> nat {
        if self.is_due() {
            self.submissions + 1
        } else {
            self.submissions
        }
    }

    /// Whether the tick that lasted `elapsed` microseconds closes a second.
    pub open spec fn closes_second(self, elapsed: nat) -> bool {
        self.since_report + elapsed >= MICROS_PER_SECOND
    }

    /// The achieved rate reported by a tick of `elapsed` microseconds.
    pub open spec fn report(self, elapsed: nat) -> Option<nat> {
        if self.closes_second(elapsed) {
            Some(self.counted())
        } else {
            None
        }
    }

    /// The state after a tick of `elapsed` microseconds: a due submission
    /// empties the accumulator, otherwise the tick's time is added to it; a
    /// closed second restarts the rate window.
    pub open spec fn advance(self, elapsed: nat) -> PacerState {
        PacerState {
            rate: self.rate,
            since_submission: if self.is_due() {
                0
            } else {
                self.since_submission + elapsed
            },
            since_report: if self.closes_second(elapsed) {
                0
            } else {
                self.since_report + elapsed
            },
            submissions: if self.closes_second(elapsed) {
                0
            } else {
                self.counted()
            },
        }
    }
}

/// What the event loop does on one tick.
#[derive(Clone, Copy, Debug, PartialEq, Eq, Structural)]
pub struct FrameTick {
    /// A frame is to be cleared, drawn and presented on this tick.
    pub due: bool,
    /// Submissions of the second that closed on this tick, if one did.
    pub achieved_rate: Option<u64>,
}

/// Accumulator-based frame pacer over microsecond samples.
pub struct FramePacer {
    rate: u32,
    frame_period_us: u64,
    since_submission_us: u64,
    since_report_us: u64,
    submissions: u64,
}

impl View for FramePacer {
    type V = PacerState;

    closed spec fn view(&self) -> PacerState {
        PacerState {
            rate: self.rate as nat,
            since_submission: self.since_submission_us as nat,
            since_report: self.since_report_us as nat,
            submissions: self.submissions as nat,
        }
    }
}

impl FramePacer {
    #[verifier::type_invariant]
    closed spec fn bounded(self) -> bool {
        &&& self.rate > 0
        &&& 1 <= self.frame_period_us <= MICROS_PER_SECOND
        &&& self.frame_period_us * self.rate >= MICROS_PER_SECOND
        &&& (self.frame_period_us - 1) * self.rate < MICROS_PER_SECOND
        &&& self.since_submission_us <= MAX_BACKLOG_US
        &&& self.since_report_us < MICROS_PER_SECOND
        &&& self.submissions + self.since_submission_us <= self.since_report_us + MAX_BACKLOG_US
    }

    /// A pacer for `rate` frames per second that has seen no tick yet.
    pub fn new(rate: u32) -> (p: FramePacer)
        requires
            rate > 0,
        ensures
            p@ == PacerState::fresh(rate as nat),
    {
        let r = rate as u64;
        let period = (MICROS_PER_SECOND + r - 1) / r;
        proof {
            lemma_period_bounds(r as int, period as int);
        }
        FramePacer {
            rate,
            frame_period_us: period,
            since_submission_us: 0,
            since_report_us: 0,
            submissions: 0,
        }
    }

    /// The target rate in frames per second.
    pub fn rate(&self) -> (r: u32)
        ensures
            r as nat == self@.rate,
    {
        self.rate
    }

    /// Whether a frame is due on the tick under way: the accumulator holds at
    /// least one frame period.
    pub fn is_due(&self) -> (r: bool)
        ensures
            r == self@.is_due(),
    {
        proof {
            use_type_invariant(self);
            lemma_due_matches_period(
                self.since_submission_us as int,
                self.frame_period_us as int,
                self.rate as int,
            );
        }
        self.since_submission_us >= self.frame_period_us
    }

    /// Accounts for one tick of the event loop that lasted `elapsed_us`
    /// microseconds, and says whether a frame is due on it and whether it
    /// closes a second of rate reporting.
    pub fn tick(&mut self, elapsed_us: u32) -> (t: FrameTick)
        ensures
            final(self)@ == old(self)@.advance(elapsed_us as nat),
            t.due == old(self)@.is_due(),
            t.due ==> final(self)@.since_submission == 0,
            t.achieved_rate is Some <==> old(self)@.closes_second(elapsed_us as nat),
            t.achieved_rate is Some ==> t.achieved_rate->0 as nat == old(self)@.counted(),
    {
        proof {
            use_type_invariant(&*self);
        }
        let elapsed = elapsed_us as u64;
        let due = self.since_submission_us >= self.frame_period_us;
        proof {
            lemma_due_matches_period(
                self.since_submission_us as int,
                self.frame_period_us as int,
                self.rate as int,
            );
        }
        let (since_submission, submissions) = if due {
            (0, self.submissions + 1)
        } else {
            (self.since_submission_us + elapsed, self.submissions)
        };
        let since_report = self.since_report_us + elapsed;
        let achieved_rate = if since_report >= MICROS_PER_SECOND {
            Some(submissions)
        } else {
            None
        };
        *self = if since_report >= MICROS_PER_SECOND {
            FramePacer {
                rate: self.rate,
                frame_period_us: self.frame_period_us,
                since_submission_us: since_submission,
                since_report_us: 0,
                submissions: 0,
            }
        } else {
            FramePacer {
                rate: self.rate,
                frame_period_us: self.frame_period_us,
                since_submission_us: since_submission,
                since_report_us: since_report,
                submissions,
            }
        };
        FrameTick { due, achieved_rate }
    }
}

/// The rounded-up period `ceil(1_000_000 / r)` brackets a second.
proof fn lemma_period_bounds(r: int, period: int)
    requires
        0 < r <= 0xffff_ffff,
        period == (1_000_000 + r - 1) / r,
    ensures
        period * r >= 1_000_000,
        (period - 1) * r < 1_000_000,
        1 <= period <= 1_000_000,
{
    vstd::arithmetic::div_mod::lemma_fundamental_div_mod(1_000_000 + r - 1, r);
    let rem = (1_000_000 + r - 1) % r;
    assert(0 <= rem < r) by {
        vstd::arithmetic::div_mod::lemma_mod_pos_bound(1_000_000 + r - 1, r);
    }
    assert(r * period + rem == 1_000_000 + r - 1);
    assert(period * r >= 1_000_000) by (nonlinear_arith)
        requires
            r * period + rem == 1_000_000 + r - 1,
            rem < r,
    ;
    assert((period - 1) * r < 1_000_000) by (nonlinear_arith)
        requires
            r * period + rem == 1_000_000 + r - 1,
            0 <= rem,
    ;
    assert(1 <= period <= 1_000_000) by (nonlinear_arith)
        requires
            period * r >= 1_000_000,
            (period - 1) * r < 1_000_000,
            r >= 1,
    ;
}

/// Comparing the accumulator with the rounded-up period decides dueness
/// exactly as comparing it with `1_000_000 / rate` does.
proof fn lemma_due_matches_period(acc: int, period: int, rate: int)
    requires
        acc >= 0,
        rate > 0,
        period * rate >= 1_000_000,
        (period - 1) * rate < 1_000_000,
    ensures
        (acc >= period) <==> (acc * rate >= 1_000_000),
{
    if acc >= period {
        assert(acc * rate >= period * rate) by (nonlinear_arith)
            requires
                acc >= period,
                rate > 0,
        ;
    } else {
        assert(acc * rate <= (period - 1) * rate) by (nonlinear_arith)
            requires
                acc <= period - 1,
                rate > 0,
        ;
    }
}

/// Sum of a sequence of tick durations.
pub open spec fn total(samples: Seq<nat>) -> nat
    decreases samples.len(),
{
    if samples.len() == 0 {
        0
    } else {
        total(samples.drop_last()) + samples.last()
    }
}

/// The state reached from `start` by ticks of the given durations.
pub open spec fn run(start: PacerState, samples: Seq<nat>) -> PacerState
    decreases samples.len(),
{
    if samples.len() == 0 {
        start
    } else {
        run(start, samples.drop_last()).advance(samples.last())
    }
}

/// How many of the ticks of a run from `start` had a frame due.
pub open spec fn due_count(start: PacerState, samples: Seq<nat>) -> nat
    decreases samples.len(),
{
    if samples.len() == 0 {
        0
    } else {
        due_count(start, samples.drop_last()) + if run(
            start,
            samples.drop_last(),
        ).is_due() {
            1nat
        } else {
            0nat
        }
    }
}

/// The rate report of the last tick of a non-empty run from `start`.
pub open spec fn last_report(start: PacerState, samples: Seq<nat>) -> Option<nat>
    recommends
        samples.len() > 0,
{
    run(start, samples.drop_last()).report(samples.last())
}

/// Time bookkeeping of a run from a fresh pacer whose ticks last at most
/// `longest` microseconds each.
proof fn lemma_run_accounting(rate: nat, samples: Seq<nat>, longest: nat)
    requires
        rate > 0,
        forall|i: int| 0 <= i < samples.len() ==> samples[i] <= longest,
    ensures
        ({
            let end = run(PacerState::fresh(rate), samples);
            let dues = due_count(PacerState::fresh(rate), samples);
            let k = MICROS_PER_SECOND + 2 * rate * longest;
            &&& dues * MICROS_PER_SECOND + end.since_submission * rate <= rate * total(samples)
            &&& rate * total(samples) <= dues * k + end.since_submission * rate
            &&& end.since_submission * rate < MICROS_PER_SECOND + rate * longest
            &&& end.rate == rate
        }),
    decreases samples.len(),
{
    assert(rate * longest >= 0) by (nonlinear_arith);
    if samples.len() == 0 {
        assert(0 * rate == 0 && rate * 0 == 0) by (nonlinear_arith);
    } else {
        let before = samples.drop_last();
        lemma_run_accounting(rate, before, longest);
        let prev = run(PacerState::fresh(rate), before);
        let dues = due_count(PacerState::fresh(rate), before);
        let t = total(before);
        let e = samples.last();
        let a = prev.since_submission;
        let k = MICROS_PER_SECOND + 2 * rate * longest;
        let end = run(PacerState::fresh(rate), samples);
        assert(e <= longest);
        assert(end == prev.advance(e));
        assert(total(samples) == t + e);
        assert(rate * (t + e) == rate * t + rate * e) by (nonlinear_arith);
        assert(rate * e <= rate * longest) by (nonlinear_arith)
            requires
                e <= longest,
        ;
        assert(2 * rate * longest == rate * longest + rate * longest) by (nonlinear_arith);
        assert(rate * e >= 0) by (nonlinear_arith);
        assert(a * rate >= 0) by (nonlinear_arith);
        if prev.is_due() {
            assert(due_count(PacerState::fresh(rate), samples) == dues + 1);
            assert(end.since_submission == 0);
            assert((dues + 1) * k == dues * k + k) by (nonlinear_arith);
            assert((dues + 1) * MICROS_PER_SECOND == dues * MICROS_PER_SECOND
                + MICROS_PER_SECOND) by (nonlinear_arith);
        } else {
            assert(due_count(PacerState::fresh(rate), samples) == dues);
            assert(end.since_submission == a + e);
            assert((a + e) * rate == a * rate + e * rate) by (nonlinear_arith);
            assert(e * rate == rate * e) by (nonlinear_arith);
        }
    }
}

/// Over any run of ticks from a fresh pacer, frames are never due more often
/// than the target rate allows, and each due frame falls behind the ideal
/// schedule by less than one frame period plus two ticks: as ticks grow
/// short against the frame period, the number of due ticks converges to
/// `floor(total * rate / 1_000_000)`.
pub proof fn lemma_due_count_follows_rate(rate: nat, samples: Seq<nat>, longest: nat)
    requires
        rate > 0,
        forall|i: int| 0 <= i < samples.len() ==> samples[i] <= longest,
    ensures
        due_count(PacerState::fresh(rate), samples) * MICROS_PER_SECOND <= rate * total(samples),
        rate * total(samples) < (due_count(PacerState::fresh(rate), samples) + 1) * (
        MICROS_PER_SECOND + 2 * rate * longest),
{
    lemma_run_accounting(rate, samples, longest);
    let end = run(PacerState::fresh(rate), samples);
    let dues = due_count(PacerState::fresh(rate), samples);
    let k = MICROS_PER_SECOND + 2 * rate * longest;
    assert(end.since_submission * rate >= 0) by (nonlinear_arith);
    assert((dues + 1) * k == dues * k + k) by (nonlinear_arith);
    assert(rate * longest >= 0) by (nonlinear_arith);
    assert(2 * rate * longest == rate * longest + rate * longest) by (nonlinear_arith);
}

/// Right after a due tick the accumulator is empty, whatever came before.
pub proof fn lemma_due_tick_empties_accumulator(start: PacerState, samples: Seq<nat>)
    requires
        samples.len() > 0,
        run(start, samples.drop_last()).is_due(),
    ensures
        run(start, samples).since_submission == 0,
{
}

/// Ticks that stay within one second of a report keep the window's time and
/// due count.
proof fn lemma_window_accounting(start: PacerState, samples: Seq<nat>)
    requires
        start.since_report == 0,
        start.submissions == 0,
        forall|k: int| 0 < k <= samples.len() ==> total(#[trigger] samples.take(k))
            < MICROS_PER_SECOND,
    ensures
        run(start, samples).since_report == total(samples),
        run(start, samples).submissions == due_count(start, samples),
    decreases samples.len(),
{
    if samples.len() > 0 {
        let before = samples.drop_last();
        assert forall|k: int| 0 < k <= before.len() implies total(#[trigger] before.take(k))
            < MICROS_PER_SECOND by {
            assert(before.take(k) =~= samples.take(k));
        }
        lemma_window_accounting(start, before);
        assert(samples.take(samples.len() as int) =~= samples);
    }
}

/// The rate report fires on the first tick at which the time since the
/// previous report (or since the start) reaches one second, and it reports
/// the number of due ticks since then.
pub proof fn lemma_report_counts_window(start: PacerState, samples: Seq<nat>)
    requires
        start.since_report == 0,
        start.submissions == 0,
        samples.len() > 0,
        forall|k: int| 0 < k < samples.len() ==> total(#[trigger] samples.take(k))
            < MICROS_PER_SECOND,
    ensures
        last_report(start, samples) == if total(samples) >= MICROS_PER_SECOND {
            Some(due_count(start, samples))
        } else {
            None
        },
        forall|k: int|
            0 < k < samples.len() ==> #[trigger] last_report(start, samples.take(k)) is None,
{
    let before = samples.drop_last();
    assert forall|k: int| 0 < k <= before.len() implies total(#[trigger] before.take(k))
        < MICROS_PER_SECOND by {
        assert(before.take(k) =~= samples.take(k));
    }
    lemma_window_accounting(start, before);
    assert forall|k: int| 0 < k < samples.len() implies #[trigger] last_report(
        start,
        samples.take(k),
    ) is None by {
        let prefix = samples.take(k);
        let shorter = prefix.drop_last();
        assert forall|j: int| 0 < j <= shorter.len() implies total(#[trigger] shorter.take(j))
            < MICROS_PER_SECOND by {
            assert(shorter.take(j) =~= samples.take(j));
        }
        lemma_window_accounting(start, shorter);
        assert(prefix.take(prefix.len() as int) =~= prefix);
    }
}

} // verus!
