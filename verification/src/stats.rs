use vstd::prelude::*;

use crate::decimal::centi_chars;
use crate::decimal::decimal_chars;
use crate::decimal::u128_centi;
use crate::decimal::u128_decimal;

verus! {

/// The classification of one send attempt, independent of the payload.
#[derive(Debug, Clone, Copy, PartialEq, Eq, Structural)]
pub enum Outcome {
    Success,
    Failure,
}

/// The mathematical content of the counters, over unbounded integers.
pub ghost struct StatsModel {
    pub total: int,
    pub success: int,
    pub error: int,
    pub latency: int,
}

/// What one recorded outcome does to the counters: the total and the
/// cumulative latency always grow, and exactly one of the success and error
/// counts grows, by the outcome.
pub open spec fn record_model(m: StatsModel, outcome: Outcome, elapsed_ms: u64) -> StatsModel {
    StatsModel {
        total: m.total + 1,
        success: m.success + if outcome is Success {
            1int
        } else {
            0int
        },
        error: m.error + if outcome is Failure {
            1int
        } else {
            0int
        },
        latency: m.latency + elapsed_ms,
    }
}

/// The counters after a sequence of recorded outcomes, first to last.
pub open spec fn record_model_all(m: StatsModel, events: Seq<(Outcome, u64)>) -> StatsModel
    decreases events.len(),
{
    if events.len() == 0 {
        m
    } else {
        record_model_all(record_model(m, events[0].0, events[0].1), events.drop_first())
    }
}

/// Recording commutes: two adjacent recorded outcomes can swap places without
/// changing the counters. Every interleaving of a fixed bag of outcomes is a
/// chain of such swaps, so the counters are independent of the order in which
/// concurrent callers get through.
pub proof fn lemma_record_commutes(
    m: StatsModel,
    o1: Outcome,
    e1: u64,
    o2: Outcome,
    e2: u64,
)
    ensures
        record_model(record_model(m, o1, e1), o2, e2) == record_model(
            record_model(m, o2, e2),
            o1,
            e1,
        ),
{
}

/// Pulling the outcome at position `i` to the front of the sequence leaves
/// the final counters alone: a chain of the adjacent swaps above.
proof fn lemma_record_all_pull(m: StatsModel, events: Seq<(Outcome, u64)>, i: int)
    requires
        0 <= i < events.len(),
    ensures
        record_model_all(m, events) == record_model_all(
            record_model(m, events[i].0, events[i].1),
            events.remove(i),
        ),
    decreases i,
{
    if i == 0 {
        assert(events.remove(0) =~= events.drop_first());
    } else {
        let e0 = events[0];
        let ei = events[i];
        let rest = events.drop_first();
        lemma_record_all_pull(record_model(m, e0.0, e0.1), rest, i - 1);
        lemma_record_commutes(m, e0.0, e0.1, ei.0, ei.1);
        assert(rest[i - 1] == ei);
        assert(events.remove(i)[0] == e0);
        assert(events.remove(i).drop_first() =~= rest.remove(i - 1));
    }
}

/// Order independence: the counters after a run depend only on the bag of
/// outcomes recorded, not on the interleaving in which concurrent callers
/// got their records in.
pub proof fn lemma_record_all_permutation(
    m: StatsModel,
    s1: Seq<(Outcome, u64)>,
    s2: Seq<(Outcome, u64)>,
)
    requires
        s1.to_multiset() == s2.to_multiset(),
    ensures
        record_model_all(m, s1) == record_model_all(m, s2),
    decreases s1.len(),
{
    broadcast use vstd::seq_lib::group_to_multiset_ensures;

    if s1.len() == 0 {
        assert(s1.to_multiset().len() == s1.len());
        assert(s2.to_multiset().len() == s2.len());
        assert(s2.len() == 0);
    } else {
        let e = s1[0];
        assert(s1.contains(e));
        assert(s1.to_multiset().count(e) > 0);
        assert(s2.to_multiset().count(e) > 0);
        assert(s2.contains(e));
        let i = choose|i: int| 0 <= i < s2.len() && s2[i] == e;
        lemma_record_all_pull(m, s2, i);
        assert(s1.remove(0) =~= s1.drop_first());
        assert(s1.drop_first().to_multiset() == s2.remove(i).to_multiset()) by {
            assert(s1.remove(0).to_multiset() =~= s1.to_multiset().remove(e));
            assert(s2.remove(i).to_multiset() =~= s2.to_multiset().remove(e));
        }
        lemma_record_all_permutation(record_model(m, e.0, e.1), s1.drop_first(), s2.remove(i));
    }
}

/// Counting law: after any sequence of recorded outcomes the total has grown
/// by the number of outcomes, and the success and error counts together keep
/// exact pace with the total.
pub proof fn lemma_record_all_counts(m: StatsModel, events: Seq<(Outcome, u64)>)
    ensures
        record_model_all(m, events).total == m.total + events.len(),
        record_model_all(m, events).success + record_model_all(m, events).error == m.success
            + m.error + events.len(),
    decreases events.len(),
{
    if events.len() > 0 {
        lemma_record_all_counts(
            record_model(m, events[0].0, events[0].1),
            events.drop_first(),
        );
    }
}

/// The run's counters: total requests, successes, failures, and cumulative
/// request latency in milliseconds. One logical writer records outcomes; the
/// final reader takes a summary after the writer is done.
#[derive(Debug)]
pub struct LoadTestStats {
    pub total_requests: u64,
    pub success_count: u64,
    pub error_count: u64,
    pub total_duration: u64,
}

/// The derived figures of the final report. The two rates carry two decimal
/// places as integers in hundredths: requests per second, and mean request
/// latency in milliseconds.
#[derive(Debug, Clone, Copy, PartialEq, Eq, Structural)]
pub struct Report {
    pub total_requests: u64,
    pub success_count: u64,
    pub error_count: u64,
    pub rps_centi: u128,
    pub avg_latency_centi_ms: u128,
}

impl LoadTestStats {
    /// The counters as their mathematical model.
    pub open spec fn view(self) -> StatsModel {
        StatsModel {
            total: self.total_requests as int,
            success: self.success_count as int,
            error: self.error_count as int,
            latency: self.total_duration as int,
        }
    }

    /// The success and error counts account for every request counted.
    pub open spec fn wf(self) -> bool {
        self.success_count + self.error_count == self.total_requests
    }

    /// Fresh counters, all zero.
    pub fn new() -> (s: Self)
        ensures
            s@ == (StatsModel { total: 0, success: 0, error: 0, latency: 0 }),
            s.wf(),
    {
        LoadTestStats {
            total_requests: 0,
            success_count: 0,
            error_count: 0,
            total_duration: 0,
        }
    }

    /// Records one outcome: the counters move exactly as `record_model` says.
    pub fn record(&mut self, outcome: Outcome, elapsed_ms: u64)
        requires
            old(self).wf(),
            old(self).total_requests < u64::MAX,
            old(self).total_duration + elapsed_ms <= u64::MAX,
        ensures
            final(self)@ == record_model(old(self)@, outcome, elapsed_ms),
            final(self).wf(),
    {
        self.total_requests = self.total_requests + 1;
        self.total_duration = self.total_duration + elapsed_ms;
        match outcome {
            Outcome::Success => {
                self.success_count = self.success_count + 1;
            },
            Outcome::Failure => {
                self.error_count = self.error_count + 1;
            },
        }
    }

    /// Computes the final report for a run that took `run_elapsed_ms`
    /// milliseconds of wall clock: the counters are carried over, requests
    /// per second is total over elapsed seconds (zero for a zero-length run),
    /// and the mean latency is cumulative latency over total (zero with no
    /// requests), both rounded down to hundredths.
    pub fn summary(&self, run_elapsed_ms: u64) -> (r: Report)
        ensures
            r.total_requests == self.total_requests,
            r.success_count == self.success_count,
            r.error_count == self.error_count,
            r.rps_centi == if run_elapsed_ms == 0 {
                0int
            } else {
                (self.total_requests * 100000) / (run_elapsed_ms as int)
            },
            r.avg_latency_centi_ms == if self.total_requests == 0 {
                0int
            } else {
                (self.total_duration * 100) / (self.total_requests as int)
            },
    {
        let rps_centi: u128 = if run_elapsed_ms == 0 {
            0
        } else {
            (self.total_requests as u128) * 100000 / (run_elapsed_ms as u128)
        };
        let avg_latency_centi_ms: u128 = if self.total_requests == 0 {
            0
        } else {
            (self.total_duration as u128) * 100 / (self.total_requests as u128)
        };
        Report {
            total_requests: self.total_requests,
            success_count: self.success_count,
            error_count: self.error_count,
            rps_centi,
            avg_latency_centi_ms,
        }
    }
}

/// The final summary block as text: a header, then the run's wall-clock
/// length in seconds, the three counters, and the two rates, each on its own
/// line, rates and seconds written with two decimal places.
pub open spec fn summary_text(r: Report, run_elapsed_ms: u64) -> Seq<char> {
    "\n==== Load Test Summary ====\n"@ + "total duration:      "@ + centi_chars(
        (run_elapsed_ms / 10) as nat,
    ) + "s\n"@ + "total requests:      "@ + decimal_chars(r.total_requests as nat) + "\n"@
        + "successful requests: "@ + decimal_chars(r.success_count as nat) + "\n"@
        + "failed requests:     "@ + decimal_chars(r.error_count as nat) + "\n"@
        + "requests per second: "@ + centi_chars(r.rps_centi as nat) + "\n"@
        + "avg response time:   "@ + centi_chars(r.avg_latency_centi_ms as nat) + "ms\n"@
}

impl Report {
    /// Renders the final summary exactly as `summary_text` lays it out.
    pub fn render(&self, run_elapsed_ms: u64) -> (s: String)
        ensures
            s@ == summary_text(*self, run_elapsed_ms),
    {
        let mut s = String::from_str("\n==== Load Test Summary ====\n");
        s.append("total duration:      ");
        s.append(u128_centi((run_elapsed_ms / 10) as u128).as_str());
        s.append("s\n");
        s.append("total requests:      ");
        s.append(u128_decimal(self.total_requests as u128).as_str());
        s.append("\n");
        s.append("successful requests: ");
        s.append(u128_decimal(self.success_count as u128).as_str());
        s.append("\n");
        s.append("failed requests:     ");
        s.append(u128_decimal(self.error_count as u128).as_str());
        s.append("\n");
        s.append("requests per second: ");
        s.append(u128_centi(self.rps_centi).as_str());
        s.append("\n");
        s.append("avg response time:   ");
        s.append(u128_centi(self.avg_latency_centi_ms).as_str());
        s.append("ms\n");
        proof {
            assert(s@ =~= summary_text(*self, run_elapsed_ms));
        }
        s
    }
}

} // verus!
