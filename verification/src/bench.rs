//! The benchmark of a query: warmup runs, measured runs, and the least, the
//! greatest and the mean latency of the measured runs.

use crate::text::{decimal, decimal3, to_decimal, to_decimal3};
use vstd::prelude::*;

verus! {

/// The least of the first `n` values; `n` is at least one.
pub open spec fn min_of(times: Seq<u64>, n: nat) -> u64
    decreases n,
{
    if n <= 1 || n > times.len() {
        times[0]
    } else {
        let rest = min_of(times, (n - 1) as nat);
        if times[n - 1] < rest {
            times[n - 1]
        } else {
            rest
        }
    }
}

/// The greatest of the first `n` values; `n` is at least one.
pub open spec fn max_of(times: Seq<u64>, n: nat) -> u64
    decreases n,
{
    if n <= 1 || n > times.len() {
        times[0]
    } else {
        let rest = max_of(times, (n - 1) as nat);
        if times[n - 1] > rest {
            times[n - 1]
        } else {
            rest
        }
    }
}

/// The sum of the first `n` values.
pub open spec fn sum_of(times: Seq<u64>, n: nat) -> nat
    decreases n,
{
    if n == 0 || n > times.len() {
        0
    } else {
        sum_of(times, (n - 1) as nat) + times[n - 1] as nat
    }
}

/// The least, the greatest and the mean latency, in whole milliseconds.
#[derive(Debug, Clone, Copy, PartialEq, Eq, Structural)]
pub struct Statistics {
    pub min: u64,
    pub max: u64,
    pub mean: u64,
}

/// The statistics of a list of latencies that is not empty: the mean is the
/// sum divided by the count, rounded down.
pub open spec fn statistics_of(times: Seq<u64>) -> Statistics {
    Statistics {
        min: min_of(times, times.len()),
        max: max_of(times, times.len()),
        mean: (sum_of(times, times.len()) / times.len()) as u64,
    }
}

/// The sum of `n` values is at most `n` times the greatest `u64`.
pub proof fn lemma_sum_bound(times: Seq<u64>, n: nat)
    ensures
        sum_of(times, n) <= n * u64::MAX,
    decreases n,
{
    if n == 0 || n > times.len() {
    } else {
        lemma_sum_bound(times, (n - 1) as nat);
        assert((n - 1) * u64::MAX + u64::MAX == n * u64::MAX) by (nonlinear_arith);
    }
}

/// The least of the first `n` latencies is at most each of them, the
/// greatest is at least each of them, and their sum lies between `n` times
/// the least and `n` times the greatest.
pub proof fn lemma_min_max_bounds(times: Seq<u64>, n: nat)
    requires
        1 <= n <= times.len(),
    ensures
        forall|i: int| 0 <= i < n ==> min_of(times, n) <= #[trigger] times[i] <= max_of(times, n),
        n * min_of(times, n) <= sum_of(times, n) <= n * max_of(times, n),
    decreases n,
{
    if n == 1 {
        assert(sum_of(times, 0) == 0);
        assert(1 * times[0] == times[0]) by (nonlinear_arith);
    } else {
        let m = (n - 1) as nat;
        lemma_min_max_bounds(times, m);
        let lo = min_of(times, n) as int;
        let hi = max_of(times, n) as int;
        let lo0 = min_of(times, m) as int;
        let hi0 = max_of(times, m) as int;
        let s0 = sum_of(times, m) as int;
        let last = times[n - 1] as int;
        assert(n * lo <= s0 + last) by (nonlinear_arith)
            requires
                m == n - 1,
                m >= 1,
                m * lo0 <= s0,
                lo <= lo0,
                lo <= last,
        ;
        assert(s0 + last <= n * hi) by (nonlinear_arith)
            requires
                m == n - 1,
                m >= 1,
                s0 <= m * hi0,
                hi0 <= hi,
                last <= hi,
        ;
    }
}

/// The mean latency lies between the least and the greatest.
pub proof fn lemma_mean_between(times: Seq<u64>)
    requires
        times.len() >= 1,
    ensures
        statistics_of(times).min <= statistics_of(times).mean <= statistics_of(times).max,
{
    let n = times.len() as int;
    lemma_min_max_bounds(times, times.len());
    lemma_mean_fits(times);
    let lo = min_of(times, times.len()) as int;
    let hi = max_of(times, times.len()) as int;
    let s = sum_of(times, times.len()) as int;
    assert(lo <= s / n <= hi) by (nonlinear_arith)
        requires
            n >= 1,
            n * lo <= s,
            s <= n * hi,
    ;
}

/// Where every one of the first `n` latencies is `t`, their least and their
/// greatest are `t` and their sum is `n` times `t`.
pub proof fn lemma_constant_runs(times: Seq<u64>, n: nat, t: u64)
    requires
        1 <= n <= times.len(),
        forall|i: int| 0 <= i < n ==> times[i] == t,
    ensures
        min_of(times, n) == t,
        max_of(times, n) == t,
        sum_of(times, n) == n * t,
    decreases n,
{
    if n == 1 {
        assert(sum_of(times, 0) == 0);
        assert(1 * t == t) by (nonlinear_arith);
    } else {
        lemma_constant_runs(times, (n - 1) as nat, t);
        assert((n - 1) * t + t == n * t) by (nonlinear_arith);
    }
}

/// Where every measured run takes the same latency, the least, the greatest
/// and the mean latency are that latency.
pub proof fn lemma_fixed_latency(times: Seq<u64>, t: u64)
    requires
        times.len() >= 1,
        forall|i: int| 0 <= i < times.len() ==> times[i] == t,
    ensures
        statistics_of(times) == (Statistics { min: t, max: t, mean: t }),
{
    lemma_constant_runs(times, times.len(), t);
    let n = times.len() as int;
    let total = n * t;
    assert(total / n == t) by (nonlinear_arith)
        requires
            n >= 1,
            total == n * t,
    ;
}

/// The statistics of the latencies, `None` where there is none.
pub fn statistics(times: &Vec<u64>) -> (r: Option<Statistics>)
    ensures
        times.len() == 0 ==> r is None,
        times.len() >= 1 ==> r == Some(statistics_of(times@)),
{
    if times.len() == 0 {
        return None;
    }
    let mut min: u64 = times[0];
    let mut max: u64 = times[0];
    let mut sum: u128 = times[0] as u128;
    let mut i: usize = 1;
    proof {
        assert(sum_of(times@, 0) == 0);
        assert(sum_of(times@, 1) == times@[0] as nat);
    }
    while i < times.len()
        invariant
            1 <= i <= times.len(),
            min == min_of(times@, i as nat),
            max == max_of(times@, i as nat),
            sum == sum_of(times@, i as nat),
        decreases times.len() - i,
    {
        proof {
            lemma_sum_bound(times@, (i + 1) as nat);
            assert((i + 1) * u64::MAX <= usize::MAX * u64::MAX) by (nonlinear_arith)
                requires
                    i + 1 <= usize::MAX,
            ;
            assert(usize::MAX * u64::MAX <= u64::MAX * u64::MAX) by (nonlinear_arith)
                requires
                    usize::MAX <= u64::MAX,
            ;
        }
        if times[i] < min {
            min = times[i];
        }
        if times[i] > max {
            max = times[i];
        }
        sum = sum + times[i] as u128;
        i += 1;
    }
    let count: u128 = times.len() as u128;
    proof {
        lemma_mean_fits(times@);
    }
    let mean: u64 = (sum / count) as u64;
    Some(Statistics { min, max, mean })
}

/// The mean of `u64` values is a `u64`.
pub proof fn lemma_mean_fits(times: Seq<u64>)
    requires
        times.len() >= 1,
    ensures
        sum_of(times, times.len()) / times.len() <= u64::MAX,
{
    lemma_sum_bound(times, times.len());
    let n = times.len() as int;
    let s = sum_of(times, times.len()) as int;
    assert(s / n <= u64::MAX) by (nonlinear_arith)
        requires
            n >= 1,
            s <= n * u64::MAX,
    ;
}

/// A number of measured runs: at least one.
#[derive(Debug, Clone, Copy)]
pub struct BenchmarkNumRuns {
    value: u16,
}

impl BenchmarkNumRuns {
    #[verifier::type_invariant]
    spec fn inv(self) -> bool {
        self.value >= 1
    }

    /// The number.
    pub closed spec fn spec_value(self) -> u16 {
        self.value
    }

    /// The number of runs `value`, `None` for zero.
    pub fn new(value: u16) -> (r: Option<BenchmarkNumRuns>)
        ensures
            value == 0 ==> r is None,
            value >= 1 ==> (r matches Some(n) && n.spec_value() == value),
    {
        if value == 0 {
            None
        } else {
            Some(BenchmarkNumRuns { value })
        }
    }

    /// The number: at least one.
    pub fn value(&self) -> (r: u16)
        ensures
            r == self.spec_value(),
            r >= 1,
    {
        proof {
            use_type_invariant(self);
        }
        self.value
    }
}

/// What a benchmark asks for next.
#[derive(Debug, Clone, Copy, PartialEq, Eq, Structural)]
pub enum BenchStep {
    /// Run the query as warmup run `number`, counted from one.
    Warmup { number: u16 },
    /// Run the query as measured run `number`, counted from one.
    Measure { number: u16 },
    /// All runs are done: report the statistics.
    Report { statistics: Statistics },
}

/// The state of a benchmark: the runs asked for, and the latencies of the
/// runs done so far.
#[derive(Debug)]
pub struct Benchmark {
    warmup_runs: u16,
    num_runs: u16,
    warmups_done: u16,
    times: Vec<u64>,
}

impl Benchmark {
    #[verifier::type_invariant]
    spec fn inv(self) -> bool {
        &&& self.num_runs >= 1
        &&& self.warmups_done <= self.warmup_runs
        &&& self.times.len() <= self.num_runs
        &&& self.warmups_done < self.warmup_runs ==> self.times.len() == 0
    }

    /// The number of warmup runs asked for.
    pub closed spec fn warmup_runs(&self) -> nat {
        self.warmup_runs as nat
    }

    /// The number of measured runs asked for.
    pub closed spec fn num_runs(&self) -> nat {
        self.num_runs as nat
    }

    /// The number of warmup runs done.
    pub closed spec fn warmups_done(&self) -> nat {
        self.warmups_done as nat
    }

    /// The latencies of the measured runs done, in milliseconds.
    pub closed spec fn times(&self) -> Seq<u64> {
        self.times@
    }

    /// What the benchmark asks for next: the warmup runs first, then the
    /// measured runs, then the report.
    pub open spec fn spec_next(&self) -> BenchStep {
        if self.warmups_done() < self.warmup_runs() {
            BenchStep::Warmup { number: (self.warmups_done() + 1) as u16 }
        } else if self.times().len() < self.num_runs() {
            BenchStep::Measure { number: (self.times().len() + 1) as u16 }
        } else {
            BenchStep::Report { statistics: statistics_of(self.times()) }
        }
    }

    /// A benchmark of `num_runs` measured runs after `num_warmup_runs`
    /// warmup runs, none of them done yet.
    pub fn new(num_runs: BenchmarkNumRuns, num_warmup_runs: u16) -> (r: Benchmark)
        ensures
            r.num_runs() == num_runs.spec_value(),
            r.warmup_runs() == num_warmup_runs,
            r.warmups_done() == 0,
            r.times() == Seq::<u64>::empty(),
    {
        Benchmark {
            warmup_runs: num_warmup_runs,
            num_runs: num_runs.value(),
            warmups_done: 0,
            times: Vec::new(),
        }
    }

    /// What the benchmark asks for next.
    pub fn next(&self) -> (r: BenchStep)
        ensures
            r == self.spec_next(),
            self.times().len() <= self.num_runs(),
            self.warmups_done() <= self.warmup_runs(),
            self.num_runs() >= 1,
    {
        proof {
            use_type_invariant(self);
        }
        if self.warmups_done < self.warmup_runs {
            BenchStep::Warmup { number: self.warmups_done + 1 }
        } else if self.times.len() < self.num_runs as usize {
            BenchStep::Measure { number: (self.times.len() + 1) as u16 }
        } else {
            match statistics(&self.times) {
                Some(statistics) => BenchStep::Report { statistics },
                None => BenchStep::Measure { number: 1 },
            }
        }
    }

    /// Takes the latency of the run that was asked for: a warmup run is
    /// counted and its latency dropped, a measured run's latency is kept.
    /// After the last run nothing changes.
    pub fn record(&mut self, elapsed_ms: u64)
        ensures
            final(self).num_runs() == old(self).num_runs(),
            final(self).warmup_runs() == old(self).warmup_runs(),
            match old(self).spec_next() {
                BenchStep::Warmup { .. } => final(self).warmups_done() == old(self).warmups_done()
                    + 1 && final(self).times() == old(self).times(),
                BenchStep::Measure { .. } => final(self).warmups_done() == old(
                    self,
                ).warmups_done() && final(self).times() == old(self).times().push(elapsed_ms),
                BenchStep::Report { .. } => final(self).warmups_done() == old(
                    self,
                ).warmups_done() && final(self).times() == old(self).times(),
            },
    {
        proof {
            use_type_invariant(&*self);
        }
        if self.warmups_done < self.warmup_runs {
            self.warmups_done = self.warmups_done + 1;
        } else if self.times.len() < self.num_runs as usize {
            let mut times: Vec<u64> = Vec::new();
            std::mem::swap(&mut times, &mut self.times);
            times.push(elapsed_ms);
            self.times = times;
        }
    }
}

/// The line that reports one run: its number in three digits, and its
/// latency in milliseconds.
pub open spec fn run_line_text(number: u16, elapsed_ms: u64) -> Seq<char> {
    "run "@ + decimal3(number as nat) + ":      "@ + decimal(elapsed_ms as nat) + "ms"@
}

/// The line that reports one run.
pub fn run_line(number: u16, elapsed_ms: u64) -> (r: String)
    ensures
        r@ == run_line_text(number, elapsed_ms),
{
    String::from_str("run ").concat(to_decimal3(number as u128).as_str()).concat(
        ":      ",
    ).concat(to_decimal(elapsed_ms as u128).as_str()).concat("ms")
}

/// The message for a run that failed: which kind of run, and its number.
pub open spec fn failure_text(step: BenchStep) -> Seq<char> {
    match step {
        BenchStep::Warmup { number } => "couldn't get results for warmup run #"@ + decimal(
            number as nat,
        ),
        BenchStep::Measure { number } => "couldn't execute query for benchmark run #"@ + decimal(
            number as nat,
        ),
        BenchStep::Report { .. } => Seq::empty(),
    }
}

/// The message for a run that failed.
pub fn failure_message(step: &BenchStep) -> (r: String)
    ensures
        r@ == failure_text(*step),
{
    match step {
        BenchStep::Warmup { number } => String::from_str(
            "couldn't get results for warmup run #",
        ).concat(to_decimal(*number as u128).as_str()),
        BenchStep::Measure { number } => String::from_str(
            "couldn't execute query for benchmark run #",
        ).concat(to_decimal(*number as u128).as_str()),
        BenchStep::Report { .. } => String::new(),
    }
}

/// The lines that report the statistics.
pub open spec fn statistics_text(s: Statistics) -> Seq<char> {
    "min:          "@ + decimal(s.min as nat) + "ms\nmax:          "@ + decimal(s.max as nat)
        + "ms\nmean:         "@ + decimal(s.mean as nat) + "ms\n"@
}

/// The lines that report the statistics.
pub fn statistics_lines(s: &Statistics) -> (r: String)
    ensures
        r@ == statistics_text(*s),
{
    String::from_str("min:          ").concat(to_decimal(s.min as u128).as_str()).concat(
        "ms\nmax:          ",
    ).concat(to_decimal(s.max as u128).as_str()).concat("ms\nmean:         ").concat(
        to_decimal(s.mean as u128).as_str(),
    ).concat("ms\n")
}

} // verus!
