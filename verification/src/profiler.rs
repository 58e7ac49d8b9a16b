//! Pipeline stage model: profiling primitives for RAG pipelines.
//!
//! Costs are in billionths of a US dollar (`1_000_000_000` is one dollar).

use vstd::prelude::*;
use vstd::string::*;

use crate::metadata::{insert_entry, lookup, spec_lookup};
use crate::order_stats::{
    ints_of, percentile, sorted_copy, spec_percentile, sum_of,
};
use crate::text::{
    decimal, decimal_usize, div_round_half_up, fixed, round_half_up, spec_decimal, spec_fixed,
};

verus! {

/// Cost units per US dollar.
pub const NANO_USD_PER_USD: u64 = 1_000_000_000;

/// std's `Instant::now`: the current reading of a monotonic clock. It
/// depends on the clock, so nothing is stated of it.
pub assume_specification[ std::time::Instant::now ]() -> std::time::Instant;

/// std's `Instant::elapsed`: the time passed since `start`. It depends on
/// the clock, so nothing is stated of it.
pub assume_specification[ std::time::Instant::elapsed ](start: &std::time::Instant) -> core::time::Duration;

/// Largest number of whole milliseconds a `Duration` holds: it is made of
/// `u64` seconds and a fraction of a second.
pub open spec fn max_duration_ms() -> int {
    u64::MAX * 1000 + 999
}

/// std's `Duration::as_millis`: the whole milliseconds of the duration,
/// which has at most `u64::MAX` seconds.
pub assume_specification[ core::time::Duration::as_millis ](d: &core::time::Duration) -> (r: u128)
    ensures
        r <= max_duration_ms(),
;

/// std's `Instant`, carried through a stage timer without being looked into.
#[verifier::external_type_specification]
#[verifier::external_body]
pub struct ExInstant(std::time::Instant);

/// A single stage in a RAG pipeline execution (e.g. embedding, retrieval, generation).
#[derive(Debug, Clone)]
pub struct Stage {
    /// Stage identifier (e.g. `"query_embedding"`, `"vector_search"`)
    pub name: String,
    /// Execution duration in milliseconds
    pub duration_ms: u128,
    /// Number of tokens consumed or produced by this stage
    pub token_count: usize,
    /// Estimated cost, in billionths of a US dollar
    pub cost: u64,
    /// Key-value metadata; the first entry for a key is the one that counts
    pub metadata: Vec<(String, String)>,
}

/// `t` equals `s` except, possibly, for the fields named by the caller.
pub open spec fn same_name_and_metadata(s: Stage, t: Stage) -> bool {
    s.name@ == t.name@ && s.metadata@ == t.metadata@
}

/// Rendering of a cost with four decimals, e.g. "0.0048".
pub open spec fn spec_usd(cost: u64) -> Seq<char> {
    spec_fixed(round_half_up(cost as nat, 100000), 4)
}

/// A cost in billionths of a dollar, written in dollars with four decimals.
pub fn usd_string(cost: u64) -> (s: String)
    ensures
        s@ == spec_usd(cost),
{
    let tenths_of_cents: u128 = (2 * (cost as u128) + 100000) / 200000;
    fixed(tenths_of_cents, 4)
}

impl Stage {
    /// Create a new stage with the given name and zero initial metrics.
    pub fn new(name: &str) -> (s: Self)
        ensures
            s.name@ == name@,
            s.duration_ms == 0,
            s.token_count == 0,
            s.cost == 0,
            s.metadata@.len() == 0,
    {
        Stage {
            name: String::from_str(name),
            duration_ms: 0,
            token_count: 0,
            cost: 0,
            metadata: Vec::new(),
        }
    }

    /// Set the duration in milliseconds.
    pub fn with_duration(self, ms: u128) -> (s: Self)
        ensures
            same_name_and_metadata(self, s),
            s.duration_ms == ms,
            s.token_count == self.token_count,
            s.cost == self.cost,
    {
        let mut s = self;
        s.duration_ms = ms;
        s
    }

    /// Set the token count.
    pub fn with_tokens(self, tokens: usize) -> (s: Self)
        ensures
            same_name_and_metadata(self, s),
            s.duration_ms == self.duration_ms,
            s.token_count == tokens,
            s.cost == self.cost,
    {
        let mut s = self;
        s.token_count = tokens;
        s
    }

    /// Set the estimated cost (billionths of a US dollar).
    pub fn with_cost(self, cost: u64) -> (s: Self)
        ensures
            same_name_and_metadata(self, s),
            s.duration_ms == self.duration_ms,
            s.token_count == self.token_count,
            s.cost == cost,
    {
        let mut s = self;
        s.cost = cost;
        s
    }

    /// Insert a metadata key-value pair (replacing an earlier value for the key).
    pub fn with_metadata(self, key: &str, value: &str) -> (s: Self)
        ensures
            s.name@ == self.name@,
            s.duration_ms == self.duration_ms,
            s.token_count == self.token_count,
            s.cost == self.cost,
            spec_lookup(s.metadata@, key@) == Some(value@),
            forall|k: Seq<char>|
                k != key@ ==> #[trigger] spec_lookup(s.metadata@, k) == spec_lookup(
                    self.metadata@,
                    k,
                ),
    {
        let mut s = self;
        insert_entry(&mut s.metadata, key, value);
        s
    }

    /// The metadata value stored for `key`, if any.
    pub fn get_metadata(&self, key: &str) -> (v: Option<&String>)
        ensures
            v matches Some(x) ==> spec_lookup(self.metadata@, key@) == Some(x@),
            v is None ==> spec_lookup(self.metadata@, key@) is None,
    {
        lookup(&self.metadata, key)
    }

    /// One-line summary, e.g. "vector_search (42ms, 1500 tokens, $0.0003)".
    pub open spec fn spec_describe(&self) -> Seq<char> {
        self.name@ + " ("@ + spec_decimal(self.duration_ms as nat) + "ms, "@ + spec_decimal(
            self.token_count as nat,
        ) + " tokens, $"@ + spec_usd(self.cost) + ")"@
    }

    /// One-line summary of the stage.
    pub fn describe(&self) -> (s: String)
        ensures
            s@ == self.spec_describe(),
    {
        let mut s = self.name.clone();
        s.append(" (");
        let d = decimal(self.duration_ms);
        s.append(d.as_str());
        s.append("ms, ");
        let t = decimal_usize(self.token_count);
        s.append(t.as_str());
        s.append(" tokens, $");
        let c = usd_string(self.cost);
        s.append(c.as_str());
        s.append(")");
        s
    }
}

/// A timing guard that measures elapsed time between creation and consumption.
pub struct StageTimer {
    name: String,
    start: std::time::Instant,
    metadata: Vec<(String, String)>,
}

impl StageTimer {
    /// Name of the stage being timed.
    pub closed spec fn stage_name(&self) -> Seq<char> {
        self.name@
    }

    /// Metadata recorded so far.
    pub closed spec fn entries(&self) -> Seq<(String, String)> {
        self.metadata@
    }

    /// Begin timing a stage.
    pub fn start(name: &str) -> (t: Self)
        ensures
            t.stage_name() == name@,
            t.entries().len() == 0,
    {
        StageTimer {
            name: String::from_str(name),
            start: std::time::Instant::now(),
            metadata: Vec::new(),
        }
    }

    /// Attach metadata before finishing.
    pub fn with_metadata(self, key: &str, value: &str) -> (t: Self)
        ensures
            t.stage_name() == self.stage_name(),
            spec_lookup(t.entries(), key@) == Some(value@),
            forall|k: Seq<char>|
                k != key@ ==> #[trigger] spec_lookup(t.entries(), k) == spec_lookup(
                    self.entries(),
                    k,
                ),
    {
        let mut t = self;
        insert_entry(&mut t.metadata, key, value);
        t
    }

    /// Complete timing and produce a [`Stage`] with token count and cost; its
    /// duration is the clock time elapsed since `start`.
    pub fn finish(self, token_count: usize, cost: u64) -> (s: Stage)
        ensures
            s.name@ == self.stage_name(),
            s.metadata@ == self.entries(),
            s.token_count == token_count,
            s.cost == cost,
            s.duration_ms <= max_duration_ms(),
    {
        let elapsed = self.start.elapsed();
        Stage {
            name: self.name,
            duration_ms: elapsed.as_millis(),
            token_count,
            cost,
            metadata: self.metadata,
        }
    }
}

/// Stage durations as integers.
pub open spec fn durations_of(stages: Seq<Stage>) -> Seq<int> {
    stages.map_values(|s: Stage| s.duration_ms as int)
}

/// Stage token counts as integers.
pub open spec fn tokens_of(stages: Seq<Stage>) -> Seq<int> {
    stages.map_values(|s: Stage| s.token_count as int)
}

/// Stage costs as integers.
pub open spec fn costs_of(stages: Seq<Stage>) -> Seq<int> {
    stages.map_values(|s: Stage| s.cost as int)
}

/// The first stage named `name`, if any.
pub open spec fn spec_find(stages: Seq<Stage>, name: Seq<char>) -> Option<Stage>
    decreases stages.len(),
{
    if stages.len() == 0 {
        None
    } else if stages[0].name@ == name {
        Some(stages[0])
    } else {
        spec_find(stages.drop_first(), name)
    }
}

/// The totals of `stages` fit the fields that hold them.
pub open spec fn totals_fit(stages: Seq<Stage>) -> bool {
    &&& sum_of(durations_of(stages)) <= u128::MAX
    &&& sum_of(tokens_of(stages)) <= usize::MAX
    &&& sum_of(costs_of(stages)) <= u64::MAX
}

/// Aggregated profile of a complete RAG pipeline execution.
#[derive(Debug, Clone)]
pub struct PipelineProfile {
    /// Ordered list of stages in execution order
    pub stages: Vec<Stage>,
    /// Total duration across all stages (ms)
    pub total_duration_ms: u128,
    /// Total tokens across all stages
    pub total_tokens: usize,
    /// Total estimated cost across all stages (billionths of a US dollar)
    pub total_cost: u64,
}

proof fn lemma_sum_nonneg_prefix(s: Seq<int>, i: int)
    requires
        0 <= i <= s.len(),
        forall|j: int| 0 <= j < s.len() ==> s[j] >= 0,
    ensures
        0 <= sum_of(s.take(i)) <= sum_of(s),
    decreases s.len(),
{
    if s.len() > 0 {
        if i == s.len() {
            assert(s.take(i) =~= s);
            lemma_sum_nonneg_prefix(s.drop_last(), i - 1);
            assert(s.drop_last().take(i - 1) =~= s.drop_last());
        } else {
            assert(s.take(i) =~= s.drop_last().take(i));
            lemma_sum_nonneg_prefix(s.drop_last(), i);
        }
    } else {
        assert(s.take(i) =~= s);
    }
}

/// Summing a sequence extended by one element adds that element.
pub proof fn lemma_sum_push(s: Seq<int>, x: int)
    ensures
        sum_of(s.push(x)) == sum_of(s) + x,
{
    assert(s.push(x).drop_last() =~= s);
}

impl PipelineProfile {
    /// The totals equal the sums over the stages.
    pub open spec fn is_consistent(&self) -> bool {
        &&& self.total_duration_ms == sum_of(durations_of(self.stages@))
        &&& self.total_tokens == sum_of(tokens_of(self.stages@))
        &&& self.total_cost == sum_of(costs_of(self.stages@))
    }

    /// Create an empty pipeline profile.
    pub fn new() -> (p: Self)
        ensures
            p.stages@.len() == 0,
            p.is_consistent(),
            p.total_duration_ms == 0,
            p.total_tokens == 0,
            p.total_cost == 0,
    {
        let p = PipelineProfile {
            stages: Vec::new(),
            total_duration_ms: 0,
            total_tokens: 0,
            total_cost: 0,
        };
        assert(durations_of(p.stages@) =~= Seq::<int>::empty());
        assert(tokens_of(p.stages@) =~= Seq::<int>::empty());
        assert(costs_of(p.stages@) =~= Seq::<int>::empty());
        p
    }

    /// Add a completed stage and recompute aggregate stats.
    pub fn add_stage(&mut self, stage: Stage)
        requires
            totals_fit(old(self).stages@.push(stage)),
        ensures
            final(self).stages@ == old(self).stages@.push(stage),
            final(self).is_consistent(),
    {
        self.stages.push(stage);
        self.aggregate_stats();
    }

    /// Recompute total_duration_ms, total_tokens, and total_cost from stages.
    pub fn aggregate_stats(&mut self)
        requires
            totals_fit(old(self).stages@),
        ensures
            final(self).stages@ == old(self).stages@,
            final(self).is_consistent(),
    {
        let n = self.stages.len();
        let mut d: u128 = 0;
        let mut t: usize = 0;
        let mut c: u64 = 0;
        let ghost ds = durations_of(self.stages@);
        let ghost ts = tokens_of(self.stages@);
        let ghost cs = costs_of(self.stages@);
        assert(ds.take(0) =~= Seq::<int>::empty());
        assert(ts.take(0) =~= Seq::<int>::empty());
        assert(cs.take(0) =~= Seq::<int>::empty());
        for i in 0..n
            invariant
                n == self.stages@.len(),
                ds == durations_of(self.stages@),
                ts == tokens_of(self.stages@),
                cs == costs_of(self.stages@),
                totals_fit(self.stages@),
                d == sum_of(ds.take(i as int)),
                t == sum_of(ts.take(i as int)),
                c == sum_of(cs.take(i as int)),
        {
            proof {
                assert(ds.take(i + 1) =~= ds.take(i as int).push(ds[i as int]));
                assert(ts.take(i + 1) =~= ts.take(i as int).push(ts[i as int]));
                assert(cs.take(i + 1) =~= cs.take(i as int).push(cs[i as int]));
                lemma_sum_push(ds.take(i as int), ds[i as int]);
                lemma_sum_push(ts.take(i as int), ts[i as int]);
                lemma_sum_push(cs.take(i as int), cs[i as int]);
                lemma_sum_nonneg_prefix(ds, i + 1);
                lemma_sum_nonneg_prefix(ts, i + 1);
                lemma_sum_nonneg_prefix(cs, i + 1);
            }
            d = d + self.stages[i].duration_ms;
            t = t + self.stages[i].token_count;
            c = c + self.stages[i].cost;
        }
        assert(ds.take(n as int) =~= ds);
        assert(ts.take(n as int) =~= ts);
        assert(cs.take(n as int) =~= cs);
        self.total_duration_ms = d;
        self.total_tokens = t;
        self.total_cost = c;
    }

    /// Number of stages in the profile.
    pub fn stage_count(&self) -> (n: usize)
        ensures
            n == self.stages@.len(),
    {
        self.stages.len()
    }

    /// Find the first stage with the given name.
    pub fn find(&self, name: &str) -> (r: Option<&Stage>)
        ensures
            r matches Some(s) ==> spec_find(self.stages@, name@) == Some(*s),
            r is None ==> spec_find(self.stages@, name@) is None,
    {
        let key = String::from_str(name);
        let n = self.stages.len();
        assert(self.stages@.skip(0) =~= self.stages@);
        for i in 0..n
            invariant
                n == self.stages@.len(),
                key@ == name@,
                spec_find(self.stages@, name@) == spec_find(self.stages@.skip(i as int), name@),
        {
            let ghost rest = self.stages@.skip(i as int);
            assert(rest.drop_first() =~= self.stages@.skip(i + 1));
            assert(rest[0] == self.stages@[i as int]);
            if self.stages[i].name == key {
                return Some(&self.stages[i]);
            }
        }
        assert(self.stages@.skip(n as int) =~= Seq::<Stage>::empty());
        None
    }

    /// Multi-line summary: one line per stage, then the totals.
    pub fn describe(&self) -> (s: String)
        ensures
            s@ == self.spec_describe(),
    {
        let mut s = String::from_str("Pipeline Profile (");
        let n = decimal_usize(self.stages.len());
        s.append(n.as_str());
        s.append(" stages):\n");
        let count = self.stages.len();
        for i in 0..count
            invariant
                count == self.stages@.len(),
                s@ == "Pipeline Profile ("@ + spec_decimal(count as nat) + " stages):\n"@
                    + stage_lines(self.stages@.take(i as int)),
        {
            proof {
                assert(self.stages@.take(i + 1).drop_last() =~= self.stages@.take(i as int));
            }
            s.append("  • ");
            let line = self.stages[i].describe();
            s.append(line.as_str());
            s.append("\n");
            assert(s@ =~= "Pipeline Profile ("@ + spec_decimal(count as nat) + " stages):\n"@
                + stage_lines(self.stages@.take(i + 1)));
        }
        assert(self.stages@.take(count as int) =~= self.stages@);
        s.append("Total: ");
        let d = decimal(self.total_duration_ms);
        s.append(d.as_str());
        s.append("ms, ");
        let t = decimal_usize(self.total_tokens);
        s.append(t.as_str());
        s.append(" tokens, $");
        let c = usd_string(self.total_cost);
        s.append(c.as_str());
        s.append("\n");
        s
    }

    /// The multi-line summary.
    pub open spec fn spec_describe(&self) -> Seq<char> {
        "Pipeline Profile ("@ + spec_decimal(self.stages@.len() as nat) + " stages):\n"@
            + stage_lines(self.stages@) + "Total: "@ + spec_decimal(self.total_duration_ms as nat)
            + "ms, "@ + spec_decimal(self.total_tokens as nat) + " tokens, $"@ + spec_usd(
            self.total_cost,
        ) + "\n"@
    }
}

/// One bulleted line per stage.
pub open spec fn stage_lines(stages: Seq<Stage>) -> Seq<char>
    decreases stages.len(),
{
    if stages.len() == 0 {
        Seq::empty()
    } else {
        stage_lines(stages.drop_last()) + "  • "@ + stages.last().spec_describe() + "\n"@
    }
}

impl Default for PipelineProfile {
    fn default() -> (p: Self)
        ensures
            p.stages@.len() == 0,
            p.is_consistent(),
    {
        Self::new()
    }
}

/// Percentile statistics for a single stage across multiple pipeline runs.
///
/// The mean duration is `mean_ms + mean_remainder / runs` milliseconds.
#[derive(Debug, Clone)]
pub struct StageStats {
    /// Stage name these stats refer to
    pub name: String,
    /// Number of runs sampled
    pub runs: usize,
    /// Median duration in milliseconds (p50)
    pub p50_ms: u128,
    /// 99th percentile duration in milliseconds
    pub p99_ms: u128,
    /// Minimum duration observed (ms)
    pub min_ms: u128,
    /// Maximum duration observed (ms)
    pub max_ms: u128,
    /// Whole milliseconds of the mean duration
    pub mean_ms: u128,
    /// Remainder of the total duration after dividing by `runs`
    pub mean_remainder: u128,
    /// Median token count
    pub p50_tokens: usize,
    /// Median cost (billionths of a US dollar)
    pub p50_cost: u64,
}

/// `r` summarizes the duration, token and cost samples `d`, `t`, `c` of the
/// stage `name`.
pub open spec fn spec_stats_of(
    name: Seq<char>,
    d: Seq<int>,
    t: Seq<int>,
    c: Seq<int>,
    r: StageStats,
) -> bool {
    &&& r.name@ == name
    &&& r.runs == d.len()
    &&& if d.len() == 0 {
        &&& r.p50_ms == 0
        &&& r.p99_ms == 0
        &&& r.min_ms == 0
        &&& r.max_ms == 0
        &&& r.mean_ms == 0
        &&& r.mean_remainder == 0
        &&& r.p50_tokens == 0
        &&& r.p50_cost == 0
    } else {
        &&& r.p50_ms == spec_percentile(d.sort(), 50)
        &&& r.p99_ms == spec_percentile(d.sort(), 99)
        &&& r.min_ms == d.sort()[0]
        &&& r.max_ms == d.sort()[d.len() - 1]
        &&& r.mean_ms == sum_of(d) / (d.len() as int)
        &&& r.mean_remainder == sum_of(d) % (d.len() as int)
        &&& r.p50_tokens == spec_percentile(t.sort(), 50)
        &&& r.p50_cost == spec_percentile(c.sort(), 50)
    }
}

/// Token counts widened for sorting.
fn widen_tokens(v: &Vec<usize>) -> (out: Vec<u128>)
    ensures
        ints_of(out@) == v@.map_values(|x: usize| x as int),
{
    let mut out: Vec<u128> = Vec::new();
    for i in 0..v.len()
        invariant
            ints_of(out@) == v@.take(i as int).map_values(|x: usize| x as int),
    {
        let ghost before = out@;
        out.push(v[i] as u128);
        assert(ints_of(out@) =~= ints_of(before).push(v@[i as int] as int));
        assert(v@.take(i + 1).map_values(|x: usize| x as int) =~= v@.take(i as int).map_values(
            |x: usize| x as int,
        ).push(v@[i as int] as int));
    }
    assert(v@.take(v@.len() as int) =~= v@);
    out
}

/// Costs widened for sorting.
fn widen_costs(v: &Vec<u64>) -> (out: Vec<u128>)
    ensures
        ints_of(out@) == v@.map_values(|x: u64| x as int),
{
    let mut out: Vec<u128> = Vec::new();
    for i in 0..v.len()
        invariant
            ints_of(out@) == v@.take(i as int).map_values(|x: u64| x as int),
    {
        let ghost before = out@;
        out.push(v[i] as u128);
        assert(ints_of(out@) =~= ints_of(before).push(v@[i as int] as int));
        assert(v@.take(i + 1).map_values(|x: u64| x as int) =~= v@.take(i as int).map_values(
            |x: u64| x as int,
        ).push(v@[i as int] as int));
    }
    assert(v@.take(v@.len() as int) =~= v@);
    out
}

proof fn lemma_sum_bounded(s: Seq<int>, bound: int)
    requires
        forall|j: int| 0 <= j < s.len() ==> 0 <= #[trigger] s[j] <= bound,
    ensures
        0 <= sum_of(s) <= s.len() * bound,
    decreases s.len(),
{
    if s.len() > 0 {
        lemma_sum_bounded(s.drop_last(), bound);
        assert((s.len() - 1) * bound + bound == s.len() * bound) by (nonlinear_arith);
    }
}

/// Quotient and remainder of the sum of the samples by their number,
/// computed without forming the (possibly huge) sum.
fn mean_parts(d: &Vec<u128>) -> (qr: (u128, u128))
    requires
        d@.len() > 0,
    ensures
        qr.0 == sum_of(ints_of(d@)) / (d@.len() as int),
        qr.1 == sum_of(ints_of(d@)) % (d@.len() as int),
{
    let n = d.len();
    let nn: u128 = n as u128;
    let mut q: u128 = 0;
    let mut r: u128 = 0;
    let ghost vals = ints_of(d@);
    assert(vals.take(0) =~= Seq::<int>::empty());
    for i in 0..n
        invariant
            n == d@.len(),
            nn == n,
            n > 0,
            vals == ints_of(d@),
            q * nn + r == sum_of(vals.take(i as int)),
            r < nn,
    {
        let x = d[i];
        let a = x / nn;
        let b = x % nn;
        proof {
            assert(vals.take(i + 1) =~= vals.take(i as int).push(x as int));
            lemma_sum_push(vals.take(i as int), x as int);
            assert(forall|j: int| 0 <= j < vals.take(i + 1).len() ==> 0 <= #[trigger] vals.take(
                i + 1,
            )[j] <= u128::MAX);
            lemma_sum_bounded(vals.take(i + 1), u128::MAX as int);
            assert(x == a * nn + b) by (nonlinear_arith)
                requires
                    nn > 0,
                    a == x / nn,
                    b == x % nn,
            ;
        }
        let carry: u128 = if r + b >= nn { 1 } else { 0 };
        proof {
            let q2 = q + a + carry;
            let r2 = r + b - carry * nn;
            assert(q2 * nn + r2 == sum_of(vals.take(i + 1))) by (nonlinear_arith)
                requires
                    q * nn + r == sum_of(vals.take(i as int)),
                    sum_of(vals.take(i + 1)) == sum_of(vals.take(i as int)) + x,
                    x == a * nn + b,
                    q2 == q + a + carry,
                    r2 == r + b - carry * nn,
            ;
            assert(0 <= r2 < nn);
            assert(q2 <= u128::MAX) by (nonlinear_arith)
                requires
                    q2 * nn + r2 == sum_of(vals.take(i + 1)),
                    sum_of(vals.take(i + 1)) <= (i + 1) * u128::MAX,
                    i + 1 <= nn,
                    0 <= r2,
                    nn > 0,
            ;
        }
        q = q + a + carry;
        r = r + b - carry * nn;
    }
    proof {
        assert(vals.take(n as int) =~= vals);
        vstd::arithmetic::div_mod::lemma_fundamental_div_mod_converse(
            sum_of(vals),
            n as int,
            q as int,
            r as int,
        );
    }
    (q, r)
}

/// Every element of the sorted samples is one of the samples, so a bound on
/// the samples bounds the sorted ones too.
proof fn lemma_sorted_within(s: Seq<int>, bound: int)
    requires
        forall|i: int| 0 <= i < s.len() ==> 0 <= #[trigger] s[i] <= bound,
    ensures
        s.sort().len() == s.len(),
        forall|i: int| 0 <= i < s.sort().len() ==> 0 <= #[trigger] s.sort()[i] <= bound,
{
    broadcast use vstd::seq_lib::group_to_multiset_ensures;

    s.lemma_sort_ensures();
    assert(s.sort().to_multiset().len() == s.to_multiset().len());
    assert forall|i: int| 0 <= i < s.sort().len() implies 0 <= #[trigger] s.sort()[i] <= bound by {
        assert(s.sort().to_multiset().contains(s.sort()[i]));
        assert(s.to_multiset().contains(s.sort()[i]));
        assert(s.contains(s.sort()[i]));
    }
}

/// Samples known to fit a `usize`, narrowed back to it.
fn narrow_to_usize(v: &Vec<u128>) -> (out: Vec<usize>)
    requires
        forall|i: int| 0 <= i < v@.len() ==> #[trigger] v@[i] <= usize::MAX,
    ensures
        out@.map_values(|x: usize| x as int) == ints_of(v@),
{
    let mut out: Vec<usize> = Vec::new();
    for i in 0..v.len()
        invariant
            forall|k: int| 0 <= k < v@.len() ==> #[trigger] v@[k] <= usize::MAX,
            out@.map_values(|x: usize| x as int) == ints_of(v@.take(i as int)),
    {
        let ghost before = out@;
        out.push(v[i] as usize);
        assert(out@.map_values(|x: usize| x as int) =~= before.map_values(|x: usize| x as int).push(
            v@[i as int] as int,
        ));
        assert(ints_of(v@.take(i + 1)) =~= ints_of(v@.take(i as int)).push(v@[i as int] as int));
    }
    assert(v@.take(v@.len() as int) =~= v@);
    out
}

/// Samples known to fit a `u64`, narrowed back to it.
fn narrow_to_u64(v: &Vec<u128>) -> (out: Vec<u64>)
    requires
        forall|i: int| 0 <= i < v@.len() ==> #[trigger] v@[i] <= u64::MAX,
    ensures
        out@.map_values(|x: u64| x as int) == ints_of(v@),
{
    let mut out: Vec<u64> = Vec::new();
    for i in 0..v.len()
        invariant
            forall|k: int| 0 <= k < v@.len() ==> #[trigger] v@[k] <= u64::MAX,
            out@.map_values(|x: u64| x as int) == ints_of(v@.take(i as int)),
    {
        let ghost before = out@;
        out.push(v[i] as u64);
        assert(out@.map_values(|x: u64| x as int) =~= before.map_values(|x: u64| x as int).push(
            v@[i as int] as int,
        ));
        assert(ints_of(v@.take(i + 1)) =~= ints_of(v@.take(i as int)).push(v@[i as int] as int));
    }
    assert(v@.take(v@.len() as int) =~= v@);
    out
}

impl StageStats {
    /// Compute percentile statistics from the duration (ms), token and cost
    /// samples of a stage.
    pub fn from_durations(
        name: &str,
        durations_ms: &mut Vec<u128>,
        tokens: &mut Vec<usize>,
        costs: &mut Vec<u64>,
    ) -> (r: Self)
        ensures
            spec_stats_of(
                name@,
                ints_of(old(durations_ms)@),
                old(tokens)@.map_values(|x: usize| x as int),
                old(costs)@.map_values(|x: u64| x as int),
                r,
            ),
            old(durations_ms)@.len() == 0 ==> {
                &&& final(durations_ms)@ == old(durations_ms)@
                &&& final(tokens)@ == old(tokens)@
                &&& final(costs)@ == old(costs)@
            },
            old(durations_ms)@.len() > 0 ==> {
                &&& ints_of(final(durations_ms)@) == ints_of(old(durations_ms)@).sort()
                &&& final(tokens)@.map_values(|x: usize| x as int) == old(tokens)@.map_values(
                    |x: usize| x as int,
                ).sort()
                &&& final(costs)@.map_values(|x: u64| x as int) == old(costs)@.map_values(
                    |x: u64| x as int,
                ).sort()
            },
    {
        let runs = durations_ms.len();
        if runs == 0 {
            return StageStats {
                name: String::from_str(name),
                runs: 0,
                p50_ms: 0,
                p99_ms: 0,
                min_ms: 0,
                max_ms: 0,
                mean_ms: 0,
                mean_remainder: 0,
                p50_tokens: 0,
                p50_cost: 0,
            };
        }
        let sorted_d = sorted_copy(durations_ms);
        let sorted_t = sorted_copy(&widen_tokens(tokens));
        let sorted_c = sorted_copy(&widen_costs(costs));
        let (mean_ms, mean_remainder) = mean_parts(durations_ms);
        let p50_tokens = percentile(sorted_t.as_slice(), 50);
        let p50_cost = percentile(sorted_c.as_slice(), 50);
        proof {
            let t = tokens@.map_values(|x: usize| x as int);
            let c = costs@.map_values(|x: u64| x as int);
            t.lemma_sort_ensures();
            c.lemma_sort_ensures();
            broadcast use vstd::seq_lib::group_to_multiset_ensures;
            if t.len() > 0 {
                let i = crate::order_stats::percentile_index(t.len() as int, 50);
                assert(t.sort().to_multiset().contains(t.sort()[i]));
                assert(t.to_multiset().contains(t.sort()[i]));
                assert(t.contains(t.sort()[i]));
            }
            if c.len() > 0 {
                let i = crate::order_stats::percentile_index(c.len() as int, 50);
                assert(c.sort().to_multiset().contains(c.sort()[i]));
                assert(c.to_multiset().contains(c.sort()[i]));
                assert(c.contains(c.sort()[i]));
            }
        }
        let r = StageStats {
            name: String::from_str(name),
            runs,
            p50_ms: percentile(sorted_d.as_slice(), 50),
            p99_ms: percentile(sorted_d.as_slice(), 99),
            min_ms: sorted_d[0],
            max_ms: sorted_d[runs - 1],
            mean_ms,
            mean_remainder,
            p50_tokens: p50_tokens as usize,
            p50_cost: p50_cost as u64,
        };
        proof {
            lemma_sorted_within(tokens@.map_values(|x: usize| x as int), usize::MAX as int);
            lemma_sorted_within(costs@.map_values(|x: u64| x as int), u64::MAX as int);
            assert forall|i: int| 0 <= i < sorted_t@.len() implies #[trigger] sorted_t@[i]
                <= usize::MAX by {
                assert(ints_of(sorted_t@)[i] == sorted_t@[i] as int);
            }
            assert forall|i: int| 0 <= i < sorted_c@.len() implies #[trigger] sorted_c@[i]
                <= u64::MAX by {
                assert(ints_of(sorted_c@)[i] == sorted_c@[i] as int);
            }
        }
        *tokens = narrow_to_usize(&sorted_t);
        *costs = narrow_to_u64(&sorted_c);
        *durations_ms = sorted_d;
        r
    }
}

impl StageStats {
    /// The mean duration in tenths of a millisecond, rounded (0 without runs).
    pub open spec fn mean_tenths(&self) -> nat {
        if self.runs == 0 {
            0
        } else {
            (10 * self.mean_ms + round_half_up((10 * self.mean_remainder) as nat, self.runs as nat)) as nat
        }
    }

    /// Summary line, e.g. "vector_search (p50=42.0ms, p99=55.0ms, mean=44.3ms, n=10)".
    pub open spec fn spec_describe(&self) -> Seq<char> {
        self.name@ + " (p50="@ + spec_fixed((10 * self.p50_ms) as nat, 1) + "ms, p99="@ + spec_fixed(
            (10 * self.p99_ms) as nat,
            1,
        ) + "ms, mean="@ + spec_fixed(self.mean_tenths(), 1) + "ms, n="@ + spec_decimal(
            self.runs as nat,
        ) + ")"@
    }

    /// One-line summary of the statistics, durations with one decimal.
    pub fn describe(&self) -> (s: String)
        requires
            self.p50_ms <= u128::MAX / 10,
            self.p99_ms <= u128::MAX / 10,
            self.mean_ms < u128::MAX / 10,
            self.runs > 0 ==> self.mean_remainder < self.runs,
        ensures
            s@ == self.spec_describe(),
    {
        let mut s = self.name.clone();
        s.append(" (p50=");
        let a = fixed(10 * self.p50_ms, 1);
        s.append(a.as_str());
        s.append("ms, p99=");
        let b = fixed(10 * self.p99_ms, 1);
        s.append(b.as_str());
        s.append("ms, mean=");
        let tenths: u128 = if self.runs == 0 {
            0
        } else {
            let frac = div_round_half_up(10 * self.mean_remainder, self.runs as u128);
            assert(frac <= 10) by (nonlinear_arith)
                requires
                    frac == (2 * (10 * self.mean_remainder) + self.runs) / (2 * self.runs),
                    self.mean_remainder < self.runs,
            ;
            10 * self.mean_ms + frac
        };
        let c = fixed(tenths, 1);
        s.append(c.as_str());
        s.append("ms, n=");
        let d = decimal_usize(self.runs);
        s.append(d.as_str());
        s.append(")");
        s
    }
}

/// The samples of the stage `name` across runs: from each profile, its first
/// stage with that name (profiles without one contribute nothing).
pub open spec fn stage_samples(profiles: Seq<PipelineProfile>, name: Seq<char>) -> Seq<Stage> {
    profiles.filter_map(|p: PipelineProfile| spec_find(p.stages@, name))
}

/// `stats` holds, for each stage of the first profile in order, the statistics
/// of that stage's samples across all profiles.
pub open spec fn spec_stats_for(profiles: Seq<PipelineProfile>, stats: Seq<StageStats>) -> bool {
    if profiles.len() == 0 {
        stats.len() == 0
    } else {
        &&& stats.len() == profiles[0].stages@.len()
        &&& forall|i: int|
            0 <= i < stats.len() ==> {
                let name = #[trigger] profiles[0].stages@[i].name@;
                let samples = stage_samples(profiles, name);
                spec_stats_of(
                    name,
                    durations_of(samples),
                    tokens_of(samples),
                    costs_of(samples),
                    stats[i],
                )
            }
    }
}

/// Embedding-stage durations (ms) of the simulated runs, by run number modulo ten.
pub open spec fn mock_embedding_ms() -> Seq<int> {
    seq![6, 8, 7, 9, 8, 7, 10, 8, 7, 9]
}

/// Vector-search durations (ms) of the simulated runs, by run number modulo ten.
pub open spec fn mock_search_ms() -> Seq<int> {
    seq![20, 25, 22, 28, 24, 21, 30, 26, 23, 25]
}

/// Generation durations (ms) of the simulated runs, by run number modulo ten.
pub open spec fn mock_generation_ms() -> Seq<int> {
    seq![400, 450, 420, 480, 440, 410, 500, 460, 430, 450]
}

/// `s` is the stage `name` with the given duration, tokens and cost, and no metadata.
pub open spec fn is_stage(s: Stage, name: Seq<char>, ms: int, tokens: int, cost: int) -> bool {
    &&& s.name@ == name
    &&& s.duration_ms == ms
    &&& s.token_count == tokens
    &&& s.cost == cost
    &&& s.metadata@.len() == 0
}

/// The four stages of simulated run number `run`: embedding, search, context
/// assembly and generation (generation costs 0.0048 USD).
pub open spec fn is_mock_run(stages: Seq<Stage>, run: int) -> bool {
    let i = run % 10;
    &&& stages.len() == 4
    &&& is_stage(stages[0], "query_embedding"@, mock_embedding_ms()[i], 6, 0)
    &&& is_stage(stages[1], "vector_search"@, mock_search_ms()[i], 0, 0)
    &&& is_stage(stages[2], "context_assembly"@, 3, 1200, 0)
    &&& is_stage(stages[3], "generation"@, mock_generation_ms()[i], 320, 4_800_000)
}

/// Pushing a stage adds its duration, tokens and cost to the sums.
proof fn lemma_totals_after_push(stages: Seq<Stage>, st: Stage)
    ensures
        sum_of(durations_of(stages.push(st))) == sum_of(durations_of(stages)) + st.duration_ms,
        sum_of(tokens_of(stages.push(st))) == sum_of(tokens_of(stages)) + st.token_count,
        sum_of(costs_of(stages.push(st))) == sum_of(costs_of(stages)) + st.cost,
{
    assert(durations_of(stages.push(st)) =~= durations_of(stages).push(st.duration_ms as int));
    assert(tokens_of(stages.push(st)) =~= tokens_of(stages).push(st.token_count as int));
    assert(costs_of(stages.push(st)) =~= costs_of(stages).push(st.cost as int));
    lemma_sum_push(durations_of(stages), st.duration_ms as int);
    lemma_sum_push(tokens_of(stages), st.token_count as int);
    lemma_sum_push(costs_of(stages), st.cost as int);
}

/// Embedding, search and generation durations (ms) of simulated run `run`.
fn mock_durations(run: usize) -> (d: (u128, u128, u128))
    ensures
        d.0 == mock_embedding_ms()[(run % 10) as int],
        d.1 == mock_search_ms()[(run % 10) as int],
        d.2 == mock_generation_ms()[(run % 10) as int],
{
    match run % 10 {
        0 => (6, 20, 400),
        1 => (8, 25, 450),
        2 => (7, 22, 420),
        3 => (9, 28, 480),
        4 => (8, 24, 440),
        5 => (7, 21, 410),
        6 => (10, 30, 500),
        7 => (8, 26, 460),
        8 => (7, 23, 430),
        _ => (9, 25, 450),
    }
}

impl PipelineProfile {
    /// Fill an empty profile with the stages of simulated run number `run`.
    pub fn add_mock_stages(&mut self, run: usize)
        requires
            old(self).stages@.len() == 0,
        ensures
            final(self).is_consistent(),
            is_mock_run(final(self).stages@, run as int),
    {
        let (emb, search, generation) = mock_durations(run);
        let s0 = Stage::new("query_embedding").with_duration(emb).with_tokens(6);
        proof {
            assert(durations_of(self.stages@).len() == 0);
            assert(tokens_of(self.stages@).len() == 0);
            assert(costs_of(self.stages@).len() == 0);
            lemma_totals_after_push(self.stages@, s0);
        }
        self.add_stage(s0);
        let s1 = Stage::new("vector_search").with_duration(search);
        proof {
            lemma_totals_after_push(self.stages@, s1);
        }
        self.add_stage(s1);
        let s2 = Stage::new("context_assembly").with_duration(3).with_tokens(1200);
        proof {
            lemma_totals_after_push(self.stages@, s2);
        }
        self.add_stage(s2);
        let s3 = Stage::new("generation").with_duration(generation).with_tokens(320).with_cost(
            4_800_000,
        );
        proof {
            lemma_totals_after_push(self.stages@, s3);
        }
        self.add_stage(s3);
    }

    /// The profile of simulated run number `run`.
    pub fn mock_run(run: usize) -> (p: Self)
        ensures
            p.is_consistent(),
            is_mock_run(p.stages@, run as int),
    {
        let mut p = Self::new();
        p.add_mock_stages(run);
        p
    }
}

/// Profiler that runs a pipeline multiple times and computes percentile stats.
pub struct MultiRunProfiler {
    /// Number of runs to execute
    pub runs: usize,
    /// All completed profiles
    pub profiles: Vec<PipelineProfile>,
}

impl MultiRunProfiler {
    /// Create a new multi-run profiler.
    pub fn new(runs: usize) -> (p: Self)
        ensures
            p.runs == runs,
            p.profiles@.len() == 0,
    {
        MultiRunProfiler { runs, profiles: Vec::new() }
    }

    /// Execute a single run: `f` receives an empty [`PipelineProfile`] to
    /// populate, which is then recorded.
    pub fn run<F: FnOnce(&mut PipelineProfile)>(&mut self, f: F)
        requires
            forall|p: &mut PipelineProfile| #[trigger] f.requires((p,)),
        ensures
            final(self).runs == old(self).runs,
            final(self).profiles@.len() == old(self).profiles@.len() + 1,
            final(self).profiles@.take(old(self).profiles@.len() as int) == old(self).profiles@,
            exists|q: &mut PipelineProfile|
                {
                    &&& (*q).stages@.len() == 0
                    &&& (*q).total_duration_ms == 0
                    &&& (*q).total_tokens == 0
                    &&& (*q).total_cost == 0
                    &&& f.ensures((q,), ())
                    &&& *final(q) == final(self).profiles@.last()
                },
    {
        let mut profile = PipelineProfile::new();
        f(&mut profile);
        self.profiles.push(profile);
    }

    /// Record a completed profile.
    pub fn record(&mut self, profile: PipelineProfile)
        ensures
            final(self).runs == old(self).runs,
            final(self).profiles@ == old(self).profiles@.push(profile),
    {
        self.profiles.push(profile);
    }

    /// The duration, token and cost samples of the stage `name`.
    fn collect_samples(&self, name: &str) -> (r: (Vec<u128>, Vec<usize>, Vec<u64>))
        ensures
            ints_of(r.0@) == durations_of(stage_samples(self.profiles@, name@)),
            r.1@.map_values(|x: usize| x as int) == tokens_of(stage_samples(self.profiles@, name@)),
            r.2@.map_values(|x: u64| x as int) == costs_of(stage_samples(self.profiles@, name@)),
    {
        let mut durations: Vec<u128> = Vec::new();
        let mut tokens: Vec<usize> = Vec::new();
        let mut costs: Vec<u64> = Vec::new();
        let n = self.profiles.len();
        let ghost f = |p: PipelineProfile| spec_find(p.stages@, name@);
        assert(self.profiles@.take(0).filter_map(f) =~= Seq::<Stage>::empty());
        for j in 0..n
            invariant
                n == self.profiles@.len(),
                f == (|p: PipelineProfile| spec_find(p.stages@, name@)),
                ints_of(durations@) == durations_of(self.profiles@.take(j as int).filter_map(f)),
                tokens@.map_values(|x: usize| x as int) == tokens_of(
                    self.profiles@.take(j as int).filter_map(f),
                ),
                costs@.map_values(|x: u64| x as int) == costs_of(
                    self.profiles@.take(j as int).filter_map(f),
                ),
        {
            let ghost prev = self.profiles@.take(j as int).filter_map(f);
            assert(self.profiles@.take(j + 1).drop_last() =~= self.profiles@.take(j as int));
            assert(self.profiles@.take(j + 1).last() == self.profiles@[j as int]);
            match self.profiles[j].find(name) {
                Some(stage) => {
                    let ghost bd = durations@;
                    let ghost bt = tokens@;
                    let ghost bc = costs@;
                    durations.push(stage.duration_ms);
                    tokens.push(stage.token_count);
                    costs.push(stage.cost);
                    proof {
                        let cur = self.profiles@.take(j + 1).filter_map(f);
                        assert(cur =~= prev + seq![*stage]);
                        assert(ints_of(durations@) =~= ints_of(bd).push(stage.duration_ms as int));
                        assert(durations_of(cur) =~= durations_of(prev).push(stage.duration_ms as int));
                        assert(ints_of(durations@) =~= durations_of(cur));
                        assert(tokens@.map_values(|x: usize| x as int) =~= bt.map_values(|x: usize| x as int).push(stage.token_count as int));
                        assert(tokens_of(cur) =~= tokens_of(prev).push(stage.token_count as int));
                        assert(tokens@.map_values(|x: usize| x as int) =~= tokens_of(cur));
                        assert(costs@.map_values(|x: u64| x as int) =~= bc.map_values(|x: u64| x as int).push(stage.cost as int));
                        assert(costs_of(cur) =~= costs_of(prev).push(stage.cost as int));
                        assert(costs@.map_values(|x: u64| x as int) =~= costs_of(cur));
                    }
                },
                None => {
                    assert(self.profiles@.take(j + 1).filter_map(f) =~= prev);
                },
            }
        }
        assert(self.profiles@.take(n as int) =~= self.profiles@);
        (durations, tokens, costs)
    }

    /// Compute per-stage percentile statistics across all runs, for the
    /// stages of the first run in their order.
    pub fn compute_stats(&self) -> (stats: Vec<StageStats>)
        ensures
            spec_stats_for(self.profiles@, stats@),
    {
        let mut stats: Vec<StageStats> = Vec::new();
        if self.profiles.len() == 0 {
            return stats;
        }
        let first = &self.profiles[0];
        let count = first.stages.len();
        for i in 0..count
            invariant
                self.profiles@.len() > 0,
                *first == self.profiles@[0],
                count == first.stages@.len(),
                stats@.len() == i,
                forall|k: int|
                    0 <= k < i ==> {
                        let name = #[trigger] self.profiles@[0].stages@[k].name@;
                        let samples = stage_samples(self.profiles@, name);
                        spec_stats_of(
                            name,
                            durations_of(samples),
                            tokens_of(samples),
                            costs_of(samples),
                            stats@[k],
                        )
                    },
        {
            let name = first.stages[i].name.as_str();
            let (durations, tokens, costs) = self.collect_samples(name);
            let mut durations = durations;
            let mut tokens = tokens;
            let mut costs = costs;
            let st = StageStats::from_durations(name, &mut durations, &mut tokens, &mut costs);
            stats.push(st);
        }
        stats
    }
}

/// Stage statistics are ordered: the minimum is at most the median, the
/// median at most the 99th percentile, and that at most the maximum; with a
/// single run all four equal its duration.
pub proof fn lemma_stats_ordered(
    name: Seq<char>,
    d: Seq<int>,
    t: Seq<int>,
    c: Seq<int>,
    r: StageStats,
)
    requires
        spec_stats_of(name, d, t, c, r),
        d.len() > 0,
    ensures
        r.min_ms <= r.p50_ms <= r.p99_ms <= r.max_ms,
        d.len() == 1 ==> r.min_ms == r.p50_ms && r.p50_ms == r.p99_ms && r.p99_ms == r.max_ms
            && r.max_ms == d[0],
{
    d.lemma_sort_ensures();
    let s = d.sort();
    assert(s.len() == d.len()) by {
        broadcast use vstd::seq_lib::group_to_multiset_ensures;

        assert(s.to_multiset().len() == d.to_multiset().len());
    }
    crate::order_stats::lemma_percentiles_ordered(s, 50, 99);
    if d.len() == 1 {
        broadcast use vstd::seq_lib::group_to_multiset_ensures;

        assert(d.contains(s[0])) by {
            assert(s.to_multiset().contains(s[0]));
        }
        assert(s[0] == d[0]);
    }
}

} // verus!
