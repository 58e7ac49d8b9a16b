//! Architecture-specific metric weights and the weighted health score.
//!
//! Weights are fixed-point values in basis points (`10_000` is `1.0`);
//! component scores passed to [`MetricWeights::calculate_score`] are on the
//! 0-100 scale in hundredths of a point (`8_000` is `80.0`).

use vstd::prelude::*;

use crate::config::MetricsConfig;
use crate::types::RagArchitecture;

verus! {

/// Largest weight or component score magnitude: a quarter of the `i64`
/// range, so that the sum of three weights still fits the `i64` fields.
pub const MAX_MAGNITUDE: i64 = 0x2000_0000_0000_0000;

/// Metric weights for health score calculation (basis points).
#[derive(Debug, Clone, Copy, PartialEq, Eq, Structural)]
pub struct MetricWeights {
    /// Weight for retrieval relevance (similarity scores, top-k precision)
    pub relevance: i64,
    /// Weight for context efficiency (token waste, packing ratio)
    pub efficiency: i64,
    /// Weight for generation grounding (hallucination index, source attribution)
    pub grounding: i64,
}

/// `v` lies within the supported magnitude.
pub open spec fn in_range(v: int) -> bool {
    -MAX_MAGNITUDE <= v <= MAX_MAGNITUDE
}

/// Floor of `a / b` for a positive `b`.
pub open spec fn floor_div(a: int, b: int) -> int
    recommends
        b > 0,
{
    a / b
}

/// `a / b` rounded to the nearest integer, halves away from zero (`b > 0`).
pub open spec fn round_div(a: int, b: int) -> int
    recommends
        b > 0,
{
    if a >= 0 {
        (2 * a + b) / (2 * b)
    } else {
        -((2 * (-a) + b) / (2 * b))
    }
}

/// Default weights of each architecture.
pub open spec fn spec_weights_for(a: RagArchitecture) -> MetricWeights {
    match a {
        RagArchitecture::Naive => MetricWeights { relevance: 3000, efficiency: 4000, grounding: 3000 },
        RagArchitecture::Advanced => MetricWeights {
            relevance: 4500,
            efficiency: 3000,
            grounding: 2500,
        },
        RagArchitecture::Modular => MetricWeights {
            relevance: 3500,
            efficiency: 3500,
            grounding: 3000,
        },
        RagArchitecture::Agentic => MetricWeights {
            relevance: 2500,
            efficiency: 3000,
            grounding: 4500,
        },
        RagArchitecture::Graph => MetricWeights { relevance: 4500, efficiency: 3000, grounding: 2500 },
        RagArchitecture::Hyde => MetricWeights { relevance: 4000, efficiency: 3500, grounding: 2500 },
        RagArchitecture::Multimodal => MetricWeights {
            relevance: 3000,
            efficiency: 3000,
            grounding: 4000,
        },
    }
}

/// The weights used when the configured ones do not sum to a positive value.
pub open spec fn fallback_weights() -> MetricWeights {
    MetricWeights { relevance: 3300, efficiency: 3400, grounding: 3300 }
}

/// Place of the first of three remainders in descending order, earlier
/// entries first among equal ones.
pub open spec fn rank_first(ra: int, rb: int, rc: int) -> int {
    (if rb > ra {
        1int
    } else {
        0
    }) + (if rc > ra {
        1int
    } else {
        0
    })
}

/// Place of the second of three remainders in the same order.
pub open spec fn rank_second(ra: int, rb: int, rc: int) -> int {
    (if ra >= rb {
        1int
    } else {
        0
    }) + (if rc > rb {
        1int
    } else {
        0
    })
}

/// Place of the third of three remainders in the same order.
pub open spec fn rank_third(ra: int, rb: int, rc: int) -> int {
    (if ra >= rc {
        1int
    } else {
        0
    }) + (if rb >= rc {
        1int
    } else {
        0
    })
}

impl MetricWeights {
    /// All three weights lie within the supported magnitude.
    pub open spec fn in_range(&self) -> bool {
        in_range(self.relevance as int) && in_range(self.efficiency as int) && in_range(
            self.grounding as int,
        )
    }

    /// Sum of the three weights.
    pub open spec fn total(&self) -> int {
        self.relevance + self.efficiency + self.grounding
    }

    /// Weights scaled so they sum to exactly one (10000 basis points): each
    /// share rounded down, then the basis points that rounding lost given
    /// one each to the shares with the largest remainders (the earlier
    /// weight first among equal remainders); the fallback weights when the
    /// sum is not positive.
    pub open spec fn spec_normalized(&self) -> MetricWeights {
        let sum = self.total();
        if sum <= 0 {
            fallback_weights()
        } else {
            let (a, b, c) = (self.relevance * 10000, self.efficiency * 10000, self.grounding * 10000);
            let d = 10000 - (floor_div(a, sum) + floor_div(b, sum) + floor_div(c, sum));
            let (ra, rb, rc) = (a % sum, b % sum, c % sum);
            MetricWeights {
                relevance: (floor_div(a, sum) + if rank_first(ra, rb, rc) < d {
                    1int
                } else {
                    0
                }) as i64,
                efficiency: (floor_div(b, sum) + if rank_second(ra, rb, rc) < d {
                    1int
                } else {
                    0
                }) as i64,
                grounding: (floor_div(c, sum) + if rank_third(ra, rb, rc) < d {
                    1int
                } else {
                    0
                }) as i64,
            }
        }
    }

    /// The weights the score uses: these weights when they sum to a positive
    /// value, otherwise the fallback weights.
    pub open spec fn effective(&self) -> MetricWeights {
        if self.total() <= 0 {
            fallback_weights()
        } else {
            *self
        }
    }

    /// Weighted score (whole points, rounded half away from zero) of three
    /// component scores given in hundredths of a point.
    pub open spec fn spec_score(&self, r: int, e: int, g: int) -> int {
        let w = self.effective();
        round_div(r * w.relevance + e * w.efficiency + g * w.grounding, 100 * w.total())
    }

    /// Whether a weight exceeds 0.33 of the (effective) total.
    pub open spec fn emphasizes(&self, x: int) -> bool {
        100 * x > 33 * self.effective().total()
    }

    /// The emphasized metric names, in the order relevance, efficiency, grounding.
    pub open spec fn spec_emphasized(&self) -> Seq<Seq<char>> {
        let w = self.effective();
        (if w.emphasizes(w.relevance as int) {
            seq!["relevance"@]
        } else {
            Seq::empty()
        }) + (if w.emphasizes(w.efficiency as int) {
            seq!["efficiency"@]
        } else {
            Seq::empty()
        }) + (if w.emphasizes(w.grounding as int) {
            seq!["grounding"@]
        } else {
            Seq::empty()
        })
    }

    /// Default weights for a given RAG architecture.
    pub fn for_architecture(arch: &RagArchitecture) -> (w: Self)
        ensures
            w == spec_weights_for(*arch),
    {
        match arch {
            // Context recall + faithfulness are the core metrics
            RagArchitecture::Naive => MetricWeights {
                relevance: 3000,
                efficiency: 4000,
                grounding: 3000,
            },
            // Re-ranking precision and hybrid search quality dominate
            RagArchitecture::Advanced => MetricWeights {
                relevance: 4500,
                efficiency: 3000,
                grounding: 2500,
            },
            // Balanced: all stages are independently validated
            RagArchitecture::Modular => MetricWeights {
                relevance: 3500,
                efficiency: 3500,
                grounding: 3000,
            },
            // Tool-use accuracy and routing correctness (grounding)
            RagArchitecture::Agentic => MetricWeights {
                relevance: 2500,
                efficiency: 3000,
                grounding: 4500,
            },
            // Entity coverage and relationship traversal (relevance)
            RagArchitecture::Graph => MetricWeights {
                relevance: 4500,
                efficiency: 3000,
                grounding: 2500,
            },
            // Embedding drift + retrieval precision lift
            RagArchitecture::Hyde => MetricWeights {
                relevance: 4000,
                efficiency: 3500,
                grounding: 2500,
            },
            // Cross-modal alignment quality (grounding)
            RagArchitecture::Multimodal => MetricWeights {
                relevance: 3000,
                efficiency: 3000,
                grounding: 4000,
            },
        }
    }

    /// Resolve weights: use config override if provided, otherwise architecture defaults.
    pub fn resolve(arch: &RagArchitecture, config: &MetricsConfig) -> (w: Self)
        ensures
            config.override_weights ==> w == (MetricWeights {
                relevance: config.relevance_weight,
                efficiency: config.efficiency_weight,
                grounding: config.grounding_weight,
            }),
            !config.override_weights ==> w == spec_weights_for(*arch),
    {
        let defaults = Self::for_architecture(arch);
        if config.override_weights {
            MetricWeights {
                relevance: config.relevance_weight,
                efficiency: config.efficiency_weight,
                grounding: config.grounding_weight,
            }
        } else {
            defaults
        }
    }

    /// Normalize weights so they sum to one (10_000 basis points).
    pub fn normalized(self) -> (n: Self)
        requires
            self.in_range(),
        ensures
            n == self.spec_normalized(),
    {
        let sum: i64 = self.relevance + self.efficiency + self.grounding;
        if sum <= 0 {
            return MetricWeights { relevance: 3300, efficiency: 3400, grounding: 3300 };
        }
        let s = sum as i128;
        let a = self.relevance as i128 * 10000;
        let b = self.efficiency as i128 * 10000;
        let c = self.grounding as i128 * 10000;
        let qa = div_floor(a, s);
        let qb = div_floor(b, s);
        let qc = div_floor(c, s);
        proof {
            lemma_floor_split(a as int, b as int, c as int, s as int);
        }
        let ra = a - qa * s;
        let rb = b - qb * s;
        let rc = c - qc * s;
        let d = 10000 - (qa + qb + qc);
        let rank_a: i128 = (if rb > ra { 1 } else { 0 }) + (if rc > ra { 1 } else { 0 });
        let rank_b: i128 = (if ra >= rb { 1 } else { 0 }) + (if rc > rb { 1 } else { 0 });
        let rank_c: i128 = (if ra >= rc { 1 } else { 0 }) + (if rb >= rc { 1 } else { 0 });
        let na = qa + if rank_a < d { 1 } else { 0 };
        let nb = qb + if rank_b < d { 1 } else { 0 };
        let nc = qc + if rank_c < d { 1 } else { 0 };
        MetricWeights { relevance: na as i64, efficiency: nb as i64, grounding: nc as i64 }
    }

    /// Calculate the weighted health score (whole points) from three component
    /// scores, each in hundredths of a point on the 0-100 scale.
    pub fn calculate_score(&self, relevance: i64, efficiency: i64, grounding: i64) -> (s: i64)
        requires
            self.in_range(),
            in_range(relevance as int),
            in_range(efficiency as int),
            in_range(grounding as int),
            i64::MIN <= self.spec_score(relevance as int, efficiency as int, grounding as int)
                <= i64::MAX,
        ensures
            s == self.spec_score(relevance as int, efficiency as int, grounding as int),
    {
        let w = self.effective_weights();
        proof {
            lemma_product_bounded(relevance as int, w.relevance as int);
            lemma_product_bounded(efficiency as int, w.efficiency as int);
            lemma_product_bounded(grounding as int, w.grounding as int);
        }
        let num: i128 = relevance as i128 * w.relevance as i128 + efficiency as i128
            * w.efficiency as i128 + grounding as i128 * w.grounding as i128;
        let den: i128 = 100 * (w.relevance as i128 + w.efficiency as i128 + w.grounding as i128);
        let r = div_round(num, den);
        r as i64
    }

    /// These weights when their sum is positive, otherwise the fallback weights.
    pub fn effective_weights(&self) -> (w: Self)
        requires
            self.in_range(),
        ensures
            w == self.effective(),
            w.in_range(),
            w.total() > 0,
    {
        if self.relevance + self.efficiency + self.grounding <= 0 {
            MetricWeights { relevance: 3300, efficiency: 3400, grounding: 3300 }
        } else {
            *self
        }
    }

    /// Return the metric names that are emphasized (weight above 0.33 of the total).
    pub fn emphasized_metrics(&self) -> (names: Vec<&'static str>)
        requires
            self.in_range(),
        ensures
            names@.map_values(|s: &'static str| s@) == self.spec_emphasized(),
    {
        let w = self.effective_weights();
        let total: i128 = w.relevance as i128 + w.efficiency as i128 + w.grounding as i128;
        let mut emphasized: Vec<&'static str> = Vec::new();
        if 100 * (w.relevance as i128) > 33 * total {
            emphasized.push("relevance");
        }
        if 100 * (w.efficiency as i128) > 33 * total {
            emphasized.push("efficiency");
        }
        if 100 * (w.grounding as i128) > 33 * total {
            emphasized.push("grounding");
        }
        assert(emphasized@.map_values(|s: &'static str| s@) =~= self.spec_emphasized());
        emphasized
    }
}

impl Default for MetricWeights {
    fn default() -> (w: Self)
        ensures
            w == spec_weights_for(RagArchitecture::Naive),
    {
        Self::for_architecture(&RagArchitecture::Naive)
    }
}

/// Floor division by a positive divisor.
fn div_floor(a: i128, b: i128) -> (q: i128)
    requires
        b > 0,
        b <= 0x2000_0000_0000_0000_0000_0000_0000_0000,
        -0x2000_0000_0000_0000_0000_0000_0000_0000 <= a <= 0x2000_0000_0000_0000_0000_0000_0000_0000,
    ensures
        q == floor_div(a as int, b as int),
{
    if a >= 0 {
        a / b
    } else {
        let m: i128 = -a;
        let q: i128 = (m + b - 1) / b;
        proof {
            lemma_floor_of_negative(a as int, b as int);
        }
        -q
    }
}

/// Division rounded half away from zero, by a positive divisor.
pub(crate) fn div_round(a: i128, b: i128) -> (q: i128)
    requires
        0 < b <= 0x2000_0000_0000_0000_0000_0000_0000_0000,
        -0x2000_0000_0000_0000_0000_0000_0000_0000 <= a <= 0x2000_0000_0000_0000_0000_0000_0000_0000,
    ensures
        q == round_div(a as int, b as int),
{
    if a >= 0 {
        (2 * a + b) / (2 * b)
    } else {
        -((2 * (-a) + b) / (2 * b))
    }
}

proof fn lemma_product_bounded(a: int, b: int)
    requires
        in_range(a),
        in_range(b),
    ensures
        -0x400_0000_0000_0000_0000_0000_0000_0000 <= a * b <= 0x400_0000_0000_0000_0000_0000_0000_0000,
{
    assert(-0x400_0000_0000_0000_0000_0000_0000_0000 <= a * b <= 0x400_0000_0000_0000_0000_0000_0000_0000)
        by (nonlinear_arith)
        requires
            -0x2000_0000_0000_0000 <= a <= 0x2000_0000_0000_0000,
            -0x2000_0000_0000_0000 <= b <= 0x2000_0000_0000_0000,
    ;
}

proof fn lemma_floor_of_negative(a: int, b: int)
    requires
        a < 0,
        b > 0,
    ensures
        a / b == -((-a + b - 1) / b),
{
    let q = (-a + b - 1) / b;
    let r = (-a + b - 1) % b;
    assert(-a + b - 1 == q * b + r) by (nonlinear_arith)
        requires
            b > 0,
            q == (-a + b - 1) / b,
            r == (-a + b - 1) % b,
    ;
    assert(0 <= r < b);
    // a == -q * b + (b - 1 - r), with 0 <= b - 1 - r < b
    assert(a == (-q) * b + (b - 1 - r)) by (nonlinear_arith)
        requires
            -a + b - 1 == q * b + r,
    ;
    vstd::arithmetic::div_mod::lemma_fundamental_div_mod_converse(a, b, -q, b - 1 - r);
}

/// Every architecture's default weights lie in `[0, 1]` and sum to one.
pub proof fn lemma_default_weights_sum_to_one(a: RagArchitecture)
    ensures
        spec_weights_for(a).total() == 10000,
        0 <= spec_weights_for(a).relevance <= 10000,
        0 <= spec_weights_for(a).efficiency <= 10000,
        0 <= spec_weights_for(a).grounding <= 10000,
{
}

/// Each architecture's default weights lean the way its documentation
/// describes: Naive slightly toward efficiency, Advanced and Graph toward
/// relevance, Modular balanced between relevance and efficiency, Agentic and
/// Multimodal toward grounding, HyDE toward relevance and efficiency; the
/// emphasized metrics (weights above 0.33) follow.
pub proof fn lemma_default_weights_emphasis(a: RagArchitecture)
    ensures
        ({
            let w = spec_weights_for(a);
            match a {
                RagArchitecture::Naive => w.efficiency > w.relevance && w.relevance == w.grounding
                    && w.spec_emphasized() == seq!["efficiency"@],
                RagArchitecture::Advanced => w.relevance > w.efficiency && w.efficiency
                    > w.grounding && w.spec_emphasized() == seq!["relevance"@],
                RagArchitecture::Modular => w.relevance == w.efficiency && w.efficiency
                    > w.grounding && w.spec_emphasized() == seq!["relevance"@, "efficiency"@],
                RagArchitecture::Agentic => w.grounding > w.efficiency && w.efficiency
                    > w.relevance && w.spec_emphasized() == seq!["grounding"@],
                RagArchitecture::Graph => w.relevance > w.efficiency && w.efficiency
                    > w.grounding && w.spec_emphasized() == seq!["relevance"@],
                RagArchitecture::Hyde => w.relevance > w.efficiency && w.efficiency
                    > w.grounding && w.spec_emphasized() == seq!["relevance"@, "efficiency"@],
                RagArchitecture::Multimodal => w.grounding > w.relevance && w.relevance
                    == w.efficiency && w.spec_emphasized() == seq!["grounding"@],
            }
        }),
{
    let w = spec_weights_for(a);
    let r: Seq<Seq<char>> = seq!["relevance"@];
    let e: Seq<Seq<char>> = seq!["efficiency"@];
    let g: Seq<Seq<char>> = seq!["grounding"@];
    let none = Seq::<Seq<char>>::empty();
    match a {
        RagArchitecture::Naive => assert(none + e + none =~= e),
        RagArchitecture::Advanced => assert(r + none + none =~= r),
        RagArchitecture::Modular => assert(r + e + none =~= seq!["relevance"@, "efficiency"@]),
        RagArchitecture::Agentic => assert(none + none + g =~= g),
        RagArchitecture::Graph => assert(r + none + none =~= r),
        RagArchitecture::Hyde => assert(r + e + none =~= seq!["relevance"@, "efficiency"@]),
        RagArchitecture::Multimodal => assert(none + none + g =~= g),
    }
}

/// The default weights are the documented fractions: Naive 0.30 / 0.40 /
/// 0.30, Advanced 0.45 / 0.30 / 0.25, Modular 0.35 / 0.35 / 0.30, Agentic
/// 0.25 / 0.30 / 0.45, Graph 0.45 / 0.30 / 0.25, HyDE 0.40 / 0.35 / 0.25,
/// Multimodal 0.30 / 0.30 / 0.40 (relevance / efficiency / grounding).
pub proof fn lemma_default_weights_documented(a: RagArchitecture)
    ensures
        ({
            let w = spec_weights_for(a);
            let (r, e, g) = (w.relevance as int, w.efficiency as int, w.grounding as int);
            match a {
                RagArchitecture::Naive => r == 3000 && e == 4000 && g == 3000,
                RagArchitecture::Advanced => r == 4500 && e == 3000 && g == 2500,
                RagArchitecture::Modular => r == 3500 && e == 3500 && g == 3000,
                RagArchitecture::Agentic => r == 2500 && e == 3000 && g == 4500,
                RagArchitecture::Graph => r == 4500 && e == 3000 && g == 2500,
                RagArchitecture::Hyde => r == 4000 && e == 3500 && g == 2500,
                RagArchitecture::Multimodal => r == 3000 && e == 3000 && g == 4000,
            }
        }),
{
}

/// Weights that already sum to one are left unchanged by normalization.
pub proof fn lemma_normalized_fixes_unit_weights(w: MetricWeights)
    requires
        w.total() == 10000,
    ensures
        w.spec_normalized() == w,
{
    vstd::arithmetic::div_mod::lemma_div_multiples_vanish(w.relevance as int, 10000);
    vstd::arithmetic::div_mod::lemma_div_multiples_vanish(w.efficiency as int, 10000);
    vstd::arithmetic::div_mod::lemma_div_multiples_vanish(w.grounding as int, 10000);
    assert((w.relevance * 10000) == 10000 * w.relevance);
    assert((w.efficiency * 10000) == 10000 * w.efficiency);
    assert((w.grounding * 10000) == 10000 * w.grounding);
}

/// Flooring three shares of a positive sum loses between 0 and 2 units, each
/// remainder lies below the sum, and the shares stay within the weights'
/// magnitude.
proof fn lemma_floor_split(a: int, b: int, c: int, s: int)
    requires
        s > 0,
        a + b + c == 10000 * s,
        -0x2000_0000_0000_0000 * 10000 <= a <= 0x2000_0000_0000_0000 * 10000,
        -0x2000_0000_0000_0000 * 10000 <= b <= 0x2000_0000_0000_0000 * 10000,
        -0x2000_0000_0000_0000 * 10000 <= c <= 0x2000_0000_0000_0000 * 10000,
    ensures
        a - s * (a / s) == a % s,
        b - s * (b / s) == b % s,
        c - s * (c / s) == c % s,
        0 <= a % s < s,
        0 <= b % s < s,
        0 <= c % s < s,
        0 <= 10000 - (a / s + b / s + c / s) <= 2,
        -0x2000_0000_0000_0000 * 10000 <= a / s <= 0x2000_0000_0000_0000 * 10000,
        -0x2000_0000_0000_0000 * 10000 <= b / s <= 0x2000_0000_0000_0000 * 10000,
        -0x2000_0000_0000_0000 * 10000 <= c / s <= 0x2000_0000_0000_0000 * 10000,
{
    vstd::arithmetic::div_mod::lemma_fundamental_div_mod(a, s);
    vstd::arithmetic::div_mod::lemma_fundamental_div_mod(b, s);
    vstd::arithmetic::div_mod::lemma_fundamental_div_mod(c, s);
    vstd::arithmetic::div_mod::lemma_mod_bound(a, s);
    vstd::arithmetic::div_mod::lemma_mod_bound(b, s);
    vstd::arithmetic::div_mod::lemma_mod_bound(c, s);
    let (qa, qb, qc) = (a / s, b / s, c / s);
    let (ra, rb, rc) = (a % s, b % s, c % s);
    assert(s * (10000 - (qa + qb + qc)) == ra + rb + rc) by (nonlinear_arith)
        requires
            a == s * qa + ra,
            b == s * qb + rb,
            c == s * qc + rc,
            a + b + c == 10000 * s,
    ;
    assert(0 <= 10000 - (qa + qb + qc) <= 2) by (nonlinear_arith)
        requires
            s > 0,
            s * (10000 - (qa + qb + qc)) == ra + rb + rc,
            0 <= ra < s,
            0 <= rb < s,
            0 <= rc < s,
    ;
    lemma_quotient_within(a, s);
    lemma_quotient_within(b, s);
    lemma_quotient_within(c, s);
}

/// A quotient by a positive divisor is no larger in magnitude than the
/// dividend.
proof fn lemma_quotient_within(x: int, s: int)
    requires
        s > 0,
        -0x2000_0000_0000_0000 * 10000 <= x <= 0x2000_0000_0000_0000 * 10000,
    ensures
        -0x2000_0000_0000_0000 * 10000 <= x / s <= 0x2000_0000_0000_0000 * 10000,
{
    vstd::arithmetic::div_mod::lemma_fundamental_div_mod(x, s);
    vstd::arithmetic::div_mod::lemma_mod_bound(x, s);
    let q = x / s;
    let r = x % s;
    assert(-0x2000_0000_0000_0000 * 10000 <= q <= 0x2000_0000_0000_0000 * 10000) by (nonlinear_arith)
        requires
            x == s * q + r,
            0 <= r < s,
            s > 0,
            -0x2000_0000_0000_0000 * 10000 <= x <= 0x2000_0000_0000_0000 * 10000,
    ;
}

proof fn lemma_floor_bounds(x: int, s: int)
    requires
        x >= 0,
        s > 0,
    ensures
        s * (x / s) <= x < s * (x / s) + s,
        x / s >= 0,
{
    vstd::arithmetic::div_mod::lemma_fundamental_div_mod(x, s);
    vstd::arithmetic::div_mod::lemma_mod_bound(x, s);
    vstd::arithmetic::div_mod::lemma_div_pos_is_pos(x, s);
}

/// The three remainder ranks are a permutation of 0, 1, 2, so exactly `d`
/// of them lie below `d` for any `d` from 0 to 3.
proof fn lemma_ranks_cover(ra: int, rb: int, rc: int, d: int)
    requires
        0 <= d <= 3,
    ensures
        (if rank_first(ra, rb, rc) < d {
            1int
        } else {
            0
        }) + (if rank_second(ra, rb, rc) < d {
            1int
        } else {
            0
        }) + (if rank_third(ra, rb, rc) < d {
            1int
        } else {
            0
        }) == d,
{
}

/// Normalizing non-negative weights with a positive sum yields weights in
/// `[0, 1]` whose sum is exactly one (10000 basis points).
pub proof fn lemma_normalized_sums_to_one(w: MetricWeights)
    requires
        w.relevance >= 0,
        w.efficiency >= 0,
        w.grounding >= 0,
        w.total() > 0,
    ensures
        w.spec_normalized().total() == 10000,
        0 <= w.spec_normalized().relevance <= 10000,
        0 <= w.spec_normalized().efficiency <= 10000,
        0 <= w.spec_normalized().grounding <= 10000,
{
    let s = w.total();
    let a = w.relevance * 10000;
    let b = w.efficiency * 10000;
    let c = w.grounding * 10000;
    lemma_floor_bounds(a, s);
    lemma_floor_bounds(b, s);
    lemma_floor_bounds(c, s);
    let qa = a / s;
    let qb = b / s;
    let qc = c / s;
    assert(a + b + c == s * 10000);
    assert(s * (qa + qb + qc) <= s * 10000) by (nonlinear_arith)
        requires
            s * qa <= a,
            s * qb <= b,
            s * qc <= c,
            a + b + c == s * 10000,
    ;
    assert(s * 10000 < s * (qa + qb + qc + 3)) by (nonlinear_arith)
        requires
            a < s * qa + s,
            b < s * qb + s,
            c < s * qc + s,
            a + b + c == s * 10000,
    ;
    assert(qa + qb + qc <= 10000) by (nonlinear_arith)
        requires
            s > 0,
            s * (qa + qb + qc) <= s * 10000,
    ;
    assert(10000 < qa + qb + qc + 3) by (nonlinear_arith)
        requires
            s > 0,
            s * 10000 < s * (qa + qb + qc + 3),
    ;
    let d = 10000 - (qa + qb + qc);
    let (ra, rb, rc) = (a % s, b % s, c % s);
    lemma_ranks_cover(ra, rb, rc, d);
    assert(floor_div(a, s) == qa && floor_div(b, s) == qb && floor_div(c, s) == qc);
}

proof fn lemma_round_div_scale(a: int, b: int, k: int)
    requires
        b > 0,
        k > 0,
    ensures
        round_div(k * a, k * b) == round_div(a, b),
{
    if a >= 0 {
        assert(k * a >= 0) by (nonlinear_arith)
            requires
                k > 0,
                a >= 0,
        ;
        vstd::arithmetic::div_mod::lemma_div_multiples_vanish_quotient(k, 2 * a + b, 2 * b);
        assert(2 * (k * a) + k * b == k * (2 * a + b)) by (nonlinear_arith);
        assert(2 * (k * b) == k * (2 * b)) by (nonlinear_arith);
    } else {
        assert(k * a < 0) by (nonlinear_arith)
            requires
                k > 0,
                a < 0,
        ;
        vstd::arithmetic::div_mod::lemma_div_multiples_vanish_quotient(k, 2 * (-a) + b, 2 * b);
        assert(2 * (-(k * a)) + k * b == k * (2 * (-a) + b)) by (nonlinear_arith);
        assert(2 * (k * b) == k * (2 * b)) by (nonlinear_arith);
    }
}

/// Scaling all three weights by the same positive factor leaves the weighted
/// score unchanged (weights are normalized before use).
pub proof fn lemma_score_scale_invariant(
    w: MetricWeights,
    scaled: MetricWeights,
    k: int,
    r: int,
    e: int,
    g: int,
)
    requires
        k > 0,
        scaled.relevance == k * w.relevance,
        scaled.efficiency == k * w.efficiency,
        scaled.grounding == k * w.grounding,
    ensures
        scaled.spec_score(r, e, g) == w.spec_score(r, e, g),
{
    assert(scaled.total() == k * w.total()) by (nonlinear_arith)
        requires
            scaled.relevance == k * w.relevance,
            scaled.efficiency == k * w.efficiency,
            scaled.grounding == k * w.grounding,
    ;
    if w.total() > 0 {
        assert(scaled.total() > 0) by (nonlinear_arith)
            requires
                k > 0,
                w.total() > 0,
                scaled.total() == k * w.total(),
        ;
        let x = r * w.relevance + e * w.efficiency + g * w.grounding;
        let (wr, we, wg) = (w.relevance as int, w.efficiency as int, w.grounding as int);
        assert(r * (k * wr) == k * (r * wr)) by (nonlinear_arith);
        assert(e * (k * we) == k * (e * we)) by (nonlinear_arith);
        assert(g * (k * wg) == k * (g * wg)) by (nonlinear_arith);
        assert(k * (r * wr) + k * (e * we) + k * (g * wg) == k * x) by (nonlinear_arith)
            requires
                x == r * wr + e * we + g * wg,
        ;
        assert(100 * scaled.total() == k * (100 * w.total())) by (nonlinear_arith)
            requires
                scaled.total() == k * w.total(),
        ;
        lemma_round_div_scale(x, 100 * w.total(), k);
    } else {
        assert(scaled.total() <= 0) by (nonlinear_arith)
            requires
                k > 0,
                w.total() <= 0,
                scaled.total() == k * w.total(),
        ;
    }
}

} // verus!
