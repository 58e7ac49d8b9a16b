//! The judgements that an inspection report shows beside its numbers: the
//! grade of the health score, the risk band of the hallucination score, the
//! tier of a similarity score, the token efficiency gauge and the sections
//! that each inspection mode displays.

use vstd::prelude::*;
use vstd::string::*;

use crate::text::{div_round_half_up, fixed, round_half_up, spec_fixed};
use crate::types::InspectMode;

verus! {

/// Grade of an overall health score.
#[derive(Debug, Clone, Copy, PartialEq, Eq, Structural)]
pub enum ScoreGrade {
    Excellent,
    Good,
    NeedsAttention,
}

/// Grade of a health score: 85 and above is excellent, 70 and above good.
pub open spec fn spec_grade(score: i128) -> ScoreGrade {
    if score >= 85 {
        ScoreGrade::Excellent
    } else if score >= 70 {
        ScoreGrade::Good
    } else {
        ScoreGrade::NeedsAttention
    }
}

/// Label of a grade.
pub open spec fn spec_grade_label(g: ScoreGrade) -> Seq<char> {
    match g {
        ScoreGrade::Excellent => "EXCELLENT"@,
        ScoreGrade::Good => "GOOD"@,
        ScoreGrade::NeedsAttention => "NEEDS ATTENTION"@,
    }
}

impl ScoreGrade {
    /// Grade a health score (whole points).
    pub fn of_score(score: i128) -> (g: Self)
        ensures
            g == spec_grade(score),
    {
        if score >= 85 {
            ScoreGrade::Excellent
        } else if score >= 70 {
            ScoreGrade::Good
        } else {
            ScoreGrade::NeedsAttention
        }
    }

    /// Upper-case label of the grade.
    pub fn label(&self) -> (s: &'static str)
        ensures
            s@ == spec_grade_label(*self),
    {
        match self {
            ScoreGrade::Excellent => "EXCELLENT",
            ScoreGrade::Good => "GOOD",
            ScoreGrade::NeedsAttention => "NEEDS ATTENTION",
        }
    }
}

/// Risk band of a hallucination score.
#[derive(Debug, Clone, Copy, PartialEq, Eq, Structural)]
pub enum RiskLevel {
    Low,
    Moderate,
    High,
}

/// Risk band of a hallucination score in basis points: up to 5% is low, up
/// to 15% moderate.
pub open spec fn spec_risk(hallucination: u32) -> RiskLevel {
    if hallucination <= 500 {
        RiskLevel::Low
    } else if hallucination <= 1500 {
        RiskLevel::Moderate
    } else {
        RiskLevel::High
    }
}

/// Label of a risk band.
pub open spec fn spec_risk_label(r: RiskLevel) -> Seq<char> {
    match r {
        RiskLevel::Low => "LOW"@,
        RiskLevel::Moderate => "MODERATE"@,
        RiskLevel::High => "HIGH"@,
    }
}

impl RiskLevel {
    /// Band of a hallucination score (basis points).
    pub fn of_hallucination(hallucination: u32) -> (r: Self)
        ensures
            r == spec_risk(hallucination),
    {
        if hallucination <= 500 {
            RiskLevel::Low
        } else if hallucination <= 1500 {
            RiskLevel::Moderate
        } else {
            RiskLevel::High
        }
    }

    /// Upper-case label of the band.
    pub fn label(&self) -> (s: &'static str)
        ensures
            s@ == spec_risk_label(*self),
    {
        match self {
            RiskLevel::Low => "LOW",
            RiskLevel::Moderate => "MODERATE",
            RiskLevel::High => "HIGH",
        }
    }
}

/// Tier of a similarity score.
#[derive(Debug, Clone, Copy, PartialEq, Eq, Structural)]
pub enum SimilarityTier {
    Strong,
    Fair,
    Weak,
}

/// Tier of a similarity score in basis points: 0.80 and above is strong,
/// 0.60 and above fair.
pub open spec fn spec_tier(score: u32) -> SimilarityTier {
    if score >= 8000 {
        SimilarityTier::Strong
    } else if score >= 6000 {
        SimilarityTier::Fair
    } else {
        SimilarityTier::Weak
    }
}

impl SimilarityTier {
    /// Tier of a similarity score (basis points).
    pub fn of_score(score: u32) -> (t: Self)
        ensures
            t == spec_tier(score),
    {
        if score >= 8000 {
            SimilarityTier::Strong
        } else if score >= 6000 {
            SimilarityTier::Fair
        } else {
            SimilarityTier::Weak
        }
    }
}

/// A basis-point share written as a percentage with one decimal, e.g.
/// `8234` is "82.3".
pub open spec fn spec_percent(bp: u32) -> Seq<char> {
    spec_fixed(round_half_up(bp as nat, 10), 1)
}

/// Render a basis-point share as a percentage with one decimal.
pub fn percent_text(bp: u32) -> (s: String)
    ensures
        s@ == spec_percent(bp),
{
    fixed(div_round_half_up(bp as u128, 10), 1)
}

/// Width of the efficiency gauge, in cells.
pub const GAUGE_WIDTH: usize = 30;

/// Filled cells of the gauge for an efficiency ratio: the ratio times the
/// width, rounded, at most the width.
pub open spec fn gauge_filled(efficiency: u32) -> nat {
    let f = round_half_up((GAUGE_WIDTH * efficiency) as nat, 10000);
    if f > GAUGE_WIDTH {
        GAUGE_WIDTH as nat
    } else {
        f
    }
}

/// The efficiency gauge: filled and empty cells in brackets, then the
/// percentage, e.g. "[████░░] 66.7%".
pub open spec fn spec_gauge(efficiency: u32) -> Seq<char> {
    "["@ + Seq::new(gauge_filled(efficiency), |i: int| '█') + Seq::new(
        (GAUGE_WIDTH - gauge_filled(efficiency)) as nat,
        |i: int| '░',
    ) + "] "@ + spec_percent(efficiency) + "%"@
}

/// Render the token efficiency gauge of a ratio (basis points).
pub fn efficiency_gauge(efficiency: u32) -> (s: String)
    ensures
        s@ == spec_gauge(efficiency),
{
    let width: u128 = 30;
    let f = div_round_half_up(width * efficiency as u128, 10000);
    let filled: usize = if f > width {
        GAUGE_WIDTH
    } else {
        f as usize
    };
    let mut s = String::from_str("[");
    let ghost start = s@;
    let mut i: usize = 0;
    while i < filled
        invariant
            i <= filled <= GAUGE_WIDTH,
            filled == gauge_filled(efficiency),
            s@ == start + Seq::new(i as nat, |k: int| '█'),
        decreases filled - i,
    {
        proof {
            reveal_strlit("█");
        }
        s.append("█");
        i = i + 1;
        assert(s@ =~= start + Seq::new(i as nat, |k: int| '█'));
    }
    let ghost mid = s@;
    let mut j: usize = 0;
    while j < GAUGE_WIDTH - filled
        invariant
            filled <= GAUGE_WIDTH,
            j <= GAUGE_WIDTH - filled,
            s@ == mid + Seq::new(j as nat, |k: int| '░'),
        decreases GAUGE_WIDTH - filled - j,
    {
        proof {
            reveal_strlit("░");
        }
        s.append("░");
        j = j + 1;
        assert(s@ =~= mid + Seq::new(j as nat, |k: int| '░'));
    }
    s.append("] ");
    let p = percent_text(efficiency);
    s.append(p.as_str());
    s.append("%");
    s
}

/// Context window use of `total` tokens out of `limit`, in tenths of a
/// percent, rounded; `None` for a window of zero tokens.
pub open spec fn spec_window_use(total: usize, limit: usize) -> Option<nat> {
    if limit == 0 {
        None
    } else {
        Some(round_half_up((1000 * total) as nat, limit as nat))
    }
}

/// Context window use, written as a percentage with one decimal.
pub fn window_use_text(total: usize, limit: usize) -> (s: Option<String>)
    ensures
        s matches Some(t) ==> spec_window_use(total, limit) matches Some(p) && t@ == spec_fixed(
            p,
            1,
        ),
        s is None <==> spec_window_use(total, limit) is None,
{
    if limit == 0 {
        None
    } else {
        let tenths = div_round_half_up(1000 * total as u128, limit as u128);
        Some(fixed(tenths, 1))
    }
}

/// Which detail sections a report shows.
#[derive(Debug, Clone, Copy, PartialEq, Eq, Structural)]
pub struct ReportSections {
    pub retrieval: bool,
    pub context: bool,
    pub generation: bool,
    pub quick_summary: bool,
}

/// Sections of each mode: Full shows the three layers, Retrieval the first,
/// Context the first two, Quick only the summary.
pub open spec fn spec_sections(mode: InspectMode) -> ReportSections {
    match mode {
        InspectMode::Full => ReportSections {
            retrieval: true,
            context: true,
            generation: true,
            quick_summary: false,
        },
        InspectMode::Retrieval => ReportSections {
            retrieval: true,
            context: false,
            generation: false,
            quick_summary: false,
        },
        InspectMode::Context => ReportSections {
            retrieval: true,
            context: true,
            generation: false,
            quick_summary: false,
        },
        InspectMode::Quick => ReportSections {
            retrieval: false,
            context: false,
            generation: false,
            quick_summary: true,
        },
    }
}

impl ReportSections {
    /// The sections shown in an inspection mode.
    pub fn for_mode(mode: InspectMode) -> (s: Self)
        ensures
            s == spec_sections(mode),
    {
        match mode {
            InspectMode::Full => ReportSections {
                retrieval: true,
                context: true,
                generation: true,
                quick_summary: false,
            },
            InspectMode::Retrieval => ReportSections {
                retrieval: true,
                context: false,
                generation: false,
                quick_summary: false,
            },
            InspectMode::Context => ReportSections {
                retrieval: true,
                context: true,
                generation: false,
                quick_summary: false,
            },
            InspectMode::Quick => ReportSections {
                retrieval: false,
                context: false,
                generation: false,
                quick_summary: true,
            },
        }
    }
}

/// The gauge always has its full width: filled plus empty cells make 30.
pub proof fn lemma_gauge_width(efficiency: u32)
    ensures
        gauge_filled(efficiency) <= GAUGE_WIDTH,
        spec_gauge(efficiency).len() == 1 + GAUGE_WIDTH + 2 + spec_percent(efficiency).len() + 1,
{
    reveal_strlit("[");
    reveal_strlit("] ");
    reveal_strlit("%");
}

} // verus!
