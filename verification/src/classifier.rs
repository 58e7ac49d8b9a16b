//! Architecture classifier: pattern-match a pipeline topology to one of the
//! seven RAG architectures, with a confidence score.
//!
//! Scores and confidences are in basis points: `10_000` is full confidence.

use vstd::prelude::*;
use vstd::string::*;

use crate::text::{decimal_usize, join, spec_decimal, spec_join};
use crate::config::PipelineConfig;
use crate::topology::{lemma_naive_iff_no_advanced, spec_topology_of, spec_tool_calling_enabled, spec_multimodal_enabled, PipelineTopology};
use crate::types::RagArchitecture;

verus! {

/// Full confidence, in basis points.
pub const FULL_CONFIDENCE: u32 = 10000;

/// Result of architecture classification.
#[derive(Debug, Clone)]
pub struct ClassificationResult {
    /// The best-matching architecture
    pub architecture: RagArchitecture,
    /// Confidence score in basis points (0 to 10_000)
    pub confidence: u32,
    /// Human-readable reason for the classification
    pub reason: String,
    /// All architectures considered, with their individual scores (basis points)
    pub scores: Vec<(RagArchitecture, u32)>,
}

/// `a + b`, capped at full confidence.
pub open spec fn capped(v: int) -> u32 {
    if v > 10000 {
        10000
    } else {
        v as u32
    }
}

/// `points` when `flag` holds, otherwise zero.
pub open spec fn bonus(flag: bool, points: int) -> int {
    if flag {
        points
    } else {
        0
    }
}

/// Naive: only dense retrieval, no enhancements.
pub open spec fn spec_score_naive(t: PipelineTopology) -> u32 {
    if t.spec_is_naive() {
        10000
    } else if t.components@.len() <= 2 && !t.has_fusion && !t.has_routing {
        5000
    } else {
        1000
    }
}

/// Advanced: re-ranking and/or fusion, but no routing/tools/graph.
pub open spec fn spec_score_advanced(t: PipelineTopology) -> u32 {
    let enhanced = t.has_reranking || t.has_fusion;
    let complex = t.has_routing || t.has_tool_calling || t.has_graph || t.has_hyde
        || t.has_multimodal;
    if enhanced && !complex {
        capped(7000 + bonus(t.has_reranking, 1500) + bonus(t.has_fusion, 1500))
    } else if enhanced {
        3000
    } else {
        0
    }
}

/// Modular: routing or multi-stage retrieval, but no tools/graph/hyde/multimodal.
pub open spec fn spec_score_modular(t: PipelineTopology) -> u32 {
    let modular = t.has_routing || t.retrieval_stages >= 2;
    let complex = t.has_tool_calling || t.has_graph || t.has_hyde || t.has_multimodal;
    if modular && !complex {
        capped(
            6000 + bonus(t.has_routing, 2000) + bonus(t.retrieval_stages >= 2, 1000) + bonus(
                t.has_fusion,
                1000,
            ),
        )
    } else {
        1000
    }
}

/// Agentic: tool-calling and/or iterative routed retrieval.
pub open spec fn spec_score_agentic(t: PipelineTopology) -> u32 {
    if t.has_tool_calling {
        capped(8000 + bonus(t.is_iterative, 1000) + bonus(t.has_routing, 1000))
    } else if t.has_routing && t.is_iterative && !t.has_graph {
        5000
    } else {
        0
    }
}

/// Graph: knowledge graph traversal enabled.
pub open spec fn spec_score_graph(t: PipelineTopology) -> u32 {
    if t.has_graph {
        capped(8500 + bonus(t.retrieval_stages > 1, 1000))
    } else {
        0
    }
}

/// HyDE: hypothetical document generation.
pub open spec fn spec_score_hyde(t: PipelineTopology) -> u32 {
    if t.has_hyde {
        9500
    } else {
        0
    }
}

/// Multimodal: multiple modalities.
pub open spec fn spec_score_multimodal(t: PipelineTopology) -> u32 {
    if t.has_multimodal {
        9500
    } else {
        0
    }
}

/// All seven scores, in the order the classifier considers them.
pub open spec fn spec_scores(t: PipelineTopology) -> Seq<(RagArchitecture, u32)> {
    seq![
        (RagArchitecture::Multimodal, spec_score_multimodal(t)),
        (RagArchitecture::Hyde, spec_score_hyde(t)),
        (RagArchitecture::Graph, spec_score_graph(t)),
        (RagArchitecture::Agentic, spec_score_agentic(t)),
        (RagArchitecture::Modular, spec_score_modular(t)),
        (RagArchitecture::Advanced, spec_score_advanced(t)),
        (RagArchitecture::Naive, spec_score_naive(t)),
    ]
}

/// `k` is the last position holding the highest score.
pub open spec fn is_best_index(s: Seq<(RagArchitecture, u32)>, k: int) -> bool {
    &&& 0 <= k < s.len()
    &&& forall|j: int| 0 <= j < s.len() ==> (#[trigger] s[j]).1 <= s[k].1
    &&& forall|j: int| k < j < s.len() ==> (#[trigger] s[j]).1 < s[k].1
}

/// The explanation parts of an Advanced classification.
pub open spec fn advanced_parts(t: PipelineTopology) -> Seq<Seq<char>> {
    (if t.has_reranking {
        seq!["re-ranking"@]
    } else {
        Seq::empty()
    }) + (if t.has_fusion {
        seq!["hybrid search fusion"@]
    } else {
        Seq::empty()
    })
}

/// The explanation parts of a Modular classification.
pub open spec fn modular_parts(t: PipelineTopology) -> Seq<Seq<char>> {
    if t.retrieval_stages >= 2 {
        seq!["routing"@, spec_decimal(t.retrieval_stages as nat) + " retrieval stages"@]
    } else {
        seq!["routing"@]
    }
}

/// The explanation parts of an Agentic classification.
pub open spec fn agentic_parts(t: PipelineTopology) -> Seq<Seq<char>> {
    if t.is_iterative {
        seq!["tool-calling"@, "iterative retrieval"@]
    } else {
        seq!["tool-calling"@]
    }
}

/// Human-readable explanation of classifying `t` as `a`.
pub open spec fn spec_explain(a: RagArchitecture, t: PipelineTopology) -> Seq<char> {
    match a {
        RagArchitecture::Naive =>
            "Pipeline has only dense vector retrieval with no advanced components. Classified as Naive RAG."@,
        RagArchitecture::Advanced => "Pipeline includes "@ + spec_join(advanced_parts(t), " + "@)
            + " but no routing, tools, or graph traversal. Classified as Advanced RAG."@,
        RagArchitecture::Modular => "Pipeline has "@ + spec_join(modular_parts(t), " + "@)
            + " indicating a modular multi-stage design. Classified as Modular RAG."@,
        RagArchitecture::Agentic => "Pipeline features "@ + spec_join(agentic_parts(t), " + "@)
            + " indicating LLM-driven autonomous retrieval. Classified as Agentic RAG."@,
        RagArchitecture::Graph =>
            "Pipeline includes knowledge graph traversal. Classified as Graph RAG."@,
        RagArchitecture::Hyde =>
            "Pipeline generates hypothetical documents before retrieval. Classified as HyDE RAG."@,
        RagArchitecture::Multimodal =>
            "Pipeline retrieves across multiple modalities. Classified as Multimodal RAG."@,
    }
}

/// Pattern-matching classifier for RAG architectures.
pub struct ArchitectureClassifier;

impl ArchitectureClassifier {
    /// Create a new classifier.
    pub fn new() -> (c: Self) {
        ArchitectureClassifier
    }

    /// Classify a pipeline topology into a RAG architecture.
    ///
    /// Scores each architecture against the topology, then returns the
    /// highest-scoring match (the last one listed among equal scores).
    pub fn classify(&self, topology: &PipelineTopology) -> (r: ClassificationResult)
        ensures
            r.scores@ == spec_scores(*topology),
            exists|k: int|
                #![trigger r.scores@[k]]
                is_best_index(r.scores@, k) && r.scores@[k].0 == r.architecture
                    && r.scores@[k].1 == r.confidence,
            r.confidence <= 10000,
            r.reason@ == spec_explain(r.architecture, *topology),
    {
        let scores = self.score_all(topology);
        let mut best: usize = 0;
        let n = scores.len();
        for i in 1..n
            invariant
                n == scores@.len(),
                n == 7,
                1 <= i <= n,
                best < i,
                forall|j: int| 0 <= j < i ==> (#[trigger] scores@[j]).1 <= scores@[best as int].1,
                forall|j: int| best < j < i ==> (#[trigger] scores@[j]).1 < scores@[best as int].1,
        {
            if scores[i].1 >= scores[best].1 {
                best = i;
            }
        }
        let best_arch = scores[best].0;
        let best_score = scores[best].1;
        assert(is_best_index(scores@, best as int) && scores@[best as int].0 == best_arch
            && scores@[best as int].1 == best_score);
        assert(best_score <= 10000) by {
            lemma_scores_cover_all(*topology);
        }
        let reason = Self::explain(&best_arch, topology);
        let r = ClassificationResult { architecture: best_arch, confidence: best_score, reason, scores };
        assert(is_best_index(r.scores@, best as int));
        assert(r.scores@[best as int].0 == r.architecture);
        assert(r.scores@[best as int].1 == r.confidence);
        r
    }

    /// Score all seven architectures against the topology.
    pub fn score_all(&self, topo: &PipelineTopology) -> (s: Vec<(RagArchitecture, u32)>)
        ensures
            s@ == spec_scores(*topo),
    {
        let s = vec![
            (RagArchitecture::Multimodal, Self::score_multimodal(topo)),
            (RagArchitecture::Hyde, Self::score_hyde(topo)),
            (RagArchitecture::Graph, Self::score_graph(topo)),
            (RagArchitecture::Agentic, Self::score_agentic(topo)),
            (RagArchitecture::Modular, Self::score_modular(topo)),
            (RagArchitecture::Advanced, Self::score_advanced(topo)),
            (RagArchitecture::Naive, Self::score_naive(topo)),
        ];
        assert(s@ =~= spec_scores(*topo));
        s
    }

    /// Naive: only dense retrieval, no enhancements.
    pub fn score_naive(topo: &PipelineTopology) -> (s: u32)
        ensures
            s == spec_score_naive(*topo),
    {
        if topo.is_naive() {
            10000
        } else if topo.component_count() <= 2 && !topo.has_fusion && !topo.has_routing {
            5000  // might still be naive with just pruning
        } else {
            1000
        }
    }

    /// Advanced: re-ranking and/or fusion, but no routing/tools/graph.
    pub fn score_advanced(topo: &PipelineTopology) -> (s: u32)
        ensures
            s == spec_score_advanced(*topo),
    {
        let has_enhancements = topo.has_reranking || topo.has_fusion;
        let has_complex = topo.has_routing || topo.has_tool_calling || topo.has_graph
            || topo.has_hyde || topo.has_multimodal;

        if has_enhancements && !has_complex {
            let mut score: u32 = 7000;
            if topo.has_reranking {
                score += 1500;
            }
            if topo.has_fusion {
                score += 1500;
            }
            if score > 10000 {
                10000
            } else {
                score
            }
        } else if has_enhancements {
            3000  // has enhancements but also complex components
        } else {
            0
        }
    }

    /// Modular: routing + multi-stage, but no tools/graph/hyde/multimodal.
    pub fn score_modular(topo: &PipelineTopology) -> (s: u32)
        ensures
            s == spec_score_modular(*topo),
    {
        let has_modular_traits = topo.has_routing || topo.retrieval_stages >= 2;
        let has_complex = topo.has_tool_calling || topo.has_graph || topo.has_hyde
            || topo.has_multimodal;

        if has_modular_traits && !has_complex {
            let mut score: u32 = 6000;
            if topo.has_routing {
                score += 2000;
            }
            if topo.retrieval_stages >= 2 {
                score += 1000;
            }
            if topo.has_fusion {
                score += 1000;
            }
            if score > 10000 {
                10000
            } else {
                score
            }
        } else {
            1000
        }
    }

    /// Agentic: tool-calling and/or iterative retrieval.
    pub fn score_agentic(topo: &PipelineTopology) -> (s: u32)
        ensures
            s == spec_score_agentic(*topo),
    {
        if topo.has_tool_calling {
            let mut score: u32 = 8000;
            if topo.is_iterative {
                score += 1000;
            }
            if topo.has_routing {
                score += 1000;
            }
            if score > 10000 {
                10000
            } else {
                score
            }
        } else if topo.has_routing && topo.is_iterative && !topo.has_graph {
            5000  // routing without tools is borderline agentic
        } else {
            0
        }
    }

    /// Graph: knowledge graph traversal enabled.
    pub fn score_graph(topo: &PipelineTopology) -> (s: u32)
        ensures
            s == spec_score_graph(*topo),
    {
        if topo.has_graph {
            let mut score: u32 = 8500;
            if topo.retrieval_stages > 1 {
                score += 1000;
            }
            if score > 10000 {
                10000
            } else {
                score
            }
        } else {
            0
        }
    }

    /// HyDE: hypothetical document generation.
    pub fn score_hyde(topo: &PipelineTopology) -> (s: u32)
        ensures
            s == spec_score_hyde(*topo),
    {
        if topo.has_hyde {
            9500  // HyDE is a very specific signal
        } else {
            0
        }
    }

    /// Multimodal: multiple modalities.
    pub fn score_multimodal(topo: &PipelineTopology) -> (s: u32)
        ensures
            s == spec_score_multimodal(*topo),
    {
        if topo.has_multimodal {
            9500  // Multimodal is a very specific signal
        } else {
            0
        }
    }

    /// Generate a human-readable explanation for a classification.
    pub fn explain(arch: &RagArchitecture, topo: &PipelineTopology) -> (s: String)
        ensures
            s@ == spec_explain(*arch, *topo),
    {
        match arch {
            RagArchitecture::Naive => String::from_str(
                "Pipeline has only dense vector retrieval with no advanced components. Classified as Naive RAG.",
            ),
            RagArchitecture::Advanced => {
                let mut parts: Vec<&str> = Vec::new();
                if topo.has_reranking {
                    parts.push("re-ranking");
                }
                if topo.has_fusion {
                    parts.push("hybrid search fusion");
                }
                assert(parts@.map_values(|p: &str| p@) =~= advanced_parts(*topo));
                let mut s = String::from_str("Pipeline includes ");
                let joined = join(&parts, " + ");
                s.append(joined.as_str());
                s.append(" but no routing, tools, or graph traversal. Classified as Advanced RAG.");
                s
            },
            RagArchitecture::Modular => {
                let mut stage_part = decimal_usize(topo.retrieval_stages);
                stage_part.append(" retrieval stages");
                let mut parts: Vec<&str> = vec!["routing"];
                if topo.retrieval_stages >= 2 {
                    parts.push(stage_part.as_str());
                }
                assert(parts@.map_values(|p: &str| p@) =~= modular_parts(*topo));
                let mut s = String::from_str("Pipeline has ");
                let joined = join(&parts, " + ");
                s.append(joined.as_str());
                s.append(" indicating a modular multi-stage design. Classified as Modular RAG.");
                s
            },
            RagArchitecture::Agentic => {
                let mut parts: Vec<&str> = vec!["tool-calling"];
                if topo.is_iterative {
                    parts.push("iterative retrieval");
                }
                assert(parts@.map_values(|p: &str| p@) =~= agentic_parts(*topo));
                let mut s = String::from_str("Pipeline features ");
                let joined = join(&parts, " + ");
                s.append(joined.as_str());
                s.append(
                    " indicating LLM-driven autonomous retrieval. Classified as Agentic RAG.",
                );
                s
            },
            RagArchitecture::Graph => String::from_str(
                "Pipeline includes knowledge graph traversal. Classified as Graph RAG.",
            ),
            RagArchitecture::Hyde => String::from_str(
                "Pipeline generates hypothetical documents before retrieval. Classified as HyDE RAG.",
            ),
            RagArchitecture::Multimodal => String::from_str(
                "Pipeline retrieves across multiple modalities. Classified as Multimodal RAG.",
            ),
        }
    }
}

impl Default for ArchitectureClassifier {
    fn default() -> (c: Self) {
        ArchitectureClassifier
    }
}

/// Knowledge-graph traversal alone earns the Graph architecture at least
/// 0.85, whatever else the pipeline has (fusion, re-ranking, routing, extra
/// stages); without it Graph scores nothing.
pub proof fn lemma_graph_score_floor(t: PipelineTopology)
    ensures
        t.has_graph ==> 8500 <= spec_score_graph(t) <= 10000,
        t.has_graph && t.retrieval_stages > 1 ==> spec_score_graph(t) == 9500,
        t.has_graph && t.retrieval_stages <= 1 ==> spec_score_graph(t) == 8500,
        !t.has_graph ==> spec_score_graph(t) == 0,
{
}

/// A pipeline with graph traversal and without tools, HyDE or multimodal
/// retrieval is classified as Graph, with confidence at least 0.85, whether
/// or not it also fuses dense and sparse search.
pub proof fn lemma_graph_pipeline_is_graph(c: PipelineConfig, t: PipelineTopology, k: int)
    requires
        spec_topology_of(c, t),
        c.graph.enabled,
        !spec_tool_calling_enabled(c.tools),
        !c.hyde.enabled,
        !spec_multimodal_enabled(c.multimodal),
        is_best_index(spec_scores(t), k),
    ensures
        spec_scores(t)[k].0 == RagArchitecture::Graph,
        spec_scores(t)[k].1 >= 8500,
        c.fusion.enabled ==> spec_scores(t)[k].1 == 9500,
{
    lemma_naive_iff_no_advanced(c, t);
    let s = spec_scores(t);
    assert(s[2].1 >= 8500);
    assert(s[0].1 == 0 && s[1].1 == 0);
    assert(s[3].1 == 0 && s[4].1 == 1000 && s[5].1 <= 3000 && s[6].1 <= 5000);
    if k != 2 {
        assert(s[2].1 <= s[k].1);
    }
}

/// Pipelines whose distinguishing feature is a single one of tools, HyDE or
/// multimodal retrieval are classified by it: an agent with tools (and no
/// graph, HyDE or multimodal retrieval) as Agentic with confidence at least
/// 0.90, a HyDE pipeline without tools, graph or multimodal retrieval as HyDE
/// (0.95), a multimodal one without tools, graph or HyDE as Multimodal
/// (0.95), and a pipeline of basic components only as Naive (1.0).
pub proof fn lemma_feature_pipelines_classified(c: PipelineConfig, t: PipelineTopology, k: int)
    requires
        spec_topology_of(c, t),
        is_best_index(spec_scores(t), k),
    ensures
        t.has_tool_calling && !t.has_graph && !t.has_hyde && !t.has_multimodal ==> spec_scores(
            t,
        )[k].0 == RagArchitecture::Agentic && spec_scores(t)[k].1 >= 9000,
        t.has_hyde && !t.has_tool_calling && !t.has_graph && !t.has_multimodal ==> spec_scores(
            t,
        )[k] == (RagArchitecture::Hyde, 9500u32),
        t.has_multimodal && !t.has_tool_calling && !t.has_graph && !t.has_hyde ==> spec_scores(
            t,
        )[k] == (RagArchitecture::Multimodal, 9500u32),
        t.spec_is_naive() ==> spec_scores(t)[k] == (RagArchitecture::Naive, 10000u32),
{
    lemma_naive_iff_no_advanced(c, t);
    let s = spec_scores(t);
    assert(s[k].1 >= s[0].1 && s[k].1 >= s[1].1 && s[k].1 >= s[2].1 && s[k].1 >= s[3].1);
    assert(s[k].1 >= s[4].1 && s[k].1 >= s[5].1 && s[k].1 >= s[6].1);
    if t.spec_is_naive() {
        assert(s[6].1 == 10000);
        if k != 6 {
            assert(s[6].1 < s[k].1);
        }
    }
}

/// The architectures named in the score list, in order.
pub open spec fn scored_architectures(t: PipelineTopology) -> Seq<RagArchitecture> {
    spec_scores(t).map_values(|p: (RagArchitecture, u32)| p.0)
}

/// Every architecture is scored exactly once, and every score lies within
/// `[0, 10_000]` basis points.
pub proof fn lemma_scores_cover_all(t: PipelineTopology)
    ensures
        spec_scores(t).len() == 7,
        forall|i: int| 0 <= i < 7 ==> (#[trigger] spec_scores(t)[i]).1 <= 10000,
        forall|a: RagArchitecture|
            #[trigger] scored_architectures(t).contains(a),
        forall|i: int, j: int|
            0 <= i < 7 && 0 <= j < 7 && i != j ==> (#[trigger] spec_scores(t)[i]).0
                != (#[trigger] spec_scores(t)[j]).0,
{
    let s = spec_scores(t);
    let names = scored_architectures(t);
    assert forall|a: RagArchitecture| #[trigger] names.contains(a) by {
        match a {
            RagArchitecture::Multimodal => assert(names[0] == a),
            RagArchitecture::Hyde => assert(names[1] == a),
            RagArchitecture::Graph => assert(names[2] == a),
            RagArchitecture::Agentic => assert(names[3] == a),
            RagArchitecture::Modular => assert(names[4] == a),
            RagArchitecture::Advanced => assert(names[5] == a),
            RagArchitecture::Naive => assert(names[6] == a),
        }
    }
}

/// The best index of a score list is unique, so the classification is
/// determined by the scores.
pub proof fn lemma_best_index_unique(s: Seq<(RagArchitecture, u32)>, k1: int, k2: int)
    requires
        is_best_index(s, k1),
        is_best_index(s, k2),
    ensures
        k1 == k2,
{
    if k1 < k2 {
        assert(s[k2].1 < s[k1].1);
        assert(s[k2].1 >= s[k1].1);
    } else if k2 < k1 {
        assert(s[k1].1 < s[k2].1);
        assert(s[k1].1 >= s[k2].1);
    }
}

} // verus!
