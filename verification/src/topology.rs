//! Pipeline topology analyzer: extract the component structure of a pipeline
//! configuration, for the architecture classifier to pattern-match on.

use vstd::prelude::*;

use crate::config::{
    FusionConfig, GraphConfig, HydeConfig, MultimodalConfig, PipelineConfig, RerankingConfig,
    RoutingConfig, ToolConfig,
};

verus! {

/// A single RAG pipeline component detected during topology analysis.
#[derive(Debug, Clone, Copy, PartialEq, Eq, Structural)]
pub enum PipelineComponent {
    /// Dense vector embedding + similarity search (always present)
    DenseRetrieval,
    /// Sparse / lexical retrieval (BM25, TF-IDF)
    SparseRetrieval,
    /// Cross-encoder or LLM-based reranking of initial results
    Reranking,
    /// Query expansion, rewriting, or multi-query generation
    QueryExpansion,
    /// Hybrid search fusion (combining sparse + dense results)
    Fusion,
    /// LLM-driven routing to different retrieval strategies
    Routing,
    /// Tool-calling / function-calling for external data
    ToolCalling,
    /// Knowledge graph traversal
    GraphTraversal,
    /// Hypothetical document generation (HyDE)
    HyDE,
    /// Multi-modal retrieval (text + image + audio)
    Multimodal,
    /// Context compression or summarization
    ContextCompression,
}

/// Display label of a component.
pub open spec fn spec_component_label(c: PipelineComponent) -> Seq<char> {
    match c {
        PipelineComponent::DenseRetrieval => "Dense Vector Retrieval"@,
        PipelineComponent::SparseRetrieval => "Sparse/Lexical Retrieval"@,
        PipelineComponent::Reranking => "Re-ranking"@,
        PipelineComponent::QueryExpansion => "Query Expansion"@,
        PipelineComponent::Fusion => "Hybrid Search Fusion"@,
        PipelineComponent::Routing => "LLM Routing"@,
        PipelineComponent::ToolCalling => "Tool Calling"@,
        PipelineComponent::GraphTraversal => "Graph Traversal"@,
        PipelineComponent::HyDE => "HyDE (Hypothetical Document)"@,
        PipelineComponent::Multimodal => "Multimodal Retrieval"@,
        PipelineComponent::ContextCompression => "Context Compression"@,
    }
}

impl PipelineComponent {
    /// Human-readable label for display.
    pub fn label(&self) -> (s: &'static str)
        ensures
            s@ == spec_component_label(*self),
    {
        match self {
            PipelineComponent::DenseRetrieval => "Dense Vector Retrieval",
            PipelineComponent::SparseRetrieval => "Sparse/Lexical Retrieval",
            PipelineComponent::Reranking => "Re-ranking",
            PipelineComponent::QueryExpansion => "Query Expansion",
            PipelineComponent::Fusion => "Hybrid Search Fusion",
            PipelineComponent::Routing => "LLM Routing",
            PipelineComponent::ToolCalling => "Tool Calling",
            PipelineComponent::GraphTraversal => "Graph Traversal",
            PipelineComponent::HyDE => "HyDE (Hypothetical Document)",
            PipelineComponent::Multimodal => "Multimodal Retrieval",
            PipelineComponent::ContextCompression => "Context Compression",
        }
    }
}

/// Components that do not make a pipeline more than naive.
pub open spec fn is_basic_component(c: PipelineComponent) -> bool {
    c is DenseRetrieval || c is ContextCompression
}

/// Snapshot of a pipeline's component structure.
#[derive(Debug, Clone)]
pub struct PipelineTopology {
    /// All components detected in the pipeline
    pub components: Vec<PipelineComponent>,
    /// Number of retrieval stages (1 = single-pass, 2+ = multi-stage)
    pub retrieval_stages: usize,
    /// Whether the pipeline has iterative/looped retrieval
    pub is_iterative: bool,
    /// Configured top_k
    pub top_k: usize,
    /// Embedding dimension
    pub embedding_dimension: usize,
    /// Distance metric used
    pub distance_metric: String,
    /// Whether reranking is enabled
    pub has_reranking: bool,
    /// Whether fusion is enabled
    pub has_fusion: bool,
    /// Whether routing is enabled
    pub has_routing: bool,
    /// Whether tool-calling is enabled
    pub has_tool_calling: bool,
    /// Whether graph traversal is enabled
    pub has_graph: bool,
    /// Whether HyDE is enabled
    pub has_hyde: bool,
    /// Whether multimodal retrieval is enabled
    pub has_multimodal: bool,
    /// Whether context compression is enabled
    pub has_context_compression: bool,
}

impl PipelineTopology {
    /// Only dense retrieval (and possibly context compression) is present.
    pub open spec fn spec_is_naive(&self) -> bool {
        forall|i: int|
            0 <= i < self.components@.len() ==> #[trigger] is_basic_component(
                self.components@[i],
            )
    }

    /// Return the list of detected component labels for display.
    pub fn detected_components(&self) -> (labels: Vec<&'static str>)
        ensures
            labels@.map_values(|s: &'static str| s@) == self.components@.map_values(
                |c: PipelineComponent| spec_component_label(c),
            ),
    {
        let mut labels: Vec<&'static str> = Vec::new();
        let n = self.components.len();
        for i in 0..n
            invariant
                n == self.components@.len(),
                labels@.len() == i,
                forall|j: int|
                    0 <= j < i ==> (#[trigger] labels@[j])@ == spec_component_label(
                        self.components@[j],
                    ),
        {
            labels.push(self.components[i].label());
        }
        assert(labels@.map_values(|s: &'static str| s@) =~= self.components@.map_values(
            |c: PipelineComponent| spec_component_label(c),
        ));
        labels
    }

    /// Number of distinct components detected.
    pub fn component_count(&self) -> (n: usize)
        ensures
            n == self.components@.len(),
    {
        self.components.len()
    }

    /// True if this is a simple single-pass pipeline (only dense retrieval).
    /// Context pruning/compression is not counted as an advanced component.
    pub fn is_naive(&self) -> (b: bool)
        ensures
            b == self.spec_is_naive(),
    {
        let n = self.components.len();
        for i in 0..n
            invariant
                n == self.components@.len(),
                forall|j: int| 0 <= j < i ==> #[trigger] is_basic_component(self.components@[j]),
        {
            match self.components[i] {
                PipelineComponent::DenseRetrieval | PipelineComponent::ContextCompression => {},
                _ => {
                    assert(!is_basic_component(self.components@[i as int]));
                    return false;
                },
            }
        }
        true
    }
}

/// `s` with `c` appended when `present` holds.
pub open spec fn push_if(s: Seq<PipelineComponent>, present: bool, c: PipelineComponent) -> Seq<
    PipelineComponent,
> {
    if present {
        s.push(c)
    } else {
        s
    }
}

/// Re-ranking counts only with a model configured.
pub open spec fn spec_reranking_enabled(cfg: RerankingConfig) -> bool {
    cfg.enabled && cfg.model@.len() > 0
}

/// Tool calling counts only with at least one tool.
pub open spec fn spec_tool_calling_enabled(cfg: ToolConfig) -> bool {
    cfg.enabled && cfg.tools@.len() > 0
}

/// Multimodal retrieval counts only with more than one modality.
pub open spec fn spec_multimodal_enabled(cfg: MultimodalConfig) -> bool {
    cfg.enabled && cfg.modalities@.len() > 1
}

/// The component list the analyzer derives from a configuration, in order.
pub open spec fn spec_components(c: PipelineConfig) -> Seq<PipelineComponent> {
    let s1 = push_if(seq![PipelineComponent::DenseRetrieval], c.fusion.enabled, PipelineComponent::SparseRetrieval);
    let s2 = push_if(s1, spec_reranking_enabled(c.reranking), PipelineComponent::Reranking);
    let s3 = push_if(s2, c.fusion.enabled, PipelineComponent::Fusion);
    let s4 = push_if(s3, c.routing.enabled, PipelineComponent::Routing);
    let s5 = push_if(s4, spec_tool_calling_enabled(c.tools), PipelineComponent::ToolCalling);
    let s6 = push_if(s5, c.graph.enabled, PipelineComponent::GraphTraversal);
    let s7 = push_if(s6, c.hyde.enabled, PipelineComponent::HyDE);
    let s8 = push_if(s7, spec_multimodal_enabled(c.multimodal), PipelineComponent::Multimodal);
    push_if(s8, c.context.prune_irrelevant, PipelineComponent::ContextCompression)
}

/// What the analyzer reports for a configuration.
pub open spec fn spec_topology_of(c: PipelineConfig, t: PipelineTopology) -> bool {
    &&& t.components@ == spec_components(c)
    &&& t.has_reranking == spec_reranking_enabled(c.reranking)
    &&& t.has_fusion == c.fusion.enabled
    &&& t.has_routing == c.routing.enabled
    &&& t.has_tool_calling == spec_tool_calling_enabled(c.tools)
    &&& t.has_graph == c.graph.enabled
    &&& t.has_hyde == c.hyde.enabled
    &&& t.has_multimodal == spec_multimodal_enabled(c.multimodal)
    &&& t.has_context_compression == c.context.prune_irrelevant
    &&& t.retrieval_stages == 1 + (if c.fusion.enabled { 1int } else { 0 }) + (if c.graph.enabled {
        1int
    } else {
        0
    })
    &&& t.is_iterative == (c.routing.enabled || spec_tool_calling_enabled(c.tools))
    &&& t.top_k == c.vector_store.top_k
    &&& t.embedding_dimension == c.embedding.dimension
    &&& t.distance_metric@ == c.embedding.distance_metric@
}

/// Analyzer that inspects a [`PipelineConfig`] and produces a [`PipelineTopology`].
pub struct TopologyAnalyzer;

impl TopologyAnalyzer {
    /// Create a new topology analyzer.
    pub fn new() -> (a: Self) {
        TopologyAnalyzer
    }

    /// Analyze a pipeline config and extract its topology.
    pub fn analyze(&self, config: &PipelineConfig) -> (t: PipelineTopology)
        ensures
            spec_topology_of(*config, t),
    {
        let mut components = vec![PipelineComponent::DenseRetrieval];

        let has_reranking = Self::is_reranking_enabled(&config.reranking);
        let has_fusion = Self::is_fusion_enabled(&config.fusion);
        let has_routing = Self::is_routing_enabled(&config.routing);
        let has_tool_calling = Self::is_tool_calling_enabled(&config.tools);
        let has_graph = Self::is_graph_enabled(&config.graph);
        let has_hyde = Self::is_hyde_enabled(&config.hyde);
        let has_multimodal = Self::is_multimodal_enabled(&config.multimodal);
        let has_context_compression = config.context.prune_irrelevant;

        // Sparse retrieval is implied by fusion (hybrid = sparse + dense)
        let has_sparse = has_fusion;

        let ghost c = *config;
        let ghost mut expected = seq![PipelineComponent::DenseRetrieval];
        assert(components@ =~= expected);
        if has_sparse {
            components.push(PipelineComponent::SparseRetrieval);
        }
        proof {
            expected = push_if(expected, c.fusion.enabled, PipelineComponent::SparseRetrieval);
        }
        assert(components@ =~= expected);
        if has_reranking {
            components.push(PipelineComponent::Reranking);
        }
        proof {
            expected = push_if(expected, spec_reranking_enabled(c.reranking), PipelineComponent::Reranking);
        }
        assert(components@ =~= expected);
        if has_fusion {
            components.push(PipelineComponent::Fusion);
        }
        proof {
            expected = push_if(expected, c.fusion.enabled, PipelineComponent::Fusion);
        }
        assert(components@ =~= expected);
        if has_routing {
            components.push(PipelineComponent::Routing);
        }
        proof {
            expected = push_if(expected, c.routing.enabled, PipelineComponent::Routing);
        }
        assert(components@ =~= expected);
        if has_tool_calling {
            components.push(PipelineComponent::ToolCalling);
        }
        proof {
            expected = push_if(expected, spec_tool_calling_enabled(c.tools), PipelineComponent::ToolCalling);
        }
        assert(components@ =~= expected);
        if has_graph {
            components.push(PipelineComponent::GraphTraversal);
        }
        proof {
            expected = push_if(expected, c.graph.enabled, PipelineComponent::GraphTraversal);
        }
        assert(components@ =~= expected);
        if has_hyde {
            components.push(PipelineComponent::HyDE);
        }
        proof {
            expected = push_if(expected, c.hyde.enabled, PipelineComponent::HyDE);
        }
        assert(components@ =~= expected);
        if has_multimodal {
            components.push(PipelineComponent::Multimodal);
        }
        proof {
            expected = push_if(expected, spec_multimodal_enabled(c.multimodal), PipelineComponent::Multimodal);
        }
        assert(components@ =~= expected);
        if has_context_compression {
            components.push(PipelineComponent::ContextCompression);
        }
        proof {
            expected = push_if(expected, c.context.prune_irrelevant, PipelineComponent::ContextCompression);
        }
        assert(components@ =~= expected);
        assert(expected == spec_components(c));

        // Count retrieval stages
        let retrieval_stages: usize = 1 + (if has_fusion { 1usize } else { 0 }) + (if has_graph {
            1usize
        } else {
            0
        });

        // Iterative if routing or tool-calling (enables multi-hop retrieval)
        let is_iterative = has_routing || has_tool_calling;

        PipelineTopology {
            components,
            retrieval_stages,
            is_iterative,
            top_k: config.vector_store.top_k,
            embedding_dimension: config.embedding.dimension,
            distance_metric: config.embedding.distance_metric.clone(),
            has_reranking,
            has_fusion,
            has_routing,
            has_tool_calling,
            has_graph,
            has_hyde,
            has_multimodal,
            has_context_compression,
        }
    }

    /// Re-ranking is active when enabled with a non-empty model name.
    pub fn is_reranking_enabled(cfg: &RerankingConfig) -> (b: bool)
        ensures
            b == spec_reranking_enabled(*cfg),
    {
        cfg.enabled && !cfg.model.as_str().is_empty()
    }

    /// Fusion is active when enabled.
    pub fn is_fusion_enabled(cfg: &FusionConfig) -> (b: bool)
        ensures
            b == cfg.enabled,
    {
        cfg.enabled
    }

    /// Routing is active when enabled.
    pub fn is_routing_enabled(cfg: &RoutingConfig) -> (b: bool)
        ensures
            b == cfg.enabled,
    {
        cfg.enabled
    }

    /// Tool calling is active when enabled with at least one tool.
    pub fn is_tool_calling_enabled(cfg: &ToolConfig) -> (b: bool)
        ensures
            b == spec_tool_calling_enabled(*cfg),
    {
        cfg.enabled && !cfg.tools.is_empty()
    }

    /// Graph traversal is active when enabled.
    pub fn is_graph_enabled(cfg: &GraphConfig) -> (b: bool)
        ensures
            b == cfg.enabled,
    {
        cfg.enabled
    }

    /// HyDE is active when enabled.
    pub fn is_hyde_enabled(cfg: &HydeConfig) -> (b: bool)
        ensures
            b == cfg.enabled,
    {
        cfg.enabled
    }

    /// Multimodal retrieval is active when enabled with more than one modality.
    pub fn is_multimodal_enabled(cfg: &MultimodalConfig) -> (b: bool)
        ensures
            b == spec_multimodal_enabled(*cfg),
    {
        cfg.enabled && cfg.modalities.len() > 1
    }
}

impl Default for TopologyAnalyzer {
    fn default() -> (a: Self) {
        TopologyAnalyzer
    }
}

/// Sparse retrieval is listed exactly when fusion is enabled, and dense
/// retrieval always comes first.
pub proof fn lemma_sparse_iff_fusion(c: PipelineConfig)
    ensures
        spec_components(c)[0] == PipelineComponent::DenseRetrieval,
        spec_components(c).contains(PipelineComponent::SparseRetrieval) <==> c.fusion.enabled,
        spec_components(c).contains(PipelineComponent::Fusion) <==> c.fusion.enabled,
{
    let s = spec_components(c);
    if c.fusion.enabled {
        assert(s[1] == PipelineComponent::SparseRetrieval);
        assert(s.contains(PipelineComponent::SparseRetrieval));
        let k = 2 + (if spec_reranking_enabled(c.reranking) { 1int } else { 0 });
        assert(s[k] == PipelineComponent::Fusion);
        assert(s.contains(PipelineComponent::Fusion));
    } else {
        assert forall|i: int| 0 <= i < s.len() implies s[i] != PipelineComponent::SparseRetrieval
            && s[i] != PipelineComponent::Fusion by {}
    }
}

/// A configuration analyzes as naive exactly when none of the advanced
/// components (re-ranking, fusion, routing, tools, graph, HyDE, multimodal)
/// is active.
pub proof fn lemma_naive_iff_no_advanced(c: PipelineConfig, t: PipelineTopology)
    requires
        spec_topology_of(c, t),
    ensures
        t.spec_is_naive() <==> !(t.has_reranking || t.has_fusion || t.has_routing
            || t.has_tool_calling || t.has_graph || t.has_hyde || t.has_multimodal),
{
    let s = spec_components(c);
    assert(t.components@ == s);
    if t.has_reranking || t.has_fusion || t.has_routing || t.has_tool_calling || t.has_graph
        || t.has_hyde || t.has_multimodal {
        // Some advanced component occupies position 1.
        assert(!is_basic_component(s[1]));
    } else {
        assert forall|i: int| 0 <= i < s.len() implies #[trigger] is_basic_component(s[i]) by {}
    }
}

/// Appending `c` when `present` holds adds `c` to the elements and nothing
/// else.
proof fn lemma_push_if_contains(
    s: Seq<PipelineComponent>,
    present: bool,
    c: PipelineComponent,
    x: PipelineComponent,
)
    ensures
        push_if(s, present, c).contains(x) <==> (s.contains(x) || (present && x == c)),
{
    if present {
        let r = s.push(c);
        if s.contains(x) {
            let i = choose|i: int| 0 <= i < s.len() && s[i] == x;
            assert(r[i] == x);
        }
        if x == c {
            assert(r[s.len() as int] == x);
        }
        if r.contains(x) && x != c {
            let i = choose|i: int| 0 <= i < r.len() && r[i] == x;
            assert(i < s.len());
            assert(s[i] == x);
        }
    }
}

/// Tool calling is detected exactly when tools are enabled and at least one
/// tool is configured; such a pipeline is iterative and lists the
/// tool-calling component, and any other lists no such component.
pub proof fn lemma_tool_calling_detected(c: PipelineConfig, t: PipelineTopology)
    requires
        spec_topology_of(c, t),
    ensures
        t.has_tool_calling <==> (c.tools.enabled && c.tools.tools@.len() >= 1),
        c.tools.enabled && c.tools.tools@.len() >= 1 ==> t.is_iterative,
        t.components@.contains(PipelineComponent::ToolCalling) <==> (c.tools.enabled
            && c.tools.tools@.len() >= 1),
{
    let x = PipelineComponent::ToolCalling;
    let s0: Seq<PipelineComponent> = seq![PipelineComponent::DenseRetrieval];
    assert(!s0.contains(x)) by {
        if s0.contains(x) {
            let i = choose|i: int| 0 <= i < s0.len() && s0[i] == x;
            assert(s0[i] == PipelineComponent::DenseRetrieval);
        }
    }
    let s1 = push_if(s0, c.fusion.enabled, PipelineComponent::SparseRetrieval);
    let s2 = push_if(s1, spec_reranking_enabled(c.reranking), PipelineComponent::Reranking);
    let s3 = push_if(s2, c.fusion.enabled, PipelineComponent::Fusion);
    let s4 = push_if(s3, c.routing.enabled, PipelineComponent::Routing);
    let s5 = push_if(s4, spec_tool_calling_enabled(c.tools), PipelineComponent::ToolCalling);
    let s6 = push_if(s5, c.graph.enabled, PipelineComponent::GraphTraversal);
    let s7 = push_if(s6, c.hyde.enabled, PipelineComponent::HyDE);
    let s8 = push_if(s7, spec_multimodal_enabled(c.multimodal), PipelineComponent::Multimodal);
    let s9 = push_if(s8, c.context.prune_irrelevant, PipelineComponent::ContextCompression);
    lemma_push_if_contains(s0, c.fusion.enabled, PipelineComponent::SparseRetrieval, x);
    lemma_push_if_contains(s1, spec_reranking_enabled(c.reranking), PipelineComponent::Reranking, x);
    lemma_push_if_contains(s2, c.fusion.enabled, PipelineComponent::Fusion, x);
    lemma_push_if_contains(s3, c.routing.enabled, PipelineComponent::Routing, x);
    lemma_push_if_contains(s4, spec_tool_calling_enabled(c.tools), x, x);
    lemma_push_if_contains(s5, c.graph.enabled, PipelineComponent::GraphTraversal, x);
    lemma_push_if_contains(s6, c.hyde.enabled, PipelineComponent::HyDE, x);
    lemma_push_if_contains(s7, spec_multimodal_enabled(c.multimodal), PipelineComponent::Multimodal, x);
    lemma_push_if_contains(s8, c.context.prune_irrelevant, PipelineComponent::ContextCompression, x);
    assert(t.components@ == s9);
}

/// The other detections follow the configuration: re-ranking needs a
/// model, multimodal retrieval at least two modalities; retrieval is
/// multi-stage exactly with fusion or graph traversal (three stages with
/// both), and iterative exactly with routing or tool calling.
pub proof fn lemma_detection_conditions(c: PipelineConfig, t: PipelineTopology)
    requires
        spec_topology_of(c, t),
    ensures
        t.has_reranking <==> (c.reranking.enabled && c.reranking.model@.len() >= 1),
        t.has_multimodal <==> (c.multimodal.enabled && c.multimodal.modalities@.len() >= 2),
        t.has_fusion <==> c.fusion.enabled,
        t.has_graph <==> c.graph.enabled,
        t.retrieval_stages >= 2 <==> (c.fusion.enabled || c.graph.enabled),
        t.retrieval_stages == 3 <==> (c.fusion.enabled && c.graph.enabled),
        t.retrieval_stages >= 1,
        t.is_iterative <==> (c.routing.enabled || t.has_tool_calling),
{
}

} // verus!
