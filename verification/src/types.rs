//! Core enumerations of the inspector: the RAG architecture families, the
//! inspection modes and the per-chunk verdicts.

use vstd::prelude::*;

verus! {

/// RAG architecture type under inspection.
#[derive(Debug, Clone, Copy, PartialEq, Eq, Structural)]
pub enum RagArchitecture {
    /// Simple linear pipeline: embed, search, stuff, generate
    Naive,
    /// Adds re-ranking, query expansion, and hybrid search
    Advanced,
    /// Multi-stage pipeline with independent configurable modules
    Modular,
    /// LLM-driven routing, tool-use, and iterative retrieval
    Agentic,
    /// Graph-based retrieval with entity relationships
    Graph,
    /// Hypothetical Document Embeddings
    Hyde,
    /// Retrieves and fuses text, images, and structured data
    Multimodal,
}

/// Every architecture, in declaration order.
pub open spec fn all_architectures() -> Seq<RagArchitecture> {
    seq![
        RagArchitecture::Naive,
        RagArchitecture::Advanced,
        RagArchitecture::Modular,
        RagArchitecture::Agentic,
        RagArchitecture::Graph,
        RagArchitecture::Hyde,
        RagArchitecture::Multimodal,
    ]
}

/// Human-readable name of an architecture.
pub open spec fn spec_architecture_name(a: RagArchitecture) -> Seq<char> {
    match a {
        RagArchitecture::Naive => "Naive (Linear)"@,
        RagArchitecture::Advanced => "Advanced (Re-ranked + Hybrid)"@,
        RagArchitecture::Modular => "Modular (Multi-stage)"@,
        RagArchitecture::Agentic => "Agentic (LLM-driven Routing)"@,
        RagArchitecture::Graph => "Graph (Entity-relationship)"@,
        RagArchitecture::Hyde => "HyDE (Hypothetical Document)"@,
        RagArchitecture::Multimodal => "Multimodal (Cross-modal Fusion)"@,
    }
}

/// Short description of what an architecture's diagnostics concentrate on.
pub open spec fn spec_diagnostic_focus(a: RagArchitecture) -> Seq<char> {
    match a {
        RagArchitecture::Naive => "Single-pass dense retrieval with direct context stuffing"@,
        RagArchitecture::Advanced =>
            "Re-ranking quality, hybrid search fusion, and query expansion effectiveness"@,
        RagArchitecture::Modular =>
            "Inter-module contract validation, stage isolation, and pipeline orchestration"@,
        RagArchitecture::Agentic =>
            "Tool-use decision accuracy, retrieval iteration depth, and routing correctness"@,
        RagArchitecture::Graph =>
            "Entity extraction coverage, relationship traversal depth, and community detection"@,
        RagArchitecture::Hyde =>
            "Hypothetical document quality, embedding drift, and retrieval precision lift"@,
        RagArchitecture::Multimodal =>
            "Cross-modal alignment, modality weighting, and fusion strategy effectiveness"@,
    }
}

/// The diagnostic layers inspected for an architecture, in display order.
pub open spec fn spec_diagnostic_layers(a: RagArchitecture) -> Seq<Seq<char>> {
    match a {
        RagArchitecture::Naive => seq![
            "Embedding quality"@,
            "Top-K selection"@,
            "Context stuffing ratio"@,
        ],
        RagArchitecture::Advanced => seq![
            "Query expansion coverage"@,
            "Hybrid search fusion (BM25 + dense)"@,
            "Re-ranker score delta"@,
            "Cross-encoder precision"@,
        ],
        RagArchitecture::Modular => seq![
            "Module interface contracts"@,
            "Stage latency breakdown"@,
            "Pipeline DAG validation"@,
            "Fallback chain integrity"@,
        ],
        RagArchitecture::Agentic => seq![
            "LLM routing accuracy"@,
            "Tool selection relevance"@,
            "Retrieval iteration depth"@,
            "Self-correction loops"@,
            "Token budget per hop"@,
        ],
        RagArchitecture::Graph => seq![
            "Entity extraction coverage"@,
            "Relationship type distribution"@,
            "Community cluster quality"@,
            "Graph traversal depth"@,
            "Subgraph relevance"@,
        ],
        RagArchitecture::Hyde => seq![
            "Hypothetical document quality"@,
            "Embedding drift score"@,
            "Retrieval precision lift vs naive"@,
            "Generation-retrieval alignment"@,
        ],
        RagArchitecture::Multimodal => seq![
            "Cross-modal embedding alignment"@,
            "Modality weight distribution"@,
            "Fusion strategy (concat / attention)"@,
            "Modality gap score"@,
            "Multimodal context packing"@,
        ],
    }
}

impl RagArchitecture {
    /// Human-readable name, e.g. "Naive (Linear)".
    pub fn display_name(&self) -> (s: &'static str)
        ensures
            s@ == spec_architecture_name(*self),
    {
        match self {
            RagArchitecture::Naive => "Naive (Linear)",
            RagArchitecture::Advanced => "Advanced (Re-ranked + Hybrid)",
            RagArchitecture::Modular => "Modular (Multi-stage)",
            RagArchitecture::Agentic => "Agentic (LLM-driven Routing)",
            RagArchitecture::Graph => "Graph (Entity-relationship)",
            RagArchitecture::Hyde => "HyDE (Hypothetical Document)",
            RagArchitecture::Multimodal => "Multimodal (Cross-modal Fusion)",
        }
    }

    /// Return a short diagnostic description of what this architecture adds.
    pub fn diagnostic_focus(&self) -> (s: &'static str)
        ensures
            s@ == spec_diagnostic_focus(*self),
    {
        match self {
            RagArchitecture::Naive => "Single-pass dense retrieval with direct context stuffing",
            RagArchitecture::Advanced => {
                "Re-ranking quality, hybrid search fusion, and query expansion effectiveness"
            },
            RagArchitecture::Modular => {
                "Inter-module contract validation, stage isolation, and pipeline orchestration"
            },
            RagArchitecture::Agentic => {
                "Tool-use decision accuracy, retrieval iteration depth, and routing correctness"
            },
            RagArchitecture::Graph => {
                "Entity extraction coverage, relationship traversal depth, and community detection"
            },
            RagArchitecture::Hyde => {
                "Hypothetical document quality, embedding drift, and retrieval precision lift"
            },
            RagArchitecture::Multimodal => {
                "Cross-modal alignment, modality weighting, and fusion strategy effectiveness"
            },
        }
    }

    /// Architecture-specific diagnostic layers to inspect.
    pub fn diagnostic_layers(&self) -> (layers: Vec<&'static str>)
        ensures
            layers@.map_values(|s: &'static str| s@) == spec_diagnostic_layers(*self),
    {
        let layers = match self {
            RagArchitecture::Naive => vec![
                "Embedding quality",
                "Top-K selection",
                "Context stuffing ratio",
            ],
            RagArchitecture::Advanced => vec![
                "Query expansion coverage",
                "Hybrid search fusion (BM25 + dense)",
                "Re-ranker score delta",
                "Cross-encoder precision",
            ],
            RagArchitecture::Modular => vec![
                "Module interface contracts",
                "Stage latency breakdown",
                "Pipeline DAG validation",
                "Fallback chain integrity",
            ],
            RagArchitecture::Agentic => vec![
                "LLM routing accuracy",
                "Tool selection relevance",
                "Retrieval iteration depth",
                "Self-correction loops",
                "Token budget per hop",
            ],
            RagArchitecture::Graph => vec![
                "Entity extraction coverage",
                "Relationship type distribution",
                "Community cluster quality",
                "Graph traversal depth",
                "Subgraph relevance",
            ],
            RagArchitecture::Hyde => vec![
                "Hypothetical document quality",
                "Embedding drift score",
                "Retrieval precision lift vs naive",
                "Generation-retrieval alignment",
            ],
            RagArchitecture::Multimodal => vec![
                "Cross-modal embedding alignment",
                "Modality weight distribution",
                "Fusion strategy (concat / attention)",
                "Modality gap score",
                "Multimodal context packing",
            ],
        };
        assert(layers@.map_values(|s: &'static str| s@) =~= spec_diagnostic_layers(*self));
        layers
    }
}


/// Distinct architectures have distinct diagnostic focus descriptions.
pub proof fn lemma_diagnostic_focus_injective(a: RagArchitecture, b: RagArchitecture)
    requires
        a != b,
    ensures
        spec_diagnostic_focus(a) != spec_diagnostic_focus(b),
{
    reveal_strlit("Single-pass dense retrieval with direct context stuffing");
    reveal_strlit("Re-ranking quality, hybrid search fusion, and query expansion effectiveness");
    reveal_strlit("Inter-module contract validation, stage isolation, and pipeline orchestration");
    reveal_strlit("Tool-use decision accuracy, retrieval iteration depth, and routing correctness");
    reveal_strlit("Entity extraction coverage, relationship traversal depth, and community detection");
    reveal_strlit("Hypothetical document quality, embedding drift, and retrieval precision lift");
    reveal_strlit("Cross-modal alignment, modality weighting, and fusion strategy effectiveness");
    let fa = spec_diagnostic_focus(a);
    let fb = spec_diagnostic_focus(b);
    assert(fa[0] != fb[0] || fa[1] != fb[1]);
}

/// Every architecture has at least one diagnostic layer.
pub proof fn lemma_diagnostic_layers_nonempty(a: RagArchitecture)
    ensures
        spec_diagnostic_layers(a).len() > 0,
{
}

/// Inspection mode specifying the granularity of the RAG pipeline analysis.
#[derive(Debug, Clone, Copy, PartialEq, Eq, Structural)]
pub enum InspectMode {
    /// Full inspection across retrieval, context construction, and LLM generation layers
    Full,
    /// Inspect only the retrieval and vector search layer
    Retrieval,
    /// Inspect retrieval and context assembly / deduplication efficiency
    Context,
    /// High-level summary inspection
    Quick,
}

/// Human-readable name of an inspection mode.
pub open spec fn spec_mode_name(m: InspectMode) -> Seq<char> {
    match m {
        InspectMode::Full => "Full Pipeline"@,
        InspectMode::Retrieval => "Retrieval Layer Only"@,
        InspectMode::Context => "Context Construction Only"@,
        InspectMode::Quick => "Quick Diagnostic"@,
    }
}

impl InspectMode {
    /// Human-readable name, e.g. "Full Pipeline".
    pub fn display_name(&self) -> (s: &'static str)
        ensures
            s@ == spec_mode_name(*self),
    {
        match self {
            InspectMode::Full => "Full Pipeline",
            InspectMode::Retrieval => "Retrieval Layer Only",
            InspectMode::Context => "Context Construction Only",
            InspectMode::Quick => "Quick Diagnostic",
        }
    }
}

/// Diagnostic verdict for an individual retrieved chunk.
#[derive(Debug, Clone, Copy, PartialEq, Eq, Structural)]
pub enum Verdict {
    /// High relevance score; chunk directly addresses the query
    Relevant,
    /// Moderate relevance; provides supporting context
    PartiallyRelevant,
    /// Low similarity score or off-topic context
    Irrelevant,
    /// Semantically redundant with a higher-ranked chunk
    Duplicate,
    /// Low confidence / ambiguous retrieval score
    LowConfidence,
}

/// Terminal badge of a verdict.
pub open spec fn spec_badge(v: Verdict) -> Seq<char> {
    match v {
        Verdict::Relevant => "✅ RELEVANT"@,
        Verdict::PartiallyRelevant => "⚠️ PARTIAL"@,
        Verdict::Irrelevant => "❌ IRRELEVANT"@,
        Verdict::Duplicate => "🔄 DUPLICATE"@,
        Verdict::LowConfidence => "❓ LOW CONF"@,
    }
}

/// Color name used to render a verdict.
pub open spec fn spec_color_code(v: Verdict) -> Seq<char> {
    match v {
        Verdict::Relevant => "green"@,
        Verdict::PartiallyRelevant => "yellow"@,
        Verdict::Irrelevant => "red"@,
        Verdict::Duplicate => "magenta"@,
        Verdict::LowConfidence => "cyan"@,
    }
}

impl Verdict {
    /// Badge shown in reports, e.g. "✅ RELEVANT".
    pub fn badge(&self) -> (s: &'static str)
        ensures
            s@ == spec_badge(*self),
    {
        match self {
            Verdict::Relevant => "✅ RELEVANT",
            Verdict::PartiallyRelevant => "⚠️ PARTIAL",
            Verdict::Irrelevant => "❌ IRRELEVANT",
            Verdict::Duplicate => "🔄 DUPLICATE",
            Verdict::LowConfidence => "❓ LOW CONF",
        }
    }

    /// Color name used for the verdict in terminal output.
    pub fn color_code(&self) -> (s: &'static str)
        ensures
            s@ == spec_color_code(*self),
    {
        match self {
            Verdict::Relevant => "green",
            Verdict::PartiallyRelevant => "yellow",
            Verdict::Irrelevant => "red",
            Verdict::Duplicate => "magenta",
            Verdict::LowConfidence => "cyan",
        }
    }

    /// The text a verdict displays as (its badge).
    pub fn display_name(&self) -> (s: &'static str)
        ensures
            s@ == spec_badge(*self),
    {
        self.badge()
    }
}

/// Detailed information about a single retrieved document chunk.
#[derive(Debug, Clone)]
pub struct ChunkInfo {
    /// Identifier for the chunk (e.g. "chunk_02")
    pub id: String,
    /// Source document file path or URI
    pub source_doc: String,
    /// Raw textual content of the chunk
    pub content: String,
    /// Vector similarity score, in basis points (0 to 10_000)
    pub score: u32,
    /// Token count of the content
    pub token_count: usize,
    /// Diagnostic verdict
    pub verdict: Verdict,
    /// Whether key concepts from this chunk were detected in the generated answer
    pub is_used_in_gen: bool,
    /// Explanatory rationale for the verdict
    pub verdict_reason: String,
}

/// Detailed metrics for the vector retrieval layer.
#[derive(Debug, Clone)]
pub struct RetrievalResult {
    /// Configured Top-K parameter
    pub top_k: usize,
    /// Number of chunks retrieved from the vector store
    pub chunks_retrieved: usize,
    /// Total token count across all retrieved chunks
    pub total_retrieved_tokens: usize,
    /// Retrieval latency in milliseconds
    pub latency_ms: u64,
    /// Individual chunk details
    pub chunks: Vec<ChunkInfo>,
    /// Average vector similarity score, in basis points (rounded)
    pub avg_similarity: u32,
}

/// Detailed metrics for context construction and token efficiency.
#[derive(Debug, Clone)]
pub struct ContextStage {
    /// Total prompt tokens fed into the LLM context
    pub total_tokens: usize,
    /// Tokens contributing to relevant context
    pub useful_tokens: usize,
    /// Tokens wasted on irrelevant or duplicate context
    pub wasted_tokens: usize,
    /// Token efficiency ratio (useful / total), in basis points (rounded)
    pub efficiency_ratio: u32,
    /// Count of duplicate chunks pruned
    pub deduplicated_chunks: usize,
    /// Count of low-relevance chunks pruned
    pub irrelevant_chunks_pruned: usize,
    /// Maximum context window limit of the model
    pub context_window_limit: usize,
}

/// Detailed metrics for the generation and grounding analysis.
#[derive(Debug, Clone)]
pub struct GenerationResult {
    /// Response text generated by the LLM
    pub generated_text: String,
    /// Prompt tokens passed to LLM
    pub prompt_tokens: usize,
    /// Completion tokens produced by LLM
    pub completion_tokens: usize,
    /// LLM inference latency in milliseconds
    pub latency_ms: u64,
    /// Hallucination index in basis points (0 = fully grounded, 10_000 = completely hallucinated)
    pub hallucination_score: u32,
    /// Share of statements attributed to retrieved context, in basis points
    pub source_attribution_pct: u32,
    /// IDs of chunks cited in the response
    pub cited_chunk_ids: Vec<String>,
    /// Statements or claims in the generation that lack source context support
    pub uncited_claims: Vec<String>,
}

/// Overall RAG inspection report containing findings across all pipeline stages.
#[derive(Debug, Clone)]
pub struct InspectionReport {
    /// User query inspected
    pub query: String,
    /// Name of the pipeline configuration used
    pub config_name: String,
    /// Name of the LLM / embedding model evaluated
    pub model_name: String,
    /// RAG architecture type inspected
    pub architecture: RagArchitecture,
    /// Inspection mode executed
    pub inspect_mode: InspectMode,
    /// RFC 3339 timestamp of inspection execution
    pub timestamp: String,
    /// Vector retrieval findings
    pub retrieval: RetrievalResult,
    /// Context window & token efficiency findings
    pub context: ContextStage,
    /// LLM generation and grounding findings
    pub generation: GenerationResult,
    /// Overall RAG health score in whole points (0 to 100 with non-negative
    /// metric weights)
    pub overall_score: i128,
    /// Actionable diagnostic recommendations
    pub recommendations: Vec<String>,
}

} // verus!
