//! Pipeline configuration model.
//!
//! Fractional settings (thresholds, temperature, metric weights) are held as
//! fixed-point integers in basis points: `10_000` stands for `1.0`, so a
//! similarity threshold of `0.65` is stored as `6_500`.

use vstd::prelude::*;
use vstd::string::*;

verus! {

/// One whole unit (`1.0`) expressed in basis points.
pub const BASIS_POINTS_ONE: i64 = 10000;

/// Embedding model configuration.
#[derive(Debug, Clone)]
pub struct EmbeddingConfig {
    pub model: String,
    pub dimension: usize,
    pub distance_metric: String,
}

impl EmbeddingConfig {
    /// The values `EmbeddingConfig::default` produces.
    pub open spec fn is_default(&self) -> bool {
        &&& self.model@ == "text-embedding-3-small"@
        &&& self.dimension == 1536
        &&& self.distance_metric@ == "cosine"@
    }
}

impl Default for EmbeddingConfig {
    fn default() -> (c: Self)
        ensures
            c.is_default(),
    {
        EmbeddingConfig {
            model: String::from_str("text-embedding-3-small"),
            dimension: 1536,
            distance_metric: String::from_str("cosine"),
        }
    }
}

/// Vector store configuration.
#[derive(Debug, Clone)]
pub struct VectorStoreConfig {
    pub provider: String,
    pub collection: String,
    pub top_k: usize,
    /// Minimum similarity, in basis points.
    pub similarity_threshold: i64,
}

impl VectorStoreConfig {
    /// The values `VectorStoreConfig::default` produces.
    pub open spec fn is_default(&self) -> bool {
        &&& self.provider@ == "qdrant"@
        &&& self.collection@ == "knowledge_base"@
        &&& self.top_k == 5
        &&& self.similarity_threshold == 6500
    }
}

impl Default for VectorStoreConfig {
    fn default() -> (c: Self)
        ensures
            c.is_default(),
    {
        VectorStoreConfig {
            provider: String::from_str("qdrant"),
            collection: String::from_str("knowledge_base"),
            top_k: 5,
            similarity_threshold: 6500,
        }
    }
}

/// LLM configuration.
#[derive(Debug, Clone)]
pub struct LlmConfig {
    pub provider: String,
    pub model: String,
    pub endpoint: String,
    pub max_tokens: usize,
    /// Sampling temperature, in basis points.
    pub temperature: i64,
}

impl LlmConfig {
    /// The values `LlmConfig::default` produces.
    pub open spec fn is_default(&self) -> bool {
        &&& self.provider@ == "openai"@
        &&& self.model@ == "gpt-4o-mini"@
        &&& self.endpoint@ == "https://api.openai.com/v1"@
        &&& self.max_tokens == 1024
        &&& self.temperature == 2000
    }
}

impl Default for LlmConfig {
    fn default() -> (c: Self)
        ensures
            c.is_default(),
    {
        LlmConfig {
            provider: String::from_str("openai"),
            model: String::from_str("gpt-4o-mini"),
            endpoint: String::from_str("https://api.openai.com/v1"),
            max_tokens: 1024,
            temperature: 2000,
        }
    }
}

/// Context construction configuration.
#[derive(Debug, Clone)]
pub struct ContextConfig {
    pub max_context_tokens: usize,
    /// Deduplication similarity threshold, in basis points.
    pub deduplicate_threshold: i64,
    pub prune_irrelevant: bool,
}

impl ContextConfig {
    /// The values `ContextConfig::default` produces.
    pub open spec fn is_default(&self) -> bool {
        &&& self.max_context_tokens == 4096
        &&& self.deduplicate_threshold == 8500
        &&& self.prune_irrelevant
    }
}

impl Default for ContextConfig {
    fn default() -> (c: Self)
        ensures
            c.is_default(),
    {
        ContextConfig { max_context_tokens: 4096, deduplicate_threshold: 8500, prune_irrelevant: true }
    }
}

/// Number of re-ranked results kept when a configuration omits `top_n`.
pub fn default_top_n_rerank() -> (n: usize)
    ensures
        n == 3,
{
    3
}

/// Re-ranking configuration (Advanced RAG).
#[derive(Debug, Clone)]
pub struct RerankingConfig {
    pub enabled: bool,
    pub model: String,
    pub top_n: usize,
}

impl Default for RerankingConfig {
    fn default() -> (c: Self)
        ensures
            !c.enabled,
            c.model@.len() == 0,
            c.top_n == 0,
    {
        RerankingConfig { enabled: false, model: String::new(), top_n: 0 }
    }
}

/// Hybrid search fusion configuration (Advanced/Modular RAG).
#[derive(Debug, Clone)]
pub struct FusionConfig {
    pub enabled: bool,
    pub method: String,
}

impl Default for FusionConfig {
    fn default() -> (c: Self)
        ensures
            !c.enabled,
            c.method@.len() == 0,
    {
        FusionConfig { enabled: false, method: String::new() }
    }
}

/// LLM-driven routing configuration (Modular/Agentic RAG).
#[derive(Debug, Clone)]
pub struct RoutingConfig {
    pub enabled: bool,
    pub routes: Vec<String>,
}

impl Default for RoutingConfig {
    fn default() -> (c: Self)
        ensures
            !c.enabled,
            c.routes@.len() == 0,
    {
        RoutingConfig { enabled: false, routes: Vec::new() }
    }
}

/// Tool-calling configuration (Agentic RAG).
#[derive(Debug, Clone)]
pub struct ToolConfig {
    pub enabled: bool,
    pub tools: Vec<String>,
}

impl Default for ToolConfig {
    fn default() -> (c: Self)
        ensures
            !c.enabled,
            c.tools@.len() == 0,
    {
        ToolConfig { enabled: false, tools: Vec::new() }
    }
}

/// Knowledge graph configuration (Graph RAG).
#[derive(Debug, Clone)]
pub struct GraphConfig {
    pub enabled: bool,
    pub entity_types: Vec<String>,
}

impl Default for GraphConfig {
    fn default() -> (c: Self)
        ensures
            !c.enabled,
            c.entity_types@.len() == 0,
    {
        GraphConfig { enabled: false, entity_types: Vec::new() }
    }
}

/// HyDE configuration (Hypothetical Document Embeddings).
#[derive(Debug, Clone)]
pub struct HydeConfig {
    pub enabled: bool,
    pub generation_model: String,
}

impl Default for HydeConfig {
    fn default() -> (c: Self)
        ensures
            !c.enabled,
            c.generation_model@.len() == 0,
    {
        HydeConfig { enabled: false, generation_model: String::new() }
    }
}

/// Multimodal retrieval configuration.
#[derive(Debug, Clone)]
pub struct MultimodalConfig {
    pub enabled: bool,
    pub modalities: Vec<String>,
}

impl Default for MultimodalConfig {
    fn default() -> (c: Self)
        ensures
            !c.enabled,
            c.modalities@.len() == 0,
    {
        MultimodalConfig { enabled: false, modalities: Vec::new() }
    }
}

/// Relevance weight used when a configuration omits it, in basis points.
pub fn default_relevance_weight() -> (w: i64)
    ensures
        w == 3500,
{
    3500
}

/// Efficiency weight used when a configuration omits it, in basis points.
pub fn default_efficiency_weight() -> (w: i64)
    ensures
        w == 3500,
{
    3500
}

/// Grounding weight used when a configuration omits it, in basis points.
pub fn default_grounding_weight() -> (w: i64)
    ensures
        w == 3000,
{
    3000
}

/// Metric weight override configuration.
///
/// When `override_weights` is true, the provided weights (basis points) are
/// used instead of the architecture-specific defaults.
#[derive(Debug, Clone)]
pub struct MetricsConfig {
    pub override_weights: bool,
    pub relevance_weight: i64,
    pub efficiency_weight: i64,
    pub grounding_weight: i64,
}

impl MetricsConfig {
    /// The values `MetricsConfig::default` produces.
    pub open spec fn is_default(&self) -> bool {
        &&& !self.override_weights
        &&& self.relevance_weight == 3500
        &&& self.efficiency_weight == 3500
        &&& self.grounding_weight == 3000
    }
}

impl Default for MetricsConfig {
    fn default() -> (c: Self)
        ensures
            c.is_default(),
    {
        MetricsConfig {
            override_weights: false,
            relevance_weight: 3500,
            efficiency_weight: 3500,
            grounding_weight: 3000,
        }
    }
}

/// Master pipeline configuration.
#[derive(Debug, Clone)]
pub struct PipelineConfig {
    pub name: String,
    pub description: String,
    pub embedding: EmbeddingConfig,
    pub vector_store: VectorStoreConfig,
    pub llm: LlmConfig,
    pub context: ContextConfig,
    pub reranking: RerankingConfig,
    pub fusion: FusionConfig,
    pub routing: RoutingConfig,
    pub tools: ToolConfig,
    pub graph: GraphConfig,
    pub hyde: HydeConfig,
    pub multimodal: MultimodalConfig,
    pub metrics: MetricsConfig,
}

impl PipelineConfig {
    /// The values `PipelineConfig::default` produces: every optional
    /// component disabled and empty.
    pub open spec fn is_default(&self) -> bool {
        &&& self.name@ == "Default-RAG-Pipeline"@
        &&& self.description@ == "Standard RAG pipeline configuration"@
        &&& self.embedding.is_default()
        &&& self.vector_store.is_default()
        &&& self.llm.is_default()
        &&& self.context.is_default()
        &&& !self.reranking.enabled && self.reranking.model@.len() == 0
            && self.reranking.top_n == 0
        &&& !self.fusion.enabled && self.fusion.method@.len() == 0
        &&& !self.routing.enabled && self.routing.routes@.len() == 0
        &&& !self.tools.enabled && self.tools.tools@.len() == 0
        &&& !self.graph.enabled && self.graph.entity_types@.len() == 0
        &&& !self.hyde.enabled && self.hyde.generation_model@.len() == 0
        &&& !self.multimodal.enabled && self.multimodal.modalities@.len() == 0
        &&& self.metrics.is_default()
    }
}

impl Default for PipelineConfig {
    fn default() -> (c: Self)
        ensures
            c.is_default(),
    {
        PipelineConfig {
            name: String::from_str("Default-RAG-Pipeline"),
            description: String::from_str("Standard RAG pipeline configuration"),
            embedding: EmbeddingConfig::default(),
            vector_store: VectorStoreConfig::default(),
            llm: LlmConfig::default(),
            context: ContextConfig::default(),
            reranking: RerankingConfig::default(),
            fusion: FusionConfig::default(),
            routing: RoutingConfig::default(),
            tools: ToolConfig::default(),
            graph: GraphConfig::default(),
            hyde: HydeConfig::default(),
            multimodal: MultimodalConfig::default(),
            metrics: MetricsConfig::default(),
        }
    }
}

} // verus!
