//! The inspection engine: runs a query through a simulated RAG pipeline
//! (retrieval, context construction, generation) and scores each stage.

use vstd::prelude::*;
use vstd::string::*;
use crate::types::{
    ChunkInfo, ContextStage, GenerationResult, InspectMode, InspectionReport, RagArchitecture,
    RetrievalResult, Verdict,
};
use crate::config::{MetricsConfig, PipelineConfig};
use crate::metrics::{div_round, spec_weights_for, MetricWeights};
use crate::text::{
    bp_percent, bp_two_decimals, byte_len, contains_str, decimal_padded, decimal_usize, div_round_half_up, fixed,
    occurs_in, round_half_up, spec_bp_percent, spec_bp_two_decimals, spec_decimal, spec_decimal_padded, spec_fixed,
    to_lowercase, unicode_lowercase, utf8_size,
};

verus! {

// ---------------------------------------------------------------------------
// Token counting
// ---------------------------------------------------------------------------

/// The number of tokens that the cl100k BPE tokenizer of tiktoken gives a
/// text (special tokens allowed); `None` where the tokenizer fails on the
/// text.
pub uninterp spec fn cl100k_token_count(text: Seq<char>) -> Option<usize>;

/// Upper bound of every token count this module produces.
pub open spec fn token_cap() -> int {
    isize::MAX / 4 + 1
}

/// Six token counts and a margin of 50 fit in a `usize`.
proof fn lemma_token_sums_fit(k: int)
    requires
        0 <= k <= 6,
    ensures
        k * token_cap() + 50 <= usize::MAX,
        k * token_cap() <= (k + 1) * token_cap() == k * token_cap() + token_cap(),
{
    assert(usize::MAX == 2 * isize::MAX + 1);
    assert(isize::MAX >= 0x7fff_ffff);
    assert(k * token_cap() <= 6 * token_cap()) by (nonlinear_arith)
        requires
            0 <= k <= 6,
            token_cap() >= 0,
    ;
    assert((k + 1) * token_cap() == k * token_cap() + token_cap()) by (nonlinear_arith);
}

/// Tokens of a text: the cl100k count, or a quarter of the UTF-8 size
/// (rounded up) where the tokenizer fails on the text.
pub open spec fn spec_count_tokens(text: Seq<char>) -> nat {
    match cl100k_token_count(text) {
        Some(n) => n as nat,
        None => (utf8_size(text) + 3) as nat / 4,
    }
}

/// tiktoken's `cl100k_base_singleton()` (the cl100k tokenizer, loaded once
/// per process), then `CoreBPE::encode` on the text with every special
/// token allowed (what `encode_with_special_tokens` does, without its
/// unwrap), counted. The result is named `cl100k_token_count` of the text:
/// `None` where `encode` reports a regex engine error (its backtracking limit
/// on very long runs of whitespace), else the count, which is the length of
/// a `Vec<u32>`; std never allocates more than `isize::MAX` bytes, so the
/// count times four stays within `isize::MAX`. Unsaid: the singleton unwraps
/// the loading of the vocabulary compiled into tiktoken, which does not
/// depend on the text; the special-token search inside `encode` unwraps a
/// match of a literal pattern, which fancy-regex hands to the `regex` crate
/// and which cannot fail.
#[verifier::external_body]
fn cl100k_count(text: &str) -> (r: Option<usize>)
    ensures
        r == cl100k_token_count(text@),
        r matches Some(n) ==> n <= isize::MAX / 4,
{
    let bpe = tiktoken_rs::cl100k_base_singleton();
    match bpe.encode(text, &bpe.special_tokens()) {
        Ok((tokens, _)) => Some(tokens.len()),
        Err(_) => None,
    }
}

/// Count the tokens of a text with the cl100k BPE tokenizer, falling back to
/// an estimate of four bytes per token where the tokenizer fails on it.
pub fn count_tokens(text: &str) -> (n: usize)
    ensures
        n == spec_count_tokens(text@),
        n <= token_cap(),
{
    match cl100k_count(text) {
        Some(n) => n,
        None => {
            let len = byte_len(text);
            let q = len / 4;
            if len % 4 == 0 {
                q
            } else {
                q + 1
            }
        },
    }
}

// ---------------------------------------------------------------------------
// Mock retrieval corpus
// ---------------------------------------------------------------------------

pub const RUST_SOURCE_1: &'static str = "docs/tokio_architecture.md#chunk_01";
pub const RUST_CONTENT_1: &'static str = "Tokio task allocation memory overhead is minimal. Each async task requires ~64 bytes for allocation headers, plus stack frame state sized at compile-time by the future generator.";
pub const RUST_REASON_1: &'static str = "Direct exact match for task memory overhead details";
pub const RUST_SOURCE_2: &'static str = "docs/tokio_runtime.md#chunk_04";
pub const RUST_CONTENT_2: &'static str = "The Tokio multi-threaded runtime maintains worker queues. Tasks scheduled across workers incur zero-copy channel passing when using atomic ring buffers.";
pub const RUST_REASON_2: &'static str = "Relevant architectural context regarding worker task queues";
pub const RUST_SOURCE_3: &'static str = "docs/rust_memory_model.md#chunk_02";
pub const RUST_CONTENT_3: &'static str = "Tokio async task memory overhead consists of 64-byte allocation metadata and compiler-generated state machine structs.";
pub const RUST_REASON_3: &'static str = "91% semantic overlap with chunk_01 (redundant context)";
pub const RUST_SOURCE_4: &'static str = "docs/async_std_comparison.md#chunk_08";
pub const RUST_CONTENT_4: &'static str = "Async-std uses task budgets similar to Tokio to prevent cooperative starvation in busy event loops.";
pub const RUST_REASON_4: &'static str = "Peripheral comparison context; not directly addressing memory overhead";
pub const RUST_SOURCE_5: &'static str = "docs/postgres_connector.md#chunk_12";
pub const RUST_CONTENT_5: &'static str = "Database connection pooling in Rust requires connection timeout configuration under heavy TCP loads.";
pub const RUST_REASON_5: &'static str = "Off-topic vector match (low similarity 0.38 < threshold 0.65)";

pub const GENERIC_SOURCE_1: &'static str = "docs/rag_overview.md#chunk_01";
pub const GENERIC_CONTENT_1: &'static str = "Retrieval-Augmented Generation (RAG) combines dense vector search with large language models to ground responses in external knowledge stores.";
pub const GENERIC_REASON_1: &'static str = "Direct definition and primary concept match";
pub const GENERIC_SOURCE_2: &'static str = "docs/vector_databases.md#chunk_03";
pub const GENERIC_CONTENT_2: &'static str = "Vector indexes like HNSW and IVF-PQ provide fast approximate nearest neighbor search over high-dimensional embedding vectors.";
pub const GENERIC_REASON_2: &'static str = "Provides foundational vector search mechanics";
pub const GENERIC_SOURCE_3: &'static str = "docs/rag_architecture.md#chunk_02";
pub const GENERIC_CONTENT_3: &'static str = "RAG pipelines retrieve relevant documents from vector indices to inject into LLM prompts for grounded text generation.";
pub const GENERIC_REASON_3: &'static str = "88% semantic overlap with chunk_01 (redundant definition)";
pub const GENERIC_SOURCE_4: &'static str = "docs/prompt_engineering.md#chunk_05";
pub const GENERIC_CONTENT_4: &'static str = "Few-shot prompt formatting improves instruction following across generic LLM benchmarks.";
pub const GENERIC_REASON_4: &'static str = "General prompt context; weak alignment to specific retrieval query";
pub const GENERIC_SOURCE_5: &'static str = "docs/deployment_kubernetes.md#chunk_10";
pub const GENERIC_CONTENT_5: &'static str = "Deploying microservices on Kubernetes clusters requires proper readiness probe timeouts and resource limits.";
pub const GENERIC_REASON_5: &'static str = "Unrelated infrastructure chunk retrieved due to sparse index noise";

/// Number of chunks in each mock corpus.
pub const CORPUS_SIZE: usize = 5;

/// One entry of the mock corpus: a chunk as the vector store would return it.
#[derive(Clone, Copy)]
pub struct ChunkTemplate {
    pub source: &'static str,
    pub content: &'static str,
    /// Similarity score, in basis points.
    pub score: u32,
    pub verdict: Verdict,
    pub is_used: bool,
    pub reason: &'static str,
}

/// The `i`-th entry (from 0) of the Rust-flavoured corpus (`rust`) or of the
/// generic one.
pub open spec fn spec_template(rust: bool, i: int) -> ChunkTemplate {
    if rust {
        if i == 0 {
            ChunkTemplate { source: RUST_SOURCE_1, content: RUST_CONTENT_1, score: 9400,
                verdict: Verdict::Relevant, is_used: true, reason: RUST_REASON_1 }
        } else if i == 1 {
            ChunkTemplate { source: RUST_SOURCE_2, content: RUST_CONTENT_2, score: 8600,
                verdict: Verdict::PartiallyRelevant, is_used: true, reason: RUST_REASON_2 }
        } else if i == 2 {
            ChunkTemplate { source: RUST_SOURCE_3, content: RUST_CONTENT_3, score: 8400,
                verdict: Verdict::Duplicate, is_used: false, reason: RUST_REASON_3 }
        } else if i == 3 {
            ChunkTemplate { source: RUST_SOURCE_4, content: RUST_CONTENT_4, score: 5800,
                verdict: Verdict::PartiallyRelevant, is_used: false, reason: RUST_REASON_4 }
        } else {
            ChunkTemplate { source: RUST_SOURCE_5, content: RUST_CONTENT_5, score: 3800,
                verdict: Verdict::Irrelevant, is_used: false, reason: RUST_REASON_5 }
        }
    } else {
        if i == 0 {
            ChunkTemplate { source: GENERIC_SOURCE_1, content: GENERIC_CONTENT_1, score: 9200,
                verdict: Verdict::Relevant, is_used: true, reason: GENERIC_REASON_1 }
        } else if i == 1 {
            ChunkTemplate { source: GENERIC_SOURCE_2, content: GENERIC_CONTENT_2, score: 8300,
                verdict: Verdict::PartiallyRelevant, is_used: true, reason: GENERIC_REASON_2 }
        } else if i == 2 {
            ChunkTemplate { source: GENERIC_SOURCE_3, content: GENERIC_CONTENT_3, score: 8100,
                verdict: Verdict::Duplicate, is_used: false, reason: GENERIC_REASON_3 }
        } else if i == 3 {
            ChunkTemplate { source: GENERIC_SOURCE_4, content: GENERIC_CONTENT_4, score: 6100,
                verdict: Verdict::PartiallyRelevant, is_used: false, reason: GENERIC_REASON_4 }
        } else {
            ChunkTemplate { source: GENERIC_SOURCE_5, content: GENERIC_CONTENT_5, score: 3500,
                verdict: Verdict::Irrelevant, is_used: false, reason: GENERIC_REASON_5 }
        }
    }
}

/// The `i`-th entry (from 0) of the chosen mock corpus.
pub fn template_at(rust: bool, i: usize) -> (t: ChunkTemplate)
    requires
        i < CORPUS_SIZE,
    ensures
        t == spec_template(rust, i as int),
{
    if rust {
        if i == 0 {
            ChunkTemplate { source: RUST_SOURCE_1, content: RUST_CONTENT_1, score: 9400,
                verdict: Verdict::Relevant, is_used: true, reason: RUST_REASON_1 }
        } else if i == 1 {
            ChunkTemplate { source: RUST_SOURCE_2, content: RUST_CONTENT_2, score: 8600,
                verdict: Verdict::PartiallyRelevant, is_used: true, reason: RUST_REASON_2 }
        } else if i == 2 {
            ChunkTemplate { source: RUST_SOURCE_3, content: RUST_CONTENT_3, score: 8400,
                verdict: Verdict::Duplicate, is_used: false, reason: RUST_REASON_3 }
        } else if i == 3 {
            ChunkTemplate { source: RUST_SOURCE_4, content: RUST_CONTENT_4, score: 5800,
                verdict: Verdict::PartiallyRelevant, is_used: false, reason: RUST_REASON_4 }
        } else {
            ChunkTemplate { source: RUST_SOURCE_5, content: RUST_CONTENT_5, score: 3800,
                verdict: Verdict::Irrelevant, is_used: false, reason: RUST_REASON_5 }
        }
    } else {
        if i == 0 {
            ChunkTemplate { source: GENERIC_SOURCE_1, content: GENERIC_CONTENT_1, score: 9200,
                verdict: Verdict::Relevant, is_used: true, reason: GENERIC_REASON_1 }
        } else if i == 1 {
            ChunkTemplate { source: GENERIC_SOURCE_2, content: GENERIC_CONTENT_2, score: 8300,
                verdict: Verdict::PartiallyRelevant, is_used: true, reason: GENERIC_REASON_2 }
        } else if i == 2 {
            ChunkTemplate { source: GENERIC_SOURCE_3, content: GENERIC_CONTENT_3, score: 8100,
                verdict: Verdict::Duplicate, is_used: false, reason: GENERIC_REASON_3 }
        } else if i == 3 {
            ChunkTemplate { source: GENERIC_SOURCE_4, content: GENERIC_CONTENT_4, score: 6100,
                verdict: Verdict::PartiallyRelevant, is_used: false, reason: GENERIC_REASON_4 }
        } else {
            ChunkTemplate { source: GENERIC_SOURCE_5, content: GENERIC_CONTENT_5, score: 3500,
                verdict: Verdict::Irrelevant, is_used: false, reason: GENERIC_REASON_5 }
        }
    }
}

// ---------------------------------------------------------------------------
// Retrieval stage
// ---------------------------------------------------------------------------

/// The query is about Rust: its lowercase form mentions "rust", "tokio",
/// "async" or "memory".
pub open spec fn spec_is_rust_query(query: Seq<char>) -> bool {
    let l = unicode_lowercase(query);
    occurs_in(l, "rust"@) || occurs_in(l, "tokio"@) || occurs_in(l, "async"@) || occurs_in(
        l,
        "memory"@,
    )
}

/// Identifier of the `n`-th retrieved chunk (from 1): "chunk_01", "chunk_02", ...
pub open spec fn spec_chunk_id(n: nat) -> Seq<char> {
    "chunk_"@ + spec_decimal_padded(n, 2)
}

/// `c` is the chunk built from template `t` at position `i` (from 0).
pub open spec fn chunk_from_template(t: ChunkTemplate, i: int, c: ChunkInfo) -> bool {
    &&& c.id@ == spec_chunk_id((i + 1) as nat)
    &&& c.source_doc@ == t.source@
    &&& c.content@ == t.content@
    &&& c.score == t.score
    &&& c.token_count == spec_count_tokens(t.content@)
    &&& c.verdict == t.verdict
    &&& c.is_used_in_gen == t.is_used
    &&& c.verdict_reason@ == t.reason@
}

/// Sum of the token counts of the chunks.
pub open spec fn token_total(chunks: Seq<ChunkInfo>) -> int
    decreases chunks.len(),
{
    if chunks.len() == 0 {
        0
    } else {
        token_total(chunks.drop_last()) + chunks.last().token_count
    }
}

/// Sum of the similarity scores of the chunks, in basis points.
pub open spec fn score_total(chunks: Seq<ChunkInfo>) -> int
    decreases chunks.len(),
{
    if chunks.len() == 0 {
        0
    } else {
        score_total(chunks.drop_last()) + chunks.last().score
    }
}

/// Mean similarity of the chunks in basis points, rounded (0 for no chunk).
pub open spec fn mean_score(chunks: Seq<ChunkInfo>) -> int {
    if chunks.len() == 0 {
        0
    } else {
        round_half_up(score_total(chunks) as nat, chunks.len()) as int
    }
}

/// Number of chunks retrieved for a Top-K setting.
pub open spec fn retrieved_count(top_k: usize) -> int {
    if top_k < CORPUS_SIZE {
        top_k as int
    } else {
        CORPUS_SIZE as int
    }
}

/// `r` is what the retrieval stage reports for `query` with Top-K `top_k`:
/// the first `min(top_k, 5)` entries of the corpus chosen by the query, in
/// order, with their token counts, sums and mean score.
pub open spec fn spec_retrieval(query: Seq<char>, top_k: usize, r: RetrievalResult) -> bool {
    let rust = spec_is_rust_query(query);
    let n = retrieved_count(top_k);
    &&& r.top_k == top_k
    &&& r.chunks@.len() == n
    &&& r.chunks_retrieved == n
    &&& forall|i: int|
        0 <= i < n ==> #[trigger] chunk_from_template(spec_template(rust, i), i, r.chunks@[i])
    &&& r.total_retrieved_tokens == token_total(r.chunks@)
    &&& r.latency_ms == 42
    &&& r.avg_similarity == mean_score(r.chunks@)
}

/// Whether the lowercase query mentions "rust", "tokio", "async" or "memory".
pub fn is_rust_query(query: &str) -> (b: bool)
    ensures
        b == spec_is_rust_query(query@),
{
    let lower = to_lowercase(query);
    contains_str(lower.as_str(), "rust") || contains_str(lower.as_str(), "tokio")
        || contains_str(lower.as_str(), "async") || contains_str(lower.as_str(), "memory")
}

/// Identifier of the `n`-th retrieved chunk (from 1).
pub fn chunk_id(n: usize) -> (s: String)
    ensures
        s@ == spec_chunk_id(n as nat),
{
    let mut s = String::from_str("chunk_");
    let d = decimal_padded(n as u128, 2);
    s.append(d.as_str());
    s
}

/// Core inspection engine that runs a query through a RAG pipeline and
/// captures diagnostic metrics.
pub struct Inspector {
    pub config: PipelineConfig,
    pub model_override: Option<String>,
    pub architecture: RagArchitecture,
}

impl Inspector {
    /// Simulate vector database retrieval: the first Top-K chunks of the
    /// mock corpus that the query selects, with token counts and mean score.
    pub fn simulate_retrieval(&self, query: &str) -> (r: RetrievalResult)
        ensures
            spec_retrieval(query@, self.config.vector_store.top_k, r),
            r.total_retrieved_tokens <= r.chunks_retrieved * token_cap(),
    {
        let top_k = self.config.vector_store.top_k;
        let rust = is_rust_query(query);
        let mut chunks: Vec<ChunkInfo> = Vec::new();
        let mut total: usize = 0;
        let mut score_sum: u64 = 0;
        let mut i: usize = 0;
        while i < CORPUS_SIZE && i < top_k
            invariant
                i <= CORPUS_SIZE,
                i <= top_k,
                chunks@.len() == i,
                forall|k: int|
                    0 <= k < i ==> #[trigger] chunk_from_template(
                        spec_template(rust, k),
                        k,
                        chunks@[k],
                    ),
                total == token_total(chunks@),
                total <= i * token_cap(),
                score_sum == score_total(chunks@),
                score_sum <= i * 10000,
                forall|k: int| 0 <= k < i ==> #[trigger] chunks@[k].score <= 10000,
            decreases CORPUS_SIZE - i,
        {
            let t = template_at(rust, i);
            let tokens = count_tokens(t.content);
            proof {
                lemma_token_sums_fit(i as int);
                lemma_token_sums_fit(i + 1);
            }
            let chunk = ChunkInfo {
                id: chunk_id(i + 1),
                source_doc: String::from_str(t.source),
                content: String::from_str(t.content),
                score: t.score,
                token_count: tokens,
                verdict: t.verdict,
                is_used_in_gen: t.is_used,
                verdict_reason: String::from_str(t.reason),
            };
            let ghost before = chunks@;
            chunks.push(chunk);
            assert(chunks@.drop_last() == before);
            total = total + tokens;
            score_sum = score_sum + t.score as u64;
            i = i + 1;
        }
        let n = chunks.len();
        let avg: u32 = if n > 0 {
            div_round_half_up(score_sum as u128, n as u128) as u32
        } else {
            0
        };
        RetrievalResult {
            top_k,
            chunks_retrieved: n,
            total_retrieved_tokens: total,
            latency_ms: 42,
            chunks,
            avg_similarity: avg,
        }
    }
}

// ---------------------------------------------------------------------------
// Context construction stage
// ---------------------------------------------------------------------------

/// A chunk with this verdict contributes useful context.
pub open spec fn is_useful(v: Verdict) -> bool {
    v is Relevant || v is PartiallyRelevant
}

/// A chunk with this verdict is pruned as irrelevant.
pub open spec fn is_pruned(v: Verdict) -> bool {
    v is Irrelevant || v is LowConfidence
}

/// Tokens of the chunks that contribute useful context.
pub open spec fn useful_total(chunks: Seq<ChunkInfo>) -> int
    decreases chunks.len(),
{
    if chunks.len() == 0 {
        0
    } else {
        useful_total(chunks.drop_last()) + if is_useful(chunks.last().verdict) {
            chunks.last().token_count as int
        } else {
            0
        }
    }
}

/// Tokens of the duplicate, irrelevant and low-confidence chunks.
pub open spec fn wasted_total(chunks: Seq<ChunkInfo>) -> int
    decreases chunks.len(),
{
    if chunks.len() == 0 {
        0
    } else {
        wasted_total(chunks.drop_last()) + if is_useful(chunks.last().verdict) {
            0
        } else {
            chunks.last().token_count as int
        }
    }
}

/// Number of duplicate chunks.
pub open spec fn duplicate_count(chunks: Seq<ChunkInfo>) -> int
    decreases chunks.len(),
{
    if chunks.len() == 0 {
        0
    } else {
        duplicate_count(chunks.drop_last()) + if chunks.last().verdict is Duplicate {
            1int
        } else {
            0
        }
    }
}

/// Number of irrelevant or low-confidence chunks.
pub open spec fn pruned_count(chunks: Seq<ChunkInfo>) -> int
    decreases chunks.len(),
{
    if chunks.len() == 0 {
        0
    } else {
        pruned_count(chunks.drop_last()) + if is_pruned(chunks.last().verdict) {
            1int
        } else {
            0
        }
    }
}

/// `useful / total` in basis points, rounded; a context without tokens is
/// fully efficient.
pub open spec fn efficiency_bp(useful: int, total: int) -> int {
    if total > 0 {
        round_half_up((10000 * useful) as nat, total as nat) as int
    } else {
        10000
    }
}

/// `c` is the context stage built from the retrieved chunks with the given
/// context window limit.
pub open spec fn spec_context(chunks: Seq<ChunkInfo>, limit: usize, c: ContextStage) -> bool {
    &&& c.useful_tokens == useful_total(chunks)
    &&& c.wasted_tokens == wasted_total(chunks)
    &&& c.total_tokens == useful_total(chunks) + wasted_total(chunks)
    &&& c.efficiency_ratio == efficiency_bp(c.useful_tokens as int, c.total_tokens as int)
    &&& c.deduplicated_chunks == duplicate_count(chunks)
    &&& c.irrelevant_chunks_pruned == pruned_count(chunks)
    &&& c.context_window_limit == limit
}

/// The useful and the wasted tokens of chunks make up all their tokens, and
/// the counts of duplicate and pruned chunks are at most the chunk count.
pub proof fn lemma_token_split(chunks: Seq<ChunkInfo>)
    ensures
        useful_total(chunks) + wasted_total(chunks) == token_total(chunks),
        0 <= useful_total(chunks),
        0 <= wasted_total(chunks),
        0 <= duplicate_count(chunks) + pruned_count(chunks) <= chunks.len(),
        0 <= duplicate_count(chunks),
        0 <= pruned_count(chunks),
    decreases chunks.len(),
{
    if chunks.len() > 0 {
        lemma_token_split(chunks.drop_last());
    }
}

impl ContextStage {
    /// The stage's counts agree: useful and wasted tokens make up the total.
    pub open spec fn is_consistent(&self) -> bool {
        self.useful_tokens + self.wasted_tokens == self.total_tokens
    }
}

// ---------------------------------------------------------------------------
// Generation stage
// ---------------------------------------------------------------------------

pub const RUST_ANSWER: &'static str = "Tokio async task memory overhead is lightweight, requiring approximately 64 bytes for task allocation headers alongside compiler-generated state machine frames [chunk_01]. Worker threads schedule these tasks efficiently using lock-free atomic ring buffers [chunk_02]. Note that Tokio automatically caps default task stack size at 2MB per thread.";
pub const GENERIC_ANSWER: &'static str = "Retrieval-Augmented Generation (RAG) is an AI architecture that enhances LLMs by retrieving relevant context chunks from vector databases [chunk_01]. Vector databases index document embeddings using algorithms like HNSW for low-latency similarity search [chunk_02].";
pub const STACK_SIZE_CLAIM: &'static str = "Claim 'Tokio caps default task stack size at 2MB per thread' is not supported by retrieved context chunks.";

/// The text views of a list of strings.
pub open spec fn texts(v: Seq<String>) -> Seq<Seq<char>> {
    v.map_values(|s: String| s@)
}

/// The lowercase query mentions "rust" or "tokio".
pub open spec fn spec_mentions_rust(query: Seq<char>) -> bool {
    let l = unicode_lowercase(query);
    occurs_in(l, "rust"@) || occurs_in(l, "tokio"@)
}

/// `g` is the generation stage for the query, given the tokens retrieved.
pub open spec fn spec_generation(query: Seq<char>, retrieved_tokens: int, g: GenerationResult) -> bool {
    let rust = spec_mentions_rust(query);
    let answer = if rust {
        RUST_ANSWER@
    } else {
        GENERIC_ANSWER@
    };
    &&& g.generated_text@ == answer
    &&& g.prompt_tokens == retrieved_tokens + spec_count_tokens(query) + 50
    &&& g.completion_tokens == spec_count_tokens(answer)
    &&& g.latency_ms == 385
    &&& texts(g.cited_chunk_ids@) == seq!["chunk_01"@, "chunk_02"@]
    &&& texts(g.uncited_claims@) == if rust {
        seq![STACK_SIZE_CLAIM@]
    } else {
        Seq::<Seq<char>>::empty()
    }
    &&& g.hallucination_score == if rust {
        1800u32
    } else {
        400u32
    }
    &&& g.source_attribution_pct == 10000 - g.hallucination_score
}

impl GenerationResult {
    /// Hallucination and attribution are complementary shares.
    pub open spec fn is_consistent(&self) -> bool {
        self.hallucination_score + self.source_attribution_pct == 10000
    }
}

/// Whether the lowercase query mentions "rust" or "tokio".
pub fn mentions_rust(query: &str) -> (b: bool)
    ensures
        b == spec_mentions_rust(query@),
{
    let lower = to_lowercase(query);
    contains_str(lower.as_str(), "rust") || contains_str(lower.as_str(), "tokio")
}

// ---------------------------------------------------------------------------
// Health score
// ---------------------------------------------------------------------------

/// The metric weights of the health score: the `[metrics]` override when it
/// is switched on, else the defaults of the architecture.
pub open spec fn spec_health_weights(a: RagArchitecture, metrics: MetricsConfig) -> MetricWeights {
    if metrics.override_weights {
        MetricWeights {
            relevance: metrics.relevance_weight,
            efficiency: metrics.efficiency_weight,
            grounding: metrics.grounding_weight,
        }
    } else {
        spec_weights_for(a)
    }
}

/// Overall health in whole points, rounded: the weighted score of relevance
/// (mean similarity, capped at 1), token efficiency and grounding (source
/// attribution). The three components are in basis points, which are
/// hundredths of a point on the 0-100 scale.
pub open spec fn spec_health_score(w: MetricWeights, avg: int, efficiency: int, attribution: int) -> int {
    let relevance = if avg < 10000 {
        avg
    } else {
        10000
    };
    w.spec_score(relevance, efficiency, attribution)
}

/// All three weights are non-negative.
pub open spec fn weights_nonneg(w: MetricWeights) -> bool {
    w.relevance >= 0 && w.efficiency >= 0 && w.grounding >= 0
}

/// Every architecture's default weights are non-negative.
pub proof fn lemma_default_weights_nonneg(a: RagArchitecture)
    ensures
        weights_nonneg(spec_weights_for(a)),
{
}

/// With non-negative weights, the health score of components between 0 and
/// 1 lies within 0 to 100.
pub proof fn lemma_health_score_bounded(w: MetricWeights, avg: int, efficiency: int, attribution: int)
    requires
        weights_nonneg(w),
        0 <= avg,
        0 <= efficiency <= 10000,
        0 <= attribution <= 10000,
    ensures
        0 <= spec_health_score(w, avg, efficiency, attribution) <= 100,
{
    let relevance = if avg < 10000 {
        avg
    } else {
        10000
    };
    let e = w.effective();
    let t = e.total();
    assert(t > 0);
    let a = relevance * e.relevance + efficiency * e.efficiency + attribution * e.grounding;
    assert(0 <= a <= 10000 * t) by (nonlinear_arith)
        requires
            0 <= relevance <= 10000,
            0 <= efficiency <= 10000,
            0 <= attribution <= 10000,
            e.relevance >= 0,
            e.efficiency >= 0,
            e.grounding >= 0,
            t == e.relevance + e.efficiency + e.grounding,
            a == relevance * e.relevance + efficiency * e.efficiency + attribution * e.grounding,
    ;
    let b = 100 * t;
    assert(0 <= (2 * a + b) / (2 * b) <= 100) by (nonlinear_arith)
        requires
            0 <= a <= 100 * b,
            b > 0,
    ;
}

/// A rounded share `part / whole` in basis points is at most 10000.
pub proof fn lemma_share_bounded(part: int, whole: int)
    requires
        0 <= part <= whole,
        whole > 0,
    ensures
        0 <= round_half_up((10000 * part) as nat, whole as nat) <= 10000,
{
    let a = 10000 * part;
    assert((2 * a + whole) / (2 * whole) <= 10000) by (nonlinear_arith)
        requires
            0 <= part <= whole,
            whole > 0,
            a == 10000 * part,
    ;
    assert(0 <= (2 * a + whole) / (2 * whole)) by (nonlinear_arith)
        requires
            0 <= a,
            whole > 0,
    ;
}

impl Inspector {
    /// Analyze context window usage, identifying useful and wasted tokens.
    pub fn analyze_context_construction(&self, retrieval: &RetrievalResult) -> (c: ContextStage)
        requires
            token_total(retrieval.chunks@) <= usize::MAX,
        ensures
            spec_context(retrieval.chunks@, self.config.context.max_context_tokens, c),
            c.is_consistent(),
    {
        let mut useful: usize = 0;
        let mut wasted: usize = 0;
        let mut dedup: usize = 0;
        let mut pruned: usize = 0;
        let n = retrieval.chunks.len();
        let mut i: usize = 0;
        while i < n
            invariant
                n == retrieval.chunks@.len(),
                token_total(retrieval.chunks@) <= usize::MAX,
                i <= n,
                useful == useful_total(retrieval.chunks@.take(i as int)),
                wasted == wasted_total(retrieval.chunks@.take(i as int)),
                dedup == duplicate_count(retrieval.chunks@.take(i as int)),
                pruned == pruned_count(retrieval.chunks@.take(i as int)),
            decreases n - i,
        {
            let ghost prefix = retrieval.chunks@.take(i + 1);
            assert(prefix.drop_last() =~= retrieval.chunks@.take(i as int));
            proof {
                lemma_token_split(prefix);
                lemma_token_prefix(retrieval.chunks@, i + 1);
            }
            let chunk = &retrieval.chunks[i];
            match chunk.verdict {
                Verdict::Relevant | Verdict::PartiallyRelevant => {
                    useful = useful + chunk.token_count;
                },
                Verdict::Duplicate => {
                    wasted = wasted + chunk.token_count;
                    dedup = dedup + 1;
                },
                Verdict::Irrelevant | Verdict::LowConfidence => {
                    wasted = wasted + chunk.token_count;
                    pruned = pruned + 1;
                },
            }
            i = i + 1;
        }
        assert(retrieval.chunks@.take(n as int) =~= retrieval.chunks@);
        proof {
            lemma_token_split(retrieval.chunks@);
        }
        let total = useful + wasted;
        proof {
            if total > 0 {
                lemma_share_bounded(useful as int, total as int);
            }
        }
        let efficiency: u32 = if total > 0 {
            div_round_half_up(10000 * (useful as u128), total as u128) as u32
        } else {
            10000
        };
        ContextStage {
            total_tokens: total,
            useful_tokens: useful,
            wasted_tokens: wasted,
            efficiency_ratio: efficiency,
            deduplicated_chunks: dedup,
            irrelevant_chunks_pruned: pruned,
            context_window_limit: self.config.context.max_context_tokens,
        }
    }

    /// Analyze the generated answer: token usage, citations and
    /// hallucination risk.
    pub fn analyze_generation(&self, query: &str, retrieval: &RetrievalResult) -> (g:
        GenerationResult)
        requires
            retrieval.total_retrieved_tokens + token_cap() + 50 <= usize::MAX,
        ensures
            spec_generation(query@, retrieval.total_retrieved_tokens as int, g),
            g.is_consistent(),
    {
        let rust = mentions_rust(query);
        let answer = if rust {
            RUST_ANSWER
        } else {
            GENERIC_ANSWER
        };
        let generated_text = String::from_str(answer);
        let prompt_tokens = retrieval.total_retrieved_tokens + count_tokens(query) + 50;
        let completion_tokens = count_tokens(answer);
        let mut cited_chunk_ids: Vec<String> = Vec::new();
        cited_chunk_ids.push(String::from_str("chunk_01"));
        cited_chunk_ids.push(String::from_str("chunk_02"));
        let mut uncited_claims: Vec<String> = Vec::new();
        if rust {
            uncited_claims.push(String::from_str(STACK_SIZE_CLAIM));
        }
        let hallucination_score: u32 = if uncited_claims.len() == 0 {
            400
        } else {
            1800
        };
        assert(texts(cited_chunk_ids@) =~= seq!["chunk_01"@, "chunk_02"@]);
        assert(texts(uncited_claims@) =~= if rust {
            seq![STACK_SIZE_CLAIM@]
        } else {
            Seq::<Seq<char>>::empty()
        });
        GenerationResult {
            generated_text,
            prompt_tokens,
            completion_tokens,
            latency_ms: 385,
            hallucination_score,
            source_attribution_pct: 10000 - hallucination_score,
            cited_chunk_ids,
            uncited_claims,
        }
    }

    /// Aggregate RAG health score in whole points: the score that the
    /// architecture's metric weights (or the `[metrics]` override) give the
    /// relevance, efficiency and grounding components.
    pub fn calculate_health_score(
        &self,
        retrieval: &RetrievalResult,
        context: &ContextStage,
        generation: &GenerationResult,
    ) -> (s: i128)
        ensures
            s == spec_health_score(
                spec_health_weights(self.architecture, self.config.metrics),
                retrieval.avg_similarity as int,
                context.efficiency_ratio as int,
                generation.source_attribution_pct as int,
            ),
    {
        let w = MetricWeights::resolve(&self.architecture, &self.config.metrics);
        let relevance: i128 = if retrieval.avg_similarity < 10000 {
            retrieval.avg_similarity as i128
        } else {
            10000
        };
        let efficiency = context.efficiency_ratio as i128;
        let attribution = generation.source_attribution_pct as i128;
        let sum = w.relevance as i128 + w.efficiency as i128 + w.grounding as i128;
        let (wr, we, wg, total): (i128, i128, i128, i128) = if sum <= 0 {
            (3300, 3400, 3300, 10000)
        } else {
            (w.relevance as i128, w.efficiency as i128, w.grounding as i128, sum)
        };
        proof {
            lemma_weighted_sum_bounded(relevance as int, wr as int);
            lemma_weighted_sum_bounded(efficiency as int, we as int);
            lemma_weighted_sum_bounded(attribution as int, wg as int);
        }
        let num = relevance * wr + efficiency * we + attribution * wg;
        div_round(num, 100 * total)
    }
}

/// A component of at most `u32::MAX` times an `i64` weight stays far within
/// the range that the rounded division handles.
proof fn lemma_weighted_sum_bounded(c: int, w: int)
    requires
        0 <= c <= u32::MAX,
        i64::MIN <= w <= i64::MAX,
    ensures
        -0x1_0000_0000_0000_0000_0000_0000 <= c * w <= 0x1_0000_0000_0000_0000_0000_0000,
{
    assert(-0x1_0000_0000_0000_0000_0000_0000 <= c * w <= 0x1_0000_0000_0000_0000_0000_0000)
        by (nonlinear_arith)
        requires
            0 <= c <= 0xffff_ffff,
            -0x8000_0000_0000_0000 <= w <= 0x7fff_ffff_ffff_ffff,
    ;
}

/// The token sum of a prefix is at most that of the whole sequence.
pub proof fn lemma_token_prefix(chunks: Seq<ChunkInfo>, k: int)
    requires
        0 <= k <= chunks.len(),
    ensures
        0 <= token_total(chunks.take(k)) <= token_total(chunks),
    decreases chunks.len() - k,
{
    if k < chunks.len() {
        lemma_token_prefix(chunks, k + 1);
        assert(chunks.take(k + 1).drop_last() =~= chunks.take(k));
    } else {
        assert(chunks.take(k) =~= chunks);
    }
    lemma_token_nonneg(chunks.take(k));
}

proof fn lemma_token_nonneg(chunks: Seq<ChunkInfo>)
    ensures
        token_total(chunks) >= 0,
    decreases chunks.len(),
{
    if chunks.len() > 0 {
        lemma_token_nonneg(chunks.drop_last());
    }
}

// ---------------------------------------------------------------------------
// Recommendations
// ---------------------------------------------------------------------------

pub const NOMINAL_MESSAGE: &'static str = "Pipeline Health Nominal: High retrieval relevance, efficient context packing, and grounded generation.";

/// Share of the context that is not useful, `1 - efficiency`, in basis
/// points.
pub open spec fn waste_bp(c: ContextStage) -> int {
    10000 - c.efficiency_ratio
}

/// Recommendation issued when context tokens are wasted.
pub open spec fn waste_message(c: ContextStage, dedup_threshold: i64) -> Seq<char> {
    "Token Waste Detected: "@ + spec_decimal(c.wasted_tokens as nat) + " out of "@ + spec_decimal(
        c.total_tokens as nat,
    ) + " tokens ("@ + spec_bp_percent(waste_bp(c))
        + "%) in context were wasted on duplicate or irrelevant chunks. Enable similarity deduplication threshold > "@
        + spec_bp_two_decimals(dedup_threshold as int) + "."@
}

/// Recommendation issued for a duplicate chunk.
pub open spec fn duplicate_message(id: Seq<char>, top_k: usize) -> Seq<char> {
    "Redundant Retrieval: Chunk '"@ + id
        + "' is a near-duplicate of a higher ranked chunk. Lower Top-K from "@ + spec_decimal(
        top_k as nat,
    ) + " to "@ + spec_decimal(
        if top_k > 0 {
            (top_k - 1) as nat
        } else {
            0
        },
    ) + " or adjust chunking stride."@
}

/// Recommendation issued for an irrelevant chunk.
pub open spec fn low_match_message(id: Seq<char>, score: u32, threshold: i64) -> Seq<char> {
    "Low Quality Match: Chunk '"@ + id + "' had similarity score "@ + spec_bp_two_decimals(
        score as int,
    ) + " (below threshold "@ + spec_bp_two_decimals(threshold as int)
        + "). Increase vector similarity threshold."@
}

/// Recommendations issued for one chunk.
pub open spec fn chunk_messages(c: ChunkInfo, top_k: usize, threshold: i64) -> Seq<Seq<char>> {
    if c.verdict is Duplicate {
        seq![duplicate_message(c.id@, top_k)]
    } else if c.verdict is Irrelevant {
        seq![low_match_message(c.id@, c.score, threshold)]
    } else {
        Seq::empty()
    }
}

/// Recommendations issued for the chunks, in order.
pub open spec fn chunk_recommendations(chunks: Seq<ChunkInfo>, top_k: usize, threshold: i64) -> Seq<
    Seq<char>,
>
    decreases chunks.len(),
{
    if chunks.len() == 0 {
        Seq::empty()
    } else {
        chunk_recommendations(chunks.drop_last(), top_k, threshold) + chunk_messages(
            chunks.last(),
            top_k,
            threshold,
        )
    }
}

/// Recommendation issued when the answer holds uncited claims.
pub open spec fn hallucination_message(claims: nat) -> Seq<char> {
    "Hallucination Risk: Detected "@ + spec_decimal(claims)
        + " uncited claim(s) in LLM generation. Consider adding stricter system instructions for source attribution."@
}

/// The diagnostic recommendations for the three stages: token waste, each
/// duplicate or irrelevant chunk, uncited claims; a nominal note when there
/// is nothing to report.
pub open spec fn spec_recommendations(
    r: RetrievalResult,
    c: ContextStage,
    g: GenerationResult,
    config: PipelineConfig,
) -> Seq<Seq<char>> {
    let found = (if c.wasted_tokens > 0 {
        seq![waste_message(c, config.context.deduplicate_threshold)]
    } else {
        Seq::empty()
    }) + chunk_recommendations(r.chunks@, r.top_k, config.vector_store.similarity_threshold) + (
    if g.uncited_claims@.len() > 0 {
        seq![hallucination_message(g.uncited_claims@.len())]
    } else {
        Seq::empty()
    });
    if found.len() == 0 {
        seq![NOMINAL_MESSAGE@]
    } else {
        found
    }
}

pub const NAIVE_UPGRADE: &'static str = "Naive Architecture: Consider upgrading to Advanced for re-ranking and hybrid search to improve retrieval precision.";
pub const ADVANCED_RERANKER: &'static str = "Advanced Architecture: Verify cross-encoder re-ranker model is warmed up — cold-start re-ranking degrades precision by ~12%.";
pub const ADVANCED_FUSION: &'static str = "Advanced Architecture: Monitor hybrid search fusion weights (α) — drift toward BM25 or dense-only reduces robustness.";
pub const MODULAR_CONTRACTS: &'static str = "Modular Architecture: Validate inter-module schema contracts — loose serialization between stages causes silent data loss.";
pub const MODULAR_LATENCY: &'static str = "Modular Architecture: Instrument per-stage latency to identify pipeline bottlenecks in the DAG.";
pub const AGENTIC_DEPTH: &'static str = "Agentic Architecture: Cap retrieval iteration depth to prevent token explosion from unbounded self-correction loops.";
pub const AGENTIC_ROUTING: &'static str = "Agentic Architecture: Audit LLM routing decisions — misrouted queries to wrong tools waste budget and degrade answer quality.";
pub const AGENTIC_HOPS: &'static str = "Agentic Architecture: Log per-hop token usage to detect runaway agent loops early.";
pub const GRAPH_ENTITIES: &'static str = "Graph Architecture: Verify entity extraction coverage — missing entities create orphan nodes invisible to traversal.";
pub const GRAPH_COMMUNITIES: &'static str = "Graph Architecture: Tune community detection resolution — coarse clusters dilute relevance, fine clusters fragment context.";
pub const HYDE_QUALITY: &'static str = "HyDE Architecture: Monitor hypothetical document quality — poor generations embed closer to wrong clusters, hurting precision.";
pub const HYDE_DRIFT: &'static str = "HyDE Architecture: Track embedding drift between hypothetical and real document distributions — drift > 0.15 cosine indicates model mismatch.";
pub const MULTIMODAL_WEIGHTS: &'static str = "Multimodal Architecture: Audit modality weight distribution — dominance of one modality signals fusion layer under-tuning.";
pub const MULTIMODAL_GAP: &'static str = "Multimodal Architecture: Measure modality gap score — large gaps indicate misaligned cross-modal embedding spaces.";
pub const MULTIMODAL_NORMS: &'static str = "Multimodal Architecture: Verify that image and text embeddings share a comparable norm distribution before fusion.";

/// Warning for a Naive pipeline with a high Top-K.
pub open spec fn naive_top_k_message(top_k: usize) -> Seq<char> {
    "Naive Architecture: Top-K="@ + spec_decimal(top_k as nat)
        + " is high for a linear pipeline — unused chunks waste context tokens. Consider K=3–4."@
}

/// Warning on the similarity threshold of a Graph pipeline.
pub open spec fn graph_threshold_message(threshold: i64) -> Seq<char> {
    "Graph Architecture: Current similarity threshold "@ + spec_bp_two_decimals(threshold as int)
        + " may prune valid cross-entity edges — consider graph-aware thresholding."@
}

/// Architecture-specific recommendations.
pub open spec fn spec_architecture_recommendations(
    a: RagArchitecture,
    top_k: usize,
    threshold: i64,
) -> Seq<Seq<char>> {
    match a {
        RagArchitecture::Naive => seq![NAIVE_UPGRADE@] + if top_k > 5 {
            seq![naive_top_k_message(top_k)]
        } else {
            Seq::empty()
        },
        RagArchitecture::Advanced => seq![ADVANCED_RERANKER@, ADVANCED_FUSION@],
        RagArchitecture::Modular => seq![MODULAR_CONTRACTS@, MODULAR_LATENCY@],
        RagArchitecture::Agentic => seq![AGENTIC_DEPTH@, AGENTIC_ROUTING@, AGENTIC_HOPS@],
        RagArchitecture::Graph => seq![
            GRAPH_ENTITIES@,
            GRAPH_COMMUNITIES@,
            graph_threshold_message(threshold),
        ],
        RagArchitecture::Hyde => seq![HYDE_QUALITY@, HYDE_DRIFT@],
        RagArchitecture::Multimodal => seq![
            MULTIMODAL_WEIGHTS@,
            MULTIMODAL_GAP@,
            MULTIMODAL_NORMS@,
        ],
    }
}

/// Append `s` to the list of recommendations.
fn push_text(v: &mut Vec<String>, s: String)
    ensures
        texts(final(v)@) == texts(old(v)@).push(s@),
{
    let ghost before = v@;
    v.push(s);
    assert(texts(v@) =~= texts(before).push(s@));
}

/// Append an owned copy of `s`.
fn push_str(v: &mut Vec<String>, s: &str)
    ensures
        texts(final(v)@) == texts(old(v)@).push(s@),
{
    push_text(v, String::from_str(s));
}

/// The recommendation for a duplicate chunk.
fn duplicate_text(id: &String, top_k: usize) -> (s: String)
    ensures
        s@ == duplicate_message(id@, top_k),
{
    let mut s = String::from_str("Redundant Retrieval: Chunk '");
    s.append(id.as_str());
    s.append("' is a near-duplicate of a higher ranked chunk. Lower Top-K from ");
    let a = decimal_usize(top_k);
    s.append(a.as_str());
    s.append(" to ");
    let lowered = if top_k > 0 {
        top_k - 1
    } else {
        0
    };
    let b = decimal_usize(lowered);
    s.append(b.as_str());
    s.append(" or adjust chunking stride.");
    s
}

/// The recommendation for an irrelevant chunk.
fn low_match_text(id: &String, score: u32, threshold: i64) -> (s: String)
    ensures
        s@ == low_match_message(id@, score, threshold),
{
    let mut s = String::from_str("Low Quality Match: Chunk '");
    s.append(id.as_str());
    s.append("' had similarity score ");
    let a = bp_two_decimals(score as i64);
    s.append(a.as_str());
    s.append(" (below threshold ");
    let b = bp_two_decimals(threshold);
    s.append(b.as_str());
    s.append("). Increase vector similarity threshold.");
    s
}

/// The recommendation for wasted context tokens.
fn waste_text(c: &ContextStage, dedup_threshold: i64) -> (s: String)
    ensures
        s@ == waste_message(*c, dedup_threshold),
{
    let mut s = String::from_str("Token Waste Detected: ");
    let a = decimal_usize(c.wasted_tokens);
    s.append(a.as_str());
    s.append(" out of ");
    let b = decimal_usize(c.total_tokens);
    s.append(b.as_str());
    s.append(" tokens (");
    let p = bp_percent(10000 - c.efficiency_ratio as i64);
    s.append(p.as_str());
    s.append(
        "%) in context were wasted on duplicate or irrelevant chunks. Enable similarity deduplication threshold > ",
    );
    let t = bp_two_decimals(dedup_threshold);
    s.append(t.as_str());
    s.append(".");
    s
}

impl Inspector {
    /// Generate actionable recommendations from the diagnostic findings.
    pub fn generate_recommendations(
        &self,
        retrieval: &RetrievalResult,
        context: &ContextStage,
        generation: &GenerationResult,
    ) -> (recs: Vec<String>)
        ensures
            texts(recs@) == spec_recommendations(*retrieval, *context, *generation, self.config),
    {
        let mut recs: Vec<String> = Vec::new();
        if context.wasted_tokens > 0 {
            let w = waste_text(context, self.config.context.deduplicate_threshold);
            push_text(&mut recs, w);
        }
        let ghost head = texts(recs@);
        let top_k = retrieval.top_k;
        let threshold = self.config.vector_store.similarity_threshold;
        let n = retrieval.chunks.len();
        let mut i: usize = 0;
        while i < n
            invariant
                n == retrieval.chunks@.len(),
                i <= n,
                top_k == retrieval.top_k,
                threshold == self.config.vector_store.similarity_threshold,
                texts(recs@) == head + chunk_recommendations(
                    retrieval.chunks@.take(i as int),
                    top_k,
                    threshold,
                ),
            decreases n - i,
        {
            let chunk = &retrieval.chunks[i];
            let ghost before = texts(recs@);
            assert(retrieval.chunks@.take(i + 1).drop_last() =~= retrieval.chunks@.take(i as int));
            match chunk.verdict {
                Verdict::Duplicate => {
                    let d = duplicate_text(&chunk.id, top_k);
                    push_text(&mut recs, d);
                },
                Verdict::Irrelevant => {
                    let m = low_match_text(&chunk.id, chunk.score, threshold);
                    push_text(&mut recs, m);
                },
                _ => {},
            }
            assert(texts(recs@) =~= head + chunk_recommendations(
                retrieval.chunks@.take(i + 1),
                top_k,
                threshold,
            ));
            i = i + 1;
        }
        assert(retrieval.chunks@.take(n as int) =~= retrieval.chunks@);
        let claims = generation.uncited_claims.len();
        if claims > 0 {
            let mut h = String::from_str("Hallucination Risk: Detected ");
            let c = decimal_usize(claims);
            h.append(c.as_str());
            h.append(
                " uncited claim(s) in LLM generation. Consider adding stricter system instructions for source attribution.",
            );
            push_text(&mut recs, h);
        }
        if recs.len() == 0 {
            push_str(&mut recs, NOMINAL_MESSAGE);
        }
        recs
    }

    /// Architecture-specific diagnostic recommendations.
    pub fn architecture_recommendations(&self) -> (recs: Vec<String>)
        ensures
            texts(recs@) == spec_architecture_recommendations(
                self.architecture,
                self.config.vector_store.top_k,
                self.config.vector_store.similarity_threshold,
            ),
    {
        let mut recs: Vec<String> = Vec::new();
        match self.architecture {
            RagArchitecture::Naive => {
                push_str(&mut recs, NAIVE_UPGRADE);
                let top_k = self.config.vector_store.top_k;
                if top_k > 5 {
                    let mut s = String::from_str("Naive Architecture: Top-K=");
                    let k = decimal_usize(top_k);
                    s.append(k.as_str());
                    s.append(
                        " is high for a linear pipeline — unused chunks waste context tokens. Consider K=3–4.",
                    );
                    push_text(&mut recs, s);
                }
            },
            RagArchitecture::Advanced => {
                push_str(&mut recs, ADVANCED_RERANKER);
                push_str(&mut recs, ADVANCED_FUSION);
            },
            RagArchitecture::Modular => {
                push_str(&mut recs, MODULAR_CONTRACTS);
                push_str(&mut recs, MODULAR_LATENCY);
            },
            RagArchitecture::Agentic => {
                push_str(&mut recs, AGENTIC_DEPTH);
                push_str(&mut recs, AGENTIC_ROUTING);
                push_str(&mut recs, AGENTIC_HOPS);
            },
            RagArchitecture::Graph => {
                push_str(&mut recs, GRAPH_ENTITIES);
                push_str(&mut recs, GRAPH_COMMUNITIES);
                let mut s = String::from_str("Graph Architecture: Current similarity threshold ");
                let t = bp_two_decimals(self.config.vector_store.similarity_threshold);
                s.append(t.as_str());
                s.append(" may prune valid cross-entity edges — consider graph-aware thresholding.");
                push_text(&mut recs, s);
            },
            RagArchitecture::Hyde => {
                push_str(&mut recs, HYDE_QUALITY);
                push_str(&mut recs, HYDE_DRIFT);
            },
            RagArchitecture::Multimodal => {
                push_str(&mut recs, MULTIMODAL_WEIGHTS);
                push_str(&mut recs, MULTIMODAL_GAP);
                push_str(&mut recs, MULTIMODAL_NORMS);
            },
        }
        assert(texts(recs@) =~= spec_architecture_recommendations(
            self.architecture,
            self.config.vector_store.top_k,
            self.config.vector_store.similarity_threshold,
        ));
        recs
    }
}

// ---------------------------------------------------------------------------
// The whole inspection
// ---------------------------------------------------------------------------

/// chrono's `Utc::now()` written by `DateTime::to_rfc3339`: the current time
/// as an RFC 3339 text. It depends on the clock, so nothing is stated of it.
#[verifier::external_body]
fn now_rfc3339() -> String {
    chrono::Utc::now().to_rfc3339()
}

impl Inspector {
    /// The model evaluated: the override when one is given, else the model
    /// of the configuration.
    pub open spec fn spec_model_name(&self) -> Seq<char> {
        match self.model_override {
            Some(m) => m@,
            None => self.config.llm.model@,
        }
    }

    /// `r` is the report of inspecting `query` in mode `mode`: every field
    /// but the timestamp is fixed by the inspector and the query.
    pub open spec fn spec_report(&self, query: Seq<char>, mode: InspectMode, r: InspectionReport) -> bool {
        &&& r.query@ == query
        &&& r.config_name@ == self.config.name@
        &&& r.model_name@ == self.spec_model_name()
        &&& r.architecture == self.architecture
        &&& r.inspect_mode == mode
        &&& spec_retrieval(query, self.config.vector_store.top_k, r.retrieval)
        &&& spec_context(r.retrieval.chunks@, self.config.context.max_context_tokens, r.context)
        &&& spec_generation(query, r.retrieval.total_retrieved_tokens as int, r.generation)
        &&& r.overall_score == spec_health_score(
            spec_health_weights(self.architecture, self.config.metrics),
            r.retrieval.avg_similarity as int,
            r.context.efficiency_ratio as int,
            r.generation.source_attribution_pct as int,
        )
        &&& texts(r.recommendations@) == spec_recommendations(
            r.retrieval,
            r.context,
            r.generation,
            self.config,
        ) + spec_architecture_recommendations(
            self.architecture,
            self.config.vector_store.top_k,
            self.config.vector_store.similarity_threshold,
        )
    }

    /// Create an inspector for a pipeline configuration; the architecture
    /// starts as Naive.
    pub fn new(config: PipelineConfig, model_override: Option<String>) -> (i: Self)
        ensures
            i.config == config,
            i.model_override == model_override,
            i.architecture == RagArchitecture::Naive,
    {
        Inspector { config, model_override, architecture: RagArchitecture::Naive }
    }

    /// Set the RAG architecture used for architecture-specific diagnostics.
    pub fn set_architecture(&mut self, architecture: RagArchitecture)
        ensures
            final(self).architecture == architecture,
            final(self).config == old(self).config,
            final(self).model_override == old(self).model_override,
    {
        self.architecture = architecture;
    }

    /// Run the inspection of a query, stamping the report with `timestamp`.
    pub fn inspect_at(&self, query: &str, mode: InspectMode, timestamp: String) -> (r:
        InspectionReport)
        ensures
            self.spec_report(query@, mode, r),
            r.timestamp@ == timestamp@,
    {
        let model_name = match &self.model_override {
            Some(m) => m.clone(),
            None => self.config.llm.model.clone(),
        };
        let retrieval = self.simulate_retrieval(query);
        proof {
            lemma_token_sums_fit(retrieval.chunks@.len() as int);
            lemma_token_sums_fit(retrieval.chunks@.len() as int + 1);
        }
        let context = self.analyze_context_construction(&retrieval);
        let generation = self.analyze_generation(query, &retrieval);
        let overall_score = self.calculate_health_score(&retrieval, &context, &generation);
        let mut recommendations = self.generate_recommendations(&retrieval, &context, &generation);
        let mut extra = self.architecture_recommendations();
        let ghost first = recommendations@;
        let ghost second = extra@;
        recommendations.append(&mut extra);
        assert(texts(recommendations@) =~= texts(first) + texts(second));
        InspectionReport {
            query: String::from_str(query),
            config_name: self.config.name.clone(),
            model_name,
            architecture: self.architecture,
            inspect_mode: mode,
            timestamp,
            retrieval,
            context,
            generation,
            overall_score,
            recommendations,
        }
    }

    /// Run the inspection of a query, stamped with the current time. It
    /// always succeeds.
    pub fn inspect(&self, query: &str, mode: InspectMode) -> (r: Result<InspectionReport, String>)
        ensures
            r matches Ok(report) && self.spec_report(query@, mode, report),
    {
        let timestamp = now_rfc3339();
        Ok(self.inspect_at(query, mode, timestamp))
    }
}

/// Every list of recommendations holds at least one entry: the findings, or
/// the nominal note when there are none.
pub proof fn lemma_recommendations_nonempty(
    r: RetrievalResult,
    c: ContextStage,
    g: GenerationResult,
    config: PipelineConfig,
)
    ensures
        spec_recommendations(r, c, g, config).len() >= 1,
{
}

/// What every inspection report satisfies: the query is kept; at most Top-K
/// chunks are retrieved, each with a non-empty identifier, and their token
/// counts sum to the retrieved total; useful and wasted tokens make up the
/// context total; the efficiency ratio, the hallucination score and the
/// attribution are shares between 0 and 1 (10000 basis points), the last
/// two complementary; the overall score lies between 0 and 100 whenever the
/// metric weights are non-negative, as the architecture defaults are; and at
/// least one recommendation is given.
pub proof fn lemma_report_invariants(
    inspector: Inspector,
    query: Seq<char>,
    mode: InspectMode,
    r: InspectionReport,
)
    requires
        inspector.spec_report(query, mode, r),
    ensures
        r.query@ == query,
        r.retrieval.chunks_retrieved <= r.retrieval.top_k,
        r.retrieval.chunks_retrieved == r.retrieval.chunks@.len(),
        r.retrieval.total_retrieved_tokens == token_total(r.retrieval.chunks@),
        forall|i: int|
            0 <= i < r.retrieval.chunks@.len() ==> #[trigger] r.retrieval.chunks@[i].id@.len() > 0,
        r.context.useful_tokens + r.context.wasted_tokens == r.context.total_tokens,
        r.context.useful_tokens <= r.context.total_tokens,
        r.context.efficiency_ratio <= 10000,
        r.generation.hallucination_score <= 10000,
        r.generation.source_attribution_pct <= 10000,
        r.generation.hallucination_score + r.generation.source_attribution_pct == 10000,
        weights_nonneg(spec_health_weights(inspector.architecture, inspector.config.metrics)) ==> 0
            <= r.overall_score <= 100,
        !inspector.config.metrics.override_weights ==> 0 <= r.overall_score <= 100,
        r.recommendations@.len() >= 1,
{
    lemma_token_split(r.retrieval.chunks@);
    if r.context.total_tokens > 0 {
        lemma_share_bounded(r.context.useful_tokens as int, r.context.total_tokens as int);
    }
    let w = spec_health_weights(inspector.architecture, inspector.config.metrics);
    lemma_default_weights_nonneg(inspector.architecture);
    if weights_nonneg(w) {
        lemma_health_score_bounded(
            w,
            r.retrieval.avg_similarity as int,
            r.context.efficiency_ratio as int,
            r.generation.source_attribution_pct as int,
        );
    }
    assert forall|i: int|
        0 <= i < r.retrieval.chunks@.len() implies #[trigger] r.retrieval.chunks@[i].id@.len()
        > 0 by {
        let rust = spec_is_rust_query(query);
        assert(chunk_from_template(spec_template(rust, i), i, r.retrieval.chunks@[i]));
        reveal_strlit("chunk_");
    }
    lemma_recommendations_nonempty(r.retrieval, r.context, r.generation, inspector.config);
    assert(texts(r.recommendations@).len() == r.recommendations@.len());
}

} // verus!
