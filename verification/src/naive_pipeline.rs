//! Naive RAG reference pipeline: an offline mock pipeline for demos and tests.
//!
//! It embeds the query (mock), searches a mock corpus, assembles the context
//! within a token budget and generates a mock answer, profiling each stage.
//! The simulated latencies are spent by a `pause` callback that the caller
//! supplies, which learns the stage and its latency, so that the pipeline
//! itself decides and measures but does not block.

use vstd::prelude::*;
use vstd::string::*;
use vstd::wrapping::u64_specs;

use crate::metadata::spec_lookup;
use crate::profiler::{
    costs_of, durations_of, lemma_sum_push, tokens_of, PipelineProfile, Stage, StageTimer,
};
use crate::order_stats::sum_of;
use crate::text::{
    byte_len, chars_of, decimal_usize, join, spec_decimal, spec_join, utf8_size,
};

verus! {

// ---------------------------------------------------------------------------
// Token estimate and mock embedding
// ---------------------------------------------------------------------------

/// Rough token estimate: a quarter of the UTF-8 size, at least one token for
/// a non-empty text, none for an empty one.
pub open spec fn spec_estimate_tokens(text: Seq<char>) -> nat {
    let n = utf8_size(text);
    if n == 0 {
        0
    } else if n < 4 {
        1
    } else {
        n / 4
    }
}

/// Rough token estimate: ~4 bytes per token.
pub fn estimate_tokens(text: &str) -> (n: usize)
    ensures
        n == spec_estimate_tokens(text@),
        n <= isize::MAX / 4 + 1,
{
    let len = byte_len(text);
    if len == 0 {
        0
    } else if len < 4 {
        1
    } else {
        len / 4
    }
}

/// Polynomial hash of the characters (`h = h * 31 + c`, wrapping in 64 bits).
pub open spec fn spec_text_hash(text: Seq<char>) -> u64
    decreases text.len(),
{
    if text.len() == 0 {
        0
    } else {
        u64_specs::wrapping_add(
            u64_specs::wrapping_mul(spec_text_hash(text.drop_last()), 31),
            text.last() as u64,
        )
    }
}

/// Deterministic mock embedding of a text, in basis points (0 to 9990).
pub open spec fn spec_mock_embed(text: Seq<char>) -> i64 {
    ((spec_text_hash(text) % 1000) * 10) as i64
}

/// Compute a deterministic mock embedding from a text, in basis points.
pub fn mock_embed(text: &str) -> (e: i64)
    ensures
        e == spec_mock_embed(text@),
        0 <= e < 10000,
{
    let chars = chars_of(text);
    let mut hash: u64 = 0;
    let n = chars.len();
    for i in 0..n
        invariant
            n == chars@.len(),
            chars@ == text@,
            hash == spec_text_hash(text@.take(i as int)),
    {
        assert(text@.take(i + 1).drop_last() =~= text@.take(i as int));
        let c = chars[i];
        hash = hash.wrapping_mul(31).wrapping_add(c as u64);
    }
    assert(text@.take(n as int) =~= text@);
    ((hash % 1000) * 10) as i64
}

// ---------------------------------------------------------------------------
// Corpus and search
// ---------------------------------------------------------------------------

/// A mock document chunk for the naive RAG corpus.
pub struct MockChunk {
    /// Chunk identifier
    pub id: String,
    /// Source document name
    pub source: String,
    /// Text content
    pub content: String,
    /// Mock embedding (a single relevance coordinate), in basis points
    pub mock_embedding: i64,
}

/// Mock LLM response simulating generation.
pub struct MockGeneration {
    /// Generated answer text
    pub answer: String,
    /// Number of input (prompt) tokens
    pub prompt_tokens: usize,
    /// Number of output (completion) tokens
    pub completion_tokens: usize,
}

/// Similarity of an embedding to the query embedding: one minus their
/// distance, in basis points.
pub open spec fn similarity(embedding: int, query: int) -> int {
    if embedding >= query {
        10000 - (embedding - query)
    } else {
        10000 - (query - embedding)
    }
}

/// Similarity of each chunk of a corpus to the query embedding.
pub open spec fn similarities(corpus: Seq<MockChunk>, query: int) -> Seq<int> {
    corpus.map_values(|c: MockChunk| similarity(c.mock_embedding as int, query))
}

/// Chunk `a` ranks before chunk `b`: it is more similar, or as similar and
/// earlier in the corpus.
pub open spec fn ranks_before(sims: Seq<int>, a: int, b: int) -> bool {
    sims[a] > sims[b] || (sims[a] == sims[b] && a < b)
}

/// `top` lists the `k` best-ranked chunk positions, best first: it is
/// ordered by rank, and every position left out ranks after all of them.
pub open spec fn is_top_ranked(sims: Seq<int>, top: Seq<usize>, k: int) -> bool {
    &&& top.len() == k
    &&& forall|i: int| 0 <= i < k ==> #[trigger] top[i] < sims.len()
    &&& forall|i: int, j: int|
        0 <= i < j < k ==> #[trigger] ranks_before(sims, top[i] as int, top[j] as int)
    &&& forall|m: usize, i: int|
        m < sims.len() && !top.contains(m) && 0 <= i < k ==> #[trigger] ranks_before(
            sims,
            top[i] as int,
            m as int,
        )
}

/// Distance between two embeddings.
pub open spec fn distance(a: int, b: int) -> int {
    if a >= b {
        a - b
    } else {
        b - a
    }
}

/// Similarity is one (10000 basis points) minus the distance to the query:
/// it is greatest for the query itself, symmetric, and strictly smaller for
/// a farther embedding.
pub proof fn lemma_similarity_decreases_with_distance(e1: int, e2: int, q: int)
    ensures
        similarity(e1, q) == 10000 - distance(e1, q),
        similarity(q, q) == 10000,
        similarity(e1, q) == similarity(q, e1),
        similarity(e1, q) <= 10000,
        distance(e1, q) < distance(e2, q) ==> similarity(e1, q) > similarity(e2, q),
        distance(e1, q) == distance(e2, q) ==> similarity(e1, q) == similarity(e2, q),
{
}

/// In a best-ranked list, retrieved chunks come in order of distance to the
/// query (nearest first), and no chunk left out is nearer than a retrieved
/// one.
pub proof fn lemma_nearest_first(corpus: Seq<MockChunk>, q: int, top: Seq<usize>, k: int)
    requires
        is_top_ranked(similarities(corpus, q), top, k),
    ensures
        forall|i: int, j: int|
            0 <= i < j < k ==> distance(corpus[top[i] as int].mock_embedding as int, q)
                <= distance(corpus[top[j] as int].mock_embedding as int, q),
        forall|m: usize, i: int|
            m < corpus.len() && !top.contains(m) && 0 <= i < k ==> distance(
                corpus[top[i] as int].mock_embedding as int,
                q,
            ) <= distance(corpus[m as int].mock_embedding as int, q),
{
    let sims = similarities(corpus, q);
    assert forall|i: int, j: int|
        0 <= i < j < k implies distance(corpus[top[i] as int].mock_embedding as int, q)
        <= distance(corpus[top[j] as int].mock_embedding as int, q) by {
        assert(ranks_before(sims, top[i] as int, top[j] as int));
    }
    assert forall|m: usize, i: int|
        m < corpus.len() && !top.contains(m) && 0 <= i < k implies distance(
        corpus[top[i] as int].mock_embedding as int,
        q,
    ) <= distance(corpus[m as int].mock_embedding as int, q) by {
        assert(ranks_before(sims, top[i] as int, m as int));
    }
}

/// Number of chunks retrieved with Top-K `top_k` from `n` chunks.
pub open spec fn retrieved_count(top_k: usize, n: int) -> int {
    if (top_k as int) < n {
        top_k as int
    } else {
        n
    }
}

/// Only one list holds the `k` best-ranked positions.
pub proof fn lemma_top_ranked_unique(sims: Seq<int>, a: Seq<usize>, b: Seq<usize>, k: int)
    requires
        is_top_ranked(sims, a, k),
        is_top_ranked(sims, b, k),
    ensures
        a == b,
{
    assert forall|i: int| 0 <= i < k implies a[i] == b[i] by {
        lemma_top_ranked_agree(sims, a, b, k, i);
    }
    assert(a =~= b);
}

proof fn lemma_top_ranked_agree(sims: Seq<int>, a: Seq<usize>, b: Seq<usize>, k: int, i: int)
    requires
        is_top_ranked(sims, a, k),
        is_top_ranked(sims, b, k),
        0 <= i < k,
    ensures
        a[i] == b[i],
    decreases i,
{
    if i > 0 {
        lemma_top_ranked_agree(sims, a, b, k, i - 1);
    }
    assert forall|j: int| 0 <= j < i implies a[j] == b[j] by {
        lemma_top_ranked_agree(sims, a, b, k, j);
    }
    let x = a[i] as int;
    let y = b[i] as int;
    if x != y {
        if ranks_before(sims, x, y) {
            lemma_ranked_member(sims, a, b, k, i);
        } else {
            lemma_ranked_member(sims, b, a, k, i);
        }
    }
}

/// Where two top-ranked lists agree before `i`, the entry of one at `i`
/// does not rank before a different entry of the other.
proof fn lemma_ranked_member(sims: Seq<int>, a: Seq<usize>, b: Seq<usize>, k: int, i: int)
    requires
        is_top_ranked(sims, a, k),
        is_top_ranked(sims, b, k),
        0 <= i < k,
        forall|j: int| 0 <= j < i ==> a[j] == b[j],
        a[i] != b[i],
    ensures
        !ranks_before(sims, a[i] as int, b[i] as int),
{
    let x = a[i];
    if !ranks_before(sims, a[i] as int, b[i] as int) {
    } else if b.contains(x) {
        let p = choose|p: int| 0 <= p < b.len() && b[p] == x;
        if p < i {
            assert(a[p] == b[p]);
            assert(ranks_before(sims, a[p] as int, a[i] as int));
        } else {
            assert(p > i);
            assert(ranks_before(sims, b[i] as int, b[p] as int));
        }
    } else {
        assert(ranks_before(sims, b[i] as int, x as int));
    }
}

/// Similarity of a chunk embedding to the query embedding, in basis points.
fn similarity_of(embedding: i64, query: i64) -> (s: i128)
    ensures
        s == similarity(embedding as int, query as int),
{
    let e = embedding as i128;
    let q = query as i128;
    if e >= q {
        10000 - (e - q)
    } else {
        10000 - (q - e)
    }
}

/// Rank all positions of `sims`: most similar first, ties in corpus order.
fn rank_all(sims: &Vec<i128>) -> (order: Vec<usize>)
    ensures
        is_top_ranked(sims@.map_values(|s: i128| s as int), order@, sims@.len() as int),
        forall|m: usize| m < sims@.len() ==> #[trigger] order@.contains(m),
{
    let ghost si = sims@.map_values(|s: i128| s as int);
    let n = sims.len();
    let mut order: Vec<usize> = Vec::new();
    let mut k: usize = 0;
    while k < n
        invariant
            n == sims@.len(),
            si == sims@.map_values(|s: i128| s as int),
            k <= n,
            order@.len() == k,
            forall|i: int| 0 <= i < k ==> #[trigger] order@[i] < k,
            forall|i: int, j: int|
                0 <= i < j < k ==> #[trigger] ranks_before(si, order@[i] as int, order@[j] as int),
            forall|m: usize| m < k ==> #[trigger] order@.contains(m),
        decreases n - k,
    {
        let sk = sims[k];
        let mut p: usize = 0;
        while p < order.len() && sims[order[p]] >= sk
            invariant
                n == sims@.len(),
                si == sims@.map_values(|s: i128| s as int),
                k < n,
                sk == sims@[k as int],
                order@.len() == k,
                forall|i: int| 0 <= i < k ==> #[trigger] order@[i] < k,
                p <= k,
                forall|i: int| 0 <= i < p ==> si[#[trigger] order@[i] as int] >= sk,
            decreases k - p,
        {
            p = p + 1;
        }
        let ghost old_order = order@;
        proof {
            old_order.insert_ensures(p as int, k);
        }
        order.insert(p, k);
        assert forall|i: int, j: int| 0 <= i < j < k + 1 implies #[trigger] ranks_before(
            si,
            order@[i] as int,
            order@[j] as int,
        ) by {
            if j < p {
                assert(order@[i] == old_order[i] && order@[j] == old_order[j]);
            } else if j == p {
                assert(order@[i] == old_order[i]);
                assert(si[old_order[i] as int] >= sk);
            } else if i < p {
                assert(order@[i] == old_order[i] && order@[j] == old_order[j - 1]);
            } else if i == p {
                assert(order@[j] == old_order[j - 1]);
                assert(p < k);
                assert(!(si[old_order[p as int] as int] >= sk));
                if j - 1 > p {
                    assert(ranks_before(si, old_order[p as int] as int, old_order[j - 1] as int));
                }
            } else {
                assert(order@[i] == old_order[i - 1] && order@[j] == old_order[j - 1]);
            }
        }
        assert forall|m: usize| m < k + 1 implies #[trigger] order@.contains(m) by {
            if m == k {
                assert(order@[p as int] == k);
            } else {
                assert(old_order.contains(m));
                let w = choose|w: int| 0 <= w < old_order.len() && old_order[w] == m;
                if w < p {
                    assert(order@[w] == old_order[w]);
                } else {
                    assert(order@[w + 1] == old_order[w]);
                }
            }
        }
        assert forall|i: int| 0 <= i < k + 1 implies #[trigger] order@[i] < k + 1 by {
            if i < p {
                assert(order@[i] == old_order[i]);
            } else if i > p {
                assert(order@[i] == old_order[i - 1]);
            }
        }
        k = k + 1;
    }
    assert forall|m: usize, i: int|
        m < si.len() && !order@.contains(m) && 0 <= i < n implies #[trigger] ranks_before(
        si,
        order@[i] as int,
        m as int,
    ) by {
        assert(order@.contains(m));
    }
    order
}

/// The first `k` positions of a full ranking are the `k` best-ranked.
proof fn lemma_ranking_prefix(sims: Seq<int>, order: Seq<usize>, k: int)
    requires
        is_top_ranked(sims, order, sims.len() as int),
        forall|m: usize| m < sims.len() ==> #[trigger] order.contains(m),
        0 <= k <= sims.len(),
    ensures
        is_top_ranked(sims, order.take(k), k),
{
    let top = order.take(k);
    assert forall|m: usize, i: int|
        m < sims.len() && !top.contains(m) && 0 <= i < k implies #[trigger] ranks_before(
        sims,
        top[i] as int,
        m as int,
    ) by {
        assert(order.contains(m));
        let w = choose|w: int| 0 <= w < order.len() && order[w] == m;
        if w < k {
            assert(top[w] == m);
        }
        assert(top[i] == order[i]);
        assert(ranks_before(sims, order[i] as int, order[w] as int));
    }
}

// ---------------------------------------------------------------------------
// Default corpus
// ---------------------------------------------------------------------------

pub const RUST_ASYNC_1: &'static str = "Tokio is an asynchronous runtime for the Rust programming language. It provides an I/O driver, task scheduler, and timer. Tokio tasks are lightweight, requiring only a few kilobytes of memory each, making them much cheaper than OS threads.";
pub const RUST_ASYNC_2: &'static str = "The async/await syntax in Rust allows writing asynchronous code that looks like synchronous code. The .await keyword yields control back to the runtime, allowing other tasks to execute.";
pub const RAG_OVERVIEW_1: &'static str = "Retrieval Augmented Generation (RAG) combines a retrieval system with a generative LLM. The retrieval component finds relevant documents, which are then passed as context to the LLM for generating grounded responses.";
pub const RAG_OVERVIEW_2: &'static str = "A naive RAG pipeline follows a simple linear flow: embed the query, search a vector database, assemble context from top-K results, and generate an answer. This architecture is easy to implement but lacks advanced features like reranking or query expansion.";
pub const VECTOR_DB_1: &'static str = "Vector databases store high-dimensional embeddings of text chunks. Popular options include Qdrant, Weaviate, Pinecone, and Milvus. They support approximate nearest neighbor (ANN) search for fast retrieval at scale.";
pub const EMBEDDING_1: &'static str = "Embedding models like text-embedding-3-small (OpenAI) and BGE (BAAI) convert text into dense vector representations. These vectors capture semantic meaning, enabling similarity-based search.";
pub const HALLUCINATION_1: &'static str = "Hallucination in RAG occurs when the LLM generates claims not supported by the retrieved context. Metrics like faithfulness and source attribution percentage help quantify grounding quality.";
pub const RERANKING_1: &'static str = "Re-ranking improves retrieval precision by applying a cross-encoder model to re-score initial retrieval results. This is common in Advanced RAG architectures but adds latency.";

/// Number of chunks in the default corpus.
pub const DEFAULT_CORPUS_SIZE: usize = 8;

/// The `i`-th chunk (from 0) of the default corpus: identifier, source,
/// content and embedding (basis points).
pub open spec fn spec_default_chunk(i: int) -> (Seq<char>, Seq<char>, Seq<char>, i64) {
    if i == 0 {
        ("rust_async_01"@, "rust-async-guide.md"@, RUST_ASYNC_1@, 7200)
    } else if i == 1 {
        ("rust_async_02"@, "rust-async-guide.md"@, RUST_ASYNC_2@, 6800)
    } else if i == 2 {
        ("rag_overview_01"@, "rag-architecture.md"@, RAG_OVERVIEW_1@, 8500)
    } else if i == 3 {
        ("rag_overview_02"@, "rag-architecture.md"@, RAG_OVERVIEW_2@, 9000)
    } else if i == 4 {
        ("vector_db_01"@, "vector-databases.md"@, VECTOR_DB_1@, 6500)
    } else if i == 5 {
        ("embedding_01"@, "embedding-models.md"@, EMBEDDING_1@, 6000)
    } else if i == 6 {
        ("hallucination_01"@, "rag-evaluation.md"@, HALLUCINATION_1@, 5500)
    } else {
        ("reranking_01"@, "advanced-rag.md"@, RERANKING_1@, 4500)
    }
}

/// The fields of `c` are those of the `i`-th default chunk.
pub open spec fn is_default_chunk(i: int, c: MockChunk) -> bool {
    let d = spec_default_chunk(i);
    c.id@ == d.0 && c.source@ == d.1 && c.content@ == d.2 && c.mock_embedding == d.3
}

/// A chunk built from its fields.
pub fn mock_chunk(id: &str, source: &str, content: &str, mock_embedding: i64) -> (c: MockChunk)
    ensures
        c.id@ == id@,
        c.source@ == source@,
        c.content@ == content@,
        c.mock_embedding == mock_embedding,
{
    MockChunk {
        id: String::from_str(id),
        source: String::from_str(source),
        content: String::from_str(content),
        mock_embedding,
    }
}

/// Default mock corpus covering common RAG topics.
pub fn default_corpus() -> (corpus: Vec<MockChunk>)
    ensures
        corpus@.len() == DEFAULT_CORPUS_SIZE,
        forall|i: int| 0 <= i < DEFAULT_CORPUS_SIZE ==> #[trigger] is_default_chunk(i, corpus@[i]),
{
    let mut corpus: Vec<MockChunk> = Vec::new();
    corpus.push(mock_chunk("rust_async_01", "rust-async-guide.md", RUST_ASYNC_1, 7200));
    corpus.push(mock_chunk("rust_async_02", "rust-async-guide.md", RUST_ASYNC_2, 6800));
    corpus.push(mock_chunk("rag_overview_01", "rag-architecture.md", RAG_OVERVIEW_1, 8500));
    corpus.push(mock_chunk("rag_overview_02", "rag-architecture.md", RAG_OVERVIEW_2, 9000));
    corpus.push(mock_chunk("vector_db_01", "vector-databases.md", VECTOR_DB_1, 6500));
    corpus.push(mock_chunk("embedding_01", "embedding-models.md", EMBEDDING_1, 6000));
    corpus.push(mock_chunk("hallucination_01", "rag-evaluation.md", HALLUCINATION_1, 5500));
    corpus.push(mock_chunk("reranking_01", "advanced-rag.md", RERANKING_1, 4500));
    corpus
}

// ---------------------------------------------------------------------------
// The pipeline
// ---------------------------------------------------------------------------

/// Separator placed between chunk contents in the assembled context.
pub const CONTEXT_SEPARATOR: &'static str = "\n\n---\n\n";

/// Cost of the query embedding stage: $0.0001, in billionths of a dollar.
pub const EMBEDDING_COST: u64 = 100_000;

/// Cost of the generation stage: $0.0048, in billionths of a dollar.
pub const GENERATION_COST: u64 = 4_800_000;

/// The positions of the chunks that the search returns: the Top-K best
/// ranked for the query embedding.
pub open spec fn spec_retrieved(corpus: Seq<MockChunk>, query_emb: i64, top_k: usize) -> Seq<usize> {
    choose|top: Seq<usize>|
        is_top_ranked(
            similarities(corpus, query_emb as int),
            top,
            retrieved_count(top_k, corpus.len() as int),
        )
}

/// The contents of the chunks at the given positions.
pub open spec fn contents_of(corpus: Seq<MockChunk>, top: Seq<usize>) -> Seq<Seq<char>> {
    top.map_values(|i: usize| corpus[i as int].content@)
}

/// Sum of the token estimates of texts.
pub open spec fn estimate_sum(parts: Seq<Seq<char>>) -> int
    decreases parts.len(),
{
    if parts.len() == 0 {
        0
    } else {
        estimate_sum(parts.drop_last()) + spec_estimate_tokens(parts.last())
    }
}

/// The mock answer for a query and a context of `context_bytes` bytes.
pub open spec fn spec_mock_answer(query: Seq<char>, context_bytes: nat) -> Seq<char> {
    "Based on the retrieved context, here is what I found about \""@ + query
        + "\":\n\n[Mock LLM Response]\nThe context contains "@ + spec_decimal(context_bytes)
        + " characters of supporting information. This is a simulated generation for demonstration purposes."@
}

/// `s` is a stage with this name, token count and cost.
pub open spec fn stage_is(s: Stage, name: Seq<char>, tokens: int, cost: u64) -> bool {
    s.name@ == name && s.token_count == tokens && s.cost == cost
}

/// Naive RAG pipeline with mock components; it runs fully offline.
pub struct NaivePipeline {
    /// Mock document corpus
    pub corpus: Vec<MockChunk>,
    /// Simulated embedding latency (ms)
    pub embedding_latency_ms: u128,
    /// Simulated search latency (ms)
    pub search_latency_ms: u128,
    /// Simulated generation latency (ms)
    pub generation_latency_ms: u128,
}

impl NaivePipeline {
    /// The chunks retrieved for a query with Top-K `top_k`.
    pub open spec fn spec_top(&self, query: Seq<char>, top_k: usize) -> Seq<usize> {
        spec_retrieved(self.corpus@, spec_mock_embed(query), top_k)
    }

    /// The context assembled for a query.
    pub open spec fn spec_context(&self, query: Seq<char>, top_k: usize) -> Seq<char> {
        spec_join(contents_of(self.corpus@, self.spec_top(query, top_k)), CONTEXT_SEPARATOR@)
    }

    /// The token counts of a run add up within a `usize`.
    pub open spec fn spec_tokens_fit(&self, query: Seq<char>, top_k: usize) -> bool {
        let ctx = self.spec_context(query, top_k);
        spec_estimate_tokens(query) + estimate_sum(contents_of(self.corpus@, self.spec_top(query, top_k)))
            + spec_estimate_tokens(ctx) + spec_estimate_tokens(spec_mock_answer(query, utf8_size(ctx)))
            <= usize::MAX
    }

    /// `p` is the profile of a run: four stages in order, with their token
    /// counts, costs and metadata; the totals sum the stages. Durations are
    /// the clock times the stages took.
    pub open spec fn spec_run(&self, query: Seq<char>, top_k: usize, p: PipelineProfile) -> bool {
        let top = self.spec_top(query, top_k);
        let ctx = self.spec_context(query, top_k);
        let answer = spec_mock_answer(query, utf8_size(ctx));
        let s = p.stages@;
        &&& s.len() == 4
        &&& p.is_consistent()
        &&& stage_is(s[0], "query_embedding"@, spec_estimate_tokens(query) as int, EMBEDDING_COST)
        &&& forall|k: Seq<char>| #[trigger]
            spec_lookup(s[0].metadata@, k) == if k == "method"@ {
                Some("mock_bpe"@)
            } else {
                None
            }
        &&& stage_is(s[1], "vector_search"@, estimate_sum(contents_of(self.corpus@, top)), 0)
        &&& forall|k: Seq<char>| #[trigger]
            spec_lookup(s[1].metadata@, k) == if k == "top_k"@ {
                Some(spec_decimal(top_k as nat))
            } else if k == "corpus_size"@ {
                Some(spec_decimal(self.corpus@.len()))
            } else {
                None
            }
        &&& stage_is(s[2], "context_assembly"@, spec_estimate_tokens(ctx) as int, 0)
        &&& forall|k: Seq<char>| #[trigger]
            spec_lookup(s[2].metadata@, k) == if k == "chunks_used"@ {
                Some(spec_decimal(retrieved_count(top_k, self.corpus@.len() as int) as nat))
            } else {
                None
            }
        &&& stage_is(s[3], "generation"@, spec_estimate_tokens(answer) as int, GENERATION_COST)
        &&& forall|k: Seq<char>| #[trigger]
            spec_lookup(s[3].metadata@, k) == if k == "model"@ {
                Some("mock-llm"@)
            } else if k == "prompt_tokens"@ {
                Some(spec_decimal((spec_estimate_tokens(ctx) + spec_estimate_tokens(query)) as nat))
            } else {
                None
            }
    }

    /// Create a pipeline over the default corpus (latencies 8, 25 and 450 ms).
    pub fn new() -> (p: Self)
        ensures
            p.corpus@.len() == DEFAULT_CORPUS_SIZE,
            forall|i: int| 0 <= i < DEFAULT_CORPUS_SIZE ==> #[trigger] is_default_chunk(i, p.corpus@[i]),
            p.embedding_latency_ms == 8,
            p.search_latency_ms == 25,
            p.generation_latency_ms == 450,
    {
        NaivePipeline {
            corpus: default_corpus(),
            embedding_latency_ms: 8,
            search_latency_ms: 25,
            generation_latency_ms: 450,
        }
    }

    /// Create a pipeline over a custom corpus.
    pub fn with_corpus(corpus: Vec<MockChunk>) -> (p: Self)
        ensures
            p.corpus@ == corpus@,
            p.embedding_latency_ms == 8,
            p.search_latency_ms == 25,
            p.generation_latency_ms == 450,
    {
        NaivePipeline { corpus, embedding_latency_ms: 8, search_latency_ms: 25, generation_latency_ms: 450 }
    }

    /// Override the simulated latencies.
    pub fn with_latencies(self, embedding_ms: u128, search_ms: u128, generation_ms: u128) -> (p: Self)
        ensures
            p.corpus@ == self.corpus@,
            p.embedding_latency_ms == embedding_ms,
            p.search_latency_ms == search_ms,
            p.generation_latency_ms == generation_ms,
    {
        let mut p = self;
        p.embedding_latency_ms = embedding_ms;
        p.search_latency_ms = search_ms;
        p.generation_latency_ms = generation_ms;
        p
    }

    /// Positions of the Top-K chunks for a query embedding, best first.
    pub fn search(&self, query_emb: i64, top_k: usize) -> (top: Vec<usize>)
        ensures
            is_top_ranked(
                similarities(self.corpus@, query_emb as int),
                top@,
                retrieved_count(top_k, self.corpus@.len() as int),
            ),
            top@ == spec_retrieved(self.corpus@, query_emb, top_k),
    {
        let n = self.corpus.len();
        let ghost target = similarities(self.corpus@, query_emb as int);
        let mut sims: Vec<i128> = Vec::new();
        for i in 0..n
            invariant
                n == self.corpus@.len(),
                target == similarities(self.corpus@, query_emb as int),
                sims@.len() == i,
                target.len() == n,
                sims@.map_values(|s: i128| s as int) == target.take(i as int),
        {
            let s = similarity_of(self.corpus[i].mock_embedding, query_emb);
            let ghost before = sims@;
            sims.push(s);
            assert(target[i as int] == s as int);
            assert forall|j: int| 0 <= j < i + 1 implies sims@.map_values(
                |s: i128| s as int,
            )[j] == #[trigger] target.take(i + 1)[j] by {
                if j < i {
                    assert(sims@[j] == before[j]);
                    assert(before.map_values(|s: i128| s as int)[j] == target.take(i as int)[j]);
                }
            }
            assert(sims@.map_values(|s: i128| s as int) =~= target.take(i + 1));
        }
        assert(target.take(n as int) =~= target);
        let mut order = rank_all(&sims);
        let k = if top_k < n {
            top_k
        } else {
            n
        };
        proof {
            lemma_ranking_prefix(target, order@, k as int);
        }
        order.truncate(k);
        assert(order@ =~= order@.take(k as int));
        proof {
            let chosen = spec_retrieved(self.corpus@, query_emb, top_k);
            lemma_top_ranked_unique(target, order@, chosen, k as int);
        }
        order
    }

    /// Assemble the context text from the chunks at the given positions.
    pub fn assemble_context(&self, top: &Vec<usize>) -> (s: String)
        requires
            forall|i: int| 0 <= i < top@.len() ==> #[trigger] top@[i] < self.corpus@.len(),
        ensures
            s@ == spec_join(contents_of(self.corpus@, top@), CONTEXT_SEPARATOR@),
    {
        let mut parts: Vec<&str> = Vec::new();
        let n = top.len();
        for i in 0..n
            invariant
                n == top@.len(),
                forall|j: int| 0 <= j < top@.len() ==> #[trigger] top@[j] < self.corpus@.len(),
                parts@.len() == i,
                parts@.map_values(|p: &str| p@) == contents_of(self.corpus@, top@).take(i as int),
        {
            let ghost before = parts@;
            parts.push(self.corpus[top[i]].content.as_str());
            let ghost want = contents_of(self.corpus@, top@);
            assert(want[i as int] == self.corpus@[top@[i as int] as int].content@);
            assert forall|j: int| 0 <= j < i + 1 implies parts@.map_values(
                |p: &str| p@,
            )[j] == #[trigger] want.take(i + 1)[j] by {
                if j < i {
                    assert(parts@[j] == before[j]);
                    assert(before.map_values(|p: &str| p@)[j] == want.take(i as int)[j]);
                }
            }
            assert(parts@.map_values(|p: &str| p@) =~= want.take(i + 1));
        }
        assert(contents_of(self.corpus@, top@).take(n as int) =~= contents_of(self.corpus@, top@));
        join(&parts, CONTEXT_SEPARATOR)
    }

    /// Generate a mock LLM response for a query and its context.
    pub fn mock_generate(&self, query: &str, context: &str) -> (g: MockGeneration)
        ensures
            g.answer@ == spec_mock_answer(query@, utf8_size(context@)),
            g.prompt_tokens == spec_estimate_tokens(context@) + spec_estimate_tokens(query@),
            g.completion_tokens == spec_estimate_tokens(g.answer@),
            g.completion_tokens <= isize::MAX / 4 + 1,
    {
        let mut answer = String::from_str(
            "Based on the retrieved context, here is what I found about \"",
        );
        answer.append(query);
        answer.append("\":\n\n[Mock LLM Response]\nThe context contains ");
        let size = decimal_usize(byte_len(context));
        answer.append(size.as_str());
        answer.append(
            " characters of supporting information. This is a simulated generation for demonstration purposes.",
        );
        let prompt_tokens = estimate_tokens(context) + estimate_tokens(query);
        let completion_tokens = estimate_tokens(answer.as_str());
        MockGeneration { answer, prompt_tokens, completion_tokens }
    }
}

impl Default for NaivePipeline {
    fn default() -> (p: Self)
        ensures
            p.corpus@.len() == DEFAULT_CORPUS_SIZE,
            forall|i: int| 0 <= i < DEFAULT_CORPUS_SIZE ==> #[trigger] is_default_chunk(i, p.corpus@[i]),
            p.embedding_latency_ms == 8,
            p.search_latency_ms == 25,
            p.generation_latency_ms == 450,
    {
        NaivePipeline::new()
    }
}

/// Sums over a profile's stages grow by the added stage.
proof fn lemma_totals_push(stages: Seq<Stage>, s: Stage)
    ensures
        sum_of(durations_of(stages.push(s))) == sum_of(durations_of(stages)) + s.duration_ms,
        sum_of(tokens_of(stages.push(s))) == sum_of(tokens_of(stages)) + s.token_count,
        sum_of(costs_of(stages.push(s))) == sum_of(costs_of(stages)) + s.cost,
{
    assert(durations_of(stages.push(s)) =~= durations_of(stages).push(s.duration_ms as int));
    assert(tokens_of(stages.push(s)) =~= tokens_of(stages).push(s.token_count as int));
    assert(costs_of(stages.push(s)) =~= costs_of(stages).push(s.cost as int));
    lemma_sum_push(durations_of(stages), s.duration_ms as int);
    lemma_sum_push(tokens_of(stages), s.token_count as int);
    lemma_sum_push(costs_of(stages), s.cost as int);
}

/// Token estimates sum to a non-negative total.
proof fn lemma_estimate_nonneg(parts: Seq<Seq<char>>)
    ensures
        estimate_sum(parts) >= 0,
    decreases parts.len(),
{
    if parts.len() > 0 {
        lemma_estimate_nonneg(parts.drop_last());
    }
}

/// A stage as it leaves a fresh timer holds no metadata.
proof fn lemma_no_metadata(s: Stage, k: Seq<char>)
    requires
        s.metadata@.len() == 0,
    ensures
        spec_lookup(s.metadata@, k) is None,
{
}

impl NaivePipeline {
    /// Sum of the token estimates of the chunks at the given positions.
    pub fn retrieved_token_total(&self, top: &Vec<usize>) -> (t: u128)
        requires
            forall|i: int| 0 <= i < top@.len() ==> #[trigger] top@[i] < self.corpus@.len(),
        ensures
            t == estimate_sum(contents_of(self.corpus@, top@)),
            t <= 0x1_0000_0000_0000_0000 * 0x4000_0000_0000_0000,
    {
        let ghost parts = contents_of(self.corpus@, top@);
        let n = top.len();
        let mut t: u128 = 0;
        for i in 0..n
            invariant
                n == top@.len(),
                parts == contents_of(self.corpus@, top@),
                forall|j: int| 0 <= j < top@.len() ==> #[trigger] top@[j] < self.corpus@.len(),
                t == estimate_sum(parts.take(i as int)),
                t <= i * (isize::MAX / 4 + 1),
        {
            assert(parts.take(i + 1).drop_last() =~= parts.take(i as int));
            let e = estimate_tokens(self.corpus[top[i]].content.as_str());
            assert(parts[i as int] == self.corpus@[top@[i as int] as int].content@);
            assert(t + e <= (i + 1) * (isize::MAX / 4 + 1)) by (nonlinear_arith)
                requires
                    t <= i * (isize::MAX / 4 + 1),
                    e <= isize::MAX / 4 + 1,
            ;
            assert((i + 1) * (isize::MAX / 4 + 1) <= 0x1_0000_0000_0000_0000 * 0x4000_0000_0000_0000)
                by (nonlinear_arith)
                requires
                    i + 1 <= usize::MAX,
                    usize::MAX <= 0xffff_ffff_ffff_ffff,
                    isize::MAX <= 0x7fff_ffff_ffff_ffff,
            ;
            t = t + e as u128;
        }
        assert(parts.take(n as int) =~= parts);
        assert(n * (isize::MAX / 4 + 1) <= 0x1_0000_0000_0000_0000 * 0x4000_0000_0000_0000)
            by (nonlinear_arith)
            requires
                n <= usize::MAX,
                usize::MAX <= 0xffff_ffff_ffff_ffff,
                isize::MAX <= 0x7fff_ffff_ffff_ffff,
        ;
        t
    }

    /// Whether the token counts of a run add up within a `usize` (which
    /// `run` requires).
    pub fn tokens_fit(&self, query: &str, top_k: usize) -> (b: bool)
        ensures
            b == self.spec_tokens_fit(query@, top_k),
    {
        let q = estimate_tokens(query);
        let emb = mock_embed(query);
        let top = self.search(emb, top_k);
        let r = self.retrieved_token_total(&top);
        let context = self.assemble_context(&top);
        let c = estimate_tokens(context.as_str());
        let g = self.mock_generate(query, context.as_str());
        assert(r <= 0x1_0000_0000_0000_0000 * 0x4000_0000_0000_0000);
        let total: u128 = q as u128 + r + c as u128 + g.completion_tokens as u128;
        total <= usize::MAX as u128
    }

    /// Run the naive RAG pipeline for a query and profile its four stages.
    /// `top_k` is the number of chunks retrieved. `pause(i, ms)` spends the
    /// simulated latency `ms` of the stage at position `i` of the profile,
    /// inside that stage's timing: 0 (query embedding), 1 (vector search)
    /// and 3 (generation); context assembly has no simulated latency.
    pub fn run<P: Fn(usize, u128)>(&self, query: &str, top_k: usize, pause: P) -> (p:
        PipelineProfile)
        requires
            forall|i: usize, ms: u128| #[trigger] pause.requires((i, ms)),
            self.spec_tokens_fit(query@, top_k),
        ensures
            self.spec_run(query@, top_k, p),
            call_ensures(pause, (0usize, self.embedding_latency_ms), ()),
            call_ensures(pause, (1usize, self.search_latency_ms), ()),
            call_ensures(pause, (3usize, self.generation_latency_ms), ()),
    {
        proof {
            reveal_strlit("top_k");
            reveal_strlit("corpus_size");
            reveal_strlit("model");
            reveal_strlit("prompt_tokens");
            assert("top_k"@.len() != "corpus_size"@.len());
            assert("model"@.len() != "prompt_tokens"@.len());
        }
        let mut profile = PipelineProfile::new();

        // Stage 1: query embedding
        let query_tokens = estimate_tokens(query);
        let timer = StageTimer::start("query_embedding");
        pause(0, self.embedding_latency_ms);
        let query_emb = mock_embed(query);
        let stage = timer.finish(query_tokens, EMBEDDING_COST);
        proof {
            assert forall|k: Seq<char>| #[trigger] spec_lookup(stage.metadata@, k) is None by {
                lemma_no_metadata(stage, k);
            }
        }
        let stage = stage.with_metadata("method", "mock_bpe");
        proof {
            lemma_totals_push(profile.stages@, stage);
        }
        profile.add_stage(stage);

        // Stage 2: vector search
        let timer = StageTimer::start("vector_search");
        pause(1, self.search_latency_ms);
        let top = self.search(query_emb, top_k);
        let retrieved = self.retrieved_token_total(&top);
        let ghost parts = contents_of(self.corpus@, top@);
        proof {
            lemma_estimate_nonneg(parts);
        }
        let stage = timer.finish(retrieved as usize, 0);
        proof {
            assert forall|k: Seq<char>| #[trigger] spec_lookup(stage.metadata@, k) is None by {
                lemma_no_metadata(stage, k);
            }
        }
        let k_text = decimal_usize(top_k);
        let n_text = decimal_usize(self.corpus.len());
        let stage = stage.with_metadata("top_k", k_text.as_str());
        let stage = stage.with_metadata("corpus_size", n_text.as_str());
        proof {
            lemma_totals_push(profile.stages@, stage);
        }
        profile.add_stage(stage);

        // Stage 3: context assembly
        let timer = StageTimer::start("context_assembly");
        let context = self.assemble_context(&top);
        let context_tokens = estimate_tokens(context.as_str());
        let stage = timer.finish(context_tokens, 0);
        proof {
            assert forall|k: Seq<char>| #[trigger] spec_lookup(stage.metadata@, k) is None by {
                lemma_no_metadata(stage, k);
            }
        }
        let used = decimal_usize(top.len());
        let stage = stage.with_metadata("chunks_used", used.as_str());
        proof {
            lemma_totals_push(profile.stages@, stage);
        }
        profile.add_stage(stage);

        // Stage 4: generation
        let timer = StageTimer::start("generation");
        pause(3, self.generation_latency_ms);
        let generation = self.mock_generate(query, context.as_str());
        let stage = timer.finish(generation.completion_tokens, GENERATION_COST);
        proof {
            assert forall|k: Seq<char>| #[trigger] spec_lookup(stage.metadata@, k) is None by {
                lemma_no_metadata(stage, k);
            }
        }
        let prompt = decimal_usize(generation.prompt_tokens);
        let stage = stage.with_metadata("model", "mock-llm");
        let stage = stage.with_metadata("prompt_tokens", prompt.as_str());
        proof {
            lemma_totals_push(profile.stages@, stage);
        }
        profile.add_stage(stage);
        profile
    }
}

/// Runs are deterministic apart from their timings: two runs of a pipeline
/// for the same query and Top-K agree on every stage's name, token count,
/// cost and metadata, and on the total tokens and cost.
pub proof fn lemma_run_deterministic(
    pipeline: NaivePipeline,
    query: Seq<char>,
    top_k: usize,
    a: PipelineProfile,
    b: PipelineProfile,
)
    requires
        pipeline.spec_run(query, top_k, a),
        pipeline.spec_run(query, top_k, b),
    ensures
        a.stages@.len() == b.stages@.len(),
        forall|i: int|
            0 <= i < a.stages@.len() ==> {
                &&& (#[trigger] a.stages@[i]).name@ == b.stages@[i].name@
                &&& a.stages@[i].token_count == b.stages@[i].token_count
                &&& a.stages@[i].cost == b.stages@[i].cost
                &&& forall|k: Seq<char>|
                    #[trigger] spec_lookup(a.stages@[i].metadata@, k) == spec_lookup(
                        b.stages@[i].metadata@,
                        k,
                    )
            },
        a.total_tokens == b.total_tokens,
        a.total_cost == b.total_cost,
{
    assert(tokens_of(a.stages@) =~= tokens_of(b.stages@));
    assert(costs_of(a.stages@) =~= costs_of(b.stages@));
    assert forall|i: int| 0 <= i < a.stages@.len() implies {
        &&& (#[trigger] a.stages@[i]).name@ == b.stages@[i].name@
        &&& a.stages@[i].token_count == b.stages@[i].token_count
        &&& a.stages@[i].cost == b.stages@[i].cost
        &&& forall|k: Seq<char>|
            #[trigger] spec_lookup(a.stages@[i].metadata@, k) == spec_lookup(
                b.stages@[i].metadata@,
                k,
            )
    } by {
        assert forall|k: Seq<char>| #[trigger]
            spec_lookup(a.stages@[i].metadata@, k) == spec_lookup(b.stages@[i].metadata@, k) by {
            if i == 0 {
                assert(spec_lookup(a.stages@[0].metadata@, k) == spec_lookup(b.stages@[0].metadata@, k));
            } else if i == 1 {
                assert(spec_lookup(a.stages@[1].metadata@, k) == spec_lookup(b.stages@[1].metadata@, k));
            } else if i == 2 {
                assert(spec_lookup(a.stages@[2].metadata@, k) == spec_lookup(b.stages@[2].metadata@, k));
            } else {
                assert(spec_lookup(a.stages@[3].metadata@, k) == spec_lookup(b.stages@[3].metadata@, k));
            }
        }
    }
}

} // verus!
