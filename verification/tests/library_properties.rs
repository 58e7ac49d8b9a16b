//! Concrete checks of what the library states: exact values of the stage
//! formulas, the edge cases the inspector and the pipeline handle, and the
//! laws of the report on given inputs.

use raginspect::inspector::{
    count_tokens, is_rust_query, mentions_rust, NOMINAL_MESSAGE, RUST_ANSWER, STACK_SIZE_CLAIM,
};
use raginspect::naive_pipeline::{estimate_tokens, mock_embed, MockChunk, NaivePipeline};
use raginspect::report_view::{
    efficiency_gauge, percent_text, window_use_text, ReportSections, RiskLevel, ScoreGrade,
};
use raginspect::reporter::{DurationStatus, Thresholds};
use raginspect::text::bp_two_decimals;
use raginspect::{
    ContextStage, GenerationResult, InspectMode, InspectionReport, Inspector, PipelineConfig,
    RagArchitecture, RetrievalResult, Verdict,
};

const RUST_QUERY: &str = "What is the memory overhead of Tokio async tasks?";
const GENERIC_QUERY: &str = "How does RAG retrieval grounding work?";

fn report_for(config: PipelineConfig, arch: RagArchitecture, query: &str) -> InspectionReport {
    let mut inspector = Inspector::new(config, None);
    inspector.set_architecture(arch);
    inspector.inspect(query, InspectMode::Full).expect("inspection succeeds")
}

fn round_half_up(a: u128, b: u128) -> u128 {
    (2 * a + b) / (2 * b)
}

fn reference_hash_embedding(text: &str) -> i64 {
    let mut h: u64 = 0;
    for c in text.chars() {
        h = h.wrapping_mul(31).wrapping_add(c as u64);
    }
    ((h % 1000) * 10) as i64
}

fn busy_wait(_stage: usize, ms: u128) {
    let start = std::time::Instant::now();
    while start.elapsed().as_millis() < ms {}
}

#[test]
fn cl100k_counts_tokens_not_bytes() {
    assert_eq!(count_tokens("hello world"), 2);
    assert_eq!(count_tokens(""), 0);
}

#[test]
fn lowercasing_decides_the_corpus() {
    assert!(is_rust_query("TOKIO RUNTIME"));
    assert!(is_rust_query("Async patterns"));
    assert!(!is_rust_query("What is RAG?"));
    assert!(mentions_rust("RUST"));
    assert!(!mentions_rust("async memory"));
}

#[test]
fn rust_query_retrieves_rust_corpus_in_order() {
    let report = report_for(PipelineConfig::default(), RagArchitecture::Naive, RUST_QUERY);
    let r = &report.retrieval;
    assert_eq!(r.top_k, 5);
    assert_eq!(r.chunks_retrieved, 5);
    assert_eq!(r.latency_ms, 42);
    let ids: Vec<&str> = r.chunks.iter().map(|c| c.id.as_str()).collect();
    assert_eq!(ids, vec!["chunk_01", "chunk_02", "chunk_03", "chunk_04", "chunk_05"]);
    let scores: Vec<u32> = r.chunks.iter().map(|c| c.score).collect();
    assert_eq!(scores, vec![9400, 8600, 8400, 5800, 3800]);
    let verdicts: Vec<Verdict> = r.chunks.iter().map(|c| c.verdict).collect();
    assert_eq!(
        verdicts,
        vec![
            Verdict::Relevant,
            Verdict::PartiallyRelevant,
            Verdict::Duplicate,
            Verdict::PartiallyRelevant,
            Verdict::Irrelevant
        ]
    );
    assert_eq!(r.chunks[0].source_doc, "docs/tokio_architecture.md#chunk_01");
    assert!(r.chunks[0].is_used_in_gen && !r.chunks[2].is_used_in_gen);
    // (9400 + 8600 + 8400 + 5800 + 3800) / 5
    assert_eq!(r.avg_similarity, 7200);
    for c in &r.chunks {
        assert_eq!(c.token_count, count_tokens(&c.content));
    }
}

#[test]
fn top_k_limits_the_chunks_and_the_mean() {
    let mut cfg = PipelineConfig::default();
    cfg.vector_store.top_k = 3;
    let report = report_for(cfg, RagArchitecture::Naive, GENERIC_QUERY);
    assert_eq!(report.retrieval.chunks.len(), 3);
    // (9200 + 8300 + 8100) / 3 = 8533.33 → 8533
    assert_eq!(report.retrieval.avg_similarity, 8533);

    let mut cfg = PipelineConfig::default();
    cfg.vector_store.top_k = 0;
    let report = report_for(cfg, RagArchitecture::Naive, GENERIC_QUERY);
    assert_eq!(report.retrieval.chunks_retrieved, 0);
    assert_eq!(report.retrieval.avg_similarity, 0);
    assert_eq!(report.context.total_tokens, 0);
    assert_eq!(report.context.efficiency_ratio, 10000);
}

#[test]
fn context_split_follows_the_verdicts() {
    let report = report_for(PipelineConfig::default(), RagArchitecture::Naive, RUST_QUERY);
    let chunks = &report.retrieval.chunks;
    let useful = chunks[0].token_count + chunks[1].token_count + chunks[3].token_count;
    let wasted = chunks[2].token_count + chunks[4].token_count;
    let c = &report.context;
    assert_eq!(c.useful_tokens, useful);
    assert_eq!(c.wasted_tokens, wasted);
    assert_eq!(c.total_tokens, useful + wasted);
    assert_eq!(c.deduplicated_chunks, 1);
    assert_eq!(c.irrelevant_chunks_pruned, 1);
    assert_eq!(c.context_window_limit, 4096);
    let expected = round_half_up(10000 * useful as u128, (useful + wasted) as u128);
    assert_eq!(c.efficiency_ratio as u128, expected);
}

#[test]
fn generation_depends_on_rust_mentions() {
    let report = report_for(PipelineConfig::default(), RagArchitecture::Naive, RUST_QUERY);
    let g = &report.generation;
    assert_eq!(g.generated_text, RUST_ANSWER);
    assert_eq!(g.hallucination_score, 1800);
    assert_eq!(g.source_attribution_pct, 8200);
    assert_eq!(g.latency_ms, 385);
    assert_eq!(g.cited_chunk_ids, vec!["chunk_01".to_string(), "chunk_02".to_string()]);
    assert_eq!(g.uncited_claims, vec![STACK_SIZE_CLAIM.to_string()]);
    assert_eq!(
        g.prompt_tokens,
        report.retrieval.total_retrieved_tokens + count_tokens(RUST_QUERY) + 50
    );
    assert_eq!(g.completion_tokens, count_tokens(RUST_ANSWER));

    let report = report_for(PipelineConfig::default(), RagArchitecture::Naive, GENERIC_QUERY);
    assert_eq!(report.generation.hallucination_score, 400);
    assert_eq!(report.generation.source_attribution_pct, 9600);
    assert!(report.generation.uncited_claims.is_empty());
}

fn round_half_away(a: i128, b: i128) -> i128 {
    if a >= 0 {
        (2 * a + b) / (2 * b)
    } else {
        -((2 * -a + b) / (2 * b))
    }
}

fn weighted(report: &InspectionReport, w: (i128, i128, i128)) -> i128 {
    let avg = report.retrieval.avg_similarity.min(10000) as i128;
    let e = report.context.efficiency_ratio as i128;
    let a = report.generation.source_attribution_pct as i128;
    round_half_away(avg * w.0 + e * w.1 + a * w.2, 100 * (w.0 + w.1 + w.2))
}

#[test]
fn health_score_uses_the_architecture_weights() {
    for query in [RUST_QUERY, GENERIC_QUERY] {
        let report = report_for(PipelineConfig::default(), RagArchitecture::Naive, query);
        assert_eq!(report.overall_score, weighted(&report, (3000, 4000, 3000)));
        assert!(report.overall_score >= 0 && report.overall_score <= 100);
        let report = report_for(PipelineConfig::default(), RagArchitecture::Agentic, query);
        assert_eq!(report.overall_score, weighted(&report, (2500, 3000, 4500)));
    }
}

#[test]
fn health_score_follows_the_metrics_override() {
    let mut cfg = PipelineConfig::default();
    cfg.metrics.override_weights = true;
    cfg.metrics.relevance_weight = 10000;
    cfg.metrics.efficiency_weight = 0;
    cfg.metrics.grounding_weight = 0;
    let report = report_for(cfg, RagArchitecture::Graph, RUST_QUERY);
    // Only relevance counts: mean similarity 0.72 → 72 points.
    assert_eq!(report.overall_score, 72);

    let mut cfg = PipelineConfig::default();
    cfg.metrics.override_weights = true;
    cfg.metrics.relevance_weight = 0;
    cfg.metrics.efficiency_weight = 0;
    cfg.metrics.grounding_weight = 0;
    let report = report_for(cfg, RagArchitecture::Naive, RUST_QUERY);
    // Weights summing to zero fall back to 0.33 / 0.34 / 0.33.
    assert_eq!(report.overall_score, weighted(&report, (3300, 3400, 3300)));
}

#[test]
fn recommendations_list_findings_then_architecture_advice() {
    let report = report_for(PipelineConfig::default(), RagArchitecture::Naive, RUST_QUERY);
    let recs = &report.recommendations;
    let c = &report.context;
    let pct = round_half_up((10000 - c.efficiency_ratio) as u128, 10);
    let expected_waste = format!(
        "Token Waste Detected: {} out of {} tokens ({}.{}%) in context were wasted on duplicate or irrelevant chunks. Enable similarity deduplication threshold > 0.85.",
        c.wasted_tokens,
        c.total_tokens,
        pct / 10,
        pct % 10
    );
    assert_eq!(recs[0], expected_waste);
    assert_eq!(
        recs[1],
        "Redundant Retrieval: Chunk 'chunk_03' is a near-duplicate of a higher ranked chunk. Lower Top-K from 5 to 4 or adjust chunking stride."
    );
    assert_eq!(
        recs[2],
        "Low Quality Match: Chunk 'chunk_05' had similarity score 0.38 (below threshold 0.65). Increase vector similarity threshold."
    );
    assert_eq!(
        recs[3],
        "Hallucination Risk: Detected 1 uncited claim(s) in LLM generation. Consider adding stricter system instructions for source attribution."
    );
    assert_eq!(
        recs[4],
        "Naive Architecture: Consider upgrading to Advanced for re-ranking and hybrid search to improve retrieval precision."
    );
    assert_eq!(recs.len(), 5);
}

#[test]
fn architecture_advice_uses_the_configuration() {
    let mut cfg = PipelineConfig::default();
    cfg.vector_store.top_k = 7;
    let report = report_for(cfg, RagArchitecture::Naive, GENERIC_QUERY);
    assert_eq!(
        report.recommendations.last().unwrap(),
        "Naive Architecture: Top-K=7 is high for a linear pipeline — unused chunks waste context tokens. Consider K=3–4."
    );

    let report = report_for(PipelineConfig::default(), RagArchitecture::Graph, GENERIC_QUERY);
    assert_eq!(
        report.recommendations.last().unwrap(),
        "Graph Architecture: Current similarity threshold 0.65 may prune valid cross-entity edges — consider graph-aware thresholding."
    );
    let report = report_for(PipelineConfig::default(), RagArchitecture::Agentic, GENERIC_QUERY);
    assert!(report.recommendations.iter().filter(|r| r.starts_with("Agentic")).count() == 3);
}

#[test]
fn nothing_found_gives_the_nominal_note() {
    let inspector = Inspector::new(PipelineConfig::default(), None);
    let retrieval = RetrievalResult {
        top_k: 5,
        chunks_retrieved: 0,
        total_retrieved_tokens: 0,
        latency_ms: 42,
        chunks: vec![],
        avg_similarity: 0,
    };
    let context = ContextStage {
        total_tokens: 0,
        useful_tokens: 0,
        wasted_tokens: 0,
        efficiency_ratio: 10000,
        deduplicated_chunks: 0,
        irrelevant_chunks_pruned: 0,
        context_window_limit: 4096,
    };
    let generation = GenerationResult {
        generated_text: String::new(),
        prompt_tokens: 0,
        completion_tokens: 0,
        latency_ms: 385,
        hallucination_score: 400,
        source_attribution_pct: 9600,
        cited_chunk_ids: vec![],
        uncited_claims: vec![],
    };
    let recs = inspector.generate_recommendations(&retrieval, &context, &generation);
    assert_eq!(recs, vec![NOMINAL_MESSAGE.to_string()]);
    // Naive weights: 0.40 * 100 (empty context is fully efficient) + 0.30 * 96 = 68.8 → 69
    assert_eq!(inspector.calculate_health_score(&retrieval, &context, &generation), 69);

    // Recommendations and score need no consistent context: the waste share
    // comes from the efficiency ratio.
    let odd = ContextStage { wasted_tokens: 10, efficiency_ratio: 7500, ..context };
    let recs = inspector.generate_recommendations(&retrieval, &odd, &generation);
    assert!(recs[0].starts_with("Token Waste Detected: 10 out of 0 tokens (25.0%)"));
}

#[test]
fn report_carries_identity_fields() {
    let mut inspector = Inspector::new(PipelineConfig::default(), Some("gpt-4-turbo".to_string()));
    inspector.set_architecture(RagArchitecture::Hyde);
    let report = inspector.inspect("q", InspectMode::Retrieval).unwrap();
    assert_eq!(report.config_name, "Default-RAG-Pipeline");
    assert_eq!(report.model_name, "gpt-4-turbo");
    assert_eq!(report.architecture, RagArchitecture::Hyde);
    assert_eq!(report.inspect_mode, InspectMode::Retrieval);
    assert!(chrono::DateTime::parse_from_rfc3339(&report.timestamp).is_ok());

    let report = Inspector::new(PipelineConfig::default(), None)
        .inspect_at("q", InspectMode::Quick, "2024-01-01T00:00:00+00:00".to_string());
    assert_eq!(report.model_name, "gpt-4o-mini");
    assert_eq!(report.timestamp, "2024-01-01T00:00:00+00:00");
}

#[test]
fn mock_embedding_is_the_polynomial_hash() {
    for text in ["hello world", "", "What is RAG?", "é✓"] {
        assert_eq!(mock_embed(text), reference_hash_embedding(text));
    }
    assert_eq!(estimate_tokens(""), 0);
    assert_eq!(estimate_tokens("abc"), 1);
    assert_eq!(estimate_tokens("é✓"), 1);
}

#[test]
fn search_ranks_by_similarity_then_corpus_order() {
    let chunk = |id: &str, e: i64| MockChunk {
        id: id.to_string(),
        source: "s.md".to_string(),
        content: format!("content of {id}"),
        mock_embedding: e,
    };
    let q = mock_embed("query");
    let corpus = vec![chunk("far", q + 3000), chunk("tie_a", q - 500), chunk("near", q), chunk("tie_b", q + 500)];
    let pipeline = NaivePipeline::with_corpus(corpus);
    assert_eq!(pipeline.search(q, 10), vec![2, 1, 3, 0]);
    assert_eq!(pipeline.search(q, 2), vec![2, 1]);
    assert_eq!(pipeline.search(q, 0), Vec::<usize>::new());
}

#[test]
fn naive_run_metadata_and_costs() {
    let pipeline = NaivePipeline::new().with_latencies(0, 0, 0);
    assert!(pipeline.tokens_fit("What is RAG?", 2));
    let profile = pipeline.run("What is RAG?", 2, busy_wait);
    let s = &profile.stages;
    assert_eq!(s[0].get_metadata("method"), Some(&"mock_bpe".to_string()));
    assert_eq!(s[0].cost, 100_000);
    assert_eq!(s[1].get_metadata("corpus_size"), Some(&"8".to_string()));
    assert_eq!(s[1].cost, 0);
    assert_eq!(s[3].get_metadata("model"), Some(&"mock-llm".to_string()));
    assert_eq!(s[3].cost, 4_800_000);
    assert_eq!(profile.total_cost, 4_900_000);
    let top = pipeline.search(mock_embed("What is RAG?"), 2);
    let context = pipeline.assemble_context(&top);
    let expected_prompt = estimate_tokens(&context) + estimate_tokens("What is RAG?");
    assert_eq!(s[3].get_metadata("prompt_tokens"), Some(&expected_prompt.to_string()));
    assert_eq!(s[2].token_count, estimate_tokens(&context));
    let generation = pipeline.mock_generate("What is RAG?", &context);
    assert!(generation.answer.starts_with("Based on the retrieved context, here is what I found about \"What is RAG?\":\n\n[Mock LLM Response]\nThe context contains "));
    assert!(generation.answer.contains(&format!("{} characters", context.len())));
}

#[test]
fn report_view_rules() {
    assert_eq!(ScoreGrade::of_score(85), ScoreGrade::Excellent);
    assert_eq!(ScoreGrade::of_score(84), ScoreGrade::Good);
    assert_eq!(ScoreGrade::of_score(69).label(), "NEEDS ATTENTION");
    assert_eq!(RiskLevel::of_hallucination(500), RiskLevel::Low);
    assert_eq!(RiskLevel::of_hallucination(1800).label(), "HIGH");
    assert_eq!(percent_text(8234), "82.3");
    assert_eq!(efficiency_gauge(5000), format!("[{}{}] 50.0%", "█".repeat(15), "░".repeat(15)));
    assert_eq!(window_use_text(1024, 4096), Some("25.0".to_string()));
    assert_eq!(window_use_text(5, 0), None);
    let quick = ReportSections::for_mode(InspectMode::Quick);
    assert!(quick.quick_summary && !quick.retrieval);
    assert_eq!(bp_two_decimals(-40), "-0.00");
    assert_eq!(bp_two_decimals(6500), "0.65");
}

#[test]
fn duration_status_thresholds() {
    let t = Thresholds::default();
    assert_eq!(DurationStatus::from_ms(49, &t), DurationStatus::Okay);
    assert_eq!(DurationStatus::from_ms(50, &t), DurationStatus::Warn);
    assert_eq!(DurationStatus::from_ms(500, &t), DurationStatus::Slow);
    let label = DurationStatus::from_ms(600, &t).label();
    assert!(label == "SLOW" || label == "\u{1b}[31mSLOW\u{1b}[0m");
}

#[test]
fn what_is_rag_with_three_chunks_and_with_the_default_five() {
    // Top-K 3: chunks 01-03, one duplicate, no low-quality match and no
    // uncited claim: token waste, the duplicate, and the Naive upgrade advice.
    let mut cfg = PipelineConfig::default();
    cfg.vector_store.top_k = 3;
    let report = report_for(cfg, RagArchitecture::Naive, "What is RAG?");
    assert_eq!(report.architecture, RagArchitecture::Naive);
    assert_eq!(report.retrieval.chunks_retrieved, 3);
    assert_eq!(report.recommendations.len(), 3);
    assert!(report.recommendations[1].contains("Lower Top-K from 3 to 2"));
    assert_eq!(report.overall_score, weighted(&report, (3000, 4000, 3000)));
    assert_eq!(report.overall_score, 83);

    // The default Top-K 5 adds the low-quality chunk_05: four recommendations
    // and a score of 75.
    let report = report_for(PipelineConfig::default(), RagArchitecture::Naive, "What is RAG?");
    assert_eq!(report.recommendations.len(), 4);
    assert!(report.recommendations[1].contains("Lower Top-K from 5 to 4"));
    assert!(report.recommendations[2].starts_with("Low Quality Match: Chunk 'chunk_05'"));
    assert_eq!(report.overall_score, weighted(&report, (3000, 4000, 3000)));
    assert_eq!(report.overall_score, 75);
}
