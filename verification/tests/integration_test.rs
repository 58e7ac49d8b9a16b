//! End-to-end tests: default configuration, inspector runs across modes and
//! architectures, multi-run profiling and architecture metadata.
//!
//! Scores are whole points (0 to 100); shares are basis points (10_000 is
//! 1.0).

use raginspect::{
    InspectMode, InspectionReport, Inspector, MultiRunProfiler, PipelineConfig, RagArchitecture,
    Stage, Verdict,
};

const RUST_QUERY: &str = "What is the memory overhead of Tokio async tasks?";
const GENERIC_QUERY: &str = "How does RAG retrieval grounding work?";

fn create_inspector() -> Inspector {
    let mut inspector = Inspector::new(PipelineConfig::default(), None);
    inspector.set_architecture(RagArchitecture::Naive);
    inspector
}

fn inspect_default(query: &str) -> InspectionReport {
    let inspector = create_inspector();
    inspector
        .inspect(query, InspectMode::Full)
        .expect("inspection should succeed")
}

fn inspect_query(config: PipelineConfig, query: &str, mode: InspectMode) -> InspectionReport {
    let mut inspector = Inspector::new(config, None);
    inspector.set_architecture(RagArchitecture::Naive);
    inspector
        .inspect(query, mode)
        .expect("inspection should succeed")
}

fn assert_valid_score(score: i128, label: &str) {
    assert!((0..=100).contains(&score), "{label} must be in [0.0, 100.0], got {score}");
}

fn assert_valid_ratio(ratio: u32, label: &str) {
    assert!(ratio <= 10000, "{label} must be in [0.0, 1.0], got {ratio}");
}

#[test]
fn default_config_has_expected_defaults() {
    let cfg = PipelineConfig::default();
    assert!(!cfg.name.is_empty(), "default config name must not be empty");
    assert_eq!(cfg.vector_store.top_k, 5);
    assert_eq!(cfg.llm.model, "gpt-4o-mini");
    assert_eq!(cfg.context.max_context_tokens, 4096);
}

#[test]
fn full_inspection_produces_valid_report() {
    let report = inspect_default(RUST_QUERY);
    assert_eq!(report.query, RUST_QUERY);
    assert!(!report.config_name.is_empty());
    assert!(!report.model_name.is_empty());
    assert_valid_score(report.overall_score, "overall_score");
    assert!(!report.recommendations.is_empty());
}

#[test]
fn all_inspect_modes_produce_reports_with_correct_mode() {
    let modes = [
        InspectMode::Full,
        InspectMode::Retrieval,
        InspectMode::Context,
        InspectMode::Quick,
    ];
    for mode in modes {
        let report = inspect_query(PipelineConfig::default(), GENERIC_QUERY, mode);
        assert_eq!(report.inspect_mode, mode);
    }
}

#[test]
fn inspection_score_is_within_valid_range() {
    for query in [RUST_QUERY, GENERIC_QUERY] {
        let report = inspect_default(query);
        assert!(
            report.overall_score >= 0 && report.overall_score <= 100,
            "score {} out of range for '{}'",
            report.overall_score,
            query
        );
    }
}

#[test]
fn all_architectures_produce_recommendations() {
    let architectures = [
        RagArchitecture::Naive,
        RagArchitecture::Advanced,
        RagArchitecture::Modular,
        RagArchitecture::Agentic,
        RagArchitecture::Graph,
        RagArchitecture::Hyde,
        RagArchitecture::Multimodal,
    ];
    for arch in architectures {
        let mut inspector = Inspector::new(PipelineConfig::default(), None);
        inspector.set_architecture(arch);
        let report = inspector
            .inspect("test query about RAG", InspectMode::Quick)
            .expect("inspection should succeed");
        assert!(
            !report.recommendations.is_empty(),
            "Architecture {:?} should produce recommendations",
            arch
        );
    }
}

#[test]
fn inspection_report_query_is_preserved() {
    let query = "What are the latency characteristics of HNSW vector index?";
    let report = inspect_default(query);
    assert_eq!(report.query, query);
}

#[test]
fn verdict_badges_are_non_empty_strings() {
    let verdicts = [
        Verdict::Relevant,
        Verdict::PartiallyRelevant,
        Verdict::Irrelevant,
        Verdict::Duplicate,
        Verdict::LowConfidence,
    ];
    for verdict in &verdicts {
        let badge = verdict.badge();
        assert!(!badge.is_empty(), "badge must not be empty for {:?}", verdict);
    }
}

#[test]
fn verdict_color_codes_are_valid() {
    let verdicts = [
        Verdict::Relevant,
        Verdict::PartiallyRelevant,
        Verdict::Irrelevant,
        Verdict::Duplicate,
        Verdict::LowConfidence,
    ];
    for verdict in &verdicts {
        let color = verdict.color_code();
        assert!(!color.is_empty(), "color_code must not be empty for {:?}", verdict);
    }
}

#[test]
fn retrieval_respects_top_k_config() {
    let mut cfg = PipelineConfig::default();
    cfg.vector_store.top_k = 3;
    let report = inspect_query(cfg, RUST_QUERY, InspectMode::Full);
    assert_eq!(report.retrieval.top_k, 3);
    assert!(
        report.retrieval.chunks_retrieved <= 3,
        "chunks_retrieved ({}) must not exceed top_k (3)",
        report.retrieval.chunks_retrieved
    );
}

#[test]
fn context_efficiency_ratio_is_valid() {
    let report = inspect_default(RUST_QUERY);
    assert_valid_ratio(report.context.efficiency_ratio, "efficiency_ratio");
}

#[test]
fn hallucination_score_is_valid() {
    let report = inspect_default(RUST_QUERY);
    assert_valid_ratio(report.generation.hallucination_score, "hallucination_score");
}

#[test]
fn useful_tokens_le_total_tokens() {
    let report = inspect_default(RUST_QUERY);
    assert!(
        report.context.useful_tokens <= report.context.total_tokens,
        "useful_tokens ({}) must not exceed total_tokens ({})",
        report.context.useful_tokens,
        report.context.total_tokens
    );
}

#[test]
fn model_override_is_reflected_in_report() {
    let override_model = "gpt-4-turbo";
    let inspector = Inspector::new(PipelineConfig::default(), Some(override_model.to_string()));
    let report = inspector.inspect(RUST_QUERY, InspectMode::Full).unwrap();
    assert_eq!(report.model_name, override_model);
}

#[test]
fn retrieval_chunk_ids_are_non_empty() {
    let report = inspect_default(RUST_QUERY);
    for chunk in &report.retrieval.chunks {
        assert!(!chunk.id.is_empty(), "chunk.id must not be empty");
        assert!(!chunk.source_doc.is_empty(), "chunk.source_doc must not be empty");
    }
}

#[test]
fn total_retrieved_tokens_equals_sum_of_chunks() {
    let report = inspect_default(RUST_QUERY);
    let sum: usize = report.retrieval.chunks.iter().map(|c| c.token_count).sum();
    assert_eq!(report.retrieval.total_retrieved_tokens, sum);
}

#[test]
fn multi_run_produces_correct_run_counts() {
    let mut profiler = MultiRunProfiler::new(5);
    let durations = [10, 12, 8, 15, 11];
    for &d in &durations {
        profiler.run(|profile| {
            profile.add_stage(
                Stage::new("embedding")
                    .with_duration(d)
                    .with_tokens(8)
                    .with_cost(100_000),
            );
        });
    }
    let stats = profiler.compute_stats();
    assert_eq!(stats.len(), 1);
    assert_eq!(stats[0].runs, 5);
}

#[test]
fn p50_le_p99_for_all_stages() {
    let mut profiler = MultiRunProfiler::new(10);
    let durs = [10, 20, 30, 40, 50, 60, 70, 80, 90, 100];
    for &d in &durs {
        profiler.run(|profile| {
            profile.add_stage(Stage::new("stage_a").with_duration(d));
            profile.add_stage(Stage::new("stage_b").with_duration(d * 2));
        });
    }
    let stats = profiler.compute_stats();
    for s in &stats {
        assert!(
            s.p50_ms <= s.p99_ms,
            "p50 ({}) must be <= p99 ({}) for {}",
            s.p50_ms,
            s.p99_ms,
            s.name
        );
    }
}

#[test]
fn min_le_p50_le_max() {
    let mut profiler = MultiRunProfiler::new(5);
    let durs = [10, 30, 20, 50, 40];
    for &d in &durs {
        profiler.run(|profile| {
            profile.add_stage(Stage::new("stage").with_duration(d));
        });
    }
    let stats = profiler.compute_stats();
    for s in &stats {
        assert!(s.min_ms <= s.p50_ms, "min ({}) must be <= p50 ({})", s.min_ms, s.p50_ms);
        assert!(s.p50_ms <= s.max_ms, "p50 ({}) must be <= max ({})", s.p50_ms, s.max_ms);
    }
}

#[test]
fn empty_profiler_produces_empty_stats() {
    let profiler = MultiRunProfiler::new(3);
    let stats = profiler.compute_stats();
    assert!(stats.is_empty());
}

#[test]
fn single_run_stats_have_p50_eq_p99() {
    let mut profiler = MultiRunProfiler::new(1);
    profiler.run(|profile| {
        profile.add_stage(Stage::new("only_stage").with_duration(42));
    });
    let stats = profiler.compute_stats();
    assert_eq!(stats.len(), 1);
    assert_eq!(stats[0].runs, 1);
    assert_eq!(stats[0].p50_ms, stats[0].p99_ms);
    assert_eq!(stats[0].min_ms, stats[0].max_ms);
}

#[test]
fn stats_stage_names_are_preserved() {
    let mut profiler = MultiRunProfiler::new(3);
    for _ in 0..3 {
        profiler.run(|profile| {
            profile.add_stage(Stage::new("alpha"));
            profile.add_stage(Stage::new("beta"));
            profile.add_stage(Stage::new("gamma"));
        });
    }
    let stats = profiler.compute_stats();
    let names: Vec<&str> = stats.iter().map(|s| s.name.as_str()).collect();
    assert_eq!(names, vec!["alpha", "beta", "gamma"]);
}

#[test]
fn all_architectures_have_unique_diagnostic_focus() {
    let architectures = [
        RagArchitecture::Naive,
        RagArchitecture::Advanced,
        RagArchitecture::Modular,
        RagArchitecture::Agentic,
        RagArchitecture::Graph,
        RagArchitecture::Hyde,
        RagArchitecture::Multimodal,
    ];
    let focuses: Vec<&str> = architectures.iter().map(|a| a.diagnostic_focus()).collect();
    // All should be unique
    let unique: std::collections::HashSet<&str> = focuses.iter().copied().collect();
    assert_eq!(
        unique.len(),
        architectures.len(),
        "All architectures must have unique diagnostic_focus strings"
    );
}

#[test]
fn all_architectures_have_non_empty_diagnostic_layers() {
    let architectures = [
        RagArchitecture::Naive,
        RagArchitecture::Advanced,
        RagArchitecture::Modular,
        RagArchitecture::Agentic,
        RagArchitecture::Graph,
        RagArchitecture::Hyde,
        RagArchitecture::Multimodal,
    ];
    for arch in &architectures {
        let layers = arch.diagnostic_layers();
        assert!(
            !layers.is_empty(),
            "Architecture {:?} must have non-empty diagnostic_layers",
            arch
        );
    }
}

#[test]
fn all_seven_architectures_are_covered() {
    let variants = [
        RagArchitecture::Naive,
        RagArchitecture::Advanced,
        RagArchitecture::Modular,
        RagArchitecture::Agentic,
        RagArchitecture::Graph,
        RagArchitecture::Hyde,
        RagArchitecture::Multimodal,
    ];
    assert_eq!(variants.len(), 7, "Must have exactly 7 architectures");
}

#[test]
fn architecture_display_is_descriptive() {
    let arch = RagArchitecture::Naive;
    let display = arch.display_name().to_string();
    assert!(!display.is_empty());
    assert!(display.contains("Naive"));
}

#[test]
fn naive_focus_mentions_retrieval() {
    let focus = RagArchitecture::Naive.diagnostic_focus();
    assert!(
        focus.to_lowercase().contains("retrieval") || focus.to_lowercase().contains("dense"),
        "Naive focus should mention retrieval: got '{}'",
        focus
    );
}
