use raginspect::classifier::{ArchitectureClassifier, ClassificationResult};
use raginspect::topology::TopologyAnalyzer;
use raginspect::{PipelineConfig, RagArchitecture};

// Confidences and scores are in basis points: 10_000 is 1.0.

fn classify(config: &PipelineConfig) -> ClassificationResult {
    let topo = TopologyAnalyzer::new().analyze(config);
    ArchitectureClassifier::new().classify(&topo)
}

fn default_config() -> PipelineConfig {
    PipelineConfig::default()
}

#[test]
fn test_classify_naive() {
    let result = classify(&default_config());
    assert_eq!(result.architecture, RagArchitecture::Naive);
    assert!(result.confidence >= 9000);
    assert!(!result.reason.is_empty());
}

#[test]
fn test_classify_advanced_with_reranking() {
    let mut config = default_config();
    config.reranking.enabled = true;
    config.reranking.model = "cross-encoder".to_string();

    let result = classify(&config);
    assert_eq!(result.architecture, RagArchitecture::Advanced);
    assert!(result.confidence >= 7000);
}

#[test]
fn test_classify_advanced_with_fusion() {
    let mut config = default_config();
    config.fusion.enabled = true;

    let result = classify(&config);
    assert_eq!(result.architecture, RagArchitecture::Advanced);
    assert!(result.confidence >= 7000);
}

#[test]
fn test_classify_advanced_with_reranking_and_fusion() {
    let mut config = default_config();
    config.reranking.enabled = true;
    config.reranking.model = "cross-encoder".to_string();
    config.fusion.enabled = true;

    let result = classify(&config);
    assert_eq!(result.architecture, RagArchitecture::Advanced);
    assert!(result.confidence >= 9000);
}

#[test]
fn test_classify_modular_with_routing() {
    let mut config = default_config();
    config.routing.enabled = true;
    config.routing.routes = vec!["semantic".to_string(), "keyword".to_string()];

    let result = classify(&config);
    assert_eq!(result.architecture, RagArchitecture::Modular);
    assert!(result.confidence >= 6000);
}

#[test]
fn test_classify_agentic_with_tools() {
    let mut config = default_config();
    config.tools.enabled = true;
    config.tools.tools = vec!["search".to_string(), "calculator".to_string()];

    let result = classify(&config);
    assert_eq!(result.architecture, RagArchitecture::Agentic);
    assert!(result.confidence >= 8000);
}

#[test]
fn test_classify_graph() {
    let mut config = default_config();
    config.graph.enabled = true;

    let result = classify(&config);
    assert_eq!(result.architecture, RagArchitecture::Graph);
    assert!(result.confidence >= 8500);
}

#[test]
fn test_classify_hyde() {
    let mut config = default_config();
    config.hyde.enabled = true;

    let result = classify(&config);
    assert_eq!(result.architecture, RagArchitecture::Hyde);
    assert!(result.confidence >= 9000);
}

#[test]
fn test_classify_multimodal() {
    let mut config = default_config();
    config.multimodal.enabled = true;
    config.multimodal.modalities = vec!["text".to_string(), "image".to_string()];

    let result = classify(&config);
    assert_eq!(result.architecture, RagArchitecture::Multimodal);
    assert!(result.confidence >= 9000);
}

#[test]
fn test_confidence_is_in_valid_range() {
    let result = classify(&default_config());
    assert!(
        result.confidence <= 10000,
        "confidence must be in [0.0, 1.0], got {}",
        result.confidence
    );

    // Check all scores are in range
    for (_, score) in &result.scores {
        assert!(*score <= 10000, "individual score must be in [0.0, 1.0]");
    }
}

#[test]
fn test_reason_is_non_empty() {
    let result = classify(&default_config());
    assert!(!result.reason.is_empty());
    assert!(result.reason.len() > 10, "reason should be descriptive");
}

#[test]
fn test_all_architectures_scored() {
    let result = classify(&default_config());
    assert_eq!(result.scores.len(), 7, "must score all 7 architectures");
}

#[test]
fn test_best_score_matches_classification() {
    let mut config = default_config();
    config.graph.enabled = true;

    let result = classify(&config);
    let (_, best_score) = result
        .scores
        .iter()
        .find(|(a, _)| *a == result.architecture)
        .unwrap();

    // The classified architecture should have the highest or tied-highest score
    let max_score = result.scores.iter().map(|(_, s)| *s).max().unwrap();
    assert_eq!(
        *best_score, max_score,
        "classified arch score {} should equal max score {}",
        best_score, max_score
    );
}
