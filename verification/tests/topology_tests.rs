use raginspect::topology::{PipelineComponent, TopologyAnalyzer};
use raginspect::PipelineConfig;

fn default_config() -> PipelineConfig {
    PipelineConfig::default()
}

#[test]
fn test_naive_topology() {
    let analyzer = TopologyAnalyzer::new();
    let topo = analyzer.analyze(&default_config());

    assert!(topo.is_naive());
    // Default config has prune_irrelevant=true, which adds ContextCompression
    assert!(topo.components.contains(&PipelineComponent::DenseRetrieval));
    assert!(!topo.has_reranking);
    assert!(!topo.has_fusion);
}

#[test]
fn test_reranking_detected() {
    let mut config = default_config();
    config.reranking.enabled = true;
    config.reranking.model = "cross-encoder/ms-marco-minilm-v6".to_string();

    let topo = TopologyAnalyzer::new().analyze(&config);
    assert!(topo.has_reranking);
    assert!(topo.components.contains(&PipelineComponent::Reranking));
}

#[test]
fn test_fusion_adds_sparse_retrieval() {
    let mut config = default_config();
    config.fusion.enabled = true;

    let topo = TopologyAnalyzer::new().analyze(&config);
    assert!(topo.has_fusion);
    assert!(topo.components.contains(&PipelineComponent::Fusion));
    assert!(topo.components.contains(&PipelineComponent::SparseRetrieval));
}

#[test]
fn test_graph_detected() {
    let mut config = default_config();
    config.graph.enabled = true;

    let topo = TopologyAnalyzer::new().analyze(&config);
    assert!(topo.has_graph);
    assert!(topo.components.contains(&PipelineComponent::GraphTraversal));
}

#[test]
fn test_hyde_detected() {
    let mut config = default_config();
    config.hyde.enabled = true;

    let topo = TopologyAnalyzer::new().analyze(&config);
    assert!(topo.has_hyde);
    assert!(topo.components.contains(&PipelineComponent::HyDE));
}

#[test]
fn test_multimodal_requires_multiple_modalities() {
    let mut config = default_config();
    config.multimodal.enabled = true;
    config.multimodal.modalities = vec!["text".to_string()]; // only 1

    let topo = TopologyAnalyzer::new().analyze(&config);
    assert!(
        !topo.has_multimodal,
        "single modality should not count as multimodal"
    );

    config.multimodal.modalities = vec!["text".to_string(), "image".to_string()];
    let topo = TopologyAnalyzer::new().analyze(&config);
    assert!(topo.has_multimodal);
}

#[test]
fn test_tool_calling_makes_iterative() {
    let mut config = default_config();
    config.tools.enabled = true;
    config.tools.tools = vec!["search".to_string(), "calculator".to_string()];

    let topo = TopologyAnalyzer::new().analyze(&config);
    assert!(topo.has_tool_calling);
    assert!(topo.is_iterative, "tool-calling should make pipeline iterative");
}

#[test]
fn test_routing_makes_iterative() {
    let mut config = default_config();
    config.routing.enabled = true;

    let topo = TopologyAnalyzer::new().analyze(&config);
    assert!(topo.has_routing);
    assert!(topo.is_iterative);
}

#[test]
fn test_component_labels() {
    assert_eq!(
        PipelineComponent::DenseRetrieval.label(),
        "Dense Vector Retrieval"
    );
    assert_eq!(PipelineComponent::Reranking.label(), "Re-ranking");
    assert!(!PipelineComponent::Fusion.label().is_empty());
}

#[test]
fn test_detected_components_returns_labels() {
    let mut config = default_config();
    config.reranking.enabled = true;
    config.reranking.model = "cross-encoder".to_string();

    let topo = TopologyAnalyzer::new().analyze(&config);
    let labels = topo.detected_components();
    assert!(labels.contains(&"Dense Vector Retrieval"));
    assert!(labels.contains(&"Re-ranking"));
}

#[test]
fn test_retrieval_stages_count() {
    let analyzer = TopologyAnalyzer::new();

    // Naive: 1 stage
    assert_eq!(analyzer.analyze(&default_config()).retrieval_stages, 1);

    // With fusion: 2 stages
    let mut config = default_config();
    config.fusion.enabled = true;
    assert_eq!(analyzer.analyze(&config).retrieval_stages, 2);

    // With fusion + graph: 3 stages
    config.graph.enabled = true;
    assert_eq!(analyzer.analyze(&config).retrieval_stages, 3);
}

#[test]
fn test_reranking_without_model_not_detected() {
    let mut config = default_config();
    config.reranking.enabled = true;
    // model is empty (default)
    let topo = TopologyAnalyzer::new().analyze(&config);
    assert!(
        !topo.has_reranking,
        "reranking without model should not be detected"
    );
}
