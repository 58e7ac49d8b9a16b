use raginspect::config::MetricsConfig;
use raginspect::metrics::MetricWeights;
use raginspect::RagArchitecture;

// Weights are in basis points (10_000 is 1.0); component scores passed to
// `calculate_score` are in hundredths of a point (8_000 is 80.0).

#[test]
fn test_naive_weights() {
    let w = MetricWeights::for_architecture(&RagArchitecture::Naive);
    assert_eq!(w.relevance, 3000);
    assert_eq!(w.efficiency, 4000);
    assert_eq!(w.grounding, 3000);
    // Emphasizes efficiency (context recall)
    assert!(w.emphasized_metrics().contains(&"efficiency"));
}

#[test]
fn test_advanced_weights() {
    let w = MetricWeights::for_architecture(&RagArchitecture::Advanced);
    assert!(w.relevance > w.efficiency);
    assert!(w.relevance > w.grounding);
    assert!(w.emphasized_metrics().contains(&"relevance"));
}

#[test]
fn test_agentic_weights() {
    let w = MetricWeights::for_architecture(&RagArchitecture::Agentic);
    assert!(w.grounding > w.relevance);
    assert!(w.grounding > w.efficiency);
    assert!(w.emphasized_metrics().contains(&"grounding"));
}

#[test]
fn test_graph_weights() {
    let w = MetricWeights::for_architecture(&RagArchitecture::Graph);
    assert!(w.relevance >= 4000);
}

#[test]
fn test_hyde_weights() {
    let w = MetricWeights::for_architecture(&RagArchitecture::Hyde);
    assert!(w.relevance > 3300);
}

#[test]
fn test_multimodal_weights() {
    let w = MetricWeights::for_architecture(&RagArchitecture::Multimodal);
    assert!(w.grounding > 3300);
}

#[test]
fn test_modular_weights_balanced() {
    let w = MetricWeights::for_architecture(&RagArchitecture::Modular);
    // Modular should be relatively balanced
    let max = w.relevance.max(w.efficiency).max(w.grounding);
    let min = w.relevance.min(w.efficiency).min(w.grounding);
    assert!(max - min < 1500, "modular weights should be balanced");
}

#[test]
fn test_weights_sum_to_one() {
    for arch in [
        RagArchitecture::Naive,
        RagArchitecture::Advanced,
        RagArchitecture::Modular,
        RagArchitecture::Agentic,
        RagArchitecture::Graph,
        RagArchitecture::Hyde,
        RagArchitecture::Multimodal,
    ] {
        let w = MetricWeights::for_architecture(&arch);
        let sum = w.relevance + w.efficiency + w.grounding;
        assert_eq!(sum, 10000, "Weights for {:?} should sum to 1.0, got {}", arch, sum);
    }
}

#[test]
fn test_normalization() {
    let w = MetricWeights {
        relevance: 20000,
        efficiency: 30000,
        grounding: 50000,
    };
    let n = w.normalized();
    assert_eq!(n.relevance, 2000);
    assert_eq!(n.efficiency, 3000);
    assert_eq!(n.grounding, 5000);
}

#[test]
fn test_normalization_zero_sum_fallback() {
    let w = MetricWeights {
        relevance: 0,
        efficiency: 0,
        grounding: 0,
    };
    let n = w.normalized();
    let sum = n.relevance + n.efficiency + n.grounding;
    assert_eq!(sum, 10000);
}

#[test]
fn test_calculate_score() {
    let w = MetricWeights {
        relevance: 4000,
        efficiency: 3000,
        grounding: 3000,
    };
    // 80*0.4 + 90*0.3 + 70*0.3 = 32 + 27 + 21 = 80
    let score = w.calculate_score(8000, 9000, 7000);
    assert_eq!(score, 80);
}

#[test]
fn test_calculate_score_normalizes() {
    let w = MetricWeights {
        relevance: 40000,
        efficiency: 30000,
        grounding: 30000,
    };
    // Normalized to 0.4, 0.3, 0.3 → same as above
    let score = w.calculate_score(8000, 9000, 7000);
    assert_eq!(score, 80);
}

#[test]
fn test_resolve_uses_defaults_when_no_override() {
    let config = MetricsConfig::default();
    let w = MetricWeights::resolve(&RagArchitecture::Advanced, &config);
    let defaults = MetricWeights::for_architecture(&RagArchitecture::Advanced);
    assert_eq!(w.relevance, defaults.relevance);
}

#[test]
fn test_resolve_uses_override_when_set() {
    let config = MetricsConfig {
        override_weights: true,
        relevance_weight: 5000,
        efficiency_weight: 3000,
        grounding_weight: 2000,
    };

    let w = MetricWeights::resolve(&RagArchitecture::Naive, &config);
    assert_eq!(w.relevance, 5000);
    assert_eq!(w.efficiency, 3000);
    assert_eq!(w.grounding, 2000);
}

#[test]
fn test_emphasized_metrics_naive() {
    let w = MetricWeights::for_architecture(&RagArchitecture::Naive);
    let em = w.emphasized_metrics();
    assert!(em.contains(&"efficiency"));
    assert!(!em.contains(&"relevance"));
}

#[test]
fn test_emphasized_metrics_balanced_returns_empty() {
    let w = MetricWeights {
        relevance: 3300,
        efficiency: 3400,
        grounding: 3300,
    };
    let em = w.emphasized_metrics();
    // Only efficiency is > 0.33
    assert!(em.contains(&"efficiency"));
}

#[test]
fn normalized_thirds_give_the_leftover_point_to_the_first_weight() {
    let w = MetricWeights {
        relevance: 1,
        efficiency: 1,
        grounding: 1,
    };
    let n = w.normalized();
    assert_eq!((n.relevance, n.efficiency, n.grounding), (3334, 3333, 3333));
    assert_eq!(n.relevance + n.efficiency + n.grounding, 10000);
}

#[test]
fn normalized_leftover_point_goes_to_the_largest_remainder() {
    let w = MetricWeights {
        relevance: 1,
        efficiency: 2,
        grounding: 4,
    };
    let n = w.normalized();
    assert_eq!((n.relevance, n.efficiency, n.grounding), (1429, 2857, 5714));
    assert_eq!(n.relevance + n.efficiency + n.grounding, 10000);
}
