use raginspect::bindings::{parse_architecture, parse_inspect_mode};
use raginspect::classifier::ArchitectureClassifier;
use raginspect::topology::TopologyAnalyzer;
use raginspect::{InspectMode, PipelineConfig, RagArchitecture};

#[test]
fn test_unknown_inspect_mode_error() {
    let res = parse_inspect_mode("invalid_mode");
    assert!(res.is_err(), "Unknown inspect_mode string should return an error");
    assert!(res.unwrap_err().contains("Unknown inspect_mode"));
}

#[test]
fn test_valid_inspect_modes() {
    assert_eq!(parse_inspect_mode("full").unwrap(), InspectMode::Full);
    assert_eq!(parse_inspect_mode("retrieval").unwrap(), InspectMode::Retrieval);
    assert_eq!(parse_inspect_mode("context").unwrap(), InspectMode::Context);
    assert_eq!(parse_inspect_mode("quick").unwrap(), InspectMode::Quick);
}

#[test]
fn test_architecture_classifier_default() {
    let config = PipelineConfig::default();
    let topology = TopologyAnalyzer::new().analyze(&config);
    let result = ArchitectureClassifier::new().classify(&topology);
    assert_eq!(result.architecture, RagArchitecture::Naive);
    assert!(result.confidence >= 9000);
}

#[test]
fn test_parse_architecture() {
    assert!(parse_architecture("bogus").is_err());
    assert_eq!(parse_architecture("advanced").unwrap(), RagArchitecture::Advanced);
}

#[test]
fn parse_names_ignore_case_and_report_the_input() {
    assert_eq!(parse_inspect_mode("QUICK").unwrap(), InspectMode::Quick);
    assert_eq!(parse_architecture("HyDE").unwrap(), RagArchitecture::Hyde);
    assert_eq!(
        parse_inspect_mode("fast").unwrap_err(),
        "Unknown inspect_mode: 'fast'. Valid modes: full, retrieval, context, quick"
    );
    assert_eq!(
        parse_architecture("Tree").unwrap_err(),
        "Unknown architecture: 'Tree'. Valid architectures: naive, advanced, modular, agentic, graph, hyde, multimodal"
    );
}
