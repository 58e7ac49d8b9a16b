//! raginspect: inspection and profiling engine for Retrieval Augmented
//! Generation pipelines.

pub mod types;
pub mod config;
pub mod topology;
pub mod text;
pub mod classifier;
pub mod metrics;
pub mod metadata;
pub mod order_stats;
pub mod profiler;
pub mod reporter;
pub mod bindings;
pub mod inspector;
pub mod naive_pipeline;
pub mod report_view;

pub use config::PipelineConfig;
pub use inspector::Inspector;
pub use profiler::{MultiRunProfiler, PipelineProfile, Stage, StageStats, StageTimer};
pub use types::{
    ChunkInfo, ContextStage, GenerationResult, InspectMode, InspectionReport, RagArchitecture,
    RetrievalResult, Verdict,
};
