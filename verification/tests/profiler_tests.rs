use raginspect::order_stats::percentile;
use raginspect::{MultiRunProfiler, PipelineProfile, Stage, StageStats, StageTimer};

// Costs are in billionths of a US dollar: 0.0001 USD is 100_000.

fn busy_wait(ms: u128) {
    let start = std::time::Instant::now();
    while start.elapsed().as_millis() < ms {}
}

#[test]
fn test_pipeline_profile_aggregation() {
    let mut profile = PipelineProfile::new();

    profile.add_stage(
        Stage::new("query_embedding")
            .with_duration(12)
            .with_tokens(8)
            .with_cost(100_000),
    );
    profile.add_stage(
        Stage::new("vector_search")
            .with_duration(35)
            .with_tokens(0)
            .with_cost(0),
    );
    profile.add_stage(
        Stage::new("generation")
            .with_duration(850)
            .with_tokens(450)
            .with_cost(12_000_000),
    );

    assert_eq!(profile.stage_count(), 3);
    assert_eq!(profile.total_duration_ms, 897);
    assert_eq!(profile.total_tokens, 458);
    assert!((profile.total_cost as i64 - 12_100_000).abs() < 100_000);
}

#[test]
fn test_empty_pipeline() {
    let profile = PipelineProfile::new();

    assert_eq!(profile.stage_count(), 0);
    assert_eq!(profile.total_duration_ms, 0);
    assert_eq!(profile.total_tokens, 0);
    assert_eq!(profile.total_cost, 0);
}

#[test]
fn test_stage_timer() {
    let timer = StageTimer::start("test_stage");
    // Simulate some work
    busy_wait(2);
    let stage = timer.finish(100, 10_000_000);

    assert_eq!(stage.name, "test_stage");
    assert!(stage.duration_ms >= 2, "duration should be >= 2ms");
    assert_eq!(stage.token_count, 100);
    assert_eq!(stage.cost, 10_000_000);
}

#[test]
fn test_find_stage_by_name() {
    let mut profile = PipelineProfile::new();
    profile.add_stage(Stage::new("retrieval").with_duration(50));
    profile.add_stage(Stage::new("generation").with_duration(200));

    assert!(profile.find("retrieval").is_some());
    assert!(profile.find("generation").is_some());
    assert!(profile.find("nonexistent").is_none());
}

#[test]
fn test_percentile_basic() {
    let data: Vec<u128> = vec![1, 2, 3, 4, 5, 6, 7, 8, 9, 10];
    // p50 of 10 elements: index = round(0.5 * 9) = 5 → data[5] = 6
    assert_eq!(percentile(&data, 50), 6);
    // p99: index = round(0.99 * 9) = 9 → data[9] = 10
    assert_eq!(percentile(&data, 99), 10);
    // p0: index 0
    assert_eq!(percentile(&data, 0), 1);
}

#[test]
fn test_percentile_empty() {
    let data: Vec<u128> = vec![];
    assert_eq!(percentile(&data, 50), 0);
}

#[test]
fn test_multi_run_profiler_stats() {
    let mut profiler = MultiRunProfiler::new(5);

    // Simulate 5 runs with varying durations
    let durations = [10, 12, 8, 15, 11];
    for &d in &durations {
        profiler.run(|profile| {
            profile.add_stage(
                Stage::new("embedding")
                    .with_duration(d)
                    .with_tokens(8)
                    .with_cost(100_000),
            );
            profile.add_stage(
                Stage::new("search")
                    .with_duration(d * 3)
                    .with_tokens(0)
                    .with_cost(0),
            );
        });
    }

    assert_eq!(profiler.profiles.len(), 5);

    let stats = profiler.compute_stats();
    assert_eq!(stats.len(), 2); // 2 stages

    // Embedding stats
    let emb = &stats[0];
    assert_eq!(emb.name, "embedding");
    assert_eq!(emb.runs, 5);
    assert!(emb.p50_ms >= 8 && emb.p50_ms <= 15);
    assert!(emb.p99_ms >= emb.p50_ms);
    assert!(emb.min_ms <= emb.p50_ms);
    assert!(emb.max_ms >= emb.p50_ms);

    // Search stats
    let search = &stats[1];
    assert_eq!(search.name, "search");
    assert_eq!(search.runs, 5);
    assert!(search.p50_ms > emb.p50_ms); // search takes longer
}

#[test]
fn test_multi_run_profiler_empty() {
    let profiler = MultiRunProfiler::new(3);
    let stats = profiler.compute_stats();
    assert!(stats.is_empty());
}

#[test]
fn test_stage_stats_display() {
    let mut durations: Vec<u128> = vec![10, 20, 30];
    let mut tokens: Vec<usize> = vec![5, 10, 15];
    let mut costs: Vec<u64> = vec![10_000_000, 20_000_000, 30_000_000];
    let stats = StageStats::from_durations("test", &mut durations, &mut tokens, &mut costs);

    let display = stats.describe();
    assert!(display.contains("test"));
    assert!(display.contains("p50="));
    assert!(display.contains("n=3"));
}

#[test]
fn from_durations_sorts_the_samples_in_place() {
    let mut durations: Vec<u128> = vec![30, 10, 20];
    let mut tokens: Vec<usize> = vec![7, 3, 5];
    let mut costs: Vec<u64> = vec![9, 1, 4];
    let stats = StageStats::from_durations("s", &mut durations, &mut tokens, &mut costs);
    assert_eq!(durations, vec![10, 20, 30]);
    assert_eq!(tokens, vec![3, 5, 7]);
    assert_eq!(costs, vec![1, 4, 9]);
    assert_eq!((stats.min_ms, stats.p50_ms, stats.max_ms, stats.p50_tokens), (10, 20, 30, 5));

    let mut none: Vec<u128> = vec![];
    let mut tokens: Vec<usize> = vec![2, 1];
    let mut costs: Vec<u64> = vec![];
    let stats = StageStats::from_durations("empty", &mut none, &mut tokens, &mut costs);
    assert_eq!(stats.runs, 0);
    assert_eq!(tokens, vec![2, 1]);
}

#[test]
fn mock_run_one_is_the_single_run_profile() {
    let p = PipelineProfile::mock_run(1);
    let names: Vec<&str> = p.stages.iter().map(|s| s.name.as_str()).collect();
    assert_eq!(names, vec!["query_embedding", "vector_search", "context_assembly", "generation"]);
    let ms: Vec<u128> = p.stages.iter().map(|s| s.duration_ms).collect();
    assert_eq!(ms, vec![8, 25, 3, 450]);
    let tokens: Vec<usize> = p.stages.iter().map(|s| s.token_count).collect();
    assert_eq!(tokens, vec![6, 0, 1200, 320]);
    assert_eq!(p.total_duration_ms, 486);
    assert_eq!(p.total_tokens, 1526);
    assert_eq!(p.total_cost, 4_800_000);
}

#[test]
fn mock_runs_cycle_every_ten() {
    let p = PipelineProfile::mock_run(13);
    let ms: Vec<u128> = p.stages.iter().map(|s| s.duration_ms).collect();
    assert_eq!(ms, vec![9, 28, 3, 480]);
    assert_eq!(p.total_duration_ms, 520);

    let mut profiler = MultiRunProfiler::new(10);
    for i in 0..10 {
        profiler.run(|profile| profile.add_mock_stages(i));
    }
    let stats = profiler.compute_stats();
    let generation = stats.iter().find(|s| s.name == "generation").unwrap();
    assert_eq!(generation.min_ms, 400);
    assert_eq!(generation.max_ms, 500);
    assert_eq!(generation.p50_ms, 450);
}
