use crashfinder::governor::{
    default_config, run_exit_code, FatalError, Governor, GovernorConfig, IterationOutcome,
};
use crashfinder::ident::PackageId;

fn id(name: &str, version: &str) -> PackageId {
    PackageId { name: name.to_string(), version: version.to_string() }
}

fn small_config() -> GovernorConfig {
    GovernorConfig { purge_interval: 3, size_check_interval: 2, size_threshold_bytes: 100 }
}

#[test]
fn fresh_governor_has_processed_nothing() {
    let g = Governor::new(small_config());
    assert_eq!(g.processed, 0);
    assert!(g.crashes.is_empty());
    assert!(g.timeouts.is_empty());
}

#[test]
fn default_config_matches_stock_tuning() {
    let c = default_config();
    assert_eq!(c.purge_interval, 500);
    assert_eq!(c.size_check_interval, 50);
    assert_eq!(c.size_threshold_bytes, 5_000_000_000);
}

#[test]
fn every_iteration_orders_a_scratch_reset() {
    let mut g = Governor::new(small_config());
    let outcomes = [
        IterationOutcome::Clean,
        IterationOutcome::Crashed,
        IterationOutcome::FetchFailed,
        IterationOutcome::ExtractionFailed,
        IterationOutcome::TimedOut,
    ];
    for (k, outcome) in outcomes.iter().enumerate() {
        let d = g.finish_iteration(&id("pkg", "1.0"), *outcome);
        assert!(d.reset_scratch, "iteration {} must reset the scratch dir", k);
    }
}

#[test]
fn purge_fires_exactly_on_interval_multiples() {
    let mut g = Governor::new(small_config());
    let mut purged_at = Vec::new();
    for k in 1u64..=9 {
        let d = g.finish_iteration(&id("pkg", "1.0"), IterationOutcome::Clean);
        if d.purge_build_output {
            purged_at.push(k);
        }
    }
    assert_eq!(purged_at, vec![3, 6, 9]);
}

#[test]
fn size_measurement_fires_on_its_own_interval() {
    let mut g = Governor::new(small_config());
    let mut measured_at = Vec::new();
    for k in 1u64..=6 {
        let d = g.finish_iteration(&id("pkg", "1.0"), IterationOutcome::Clean);
        if d.measure_build_output {
            measured_at.push(k);
        }
    }
    assert_eq!(measured_at, vec![2, 4, 6]);
}

#[test]
fn crashes_and_timeouts_accumulate_separately() {
    let mut g = Governor::new(small_config());
    g.finish_iteration(&id("a", "1"), IterationOutcome::Clean);
    g.finish_iteration(&id("b", "2"), IterationOutcome::Crashed);
    g.finish_iteration(&id("c", "3"), IterationOutcome::TimedOut);
    g.finish_iteration(&id("d", "4"), IterationOutcome::FetchFailed);
    g.finish_iteration(&id("e", "5"), IterationOutcome::Crashed);
    assert_eq!(g.processed, 5);
    assert_eq!(g.crash_count(), 2);
    let crash_names: Vec<&str> = g.crashes.iter().map(|c| c.name.as_str()).collect();
    assert_eq!(crash_names, vec!["b", "e"]);
    let timeout_names: Vec<&str> = g.timeouts.iter().map(|c| c.name.as_str()).collect();
    assert_eq!(timeout_names, vec!["c"]);
}

#[test]
fn size_gate_compares_against_threshold() {
    let g = Governor::new(small_config());
    assert!(!g.should_purge_for_size(99));
    assert!(g.should_purge_for_size(100));
    assert!(g.should_purge_for_size(101));
}

#[test]
fn exit_code_tells_the_three_endings_apart() {
    assert_eq!(run_exit_code(0, None), 0);
    assert_eq!(run_exit_code(3, None), 1);
    assert_eq!(run_exit_code(0, Some(FatalError::ToolchainUnavailable)), 2);
    assert_eq!(run_exit_code(7, Some(FatalError::ToolchainUnavailable)), 2);
}
