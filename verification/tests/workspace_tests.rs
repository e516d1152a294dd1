use crashfinder::runner::{analysis_args, analysis_env, sandbox_profile};
use crashfinder::workspace::cumulative_size;

#[test]
fn cumulative_size_sums_readable_entries() {
    let entries = vec![Some(100u64), Some(23), Some(0), Some(7)];
    assert_eq!(cumulative_size(&entries), 130);
}

#[test]
fn unreadable_entries_are_skipped_not_fatal() {
    let entries = vec![Some(5u64), None, Some(10), None, None];
    assert_eq!(cumulative_size(&entries), 15);
}

#[test]
fn empty_walk_measures_zero() {
    assert_eq!(cumulative_size(&Vec::new()), 0);
}

#[test]
fn cumulative_size_saturates_instead_of_overflowing() {
    let entries = vec![Some(u64::MAX), Some(5)];
    assert_eq!(cumulative_size(&entries), u64::MAX);
    let entries = vec![Some(u64::MAX - 1), Some(1)];
    assert_eq!(cumulative_size(&entries), u64::MAX);
    let entries = vec![Some(u64::MAX - 1), Some(1), Some(1)];
    assert_eq!(cumulative_size(&entries), u64::MAX);
}

#[test]
fn analysis_arguments_carry_the_full_discovery_profile() {
    let args = analysis_args();
    assert_eq!(args.len(), 33);
    assert_eq!(args[0], "clippy");
    assert_eq!(args[1], "--all-targets");
    assert_eq!(args[2], "--all-features");
    assert_eq!(args[3], "-vvvv");
    assert_eq!(args[4], "--");
    assert_eq!(args[5], "--cap-lints=warn");
    assert!(args.contains(&"-W clippy::internal".to_string()));
    assert!(args.contains(&"-W clippy::pedantic".to_string()));
    assert!(args.contains(&"-W clippy::nursery".to_string()));
    assert_eq!(args[32], "-W variant-size-differences");
}

#[test]
fn analysis_environment_pins_the_toolchain() {
    let env = analysis_env();
    assert_eq!(
        env,
        vec![
            ("CARGO_INCREMENTAL".to_string(), "0".to_string()),
            ("RUST_BACKTRACE".to_string(), "full".to_string()),
            ("RUSTC_BOOTSTRAP".to_string(), "1".to_string()),
        ]
    );
}

#[test]
fn sandbox_limits_memory_and_disables_network() {
    let p = sandbox_profile();
    assert_eq!(p.memory_limit_bytes, 3 * 1024 * 1024 * 1024);
    assert!(!p.networking_enabled);
}
