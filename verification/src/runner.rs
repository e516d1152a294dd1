//! The Analysis Runner's fixed invocation profile.
//!
//! The runner itself is a subprocess launch and lives outside the library;
//! what is verified here is the profile it must launch with — the exhaustive
//! diagnostic flag set maximized for discovery, the environment pinning,
//! and the sandbox limits. The runner never judges success or failure: a
//! non-zero exit from ordinary lint findings is expected, and only the
//! Crash Detector classifies the captured output.

use vstd::prelude::*;

verus! {

/// Resource limits for the sandboxed analysis process.
#[derive(Debug, Clone, Copy, PartialEq, Eq, Structural)]
pub struct SandboxProfile {
    pub memory_limit_bytes: u64,
    pub networking_enabled: bool,
}

/// The sandbox the analysis tool runs under: three gigabytes of memory and
/// no network.
pub fn sandbox_profile() -> (p: SandboxProfile)
    ensures
        p.memory_limit_bytes == 3u64 * 1024 * 1024 * 1024,
        !p.networking_enabled,
{
    SandboxProfile { memory_limit_bytes: 3 * 1024 * 1024 * 1024, networking_enabled: false }
}

/// The full argument list of one analysis invocation: every target, every
/// feature, maximum verbosity, lints capped to warnings so ordinary
/// findings never stop the build, and the widest available warning set
/// switched on to push the tool into as many code paths as possible.
pub open spec fn analysis_args_spec() -> Seq<Seq<char>> {
    seq![
        "clippy"@,
        "--all-targets"@,
        "--all-features"@,
        "-vvvv"@,
        "--"@,
        "--cap-lints=warn"@,
        "-W clippy::internal"@,
        "-W clippy::pedantic"@,
        "-W clippy::nursery"@,
        "-W missing-doc-code-examples "@,
        "-W absolute-paths-not-startin-with-crate"@,
        "-W bare-trait-objects"@,
        "-W box-pointers"@,
        "-W elided-lifetimes-in-paths"@,
        "-W ellipsis-inclusive-range-patterns"@,
        "-W keyword-idents"@,
        "-W macro-use-extern-crate"@,
        "-W missing-copy-implementations"@,
        "-W missing-debug-implementations"@,
        "-W missing-docs"@,
        "-W single-use-lifetimes"@,
        "-W trivial-casts"@,
        "-W trivial-numeric-casts"@,
        "-W unreachable-pub"@,
        "-W unsafe-code"@,
        "-W unstable-features"@,
        "-W unused-extern-crates"@,
        "-W unused-import-braces"@,
        "-W unused-labels"@,
        "-W unused-lifetimes"@,
        "-W unused-qualifications"@,
        "-W unused-results"@,
        "-W variant-size-differences"@,
    ]
}

/// The environment pinning of one analysis invocation: incremental
/// compilation off, full diagnostic backtraces on, and the nightly-only
/// internal lints unlocked.
pub open spec fn analysis_env_spec() -> Seq<(Seq<char>, Seq<char>)> {
    seq![
        ("CARGO_INCREMENTAL"@, "0"@),
        ("RUST_BACKTRACE"@, "full"@),
        ("RUSTC_BOOTSTRAP"@, "1"@),
    ]
}

/// Builds the fixed argument list, exactly as `analysis_args_spec` states it.
pub fn analysis_args() -> (r: Vec<String>)
    ensures
        r.deep_view() == analysis_args_spec(),
{
    let mut v: Vec<String> = Vec::new();
    v.push(String::from_str("clippy"));
    v.push(String::from_str("--all-targets"));
    v.push(String::from_str("--all-features"));
    v.push(String::from_str("-vvvv"));
    v.push(String::from_str("--"));
    v.push(String::from_str("--cap-lints=warn"));
    v.push(String::from_str("-W clippy::internal"));
    v.push(String::from_str("-W clippy::pedantic"));
    v.push(String::from_str("-W clippy::nursery"));
    v.push(String::from_str("-W missing-doc-code-examples "));
    v.push(String::from_str("-W absolute-paths-not-startin-with-crate"));
    v.push(String::from_str("-W bare-trait-objects"));
    v.push(String::from_str("-W box-pointers"));
    v.push(String::from_str("-W elided-lifetimes-in-paths"));
    v.push(String::from_str("-W ellipsis-inclusive-range-patterns"));
    v.push(String::from_str("-W keyword-idents"));
    v.push(String::from_str("-W macro-use-extern-crate"));
    v.push(String::from_str("-W missing-copy-implementations"));
    v.push(String::from_str("-W missing-debug-implementations"));
    v.push(String::from_str("-W missing-docs"));
    v.push(String::from_str("-W single-use-lifetimes"));
    v.push(String::from_str("-W trivial-casts"));
    v.push(String::from_str("-W trivial-numeric-casts"));
    v.push(String::from_str("-W unreachable-pub"));
    v.push(String::from_str("-W unsafe-code"));
    v.push(String::from_str("-W unstable-features"));
    v.push(String::from_str("-W unused-extern-crates"));
    v.push(String::from_str("-W unused-import-braces"));
    v.push(String::from_str("-W unused-labels"));
    v.push(String::from_str("-W unused-lifetimes"));
    v.push(String::from_str("-W unused-qualifications"));
    v.push(String::from_str("-W unused-results"));
    v.push(String::from_str("-W variant-size-differences"));
    proof {
        assert(v.deep_view() =~= analysis_args_spec());
    }
    v
}

/// Builds the fixed environment pinning, exactly as `analysis_env_spec`
/// states it.
pub fn analysis_env() -> (r: Vec<(String, String)>)
    ensures
        r.deep_view() == analysis_env_spec(),
{
    let mut v: Vec<(String, String)> = Vec::new();
    v.push((String::from_str("CARGO_INCREMENTAL"), String::from_str("0")));
    v.push((String::from_str("RUST_BACKTRACE"), String::from_str("full")));
    v.push((String::from_str("RUSTC_BOOTSTRAP"), String::from_str("1")));
    proof {
        assert(v.deep_view() =~= analysis_env_spec());
    }
    v
}

} // verus!
