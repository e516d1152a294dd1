//! The Crash Detector: pure classification of one run's captured output.
//!
//! A run is `Crashed` exactly when either stream contains one of the fatal
//! signatures anywhere — unanchored substring containment, not line-start
//! matching, since a fatal diagnostic can appear mid-line in interleaved
//! output. The signature set is data handed in by the caller, so it can be
//! updated without touching the detector.

use vstd::prelude::*;

use crate::ident::PackageId;
use crate::text::{contains_seq, contains_substr};

verus! {

/// Classification of one analysis run: the tool either survived the
/// package (whatever it reported about the code) or failed internally.
#[derive(Debug, Clone, Copy, PartialEq, Eq, Structural)]
pub enum RunStatus {
    Clean,
    Crashed,
}

/// One of the fatal signatures occurs somewhere in either captured stream.
pub open spec fn crash_in(stdout: Seq<char>, stderr: Seq<char>, sigs: Seq<Seq<char>>) -> bool {
    exists|j: int|
        0 <= j < sigs.len() && (contains_seq(stdout, #[trigger] sigs[j]) || contains_seq(
            stderr,
            sigs[j],
        ))
}

/// Everything the run loop keeps of one analyzed package: its identity,
/// the verdict, and both captured streams in full.
pub struct RunOutcome {
    pub id: PackageId,
    pub status: RunStatus,
    pub stdout: String,
    pub stderr: String,
}

/// The fatal-diagnostic phrases of the analysis toolchain: the marker of an
/// internal fault and the marker printed with the query stack of an
/// internal panic.
pub fn fatal_signatures() -> (r: Vec<String>)
    ensures
        r.deep_view() =~= seq!["internal compiler error:"@, "query stack during panic:"@],
{
    let mut v: Vec<String> = Vec::new();
    v.push(String::from_str("internal compiler error:"));
    v.push(String::from_str("query stack during panic:"));
    v
}

/// Classifies captured output: `Crashed` exactly when at least one
/// signature occurs in at least one of the two streams, at any position.
/// Never fails; every pair of streams gets a definite classification.
pub fn classify(stdout: &str, stderr: &str, signatures: &Vec<String>) -> (r: RunStatus)
    ensures
        (r == RunStatus::Crashed) <==> crash_in(stdout@, stderr@, signatures.deep_view()),
{
    let ghost sigs = signatures.deep_view();
    let count = signatures.len();
    let mut j: usize = 0;
    #[verifier::loop_isolation(false)]
    while j < count
        invariant
            0 <= j <= count,
            forall|k: int|
                0 <= k < j ==> !contains_seq(stdout@, #[trigger] sigs[k]) && !contains_seq(
                    stderr@,
                    sigs[k],
                ),
        decreases count - j,
    {
        let sig = &signatures[j];
        proof {
            assert(sigs[j as int] == sig@);
        }
        if contains_substr(stdout, sig.as_str()) || contains_substr(stderr, sig.as_str()) {
            assert(crash_in(stdout@, stderr@, sigs));
            return RunStatus::Crashed;
        }
        j = j + 1;
    }
    RunStatus::Clean
}

/// Bundles one package's captured streams with their classification.
pub fn classify_run(id: PackageId, stdout: String, stderr: String, signatures: &Vec<String>) -> (r:
    RunOutcome)
    ensures
        r.id == id,
        r.stdout == stdout,
        r.stderr == stderr,
        (r.status == RunStatus::Crashed) <==> crash_in(
            stdout@,
            stderr@,
            signatures.deep_view(),
        ),
{
    let status = classify(stdout.as_str(), stderr.as_str(), signatures);
    RunOutcome { id, status, stdout, stderr }
}

} // verus!
