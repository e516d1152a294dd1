//! The Run Loop's resource governor: explicit per-run state (iteration
//! counter, crash and timeout accumulators) and the reclamation decisions
//! that keep an unattended run from exhausting the disk.
//!
//! Two independent gates govern the two resource pools: the scratch
//! directory is reset unconditionally after every iteration, and the shared
//! build-output directory is purged every fixed number of items plus
//! whenever a periodic measurement finds it over a byte threshold.

use vstd::prelude::*;

use crate::archive::CrashRecord;
use crate::ident::PackageId;
use crate::workspace::{analyze_effect, archive_effect, materialize_effect,
    purge_build_output_effect, reset_scratch_effect, DiskModel, ScratchState};

verus! {

/// How one iteration of the run loop ended. Only `Crashed` is the signal
/// this harness hunts for; the failure variants are per-package conditions
/// that are logged and skipped, never fatal to the run.
#[derive(Debug, Clone, Copy, PartialEq, Eq, Structural)]
pub enum IterationOutcome {
    /// The tool analyzed the package without failing internally.
    Clean,
    /// A fatal signature appeared in the tool's output.
    Crashed,
    /// The package could not be fetched (yanked upstream, say).
    FetchFailed,
    /// The archive was corrupt or the extraction tool failed.
    ExtractionFailed,
    /// The analysis exceeded its time budget and was terminated.
    TimedOut,
}

/// A condition that aborts the whole run: the environment, not the corpus,
/// is broken.
#[derive(Debug, Clone, Copy, PartialEq, Eq, Structural)]
pub enum FatalError {
    /// The analysis tool or a required component is missing and could not
    /// be installed.
    ToolchainUnavailable,
}

/// The governor's tunables.
#[derive(Debug, Clone, Copy, PartialEq, Eq, Structural)]
pub struct GovernorConfig {
    /// Unconditionally purge the build-output directory every this many
    /// processed items.
    pub purge_interval: u64,
    /// Measure the build-output directory only every this many items: the
    /// measurement walks the whole tree and must not run every iteration.
    pub size_check_interval: u64,
    /// A measurement at or above this many bytes triggers a purge.
    pub size_threshold_bytes: u64,
}

impl GovernorConfig {
    /// Both intervals must be positive for "every Nth item" to mean anything.
    pub open spec fn wf(self) -> bool {
        self.purge_interval >= 1 && self.size_check_interval >= 1
    }
}

/// The stock tuning for unattended runs: purge the build caches every 500
/// items, and every 50 items measure the build-output tree against a 5 GB
/// threshold.
pub fn default_config() -> (c: GovernorConfig)
    ensures
        c.purge_interval == 500,
        c.size_check_interval == 50,
        c.size_threshold_bytes == 5_000_000_000u64,
        c.wf(),
{
    GovernorConfig {
        purge_interval: 500,
        size_check_interval: 50,
        size_threshold_bytes: 5_000_000_000,
    }
}

/// What the run loop must do at the end of one iteration.
#[derive(Debug, Clone, Copy, PartialEq, Eq, Structural)]
pub struct IterationDirectives {
    /// Tear down and recreate the scratch directory. Always set: failures
    /// must never leak extracted state into the next package.
    pub reset_scratch: bool,
    /// Purge the shared build-output directory now.
    pub purge_build_output: bool,
    /// Measure the build-output directory and report the size back through
    /// `Governor::should_purge_for_size`.
    pub measure_build_output: bool,
}

/// The directives owed after the `processed`-th item: an unconditional
/// scratch reset, a purge at every `purge_interval`-th item, and a size
/// measurement at every `size_check_interval`-th item.
pub open spec fn spec_directives(c: GovernorConfig, processed: u64) -> IterationDirectives {
    IterationDirectives {
        reset_scratch: true,
        purge_build_output: processed % c.purge_interval == 0,
        measure_build_output: processed % c.size_check_interval == 0,
    }
}

/// Per-run governor state: the iteration counter and the in-memory crash
/// and timeout accumulators for the end-of-run summary, threaded explicitly
/// through the loop rather than kept in process-wide statics.
pub struct Governor {
    pub config: GovernorConfig,
    pub processed: u64,
    pub crashes: Vec<PackageId>,
    pub timeouts: Vec<PackageId>,
}

impl Governor {
    /// The configuration stays sane for the governor's whole life.
    pub open spec fn wf(self) -> bool {
        self.config.wf()
    }

    /// A fresh governor: nothing processed, nothing accumulated.
    pub fn new(config: GovernorConfig) -> (g: Governor)
        requires
            config.wf(),
        ensures
            g.wf(),
            g.config == config,
            g.processed == 0,
            g.crashes@ == Seq::<PackageId>::empty(),
            g.timeouts@ == Seq::<PackageId>::empty(),
    {
        Governor { config, processed: 0, crashes: Vec::new(), timeouts: Vec::new() }
    }

    /// Books one finished iteration, whatever its outcome: counts it,
    /// accumulates a crash or a timeout for the summary, and returns the
    /// end-of-iteration directives — with the scratch reset always among
    /// them.
    pub fn finish_iteration(&mut self, id: &PackageId, outcome: IterationOutcome) -> (d:
        IterationDirectives)
        requires
            old(self).wf(),
            old(self).processed < u64::MAX,
        ensures
            final(self).wf(),
            final(self).config == old(self).config,
            final(self).processed == old(self).processed + 1,
            final(self).crashes@ == if outcome == IterationOutcome::Crashed {
                old(self).crashes@.push(*id)
            } else {
                old(self).crashes@
            },
            final(self).timeouts@ == if outcome == IterationOutcome::TimedOut {
                old(self).timeouts@.push(*id)
            } else {
                old(self).timeouts@
            },
            d == spec_directives(old(self).config, final(self).processed),
    {
        self.processed = self.processed + 1;
        match outcome {
            IterationOutcome::Crashed => self.crashes.push(id.clone()),
            IterationOutcome::TimedOut => self.timeouts.push(id.clone()),
            _ => {},
        }
        IterationDirectives {
            reset_scratch: true,
            purge_build_output: self.processed % self.config.purge_interval == 0,
            measure_build_output: self.processed % self.config.size_check_interval == 0,
        }
    }

    /// Decides the size gate: a measured build-output tree at or above the
    /// threshold must be purged.
    pub fn should_purge_for_size(&self, measured_bytes: u64) -> (r: bool)
        ensures
            r == (measured_bytes >= self.config.size_threshold_bytes),
    {
        measured_bytes >= self.config.size_threshold_bytes
    }

    /// How many crashes the run has found so far.
    pub fn crash_count(&self) -> (n: usize)
        ensures
            n == self.crashes@.len(),
    {
        self.crashes.len()
    }
}

/// Exit status of a whole run: a fatal environment error, a sweep that
/// found crashes, and a clean sweep are told apart.
pub fn run_exit_code(crash_count: usize, fatal: Option<FatalError>) -> (r: i32)
    ensures
        fatal is Some ==> r == 2,
        fatal is None && crash_count > 0 ==> r == 1,
        fatal is None && crash_count == 0 ==> r == 0,
{
    match fatal {
        Some(_) => 2,
        None => {
            if crash_count > 0 {
                1
            } else {
                0
            }
        },
    }
}

/// One iteration's effect on disk, as the run loop sequences it: fetch (a
/// failed fetch touches nothing), materialize into the scratch directory,
/// analyze (growing the shared build-output tree), archive the three crash
/// artifacts on a crash, then apply the governor's directives — the
/// unconditional scratch reset, and a build-output purge when due.
pub open spec fn iteration_effect(
    d0: DiskModel,
    outcome: IterationOutcome,
    growth: nat,
    rec: CrashRecord,
    dirs: IterationDirectives,
) -> DiskModel {
    let fetched = outcome != IterationOutcome::FetchFailed;
    let analyzed = outcome == IterationOutcome::Clean || outcome == IterationOutcome::Crashed
        || outcome == IterationOutcome::TimedOut;
    let d1 = if fetched {
        materialize_effect(d0)
    } else {
        d0
    };
    let d2 = if analyzed {
        analyze_effect(d1, growth)
    } else {
        d1
    };
    let d3 = if outcome == IterationOutcome::Crashed {
        archive_effect(d2, rec)
    } else {
        d2
    };
    let d4 = if dirs.reset_scratch {
        reset_scratch_effect(d3)
    } else {
        d3
    };
    if dirs.purge_build_output {
        purge_build_output_effect(d4)
    } else {
        d4
    }
}

/// Cleanup is unconditional: an iteration that applies the governor's
/// directives leaves the scratch directory empty, whatever state it started
/// in and however it ended — so the scratch directory is empty at every
/// iteration boundary of a run.
pub proof fn lemma_scratch_empty_after_iteration(
    d0: DiskModel,
    outcome: IterationOutcome,
    growth: nat,
    rec: CrashRecord,
    c: GovernorConfig,
    processed: u64,
)
    ensures
        iteration_effect(d0, outcome, growth, rec, spec_directives(c, processed)).scratch
            == ScratchState::Empty,
{
}

/// No iteration removes a durable crash artifact: whatever the outcome and
/// whichever reclamation the directives order, every crash report present
/// before the iteration is still present after it.
pub proof fn lemma_iteration_preserves_crash_reports(
    d0: DiskModel,
    outcome: IterationOutcome,
    growth: nat,
    rec: CrashRecord,
    dirs: IterationDirectives,
)
    ensures
        d0.crash_reports <= iteration_effect(d0, outcome, growth, rec, dirs).crash_reports,
{
}

/// One iteration of a whole-run trace: how it ended, how much the analysis
/// grew the build-output tree, the crash record written if it crashed, and
/// the directives applied at its end.
pub struct IterationStep {
    pub outcome: IterationOutcome,
    pub growth: nat,
    pub rec: CrashRecord,
    pub dirs: IterationDirectives,
}

/// Disk state after a run of iterations, each applied to the state the one
/// before it left.
pub open spec fn run_effect(d0: DiskModel, steps: Seq<IterationStep>) -> DiskModel
    decreases steps.len(),
{
    if steps.len() == 0 {
        d0
    } else {
        let s = steps.last();
        iteration_effect(run_effect(d0, steps.drop_last()), s.outcome, s.growth, s.rec, s.dirs)
    }
}

/// Across a whole run whose steps all carry the scratch reset — as every
/// directive the governor issues does — the scratch directory is empty at
/// every iteration boundary: after each iteration, and so before the next,
/// whatever each iteration's outcome was; and if the directory was created
/// empty, before the first iteration too.
pub proof fn lemma_scratch_empty_at_boundaries(d0: DiskModel, steps: Seq<IterationStep>)
    requires
        forall|k: int| 0 <= k < steps.len() ==> (#[trigger] steps[k]).dirs.reset_scratch,
    ensures
        forall|k: int|
            1 <= k <= steps.len() ==> run_effect(d0, #[trigger] steps.take(k)).scratch
                == ScratchState::Empty,
        d0.scratch == ScratchState::Empty ==> run_effect(d0, steps.take(0)).scratch
            == ScratchState::Empty,
{
    assert forall|k: int|
        1 <= k <= steps.len() implies run_effect(d0, #[trigger] steps.take(k)).scratch
        == ScratchState::Empty by {
        let s = steps.take(k);
        assert(s.last() == steps[k - 1]);
        assert(s.last().dirs.reset_scratch);
    }
}

/// Across a whole run, the durable crash-report directory only grows: no
/// outcome and no reclamation ever removes an artifact archived earlier.
pub proof fn lemma_run_preserves_crash_reports(d0: DiskModel, steps: Seq<IterationStep>)
    ensures
        d0.crash_reports <= run_effect(d0, steps).crash_reports,
    decreases steps.len(),
{
    if steps.len() > 0 {
        lemma_run_preserves_crash_reports(d0, steps.drop_last());
        let s = steps.last();
        lemma_iteration_preserves_crash_reports(
            run_effect(d0, steps.drop_last()),
            s.outcome,
            s.growth,
            s.rec,
            s.dirs,
        );
    }
}

/// A step whose directives order a purge ends with an empty build-output
/// tree: the purge is the last action of the iteration, after any growth
/// the analysis caused.
pub proof fn lemma_purge_directive_empties_build_output(
    d0: DiskModel,
    steps: Seq<IterationStep>,
    k: int,
)
    requires
        1 <= k <= steps.len(),
        steps[k - 1].dirs.purge_build_output,
    ensures
        run_effect(d0, steps.take(k)).build_output_bytes == 0,
{
    let s = steps.take(k);
    assert(s.last() == steps[k - 1]);
}

/// The unconditional gate fires on schedule: after processing any number of
/// items that is a positive multiple of the purge interval, the governor
/// has ordered at least one build-output purge.
pub proof fn lemma_purge_ordered_by_multiple(c: GovernorConfig, n: u64)
    requires
        c.wf(),
        n >= 1,
        n % c.purge_interval == 0,
    ensures
        exists|k: u64| 1 <= k <= n && (#[trigger] spec_directives(c, k)).purge_build_output,
{
    assert(spec_directives(c, n).purge_build_output);
}

} // verus!
