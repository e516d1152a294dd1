//! The Workspace Manager's verified core: an abstract model of the three
//! directory trees the harness touches, and the cumulative-size measurement
//! that gates build-output reclamation.
//!
//! The filesystem operations themselves (create, extract, remove) run
//! outside the library; what is verified here is their bookkeeping — which
//! tree each operation touches, and what each leaves behind.

use vstd::prelude::*;

verus! {

/// The scratch directory as the run loop sees it: empty, or holding the
/// extracted tree of at most one package.
#[derive(Debug, Clone, Copy, PartialEq, Eq, Structural)]
pub enum ScratchState {
    Empty,
    Holding,
}

/// An abstract picture of the harness's disk state: the per-iteration
/// scratch directory, the shared build-output directory (tracked by its
/// cumulative size), and the durable crash-report directory (tracked by the
/// set of artifact names written so far).
pub struct DiskModel {
    pub scratch: ScratchState,
    pub build_output_bytes: nat,
    pub crash_reports: Set<Seq<char>>,
}

/// Extracting a package populates the scratch directory; even a failed
/// extraction can leave a partial tree behind.
pub open spec fn materialize_effect(d: DiskModel) -> DiskModel {
    DiskModel { scratch: ScratchState::Holding, ..d }
}

/// Running the analysis tool grows the shared build-output directory by
/// some amount of intermediate artifacts.
pub open spec fn analyze_effect(d: DiskModel, growth: nat) -> DiskModel {
    DiskModel { build_output_bytes: d.build_output_bytes + growth, ..d }
}

/// Archiving a crash writes three artifact files into the durable
/// crash-report directory and touches nothing else.
pub open spec fn archive_effect(d: DiskModel, rec: crate::archive::CrashRecord) -> DiskModel {
    DiskModel {
        crash_reports: d.crash_reports.insert(rec.archive_file@).insert(rec.stdout_file@).insert(
            rec.stderr_file@,
        ),
        ..d
    }
}

/// Resetting the scratch directory removes it recursively and recreates it
/// empty; the other two trees are untouched.
pub open spec fn reset_scratch_effect(d: DiskModel) -> DiskModel {
    DiskModel { scratch: ScratchState::Empty, ..d }
}

/// Purging the build-output directory fully empties and recreates it; the
/// scratch and crash-report trees are untouched.
pub open spec fn purge_build_output_effect(d: DiskModel) -> DiskModel {
    DiskModel { build_output_bytes: 0, ..d }
}

/// Neither reclamation action removes or alters a durable crash report.
pub proof fn lemma_reclamation_preserves_crash_reports(d: DiskModel)
    ensures
        purge_build_output_effect(d).crash_reports == d.crash_reports,
        reset_scratch_effect(d).crash_reports == d.crash_reports,
{
}

/// Total size of the entries a directory walk reported, `None` standing for
/// an entry whose metadata could not be read (a broken symlink): unreadable
/// entries are skipped rather than failing the whole measurement.
pub open spec fn sum_known(entries: Seq<Option<u64>>) -> int
    decreases entries.len(),
{
    if entries.len() == 0 {
        0
    } else {
        sum_known(entries.drop_last()) + (match entries.last() {
            Some(n) => n as int,
            None => 0,
        })
    }
}

/// Sums the readable file sizes of one directory walk, saturating at
/// `u64::MAX` instead of overflowing; entries whose metadata could not be
/// read contribute nothing.
pub fn cumulative_size(entries: &Vec<Option<u64>>) -> (r: u64)
    ensures
        r == if sum_known(entries.deep_view()) <= u64::MAX {
            sum_known(entries.deep_view())
        } else {
            u64::MAX as int
        },
{
    let ghost all = entries.deep_view();
    let count = entries.len();
    let mut total: u64 = 0;
    let mut i: usize = 0;
    #[verifier::loop_isolation(false)]
    while i < count
        invariant
            0 <= i <= count,
            total == if sum_known(all.take(i as int)) <= u64::MAX {
                sum_known(all.take(i as int))
            } else {
                u64::MAX as int
            },
        decreases count - i,
    {
        proof {
            assert(all.take(i + 1 as int).drop_last() =~= all.take(i as int));
            assert(all.take(i + 1 as int).last() == all[i as int]);
        }
        match entries[i] {
            Some(size) => {
                if size > u64::MAX - total {
                    total = u64::MAX;
                } else {
                    total = total + size;
                }
            },
            None => {},
        }
        i = i + 1;
    }
    proof {
        assert(all.take(count as int) =~= all);
    }
    total
}

} // verus!
