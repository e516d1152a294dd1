//! The Crash Archiver's naming scheme: the durable evidence bundle of one
//! detected crash.
//!
//! Every artifact name is a pure function of the package identifier, so
//! re-archiving the same crashing package lands on the same paths and
//! overwrites instead of duplicating. The writes themselves happen outside
//! the library, in the crash-report directory that workspace resets and
//! build-output purges never touch.

use vstd::prelude::*;

use crate::ident::{archive_ext, PackageId};

verus! {

/// The three artifacts that outlive a detected crash: a copy of the
/// original archive and both captured streams, all keyed by the canonical
/// `name-version` string.
pub struct CrashRecord {
    pub id: PackageId,
    pub archive_file: String,
    pub stdout_file: String,
    pub stderr_file: String,
}

impl CrashRecord {
    /// The record's filenames are exactly the ones its identifier dictates.
    pub open spec fn wf(self) -> bool {
        &&& self.archive_file@ == self.id.canon() + archive_ext()
        &&& self.stdout_file@ == self.id.canon() + ".stdout"@
        &&& self.stderr_file@ == self.id.canon() + ".stderr"@
    }
}

/// Plans the durable artifacts for one crashing package: the archive copy
/// `<name>-<version>.crate` plus `<name>-<version>.stdout` and
/// `<name>-<version>.stderr` — exactly three files, deterministically named.
pub fn crash_record(id: &PackageId) -> (r: CrashRecord)
    ensures
        r.id == *id,
        r.wf(),
{
    let canon = id.canonical();
    let archive_file = canon.clone().concat(".crate");
    let stdout_file = canon.clone().concat(".stdout");
    let stderr_file = canon.concat(".stderr");
    CrashRecord { id: id.clone(), archive_file, stdout_file, stderr_file }
}

} // verus!
