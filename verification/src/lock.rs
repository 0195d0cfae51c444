//! The lock file: the persisted record binding each dependency name to the
//! checksum that was actually verified on disk, and its source kind.

use vstd::prelude::*;

verus! {

/// Where a locked dependency came from.
#[derive(Debug, Clone, Copy, PartialEq, Eq, Structural)]
pub enum StateLockFileDependencySource {
    EspressoRegistry,
    FileSystem,
}

/// One locked dependency: its name, its SHA-512 checksum as lowercase hex,
/// and its source kind.
#[derive(Debug, Clone)]
pub struct StateLockFileDependency {
    /// The dependency name, unique across the lock file.
    pub name: String,
    /// The dependency SHA-512 checksum, as a hex string.
    pub checksum: String,
    /// The dependency source.
    pub source: StateLockFileDependencySource,
}

/// The lock file: the dependencies whose verified artifacts live in the
/// dependency cache.
#[derive(Debug, Clone)]
pub struct StateLockFile {
    /// The locked dependencies, one entry per dependency name.
    pub dependencies: Vec<StateLockFileDependency>,
}

/// The checksums bound by a sequence of lock entries, in entry order.
pub open spec fn lock_checksums(deps: Seq<StateLockFileDependency>) -> Seq<Seq<char>> {
    deps.map_values(|d: StateLockFileDependency| d.checksum@)
}

/// Some entry of a lock entry list binds `name`.
pub open spec fn lock_seq_has_name(deps: Seq<StateLockFileDependency>, name: Seq<char>) -> bool {
    exists|i: int| 0 <= i < deps.len() && deps[i].name@ == name
}

/// No two entries bind the same name.
pub open spec fn lock_well_formed(slf: StateLockFile) -> bool {
    forall|i: int, j: int|
        0 <= i < j < slf.dependencies@.len() ==> slf.dependencies@[i].name@
            != slf.dependencies@[j].name@
}

impl StateLockFile {
    /// Whether some entry binds `name`.
    pub open spec fn spec_has_name(self, name: Seq<char>) -> bool {
        exists|i: int|
            0 <= i < self.dependencies@.len() && self.dependencies@[i].name@ == name
    }

    /// Whether some entry binds `name`.
    pub fn has_name(&self, name: &String) -> (r: bool)
        ensures
            r == self.spec_has_name(name@),
    {
        let n = self.dependencies.len();
        let mut i: usize = 0;
        while i < n
            invariant
                n == self.dependencies@.len(),
                0 <= i <= n,
                forall|j: int| 0 <= j < i ==> self.dependencies@[j].name@ != name@,
            decreases n - i,
        {
            if crate::strutil::str_eq(self.dependencies[i].name.as_str(), name.as_str()) {
                return true;
            }
            i += 1;
        }
        false
    }
}

/// A fresh lock file: no dependencies.
pub fn initialize_state_lockfile() -> (r: StateLockFile)
    ensures
        r.dependencies@.len() == 0,
        lock_well_formed(r),
{
    StateLockFile { dependencies: Vec::new() }
}

} // verus!
