//! Registering a dependency that lives on the filesystem rather than in
//! the registry: the manifest's filesystem map and the lock file are
//! updated together, with the archive's checksum recorded for the cache.

use vstd::prelude::*;

use crate::context::ProjectContext;
use crate::dependency::{other_deps, other_lock_deps, upsert_dependency, upsert_lock_dependency};
use crate::error::BuildError;
use crate::lock::{lock_seq_has_name, lock_well_formed, StateLockFileDependency,
    StateLockFileDependencySource};
use crate::project::{config_well_formed, seq_has_dep_name, state_consistent, DependencyEntry};
use crate::strutil::{lemma_upsert_keeps_distinct, lemma_upsert_keys, lower_chars};

verus! {

/// Adds an archive from the filesystem to the dependencies: binds `name`
/// to the archive's path in the manifest's filesystem map and to the
/// lowercase form of the given checksum in the lock file, both in one
/// step. The caller computes the checksum from the archive's bytes and
/// stores the archive in the cache under that lowercase form.
pub fn add(p_ctx: &mut ProjectContext, path: &String, name: &String, checksum: &String) -> (r:
    Result<(), BuildError>)
    requires
        config_well_formed(old(p_ctx).config),
        lock_well_formed(old(p_ctx).state_lock_file),
        state_consistent(old(p_ctx).config, old(p_ctx).state_lock_file),
    ensures
        r is Ok,
        ({
            let new_fs = final(p_ctx).config.dependencies_fs@;
            let new_lock = final(p_ctx).state_lock_file.dependencies@;
            &&& new_fs.len() >= 1
            &&& new_fs.last().name@ == name@
            &&& new_fs.last().value@ == path@
            &&& new_fs.drop_last() == old(p_ctx).config.dependencies_fs@.filter(
                other_deps(name@),
            )
            &&& new_lock.len() >= 1
            &&& new_lock.last().name@ == name@
            &&& new_lock.last().checksum@ == lower_chars(checksum@)
            &&& new_lock.last().source == StateLockFileDependencySource::FileSystem
            &&& new_lock.drop_last() == old(p_ctx).state_lock_file.dependencies@.filter(
                other_lock_deps(name@),
            )
            &&& final(p_ctx).config.project == old(p_ctx).config.project
            &&& final(p_ctx).config.toolchain == old(p_ctx).config.toolchain
            &&& final(p_ctx).config.dependencies == old(p_ctx).config.dependencies
            &&& final(p_ctx).absolute_paths == old(p_ctx).absolute_paths
            &&& final(p_ctx).dynamic_absolute_paths == old(p_ctx).dynamic_absolute_paths
            &&& final(p_ctx).debug_mode == old(p_ctx).debug_mode
        }),
        config_well_formed(final(p_ctx).config),
        lock_well_formed(final(p_ctx).state_lock_file),
        state_consistent(final(p_ctx).config, final(p_ctx).state_lock_file),
{
    upsert_dependency(&mut p_ctx.config.dependencies_fs, name.clone(), path.clone());
    let normalized = crate::strutil::to_ascii_lower(checksum.as_str());
    upsert_lock_dependency(
        &mut p_ctx.state_lock_file.dependencies,
        name.clone(),
        normalized,
        StateLockFileDependencySource::FileSystem,
    );
    proof {
        let dep_key = |d: DependencyEntry| d.name@;
        let lock_key = |d: StateLockFileDependency| d.name@;
        lemma_upsert_keeps_distinct(
            old(p_ctx).config.dependencies_fs@,
            p_ctx.config.dependencies_fs@,
            other_deps(name@),
            dep_key,
            name@,
        );
        lemma_upsert_keeps_distinct(
            old(p_ctx).state_lock_file.dependencies@,
            p_ctx.state_lock_file.dependencies@,
            other_lock_deps(name@),
            lock_key,
            name@,
        );
        assert forall|n: Seq<char>|
            lock_seq_has_name(p_ctx.state_lock_file.dependencies@, n) <==> seq_has_dep_name(
                p_ctx.config.dependencies@,
                n,
            ) || seq_has_dep_name(p_ctx.config.dependencies_fs@, n) by {
            lemma_upsert_keys(
                old(p_ctx).config.dependencies_fs@,
                p_ctx.config.dependencies_fs@,
                other_deps(name@),
                dep_key,
                name@,
                n,
            );
            lemma_upsert_keys(
                old(p_ctx).state_lock_file.dependencies@,
                p_ctx.state_lock_file.dependencies@,
                other_lock_deps(name@),
                lock_key,
                name@,
                n,
            );
            assert(lock_seq_has_name(old(p_ctx).state_lock_file.dependencies@, n)
                <==> seq_has_dep_name(old(p_ctx).config.dependencies@, n) || seq_has_dep_name(
                old(p_ctx).config.dependencies_fs@,
                n,
            ));
        }
    }
    Ok(())
}

} // verus!
