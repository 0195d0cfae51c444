//! The dependency acquisition engine: planning a download into the
//! content-addressed cache, and registering a verified artifact in the
//! manifest and the lock file together — or, when verification fails,
//! touching neither.

use vstd::prelude::*;

use crate::cache::artifact_path_of;
use crate::context::ProjectContext;
use crate::error::BuildError;
use crate::integrity::{hex_of, integrity_ok, sha512_of};
use crate::lock::{lock_seq_has_name, lock_well_formed, StateLockFileDependency,
    StateLockFileDependencySource};
use crate::project::{config_well_formed, seq_has_dep_name, state_consistent, DependencyEntry};
use crate::resolve::Package;
use crate::strutil::{lemma_eq_ignore_case_lower_chars, lemma_upsert_keeps_distinct,
    lemma_upsert_keys, lower_chars};

verus! {

/// The name under which a registry package is declared: its group and
/// artifact identifiers, colon-separated.
pub open spec fn friendly_name_of(group_id: Seq<char>, artifact_id: Seq<char>) -> Seq<char> {
    group_id + ":"@ + artifact_id
}

/// Keeps the manifest entries whose name differs from `name`.
pub open spec fn other_deps(name: Seq<char>) -> spec_fn(DependencyEntry) -> bool {
    |d: DependencyEntry| d.name@ != name
}

/// Keeps the lock entries whose name differs from `name`.
pub open spec fn other_lock_deps(name: Seq<char>) -> spec_fn(StateLockFileDependency) -> bool {
    |d: StateLockFileDependency| d.name@ != name
}

/// Everything needed to fetch one artifact: its source URL, its
/// checksum-keyed destination in the cache, and the digest it must match.
pub struct DownloadPlan {
    /// Where to fetch the artifact from.
    pub url: String,
    /// Where the artifact goes: keyed by the lowercase form of its
    /// declared checksum, never by the dependency's name, so one content
    /// has one location whatever case the registry declared.
    pub path: String,
    /// The declared SHA-512 digest the downloaded bytes must match.
    pub expected_sha512: String,
}

/// Plans the download of a package's newest release into the cache; a
/// package without releases is an error.
pub fn download(p_ctx: &ProjectContext, package: &Package) -> (r: Result<
    DownloadPlan,
    BuildError,
>)
    ensures
        r is Ok <==> package.metadata.versions@.len() > 0,
        r matches Err(e) ==> e == BuildError::NoVersions,
        r matches Ok(plan) ==> ({
            let v = package.metadata.versions@[0];
            &&& plan.url@ == v.artifact_url@
            &&& plan.path@ == artifact_path_of(
                p_ctx.absolute_paths.dependencies@,
                lower_chars(v.sha512sum@),
            )
            &&& plan.expected_sha512@ == v.sha512sum@
        }),
{
    let version = match crate::resolve::latest_version(package) {
        Ok(v) => v,
        Err(e) => {
            return Err(e);
        },
    };
    let key = crate::strutil::to_ascii_lower(version.sha512sum.as_str());
    let path = crate::cache::artifact_path(&p_ctx.absolute_paths, key.as_str());
    Ok(
        DownloadPlan {
            url: version.artifact_url.clone(),
            path,
            expected_sha512: version.sha512sum.clone(),
        },
    )
}

/// The planned download location agrees with the lock: once the bytes
/// verify against the declared digest, the path keyed by the declared
/// digest's lowercase form is the path keyed by the computed digest that
/// the lock records, so extraction later finds the artifact.
pub proof fn lemma_download_path_matches_lock(
    dependencies_dir: Seq<char>,
    declared_sha512: Seq<char>,
    artifact_bytes: Seq<u8>,
)
    requires
        integrity_ok(artifact_bytes, declared_sha512),
    ensures
        artifact_path_of(dependencies_dir, lower_chars(declared_sha512)) == artifact_path_of(
            dependencies_dir,
            hex_of(sha512_of(artifact_bytes)),
        ),
{
    lemma_eq_ignore_case_lower_chars(hex_of(sha512_of(artifact_bytes)), declared_sha512);
    crate::integrity::lemma_hex_of_lower_fixed(sha512_of(artifact_bytes));
}

/// Rebinds `name` in a dependency list: any previous binding goes, the new
/// one is appended.
pub(crate) fn upsert_dependency(deps: &mut Vec<DependencyEntry>, name: String, value: String)
    ensures
        final(deps)@.len() >= 1,
        final(deps)@.last().name@ == name@,
        final(deps)@.last().value@ == value@,
        final(deps)@.drop_last() == old(deps)@.filter(other_deps(name@)),
{
    let n = deps.len();
    let ghost pred = other_deps(name@);
    let mut out: Vec<DependencyEntry> = Vec::new();
    let mut i: usize = 0;
    while i < n
        invariant
            n == deps@.len(),
            0 <= i <= n,
            out@ == deps@.subrange(0, i as int).filter(pred),
            pred == other_deps(name@),
        decreases n - i,
    {
        proof {
            let pre = deps@.subrange(0, i as int);
            let one = seq![deps@[i as int]];
            assert(deps@.subrange(0, i + 1) =~= pre + one);
            Seq::<DependencyEntry>::filter_distributes_over_add(pre, one, pred);
            reveal_with_fuel(Seq::<_>::filter, 2);
            assert(one.drop_last() =~= Seq::<DependencyEntry>::empty());
        }
        if !crate::strutil::str_eq(deps[i].name.as_str(), name.as_str()) {
            let entry = DependencyEntry {
                name: deps[i].name.clone(),
                value: deps[i].value.clone(),
            };
            assert(entry == deps@[i as int]);
            out.push(entry);
        }
        assert(out@ =~= deps@.subrange(0, i + 1).filter(pred));
        i += 1;
    }
    assert(deps@.subrange(0, n as int) =~= deps@);
    out.push(DependencyEntry { name, value });
    *deps = out;
}

/// Rebinds `name` in a lock entry list: any previous binding goes, the new
/// one is appended.
pub(crate) fn upsert_lock_dependency(
    deps: &mut Vec<StateLockFileDependency>,
    name: String,
    checksum: String,
    source: StateLockFileDependencySource,
)
    ensures
        final(deps)@.len() >= 1,
        final(deps)@.last().name@ == name@,
        final(deps)@.last().checksum@ == checksum@,
        final(deps)@.last().source == source,
        final(deps)@.drop_last() == old(deps)@.filter(other_lock_deps(name@)),
{
    let n = deps.len();
    let ghost pred = other_lock_deps(name@);
    let mut out: Vec<StateLockFileDependency> = Vec::new();
    let mut i: usize = 0;
    while i < n
        invariant
            n == deps@.len(),
            0 <= i <= n,
            out@ == deps@.subrange(0, i as int).filter(pred),
            pred == other_lock_deps(name@),
        decreases n - i,
    {
        proof {
            let pre = deps@.subrange(0, i as int);
            let one = seq![deps@[i as int]];
            assert(deps@.subrange(0, i + 1) =~= pre + one);
            Seq::<StateLockFileDependency>::filter_distributes_over_add(pre, one, pred);
            reveal_with_fuel(Seq::<_>::filter, 2);
            assert(one.drop_last() =~= Seq::<StateLockFileDependency>::empty());
        }
        if !crate::strutil::str_eq(deps[i].name.as_str(), name.as_str()) {
            let entry = StateLockFileDependency {
                name: deps[i].name.clone(),
                checksum: deps[i].checksum.clone(),
                source: deps[i].source,
            };
            assert(entry == deps@[i as int]);
            out.push(entry);
        }
        assert(out@ =~= deps@.subrange(0, i + 1).filter(pred));
        i += 1;
    }
    assert(deps@.subrange(0, n as int) =~= deps@);
    out.push(StateLockFileDependency { name, checksum, source });
    *deps = out;
}

/// Registers a downloaded package: verifies the bytes against the declared
/// checksum and, only on success, rebinds the dependency in the manifest
/// and the lock file together. On any failure the project state is
/// untouched, so nothing is ever registered as valid without a passed
/// integrity check; the caller must likewise discard the artifact bytes on
/// failure rather than store them at the planned path.
pub fn add(p_ctx: &mut ProjectContext, package: &Package, artifact_bytes: &Vec<u8>) -> (r: Result<
    (),
    BuildError,
>)
    requires
        config_well_formed(old(p_ctx).config),
        lock_well_formed(old(p_ctx).state_lock_file),
        state_consistent(old(p_ctx).config, old(p_ctx).state_lock_file),
    ensures
        r is Err ==> *final(p_ctx) == *old(p_ctx),
        r is Ok <==> package.metadata.versions@.len() > 0 && integrity_ok(
            artifact_bytes@,
            package.metadata.versions@[0].sha512sum@,
        ),
        r matches Err(e) ==> (if package.metadata.versions@.len() == 0 {
            e == BuildError::NoVersions
        } else {
            e matches BuildError::Integrity { expected, actual } && expected@
                == package.metadata.versions@[0].sha512sum@ && actual@ == hex_of(
                sha512_of(artifact_bytes@),
            )
        }),
        r is Ok ==> ({
            let v = package.metadata.versions@[0];
            let name = friendly_name_of(package.group_id@, package.artifact_id@);
            let new_deps = final(p_ctx).config.dependencies@;
            let new_lock = final(p_ctx).state_lock_file.dependencies@;
            &&& new_deps.len() >= 1
            &&& new_deps.last().name@ == name
            &&& new_deps.last().value@ == v.version@
            &&& new_deps.drop_last() == old(p_ctx).config.dependencies@.filter(other_deps(name))
            &&& new_lock.len() >= 1
            &&& new_lock.last().name@ == name
            &&& new_lock.last().checksum@ == hex_of(sha512_of(artifact_bytes@))
            &&& new_lock.last().source == StateLockFileDependencySource::EspressoRegistry
            &&& new_lock.drop_last() == old(p_ctx).state_lock_file.dependencies@.filter(
                other_lock_deps(name),
            )
            &&& final(p_ctx).config.project == old(p_ctx).config.project
            &&& final(p_ctx).config.toolchain == old(p_ctx).config.toolchain
            &&& final(p_ctx).config.dependencies_fs == old(p_ctx).config.dependencies_fs
            &&& final(p_ctx).absolute_paths == old(p_ctx).absolute_paths
            &&& final(p_ctx).dynamic_absolute_paths == old(p_ctx).dynamic_absolute_paths
            &&& final(p_ctx).debug_mode == old(p_ctx).debug_mode
        }),
        config_well_formed(final(p_ctx).config),
        lock_well_formed(final(p_ctx).state_lock_file),
        state_consistent(final(p_ctx).config, final(p_ctx).state_lock_file),
{
    let version = match crate::resolve::latest_version(package) {
        Ok(v) => v,
        Err(e) => {
            return Err(e);
        },
    };
    let actual = crate::integrity::get_sha512_of_bytes(artifact_bytes);
    if !crate::integrity::hex_digests_match(&actual, &version.sha512sum) {
        return Err(
            BuildError::Integrity { expected: version.sha512sum.clone(), actual },
        );
    }
    let friendly_name = package.group_id.clone().concat(":").concat(
        package.artifact_id.as_str(),
    );
    let version_string = version.version.clone();
    upsert_dependency(&mut p_ctx.config.dependencies, friendly_name.clone(), version_string);
    upsert_lock_dependency(
        &mut p_ctx.state_lock_file.dependencies,
        friendly_name,
        actual,
        StateLockFileDependencySource::EspressoRegistry,
    );
    proof {
        let name = friendly_name_of(package.group_id@, package.artifact_id@);
        let dep_key = |d: DependencyEntry| d.name@;
        let lock_key = |d: StateLockFileDependency| d.name@;
        lemma_upsert_keeps_distinct(
            old(p_ctx).config.dependencies@,
            p_ctx.config.dependencies@,
            other_deps(name),
            dep_key,
            name,
        );
        lemma_upsert_keeps_distinct(
            old(p_ctx).state_lock_file.dependencies@,
            p_ctx.state_lock_file.dependencies@,
            other_lock_deps(name),
            lock_key,
            name,
        );
        assert forall|n: Seq<char>|
            lock_seq_has_name(p_ctx.state_lock_file.dependencies@, n) <==> seq_has_dep_name(
                p_ctx.config.dependencies@,
                n,
            ) || seq_has_dep_name(p_ctx.config.dependencies_fs@, n) by {
            lemma_upsert_keys(
                old(p_ctx).config.dependencies@,
                p_ctx.config.dependencies@,
                other_deps(name),
                dep_key,
                name,
                n,
            );
            lemma_upsert_keys(
                old(p_ctx).state_lock_file.dependencies@,
                p_ctx.state_lock_file.dependencies@,
                other_lock_deps(name),
                lock_key,
                name,
                n,
            );
            assert(lock_seq_has_name(old(p_ctx).state_lock_file.dependencies@, n)
                <==> seq_has_dep_name(old(p_ctx).config.dependencies@, n) || seq_has_dep_name(
                old(p_ctx).config.dependencies_fs@,
                n,
            ));
        }
    }
    Ok(())
}

} // verus!
