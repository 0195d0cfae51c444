//! The build pipeline coordinator: a state machine that walks
//! Discover, ExtractDependencies, MergeDependencies, CompileSources,
//! Package and optionally Run. Each step hands the caller one action to
//! perform outside (spawn a process, write a file, merge one dependency)
//! and consumes the outcome of the previous one; any failure of a
//! non-terminal stage aborts the build, and a failed run does not
//! invalidate the artifact that was already packaged.

use vstd::prelude::*;

use crate::context::ProjectContext;
use crate::error::BuildError;
use crate::lock::{lock_checksums, StateLockFileDependency};
use crate::strutil::has_suffix;
use crate::toolchain::{
    artifact_jar_of, build_dir_of, build_manifest_path_of, compile_command_of,
    extract_command_of, manifest_of, package_command_of, run_command_of, ToolchainContext,
};

verus! {

/// Where the pipeline stands: what its last action was, and so what the
/// next event reports on.
#[derive(Debug, Clone, Copy, PartialEq, Eq, Structural)]
pub enum BuildStage {
    /// Nothing has happened yet; the next action announces the discovery.
    Discover,
    /// Dependency archives are being extracted.
    Extracting,
    /// Extracted dependencies are being merged into the build classpath.
    Merging,
    /// The batched compiler invocation is in flight.
    Compiling,
    /// The build manifest is being written.
    WritingManifest,
    /// A stale artifact is being removed before packaging.
    RemovingOldArtifact,
    /// The packager invocation is in flight.
    Packaging,
    /// The runtime invocation is in flight.
    Running,
    /// The pipeline finished.
    Done,
    /// The pipeline aborted; the failure is recorded.
    Failed,
}

/// The outcome of the previous action, reported by the caller: whether it
/// succeeded, what it printed to stderr, and its exit code.
pub struct BuildEvent {
    pub ok: bool,
    pub detail: String,
    pub exit_code: i32,
}

/// One unit of outside work the pipeline asks for.
pub enum BuildAction {
    /// Report what was discovered; informational, cannot fail the build.
    Announce { dependency_count: usize, source_count: usize },
    /// Run the extractor with this argument vector from this directory,
    /// creating the directory first.
    Extract { command: Vec<String>, working_dir: String },
    /// Merge the extraction of this checksum into the build classpath.
    Merge { checksum: String },
    /// Run the compiler with this argument vector.
    Compile { command: Vec<String> },
    /// Write this content to this path.
    WriteBuildManifest { path: String, content: String },
    /// Remove this file; a missing file counts as success.
    RemoveOldArtifact { path: String },
    /// Run the packager with this argument vector from this directory.
    PackageArtifact { command: Vec<String>, working_dir: String },
    /// Run the runtime with this argument vector from this directory.
    RunArtifact { command: Vec<String>, working_dir: String },
    /// The pipeline is over.
    Finish,
    /// The pipeline aborted with this failure.
    Abort { error: BuildError },
    /// The run failed, but the artifact already packaged stays valid.
    Report { error: BuildError },
}

/// The mathematical shadow of a `BuildAction`, with every string taken to
/// its character sequence.
pub enum ActionModel {
    Announce { dependency_count: int, source_count: int },
    Extract { command: Seq<Seq<char>>, working_dir: Seq<char> },
    Merge { checksum: Seq<char> },
    Compile { command: Seq<Seq<char>> },
    WriteBuildManifest { path: Seq<char>, content: Seq<char> },
    RemoveOldArtifact { path: Seq<char> },
    PackageArtifact { command: Seq<Seq<char>>, working_dir: Seq<char> },
    RunArtifact { command: Seq<Seq<char>>, working_dir: Seq<char> },
    Finish,
    Abort { error: BuildError },
    Report { error: BuildError },
}

/// The model of an action.
pub open spec fn action_model(a: BuildAction) -> ActionModel {
    match a {
        BuildAction::Announce { dependency_count, source_count } => ActionModel::Announce {
            dependency_count: dependency_count as int,
            source_count: source_count as int,
        },
        BuildAction::Extract { command, working_dir } => ActionModel::Extract {
            command: command.deep_view(),
            working_dir: working_dir@,
        },
        BuildAction::Merge { checksum } => ActionModel::Merge { checksum: checksum@ },
        BuildAction::Compile { command } => ActionModel::Compile { command: command.deep_view() },
        BuildAction::WriteBuildManifest { path, content } => ActionModel::WriteBuildManifest {
            path: path@,
            content: content@,
        },
        BuildAction::RemoveOldArtifact { path } => ActionModel::RemoveOldArtifact { path: path@ },
        BuildAction::PackageArtifact { command, working_dir } => ActionModel::PackageArtifact {
            command: command.deep_view(),
            working_dir: working_dir@,
        },
        BuildAction::RunArtifact { command, working_dir } => ActionModel::RunArtifact {
            command: command.deep_view(),
            working_dir: working_dir@,
        },
        BuildAction::Finish => ActionModel::Finish,
        BuildAction::Abort { error } => ActionModel::Abort { error },
        BuildAction::Report { error } => ActionModel::Report { error },
    }
}

/// An equal copy of an error, rebuilt field by field.
fn clone_error(e: &BuildError) -> (r: BuildError)
    ensures
        r == *e,
{
    match e {
        BuildError::ConfigNotFound => BuildError::ConfigNotFound,
        BuildError::ConfigParse => BuildError::ConfigParse,
        BuildError::LockFile => BuildError::LockFile,
        BuildError::Network => BuildError::Network,
        BuildError::Deserialization { raw_body } => BuildError::Deserialization {
            raw_body: raw_body.clone(),
        },
        BuildError::Integrity { expected, actual } => BuildError::Integrity {
            expected: expected.clone(),
            actual: actual.clone(),
        },
        BuildError::Extract { dependency } => BuildError::Extract {
            dependency: dependency.clone(),
        },
        BuildError::Merge { detail } => BuildError::Merge { detail: detail.clone() },
        BuildError::Compile { stderr } => BuildError::Compile { stderr: stderr.clone() },
        BuildError::Package { stderr } => BuildError::Package { stderr: stderr.clone() },
        BuildError::Runtime { exit_code } => BuildError::Runtime { exit_code: *exit_code },
        BuildError::Filesystem { detail } => BuildError::Filesystem { detail: detail.clone() },
        BuildError::AlreadyExists => BuildError::AlreadyExists,
        BuildError::NoVersions => BuildError::NoVersions,
        BuildError::NoPackagesFound => BuildError::NoPackagesFound,
        BuildError::SelectionOutOfRange => BuildError::SelectionOutOfRange,
        BuildError::InvalidJarName => BuildError::InvalidJarName,
    }
}

/// The pipeline's whole state: the loaded project, the toolchain, the
/// sources to compile, the deduplicated checksums to extract and merge,
/// two cursors into them, and the stage.
pub struct BuildMachine {
    /// The loaded project.
    pub p_ctx: ProjectContext,
    /// The resolved toolchain.
    pub tc_ctx: ToolchainContext,
    /// The Java sources to compile.
    pub source_files: Vec<String>,
    /// The distinct checksums of the locked dependencies: one extraction
    /// and one merge each, however many names share them.
    pub checksums: Vec<String>,
    /// How many extractions have been dispatched.
    pub extract_idx: usize,
    /// How many merges have been dispatched.
    pub merge_idx: usize,
    /// Whether to run the artifact after packaging.
    pub want_run: bool,
    /// Where the pipeline stands.
    pub stage: BuildStage,
    /// The failure that aborted the pipeline, if any.
    pub failure: Option<BuildError>,
}

/// What every reachable machine satisfies.
pub open spec fn machine_inv(m: BuildMachine) -> bool {
    &&& m.extract_idx <= m.checksums@.len()
    &&& m.merge_idx <= m.checksums@.len()
    &&& (m.stage is Merging ==> 1 <= m.merge_idx)
    &&& (m.stage is Failed ==> m.failure is Some)
}

/// `m` with new cursors, stage and failure; everything else kept.
pub open spec fn updated(
    m: BuildMachine,
    extract_idx: usize,
    merge_idx: usize,
    stage: BuildStage,
    failure: Option<BuildError>,
) -> BuildMachine {
    BuildMachine {
        p_ctx: m.p_ctx,
        tc_ctx: m.tc_ctx,
        source_files: m.source_files,
        checksums: m.checksums,
        extract_idx,
        merge_idx,
        want_run: m.want_run,
        stage,
        failure,
    }
}

/// Abort: record the failure and report it.
pub open spec fn spec_fail(m: BuildMachine, e: BuildError) -> (BuildMachine, ActionModel) {
    (
        updated(m, m.extract_idx, m.merge_idx, BuildStage::Failed, Some(e)),
        ActionModel::Abort { error: e },
    )
}

/// The extractor command for the dependency with checksum `c`.
pub open spec fn spec_extract_command(m: BuildMachine, c: Seq<char>) -> Seq<Seq<char>> {
    extract_command_of(
        m.tc_ctx.packager_path@,
        m.p_ctx.absolute_paths.dependencies@,
        c + ".jar"@,
    )
}

/// Dispatch the next extraction, or move on to merging.
pub open spec fn spec_dispatch_extract(m: BuildMachine) -> (BuildMachine, ActionModel) {
    if m.extract_idx < m.checksums@.len() {
        (
            updated(
                m,
                (m.extract_idx + 1) as usize,
                m.merge_idx,
                BuildStage::Extracting,
                m.failure,
            ),
            ActionModel::Extract {
                command: spec_extract_command(m, m.checksums@[m.extract_idx as int]@),
                working_dir: crate::cache::extraction_path_of(
                    m.p_ctx.absolute_paths.dependencies_extracted@,
                    m.checksums@[m.extract_idx as int]@,
                ),
            },
        )
    } else {
        spec_dispatch_merge(m)
    }
}

/// Dispatch the next merge, or move on to compiling.
pub open spec fn spec_dispatch_merge(m: BuildMachine) -> (BuildMachine, ActionModel) {
    if m.merge_idx < m.checksums@.len() {
        (
            updated(m, m.extract_idx, (m.merge_idx + 1) as usize, BuildStage::Merging, m.failure),
            ActionModel::Merge { checksum: m.checksums@[m.merge_idx as int]@ },
        )
    } else {
        spec_dispatch_compile(m)
    }
}

/// Dispatch the batched compile, or, with nothing to compile, move
/// straight on to packaging: an empty source set is valid and aborts
/// nothing.
pub open spec fn spec_dispatch_compile(m: BuildMachine) -> (BuildMachine, ActionModel) {
    if m.source_files@.len() > 0 {
        (
            updated(m, m.extract_idx, m.merge_idx, BuildStage::Compiling, m.failure),
            ActionModel::Compile {
                command: compile_command_of(
                    m.tc_ctx.compiler_path@,
                    m.source_files.deep_view(),
                    m.p_ctx.absolute_paths.project@,
                ),
            },
        )
    } else {
        spec_dispatch_write_manifest(m)
    }
}

/// Dispatch the manifest write that precedes packaging.
pub open spec fn spec_dispatch_write_manifest(m: BuildMachine) -> (BuildMachine, ActionModel) {
    (
        updated(m, m.extract_idx, m.merge_idx, BuildStage::WritingManifest, m.failure),
        ActionModel::WriteBuildManifest {
            path: build_manifest_path_of(m.p_ctx.absolute_paths.project@),
            content: manifest_of(m.p_ctx.config.project.base_package@),
        },
    )
}

/// One transition of the pipeline: what the machine becomes and what it
/// asks for, given the outcome of the previous action. This is the whole
/// coordinator; the executable step mirrors it exactly.
pub open spec fn spec_step(m: BuildMachine, ev: BuildEvent) -> (BuildMachine, ActionModel) {
    match m.stage {
        BuildStage::Discover => (
            updated(m, m.extract_idx, m.merge_idx, BuildStage::Extracting, m.failure),
            ActionModel::Announce {
                dependency_count: m.checksums@.len() as int,
                source_count: m.source_files@.len() as int,
            },
        ),
        BuildStage::Extracting => {
            if m.extract_idx > 0 && !ev.ok {
                spec_fail(
                    m,
                    BuildError::Extract {
                        dependency: m.checksums@[m.extract_idx - 1],
                    },
                )
            } else {
                spec_dispatch_extract(m)
            }
        },
        BuildStage::Merging => {
            if !ev.ok {
                spec_fail(m, BuildError::Merge { detail: ev.detail })
            } else {
                spec_dispatch_merge(m)
            }
        },
        BuildStage::Compiling => {
            if !ev.ok {
                spec_fail(m, BuildError::Compile { stderr: ev.detail })
            } else {
                spec_dispatch_write_manifest(m)
            }
        },
        BuildStage::WritingManifest => {
            if !ev.ok {
                spec_fail(m, BuildError::Filesystem { detail: ev.detail })
            } else {
                (
                    updated(
                        m,
                        m.extract_idx,
                        m.merge_idx,
                        BuildStage::RemovingOldArtifact,
                        m.failure,
                    ),
                    ActionModel::RemoveOldArtifact {
                        path: artifact_jar_of(m.p_ctx.absolute_paths.project@),
                    },
                )
            }
        },
        BuildStage::RemovingOldArtifact => {
            if !ev.ok {
                spec_fail(m, BuildError::Package { stderr: ev.detail })
            } else {
                (
                    updated(m, m.extract_idx, m.merge_idx, BuildStage::Packaging, m.failure),
                    ActionModel::PackageArtifact {
                        command: package_command_of(
                            m.tc_ctx.packager_path@,
                            m.p_ctx.config.project.base_package@,
                        ),
                        working_dir: build_dir_of(m.p_ctx.absolute_paths.project@),
                    },
                )
            }
        },
        BuildStage::Packaging => {
            if !ev.ok {
                spec_fail(m, BuildError::Package { stderr: ev.detail })
            } else if m.want_run {
                (
                    updated(m, m.extract_idx, m.merge_idx, BuildStage::Running, m.failure),
                    ActionModel::RunArtifact {
                        command: run_command_of(
                            m.tc_ctx.runtime_path@,
                            m.p_ctx.absolute_paths.project@,
                        ),
                        working_dir: build_dir_of(m.p_ctx.absolute_paths.project@),
                    },
                )
            } else {
                (
                    updated(m, m.extract_idx, m.merge_idx, BuildStage::Done, m.failure),
                    ActionModel::Finish,
                )
            }
        },
        BuildStage::Running => {
            if !ev.ok {
                (
                    updated(m, m.extract_idx, m.merge_idx, BuildStage::Done, m.failure),
                    ActionModel::Report {
                        error: BuildError::Runtime { exit_code: ev.exit_code },
                    },
                )
            } else {
                (
                    updated(m, m.extract_idx, m.merge_idx, BuildStage::Done, m.failure),
                    ActionModel::Finish,
                )
            }
        },
        BuildStage::Done => (m, ActionModel::Finish),
        BuildStage::Failed => (
            m,
            match m.failure {
                Some(e) => ActionModel::Abort { error: e },
                None => ActionModel::Finish,
            },
        ),
    }
}

/// The checksums of `s` with later repetitions dropped: the first
/// occurrence of each stays, in order.
pub open spec fn dedup_of(s: Seq<Seq<char>>) -> Seq<Seq<char>>
    decreases s.len(),
{
    if s.len() == 0 {
        Seq::empty()
    } else {
        let pre = dedup_of(s.drop_last());
        if s.drop_last().contains(s.last()) {
            pre
        } else {
            pre.push(s.last())
        }
    }
}

/// Deduplication keeps exactly the members.
pub proof fn lemma_dedup_contains(s: Seq<Seq<char>>, x: Seq<char>)
    ensures
        dedup_of(s).contains(x) <==> s.contains(x),
    decreases s.len(),
{
    if s.len() > 0 {
        let dl = s.drop_last();
        let pre = dedup_of(dl);
        lemma_dedup_contains(dl, x);
        if s.contains(x) {
            let i = choose|i: int| 0 <= i < s.len() && s[i] == x;
            if i < s.len() - 1 {
                assert(dl[i] == x);
                assert(dl.contains(x));
            } else {
                assert(s.last() == x);
                if dl.contains(s.last()) {
                    assert(dl.contains(x));
                } else {
                    assert(dedup_of(s) == pre.push(s.last()));
                    assert(dedup_of(s)[dedup_of(s).len() - 1] == x);
                    assert(dedup_of(s).contains(x));
                }
            }
            if dl.contains(x) {
                assert(pre.contains(x));
                let j = choose|j: int| 0 <= j < pre.len() && pre[j] == x;
                if dl.contains(s.last()) {
                    assert(dedup_of(s)[j] == x);
                } else {
                    assert(dedup_of(s)[j] == x);
                }
                assert(dedup_of(s).contains(x));
            }
        }
        if dedup_of(s).contains(x) {
            let j = choose|j: int| 0 <= j < dedup_of(s).len() && dedup_of(s)[j] == x;
            if dl.contains(s.last()) {
                assert(pre[j] == x);
                assert(pre.contains(x));
                let i = choose|i: int| 0 <= i < dl.len() && dl[i] == x;
                assert(s[i] == x);
                assert(s.contains(x));
            } else {
                if j < dedup_of(s).len() - 1 {
                    assert(pre[j] == x);
                    assert(pre.contains(x));
                    let i = choose|i: int| 0 <= i < dl.len() && dl[i] == x;
                    assert(s[i] == x);
                    assert(s.contains(x));
                } else {
                    assert(s.last() == x);
                    assert(s[s.len() - 1] == x);
                    assert(s.contains(x));
                }
            }
        }
    }
}

/// Deduplication leaves no duplicates.
pub proof fn lemma_dedup_no_dups(s: Seq<Seq<char>>)
    ensures
        forall|i: int, j: int|
            0 <= i < j < dedup_of(s).len() ==> dedup_of(s)[i] != dedup_of(s)[j],
    decreases s.len(),
{
    if s.len() > 0 {
        lemma_dedup_no_dups(s.drop_last());
        let pre = dedup_of(s.drop_last());
        if !s.drop_last().contains(s.last()) {
            assert forall|i: int, j: int|
                0 <= i < j < dedup_of(s).len() implies dedup_of(s)[i] != dedup_of(s)[j] by {
                if j == dedup_of(s).len() - 1 {
                    assert(dedup_of(s)[i] == pre[i]);
                    assert(pre.contains(pre[i]));
                    lemma_dedup_contains(s.drop_last(), pre[i]);
                }
            }
        }
    }
}

/// The distinct checksums of the locked dependencies, first occurrences
/// in order: each is extracted and merged once, however many dependency
/// names resolve to it.
#[verifier::loop_isolation(false)]
pub fn dedup_checksums(deps: &Vec<StateLockFileDependency>) -> (r: Vec<String>)
    ensures
        r.deep_view() == dedup_of(lock_checksums(deps@)),
{
    let n = deps.len();
    let mut out: Vec<String> = Vec::new();
    let mut i: usize = 0;
    while i < n
        invariant
            n == deps@.len(),
            0 <= i <= n,
            out.deep_view() == dedup_of(lock_checksums(deps@.subrange(0, i as int))),
        decreases n - i,
    {
        let ghost pre_entries = deps@.subrange(0, i as int);
        let ghost ext_entries = deps@.subrange(0, i + 1);
        proof {
            assert(ext_entries.drop_last() =~= pre_entries);
            assert(lock_checksums(ext_entries).drop_last() =~~= lock_checksums(pre_entries));
            assert(lock_checksums(ext_entries).last() == deps@[i as int].checksum@);
        }
        let m = out.len();
        let mut found = false;
        let mut t: usize = 0;
        while t < m
            invariant
                m == out@.len(),
                0 <= t <= m,
                found <==> exists|q: int|
                    0 <= q < t && out.deep_view()[q] == deps@[i as int].checksum@,
            decreases m - t,
        {
            if crate::strutil::str_eq(out[t].as_str(), deps[i].checksum.as_str()) {
                found = true;
                proof {
                    assert(out.deep_view()[t as int] == deps@[i as int].checksum@);
                }
                t = m;
            } else {
                t += 1;
            }
        }
        proof {
            lemma_dedup_contains(lock_checksums(pre_entries), deps@[i as int].checksum@);
            if found {
                assert(out.deep_view().contains(deps@[i as int].checksum@));
                assert(lock_checksums(pre_entries).contains(deps@[i as int].checksum@));
            } else {
                if lock_checksums(pre_entries).contains(deps@[i as int].checksum@) {
                    assert(out.deep_view().contains(deps@[i as int].checksum@));
                    let q = choose|q: int|
                        0 <= q < out.deep_view().len() && out.deep_view()[q] == deps@[(
                        i as int)].checksum@;
                }
            }
        }
        if !found {
            let ghost out_prev = out.deep_view();
            out.push(deps[i].checksum.clone());
            proof {
                assert(out.deep_view() =~~= out_prev.push(deps@[i as int].checksum@));
            }
        }
        proof {
            assert(out.deep_view() =~~= dedup_of(lock_checksums(ext_entries)));
        }
        i += 1;
    }
    proof {
        assert(deps@.subrange(0, n as int) =~= deps@);
    }
    out
}

/// Starts a build of the loaded project: the discovered files are sifted
/// for Java sources, and the locked dependencies are scheduled for one
/// extraction and one merge per distinct checksum.
pub fn build(p_ctx: ProjectContext, tc_ctx: ToolchainContext, discovered_files: &Vec<String>) -> (m:
    BuildMachine)
    ensures
        machine_inv(m),
        m.stage == BuildStage::Discover,
        m.extract_idx == 0,
        m.merge_idx == 0,
        m.want_run == false,
        m.failure is None,
        m.p_ctx == p_ctx,
        m.tc_ctx == tc_ctx,
        m.source_files.deep_view() == discovered_files.deep_view().filter(
            |s: Seq<char>| has_suffix(s, ".java"@),
        ),
        m.checksums.deep_view() == dedup_of(
            lock_checksums(p_ctx.state_lock_file.dependencies@),
        ),
{
    let source_files = crate::toolchain::get_java_source_files(discovered_files);
    let checksums = dedup_checksums(&p_ctx.state_lock_file.dependencies);
    BuildMachine {
        p_ctx,
        tc_ctx,
        source_files,
        checksums,
        extract_idx: 0,
        merge_idx: 0,
        want_run: false,
        stage: BuildStage::Discover,
        failure: None,
    }
}

/// Starts a build-then-run of the loaded project: a full build first, and
/// the packaged artifact is run after a successful package step.
pub fn run(p_ctx: ProjectContext, tc_ctx: ToolchainContext, discovered_files: &Vec<String>) -> (m:
    BuildMachine)
    ensures
        machine_inv(m),
        m.stage == BuildStage::Discover,
        m.extract_idx == 0,
        m.merge_idx == 0,
        m.want_run == true,
        m.failure is None,
        m.p_ctx == p_ctx,
        m.tc_ctx == tc_ctx,
        m.source_files.deep_view() == discovered_files.deep_view().filter(
            |s: Seq<char>| has_suffix(s, ".java"@),
        ),
        m.checksums.deep_view() == dedup_of(
            lock_checksums(p_ctx.state_lock_file.dependencies@),
        ),
{
    let mut m = build(p_ctx, tc_ctx, discovered_files);
    m.want_run = true;
    m
}

/// Performs one transition: consumes the outcome of the previous action
/// and produces the next one, exactly as the specification step says.
pub fn step(m: &mut BuildMachine, ev: &BuildEvent) -> (r: BuildAction)
    requires
        machine_inv(*old(m)),
    ensures
        machine_inv(*final(m)),
        *final(m) == spec_step(*old(m), *ev).0,
        action_model(r) == spec_step(*old(m), *ev).1,
{
    match m.stage {
        BuildStage::Discover => {
            let dependency_count = m.checksums.len();
            let source_count = m.source_files.len();
            m.stage = BuildStage::Extracting;
            BuildAction::Announce { dependency_count, source_count }
        },
        BuildStage::Extracting => {
            if m.extract_idx > 0 && !ev.ok {
                let e = BuildError::Extract { dependency: m.checksums[m.extract_idx - 1].clone() };
                m.stage = BuildStage::Failed;
                m.failure = Some(clone_error(&e));
                BuildAction::Abort { error: e }
            } else {
                dispatch_extract(m)
            }
        },
        BuildStage::Merging => {
            if !ev.ok {
                let e = BuildError::Merge { detail: ev.detail.clone() };
                m.stage = BuildStage::Failed;
                m.failure = Some(clone_error(&e));
                BuildAction::Abort { error: e }
            } else {
                dispatch_merge(m)
            }
        },
        BuildStage::Compiling => {
            if !ev.ok {
                let e = BuildError::Compile { stderr: ev.detail.clone() };
                m.stage = BuildStage::Failed;
                m.failure = Some(clone_error(&e));
                BuildAction::Abort { error: e }
            } else {
                dispatch_write_manifest(m)
            }
        },
        BuildStage::WritingManifest => {
            if !ev.ok {
                let e = BuildError::Filesystem { detail: ev.detail.clone() };
                m.stage = BuildStage::Failed;
                m.failure = Some(clone_error(&e));
                BuildAction::Abort { error: e }
            } else {
                m.stage = BuildStage::RemovingOldArtifact;
                let path = m.p_ctx.absolute_paths.project.clone().concat("/build/artifact.jar");
                BuildAction::RemoveOldArtifact { path }
            }
        },
        BuildStage::RemovingOldArtifact => {
            if !ev.ok {
                let e = BuildError::Package { stderr: ev.detail.clone() };
                m.stage = BuildStage::Failed;
                m.failure = Some(clone_error(&e));
                BuildAction::Abort { error: e }
            } else {
                m.stage = BuildStage::Packaging;
                let command = crate::toolchain::build_jar(&m.p_ctx, &m.tc_ctx);
                let working_dir = m.p_ctx.absolute_paths.project.clone().concat("/build");
                BuildAction::PackageArtifact { command, working_dir }
            }
        },
        BuildStage::Packaging => {
            if !ev.ok {
                let e = BuildError::Package { stderr: ev.detail.clone() };
                m.stage = BuildStage::Failed;
                m.failure = Some(clone_error(&e));
                BuildAction::Abort { error: e }
            } else if m.want_run {
                m.stage = BuildStage::Running;
                let command = crate::toolchain::run_jar(&m.p_ctx, &m.tc_ctx);
                let working_dir = m.p_ctx.absolute_paths.project.clone().concat("/build");
                BuildAction::RunArtifact { command, working_dir }
            } else {
                m.stage = BuildStage::Done;
                BuildAction::Finish
            }
        },
        BuildStage::Running => {
            m.stage = BuildStage::Done;
            if !ev.ok {
                BuildAction::Report { error: BuildError::Runtime { exit_code: ev.exit_code } }
            } else {
                BuildAction::Finish
            }
        },
        BuildStage::Done => BuildAction::Finish,
        BuildStage::Failed => {
            match &m.failure {
                Some(e) => {
                    let err = clone_error(e);
                    BuildAction::Abort { error: err }
                },
                None => BuildAction::Finish,
            }
        },
    }
}

/// Dispatches the next extraction, or moves on to merging.
fn dispatch_extract(m: &mut BuildMachine) -> (r: BuildAction)
    requires
        machine_inv(*old(m)),
    ensures
        machine_inv(*final(m)),
        *final(m) == spec_dispatch_extract(*old(m)).0,
        action_model(r) == spec_dispatch_extract(*old(m)).1,
{
    if m.extract_idx < m.checksums.len() {
        let checksum = &m.checksums[m.extract_idx];
        let jar_name = checksum.clone().concat(".jar");
        proof {
            reveal_strlit(".jar");
            assert(jar_name@.subrange(jar_name@.len() - 4, jar_name@.len() as int) =~= ".jar"@);
            assert(has_suffix(jar_name@, ".jar"@));
            assert(jar_name@.subrange(0, jar_name@.len() - 4) =~= checksum@);
        }
        let plan = match crate::toolchain::extract_jar(&m.p_ctx, &m.tc_ctx, &jar_name) {
            Ok(plan) => plan,
            Err(_) => {
                proof {
                    assert(false);
                }
                unreached()
            },
        };
        m.stage = BuildStage::Extracting;
        m.extract_idx = m.extract_idx + 1;
        BuildAction::Extract { command: plan.command, working_dir: plan.output_dir }
    } else {
        dispatch_merge(m)
    }
}

/// Dispatches the next merge, or moves on to compiling.
fn dispatch_merge(m: &mut BuildMachine) -> (r: BuildAction)
    requires
        machine_inv(*old(m)),
    ensures
        machine_inv(*final(m)),
        *final(m) == spec_dispatch_merge(*old(m)).0,
        action_model(r) == spec_dispatch_merge(*old(m)).1,
{
    if m.merge_idx < m.checksums.len() {
        let checksum = m.checksums[m.merge_idx].clone();
        m.stage = BuildStage::Merging;
        m.merge_idx = m.merge_idx + 1;
        BuildAction::Merge { checksum }
    } else {
        dispatch_write_manifest_or_compile(m)
    }
}

/// Dispatches the batched compile, or skips it with nothing to compile.
fn dispatch_write_manifest_or_compile(m: &mut BuildMachine) -> (r: BuildAction)
    requires
        machine_inv(*old(m)),
    ensures
        machine_inv(*final(m)),
        *final(m) == spec_dispatch_compile(*old(m)).0,
        action_model(r) == spec_dispatch_compile(*old(m)).1,
{
    if m.source_files.len() > 0 {
        m.stage = BuildStage::Compiling;
        let command = crate::toolchain::compile_project(&m.source_files, &m.p_ctx, &m.tc_ctx);
        BuildAction::Compile { command }
    } else {
        dispatch_write_manifest(m)
    }
}

/// Dispatches the manifest write that precedes packaging.
fn dispatch_write_manifest(m: &mut BuildMachine) -> (r: BuildAction)
    requires
        machine_inv(*old(m)),
    ensures
        machine_inv(*final(m)),
        *final(m) == spec_dispatch_write_manifest(*old(m)).0,
        action_model(r) == spec_dispatch_write_manifest(*old(m)).1,
{
    m.stage = BuildStage::WritingManifest;
    let content = crate::toolchain::get_manifest(&m.p_ctx);
    let path = m.p_ctx.absolute_paths.project.clone().concat("/build/MANIFEST.MF");
    BuildAction::WriteBuildManifest { path, content }
}


/// The machine after consuming a sequence of events.
pub open spec fn machine_after(m: BuildMachine, evs: Seq<BuildEvent>) -> BuildMachine
    decreases evs.len(),
{
    if evs.len() == 0 {
        m
    } else {
        machine_after(spec_step(m, evs.first()).0, evs.drop_first())
    }
}

/// The actions the pipeline asks for along a sequence of events.
pub open spec fn trace_actions(m: BuildMachine, evs: Seq<BuildEvent>) -> Seq<ActionModel>
    decreases evs.len(),
{
    if evs.len() == 0 {
        Seq::empty()
    } else {
        seq![spec_step(m, evs.first()).1] + trace_actions(
            spec_step(m, evs.first()).0,
            evs.drop_first(),
        )
    }
}

/// A failed pipeline stays failed and only ever reports its failure:
/// whatever events follow an abort, no manifest write, artifact removal,
/// packaging or run is asked for again.
pub proof fn lemma_failed_is_absorbing(m: BuildMachine, evs: Seq<BuildEvent>)
    requires
        m.stage is Failed,
    ensures
        machine_after(m, evs).stage is Failed,
        forall|k: int|
            0 <= k < trace_actions(m, evs).len() ==> ((#[trigger] trace_actions(m, evs)[k])
                matches ActionModel::Abort { .. } || trace_actions(m, evs)[k] is Finish),
    decreases evs.len(),
{
    if evs.len() > 0 {
        let (m1, a) = spec_step(m, evs.first());
        assert(m1 == m);
        lemma_failed_is_absorbing(m, evs.drop_first());
        assert forall|k: int|
            0 <= k < trace_actions(m, evs).len() implies ((#[trigger] trace_actions(m, evs)[k])
                matches ActionModel::Abort { .. } || trace_actions(m, evs)[k] is Finish) by {
            if k > 0 {
                assert(trace_actions(m, evs)[k] == trace_actions(m, evs.drop_first())[k - 1]);
            }
        }
    }
}

/// A compiler invocation that exits non-zero halts the pipeline before the
/// packaging stage: the pipeline aborts with the compiler's stderr, and no
/// manifest write, artifact removal, packaging or run is ever asked for
/// afterwards, so no artifact is produced or replaced.
pub proof fn lemma_compile_failure_halts(m: BuildMachine, evs: Seq<BuildEvent>)
    requires
        m.stage is Compiling,
        evs.len() > 0,
        !evs.first().ok,
    ensures
        machine_after(m, evs).stage is Failed,
        trace_actions(m, evs)[0] == (ActionModel::Abort {
            error: BuildError::Compile { stderr: evs.first().detail },
        }),
        forall|k: int|
            1 <= k < trace_actions(m, evs).len() ==> ((#[trigger] trace_actions(m, evs)[k])
                matches ActionModel::Abort { .. } || trace_actions(m, evs)[k] is Finish),
{
    let (m1, a) = spec_step(m, evs.first());
    assert(m1.stage is Failed);
    lemma_failed_is_absorbing(m1, evs.drop_first());
    assert forall|k: int|
        1 <= k < trace_actions(m, evs).len() implies ((#[trigger] trace_actions(m, evs)[k])
            matches ActionModel::Abort { .. } || trace_actions(m, evs)[k] is Finish) by {
        assert(trace_actions(m, evs)[k] == trace_actions(m1, evs.drop_first())[k - 1]);
    }
}

/// A project with no locked dependencies and one discovered source file
/// walks straight through discovery, the batched compile and packaging,
/// and finishes: exactly one packaging command, run from the build
/// directory, producing the artifact at its fixed output path.
pub proof fn lemma_single_source_build(m: BuildMachine, evs: Seq<BuildEvent>)
    requires
        m.stage is Discover,
        m.want_run == false,
        m.checksums@.len() == 0,
        m.source_files@.len() == 1,
        evs.len() == 6,
        forall|k: int| 0 <= k < evs.len() ==> (#[trigger] evs[k]).ok,
    ensures
        machine_after(m, evs).stage is Done,
        trace_actions(m, evs) =~~= seq![
            ActionModel::Announce { dependency_count: 0, source_count: 1 },
            ActionModel::Compile {
                command: compile_command_of(
                    m.tc_ctx.compiler_path@,
                    m.source_files.deep_view(),
                    m.p_ctx.absolute_paths.project@,
                ),
            },
            ActionModel::WriteBuildManifest {
                path: build_manifest_path_of(m.p_ctx.absolute_paths.project@),
                content: manifest_of(m.p_ctx.config.project.base_package@),
            },
            ActionModel::RemoveOldArtifact {
                path: artifact_jar_of(m.p_ctx.absolute_paths.project@),
            },
            ActionModel::PackageArtifact {
                command: package_command_of(
                    m.tc_ctx.packager_path@,
                    m.p_ctx.config.project.base_package@,
                ),
                working_dir: build_dir_of(m.p_ctx.absolute_paths.project@),
            },
            ActionModel::Finish,
        ],
{
    reveal_with_fuel(machine_after, 7);
    reveal_with_fuel(trace_actions, 7);
    let m1 = spec_step(m, evs[0]).0;
    assert(evs.drop_first()[0] == evs[1]);
    let m2 = spec_step(m1, evs[1]).0;
    assert(m1.stage is Extracting && m1.extract_idx == m.extract_idx);
    assert(m2.stage is Compiling);
    let m3 = spec_step(m2, evs[2]).0;
    assert(m3.stage is WritingManifest);
    let m4 = spec_step(m3, evs[3]).0;
    assert(m4.stage is RemovingOldArtifact);
    let m5 = spec_step(m4, evs[4]).0;
    assert(m5.stage is Packaging);
    let m6 = spec_step(m5, evs[5]).0;
    assert(m6.stage is Done);
    let e1 = evs.drop_first();
    let e2 = e1.drop_first();
    let e3 = e2.drop_first();
    let e4 = e3.drop_first();
    let e5 = e4.drop_first();
    assert(e1[0] == evs[1] && e2[0] == evs[2] && e3[0] == evs[3] && e4[0] == evs[4] && e5[0]
        == evs[5]);
    assert(e1.len() == 5 && e2.len() == 4 && e3.len() == 3 && e4.len() == 2 && e5.len() == 1);
    assert(e5.drop_first().len() == 0);
    assert(trace_actions(m, evs) == seq![spec_step(m, evs[0]).1] + trace_actions(m1, e1));
    assert(trace_actions(m1, e1) == seq![spec_step(m1, evs[1]).1] + trace_actions(m2, e2));
    assert(trace_actions(m2, e2) == seq![spec_step(m2, evs[2]).1] + trace_actions(m3, e3));
    assert(trace_actions(m3, e3) == seq![spec_step(m3, evs[3]).1] + trace_actions(m4, e4));
    assert(trace_actions(m4, e4) == seq![spec_step(m4, evs[4]).1] + trace_actions(m5, e5));
    assert(trace_actions(m5, e5) == seq![spec_step(m5, evs[5]).1] + trace_actions(
        m6,
        e5.drop_first(),
    ));
}

/// Cache sharing: two locked dependencies that resolve to the same
/// checksum, whatever their names, share one artifact location and one
/// extraction directory, and the build schedule extracts that checksum
/// exactly once.
pub proof fn lemma_cache_sharing(
    deps: Seq<StateLockFileDependency>,
    i: int,
    j: int,
    ap: crate::context::AbsoltuePaths,
)
    requires
        0 <= i < deps.len(),
        0 <= j < deps.len(),
        deps[i].checksum@ == deps[j].checksum@,
    ensures
        crate::cache::artifact_path_of(ap.dependencies@, deps[i].checksum@)
            == crate::cache::artifact_path_of(ap.dependencies@, deps[j].checksum@),
        crate::cache::extraction_path_of(ap.dependencies_extracted@, deps[i].checksum@)
            == crate::cache::extraction_path_of(ap.dependencies_extracted@, deps[j].checksum@),
        exists|k: int|
            0 <= k < dedup_of(lock_checksums(deps)).len() && #[trigger] dedup_of(
                lock_checksums(deps),
            )[k] == deps[i].checksum@,
        forall|k1: int, k2: int|
            0 <= k1 < k2 < dedup_of(lock_checksums(deps)).len() ==> dedup_of(
                lock_checksums(deps),
            )[k1] != dedup_of(lock_checksums(deps))[k2],
{
    lemma_dedup_contains(lock_checksums(deps), deps[i].checksum@);
    assert(lock_checksums(deps)[i] == deps[i].checksum@);
    assert(lock_checksums(deps).contains(deps[i].checksum@));
    let k = choose|k: int|
        0 <= k < dedup_of(lock_checksums(deps)).len() && dedup_of(lock_checksums(deps))[k]
            == deps[i].checksum@;
    assert(dedup_of(lock_checksums(deps))[k] == deps[i].checksum@);
    lemma_dedup_no_dups(lock_checksums(deps));
}

} // verus!
