//! Merging extracted dependency archives into the unified build classpath:
//! planning the extraction of a locked dependency, and planning the copy of
//! its compiled units. Two units at the same package-relative path are an
//! explicit conflict error, never a silent overwrite.

use vstd::prelude::*;

use crate::context::ProjectContext;
use crate::error::BuildError;
use crate::lock::StateLockFileDependency;
use crate::strutil::{has_suffix, matches_at};
use crate::toolchain::{build_dir_of, ExtractPlan, ToolchainContext};

verus! {

/// Plans the extraction of a locked dependency: its cached archive, named
/// by its checksum, is unpacked into the checksum-keyed extraction
/// directory.
pub fn extract(p_ctx: &ProjectContext, tc_ctx: &ToolchainContext, dependency: &StateLockFileDependency) -> (r:
    Result<ExtractPlan, BuildError>)
    ensures
        r matches Ok(plan) && ({
            &&& plan.output_dir@ == crate::cache::extraction_path_of(
                p_ctx.absolute_paths.dependencies_extracted@,
                dependency.checksum@,
            )
            &&& plan.command.deep_view() == crate::toolchain::extract_command_of(
                tc_ctx.packager_path@,
                p_ctx.absolute_paths.dependencies@,
                dependency.checksum@ + ".jar"@,
            )
        }),
{
    let jar_name = dependency.checksum.clone().concat(".jar");
    proof {
        reveal_strlit(".jar");
        assert(jar_name@.subrange(
            jar_name@.len() - 4,
            jar_name@.len() as int,
        ) =~= ".jar"@);
        assert(has_suffix(jar_name@, ".jar"@));
        assert(jar_name@.subrange(0, jar_name@.len() - 4) =~= dependency.checksum@);
    }
    match crate::toolchain::extract_jar(p_ctx, tc_ctx, &jar_name) {
        Ok(plan) => Ok(plan),
        Err(e) => {
            proof {
                assert(false);
            }
            Err(e)
        },
    }
}

/// The package-relative paths of the class files under `root`, in input
/// order.
pub open spec fn rel_targets(root: Seq<char>, class_files: Seq<Seq<char>>) -> Seq<Seq<char>> {
    class_files.map_values(|f: Seq<char>| f.subrange(root.len() + 1 as int, f.len() as int))
}

/// A unit collides: two planned units share a package-relative path, or a
/// planned unit hits one already in the classpath.
pub open spec fn has_conflict(existing: Seq<Seq<char>>, rels: Seq<Seq<char>>) -> bool {
    (exists|i: int, j: int| 0 <= i < j < rels.len() && rels[i] == rels[j]) || (exists|i: int, k: int|
        0 <= i < rels.len() && 0 <= k < existing.len() && rels[i] == existing[k])
}

/// One planned copy of a compiled unit into the build classpath.
pub struct CopyOperation {
    /// The class file inside the extraction directory.
    pub from: String,
    /// Its destination inside the build output directory.
    pub to: String,
}

/// The planned merge of one dependency: the copies to perform and the
/// classpath occupancy afterwards.
pub struct MergePlan {
    /// The copies to perform, one per class file.
    pub copies: Vec<CopyOperation>,
    /// Every package-relative path occupied after this merge: what was
    /// occupied before, plus this dependency's units. Feed it to the next
    /// dependency's merge.
    pub targets: Vec<String>,
}

/// Plans the merge of one extracted dependency into the build classpath:
/// every class file found under its extraction directory is copied to the
/// same package-relative path under the build directory. A collision with
/// an already-occupied path, or between two of the dependency's own units,
/// is an explicit conflict error and nothing is merged.
#[verifier::loop_isolation(false)]
pub fn copy_classes(p_ctx: &ProjectContext, dependency: &StateLockFileDependency, files: &Vec<String>, existing_targets: &Vec<String>) -> (r:
    Result<MergePlan, BuildError>)
    requires
        crate::class::files_under(
            files.deep_view(),
            crate::cache::extraction_path_of(
                p_ctx.absolute_paths.dependencies_extracted@,
                dependency.checksum@,
            ),
        ),
    ensures
        ({
            let root = crate::cache::extraction_path_of(
                p_ctx.absolute_paths.dependencies_extracted@,
                dependency.checksum@,
            );
            let class_files = files.deep_view().filter(
                |f: Seq<char>| has_suffix(f, ".class"@),
            );
            let rels = rel_targets(root, class_files);
            &&& (r is Ok <==> !has_conflict(existing_targets.deep_view(), rels))
            &&& (r matches Err(e) ==> e matches BuildError::Merge { .. })
            &&& (r matches Ok(plan) ==> {
                &&& plan.copies@.len() == class_files.len()
                &&& forall|k: int|
                    0 <= k < plan.copies@.len() ==> {
                        let c = #[trigger] plan.copies@[k];
                        &&& c.from@ == class_files[k]
                        &&& c.to@ == build_dir_of(p_ctx.absolute_paths.project@) + "/"@ + rels[k]
                    }
                &&& plan.targets.deep_view() == existing_targets.deep_view() + rels
            })
        }),
{
    let root = crate::cache::extraction_path(
        &p_ctx.absolute_paths,
        dependency.checksum.as_str(),
    );
    let root_len = root.as_str().unicode_len();
    let ghost root_view = root@;
    let ghost pred = |f: Seq<char>| has_suffix(f, ".class"@);
    let build_dir = p_ctx.absolute_paths.project.clone().concat("/build");
    let n = files.len();
    let mut copies: Vec<CopyOperation> = Vec::new();
    let mut targets: Vec<String> = existing_targets.clone();
    let ghost existing = existing_targets.deep_view();
    let mut i: usize = 0;
    while i < n
        invariant
            n == files@.len(),
            0 <= i <= n,
            root_len == root_view.len(),
            root_view == crate::cache::extraction_path_of(
                p_ctx.absolute_paths.dependencies_extracted@,
                dependency.checksum@,
            ),
            crate::class::files_under(files.deep_view(), root_view),
            pred == (|f: Seq<char>| has_suffix(f, ".class"@)),
            build_dir@ == build_dir_of(p_ctx.absolute_paths.project@),
            existing == existing_targets.deep_view(),
            ({
                let class_files = files.deep_view().subrange(0, i as int).filter(pred);
                let rels = rel_targets(root_view, class_files);
                &&& !has_conflict(existing, rels)
                &&& copies@.len() == class_files.len()
                &&& forall|k: int|
                    0 <= k < copies@.len() ==> {
                        let c = #[trigger] copies@[k];
                        &&& c.from@ == class_files[k]
                        &&& c.to@ == build_dir_of(p_ctx.absolute_paths.project@) + "/"@
                            + rels[k]
                    }
                &&& targets.deep_view() == existing + rels
            }),
        decreases n - i,
    {
        proof {
            let pre = files.deep_view().subrange(0, i as int);
            let one = seq![files.deep_view()[i as int]];
            assert(files.deep_view().subrange(0, i + 1) =~~= pre + one);
            Seq::<Seq<char>>::filter_distributes_over_add(pre, one, pred);
            reveal_with_fuel(Seq::<_>::filter, 2);
            assert(one.drop_last() =~= Seq::<Seq<char>>::empty());
        }
        let file = &files[i];
        let file_len = file.as_str().unicode_len();
        if crate::strutil::ends_with_str(file.as_str(), ".class") {
            let ghost f = files.deep_view()[i as int];
            proof {
                assert(matches_at(f, root_view + "/"@, 0));
                reveal_strlit("/");
                assert(root_view.len() + 1 <= f.len());
            }
            let rel = file.as_str().substring_char(root_len + 1, file_len).to_owned();
            let ghost class_files_pre = files.deep_view().subrange(0, i as int).filter(pred);
            let ghost rels_pre = rel_targets(root_view, class_files_pre);
            let ghost class_files_new = files.deep_view().subrange(0, i + 1).filter(pred);
            let ghost rels_new = rel_targets(root_view, class_files_new);
            proof {
                assert(class_files_new =~~= class_files_pre.push(f));
                assert(rels_new =~~= rels_pre.push(rel@));
            }
            // conflict check against everything already occupied
            let m = targets.len();
            let mut t: usize = 0;
            while t < m
                invariant
                    m == targets@.len(),
                    0 <= t <= m,
                    forall|q: int| 0 <= q < t ==> targets.deep_view()[q] != rel@,
                decreases m - t,
            {
                if crate::strutil::str_eq(targets[t].as_str(), rel.as_str()) {
                    proof {
                        assert(targets.deep_view()[t as int] == rel@);
                        assert(rels_new[rels_new.len() - 1] == rel@);
                        if t < existing.len() {
                            assert(existing[t as int] == rel@);
                            assert(has_conflict(existing, rels_new));
                        } else {
                            assert(rels_pre[t - existing.len()] == rel@);
                            assert(rels_new[t - existing.len()] == rel@);
                            assert(t - existing.len() < rels_new.len() - 1);
                            assert(has_conflict(existing, rels_new));
                        }
                        lemma_conflict_monotonic(
                            existing,
                            root_view,
                            files.deep_view(),
                            pred,
                            i + 1,
                        );
                    }
                    return Err(
                        BuildError::Merge {
                            detail: String::from_str("class path collision: ").concat(
                                rel.as_str(),
                            ),
                        },
                    );
                }
                t += 1;
            }
            let to = build_dir.clone().concat("/").concat(rel.as_str());
            let ghost copies_prev = copies@;
            let ghost targets_prev = targets.deep_view();
            copies.push(CopyOperation { from: file.clone(), to });
            targets.push(rel);
            proof {
                assert(targets.deep_view() =~~= targets_prev.push(rel@));
                assert(targets.deep_view() =~~= existing + rels_new);
                assert(!has_conflict(existing, rels_new)) by {
                    if exists|a: int, b: int|
                        0 <= a < b < rels_new.len() && rels_new[a] == rels_new[b] {
                        let (a, b) = choose|a: int, b: int|
                            0 <= a < b < rels_new.len() && rels_new[a] == rels_new[b];
                        if b < rels_new.len() - 1 {
                            assert(rels_pre[a] == rels_new[a] && rels_pre[b] == rels_new[b]);
                            assert(has_conflict(existing, rels_pre));
                        } else {
                            assert(rels_new[a] == rel@);
                            assert(targets_prev[existing.len() + a] == rels_pre[a]);
                            assert(rels_pre[a] == rels_new[a]);
                        }
                    }
                    if exists|a: int, k: int|
                        0 <= a < rels_new.len() && 0 <= k < existing.len() && rels_new[a]
                            == existing[k] {
                        let (a, k) = choose|a: int, k: int|
                            0 <= a < rels_new.len() && 0 <= k < existing.len() && rels_new[a]
                                == existing[k];
                        if a < rels_new.len() - 1 {
                            assert(rels_pre[a] == rels_new[a]);
                            assert(has_conflict(existing, rels_pre));
                        } else {
                            assert(rels_new[a] == rel@);
                            assert(targets_prev[k] == existing[k]);
                        }
                    }
                }
            }
        }
        i += 1;
    }
    proof {
        assert(files.deep_view().subrange(0, n as int) =~~= files.deep_view());
    }
    Ok(MergePlan { copies, targets })
}

/// A conflict among the first `i` class files is a conflict of the whole
/// list: growing the list never removes one.
proof fn lemma_conflict_monotonic(
    existing: Seq<Seq<char>>,
    root: Seq<char>,
    files: Seq<Seq<char>>,
    pred: spec_fn(Seq<char>) -> bool,
    i: int,
)
    requires
        0 <= i <= files.len(),
        pred == (|f: Seq<char>| has_suffix(f, ".class"@)),
        has_conflict(existing, rel_targets(root, files.subrange(0, i).filter(pred))),
    ensures
        has_conflict(existing, rel_targets(root, files.filter(pred))),
{
    let head = files.subrange(0, i);
    let tail = files.subrange(i, files.len() as int);
    assert(files =~= head + tail);
    Seq::<Seq<char>>::filter_distributes_over_add(head, tail, pred);
    let rels_head = rel_targets(root, head.filter(pred));
    let rels_all = rel_targets(root, files.filter(pred));
    assert(forall|k: int| 0 <= k < rels_head.len() ==> rels_all[k] == rels_head[k]);
    if exists|a: int, b: int| 0 <= a < b < rels_head.len() && rels_head[a] == rels_head[b] {
        let (a, b) = choose|a: int, b: int|
            0 <= a < b < rels_head.len() && rels_head[a] == rels_head[b];
        assert(rels_all[a] == rels_all[b]);
    } else {
        let (a, k) = choose|a: int, k: int|
            0 <= a < rels_head.len() && 0 <= k < existing.len() && rels_head[a] == existing[k];
        assert(rels_all[a] == existing[k]);
    }
}


/// Extraction is idempotent at the planning level: one checksum is always
/// unpacked by the same command into the same directory, so extracting it
/// again re-unpacks the same archive in place instead of creating a second
/// copy.
pub proof fn lemma_extraction_idempotent(
    p_ctx: ProjectContext,
    tc_ctx: ToolchainContext,
    first: StateLockFileDependency,
    again: StateLockFileDependency,
)
    requires
        first.checksum@ == again.checksum@,
    ensures
        crate::cache::extraction_path_of(
            p_ctx.absolute_paths.dependencies_extracted@,
            first.checksum@,
        ) == crate::cache::extraction_path_of(
            p_ctx.absolute_paths.dependencies_extracted@,
            again.checksum@,
        ),
        crate::toolchain::extract_command_of(
            tc_ctx.packager_path@,
            p_ctx.absolute_paths.dependencies@,
            first.checksum@ + ".jar"@,
        ) == crate::toolchain::extract_command_of(
            tc_ctx.packager_path@,
            p_ctx.absolute_paths.dependencies@,
            again.checksum@ + ".jar"@,
        ),
{
}

} // verus!
