//! Discovery of compiled units inside an extracted dependency archive:
//! which files are class files, and where each sits relative to the
//! extraction root.

use vstd::prelude::*;

use crate::context::ProjectContext;
use crate::error::BuildError;
use crate::lock::StateLockFileDependency;
use crate::strutil::{has_suffix, matches_at};

verus! {

/// Represents one extracted class of a dependency.
pub struct ExtractedClass {
    /// The absolute path of the directory containing the extracted class.
    pub containing_directory_absolute_path: String,
    /// The package-relative path of the directory containing the class.
    pub containing_directory_relative_path: String,
    /// The class name, without its extension.
    pub name: String,
    /// The absolute path of the class file itself.
    pub path: String,
}

/// The position of the last `/` in `f`, or `-1` when there is none.
pub open spec fn last_slash(f: Seq<char>) -> int
    decreases f.len(),
{
    if f.len() == 0 {
        -1
    } else if f.last() == '/' {
        f.len() - 1
    } else {
        last_slash(f.drop_last())
    }
}

proof fn lemma_last_slash(f: Seq<char>)
    ensures
        -1 <= last_slash(f) < f.len(),
        last_slash(f) >= 0 ==> f[last_slash(f)] == '/',
        forall|j: int| last_slash(f) < j < f.len() ==> f[j] != '/',
    decreases f.len(),
{
    if f.len() > 0 && f.last() != '/' {
        lemma_last_slash(f.drop_last());
        assert forall|j: int| last_slash(f) < j < f.len() implies f[j] != '/' by {
            if j < f.len() - 1 {
                assert(f.drop_last()[j] == f[j]);
            }
        }
        if last_slash(f) >= 0 {
            assert(f.drop_last()[last_slash(f)] == f[last_slash(f)]);
        }
    }
}

/// The directory of a class file: everything before the last `/`.
pub open spec fn class_dir_abs(f: Seq<char>) -> Seq<char> {
    f.subrange(0, last_slash(f))
}

/// The class file's name, between the last `/` and the extension.
pub open spec fn class_name_of(f: Seq<char>) -> Seq<char> {
    f.subrange(last_slash(f) + 1, f.len() - 6)
}

/// The directory of a class file relative to the extraction root, without
/// leading or trailing `/`; empty for a class at the root itself.
pub open spec fn class_dir_rel(root: Seq<char>, f: Seq<char>) -> Seq<char> {
    if last_slash(f) == root.len() {
        Seq::empty()
    } else {
        f.subrange(root.len() + 1 as int, last_slash(f))
    }
}

/// Every file lies under `root`: it starts with `root` and a separator.
pub open spec fn files_under(files: Seq<Seq<char>>, root: Seq<char>) -> bool {
    forall|i: int| 0 <= i < files.len() ==> matches_at(#[trigger] files[i], root + "/"@, 0)
}

/// Gets the extracted classes of a dependency out of the files found under
/// its extraction directory: exactly the files ending in `.class`, each
/// broken into its directory, package-relative directory and bare name.
pub fn get(p_ctx: &ProjectContext, dependency: &StateLockFileDependency, files: &Vec<String>) -> (r:
    Result<Vec<ExtractedClass>, BuildError>)
    requires
        files_under(
            files.deep_view(),
            crate::cache::extraction_path_of(
                p_ctx.absolute_paths.dependencies_extracted@,
                dependency.checksum@,
            ),
        ),
    ensures
        r matches Ok(classes) && ({
            let root = crate::cache::extraction_path_of(
                p_ctx.absolute_paths.dependencies_extracted@,
                dependency.checksum@,
            );
            let class_files = files.deep_view().filter(
                |f: Seq<char>| has_suffix(f, ".class"@),
            );
            &&& classes@.len() == class_files.len()
            &&& forall|k: int|
                0 <= k < classes@.len() ==> {
                    let c = #[trigger] classes@[k];
                    &&& c.path@ == class_files[k]
                    &&& c.containing_directory_absolute_path@ == class_dir_abs(class_files[k])
                    &&& c.containing_directory_relative_path@ == class_dir_rel(
                        root,
                        class_files[k],
                    )
                    &&& c.name@ == class_name_of(class_files[k])
                }
        }),
{
    let root = crate::cache::extraction_path(
        &p_ctx.absolute_paths,
        dependency.checksum.as_str(),
    );
    let root_len = root.as_str().unicode_len();
    let n = files.len();
    let ghost pred = |f: Seq<char>| has_suffix(f, ".class"@);
    let ghost root_view = root@;
    let mut out: Vec<ExtractedClass> = Vec::new();
    let mut i: usize = 0;
    while i < n
        invariant
            n == files@.len(),
            0 <= i <= n,
            root_len == root_view.len(),
            root_view == crate::cache::extraction_path_of(
                p_ctx.absolute_paths.dependencies_extracted@,
                dependency.checksum@,
            ),
            files_under(files.deep_view(), root_view),
            pred == (|f: Seq<char>| has_suffix(f, ".class"@)),
            ({
                let class_files = files.deep_view().subrange(0, i as int).filter(pred);
                &&& out@.len() == class_files.len()
                &&& forall|k: int|
                    0 <= k < out@.len() ==> {
                        let c = #[trigger] out@[k];
                        &&& c.path@ == class_files[k]
                        &&& c.containing_directory_absolute_path@ == class_dir_abs(class_files[k])
                        &&& c.containing_directory_relative_path@ == class_dir_rel(
                            root_view,
                            class_files[k],
                        )
                        &&& c.name@ == class_name_of(class_files[k])
                    }
            }),
        decreases n - i,
    {
        proof {
            let pre = files.deep_view().subrange(0, i as int);
            let one = seq![files.deep_view()[i as int]];
            assert(files.deep_view().subrange(0, i + 1) =~~= pre + one);
            Seq::<Seq<char>>::filter_distributes_over_add(pre, one, pred);
            reveal_with_fuel(Seq::<_>::filter, 2);
            assert(one.drop_last() =~= Seq::<Seq<char>>::empty());
        }
        let file = &files[i];
        let file_len = file.as_str().unicode_len();
        if crate::strutil::ends_with_str(file.as_str(), ".class") {
            let ghost f = files.deep_view()[i as int];
            proof {
                lemma_last_slash(f);
                reveal_strlit(".class");
                reveal_strlit("/");
                assert(matches_at(f, root_view + "/"@, 0));
                assert(f.subrange(0, root_view.len() + 1 as int) == root_view + "/"@);
                assert(f.subrange(0, root_view.len() + 1 as int)[root_view.len() as int] == f[(
                root_view.len() as int)]);
                assert((root_view + "/"@)[root_view.len() as int] == '/');
                assert(f[root_view.len() as int] == '/');
                // the last slash cannot sit inside the `.class` suffix
                assert(f.subrange(f.len() - 6, f.len() as int) == ".class"@);
                assert forall|j: int| f.len() - 6 <= j < f.len() implies f[j] != '/' by {
                    assert(f.subrange(f.len() - 6, f.len() as int)[j - (f.len() - 6)] == f[j]);
                }
                assert(last_slash(f) >= root_view.len());
                assert(last_slash(f) < f.len() - 6);
            }
            let ls = match crate::strutil::find_last_char(file.as_str(), '/') {
                Some(v) => v,
                None => {
                    proof {
                        assert(false);
                    }
                    0
                },
            };
            proof {
                assert(last_slash(f) == ls) by {
                    if last_slash(f) < ls {
                    } else if ls < last_slash(f) {
                    }
                }
            }
            let abs_dir = file.as_str().substring_char(0, ls).to_owned();
            let rel_dir = if ls == root_len {
                String::new()
            } else {
                file.as_str().substring_char(root_len + 1, ls).to_owned()
            };
            let name = file.as_str().substring_char(ls + 1, file_len - 6).to_owned();
            out.push(
                ExtractedClass {
                    containing_directory_absolute_path: abs_dir,
                    containing_directory_relative_path: rel_dir,
                    name,
                    path: file.clone(),
                },
            );
        }
        i += 1;
    }
    proof {
        assert(files.deep_view().subrange(0, n as int) =~~= files.deep_view());
    }
    Ok(out)
}

} // verus!
