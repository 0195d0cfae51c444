//! The project manifest: its data model, existence check, and
//! initialization of a fresh project (manifest, lock file and seed source
//! tree), all as pure values that the caller persists.

use vstd::prelude::*;

use crate::context::AbsoltuePaths;
use crate::error::BuildError;
use crate::lock::{initialize_state_lockfile, StateLockFile};
use crate::strutil::{all_blank, is_all_blank, remove_newlines, strip_newlines};

verus! {

/// One declared dependency: a name bound to a registry version, or, for
/// filesystem dependencies, to a path.
#[derive(Debug, Clone)]
pub struct DependencyEntry {
    /// The dependency name.
    pub name: String,
    /// The registry version, or the filesystem path, the name is bound to.
    pub value: String,
}

/// Represents information about the currently loaded project.
#[derive(Debug, Clone)]
pub struct Project {
    /// Name of the project.
    pub name: String,
    /// Version of the project.
    pub version: String,
    /// Java base package in dot notation.
    pub base_package: String,
}

/// Represents toolchain information.
#[derive(Debug, Clone)]
pub struct Toolchain {
    /// Path to the JDK toolchain; may hold an environment placeholder.
    pub path: String,
}

/// Represents the project manifest file.
#[derive(Debug, Clone)]
pub struct Config {
    pub project: Project,
    pub toolchain: Toolchain,
    /// Dependencies from the package registry: name to version.
    pub dependencies: Vec<DependencyEntry>,
    /// Dependencies located on the filesystem: name to path.
    pub dependencies_fs: Vec<DependencyEntry>,
}

/// No two entries of one dependency list bind the same name.
pub open spec fn deps_unique(deps: Seq<DependencyEntry>) -> bool {
    forall|i: int, j: int| 0 <= i < j < deps.len() ==> deps[i].name@ != deps[j].name@
}

/// The manifest's dependency names are unique within each map.
pub open spec fn config_well_formed(config: Config) -> bool {
    &&& deps_unique(config.dependencies@)
    &&& deps_unique(config.dependencies_fs@)
}

/// Some entry of a dependency list binds `name`.
pub open spec fn seq_has_dep_name(deps: Seq<DependencyEntry>, name: Seq<char>) -> bool {
    exists|i: int| 0 <= i < deps.len() && deps[i].name@ == name
}

/// The lock file binds exactly the dependency names the manifest declares:
/// anything else indicates a crashed or partial write.
pub open spec fn state_consistent(config: Config, slf: StateLockFile) -> bool {
    forall|n: Seq<char>|
        crate::lock::lock_seq_has_name(slf.dependencies@, n) <==> seq_has_dep_name(
            config.dependencies@,
            n,
        ) || seq_has_dep_name(config.dependencies_fs@, n)
}

/// User input with newlines removed, or the default where the input is
/// empty or whitespace-only.
pub open spec fn processed_input(x: Seq<char>, default: Seq<char>) -> Seq<char> {
    if all_blank(x) {
        default
    } else {
        strip_newlines(x)
    }
}

/// Sanitizes one line of user input: strips newlines, and falls back to
/// the default where the input is empty or holds nothing but whitespace.
pub fn process_input(x: String, default: String) -> (r: String)
    ensures
        r@ == processed_input(x@, default@),
{
    if is_all_blank(x.as_str()) {
        return default;
    }
    remove_newlines(x.as_str())
}

/// A fresh manifest: sanitized name and base package, with empty or
/// whitespace-only input replaced by the fixed defaults, version 1.0.0, a
/// placeholder toolchain root, and no dependencies.
pub fn initialize_config(name: String, base_package: String) -> (r: Config)
    ensures
        r.project.name@ == processed_input(name@, "My Espresso Project"@),
        r.project.version@ == "1.0.0"@,
        r.project.base_package@ == processed_input(base_package@, "com.me.myespressoproject"@),
        r.toolchain.path@ == "${JAVA_HOME}"@,
        r.dependencies@.len() == 0,
        r.dependencies_fs@.len() == 0,
        config_well_formed(r),
{
    Config {
        project: Project {
            name: process_input(name, String::from_str("My Espresso Project")),
            version: String::from_str("1.0.0"),
            base_package: process_input(base_package, String::from_str("com.me.myespressoproject")),
        },
        toolchain: Toolchain { path: String::from_str("${JAVA_HOME}") },
        dependencies: Vec::new(),
        dependencies_fs: Vec::new(),
    }
}

/// Input without newlines that holds at least one non-whitespace
/// character passes through initialization unchanged.
pub proof fn lemma_initialize_input_passthrough(x: Seq<char>, default: Seq<char>)
    requires
        exists|i: int| 0 <= i < x.len() && !crate::strutil::is_blank_char(x[i]),
        forall|i: int| 0 <= i < x.len() ==> x[i] != '\n',
    ensures
        processed_input(x, default) == x,
{
    let pred = |c: char| c != '\n';
    assert(strip_newlines(x) =~= x) by {
        lemma_filter_all(x, pred);
    }
}

proof fn lemma_filter_all(s: Seq<char>, pred: spec_fn(char) -> bool)
    requires
        forall|i: int| 0 <= i < s.len() ==> pred(s[i]),
    ensures
        s.filter(pred) =~= s,
    decreases s.len(),
{
    reveal_with_fuel(Seq::<_>::filter, 1);
    if s.len() > 0 {
        lemma_filter_all(s.drop_last(), pred);
        assert(s.drop_last().push(s.last()) =~= s);
    }
}

/// A project is present exactly when both the source tree and the manifest
/// file are there; either alone does not count, so initialization is never
/// silently skipped.
pub fn is_project_present(source_exists: bool, config_exists: bool) -> (r: bool)
    ensures
        r == (source_exists && config_exists),
{
    source_exists && config_exists
}

/// Whether a project exists at the paths given: probes the filesystem for
/// the source tree and the manifest file and requires both.
pub fn does_exist(ap: &AbsoltuePaths) -> bool {
    let source_exists = crate::pathutil::does_path_exist(&ap.source);
    let config_exists = crate::pathutil::does_path_exist(&ap.config);
    is_project_present(source_exists, config_exists)
}

/// The seed `Main.java` for a fresh project with the given base package.
pub open spec fn main_java_of(base_package: Seq<char>) -> Seq<char> {
    "package "@ + base_package
        + ";\nimport java.lang.System;\n\npublic class Main {\n    public static void main(String[] args) {\n        System.out.println(\"Hello, world!\");\n    }\n}"@
}

/// Renders the seed `Main.java` content for a base package.
pub fn main_java_content(base_package: &str) -> (r: String)
    ensures
        r@ == main_java_of(base_package@),
{
    let head = String::from_str("package ");
    let tail =
        ";\nimport java.lang.System;\n\npublic class Main {\n    public static void main(String[] args) {\n        System.out.println(\"Hello, world!\");\n    }\n}";
    head.concat(base_package).concat(tail)
}

/// Everything a fresh project needs on disk: the caller creates the
/// directories, persists the manifest and lock file, and writes the seed
/// source file.
pub struct InitPlan {
    /// The manifest to persist at the manifest path.
    pub config: Config,
    /// The empty lock file to persist at the lock file path.
    pub state_lock_file: StateLockFile,
    /// The directory of the base package, under the source tree.
    pub base_package_dir: String,
    /// Where the seed source file goes.
    pub main_java_path: String,
    /// The seed source file's content.
    pub main_java_content: String,
}

/// Decides project initialization: refuses where a project already exists,
/// otherwise produces the full plan of values to persist.
pub fn initialize(name: String, base_package: String, ap: &AbsoltuePaths, source_exists: bool, config_exists: bool) -> (r: Result<
    InitPlan,
    BuildError,
>)
    ensures
        r is Err <==> source_exists && config_exists,
        r matches Err(e) ==> e == BuildError::AlreadyExists,
        r matches Ok(plan) ==> {
            let bp = processed_input(base_package@, "com.me.myespressoproject"@);
            &&& plan.config.project.name@ == processed_input(name@, "My Espresso Project"@)
            &&& plan.config.project.version@ == "1.0.0"@
            &&& plan.config.project.base_package@ == bp
            &&& plan.config.toolchain.path@ == "${JAVA_HOME}"@
            &&& plan.config.dependencies@.len() == 0
            &&& plan.config.dependencies_fs@.len() == 0
            &&& plan.state_lock_file.dependencies@.len() == 0
            &&& state_consistent(plan.config, plan.state_lock_file)
            &&& plan.base_package_dir@ == ap.source@ + "/"@ + crate::strutil::replace_chars(
                bp,
                '.',
                '/',
            )
            &&& plan.main_java_path@ == plan.base_package_dir@ + "/Main.java"@
            &&& plan.main_java_content@ == main_java_of(bp)
        },
{
    if is_project_present(source_exists, config_exists) {
        return Err(BuildError::AlreadyExists);
    }
    let config = initialize_config(name, base_package);
    let state_lock_file = initialize_state_lockfile();
    let slashed = crate::strutil::replace_char(config.project.base_package.as_str(), '.', '/');
    let base_package_dir = ap.source.clone().concat("/").concat(slashed.as_str());
    let main_java_path = base_package_dir.clone().concat("/Main.java");
    let content = main_java_content(config.project.base_package.as_str());
    Ok(
        InitPlan {
            config,
            state_lock_file,
            base_package_dir,
            main_java_path,
            main_java_content: content,
        },
    )
}

} // verus!
