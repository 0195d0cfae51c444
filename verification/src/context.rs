//! Project context: every filesystem location the pipeline uses, derived
//! from the project root, plus the loaded manifest and lock file.

use vstd::prelude::*;

use crate::lock::StateLockFile;
use crate::project::Config;
use crate::strutil::replace_chars;

verus! {

/// Contains absolute paths to critical resources within the currently
/// loaded project, each a fixed suffix of the project root.
#[derive(Debug, Clone)]
pub struct AbsoltuePaths {
    /// Path to the currently loaded project's directory.
    pub project: String,
    /// Path to the source tree within the currently loaded project.
    pub source: String,
    /// Path to the manifest file within the currently loaded project.
    pub config: String,
    /// Path to the directory holding inner working files.
    pub inner_workings: String,
    /// Path to the directory of downloaded dependency artifacts.
    pub dependencies: String,
    /// Path to the directory of extracted dependency archives.
    pub dependencies_extracted: String,
    /// Path to the lock file within the currently loaded project.
    pub state_lockfile: String,
}

/// Contains absolute paths determined only at runtime, from the manifest.
#[derive(Debug, Clone)]
pub struct DynamicAbsolutePaths {
    /// Path to the base package under the source tree, where the main
    /// source file lives.
    pub base_package: String,
}

/// The context of the currently loaded project.
#[derive(Debug, Clone)]
pub struct ProjectContext {
    /// The loaded project manifest.
    pub config: Config,
    /// The loaded lock file.
    pub state_lock_file: StateLockFile,
    /// Paths whose suffixes are fixed.
    pub absolute_paths: AbsoltuePaths,
    /// Paths that depend on the manifest.
    pub dynamic_absolute_paths: DynamicAbsolutePaths,
    /// Whether the debug switch redirects the project into an isolated
    /// subdirectory.
    pub debug_mode: bool,
}

/// Whether the debug environment switch is on: exactly when the variable is
/// set to `1`.
pub fn get_debug_mode(env_value: &Option<String>) -> (r: bool)
    ensures
        r == (env_value matches Some(v) && v@ == "1"@),
{
    match env_value {
        Some(v) => crate::strutil::str_eq(v.as_str(), "1"),
        None => false,
    }
}

/// The project root: the working directory, redirected into an isolated
/// subdirectory when the debug switch is on.
pub open spec fn project_root_of(cwd: Seq<char>, debug_mode: bool) -> Seq<char> {
    if debug_mode {
        cwd + "/espresso_debug"@
    } else {
        cwd
    }
}

/// Derives every fixed project path from the working directory.
pub fn get_absolute_paths(cwd: &str, debug_mode: bool) -> (r: AbsoltuePaths)
    ensures
        r.project@ == project_root_of(cwd@, debug_mode),
        r.source@ == project_root_of(cwd@, debug_mode) + "/src/java"@,
        r.config@ == project_root_of(cwd@, debug_mode) + "/espresso.toml"@,
        r.inner_workings@ == project_root_of(cwd@, debug_mode) + "/.espresso"@,
        r.dependencies@ == project_root_of(cwd@, debug_mode) + "/.espresso/dependencies"@,
        r.dependencies_extracted@ == project_root_of(cwd@, debug_mode)
            + "/.espresso/dependencies_extracted"@,
        r.state_lockfile@ == project_root_of(cwd@, debug_mode) + "/.espresso/state.lock.toml"@,
{
    let root = if debug_mode {
        String::from_str(cwd).concat("/espresso_debug")
    } else {
        String::from_str(cwd)
    };
    AbsoltuePaths {
        project: root.clone(),
        source: root.clone().concat("/src/java"),
        config: root.clone().concat("/espresso.toml"),
        inner_workings: root.clone().concat("/.espresso"),
        dependencies: root.clone().concat("/.espresso/dependencies"),
        dependencies_extracted: root.clone().concat("/.espresso/dependencies_extracted"),
        state_lockfile: root.concat("/.espresso/state.lock.toml"),
    }
}

/// The base package directory under the source tree: the package in dot
/// notation mapped to its filesystem form.
pub open spec fn base_package_dir_of(source: Seq<char>, base_package: Seq<char>) -> Seq<char> {
    source + "/"@ + replace_chars(base_package, '.', '/')
}

/// Derives the runtime-determined paths from the manifest.
pub fn get_dynamic_absolute_paths(ap: &AbsoltuePaths, config: &Config) -> (r: DynamicAbsolutePaths)
    ensures
        r.base_package@ == base_package_dir_of(ap.source@, config.project.base_package@),
{
    let slashed = crate::strutil::replace_char(config.project.base_package.as_str(), '.', '/');
    let base_package = ap.source.clone().concat("/").concat(slashed.as_str());
    DynamicAbsolutePaths { base_package }
}

/// Assembles the context of a loaded project from its parts; the caller
/// loads the manifest and lock file from disk beforehand.
pub fn get_project_context(config: Config, state_lock_file: StateLockFile, absolute_paths: AbsoltuePaths, debug_mode: bool) -> (r: ProjectContext)
    ensures
        r.config == config,
        r.state_lock_file == state_lock_file,
        r.absolute_paths == absolute_paths,
        r.debug_mode == debug_mode,
        r.dynamic_absolute_paths.base_package@ == base_package_dir_of(
            absolute_paths.source@,
            config.project.base_package@,
        ),
{
    let dynamic_absolute_paths = get_dynamic_absolute_paths(&absolute_paths, &config);
    ProjectContext { config, state_lock_file, absolute_paths, dynamic_absolute_paths, debug_mode }
}

} // verus!
