//! The toolchain orchestrator's pure half: resolving the toolchain root,
//! discovering sources, and building the exact argument vectors for the
//! compiler, packager and runtime. The caller spawns the processes and
//! reports their exit status back to the pipeline.

use vstd::prelude::*;

use crate::context::ProjectContext;
use crate::error::BuildError;
use crate::strutil::{contains_seq, contains_substr, filter_by_suffix, has_suffix, replace_chars};

verus! {

/// Represents the current Java toolchain.
#[derive(Debug, Clone)]
pub struct ToolchainContext {
    /// Path to the compiler executable.
    pub compiler_path: String,
    /// Path to the runtime executable.
    pub runtime_path: String,
    /// Path to the packager executable.
    pub packager_path: String,
    /// Path to the toolchain root directory.
    pub toolchain_path: String,
}

/// The view of an optional environment value.
pub open spec fn opt_chars(o: Option<String>) -> Option<Seq<char>> {
    match o {
        Some(v) => Some(v@),
        None => None,
    }
}

/// The configured toolchain root with its placeholder expanded: where the
/// root holds the placeholder and the environment supplies a value, that
/// value; otherwise the configured root, unresolved.
pub open spec fn expanded_toolchain_path(
    toolchain_path: Seq<char>,
    java_home: Option<Seq<char>>,
) -> Seq<char> {
    if contains_seq(toolchain_path, "${JAVA_HOME}"@) && java_home is Some {
        java_home->0
    } else {
        toolchain_path
    }
}

/// Expands the toolchain root against the environment-supplied home, if
/// any; an unresolved placeholder is not an error here but is left for
/// invocation time.
pub fn get_expanded_toolchain_path(toolchain_path: &String, java_home: &Option<String>) -> (r:
    String)
    ensures
        r@ == expanded_toolchain_path(toolchain_path@, opt_chars(*java_home)),
{
    if contains_substr(toolchain_path.as_str(), "${JAVA_HOME}") {
        match java_home {
            Some(v) => v.clone(),
            None => toolchain_path.clone(),
        }
    } else {
        toolchain_path.clone()
    }
}

/// Resolves the three toolchain executables under the expanded root.
pub fn get_toolchain_context(p_ctx: &ProjectContext, java_home: &Option<String>) -> (r:
    ToolchainContext)
    ensures
        ({
            let root = expanded_toolchain_path(
                p_ctx.config.toolchain.path@,
                opt_chars(*java_home),
            );
            &&& r.toolchain_path@ == root
            &&& r.compiler_path@ == root + "/bin/javac"@
            &&& r.runtime_path@ == root + "/bin/java"@
            &&& r.packager_path@ == root + "/bin/jar"@
        }),
{
    let toolchain_path = get_expanded_toolchain_path(&p_ctx.config.toolchain.path, java_home);
    let compiler_path = toolchain_path.clone().concat("/bin/javac");
    let runtime_path = toolchain_path.clone().concat("/bin/java");
    let packager_path = toolchain_path.clone().concat("/bin/jar");
    ToolchainContext { compiler_path, runtime_path, packager_path, toolchain_path }
}

/// The Java sources among the discovered files: exactly those ending in
/// `.java`, in input order. An empty result is valid and aborts nothing.
pub fn get_java_source_files(files: &Vec<String>) -> (r: Vec<String>)
    ensures
        r.deep_view() == files.deep_view().filter(|s: Seq<char>| has_suffix(s, ".java"@)),
{
    filter_by_suffix(files, ".java")
}

/// The build output directory.
pub open spec fn build_dir_of(project: Seq<char>) -> Seq<char> {
    project + "/build"@
}

/// Where the packaged artifact goes.
pub open spec fn artifact_jar_of(project: Seq<char>) -> Seq<char> {
    project + "/build/artifact.jar"@
}

/// Where the build manifest goes.
pub open spec fn build_manifest_path_of(project: Seq<char>) -> Seq<char> {
    project + "/build/MANIFEST.MF"@
}

/// The compiler's argument vector: one batched invocation over all
/// sources, so the compile step succeeds or fails as a whole.
pub open spec fn compile_command_of(
    compiler: Seq<char>,
    sources: Seq<Seq<char>>,
    project: Seq<char>,
) -> Seq<Seq<char>> {
    seq![compiler] + sources + seq![
        "-d"@,
        build_dir_of(project),
        "-cp"@,
        build_dir_of(project),
    ]
}

/// Builds the compiler's argument vector for one batched invocation of all
/// Java sources, writing class files to the build directory with the build
/// directory itself as the classpath.
pub fn compile_project(java_files: &Vec<String>, p_ctx: &ProjectContext, tc_ctx: &ToolchainContext) -> (r:
    Vec<String>)
    ensures
        r.deep_view() == compile_command_of(
            tc_ctx.compiler_path@,
            java_files.deep_view(),
            p_ctx.absolute_paths.project@,
        ),
{
    let n = java_files.len();
    let mut r: Vec<String> = Vec::new();
    r.push(tc_ctx.compiler_path.clone());
    let mut i: usize = 0;
    while i < n
        invariant
            n == java_files@.len(),
            0 <= i <= n,
            r.deep_view() =~= seq![tc_ctx.compiler_path@] + java_files.deep_view().subrange(
                0,
                i as int,
            ),
        decreases n - i,
    {
        let ghost r_prev = r.deep_view();
        r.push(java_files[i].clone());
        proof {
            assert(r.deep_view() =~~= r_prev.push(java_files.deep_view()[i as int]));
            assert(r.deep_view() =~~= seq![tc_ctx.compiler_path@]
                + java_files.deep_view().subrange(0, i + 1));
        }
        i += 1;
    }
    assert(java_files.deep_view().subrange(0, n as int) =~= java_files.deep_view());
    let build_dir = p_ctx.absolute_paths.project.clone().concat("/build");
    r.push(String::from_str("-d"));
    r.push(build_dir.clone());
    r.push(String::from_str("-cp"));
    r.push(build_dir);
    assert(r.deep_view() =~= compile_command_of(
        tc_ctx.compiler_path@,
        java_files.deep_view(),
        p_ctx.absolute_paths.project@,
    ));
    r
}

/// The build manifest for the packaged artifact: it names the entry-point
/// class derived from the base package.
pub open spec fn manifest_of(base_package: Seq<char>) -> Seq<char> {
    "Main-Class: "@ + base_package + ".Main\nManifest-Version: 1.0\n"@
}

/// Renders the build manifest for the artifact.
pub fn get_manifest(p_ctx: &ProjectContext) -> (r: String)
    ensures
        r@ == manifest_of(p_ctx.config.project.base_package@),
{
    String::from_str("Main-Class: ").concat(p_ctx.config.project.base_package.as_str()).concat(
        ".Main\nManifest-Version: 1.0\n",
    )
}

/// The packager's argument vector, run from the build directory.
pub open spec fn package_command_of(packager: Seq<char>, base_package: Seq<char>) -> Seq<
    Seq<char>,
> {
    seq![
        packager,
        "-c"@,
        "--file=artifact.jar"@,
        "--manifest=MANIFEST.MF"@,
        replace_chars(base_package, '.', '/'),
    ]
}

/// Builds the packager's argument vector: it bundles the compiled base
/// package, relative to the build directory, into the artifact.
pub fn build_jar(p_ctx: &ProjectContext, tc_ctx: &ToolchainContext) -> (r: Vec<String>)
    ensures
        r.deep_view() == package_command_of(
            tc_ctx.packager_path@,
            p_ctx.config.project.base_package@,
        ),
{
    let relative = crate::strutil::replace_char(
        p_ctx.config.project.base_package.as_str(),
        '.',
        '/',
    );
    let mut r: Vec<String> = Vec::new();
    r.push(tc_ctx.packager_path.clone());
    r.push(String::from_str("-c"));
    r.push(String::from_str("--file=artifact.jar"));
    r.push(String::from_str("--manifest=MANIFEST.MF"));
    r.push(relative);
    assert(r.deep_view() =~= package_command_of(
        tc_ctx.packager_path@,
        p_ctx.config.project.base_package@,
    ));
    r
}

/// The runtime's argument vector, run from the build directory.
pub open spec fn run_command_of(runtime: Seq<char>, project: Seq<char>) -> Seq<Seq<char>> {
    seq![runtime, "-jar"@, artifact_jar_of(project)]
}

/// Builds the runtime's argument vector against the packaged artifact.
pub fn run_jar(p_ctx: &ProjectContext, tc_ctx: &ToolchainContext) -> (r: Vec<String>)
    ensures
        r.deep_view() == run_command_of(tc_ctx.runtime_path@, p_ctx.absolute_paths.project@),
{
    let mut r: Vec<String> = Vec::new();
    r.push(tc_ctx.runtime_path.clone());
    r.push(String::from_str("-jar"));
    r.push(p_ctx.absolute_paths.project.clone().concat("/build/artifact.jar"));
    assert(r.deep_view() =~= run_command_of(tc_ctx.runtime_path@, p_ctx.absolute_paths.project@));
    r
}

/// The extractor's argument vector for one cached archive, run from the
/// extraction directory.
pub open spec fn extract_command_of(
    packager: Seq<char>,
    dependencies_dir: Seq<char>,
    jar_name: Seq<char>,
) -> Seq<Seq<char>> {
    seq![packager, "-x"@, "--file"@, dependencies_dir + "/"@ + jar_name]
}

/// Everything needed to extract one cached archive: the directory to
/// create and run from, and the extractor's argument vector.
pub struct ExtractPlan {
    /// The extraction directory, keyed by the archive's checksum.
    pub output_dir: String,
    /// The extractor's argument vector, to run from the output directory.
    pub command: Vec<String>,
}

/// Plans the extraction of a cached dependency archive. The archive name
/// must carry the `.jar` extension; what is left is the checksum, which
/// keys the extraction directory.
pub fn extract_jar(p_ctx: &ProjectContext, tc_ctx: &ToolchainContext, jar_name: &String) -> (r:
    Result<ExtractPlan, BuildError>)
    ensures
        r is Err <==> !has_suffix(jar_name@, ".jar"@),
        r matches Err(e) ==> e == BuildError::InvalidJarName,
        r matches Ok(plan) ==> {
            let checksum = jar_name@.subrange(0, jar_name@.len() - 4);
            &&& plan.output_dir@ == crate::cache::extraction_path_of(
                p_ctx.absolute_paths.dependencies_extracted@,
                checksum,
            )
            &&& plan.command.deep_view() == extract_command_of(
                tc_ctx.packager_path@,
                p_ctx.absolute_paths.dependencies@,
                jar_name@,
            )
        },
{
    let output_dir_name = match crate::strutil::strip_suffix_str(jar_name.as_str(), ".jar") {
        Some(v) => v,
        None => {
            return Err(BuildError::InvalidJarName);
        },
    };
    proof {
        reveal_strlit(".jar");
    }
    let output_dir = crate::cache::extraction_path(&p_ctx.absolute_paths, output_dir_name.as_str());
    let mut command: Vec<String> = Vec::new();
    command.push(tc_ctx.packager_path.clone());
    command.push(String::from_str("-x"));
    command.push(String::from_str("--file"));
    command.push(
        p_ctx.absolute_paths.dependencies.clone().concat("/").concat(jar_name.as_str()),
    );
    assert(command.deep_view() =~= extract_command_of(
        tc_ctx.packager_path@,
        p_ctx.absolute_paths.dependencies@,
        jar_name@,
    ));
    Ok(ExtractPlan { output_dir, command })
}

} // verus!
