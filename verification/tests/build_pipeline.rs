use espresso::context::{get_absolute_paths, get_project_context};
use espresso::error::BuildError;
use espresso::lock::{StateLockFile, StateLockFileDependency, StateLockFileDependencySource};
use espresso::pipeline::{build, dedup_checksums, run, step, BuildAction, BuildEvent};
use espresso::project::initialize_config;
use espresso::toolchain::get_toolchain_context;

fn context_with_lock(lock: StateLockFile) -> espresso::context::ProjectContext {
    let config = initialize_config("p".to_string(), "com.me.app".to_string());
    let ap = get_absolute_paths("/w", false);
    get_project_context(config, lock, ap, false)
}

fn ok_event() -> BuildEvent {
    BuildEvent { ok: true, detail: String::new(), exit_code: 0 }
}

fn failed_event(detail: &str, exit_code: i32) -> BuildEvent {
    BuildEvent { ok: false, detail: detail.to_string(), exit_code }
}

fn dep(name: &str, checksum: &str) -> StateLockFileDependency {
    StateLockFileDependency {
        name: name.to_string(),
        checksum: checksum.to_string(),
        source: StateLockFileDependencySource::EspressoRegistry,
    }
}

#[test]
fn single_source_build_reaches_packaging_once() {
    let p_ctx = context_with_lock(StateLockFile { dependencies: Vec::new() });
    let tc_ctx = get_toolchain_context(&p_ctx, &Some("/opt/jdk".to_string()));
    let files = vec!["/w/src/java/com/me/app/Main.java".to_string()];
    let mut m = build(p_ctx, tc_ctx, &files);

    let a1 = step(&mut m, &ok_event());
    assert!(matches!(
        a1,
        BuildAction::Announce { dependency_count: 0, source_count: 1 }
    ));
    let a2 = step(&mut m, &ok_event());
    match a2 {
        BuildAction::Compile { command } => {
            assert_eq!(
                command,
                vec![
                    "/opt/jdk/bin/javac".to_string(),
                    "/w/src/java/com/me/app/Main.java".to_string(),
                    "-d".to_string(),
                    "/w/build".to_string(),
                    "-cp".to_string(),
                    "/w/build".to_string(),
                ]
            );
        }
        _ => panic!("expected the compile action"),
    }
    let a3 = step(&mut m, &ok_event());
    match a3 {
        BuildAction::WriteBuildManifest { path, content } => {
            assert_eq!(path, "/w/build/MANIFEST.MF");
            assert_eq!(content, "Main-Class: com.me.app.Main\nManifest-Version: 1.0\n");
        }
        _ => panic!("expected the manifest write"),
    }
    let a4 = step(&mut m, &ok_event());
    match a4 {
        BuildAction::RemoveOldArtifact { path } => {
            assert_eq!(path, "/w/build/artifact.jar");
        }
        _ => panic!("expected the stale artifact removal"),
    }
    let a5 = step(&mut m, &ok_event());
    match a5 {
        BuildAction::PackageArtifact { command, working_dir } => {
            assert_eq!(working_dir, "/w/build");
            assert_eq!(
                command,
                vec![
                    "/opt/jdk/bin/jar".to_string(),
                    "-c".to_string(),
                    "--file=artifact.jar".to_string(),
                    "--manifest=MANIFEST.MF".to_string(),
                    "com/me/app".to_string(),
                ]
            );
        }
        _ => panic!("expected the package action"),
    }
    let a6 = step(&mut m, &ok_event());
    assert!(matches!(a6, BuildAction::Finish));
    // the pipeline stays finished
    assert!(matches!(step(&mut m, &ok_event()), BuildAction::Finish));
}

#[test]
fn compile_failure_halts_before_packaging() {
    let p_ctx = context_with_lock(StateLockFile { dependencies: Vec::new() });
    let tc_ctx = get_toolchain_context(&p_ctx, &Some("/opt/jdk".to_string()));
    let files = vec!["/w/src/java/com/me/app/Main.java".to_string()];
    let mut m = build(p_ctx, tc_ctx, &files);

    let _announce = step(&mut m, &ok_event());
    let compile = step(&mut m, &ok_event());
    assert!(matches!(compile, BuildAction::Compile { .. }));
    let abort = step(&mut m, &failed_event("Main.java:3: error", 1));
    match abort {
        BuildAction::Abort { error: BuildError::Compile { stderr } } => {
            assert_eq!(stderr, "Main.java:3: error");
        }
        _ => panic!("expected the compile abort"),
    }
    // whatever comes next, the pipeline never reaches packaging
    for _ in 0..4 {
        let a = step(&mut m, &ok_event());
        assert!(matches!(a, BuildAction::Abort { .. }));
    }
}

#[test]
fn run_pipeline_runs_after_packaging() {
    let p_ctx = context_with_lock(StateLockFile { dependencies: Vec::new() });
    let tc_ctx = get_toolchain_context(&p_ctx, &Some("/opt/jdk".to_string()));
    let files = vec!["/w/src/java/com/me/app/Main.java".to_string()];
    let mut m = run(p_ctx, tc_ctx, &files);
    for _ in 0..5 {
        step(&mut m, &ok_event());
    }
    let run_action = step(&mut m, &ok_event());
    match run_action {
        BuildAction::RunArtifact { command, working_dir } => {
            assert_eq!(working_dir, "/w/build");
            assert_eq!(
                command,
                vec![
                    "/opt/jdk/bin/java".to_string(),
                    "-jar".to_string(),
                    "/w/build/artifact.jar".to_string(),
                ]
            );
        }
        _ => panic!("expected the run action"),
    }
    // a failed run is reported but the artifact stays
    let report = step(&mut m, &failed_event("boom", 3));
    assert!(matches!(
        report,
        BuildAction::Report { error: BuildError::Runtime { exit_code: 3 } }
    ));
    assert!(matches!(step(&mut m, &ok_event()), BuildAction::Finish));
}

#[test]
fn packaging_failure_aborts_the_pipeline() {
    let p_ctx = context_with_lock(StateLockFile { dependencies: Vec::new() });
    let tc_ctx = get_toolchain_context(&p_ctx, &Some("/opt/jdk".to_string()));
    let files = vec!["/w/src/java/com/me/app/Main.java".to_string()];
    let mut m = build(p_ctx, tc_ctx, &files);
    for _ in 0..4 {
        step(&mut m, &ok_event());
    }
    let package = step(&mut m, &ok_event());
    assert!(matches!(package, BuildAction::PackageArtifact { .. }));
    let abort = step(&mut m, &failed_event("jar: no such directory", 1));
    match abort {
        BuildAction::Abort { error: BuildError::Package { stderr } } => {
            assert_eq!(stderr, "jar: no such directory");
        }
        _ => panic!("expected the package abort"),
    }
}

#[test]
fn shared_checksums_are_extracted_once() {
    let deps = vec![dep("org.a:x", "c0ffee"), dep("org.b:y", "c0ffee"), dep("org.c:z", "dead")];
    let checksums = dedup_checksums(&deps);
    assert_eq!(checksums, vec!["c0ffee".to_string(), "dead".to_string()]);
}

#[test]
fn dependencies_extract_then_merge_in_order() {
    let lock = StateLockFile {
        dependencies: vec![dep("org.a:x", "aa"), dep("org.b:y", "aa"), dep("org.c:z", "bb")],
    };
    let p_ctx = context_with_lock(lock);
    let tc_ctx = get_toolchain_context(&p_ctx, &Some("/opt/jdk".to_string()));
    let files: Vec<String> = Vec::new();
    let mut m = build(p_ctx, tc_ctx, &files);

    let announce = step(&mut m, &ok_event());
    assert!(matches!(
        announce,
        BuildAction::Announce { dependency_count: 2, source_count: 0 }
    ));
    let e1 = step(&mut m, &ok_event());
    match e1 {
        BuildAction::Extract { working_dir, .. } => {
            assert_eq!(working_dir, "/w/.espresso/dependencies_extracted/aa");
        }
        _ => panic!("expected the first extraction"),
    }
    let e2 = step(&mut m, &ok_event());
    match e2 {
        BuildAction::Extract { command, working_dir } => {
            assert_eq!(working_dir, "/w/.espresso/dependencies_extracted/bb");
            assert_eq!(command[3], "/w/.espresso/dependencies/bb.jar");
        }
        _ => panic!("expected the second extraction"),
    }
    let m1 = step(&mut m, &ok_event());
    assert!(matches!(m1, BuildAction::Merge { checksum } if checksum == "aa"));
    let m2 = step(&mut m, &ok_event());
    assert!(matches!(m2, BuildAction::Merge { checksum } if checksum == "bb"));
    // with nothing to compile, the pipeline moves on without aborting
    let next = step(&mut m, &ok_event());
    assert!(matches!(next, BuildAction::WriteBuildManifest { .. }));
}

#[test]
fn extraction_failure_carries_the_dependency_identity() {
    let lock = StateLockFile { dependencies: vec![dep("org.a:x", "aa")] };
    let p_ctx = context_with_lock(lock);
    let tc_ctx = get_toolchain_context(&p_ctx, &Some("/opt/jdk".to_string()));
    let files: Vec<String> = Vec::new();
    let mut m = build(p_ctx, tc_ctx, &files);
    step(&mut m, &ok_event());
    let extract = step(&mut m, &ok_event());
    assert!(matches!(extract, BuildAction::Extract { .. }));
    let abort = step(&mut m, &failed_event("archive damaged", 1));
    match abort {
        BuildAction::Abort { error: BuildError::Extract { dependency } } => {
            assert_eq!(dependency, "aa");
        }
        _ => panic!("expected the extraction abort"),
    }
}
