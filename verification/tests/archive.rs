use espresso::class;
use espresso::context::{get_absolute_paths, get_project_context};
use espresso::lock::{initialize_state_lockfile, StateLockFileDependency,
    StateLockFileDependencySource};
use espresso::manifest::{parse, CommonFields};
use espresso::project::initialize_config;
use espresso::toolchain::{extract_jar, get_toolchain_context};
use espresso::uberjar::{copy_classes, extract};

fn context() -> espresso::context::ProjectContext {
    let config = initialize_config("p".to_string(), "com.me.app".to_string());
    let ap = get_absolute_paths("/w", false);
    let lock = initialize_state_lockfile();
    get_project_context(config, lock, ap, false)
}

fn dep(checksum: &str) -> StateLockFileDependency {
    StateLockFileDependency {
        name: "org.example:lib".to_string(),
        checksum: checksum.to_string(),
        source: StateLockFileDependencySource::EspressoRegistry,
    }
}

#[test]
fn manifest_parse_reads_key_value_lines() {
    let text = "Main-Class: com.me.app.Main\nManifest-Version: 1.0\n";
    let attrs = parse(text);
    assert_eq!(attrs.len(), 2);
    assert_eq!(attrs[0].key, "Main-Class");
    assert_eq!(attrs[0].value, "com.me.app.Main");
    assert_eq!(attrs[1].key, "Manifest-Version");
    assert_eq!(attrs[1].value, "1.0");
}

#[test]
fn manifest_parse_skips_lines_without_separator()  {
    let text = "garbage line\nAgent-Class: a.B\n\nalso:nothing\n";
    let attrs = parse(text);
    assert_eq!(attrs.len(), 1);
    assert_eq!(attrs[0].key, "Agent-Class");
    assert_eq!(attrs[0].value, "a.B");
}

#[test]
fn manifest_parse_strips_carriage_returns() {
    let text = "Main-Class: a.B\r\nPremain-Class: c.D\r\n";
    let attrs = parse(text);
    assert_eq!(attrs.len(), 2);
    assert_eq!(attrs[0].value, "a.B");
    assert_eq!(attrs[1].key, "Premain-Class");
}

#[test]
fn manifest_parse_splits_at_first_separator_only() {
    let attrs = parse("K: a: b");
    assert_eq!(attrs.len(), 1);
    assert_eq!(attrs[0].key, "K");
    assert_eq!(attrs[0].value, "a: b");
}

#[test]
fn common_fields_name_their_keys() {
    assert_eq!(CommonFields::ManifestVersion.as_str(), "Manifest-Version");
    assert_eq!(CommonFields::PreMainClass.as_str(), "Premain-Class");
    assert_eq!(CommonFields::MainClass.as_str(), "Main-Class");
    assert_eq!(CommonFields::LombokVersion.as_str(), "Lombok-Version");
    assert_eq!(CommonFields::AgentClass.as_str(), "Agent-Class");
    assert_eq!(CommonFields::CanRedefineClasses.as_str(), "Can-Redefine-Classes");
}

#[test]
fn extraction_plan_is_keyed_by_checksum() {
    let p_ctx = context();
    let tc_ctx = get_toolchain_context(&p_ctx, &Some("/opt/jdk".to_string()));
    let plan = extract(&p_ctx, &tc_ctx, &dep("c0ffee")).unwrap();
    assert_eq!(plan.output_dir, "/w/.espresso/dependencies_extracted/c0ffee");
    assert_eq!(
        plan.command,
        vec![
            "/opt/jdk/bin/jar".to_string(),
            "-x".to_string(),
            "--file".to_string(),
            "/w/.espresso/dependencies/c0ffee.jar".to_string(),
        ]
    );
}

#[test]
fn archive_names_need_the_jar_extension() {
    let p_ctx = context();
    let tc_ctx = get_toolchain_context(&p_ctx, &Some("/opt/jdk".to_string()));
    let r = extract_jar(&p_ctx, &tc_ctx, &"c0ffee.zip".to_string());
    assert!(matches!(r, Err(espresso::error::BuildError::InvalidJarName)));
}

#[test]
fn repeated_extraction_of_one_checksum_plans_identically() {
    let p_ctx = context();
    let tc_ctx = get_toolchain_context(&p_ctx, &Some("/opt/jdk".to_string()));
    let first = extract(&p_ctx, &tc_ctx, &dep("c0ffee")).unwrap();
    let again = extract(&p_ctx, &tc_ctx, &dep("c0ffee")).unwrap();
    assert_eq!(first.output_dir, again.output_dir);
    assert_eq!(first.command, again.command);
}

#[test]
fn discovered_classes_carry_their_locations() {
    let p_ctx = context();
    let root = "/w/.espresso/dependencies_extracted/c0ffee";
    let files = vec![
        format!("{}/org/example/Lib.class", root),
        format!("{}/META-INF/MANIFEST.MF", root),
        format!("{}/Top.class", root),
    ];
    let classes = class::get(&p_ctx, &dep("c0ffee"), &files).unwrap();
    assert_eq!(classes.len(), 2);
    assert_eq!(classes[0].name, "Lib");
    assert_eq!(classes[0].path, files[0]);
    assert_eq!(
        classes[0].containing_directory_absolute_path,
        format!("{}/org/example", root)
    );
    assert_eq!(classes[0].containing_directory_relative_path, "org/example");
    assert_eq!(classes[1].name, "Top");
    assert_eq!(classes[1].containing_directory_relative_path, "");
}

#[test]
fn merge_copies_preserve_package_relative_structure() {
    let p_ctx = context();
    let root = "/w/.espresso/dependencies_extracted/c0ffee";
    let files = vec![
        format!("{}/org/example/Lib.class", root),
        format!("{}/readme.txt", root),
    ];
    let plan = copy_classes(&p_ctx, &dep("c0ffee"), &files, &Vec::new()).unwrap();
    assert_eq!(plan.copies.len(), 1);
    assert_eq!(plan.copies[0].from, files[0]);
    assert_eq!(plan.copies[0].to, "/w/build/org/example/Lib.class");
    assert_eq!(plan.targets, vec!["org/example/Lib.class".to_string()]);
}

#[test]
fn merge_collision_is_an_explicit_error() {
    let p_ctx = context();
    let root = "/w/.espresso/dependencies_extracted/c0ffee";
    let files = vec![format!("{}/org/example/Lib.class", root)];
    let occupied = vec!["org/example/Lib.class".to_string()];
    let r = copy_classes(&p_ctx, &dep("c0ffee"), &files, &occupied);
    assert!(matches!(r, Err(espresso::error::BuildError::Merge { .. })));
}

#[test]
fn merge_threads_occupancy_between_dependencies() {
    let p_ctx = context();
    let root_a = "/w/.espresso/dependencies_extracted/aa";
    let root_b = "/w/.espresso/dependencies_extracted/bb";
    let files_a = vec![format!("{}/org/x/A.class", root_a)];
    let files_b = vec![format!("{}/org/x/B.class", root_b)];
    let plan_a = copy_classes(&p_ctx, &dep("aa"), &files_a, &Vec::new()).unwrap();
    let plan_b = copy_classes(&p_ctx, &dep("bb"), &files_b, &plan_a.targets).unwrap();
    assert_eq!(
        plan_b.targets,
        vec!["org/x/A.class".to_string(), "org/x/B.class".to_string()]
    );
}
