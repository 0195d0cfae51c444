use espresso::context::{get_absolute_paths, get_debug_mode, get_dynamic_absolute_paths,
    get_project_context};
use espresso::error::BuildError;
use espresso::lock::initialize_state_lockfile;
use espresso::project::{initialize, initialize_config, is_project_present, main_java_content,
    process_input};
use espresso::toolchain::{get_expanded_toolchain_path, get_toolchain_context};

#[test]
fn empty_input_defaults_project_name_and_base_package() {
    let config = initialize_config(String::new(), String::new());
    assert_eq!(config.project.name, "My Espresso Project");
    assert_eq!(config.project.base_package, "com.me.myespressoproject");
    assert_eq!(config.project.version, "1.0.0");
    assert_eq!(config.toolchain.path, "${JAVA_HOME}");
    assert!(config.dependencies.is_empty());
    assert!(config.dependencies_fs.is_empty());
}

#[test]
fn whitespace_only_input_also_defaults() {
    let config = initialize_config(" \n".to_string(), " \t\r\n".to_string());
    assert_eq!(config.project.name, "My Espresso Project");
    assert_eq!(config.project.base_package, "com.me.myespressoproject");
}

#[test]
fn nonempty_input_passes_through_unchanged() {
    let config = initialize_config("my app".to_string(), "org.example.app".to_string());
    assert_eq!(config.project.name, "my app");
    assert_eq!(config.project.base_package, "org.example.app");
}

#[test]
fn input_processing_strips_newlines() {
    assert_eq!(process_input("my app\n".to_string(), "d".to_string()), "my app");
    assert_eq!(process_input("".to_string(), "d".to_string()), "d");
    assert_eq!(process_input("\n".to_string(), "d".to_string()), "d");
    assert_eq!(process_input(" ".to_string(), "d".to_string()), "d");
    assert_eq!(process_input("\t \r\n".to_string(), "d".to_string()), "d");
    assert_eq!(process_input(" a \n".to_string(), "d".to_string()), " a ");
}

#[test]
fn project_presence_needs_both_parts() {
    assert!(is_project_present(true, true));
    assert!(!is_project_present(true, false));
    assert!(!is_project_present(false, true));
    assert!(!is_project_present(false, false));
}

#[test]
fn absolute_paths_derive_from_working_directory() {
    let ap = get_absolute_paths("/work/demo", false);
    assert_eq!(ap.project, "/work/demo");
    assert_eq!(ap.source, "/work/demo/src/java");
    assert_eq!(ap.config, "/work/demo/espresso.toml");
    assert_eq!(ap.inner_workings, "/work/demo/.espresso");
    assert_eq!(ap.dependencies, "/work/demo/.espresso/dependencies");
    assert_eq!(ap.dependencies_extracted, "/work/demo/.espresso/dependencies_extracted");
    assert_eq!(ap.state_lockfile, "/work/demo/.espresso/state.lock.toml");
}

#[test]
fn debug_mode_redirects_into_isolated_subdirectory() {
    let ap = get_absolute_paths("/work/demo", true);
    assert_eq!(ap.project, "/work/demo/espresso_debug");
    assert_eq!(ap.source, "/work/demo/espresso_debug/src/java");
}

#[test]
fn debug_switch_reads_only_the_enabled_value() {
    assert!(get_debug_mode(&Some("1".to_string())));
    assert!(!get_debug_mode(&Some("0".to_string())));
    assert!(!get_debug_mode(&Some("yes".to_string())));
    assert!(!get_debug_mode(&None));
}

#[test]
fn base_package_path_uses_filesystem_notation() {
    let config = initialize_config("p".to_string(), "com.me.app".to_string());
    let ap = get_absolute_paths("/w", false);
    let dap = get_dynamic_absolute_paths(&ap, &config);
    assert_eq!(dap.base_package, "/w/src/java/com/me/app");
}

#[test]
fn toolchain_placeholder_expands_from_environment() {
    let configured = "${JAVA_HOME}".to_string();
    assert_eq!(
        get_expanded_toolchain_path(&configured, &Some("/opt/jdk".to_string())),
        "/opt/jdk"
    );
    assert_eq!(get_expanded_toolchain_path(&configured, &None), "${JAVA_HOME}");
    let literal = "/usr/lib/jvm".to_string();
    assert_eq!(
        get_expanded_toolchain_path(&literal, &Some("/opt/jdk".to_string())),
        "/usr/lib/jvm"
    );
}

#[test]
fn toolchain_context_resolves_executables() {
    let config = initialize_config("p".to_string(), "com.me.app".to_string());
    let ap = get_absolute_paths("/w", false);
    let lock = initialize_state_lockfile();
    let p_ctx = get_project_context(config, lock, ap, false);
    let tc = get_toolchain_context(&p_ctx, &Some("/opt/jdk".to_string()));
    assert_eq!(tc.toolchain_path, "/opt/jdk");
    assert_eq!(tc.compiler_path, "/opt/jdk/bin/javac");
    assert_eq!(tc.runtime_path, "/opt/jdk/bin/java");
    assert_eq!(tc.packager_path, "/opt/jdk/bin/jar");
}

#[test]
fn initialization_refuses_an_existing_project() {
    let ap = get_absolute_paths("/w", false);
    let r = initialize("a".to_string(), "b.c".to_string(), &ap, true, true);
    match r {
        Err(BuildError::AlreadyExists) => {}
        _ => panic!("expected the already-exists error"),
    }
}

#[test]
fn initialization_plans_the_whole_project() {
    let ap = get_absolute_paths("/w", false);
    let plan = initialize(String::new(), String::new(), &ap, false, true).unwrap();
    assert_eq!(plan.config.project.name, "My Espresso Project");
    assert_eq!(plan.base_package_dir, "/w/src/java/com/me/myespressoproject");
    assert_eq!(plan.main_java_path, "/w/src/java/com/me/myespressoproject/Main.java");
    assert!(plan.state_lock_file.dependencies.is_empty());
    assert_eq!(plan.main_java_content, main_java_content("com.me.myespressoproject"));
    assert!(plan.main_java_content.starts_with("package com.me.myespressoproject;\n"));
    assert!(plan.main_java_content.contains("public class Main"));
    assert!(plan.main_java_content.contains("Hello, world!"));
}
