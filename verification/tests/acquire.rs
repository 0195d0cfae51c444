use espresso::context::{get_absolute_paths, get_project_context};
use espresso::dependency::{add, download};
use espresso::error::BuildError;
use espresso::integrity::get_sha512_of_bytes;
use espresso::lock::{initialize_state_lockfile, StateLockFileDependencySource};
use espresso::manage;
use espresso::project::initialize_config;
use espresso::resolve::{interpret_query_response, latest_version, select_package, Package,
    PackageMetadata, PackageVersion, QueryPackagesResponse};

fn package_with(versions: Vec<PackageVersion>) -> Package {
    Package {
        metadata: PackageMetadata { source_repository: "central".to_string(), versions },
        group_id: "org.example".to_string(),
        artifact_id: "lib".to_string(),
        ref_: "org.example:lib".to_string(),
    }
}

fn version_with_checksum(sha512sum: String) -> PackageVersion {
    PackageVersion {
        version: "2.1.0".to_string(),
        flags: Vec::new(),
        vulnerabilities: Vec::new(),
        artifact_url: "https://registry.example/a.jar".to_string(),
        sha512sum,
    }
}

fn fresh_context() -> espresso::context::ProjectContext {
    let config = initialize_config("p".to_string(), "com.me.app".to_string());
    let ap = get_absolute_paths("/w", false);
    let lock = initialize_state_lockfile();
    get_project_context(config, lock, ap, false)
}

#[test]
fn download_plan_is_keyed_by_checksum() {
    let p_ctx = fresh_context();
    let package = package_with(vec![version_with_checksum("c0ffee".to_string())]);
    let plan = download(&p_ctx, &package).unwrap();
    assert_eq!(plan.url, "https://registry.example/a.jar");
    assert_eq!(plan.path, "/w/.espresso/dependencies/c0ffee.jar");
    assert_eq!(plan.expected_sha512, "c0ffee");
}

#[test]
fn download_path_normalizes_checksum_case() {
    let p_ctx = fresh_context();
    let package = package_with(vec![version_with_checksum("C0FFEE".to_string())]);
    let plan = download(&p_ctx, &package).unwrap();
    assert_eq!(plan.path, "/w/.espresso/dependencies/c0ffee.jar");
    assert_eq!(plan.expected_sha512, "C0FFEE");
}

#[test]
fn download_needs_a_version() {
    let p_ctx = fresh_context();
    let package = package_with(Vec::new());
    match download(&p_ctx, &package) {
        Err(BuildError::NoVersions) => {}
        _ => panic!("expected the no-versions error"),
    }
}

#[test]
fn verified_artifact_updates_manifest_and_lock_together() {
    let bytes = b"artifact bytes".to_vec();
    let digest = get_sha512_of_bytes(&bytes);
    let mut p_ctx = fresh_context();
    let package = package_with(vec![version_with_checksum(digest.to_uppercase())]);
    add(&mut p_ctx, &package, &bytes).unwrap();
    assert_eq!(p_ctx.config.dependencies.len(), 1);
    assert_eq!(p_ctx.config.dependencies[0].name, "org.example:lib");
    assert_eq!(p_ctx.config.dependencies[0].value, "2.1.0");
    assert_eq!(p_ctx.state_lock_file.dependencies.len(), 1);
    let entry = &p_ctx.state_lock_file.dependencies[0];
    assert_eq!(entry.name, "org.example:lib");
    assert_eq!(entry.checksum, digest);
    assert!(matches!(entry.source, StateLockFileDependencySource::EspressoRegistry));
}

#[test]
fn failed_verification_leaves_state_untouched() {
    let bytes = b"artifact bytes".to_vec();
    let mut p_ctx = fresh_context();
    let wrong = get_sha512_of_bytes(&b"other bytes".to_vec());
    let package = package_with(vec![version_with_checksum(wrong)]);
    let r = add(&mut p_ctx, &package, &bytes);
    assert!(matches!(r, Err(BuildError::Integrity { .. })));
    assert!(p_ctx.config.dependencies.is_empty());
    assert!(p_ctx.state_lock_file.dependencies.is_empty());
}

#[test]
fn readding_a_dependency_rebinds_it() {
    let bytes_one = b"first artifact".to_vec();
    let bytes_two = b"second artifact".to_vec();
    let mut p_ctx = fresh_context();
    let first = package_with(vec![version_with_checksum(get_sha512_of_bytes(&bytes_one))]);
    add(&mut p_ctx, &first, &bytes_one).unwrap();
    let second = package_with(vec![version_with_checksum(get_sha512_of_bytes(&bytes_two))]);
    add(&mut p_ctx, &second, &bytes_two).unwrap();
    assert_eq!(p_ctx.config.dependencies.len(), 1);
    assert_eq!(p_ctx.state_lock_file.dependencies.len(), 1);
    assert_eq!(
        p_ctx.state_lock_file.dependencies[0].checksum,
        get_sha512_of_bytes(&bytes_two)
    );
}

#[test]
fn filesystem_dependency_registers_in_both_stores() {
    let mut p_ctx = fresh_context();
    let r = manage::add(
        &mut p_ctx,
        &"/home/u/Downloads/lombok.jar".to_string(),
        &"lombok".to_string(),
        &"FEEDC0DE".to_string(),
    );
    assert!(r.is_ok());
    assert_eq!(p_ctx.config.dependencies_fs.len(), 1);
    assert_eq!(p_ctx.config.dependencies_fs[0].name, "lombok");
    assert_eq!(p_ctx.config.dependencies_fs[0].value, "/home/u/Downloads/lombok.jar");
    let entry = &p_ctx.state_lock_file.dependencies[0];
    assert_eq!(entry.name, "lombok");
    assert_eq!(entry.checksum, "feedc0de");
    assert!(matches!(entry.source, StateLockFileDependencySource::FileSystem));
}

#[test]
fn lock_file_knows_its_names() {
    let bytes = b"artifact bytes".to_vec();
    let mut p_ctx = fresh_context();
    let package = package_with(vec![version_with_checksum(get_sha512_of_bytes(&bytes))]);
    add(&mut p_ctx, &package, &bytes).unwrap();
    assert!(p_ctx.state_lock_file.has_name(&"org.example:lib".to_string()));
    assert!(!p_ctx.state_lock_file.has_name(&"org.example:other".to_string()));
}

#[test]
fn undecodable_response_keeps_raw_body() {
    let r = interpret_query_response(None, "{ broken".to_string());
    match r {
        Err(BuildError::Deserialization { raw_body }) => assert_eq!(raw_body, "{ broken"),
        _ => panic!("expected the deserialization error"),
    }
}

#[test]
fn empty_package_list_is_not_an_error() {
    let parsed = Some(QueryPackagesResponse { packages: Vec::new() });
    let r = interpret_query_response(parsed, "{}".to_string());
    assert!(r.unwrap().is_empty());
}

#[test]
fn selection_rules() {
    let none: Vec<Package> = Vec::new();
    assert!(matches!(select_package(&none, &None), Err(BuildError::NoPackagesFound)));
    let one = vec![package_with(Vec::new())];
    assert_eq!(select_package(&one, &None).unwrap(), 0);
    let two = vec![package_with(Vec::new()), package_with(Vec::new())];
    assert_eq!(select_package(&two, &Some(2)).unwrap(), 1);
    assert!(matches!(
        select_package(&two, &Some(0)),
        Err(BuildError::SelectionOutOfRange)
    ));
    assert!(matches!(
        select_package(&two, &Some(3)),
        Err(BuildError::SelectionOutOfRange)
    ));
    assert!(matches!(select_package(&two, &None), Err(BuildError::SelectionOutOfRange)));
}

#[test]
fn latest_version_is_the_first_listed() {
    let newest = version_with_checksum("aa".to_string());
    let older = PackageVersion { version: "1.0.0".to_string(), ..version_with_checksum("bb".to_string()) };
    let package = package_with(vec![newest, older]);
    assert_eq!(latest_version(&package).unwrap().version, "2.1.0");
    let empty = package_with(Vec::new());
    assert!(matches!(latest_version(&empty), Err(BuildError::NoVersions)));
}
