use nms::errors::{InsertError, ResolutionError, UnloadError};
use nms::lifecycle::{insert, remove, remove_candidates};
use nms::resolve::{classify, lookup, ModuleSpecifier};

#[test]
fn candidates_dash_name() {
    let c = remove_candidates(&"foo-bar".to_string());
    assert_eq!(c, vec!["foo-bar".to_string(), "foo_bar".to_string()]);
}

#[test]
fn candidates_underscore_name() {
    let c = remove_candidates(&"foo_bar".to_string());
    assert_eq!(c, vec!["foo_bar".to_string(), "foo-bar".to_string()]);
}

#[test]
fn candidates_plain_name() {
    let c = remove_candidates(&"plain".to_string());
    assert_eq!(c, vec!["plain".to_string()]);
}

#[test]
fn candidates_mixed_name() {
    let c = remove_candidates(&"a-b_c".to_string());
    assert_eq!(
        c,
        vec!["a-b_c".to_string(), "a_b_c".to_string(), "a-b-c".to_string()]
    );
}

#[test]
fn classify_absolute_ignores_override() {
    let s = classify(
        &"/lib/modules/x/foo.ko".to_string(),
        &Some("other-release".to_string()),
    );
    assert!(matches!(s, ModuleSpecifier::AbsolutePath(p) if p == "/lib/modules/x/foo.ko"));
}

#[test]
fn classify_bare_name() {
    let s = classify(&"amdgpu".to_string(), &None);
    assert!(matches!(s, ModuleSpecifier::BareName(n) if n == "amdgpu"));
}

#[test]
fn classify_qualified_name() {
    let s = classify(&"amdgpu".to_string(), &Some("6.1.0-test".to_string()));
    assert!(matches!(s, ModuleSpecifier::QualifiedName(n, u) if n == "amdgpu" && u == "6.1.0-test"));
}

#[test]
fn insert_missing_path_is_not_found() {
    let r = insert(&"/no/such/directory/missing-module.ko".to_string());
    assert!(matches!(
        r,
        Err(InsertError::Resolution(ResolutionError::ModuleNotFound))
    ));
}

#[test]
fn lookup_missing_path_is_not_found() {
    let r = lookup(&"/no/such/directory/missing-module.ko".to_string(), &None);
    assert!(matches!(r, Err(ResolutionError::ModuleNotFound)));
}

#[test]
fn lookup_missing_release_is_invalid_release() {
    let r = lookup(
        &"amdgpu".to_string(),
        &Some("0.0.0-no-such-release".to_string()),
    );
    assert!(matches!(r, Err(ResolutionError::InvalidRelease)));
}

#[test]
fn info_report_missing_path_is_not_found() {
    let r = nms::ops::info_report(&"/no/such/directory/missing.ko".to_string(), &None, 80);
    assert!(matches!(r, Err(ResolutionError::ModuleNotFound)));
}

#[test]
fn list_report_draws_header_when_kernel_state_is_readable() {
    match nms::ops::list_report(120) {
        Ok(out) => assert!(out.contains("Module")),
        Err(_) => {}
    }
}

#[test]
fn remove_unknown_name_is_not_loaded() {
    let name = "surely-not-a-loaded-module-zzz".to_string();
    let r = remove(&name);
    assert!(matches!(r, Err(UnloadError::NotLoaded(n)) if n == name));
}

#[test]
fn remove_parent_directory_name_is_a_miss() {
    let name = "..".to_string();
    let r = remove(&name);
    assert!(matches!(r, Err(UnloadError::NotLoaded(n)) if n == name));
}

#[test]
fn remove_name_with_separator_is_a_miss() {
    let name = "a/../b".to_string();
    let r = remove(&name);
    assert!(matches!(r, Err(UnloadError::NotLoaded(n)) if n == name));
}

#[test]
fn parameters_from_raw_keeps_fields() {
    let raw = vec![
        ("alpha".to_string(), Some("first".to_string()), "int".to_string()),
        ("beta".to_string(), None, "bool".to_string()),
    ];
    let params = nms::aggregate::parameters_from_raw(&raw);
    assert_eq!(params.len(), 2);
    assert_eq!(params[0].name, "alpha");
    assert_eq!(params[0].description, Some("first".to_string()));
    assert_eq!(params[0].type_tag, "int");
    assert_eq!(params[1].name, "beta");
    assert_eq!(params[1].description, None);
    assert_eq!(params[1].type_tag, "bool");
}
