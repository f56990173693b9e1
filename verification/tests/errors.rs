use nms::errors::{
    load_error, name_resolution_error, path_resolution_error, query_error, unload_failure,
    InsertError, QueryError, RawModuleError, ResolutionError, UnloadError,
};

#[test]
fn name_search_miss_is_module_not_found() {
    let e = RawModuleError::Load("amdgpu".to_string(), "not found".to_string());
    assert_eq!(name_resolution_error(e), ResolutionError::ModuleNotFound);
}

#[test]
fn name_search_missing_tree_is_invalid_release() {
    let e = RawModuleError::IoNotFound("no such directory".to_string());
    assert_eq!(name_resolution_error(e), ResolutionError::InvalidRelease);
}

#[test]
fn name_search_permission_is_propagated() {
    let e = RawModuleError::IoPermission("denied".to_string());
    assert_eq!(
        name_resolution_error(e),
        ResolutionError::PermissionDenied("denied".to_string())
    );
}

#[test]
fn path_lookup_missing_file_is_module_not_found() {
    let e = RawModuleError::IoNotFound("no such file".to_string());
    assert_eq!(path_resolution_error(e), ResolutionError::ModuleNotFound);
}

#[test]
fn path_lookup_never_invalid_release() {
    let all = vec![
        RawModuleError::IoNotFound("a".to_string()),
        RawModuleError::IoPermission("b".to_string()),
        RawModuleError::IoOther("c".to_string()),
        RawModuleError::Load("n".to_string(), "d".to_string()),
        RawModuleError::Unload("n".to_string(), "e".to_string()),
        RawModuleError::Invalid("f".to_string()),
    ];
    for e in all {
        assert_ne!(path_resolution_error(e), ResolutionError::InvalidRelease);
    }
}

#[test]
fn malformed_image_is_metadata_unavailable() {
    let e = RawModuleError::Invalid("invalid .modinfo".to_string());
    assert_eq!(
        path_resolution_error(e),
        ResolutionError::MetadataUnavailable("invalid .modinfo".to_string())
    );
}

#[test]
fn kernel_load_refusal_keeps_detail() {
    let e = RawModuleError::Load("m".to_string(), "invalid magic".to_string());
    assert_eq!(
        load_error(e),
        InsertError::Load("m".to_string(), "invalid magic".to_string())
    );
}

#[test]
fn kernel_unload_refusal_keeps_detail() {
    let e = RawModuleError::Unload("m".to_string(), "busy".to_string());
    assert_eq!(
        unload_failure(e, &"m-candidate".to_string()),
        UnloadError::Failure("m".to_string(), "busy".to_string())
    );
}

#[test]
fn other_io_errors_propagate_unchanged() {
    let e = RawModuleError::IoOther("interrupted".to_string());
    assert_eq!(
        path_resolution_error(e.clone()),
        ResolutionError::Io("interrupted".to_string())
    );
    assert_eq!(query_error(e), QueryError::Io("interrupted".to_string()));
}

#[test]
fn query_permission_is_distinguished() {
    let e = RawModuleError::IoPermission("denied".to_string());
    assert_eq!(query_error(e), QueryError::PermissionDenied("denied".to_string()));
    let e2 = RawModuleError::Invalid("bad record".to_string());
    assert_eq!(query_error(e2), QueryError::MetadataUnavailable("bad record".to_string()));
}
