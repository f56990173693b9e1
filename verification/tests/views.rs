use nms::aggregate::{LoadedRecord, ModuleInfo, Parameter};
use nms::params::info_param_rows;
use nms::views::{info_rows, info_view, list_rows, list_view};

fn param(name: &str, description: Option<&str>, type_tag: &str) -> Parameter {
    Parameter {
        name: name.to_string(),
        description: description.map(|s| s.to_string()),
        type_tag: type_tag.to_string(),
    }
}

fn sample_info(parameters: Vec<Parameter>) -> ModuleInfo {
    ModuleInfo {
        authors: vec!["Alice <alice@example.com>".to_string(), "Bob".to_string()],
        license: "GPL".to_string(),
        description: "A sample module".to_string(),
        version: "1.2.3".to_string(),
        firmware: vec!["fw/one.bin".to_string()],
        alias: vec!["alias-one".to_string(), "alias-two".to_string()],
        dependencies: vec!["dep-one".to_string()],
        soft_dependencies: vec![],
        in_tree: true,
        retpoline: false,
        staging: false,
        version_magic: "6.1.0 SMP mod_unload".to_string(),
        source_checksum: "0123456789ABCDEF".to_string(),
        parameters,
        has_signature: false,
    }
}

#[test]
fn param_rows_sorted_by_name() {
    let rows = info_param_rows(&vec![param("z", None, "int"), param("a", None, "bool")]);
    assert_eq!(rows.len(), 2);
    assert_eq!(rows[0][0], "a");
    assert_eq!(rows[1][0], "z");
}

#[test]
fn param_rows_missing_description_renders_placeholder() {
    let rows = info_param_rows(&vec![param("p", None, "int")]);
    assert_eq!(rows[0], vec!["p".to_string(), "None".to_string(), "int".to_string()]);
}

#[test]
fn param_rows_expand_tabs() {
    let rows = info_param_rows(&vec![param("p", Some("a\tb"), "charp")]);
    assert_eq!(rows[0][1], "a    b");
}

#[test]
fn list_rows_cells() {
    let mods = vec![LoadedRecord {
        name: "nvidia".to_string(),
        size: 123456,
        ref_count: Some(3),
        holders: vec!["nvidia_drm".to_string()],
    }];
    let rows = list_rows(&mods);
    assert_eq!(rows.len(), 1);
    assert_eq!(
        rows[0],
        vec![
            "nvidia".to_string(),
            "123456".to_string(),
            "3".to_string(),
            "nvidia_drm".to_string()
        ]
    );
}

#[test]
fn list_rows_missing_ref_count() {
    let mods = vec![LoadedRecord {
        name: "m".to_string(),
        size: 0,
        ref_count: None,
        holders: vec![],
    }];
    let rows = list_rows(&mods);
    assert_eq!(
        rows[0],
        vec!["m".to_string(), "0".to_string(), "None".to_string(), "".to_string()]
    );
}

#[test]
fn list_rows_joins_holders_with_newlines() {
    let mods = vec![LoadedRecord {
        name: "m".to_string(),
        size: u64::MAX,
        ref_count: Some(0),
        holders: vec!["h1".to_string(), "h2".to_string(), "h3".to_string()],
    }];
    let rows = list_rows(&mods);
    assert_eq!(rows[0][1], "18446744073709551615");
    assert_eq!(rows[0][3], "h1\nh2\nh3");
}

#[test]
fn list_view_contains_cells() {
    let mods = vec![LoadedRecord {
        name: "nvidia".to_string(),
        size: 123456,
        ref_count: Some(3),
        holders: vec!["nvidia_drm".to_string()],
    }];
    let out = list_view(&mods, 120);
    assert!(out.contains("Module"));
    assert!(out.contains("nvidia"));
    assert!(out.contains("123456"));
    assert!(out.contains("nvidia_drm"));
}

#[test]
fn info_rows_empty_parameters_render_placeholder() {
    let info = sample_info(vec![]);
    let rows = info_rows(&info, &"/lib/modules/sample.ko".to_string(), 120);
    assert_eq!(rows.len(), 15);
    assert_eq!(rows[13], vec!["Parameters".to_string(), "None".to_string()]);
}

#[test]
fn info_rows_labels_and_values() {
    let info = sample_info(vec![]);
    let rows = info_rows(&info, &"/lib/modules/sample.ko".to_string(), 120);
    assert_eq!(rows[0], vec!["Authors".to_string(), "Alice <alice@example.com>\nBob".to_string()]);
    assert_eq!(rows[1], vec!["License".to_string(), "GPL".to_string()]);
    assert_eq!(rows[2], vec!["Description".to_string(), "A sample module".to_string()]);
    assert_eq!(rows[3], vec!["Version".to_string(), "1.2.3".to_string()]);
    assert_eq!(rows[4], vec!["Firmware".to_string(), "fw/one.bin".to_string()]);
    assert_eq!(rows[5], vec!["Alias".to_string(), "alias-one\nalias-two".to_string()]);
    assert_eq!(rows[6], vec!["Dependencies".to_string(), "dep-one".to_string()]);
    assert_eq!(rows[7], vec!["Soft Dependencies".to_string(), "".to_string()]);
    assert_eq!(rows[8], vec!["In Tree".to_string(), "true".to_string()]);
    assert_eq!(rows[9], vec!["Retpoline".to_string(), "false".to_string()]);
    assert_eq!(rows[10], vec!["Staging".to_string(), "false".to_string()]);
    assert_eq!(rows[11], vec!["Version Magic".to_string(), "6.1.0 SMP mod_unload".to_string()]);
    assert_eq!(rows[12], vec!["Source Checksum".to_string(), "0123456789ABCDEF".to_string()]);
    assert_eq!(rows[14], vec!["Signature".to_string(), "false".to_string()]);
}

#[test]
fn info_rows_nested_parameter_table() {
    let info = sample_info(vec![param("z", None, "int"), param("a", Some("first"), "bool")]);
    let rows = info_rows(&info, &"/lib/modules/sample.ko".to_string(), 120);
    assert_eq!(rows[13][0], "Parameters");
    let cell = &rows[13][1];
    assert!(cell.contains("Name"));
    assert!(cell.contains("a"));
    assert!(cell.contains("z"));
    assert!(cell.contains("first"));
    let a_pos = cell.find("\u{2502} a").or_else(|| cell.find(" a "));
    let z_pos = cell.find("\u{2502} z").or_else(|| cell.find(" z "));
    assert!(a_pos.is_some() && z_pos.is_some());
    assert!(a_pos.unwrap() < z_pos.unwrap());
}

#[test]
fn info_view_contains_rows() {
    let info = sample_info(vec![]);
    let out = info_view(&info, &"/lib/modules/sample.ko".to_string(), 120);
    assert!(out.contains("File"));
    assert!(out.contains("/lib/modules/sample.ko"));
    assert!(out.contains("GPL"));
    assert!(out.contains("Parameters"));
    assert!(out.contains("None"));
}
