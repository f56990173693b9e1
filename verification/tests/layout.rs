use nms::errors::ConfigurationError;
use nms::layout::{effective_width, first_column_width, parse_width, sub_table_width};

#[test]
fn parse_width_plain() {
    assert_eq!(parse_width(&"120".to_string()), Some(120));
    assert_eq!(parse_width(&"0".to_string()), Some(0));
    assert_eq!(parse_width(&"65535".to_string()), Some(65535));
}

#[test]
fn parse_width_leading_zeros() {
    assert_eq!(parse_width(&"00080".to_string()), Some(80));
}

#[test]
fn parse_width_rejects() {
    assert_eq!(parse_width(&"".to_string()), None);
    assert_eq!(parse_width(&"12x".to_string()), None);
    assert_eq!(parse_width(&"-5".to_string()), None);
    assert_eq!(parse_width(&"65536".to_string()), None);
    assert_eq!(parse_width(&"999999999999999999999".to_string()), None);
}

#[test]
fn effective_width_defaults_to_eighty() {
    assert_eq!(effective_width(None, &None), Ok(80));
}

#[test]
fn effective_width_prefers_detected() {
    assert_eq!(effective_width(Some(100), &None), Ok(100));
    assert_eq!(effective_width(Some(50), &Some("120".to_string())), Ok(50));
}

#[test]
fn effective_width_uses_override() {
    assert_eq!(effective_width(None, &Some("120".to_string())), Ok(120));
}

#[test]
fn effective_width_invalid_override_is_hard_error() {
    let r = effective_width(Some(100), &Some("12x".to_string()));
    assert!(matches!(r, Err(ConfigurationError::InvalidWidth(t)) if t == "12x"));
}

#[test]
fn sub_table_width_leaves_room() {
    assert_eq!(sub_table_width(80, 17), 56);
    assert_eq!(sub_table_width(40, 17), 16);
    assert_eq!(sub_table_width(25, 17), 1);
    assert_eq!(sub_table_width(24, 17), 0);
    assert_eq!(sub_table_width(10, 17), 0);
}

#[test]
fn sub_table_width_never_overflows() {
    for total in 40u16..200 {
        let first = 17u16;
        let sub = sub_table_width(total, first);
        assert!(sub as u32 + first as u32 + 7 <= total as u32);
    }
}

#[test]
fn first_column_width_measures_longest_cell() {
    let header = vec!["File".to_string(), "/some/path".to_string()];
    let rows = vec![
        vec!["Authors".to_string(), "a".to_string()],
        vec!["Soft Dependencies".to_string(), "b".to_string()],
        vec!["Alias".to_string(), "c".to_string()],
    ];
    assert_eq!(first_column_width(&header, &rows), 17);
    let no_rows: Vec<Vec<String>> = Vec::new();
    assert_eq!(first_column_width(&header, &no_rows), 4);
}
