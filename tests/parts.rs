use wgputoy::compile::{select_compute, EntryPoint, ShaderStage};
use wgputoy::diagnostics::{diagnostic_report, parse_decimal, parse_diagnostic};
use wgputoy::frame::{div_ceil, dispatch_grid, storage_bytes};
use wgputoy::prelude::{count_newlines, remap_row, user_error};
use wgputoy::uniforms::{name_less, CustomParamError, CustomUniforms, MAX_CUSTOM_PARAMS};

#[test]
fn remap_row_subtracts_or_clamps() {
    assert_eq!(remap_row(50, 40), 10);
    assert_eq!(remap_row(40, 40), 0);
    assert_eq!(remap_row(12, 40), 0);
    let e = user_error("bad".to_string(), 45, 7, 40);
    assert_eq!((e.row, e.col, e.message.as_str()), (5, 7, "bad"));
}

#[test]
fn newline_count() {
    assert_eq!(count_newlines(""), 0);
    assert_eq!(count_newlines("a\nb\n\nc"), 3);
    assert_eq!(count_newlines("é\n"), 1);
}

#[test]
fn ceiling_division() {
    assert_eq!(div_ceil(64, 8), 8);
    assert_eq!(div_ceil(65, 8), 9);
    assert_eq!(div_ceil(0, 8), 0);
    assert_eq!(div_ceil(7, 0), 0);
    assert_eq!(div_ceil(u32::MAX, 2), 1 << 31);
    assert_eq!(dispatch_grid(800, 600, [16, 16, 1]), [50, 38, 1]);
    assert_eq!(storage_bytes(10, 3), Some(480));
}

#[test]
fn names_order_like_strings() {
    assert!(name_less("a", "b"));
    assert!(!name_less("b", "a"));
    assert!(name_less("ab", "abc"));
    assert!(!name_less("abc", "abc"));
    assert!(name_less("Z", "a"));
    assert!(name_less("_dummy", "a"));
}

#[test]
fn custom_set_updates_and_orders() {
    let mut c = CustomUniforms::new();
    c.set("zeta", 1).unwrap();
    c.set("alpha", 2).unwrap();
    c.set("mid", 3).unwrap();
    c.set("alpha", 4).unwrap();
    assert_eq!(c.len(), 3);
    assert_eq!(c.field_name(0), "alpha");
    assert_eq!(c.field_name(1), "mid");
    assert_eq!(c.field_name(2), "zeta");
    assert_eq!(c.uniform_bytes(), vec![4, 0, 0, 0, 3, 0, 0, 0, 1, 0, 0, 0]);
}

#[test]
fn custom_set_refuses_too_many() {
    let mut c = CustomUniforms::new();
    for i in 0..MAX_CUSTOM_PARAMS {
        c.set(&format!("p{i:02}"), i as u32).unwrap();
    }
    assert_eq!(c.set("extra", 1), Err(CustomParamError::TooManyParams));
    assert_eq!(c.len(), MAX_CUSTOM_PARAMS);
    assert_eq!(c.set("p03", 9), Ok(()));
}

#[test]
fn decimal_parsing() {
    assert_eq!(parse_decimal("0"), Some(0));
    assert_eq!(parse_decimal("0042"), Some(42));
    assert_eq!(parse_decimal(""), None);
    assert_eq!(parse_decimal("12a"), None);
    assert_eq!(parse_decimal("+5"), None);
    assert_eq!(parse_decimal("18446744073709551615"), Some(usize::MAX));
    assert_eq!(parse_decimal("18446744073709551616"), None);
}

#[test]
fn diagnostic_reports() {
    let e = diagnostic_report("57", "9", "unknown identifier", 40);
    assert_eq!((e.row, e.col, e.message.as_str()), (17, 9, "unknown identifier"));
    let e = diagnostic_report("99999999999999999999999", "x", "m", 40);
    assert_eq!((e.row, e.col), (0, 0));
}

#[test]
fn diagnostic_parser_reads_location() {
    let text = "Validation Error\n\nCaused by:\n    In Device::create_shader_module\n    Parser: :58:12 expected expression\n\n      Shader error";
    let e = parse_diagnostic(text, 50).expect("a located diagnostic");
    assert_eq!((e.row, e.col), (8, 12));
    assert_eq!(e.message, "expected expression");
    assert!(parse_diagnostic("Device lost", 50).is_none());
    assert!(parse_diagnostic("Parser: :x:1 message Shader", 50).is_none());
}

#[test]
fn select_compute_keeps_order() {
    let e = |n: &str, s: ShaderStage, w: [u32; 3]| EntryPoint { name: n.to_string(), stage: s, workgroup_size: w };
    let v = vec![
        e("vs", ShaderStage::Vertex, [1, 1, 1]),
        e("c1", ShaderStage::Compute, [4, 4, 1]),
        e("fs", ShaderStage::Fragment, [1, 1, 1]),
        e("c2", ShaderStage::Compute, [2, 1, 1]),
    ];
    let r = select_compute(&v);
    assert_eq!(r.len(), 2);
    assert_eq!((r[0].name.as_str(), r[0].workgroup_size), ("c1", [4, 4, 1]));
    assert_eq!((r[1].name.as_str(), r[1].workgroup_size), ("c2", [2, 1, 1]));
}
