use transformjs::{
    failure_message, has_nul_byte, package_result, plan_options, stage_failure,
    transformjs_transform, Baseline, CTransformOptions, Stage, StageFailure, StageOutcome,
    TransformHelperLoaderMode,
};

fn options(jsx: i32, jsx_dev: i32, ts: i32, target: Option<&str>) -> CTransformOptions {
    CTransformOptions {
        jsx_enabled: jsx,
        jsx_development: jsx_dev,
        typescript_enabled: ts,
        helper_loader_mode: TransformHelperLoaderMode::Runtime,
        target: target.map(|t| t.as_bytes().to_vec()),
    }
}

#[test]
fn plan_without_options_is_browser_bundle() {
    let p = plan_options(None);
    assert_eq!(p.baseline, Baseline::Minimal);
    assert_eq!(p.target.as_deref(), Some("es2020"));
    assert!(p.enable_all_on_target_failure);
    assert!(!p.jsx_development);
    assert_eq!(p.helper_loader_mode, TransformHelperLoaderMode::Runtime);
    assert!(p.legacy_decorators);
}

#[test]
fn plan_with_no_flags_enables_all() {
    let p = plan_options(Some(&options(0, 1, 0, None)));
    assert_eq!(p.baseline, Baseline::EnableAll);
    assert!(!p.jsx_development);
    assert_eq!(p.target, None);
    assert!(!p.enable_all_on_target_failure);
    assert!(!p.legacy_decorators);
}

#[test]
fn plan_with_flags_starts_minimal() {
    let p = plan_options(Some(&options(1, 1, 0, Some("chrome58"))));
    assert_eq!(p.baseline, Baseline::Minimal);
    assert!(p.jsx_development);
    assert_eq!(p.target.as_deref(), Some("chrome58"));
    let q = plan_options(Some(&options(0, 0, 1, None)));
    assert_eq!(q.baseline, Baseline::Minimal);
    assert!(!q.jsx_development);
}

#[test]
fn plan_drops_empty_or_undecodable_target() {
    assert_eq!(plan_options(Some(&options(1, 0, 1, Some("")))).target, None);
    let mut o = options(1, 0, 1, None);
    o.target = Some(vec![0xff, 0xfe]);
    assert_eq!(plan_options(Some(&o)).target, None);
}

#[test]
fn plan_keeps_helper_loader_mode() {
    let mut o = options(1, 0, 0, None);
    o.helper_loader_mode = TransformHelperLoaderMode::External;
    assert_eq!(plan_options(Some(&o)).helper_loader_mode, TransformHelperLoaderMode::External);
}

#[test]
fn stage_failure_stops_only_on_errors() {
    assert_eq!(stage_failure(Stage::Parse, 0), None);
    assert_eq!(stage_failure(Stage::Parse, 2), Some(StageFailure::ParseFailed(2)));
    assert_eq!(stage_failure(Stage::Semantic, 1), Some(StageFailure::SemanticFailed(1)));
    assert_eq!(stage_failure(Stage::Transform, 7), Some(StageFailure::TransformFailed(7)));
}

#[test]
fn failure_messages() {
    assert_eq!(failure_message(StageFailure::NullInput), "source is null");
    assert_eq!(failure_message(StageFailure::InvalidInputEncoding), "Invalid UTF-8 in source");
    assert_eq!(failure_message(StageFailure::ParseFailed(3)), "Parser errors: 3 errors found");
    assert_eq!(failure_message(StageFailure::SemanticFailed(12)), "Semantic errors: 12 errors found");
    assert_eq!(failure_message(StageFailure::TransformFailed(0)), "Transformer errors: 0 errors found");
    assert_eq!(
        failure_message(StageFailure::OutputEncodingFailed),
        "Failed to create output string: nul byte in output"
    );
}

#[test]
fn nul_byte_detection() {
    assert!(!has_nul_byte(""));
    assert!(!has_nul_byte("héllo"));
    assert!(has_nul_byte("a\0b"));
}

#[test]
fn package_success_records_byte_length() {
    let r = package_result(StageOutcome::Success("héllo".to_string()));
    assert_eq!(r.success, 0);
    assert_eq!(r.output.as_deref(), Some("héllo"));
    assert_eq!(r.output_len, 6);
    assert_eq!(r.error, None);
}

#[test]
fn package_output_with_nul_is_encoding_failure() {
    let r = package_result(StageOutcome::Success("var a = \"\0\";".to_string()));
    assert_eq!(r.success, 1);
    assert_eq!(r.output, None);
    assert_eq!(r.error, Some(failure_message(StageFailure::OutputEncodingFailed)));
}

#[test]
fn package_failure_keeps_message() {
    let r = package_result(StageOutcome::Failure(StageFailure::SemanticFailed(2)));
    assert_eq!(r.success, 1);
    assert_eq!(r.output, None);
    assert_eq!(r.output_len, 0);
    assert_eq!(r.error.as_deref(), Some("Semantic errors: 2 errors found"));
}

#[test]
fn null_source_is_reported() {
    let r = transformjs_transform(None, None, None);
    assert_eq!(r.success, 1);
    assert_eq!(r.output, None);
    assert!(r.error.unwrap().contains("null"));
}

#[test]
fn invalid_utf8_source_is_reported() {
    let r = transformjs_transform(Some(&[0x61, 0xff, 0x62]), None, None);
    assert_eq!(r.success, 1);
    assert_eq!(r.output, None);
    assert_eq!(r.error.as_deref(), Some("Invalid UTF-8 in source"));
}

#[test]
fn syntax_error_is_a_parse_failure() {
    let r = transformjs_transform(Some(b"function f( {"), None, None);
    assert_eq!(r.success, 1);
    assert_eq!(r.output, None);
    assert!(r.error.unwrap().starts_with("Parser errors: "));
}

#[test]
fn valid_source_succeeds_with_matching_length() {
    let r = transformjs_transform(Some("const s = \"é\";\nconsole.log(s);".as_bytes()), None, None);
    assert_eq!(r.success, 0);
    assert_eq!(r.error, None);
    let out = r.output.unwrap();
    assert_eq!(r.output_len, out.len());
    assert!(out.contains("console.log"));
}

#[test]
fn typescript_path_selects_typescript() {
    let src = b"const n: number = 1;\nconsole.log(n);";
    let r = transformjs_transform(Some(src), Some(b"input.ts"), None);
    assert_eq!(r.success, 0);
    assert!(!r.output.unwrap().contains("number"));
}

#[test]
fn explicit_default_options_match_no_options() {
    let src = b"const a = (b) => b ?? [1, 2].map((x) => x * 2);\nconsole.log(a);";
    let none = transformjs_transform(Some(src), None, None);
    let explicit = options(1, 0, 1, Some("es2020"));
    let some = transformjs_transform(Some(src), None, Some(&explicit));
    assert_eq!(none.success, 0);
    assert_eq!(some.success, 0);
    assert_eq!(none.output, some.output);
}

#[test]
fn module_format_stays_commonjs_for_any_target() {
    let src = b"import x = require(\"y\");\nconsole.log(x);";
    let explicit = options(0, 0, 1, Some("es2022"));
    let r = transformjs_transform(Some(src), Some(b"input.ts"), Some(&explicit));
    assert_eq!(r.success, 0);
    assert!(r.output.unwrap().contains("require(\"y\")"));
}

#[test]
fn module_target_still_gets_commonjs_strict_mode() {
    let explicit = options(0, 0, 1, Some("chrome100"));
    let r = transformjs_transform(Some(b"export const a = 1;"), Some(b"input.ts"), Some(&explicit));
    assert_eq!(r.success, 0);
    assert!(r.output.unwrap().contains("use strict"));
    let d = transformjs_transform(Some(b"export const a = 1;"), Some(b"input.ts"), None);
    assert_eq!(d.success, 0);
    assert!(d.output.unwrap().contains("use strict"));
}

#[test]
fn export_assignment_goes_through_module_exports() {
    let explicit = options(0, 0, 1, Some("chrome100"));
    let src = b"const a = 1;\nexport = a;";
    let r = transformjs_transform(Some(src), Some(b"input.ts"), Some(&explicit));
    assert_eq!(r.success, 0);
    assert!(r.output.unwrap().contains("module.exports = a"));
}

#[test]
fn unresolvable_target_keeps_commonjs() {
    let explicit = options(0, 0, 1, Some("nosuchbrowser1"));
    let src = b"import x = require(\"y\");\nconsole.log(x);";
    let r = transformjs_transform(Some(src), Some(b"input.ts"), Some(&explicit));
    assert_eq!(r.success, 0);
    assert!(r.output.unwrap().contains("require(\"y\")"));
}
