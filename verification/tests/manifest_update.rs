use app_dist::arch::Arch;
use app_dist::diff::{render_diff, split_lines};
use app_dist::link::LinkAction;
use app_dist::manifest::{build_url, parse_manifest, ChangeStep, UpdatePlan};
use app_dist::target::Target;
use app_dist::version::{extract_version, VersionScan};
use app_dist::PipelineError;

#[test]
fn test_parse_manifest_rejects_bad_json() {
    assert!(matches!(parse_manifest("{ not json"), Err(PipelineError::ManifestParse)));
    assert!(parse_manifest("{}").is_ok());
}

#[test]
fn test_build_url() {
    assert_eq!(
        build_url("app_dist", "app-4-arm64.apk"),
        "https://cdn.lolli.tech/app_dist/app-4-arm64.apk"
    );
}

#[test]
fn test_split_lines() {
    assert_eq!(split_lines("a\nb"), vec!["a", "b"]);
    assert_eq!(split_lines(""), vec![""]);
    assert_eq!(split_lines("a\n"), vec!["a", ""]);
    assert_eq!(split_lines("\n\n"), vec!["", "", ""]);
}

#[test]
fn test_render_diff_marks_changed_pairs() {
    let old_lines = vec!["same".to_string(), "x".to_string(), "tail".to_string()];
    let new_lines = vec!["same".to_string(), "y".to_string(), "tail".to_string()];
    let out = render_diff(&old_lines, &new_lines);
    assert_eq!(out, vec!["-  x", "+  y"]);
}

#[test]
fn test_render_diff_empty_sides() {
    let old_lines = vec!["gone".to_string(), "".to_string()];
    let new_lines = vec!["".to_string(), "new".to_string()];
    let out = render_diff(&old_lines, &new_lines);
    assert_eq!(out, vec!["-  gone", "+  new"]);
}

#[test]
fn test_version_up_to_date_guard() {
    let v = parse_manifest(r#"{"build":{"last":{"android":3}},"urls":{}}"#).unwrap();
    assert!(Target::Android.version_up_to_date(&v, 3));
    assert!(!Target::Android.version_up_to_date(&v, 4));
    let empty = parse_manifest("{}").unwrap();
    assert!(!Target::Android.version_up_to_date(&empty, 3));
    assert!(empty.to_string() == "{}");
}

#[test]
fn test_change_json_updates_version_and_url() {
    let old_text = r#"{"build":{"last":{"android":3}},"urls":{}}"#;
    let mut v = parse_manifest(old_text).unwrap();
    let file_name = "app-4-arm64.apk";
    let version = match extract_version(file_name) {
        VersionScan::Found(n) => n,
        _ => panic!("the filename holds a version"),
    };
    assert_eq!(version, 4);
    assert!(!Target::Android.version_up_to_date(&v, version));
    let arch = Arch::from_str(file_name).unwrap();
    let arch_token = arch.token().to_string();
    let plan: UpdatePlan = Target::Android
        .change_json(&mut v, file_name, version, Some(&arch_token), "dist", old_text)
        .unwrap();
    let expected: serde_json::Value = serde_json::from_str(
        r#"{"build":{"last":{"android":4}},"urls":{"android":{"arm64":"https://cdn.lolli.tech/dist/app-4-arm64.apk"}}}"#,
    )
    .unwrap();
    assert_eq!(v, expected);
    assert_eq!(plan.new_text, serde_json::to_string_pretty(&expected).unwrap());
    assert!(plan.diff_lines.iter().any(|l| l.starts_with("+  ")));
    assert!(plan.diff_lines.iter().any(|l| l.starts_with("-  ")));
    assert!(plan.diff_lines.iter().all(|l| l.starts_with("+  ") || l.starts_with("-  ")));
}

#[test]
fn test_change_json_keeps_other_fields() {
    let old_text = r#"{"build":{"last":{"android":3,"ios":9},"extra":true},"urls":{"linux":{"amd64":"u"}},"note":"keep"}"#;
    let mut v = parse_manifest(old_text).unwrap();
    let arch_token = "arm64".to_string();
    Target::Android
        .change_json(&mut v, "app-4-arm64.apk", 4, Some(&arch_token), "dist", old_text)
        .unwrap();
    assert_eq!(v["build"]["last"]["ios"], 9);
    assert_eq!(v["build"]["extra"], true);
    assert_eq!(v["note"], "keep");
    assert_eq!(v["urls"]["linux"]["amd64"], "u");
    assert_eq!(v["build"]["last"]["android"], 4);
}

#[test]
fn test_change_json_non_publishing_target_skips_url() {
    let old_text = r#"{"build":{"last":{}},"urls":{}}"#;
    let mut v = parse_manifest(old_text).unwrap();
    Target::Ios.change_json(&mut v, "app-5.ipa", 5, None, "dist", old_text).unwrap();
    let expected: serde_json::Value =
        serde_json::from_str(r#"{"build":{"last":{"ios":5}},"urls":{}}"#).unwrap();
    assert_eq!(v, expected);
}

#[test]
fn test_change_json_structure_error() {
    let old_text = r#"{"build":"frozen"}"#;
    let mut v = parse_manifest(old_text).unwrap();
    let arch_token = "arm64".to_string();
    let r = Target::Android.change_json(&mut v, "app-4.apk", 4, Some(&arch_token), "dist", old_text);
    assert!(matches!(r, Err(PipelineError::ManifestStructure)));
}

#[test]
fn test_plan_change_steps() {
    let v = parse_manifest(r#"{"build":{"last":{"android":3}},"urls":{}}"#).unwrap();
    assert_eq!(Target::Android.plan_change(false, None, "app-4.apk"), ChangeStep::Skipped);
    assert_eq!(
        Target::Android.plan_change(true, Some(&v), "app-4.apk"),
        ChangeStep::Proceed(4)
    );
    assert_eq!(
        Target::Android.plan_change(true, Some(&v), "app-3.apk"),
        ChangeStep::UpToDate(3)
    );
    assert_eq!(
        Target::Android.plan_change(true, Some(&v), "app.apk"),
        ChangeStep::NeedsVersion
    );
    assert_eq!(
        Target::Android.plan_change(true, Some(&v), "app-4294967296.apk"),
        ChangeStep::BadVersion
    );
}

#[test]
fn test_plan_change_with_input_steps() {
    let v = parse_manifest(r#"{"build":{"last":{"android":3}},"urls":{}}"#).unwrap();
    assert_eq!(Target::Android.plan_change_with_input(&v, "4"), ChangeStep::Proceed(4));
    assert_eq!(Target::Android.plan_change_with_input(&v, "3"), ChangeStep::UpToDate(3));
    assert_eq!(Target::Android.plan_change_with_input(&v, "x4"), ChangeStep::BadVersion);
    assert_eq!(Target::Android.plan_change_with_input(&v, ""), ChangeStep::BadVersion);
}

#[test]
fn test_second_run_makes_no_changes() {
    let old_text = r#"{"build":{"last":{"android":3}},"urls":{}}"#;
    let mut v = parse_manifest(old_text).unwrap();
    let file_name = "app-4-arm64.apk";
    let arch_token = "arm64".to_string();
    let plan = Target::Android
        .change_json(&mut v, file_name, 4, Some(&arch_token), "dist", old_text)
        .unwrap();
    let second = parse_manifest(&plan.new_text).unwrap();
    assert_eq!(second, v);
    assert!(Target::Android.version_up_to_date(&second, 4));
    assert_eq!(
        Target::Android.plan_change(true, Some(&second), file_name),
        ChangeStep::UpToDate(4)
    );
    let payload = file_name.to_string();
    let action = Target::Android.set_link(true, Some(&payload), "dist", file_name);
    assert!(matches!(action, LinkAction::AlreadyCorrect));
}
