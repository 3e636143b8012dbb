use app_dist::cli::Ctx;
use app_dist::prompt::{interpret_answer, parse_answer};
use app_dist::util::get_dir_name;
use app_dist::version::{extract_version, parse_version_input, VersionScan};

#[test]
fn test_parse() {
    let ctx = Ctx::parse_from(&["-d", "test_dir", "android"]);
    assert_eq!(ctx.rm_old_files, true);
    assert_eq!(ctx.targets, vec!["android"]);
    assert_eq!(ctx.link, true);
    assert_eq!(ctx.change_json, true);
    assert_eq!(ctx.dir, "test_dir");
}

#[test]
fn test_parse_defaults() {
    let ctx = Ctx::parse_from(&[]);
    assert_eq!(ctx.rm_old_files, true);
    assert_eq!(ctx.link, true);
    assert_eq!(ctx.change_json, true);
    assert_eq!(ctx.dir, ".");
    assert!(ctx.targets.is_empty());
}

#[test]
fn test_parse_long_options_and_targets() {
    let ctx = Ctx::parse_from(&["--dir", "dist", "android", "linux", "-r"]);
    assert_eq!(ctx.dir, "dist");
    assert_eq!(ctx.targets, vec!["android", "linux"]);
    assert_eq!(ctx.rm_old_files, true);
}

#[test]
fn test_parse_trailing_dir_without_value() {
    let ctx = Ctx::parse_from(&["android", "-d"]);
    assert_eq!(ctx.dir, ".");
    assert_eq!(ctx.targets, vec!["android"]);
}

#[test]
fn test_get_dir_name() {
    assert_eq!(get_dir_name("a").unwrap(), "a");
    assert_eq!(get_dir_name("a/b/c").unwrap(), "c");
    assert_eq!(get_dir_name("."), None);
}

#[test]
fn test_get_dir_name_trailing_slash() {
    assert_eq!(get_dir_name("a/b/").unwrap(), "");
}

#[test]
fn test_extract_version_digit_run() {
    assert_eq!(extract_version("app-4-arm64.apk"), VersionScan::Found(4));
    assert_eq!(extract_version("v1.2.3"), VersionScan::Found(1));
    assert_eq!(extract_version("release-456-x"), VersionScan::Found(456));
    assert_eq!(extract_version("007.apk"), VersionScan::Found(7));
}

#[test]
fn test_extract_version_no_digits() {
    assert_eq!(extract_version("app.apk"), VersionScan::NoDigits);
    assert_eq!(extract_version(""), VersionScan::NoDigits);
}

#[test]
fn test_extract_version_bounds() {
    assert_eq!(extract_version("a4294967295b"), VersionScan::Found(u32::MAX));
    assert_eq!(extract_version("a4294967296b"), VersionScan::TooLarge);
    assert_eq!(extract_version("a99999999999999b"), VersionScan::TooLarge);
}

#[test]
fn test_parse_version_input() {
    assert_eq!(parse_version_input("42"), Some(42));
    assert_eq!(parse_version_input("0"), Some(0));
    assert_eq!(parse_version_input("4294967295"), Some(u32::MAX));
}

#[test]
fn test_parse_version_input_rejects() {
    assert_eq!(parse_version_input(""), None);
    assert_eq!(parse_version_input("abc"), None);
    assert_eq!(parse_version_input("-1"), None);
    assert_eq!(parse_version_input("12 "), None);
    assert_eq!(parse_version_input("4294967296"), None);
}

#[test]
fn test_parse_answer_default_on_bare_newline() {
    assert_eq!(parse_answer("\n", true), Some(true));
    assert_eq!(parse_answer("\n", false), Some(false));
}

#[test]
fn test_parse_answer_words() {
    assert_eq!(parse_answer("y\n", false), Some(true));
    assert_eq!(parse_answer("yes\n", false), Some(true));
    assert_eq!(parse_answer("n\n", true), Some(false));
    assert_eq!(parse_answer("no\n", true), Some(false));
    assert_eq!(parse_answer("maybe\n", true), None);
}

#[test]
fn test_parse_answer_folds_case() {
    assert_eq!(parse_answer("YES\n", false), Some(true));
    assert_eq!(parse_answer("  N  \n", true), Some(false));
}

#[test]
fn test_interpret_answer() {
    assert_eq!(interpret_answer(" yes "), Some(true));
    assert_eq!(interpret_answer("no"), Some(false));
    assert_eq!(interpret_answer(""), None);
    assert_eq!(interpret_answer("nope"), None);
}
