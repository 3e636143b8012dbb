use app_dist::arch::Arch;
use app_dist::link::LinkAction;
use app_dist::retention::RetentionPlan;
use app_dist::scan::{get_latest_file, Artifact, ScanEntry};
use app_dist::target::Target;
use app_dist::PipelineError;

fn entry(name: &str, is_file: bool, meta_known: bool, is_symlink: bool) -> ScanEntry {
    ScanEntry { name: name.to_string(), is_file, meta_known, is_symlink }
}

fn artifact(name: &str, mtime: u64) -> Artifact {
    Artifact { name: name.to_string(), mtime }
}

#[test]
fn test_arch_classification() {
    assert_eq!(Arch::from_str("app-v1-arm64.apk"), Some(Arch::Arm64));
    assert_eq!(Arch::from_str("app-v1-amd64.apk"), Some(Arch::Amd64));
    assert_eq!(Arch::from_str("app-v1-arm.apk"), Some(Arch::Arm));
    assert_eq!(Arch::from_str("app-v1.apk"), None);
}

#[test]
fn test_arch_classification_is_case_insensitive() {
    assert_eq!(Arch::from_str("APP-ARM64.APK"), Some(Arch::Arm64));
    assert_eq!(Arch::from_str("App-Amd64.zip"), Some(Arch::Amd64));
}

#[test]
fn test_arch_tokens() {
    assert_eq!(Arch::Arm64.token(), "arm64");
    assert_eq!(Arch::Amd64.token(), "amd64");
    assert_eq!(Arch::Arm.token(), "arm");
}

#[test]
fn test_target_attributes() {
    assert_eq!(Target::Android.name(), "android");
    assert_eq!(Target::Android.suffix(), "apk");
    assert!(Target::Android.publishes_url());
    assert_eq!(Target::Ios.suffix(), "ipa");
    assert!(!Target::Ios.publishes_url());
    assert_eq!(Target::Mac.suffix(), "app.zip");
    assert!(!Target::Mac.publishes_url());
    assert_eq!(Target::Linux.suffix(), "AppImage");
    assert!(Target::Linux.publishes_url());
    assert_eq!(Target::Windows.suffix(), "win.zip");
    assert!(Target::Windows.publishes_url());
}

#[test]
fn test_target_from_name() {
    assert_eq!(Target::from_name("android"), Some(Target::Android));
    assert_eq!(Target::from_name("ios"), Some(Target::Ios));
    assert_eq!(Target::from_name("mac"), Some(Target::Mac));
    assert_eq!(Target::from_name("linux"), Some(Target::Linux));
    assert_eq!(Target::from_name("windows"), Some(Target::Windows));
    assert_eq!(Target::from_name("web"), None);
    assert_eq!(Target::from_name("Android"), None);
}

#[test]
fn test_scan_filters_candidates() {
    let entries = vec![
        entry("app-1.apk", true, true, false),
        entry("notes.txt", true, true, false),
        entry("latest.apk", true, true, true),
        entry("app-2.apk", true, false, false),
        entry("subdir.apk", false, true, false),
        entry("app-3.apk", true, true, false),
    ];
    let found = Target::Android.find_files_without_link(&entries);
    assert_eq!(found, vec!["app-1.apk", "app-3.apk"]);
}

#[test]
fn test_scan_suffix_with_embedded_dot() {
    let entries = vec![
        entry("a.app.zip", true, true, false),
        entry("a.win.zip", true, true, false),
        entry("plain.zip", true, true, false),
    ];
    let mac = Target::Mac.find_files_without_link(&entries);
    assert_eq!(mac, vec!["a.app.zip"]);
    let win = Target::Windows.find_files_without_link(&entries);
    assert_eq!(win, vec!["a.win.zip"]);
}

#[test]
fn test_latest_picks_first_of_ties() {
    let entries = vec![artifact("t1", 5), artifact("t2", 9), artifact("t3", 9)];
    assert_eq!(get_latest_file(&entries), Ok(1));
}

#[test]
fn test_latest_single_and_empty() {
    let one = vec![artifact("only", 7)];
    assert_eq!(get_latest_file(&one), Ok(0));
    let none: Vec<Artifact> = vec![];
    assert!(matches!(get_latest_file(&none), Err(PipelineError::EmptyCandidates)));
}

#[test]
fn test_retention_flag_off() {
    let entries = vec![artifact("a", 1), artifact("b", 2)];
    let plan = Target::Android.rm_old_files(&entries, &artifact("b", 2), false);
    assert!(matches!(plan, RetentionPlan::Skipped));
}

#[test]
fn test_retention_single_candidate() {
    let entries = vec![artifact("only", 1)];
    let plan = Target::Android.rm_old_files(&entries, &artifact("only", 1), true);
    assert!(matches!(plan, RetentionPlan::NothingToRemove));
}

#[test]
fn test_retention_doomed_set() {
    let entries = vec![artifact("a", 1), artifact("b", 9), artifact("c", 3)];
    let plan = Target::Android.rm_old_files(&entries, &artifact("b", 9), true);
    match plan {
        RetentionPlan::Confirm { count, doomed } => {
            assert_eq!(count, 2);
            assert_eq!(doomed, vec!["a", "c"]);
        },
        _ => panic!("expected a confirmation plan"),
    }
}

#[test]
fn test_link_disabled() {
    let action = Target::Android.set_link(false, None, "dist", "app-4.apk");
    assert!(matches!(action, LinkAction::Skipped));
}

#[test]
fn test_link_already_correct() {
    let bare = "app-4.apk".to_string();
    let action = Target::Android.set_link(true, Some(&bare), "dist", "app-4.apk");
    assert!(matches!(action, LinkAction::AlreadyCorrect));
    let qualified = "/srv/dist/app-4.apk".to_string();
    let action = Target::Android.set_link(true, Some(&qualified), "/srv/dist", "app-4.apk");
    assert!(matches!(action, LinkAction::AlreadyCorrect));
}

#[test]
fn test_link_relative_qualified_payload_is_stale() {
    // Read from the link's own directory, `dist/app-4.apk` would reach
    // `dist/dist/app-4.apk`: such a link does not resolve to the
    // artifact and is re-created.
    let qualified = "dist/app-4.apk".to_string();
    let action = Target::Android.set_link(true, Some(&qualified), "dist", "app-4.apk");
    match action {
        LinkAction::Replace(payload) => assert_eq!(payload, "app-4.apk"),
        _ => panic!("expected a replacement"),
    }
}

#[test]
fn test_link_replace_uses_bare_filename() {
    let stale = "app-3.apk".to_string();
    let action = Target::Android.set_link(true, Some(&stale), "dist", "app-4.apk");
    match action {
        LinkAction::Replace(payload) => assert_eq!(payload, "app-4.apk"),
        _ => panic!("expected a replacement"),
    }
    let action = Target::Android.set_link(true, None, "dist", "app-4.apk");
    match action {
        LinkAction::Replace(payload) => assert_eq!(payload, "app-4.apk"),
        _ => panic!("expected a replacement"),
    }
}

#[test]
fn test_link_empty_filename() {
    let action = Target::Android.set_link(true, None, "dist", "");
    assert!(matches!(action, LinkAction::NoFileName));
}

#[test]
fn test_link_path() {
    assert_eq!(Target::Android.link_file("dist"), "dist/latest.apk");
    assert_eq!(Target::Mac.link_file("."), "./latest.app.zip");
}

#[test]
fn test_error_messages_nonempty() {
    assert!(!PipelineError::EmptyCandidates.message().is_empty());
    assert!(!PipelineError::ManifestParse.message().is_empty());
    assert!(!PipelineError::ManifestStructure.message().is_empty());
}
