use menote_launcher::runtime::{
    entry_action, junction_action, lock_file_content, lock_needed, progress_report,
    runtime_is_current, runtime_plan, unpack_status, EntryAction, JunctionAction, RuntimeStep,
};

fn names(plan: &[RuntimeStep]) -> Vec<String> {
    plan.iter()
        .map(|s| match s {
            RuntimeStep::Announce(t) => format!("announce:{t}"),
            RuntimeStep::DetachDataLink => "detach-data".to_string(),
            RuntimeStep::DetachUploadLink => "detach-upload".to_string(),
            RuntimeStep::RemoveStaleBackup => "remove-backup".to_string(),
            RuntimeStep::MoveRuntimeAside => "move-aside".to_string(),
            RuntimeStep::DropBackup => "drop-backup".to_string(),
            RuntimeStep::CreateRuntime => "create".to_string(),
            RuntimeStep::ExtractPayload => "extract".to_string(),
            RuntimeStep::WriteMarker(v) => format!("marker:{v}"),
        })
        .collect()
}

#[test]
fn marker_must_match_the_package_version() {
    assert!(runtime_is_current(true, true, Some("1.2.0".to_string()), "1.2.0"));
    assert!(runtime_is_current(true, true, Some("  1.2.0\r\n".to_string()), "1.2.0"));
    assert!(runtime_is_current(true, true, Some("\u{3000}1.2.0\u{a0}".to_string()), "1.2.0"));
    assert!(!runtime_is_current(true, true, Some("1.1.9".to_string()), "1.2.0"));
    assert!(!runtime_is_current(true, true, Some("1.2 .0".to_string()), "1.2.0"));
    assert!(!runtime_is_current(true, true, None, "1.2.0"));
    assert!(!runtime_is_current(false, true, Some("1.2.0".to_string()), "1.2.0"));
    assert!(!runtime_is_current(true, false, Some("1.2.0".to_string()), "1.2.0"));
}

#[test]
fn marker_comparison_edges() {
    assert!(runtime_is_current(true, true, Some(" \t\n".to_string()), ""));
    assert!(runtime_is_current(true, true, Some(String::new()), ""));
    assert!(!runtime_is_current(true, true, Some("1.2.0".to_string()), "1.2.0 "));
    assert!(!runtime_is_current(true, true, Some("1.2.00".to_string()), "1.2.0"));
    assert!(!runtime_is_current(true, true, Some("x1.2.0".to_string()), "1.2.0"));
    assert!(runtime_is_current(true, true, Some("版本\u{2029}".to_string()), "版本"));
}

#[test]
fn current_runtime_is_left_alone() {
    assert!(runtime_plan("1.2.0", true, true, true).is_empty());
}

#[test]
fn first_install_unpacks_and_writes_marker_last() {
    assert_eq!(
        names(&runtime_plan("1.2.0", false, false, false)),
        vec![
            "announce:正在准备运行环境（版本 1.2.0）…首次或更新后约需 10~60 秒",
            "create",
            "extract",
            "marker:1.2.0"
        ]
    );
}

#[test]
fn update_detaches_junctions_before_clearing() {
    assert_eq!(
        names(&runtime_plan("2.0.0", false, true, true)),
        vec![
            "announce:正在准备运行环境（版本 2.0.0）…首次或更新后约需 10~60 秒",
            "detach-data",
            "detach-upload",
            "remove-backup",
            "move-aside",
            "drop-backup",
            "create",
            "extract",
            "marker:2.0.0"
        ]
    );
    assert_eq!(
        names(&runtime_plan("2.0.0", false, true, false))[1..6].to_vec(),
        vec!["detach-data", "detach-upload", "move-aside", "drop-backup", "create"]
    );
}

#[test]
fn lock_is_written_only_when_installed_and_missing() {
    assert!(lock_needed(true, false));
    assert!(!lock_needed(true, true));
    assert!(!lock_needed(false, false));
    assert!(!lock_needed(false, true));
}

#[test]
fn lock_content_records_the_version() {
    assert_eq!(
        lock_file_content("1.0.3"),
        "// 本文件标识系统已安装，不可删除。\nmodule.exports = {\n    install: true,\n    version: '1.0.3'\n};\n"
    );
}

#[test]
fn unsafe_entries_are_skipped() {
    assert!(matches!(entry_action(None, false), EntryAction::Skip));
    assert!(matches!(entry_action(None, true), EntryAction::Skip));
    match entry_action(Some("lib/a.js".to_string()), false) {
        EntryAction::WriteFile(p) => assert_eq!(p, "lib/a.js"),
        _ => panic!("expected a file"),
    }
    match entry_action(Some("lib".to_string()), true) {
        EntryAction::CreateDir(p) => assert_eq!(p, "lib"),
        _ => panic!("expected a directory"),
    }
}

#[test]
fn progress_is_reported_once_per_tenth() {
    let total = 25u64;
    let mut last = 0u64;
    let mut reported = Vec::new();
    for done in 1..=total {
        if let Some(p) = progress_report(done, total, last) {
            last = p / 10;
            reported.push(p);
        }
    }
    assert_eq!(reported, vec![12, 20, 32, 40, 52, 60, 72, 80, 92, 100]);
}

#[test]
fn progress_with_few_entries() {
    assert_eq!(progress_report(1, 1, 0), Some(100));
    assert_eq!(progress_report(1, 3, 0), Some(33));
    assert_eq!(progress_report(2, 3, 3), Some(66));
    assert_eq!(progress_report(1, 20, 0), None);
    assert_eq!(progress_report(5, 5, 10), None);
}

#[test]
fn unpack_status_text() {
    assert_eq!(unpack_status(40), "正在释放运行环境… 40%（首次或更新后约需 10~60 秒）");
    assert_eq!(unpack_status(100), "正在释放运行环境… 100%（首次或更新后约需 10~60 秒）");
}

#[test]
fn junction_decisions() {
    assert_eq!(junction_action(false, false), JunctionAction::Create);
    assert_eq!(junction_action(true, true), JunctionAction::Keep);
    assert_eq!(junction_action(true, false), JunctionAction::Replace);
}

#[test]
fn rebuilt_runtime_is_current_at_next_start() {
    let plan = runtime_plan("2.0.1", false, true, false);
    match plan.last() {
        Some(RuntimeStep::WriteMarker(v)) => {
            assert!(runtime_is_current(true, true, Some(v.clone()), "2.0.1"));
        }
        _ => panic!("a rebuild ends by writing the marker"),
    }
}
