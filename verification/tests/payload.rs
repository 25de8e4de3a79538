use menote_launcher::payload::{Unpack, UnpackError, UnpackStep, Unpacker};
use std::io::{Cursor, Write};
use zip::write::SimpleFileOptions;
use zip::ZipWriter;

enum Item<'a> {
    Dir(&'a str),
    File(&'a str, &'a [u8]),
}

fn archive(items: &[Item]) -> Vec<u8> {
    let mut w = ZipWriter::new(Cursor::new(Vec::new()));
    for item in items {
        match item {
            Item::Dir(name) => w.add_directory(*name, SimpleFileOptions::default()).unwrap(),
            Item::File(name, data) => {
                w.start_file(*name, SimpleFileOptions::default()).unwrap();
                w.write_all(data).unwrap();
            }
        }
    }
    w.finish().unwrap().into_inner()
}

fn all_steps(bytes: Vec<u8>) -> Vec<UnpackStep> {
    let mut u = Unpacker::open(bytes).unwrap();
    let mut steps = Vec::new();
    while let Some(step) = u.next_step().unwrap() {
        steps.push(step);
    }
    steps
}

#[test]
fn directories_and_files_come_out_in_order() {
    let bytes = archive(&[
        Item::Dir("lib"),
        Item::File("lib/a.js", b"module.exports = 1;\n"),
        Item::File("server.js", b"require('./lib/a.js');\n"),
    ]);
    let steps = all_steps(bytes);
    assert_eq!(steps.len(), 3);
    match &steps[0].action {
        Unpack::CreateDir(rel) => assert_eq!(rel, "lib/"),
        _ => panic!("expected a directory"),
    }
    assert!(steps[0].entry.is_dir);
    assert_eq!(steps[0].entry.name, "lib/");
    assert_eq!(steps[0].entry.safe_name.as_deref(), Some("lib/"));
    assert_eq!(
        steps[0].status.as_deref(),
        Some("正在释放运行环境… 33%（首次或更新后约需 10~60 秒）")
    );
    match &steps[1].action {
        Unpack::WriteFile(rel, data) => {
            assert_eq!(rel, "lib/a.js");
            assert_eq!(data.as_slice(), b"module.exports = 1;\n");
        }
        _ => panic!("expected a file"),
    }
    match &steps[2].action {
        Unpack::WriteFile(rel, data) => {
            assert_eq!(rel, "server.js");
            assert_eq!(data.as_slice(), b"require('./lib/a.js');\n");
        }
        _ => panic!("expected a file"),
    }
}

#[test]
fn compressed_content_is_unpacked() {
    let text = "MeNote ".repeat(500);
    let mut w = ZipWriter::new(Cursor::new(Vec::new()));
    let options =
        SimpleFileOptions::default().compression_method(zip::CompressionMethod::Deflated);
    w.start_file("notes.txt", options).unwrap();
    w.write_all(text.as_bytes()).unwrap();
    let bytes = w.finish().unwrap().into_inner();
    assert!(bytes.len() < text.len());
    let steps = all_steps(bytes);
    match &steps[0].action {
        Unpack::WriteFile(rel, data) => {
            assert_eq!(rel, "notes.txt");
            assert_eq!(data.as_slice(), text.as_bytes());
        }
        _ => panic!("expected a file"),
    }
}

#[test]
fn names_leading_outside_are_left_out() {
    let bytes = archive(&[
        Item::File("../evil.txt", b"x"),
        Item::File("/etc/evil", b"x"),
        Item::File("a/../../evil", b"x"),
        Item::File("ok.txt", b"fine"),
    ]);
    let steps = all_steps(bytes);
    assert_eq!(steps.len(), 4);
    assert!(matches!(steps[0].action, Unpack::Skip));
    assert!(matches!(steps[1].action, Unpack::Skip));
    assert!(matches!(steps[2].action, Unpack::Skip));
    assert_eq!(steps[0].entry.name, "../evil.txt");
    assert!(steps[0].entry.safe_name.is_none());
    assert!(steps[1].entry.safe_name.is_none());
    assert_eq!(
        steps[0].status.as_deref(),
        Some("正在释放运行环境… 25%（首次或更新后约需 10~60 秒）")
    );
    match &steps[3].action {
        Unpack::WriteFile(rel, data) => {
            assert_eq!(rel, "ok.txt");
            assert_eq!(data.as_slice(), b"fine");
        }
        _ => panic!("expected a file"),
    }
    assert_eq!(
        steps[3].status.as_deref(),
        Some("正在释放运行环境… 100%（首次或更新后约需 10~60 秒）")
    );
}

#[test]
fn progress_is_reported_each_tenth_after_files() {
    let names: Vec<String> = (0..20).map(|i| format!("f{i}.txt")).collect();
    let items: Vec<Item> = names.iter().map(|n| Item::File(n.as_str(), b"d")).collect();
    let steps = all_steps(archive(&items));
    let reported: Vec<String> = steps.iter().filter_map(|s| s.status.clone()).collect();
    assert_eq!(reported.len(), 10);
    assert_eq!(reported[0], "正在释放运行环境… 10%（首次或更新后约需 10~60 秒）");
    assert_eq!(reported[9], "正在释放运行环境… 100%（首次或更新后约需 10~60 秒）");
    assert!(steps[0].status.is_none());
    assert!(steps[1].status.is_some());
    assert!(steps[19].status.is_some());
}

#[test]
fn directories_report_progress_too() {
    let steps = all_steps(archive(&[Item::Dir("a"), Item::Dir("b")]));
    assert_eq!(steps.len(), 2);
    assert_eq!(
        steps[0].status.as_deref(),
        Some("正在释放运行环境… 50%（首次或更新后约需 10~60 秒）")
    );
    assert_eq!(
        steps[1].status.as_deref(),
        Some("正在释放运行环境… 100%（首次或更新后约需 10~60 秒）")
    );
}

#[test]
fn archive_ending_in_a_directory_reaches_full_progress() {
    let steps = all_steps(archive(&[Item::File("a.txt", b"a"), Item::Dir("z")]));
    assert!(matches!(steps[1].action, Unpack::CreateDir(_)));
    assert_eq!(
        steps[1].status.as_deref(),
        Some("正在释放运行环境… 100%（首次或更新后约需 10~60 秒）")
    );
}

#[test]
fn skipped_entries_report_progress() {
    let steps = all_steps(archive(&[Item::File("ok", b"1"), Item::File("../x", b"2")]));
    assert!(matches!(steps[1].action, Unpack::Skip));
    assert_eq!(
        steps[1].status.as_deref(),
        Some("正在释放运行环境… 100%（首次或更新后约需 10~60 秒）")
    );
}

#[test]
fn accepted_name_with_backslash_is_written_as_named() {
    let steps = all_steps(archive(&[Item::File("lib\\b.js", b"b")]));
    match (&steps[0].entry.safe_name, &steps[0].action) {
        (Some(safe), Unpack::WriteFile(rel, data)) => {
            assert_eq!(safe, rel);
            assert_eq!(rel, "lib\\b.js");
            assert_eq!(data.as_slice(), b"b");
        }
        (None, Unpack::Skip) => {}
        _ => panic!("the step must follow the header's verdict"),
    }
}

#[test]
fn unreadable_payload_is_reported() {
    match Unpacker::open(b"not a zip archive".to_vec()) {
        Err(msg) => assert!(msg.starts_with("读取 payload.zip 失败：")),
        Ok(_) => panic!("garbage opened as an archive"),
    }
}

#[test]
fn finished_unpacker_stays_finished() {
    let mut u = Unpacker::open(archive(&[Item::File("a", b"1")])).unwrap();
    assert!(u.next_step().unwrap().is_some());
    assert!(u.next_step().unwrap().is_none());
    assert!(u.next_step().unwrap().is_none());
}

#[test]
fn names_climbing_out_later_are_left_out() {
    let steps = all_steps(archive(&[
        Item::File("a/../../x", b"1"),
        Item::File("a/b/../../../x", b"2"),
        Item::File("a/./../b", b"3"),
        Item::File("a//b/..", b"4"),
    ]));
    assert!(matches!(steps[0].action, Unpack::Skip));
    assert!(matches!(steps[1].action, Unpack::Skip));
    match &steps[2].action {
        Unpack::WriteFile(rel, data) => {
            assert_eq!(rel, "a/./../b");
            assert_eq!(data.as_slice(), b"3");
        }
        _ => panic!("a name that stays inside is written"),
    }
    assert!(matches!(steps[3].action, Unpack::WriteFile(_, _)));
}

#[test]
fn error_message_is_the_shown_text() {
    let e = UnpackError::Entry("读取压缩条目失败：bad".to_string());
    assert_eq!(e.message(), "读取压缩条目失败：bad");
}
