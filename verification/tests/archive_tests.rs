use dtx::archive::{plan_zip_extraction, step_for_entry, ExtractStep, ZipEntry};
use dtx::error::CacheError;
use dtx::platform::Platform;
use std::io::{Cursor, Write};
use zip::write::SimpleFileOptions;
use zip::{CompressionMethod, ZipWriter};

fn sample_archive(method: CompressionMethod) -> Vec<u8> {
    let mut writer = ZipWriter::new(Cursor::new(Vec::new()));
    let plain = SimpleFileOptions::default().compression_method(method);
    writer.add_directory("bin/", plain.unix_permissions(0o755)).unwrap();
    writer.start_file("bin/app", plain.unix_permissions(0o755)).unwrap();
    writer.write_all(b"#!/bin/sh\necho hello\n").unwrap();
    writer.start_file("README", plain.unix_permissions(0o644)).unwrap();
    writer.write_all(b"read me first").unwrap();
    writer.finish().unwrap().into_inner()
}

fn position(haystack: &[u8], needle: &[u8]) -> usize {
    let mut at = 0;
    while at + needle.len() <= haystack.len() {
        if &haystack[at..at + needle.len()] == needle {
            return at;
        }
        at += 1;
    }
    panic!("needle is not in the archive");
}

#[test]
fn plan_lists_every_entry_in_order() {
    let plan = plan_zip_extraction(sample_archive(CompressionMethod::Stored), "/c/t/key", Platform::Posix);
    assert!(plan.failure.is_none());
    assert_eq!(plan.steps.len(), 3);
    match &plan.steps[0] {
        ExtractStep::CreateDir { path } => assert_eq!(path, "/c/t/key/bin/"),
        other => panic!("unexpected step {:?}", other),
    }
    match &plan.steps[1] {
        ExtractStep::WriteFile { path, data, mode } => {
            assert_eq!(path, "/c/t/key/bin/app");
            assert_eq!(data.as_slice(), b"#!/bin/sh\necho hello\n");
            assert_eq!(*mode, Some(0o100755));
        }
        other => panic!("unexpected step {:?}", other),
    }
    match &plan.steps[2] {
        ExtractStep::WriteFile { path, data, mode } => {
            assert_eq!(path, "/c/t/key/README");
            assert_eq!(data.as_slice(), b"read me first");
            assert_eq!(*mode, Some(0o100644));
        }
        other => panic!("unexpected step {:?}", other),
    }
}

#[test]
fn plan_reads_deflated_entries() {
    let plan =
        plan_zip_extraction(sample_archive(CompressionMethod::Deflated), "out", Platform::Posix);
    assert!(plan.failure.is_none());
    assert_eq!(plan.steps.len(), 3);
    match &plan.steps[1] {
        ExtractStep::WriteFile { path, data, .. } => {
            assert_eq!(path, "out/bin/app");
            assert_eq!(data.as_slice(), b"#!/bin/sh\necho hello\n");
        }
        other => panic!("unexpected step {:?}", other),
    }
}

#[test]
fn plan_drops_modes_on_windows() {
    let plan =
        plan_zip_extraction(sample_archive(CompressionMethod::Stored), "out", Platform::Windows);
    assert!(plan.failure.is_none());
    assert_eq!(plan.steps.len(), 3);
    for step in &plan.steps {
        if let ExtractStep::WriteFile { mode, .. } = step {
            assert_eq!(*mode, None);
        }
    }
}

#[test]
fn plan_of_an_empty_archive_is_empty() {
    let bytes = ZipWriter::new(Cursor::new(Vec::new())).finish().unwrap().into_inner();
    let plan = plan_zip_extraction(bytes, "out", Platform::Posix);
    assert!(plan.failure.is_none());
    assert!(plan.steps.is_empty());
}

#[test]
fn plan_of_bytes_that_are_no_archive_fails_without_steps() {
    let plan = plan_zip_extraction(b"this is not a zip archive".to_vec(), "out", Platform::Posix);
    assert!(plan.steps.is_empty());
    match plan.failure {
        Some(CacheError::Extraction(text)) => assert!(!text.is_empty()),
        other => panic!("unexpected failure {:?}", other),
    }
    let plan = plan_zip_extraction(Vec::new(), "out", Platform::Posix);
    assert!(plan.steps.is_empty());
    assert!(matches!(plan.failure, Some(CacheError::Extraction(_))));
}

#[test]
fn plan_keeps_the_steps_before_a_damaged_entry() {
    let mut bytes = sample_archive(CompressionMethod::Stored);
    let at = position(&bytes, b"read me first");
    bytes[at] = b'R';
    let plan = plan_zip_extraction(bytes, "out", Platform::Posix);
    assert_eq!(plan.steps.len(), 2);
    assert!(matches!(&plan.steps[0], ExtractStep::CreateDir { path } if path == "out/bin/"));
    assert!(matches!(&plan.steps[1], ExtractStep::WriteFile { path, .. } if path == "out/bin/app"));
    assert!(matches!(plan.failure, Some(CacheError::Extraction(_))));
}

#[test]
fn plan_stops_at_the_first_damaged_entry() {
    let mut bytes = sample_archive(CompressionMethod::Stored);
    let at = position(&bytes, b"echo hello");
    bytes[at] = b'E';
    let plan = plan_zip_extraction(bytes, "out", Platform::Posix);
    assert_eq!(plan.steps.len(), 1);
    assert!(matches!(plan.failure, Some(CacheError::Extraction(_))));
}

#[test]
fn step_for_a_file_entry_writes_below_the_target() {
    let entry = ZipEntry {
        name: "bin/app".to_string(),
        is_dir: false,
        unix_mode: Some(0o100755),
        data: vec![1, 2, 3],
    };
    match step_for_entry(entry, "/base", Platform::Posix) {
        ExtractStep::WriteFile { path, data, mode } => {
            assert_eq!(path, "/base/bin/app");
            assert_eq!(data, vec![1, 2, 3]);
            assert_eq!(mode, Some(0o100755));
        }
        other => panic!("unexpected step {:?}", other),
    }
}

#[test]
fn step_for_a_file_entry_without_mode_has_none() {
    let entry =
        ZipEntry { name: "app".to_string(), is_dir: false, unix_mode: None, data: Vec::new() };
    match step_for_entry(entry, "/base/", Platform::Posix) {
        ExtractStep::WriteFile { path, data, mode } => {
            assert_eq!(path, "/base/app");
            assert!(data.is_empty());
            assert_eq!(mode, None);
        }
        other => panic!("unexpected step {:?}", other),
    }
}

#[test]
fn step_for_a_directory_entry_creates_it() {
    let entry = ZipEntry {
        name: "share/doc/".to_string(),
        is_dir: true,
        unix_mode: Some(0o40755),
        data: Vec::new(),
    };
    match step_for_entry(entry, "/base", Platform::Posix) {
        ExtractStep::CreateDir { path } => assert_eq!(path, "/base/share/doc/"),
        other => panic!("unexpected step {:?}", other),
    }
}

#[test]
fn step_on_windows_carries_no_mode() {
    let entry = ZipEntry {
        name: "bin/app.exe".to_string(),
        is_dir: false,
        unix_mode: Some(0o100755),
        data: vec![9],
    };
    match step_for_entry(entry, "C:/cache", Platform::Windows) {
        ExtractStep::WriteFile { path, mode, .. } => {
            assert_eq!(path, "C:/cache/bin/app.exe");
            assert_eq!(mode, None);
        }
        other => panic!("unexpected step {:?}", other),
    }
}
