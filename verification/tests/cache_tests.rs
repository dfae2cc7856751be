use dtx::cache::{
    classify, classify_lowered, executable_file_name, get_binary_path, is_archive, ArchiveKind,
};
use dtx::digest::{cache_key, key_from_digest};
use dtx::error::CacheError;
use dtx::paths::join;
use dtx::platform::Platform;
use dtx::text::{chars_of, ends_with};

#[test]
fn test_is_archive() {
    assert!(is_archive("test.zip"));
    assert!(is_archive("test.tar.gz"));
    assert!(is_archive("test.tgz"));
    assert!(is_archive("TEST.ZIP"));
    assert!(!is_archive("test.exe"));
    assert!(!is_archive("test"));
}

#[test]
fn test_get_binary_path_regular() {
    let (path, _) =
        get_binary_path("https://example.com/tool", "mytool", None, "~/.dtx/cache", Platform::Posix)
            .unwrap();
    assert!(path.contains("mytool"));
    assert!(path.contains(".dtx/cache"));
}

#[test]
fn test_get_binary_path_archive_with_entry() {
    let (path, base) = get_binary_path(
        "https://example.com/tool.zip",
        "mytool",
        Some("bin/app"),
        "~/.dtx/cache",
        Platform::Posix,
    )
    .unwrap();
    assert!(path.ends_with("bin/app"));
    assert!(base.contains("mytool"));
}

#[test]
fn test_get_binary_path_archive_without_entry() {
    let result = get_binary_path(
        "https://example.com/tool.zip",
        "mytool",
        None,
        "~/.dtx/cache",
        Platform::Posix,
    );
    assert!(result.is_err());
    assert!(result.unwrap_err().message().contains("Archive URL requires --entry parameter"));
}

#[test]
fn test_custom_cache_dir() {
    let (path, _) = get_binary_path(
        "https://example.com/tool",
        "mytool",
        None,
        "/tmp/custom_dtx",
        Platform::Posix,
    )
    .unwrap();
    assert!(path.contains("/tmp/custom_dtx"));
}

#[test]
fn classify_is_case_insensitive_and_goes_by_suffix() {
    assert_eq!(classify("X.ZIP"), ArchiveKind::Zip);
    assert_eq!(classify("x.zip"), ArchiveKind::Zip);
    assert_eq!(classify("x.Zip"), ArchiveKind::Zip);
    assert_eq!(classify("x.tar.gz"), ArchiveKind::TarGz);
    assert_eq!(classify("x.TAR.GZ"), ArchiveKind::TarGz);
    assert_eq!(classify("x.tgz"), ArchiveKind::TarGz);
    assert_eq!(classify("x.TgZ"), ArchiveKind::TarGz);
    assert_eq!(classify("x.exe"), ArchiveKind::Raw);
    assert_eq!(classify("x"), ArchiveKind::Raw);
    assert_eq!(classify(""), ArchiveKind::Raw);
}

#[test]
fn classify_needs_the_whole_suffix_at_the_end() {
    assert_eq!(classify("x.zip.sig"), ArchiveKind::Raw);
    assert_eq!(classify("x.zip/"), ArchiveKind::Raw);
    assert_eq!(classify("xzip"), ArchiveKind::Raw);
    assert_eq!(classify("x.gz"), ArchiveKind::Raw);
    assert_eq!(classify("x.tar"), ArchiveKind::Raw);
    assert_eq!(classify("zip"), ArchiveKind::Raw);
    assert_eq!(classify(".zip"), ArchiveKind::Zip);
    assert_eq!(classify(".tgz"), ArchiveKind::TarGz);
    assert_eq!(classify(".tar.gz"), ArchiveKind::TarGz);
    assert_eq!(classify("https://example.com/a.zip?x=1"), ArchiveKind::Raw);
}

#[test]
fn classify_lowered_compares_exactly() {
    assert_eq!(classify_lowered("x.zip"), ArchiveKind::Zip);
    assert_eq!(classify_lowered("x.ZIP"), ArchiveKind::Raw);
    assert_eq!(classify_lowered("x.tar.gz"), ArchiveKind::TarGz);
    assert_eq!(classify_lowered("x.tgz"), ArchiveKind::TarGz);
    assert_eq!(classify_lowered("x.TGZ"), ArchiveKind::Raw);
}

#[test]
fn cache_key_is_the_sha256_prefix_in_lowercase_hex() {
    assert_eq!(cache_key("https://example.com/tool"), "47d8543a");
    assert_eq!(cache_key("https://example.com/tool.zip"), "c0bf5c08");
    assert_eq!(cache_key(""), "e3b0c442");
    assert_eq!(cache_key("abc"), "ba7816bf");
    assert_eq!(cache_key("https://example.com/tél"), "cfbf96d9");
}

#[test]
fn cache_key_is_stable_and_tells_urls_apart() {
    let first = cache_key("https://example.com/tool");
    let second = cache_key("https://example.com/tool");
    assert_eq!(first, second);
    assert_eq!(first.len(), 8);
    assert_ne!(first, cache_key("https://example.com/tool2"));
    assert_ne!(first, cache_key("https://example.com/Tool"));
}

#[test]
fn key_from_digest_takes_four_bytes_high_nibble_first() {
    let mut digest = [0u8; 32];
    digest[0] = 0x01;
    digest[1] = 0xab;
    digest[2] = 0xf0;
    digest[3] = 0x9c;
    digest[4] = 0xff;
    assert_eq!(key_from_digest(&digest), "01abf09c");
    assert_eq!(key_from_digest(&[0xffu8; 32]), "ffffffff");
    assert_eq!(key_from_digest(&[0u8; 32]), "00000000");
}

#[test]
fn resolved_paths_are_exact() {
    let (path, base) =
        get_binary_path("https://example.com/tool", "mytool", None, "~/.dtx/cache", Platform::Posix)
            .unwrap();
    assert_eq!(base, "~/.dtx/cache/mytool/47d8543a");
    assert_eq!(path, "~/.dtx/cache/mytool/47d8543a/mytool");

    let (path, base) = get_binary_path(
        "https://example.com/tool.zip",
        "mytool",
        Some("bin/app"),
        "/var/cache/",
        Platform::Posix,
    )
    .unwrap();
    assert_eq!(base, "/var/cache/mytool/c0bf5c08");
    assert_eq!(path, "/var/cache/mytool/c0bf5c08/bin/app");
}

#[test]
fn the_key_does_not_depend_on_the_name() {
    let url = "https://example.com/tool";
    let (_, one) = get_binary_path(url, "one", None, "/c", Platform::Posix).unwrap();
    let (_, two) = get_binary_path(url, "two", None, "/c", Platform::Posix).unwrap();
    assert_eq!(one, "/c/one/47d8543a");
    assert_eq!(two, "/c/two/47d8543a");
}

#[test]
fn an_entry_is_ignored_for_a_bare_binary() {
    let (path, _) =
        get_binary_path("https://example.com/tool", "t", Some("bin/app"), "/c", Platform::Posix)
            .unwrap();
    assert_eq!(path, "/c/t/47d8543a/t");
}

#[test]
fn windows_binaries_get_the_suffix_once() {
    let url = "https://example.com/tool";
    let (path, _) = get_binary_path(url, "mytool", None, "/c", Platform::Windows).unwrap();
    assert_eq!(path, "/c/mytool/47d8543a/mytool.exe");
    let (path, _) = get_binary_path(url, "mytool.exe", None, "/c", Platform::Windows).unwrap();
    assert_eq!(path, "/c/mytool.exe/47d8543a/mytool.exe");
    let (path, _) = get_binary_path(url, "MYTOOL.EXE", None, "/c", Platform::Windows).unwrap();
    assert_eq!(path, "/c/MYTOOL.EXE/47d8543a/MYTOOL.EXE");
    let (path, _) = get_binary_path(url, "exe", None, "/c", Platform::Windows).unwrap();
    assert_eq!(path, "/c/exe/47d8543a/exe.exe");
}

#[test]
fn windows_archives_resolve_to_the_entry_as_given() {
    let (path, _) = get_binary_path(
        "https://example.com/tool.ZIP",
        "mytool",
        Some("bin/app.exe"),
        "/c",
        Platform::Windows,
    )
    .unwrap();
    assert!(path.ends_with("/bin/app.exe"));
    assert!(path.starts_with("/c/mytool/"));
}

#[test]
fn archive_without_entry_fails_for_every_archive_kind() {
    for url in ["a.zip", "a.tar.gz", "a.tgz", "A.TGZ"] {
        let result = get_binary_path(url, "n", None, "/c", Platform::Posix);
        assert!(matches!(result, Err(CacheError::Configuration)));
        let result = get_binary_path(url, "n", None, "/c", Platform::Windows);
        assert!(matches!(result, Err(CacheError::Configuration)));
        assert!(get_binary_path(url, "n", Some("e"), "/c", Platform::Posix).is_ok());
    }
}

#[test]
fn configuration_error_message_mentions_entry() {
    let error = get_binary_path("https://example.com/tool.zip", "mytool", None, "/c", Platform::Posix)
        .unwrap_err();
    assert!(error.message().contains("entry"));
    assert_eq!(error.message(), "Archive URL requires --entry parameter");
}

#[test]
fn other_error_messages_carry_their_detail() {
    assert_eq!(CacheError::Download("no route".to_string()).message(), "no route");
    assert_eq!(CacheError::Extraction("bad crc".to_string()).message(), "bad crc");
    assert_eq!(CacheError::Filesystem("denied".to_string()).message(), "denied");
    let copy = CacheError::Download("no route".to_string()).clone();
    assert!(matches!(copy, CacheError::Download(text) if text == "no route"));
}

#[test]
fn executable_file_name_appends_only_where_needed() {
    assert_eq!(executable_file_name("tool", "tool", Platform::Posix), "tool");
    assert_eq!(executable_file_name("tool.exe", "tool.exe", Platform::Posix), "tool.exe");
    assert_eq!(executable_file_name("tool", "tool", Platform::Windows), "tool.exe");
    assert_eq!(executable_file_name("Tool.EXE", "tool.exe", Platform::Windows), "Tool.EXE");
    assert_eq!(executable_file_name("exe", "exe", Platform::Windows), "exe.exe");
}

#[test]
fn join_puts_one_separator_between() {
    assert_eq!(join("a", "b"), "a/b");
    assert_eq!(join("a/", "b"), "a/b");
    assert_eq!(join("", "b"), "b");
    assert_eq!(join("a", ""), "a/");
    assert_eq!(join("a", "b/c"), "a/b/c");
    assert_eq!(join("/", "b"), "/b");
    assert_eq!(join("ä", "ö"), "ä/ö");
}

#[test]
fn join_lets_an_absolute_part_stand_alone() {
    assert_eq!(join("a", "/b"), "/b");
    assert_eq!(join("a/b", "/"), "/");
    assert_eq!(join("", "/b"), "/b");
}

#[test]
fn ends_with_compares_characters() {
    assert!(ends_with("archive.zip", ".zip"));
    assert!(ends_with(".zip", ".zip"));
    assert!(ends_with("abc", ""));
    assert!(ends_with("", ""));
    assert!(!ends_with("zip", ".zip"));
    assert!(!ends_with("archive.zip ", ".zip"));
    assert!(!ends_with("archive.ZIP", ".zip"));
    assert!(ends_with("größe", "ße"));
}

#[test]
fn chars_of_lists_every_character() {
    assert_eq!(chars_of("aß語"), vec!['a', 'ß', '語']);
    assert_eq!(chars_of(""), Vec::<char>::new());
}

#[test]
fn platforms_differ_in_suffix_and_permissions() {
    assert!(Platform::Windows.uses_exe_suffix());
    assert!(!Platform::Posix.uses_exe_suffix());
    assert!(Platform::Posix.sets_permissions());
    assert!(!Platform::Windows.sets_permissions());
}
