//! Archive classification and cache path resolution.

use crate::digest::{cache_key, cache_key_of, is_hex_char, lemma_key_shape, sha256_of};
use crate::error::CacheError;
use crate::paths::{
    join, join_path, lemma_join_ends_with_part, lemma_join_keeps_base, lemma_join_keeps_base_suffix,
};
use crate::platform::Platform;
use crate::text::{
    contains_text, ends_with, is_prefix, is_suffix, lemma_prefix_transitive, lowercase, lowercase_of,
};
use crate::utils::{exe_suffix, has_exe_suffix};
use vstd::prelude::*;
use vstd::string::StringExecFns;
use vstd::utf8::encode_utf8;

verus! {

/// What a URL denotes, judged by its suffix alone.
#[derive(Clone, Copy, Debug, PartialEq, Eq, Structural)]
pub enum ArchiveKind {
    /// A `.zip` archive.
    Zip,
    /// A gzip-compressed tar archive, `.tar.gz` or `.tgz`.
    TarGz,
    /// Not an archive: the URL is the binary itself.
    Raw,
}

/// The suffix of a Zip archive.
pub open spec fn zip_suffix() -> Seq<char> {
    seq!['.', 'z', 'i', 'p']
}

/// The long suffix of a gzip-compressed tar archive.
pub open spec fn tar_gz_suffix() -> Seq<char> {
    seq!['.', 't', 'a', 'r', '.', 'g', 'z']
}

/// The short suffix of a gzip-compressed tar archive.
pub open spec fn tgz_suffix() -> Seq<char> {
    seq!['.', 't', 'g', 'z']
}

/// The kind that an already lowercased URL denotes. Suffixes are tried in
/// order: `.zip`, then `.tar.gz`, then `.tgz`.
pub open spec fn kind_of_lowered(lowered: Seq<char>) -> ArchiveKind {
    if is_suffix(lowered, zip_suffix()) {
        ArchiveKind::Zip
    } else if is_suffix(lowered, tar_gz_suffix()) || is_suffix(lowered, tgz_suffix()) {
        ArchiveKind::TarGz
    } else {
        ArchiveKind::Raw
    }
}

/// The kind that a URL denotes: that of its lowercase form.
pub open spec fn kind_of(url: Seq<char>) -> ArchiveKind {
    kind_of_lowered(lowercase_of(url))
}

/// Whether a URL denotes an archive of either kind.
pub open spec fn is_archive_url(url: Seq<char>) -> bool {
    kind_of(url) != ArchiveKind::Raw
}

/// Classifies a URL that has already been lowercased.
pub fn classify_lowered(lowered: &str) -> (kind: ArchiveKind)
    ensures
        kind == kind_of_lowered(lowered@),
{
    proof {
        reveal_strlit(".zip");
        reveal_strlit(".tar.gz");
        reveal_strlit(".tgz");
        assert(".zip"@ =~= zip_suffix());
        assert(".tar.gz"@ =~= tar_gz_suffix());
        assert(".tgz"@ =~= tgz_suffix());
    }
    if ends_with(lowered, ".zip") {
        ArchiveKind::Zip
    } else if ends_with(lowered, ".tar.gz") || ends_with(lowered, ".tgz") {
        ArchiveKind::TarGz
    } else {
        ArchiveKind::Raw
    }
}

/// Classifies a URL by its suffix, ignoring case.
pub fn classify(url: &str) -> (kind: ArchiveKind)
    ensures
        kind == kind_of(url@),
{
    let lowered = lowercase(url);
    classify_lowered(lowered.as_str())
}

/// Whether a URL denotes an archive rather than a bare binary.
pub fn is_archive(url: &str) -> (b: bool)
    ensures
        b == is_archive_url(url@),
{
    match classify(url) {
        ArchiveKind::Raw => false,
        _ => true,
    }
}

/// The file name of a bare binary: the tool name, with `.exe` appended on
/// platforms that use the suffix unless the name already carries it.
pub open spec fn executable_name(name: Seq<char>, platform: Platform) -> Seq<char> {
    if platform.uses_exe_suffix() && !has_exe_suffix(name) {
        name + exe_suffix()
    } else {
        name
    }
}

/// The staging directory of one tool and URL: `cache_dir/name/key`.
pub open spec fn base_dir_of(cache_dir: Seq<char>, name: Seq<char>, url: Seq<char>) -> Seq<char> {
    join_path(join_path(cache_dir, name), cache_key_of(url))
}

/// The location of the executable inside the staging directory, where there
/// is one: the entry for an archive, the executable name for a bare binary.
/// An archive without an entry has none.
pub open spec fn binary_path_of(
    url: Seq<char>,
    name: Seq<char>,
    entry: Option<Seq<char>>,
    cache_dir: Seq<char>,
    platform: Platform,
) -> Option<Seq<char>> {
    let base = base_dir_of(cache_dir, name, url);
    if is_archive_url(url) {
        match entry {
            Some(entry_path) => Some(join_path(base, entry_path)),
            None => None,
        }
    } else {
        Some(join_path(base, executable_name(name, platform)))
    }
}

/// The file name of a bare binary, given the lowercase form of the tool name.
pub fn executable_file_name(name: &str, lowered: &str, platform: Platform) -> (file: String)
    ensures
        file@ == if platform.uses_exe_suffix() && !(name@.len() >= 4 && is_suffix(
            lowered@,
            exe_suffix(),
        )) {
            name@ + exe_suffix()
        } else {
            name@
        },
{
    proof {
        reveal_strlit(".exe");
        assert(".exe"@ =~= exe_suffix());
    }
    let mut file = name.to_owned();
    if platform.uses_exe_suffix() {
        let long_enough = crate::text::chars_of(name).len() >= 4;
        if !(long_enough && ends_with(lowered, ".exe")) {
            file.append(".exe");
        }
    }
    file
}

/// Resolves where a tool is staged: the path of its executable and the
/// staging directory that holds it.
///
/// The staging directory is `cache_dir/name/key`, where the key is the cache
/// key of the URL. For an archive URL the executable is the entry inside
/// that directory, and a missing entry is a configuration error; for any
/// other URL it is the tool's executable name.
pub fn get_binary_path(
    url: &str,
    name: &str,
    entry: Option<&str>,
    cache_dir: &str,
    platform: Platform,
) -> (resolved: Result<(String, String), CacheError>)
    ensures
        match resolved {
            Ok((binary_path, base_dir)) => {
                &&& base_dir@ == base_dir_of(cache_dir@, name@, url@)
                &&& binary_path_of(url@, name@, view_of(entry), cache_dir@, platform) == Some(
                    binary_path@,
                )
            },
            Err(error) => {
                &&& error is Configuration
                &&& is_archive_url(url@)
                &&& entry is None
            },
        },
        resolved is Err <==> is_archive_url(url@) && entry is None,
{
    let key = cache_key(url);
    let tool_dir = join(cache_dir, name);
    let base_dir = join(tool_dir.as_str(), key.as_str());
    if is_archive(url) {
        match entry {
            Some(entry_path) => Ok((join(base_dir.as_str(), entry_path), base_dir)),
            None => Err(CacheError::Configuration),
        }
    } else {
        let lowered = lowercase(name);
        let file = executable_file_name(name, lowered.as_str(), platform);
        Ok((join(base_dir.as_str(), file.as_str()), base_dir))
    }
}

/// Classification looks at the lowercase form only: URLs that differ in
/// case alone are of the same kind.
pub proof fn lemma_classify_ignores_case(url1: Seq<char>, url2: Seq<char>)
    ensures
        lowercase_of(url1) == lowercase_of(url2) ==> kind_of(url1) == kind_of(url2)
            && is_archive_url(url1) == is_archive_url(url2),
{
}

/// Each kind is told by its own suffixes, and no text ends in the suffixes
/// of two kinds: the order in which they are tried decides nothing.
pub proof fn lemma_suffixes_exclusive(lowered: Seq<char>)
    ensures
        kind_of_lowered(lowered) == ArchiveKind::Zip <==> is_suffix(lowered, zip_suffix()),
        kind_of_lowered(lowered) == ArchiveKind::TarGz <==> is_suffix(lowered, tar_gz_suffix())
            || is_suffix(lowered, tgz_suffix()),
        kind_of_lowered(lowered) == ArchiveKind::Raw <==> !is_suffix(lowered, zip_suffix())
            && !is_suffix(lowered, tar_gz_suffix()) && !is_suffix(lowered, tgz_suffix()),
{
    let n = lowered.len() as int;
    if is_suffix(lowered, zip_suffix()) {
        assert(lowered.subrange(n - 4, n)[3] == 'p');
        if is_suffix(lowered, tar_gz_suffix()) {
            assert(lowered.subrange(n - 7, n)[6] == 'z');
        }
        if is_suffix(lowered, tgz_suffix()) {
            assert(lowered.subrange(n - 4, n)[3] == 'z');
        }
    }
}

/// An archive URL resolves exactly when an entry path comes with it; any
/// other URL always resolves.
pub proof fn lemma_archive_needs_entry(
    url: Seq<char>,
    name: Seq<char>,
    entry: Option<Seq<char>>,
    cache_dir: Seq<char>,
    platform: Platform,
)
    ensures
        binary_path_of(url, name, entry, cache_dir, platform) is None <==> is_archive_url(url)
            && entry is None,
{
}

/// The staging directory ends with the cache key and holds the tool name
/// before it. It does not depend on the entry or the platform, and for one
/// URL the key in it is the same whatever the tool is called.
pub proof fn lemma_base_dir_segments(cache_dir: Seq<char>, name: Seq<char>, url: Seq<char>)
    ensures
        is_suffix(base_dir_of(cache_dir, name, url), cache_key_of(url)),
        contains_text(base_dir_of(cache_dir, name, url), name),
        cache_key_of(url).len() == 8,
{
    let key = cache_key_of(url);
    let tool_dir = join_path(cache_dir, name);
    lemma_key_shape(sha256_of(encode_utf8(url))@);
    assert(is_hex_char(key[0]));
    lemma_join_ends_with_part(cache_dir, name);
    lemma_join_ends_with_part(tool_dir, key);
    lemma_join_keeps_base_suffix(tool_dir, key, name);
}

/// For an archive URL with an entry, the binary path ends with the entry.
pub proof fn lemma_archive_binary_ends_with_entry(
    url: Seq<char>,
    name: Seq<char>,
    entry: Seq<char>,
    cache_dir: Seq<char>,
    platform: Platform,
)
    requires
        is_archive_url(url),
    ensures
        binary_path_of(url, name, Some(entry), cache_dir, platform) matches Some(path) && is_suffix(
            path,
            entry,
        ),
{
    lemma_join_ends_with_part(base_dir_of(cache_dir, name, url), entry);
}

/// For a URL that is no archive, the binary path ends with the tool name,
/// followed on platforms that use it by the executable suffix.
pub proof fn lemma_raw_binary_ends_with_name(
    url: Seq<char>,
    name: Seq<char>,
    entry: Option<Seq<char>>,
    cache_dir: Seq<char>,
    platform: Platform,
)
    requires
        !is_archive_url(url),
    ensures
        binary_path_of(url, name, entry, cache_dir, platform) matches Some(path) && is_suffix(
            path,
            executable_name(name, platform),
        ),
        !platform.uses_exe_suffix() ==> executable_name(name, platform) == name,
{
    lemma_join_ends_with_part(base_dir_of(cache_dir, name, url), executable_name(name, platform));
}

/// Relative names keep everything below the cache directory: the staging
/// directory begins with the cache directory, and the binary path of a bare
/// binary begins with the staging directory.
pub proof fn lemma_raw_binary_below_cache_dir(
    url: Seq<char>,
    name: Seq<char>,
    cache_dir: Seq<char>,
    platform: Platform,
)
    requires
        !is_archive_url(url),
        name.len() > 0,
        name[0] != '/',
    ensures
        is_prefix(base_dir_of(cache_dir, name, url), cache_dir),
        binary_path_of(url, name, None, cache_dir, platform) matches Some(path) && is_prefix(
            path,
            base_dir_of(cache_dir, name, url),
        ) && is_prefix(path, cache_dir),
{
    let key = cache_key_of(url);
    let tool_dir = join_path(cache_dir, name);
    let base = base_dir_of(cache_dir, name, url);
    let file = executable_name(name, platform);
    let path = join_path(base, file);
    lemma_key_shape(sha256_of(encode_utf8(url))@);
    assert(is_hex_char(key[0]));
    lemma_join_keeps_base(cache_dir, name);
    lemma_join_keeps_base(tool_dir, key);
    lemma_prefix_transitive(base, tool_dir, cache_dir);
    assert(file[0] == name[0]);
    lemma_join_keeps_base(base, file);
    lemma_prefix_transitive(path, base, cache_dir);
}

/// The characters of an optional string.
pub open spec fn view_of(text: Option<&str>) -> Option<Seq<char>> {
    match text {
        Some(s) => Some(s@),
        None => None,
    }
}

} // verus!
