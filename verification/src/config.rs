//! Settling the configuration before anything is resolved: the tool's name
//! and the cache directory.

use crate::paths::{join, join_path};
use crate::platform::Platform;
use crate::text::chars_of;
use crate::utils::{binary_name, extract_binary_name_from_path, extract_binary_name_from_url};
use vstd::prelude::*;
use vstd::string::StrSliceExecFns;

verus! {

/// The name a tool goes by: the one given, else the default name of the
/// entry path, else the default name of the URL.
pub open spec fn tool_name(
    name: Option<Seq<char>>,
    entry: Option<Seq<char>>,
    url: Seq<char>,
    platform: Platform,
) -> Seq<char> {
    match name {
        Some(given) => given,
        None => match entry {
            Some(entry_path) => binary_name(entry_path, platform),
            None => binary_name(url, platform),
        },
    }
}

/// Settles the name a tool goes by.
pub fn resolve_name<'a>(
    name: Option<&'a str>,
    entry: Option<&'a str>,
    url: &'a str,
    platform: Platform,
) -> (resolved: &'a str)
    ensures
        resolved@ == tool_name(
            crate::cache::view_of(name),
            crate::cache::view_of(entry),
            url@,
            platform,
        ),
{
    match name {
        Some(given) => given,
        None => match entry {
            Some(entry_path) => extract_binary_name_from_path(entry_path, platform),
            None => extract_binary_name_from_url(url, platform),
        },
    }
}

/// `s` without the separators it begins with.
pub open spec fn skip_separators(s: Seq<char>) -> Seq<char>
    decreases s.len(),
{
    if s.len() > 0 && s[0] == '/' {
        skip_separators(s.drop_first())
    } else {
        s
    }
}

/// Whether a directory is written relative to the home directory: it is `~`
/// or begins with `~/`.
pub open spec fn is_home_relative(dir: Seq<char>) -> bool {
    dir.len() > 0 && dir[0] == '~' && (dir.len() == 1 || dir[1] == '/')
}

/// The cache directory with a leading `~` replaced by the home directory,
/// where there is one; any other directory as it is.
pub open spec fn expanded_cache_dir(dir: Seq<char>, home: Option<Seq<char>>) -> Seq<char> {
    match home {
        Some(home_dir) if is_home_relative(dir) => join_path(
            home_dir,
            skip_separators(dir.skip(1)),
        ),
        _ => dir,
    }
}

/// Expands a leading `~` of the cache directory to the home directory.
/// Without a home directory, and for every other path, the directory stays
/// as it is written.
pub fn expand_cache_dir(dir: &str, home: Option<&str>) -> (expanded: String)
    ensures
        expanded@ == expanded_cache_dir(dir@, crate::cache::view_of(home)),
{
    let chars = chars_of(dir);
    let len = chars.len();
    let home_relative = len > 0 && chars[0] == '~' && (len == 1 || chars[1] == '/');
    match home {
        Some(home_dir) if home_relative => {
            let mut start: usize = 1;
            while start < len && chars[start] == '/'
                invariant
                    1 <= start <= len,
                    len == chars@.len(),
                    skip_separators(chars@.skip(1)) == skip_separators(chars@.skip(start as int)),
                decreases len - start,
            {
                proof {
                    let rest = chars@.skip(start as int);
                    assert(rest.drop_first() =~= chars@.skip(start + 1));
                }
                start += 1;
            }
            proof {
                let rest = chars@.skip(start as int);
                assert(rest =~= dir@.subrange(start as int, len as int));
            }
            let rest = dir.substring_char(start, len);
            join(home_dir, rest)
        },
        _ => dir.to_owned(),
    }
}

/// A directory that is not written relative to home is never changed.
pub proof fn lemma_plain_dir_unchanged(dir: Seq<char>, home: Option<Seq<char>>)
    requires
        !is_home_relative(dir),
    ensures
        expanded_cache_dir(dir, home) == dir,
{
}

} // verus!
