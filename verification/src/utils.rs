//! Default tool names, derived from the last segment of a URL or entry path.

use crate::platform::Platform;
use crate::text::{chars_of, ends_with, is_suffix, lowercase, lowercase_of};
use vstd::prelude::*;
use vstd::string::StrSliceExecFns;

verus! {

/// The name used when a URL or path ends in a separator or is empty.
pub open spec fn fallback_name() -> Seq<char> {
    seq!['b', 'i', 'n', 'a', 'r', 'y']
}

/// The executable suffix of the Windows platform, in lowercase.
pub open spec fn exe_suffix() -> Seq<char> {
    seq!['.', 'e', 'x', 'e']
}

/// The text after the last `/` of `s`; all of `s` when it holds no `/`.
pub open spec fn last_segment(s: Seq<char>) -> Seq<char>
    decreases s.len(),
{
    if s.len() == 0 || s.last() == '/' {
        Seq::empty()
    } else {
        last_segment(s.drop_last()).push(s.last())
    }
}

/// `k` is where the last segment of `s` begins: just after a `/` or at the
/// start, with no `/` from there on.
pub open spec fn is_segment_start(s: Seq<char>, k: int) -> bool {
    &&& 0 <= k <= s.len()
    &&& k == 0 || s[k - 1] == '/'
    &&& forall|i: int| k <= i < s.len() ==> s[i] != '/'
}

/// A file name carries the executable suffix when it has at least four
/// characters and its lowercase form ends in `.exe`.
pub open spec fn has_exe_suffix(name: Seq<char>) -> bool {
    name.len() >= 4 && is_suffix(lowercase_of(name), exe_suffix())
}

/// `name` without its last four characters when `lowered` ends in `.exe`,
/// else `name` itself.
pub open spec fn without_exe_suffix(name: Seq<char>, lowered: Seq<char>) -> Seq<char> {
    if name.len() >= 4 && is_suffix(lowered, exe_suffix()) {
        name.subrange(0, name.len() - 4)
    } else {
        name
    }
}

/// The default tool name for a URL or path on a platform: its last segment,
/// without the executable suffix where the platform uses one, or `binary`
/// when the segment is empty.
pub open spec fn binary_name(input: Seq<char>, platform: Platform) -> Seq<char> {
    let segment = last_segment(input);
    if segment.len() == 0 {
        fallback_name()
    } else if platform.uses_exe_suffix() {
        without_exe_suffix(segment, lowercase_of(segment))
    } else {
        segment
    }
}

/// The last segment is the one place that `is_segment_start` admits.
pub proof fn lemma_last_segment_at(s: Seq<char>, k: int)
    requires
        is_segment_start(s, k),
    ensures
        last_segment(s) == s.subrange(k, s.len() as int),
    decreases s.len(),
{
    if s.len() == 0 || s.last() == '/' {
        assert(k == s.len());
        assert(s.subrange(k, s.len() as int) =~= Seq::<char>::empty());
    } else {
        let init = s.drop_last();
        assert(k < s.len()) by {
            if k == s.len() {
                assert(s[k - 1] == s.last());
            }
        }
        assert(is_segment_start(init, k)) by {
            assert forall|i: int| k <= i < init.len() implies init[i] != '/' by {
                assert(init[i] == s[i]);
            }
        }
        lemma_last_segment_at(init, k);
        assert(init.subrange(k, init.len() as int).push(s.last()) =~= s.subrange(
            k,
            s.len() as int,
        ));
    }
}

/// The last segment is a suffix of its string and holds no separator.
pub proof fn lemma_last_segment_is_suffix(s: Seq<char>)
    ensures
        is_suffix(s, last_segment(s)),
        forall|i: int| 0 <= i < last_segment(s).len() ==> last_segment(s)[i] != '/',
    decreases s.len(),
{
    if s.len() == 0 || s.last() == '/' {
        assert(s.subrange(s.len() as int, s.len() as int) =~= Seq::<char>::empty());
    } else {
        let init = s.drop_last();
        lemma_last_segment_is_suffix(init);
        let seg = last_segment(init);
        assert(s.subrange(s.len() - seg.len() - 1, s.len() as int) =~= init.subrange(
            init.len() - seg.len(),
            init.len() as int,
        ).push(s.last()));
    }
}

/// Removes the executable suffix from a file name, given the lowercase form
/// of that name: the last four characters go when the lowercase form ends in
/// `.exe`.
pub fn strip_exe_suffix<'a>(name: &'a str, lowered: &str) -> (stem: &'a str)
    ensures
        stem@ == without_exe_suffix(name@, lowered@),
{
    let len = chars_of(name).len();
    proof {
        reveal_strlit(".exe");
        assert(".exe"@ =~= exe_suffix());
    }
    if len >= 4 && ends_with(lowered, ".exe") {
        name.substring_char(0, len - 4)
    } else {
        name
    }
}

fn extract_name_from_string<'a>(input: &'a str, platform: Platform) -> (name: &'a str)
    ensures
        name@ == binary_name(input@, platform),
{
    let chars = chars_of(input);
    let len = chars.len();
    let mut start: usize = len;
    while start > 0 && chars[start - 1] != '/'
        invariant
            start <= len,
            len == chars@.len(),
            forall|i: int| start <= i < len ==> chars@[i] != '/',
        decreases start,
    {
        start -= 1;
    }
    proof {
        lemma_last_segment_at(input@, start as int);
    }
    if start == len {
        proof {
            reveal_strlit("binary");
            assert("binary"@ =~= fallback_name());
        }
        return "binary";
    }
    let filename = input.substring_char(start, len);
    if platform.uses_exe_suffix() {
        let lowered = lowercase(filename);
        strip_exe_suffix(filename, lowered.as_str())
    } else {
        filename
    }
}

/// The default tool name for a download URL: the text after its last `/`,
/// without the executable suffix on platforms that use one; `binary` when
/// that text is empty.
pub fn extract_binary_name_from_url<'a>(url: &'a str, platform: Platform) -> (name: &'a str)
    ensures
        name@ == binary_name(url@, platform),
{
    extract_name_from_string(url, platform)
}

/// The default tool name for an entry path inside an archive: the text after
/// its last `/`, without the executable suffix on platforms that use one;
/// `binary` when that text is empty.
pub fn extract_binary_name_from_path<'a>(path: &'a str, platform: Platform) -> (name: &'a str)
    ensures
        name@ == binary_name(path@, platform),
{
    extract_name_from_string(path, platform)
}

} // verus!
