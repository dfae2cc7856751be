//! Cache paths as text, with `/` as the separator.

use crate::text::{chars_of, contains_text, is_prefix, is_suffix};
use vstd::prelude::*;
use vstd::string::StringExecFns;

verus! {

/// `part` adjoined to `base`.
///
/// A `part` that begins with `/` is absolute and stands alone. Otherwise it
/// follows `base`, with one `/` between them unless `base` is empty or
/// already ends in one.
pub open spec fn join_path(base: Seq<char>, part: Seq<char>) -> Seq<char> {
    if part.len() > 0 && part[0] == '/' {
        part
    } else if base.len() > 0 && base.last() != '/' {
        base.push('/') + part
    } else {
        base + part
    }
}

/// Adjoins `part` to `base`.
pub fn join(base: &str, part: &str) -> (joined: String)
    ensures
        joined@ == join_path(base@, part@),
{
    let part_chars = chars_of(part);
    if part_chars.len() > 0 && part_chars[0] == '/' {
        return part.to_owned();
    }
    let base_chars = chars_of(base);
    let mut joined = base.to_owned();
    if base_chars.len() > 0 && base_chars[base_chars.len() - 1] != '/' {
        joined.push('/');
    }
    joined.append(part);
    joined
}

/// A joined path always ends with the part that was adjoined.
pub proof fn lemma_join_ends_with_part(base: Seq<char>, part: Seq<char>)
    ensures
        is_suffix(join_path(base, part), part),
{
    let joined = join_path(base, part);
    assert(joined.subrange(joined.len() - part.len(), joined.len() as int) =~= part);
}

/// A joined path begins with its base unless the part is absolute.
pub proof fn lemma_join_keeps_base(base: Seq<char>, part: Seq<char>)
    requires
        part.len() == 0 || part[0] != '/',
    ensures
        is_prefix(join_path(base, part), base),
{
    let joined = join_path(base, part);
    assert(joined.subrange(0, base.len() as int) =~= base);
}

/// Text that ends a base still occurs in the path joined from that base,
/// unless the part is absolute.
pub proof fn lemma_join_keeps_base_suffix(base: Seq<char>, part: Seq<char>, tail: Seq<char>)
    requires
        part.len() == 0 || part[0] != '/',
        is_suffix(base, tail),
    ensures
        contains_text(join_path(base, part), tail),
{
    let joined = join_path(base, part);
    let at = base.len() - tail.len();
    assert(joined.subrange(at, at + tail.len()) =~= base.subrange(at, base.len() as int));
}

} // verus!
