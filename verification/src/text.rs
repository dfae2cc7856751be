//! Character-level helpers on strings.

use vstd::prelude::*;

verus! {

/// `suffix` is the tail of `s`.
pub open spec fn is_suffix(s: Seq<char>, suffix: Seq<char>) -> bool {
    suffix.len() <= s.len() && s.subrange(s.len() - suffix.len(), s.len() as int) == suffix
}

/// `prefix` is the head of `s`.
pub open spec fn is_prefix(s: Seq<char>, prefix: Seq<char>) -> bool {
    prefix.len() <= s.len() && s.subrange(0, prefix.len() as int) == prefix
}

/// `needle` occurs somewhere inside `s`.
pub open spec fn contains_text(s: Seq<char>, needle: Seq<char>) -> bool {
    exists|i: int|
        0 <= i && i + needle.len() <= s.len() && #[trigger] s.subrange(i, i + needle.len())
            == needle
}

/// The lowercase form of a string as `str::to_lowercase` computes it from the
/// Unicode character tables.
pub uninterp spec fn lowercase_of(s: Seq<char>) -> Seq<char>;

/// Calls `str::to_lowercase`. The result is the Unicode lowercase form of the
/// argument; nothing further is claimed about which characters it holds.
#[verifier::external_body]
pub(crate) fn lowercase(s: &str) -> (lowered: String)
    ensures
        lowered@ == lowercase_of(s@),
{
    s.to_lowercase()
}

/// `String::push` appends one character to the end of the string.
pub assume_specification[ String::push ](s: &mut String, ch: char)
    ensures
        final(s)@ == old(s)@.push(ch),
;

/// The characters of `s`, in order.
pub fn chars_of(s: &str) -> (v: Vec<char>)
    ensures
        v@ == s@,
{
    let mut v: Vec<char> = Vec::new();
    for c in it: s.chars()
        invariant
            v@ == it.seq().take(it.index() as int),
            it.seq() == s@,
    {
        v.push(c);
    }
    v
}

/// Whether the characters `s` end with the characters `suffix`.
pub fn chars_end_with(s: &Vec<char>, suffix: &Vec<char>) -> (b: bool)
    ensures
        b == is_suffix(s@, suffix@),
{
    let n = s.len();
    let k = suffix.len();
    if k > n {
        return false;
    }
    let base = n - k;
    let mut i: usize = 0;
    while i < k
        invariant
            n == s@.len(),
            k == suffix@.len(),
            k <= n,
            base == n - k,
            i <= k,
            forall|j: int| 0 <= j < i ==> s@[base + j] == suffix@[j],
        decreases k - i,
    {
        if s[base + i] != suffix[i] {
            proof {
                assert(s@.subrange(n - k, n as int)[i as int] == s@[base + i]);
            }
            return false;
        }
        i += 1;
    }
    proof {
        assert(s@.subrange(n - k, n as int) =~= suffix@);
    }
    true
}

/// Whether `s` ends with `suffix`, character by character.
pub fn ends_with(s: &str, suffix: &str) -> (b: bool)
    ensures
        b == is_suffix(s@, suffix@),
{
    let sv = chars_of(s);
    let xv = chars_of(suffix);
    chars_end_with(&sv, &xv)
}

/// A prefix of a prefix is a prefix.
pub proof fn lemma_prefix_transitive(s: Seq<char>, mid: Seq<char>, head: Seq<char>)
    requires
        is_prefix(s, mid),
        is_prefix(mid, head),
    ensures
        is_prefix(s, head),
{
    let from_s = s.subrange(0, head.len() as int);
    let from_mid = mid.subrange(0, head.len() as int);
    assert forall|j: int| 0 <= j < head.len() implies #[trigger] from_s[j] == from_mid[j] by {
        assert(s.subrange(0, mid.len() as int)[j] == s[j]);
    }
    assert(from_s =~= from_mid);
}

} // verus!
