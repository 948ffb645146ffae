//! Character-level string helpers shared by the providers.

use vstd::prelude::*;

verus! {

/// `needle` occurs somewhere in `haystack` as a contiguous run.
pub open spec fn occurs_in(haystack: Seq<char>, needle: Seq<char>) -> bool {
    exists|i: int|
        0 <= i <= haystack.len() - needle.len() && #[trigger] haystack.subrange(
            i,
            i + needle.len(),
        ) == needle
}

/// The characters of `s`, in order.
pub fn chars_of(s: &str) -> (v: Vec<char>)
    ensures
        v@ == s@,
{
    let mut v: Vec<char> = Vec::new();
    for c in it: s.chars()
        invariant
            v@ == it.seq().take(it.index() as int),
    {
        v.push(c);
    }
    v
}

/// Whether `needle` occurs in `haystack` starting at position `at`.
fn occurs_at(haystack: &Vec<char>, needle: &Vec<char>, at: usize) -> (found: bool)
    requires
        at + needle@.len() <= haystack@.len(),
    ensures
        found == (haystack@.subrange(at as int, at + needle@.len()) == needle@),
{
    let m = needle.len();
    let hl = haystack.len();
    for j in 0..m
        invariant
            m == needle@.len(),
            hl == haystack@.len(),
            at + m <= haystack@.len(),
            forall|k: int| 0 <= k < j ==> haystack@[at + k] == needle@[k],
    {
        if haystack[at + j] != needle[j] {
            assert(haystack@.subrange(at as int, at + m)[j as int] != needle@[j as int]);
            return false;
        }
    }
    assert(haystack@.subrange(at as int, at + m) =~= needle@);
    true
}

/// Substring search: whether `needle` occurs in `haystack`. The empty
/// needle occurs everywhere.
pub fn contains(haystack: &str, needle: &str) -> (found: bool)
    ensures
        found == occurs_in(haystack@, needle@),
{
    let h = chars_of(haystack);
    let n = chars_of(needle);
    if n.len() > h.len() {
        return false;
    }
    let last = h.len() - n.len();
    let mut i: usize = 0;
    loop
        invariant
            h@ == haystack@,
            n@ == needle@,
            last == h@.len() - n@.len(),
            i <= last,
            forall|k: int|
                0 <= k < i ==> #[trigger] haystack@.subrange(k, k + needle@.len()) != needle@,
        decreases last - i,
    {
        if occurs_at(&h, &n, i) {
            return true;
        }
        if i == last {
            return false;
        }
        i = i + 1;
    }
}

/// The ASCII letters and digits.
pub open spec fn is_ascii_alphanumeric(c: char) -> bool {
    ('0' <= c <= '9') || ('a' <= c <= 'z') || ('A' <= c <= 'Z')
}

/// Appends `c` to `s` with `String::push`, which std documents as
/// appending the given char to the end of the string.
#[verifier::external_body]
pub(crate) fn push_char(s: &mut String, c: char)
    ensures
        final(s)@ == old(s)@.push(c),
{
    s.push(c)
}

} // verus!
