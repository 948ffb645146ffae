//! The matching rules of `process_running(pattern)`: which `/proc`
//! entries are processes, and when a process counts as matching. The
//! `/proc` scan itself reads the filesystem and stands outside the library.

use crate::text::{chars_of, contains};
use vstd::prelude::*;

verus! {

/// Every character of `s` is an ASCII digit.
pub open spec fn all_ascii_digits(s: Seq<char>) -> bool {
    forall|i: int| 0 <= i < s.len() ==> '0' <= #[trigger] s[i] <= '9'
}

/// Whether a `/proc` entry name is a process id (all ASCII digits).
pub fn is_pid_name(name: &str) -> (pid: bool)
    ensures
        pid == all_ascii_digits(name@),
{
    let chars = chars_of(name);
    let n = chars.len();
    for i in 0..n
        invariant
            n == chars@.len(),
            chars@ == name@,
            forall|k: int| 0 <= k < i ==> '0' <= #[trigger] name@[k] <= '9',
    {
        let c = chars[i];
        if !('0' <= c && c <= '9') {
            return false;
        }
    }
    true
}

/// What `String::from_utf8_lossy` makes of `bytes`: their UTF-8 text,
/// each invalid sequence replaced by U+FFFD.
pub uninterp spec fn utf8_lossy(bytes: Seq<u8>) -> Seq<char>;

/// `String::from_utf8_lossy(bytes).into_owned()`. Claimed: the text depends
/// on `bytes` alone.
#[verifier::external_body]
fn lossy_utf8(bytes: &[u8]) -> (text: String)
    ensures
        text@ == utf8_lossy(bytes@),
{
    String::from_utf8_lossy(bytes).into_owned()
}

/// `raw` split at every NUL byte, as `slice::split` splits it: always at
/// least one field, an empty one between adjacent NULs and after a
/// trailing NUL.
pub open spec fn nul_fields(raw: Seq<u8>) -> Seq<Seq<u8>>
    decreases raw.len(),
{
    if raw.len() == 0 {
        seq![Seq::<u8>::empty()]
    } else {
        let fields = nul_fields(raw.drop_last());
        if raw.last() == 0 {
            fields.push(Seq::<u8>::empty())
        } else {
            fields.update(fields.len() - 1, fields.last().push(raw.last()))
        }
    }
}

/// The command line as `process_running` reads it: the NUL-separated
/// fields of `/proc/<pid>/cmdline`, each decoded lossily, joined by spaces.
pub open spec fn cmdline_text_of(raw: Seq<u8>) -> Seq<char> {
    crate::engine::join_with(nul_fields(raw).map_values(|f: Seq<u8>| utf8_lossy(f)), " "@)
}

/// Turns the raw contents of `/proc/<pid>/cmdline` into the text that
/// patterns are matched against.
pub fn cmdline_text(raw: &[u8]) -> (text: String)
    ensures
        text@ == cmdline_text_of(raw@),
{
    let ghost mut done: Seq<Seq<u8>> = Seq::empty();
    let mut current: Vec<u8> = Vec::new();
    let mut text = String::new();
    let mut any_field = false;
    let n = raw.len();
    for i in 0..n
        invariant
            n == raw@.len(),
            any_field == (done.len() > 0),
            nul_fields(raw@.take(i as int)) == done.push(current@),
            text@ == crate::engine::join_with(
                done.map_values(|f: Seq<u8>| utf8_lossy(f)),
                " "@,
            ),
    {
        assert(raw@.take(i + 1).drop_last() =~= raw@.take(i as int));
        assert(raw@.take(i + 1).last() == raw@[i as int]);
        let b = raw[i];
        if b == 0 {
            let field = lossy_utf8(current.as_slice());
            let ghost parts = done.map_values(|f: Seq<u8>| utf8_lossy(f));
            if any_field {
                text.append(" ");
            }
            text.append(field.as_str());
            proof {
                let new_parts = done.push(current@).map_values(|f: Seq<u8>| utf8_lossy(f));
                assert(new_parts =~= parts.push(utf8_lossy(current@)));
                assert(parts.push(utf8_lossy(current@)).drop_last() =~= parts);
                done = done.push(current@);
            }
            current = Vec::new();
            any_field = true;
            assert(nul_fields(raw@.take(i + 1)) =~= done.push(current@));
        } else {
            current.push(b);
            assert(nul_fields(raw@.take(i + 1)) =~= done.push(current@));
        }
    }
    let field = lossy_utf8(current.as_slice());
    let ghost parts = done.map_values(|f: Seq<u8>| utf8_lossy(f));
    if any_field {
        text.append(" ");
    }
    text.append(field.as_str());
    proof {
        let new_parts = done.push(current@).map_values(|f: Seq<u8>| utf8_lossy(f));
        assert(new_parts =~= parts.push(utf8_lossy(current@)));
        assert(parts.push(utf8_lossy(current@)).drop_last() =~= parts);
        assert(raw@.take(n as int) =~= raw@);
    }
    text
}

/// The verdict of a process's command line (its NUL-separated arguments
/// joined by spaces): when it could be read and is not empty, the process
/// matches iff the line contains `pattern`, and that settles it; otherwise
/// `None`, and the executable name decides.
pub fn cmdline_verdict(cmdline: &Option<String>, pattern: &str) -> (verdict: Option<bool>)
    ensures
        match cmdline {
            Some(c) if c@.len() > 0 => verdict == Some(crate::text::occurs_in(c@, pattern@)),
            _ => verdict is None,
        },
{
    match cmdline {
        Some(c) => {
            let line = c.as_str();
            if line.unicode_len() > 0 {
                Some(contains(line, pattern))
            } else {
                None
            }
        },
        None => None,
    }
}

/// The fallback for processes with an empty or unreadable command line
/// (kernel threads, very short-lived processes): whether the trimmed
/// executable name, if it could be read, contains `pattern`.
pub fn comm_matches(comm: &Option<String>, pattern: &str) -> (matched: bool)
    ensures
        matched == (comm matches Some(c) && crate::text::occurs_in(c@, pattern@)),
{
    match comm {
        Some(c) => contains(c.as_str(), pattern),
        None => false,
    }
}

} // verus!
