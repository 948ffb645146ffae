//! The name mangling of the environment-variable-backed placeholder
//! providers (`STUB_MPRIS_PLAYING_<NAME>` and the like).

use crate::text::{chars_of, push_char};
use vstd::prelude::*;

verus! {

/// ASCII letters and digits upper-cased; every other character becomes `_`.
pub open spec fn shout_char(c: char) -> char {
    if 'a' <= c <= 'z' {
        ((c as u32) - 32) as char
    } else if crate::text::is_ascii_alphanumeric(c) {
        c
    } else {
        '_'
    }
}

/// `s` turned into an environment-variable-name fragment, char by char.
pub fn shout(s: &str) -> (out: String)
    ensures
        out@ == s@.map_values(|c: char| shout_char(c)),
{
    let chars = chars_of(s);
    let mut out = String::new();
    let n = chars.len();
    for i in 0..n
        invariant
            n == chars@.len(),
            chars@ == s@,
            out@ == s@.take(i as int).map_values(|c: char| shout_char(c)),
    {
        let c = chars[i];
        let mapped = if 'a' <= c && c <= 'z' {
            ((c as u8) - 32) as char
        } else if ('0' <= c && c <= '9') || ('A' <= c && c <= 'Z') {
            c
        } else {
            '_'
        };
        assert(mapped == shout_char(c));
        push_char(&mut out, mapped);
        assert(out@ =~= s@.take(i + 1).map_values(|c: char| shout_char(c)));
    }
    assert(s@.take(n as int) =~= s@);
    out
}

} // verus!
