//! The contents of the daemon's PID file: a process id, as written by
//! `u32`'s text form, with surrounding whitespace allowed.

use vstd::prelude::*;
use crate::text::{parse_unsigned, parse_unsigned_chars, str_chars};

verus! {

/// Unicode `White_Space`, the characters that `str::trim` removes.
pub open spec fn is_whitespace(c: char) -> bool {
    ||| ('\t' <= c && c <= '\r')
    ||| c == ' '
    ||| c == '\u{85}'
    ||| c == '\u{a0}'
    ||| c == '\u{1680}'
    ||| ('\u{2000}' <= c && c <= '\u{200a}')
    ||| c == '\u{2028}'
    ||| c == '\u{2029}'
    ||| c == '\u{202f}'
    ||| c == '\u{205f}'
    ||| c == '\u{3000}'
}

/// `s` without its leading whitespace.
pub open spec fn trim_front(s: Seq<char>) -> Seq<char>
    decreases s.len(),
{
    if s.len() > 0 && is_whitespace(s[0]) {
        trim_front(s.drop_first())
    } else {
        s
    }
}

/// `s` without its trailing whitespace.
pub open spec fn trim_back(s: Seq<char>) -> Seq<char>
    decreases s.len(),
{
    if s.len() > 0 && is_whitespace(s.last()) {
        trim_back(s.drop_last())
    } else {
        s
    }
}

/// `s` without leading and trailing whitespace, as `str::trim` gives it.
pub open spec fn trimmed(s: Seq<char>) -> Seq<char> {
    trim_back(trim_front(s))
}

/// The process id that PID file contents `text` hold: the trimmed text
/// read as a `u32`; `None` when it is not one.
pub open spec fn spec_parse_pid(text: Seq<char>) -> Option<nat> {
    parse_unsigned(trimmed(text), u32::MAX as nat)
}

fn is_whitespace_char(c: char) -> (b: bool)
    ensures
        b == is_whitespace(c),
{
    ('\t' <= c && c <= '\r') || c == ' ' || c == '\u{85}' || c == '\u{a0}' || c == '\u{1680}' || ('\u{2000}' <= c
        && c <= '\u{200a}') || c == '\u{2028}' || c == '\u{2029}' || c == '\u{202f}' || c == '\u{205f}' || c
        == '\u{3000}'
}

/// Reads the process id in PID file contents: surrounding whitespace is
/// ignored, and what is left must be a `u32` in decimal, with an optional
/// leading `+`. `None` when it is not.
pub fn parse_pid(text: &str) -> (r: Option<u32>)
    ensures
        match r {
            Some(p) => spec_parse_pid(text@) == Some(p as nat),
            None => spec_parse_pid(text@) is None,
        },
{
    let v = str_chars(text);
    let n = v.len();
    let mut a: usize = 0;
    assert(v@.skip(0) =~= v@);
    while a < n && is_whitespace_char(v[a])
        invariant
            a <= n,
            n == v@.len(),
            trim_front(v@.skip(a as int)) == trim_front(v@),
        decreases n - a,
    {
        assert(v@.skip(a as int).drop_first() =~= v@.skip(a as int + 1));
        a = a + 1;
    }
    assert(trim_front(v@) == v@.subrange(a as int, n as int)) by {
        assert(v@.skip(a as int) =~= v@.subrange(a as int, n as int));
    }
    let mut b: usize = n;
    while b > a && is_whitespace_char(v[b - 1])
        invariant
            a <= b <= n,
            n == v@.len(),
            trim_front(v@) == v@.subrange(a as int, n as int),
            trim_back(v@.subrange(a as int, b as int)) == trimmed(v@),
        decreases b - a,
    {
        assert(v@.subrange(a as int, b as int).drop_last() =~= v@.subrange(a as int, b as int - 1));
        b = b - 1;
    }
    let mut t: Vec<char> = Vec::new();
    let mut i: usize = a;
    while i < b
        invariant
            a <= i <= b <= n,
            n == v@.len(),
            t@ == v@.subrange(a as int, i as int),
        decreases b - i,
    {
        t.push(v[i]);
        i = i + 1;
    }
    assert(t@ == trimmed(text@));
    match parse_unsigned_chars(&t, 0xffff_ffff) {
        Some(p) => Some(p as u32),
        None => None,
    }
}

} // verus!
