//! Character-sequence utilities shared by the hotkey parser and the text
//! post-processing: conversion between `&str` and `Vec<char>`, ASCII
//! case-insensitive comparison, trimming and splitting.

use vstd::prelude::*;
use vstd::string::StrSliceExecFns;

verus! {

/// The whitespace characters recognized here: space, tab, line feed,
/// carriage return.
pub open spec fn is_space_char(c: char) -> bool {
    c == ' ' || c == '\t' || c == '\n' || c == '\r'
}

/// Whether `c` is one of the recognized whitespace characters.
pub fn char_is_space(c: char) -> (r: bool)
    ensures
        r == is_space_char(c),
{
    c == ' ' || c == '\t' || c == '\n' || c == '\r'
}

/// An ASCII capital letter folded to its lower-case code point; everything
/// else unchanged.
pub open spec fn lower_code(u: u32) -> u32 {
    if 65 <= u <= 90 {
        (u + 32) as u32
    } else {
        u
    }
}

/// Character sequences equal up to ASCII case.
pub open spec fn chars_eq_ci(a: Seq<char>, b: Seq<char>) -> bool {
    a.len() == b.len() && forall|i: int|
        0 <= i < a.len() ==> lower_code(a[i] as u32) == lower_code(b[i] as u32)
}

/// The characters of `s`, in order.
pub fn str_to_chars(s: &str) -> (v: Vec<char>)
    ensures
        v@ == s@,
{
    let n = s.unicode_len();
    let mut v: Vec<char> = Vec::new();
    let mut i: usize = 0;
    while i < n
        invariant
            i <= n == s@.len(),
            v@ == s@.take(i as int),
        decreases n - i,
    {
        proof {
            assert(s@.take(i + 1 as int) =~= s@.take(i as int).push(s@[i as int]));
        }
        v.push(s.get_char(i));
        i = i + 1;
    }
    proof {
        assert(s@.take(n as int) =~= s@);
    }
    v
}

/// Whether `v` and `s` hold the same characters up to ASCII case.
pub fn chars_match_ci(v: &Vec<char>, s: &str) -> (r: bool)
    ensures
        r == chars_eq_ci(v@, s@),
{
    let n = s.unicode_len();
    if v.len() != n {
        return false;
    }
    let mut i: usize = 0;
    while i < n
        invariant
            i <= n == s@.len() == v@.len(),
            forall|k: int|
                0 <= k < i ==> lower_code(v@[k] as u32) == lower_code(s@[k] as u32),
        decreases n - i,
    {
        let a = v[i] as u32;
        let b = s.get_char(i) as u32;
        let la = if 65 <= a && a <= 90 {
            a + 32
        } else {
            a
        };
        let lb = if 65 <= b && b <= 90 {
            b + 32
        } else {
            b
        };
        if la != lb {
            return false;
        }
        i = i + 1;
    }
    true
}

/// Relies on `String::push`: appends the given character to the end of the
/// string.
#[verifier::external_body]
fn string_push_char(s: &mut String, c: char)
    ensures
        final(s)@ == old(s)@.push(c),
{
    s.push(c);
}

/// Build a string holding exactly the given characters.
pub fn chars_to_string(v: &Vec<char>) -> (s: String)
    ensures
        s@ == v@,
{
    let mut s = String::new();
    let mut i: usize = 0;
    while i < v.len()
        invariant
            i <= v@.len(),
            s@ == v@.take(i as int),
        decreases v@.len() - i,
    {
        proof {
            assert(v@.take(i + 1 as int) =~= v@.take(i as int).push(v@[i as int]));
        }
        string_push_char(&mut s, v[i]);
        i = i + 1;
    }
    proof {
        assert(v@.take(v@.len() as int) =~= v@);
    }
    s
}

/// `s` without leading and trailing whitespace.
pub open spec fn spec_trim(s: Seq<char>) -> Seq<char>
    decreases s.len(),
{
    if s.len() > 0 && is_space_char(s[0]) {
        spec_trim(s.skip(1))
    } else if s.len() > 0 && is_space_char(s[s.len() - 1]) {
        spec_trim(s.drop_last())
    } else {
        s
    }
}

/// Strip leading and trailing whitespace.
pub fn trim_chars(v: &Vec<char>) -> (t: Vec<char>)
    ensures
        t@ == spec_trim(v@),
{
    let n = v.len();
    let mut a: usize = 0;
    let mut b: usize = n;
    proof {
        assert(v@.subrange(0, n as int) =~= v@);
    }
    while a < b && char_is_space(v[a])
        invariant
            a <= b <= n == v@.len(),
            spec_trim(v@) == spec_trim(v@.subrange(a as int, b as int)),
        decreases b - a,
    {
        proof {
            assert(v@.subrange(a as int, b as int).skip(1) =~= v@.subrange(a + 1 as int, b as int));
        }
        a = a + 1;
    }
    while b > a && char_is_space(v[b - 1])
        invariant
            a <= b <= n == v@.len(),
            spec_trim(v@) == spec_trim(v@.subrange(a as int, b as int)),
            a == b || !is_space_char(v@[a as int]),
        decreases b - a,
    {
        proof {
            assert(v@.subrange(a as int, b as int).drop_last() =~= v@.subrange(
                a as int,
                b - 1 as int,
            ));
        }
        b = b - 1;
    }
    let mut t: Vec<char> = Vec::new();
    let mut i = a;
    proof {
        assert(v@.subrange(a as int, a as int) =~= Seq::<char>::empty());
    }
    while i < b
        invariant
            a <= i <= b <= v@.len(),
            t@ == v@.subrange(a as int, i as int),
        decreases b - i,
    {
        proof {
            assert(v@.subrange(a as int, i + 1 as int) =~= v@.subrange(a as int, i as int).push(
                v@[i as int],
            ));
        }
        t.push(v[i]);
        i = i + 1;
    }
    proof {
        assert(spec_trim(v@.subrange(a as int, b as int)) == v@.subrange(a as int, b as int));
    }
    t
}

/// `s` split at every `sep`: always one more part than separators, with empty
/// parts where separators meet each other or an end.
pub open spec fn spec_split(s: Seq<char>, sep: char) -> Seq<Seq<char>>
    decreases s.len(),
{
    if s.len() == 0 {
        seq![Seq::<char>::empty()]
    } else if s[0] == sep {
        seq![Seq::<char>::empty()] + spec_split(s.skip(1), sep)
    } else {
        let rest = spec_split(s.skip(1), sep);
        seq![seq![s[0]] + rest[0]] + rest.skip(1)
    }
}

/// A split has at least one part.
proof fn lemma_split_len(s: Seq<char>, sep: char)
    ensures
        spec_split(s, sep).len() >= 1,
    decreases s.len(),
{
    if s.len() > 0 {
        lemma_split_len(s.skip(1), sep);
    }
}

/// The first part of `parts` extended at the front by `prefix`.
spec fn prepend_first(prefix: Seq<char>, parts: Seq<Seq<char>>) -> Seq<Seq<char>>
    recommends
        parts.len() >= 1,
{
    seq![prefix + parts[0]] + parts.skip(1)
}

/// Split at every `sep`.
pub fn split_chars(v: &Vec<char>, sep: char) -> (parts: Vec<Vec<char>>)
    ensures
        parts.deep_view() == spec_split(v@, sep),
{
    let n = v.len();
    let mut done: Vec<Vec<char>> = Vec::new();
    let mut cur: Vec<char> = Vec::new();
    let mut i: usize = 0;
    proof {
        lemma_split_len(v@, sep);
        assert(v@.skip(0) =~= v@);
        assert(done.deep_view() + prepend_first(cur@, spec_split(v@, sep)) =~~= spec_split(
            v@,
            sep,
        ));
    }
    while i < n
        invariant
            i <= n == v@.len(),
            spec_split(v@, sep) == done.deep_view() + prepend_first(
                cur@,
                spec_split(v@.skip(i as int), sep),
            ),
        decreases n - i,
    {
        proof {
            lemma_split_len(v@.skip(i + 1 as int), sep);
            assert(v@.skip(i as int)[0] == v@[i as int]);
            assert(v@.skip(i as int).skip(1) =~= v@.skip(i + 1 as int));
        }
        let ghost rest = spec_split(v@.skip(i + 1 as int), sep);
        let ghost prev_done = done.deep_view();
        let ghost prev_cur = cur@;
        let c = v[i];
        if c == sep {
            let finished = cur;
            cur = Vec::new();
            done.push(finished);
            proof {
                assert(done.deep_view() =~~= prev_done.push(finished@));
                assert(prev_done + prepend_first(finished@, spec_split(v@.skip(i as int), sep))
                    =~~= done.deep_view() + prepend_first(cur@, rest));
            }
        } else {
            cur.push(c);
            proof {
                assert(prev_done + prepend_first(prev_cur, spec_split(v@.skip(i as int), sep))
                    =~~= done.deep_view() + prepend_first(cur@, rest));
            }
        }
        i = i + 1;
    }
    proof {
        assert(v@.skip(n as int) =~= Seq::<char>::empty());
    }
    let ghost prev_done = done.deep_view();
    let ghost prev_cur = cur@;
    done.push(cur);
    proof {
        assert(prev_done + prepend_first(prev_cur, spec_split(Seq::<char>::empty(), sep))
            =~~= done.deep_view());
    }
    done
}

} // verus!
