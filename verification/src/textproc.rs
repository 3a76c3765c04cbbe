//! Text post-processing: tidying transcribed text before injection,
//! assembling recognition segments, counting words, and choosing how each
//! character is typed.

use vstd::prelude::*;
use crate::chars::{chars_to_string, is_space_char, spec_trim, str_to_chars, trim_chars};

verus! {

/// Punctuation that closes up against the preceding word: a space directly
/// before one of these is dropped.
pub open spec fn is_tight_punct(c: char) -> bool {
    c == ',' || c == '.' || c == '!' || c == '?' || c == ';' || c == ':'
}

fn char_is_tight_punct(c: char) -> (r: bool)
    ensures
        r == is_tight_punct(c),
{
    c == ',' || c == '.' || c == '!' || c == '?' || c == ';' || c == ':'
}

/// One step of whitespace collapsing: the accumulator carries the output so
/// far and whether whitespace has been seen since the last word character.
/// A word character after such a gap gets exactly one separating space —
/// none at the very front.
pub open spec fn collapse_step(acc: (Seq<char>, bool), c: char) -> (Seq<char>, bool) {
    if is_space_char(c) {
        (acc.0, true)
    } else if acc.1 && acc.0.len() > 0 {
        (acc.0 + seq![' ', c], false)
    } else {
        (acc.0.push(c), false)
    }
}

/// Whitespace collapsing folded over the whole sequence.
pub open spec fn collapse_fold(s: Seq<char>) -> (Seq<char>, bool)
    decreases s.len(),
{
    if s.len() == 0 {
        (Seq::<char>::empty(), false)
    } else {
        collapse_step(collapse_fold(s.drop_last()), s.last())
    }
}

/// `s` with leading and trailing whitespace removed and every inner
/// whitespace run collapsed to one space.
pub open spec fn spec_collapse_ws(s: Seq<char>) -> Seq<char> {
    collapse_fold(s).0
}

/// `s` with every space that directly precedes a tight punctuation mark
/// dropped.
pub open spec fn spec_close_punct(s: Seq<char>) -> Seq<char>
    decreases s.len(),
{
    if s.len() == 0 {
        Seq::<char>::empty()
    } else if s.len() >= 2 && s[0] == ' ' && is_tight_punct(s[1]) {
        spec_close_punct(s.skip(1))
    } else {
        seq![s[0]] + spec_close_punct(s.skip(1))
    }
}

/// What cleaning does: collapse whitespace, then close spaces up against
/// punctuation.
pub open spec fn spec_clean_text(s: Seq<char>) -> Seq<char> {
    spec_close_punct(spec_collapse_ws(s))
}

/// Tidy transcribed text for injection: trim it, collapse every whitespace
/// run to a single space, and drop spaces directly before `,.!?;:`.
pub fn clean_text(text: &str) -> (r: String)
    ensures
        r@ == spec_clean_text(text@),
{
    let chars = str_to_chars(text);
    let n = chars.len();
    let mut collapsed: Vec<char> = Vec::new();
    let mut gap = false;
    let mut i: usize = 0;
    while i < n
        invariant
            i <= n == chars@.len(),
            (collapsed@, gap) == collapse_fold(chars@.take(i as int)),
        decreases n - i,
    {
        proof {
            assert(chars@.take(i + 1 as int).drop_last() =~= chars@.take(i as int));
            assert(chars@.take(i + 1 as int).last() == chars@[i as int]);
        }
        let c = chars[i];
        if crate::chars::char_is_space(c) {
            gap = true;
        } else if gap && collapsed.len() > 0 {
            let ghost before = collapsed@;
            collapsed.push(' ');
            collapsed.push(c);
            gap = false;
            proof {
                assert(collapsed@ =~= before + seq![' ', c]);
            }
        } else {
            collapsed.push(c);
            gap = false;
        }
        i = i + 1;
    }
    proof {
        assert(chars@.take(n as int) =~= chars@);
    }
    let m = collapsed.len();
    let mut out: Vec<char> = Vec::new();
    let mut j: usize = 0;
    proof {
        assert(collapsed@.skip(0) =~= collapsed@);
    }
    while j < m
        invariant
            j <= m == collapsed@.len(),
            spec_close_punct(collapsed@) == out@ + spec_close_punct(collapsed@.skip(j as int)),
        decreases m - j,
    {
        proof {
            assert(collapsed@.skip(j as int)[0] == collapsed@[j as int]);
            assert(collapsed@.skip(j as int).skip(1) =~= collapsed@.skip(j + 1 as int));
            if j + 1 < m {
                assert(collapsed@.skip(j as int)[1] == collapsed@[j + 1 as int]);
            }
        }
        let c = collapsed[j];
        if c == ' ' && j + 1 < m && char_is_tight_punct(collapsed[j + 1]) {
            // drop the space
        } else {
            let ghost before = out@;
            out.push(c);
            proof {
                assert(before + spec_close_punct(collapsed@.skip(j as int)) =~= out@
                    + spec_close_punct(collapsed@.skip(j + 1 as int)));
            }
        }
        j = j + 1;
    }
    proof {
        assert(collapsed@.skip(m as int) =~= Seq::<char>::empty());
        assert(out@ =~= spec_clean_text(text@));
    }
    chars_to_string(&out)
}

/// Word count as whitespace-separated maximal runs, scanned with a flag for
/// "previous character was whitespace (or the front)".
pub open spec fn word_count_from(s: Seq<char>, i: int, prev_space: bool) -> nat
    decreases s.len() - i
        when 0 <= i <= s.len()
{
    if i >= s.len() {
        0
    } else if !is_space_char(s[i]) && prev_space {
        1 + word_count_from(s, i + 1, false)
    } else {
        word_count_from(s, i + 1, is_space_char(s[i]))
    }
}

/// Number of whitespace-separated words in `s`.
pub open spec fn spec_word_count(s: Seq<char>) -> nat {
    word_count_from(s, 0, true)
}

/// Count the whitespace-separated words of a text.
pub fn word_count(text: &str) -> (n: usize)
    ensures
        n == spec_word_count(text@),
        n <= text@.len(),
{
    let chars = str_to_chars(text);
    let len = chars.len();
    let mut count: usize = 0;
    let mut prev_space = true;
    let mut i: usize = 0;
    while i < len
        invariant
            i <= len == chars@.len(),
            count <= i,
            spec_word_count(chars@) == count + word_count_from(chars@, i as int, prev_space),
        decreases len - i,
    {
        let c = chars[i];
        if crate::chars::char_is_space(c) {
            prev_space = true;
        } else {
            if prev_space {
                count = count + 1;
            }
            prev_space = false;
        }
        i = i + 1;
    }
    proof {
        lemma_word_count_from_zero(chars@, len as int, prev_space);
    }
    count
}

proof fn lemma_word_count_from_zero(s: Seq<char>, i: int, prev_space: bool)
    requires
        i == s.len(),
    ensures
        word_count_from(s, i, prev_space) == 0,
{
}

/// One recognition segment folded onto the text assembled so far: trimmed,
/// skipped when empty, otherwise appended after a single space (no space at
/// the front).
pub open spec fn join_step(acc: Seq<char>, seg: Seq<char>) -> Seq<char> {
    let t = spec_trim(seg);
    if t.len() == 0 {
        acc
    } else if acc.len() == 0 {
        t
    } else {
        acc + seq![' '] + t
    }
}

/// All segments folded in order.
pub open spec fn spec_join_segments(segs: Seq<Seq<char>>) -> Seq<char>
    decreases segs.len(),
{
    if segs.len() == 0 {
        Seq::<char>::empty()
    } else {
        join_step(spec_join_segments(segs.drop_last()), segs.last())
    }
}

/// Assemble the recognition engine's segments into one transcript: each
/// segment trimmed, empty ones skipped, the rest joined by single spaces.
pub fn join_segments(segments: &Vec<String>) -> (r: String)
    ensures
        r@ == spec_join_segments(segments.deep_view()),
{
    let mut out: Vec<char> = Vec::new();
    let n = segments.len();
    let mut i: usize = 0;
    while i < n
        invariant
            i <= n == segments@.len(),
            segments.deep_view().len() == n,
            out@ == spec_join_segments(segments.deep_view().take(i as int)),
        decreases n - i,
    {
        proof {
            assert(segments.deep_view().take(i + 1 as int).drop_last() =~= segments.deep_view()
                .take(i as int));
            assert(segments.deep_view().take(i + 1 as int).last() =~= segments@[i as int]@);
            assert(segments.deep_view()[i as int] =~= segments@[i as int]@);
        }
        let seg_chars = str_to_chars(segments[i].as_str());
        let t = trim_chars(&seg_chars);
        if t.len() > 0 {
            let ghost before = out@;
            if out.len() > 0 {
                out.push(' ');
            }
            let mut k: usize = 0;
            while k < t.len()
                invariant
                    k <= t@.len(),
                    before.len() > 0 ==> out@ == before + seq![' '] + t@.take(k as int),
                    before.len() == 0 ==> out@ == t@.take(k as int),
                decreases t@.len() - k,
            {
                proof {
                    assert(t@.take(k + 1 as int) =~= t@.take(k as int).push(t@[k as int]));
                    if before.len() > 0 {
                        assert(before + seq![' '] + t@.take(k + 1 as int) =~= (before + seq![' ']
                            + t@.take(k as int)).push(t@[k as int]));
                    }
                }
                out.push(t[k]);
                k = k + 1;
            }
            proof {
                assert(t@.take(t@.len() as int) =~= t@);
            }
        }
        i = i + 1;
    }
    proof {
        assert(segments.deep_view().take(n as int) =~= segments.deep_view());
    }
    chars_to_string(&out)
}

/// Keep the non-empty strings, in order.
pub open spec fn spec_keep_nonempty(items: Seq<Seq<char>>) -> Seq<Seq<char>>
    decreases items.len(),
{
    if items.len() == 0 {
        Seq::<Seq<char>>::empty()
    } else if items.last().len() > 0 {
        spec_keep_nonempty(items.drop_last()).push(items.last())
    } else {
        spec_keep_nonempty(items.drop_last())
    }
}

/// Drop the empty results of a streamed transcription, keeping order.
pub fn keep_nonempty(results: Vec<String>) -> (kept: Vec<String>)
    ensures
        kept.deep_view() == spec_keep_nonempty(results.deep_view()),
{
    let mut kept: Vec<String> = Vec::new();
    let n = results.len();
    let ghost all = results.deep_view();
    for i in 0..n
        invariant
            n == results@.len(),
            all == results.deep_view(),
            all.len() == n,
            kept.deep_view() =~~= spec_keep_nonempty(all.take(i as int)),
    {
        proof {
            assert(all.take(i + 1 as int).drop_last() =~= all.take(i as int));
            assert(all.take(i + 1 as int).last() =~= results@[i as int]@);
        }
        let ghost before = kept.deep_view();
        let item = results[i].clone();
        if !item.as_str().is_empty() {
            kept.push(item);
            proof {
                assert(kept.deep_view() =~~= before.push(results@[i as int]@));
            }
        }
    }
    proof {
        assert(all.take(n as int) =~= all);
    }
    kept
}

/// How one character is typed: the dedicated key for the control characters
/// the injector handles specially, plain text for everything else.
#[derive(Debug, Clone, Copy, PartialEq, Eq, Structural)]
pub enum KeyAction {
    PressReturn,
    PressTab,
    PressSpace,
    TypeText(char),
}

pub open spec fn spec_key_action(c: char) -> KeyAction {
    if c == '\n' {
        KeyAction::PressReturn
    } else if c == '\t' {
        KeyAction::PressTab
    } else if c == ' ' {
        KeyAction::PressSpace
    } else {
        KeyAction::TypeText(c)
    }
}

/// Which injection action types this character.
pub fn key_action_for(c: char) -> (r: KeyAction)
    ensures
        r == spec_key_action(c),
{
    if c == '\n' {
        KeyAction::PressReturn
    } else if c == '\t' {
        KeyAction::PressTab
    } else if c == ' ' {
        KeyAction::PressSpace
    } else {
        KeyAction::TypeText(c)
    }
}

} // verus!
