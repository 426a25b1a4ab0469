//! Primitive lexemes of the record notation: fielder, base and runner
//! references, digits, and literal matching against the remaining input.

use vstd::prelude::*;
use crate::game::{Base, Fielder, Runner};

verus! {

/// A fielder is written as one digit `1`-`9` or the letter `U`.
pub open spec fn is_fielder_char(c: char) -> bool {
    ('1' as u32) <= (c as u32) <= ('9' as u32) || c == 'U'
}

pub open spec fn fielder_of_char(c: char) -> Fielder {
    if c == 'U' {
        Fielder::Unknown
    } else {
        Fielder::Known(((c as u32) - ('0' as u32)) as u8)
    }
}

/// A base is written `1`, `2`, `3`, or `H`/`B` for home.
pub open spec fn base_of_char(c: char) -> Option<Base> {
    if c == '1' {
        Some(Base::First)
    } else if c == '2' {
        Some(Base::Second)
    } else if c == '3' {
        Some(Base::Third)
    } else if c == 'H' || c == 'B' {
        Some(Base::Home)
    } else {
        None
    }
}

/// A runner is written `B` for the batter or `1`/`2`/`3` for a base occupant.
pub open spec fn runner_of_char(c: char) -> Option<Runner> {
    if c == 'B' {
        Some(Runner::Batter)
    } else if c == '1' {
        Some(Runner::First)
    } else if c == '2' {
        Some(Runner::Second)
    } else if c == '3' {
        Some(Runner::Third)
    } else {
        None
    }
}

pub open spec fn is_digit(c: char) -> bool {
    ('0' as u32) <= (c as u32) <= ('9' as u32)
}

pub open spec fn digit_val(c: char) -> int {
    (c as u32) - ('0' as u32)
}

/// The literal `p` occurs in `s` at position `i`.
pub open spec fn lit_at(s: Seq<char>, i: int, p: Seq<char>) -> bool {
    0 <= i && i + p.len() <= s.len() && s.subrange(i, i + p.len()) == p
}

/// Exec mirror of [`is_fielder_char`].
pub fn fielder_char(c: char) -> (b: bool)
    ensures
        b == is_fielder_char(c),
{
    let n = c as u32;
    (('1' as u32) <= n && n <= ('9' as u32)) || c == 'U'
}

/// Exec mirror of [`fielder_of_char`].
pub fn fielder_from_char(c: char) -> (f: Fielder)
    requires
        is_fielder_char(c),
    ensures
        f == fielder_of_char(c),
{
    if c == 'U' {
        Fielder::Unknown
    } else {
        Fielder::Known(((c as u32) - ('0' as u32)) as u8)
    }
}

/// Exec mirror of [`base_of_char`].
pub fn base_from_char(c: char) -> (b: Option<Base>)
    ensures
        b == base_of_char(c),
{
    if c == '1' {
        Some(Base::First)
    } else if c == '2' {
        Some(Base::Second)
    } else if c == '3' {
        Some(Base::Third)
    } else if c == 'H' || c == 'B' {
        Some(Base::Home)
    } else {
        None
    }
}

/// Exec mirror of [`runner_of_char`].
pub fn runner_from_char(c: char) -> (r: Option<Runner>)
    ensures
        r == runner_of_char(c),
{
    if c == 'B' {
        Some(Runner::Batter)
    } else if c == '1' {
        Some(Runner::First)
    } else if c == '2' {
        Some(Runner::Second)
    } else if c == '3' {
        Some(Runner::Third)
    } else {
        None
    }
}

/// Exec mirror of [`is_digit`].
pub fn digit_char(c: char) -> (b: bool)
    ensures
        b == is_digit(c),
{
    let n = c as u32;
    ('0' as u32) <= n && n <= ('9' as u32)
}

/// The end of the maximal run of fielder characters that starts at `i` and
/// stays below `te`.
pub open spec fn run_end(s: Seq<char>, i: int, te: int) -> int
    decreases te - i,
{
    if i < te && i < s.len() && is_fielder_char(s[i]) {
        run_end(s, i + 1, te)
    } else {
        i
    }
}

pub proof fn lemma_run_end(s: Seq<char>, i: int, te: int)
    requires
        0 <= i <= te <= s.len(),
    ensures
        i <= run_end(s, i, te) <= te,
        forall|k: int| i <= k < run_end(s, i, te) ==> is_fielder_char(#[trigger] s[k]),
        run_end(s, i, te) < te ==> !is_fielder_char(s[run_end(s, i, te)]),
    decreases te - i,
{
    if i < te && is_fielder_char(s[i]) {
        lemma_run_end(s, i + 1, te);
    }
}

/// The fielders written by the characters of `s[a..b)`.
pub open spec fn fielders_of(s: Seq<char>, a: int, b: int) -> Seq<Fielder> {
    Seq::new(if a <= b { (b - a) as nat } else { 0 }, |k: int| fielder_of_char(s[a + k]))
}

/// Exec mirror of [`run_end`].
pub fn find_run_end(s: &str, i: usize, te: usize) -> (j: usize)
    requires
        i <= te <= s@.len(),
    ensures
        j == run_end(s@, i as int, te as int),
        i <= j <= te,
    decreases te - i,
{
    proof {
        lemma_run_end(s@, i as int, te as int);
    }
    let mut j: usize = i;
    while j < te && fielder_char(s.get_char(j))
        invariant
            i <= j <= te <= s@.len(),
            run_end(s@, i as int, te as int) == run_end(s@, j as int, te as int),
        decreases te - j,
    {
        j += 1;
    }
    j
}

/// Collects the fielders written at `s[a..b)`.
pub fn collect_fielders(s: &str, a: usize, b: usize) -> (v: Vec<Fielder>)
    requires
        a <= b <= s@.len(),
        forall|k: int| a <= k < b ==> is_fielder_char(#[trigger] s@[k]),
    ensures
        v@ == fielders_of(s@, a as int, b as int),
{
    let mut v: Vec<Fielder> = Vec::new();
    let mut j: usize = a;
    while j < b
        invariant
            a <= j <= b <= s@.len(),
            forall|k: int| a <= k < b ==> is_fielder_char(#[trigger] s@[k]),
            v@ == fielders_of(s@, a as int, j as int),
        decreases b - j,
    {
        v.push(fielder_from_char(s.get_char(j)));
        j += 1;
        proof {
            assert(v@ =~= fielders_of(s@, a as int, j as int));
        }
    }
    proof {
        assert(v@ =~= fielders_of(s@, a as int, b as int));
    }
    v
}

/// Tests whether the literal `pat` occurs in `s` at character position `i`.
pub fn match_lit(s: &str, i: usize, pat: &str) -> (b: bool)
    ensures
        b == lit_at(s@, i as int, pat@),
{
    let n = s.unicode_len();
    let m = pat.unicode_len();
    if i > n || m > n - i {
        return false;
    }
    let mut j: usize = 0;
    while j < m
        invariant
            i + m <= n,
            n == s@.len(),
            m == pat@.len(),
            0 <= j <= m,
            forall|k: int| 0 <= k < j ==> s@[i + k] == pat@[k],
        decreases m - j,
    {
        if s.get_char(i + j) != pat.get_char(j) {
            assert(s@.subrange(i as int, i + m) != pat@) by {
                assert(s@.subrange(i as int, i + m)[j as int] != pat@[j as int]);
            }
            return false;
        }
        j += 1;
    }
    assert(s@.subrange(i as int, i + m) =~= pat@);
    true
}

} // verus!
