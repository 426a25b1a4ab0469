//! The ball-path grammar: a parenthesized chain of clean touches optionally
//! ended by a single error, which may itself name the base a throw missed:
//! `"(" fielder* ("E" fielder ("/TH" base?)?)? ")"`.

use vstd::prelude::*;
use crate::game::{BallPathNode, FieldingErrorType, ball_path_wf};
use crate::lex::{
    base_from_char, base_of_char, collect_fielders, fielder_char, fielder_from_char, fielder_of_char,
    fielders_of, find_run_end, is_fielder_char, lemma_run_end, lit_at, match_lit, run_end,
};

verus! {

/// The clean touches written by the fielder characters of `s[a..b)`.
pub open spec fn success_nodes(s: Seq<char>, a: int, b: int) -> Seq<BallPathNode> {
    Seq::new(
        if a <= b { (b - a) as nat } else { 0 },
        |k: int| BallPathNode::Success { fielder: fielder_of_char(s[a + k]) },
    )
}

/// Parses a ball path written at position `i` of `s`; on success yields the
/// fielding sequence and the position just past the closing parenthesis.
pub open spec fn spec_ball_path(s: Seq<char>, i: int) -> Option<(Seq<BallPathNode>, int)> {
    if !(0 <= i < s.len() && s[i] == '(') {
        None
    } else {
        let r = run_end(s, i + 1, s.len() as int);
        let succ = success_nodes(s, i + 1, r);
        if r < s.len() && s[r] == 'E' {
            if r + 1 < s.len() && is_fielder_char(s[r + 1]) {
                let f = fielder_of_char(s[r + 1]);
                let (et, k): (FieldingErrorType, int) = if lit_at(s, r + 2, "/TH"@) {
                    if r + 5 < s.len() && base_of_char(s[r + 5]) is Some {
                        (FieldingErrorType::ThrowingError(base_of_char(s[r + 5])), r + 6)
                    } else {
                        (FieldingErrorType::ThrowingError(None), r + 5)
                    }
                } else {
                    (FieldingErrorType::NonThrowingError, r + 2)
                };
                if k < s.len() && s[k] == ')' {
                    Some((succ.push(BallPathNode::Error { fielder: f, error_type: et }), k + 1))
                } else {
                    None
                }
            } else {
                None
            }
        } else {
            if r < s.len() && s[r] == ')' {
                Some((succ, r + 1))
            } else {
                None
            }
        }
    }
}

/// A parsed ball path is well formed and ends strictly past where it began.
pub proof fn lemma_ball_path_ok(s: Seq<char>, i: int)
    requires
        spec_ball_path(s, i) is Some,
    ensures
        ball_path_wf(spec_ball_path(s, i).unwrap().0),
        i < spec_ball_path(s, i).unwrap().1 <= s.len(),
{
    lemma_run_end(s, i + 1, s.len() as int);
}

/// Collects the clean touches written at `s[a..b)`.
fn collect_successes(s: &str, a: usize, b: usize) -> (v: Vec<BallPathNode>)
    requires
        a <= b <= s@.len(),
        forall|k: int| a <= k < b ==> is_fielder_char(#[trigger] s@[k]),
    ensures
        v@ == success_nodes(s@, a as int, b as int),
{
    let fs = collect_fielders(s, a, b);
    let mut v: Vec<BallPathNode> = Vec::new();
    let mut j: usize = 0;
    while j < fs.len()
        invariant
            fs@ == fielders_of(s@, a as int, b as int),
            a <= b <= s@.len(),
            0 <= j <= fs@.len(),
            v@ == success_nodes(s@, a as int, a + j),
        decreases fs@.len() - j,
    {
        v.push(BallPathNode::Success { fielder: fs[j] });
        j += 1;
        proof {
            assert(v@ =~= success_nodes(s@, a as int, a + j));
        }
    }
    proof {
        assert(v@ =~= success_nodes(s@, a as int, b as int));
    }
    v
}

/// Exec mirror of [`spec_ball_path`].
pub fn parse_ball_path(s: &str, i: usize) -> (r: Option<(Vec<BallPathNode>, usize)>)
    ensures
        match r {
            Some((p, j)) => spec_ball_path(s@, i as int) == Some((p@, j as int)),
            None => spec_ball_path(s@, i as int) is None,
        },
{
    let n = s.unicode_len();
    if !(i < n && s.get_char(i) == '(') {
        return None;
    }
    proof {
        lemma_run_end(s@, i + 1, s@.len() as int);
    }
    let r = find_run_end(s, i + 1, n);
    let succ = collect_successes(s, i + 1, r);
    if r < n && s.get_char(r) == 'E' {
        if r + 1 < n && fielder_char(s.get_char(r + 1)) {
            let f = fielder_from_char(s.get_char(r + 1));
            let mut et = FieldingErrorType::NonThrowingError;
            let mut k = r + 2;
            if match_lit(s, r + 2, "/TH") {
                proof {
                    reveal_strlit("/TH");
                }
                if r + 5 < n {
                    match base_from_char(s.get_char(r + 5)) {
                        Some(b) => {
                            et = FieldingErrorType::ThrowingError(Some(b));
                            k = r + 6;
                        },
                        None => {
                            et = FieldingErrorType::ThrowingError(None);
                            k = r + 5;
                        },
                    }
                } else {
                    et = FieldingErrorType::ThrowingError(None);
                    k = r + 5;
                }
            }
            if k < n && s.get_char(k) == ')' {
                let mut path = succ;
                path.push(BallPathNode::Error { fielder: f, error_type: et });
                Some((path, k + 1))
            } else {
                None
            }
        } else {
            None
        }
    } else {
        if r < n && s.get_char(r) == ')' {
            Some((succ, r + 1))
        } else {
            None
        }
    }
}

} // verus!
