//! The advance grammar: `base ("-"|"X") base` followed by any number of
//! parenthesized parameters; several advances are joined by `;` after the
//! `.` that introduces the whole list.

use vstd::prelude::*;
use crate::ball_path::{lemma_ball_path_ok, parse_ball_path, spec_ball_path};
use crate::game::{Advance, AdvanceParameter, AdvanceParameterV, AdvanceV, advance_parameter_view, advance_parameters_view, advance_view, advances_view};
use crate::lex::{base_from_char, base_of_char, lit_at, match_lit};
use crate::locations::{location_lookup, location_of_code};
use crate::modifiers::is_digit19;

verus! {

/// One bracketed advance parameter read at position `i`: a ball path, one
/// of the fixed flag codes, or a fielding-interference location.
pub open spec fn spec_adv_param(s: Seq<char>, i: int) -> Option<(AdvanceParameterV, int)> {
    if !(0 <= i < s.len() && s[i] == '(') {
        None
    } else {
        let j = i + 1;
        if j < s.len() && s[j] == '(' {
            match spec_ball_path(s, j) {
                Some((p, e)) => {
                    if e < s.len() && s[e] == ')' {
                        Some((AdvanceParameterV::BallPath(p), e + 1))
                    } else {
                        None
                    }
                },
                None => None,
            }
        } else if lit_at(s, j, "UR"@) && j + 2 < s.len() && s[j + 2] == ')' {
            Some((AdvanceParameterV::Unearned, j + 3))
        } else if lit_at(s, j, "TUR"@) && j + 3 < s.len() && s[j + 3] == ')' {
            Some((AdvanceParameterV::TeamUnearned, j + 4))
        } else if lit_at(s, j, "RBI"@) && j + 3 < s.len() && s[j + 3] == ')' {
            Some((AdvanceParameterV::RBICredited, j + 4))
        } else if lit_at(s, j, "NR"@) && j + 2 < s.len() && s[j + 2] == ')' {
            Some((AdvanceParameterV::RBINotCredited, j + 3))
        } else if lit_at(s, j, "NORBI"@) && j + 5 < s.len() && s[j + 5] == ')' {
            Some((AdvanceParameterV::RBINotCredited, j + 6))
        } else if lit_at(s, j, "WP"@) && j + 2 < s.len() && s[j + 2] == ')' {
            Some((AdvanceParameterV::WildPitch, j + 3))
        } else if lit_at(s, j, "PB"@) && j + 2 < s.len() && s[j + 2] == ')' {
            Some((AdvanceParameterV::PassedBall, j + 3))
        } else if j < s.len() && is_digit19(s[j]) && location_of_code(s.subrange(j, j + 1))
            is Some && lit_at(s, j + 1, "/INT"@) && j + 5 < s.len() && s[j + 5] == ')' {
            Some((
                AdvanceParameterV::Interference(location_of_code(s.subrange(j, j + 1)).unwrap()),
                j + 6,
            ))
        } else {
            None
        }
    }
}

pub proof fn lemma_adv_param_advances(s: Seq<char>, i: int)
    requires
        spec_adv_param(s, i) is Some,
    ensures
        i < spec_adv_param(s, i).unwrap().1 <= s.len(),
{
    reveal_strlit("UR");
    reveal_strlit("TUR");
    reveal_strlit("RBI");
    reveal_strlit("NR");
    reveal_strlit("NORBI");
    reveal_strlit("WP");
    reveal_strlit("PB");
    reveal_strlit("/INT");
    if 0 <= i < s.len() && s[i] == '(' && i + 1 < s.len() && s[i + 1] == '(' {
        if spec_ball_path(s, i + 1) is Some {
            lemma_ball_path_ok(s, i + 1);
        }
    }
}

/// The repetition of advance parameters: read greedily, stopping at the
/// first position where no parameter can be read.
pub open spec fn spec_adv_params(s: Seq<char>, i: int) -> (Seq<AdvanceParameterV>, int)
    decreases s.len() - i,
{
    if !(0 <= i <= s.len()) {
        (Seq::empty(), i)
    } else {
        match spec_adv_param(s, i) {
            Some((p, j)) => {
                if i < j <= s.len() {
                    let (rest, end) = spec_adv_params(s, j);
                    (seq![p] + rest, end)
                } else {
                    (Seq::empty(), i)
                }
            },
            None => (Seq::empty(), i),
        }
    }
}

pub proof fn lemma_adv_params_bounds(s: Seq<char>, i: int)
    requires
        0 <= i <= s.len(),
    ensures
        i <= spec_adv_params(s, i).1 <= s.len(),
    decreases s.len() - i,
{
    match spec_adv_param(s, i) {
        Some((p, j)) => {
            if i < j <= s.len() {
                lemma_adv_params_bounds(s, j);
            }
        },
        None => {},
    }
}

/// One advance: starting base, `-` for safe or `X` for out, ending base,
/// then its parameters.
pub open spec fn spec_advance(s: Seq<char>, i: int) -> Option<(AdvanceV, int)> {
    if 0 <= i && i + 2 < s.len() && base_of_char(s[i]) is Some && (s[i + 1] == '-' || s[i + 1]
        == 'X') && base_of_char(s[i + 2]) is Some {
        let (ps, end) = spec_adv_params(s, i + 3);
        Some((
            AdvanceV {
                starting_base: base_of_char(s[i]).unwrap(),
                ending_base: base_of_char(s[i + 2]).unwrap(),
                out: s[i + 1] == 'X',
                parameters: ps,
            },
            end,
        ))
    } else {
        None
    }
}

pub proof fn lemma_advance_advances(s: Seq<char>, i: int)
    requires
        spec_advance(s, i) is Some,
    ensures
        i < spec_advance(s, i).unwrap().1 <= s.len(),
{
    lemma_adv_params_bounds(s, i + 3);
}

/// The `;`-joined repetitions that follow the first advance.
pub open spec fn spec_adv_list(s: Seq<char>, j: int) -> (Seq<AdvanceV>, int)
    decreases s.len() - j,
{
    if 0 <= j < s.len() && s[j] == ';' {
        match spec_advance(s, j + 1) {
            Some((a, k)) => {
                if j < k <= s.len() {
                    let (rest, end) = spec_adv_list(s, k);
                    (seq![a] + rest, end)
                } else {
                    (Seq::empty(), j)
                }
            },
            None => (Seq::empty(), j),
        }
    } else {
        (Seq::empty(), j)
    }
}

pub proof fn lemma_adv_list_bounds(s: Seq<char>, j: int)
    requires
        0 <= j <= s.len(),
    ensures
        j <= spec_adv_list(s, j).1 <= s.len(),
    decreases s.len() - j,
{
    if 0 <= j < s.len() && s[j] == ';' {
        match spec_advance(s, j + 1) {
            Some((a, k)) => {
                if j < k <= s.len() {
                    lemma_adv_list_bounds(s, k);
                }
            },
            None => {},
        }
    }
}

/// The whole advance list: one advance, then any number of `;`-joined ones.
pub open spec fn spec_advances(s: Seq<char>, i: int) -> Option<(Seq<AdvanceV>, int)> {
    match spec_advance(s, i) {
        Some((a, j)) => {
            let (rest, end) = spec_adv_list(s, j);
            Some((seq![a] + rest, end))
        },
        None => None,
    }
}

/// Exec mirror of [`spec_adv_param`].
fn parse_adv_param(s: &str, i: usize) -> (r: Option<(AdvanceParameter, usize)>)
    ensures
        match r {
            Some((p, j)) => spec_adv_param(s@, i as int) == Some((advance_parameter_view(p), j as int)),
            None => spec_adv_param(s@, i as int) is None,
        },
{
    let n = s.unicode_len();
    if !(i < n && s.get_char(i) == '(') {
        return None;
    }
    let j = i + 1;
    if j < n && s.get_char(j) == '(' {
        return match parse_ball_path(s, j) {
            Some((p, e)) => {
                if e < n && s.get_char(e) == ')' {
                    Some((AdvanceParameter::BallPath(p), e + 1))
                } else {
                    None
                }
            },
            None => None,
        };
    }
    if match_lit(s, j, "UR") && n - j > 2 && s.get_char(j + 2) == ')' {
        return Some((AdvanceParameter::Unearned, j + 3));
    }
    if match_lit(s, j, "TUR") && n - j > 3 && s.get_char(j + 3) == ')' {
        return Some((AdvanceParameter::TeamUnearned, j + 4));
    }
    if match_lit(s, j, "RBI") && n - j > 3 && s.get_char(j + 3) == ')' {
        return Some((AdvanceParameter::RBICredited, j + 4));
    }
    if match_lit(s, j, "NR") && n - j > 2 && s.get_char(j + 2) == ')' {
        return Some((AdvanceParameter::RBINotCredited, j + 3));
    }
    if match_lit(s, j, "NORBI") && n - j > 5 && s.get_char(j + 5) == ')' {
        return Some((AdvanceParameter::RBINotCredited, j + 6));
    }
    if match_lit(s, j, "WP") && n - j > 2 && s.get_char(j + 2) == ')' {
        return Some((AdvanceParameter::WildPitch, j + 3));
    }
    if match_lit(s, j, "PB") && n - j > 2 && s.get_char(j + 2) == ')' {
        return Some((AdvanceParameter::PassedBall, j + 3));
    }
    if j < n {
        let c = s.get_char(j);
        let u = c as u32;
        if ('1' as u32) <= u && u <= ('9' as u32) {
            if let Some(loc) = location_lookup(s, j, j + 1) {
                if match_lit(s, j + 1, "/INT") && n - j > 5 && s.get_char(j + 5) == ')' {
                    return Some((AdvanceParameter::Interference(loc), j + 6));
                }
            }
        }
    }
    None
}

/// Exec mirror of [`spec_adv_params`].
fn parse_adv_params(s: &str, i: usize) -> (r: (Vec<AdvanceParameter>, usize))
    requires
        i <= s@.len(),
    ensures
        spec_adv_params(s@, i as int) == (advance_parameters_view(r.0@), r.1 as int),
        i <= r.1 <= s@.len(),
{
    let mut acc: Vec<AdvanceParameter> = Vec::new();
    let mut cur = i;
    proof {
        assert(advance_parameters_view(acc@) =~= Seq::empty());
    }
    loop
        invariant
            i <= cur <= s@.len(),
            spec_adv_params(s@, i as int) == (
                advance_parameters_view(acc@) + spec_adv_params(s@, cur as int).0,
                spec_adv_params(s@, cur as int).1,
            ),
        decreases s@.len() - cur,
    {
        proof {
            lemma_adv_params_bounds(s@, cur as int);
        }
        match parse_adv_param(s, cur) {
            Some((p, j)) => {
                proof {
                    lemma_adv_param_advances(s@, cur as int);
                    let (rest, end) = spec_adv_params(s@, j as int);
                    assert(advance_parameters_view(acc@) + (seq![advance_parameter_view(p)] + rest)
                        =~= advance_parameters_view(acc@.push(p)) + rest);
                }
                acc.push(p);
                cur = j;
            },
            None => {
                proof {
                    assert(advance_parameters_view(acc@) + spec_adv_params(s@, cur as int).0
                        =~= advance_parameters_view(acc@));
                }
                return (acc, cur);
            },
        }
    }
}

/// Exec mirror of [`spec_advance`].
pub fn parse_advance(s: &str, i: usize) -> (r: Option<(Advance, usize)>)
    requires
        i <= s@.len(),
    ensures
        match r {
            Some((a, j)) => spec_advance(s@, i as int) == Some((advance_view(a), j as int)),
            None => spec_advance(s@, i as int) is None,
        },
{
    let n = s.unicode_len();
    if !(i < n && n - i > 2) {
        return None;
    }
    let b1 = match base_from_char(s.get_char(i)) {
        Some(b) => b,
        None => {
            return None;
        },
    };
    let sep = s.get_char(i + 1);
    if !(sep == '-' || sep == 'X') {
        return None;
    }
    let b2 = match base_from_char(s.get_char(i + 2)) {
        Some(b) => b,
        None => {
            return None;
        },
    };
    let (ps, end) = parse_adv_params(s, i + 3);
    let a = Advance { starting_base: b1, ending_base: b2, out: sep == 'X', parameters: ps };
    Some((a, end))
}

/// Exec mirror of [`spec_advances`].
pub fn parse_advances(s: &str, i: usize) -> (r: Option<(Vec<Advance>, usize)>)
    requires
        i <= s@.len(),
    ensures
        match r {
            Some((advs, j)) => spec_advances(s@, i as int) == Some(
                (advances_view(advs@), j as int),
            ) && i <= j <= s@.len(),
            None => spec_advances(s@, i as int) is None,
        },
{
    let first = match parse_advance(s, i) {
        Some(aj) => aj,
        None => {
            return None;
        },
    };
    proof {
        lemma_advance_advances(s@, i as int);
    }
    let mut acc: Vec<Advance> = Vec::new();
    let a0 = first.0;
    let mut cur = first.1;
    acc.push(a0);
    proof {
        assert(advances_view(acc@) =~= seq![advance_view(a0)]);
        let (rest0, end0) = spec_adv_list(s@, cur as int);
        assert(seq![advance_view(a0)] + rest0 =~= advances_view(acc@) + rest0);
    }
    loop
        invariant
            i <= cur <= s@.len(),
            acc@.len() >= 1,
            spec_advances(s@, i as int) == Some(
                (
                    advances_view(acc@) + spec_adv_list(s@, cur as int).0,
                    spec_adv_list(s@, cur as int).1,
                ),
            ),
        decreases s@.len() - cur,
    {
        proof {
            lemma_adv_list_bounds(s@, cur as int);
        }
        let n = s.unicode_len();
        if !(cur < n && s.get_char(cur) == ';') {
            proof {
                assert(advances_view(acc@) + spec_adv_list(s@, cur as int).0 =~= advances_view(
                    acc@,
                ));
            }
            return Some((acc, cur));
        }
        match parse_advance(s, cur + 1) {
            Some((a, k)) => {
                proof {
                    lemma_advance_advances(s@, cur + 1);
                    let (rest, end) = spec_adv_list(s@, k as int);
                    assert(advances_view(acc@) + (seq![advance_view(a)] + rest) =~= advances_view(
                        acc@.push(a),
                    ) + rest);
                }
                acc.push(a);
                cur = k;
            },
            None => {
                proof {
                    assert(advances_view(acc@) + spec_adv_list(s@, cur as int).0 =~= advances_view(
                        acc@,
                    ));
                }
                return Some((acc, cur));
            },
        }
    }
}

} // verus!
