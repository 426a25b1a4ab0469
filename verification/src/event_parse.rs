//! The executable outcome parser, proved to return exactly what the
//! ordered-choice grammar in [`crate::event_type`] specifies.

use vstd::prelude::*;
use crate::ball_path::{parse_ball_path, success_nodes};
use crate::event_type::{
    hit_parts, paren_runner_at, sb_rest, spec_event_type, spec_sub_event,
    try_caught_stealing, try_double, try_double_play, try_error_event, try_other_advance, try_out,
    try_passed_ball, try_pickoff, try_pickoff_caught_stealing, try_single, try_stolen_base,
    try_strikeout, try_triple, try_triple_play, try_walk, try_wild_pitch,
};
use crate::game::{
    Base, BallPathNode, EventType, Fielder, Runner, base_index, event_type_view,
};
use crate::lex::{
    base_from_char, base_of_char, collect_fielders, fielder_char, fielder_from_char, find_run_end,
    is_fielder_char, lemma_run_end, lit_at, match_lit,
};

verus! {

/// Exec mirror of [`base_index`].
pub fn base_order(b: Base) -> (k: u8)
    ensures
        k as int == base_index(b),
{
    match b {
        Base::First => 1,
        Base::Second => 2,
        Base::Third => 3,
        Base::Home => 4,
    }
}

/// Exec mirror of [`paren_runner_at`].
fn paren_runner(s: &str, j: usize) -> (r: Option<Runner>)
    ensures
        r == paren_runner_at(s@, j as int),
{
    let n = s.unicode_len();
    if j < n && n - j > 2 && s.get_char(j) == '(' && s.get_char(j + 2) == ')' {
        crate::lex::runner_from_char(s.get_char(j + 1))
    } else {
        None
    }
}

fn p_out(s: &str, i: usize, te: usize) -> (r: Option<EventType>)
    requires
        i <= te <= s@.len(),
    ensures
        match r {
            Some(e) => try_out(s@, i as int, te as int) == Some(event_type_view(e)),
            None => try_out(s@, i as int, te as int) is None,
        },
{
    proof {
        lemma_run_end(s@, i as int, te as int);
    }
    let r = find_run_end(s, i, te);
    if r == i {
        return None;
    }
    let credited = fielder_from_char(s.get_char(r - 1));
    let assists = collect_fielders(s, i, r - 1);
    if r == te {
        match Runner::from_fielder(&credited) {
            Some(ro) => Some(EventType::Out {
                credited_fielder: credited,
                assisting_fielders: assists,
                runner_out: ro,
            }),
            None => None,
        }
    } else if te - r == 3 {
        match paren_runner(s, r) {
            Some(ro) => Some(EventType::Out {
                credited_fielder: credited,
                assisting_fielders: assists,
                runner_out: ro,
            }),
            None => None,
        }
    } else {
        None
    }
}

fn p_double_play(s: &str, i: usize, te: usize) -> (r: Option<EventType>)
    requires
        i <= te <= s@.len(),
    ensures
        match r {
            Some(e) => try_double_play(s@, i as int, te as int) == Some(event_type_view(e)),
            None => try_double_play(s@, i as int, te as int) is None,
        },
{
    proof {
        lemma_run_end(s@, i as int, te as int);
    }
    let r1 = find_run_end(s, i, te);
    if r1 == i || te - r1 < 3 {
        return None;
    }
    let runner1 = match paren_runner(s, r1) {
        Some(ro) => ro,
        None => {
            return None;
        },
    };
    proof {
        lemma_run_end(s@, r1 + 3, te as int);
    }
    let r2 = find_run_end(s, r1 + 3, te);
    if r2 == r1 + 3 {
        return None;
    }
    let c1 = fielder_from_char(s.get_char(r1 - 1));
    let c2 = fielder_from_char(s.get_char(r2 - 1));
    let credited = vec![c1, c2];
    let mut assists = collect_fielders(s, i, r1 - 1);
    let mut a2 = collect_fielders(s, r1 + 3, r2 - 1);
    assists.append(&mut a2);
    proof {
        assert(credited@ =~= seq![c1, c2]);
    }
    if r2 == te {
        match Runner::from_fielder(&c2) {
            Some(ro2) => {
                let runners = vec![runner1, ro2];
                proof {
                    assert(runners@ =~= seq![runner1, ro2]);
                }
                Some(EventType::DoublePlay {
                    credited_fielders: credited,
                    assisting_fielders: assists,
                    runners_out: runners,
                })
            },
            None => None,
        }
    } else if te - r2 == 3 {
        match paren_runner(s, r2) {
            Some(ro2) => {
                let runners = vec![runner1, ro2];
                proof {
                    assert(runners@ =~= seq![runner1, ro2]);
                }
                Some(EventType::DoublePlay {
                    credited_fielders: credited,
                    assisting_fielders: assists,
                    runners_out: runners,
                })
            },
            None => None,
        }
    } else {
        None
    }
}

fn p_triple_play(s: &str, i: usize, te: usize) -> (r: Option<EventType>)
    requires
        i <= te <= s@.len(),
    ensures
        match r {
            Some(e) => try_triple_play(s@, i as int, te as int) == Some(event_type_view(e)),
            None => try_triple_play(s@, i as int, te as int) is None,
        },
{
    proof {
        lemma_run_end(s@, i as int, te as int);
    }
    let r1 = find_run_end(s, i, te);
    if r1 == i || te - r1 < 3 {
        return None;
    }
    let runner1 = match paren_runner(s, r1) {
        Some(ro) => ro,
        None => {
            return None;
        },
    };
    proof {
        lemma_run_end(s@, r1 + 3, te as int);
    }
    let r2 = find_run_end(s, r1 + 3, te);
    if r2 == r1 + 3 || te - r2 < 3 {
        return None;
    }
    let runner2 = match paren_runner(s, r2) {
        Some(ro) => ro,
        None => {
            return None;
        },
    };
    proof {
        lemma_run_end(s@, r2 + 3, te as int);
    }
    let r3 = find_run_end(s, r2 + 3, te);
    if r3 == r2 + 3 {
        return None;
    }
    let c1 = fielder_from_char(s.get_char(r1 - 1));
    let c2 = fielder_from_char(s.get_char(r2 - 1));
    let c3 = fielder_from_char(s.get_char(r3 - 1));
    let credited = vec![c1, c2, c3];
    let mut assists = collect_fielders(s, i, r1 - 1);
    let mut a2 = collect_fielders(s, r1 + 3, r2 - 1);
    let mut a3 = collect_fielders(s, r2 + 3, r3 - 1);
    assists.append(&mut a2);
    assists.append(&mut a3);
    proof {
        assert(credited@ =~= seq![c1, c2, c3]);
    }
    if r3 == te {
        match Runner::from_fielder(&c3) {
            Some(ro3) => {
                let runners = vec![runner1, runner2, ro3];
                proof {
                    assert(runners@ =~= seq![runner1, runner2, ro3]);
                }
                Some(EventType::TriplePlay {
                    credited_fielders: credited,
                    assisting_fielders: assists,
                    runners_out: runners,
                })
            },
            None => None,
        }
    } else if te - r3 == 3 {
        match paren_runner(s, r3) {
            Some(ro3) => {
                let runners = vec![runner1, runner2, ro3];
                proof {
                    assert(runners@ =~= seq![runner1, runner2, ro3]);
                }
                Some(EventType::TriplePlay {
                    credited_fielders: credited,
                    assisting_fielders: assists,
                    runners_out: runners,
                })
            },
            None => None,
        }
    } else {
        None
    }
}

/// The shared body of the three base-hit alternatives: on success, the
/// credited fielder and the assists written after the hit letter at `i`.
fn p_hit_parts(s: &str, i: usize, te: usize) -> (r: Option<(Fielder, Vec<Fielder>)>)
    requires
        i < te <= s@.len(),
    ensures
        match r {
            Some((c, a)) => hit_parts(s@, i as int, te as int) == Some((c, a@)),
            None => hit_parts(s@, i as int, te as int) is None,
        },
{
    proof {
        lemma_run_end(s@, i + 1, te as int);
    }
    let r = find_run_end(s, i + 1, te);
    if r != te {
        None
    } else if r == i + 1 {
        Some((Fielder::Unknown, Vec::new()))
    } else {
        let credited = fielder_from_char(s.get_char(r - 1));
        let assists = collect_fielders(s, i + 1, r - 1);
        Some((credited, assists))
    }
}

fn p_single(s: &str, i: usize, te: usize) -> (r: Option<EventType>)
    requires
        i <= te <= s@.len(),
    ensures
        match r {
            Some(e) => try_single(s@, i as int, te as int) == Some(event_type_view(e)),
            None => try_single(s@, i as int, te as int) is None,
        },
{
    if i < te && s.get_char(i) == 'S' {
        match p_hit_parts(s, i, te) {
            Some((credited, assists)) => Some(EventType::Single {
                credited_fielder: credited,
                assisting_fielders: assists,
            }),
            None => None,
        }
    } else {
        None
    }
}

fn p_double(s: &str, i: usize, te: usize) -> (r: Option<EventType>)
    requires
        i <= te <= s@.len(),
    ensures
        match r {
            Some(e) => try_double(s@, i as int, te as int) == Some(event_type_view(e)),
            None => try_double(s@, i as int, te as int) is None,
        },
{
    if i < te && s.get_char(i) == 'D' {
        match p_hit_parts(s, i, te) {
            Some((credited, assists)) => Some(EventType::Double {
                credited_fielder: credited,
                assisting_fielders: assists,
            }),
            None => None,
        }
    } else {
        None
    }
}

fn p_triple(s: &str, i: usize, te: usize) -> (r: Option<EventType>)
    requires
        i <= te <= s@.len(),
    ensures
        match r {
            Some(e) => try_triple(s@, i as int, te as int) == Some(event_type_view(e)),
            None => try_triple(s@, i as int, te as int) is None,
        },
{
    if i < te && s.get_char(i) == 'T' {
        match p_hit_parts(s, i, te) {
            Some((credited, assists)) => Some(EventType::Triple {
                credited_fielder: credited,
                assisting_fielders: assists,
            }),
            None => None,
        }
    } else {
        None
    }
}

fn p_error_event(s: &str, i: usize, te: usize) -> (r: Option<EventType>)
    requires
        i <= te <= s@.len(),
    ensures
        match r {
            Some(e) => try_error_event(s@, i as int, te as int) == Some(event_type_view(e)),
            None => try_error_event(s@, i as int, te as int) is None,
        },
{
    proof {
        lemma_run_end(s@, i as int, te as int);
    }
    let r = find_run_end(s, i, te);
    if te - r == 2 && s.get_char(r) == 'E' && fielder_char(s.get_char(r + 1)) {
        let credited = fielder_from_char(s.get_char(r + 1));
        let assists = collect_fielders(s, i, r);
        Some(EventType::Error {
            credited_fielder: credited,
            assisting_fielders: assists,
        })
    } else {
        None
    }
}

fn p_stolen_base(s: &str, i: usize, te: usize) -> (r: Option<EventType>)
    requires
        i <= te <= s@.len(),
    ensures
        match r {
            Some(e) => try_stolen_base(s@, i as int, te as int) == Some(event_type_view(e)),
            None => try_stolen_base(s@, i as int, te as int) is None,
        },
{
    if !(te - i > 2 && match_lit(s, i, "SB")) {
        return None;
    }
    let b0 = match base_from_char(s.get_char(i + 2)) {
        Some(b) => b,
        None => {
            return None;
        },
    };
    let mut bases = vec![b0];
    let mut prev = b0;
    let mut j = i + 3;
    proof {
        assert(bases@ =~= seq![b0]);
        let ro = sb_rest(s@, i + 3, te as int, b0);
        if ro is Some {
            assert(bases@.skip(1) + ro.unwrap() =~= ro.unwrap());
        }
    }
    loop
        invariant
            i + 3 <= j <= te <= s@.len(),
            lit_at(s@, i as int, "SB"@),
            base_of_char(s@[i + 2]) == Some(b0),
            bases@.len() >= 1,
            bases@ == seq![b0] + bases@.skip(1),
            sb_rest(s@, i + 3, te as int, b0) == (match sb_rest(s@, j as int, te as int, prev) {
                Some(rest) => Some(bases@.skip(1) + rest),
                None => None::<Seq<Base>>,
            }),
        decreases te - j,
    {
        if j == te {
            proof {
                assert(bases@.skip(1) + Seq::<Base>::empty() =~= bases@.skip(1));
            }
            return Some(EventType::StolenBase { bases });
        }
        if !(match_lit(s, j, ";SB") && te - j > 3) {
            return None;
        }
        let b = match base_from_char(s.get_char(j + 3)) {
            Some(b) => b,
            None => {
                return None;
            },
        };
        if !(base_order(b) > base_order(prev)) {
            return None;
        }
        let ghost old_bases = bases@;
        let ghost old_j = j as int;
        let ghost old_prev = prev;
        bases.push(b);
        prev = b;
        j = j + 4;
        proof {
            assert(bases@.skip(1) =~= old_bases.skip(1) + seq![b]);
            let ro = sb_rest(s@, j as int, te as int, b);
            assert(sb_rest(s@, old_j, te as int, old_prev) == (match ro {
                Some(rest) => Some(seq![b] + rest),
                None => None::<Seq<Base>>,
            }));
            if ro is Some {
                assert(old_bases.skip(1) + (seq![b] + ro.unwrap()) =~= bases@.skip(1)
                    + ro.unwrap());
            }
        }
    }
}

fn p_caught_stealing(s: &str, i: usize, te: usize) -> (r: Option<EventType>)
    requires
        i <= te <= s@.len(),
    ensures
        match r {
            Some(e) => try_caught_stealing(s@, i as int, te as int) == Some(event_type_view(e)),
            None => try_caught_stealing(s@, i as int, te as int) is None,
        },
{
    if !(te - i > 2 && match_lit(s, i, "CS")) {
        return None;
    }
    let base = match base_from_char(s.get_char(i + 2)) {
        Some(b) => b,
        None => {
            return None;
        },
    };
    match parse_ball_path(s, i + 3) {
        Some((path, end)) => {
            if end == te {
                Some(EventType::CaughtStealing { base, ball_path: path })
            } else {
                None
            }
        },
        None => None,
    }
}

fn p_pickoff(s: &str, i: usize, te: usize) -> (r: Option<EventType>)
    requires
        i <= te <= s@.len(),
    ensures
        match r {
            Some(e) => try_pickoff(s@, i as int, te as int) == Some(event_type_view(e)),
            None => try_pickoff(s@, i as int, te as int) is None,
        },
{
    if !(te - i > 2 && match_lit(s, i, "PO")) {
        return None;
    }
    let base = match base_from_char(s.get_char(i + 2)) {
        Some(b) => b,
        None => {
            return None;
        },
    };
    match parse_ball_path(s, i + 3) {
        Some((path, end)) => {
            if end == te {
                Some(EventType::Pickoff { caught_stealing: false, base, ball_path: path })
            } else {
                None
            }
        },
        None => None,
    }
}

fn p_pickoff_caught_stealing(s: &str, i: usize, te: usize) -> (r: Option<EventType>)
    requires
        i <= te <= s@.len(),
    ensures
        match r {
            Some(e) => try_pickoff_caught_stealing(s@, i as int, te as int) == Some(
                event_type_view(e),
            ),
            None => try_pickoff_caught_stealing(s@, i as int, te as int) is None,
        },
{
    if !(te - i > 4 && match_lit(s, i, "POCS")) {
        return None;
    }
    let base = match base_from_char(s.get_char(i + 4)) {
        Some(b) => b,
        None => {
            return None;
        },
    };
    match parse_ball_path(s, i + 5) {
        Some((path, end)) => {
            if end == te {
                Some(EventType::Pickoff { caught_stealing: true, base, ball_path: path })
            } else {
                None
            }
        },
        None => None,
    }
}

fn p_other_advance(s: &str, i: usize, te: usize) -> (r: Option<EventType>)
    requires
        i <= te <= s@.len(),
    ensures
        match r {
            Some(e) => try_other_advance(s@, i as int, te as int) == Some(event_type_view(e)),
            None => try_other_advance(s@, i as int, te as int) is None,
        },
{
    if te - i == 2 && match_lit(s, i, "OA") {
        Some(EventType::OtherAdvance)
    } else {
        None
    }
}

fn p_passed_ball(s: &str, i: usize, te: usize) -> (r: Option<EventType>)
    requires
        i <= te <= s@.len(),
    ensures
        match r {
            Some(e) => try_passed_ball(s@, i as int, te as int) == Some(event_type_view(e)),
            None => try_passed_ball(s@, i as int, te as int) is None,
        },
{
    if te - i == 2 && match_lit(s, i, "PB") {
        Some(EventType::PassedBall)
    } else {
        None
    }
}

fn p_wild_pitch(s: &str, i: usize, te: usize) -> (r: Option<EventType>)
    requires
        i <= te <= s@.len(),
    ensures
        match r {
            Some(e) => try_wild_pitch(s@, i as int, te as int) == Some(event_type_view(e)),
            None => try_wild_pitch(s@, i as int, te as int) is None,
        },
{
    if te - i == 2 && match_lit(s, i, "WP") {
        Some(EventType::WildPitch)
    } else {
        None
    }
}

/// The ordered sub-event alternatives that may follow `+` after a strikeout
/// or walk.
fn p_sub_event(s: &str, i: usize, te: usize) -> (r: Option<EventType>)
    requires
        i <= te <= s@.len(),
    ensures
        match r {
            Some(e) => spec_sub_event(s@, i as int, te as int) == Some(event_type_view(e)),
            None => spec_sub_event(s@, i as int, te as int) is None,
        },
{
    if let Some(e) = p_stolen_base(s, i, te) {
        return Some(e);
    }
    if let Some(e) = p_caught_stealing(s, i, te) {
        return Some(e);
    }
    if let Some(e) = p_other_advance(s, i, te) {
        return Some(e);
    }
    if let Some(e) = p_pickoff(s, i, te) {
        return Some(e);
    }
    if let Some(e) = p_passed_ball(s, i, te) {
        return Some(e);
    }
    if let Some(e) = p_wild_pitch(s, i, te) {
        return Some(e);
    }
    if let Some(e) = p_error_event(s, i, te) {
        return Some(e);
    }
    None
}

fn p_strikeout(s: &str, i: usize, te: usize) -> (r: Option<EventType>)
    requires
        i <= te <= s@.len(),
    ensures
        match r {
            Some(e) => try_strikeout(s@, i as int, te as int) == Some(event_type_view(e)),
            None => try_strikeout(s@, i as int, te as int) is None,
        },
{
    if !(i < te && s.get_char(i) == 'K') {
        return None;
    }
    proof {
        lemma_run_end(s@, i + 1, te as int);
    }
    let r = find_run_end(s, i + 1, te);
    let mut path: Vec<BallPathNode> = Vec::new();
    let mut j = i + 1;
    while j < r
        invariant
            i + 1 <= j <= r <= te <= s@.len(),
            forall|k: int| i + 1 <= k < r ==> is_fielder_char(#[trigger] s@[k]),
            path@ == success_nodes(s@, i + 1, j as int),
        decreases r - j,
    {
        path.push(BallPathNode::Success { fielder: fielder_from_char(s.get_char(j)) });
        j += 1;
        proof {
            assert(path@ =~= success_nodes(s@, i + 1, j as int));
        }
    }
    proof {
        assert(path@ =~= success_nodes(s@, i + 1, r as int));
    }
    if r == te {
        Some(EventType::Strikeout { ball_path: path, base_running_event: None })
    } else if s.get_char(r) == '+' {
        match p_sub_event(s, r + 1, te) {
            Some(sub) => Some(EventType::Strikeout {
                ball_path: path,
                base_running_event: Some(Box::new(sub)),
            }),
            None => None,
        }
    } else {
        None
    }
}

fn p_walk(s: &str, i: usize, te: usize) -> (r: Option<EventType>)
    requires
        i <= te <= s@.len(),
    ensures
        match r {
            Some(e) => try_walk(s@, i as int, te as int) == Some(event_type_view(e)),
            None => try_walk(s@, i as int, te as int) is None,
        },
{
    let mut intentional = false;
    let mut j = i;
    if te - i >= 2 && match_lit(s, i, "IW") {
        intentional = true;
        j = i + 2;
    } else if i < te && s.get_char(i) == 'I' {
        intentional = true;
        j = i + 1;
    } else if i < te && s.get_char(i) == 'W' {
        intentional = false;
        j = i + 1;
    } else {
        return None;
    }
    if j == te {
        Some(EventType::Walk { intentional, base_running_event: None })
    } else if s.get_char(j) == '+' {
        match p_sub_event(s, j + 1, te) {
            Some(sub) => Some(EventType::Walk {
                intentional,
                base_running_event: Some(Box::new(sub)),
            }),
            None => None,
        }
    } else {
        None
    }
}

/// Parses the outcome token `s[i..te)` by trying each alternative in the
/// fixed priority order and committing to the first that matches the whole
/// token.
pub fn parse_event_type(s: &str, i: usize, te: usize) -> (r: Option<EventType>)
    requires
        i <= te <= s@.len(),
    ensures
        match r {
            Some(e) => spec_event_type(s@, i as int, te as int) == Some(event_type_view(e)),
            None => spec_event_type(s@, i as int, te as int) is None,
        },
{
    if let Some(e) = p_out(s, i, te) {
        return Some(e);
    }
    if let Some(e) = p_double_play(s, i, te) {
        return Some(e);
    }
    if let Some(e) = p_triple_play(s, i, te) {
        return Some(e);
    }
    if te - i == 1 && s.get_char(i) == 'C' {
        return Some(EventType::Interference);
    }
    if let Some(e) = p_single(s, i, te) {
        return Some(e);
    }
    if let Some(e) = p_double(s, i, te) {
        return Some(e);
    }
    if let Some(e) = p_triple(s, i, te) {
        return Some(e);
    }
    if te - i == 3 && match_lit(s, i, "DGR") {
        return Some(EventType::GroundRuleDouble);
    }
    if let Some(e) = p_error_event(s, i, te) {
        return Some(e);
    }
    if te - i == 3 && match_lit(s, i, "FC") && fielder_char(s.get_char(i + 2)) {
        return Some(EventType::FieldersChoice {
            credited_fielder: fielder_from_char(s.get_char(i + 2)),
        });
    }
    if te - i == 4 && match_lit(s, i, "FLE") && fielder_char(s.get_char(i + 3)) {
        return Some(EventType::ErrorOnFoulFlyBall {
            credited_fielder: fielder_from_char(s.get_char(i + 3)),
        });
    }
    if (te - i == 1 && s.get_char(i) == 'H') || (te - i == 2 && match_lit(s, i, "HR")) {
        return Some(EventType::SoloHomeRun);
    }
    if te - i == 3 && match_lit(s, i, "HR") && fielder_char(s.get_char(i + 2)) {
        return Some(EventType::InsideTheParkHomeRun {
            credited_fielder: fielder_from_char(s.get_char(i + 2)),
        });
    }
    if te - i == 2 && s.get_char(i) == 'H' && fielder_char(s.get_char(i + 1)) {
        return Some(EventType::InsideTheParkHomeRun {
            credited_fielder: fielder_from_char(s.get_char(i + 1)),
        });
    }
    if te - i == 2 && match_lit(s, i, "HP") {
        return Some(EventType::HitByPitch);
    }
    if let Some(e) = p_strikeout(s, i, te) {
        return Some(e);
    }
    if te - i == 2 && match_lit(s, i, "NP") {
        return Some(EventType::NoPlay);
    }
    if let Some(e) = p_walk(s, i, te) {
        return Some(e);
    }
    if te - i == 2 && match_lit(s, i, "BK") {
        return Some(EventType::Balk);
    }
    if let Some(e) = p_caught_stealing(s, i, te) {
        return Some(e);
    }
    if te - i == 2 && match_lit(s, i, "DI") {
        return Some(EventType::DefensiveIndifference);
    }
    if let Some(e) = p_other_advance(s, i, te) {
        return Some(e);
    }
    if let Some(e) = p_passed_ball(s, i, te) {
        return Some(e);
    }
    if let Some(e) = p_wild_pitch(s, i, te) {
        return Some(e);
    }
    if let Some(e) = p_pickoff(s, i, te) {
        return Some(e);
    }
    if let Some(e) = p_pickoff_caught_stealing(s, i, te) {
        return Some(e);
    }
    if let Some(e) = p_stolen_base(s, i, te) {
        return Some(e);
    }
    None
}

} // verus!
