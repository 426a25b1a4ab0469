//! Laws of the grammar engine: every decoded event satisfies the structural
//! invariants of the data model, and the formatter inverts the grammar: for
//! every well-formed outcome, of any kind in the catalogue, parsing the
//! canonical text yields the outcome back.

use vstd::prelude::*;
use crate::advances::{
    spec_adv_list, spec_adv_param, spec_adv_params, spec_advance, spec_advances,
};
use crate::ball_path::{lemma_ball_path_ok, spec_ball_path, success_nodes};
use crate::event::{spec_parse_event, token_end};
use crate::event_type::{
    hit_parts, sb_rest, spec_event_type, spec_sub_event, try_caught_stealing, try_double_play,
    try_error_event, try_out, try_pickoff, try_pickoff_caught_stealing, try_stolen_base,
    try_strikeout, try_triple_play, try_walk,
};
use crate::event_text::fielder_text;
use crate::game::{
    AdvanceV, BallPathNode, Base, EventModifier, EventTypeV, EventV, Fielder, FieldingErrorType,
    Runner, advance_wf,
    advance_parameter_wf,
    ball_path_wf, base_index, bases_increasing, event_type_wf, event_wf, fielder_wf, fielders_wf,
    location_is_single_digit, modifier_wf,
};
use crate::lex::{
    fielder_of_char, fielders_of, is_fielder_char, lemma_run_end, run_end,
};
use crate::locations::location_of_code;
use crate::modifiers::{spec_modifiers, spec_one_modifier};

verus! {

/// For every valid fielder character (`1`..`9` or `U`), formatting the
/// parsed fielder yields exactly the original text: the formatter is the
/// inverse of the fielder lexeme.
pub proof fn lemma_fielder_text_round_trip(c: char)
    requires
        is_fielder_char(c),
    ensures
        fielder_text(fielder_of_char(c)) =~= seq![c],
{
    reveal_strlit("U");
    reveal_strlit("1");
    reveal_strlit("2");
    reveal_strlit("3");
    reveal_strlit("4");
    reveal_strlit("5");
    reveal_strlit("6");
    reveal_strlit("7");
    reveal_strlit("8");
    reveal_strlit("9");
    if c != 'U' {
        char_back(c, '1');
        char_back(c, '2');
        char_back(c, '3');
        char_back(c, '4');
        char_back(c, '5');
        char_back(c, '6');
        char_back(c, '7');
        char_back(c, '8');
        char_back(c, '9');
    }
}

/// Two characters with the same scalar value are the same character.
proof fn char_back(c: char, d: char)
    ensures
        (c as u32) == (d as u32) ==> c == d,
{
    if (c as u32) == (d as u32) {
        vstd::utf8::char_u32_cast(c, c as u32);
        vstd::utf8::char_u32_cast(d, c as u32);
    }
}

/// The fielder a ball-path node names.
pub open spec fn node_fielder(n: BallPathNode) -> Fielder {
    match n {
        BallPathNode::Success { fielder } => fielder,
        BallPathNode::Error { fielder, error_type } => fielder,
    }
}

/// The text of a well-formed fielder is one character, and reading that
/// character back yields the fielder: the two primitive maps are inverse.
pub proof fn lemma_fielder_char_inverse(f: Fielder)
    requires
        fielder_wf(f),
    ensures
        fielder_text(f).len() == 1,
        is_fielder_char(fielder_text(f)[0]),
        fielder_of_char(fielder_text(f)[0]) == f,
{
    reveal_strlit("U");
    reveal_strlit("1");
    reveal_strlit("2");
    reveal_strlit("3");
    reveal_strlit("4");
    reveal_strlit("5");
    reveal_strlit("6");
    reveal_strlit("7");
    reveal_strlit("8");
    reveal_strlit("9");
}

/// The text of a base is one character, and reading it back yields the
/// base.
pub proof fn lemma_base_char_inverse(b: Base)
    ensures
        crate::event_text::base_text(b).len() == 1,
        crate::lex::base_of_char(crate::event_text::base_text(b)[0]) == Some(b),
{
    reveal_strlit("1");
    reveal_strlit("2");
    reveal_strlit("3");
    reveal_strlit("H");
}

/// The text of a chain of clean touches is one fielder character per node.
proof fn lemma_success_nodes_text(ns: Seq<BallPathNode>)
    requires
        forall|k: int| 0 <= k < ns.len() ==> (#[trigger] ns[k]) is Success,
        forall|k: int| 0 <= k < ns.len() ==> fielder_wf(node_fielder(#[trigger] ns[k])),
    ensures
        crate::event_text::ball_path_nodes_text(ns).len() == ns.len(),
        forall|j: int|
            0 <= j < ns.len() ==> is_fielder_char(
                #[trigger] crate::event_text::ball_path_nodes_text(ns)[j],
            ) && fielder_of_char(crate::event_text::ball_path_nodes_text(ns)[j]) == node_fielder(
                ns[j],
            ),
    decreases ns.len(),
{
    if ns.len() > 0 {
        lemma_success_nodes_text(ns.drop_last());
        lemma_fielder_char_inverse(node_fielder(ns.last()));
        let pre = crate::event_text::ball_path_nodes_text(ns.drop_last());
        let whole = crate::event_text::ball_path_nodes_text(ns);
        assert(whole == pre + fielder_text(node_fielder(ns.last())));
        assert forall|j: int|
            0 <= j < ns.len() implies is_fielder_char(#[trigger] whole[j]) && fielder_of_char(
            whole[j],
        ) == node_fielder(ns[j]) by {
            if j < ns.len() - 1 {
                assert(whole[j] == pre[j]);
                assert(ns.drop_last()[j] == ns[j]);
            } else {
                assert(whole[j] == fielder_text(node_fielder(ns.last()))[0]);
            }
        }
    }
}

/// A run that covers exactly the fielder characters from `a` to `b` ends at
/// `b`.
proof fn lemma_run_end_exact(s: Seq<char>, a: int, b: int, te: int)
    requires
        0 <= a <= b <= te <= s.len(),
        forall|k: int| a <= k < b ==> is_fielder_char(#[trigger] s[k]),
        b < te ==> !is_fielder_char(s[b]),
    ensures
        run_end(s, a, te) == b,
{
    lemma_run_end(s, a, te);
    let r = run_end(s, a, te);
    if r < b {
        assert(is_fielder_char(s[r]));
    }
    if r > b {
        assert(is_fielder_char(s[b]));
    }
}

/// Parsing the canonical text of a well-formed fielding sequence, written
/// at position `i` of a larger string, yields the sequence back and stops
/// just past its closing parenthesis: the formatter inverts the ball-path
/// grammar.
pub proof fn lemma_ball_path_round_trip(s: Seq<char>, i: int, p: Seq<BallPathNode>)
    requires
        ball_path_wf(p),
        0 <= i,
        crate::lex::lit_at(s, i, crate::event_text::ball_path_text(p)),
    ensures
        spec_ball_path(s, i) == Some(
            (p, i + crate::event_text::ball_path_text(p).len() as int),
        ),
{
    reveal_strlit("(");
    reveal_strlit(")");
    reveal_strlit("E");
    reveal_strlit("/TH");
    let txt = crate::event_text::ball_path_text(p);
    let nodes = crate::event_text::ball_path_nodes_text(p);
    assert forall|j: int| 0 <= j < txt.len() implies s[i + j] == txt[j] by {
        assert(s.subrange(i, i + txt.len())[j] == s[i + j]);
    }
    let has_err = p.len() > 0 && p.last() is Error;
    let succ: Seq<BallPathNode> = if has_err {
        p.drop_last()
    } else {
        p
    };
    assert(forall|k: int| 0 <= k < succ.len() ==> (#[trigger] succ[k]) is Success);
    assert(forall|k: int| 0 <= k < succ.len() ==> fielder_wf(node_fielder(#[trigger] succ[k])));
    lemma_success_nodes_text(succ);
    let k = succ.len() as int;
    let stext = crate::event_text::ball_path_nodes_text(succ);
    if has_err {
        assert(nodes == stext + crate::event_text::ball_path_node_text(p.last()));
    } else {
        assert(nodes == stext);
    }
    assert forall|j: int| i + 1 <= j < i + 1 + k implies is_fielder_char(#[trigger] s[j]) by {
        assert(txt[j - i] == nodes[j - i - 1]);
        assert(nodes[j - i - 1] == stext[j - i - 1]);
    }
    assert(stext.len() == k);
    assert forall|j: int| 0 <= j < nodes.len() implies #[trigger] txt[1 + j] == nodes[j] by {}
    assert(txt[0] == '(');
    assert(s[i] == '(');
    assert(txt[txt.len() - 1] == ')');
    if has_err {
        let f = node_fielder(p.last());
        lemma_fielder_char_inverse(f);
        let etext = crate::event_text::ball_path_node_text(p.last());
        assert(nodes.len() == k + etext.len());
        assert forall|j: int| 0 <= j < etext.len() implies #[trigger] nodes[k + j] == etext[j]
            by {}
        assert(etext[0] == 'E');
        assert(txt[1 + k] == etext[0]);
        assert(s[i + 1 + k] == 'E');
        assert(!is_fielder_char('E')) by {
            assert(('E' as u32) == 69);
        }
        lemma_run_end_exact(s, i + 1, i + 1 + k, s.len() as int);
        assert forall|j: int| 0 <= j < k implies #[trigger] success_nodes(s, i + 1, i + 1 + k)[j]
            == succ[j] by {
            assert(s[i + 1 + j] == txt[1 + j]);
            assert(txt[1 + j] == nodes[j]);
            assert(nodes[j] == stext[j]);
            assert(fielder_of_char(stext[j]) == node_fielder(succ[j]));
        }
        assert(success_nodes(s, i + 1, i + 1 + k) =~= succ);
        assert(etext[1] == fielder_text(f)[0]);
        assert(txt[2 + k] == etext[1]);
        assert(fielder_of_char(s[i + 2 + k]) == f);
        assert(is_fielder_char(s[i + 2 + k]));
        match p.last() {
            BallPathNode::Error { fielder, error_type } => {
                match error_type {
                    FieldingErrorType::NonThrowingError => {
                        assert(etext.len() == 2);
                        assert(txt.len() == k + 4);
                        assert(txt[3 + k] == ')');
                        assert(s[i + 3 + k] == ')');
                        assert(!crate::lex::lit_at(s, i + 3 + k, "/TH"@)) by {
                            if crate::lex::lit_at(s, i + 3 + k, "/TH"@) {
                                assert(s.subrange(i + 3 + k, i + 6 + k) == "/TH"@);
                                assert(s.subrange(i + 3 + k, i + 6 + k)[0] == s[i + 3 + k]);
                            }
                        }
                        assert(spec_ball_path(s, i) == Some((succ.push(p.last()), i + 4 + k)));
                        assert(succ.push(p.last()) =~= p);
                    },
                    FieldingErrorType::ThrowingError(ob) => {
                        assert(etext == "E"@ + fielder_text(f) + ("/TH"@ + match ob {
                            Some(bb) => crate::event_text::base_text(bb),
                            None => Seq::<char>::empty(),
                        }));
                        assert(etext[2] == '/');
                        assert(etext[3] == 'T');
                        assert(etext[4] == 'H');
                        assert(txt[3 + k] == etext[2]);
                        assert(txt[4 + k] == etext[3]);
                        assert(txt[5 + k] == etext[4]);
                        assert(crate::lex::lit_at(s, i + 3 + k, "/TH"@)) by {
                            assert(s.subrange(i + 3 + k, i + 6 + k) =~= "/TH"@);
                        }
                        match ob {
                            None => {
                                assert(etext.len() == 5);
                                assert(txt.len() == k + 7);
                                assert(txt[6 + k] == ')');
                                assert(s[i + 6 + k] == ')');
                                assert(crate::lex::base_of_char(')') is None);
                                assert(spec_ball_path(s, i) == Some(
                                    (succ.push(p.last()), i + 7 + k),
                                ));
                                assert(succ.push(p.last()) =~= p);
                            },
                            Some(b) => {
                                lemma_base_char_inverse(b);
                                assert(etext.len() == 6);
                                assert(txt.len() == k + 8);
                                assert(etext[5] == crate::event_text::base_text(b)[0]);
                                assert(txt[5 + k + 1] == etext[5]);
                                assert(s[i + 6 + k] == crate::event_text::base_text(b)[0]);
                                assert(crate::lex::base_of_char(s[i + 6 + k]) == Some(b));
                                assert(txt[7 + k] == ')');
                                assert(s[i + 7 + k] == ')');
                                assert(spec_ball_path(s, i) == Some(
                                    (succ.push(p.last()), i + 8 + k),
                                ));
                                assert(succ.push(p.last()) =~= p);
                            },
                        }
                    },
                }
            },
            BallPathNode::Success { .. } => {},
        }
    } else {
        assert(nodes.len() == k);
        assert(txt.len() == k + 2);
        assert(txt[1 + k] == ')');
        assert(s[i + 1 + k] == ')');
        assert(!is_fielder_char(')')) by {
            assert((')' as u32) == 41);
        }
        lemma_run_end_exact(s, i + 1, i + 1 + k, s.len() as int);
        assert forall|j: int| 0 <= j < k implies #[trigger] success_nodes(s, i + 1, i + 1 + k)[j]
            == p[j] by {
            assert(s[i + 1 + j] == txt[1 + j]);
            assert(txt[1 + j] == nodes[j]);
            assert(fielder_of_char(stext[j]) == node_fielder(p[j]));
        }
        assert(success_nodes(s, i + 1, i + 1 + k) =~= p);
        assert(s[i + 1 + k] != 'E');
    }
}

/// Parsing the canonical text of a well-formed fielding sequence on its
/// own yields the sequence back and consumes all of it.
pub proof fn lemma_ball_path_text_round_trip(p: Seq<BallPathNode>)
    requires
        ball_path_wf(p),
    ensures
        spec_ball_path(crate::event_text::ball_path_text(p), 0) == Some(
            (p, crate::event_text::ball_path_text(p).len() as int),
        ),
{
    let txt = crate::event_text::ball_path_text(p);
    assert(txt.subrange(0, txt.len() as int) =~= txt);
    lemma_ball_path_round_trip(txt, 0, p);
}

/// Each character of an occurrence of `p` agrees with `p`.
proof fn lemma_lit_char(s: Seq<char>, i: int, p: Seq<char>, j: int)
    requires
        crate::lex::lit_at(s, i, p),
        0 <= j < p.len(),
    ensures
        s[i + j] == p[j],
{
    assert(s.subrange(i, i + p.len())[j] == s[i + j]);
}

/// The first character of an occurrence of `p` is `p`'s first character.
proof fn lemma_lit_head(s: Seq<char>, i: int, p: Seq<char>)
    requires
        crate::lex::lit_at(s, i, p),
        p.len() > 0,
    ensures
        s[i] == p[0],
{
    assert(s.subrange(i, i + p.len())[0] == s[i]);
}

/// A literal does not occur where some character of it disagrees with the
/// input.
proof fn lemma_lit_differs(s: Seq<char>, i: int, p: Seq<char>, j: int)
    requires
        0 <= j < p.len(),
        0 <= i,
        i + j < s.len() ==> s[i + j] != p[j],
    ensures
        !crate::lex::lit_at(s, i, p),
{
    if crate::lex::lit_at(s, i, p) {
        assert(s.subrange(i, i + p.len())[j] == s[i + j]);
    }
}

/// The outcomes whose canonical text is a fixed code, possibly followed by
/// one fielder.
pub open spec fn fixed_code_outcome(e: EventTypeV) -> bool {
    match e {
        EventTypeV::Interference => true,
        EventTypeV::GroundRuleDouble => true,
        EventTypeV::FieldersChoice { .. } => true,
        EventTypeV::ErrorOnFoulFlyBall { .. } => true,
        EventTypeV::SoloHomeRun => true,
        EventTypeV::InsideTheParkHomeRun { .. } => true,
        EventTypeV::HitByPitch => true,
        EventTypeV::NoPlay => true,
        EventTypeV::Balk => true,
        EventTypeV::DefensiveIndifference => true,
        EventTypeV::OtherAdvance => true,
        EventTypeV::PassedBall => true,
        EventTypeV::WildPitch => true,
        _ => false,
    }
}

/// For every outcome written as a fixed code, parsing the canonical text as
/// a whole outcome token yields the outcome back: the formatter inverts the
/// ordered-choice grammar on these alternatives.
#[verifier::rlimit(100)]
#[verifier::spinoff_prover]
pub proof fn lemma_fixed_code_round_trip(s: Seq<char>, i: int, e: EventTypeV)
    requires
        event_type_wf(e),
        fixed_code_outcome(e),
        0 <= i,
        crate::lex::lit_at(s, i, crate::event_text::event_type_text(e)),
    ensures
        spec_event_type(s, i, i + crate::event_text::event_type_text(e).len() as int) == Some(e),
{
    reveal_strlit("C");
    reveal_strlit("DGR");
    reveal_strlit("FC");
    reveal_strlit("FLE");
    reveal_strlit("HR");
    reveal_strlit("HP");
    reveal_strlit("NP");
    reveal_strlit("BK");
    reveal_strlit("DI");
    reveal_strlit("OA");
    reveal_strlit("PB");
    reveal_strlit("WP");
    reveal_strlit("IW");
    reveal_strlit("CS");
    let txt = crate::event_text::event_type_text(e);
    let te = i + txt.len() as int;
    match e {
        EventTypeV::Interference => {
            lemma_lit_char(s, i, txt, 0);
            lemma_run_end_exact(s, i, i, te);
        },
        EventTypeV::GroundRuleDouble => {
            lemma_lit_char(s, i, txt, 0);
            lemma_lit_char(s, i, txt, 1);
            lemma_run_end_exact(s, i, i, te);
            lemma_run_end_exact(s, i + 1, i + 1, te);
        },
        EventTypeV::FieldersChoice { credited_fielder } => {
            lemma_fielder_char_inverse(credited_fielder);
            lemma_lit_char(s, i, txt, 0);
            lemma_lit_char(s, i, txt, 1);
            lemma_lit_char(s, i, txt, 2);
            assert(txt[2] == fielder_text(credited_fielder)[0]);
            lemma_run_end_exact(s, i, i, te);
            lemma_lit_differs(s, i, "DGR"@, 0);
            assert(crate::lex::lit_at(s, i, "FC"@)) by {
                assert(s.subrange(i, i + 2) =~= "FC"@);
            }
        },
        EventTypeV::ErrorOnFoulFlyBall { credited_fielder } => {
            lemma_fielder_char_inverse(credited_fielder);
            lemma_lit_char(s, i, txt, 0);
            lemma_lit_char(s, i, txt, 1);
            lemma_lit_char(s, i, txt, 2);
            lemma_lit_char(s, i, txt, 3);
            assert(txt[3] == fielder_text(credited_fielder)[0]);
            lemma_run_end_exact(s, i, i, te);
            assert(crate::lex::lit_at(s, i, "FLE"@)) by {
                assert(s.subrange(i, i + 3) =~= "FLE"@);
            }
        },
        EventTypeV::SoloHomeRun => {
            lemma_lit_char(s, i, txt, 0);
            lemma_lit_char(s, i, txt, 1);
            lemma_run_end_exact(s, i, i, te);
        },
        EventTypeV::InsideTheParkHomeRun { credited_fielder } => {
            lemma_fielder_char_inverse(credited_fielder);
            lemma_lit_char(s, i, txt, 0);
            lemma_lit_char(s, i, txt, 1);
            lemma_lit_char(s, i, txt, 2);
            assert(txt[2] == fielder_text(credited_fielder)[0]);
            lemma_run_end_exact(s, i, i, te);
            lemma_lit_differs(s, i, "DGR"@, 0);
            lemma_lit_differs(s, i, "FC"@, 0);
            assert(crate::lex::lit_at(s, i, "HR"@)) by {
                assert(s.subrange(i, i + 2) =~= "HR"@);
            }
        },
        EventTypeV::HitByPitch => {
            lemma_lit_char(s, i, txt, 0);
            lemma_lit_char(s, i, txt, 1);
            lemma_run_end_exact(s, i, i, te);
            lemma_lit_differs(s, i, "HR"@, 1);
        },
        EventTypeV::NoPlay => {
            lemma_lit_char(s, i, txt, 0);
            lemma_lit_char(s, i, txt, 1);
            lemma_run_end_exact(s, i, i, te);
            lemma_lit_differs(s, i, "HR"@, 0);
            lemma_lit_differs(s, i, "HP"@, 0);
        },
        EventTypeV::Balk => {
            lemma_lit_char(s, i, txt, 0);
            lemma_lit_char(s, i, txt, 1);
            lemma_run_end_exact(s, i, i, te);
            lemma_lit_differs(s, i, "HR"@, 0);
            lemma_lit_differs(s, i, "HP"@, 0);
            lemma_lit_differs(s, i, "NP"@, 0);
            lemma_lit_differs(s, i, "IW"@, 0);
        },
        EventTypeV::DefensiveIndifference => {
            lemma_lit_char(s, i, txt, 0);
            lemma_lit_char(s, i, txt, 1);
            lemma_run_end_exact(s, i, i, te);
            lemma_lit_differs(s, i, "HR"@, 0);
            lemma_lit_differs(s, i, "HP"@, 0);
            lemma_lit_differs(s, i, "NP"@, 0);
            lemma_lit_differs(s, i, "IW"@, 0);
            lemma_lit_differs(s, i, "BK"@, 0);
            lemma_lit_differs(s, i, "CS"@, 0);
        },
        EventTypeV::OtherAdvance => {
            lemma_lit_char(s, i, txt, 0);
            lemma_lit_char(s, i, txt, 1);
            lemma_run_end_exact(s, i, i, te);
            lemma_lit_differs(s, i, "HR"@, 0);
            lemma_lit_differs(s, i, "HP"@, 0);
            lemma_lit_differs(s, i, "NP"@, 0);
            lemma_lit_differs(s, i, "IW"@, 0);
            lemma_lit_differs(s, i, "BK"@, 0);
            lemma_lit_differs(s, i, "CS"@, 0);
            lemma_lit_differs(s, i, "DI"@, 0);
        },
        EventTypeV::PassedBall => {
            lemma_lit_char(s, i, txt, 0);
            lemma_lit_char(s, i, txt, 1);
            lemma_run_end_exact(s, i, i, te);
            lemma_lit_differs(s, i, "HR"@, 0);
            lemma_lit_differs(s, i, "HP"@, 0);
            lemma_lit_differs(s, i, "NP"@, 0);
            lemma_lit_differs(s, i, "IW"@, 0);
            lemma_lit_differs(s, i, "BK"@, 0);
            lemma_lit_differs(s, i, "CS"@, 0);
            lemma_lit_differs(s, i, "DI"@, 0);
            lemma_lit_differs(s, i, "OA"@, 0);
        },
        EventTypeV::WildPitch => {
            lemma_lit_char(s, i, txt, 0);
            lemma_lit_char(s, i, txt, 1);
            lemma_run_end_exact(s, i, i, te);
            lemma_lit_differs(s, i, "HR"@, 0);
            lemma_lit_differs(s, i, "HP"@, 0);
            lemma_lit_differs(s, i, "NP"@, 0);
            lemma_lit_differs(s, i, "IW"@, 0);
            lemma_lit_differs(s, i, "BK"@, 0);
            lemma_lit_differs(s, i, "CS"@, 0);
            lemma_lit_differs(s, i, "DI"@, 0);
            lemma_lit_differs(s, i, "OA"@, 0);
            lemma_lit_differs(s, i, "PB"@, 0);
        },
        _ => {},
    }
}

/// The text of a stolen-base repetition is four characters per base.
proof fn lemma_sb_bases_text_len(bs: Seq<Base>)
    ensures
        crate::event_text::sb_bases_text(bs).len() == 4 * bs.len(),
    decreases bs.len(),
{
    if bs.len() > 0 {
        lemma_sb_bases_text_len(bs.drop_last());
        lemma_base_char_inverse(bs.last());
        reveal_strlit(";SB");
    }
}

/// The drop-last recursion of the repetition text, read from the front.
proof fn lemma_sb_bases_text_first(bs: Seq<Base>)
    requires
        bs.len() > 0,
    ensures
        crate::event_text::sb_bases_text(bs) == ";SB"@ + crate::event_text::base_text(bs[0])
            + crate::event_text::sb_bases_text(bs.drop_first()),
    decreases bs.len(),
{
    let whole = crate::event_text::sb_bases_text(bs);
    if bs.len() == 1 {
        assert(crate::event_text::sb_bases_text(bs.drop_last()) == Seq::<char>::empty());
        assert(whole =~= ";SB"@ + crate::event_text::base_text(bs[0])
            + crate::event_text::sb_bases_text(bs.drop_first()));
    } else {
        lemma_sb_bases_text_first(bs.drop_last());
        assert(bs.drop_last()[0] == bs[0]);
        assert(bs.drop_first().drop_last() =~= bs.drop_last().drop_first());
        assert(bs.drop_first().last() == bs.last());
        assert(whole =~= ";SB"@ + crate::event_text::base_text(bs[0])
            + crate::event_text::sb_bases_text(bs.drop_first()));
    }
}

/// Parsing the text of a `;SB`-joined repetition yields its bases back.
proof fn lemma_sb_rest_parse(s: Seq<char>, j: int, te: int, prev: Base, bs: Seq<Base>)
    requires
        bases_increasing(seq![prev] + bs),
        0 <= j,
        j + crate::event_text::sb_bases_text(bs).len() == te,
        te <= s.len(),
        crate::lex::lit_at(s, j, crate::event_text::sb_bases_text(bs)),
    ensures
        sb_rest(s, j, te, prev) == Some(bs),
    decreases bs.len(),
{
    reveal_strlit(";SB");
    lemma_sb_bases_text_len(bs);
    if bs.len() == 0 {
        assert(bs =~= Seq::<Base>::empty());
    } else {
        lemma_sb_bases_text_first(bs);
        lemma_base_char_inverse(bs[0]);
        let txt = crate::event_text::sb_bases_text(bs);
        let rest_txt = crate::event_text::sb_bases_text(bs.drop_first());
        lemma_sb_bases_text_len(bs.drop_first());
        lemma_lit_char(s, j, txt, 0);
        lemma_lit_char(s, j, txt, 1);
        lemma_lit_char(s, j, txt, 2);
        lemma_lit_char(s, j, txt, 3);
        assert(txt[3] == crate::event_text::base_text(bs[0])[0]);
        assert(crate::lex::lit_at(s, j, ";SB"@)) by {
            assert(s.subrange(j, j + 3) =~= ";SB"@);
        }
        assert(crate::lex::base_of_char(s[j + 3]) == Some(bs[0]));
        assert(base_index(bs[0]) > base_index(prev)) by {
            assert((seq![prev] + bs)[0] == prev);
            assert((seq![prev] + bs)[1] == bs[0]);
        }
        assert(crate::lex::lit_at(s, j + 4, rest_txt)) by {
            assert forall|k: int| 0 <= k < rest_txt.len() implies s.subrange(
                j + 4,
                j + 4 + rest_txt.len(),
            )[k] == rest_txt[k] by {
                lemma_lit_char(s, j, txt, 4 + k);
                assert(txt[4 + k] == rest_txt[k]);
            }
            assert(s.subrange(j + 4, j + 4 + rest_txt.len()) =~= rest_txt);
        }
        assert(bases_increasing(seq![bs[0]] + bs.drop_first())) by {
            let inner = seq![bs[0]] + bs.drop_first();
            let outer = seq![prev] + bs;
            assert forall|k: int, k2: int|
                0 <= k && k2 == k + 1 && k2 < inner.len() implies base_index(
                #[trigger] inner[k],
            ) < base_index(#[trigger] inner[k2]) by {
                assert(inner[k] == outer[k + 1]);
                assert(inner[k2] == outer[k + 2]);
                assert(base_index(outer[k + 1]) < base_index(outer[k + 2]));
            }
        }
        lemma_sb_rest_parse(s, j + 4, te, bs[0], bs.drop_first());
        assert(seq![bs[0]] + bs.drop_first() =~= bs);
    }
}

/// For every well-formed stolen-base outcome, parsing its canonical text as
/// a whole outcome token yields the outcome back.
#[verifier::rlimit(100)]
#[verifier::spinoff_prover]
pub proof fn lemma_stolen_base_round_trip(s: Seq<char>, i: int, e: EventTypeV)
    requires
        event_type_wf(e),
        e is StolenBase,
        0 <= i,
        crate::lex::lit_at(s, i, crate::event_text::event_type_text(e)),
    ensures
        spec_event_type(s, i, i + crate::event_text::event_type_text(e).len() as int) == Some(e),
        try_stolen_base(s, i, i + crate::event_text::event_type_text(e).len() as int) == Some(e),
{
    reveal_strlit("SB");
    reveal_strlit("DGR");
    reveal_strlit("FC");
    reveal_strlit("FLE");
    reveal_strlit("HR");
    reveal_strlit("HP");
    reveal_strlit("NP");
    reveal_strlit("BK");
    reveal_strlit("DI");
    reveal_strlit("OA");
    reveal_strlit("PB");
    reveal_strlit("WP");
    reveal_strlit("IW");
    reveal_strlit("CS");
    reveal_strlit("PO");
    reveal_strlit("POCS");
    let txt = crate::event_text::event_type_text(e);
    let te = i + txt.len() as int;
    match e {
        EventTypeV::StolenBase { bases } => {
            let b0 = bases[0];
            let rest = bases.drop_first();
            lemma_base_char_inverse(b0);
            lemma_sb_bases_text_len(rest);
            lemma_lit_char(s, i, txt, 0);
            lemma_lit_char(s, i, txt, 1);
            lemma_lit_char(s, i, txt, 2);
            assert(txt[2] == crate::event_text::base_text(b0)[0]);
            lemma_run_end_exact(s, i, i, te);
            lemma_run_end_exact(s, i + 1, i + 1, te);
            lemma_lit_differs(s, i, "DGR"@, 0);
            lemma_lit_differs(s, i, "FC"@, 0);
            lemma_lit_differs(s, i, "HR"@, 0);
            lemma_lit_differs(s, i, "IW"@, 0);
            lemma_lit_differs(s, i, "CS"@, 0);
            lemma_lit_differs(s, i, "PO"@, 0);
            lemma_lit_differs(s, i, "POCS"@, 0);
            assert(crate::lex::lit_at(s, i, "SB"@)) by {
                assert(s.subrange(i, i + 2) =~= "SB"@);
            }
            assert(crate::lex::base_of_char(s[i + 2]) == Some(b0));
            let rest_txt = crate::event_text::sb_bases_text(rest);
            assert(crate::lex::lit_at(s, i + 3, rest_txt)) by {
                assert forall|k: int| 0 <= k < rest_txt.len() implies s.subrange(
                    i + 3,
                    i + 3 + rest_txt.len(),
                )[k] == rest_txt[k] by {
                    lemma_lit_char(s, i, txt, 3 + k);
                    assert(txt[3 + k] == rest_txt[k]);
                }
                assert(s.subrange(i + 3, i + 3 + rest_txt.len()) =~= rest_txt);
            }
            assert(bases_increasing(seq![b0] + rest)) by {
                assert(seq![b0] + rest =~= bases);
            }
            lemma_sb_rest_parse(s, i + 3, te, b0, rest);
            assert(seq![b0] + rest =~= bases);
        },
        _ => {},
    }
}

/// The text of a runner is one character, and reading it back yields the
/// runner.
pub proof fn lemma_runner_char_inverse(r: Runner)
    ensures
        crate::event_text::runner_text(r).len() == 1,
        crate::lex::runner_of_char(crate::event_text::runner_text(r)[0]) == Some(r),
{
    reveal_strlit("B");
    reveal_strlit("1");
    reveal_strlit("2");
    reveal_strlit("3");
}

/// The text of a well-formed fielder list is one fielder character per
/// entry.
proof fn lemma_fielders_text_chars(fs: Seq<Fielder>)
    requires
        fielders_wf(fs),
    ensures
        crate::event_text::fielders_text(fs).len() == fs.len(),
        forall|j: int|
            0 <= j < fs.len() ==> is_fielder_char(
                #[trigger] crate::event_text::fielders_text(fs)[j],
            ) && fielder_of_char(crate::event_text::fielders_text(fs)[j]) == fs[j],
    decreases fs.len(),
{
    if fs.len() > 0 {
        lemma_fielders_text_chars(fs.drop_last());
        lemma_fielder_char_inverse(fs.last());
        let pre = crate::event_text::fielders_text(fs.drop_last());
        let whole = crate::event_text::fielders_text(fs);
        assert(whole == pre + fielder_text(fs.last()));
        assert forall|j: int|
            0 <= j < fs.len() implies is_fielder_char(#[trigger] whole[j]) && fielder_of_char(
            whole[j],
        ) == fs[j] by {
            if j < fs.len() - 1 {
                assert(whole[j] == pre[j]);
                assert(fs.drop_last()[j] == fs[j]);
            } else {
                assert(whole[j] == fielder_text(fs.last())[0]);
            }
        }
    }
}

/// The run of fielder characters written at `s[a..b)` reads back as the
/// list it was formatted from.
proof fn lemma_fielders_of_text(s: Seq<char>, a: int, fs: Seq<Fielder>)
    requires
        fielders_wf(fs),
        0 <= a,
        a + fs.len() <= s.len(),
        forall|j: int|
            0 <= j < fs.len() ==> s[a + j] == #[trigger] crate::event_text::fielders_text(fs)[j],
    ensures
        fielders_of(s, a, a + fs.len()) =~= fs,
{
    lemma_fielders_text_chars(fs);
    assert forall|j: int| 0 <= j < fs.len() implies #[trigger] fielders_of(
        s,
        a,
        a + fs.len(),
    )[j] == fs[j] by {
        assert(s[a + j] == crate::event_text::fielders_text(fs)[j]);
    }
}

/// A well-formed out parses back from its canonical text.
#[verifier::rlimit(100)]
#[verifier::spinoff_prover]
proof fn lemma_plain_out_round_trip(s: Seq<char>, i: int, e: EventTypeV)
    requires
        event_type_wf(e),
        e is Out,
        0 <= i,
        crate::lex::lit_at(s, i, crate::event_text::event_type_text(e)),
    ensures
        spec_event_type(s, i, i + crate::event_text::event_type_text(e).len() as int) == Some(e),
{
    reveal_strlit("(");
    reveal_strlit(")");
    let txt = crate::event_text::event_type_text(e);
    let te = i + txt.len() as int;
    match e {
        EventTypeV::Out { credited_fielder, assisting_fielders, runner_out } => {
            lemma_fielders_text_chars(assisting_fielders);
            lemma_fielder_char_inverse(credited_fielder);
            lemma_runner_char_inverse(runner_out);
            let k = assisting_fielders.len() as int;
            let atext = crate::event_text::fielders_text(assisting_fielders);
            assert forall|j: int| 0 <= j < txt.len() implies s[i + j] == txt[j] by {
                assert(s.subrange(i, i + txt.len())[j] == s[i + j]);
            }
            assert forall|j: int| 0 <= j < k implies s[i + j] == #[trigger] atext[j] by {
                assert(txt[j] == atext[j]);
            }
            assert(atext.len() == k);
            assert(txt =~= atext + fielder_text(credited_fielder) + "("@ + crate::event_text::runner_text(
                runner_out,
            ) + ")"@);
            assert(txt[k] == fielder_text(credited_fielder)[0]);
            assert(txt[k + 1] == '(');
            assert(txt[k + 2] == crate::event_text::runner_text(runner_out)[0]);
            assert(txt[k + 3] == ')');
            assert(s[i + k] == fielder_text(credited_fielder)[0]);
            assert(s[i + k + 1] == '(');
            assert(s[i + k + 2] == crate::event_text::runner_text(runner_out)[0]);
            assert(s[i + k + 3] == ')');
            assert(!is_fielder_char('(')) by {
                assert(('(' as u32) == 40);
            }
            assert forall|m: int| i <= m < i + k + 1 implies is_fielder_char(
                #[trigger] s[m],
            ) by {
                if m < i + k {
                    assert(s[m] == atext[m - i]);
                } else {
                    assert(s[m] == fielder_text(credited_fielder)[0]);
                }
            }
            lemma_run_end_exact(s, i, i + k + 1, te);
            lemma_fielders_of_text(s, i, assisting_fielders);
            assert(crate::event_type::paren_runner_at(s, i + k + 1) == Some(runner_out));
            assert(try_out(s, i, te) == Some(e));
        },
        _ => {},
    }
}

/// A well-formed double play parses back from its canonical text.
#[verifier::rlimit(100)]
#[verifier::spinoff_prover]
proof fn lemma_double_play_round_trip(s: Seq<char>, i: int, e: EventTypeV)
    requires
        event_type_wf(e),
        e is DoublePlay,
        0 <= i,
        crate::lex::lit_at(s, i, crate::event_text::event_type_text(e)),
    ensures
        spec_event_type(s, i, i + crate::event_text::event_type_text(e).len() as int) == Some(e),
{
    reveal_strlit("(");
    reveal_strlit(")");
    let txt = crate::event_text::event_type_text(e);
    let te = i + txt.len() as int;
    match e {
        EventTypeV::DoublePlay { credited_fielders, assisting_fielders, runners_out } => {
            lemma_fielders_text_chars(assisting_fielders);
            lemma_fielder_char_inverse(credited_fielders[0]);
            lemma_fielder_char_inverse(credited_fielders[1]);
            lemma_runner_char_inverse(runners_out[0]);
            lemma_runner_char_inverse(runners_out[1]);
            let k = assisting_fielders.len() as int;
            let atext = crate::event_text::fielders_text(assisting_fielders);
            assert forall|j: int| 0 <= j < txt.len() implies s[i + j] == txt[j] by {
                assert(s.subrange(i, i + txt.len())[j] == s[i + j]);
            }
            assert forall|j: int| 0 <= j < k implies s[i + j] == #[trigger] atext[j] by {
                assert(txt[j] == atext[j]);
            }
            assert(atext.len() == k);
            assert(txt =~= atext + fielder_text(credited_fielders[0]) + "("@
                + crate::event_text::runner_text(runners_out[0]) + ")"@ + fielder_text(
                credited_fielders[1],
            ) + "("@ + crate::event_text::runner_text(runners_out[1]) + ")"@);
            assert(txt[k] == fielder_text(credited_fielders[0])[0]);
            assert(txt[k + 1] == '(');
            assert(txt[k + 2] == crate::event_text::runner_text(runners_out[0])[0]);
            assert(txt[k + 3] == ')');
            assert(txt[k + 4] == fielder_text(credited_fielders[1])[0]);
            assert(txt[k + 5] == '(');
            assert(txt[k + 6] == crate::event_text::runner_text(runners_out[1])[0]);
            assert(txt[k + 7] == ')');
            assert(s[i + k] == fielder_text(credited_fielders[0])[0]);
            assert(s[i + k + 1] == '(');
            assert(s[i + k + 2] == crate::event_text::runner_text(runners_out[0])[0]);
            assert(s[i + k + 3] == ')');
            assert(s[i + k + 4] == fielder_text(credited_fielders[1])[0]);
            assert(s[i + k + 5] == '(');
            assert(s[i + k + 6] == crate::event_text::runner_text(runners_out[1])[0]);
            assert(s[i + k + 7] == ')');
            assert(!is_fielder_char('(')) by {
                assert(('(' as u32) == 40);
            }
            assert forall|m: int| i <= m < i + k + 1 implies is_fielder_char(
                #[trigger] s[m],
            ) by {
                if m < i + k {
                    assert(s[m] == atext[m - i]);
                } else {
                    assert(s[m] == fielder_text(credited_fielders[0])[0]);
                }
            }
            lemma_run_end_exact(s, i, i + k + 1, te);
            lemma_fielders_of_text(s, i, assisting_fielders);
            lemma_run_end_exact(s, i + k + 4, i + k + 5, te);
            assert(crate::event_type::paren_runner_at(s, i + k + 1) == Some(runners_out[0]));
            assert(crate::event_type::paren_runner_at(s, i + k + 5) == Some(runners_out[1]));
            assert(try_out(s, i, te) is None);
            assert(fielders_of(s, i + k + 4, i + k + 4) =~= Seq::<Fielder>::empty());
            assert(fielders_of(s, i, i + k) + fielders_of(s, i + k + 4, i + k + 4)
                =~= assisting_fielders);
            assert(seq![
                fielder_of_char(s[i + k]),
                fielder_of_char(s[i + k + 4]),
            ] =~= credited_fielders);
            assert(seq![runners_out[0], runners_out[1]] =~= runners_out);
            assert(try_double_play(s, i, te) == Some(e));
        },
        _ => {},
    }
}

/// A well-formed triple play parses back from its canonical text.
#[verifier::rlimit(100)]
#[verifier::spinoff_prover]
proof fn lemma_triple_play_round_trip(s: Seq<char>, i: int, e: EventTypeV)
    requires
        event_type_wf(e),
        e is TriplePlay,
        0 <= i,
        crate::lex::lit_at(s, i, crate::event_text::event_type_text(e)),
    ensures
        spec_event_type(s, i, i + crate::event_text::event_type_text(e).len() as int) == Some(e),
{
    reveal_strlit("(");
    reveal_strlit(")");
    let txt = crate::event_text::event_type_text(e);
    let te = i + txt.len() as int;
    match e {
        EventTypeV::TriplePlay { credited_fielders, assisting_fielders, runners_out } => {
            lemma_fielders_text_chars(assisting_fielders);
            lemma_fielder_char_inverse(credited_fielders[0]);
            lemma_fielder_char_inverse(credited_fielders[1]);
            lemma_fielder_char_inverse(credited_fielders[2]);
            lemma_runner_char_inverse(runners_out[0]);
            lemma_runner_char_inverse(runners_out[1]);
            lemma_runner_char_inverse(runners_out[2]);
            let k = assisting_fielders.len() as int;
            let atext = crate::event_text::fielders_text(assisting_fielders);
            assert forall|j: int| 0 <= j < txt.len() implies s[i + j] == txt[j] by {
                assert(s.subrange(i, i + txt.len())[j] == s[i + j]);
            }
            assert forall|j: int| 0 <= j < k implies s[i + j] == #[trigger] atext[j] by {
                assert(txt[j] == atext[j]);
            }
            assert(atext.len() == k);
            assert(txt =~= atext + fielder_text(credited_fielders[0]) + "("@
                + crate::event_text::runner_text(runners_out[0]) + ")"@ + fielder_text(
                credited_fielders[1],
            ) + "("@ + crate::event_text::runner_text(runners_out[1]) + ")"@ + fielder_text(
                credited_fielders[2],
            ) + "("@ + crate::event_text::runner_text(runners_out[2]) + ")"@);
            assert(txt[k] == fielder_text(credited_fielders[0])[0]);
            assert(txt[k + 1] == '(');
            assert(txt[k + 2] == crate::event_text::runner_text(runners_out[0])[0]);
            assert(txt[k + 3] == ')');
            assert(txt[k + 4] == fielder_text(credited_fielders[1])[0]);
            assert(txt[k + 5] == '(');
            assert(txt[k + 6] == crate::event_text::runner_text(runners_out[1])[0]);
            assert(txt[k + 7] == ')');
            assert(txt[k + 8] == fielder_text(credited_fielders[2])[0]);
            assert(txt[k + 9] == '(');
            assert(txt[k + 10] == crate::event_text::runner_text(runners_out[2])[0]);
            assert(txt[k + 11] == ')');
            assert(s[i + k] == fielder_text(credited_fielders[0])[0]);
            assert(s[i + k + 1] == '(');
            assert(s[i + k + 2] == crate::event_text::runner_text(runners_out[0])[0]);
            assert(s[i + k + 3] == ')');
            assert(s[i + k + 4] == fielder_text(credited_fielders[1])[0]);
            assert(s[i + k + 5] == '(');
            assert(s[i + k + 6] == crate::event_text::runner_text(runners_out[1])[0]);
            assert(s[i + k + 7] == ')');
            assert(s[i + k + 8] == fielder_text(credited_fielders[2])[0]);
            assert(s[i + k + 9] == '(');
            assert(s[i + k + 10] == crate::event_text::runner_text(runners_out[2])[0]);
            assert(s[i + k + 11] == ')');
            assert(!is_fielder_char('(')) by {
                assert(('(' as u32) == 40);
            }
            assert forall|m: int| i <= m < i + k + 1 implies is_fielder_char(
                #[trigger] s[m],
            ) by {
                if m < i + k {
                    assert(s[m] == atext[m - i]);
                } else {
                    assert(s[m] == fielder_text(credited_fielders[0])[0]);
                }
            }
            lemma_run_end_exact(s, i, i + k + 1, te);
            lemma_fielders_of_text(s, i, assisting_fielders);
            lemma_run_end_exact(s, i + k + 4, i + k + 5, te);
            lemma_run_end_exact(s, i + k + 8, i + k + 9, te);
            assert(crate::event_type::paren_runner_at(s, i + k + 1) == Some(runners_out[0]));
            assert(crate::event_type::paren_runner_at(s, i + k + 5) == Some(runners_out[1]));
            assert(crate::event_type::paren_runner_at(s, i + k + 9) == Some(runners_out[2]));
            assert(try_out(s, i, te) is None);
            assert(try_double_play(s, i, te) is None);
            assert(fielders_of(s, i + k + 4, i + k + 4) =~= Seq::<Fielder>::empty());
            assert(fielders_of(s, i + k + 8, i + k + 8) =~= Seq::<Fielder>::empty());
            assert(fielders_of(s, i, i + k) + fielders_of(s, i + k + 4, i + k + 4) + fielders_of(
                s,
                i + k + 8,
                i + k + 8,
            ) =~= assisting_fielders);
            assert(seq![
                fielder_of_char(s[i + k]),
                fielder_of_char(s[i + k + 4]),
                fielder_of_char(s[i + k + 8]),
            ] =~= credited_fielders);
            assert(seq![runners_out[0], runners_out[1], runners_out[2]] =~= runners_out);
            assert(try_triple_play(s, i, te) == Some(e));
        },
        _ => {},
    }
}

/// For a well-formed out, double play or triple play, parsing the
/// canonical text as a whole outcome token yields the value back: every
/// runner is written explicitly, so no inference is involved.
pub proof fn lemma_out_round_trip(s: Seq<char>, i: int, e: EventTypeV)
    requires
        event_type_wf(e),
        e is Out || e is DoublePlay || e is TriplePlay,
        0 <= i,
        crate::lex::lit_at(s, i, crate::event_text::event_type_text(e)),
    ensures
        spec_event_type(s, i, i + crate::event_text::event_type_text(e).len() as int) == Some(e),
{
    if e is Out {
        lemma_plain_out_round_trip(s, i, e);
    } else if e is DoublePlay {
        lemma_double_play_round_trip(s, i, e);
    } else {
        lemma_triple_play_round_trip(s, i, e);
    }
}

/// For a well-formed single, double or triple, parsing the canonical text
/// as a whole outcome token yields the hit back.
#[verifier::rlimit(100)]
#[verifier::spinoff_prover]
pub proof fn lemma_hit_round_trip(s: Seq<char>, i: int, e: EventTypeV)
    requires
        event_type_wf(e),
        e is Single || e is Double || e is Triple,
        0 <= i,
        crate::lex::lit_at(s, i, crate::event_text::event_type_text(e)),
    ensures
        spec_event_type(s, i, i + crate::event_text::event_type_text(e).len() as int) == Some(e),
{
    reveal_strlit("S");
    reveal_strlit("D");
    reveal_strlit("T");
    let txt = crate::event_text::event_type_text(e);
    let te = i + txt.len() as int;
    let (credited, assists): (Fielder, Seq<Fielder>) = match e {
        EventTypeV::Single { credited_fielder, assisting_fielders } => (
            credited_fielder,
            assisting_fielders,
        ),
        EventTypeV::Double { credited_fielder, assisting_fielders } => (
            credited_fielder,
            assisting_fielders,
        ),
        EventTypeV::Triple { credited_fielder, assisting_fielders } => (
            credited_fielder,
            assisting_fielders,
        ),
        _ => (Fielder::Unknown, Seq::empty()),
    };
    lemma_fielders_text_chars(assists);
    lemma_fielder_char_inverse(credited);
    let k = assists.len() as int;
    let atext = crate::event_text::fielders_text(assists);
    assert forall|j: int| 0 <= j < txt.len() implies s[i + j] == txt[j] by {
        assert(s.subrange(i, i + txt.len())[j] == s[i + j]);
    }
    assert(atext.len() == k);
    assert forall|j: int| 0 <= j < k implies s[i + 1 + j] == #[trigger] atext[j] by {
        assert(txt[1 + j] == atext[j]);
    }
    assert(txt[1 + k] == fielder_text(credited)[0]);
    assert(s[i + 1 + k] == fielder_text(credited)[0]);
    assert(txt[0] == 'S' || txt[0] == 'D' || txt[0] == 'T');
    lemma_lit_char(s, i, txt, 0);
    assert(s[i] == txt[0]);
    assert(!is_fielder_char('S')) by {
        assert(('S' as u32) == 83);
    }
    assert(!is_fielder_char('D')) by {
        assert(('D' as u32) == 68);
    }
    assert(!is_fielder_char('T')) by {
        assert(('T' as u32) == 84);
    }
    assert(!is_fielder_char(s[i]));
    lemma_run_end_exact(s, i, i, te);
    assert forall|m: int| i + 1 <= m < te implies is_fielder_char(#[trigger] s[m]) by {
        if m < i + 1 + k {
            assert(s[m] == atext[m - i - 1]);
        } else {
            assert(s[m] == fielder_text(credited)[0]);
        }
    }
    lemma_run_end_exact(s, i + 1, te, te);
    lemma_fielders_of_text(s, i + 1, assists);
    assert(hit_parts(s, i, te) == Some((credited, assists)));
}

/// For a well-formed error outcome, parsing the canonical text as a whole
/// outcome token yields it back.
#[verifier::rlimit(100)]
#[verifier::spinoff_prover]
pub proof fn lemma_error_round_trip(s: Seq<char>, i: int, e: EventTypeV)
    requires
        event_type_wf(e),
        e is Error,
        0 <= i,
        crate::lex::lit_at(s, i, crate::event_text::event_type_text(e)),
    ensures
        spec_event_type(s, i, i + crate::event_text::event_type_text(e).len() as int) == Some(e),
        try_error_event(s, i, i + crate::event_text::event_type_text(e).len() as int) == Some(e),
{
    reveal_strlit("E");
    reveal_strlit("DGR");
    let txt = crate::event_text::event_type_text(e);
    let te = i + txt.len() as int;
    match e {
        EventTypeV::Error { credited_fielder, assisting_fielders } => {
            lemma_fielders_text_chars(assisting_fielders);
            lemma_fielder_char_inverse(credited_fielder);
            let k = assisting_fielders.len() as int;
            let atext = crate::event_text::fielders_text(assisting_fielders);
            assert forall|j: int| 0 <= j < txt.len() implies s[i + j] == txt[j] by {
                assert(s.subrange(i, i + txt.len())[j] == s[i + j]);
            }
            assert(atext.len() == k);
            assert forall|j: int| 0 <= j < k implies s[i + j] == #[trigger] atext[j] by {
                assert(txt[j] == atext[j]);
            }
            assert(txt[k] == 'E');
            assert(s[i + k] == 'E');
            assert(txt[k + 1] == fielder_text(credited_fielder)[0]);
            assert(s[i + k + 1] == fielder_text(credited_fielder)[0]);
            assert(!is_fielder_char('E')) by {
                assert(('E' as u32) == 69);
            }
            assert(!is_fielder_char('D')) by {
                assert(('D' as u32) == 68);
            }
            assert(!is_fielder_char('S')) by {
                assert(('S' as u32) == 83);
            }
            assert(!is_fielder_char('T')) by {
                assert(('T' as u32) == 84);
            }
            assert forall|m: int| i <= m < i + k implies is_fielder_char(#[trigger] s[m]) by {
                assert(s[m] == atext[m - i]);
            }
            if k > 0 {
                assert(s[i] == atext[0]);
                assert(is_fielder_char(s[i]));
            } else {
                assert(s[i] == 'E');
            }
            lemma_run_end_exact(s, i, i + k, te);
            lemma_fielders_of_text(s, i, assisting_fielders);
            lemma_lit_differs(s, i, "DGR"@, 0);
            assert(try_error_event(s, i, te) == Some(e));
        },
        _ => {},
    }
}

/// For a well-formed caught-stealing or pickoff outcome, parsing the
/// canonical text as a whole outcome token yields it back.
#[verifier::rlimit(100)]
#[verifier::spinoff_prover]
pub proof fn lemma_base_running_round_trip(s: Seq<char>, i: int, e: EventTypeV)
    requires
        event_type_wf(e),
        e is CaughtStealing || e is Pickoff,
        0 <= i,
        crate::lex::lit_at(s, i, crate::event_text::event_type_text(e)),
    ensures
        spec_event_type(s, i, i + crate::event_text::event_type_text(e).len() as int) == Some(e),
        e is CaughtStealing ==> try_caught_stealing(
            s,
            i,
            i + crate::event_text::event_type_text(e).len() as int,
        ) == Some(e),
        (e matches EventTypeV::Pickoff { caught_stealing: false, .. }) ==> try_pickoff(
            s,
            i,
            i + crate::event_text::event_type_text(e).len() as int,
        ) == Some(e),
{
    reveal_strlit("CS");
    reveal_strlit("PO");
    reveal_strlit("POCS");
    reveal_strlit("IW");
    reveal_strlit("(");
    reveal_strlit(")");
    let txt = crate::event_text::event_type_text(e);
    let te = i + txt.len() as int;
    assert forall|j: int| 0 <= j < txt.len() implies s[i + j] == txt[j] by {
        assert(s.subrange(i, i + txt.len())[j] == s[i + j]);
    }
    match e {
        EventTypeV::CaughtStealing { base, ball_path } => {
            lemma_base_char_inverse(base);
            let bpt = crate::event_text::ball_path_text(ball_path);
            assert(txt =~= "CS"@ + crate::event_text::base_text(base) + bpt);
            assert(txt[0] == 'C');
            assert(txt[1] == 'S');
            assert(txt[2] == crate::event_text::base_text(base)[0]);
            assert(s[i] == 'C');
            assert(s[i + 1] == 'S');
            assert(s[i + 2] == crate::event_text::base_text(base)[0]);
            assert(!is_fielder_char('C')) by {
                assert(('C' as u32) == 67);
            }
            lemma_run_end_exact(s, i, i, te);
            lemma_run_end_exact(s, i + 1, i + 1, te);
            lemma_lit_differs(s, i, "IW"@, 0);
            assert(crate::lex::lit_at(s, i, "CS"@)) by {
                assert(s.subrange(i, i + 2) =~= "CS"@);
            }
            assert(crate::lex::lit_at(s, i + 3, bpt)) by {
                assert forall|m: int| 0 <= m < bpt.len() implies s.subrange(
                    i + 3,
                    i + 3 + bpt.len(),
                )[m] == bpt[m] by {
                    assert(s[i + 3 + m] == txt[3 + m]);
                    assert(txt[3 + m] == bpt[m]);
                }
                assert(s.subrange(i + 3, i + 3 + bpt.len()) =~= bpt);
            }
            lemma_ball_path_round_trip(s, i + 3, ball_path);
            assert(try_caught_stealing(s, i, te) == Some(e));
        },
        EventTypeV::Pickoff { caught_stealing, base, ball_path } => {
            lemma_base_char_inverse(base);
            let bpt = crate::event_text::ball_path_text(ball_path);
            assert(!is_fielder_char('P')) by {
                assert(('P' as u32) == 80);
            }
            if caught_stealing {
                assert(txt =~= "POCS"@ + crate::event_text::base_text(base) + bpt);
                assert(txt[0] == 'P');
                assert(txt[1] == 'O');
                assert(txt[2] == 'C');
                assert(txt[3] == 'S');
                assert(txt[4] == crate::event_text::base_text(base)[0]);
                assert(s[i] == 'P');
                assert(s[i + 1] == 'O');
                assert(s[i + 2] == 'C');
                assert(s[i + 3] == 'S');
                assert(s[i + 4] == crate::event_text::base_text(base)[0]);
                lemma_run_end_exact(s, i, i, te);
                lemma_lit_differs(s, i, "IW"@, 0);
                lemma_lit_differs(s, i, "CS"@, 0);
                assert(crate::lex::base_of_char('C') is None);
                assert(crate::lex::lit_at(s, i, "PO"@)) by {
                    assert(s.subrange(i, i + 2) =~= "PO"@);
                }
                assert(crate::lex::lit_at(s, i, "POCS"@)) by {
                    assert(s.subrange(i, i + 4) =~= "POCS"@);
                }
                assert(crate::lex::lit_at(s, i + 5, bpt)) by {
                    assert forall|m: int| 0 <= m < bpt.len() implies s.subrange(
                        i + 5,
                        i + 5 + bpt.len(),
                    )[m] == bpt[m] by {
                        assert(s[i + 5 + m] == txt[5 + m]);
                        assert(txt[5 + m] == bpt[m]);
                    }
                    assert(s.subrange(i + 5, i + 5 + bpt.len()) =~= bpt);
                }
                lemma_ball_path_round_trip(s, i + 5, ball_path);
                assert(try_pickoff(s, i, te) is None);
                assert(try_pickoff_caught_stealing(s, i, te) == Some(e));
            } else {
                assert(txt =~= "PO"@ + crate::event_text::base_text(base) + bpt);
                assert(txt[0] == 'P');
                assert(txt[1] == 'O');
                assert(txt[2] == crate::event_text::base_text(base)[0]);
                assert(s[i] == 'P');
                assert(s[i + 1] == 'O');
                assert(s[i + 2] == crate::event_text::base_text(base)[0]);
                lemma_run_end_exact(s, i, i, te);
                lemma_lit_differs(s, i, "IW"@, 0);
                lemma_lit_differs(s, i, "CS"@, 0);
                assert(crate::lex::lit_at(s, i, "PO"@)) by {
                    assert(s.subrange(i, i + 2) =~= "PO"@);
                }
                assert(crate::lex::lit_at(s, i + 3, bpt)) by {
                    assert forall|m: int| 0 <= m < bpt.len() implies s.subrange(
                        i + 3,
                        i + 3 + bpt.len(),
                    )[m] == bpt[m] by {
                        assert(s[i + 3 + m] == txt[3 + m]);
                        assert(txt[3 + m] == bpt[m]);
                    }
                    assert(s.subrange(i + 3, i + 3 + bpt.len()) =~= bpt);
                }
                lemma_ball_path_round_trip(s, i + 3, ball_path);
                assert(try_pickoff(s, i, te) == Some(e));
            }
        },
        _ => {},
    }
}

/// For every well-formed base-running event of the allowed subset, parsing
/// its canonical text with the sub-event alternatives yields it back.
#[verifier::rlimit(100)]
#[verifier::spinoff_prover]
pub proof fn lemma_sub_event_round_trip(s: Seq<char>, i: int, e: EventTypeV)
    requires
        event_type_wf(e),
        crate::game::sub_event_allowed(e),
        0 <= i,
        crate::lex::lit_at(s, i, crate::event_text::event_type_text(e)),
    ensures
        spec_sub_event(s, i, i + crate::event_text::event_type_text(e).len() as int) == Some(e),
{
    reveal_strlit("SB");
    reveal_strlit("CS");
    reveal_strlit("OA");
    reveal_strlit("PO");
    reveal_strlit("PB");
    reveal_strlit("WP");
    reveal_strlit("E");
    let txt = crate::event_text::event_type_text(e);
    let te = i + txt.len() as int;
    assert forall|j: int| 0 <= j < txt.len() implies s[i + j] == txt[j] by {
        assert(s.subrange(i, i + txt.len())[j] == s[i + j]);
    }
    match e {
        EventTypeV::StolenBase { bases } => {
            lemma_stolen_base_round_trip(s, i, e);
        },
        EventTypeV::CaughtStealing { base, ball_path } => {
            lemma_base_running_round_trip(s, i, e);
            lemma_lit_char(s, i, txt, 0);
            assert(txt[0] == 'C');
            lemma_lit_differs(s, i, "SB"@, 0);
        },
        EventTypeV::OtherAdvance => {
            lemma_lit_char(s, i, txt, 0);
            assert(txt[0] == 'O');
            lemma_lit_differs(s, i, "SB"@, 0);
            lemma_lit_differs(s, i, "CS"@, 0);
        },
        EventTypeV::Pickoff { caught_stealing, base, ball_path } => {
            lemma_base_running_round_trip(s, i, e);
            lemma_lit_char(s, i, txt, 0);
            assert(txt[0] == 'P');
            lemma_lit_differs(s, i, "SB"@, 0);
            lemma_lit_differs(s, i, "CS"@, 0);
        },
        EventTypeV::PassedBall => {
            lemma_lit_char(s, i, txt, 0);
            lemma_lit_char(s, i, txt, 1);
            assert(txt[0] == 'P');
            assert(txt[1] == 'B');
            lemma_lit_differs(s, i, "SB"@, 0);
            lemma_lit_differs(s, i, "CS"@, 0);
            lemma_lit_differs(s, i, "OA"@, 0);
            lemma_lit_differs(s, i, "PO"@, 1);
        },
        EventTypeV::WildPitch => {
            lemma_lit_char(s, i, txt, 0);
            assert(txt[0] == 'W');
            lemma_lit_differs(s, i, "SB"@, 0);
            lemma_lit_differs(s, i, "CS"@, 0);
            lemma_lit_differs(s, i, "OA"@, 0);
            lemma_lit_differs(s, i, "PO"@, 0);
            lemma_lit_differs(s, i, "PB"@, 0);
        },
        EventTypeV::Error { credited_fielder, assisting_fielders } => {
            lemma_error_round_trip(s, i, e);
            let k = assisting_fielders.len() as int;
            let atext = crate::event_text::fielders_text(assisting_fielders);
            lemma_fielders_text_chars(assisting_fielders);
            if k > 0 {
                assert(txt[0] == atext[0]);
                assert(s[i] == txt[0]);
                assert(is_fielder_char(s[i]));
            } else {
                assert(txt[0] == 'E');
                assert(s[i] == 'E');
            }
            assert(!is_fielder_char('S')) by {
                assert(('S' as u32) == 83);
            }
            assert(!is_fielder_char('C')) by {
                assert(('C' as u32) == 67);
            }
            assert(!is_fielder_char('O')) by {
                assert(('O' as u32) == 79);
            }
            assert(!is_fielder_char('P')) by {
                assert(('P' as u32) == 80);
            }
            assert(!is_fielder_char('W')) by {
                assert(('W' as u32) == 87);
            }
            lemma_lit_differs(s, i, "SB"@, 0);
            lemma_lit_differs(s, i, "CS"@, 0);
            lemma_lit_differs(s, i, "OA"@, 0);
            lemma_lit_differs(s, i, "PO"@, 0);
            lemma_lit_differs(s, i, "PB"@, 0);
            lemma_lit_differs(s, i, "WP"@, 0);
        },
        _ => {},
    }
}

/// For a well-formed strikeout or walk, with any `+`-joined base-running
/// event it owns, parsing the canonical text as a whole outcome token
/// yields it back.
#[verifier::rlimit(100)]
#[verifier::spinoff_prover]
pub proof fn lemma_strikeout_walk_round_trip(s: Seq<char>, i: int, e: EventTypeV)
    requires
        event_type_wf(e),
        e is Strikeout || e is Walk,
        0 <= i,
        crate::lex::lit_at(s, i, crate::event_text::event_type_text(e)),
    ensures
        spec_event_type(s, i, i + crate::event_text::event_type_text(e).len() as int) == Some(e),
{
    reveal_strlit("K");
    reveal_strlit("W");
    reveal_strlit("IW");
    reveal_strlit("+");
    reveal_strlit("DGR");
    reveal_strlit("FC");
    reveal_strlit("FLE");
    reveal_strlit("HR");
    reveal_strlit("HP");
    reveal_strlit("NP");
    let txt = crate::event_text::event_type_text(e);
    let te = i + txt.len() as int;
    assert forall|j: int| 0 <= j < txt.len() implies s[i + j] == txt[j] by {
        assert(s.subrange(i, i + txt.len())[j] == s[i + j]);
    }
    assert(!is_fielder_char('K')) by {
        assert(('K' as u32) == 75);
    }
    assert(!is_fielder_char('I')) by {
        assert(('I' as u32) == 73);
    }
    assert(!is_fielder_char('W')) by {
        assert(('W' as u32) == 87);
    }
    assert(!is_fielder_char('+')) by {
        assert(('+' as u32) == 43);
    }
    match e {
        EventTypeV::Strikeout { ball_path, base_running_event } => {
            let m = ball_path.len() as int;
            assert(forall|k: int| 0 <= k < m ==> (#[trigger] ball_path[k]) is Success);
            assert(forall|k: int|
                0 <= k < m ==> fielder_wf(node_fielder(#[trigger] ball_path[k])));
            lemma_success_nodes_text(ball_path);
            let ntext = crate::event_text::ball_path_nodes_text(ball_path);
            assert(txt[0] == 'K');
            assert(s[i] == 'K');
            assert forall|j: int| 0 <= j < m implies s[i + 1 + j] == #[trigger] ntext[j] by {
                assert(txt[1 + j] == ntext[j]);
            }
            assert forall|p: int| i + 1 <= p < i + 1 + m implies is_fielder_char(
                #[trigger] s[p],
            ) by {
                assert(s[p] == ntext[p - i - 1]);
            }
            lemma_run_end_exact(s, i, i, te);
            lemma_lit_differs(s, i, "DGR"@, 0);
            lemma_lit_differs(s, i, "FC"@, 0);
            lemma_lit_differs(s, i, "FLE"@, 0);
            lemma_lit_differs(s, i, "HR"@, 0);
            lemma_lit_differs(s, i, "HP"@, 0);
            assert forall|j: int| 0 <= j < m implies #[trigger] success_nodes(
                s,
                i + 1,
                i + 1 + m,
            )[j] == ball_path[j] by {
                assert(s[i + 1 + j] == ntext[j]);
            }
            match base_running_event {
                None => {
                    assert(txt =~= "K"@ + ntext);
                    lemma_run_end_exact(s, i + 1, te, te);
                    assert(success_nodes(s, i + 1, i + 1 + m) =~= ball_path);
                    assert(try_strikeout(s, i, te) == Some(e));
                },
                Some(sub) => {
                    let stext = crate::event_text::event_type_text(*sub);
                    assert(txt =~= "K"@ + ntext + ("+"@ + stext));
                    assert(txt[1 + m] == '+');
                    assert(s[i + 1 + m] == '+');
                    lemma_run_end_exact(s, i + 1, i + 1 + m, te);
                    assert(success_nodes(s, i + 1, i + 1 + m) =~= ball_path);
                    assert(crate::lex::lit_at(s, i + 2 + m, stext)) by {
                        assert forall|p: int| 0 <= p < stext.len() implies s.subrange(
                            i + 2 + m,
                            i + 2 + m + stext.len(),
                        )[p] == stext[p] by {
                            assert(s[i + 2 + m + p] == txt[2 + m + p]);
                            assert(txt[2 + m + p] == stext[p]);
                        }
                        assert(s.subrange(i + 2 + m, i + 2 + m + stext.len()) =~= stext);
                    }
                    lemma_sub_event_round_trip(s, i + 2 + m, *sub);
                    assert(try_strikeout(s, i, te) == Some(e));
                },
            }
        },
        EventTypeV::Walk { intentional, base_running_event } => {
            let plen: int = if intentional {
                2
            } else {
                1
            };
            if intentional {
                assert(txt[0] == 'I');
                assert(txt[1] == 'W');
                assert(s[i] == 'I');
                assert(s[i + 1] == 'W');
                assert(crate::lex::lit_at(s, i, "IW"@)) by {
                    assert(s.subrange(i, i + 2) =~= "IW"@);
                }
            } else {
                assert(txt[0] == 'W');
                assert(s[i] == 'W');
                lemma_lit_differs(s, i, "IW"@, 0);
            }
            lemma_run_end_exact(s, i, i, te);
            lemma_lit_differs(s, i, "DGR"@, 0);
            lemma_lit_differs(s, i, "FC"@, 0);
            lemma_lit_differs(s, i, "FLE"@, 0);
            lemma_lit_differs(s, i, "HR"@, 0);
            lemma_lit_differs(s, i, "HP"@, 0);
            lemma_lit_differs(s, i, "NP"@, 0);
            match base_running_event {
                None => {
                    assert(try_walk(s, i, te) == Some(e));
                },
                Some(sub) => {
                    let stext = crate::event_text::event_type_text(*sub);
                    assert(txt[plen] == '+');
                    assert(s[i + plen] == '+');
                    assert(crate::lex::lit_at(s, i + plen + 1, stext)) by {
                        assert forall|p: int| 0 <= p < stext.len() implies s.subrange(
                            i + plen + 1,
                            i + plen + 1 + stext.len(),
                        )[p] == stext[p] by {
                            assert(s[i + plen + 1 + p] == txt[plen + 1 + p]);
                            assert(txt[plen + 1 + p] == stext[p]);
                        }
                        assert(s.subrange(i + plen + 1, i + plen + 1 + stext.len()) =~= stext);
                    }
                    lemma_sub_event_round_trip(s, i + plen + 1, *sub);
                    assert(try_walk(s, i, te) == Some(e));
                },
            }
        },
        _ => {},
    }
}

/// For every well-formed outcome, parsing its canonical text as a whole
/// outcome token yields the outcome back: the formatter inverts the
/// ordered-choice outcome grammar.
pub proof fn lemma_event_type_round_trip(s: Seq<char>, i: int, e: EventTypeV)
    requires
        event_type_wf(e),
        0 <= i,
        crate::lex::lit_at(s, i, crate::event_text::event_type_text(e)),
    ensures
        spec_event_type(s, i, i + crate::event_text::event_type_text(e).len() as int) == Some(e),
{
    match e {
        EventTypeV::Out { .. } => lemma_out_round_trip(s, i, e),
        EventTypeV::DoublePlay { .. } => lemma_out_round_trip(s, i, e),
        EventTypeV::TriplePlay { .. } => lemma_out_round_trip(s, i, e),
        EventTypeV::Single { .. } => lemma_hit_round_trip(s, i, e),
        EventTypeV::Double { .. } => lemma_hit_round_trip(s, i, e),
        EventTypeV::Triple { .. } => lemma_hit_round_trip(s, i, e),
        EventTypeV::Error { .. } => lemma_error_round_trip(s, i, e),
        EventTypeV::Strikeout { .. } => lemma_strikeout_walk_round_trip(s, i, e),
        EventTypeV::Walk { .. } => lemma_strikeout_walk_round_trip(s, i, e),
        EventTypeV::CaughtStealing { .. } => lemma_base_running_round_trip(s, i, e),
        EventTypeV::Pickoff { .. } => lemma_base_running_round_trip(s, i, e),
        EventTypeV::StolenBase { .. } => lemma_stolen_base_round_trip(s, i, e),
        _ => lemma_fixed_code_round_trip(s, i, e),
    }
}

/// How one character moves the parenthesis depth of the token scanner.
pub open spec fn depth_step(c: char, d: int) -> int {
    if c == '(' {
        d + 1
    } else if c == ')' && d > 0 {
        d - 1
    } else {
        d
    }
}

/// The parenthesis depth after walking all of `t` from depth `d`.
pub open spec fn walk_depth(t: Seq<char>, j: int, d: int) -> int
    decreases t.len() - j,
{
    if !(0 <= j < t.len()) {
        d
    } else {
        walk_depth(t, j + 1, depth_step(t[j], d))
    }
}

/// Walking `t` from depth `d` never meets a token break: a `/` or `.` at
/// depth zero.
pub open spec fn no_break(t: Seq<char>, j: int, d: int) -> bool
    decreases t.len() - j,
{
    if !(0 <= j < t.len()) {
        true
    } else if d == 0 && (t[j] == '/' || t[j] == '.') {
        false
    } else {
        no_break(t, j + 1, depth_step(t[j], d))
    }
}

/// The token scanner passes over an occurrence of a break-free segment.
proof fn lemma_token_skips(s: Seq<char>, i: int, t: Seq<char>, j: int, d: int)
    requires
        0 <= i,
        0 <= j <= t.len(),
        i + t.len() <= s.len(),
        forall|k: int| j <= k < t.len() ==> s[i + k] == #[trigger] t[k],
        no_break(t, j, d),
    ensures
        token_end(s, i + j, d) == token_end(s, i + t.len(), walk_depth(t, j, d)),
    decreases t.len() - j,
{
    if j < t.len() {
        assert(s[i + j] == t[j]);
        lemma_token_skips(s, i, t, j + 1, depth_step(t[j], d));
    }
}

/// Positions past `a` in `a + b` walk exactly as `b` does.
proof fn lemma_concat_shift(a: Seq<char>, b: Seq<char>, k: int, d: int)
    requires
        0 <= k <= b.len(),
    ensures
        no_break(a + b, a.len() + k, d) == no_break(b, k, d),
        walk_depth(a + b, a.len() + k, d) == walk_depth(b, k, d),
    decreases b.len() - k,
{
    if k < b.len() {
        assert((a + b)[a.len() + k] == b[k]);
        lemma_concat_shift(a, b, k + 1, depth_step(b[k], d));
    }
}

/// Break-freedom and the final depth compose over concatenation.
proof fn lemma_clean_concat(a: Seq<char>, b: Seq<char>, j: int, d: int)
    requires
        0 <= j <= a.len(),
        no_break(a, j, d),
        no_break(b, 0, walk_depth(a, j, d)),
    ensures
        no_break(a + b, j, d),
        walk_depth(a + b, j, d) == walk_depth(b, 0, walk_depth(a, j, d)),
    decreases a.len() - j,
{
    if j < a.len() {
        assert((a + b)[j] == a[j]);
        lemma_clean_concat(a, b, j + 1, depth_step(a[j], d));
    } else {
        lemma_concat_shift(a, b, 0, d);
    }
}

/// A segment of ordinary characters (no slash, dot or parenthesis) is
/// break-free and leaves the depth alone.
proof fn lemma_plain_clean(t: Seq<char>, j: int, d: int)
    requires
        0 <= j <= t.len(),
        forall|k: int|
            j <= k < t.len() ==> #[trigger] t[k] != '/' && t[k] != '.' && t[k] != '(' && t[k]
                != ')',
    ensures
        no_break(t, j, d),
        walk_depth(t, j, d) == d,
    decreases t.len() - j,
{
    if j < t.len() {
        lemma_plain_clean(t, j + 1, d);
    }
}

/// A fielder character is none of the scanner's special characters.
proof fn lemma_fielder_char_ordinary(c: char)
    requires
        is_fielder_char(c),
    ensures
        c != '/' && c != '.' && c != '(' && c != ')',
{
    assert(('/' as u32) == 47);
    assert(('.' as u32) == 46);
    assert(('(' as u32) == 40);
    assert((')' as u32) == 41);
    assert(('U' as u32) == 85);
}

/// A segment without parentheses keeps the depth, and meets no break when
/// the depth is positive.
proof fn lemma_no_paren_walk(t: Seq<char>, j: int, d: int)
    requires
        0 <= j <= t.len(),
        d >= 1,
        forall|k: int| j <= k < t.len() ==> #[trigger] t[k] != '(' && t[k] != ')',
    ensures
        no_break(t, j, d),
        walk_depth(t, j, d) == d,
    decreases t.len() - j,
{
    if j < t.len() {
        lemma_no_paren_walk(t, j + 1, d);
    }
}

/// The interior of a fielding sequence holds no parentheses.
proof fn lemma_nodes_text_no_paren(p: Seq<BallPathNode>)
    requires
        forall|k: int| 0 <= k < p.len() ==> crate::game::ball_path_node_wf(#[trigger] p[k]),
    ensures
        forall|k: int|
            0 <= k < crate::event_text::ball_path_nodes_text(p).len()
                ==> #[trigger] crate::event_text::ball_path_nodes_text(p)[k] != '('
                && crate::event_text::ball_path_nodes_text(p)[k] != ')',
    decreases p.len(),
{
    reveal_strlit("E");
    reveal_strlit("/TH");
    reveal_strlit("1");
    reveal_strlit("2");
    reveal_strlit("3");
    reveal_strlit("H");
    if p.len() > 0 {
        lemma_nodes_text_no_paren(p.drop_last());
        let pre = crate::event_text::ball_path_nodes_text(p.drop_last());
        let whole = crate::event_text::ball_path_nodes_text(p);
        let last = crate::event_text::ball_path_node_text(p.last());
        lemma_fielder_char_inverse(node_fielder(p.last()));
        lemma_fielder_char_ordinary(fielder_text(node_fielder(p.last()))[0]);
        match p.last() {
            BallPathNode::Error { fielder, error_type } => {
                match error_type {
                    FieldingErrorType::ThrowingError(Some(b)) => {
                        lemma_base_char_inverse(b);
                    },
                    _ => {},
                }
            },
            _ => {},
        }
        assert forall|k: int| 0 <= k < whole.len() implies #[trigger] whole[k] != '(' && whole[k]
            != ')' by {
            if k < pre.len() {
                assert(whole[k] == pre[k]);
            } else {
                assert(whole[k] == last[k - pre.len()]);
            }
        }
    }
}

/// A fielding sequence's text, parentheses included, meets no break and
/// returns to the depth where it started.
proof fn lemma_ball_path_text_clean(p: Seq<BallPathNode>, d: int)
    requires
        ball_path_wf(p),
        d >= 0,
    ensures
        no_break(crate::event_text::ball_path_text(p), 0, d),
        walk_depth(crate::event_text::ball_path_text(p), 0, d) == d,
{
    reveal_strlit("(");
    reveal_strlit(")");
    let nodes = crate::event_text::ball_path_nodes_text(p);
    let head = "("@ + nodes;
    lemma_nodes_text_no_paren(p);
    assert(no_break("("@, 0, d) && walk_depth("("@, 0, d) == d + 1) by {
        assert("("@.len() == 1);
        assert("("@[0] == '(');
        assert(('(' as u32) == 40 && ('/' as u32) == 47 && ('.' as u32) == 46);
        assert(depth_step('(', d) == d + 1);
        assert(no_break("("@, 1, d + 1));
        assert(walk_depth("("@, 1, d + 1) == d + 1);
    }
    lemma_no_paren_walk(nodes, 0, d + 1);
    lemma_clean_concat("("@, nodes, 0, d);
    assert(no_break(")"@, 0, d + 1) && walk_depth(")"@, 0, d + 1) == d) by {
        assert(")"@.len() == 1);
        assert(")"@[0] == ')');
        assert((')' as u32) == 41 && ('/' as u32) == 47 && ('.' as u32) == 46);
        assert(depth_step(')', d + 1) == d);
        assert(no_break(")"@, 1, d));
        assert(walk_depth(")"@, 1, d) == d);
    }
    lemma_clean_concat(head, ")"@, 0, d);
    assert(crate::event_text::ball_path_text(p) =~= head + ")"@);
}

/// A parenthesized runner annotation meets no break and returns to the
/// depth where it started.
proof fn lemma_runner_group_clean(r: Runner, d: int)
    requires
        d >= 0,
    ensures
        no_break("("@ + crate::event_text::runner_text(r) + ")"@, 0, d),
        walk_depth("("@ + crate::event_text::runner_text(r) + ")"@, 0, d) == d,
{
    reveal_strlit("(");
    reveal_strlit(")");
    lemma_runner_char_inverse(r);
    let rt = crate::event_text::runner_text(r);
    assert(rt[0] != '(' && rt[0] != ')') by {
        reveal_strlit("B");
        reveal_strlit("1");
        reveal_strlit("2");
        reveal_strlit("3");
        assert(('(' as u32) == 40);
        assert((')' as u32) == 41);
        assert(('B' as u32) == 66);
    }
    assert(no_break("("@, 0, d) && walk_depth("("@, 0, d) == d + 1) by {
        assert("("@.len() == 1);
        assert("("@[0] == '(');
        assert(('(' as u32) == 40 && ('/' as u32) == 47 && ('.' as u32) == 46);
        assert(depth_step('(', d) == d + 1);
        assert(no_break("("@, 1, d + 1));
        assert(walk_depth("("@, 1, d + 1) == d + 1);
    }
    lemma_no_paren_walk(rt, 0, d + 1);
    lemma_clean_concat("("@, rt, 0, d);
    assert(no_break(")"@, 0, d + 1) && walk_depth(")"@, 0, d + 1) == d) by {
        assert(")"@.len() == 1);
        assert(")"@[0] == ')');
        assert((')' as u32) == 41 && ('/' as u32) == 47 && ('.' as u32) == 46);
        assert(depth_step(')', d + 1) == d);
        assert(no_break(")"@, 1, d));
        assert(walk_depth(")"@, 1, d) == d);
    }
    lemma_clean_concat("("@ + rt, ")"@, 0, d);
}

/// A well-formed fielder list's text is made of ordinary characters.
proof fn lemma_fielders_text_ordinary(fs: Seq<Fielder>)
    requires
        fielders_wf(fs),
    ensures
        forall|k: int|
            0 <= k < crate::event_text::fielders_text(fs).len()
                ==> #[trigger] crate::event_text::fielders_text(fs)[k] != '/'
                && crate::event_text::fielders_text(fs)[k] != '.'
                && crate::event_text::fielders_text(fs)[k] != '('
                && crate::event_text::fielders_text(fs)[k] != ')',
{
    lemma_fielders_text_chars(fs);
    assert forall|k: int|
        0 <= k < crate::event_text::fielders_text(fs).len()
            implies #[trigger] crate::event_text::fielders_text(fs)[k] != '/'
        && crate::event_text::fielders_text(fs)[k] != '.'
        && crate::event_text::fielders_text(fs)[k] != '('
        && crate::event_text::fielders_text(fs)[k] != ')' by {
        lemma_fielder_char_ordinary(crate::event_text::fielders_text(fs)[k]);
    }
}

/// Depth-keeping break-free segments stay so under concatenation.
proof fn lemma_clean_join(a: Seq<char>, b: Seq<char>)
    requires
        no_break(a, 0, 0),
        walk_depth(a, 0, 0) == 0,
        no_break(b, 0, 0),
        walk_depth(b, 0, 0) == 0,
    ensures
        no_break(a + b, 0, 0),
        walk_depth(a + b, 0, 0) == 0,
{
    lemma_clean_concat(a, b, 0, 0);
}

/// A well-formed fielder's one-character text is break-free.
proof fn lemma_fielder_text_clean(f: Fielder)
    requires
        fielder_wf(f),
    ensures
        no_break(fielder_text(f), 0, 0),
        walk_depth(fielder_text(f), 0, 0) == 0,
{
    lemma_fielder_char_inverse(f);
    assert forall|k: int|
        0 <= k < fielder_text(f).len() implies #[trigger] fielder_text(f)[k] != '/'
        && fielder_text(f)[k] != '.' && fielder_text(f)[k] != '(' && fielder_text(f)[k]
        != ')' by {
        lemma_fielder_char_ordinary(fielder_text(f)[k]);
    }
    lemma_plain_clean(fielder_text(f), 0, 0);
}

/// A well-formed fielder list's text is break-free.
proof fn lemma_fielders_text_clean(fs: Seq<Fielder>)
    requires
        fielders_wf(fs),
    ensures
        no_break(crate::event_text::fielders_text(fs), 0, 0),
        walk_depth(crate::event_text::fielders_text(fs), 0, 0) == 0,
{
    lemma_fielders_text_ordinary(fs);
    lemma_plain_clean(crate::event_text::fielders_text(fs), 0, 0);
}

/// A base's one-character text is break-free.
proof fn lemma_base_text_clean(b: Base)
    ensures
        no_break(crate::event_text::base_text(b), 0, 0),
        walk_depth(crate::event_text::base_text(b), 0, 0) == 0,
{
    reveal_strlit("1");
    reveal_strlit("2");
    reveal_strlit("3");
    reveal_strlit("H");
    lemma_plain_clean(crate::event_text::base_text(b), 0, 0);
}

/// The text of a success-only fielding chain is break-free.
proof fn lemma_success_text_clean(p: Seq<BallPathNode>)
    requires
        forall|k: int| 0 <= k < p.len() ==> (#[trigger] p[k]) is Success,
        forall|k: int| 0 <= k < p.len() ==> fielder_wf(node_fielder(#[trigger] p[k])),
    ensures
        no_break(crate::event_text::ball_path_nodes_text(p), 0, 0),
        walk_depth(crate::event_text::ball_path_nodes_text(p), 0, 0) == 0,
{
    lemma_success_nodes_text(p);
    let t = crate::event_text::ball_path_nodes_text(p);
    assert forall|k: int|
        0 <= k < t.len() implies #[trigger] t[k] != '/' && t[k] != '.' && t[k] != '(' && t[k]
        != ')' by {
        lemma_fielder_char_ordinary(t[k]);
    }
    lemma_plain_clean(t, 0, 0);
}

/// The text of the stolen-base repetitions is break-free.
proof fn lemma_sb_bases_text_clean(bs: Seq<Base>)
    ensures
        no_break(crate::event_text::sb_bases_text(bs), 0, 0),
        walk_depth(crate::event_text::sb_bases_text(bs), 0, 0) == 0,
    decreases bs.len(),
{
    reveal_strlit(";SB");
    if bs.len() > 0 {
        lemma_sb_bases_text_clean(bs.drop_last());
        lemma_base_text_clean(bs.last());
        let pre = crate::event_text::sb_bases_text(bs.drop_last());
        lemma_plain_clean(";SB"@, 0, 0);
        lemma_clean_join(pre, ";SB"@);
        lemma_base_char_inverse(bs.last());
        assert forall|k: int|
            0 <= k < crate::event_text::base_text(bs.last()).len()
                implies #[trigger] crate::event_text::base_text(bs.last())[k] != '/'
            && crate::event_text::base_text(bs.last())[k] != '.'
            && crate::event_text::base_text(bs.last())[k] != '('
            && crate::event_text::base_text(bs.last())[k] != ')' by {
            reveal_strlit("1");
            reveal_strlit("2");
            reveal_strlit("3");
            reveal_strlit("H");
        }
        lemma_clean_join(pre + ";SB"@, crate::event_text::base_text(bs.last()));
    }
}

/// The out, double-play and triple-play texts are break-free.
#[verifier::rlimit(100)]
#[verifier::spinoff_prover]
proof fn lemma_out_texts_clean(e: EventTypeV)
    requires
        event_type_wf(e),
        e is Out || e is DoublePlay || e is TriplePlay,
    ensures
        no_break(crate::event_text::event_type_text(e), 0, 0),
        walk_depth(crate::event_text::event_type_text(e), 0, 0) == 0,
{
    reveal_strlit("C");
    reveal_strlit("S");
    reveal_strlit("D");
    reveal_strlit("T");
    reveal_strlit("DGR");
    reveal_strlit("E");
    reveal_strlit("FC");
    reveal_strlit("FLE");
    reveal_strlit("HR");
    reveal_strlit("HP");
    reveal_strlit("K");
    reveal_strlit("NP");
    reveal_strlit("W");
    reveal_strlit("IW");
    reveal_strlit("BK");
    reveal_strlit("CS");
    reveal_strlit("DI");
    reveal_strlit("OA");
    reveal_strlit("PB");
    reveal_strlit("WP");
    reveal_strlit("PO");
    reveal_strlit("POCS");
    reveal_strlit("SB");
    reveal_strlit("+");
    let txt = crate::event_text::event_type_text(e);
    match e {
        EventTypeV::Out { credited_fielder, assisting_fielders, runner_out } => {
            let at = crate::event_text::fielders_text(assisting_fielders);
            let ft = fielder_text(credited_fielder);
            let g = "("@ + crate::event_text::runner_text(runner_out) + ")"@;
            lemma_fielders_text_clean(assisting_fielders);
            lemma_fielder_text_clean(credited_fielder);
            lemma_clean_join(at, ft);
            lemma_runner_group_clean(runner_out, 0);
            lemma_clean_join(at + ft, g);
            assert(txt =~= (at + ft) + g);
        },
        EventTypeV::DoublePlay { credited_fielders, assisting_fielders, runners_out } => {
            let at = crate::event_text::fielders_text(assisting_fielders);
            let f0 = fielder_text(credited_fielders[0]);
            let f1 = fielder_text(credited_fielders[1]);
            let g0 = "("@ + crate::event_text::runner_text(runners_out[0]) + ")"@;
            let g1 = "("@ + crate::event_text::runner_text(runners_out[1]) + ")"@;
            lemma_fielders_text_clean(assisting_fielders);
            lemma_fielder_text_clean(credited_fielders[0]);
            lemma_fielder_text_clean(credited_fielders[1]);
            lemma_runner_group_clean(runners_out[0], 0);
            lemma_runner_group_clean(runners_out[1], 0);
            lemma_clean_join(at, f0);
            lemma_clean_join(at + f0, g0);
            lemma_clean_join((at + f0) + g0, f1);
            lemma_clean_join(((at + f0) + g0) + f1, g1);
            assert(txt =~= (((at + f0) + g0) + f1) + g1);
        },
        EventTypeV::TriplePlay { credited_fielders, assisting_fielders, runners_out } => {
            let at = crate::event_text::fielders_text(assisting_fielders);
            let f0 = fielder_text(credited_fielders[0]);
            let f1 = fielder_text(credited_fielders[1]);
            let f2 = fielder_text(credited_fielders[2]);
            let g0 = "("@ + crate::event_text::runner_text(runners_out[0]) + ")"@;
            let g1 = "("@ + crate::event_text::runner_text(runners_out[1]) + ")"@;
            let g2 = "("@ + crate::event_text::runner_text(runners_out[2]) + ")"@;
            lemma_fielders_text_clean(assisting_fielders);
            lemma_fielder_text_clean(credited_fielders[0]);
            lemma_fielder_text_clean(credited_fielders[1]);
            lemma_fielder_text_clean(credited_fielders[2]);
            lemma_runner_group_clean(runners_out[0], 0);
            lemma_runner_group_clean(runners_out[1], 0);
            lemma_runner_group_clean(runners_out[2], 0);
            lemma_clean_join(at, f0);
            lemma_clean_join(at + f0, g0);
            lemma_clean_join((at + f0) + g0, f1);
            lemma_clean_join(((at + f0) + g0) + f1, g1);
            lemma_clean_join((((at + f0) + g0) + f1) + g1, f2);
            lemma_clean_join(((((at + f0) + g0) + f1) + g1) + f2, g2);
            assert(txt =~= (((((at + f0) + g0) + f1) + g1) + f2) + g2);
        },
        _ => {},
    }
}

/// The hit, error and fielder-credited texts are break-free.
#[verifier::rlimit(100)]
#[verifier::spinoff_prover]
proof fn lemma_hit_texts_clean(e: EventTypeV)
    requires
        event_type_wf(e),
        e is Single || e is Double || e is Triple || e is Error || e is FieldersChoice || e is ErrorOnFoulFlyBall || e is InsideTheParkHomeRun,
    ensures
        no_break(crate::event_text::event_type_text(e), 0, 0),
        walk_depth(crate::event_text::event_type_text(e), 0, 0) == 0,
{
    reveal_strlit("C");
    reveal_strlit("S");
    reveal_strlit("D");
    reveal_strlit("T");
    reveal_strlit("DGR");
    reveal_strlit("E");
    reveal_strlit("FC");
    reveal_strlit("FLE");
    reveal_strlit("HR");
    reveal_strlit("HP");
    reveal_strlit("K");
    reveal_strlit("NP");
    reveal_strlit("W");
    reveal_strlit("IW");
    reveal_strlit("BK");
    reveal_strlit("CS");
    reveal_strlit("DI");
    reveal_strlit("OA");
    reveal_strlit("PB");
    reveal_strlit("WP");
    reveal_strlit("PO");
    reveal_strlit("POCS");
    reveal_strlit("SB");
    reveal_strlit("+");
    let txt = crate::event_text::event_type_text(e);
    match e {
        EventTypeV::Single { credited_fielder, assisting_fielders } => {
            let at = crate::event_text::fielders_text(assisting_fielders);
            let ft = fielder_text(credited_fielder);
            lemma_plain_clean("S"@, 0, 0);
            lemma_fielders_text_clean(assisting_fielders);
            lemma_fielder_text_clean(credited_fielder);
            lemma_clean_join("S"@, at);
            lemma_clean_join("S"@ + at, ft);
            assert(txt =~= ("S"@ + at) + ft);
        },
        EventTypeV::Double { credited_fielder, assisting_fielders } => {
            let at = crate::event_text::fielders_text(assisting_fielders);
            let ft = fielder_text(credited_fielder);
            lemma_plain_clean("D"@, 0, 0);
            lemma_fielders_text_clean(assisting_fielders);
            lemma_fielder_text_clean(credited_fielder);
            lemma_clean_join("D"@, at);
            lemma_clean_join("D"@ + at, ft);
            assert(txt =~= ("D"@ + at) + ft);
        },
        EventTypeV::Triple { credited_fielder, assisting_fielders } => {
            let at = crate::event_text::fielders_text(assisting_fielders);
            let ft = fielder_text(credited_fielder);
            lemma_plain_clean("T"@, 0, 0);
            lemma_fielders_text_clean(assisting_fielders);
            lemma_fielder_text_clean(credited_fielder);
            lemma_clean_join("T"@, at);
            lemma_clean_join("T"@ + at, ft);
            assert(txt =~= ("T"@ + at) + ft);
        },
        EventTypeV::Error { credited_fielder, assisting_fielders } => {
            let at = crate::event_text::fielders_text(assisting_fielders);
            let ft = fielder_text(credited_fielder);
            lemma_fielders_text_clean(assisting_fielders);
            lemma_plain_clean("E"@, 0, 0);
            lemma_fielder_text_clean(credited_fielder);
            lemma_clean_join(at, "E"@);
            lemma_clean_join(at + "E"@, ft);
            assert(txt =~= (at + "E"@) + ft);
        },
        EventTypeV::FieldersChoice { credited_fielder } => {
            lemma_plain_clean("FC"@, 0, 0);
            lemma_fielder_text_clean(credited_fielder);
            lemma_clean_join("FC"@, fielder_text(credited_fielder));
            assert(txt =~= "FC"@ + fielder_text(credited_fielder));
        },
        EventTypeV::ErrorOnFoulFlyBall { credited_fielder } => {
            lemma_plain_clean("FLE"@, 0, 0);
            lemma_fielder_text_clean(credited_fielder);
            lemma_clean_join("FLE"@, fielder_text(credited_fielder));
            assert(txt =~= "FLE"@ + fielder_text(credited_fielder));
        },
        EventTypeV::InsideTheParkHomeRun { credited_fielder } => {
            lemma_plain_clean("HR"@, 0, 0);
            lemma_fielder_text_clean(credited_fielder);
            lemma_clean_join("HR"@, fielder_text(credited_fielder));
            assert(txt =~= "HR"@ + fielder_text(credited_fielder));
        },
        _ => {},
    }
}

/// The caught-stealing, pickoff and stolen-base texts are break-free.
#[verifier::rlimit(100)]
#[verifier::spinoff_prover]
proof fn lemma_running_texts_clean(e: EventTypeV)
    requires
        event_type_wf(e),
        e is CaughtStealing || e is Pickoff || e is StolenBase,
    ensures
        no_break(crate::event_text::event_type_text(e), 0, 0),
        walk_depth(crate::event_text::event_type_text(e), 0, 0) == 0,
{
    reveal_strlit("C");
    reveal_strlit("S");
    reveal_strlit("D");
    reveal_strlit("T");
    reveal_strlit("DGR");
    reveal_strlit("E");
    reveal_strlit("FC");
    reveal_strlit("FLE");
    reveal_strlit("HR");
    reveal_strlit("HP");
    reveal_strlit("K");
    reveal_strlit("NP");
    reveal_strlit("W");
    reveal_strlit("IW");
    reveal_strlit("BK");
    reveal_strlit("CS");
    reveal_strlit("DI");
    reveal_strlit("OA");
    reveal_strlit("PB");
    reveal_strlit("WP");
    reveal_strlit("PO");
    reveal_strlit("POCS");
    reveal_strlit("SB");
    reveal_strlit("+");
    let txt = crate::event_text::event_type_text(e);
    match e {
        EventTypeV::CaughtStealing { base, ball_path } => {
            let bt = crate::event_text::base_text(base);
            let pt = crate::event_text::ball_path_text(ball_path);
            lemma_plain_clean("CS"@, 0, 0);
            lemma_base_text_clean(base);
            lemma_clean_join("CS"@, bt);
            lemma_ball_path_text_clean(ball_path, 0);
            lemma_clean_join("CS"@ + bt, pt);
            assert(txt =~= ("CS"@ + bt) + pt);
        },
        EventTypeV::Pickoff { caught_stealing, base, ball_path } => {
            let w: Seq<char> = if caught_stealing {
                "POCS"@
            } else {
                "PO"@
            };
            let bt = crate::event_text::base_text(base);
            let pt = crate::event_text::ball_path_text(ball_path);
            lemma_plain_clean(w, 0, 0);
            lemma_base_text_clean(base);
            lemma_clean_join(w, bt);
            lemma_ball_path_text_clean(ball_path, 0);
            lemma_clean_join(w + bt, pt);
            assert(txt =~= (w + bt) + pt);
        },
        EventTypeV::StolenBase { bases } => {
            let bt = crate::event_text::base_text(bases[0]);
            let rt = crate::event_text::sb_bases_text(bases.drop_first());
            lemma_plain_clean("SB"@, 0, 0);
            lemma_base_text_clean(bases[0]);
            lemma_clean_join("SB"@, bt);
            lemma_sb_bases_text_clean(bases.drop_first());
            lemma_clean_join("SB"@ + bt, rt);
            assert(txt =~= ("SB"@ + bt) + rt);
        },
        _ => {},
    }
}

/// The fixed-code texts are break-free.
#[verifier::rlimit(100)]
#[verifier::spinoff_prover]
proof fn lemma_fixed_texts_clean(e: EventTypeV)
    requires
        event_type_wf(e),
        fixed_code_outcome(e) && !(e is FieldersChoice) && !(e is ErrorOnFoulFlyBall) && !(e is InsideTheParkHomeRun),
    ensures
        no_break(crate::event_text::event_type_text(e), 0, 0),
        walk_depth(crate::event_text::event_type_text(e), 0, 0) == 0,
{
    reveal_strlit("C");
    reveal_strlit("S");
    reveal_strlit("D");
    reveal_strlit("T");
    reveal_strlit("DGR");
    reveal_strlit("E");
    reveal_strlit("FC");
    reveal_strlit("FLE");
    reveal_strlit("HR");
    reveal_strlit("HP");
    reveal_strlit("K");
    reveal_strlit("NP");
    reveal_strlit("W");
    reveal_strlit("IW");
    reveal_strlit("BK");
    reveal_strlit("CS");
    reveal_strlit("DI");
    reveal_strlit("OA");
    reveal_strlit("PB");
    reveal_strlit("WP");
    reveal_strlit("PO");
    reveal_strlit("POCS");
    reveal_strlit("SB");
    reveal_strlit("+");
    let txt = crate::event_text::event_type_text(e);
    match e {
        EventTypeV::Interference => {
            lemma_plain_clean(txt, 0, 0);
        },
        EventTypeV::GroundRuleDouble => {
            lemma_plain_clean(txt, 0, 0);
        },
        EventTypeV::SoloHomeRun => {
            lemma_plain_clean(txt, 0, 0);
        },
        EventTypeV::HitByPitch => {
            lemma_plain_clean(txt, 0, 0);
        },
        EventTypeV::NoPlay => {
            lemma_plain_clean(txt, 0, 0);
        },
        EventTypeV::Balk => {
            lemma_plain_clean(txt, 0, 0);
        },
        EventTypeV::DefensiveIndifference => {
            lemma_plain_clean(txt, 0, 0);
        },
        EventTypeV::OtherAdvance => {
            lemma_plain_clean(txt, 0, 0);
        },
        EventTypeV::PassedBall => {
            lemma_plain_clean(txt, 0, 0);
        },
        EventTypeV::WildPitch => {
            lemma_plain_clean(txt, 0, 0);
        },
        _ => {},
    }
}

/// The canonical text of every well-formed outcome is break-free: the
/// token scanner passes over all of it, a `/` occurring only inside a
/// fielding sequence's parentheses.
#[verifier::rlimit(100)]
#[verifier::spinoff_prover]
proof fn lemma_event_type_text_clean(e: EventTypeV)
    requires
        event_type_wf(e),
    ensures
        no_break(crate::event_text::event_type_text(e), 0, 0),
        walk_depth(crate::event_text::event_type_text(e), 0, 0) == 0,
    decreases e,
{
    reveal_strlit("K");
    reveal_strlit("W");
    reveal_strlit("IW");
    reveal_strlit("+");
    let txt = crate::event_text::event_type_text(e);
    match e {
        EventTypeV::Strikeout { ball_path, base_running_event } => {
            let nt = crate::event_text::ball_path_nodes_text(ball_path);
            lemma_plain_clean("K"@, 0, 0);
            lemma_success_text_clean(ball_path);
            lemma_clean_join("K"@, nt);
            match base_running_event {
                None => {
                    assert(txt =~= "K"@ + nt);
                },
                Some(sub) => {
                    let st = crate::event_text::event_type_text(*sub);
                    lemma_event_type_text_clean(*sub);
                    lemma_plain_clean("+"@, 0, 0);
                    lemma_clean_join("+"@, st);
                    lemma_clean_join("K"@ + nt, "+"@ + st);
                    assert(txt =~= ("K"@ + nt) + ("+"@ + st));
                },
            }
        },
        EventTypeV::Walk { intentional, base_running_event } => {
            let w: Seq<char> = if intentional {
                "IW"@
            } else {
                "W"@
            };
            lemma_plain_clean(w, 0, 0);
            match base_running_event {
                None => {
                    assert(txt =~= w);
                },
                Some(sub) => {
                    let st = crate::event_text::event_type_text(*sub);
                    lemma_event_type_text_clean(*sub);
                    lemma_plain_clean("+"@, 0, 0);
                    lemma_clean_join("+"@, st);
                    lemma_clean_join(w, "+"@ + st);
                    assert(txt =~= w + ("+"@ + st));
                },
            }
        },
        EventTypeV::Out { .. } => lemma_out_texts_clean(e),
        EventTypeV::DoublePlay { .. } => lemma_out_texts_clean(e),
        EventTypeV::TriplePlay { .. } => lemma_out_texts_clean(e),
        EventTypeV::Single { .. } => lemma_hit_texts_clean(e),
        EventTypeV::Double { .. } => lemma_hit_texts_clean(e),
        EventTypeV::Triple { .. } => lemma_hit_texts_clean(e),
        EventTypeV::Error { .. } => lemma_hit_texts_clean(e),
        EventTypeV::FieldersChoice { .. } => lemma_hit_texts_clean(e),
        EventTypeV::ErrorOnFoulFlyBall { .. } => lemma_hit_texts_clean(e),
        EventTypeV::InsideTheParkHomeRun { .. } => lemma_hit_texts_clean(e),
        EventTypeV::CaughtStealing { .. } => lemma_running_texts_clean(e),
        EventTypeV::Pickoff { .. } => lemma_running_texts_clean(e),
        EventTypeV::StolenBase { .. } => lemma_running_texts_clean(e),
        _ => lemma_fixed_texts_clean(e),
    }
}

/// For every well-formed event that carries no qualifiers and no advances,
/// parsing its canonical text yields the event back: the format-then-parse
/// identity on a whole event field.
pub proof fn lemma_plain_event_round_trip(e: EventV)
    requires
        event_wf(e),
        e.modifiers.len() == 0,
        e.advances.len() == 0,
    ensures
        spec_parse_event(crate::event_text::event_text(e)) == Some(e),
{
    let et = crate::event_text::event_type_text(e.event_type);
    let s = crate::event_text::event_text(e);
    assert(crate::event_text::modifiers_text(e.modifiers) =~= Seq::<char>::empty());
    assert(s =~= et);
    lemma_event_type_text_clean(e.event_type);
    assert forall|k: int| 0 <= k < et.len() implies s[0 + k] == #[trigger] et[k] by {}
    lemma_token_skips(s, 0, et, 0, 0);
    assert(token_end(s, 0, 0) == s.len());
    assert(crate::lex::lit_at(s, 0, et)) by {
        assert(s.subrange(0, et.len() as int) =~= et);
    }
    lemma_event_type_round_trip(s, 0, e.event_type);
    assert(spec_event_type(s, 0, s.len() as int) == Some(e.event_type));
    assert(spec_modifiers(s, s.len() as int) == (Seq::<EventModifier>::empty(), s.len() as int));
    assert(crate::event::spec_parse_event_at(s, 0) == Some(
        (
            EventV {
                event_type: e.event_type,
                modifiers: Seq::empty(),
                advances: Seq::empty(),
            },
            s.len() as int,
        ),
    ));
    assert(EventV {
        event_type: e.event_type,
        modifiers: Seq::empty(),
        advances: Seq::empty(),
    } == e) by {
        assert(e.modifiers =~= Seq::<EventModifier>::empty());
        assert(e.advances =~= Seq::<AdvanceV>::empty());
    }
}

/// A run of fielder characters reads as a well-formed fielder list.
proof fn lemma_fielders_of_wf(s: Seq<char>, a: int, b: int)
    requires
        forall|k: int| a <= k < b ==> is_fielder_char(#[trigger] s[k]),
    ensures
        fielders_wf(fielders_of(s, a, b)),
{
    assert forall|k: int| 0 <= k < fielders_of(s, a, b).len() implies fielder_wf(
        #[trigger] fielders_of(s, a, b)[k],
    ) by {
        assert(fielders_of(s, a, b)[k] == fielder_of_char(s[a + k]));
    }
}

/// A parsed ball path of clean touches consists of well-formed nodes.
proof fn lemma_success_nodes_wf(s: Seq<char>, a: int, b: int)
    requires
        forall|k: int| a <= k < b ==> is_fielder_char(#[trigger] s[k]),
    ensures
        ball_path_wf(success_nodes(s, a, b)),
        forall|k: int| 0 <= k < success_nodes(s, a, b).len() ==> (#[trigger] success_nodes(
            s,
            a,
            b,
        )[k]) is Success,
{
    assert forall|k: int| 0 <= k < success_nodes(s, a, b).len() implies (#[trigger] success_nodes(
        s,
        a,
        b,
    )[k]) is Success && crate::game::ball_path_node_wf(success_nodes(s, a, b)[k]) by {
        assert(success_nodes(s, a, b)[k] == (BallPathNode::Success {
            fielder: fielder_of_char(s[a + k]),
        }));
    }
}

/// The bases accepted by the stolen-base repetition are strictly increasing
/// from the base before them.
proof fn lemma_sb_rest_increasing(s: Seq<char>, j: int, te: int, prev: Base)
    requires
        sb_rest(s, j, te, prev) is Some,
    ensures
        bases_increasing(seq![prev] + sb_rest(s, j, te, prev).unwrap()),
    decreases te - j,
{
    let bs = sb_rest(s, j, te, prev).unwrap();
    if j >= te {
        assert(bases_increasing(seq![prev] + bs)) by {
            assert((seq![prev] + bs).len() == 1);
        }
    } else {
        let b = crate::lex::base_of_char(s[j + 3]).unwrap();
        let rest = sb_rest(s, j + 4, te, b).unwrap();
        lemma_sb_rest_increasing(s, j + 4, te, b);
        let whole = seq![prev] + bs;
        let inner = seq![b] + rest;
        assert forall|k: int, k2: int|
            0 <= k && k2 == k + 1 && k2 < whole.len() implies base_index(#[trigger] whole[k])
            < base_index(#[trigger] whole[k2]) by {
            if k == 0 {
                assert(whole[0] == prev);
                assert(whole[1] == b);
            } else {
                assert(whole[k] == inner[k - 1]);
                assert(whole[k2] == inner[k]);
                assert(base_index(inner[k - 1]) < base_index(inner[k]));
            }
        }
    }
}

/// Every outcome produced by the sub-event alternatives is allowed to
/// follow a strikeout or walk, and is well formed.
proof fn lemma_sub_event_wf(s: Seq<char>, i: int, te: int)
    requires
        0 <= i <= te <= s.len(),
        spec_sub_event(s, i, te) is Some,
    ensures
        crate::game::sub_event_allowed(spec_sub_event(s, i, te).unwrap()),
        event_type_wf(spec_sub_event(s, i, te).unwrap()),
{
    lemma_try_out_family_wf(s, i, te);
    lemma_try_error_wf(s, i, te);
    lemma_try_path_wf(s, i, te);
    lemma_try_sb_wf(s, i, te);
    if try_stolen_base(s, i, te) is Some {
    } else if try_caught_stealing(s, i, te) is Some {
    } else if crate::event_type::try_other_advance(s, i, te) is Some {
    } else if try_pickoff(s, i, te) is Some {
    } else if crate::event_type::try_passed_ball(s, i, te) is Some {
    } else if crate::event_type::try_wild_pitch(s, i, te) is Some {
    } else {
    }
}

/// The out, double-play and triple-play alternatives yield well-formed
/// values.
#[verifier::rlimit(100)]
#[verifier::spinoff_prover]
proof fn lemma_try_out_family_wf(s: Seq<char>, i: int, te: int)
    requires
        0 <= i <= te <= s.len(),
    ensures
        try_out(s, i, te) is Some ==> event_type_wf(try_out(s, i, te).unwrap()),
        try_double_play(s, i, te) is Some ==> event_type_wf(try_double_play(s, i, te).unwrap()),
        try_triple_play(s, i, te) is Some ==> event_type_wf(try_triple_play(s, i, te).unwrap()),
{
    lemma_run_end(s, i, te);
    let r = run_end(s, i, te);
    if r > i {
        lemma_fielders_of_wf(s, i, r - 1);
        lemma_fielders_of_wf(s, i, r);
        if try_double_play(s, i, te) is Some || try_triple_play(s, i, te) is Some {
            lemma_run_end(s, r + 3, te);
            let r2 = run_end(s, r + 3, te);
            lemma_fielders_of_wf(s, r + 3, r2 - 1);
            if try_triple_play(s, i, te) is Some {
                lemma_run_end(s, r2 + 3, te);
                let r3 = run_end(s, r2 + 3, te);
                lemma_fielders_of_wf(s, r2 + 3, r3 - 1);
            }
        }
    }
}

/// The error alternative yields a well-formed value.
#[verifier::rlimit(100)]
#[verifier::spinoff_prover]
proof fn lemma_try_error_wf(s: Seq<char>, i: int, te: int)
    requires
        0 <= i <= te <= s.len(),
    ensures
        try_error_event(s, i, te) is Some ==> event_type_wf(try_error_event(s, i, te).unwrap()),
{
    lemma_run_end(s, i, te);
    let r = run_end(s, i, te);
    if try_error_event(s, i, te) is Some {
        lemma_fielders_of_wf(s, i, r);
    }
}

/// The caught-stealing and pickoff alternatives yield well-formed values.
#[verifier::rlimit(100)]
#[verifier::spinoff_prover]
proof fn lemma_try_path_wf(s: Seq<char>, i: int, te: int)
    requires
        0 <= i <= te <= s.len(),
    ensures
        try_caught_stealing(s, i, te) is Some ==> event_type_wf(
            try_caught_stealing(s, i, te).unwrap(),
        ),
        try_pickoff(s, i, te) is Some ==> event_type_wf(try_pickoff(s, i, te).unwrap()),
        try_pickoff_caught_stealing(s, i, te) is Some ==> event_type_wf(
            try_pickoff_caught_stealing(s, i, te).unwrap(),
        ),
{
    if try_caught_stealing(s, i, te) is Some {
        lemma_ball_path_ok(s, i + 3);
    }
    if try_pickoff(s, i, te) is Some {
        lemma_ball_path_ok(s, i + 3);
    }
    if try_pickoff_caught_stealing(s, i, te) is Some {
        lemma_ball_path_ok(s, i + 5);
    }
}

/// The stolen-base alternative yields a well-formed value.
#[verifier::rlimit(100)]
#[verifier::spinoff_prover]
proof fn lemma_try_sb_wf(s: Seq<char>, i: int, te: int)
    requires
        0 <= i <= te <= s.len(),
    ensures
        try_stolen_base(s, i, te) is Some ==> event_type_wf(try_stolen_base(s, i, te).unwrap()),
{
    if try_stolen_base(s, i, te) is Some {
        assert(event_type_wf(try_stolen_base(s, i, te).unwrap())) by {
            let b0 = crate::lex::base_of_char(s[i + 2]).unwrap();
            lemma_sb_rest_increasing(s, i + 3, te, b0);
            let bs = seq![b0] + sb_rest(s, i + 3, te, b0).unwrap();
            assert(bs.len() >= 1);
            assert(bases_increasing(bs));
            assert(try_stolen_base(s, i, te).unwrap() == (EventTypeV::StolenBase { bases: bs }));
        }
    }
}

/// Every outcome the grammar accepts satisfies the data model's structural
/// invariants.
pub proof fn lemma_event_type_wf(s: Seq<char>, i: int, te: int)
    requires
        0 <= i <= te <= s.len(),
        spec_event_type(s, i, te) is Some,
    ensures
        event_type_wf(spec_event_type(s, i, te).unwrap()),
{
    lemma_try_out_family_wf(s, i, te);
    lemma_try_error_wf(s, i, te);
    lemma_try_path_wf(s, i, te);
    lemma_try_sb_wf(s, i, te);
    lemma_run_end(s, i, te);
    if try_out(s, i, te) is Some || try_double_play(s, i, te) is Some || try_triple_play(
        s,
        i,
        te,
    ) is Some {
    } else if crate::event_type::try_interference(s, i, te) is Some {
    } else if crate::event_type::try_single(s, i, te) is Some
        || crate::event_type::try_double(s, i, te) is Some || crate::event_type::try_triple(
        s,
        i,
        te,
    ) is Some {
        lemma_run_end(s, i + 1, te);
        let r = run_end(s, i + 1, te);
        if r > i + 1 {
            lemma_fielders_of_wf(s, i + 1, r - 1);
        }
    } else if crate::event_type::try_ground_rule_double(s, i, te) is Some {
    } else if try_error_event(s, i, te) is Some {
    } else if crate::event_type::try_fielders_choice(s, i, te) is Some {
    } else if crate::event_type::try_error_on_foul_fly_ball(s, i, te) is Some {
    } else if crate::event_type::try_solo_home_run(s, i, te) is Some {
    } else if crate::event_type::try_inside_the_park_home_run(s, i, te) is Some {
    } else if crate::event_type::try_hit_by_pitch(s, i, te) is Some {
    } else if try_strikeout(s, i, te) is Some {
        lemma_run_end(s, i + 1, te);
        let r = run_end(s, i + 1, te);
        lemma_success_nodes_wf(s, i + 1, r);
        if r != te {
            lemma_sub_event_wf(s, r + 1, te);
        }
    } else if crate::event_type::try_no_play(s, i, te) is Some {
    } else if try_walk(s, i, te) is Some {
        if i + 2 <= te && crate::lex::lit_at(s, i, "IW"@) {
            if i + 2 != te {
                lemma_sub_event_wf(s, i + 3, te);
            }
        } else if i < te && (s[i] == 'I' || s[i] == 'W') {
            if i + 1 != te {
                lemma_sub_event_wf(s, i + 2, te);
            }
        }
    } else if crate::event_type::try_balk(s, i, te) is Some {
    } else if try_caught_stealing(s, i, te) is Some {
    } else if crate::event_type::try_defensive_indifference(s, i, te) is Some {
    } else if crate::event_type::try_other_advance(s, i, te) is Some {
    } else if crate::event_type::try_passed_ball(s, i, te) is Some {
    } else if crate::event_type::try_wild_pitch(s, i, te) is Some {
    } else if try_pickoff(s, i, te) is Some {
    } else if try_pickoff_caught_stealing(s, i, te) is Some {
    } else {
    }
}

/// A modifier accepted by the catalogue is well formed.
proof fn lemma_one_modifier_wf(s: Seq<char>, i: int)
    requires
        spec_one_modifier(s, i) is Some,
    ensures
        modifier_wf(spec_one_modifier(s, i).unwrap().0),
{
}

/// Every modifier of the accepted modifier list is well formed.
proof fn lemma_modifiers_wf(s: Seq<char>, i: int)
    ensures
        forall|k: int| 0 <= k < spec_modifiers(s, i).0.len() ==> modifier_wf(
            #[trigger] spec_modifiers(s, i).0[k],
        ),
    decreases s.len() - i,
{
    if 0 <= i < s.len() && s[i] != '.' {
        let start: int = if s[i] == '/' {
            i + 1
        } else {
            i
        };
        match spec_one_modifier(s, start) {
            Some((m, j)) => {
                if i < j <= s.len() {
                    lemma_one_modifier_wf(s, start);
                    lemma_modifiers_wf(s, j);
                    let rest = spec_modifiers(s, j).0;
                    assert forall|k: int| 0 <= k < spec_modifiers(s, i).0.len() implies modifier_wf(
                        #[trigger] spec_modifiers(s, i).0[k],
                    ) by {
                        if k == 0 {
                            assert(spec_modifiers(s, i).0[0] == m);
                        } else {
                            assert(spec_modifiers(s, i).0[k] == rest[k - 1]);
                        }
                    }
                }
            },
            None => {},
        }
    }
}

/// The location named by a one-character zone code is one of the nine
/// single-digit positions.
proof fn lemma_single_char_location(s: Seq<char>)
    requires
        s.len() == 1,
        location_of_code(s) is Some,
    ensures
        location_is_single_digit(location_of_code(s).unwrap()),
{
    crate::locations::lemma_short_code_single_digit(s);
}

/// An accepted advance parameter is well formed.
proof fn lemma_adv_param_wf(s: Seq<char>, i: int)
    requires
        spec_adv_param(s, i) is Some,
    ensures
        advance_parameter_wf(spec_adv_param(s, i).unwrap().0),
{
    if 0 <= i < s.len() && s[i] == '(' {
        if i + 1 < s.len() && s[i + 1] == '(' {
            if spec_ball_path(s, i + 1) is Some {
                lemma_ball_path_ok(s, i + 1);
            }
        } else {
            let j = i + 1;
            if j < s.len() && crate::modifiers::is_digit19(s[j]) && location_of_code(
                s.subrange(j, j + 1),
            ) is Some {
                lemma_single_char_location(s.subrange(j, j + 1));
            }
        }
    }
}

/// Every parameter of an accepted parameter list is well formed.
proof fn lemma_adv_params_wf(s: Seq<char>, i: int)
    ensures
        forall|k: int| 0 <= k < spec_adv_params(s, i).0.len() ==> advance_parameter_wf(
            #[trigger] spec_adv_params(s, i).0[k],
        ),
    decreases s.len() - i,
{
    if 0 <= i <= s.len() {
        match spec_adv_param(s, i) {
            Some((p, j)) => {
                if i < j <= s.len() {
                    lemma_adv_param_wf(s, i);
                    lemma_adv_params_wf(s, j);
                    let rest = spec_adv_params(s, j).0;
                    assert forall|k: int| 0 <= k < spec_adv_params(s, i).0.len() implies (
                    advance_parameter_wf(#[trigger] spec_adv_params(s, i).0[k])) by {
                        if k == 0 {
                            assert(spec_adv_params(s, i).0[0] == p);
                        } else {
                            assert(spec_adv_params(s, i).0[k] == rest[k - 1]);
                        }
                    }
                }
            },
            None => {},
        }
    }
}

/// An accepted advance is well formed.
proof fn lemma_advance_wf(s: Seq<char>, i: int)
    requires
        spec_advance(s, i) is Some,
    ensures
        advance_wf(spec_advance(s, i).unwrap().0),
{
    lemma_adv_params_wf(s, i + 3);
}

/// Every advance of the accepted `;`-joined repetitions is well formed.
proof fn lemma_adv_list_wf(s: Seq<char>, j: int)
    ensures
        forall|k: int| 0 <= k < spec_adv_list(s, j).0.len() ==> advance_wf(
            #[trigger] spec_adv_list(s, j).0[k],
        ),
    decreases s.len() - j,
{
    if 0 <= j < s.len() && s[j] == ';' {
        match spec_advance(s, j + 1) {
            Some((a, k2)) => {
                if j < k2 <= s.len() {
                    lemma_advance_wf(s, j + 1);
                    lemma_adv_list_wf(s, k2);
                    let rest = spec_adv_list(s, k2).0;
                    assert forall|k: int| 0 <= k < spec_adv_list(s, j).0.len() implies advance_wf(
                        #[trigger] spec_adv_list(s, j).0[k],
                    ) by {
                        if k == 0 {
                            assert(spec_adv_list(s, j).0[0] == a);
                        } else {
                            assert(spec_adv_list(s, j).0[k] == rest[k - 1]);
                        }
                    }
                }
            },
            None => {},
        }
    }
}

/// Every advance of an accepted advance list is well formed.
proof fn lemma_advances_wf(s: Seq<char>, i: int)
    requires
        spec_advances(s, i) is Some,
    ensures
        forall|k: int| 0 <= k < spec_advances(s, i).unwrap().0.len() ==> advance_wf(
            #[trigger] spec_advances(s, i).unwrap().0[k],
        ),
{
    let (a, j) = spec_advance(s, i).unwrap();
    lemma_advance_wf(s, i);
    lemma_adv_list_wf(s, j);
    let rest = spec_adv_list(s, j).0;
    assert forall|k: int| 0 <= k < spec_advances(s, i).unwrap().0.len() implies advance_wf(
        #[trigger] spec_advances(s, i).unwrap().0[k],
    ) by {
        if k == 0 {
            assert(spec_advances(s, i).unwrap().0[0] == a);
        } else {
            assert(spec_advances(s, i).unwrap().0[k] == rest[k - 1]);
        }
    }
}

/// Every event the grammar accepts satisfies the structural invariants of
/// the data model: fielder numbers in range, double and triple plays with
/// exactly two and three outs, stolen-base lists non-empty and strictly
/// increasing, fielding sequences with at most one terminal error, and
/// nested base-running events drawn from the allowed subset.
pub proof fn lemma_parse_event_wf(s: Seq<char>)
    requires
        spec_parse_event(s) is Some,
    ensures
        event_wf(spec_parse_event(s).unwrap()),
{
    crate::event::lemma_token_end_bounds(s, 0, 0);
    let te = token_end(s, 0, 0);
    lemma_event_type_wf(s, 0, te);
    lemma_modifiers_wf(s, te);
    let (mods, j) = spec_modifiers(s, te);
    if j < s.len() && s[j] == '.' {
        lemma_advances_wf(s, j + 1);
    }
}

} // verus!
