//! The formatter: the canonical text of fielders, bases, ball paths,
//! outcomes, modifiers, advances and whole events.  Formatting is the
//! inverse direction of the grammar; parsing canonical text gives the value
//! back.

use vstd::prelude::*;
use crate::game::{
    Advance, AdvanceParameter, AdvanceParameterV, AdvanceV, BallPathNode, Base, Event,
    EventModifier, EventType, EventTypeV, EventV, Fielder, FieldingErrorType, Runner,
    advance_parameter_view, advance_parameters_view, advance_view, advances_view,
    event_type_view, event_view,
};
use crate::locations::{location_code, location_text};

verus! {

/// The canonical text of a fielder: its digit, or `U` when unknown.
pub open spec fn fielder_text(f: Fielder) -> Seq<char> {
    match f {
        Fielder::Unknown => "U"@,
        Fielder::Known(n) => {
            if n == 1 {
                "1"@
            } else if n == 2 {
                "2"@
            } else if n == 3 {
                "3"@
            } else if n == 4 {
                "4"@
            } else if n == 5 {
                "5"@
            } else if n == 6 {
                "6"@
            } else if n == 7 {
                "7"@
            } else if n == 8 {
                "8"@
            } else {
                "9"@
            }
        },
    }
}

/// The canonical text of a base; home is written `H`.
pub open spec fn base_text(b: Base) -> Seq<char> {
    match b {
        Base::First => "1"@,
        Base::Second => "2"@,
        Base::Third => "3"@,
        Base::Home => "H"@,
    }
}

pub open spec fn runner_text(r: Runner) -> Seq<char> {
    match r {
        Runner::Batter => "B"@,
        Runner::First => "1"@,
        Runner::Second => "2"@,
        Runner::Third => "3"@,
    }
}

pub open spec fn fielders_text(fs: Seq<Fielder>) -> Seq<char>
    decreases fs.len(),
{
    if fs.len() == 0 {
        Seq::empty()
    } else {
        fielders_text(fs.drop_last()) + fielder_text(fs.last())
    }
}

pub open spec fn ball_path_node_text(n: BallPathNode) -> Seq<char> {
    match n {
        BallPathNode::Success { fielder } => fielder_text(fielder),
        BallPathNode::Error { fielder, error_type } => "E"@ + fielder_text(fielder) + match error_type {
            FieldingErrorType::NonThrowingError => Seq::empty(),
            FieldingErrorType::ThrowingError(None) => "/TH"@,
            FieldingErrorType::ThrowingError(Some(b)) => "/TH"@ + base_text(b),
        },
    }
}

pub open spec fn ball_path_nodes_text(p: Seq<BallPathNode>) -> Seq<char>
    decreases p.len(),
{
    if p.len() == 0 {
        Seq::empty()
    } else {
        ball_path_nodes_text(p.drop_last()) + ball_path_node_text(p.last())
    }
}

/// The canonical text of a fielding sequence, parentheses included.
pub open spec fn ball_path_text(p: Seq<BallPathNode>) -> Seq<char> {
    "("@ + ball_path_nodes_text(p) + ")"@
}

pub open spec fn sb_bases_text(bs: Seq<Base>) -> Seq<char>
    decreases bs.len(),
{
    if bs.len() == 0 {
        Seq::empty()
    } else {
        sb_bases_text(bs.drop_last()) + ";SB"@ + base_text(bs.last())
    }
}

/// The canonical text of an outcome.  An out's runner is always written
/// explicitly; a home run is always spelled `HR`; an intentional walk is
/// spelled `IW`.
pub open spec fn event_type_text(e: EventTypeV) -> Seq<char>
    decreases e,
{
    match e {
        EventTypeV::Out { credited_fielder, assisting_fielders, runner_out } => fielders_text(
            assisting_fielders,
        ) + fielder_text(credited_fielder) + "("@ + runner_text(runner_out) + ")"@,
        EventTypeV::DoublePlay { credited_fielders, assisting_fielders, runners_out } => (
        fielders_text(assisting_fielders) + fielder_text(credited_fielders[0]) + "("@
            + runner_text(runners_out[0]) + ")"@ + fielder_text(credited_fielders[1]) + "("@
            + runner_text(runners_out[1]) + ")"@),
        EventTypeV::TriplePlay { credited_fielders, assisting_fielders, runners_out } => (
        fielders_text(assisting_fielders) + fielder_text(credited_fielders[0]) + "("@
            + runner_text(runners_out[0]) + ")"@ + fielder_text(credited_fielders[1]) + "("@
            + runner_text(runners_out[1]) + ")"@ + fielder_text(credited_fielders[2]) + "("@
            + runner_text(runners_out[2]) + ")"@),
        EventTypeV::Interference => "C"@,
        EventTypeV::Single { credited_fielder, assisting_fielders } => "S"@ + fielders_text(
            assisting_fielders,
        ) + fielder_text(credited_fielder),
        EventTypeV::Double { credited_fielder, assisting_fielders } => "D"@ + fielders_text(
            assisting_fielders,
        ) + fielder_text(credited_fielder),
        EventTypeV::GroundRuleDouble => "DGR"@,
        EventTypeV::Triple { credited_fielder, assisting_fielders } => "T"@ + fielders_text(
            assisting_fielders,
        ) + fielder_text(credited_fielder),
        EventTypeV::Error { credited_fielder, assisting_fielders } => fielders_text(
            assisting_fielders,
        ) + "E"@ + fielder_text(credited_fielder),
        EventTypeV::FieldersChoice { credited_fielder } => "FC"@ + fielder_text(credited_fielder),
        EventTypeV::ErrorOnFoulFlyBall { credited_fielder } => "FLE"@ + fielder_text(
            credited_fielder,
        ),
        EventTypeV::SoloHomeRun => "HR"@,
        EventTypeV::InsideTheParkHomeRun { credited_fielder } => "HR"@ + fielder_text(
            credited_fielder,
        ),
        EventTypeV::HitByPitch => "HP"@,
        EventTypeV::Strikeout { ball_path, base_running_event } => "K"@ + ball_path_nodes_text(
            ball_path,
        ) + match base_running_event {
            Some(sub) => "+"@ + event_type_text(*sub),
            None => Seq::empty(),
        },
        EventTypeV::NoPlay => "NP"@,
        EventTypeV::Walk { intentional, base_running_event } => (if intentional {
            "IW"@
        } else {
            "W"@
        }) + match base_running_event {
            Some(sub) => "+"@ + event_type_text(*sub),
            None => Seq::empty(),
        },
        EventTypeV::Balk => "BK"@,
        EventTypeV::CaughtStealing { base, ball_path } => "CS"@ + base_text(base)
            + ball_path_text(ball_path),
        EventTypeV::DefensiveIndifference => "DI"@,
        EventTypeV::OtherAdvance => "OA"@,
        EventTypeV::PassedBall => "PB"@,
        EventTypeV::WildPitch => "WP"@,
        EventTypeV::Pickoff { caught_stealing, base, ball_path } => (if caught_stealing {
            "POCS"@
        } else {
            "PO"@
        }) + base_text(base) + ball_path_text(ball_path),
        EventTypeV::StolenBase { bases } => "SB"@ + base_text(bases[0]) + sb_bases_text(
            bases.drop_first(),
        ),
    }
}

/// The canonical code of one modifier.
pub open spec fn modifier_text(m: EventModifier) -> Seq<char> {
    match m {
        EventModifier::AppealPlay => "AP"@,
        EventModifier::PopUpBunt => "BP"@,
        EventModifier::GroundBallBunt => "BG"@,
        EventModifier::BuntGroundedIntoDoublePlay => "BGDP"@,
        EventModifier::BatterInterference => "BINT"@,
        EventModifier::LineDriveBunt => "BL"@,
        EventModifier::BattingOutOfTurn => "BOOT"@,
        EventModifier::BuntPoppedIntoDoublePlay => "BPDP"@,
        EventModifier::RunnerHitByBattedBall => "BR"@,
        EventModifier::CalledThirdStrike => "C"@,
        EventModifier::CourtesyBatter => "COUB"@,
        EventModifier::CourtesyFielder => "COUF"@,
        EventModifier::CourtesyRunner => "COUR"@,
        EventModifier::UnspecifiedDoublePlay => "DP"@,
        EventModifier::Error(f) => "E"@ + fielder_text(f),
        EventModifier::Fly => "F"@,
        EventModifier::FlyBallDoublePlay => "FDP"@,
        EventModifier::FanInterference => "FINT"@,
        EventModifier::Foul => "FL"@,
        EventModifier::ForceOut => "FO"@,
        EventModifier::GroundBall => "G"@,
        EventModifier::GroundBallDoublePlay => "GDP"@,
        EventModifier::GroundBallTriplePlay => "GTP"@,
        EventModifier::InfieldFlyRule => "IF"@,
        EventModifier::Interference => "INT"@,
        EventModifier::InsideTheParkHomeRun => "IPHR"@,
        EventModifier::LineDrive => "L"@,
        EventModifier::LinedIntoDoublePlay => "LDP"@,
        EventModifier::LinedIntoTriplePlay => "LTP"@,
        EventModifier::ManagerChallengeOfCallOnTheField => "MREV"@,
        EventModifier::NoDoublePlayCreditedForThisPlay => "NDP"@,
        EventModifier::FielderObstructingRunner => "OBS"@,
        EventModifier::PopFly => "P"@,
        EventModifier::RunnerPassedAnotherRunnerAndWasCalledOut => "PR"@,
        EventModifier::RelayThrowFromFielderWithNoOut(f) => "R"@ + fielder_text(f),
        EventModifier::RunnerInterference => "RINT"@,
        EventModifier::SacrificeFly => "SF"@,
        EventModifier::SacrificeHitOrBunt => "SH"@,
        EventModifier::Throw(None) => "TH"@,
        EventModifier::Throw(Some(b)) => "TH"@ + base_text(b),
        EventModifier::UnspecifiedTriplePlay => "TP"@,
        EventModifier::UmpireInterference => "UINT"@,
        EventModifier::UmpireReviewOfCallOnTheField => "UREV"@,
        EventModifier::HitLocation(l) => location_code(l),
    }
}

pub open spec fn modifiers_text(ms: Seq<EventModifier>) -> Seq<char>
    decreases ms.len(),
{
    if ms.len() == 0 {
        Seq::empty()
    } else {
        modifiers_text(ms.drop_last()) + "/"@ + modifier_text(ms.last())
    }
}

pub open spec fn advance_parameter_text(p: AdvanceParameterV) -> Seq<char> {
    "("@ + match p {
        AdvanceParameterV::BallPath(path) => ball_path_text(path),
        AdvanceParameterV::Unearned => "UR"@,
        AdvanceParameterV::TeamUnearned => "TUR"@,
        AdvanceParameterV::RBICredited => "RBI"@,
        AdvanceParameterV::RBINotCredited => "NR"@,
        AdvanceParameterV::Interference(l) => location_code(l) + "/INT"@,
        AdvanceParameterV::WildPitch => "WP"@,
        AdvanceParameterV::PassedBall => "PB"@,
    } + ")"@
}

pub open spec fn advance_parameters_text(ps: Seq<AdvanceParameterV>) -> Seq<char>
    decreases ps.len(),
{
    if ps.len() == 0 {
        Seq::empty()
    } else {
        advance_parameters_text(ps.drop_last()) + advance_parameter_text(ps.last())
    }
}

pub open spec fn advance_text(a: AdvanceV) -> Seq<char> {
    base_text(a.starting_base) + (if a.out {
        "X"@
    } else {
        "-"@
    }) + base_text(a.ending_base) + advance_parameters_text(a.parameters)
}

pub open spec fn advances_rest_text(advs: Seq<AdvanceV>) -> Seq<char>
    decreases advs.len(),
{
    if advs.len() == 0 {
        Seq::empty()
    } else {
        advances_rest_text(advs.drop_last()) + ";"@ + advance_text(advs.last())
    }
}

/// The canonical text of a whole event field.
pub open spec fn event_text(e: EventV) -> Seq<char> {
    event_type_text(e.event_type) + modifiers_text(e.modifiers) + if e.advances.len() == 0 {
        Seq::empty()
    } else {
        "."@ + advance_text(e.advances[0]) + advances_rest_text(e.advances.drop_first())
    }
}

/// Exec mirror of [`fielder_text`].
pub fn fielder_str(f: &Fielder) -> (r: &'static str)
    ensures
        r@ == fielder_text(*f),
{
    match f {
        Fielder::Unknown => "U",
        Fielder::Known(n) => {
            if *n == 1 {
                "1"
            } else if *n == 2 {
                "2"
            } else if *n == 3 {
                "3"
            } else if *n == 4 {
                "4"
            } else if *n == 5 {
                "5"
            } else if *n == 6 {
                "6"
            } else if *n == 7 {
                "7"
            } else if *n == 8 {
                "8"
            } else {
                "9"
            }
        },
    }
}

/// Exec mirror of [`base_text`].
pub fn base_str(b: &Base) -> (r: &'static str)
    ensures
        r@ == base_text(*b),
{
    match b {
        Base::First => "1",
        Base::Second => "2",
        Base::Third => "3",
        Base::Home => "H",
    }
}

/// Exec mirror of [`runner_text`].
pub fn runner_str(r: &Runner) -> (t: &'static str)
    ensures
        t@ == runner_text(*r),
{
    match r {
        Runner::Batter => "B",
        Runner::First => "1",
        Runner::Second => "2",
        Runner::Third => "3",
    }
}

fn push_fielders(out: &mut String, fs: &Vec<Fielder>)
    ensures
        final(out)@ == old(out)@ + fielders_text(fs@),
{
    let mut k: usize = 0;
    while k < fs.len()
        invariant
            0 <= k <= fs@.len(),
            out@ == old(out)@ + fielders_text(fs@.take(k as int)),
        decreases fs@.len() - k,
    {
        out.append(fielder_str(&fs[k]));
        k += 1;
        proof {
            assert(fs@.take(k as int).drop_last() =~= fs@.take(k - 1));
            assert(fs@.take(k as int).last() == fs@[k - 1]);
        }
    }
    proof {
        assert(fs@.take(fs@.len() as int) =~= fs@);
    }
}

fn push_ball_path_nodes(out: &mut String, p: &Vec<BallPathNode>)
    ensures
        final(out)@ == old(out)@ + ball_path_nodes_text(p@),
{
    let mut k: usize = 0;
    while k < p.len()
        invariant
            0 <= k <= p@.len(),
            out@ == old(out)@ + ball_path_nodes_text(p@.take(k as int)),
        decreases p@.len() - k,
    {
        match &p[k] {
            BallPathNode::Success { fielder } => {
                out.append(fielder_str(fielder));
            },
            BallPathNode::Error { fielder, error_type } => {
                out.append("E");
                out.append(fielder_str(fielder));
                match error_type {
                    FieldingErrorType::NonThrowingError => {},
                    FieldingErrorType::ThrowingError(None) => {
                        out.append("/TH");
                    },
                    FieldingErrorType::ThrowingError(Some(b)) => {
                        out.append("/TH");
                        out.append(base_str(b));
                    },
                }
            },
        }
        k += 1;
        proof {
            assert(p@.take(k as int).drop_last() =~= p@.take(k - 1));
            assert(p@.take(k as int).last() == p@[k - 1]);
        }
    }
    proof {
        assert(p@.take(p@.len() as int) =~= p@);
    }
}

fn push_ball_path(out: &mut String, p: &Vec<BallPathNode>)
    ensures
        final(out)@ == old(out)@ + ball_path_text(p@),
{
    out.append("(");
    push_ball_path_nodes(out, p);
    out.append(")");
}

/// Writes the canonical text of an outcome onto `out`.
#[verifier::rlimit(100)]
fn push_event_type(out: &mut String, e: &EventType)
    requires
        crate::game::event_type_wf(event_type_view(*e)),
    ensures
        final(out)@ == old(out)@ + event_type_text(event_type_view(*e)),
    decreases *e,
{
    match e {
        EventType::Out { credited_fielder, assisting_fielders, runner_out } => {
            push_fielders(out, assisting_fielders);
            out.append(fielder_str(credited_fielder));
            out.append("(");
            out.append(runner_str(runner_out));
            out.append(")");
        },
        EventType::DoublePlay { credited_fielders, assisting_fielders, runners_out } => {
            push_fielders(out, assisting_fielders);
            out.append(fielder_str(&credited_fielders[0]));
            out.append("(");
            out.append(runner_str(&runners_out[0]));
            out.append(")");
            out.append(fielder_str(&credited_fielders[1]));
            out.append("(");
            out.append(runner_str(&runners_out[1]));
            out.append(")");
        },
        EventType::TriplePlay { credited_fielders, assisting_fielders, runners_out } => {
            push_fielders(out, assisting_fielders);
            out.append(fielder_str(&credited_fielders[0]));
            out.append("(");
            out.append(runner_str(&runners_out[0]));
            out.append(")");
            out.append(fielder_str(&credited_fielders[1]));
            out.append("(");
            out.append(runner_str(&runners_out[1]));
            out.append(")");
            out.append(fielder_str(&credited_fielders[2]));
            out.append("(");
            out.append(runner_str(&runners_out[2]));
            out.append(")");
        },
        EventType::Interference => {
            out.append("C");
        },
        EventType::Single { credited_fielder, assisting_fielders } => {
            out.append("S");
            push_fielders(out, assisting_fielders);
            out.append(fielder_str(credited_fielder));
        },
        EventType::Double { credited_fielder, assisting_fielders } => {
            out.append("D");
            push_fielders(out, assisting_fielders);
            out.append(fielder_str(credited_fielder));
        },
        EventType::GroundRuleDouble => {
            out.append("DGR");
        },
        EventType::Triple { credited_fielder, assisting_fielders } => {
            out.append("T");
            push_fielders(out, assisting_fielders);
            out.append(fielder_str(credited_fielder));
        },
        EventType::Error { credited_fielder, assisting_fielders } => {
            push_fielders(out, assisting_fielders);
            out.append("E");
            out.append(fielder_str(credited_fielder));
        },
        EventType::FieldersChoice { credited_fielder } => {
            out.append("FC");
            out.append(fielder_str(credited_fielder));
        },
        EventType::ErrorOnFoulFlyBall { credited_fielder } => {
            out.append("FLE");
            out.append(fielder_str(credited_fielder));
        },
        EventType::SoloHomeRun => {
            out.append("HR");
        },
        EventType::InsideTheParkHomeRun { credited_fielder } => {
            out.append("HR");
            out.append(fielder_str(credited_fielder));
        },
        EventType::HitByPitch => {
            out.append("HP");
        },
        EventType::Strikeout { ball_path, base_running_event } => {
            out.append("K");
            push_ball_path_nodes(out, ball_path);
            match base_running_event {
                Some(sub) => {
                    out.append("+");
                    push_event_type(out, sub);
                },
                None => {},
            }
        },
        EventType::NoPlay => {
            out.append("NP");
        },
        EventType::Walk { intentional, base_running_event } => {
            if *intentional {
                out.append("IW");
            } else {
                out.append("W");
            }
            match base_running_event {
                Some(sub) => {
                    out.append("+");
                    push_event_type(out, sub);
                },
                None => {},
            }
        },
        EventType::Balk => {
            out.append("BK");
        },
        EventType::CaughtStealing { base, ball_path } => {
            out.append("CS");
            out.append(base_str(base));
            push_ball_path(out, ball_path);
        },
        EventType::DefensiveIndifference => {
            out.append("DI");
        },
        EventType::OtherAdvance => {
            out.append("OA");
        },
        EventType::PassedBall => {
            out.append("PB");
        },
        EventType::WildPitch => {
            out.append("WP");
        },
        EventType::Pickoff { caught_stealing, base, ball_path } => {
            if *caught_stealing {
                out.append("POCS");
            } else {
                out.append("PO");
            }
            out.append(base_str(base));
            push_ball_path(out, ball_path);
        },
        EventType::StolenBase { bases } => {
            out.append("SB");
            out.append(base_str(&bases[0]));
            let mut k: usize = 1;
            while k < bases.len()
                invariant
                    1 <= k <= bases@.len(),
                    out@ == old(out)@ + "SB"@ + base_text(bases@[0]) + sb_bases_text(
                        bases@.subrange(1, k as int),
                    ),
                decreases bases@.len() - k,
            {
                out.append(";SB");
                out.append(base_str(&bases[k]));
                k += 1;
                proof {
                    assert(bases@.subrange(1, k as int).drop_last() =~= bases@.subrange(
                        1,
                        k - 1,
                    ));
                    assert(bases@.subrange(1, k as int).last() == bases@[k - 1]);
                }
            }
            proof {
                assert(bases@.subrange(1, bases@.len() as int) =~= bases@.drop_first());
            }
        },
    }
}

/// Writes the canonical code of one modifier onto `out`.
fn push_modifier(out: &mut String, m: &EventModifier)
    ensures
        final(out)@ == old(out)@ + modifier_text(*m),
{
    match m {
        EventModifier::AppealPlay => out.append("AP"),
        EventModifier::PopUpBunt => out.append("BP"),
        EventModifier::GroundBallBunt => out.append("BG"),
        EventModifier::BuntGroundedIntoDoublePlay => out.append("BGDP"),
        EventModifier::BatterInterference => out.append("BINT"),
        EventModifier::LineDriveBunt => out.append("BL"),
        EventModifier::BattingOutOfTurn => out.append("BOOT"),
        EventModifier::BuntPoppedIntoDoublePlay => out.append("BPDP"),
        EventModifier::RunnerHitByBattedBall => out.append("BR"),
        EventModifier::CalledThirdStrike => out.append("C"),
        EventModifier::CourtesyBatter => out.append("COUB"),
        EventModifier::CourtesyFielder => out.append("COUF"),
        EventModifier::CourtesyRunner => out.append("COUR"),
        EventModifier::UnspecifiedDoublePlay => out.append("DP"),
        EventModifier::Error(f) => {
            out.append("E");
            out.append(fielder_str(f));
        },
        EventModifier::Fly => out.append("F"),
        EventModifier::FlyBallDoublePlay => out.append("FDP"),
        EventModifier::FanInterference => out.append("FINT"),
        EventModifier::Foul => out.append("FL"),
        EventModifier::ForceOut => out.append("FO"),
        EventModifier::GroundBall => out.append("G"),
        EventModifier::GroundBallDoublePlay => out.append("GDP"),
        EventModifier::GroundBallTriplePlay => out.append("GTP"),
        EventModifier::InfieldFlyRule => out.append("IF"),
        EventModifier::Interference => out.append("INT"),
        EventModifier::InsideTheParkHomeRun => out.append("IPHR"),
        EventModifier::LineDrive => out.append("L"),
        EventModifier::LinedIntoDoublePlay => out.append("LDP"),
        EventModifier::LinedIntoTriplePlay => out.append("LTP"),
        EventModifier::ManagerChallengeOfCallOnTheField => out.append("MREV"),
        EventModifier::NoDoublePlayCreditedForThisPlay => out.append("NDP"),
        EventModifier::FielderObstructingRunner => out.append("OBS"),
        EventModifier::PopFly => out.append("P"),
        EventModifier::RunnerPassedAnotherRunnerAndWasCalledOut => out.append("PR"),
        EventModifier::RelayThrowFromFielderWithNoOut(f) => {
            out.append("R");
            out.append(fielder_str(f));
        },
        EventModifier::RunnerInterference => out.append("RINT"),
        EventModifier::SacrificeFly => out.append("SF"),
        EventModifier::SacrificeHitOrBunt => out.append("SH"),
        EventModifier::Throw(None) => out.append("TH"),
        EventModifier::Throw(Some(b)) => {
            out.append("TH");
            out.append(base_str(b));
        },
        EventModifier::UnspecifiedTriplePlay => out.append("TP"),
        EventModifier::UmpireInterference => out.append("UINT"),
        EventModifier::UmpireReviewOfCallOnTheField => out.append("UREV"),
        EventModifier::HitLocation(l) => out.append(location_text(l)),
    }
}

fn push_advance(out: &mut String, a: &Advance)
    ensures
        final(out)@ == old(out)@ + advance_text(advance_view(*a)),
{
    out.append(base_str(&a.starting_base));
    if a.out {
        out.append("X");
    } else {
        out.append("-");
    }
    out.append(base_str(&a.ending_base));
    let mut k: usize = 0;
    while k < a.parameters.len()
        invariant
            0 <= k <= a.parameters@.len(),
            out@ == old(out)@ + base_text(a.starting_base) + (if a.out {
                "X"@
            } else {
                "-"@
            }) + base_text(a.ending_base) + advance_parameters_text(
                advance_parameters_view(a.parameters@.take(k as int)),
            ),
        decreases a.parameters@.len() - k,
    {
        let ghost out0 = out@;
        out.append("(");
        match &a.parameters[k] {
            AdvanceParameter::BallPath(path) => {
                push_ball_path(out, path);
            },
            AdvanceParameter::Unearned => out.append("UR"),
            AdvanceParameter::TeamUnearned => out.append("TUR"),
            AdvanceParameter::RBICredited => out.append("RBI"),
            AdvanceParameter::RBINotCredited => out.append("NR"),
            AdvanceParameter::Interference(l) => {
                out.append(location_text(l));
                out.append("/INT");
            },
            AdvanceParameter::WildPitch => out.append("WP"),
            AdvanceParameter::PassedBall => out.append("PB"),
        }
        out.append(")");
        k += 1;
        proof {
            let scur = advance_parameters_view(a.parameters@.take(k as int));
            let sprev = advance_parameters_view(a.parameters@.take(k - 1));
            assert(scur.drop_last() =~= sprev);
            assert(scur.last() == advance_parameter_view(a.parameters@[k - 1]));
            let apt = advance_parameter_text(advance_parameter_view(a.parameters@[k - 1]));
            assert(advance_parameters_text(scur) == advance_parameters_text(sprev) + apt);
            assert(out@ =~= out0 + apt);
            let pre = old(out)@ + base_text(a.starting_base) + (if a.out {
                "X"@
            } else {
                "-"@
            }) + base_text(a.ending_base);
            vstd::seq_lib::lemma_concat_associative(pre, advance_parameters_text(sprev), apt);
            assert(out@ == pre + advance_parameters_text(scur));
        }
    }
    proof {
        assert(a.parameters@.take(a.parameters@.len() as int) =~= a.parameters@);
    }
}

/// Formats a well-formed event back to its canonical text.
pub fn format_event(e: &Event) -> (r: String)
    requires
        crate::game::event_wf(event_view(*e)),
    ensures
        r@ == event_text(event_view(*e)),
{
    let mut out = String::new();
    push_event_type(&mut out, &e.event_type);
    let mut k: usize = 0;
    while k < e.modifiers.len()
        invariant
            0 <= k <= e.modifiers@.len(),
            out@ == event_type_text(event_type_view(e.event_type)) + modifiers_text(
                e.modifiers@.take(k as int),
            ),
        decreases e.modifiers@.len() - k,
    {
        out.append("/");
        push_modifier(&mut out, &e.modifiers[k]);
        k += 1;
        proof {
            assert(e.modifiers@.take(k as int).drop_last() =~= e.modifiers@.take(k - 1));
            assert(e.modifiers@.take(k as int).last() == e.modifiers@[k - 1]);
            assert(out@ =~= event_type_text(event_type_view(e.event_type)) + modifiers_text(
                e.modifiers@.take(k as int),
            ));
        }
    }
    proof {
        assert(e.modifiers@.take(e.modifiers@.len() as int) =~= e.modifiers@);
    }
    if e.advances.len() > 0 {
        out.append(".");
        push_advance(&mut out, &e.advances[0]);
        let mut k2: usize = 1;
        while k2 < e.advances.len()
            invariant
                1 <= k2 <= e.advances@.len(),
                out@ == event_type_text(event_type_view(e.event_type)) + modifiers_text(
                    e.modifiers@,
                ) + "."@ + advance_text(advance_view(e.advances@[0])) + advances_rest_text(
                    advances_view(e.advances@.subrange(1, k2 as int)),
                ),
            decreases e.advances@.len() - k2,
        {
            let ghost out0 = out@;
            out.append(";");
            push_advance(&mut out, &e.advances[k2]);
            k2 += 1;
            proof {
                let scur = advances_view(e.advances@.subrange(1, k2 as int));
                let sprev = advances_view(e.advances@.subrange(1, k2 - 1));
                assert(scur.drop_last() =~= sprev);
                assert(scur.last() == advance_view(e.advances@[k2 - 1]));
                let ts = advances_rest_text(sprev);
                let adv = advance_text(advance_view(e.advances@[k2 - 1]));
                assert(advances_rest_text(scur) == ts + ";"@ + adv);
                let pre = event_type_text(event_type_view(e.event_type)) + modifiers_text(
                    e.modifiers@,
                ) + "."@ + advance_text(advance_view(e.advances@[0]));
                assert(out@ =~= (out0 + ";"@) + adv);
                vstd::seq_lib::lemma_concat_associative(pre, ts, ";"@);
                vstd::seq_lib::lemma_concat_associative(pre, ts + ";"@, adv);
                assert(out@ == pre + advances_rest_text(scur));
            }
        }
        proof {
            assert(advances_view(e.advances@.subrange(1, e.advances@.len() as int))
                =~= event_view(*e).advances.drop_first());
            assert(event_view(*e).advances[0] == advance_view(e.advances@[0]));
        }
    } else {
        proof {
            assert(out@ =~= event_text(event_view(*e)));
        }
    }
    out
}

} // verus!
