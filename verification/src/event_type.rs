//! The outcome grammar: the mutually exclusive event kinds, disambiguated by
//! ordered choice.  Each alternative must match the entire outcome token,
//! the stretch of input that ends at the first `/` or `.` outside
//! parentheses; the first alternative that does so, in the fixed priority
//! order, is the outcome.

use vstd::prelude::*;
use crate::ball_path::{spec_ball_path, success_nodes};
use crate::game::{Base, EventTypeV, Fielder, Runner, base_index, spec_runner_from_fielder};
use crate::lex::{
    base_of_char, fielder_of_char, fielders_of, is_fielder_char, lit_at, run_end, runner_of_char,
};

verus! {

/// The runner named by a parenthesized annotation `(B)`, `(1)`, `(2)` or
/// `(3)` written at position `j`.
pub open spec fn paren_runner_at(s: Seq<char>, j: int) -> Option<Runner> {
    if 0 <= j && j + 2 < s.len() && s[j] == '(' && s[j + 2] == ')' {
        runner_of_char(s[j + 1])
    } else {
        None
    }
}

/// Ordered choice: the first alternative that matched.
pub open spec fn choice(a: Option<EventTypeV>, b: Option<EventTypeV>) -> Option<EventTypeV> {
    if a is Some {
        a
    } else {
        b
    }
}

/// `fielder* fielder ("(" runner ")")?`: an out credited to the last fielder
/// of the run, assisted by the others.  When the runner annotation is
/// omitted it is inferred through the fielder-to-runner mapping; a credited
/// fielder without a mapping has no implicit runner and the alternative
/// fails rather than guess.
pub open spec fn try_out(s: Seq<char>, i: int, te: int) -> Option<EventTypeV> {
    let r = run_end(s, i, te);
    if r == i {
        None
    } else {
        let credited = fielder_of_char(s[r - 1]);
        let assists = fielders_of(s, i, r - 1);
        if r == te {
            match spec_runner_from_fielder(credited) {
                Some(ro) => Some(EventTypeV::Out {
                    credited_fielder: credited,
                    assisting_fielders: assists,
                    runner_out: ro,
                }),
                None => None,
            }
        } else if r + 3 == te && paren_runner_at(s, r) is Some {
            Some(EventTypeV::Out {
                credited_fielder: credited,
                assisting_fielders: assists,
                runner_out: paren_runner_at(s, r).unwrap(),
            })
        } else {
            None
        }
    }
}

/// Two fielder groups, the first with a mandatory runner annotation.
pub open spec fn try_double_play(s: Seq<char>, i: int, te: int) -> Option<EventTypeV> {
    let r1 = run_end(s, i, te);
    if r1 == i || r1 + 3 > te || paren_runner_at(s, r1) is None {
        None
    } else {
        let runner1 = paren_runner_at(s, r1).unwrap();
        let r2 = run_end(s, r1 + 3, te);
        if r2 == r1 + 3 {
            None
        } else {
            let credited = seq![fielder_of_char(s[r1 - 1]), fielder_of_char(s[r2 - 1])];
            let assists = fielders_of(s, i, r1 - 1) + fielders_of(s, r1 + 3, r2 - 1);
            if r2 == te {
                match spec_runner_from_fielder(fielder_of_char(s[r2 - 1])) {
                    Some(ro2) => Some(EventTypeV::DoublePlay {
                        credited_fielders: credited,
                        assisting_fielders: assists,
                        runners_out: seq![runner1, ro2],
                    }),
                    None => None,
                }
            } else if r2 + 3 == te && paren_runner_at(s, r2) is Some {
                Some(EventTypeV::DoublePlay {
                    credited_fielders: credited,
                    assisting_fielders: assists,
                    runners_out: seq![runner1, paren_runner_at(s, r2).unwrap()],
                })
            } else {
                None
            }
        }
    }
}

/// Three fielder groups, the first two with mandatory runner annotations.
pub open spec fn try_triple_play(s: Seq<char>, i: int, te: int) -> Option<EventTypeV> {
    let r1 = run_end(s, i, te);
    if r1 == i || r1 + 3 > te || paren_runner_at(s, r1) is None {
        None
    } else {
        let runner1 = paren_runner_at(s, r1).unwrap();
        let r2 = run_end(s, r1 + 3, te);
        if r2 == r1 + 3 || r2 + 3 > te || paren_runner_at(s, r2) is None {
            None
        } else {
            let runner2 = paren_runner_at(s, r2).unwrap();
            let r3 = run_end(s, r2 + 3, te);
            if r3 == r2 + 3 {
                None
            } else {
                let credited = seq![
                    fielder_of_char(s[r1 - 1]),
                    fielder_of_char(s[r2 - 1]),
                    fielder_of_char(s[r3 - 1]),
                ];
                let assists = fielders_of(s, i, r1 - 1) + fielders_of(s, r1 + 3, r2 - 1)
                    + fielders_of(s, r2 + 3, r3 - 1);
                if r3 == te {
                    match spec_runner_from_fielder(fielder_of_char(s[r3 - 1])) {
                        Some(ro3) => Some(EventTypeV::TriplePlay {
                            credited_fielders: credited,
                            assisting_fielders: assists,
                            runners_out: seq![runner1, runner2, ro3],
                        }),
                        None => None,
                    }
                } else if r3 + 3 == te && paren_runner_at(s, r3) is Some {
                    Some(EventTypeV::TriplePlay {
                        credited_fielders: credited,
                        assisting_fielders: assists,
                        runners_out: seq![runner1, runner2, paren_runner_at(s, r3).unwrap()],
                    })
                } else {
                    None
                }
            }
        }
    }
}

pub open spec fn try_interference(s: Seq<char>, i: int, te: int) -> Option<EventTypeV> {
    if i < te && te == i + 1 && s[i] == 'C' {
        Some(EventTypeV::Interference)
    } else {
        None
    }
}

/// The shared shape of the three base-hit outcomes: the hit letter followed
/// by an optional fielder run whose last member is the credited fielder.
pub open spec fn hit_parts(s: Seq<char>, i: int, te: int) -> Option<(Fielder, Seq<Fielder>)> {
    let r = run_end(s, i + 1, te);
    if r != te {
        None
    } else if r == i + 1 {
        Some((Fielder::Unknown, Seq::empty()))
    } else {
        Some((fielder_of_char(s[r - 1]), fielders_of(s, i + 1, r - 1)))
    }
}

pub open spec fn try_single(s: Seq<char>, i: int, te: int) -> Option<EventTypeV> {
    if i < te && s[i] == 'S' {
        match hit_parts(s, i, te) {
            Some((credited, assists)) => Some(EventTypeV::Single {
                credited_fielder: credited,
                assisting_fielders: assists,
            }),
            None => None,
        }
    } else {
        None
    }
}

pub open spec fn try_double(s: Seq<char>, i: int, te: int) -> Option<EventTypeV> {
    if i < te && s[i] == 'D' {
        match hit_parts(s, i, te) {
            Some((credited, assists)) => Some(EventTypeV::Double {
                credited_fielder: credited,
                assisting_fielders: assists,
            }),
            None => None,
        }
    } else {
        None
    }
}

pub open spec fn try_triple(s: Seq<char>, i: int, te: int) -> Option<EventTypeV> {
    if i < te && s[i] == 'T' {
        match hit_parts(s, i, te) {
            Some((credited, assists)) => Some(EventTypeV::Triple {
                credited_fielder: credited,
                assisting_fielders: assists,
            }),
            None => None,
        }
    } else {
        None
    }
}

pub open spec fn try_ground_rule_double(s: Seq<char>, i: int, te: int) -> Option<EventTypeV> {
    if te == i + 3 && lit_at(s, i, "DGR"@) {
        Some(EventTypeV::GroundRuleDouble)
    } else {
        None
    }
}

/// `fielder* "E" fielder`: an error charged to the trailing fielder.
pub open spec fn try_error_event(s: Seq<char>, i: int, te: int) -> Option<EventTypeV> {
    let r = run_end(s, i, te);
    if r + 2 == te && s[r] == 'E' && is_fielder_char(s[r + 1]) {
        Some(EventTypeV::Error {
            credited_fielder: fielder_of_char(s[r + 1]),
            assisting_fielders: fielders_of(s, i, r),
        })
    } else {
        None
    }
}

pub open spec fn try_fielders_choice(s: Seq<char>, i: int, te: int) -> Option<EventTypeV> {
    if te == i + 3 && lit_at(s, i, "FC"@) && is_fielder_char(s[i + 2]) {
        Some(EventTypeV::FieldersChoice { credited_fielder: fielder_of_char(s[i + 2]) })
    } else {
        None
    }
}

pub open spec fn try_error_on_foul_fly_ball(s: Seq<char>, i: int, te: int) -> Option<EventTypeV> {
    if te == i + 4 && lit_at(s, i, "FLE"@) && is_fielder_char(s[i + 3]) {
        Some(EventTypeV::ErrorOnFoulFlyBall { credited_fielder: fielder_of_char(s[i + 3]) })
    } else {
        None
    }
}

pub open spec fn try_solo_home_run(s: Seq<char>, i: int, te: int) -> Option<EventTypeV> {
    if (te == i + 1 && i < s.len() && s[i] == 'H') || (te == i + 2 && lit_at(s, i, "HR"@)) {
        Some(EventTypeV::SoloHomeRun)
    } else {
        None
    }
}

/// `H` or `HR` followed by exactly one fielder: a home run that stayed in
/// play, credited to the fielder.
pub open spec fn try_inside_the_park_home_run(s: Seq<char>, i: int, te: int) -> Option<
    EventTypeV,
> {
    if te == i + 3 && lit_at(s, i, "HR"@) && is_fielder_char(s[i + 2]) {
        Some(EventTypeV::InsideTheParkHomeRun { credited_fielder: fielder_of_char(s[i + 2]) })
    } else if te == i + 2 && i < s.len() && s[i] == 'H' && i + 1 < s.len() && is_fielder_char(
        s[i + 1],
    ) {
        Some(EventTypeV::InsideTheParkHomeRun { credited_fielder: fielder_of_char(s[i + 1]) })
    } else {
        None
    }
}

pub open spec fn try_hit_by_pitch(s: Seq<char>, i: int, te: int) -> Option<EventTypeV> {
    if te == i + 2 && lit_at(s, i, "HP"@) {
        Some(EventTypeV::HitByPitch)
    } else {
        None
    }
}

pub open spec fn try_no_play(s: Seq<char>, i: int, te: int) -> Option<EventTypeV> {
    if te == i + 2 && lit_at(s, i, "NP"@) {
        Some(EventTypeV::NoPlay)
    } else {
        None
    }
}

pub open spec fn try_balk(s: Seq<char>, i: int, te: int) -> Option<EventTypeV> {
    if te == i + 2 && lit_at(s, i, "BK"@) {
        Some(EventTypeV::Balk)
    } else {
        None
    }
}

pub open spec fn try_defensive_indifference(s: Seq<char>, i: int, te: int) -> Option<EventTypeV> {
    if te == i + 2 && lit_at(s, i, "DI"@) {
        Some(EventTypeV::DefensiveIndifference)
    } else {
        None
    }
}

pub open spec fn try_other_advance(s: Seq<char>, i: int, te: int) -> Option<EventTypeV> {
    if te == i + 2 && lit_at(s, i, "OA"@) {
        Some(EventTypeV::OtherAdvance)
    } else {
        None
    }
}

pub open spec fn try_passed_ball(s: Seq<char>, i: int, te: int) -> Option<EventTypeV> {
    if te == i + 2 && lit_at(s, i, "PB"@) {
        Some(EventTypeV::PassedBall)
    } else {
        None
    }
}

pub open spec fn try_wild_pitch(s: Seq<char>, i: int, te: int) -> Option<EventTypeV> {
    if te == i + 2 && lit_at(s, i, "WP"@) {
        Some(EventTypeV::WildPitch)
    } else {
        None
    }
}

pub open spec fn try_caught_stealing(s: Seq<char>, i: int, te: int) -> Option<EventTypeV> {
    if lit_at(s, i, "CS"@) && i + 2 < te && base_of_char(s[i + 2]) is Some {
        match spec_ball_path(s, i + 3) {
            Some((path, end)) => {
                if end == te {
                    Some(EventTypeV::CaughtStealing {
                        base: base_of_char(s[i + 2]).unwrap(),
                        ball_path: path,
                    })
                } else {
                    None
                }
            },
            None => None,
        }
    } else {
        None
    }
}

pub open spec fn try_pickoff(s: Seq<char>, i: int, te: int) -> Option<EventTypeV> {
    if lit_at(s, i, "PO"@) && i + 2 < te && base_of_char(s[i + 2]) is Some {
        match spec_ball_path(s, i + 3) {
            Some((path, end)) => {
                if end == te {
                    Some(EventTypeV::Pickoff {
                        caught_stealing: false,
                        base: base_of_char(s[i + 2]).unwrap(),
                        ball_path: path,
                    })
                } else {
                    None
                }
            },
            None => None,
        }
    } else {
        None
    }
}

pub open spec fn try_pickoff_caught_stealing(s: Seq<char>, i: int, te: int) -> Option<EventTypeV> {
    if lit_at(s, i, "POCS"@) && i + 4 < te && base_of_char(s[i + 4]) is Some {
        match spec_ball_path(s, i + 5) {
            Some((path, end)) => {
                if end == te {
                    Some(EventTypeV::Pickoff {
                        caught_stealing: true,
                        base: base_of_char(s[i + 4]).unwrap(),
                        ball_path: path,
                    })
                } else {
                    None
                }
            },
            None => None,
        }
    } else {
        None
    }
}

/// The bases stolen by the `;SB`-joined repetitions that follow the first
/// entry; each must name a strictly higher base than the one before it.
pub open spec fn sb_rest(s: Seq<char>, j: int, te: int, prev: Base) -> Option<Seq<Base>>
    decreases te - j,
{
    if j >= te {
        if j == te {
            Some(Seq::empty())
        } else {
            None
        }
    } else if lit_at(s, j, ";SB"@) && j + 3 < te && base_of_char(s[j + 3]) is Some && base_index(
        base_of_char(s[j + 3]).unwrap(),
    ) > base_index(prev) {
        match sb_rest(s, j + 4, te, base_of_char(s[j + 3]).unwrap()) {
            Some(bs) => Some(seq![base_of_char(s[j + 3]).unwrap()] + bs),
            None => None,
        }
    } else {
        None
    }
}

/// `SB` base, possibly repeated as `;SB` base: the repetitions collapse into
/// one stolen-base outcome listing every base.
pub open spec fn try_stolen_base(s: Seq<char>, i: int, te: int) -> Option<EventTypeV> {
    if lit_at(s, i, "SB"@) && i + 2 < te && base_of_char(s[i + 2]) is Some {
        let b0 = base_of_char(s[i + 2]).unwrap();
        match sb_rest(s, i + 3, te, b0) {
            Some(bs) => Some(EventTypeV::StolenBase { bases: seq![b0] + bs }),
            None => None,
        }
    } else {
        None
    }
}

/// The base-running events that may follow a strikeout or walk after `+`.
pub open spec fn spec_sub_event(s: Seq<char>, i: int, te: int) -> Option<EventTypeV> {
    choice(
        try_stolen_base(s, i, te),
        choice(
            try_caught_stealing(s, i, te),
            choice(
                try_other_advance(s, i, te),
                choice(
                    try_pickoff(s, i, te),
                    choice(
                        try_passed_ball(s, i, te),
                        choice(try_wild_pitch(s, i, te), try_error_event(s, i, te)),
                    ),
                ),
            ),
        ),
    )
}

/// `K` followed by an optional fielder run (the strikeout's fielding
/// sequence) and an optional `+`-joined base-running event.
pub open spec fn try_strikeout(s: Seq<char>, i: int, te: int) -> Option<EventTypeV> {
    if i < te && s[i] == 'K' {
        let r = run_end(s, i + 1, te);
        let path = success_nodes(s, i + 1, r);
        if r == te {
            Some(EventTypeV::Strikeout { ball_path: path, base_running_event: None })
        } else if s[r] == '+' {
            match spec_sub_event(s, r + 1, te) {
                Some(sub) => Some(EventTypeV::Strikeout {
                    ball_path: path,
                    base_running_event: Some(Box::new(sub)),
                }),
                None => None,
            }
        } else {
            None
        }
    } else {
        None
    }
}

/// `IW`, `I` or `W` with an optional `+`-joined base-running event; the `I`
/// spellings mark the walk intentional.
pub open spec fn try_walk(s: Seq<char>, i: int, te: int) -> Option<EventTypeV> {
    let (intentional, j): (bool, int) = if i + 2 <= te && lit_at(s, i, "IW"@) {
        (true, i + 2)
    } else if i < te && s[i] == 'I' {
        (true, i + 1)
    } else if i < te && s[i] == 'W' {
        (false, i + 1)
    } else {
        (false, -1)
    };
    if j < 0 {
        None
    } else if j == te {
        Some(EventTypeV::Walk { intentional, base_running_event: None })
    } else if s[j] == '+' {
        match spec_sub_event(s, j + 1, te) {
            Some(sub) => Some(EventTypeV::Walk {
                intentional,
                base_running_event: Some(Box::new(sub)),
            }),
            None => None,
        }
    } else {
        None
    }
}

/// The outcome written on the token `s[i..te)`: the first alternative, in
/// priority order, that matches the whole token.
pub open spec fn spec_event_type(s: Seq<char>, i: int, te: int) -> Option<EventTypeV> {
    choice(
        try_out(s, i, te),
        choice(
            try_double_play(s, i, te),
            choice(
                try_triple_play(s, i, te),
                choice(
                    try_interference(s, i, te),
                    choice(
                        try_single(s, i, te),
                        choice(
                            try_double(s, i, te),
                            choice(
                                try_triple(s, i, te),
                                choice(
                                    try_ground_rule_double(s, i, te),
                                    choice(
                                        try_error_event(s, i, te),
                                        choice(
                                            try_fielders_choice(s, i, te),
                                            choice(
                                                try_error_on_foul_fly_ball(s, i, te),
                                                choice(
                                                    try_solo_home_run(s, i, te),
                                                    choice(
                                                        try_inside_the_park_home_run(s, i, te),
                                                        choice(
                                                            try_hit_by_pitch(s, i, te),
                                                            choice(
                                                                try_strikeout(s, i, te),
                                                                choice(
                                                                    try_no_play(s, i, te),
                                                                    choice(
                                                                        try_walk(s, i, te),
                                                                        choice(
                                                                            try_balk(s, i, te),
                                                                            choice(
                                                                                try_caught_stealing(s, i, te),
                                                                                choice(
                                                                                    try_defensive_indifference(s, i, te),
                                                                                    choice(
                                                                                        try_other_advance(s, i, te),
                                                                                        choice(
                                                                                            try_passed_ball(s, i, te),
                                                                                            choice(
                                                                                                try_wild_pitch(s, i, te),
                                                                                                choice(
                                                                                                    try_pickoff(s, i, te),
                                                                                                    choice(
                                                                                                        try_pickoff_caught_stealing(s, i, te),
                                                                                                        try_stolen_base(s, i, te),
                                                                                                    ),
                                                                                                ),
                                                                                            ),
                                                                                        ),
                                                                                    ),
                                                                                ),
                                                                            ),
                                                                        ),
                                                                    ),
                                                                ),
                                                            ),
                                                        ),
                                                    ),
                                                ),
                                            ),
                                        ),
                                    ),
                                ),
                            ),
                        ),
                    ),
                ),
            ),
        ),
    )
}

} // verus!
