//! The qualifier grammar: a repetition of modifiers, each optionally
//! preceded by `/`, read until a `.` or the end of the field.  A modifier is
//! a hit location (digits then orientation letters, looked up in the
//! catalogue) or the longest fixed code that matches.

use vstd::prelude::*;
use crate::game::EventModifier;
use crate::lex::{base_from_char, base_of_char, fielder_char, fielder_from_char, is_fielder_char, fielder_of_char, lit_at, match_lit};
use crate::locations::{location_lookup, location_of_code};

verus! {

/// The digits that may open a hit-location code.
pub open spec fn is_digit19(c: char) -> bool {
    ('1' as u32) <= (c as u32) <= ('9' as u32)
}

/// The orientation letters that may close a hit-location code.
pub open spec fn is_orient(c: char) -> bool {
    c == 'X' || c == 'D' || c == 'L' || c == 'F' || c == 'S' || c == 'M'
}

pub open spec fn digit_run_end(s: Seq<char>, i: int) -> int
    decreases s.len() - i,
{
    if 0 <= i < s.len() && is_digit19(s[i]) {
        digit_run_end(s, i + 1)
    } else {
        i
    }
}

pub open spec fn orient_run_end(s: Seq<char>, i: int) -> int
    decreases s.len() - i,
{
    if 0 <= i < s.len() && is_orient(s[i]) {
        orient_run_end(s, i + 1)
    } else {
        i
    }
}

pub proof fn lemma_digit_run_end(s: Seq<char>, i: int)
    requires
        0 <= i <= s.len(),
    ensures
        i <= digit_run_end(s, i) <= s.len(),
    decreases s.len() - i,
{
    if i < s.len() && is_digit19(s[i]) {
        lemma_digit_run_end(s, i + 1);
    }
}

pub proof fn lemma_orient_run_end(s: Seq<char>, i: int)
    requires
        0 <= i <= s.len(),
    ensures
        i <= orient_run_end(s, i) <= s.len(),
    decreases s.len() - i,
{
    if i < s.len() && is_orient(s[i]) {
        lemma_orient_run_end(s, i + 1);
    }
}

/// One modifier read at position `i`: the hit-location form when a digit
/// opens it, otherwise the longest fixed code of the catalogue.  On success
/// the position just past the modifier is returned with it.
pub open spec fn spec_one_modifier(s: Seq<char>, i: int) -> Option<(EventModifier, int)> {
    if !(0 <= i < s.len()) {
        None
    } else if is_digit19(s[i]) {
        let d = digit_run_end(s, i);
        let l = orient_run_end(s, d);
        match location_of_code(s.subrange(i, l)) {
            Some(loc) => Some((EventModifier::HitLocation(loc), l)),
            None => None,
        }
    } else if lit_at(s, i, "BGDP"@) {
        Some((EventModifier::BuntGroundedIntoDoublePlay, i + 4))
    } else if lit_at(s, i, "BINT"@) {
        Some((EventModifier::BatterInterference, i + 4))
    } else if lit_at(s, i, "BOOT"@) {
        Some((EventModifier::BattingOutOfTurn, i + 4))
    } else if lit_at(s, i, "BPDP"@) {
        Some((EventModifier::BuntPoppedIntoDoublePlay, i + 4))
    } else if lit_at(s, i, "COUB"@) {
        Some((EventModifier::CourtesyBatter, i + 4))
    } else if lit_at(s, i, "COUF"@) {
        Some((EventModifier::CourtesyFielder, i + 4))
    } else if lit_at(s, i, "COUR"@) {
        Some((EventModifier::CourtesyRunner, i + 4))
    } else if lit_at(s, i, "FINT"@) {
        Some((EventModifier::FanInterference, i + 4))
    } else if lit_at(s, i, "IPHR"@) {
        Some((EventModifier::InsideTheParkHomeRun, i + 4))
    } else if lit_at(s, i, "MREV"@) {
        Some((EventModifier::ManagerChallengeOfCallOnTheField, i + 4))
    } else if lit_at(s, i, "RINT"@) {
        Some((EventModifier::RunnerInterference, i + 4))
    } else if lit_at(s, i, "UINT"@) {
        Some((EventModifier::UmpireInterference, i + 4))
    } else if lit_at(s, i, "UREV"@) {
        Some((EventModifier::UmpireReviewOfCallOnTheField, i + 4))
    } else if lit_at(s, i, "FDP"@) {
        Some((EventModifier::FlyBallDoublePlay, i + 3))
    } else if lit_at(s, i, "GDP"@) {
        Some((EventModifier::GroundBallDoublePlay, i + 3))
    } else if lit_at(s, i, "GTP"@) {
        Some((EventModifier::GroundBallTriplePlay, i + 3))
    } else if lit_at(s, i, "INT"@) {
        Some((EventModifier::Interference, i + 3))
    } else if lit_at(s, i, "LDP"@) {
        Some((EventModifier::LinedIntoDoublePlay, i + 3))
    } else if lit_at(s, i, "LTP"@) {
        Some((EventModifier::LinedIntoTriplePlay, i + 3))
    } else if lit_at(s, i, "NDP"@) {
        Some((EventModifier::NoDoublePlayCreditedForThisPlay, i + 3))
    } else if lit_at(s, i, "OBS"@) {
        Some((EventModifier::FielderObstructingRunner, i + 3))
    } else if lit_at(s, i, "TH"@) {
        if i + 2 < s.len() && base_of_char(s[i + 2]) is Some {
            Some((EventModifier::Throw(base_of_char(s[i + 2])), i + 3))
        } else {
            Some((EventModifier::Throw(None), i + 2))
        }
    } else if lit_at(s, i, "AP"@) {
        Some((EventModifier::AppealPlay, i + 2))
    } else if lit_at(s, i, "BP"@) {
        Some((EventModifier::PopUpBunt, i + 2))
    } else if lit_at(s, i, "BG"@) {
        Some((EventModifier::GroundBallBunt, i + 2))
    } else if lit_at(s, i, "BL"@) {
        Some((EventModifier::LineDriveBunt, i + 2))
    } else if lit_at(s, i, "BR"@) {
        Some((EventModifier::RunnerHitByBattedBall, i + 2))
    } else if lit_at(s, i, "DP"@) {
        Some((EventModifier::UnspecifiedDoublePlay, i + 2))
    } else if lit_at(s, i, "FL"@) {
        Some((EventModifier::Foul, i + 2))
    } else if lit_at(s, i, "FO"@) {
        Some((EventModifier::ForceOut, i + 2))
    } else if lit_at(s, i, "IF"@) {
        Some((EventModifier::InfieldFlyRule, i + 2))
    } else if lit_at(s, i, "PR"@) {
        Some((EventModifier::RunnerPassedAnotherRunnerAndWasCalledOut, i + 2))
    } else if lit_at(s, i, "SF"@) {
        Some((EventModifier::SacrificeFly, i + 2))
    } else if lit_at(s, i, "SH"@) {
        Some((EventModifier::SacrificeHitOrBunt, i + 2))
    } else if lit_at(s, i, "TP"@) {
        Some((EventModifier::UnspecifiedTriplePlay, i + 2))
    } else if s[i] == 'E' && i + 1 < s.len() && is_fielder_char(s[i + 1]) {
        Some((EventModifier::Error(fielder_of_char(s[i + 1])), i + 2))
    } else if s[i] == 'R' && i + 1 < s.len() && is_fielder_char(s[i + 1]) {
        Some((EventModifier::RelayThrowFromFielderWithNoOut(fielder_of_char(s[i + 1])), i + 2))
    } else if s[i] == 'C' {
        Some((EventModifier::CalledThirdStrike, i + 1))
    } else if s[i] == 'F' {
        Some((EventModifier::Fly, i + 1))
    } else if s[i] == 'G' {
        Some((EventModifier::GroundBall, i + 1))
    } else if s[i] == 'L' {
        Some((EventModifier::LineDrive, i + 1))
    } else if s[i] == 'P' {
        Some((EventModifier::PopFly, i + 1))
    } else {
        None
    }
}

/// A successful modifier ends past where it began and inside the input.
pub proof fn lemma_one_modifier_advances(s: Seq<char>, i: int)
    requires
        spec_one_modifier(s, i) is Some,
    ensures
        i < spec_one_modifier(s, i).unwrap().1 <= s.len(),
{
    reveal_strlit("BGDP");
    reveal_strlit("BINT");
    reveal_strlit("BOOT");
    reveal_strlit("BPDP");
    reveal_strlit("COUB");
    reveal_strlit("COUF");
    reveal_strlit("COUR");
    reveal_strlit("FINT");
    reveal_strlit("IPHR");
    reveal_strlit("MREV");
    reveal_strlit("RINT");
    reveal_strlit("UINT");
    reveal_strlit("UREV");
    reveal_strlit("FDP");
    reveal_strlit("GDP");
    reveal_strlit("GTP");
    reveal_strlit("INT");
    reveal_strlit("LDP");
    reveal_strlit("LTP");
    reveal_strlit("NDP");
    reveal_strlit("OBS");
    reveal_strlit("TH");
    reveal_strlit("AP");
    reveal_strlit("BP");
    reveal_strlit("BG");
    reveal_strlit("BL");
    reveal_strlit("BR");
    reveal_strlit("DP");
    reveal_strlit("FL");
    reveal_strlit("FO");
    reveal_strlit("IF");
    reveal_strlit("PR");
    reveal_strlit("SF");
    reveal_strlit("SH");
    reveal_strlit("TP");
    if 0 <= i < s.len() && is_digit19(s[i]) {
        lemma_digit_run_end(s, i + 1);
        lemma_orient_run_end(s, digit_run_end(s, i));
    }
}

/// The modifier list that follows the outcome: repetitions of an optional
/// `/` followed by one modifier, read greedily; the list ends at `.`, at the
/// end of the input, or where no modifier can be read.
pub open spec fn spec_modifiers(s: Seq<char>, i: int) -> (Seq<EventModifier>, int)
    decreases s.len() - i,
{
    if !(0 <= i < s.len()) || s[i] == '.' {
        (Seq::empty(), i)
    } else {
        let start: int = if s[i] == '/' { i + 1 } else { i };
        match spec_one_modifier(s, start) {
            Some((m, j)) => {
                if i < j <= s.len() {
                    let (rest, end) = spec_modifiers(s, j);
                    (seq![m] + rest, end)
                } else {
                    (Seq::empty(), i)
                }
            },
            None => (Seq::empty(), i),
        }
    }
}

pub proof fn lemma_modifiers_bounds(s: Seq<char>, i: int)
    requires
        0 <= i <= s.len(),
    ensures
        i <= spec_modifiers(s, i).1 <= s.len(),
    decreases s.len() - i,
{
    if i < s.len() && s[i] != '.' {
        let start: int = if s[i] == '/' { i + 1 } else { i };
        match spec_one_modifier(s, start) {
            Some((m, j)) => {
                if i < j <= s.len() {
                    lemma_modifiers_bounds(s, j);
                }
            },
            None => {},
        }
    }
}

/// Exec mirror of [`digit_run_end`].
fn find_digit_run_end(s: &str, i: usize) -> (j: usize)
    requires
        i <= s@.len(),
    ensures
        j == digit_run_end(s@, i as int),
        i <= j <= s@.len(),
{
    proof {
        lemma_digit_run_end(s@, i as int);
    }
    let n = s.unicode_len();
    let mut j = i;
    loop
        invariant
            i <= j <= n == s@.len(),
            digit_run_end(s@, i as int) == digit_run_end(s@, j as int),
        decreases n - j,
    {
        if j >= n {
            return j;
        }
        let c = s.get_char(j);
        let u = c as u32;
        if !(('1' as u32) <= u && u <= ('9' as u32)) {
            return j;
        }
        j += 1;
    }
}

/// Exec mirror of [`orient_run_end`].
fn find_orient_run_end(s: &str, i: usize) -> (j: usize)
    requires
        i <= s@.len(),
    ensures
        j == orient_run_end(s@, i as int),
        i <= j <= s@.len(),
{
    proof {
        lemma_orient_run_end(s@, i as int);
    }
    let n = s.unicode_len();
    let mut j = i;
    loop
        invariant
            i <= j <= n == s@.len(),
            orient_run_end(s@, i as int) == orient_run_end(s@, j as int),
        decreases n - j,
    {
        if j >= n {
            return j;
        }
        let c = s.get_char(j);
        if !(c == 'X' || c == 'D' || c == 'L' || c == 'F' || c == 'S' || c == 'M') {
            return j;
        }
        j += 1;
    }
}

/// Exec mirror of [`spec_one_modifier`].
#[verifier::rlimit(80)]
pub fn parse_one_modifier(s: &str, i: usize) -> (r: Option<(EventModifier, usize)>)
    requires
        i <= s@.len(),
    ensures
        match r {
            Some((m, j)) => spec_one_modifier(s@, i as int) == Some((m, j as int)),
            None => spec_one_modifier(s@, i as int) is None,
        },
{
    let n = s.unicode_len();
    if i >= n {
        return None;
    }
    let c0 = s.get_char(i);
    let u0 = c0 as u32;
    if ('1' as u32) <= u0 && u0 <= ('9' as u32) {
        let d = find_digit_run_end(s, i);
        let l = find_orient_run_end(s, d);
        return match location_lookup(s, i, l) {
            Some(loc) => Some((EventModifier::HitLocation(loc), l)),
            None => None,
        };
    }
    if match_lit(s, i, "BGDP") {
        proof { reveal_strlit("BGDP"); }
        return Some((EventModifier::BuntGroundedIntoDoublePlay, i + 4));
    }
    if match_lit(s, i, "BINT") {
        proof { reveal_strlit("BINT"); }
        return Some((EventModifier::BatterInterference, i + 4));
    }
    if match_lit(s, i, "BOOT") {
        proof { reveal_strlit("BOOT"); }
        return Some((EventModifier::BattingOutOfTurn, i + 4));
    }
    if match_lit(s, i, "BPDP") {
        proof { reveal_strlit("BPDP"); }
        return Some((EventModifier::BuntPoppedIntoDoublePlay, i + 4));
    }
    if match_lit(s, i, "COUB") {
        proof { reveal_strlit("COUB"); }
        return Some((EventModifier::CourtesyBatter, i + 4));
    }
    if match_lit(s, i, "COUF") {
        proof { reveal_strlit("COUF"); }
        return Some((EventModifier::CourtesyFielder, i + 4));
    }
    if match_lit(s, i, "COUR") {
        proof { reveal_strlit("COUR"); }
        return Some((EventModifier::CourtesyRunner, i + 4));
    }
    if match_lit(s, i, "FINT") {
        proof { reveal_strlit("FINT"); }
        return Some((EventModifier::FanInterference, i + 4));
    }
    if match_lit(s, i, "IPHR") {
        proof { reveal_strlit("IPHR"); }
        return Some((EventModifier::InsideTheParkHomeRun, i + 4));
    }
    if match_lit(s, i, "MREV") {
        proof { reveal_strlit("MREV"); }
        return Some((EventModifier::ManagerChallengeOfCallOnTheField, i + 4));
    }
    if match_lit(s, i, "RINT") {
        proof { reveal_strlit("RINT"); }
        return Some((EventModifier::RunnerInterference, i + 4));
    }
    if match_lit(s, i, "UINT") {
        proof { reveal_strlit("UINT"); }
        return Some((EventModifier::UmpireInterference, i + 4));
    }
    if match_lit(s, i, "UREV") {
        proof { reveal_strlit("UREV"); }
        return Some((EventModifier::UmpireReviewOfCallOnTheField, i + 4));
    }
    if match_lit(s, i, "FDP") {
        proof { reveal_strlit("FDP"); }
        return Some((EventModifier::FlyBallDoublePlay, i + 3));
    }
    if match_lit(s, i, "GDP") {
        proof { reveal_strlit("GDP"); }
        return Some((EventModifier::GroundBallDoublePlay, i + 3));
    }
    if match_lit(s, i, "GTP") {
        proof { reveal_strlit("GTP"); }
        return Some((EventModifier::GroundBallTriplePlay, i + 3));
    }
    if match_lit(s, i, "INT") {
        proof { reveal_strlit("INT"); }
        return Some((EventModifier::Interference, i + 3));
    }
    if match_lit(s, i, "LDP") {
        proof { reveal_strlit("LDP"); }
        return Some((EventModifier::LinedIntoDoublePlay, i + 3));
    }
    if match_lit(s, i, "LTP") {
        proof { reveal_strlit("LTP"); }
        return Some((EventModifier::LinedIntoTriplePlay, i + 3));
    }
    if match_lit(s, i, "NDP") {
        proof { reveal_strlit("NDP"); }
        return Some((EventModifier::NoDoublePlayCreditedForThisPlay, i + 3));
    }
    if match_lit(s, i, "OBS") {
        proof { reveal_strlit("OBS"); }
        return Some((EventModifier::FielderObstructingRunner, i + 3));
    }
    if match_lit(s, i, "TH") {
        proof { reveal_strlit("TH"); }
        if n - i > 2 {
            if let Some(b) = base_from_char(s.get_char(i + 2)) {
                return Some((EventModifier::Throw(Some(b)), i + 3));
            }
        }
        return Some((EventModifier::Throw(None), i + 2));
    }
    if match_lit(s, i, "AP") {
        proof { reveal_strlit("AP"); }
        return Some((EventModifier::AppealPlay, i + 2));
    }
    if match_lit(s, i, "BP") {
        proof { reveal_strlit("BP"); }
        return Some((EventModifier::PopUpBunt, i + 2));
    }
    if match_lit(s, i, "BG") {
        proof { reveal_strlit("BG"); }
        return Some((EventModifier::GroundBallBunt, i + 2));
    }
    if match_lit(s, i, "BL") {
        proof { reveal_strlit("BL"); }
        return Some((EventModifier::LineDriveBunt, i + 2));
    }
    if match_lit(s, i, "BR") {
        proof { reveal_strlit("BR"); }
        return Some((EventModifier::RunnerHitByBattedBall, i + 2));
    }
    if match_lit(s, i, "DP") {
        proof { reveal_strlit("DP"); }
        return Some((EventModifier::UnspecifiedDoublePlay, i + 2));
    }
    if match_lit(s, i, "FL") {
        proof { reveal_strlit("FL"); }
        return Some((EventModifier::Foul, i + 2));
    }
    if match_lit(s, i, "FO") {
        proof { reveal_strlit("FO"); }
        return Some((EventModifier::ForceOut, i + 2));
    }
    if match_lit(s, i, "IF") {
        proof { reveal_strlit("IF"); }
        return Some((EventModifier::InfieldFlyRule, i + 2));
    }
    if match_lit(s, i, "PR") {
        proof { reveal_strlit("PR"); }
        return Some((EventModifier::RunnerPassedAnotherRunnerAndWasCalledOut, i + 2));
    }
    if match_lit(s, i, "SF") {
        proof { reveal_strlit("SF"); }
        return Some((EventModifier::SacrificeFly, i + 2));
    }
    if match_lit(s, i, "SH") {
        proof { reveal_strlit("SH"); }
        return Some((EventModifier::SacrificeHitOrBunt, i + 2));
    }
    if match_lit(s, i, "TP") {
        proof { reveal_strlit("TP"); }
        return Some((EventModifier::UnspecifiedTriplePlay, i + 2));
    }
    if c0 == 'E' && n - i > 1 && fielder_char(s.get_char(i + 1)) {
        return Some((EventModifier::Error(fielder_from_char(s.get_char(i + 1))), i + 2));
    }
    if c0 == 'R' && n - i > 1 && fielder_char(s.get_char(i + 1)) {
        return Some((
            EventModifier::RelayThrowFromFielderWithNoOut(fielder_from_char(s.get_char(i + 1))),
            i + 2,
        ));
    }
    if c0 == 'C' {
        return Some((EventModifier::CalledThirdStrike, i + 1));
    }
    if c0 == 'F' {
        return Some((EventModifier::Fly, i + 1));
    }
    if c0 == 'G' {
        return Some((EventModifier::GroundBall, i + 1));
    }
    if c0 == 'L' {
        return Some((EventModifier::LineDrive, i + 1));
    }
    if c0 == 'P' {
        return Some((EventModifier::PopFly, i + 1));
    }
    None
}

/// Exec mirror of [`spec_modifiers`]: reads the whole modifier list and
/// returns it with the position where it stopped.
pub fn parse_modifiers(s: &str, i: usize) -> (r: (Vec<EventModifier>, usize))
    requires
        i <= s@.len(),
    ensures
        (r.0@, r.1 as int) == spec_modifiers(s@, i as int),
        i <= r.1 <= s@.len(),
{
    let n = s.unicode_len();
    let mut acc: Vec<EventModifier> = Vec::new();
    let mut cur = i;
    loop
        invariant
            i <= cur <= n == s@.len(),
            spec_modifiers(s@, i as int) == (acc@ + spec_modifiers(s@, cur as int).0, spec_modifiers(
                s@,
                cur as int,
            ).1),
        decreases n - cur,
    {
        proof {
            lemma_modifiers_bounds(s@, cur as int);
        }
        if cur >= n || s.get_char(cur) == '.' {
            proof {
                assert(acc@ + spec_modifiers(s@, cur as int).0 =~= acc@);
            }
            return (acc, cur);
        }
        let start = if s.get_char(cur) == '/' {
            cur + 1
        } else {
            cur
        };
        match parse_one_modifier(s, start) {
            Some((m, j)) => {
                proof {
                    lemma_one_modifier_advances(s@, start as int);
                    let (rest, end) = spec_modifiers(s@, j as int);
                    assert(acc@ + (seq![m] + rest) =~= acc@.push(m) + rest);
                }
                acc.push(m);
                cur = j;
            },
            None => {
                proof {
                    assert(acc@ + spec_modifiers(s@, cur as int).0 =~= acc@);
                }
                return (acc, cur);
            },
        }
    }
}

} // verus!
