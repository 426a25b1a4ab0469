//! The fixed catalogue of field-location codes: the mapping between each
//! short alphanumeric zone code and its [`FieldLocation`] variant.

use vstd::prelude::*;
use crate::game::FieldLocation;
use crate::lex::{lit_at, match_lit};

verus! {

/// The canonical textual code of a field location.
pub open spec fn location_code(l: FieldLocation) -> Seq<char> {
    match l {
        FieldLocation::ExtremelyDeepCenterLeft => "78XD"@,
        FieldLocation::ExtremelyDeepCenter => "8XD"@,
        FieldLocation::ExtremelyDeepCenterRight => "89XD"@,
        FieldLocation::DeepLeftFoulFence => "7LDF"@,
        FieldLocation::DeepLeftFoul => "7LD"@,
        FieldLocation::DeepLeft => "7D"@,
        FieldLocation::DeepCenterLeft => "78D"@,
        FieldLocation::DeepCenter => "8D"@,
        FieldLocation::DeepCenterRight => "89D"@,
        FieldLocation::DeepRight => "9D"@,
        FieldLocation::DeepRightFoul => "9LD"@,
        FieldLocation::DeepRightFoulFence => "9LDF"@,
        FieldLocation::LeftFoulFence => "7LF"@,
        FieldLocation::LeftFoul => "7L"@,
        FieldLocation::Left => "7"@,
        FieldLocation::CenterLeft => "78"@,
        FieldLocation::Center => "8"@,
        FieldLocation::CenterRight => "89"@,
        FieldLocation::Right => "9"@,
        FieldLocation::RightFoul => "9L"@,
        FieldLocation::RightFoulFence => "9LF"@,
        FieldLocation::ShortLeftFoulFence => "7LSF"@,
        FieldLocation::ShortLeftFoul => "7LS"@,
        FieldLocation::ShortLeft => "7S"@,
        FieldLocation::ShortCenterLeft => "78S"@,
        FieldLocation::ShortCenter => "8S"@,
        FieldLocation::ShortCenterRight => "89S"@,
        FieldLocation::ShortRight => "9S"@,
        FieldLocation::ShortRightFoul => "9LS"@,
        FieldLocation::ShortRightFoulFence => "9LSF"@,
        FieldLocation::DeepThirdBaseFence => "5DF"@,
        FieldLocation::DeepThirdBase => "5D"@,
        FieldLocation::DeepThirdShortstop => "56D"@,
        FieldLocation::DeepShortstop => "6D"@,
        FieldLocation::DeepMiddleShortstop => "6MD"@,
        FieldLocation::DeepMiddleSecondBase => "4MD"@,
        FieldLocation::DeepSecondBase => "4D"@,
        FieldLocation::DeepSecondFirstBase => "34D"@,
        FieldLocation::DeepFirstBase => "3D"@,
        FieldLocation::DeepFirstBaseFence => "3DF"@,
        FieldLocation::ThirdBaseFence => "5F"@,
        FieldLocation::ThirdShortstop => "56"@,
        FieldLocation::Shortstop => "6"@,
        FieldLocation::MiddleShortstop => "6M"@,
        FieldLocation::MiddleSecondBase => "4M"@,
        FieldLocation::SecondBase => "4"@,
        FieldLocation::SecondFirstBase => "34"@,
        FieldLocation::FirstBase => "3"@,
        FieldLocation::FirstBaseFence => "3F"@,
        FieldLocation::ShortThirdBase => "5S"@,
        FieldLocation::ShortThirdShortstop => "56S"@,
        FieldLocation::ShortShortstop => "6S"@,
        FieldLocation::ShortMiddleShortstop => "6MS"@,
        FieldLocation::ShortMiddleSecondBase => "4MS"@,
        FieldLocation::ShortSecondBase => "4S"@,
        FieldLocation::ShortSecondFirstBase => "34S"@,
        FieldLocation::ShortFirstBase => "3S"@,
        FieldLocation::PitcherThird => "15"@,
        FieldLocation::Pitcher => "1"@,
        FieldLocation::PitcherFirst => "13"@,
        FieldLocation::CatcherThirdFence => "25F"@,
        FieldLocation::CatcherThird => "25"@,
        FieldLocation::ShortPitcher => "1S"@,
        FieldLocation::CatcherFirst => "23"@,
        FieldLocation::CatcherFirstFence => "23F"@,
        FieldLocation::Catcher => "2"@,
        FieldLocation::CatcherFence => "2F"@,
    }
}

/// Looks a zone code up in the catalogue; `None` when the text is not a
/// known code.
pub open spec fn location_of_code(s: Seq<char>) -> Option<FieldLocation> {
    if s == "78XD"@ {
        Some(FieldLocation::ExtremelyDeepCenterLeft)
    } else if s == "8XD"@ {
        Some(FieldLocation::ExtremelyDeepCenter)
    } else if s == "89XD"@ {
        Some(FieldLocation::ExtremelyDeepCenterRight)
    } else if s == "7LDF"@ {
        Some(FieldLocation::DeepLeftFoulFence)
    } else if s == "7LD"@ {
        Some(FieldLocation::DeepLeftFoul)
    } else if s == "7D"@ {
        Some(FieldLocation::DeepLeft)
    } else if s == "78D"@ {
        Some(FieldLocation::DeepCenterLeft)
    } else if s == "8D"@ {
        Some(FieldLocation::DeepCenter)
    } else if s == "89D"@ {
        Some(FieldLocation::DeepCenterRight)
    } else if s == "9D"@ {
        Some(FieldLocation::DeepRight)
    } else if s == "9LD"@ {
        Some(FieldLocation::DeepRightFoul)
    } else if s == "9LDF"@ {
        Some(FieldLocation::DeepRightFoulFence)
    } else if s == "7LF"@ {
        Some(FieldLocation::LeftFoulFence)
    } else if s == "7L"@ {
        Some(FieldLocation::LeftFoul)
    } else if s == "7"@ {
        Some(FieldLocation::Left)
    } else if s == "78"@ {
        Some(FieldLocation::CenterLeft)
    } else if s == "8"@ {
        Some(FieldLocation::Center)
    } else if s == "89"@ {
        Some(FieldLocation::CenterRight)
    } else if s == "9"@ {
        Some(FieldLocation::Right)
    } else if s == "9L"@ {
        Some(FieldLocation::RightFoul)
    } else if s == "9LF"@ {
        Some(FieldLocation::RightFoulFence)
    } else if s == "7LSF"@ {
        Some(FieldLocation::ShortLeftFoulFence)
    } else if s == "7LS"@ {
        Some(FieldLocation::ShortLeftFoul)
    } else if s == "7S"@ {
        Some(FieldLocation::ShortLeft)
    } else if s == "78S"@ {
        Some(FieldLocation::ShortCenterLeft)
    } else if s == "8S"@ {
        Some(FieldLocation::ShortCenter)
    } else if s == "89S"@ {
        Some(FieldLocation::ShortCenterRight)
    } else if s == "9S"@ {
        Some(FieldLocation::ShortRight)
    } else if s == "9LS"@ {
        Some(FieldLocation::ShortRightFoul)
    } else if s == "9LSF"@ {
        Some(FieldLocation::ShortRightFoulFence)
    } else if s == "5DF"@ {
        Some(FieldLocation::DeepThirdBaseFence)
    } else if s == "5D"@ {
        Some(FieldLocation::DeepThirdBase)
    } else if s == "56D"@ {
        Some(FieldLocation::DeepThirdShortstop)
    } else if s == "6D"@ {
        Some(FieldLocation::DeepShortstop)
    } else if s == "6MD"@ {
        Some(FieldLocation::DeepMiddleShortstop)
    } else if s == "4MD"@ {
        Some(FieldLocation::DeepMiddleSecondBase)
    } else if s == "4D"@ {
        Some(FieldLocation::DeepSecondBase)
    } else if s == "34D"@ {
        Some(FieldLocation::DeepSecondFirstBase)
    } else if s == "3D"@ {
        Some(FieldLocation::DeepFirstBase)
    } else if s == "3DF"@ {
        Some(FieldLocation::DeepFirstBaseFence)
    } else if s == "5F"@ {
        Some(FieldLocation::ThirdBaseFence)
    } else if s == "56"@ {
        Some(FieldLocation::ThirdShortstop)
    } else if s == "6"@ {
        Some(FieldLocation::Shortstop)
    } else if s == "6M"@ {
        Some(FieldLocation::MiddleShortstop)
    } else if s == "4M"@ {
        Some(FieldLocation::MiddleSecondBase)
    } else if s == "4"@ {
        Some(FieldLocation::SecondBase)
    } else if s == "34"@ {
        Some(FieldLocation::SecondFirstBase)
    } else if s == "3"@ {
        Some(FieldLocation::FirstBase)
    } else if s == "3F"@ {
        Some(FieldLocation::FirstBaseFence)
    } else if s == "5S"@ {
        Some(FieldLocation::ShortThirdBase)
    } else if s == "56S"@ {
        Some(FieldLocation::ShortThirdShortstop)
    } else if s == "6S"@ {
        Some(FieldLocation::ShortShortstop)
    } else if s == "6MS"@ {
        Some(FieldLocation::ShortMiddleShortstop)
    } else if s == "4MS"@ {
        Some(FieldLocation::ShortMiddleSecondBase)
    } else if s == "4S"@ {
        Some(FieldLocation::ShortSecondBase)
    } else if s == "34S"@ {
        Some(FieldLocation::ShortSecondFirstBase)
    } else if s == "3S"@ {
        Some(FieldLocation::ShortFirstBase)
    } else if s == "15"@ {
        Some(FieldLocation::PitcherThird)
    } else if s == "1"@ {
        Some(FieldLocation::Pitcher)
    } else if s == "13"@ {
        Some(FieldLocation::PitcherFirst)
    } else if s == "25F"@ {
        Some(FieldLocation::CatcherThirdFence)
    } else if s == "25"@ {
        Some(FieldLocation::CatcherThird)
    } else if s == "1S"@ {
        Some(FieldLocation::ShortPitcher)
    } else if s == "23"@ {
        Some(FieldLocation::CatcherFirst)
    } else if s == "23F"@ {
        Some(FieldLocation::CatcherFirstFence)
    } else if s == "2"@ {
        Some(FieldLocation::Catcher)
    } else if s == "2F"@ {
        Some(FieldLocation::CatcherFence)
    } else {
        None
    }
}

/// Exec lookup of the zone code written at `s[from..to)`.
#[verifier::rlimit(100)]
#[verifier::spinoff_prover]
pub fn location_lookup(s: &str, from: usize, to: usize) -> (r: Option<FieldLocation>)
    requires
        from <= to <= s@.len(),
    ensures
        r == location_of_code(s@.subrange(from as int, to as int)),
{
    proof {
        reveal_strlit("1");
        reveal_strlit("13");
        reveal_strlit("15");
        reveal_strlit("1S");
        reveal_strlit("2");
        reveal_strlit("23");
        reveal_strlit("23F");
        reveal_strlit("25");
        reveal_strlit("25F");
        reveal_strlit("2F");
        reveal_strlit("3");
        reveal_strlit("34");
        reveal_strlit("34D");
        reveal_strlit("34S");
        reveal_strlit("3D");
        reveal_strlit("3DF");
        reveal_strlit("3F");
        reveal_strlit("3S");
        reveal_strlit("4");
        reveal_strlit("4D");
        reveal_strlit("4M");
        reveal_strlit("4MD");
        reveal_strlit("4MS");
        reveal_strlit("4S");
        reveal_strlit("56");
        reveal_strlit("56D");
        reveal_strlit("56S");
        reveal_strlit("5D");
        reveal_strlit("5DF");
        reveal_strlit("5F");
        reveal_strlit("5S");
        reveal_strlit("6");
        reveal_strlit("6D");
        reveal_strlit("6M");
        reveal_strlit("6MD");
        reveal_strlit("6MS");
        reveal_strlit("6S");
        reveal_strlit("7");
        reveal_strlit("78");
        reveal_strlit("78D");
        reveal_strlit("78S");
        reveal_strlit("78XD");
        reveal_strlit("7D");
        reveal_strlit("7L");
        reveal_strlit("7LD");
        reveal_strlit("7LDF");
        reveal_strlit("7LF");
        reveal_strlit("7LS");
        reveal_strlit("7LSF");
        reveal_strlit("7S");
        reveal_strlit("8");
        reveal_strlit("89");
        reveal_strlit("89D");
        reveal_strlit("89S");
        reveal_strlit("89XD");
        reveal_strlit("8D");
        reveal_strlit("8S");
        reveal_strlit("8XD");
        reveal_strlit("9");
        reveal_strlit("9D");
        reveal_strlit("9L");
        reveal_strlit("9LD");
        reveal_strlit("9LDF");
        reveal_strlit("9LF");
        reveal_strlit("9LS");
        reveal_strlit("9LSF");
        reveal_strlit("9S");
    }
    let n = to - from;
    if n == 4 && match_lit(s, from, "78XD") {
        assert(s@.subrange(from as int, to as int) == "78XD"@);
        Some(FieldLocation::ExtremelyDeepCenterLeft)
    } else if n == 3 && match_lit(s, from, "8XD") {
        assert(s@.subrange(from as int, to as int) == "8XD"@);
        Some(FieldLocation::ExtremelyDeepCenter)
    } else if n == 4 && match_lit(s, from, "89XD") {
        assert(s@.subrange(from as int, to as int) == "89XD"@);
        Some(FieldLocation::ExtremelyDeepCenterRight)
    } else if n == 4 && match_lit(s, from, "7LDF") {
        assert(s@.subrange(from as int, to as int) == "7LDF"@);
        Some(FieldLocation::DeepLeftFoulFence)
    } else if n == 3 && match_lit(s, from, "7LD") {
        assert(s@.subrange(from as int, to as int) == "7LD"@);
        Some(FieldLocation::DeepLeftFoul)
    } else if n == 2 && match_lit(s, from, "7D") {
        assert(s@.subrange(from as int, to as int) == "7D"@);
        Some(FieldLocation::DeepLeft)
    } else if n == 3 && match_lit(s, from, "78D") {
        assert(s@.subrange(from as int, to as int) == "78D"@);
        Some(FieldLocation::DeepCenterLeft)
    } else if n == 2 && match_lit(s, from, "8D") {
        assert(s@.subrange(from as int, to as int) == "8D"@);
        Some(FieldLocation::DeepCenter)
    } else if n == 3 && match_lit(s, from, "89D") {
        assert(s@.subrange(from as int, to as int) == "89D"@);
        Some(FieldLocation::DeepCenterRight)
    } else if n == 2 && match_lit(s, from, "9D") {
        assert(s@.subrange(from as int, to as int) == "9D"@);
        Some(FieldLocation::DeepRight)
    } else if n == 3 && match_lit(s, from, "9LD") {
        assert(s@.subrange(from as int, to as int) == "9LD"@);
        Some(FieldLocation::DeepRightFoul)
    } else if n == 4 && match_lit(s, from, "9LDF") {
        assert(s@.subrange(from as int, to as int) == "9LDF"@);
        Some(FieldLocation::DeepRightFoulFence)
    } else if n == 3 && match_lit(s, from, "7LF") {
        assert(s@.subrange(from as int, to as int) == "7LF"@);
        Some(FieldLocation::LeftFoulFence)
    } else if n == 2 && match_lit(s, from, "7L") {
        assert(s@.subrange(from as int, to as int) == "7L"@);
        Some(FieldLocation::LeftFoul)
    } else if n == 1 && match_lit(s, from, "7") {
        assert(s@.subrange(from as int, to as int) == "7"@);
        Some(FieldLocation::Left)
    } else if n == 2 && match_lit(s, from, "78") {
        assert(s@.subrange(from as int, to as int) == "78"@);
        Some(FieldLocation::CenterLeft)
    } else if n == 1 && match_lit(s, from, "8") {
        assert(s@.subrange(from as int, to as int) == "8"@);
        Some(FieldLocation::Center)
    } else if n == 2 && match_lit(s, from, "89") {
        assert(s@.subrange(from as int, to as int) == "89"@);
        Some(FieldLocation::CenterRight)
    } else if n == 1 && match_lit(s, from, "9") {
        assert(s@.subrange(from as int, to as int) == "9"@);
        Some(FieldLocation::Right)
    } else if n == 2 && match_lit(s, from, "9L") {
        assert(s@.subrange(from as int, to as int) == "9L"@);
        Some(FieldLocation::RightFoul)
    } else if n == 3 && match_lit(s, from, "9LF") {
        assert(s@.subrange(from as int, to as int) == "9LF"@);
        Some(FieldLocation::RightFoulFence)
    } else if n == 4 && match_lit(s, from, "7LSF") {
        assert(s@.subrange(from as int, to as int) == "7LSF"@);
        Some(FieldLocation::ShortLeftFoulFence)
    } else if n == 3 && match_lit(s, from, "7LS") {
        assert(s@.subrange(from as int, to as int) == "7LS"@);
        Some(FieldLocation::ShortLeftFoul)
    } else if n == 2 && match_lit(s, from, "7S") {
        assert(s@.subrange(from as int, to as int) == "7S"@);
        Some(FieldLocation::ShortLeft)
    } else if n == 3 && match_lit(s, from, "78S") {
        assert(s@.subrange(from as int, to as int) == "78S"@);
        Some(FieldLocation::ShortCenterLeft)
    } else if n == 2 && match_lit(s, from, "8S") {
        assert(s@.subrange(from as int, to as int) == "8S"@);
        Some(FieldLocation::ShortCenter)
    } else if n == 3 && match_lit(s, from, "89S") {
        assert(s@.subrange(from as int, to as int) == "89S"@);
        Some(FieldLocation::ShortCenterRight)
    } else if n == 2 && match_lit(s, from, "9S") {
        assert(s@.subrange(from as int, to as int) == "9S"@);
        Some(FieldLocation::ShortRight)
    } else if n == 3 && match_lit(s, from, "9LS") {
        assert(s@.subrange(from as int, to as int) == "9LS"@);
        Some(FieldLocation::ShortRightFoul)
    } else if n == 4 && match_lit(s, from, "9LSF") {
        assert(s@.subrange(from as int, to as int) == "9LSF"@);
        Some(FieldLocation::ShortRightFoulFence)
    } else if n == 3 && match_lit(s, from, "5DF") {
        assert(s@.subrange(from as int, to as int) == "5DF"@);
        Some(FieldLocation::DeepThirdBaseFence)
    } else if n == 2 && match_lit(s, from, "5D") {
        assert(s@.subrange(from as int, to as int) == "5D"@);
        Some(FieldLocation::DeepThirdBase)
    } else if n == 3 && match_lit(s, from, "56D") {
        assert(s@.subrange(from as int, to as int) == "56D"@);
        Some(FieldLocation::DeepThirdShortstop)
    } else if n == 2 && match_lit(s, from, "6D") {
        assert(s@.subrange(from as int, to as int) == "6D"@);
        Some(FieldLocation::DeepShortstop)
    } else if n == 3 && match_lit(s, from, "6MD") {
        assert(s@.subrange(from as int, to as int) == "6MD"@);
        Some(FieldLocation::DeepMiddleShortstop)
    } else if n == 3 && match_lit(s, from, "4MD") {
        assert(s@.subrange(from as int, to as int) == "4MD"@);
        Some(FieldLocation::DeepMiddleSecondBase)
    } else if n == 2 && match_lit(s, from, "4D") {
        assert(s@.subrange(from as int, to as int) == "4D"@);
        Some(FieldLocation::DeepSecondBase)
    } else if n == 3 && match_lit(s, from, "34D") {
        assert(s@.subrange(from as int, to as int) == "34D"@);
        Some(FieldLocation::DeepSecondFirstBase)
    } else if n == 2 && match_lit(s, from, "3D") {
        assert(s@.subrange(from as int, to as int) == "3D"@);
        Some(FieldLocation::DeepFirstBase)
    } else if n == 3 && match_lit(s, from, "3DF") {
        assert(s@.subrange(from as int, to as int) == "3DF"@);
        Some(FieldLocation::DeepFirstBaseFence)
    } else if n == 2 && match_lit(s, from, "5F") {
        assert(s@.subrange(from as int, to as int) == "5F"@);
        Some(FieldLocation::ThirdBaseFence)
    } else if n == 2 && match_lit(s, from, "56") {
        assert(s@.subrange(from as int, to as int) == "56"@);
        Some(FieldLocation::ThirdShortstop)
    } else if n == 1 && match_lit(s, from, "6") {
        assert(s@.subrange(from as int, to as int) == "6"@);
        Some(FieldLocation::Shortstop)
    } else if n == 2 && match_lit(s, from, "6M") {
        assert(s@.subrange(from as int, to as int) == "6M"@);
        Some(FieldLocation::MiddleShortstop)
    } else if n == 2 && match_lit(s, from, "4M") {
        assert(s@.subrange(from as int, to as int) == "4M"@);
        Some(FieldLocation::MiddleSecondBase)
    } else if n == 1 && match_lit(s, from, "4") {
        assert(s@.subrange(from as int, to as int) == "4"@);
        Some(FieldLocation::SecondBase)
    } else if n == 2 && match_lit(s, from, "34") {
        assert(s@.subrange(from as int, to as int) == "34"@);
        Some(FieldLocation::SecondFirstBase)
    } else if n == 1 && match_lit(s, from, "3") {
        assert(s@.subrange(from as int, to as int) == "3"@);
        Some(FieldLocation::FirstBase)
    } else if n == 2 && match_lit(s, from, "3F") {
        assert(s@.subrange(from as int, to as int) == "3F"@);
        Some(FieldLocation::FirstBaseFence)
    } else if n == 2 && match_lit(s, from, "5S") {
        assert(s@.subrange(from as int, to as int) == "5S"@);
        Some(FieldLocation::ShortThirdBase)
    } else if n == 3 && match_lit(s, from, "56S") {
        assert(s@.subrange(from as int, to as int) == "56S"@);
        Some(FieldLocation::ShortThirdShortstop)
    } else if n == 2 && match_lit(s, from, "6S") {
        assert(s@.subrange(from as int, to as int) == "6S"@);
        Some(FieldLocation::ShortShortstop)
    } else if n == 3 && match_lit(s, from, "6MS") {
        assert(s@.subrange(from as int, to as int) == "6MS"@);
        Some(FieldLocation::ShortMiddleShortstop)
    } else if n == 3 && match_lit(s, from, "4MS") {
        assert(s@.subrange(from as int, to as int) == "4MS"@);
        Some(FieldLocation::ShortMiddleSecondBase)
    } else if n == 2 && match_lit(s, from, "4S") {
        assert(s@.subrange(from as int, to as int) == "4S"@);
        Some(FieldLocation::ShortSecondBase)
    } else if n == 3 && match_lit(s, from, "34S") {
        assert(s@.subrange(from as int, to as int) == "34S"@);
        Some(FieldLocation::ShortSecondFirstBase)
    } else if n == 2 && match_lit(s, from, "3S") {
        assert(s@.subrange(from as int, to as int) == "3S"@);
        Some(FieldLocation::ShortFirstBase)
    } else if n == 2 && match_lit(s, from, "15") {
        assert(s@.subrange(from as int, to as int) == "15"@);
        Some(FieldLocation::PitcherThird)
    } else if n == 1 && match_lit(s, from, "1") {
        assert(s@.subrange(from as int, to as int) == "1"@);
        Some(FieldLocation::Pitcher)
    } else if n == 2 && match_lit(s, from, "13") {
        assert(s@.subrange(from as int, to as int) == "13"@);
        Some(FieldLocation::PitcherFirst)
    } else if n == 3 && match_lit(s, from, "25F") {
        assert(s@.subrange(from as int, to as int) == "25F"@);
        Some(FieldLocation::CatcherThirdFence)
    } else if n == 2 && match_lit(s, from, "25") {
        assert(s@.subrange(from as int, to as int) == "25"@);
        Some(FieldLocation::CatcherThird)
    } else if n == 2 && match_lit(s, from, "1S") {
        assert(s@.subrange(from as int, to as int) == "1S"@);
        Some(FieldLocation::ShortPitcher)
    } else if n == 2 && match_lit(s, from, "23") {
        assert(s@.subrange(from as int, to as int) == "23"@);
        Some(FieldLocation::CatcherFirst)
    } else if n == 3 && match_lit(s, from, "23F") {
        assert(s@.subrange(from as int, to as int) == "23F"@);
        Some(FieldLocation::CatcherFirstFence)
    } else if n == 1 && match_lit(s, from, "2") {
        assert(s@.subrange(from as int, to as int) == "2"@);
        Some(FieldLocation::Catcher)
    } else if n == 2 && match_lit(s, from, "2F") {
        assert(s@.subrange(from as int, to as int) == "2F"@);
        Some(FieldLocation::CatcherFence)
    } else {
        None
    }
}

/// Exec mirror of [`location_code`].
pub fn location_text(l: &FieldLocation) -> (r: &'static str)
    ensures
        r@ == location_code(*l),
{
    match l {
        FieldLocation::ExtremelyDeepCenterLeft => "78XD",
        FieldLocation::ExtremelyDeepCenter => "8XD",
        FieldLocation::ExtremelyDeepCenterRight => "89XD",
        FieldLocation::DeepLeftFoulFence => "7LDF",
        FieldLocation::DeepLeftFoul => "7LD",
        FieldLocation::DeepLeft => "7D",
        FieldLocation::DeepCenterLeft => "78D",
        FieldLocation::DeepCenter => "8D",
        FieldLocation::DeepCenterRight => "89D",
        FieldLocation::DeepRight => "9D",
        FieldLocation::DeepRightFoul => "9LD",
        FieldLocation::DeepRightFoulFence => "9LDF",
        FieldLocation::LeftFoulFence => "7LF",
        FieldLocation::LeftFoul => "7L",
        FieldLocation::Left => "7",
        FieldLocation::CenterLeft => "78",
        FieldLocation::Center => "8",
        FieldLocation::CenterRight => "89",
        FieldLocation::Right => "9",
        FieldLocation::RightFoul => "9L",
        FieldLocation::RightFoulFence => "9LF",
        FieldLocation::ShortLeftFoulFence => "7LSF",
        FieldLocation::ShortLeftFoul => "7LS",
        FieldLocation::ShortLeft => "7S",
        FieldLocation::ShortCenterLeft => "78S",
        FieldLocation::ShortCenter => "8S",
        FieldLocation::ShortCenterRight => "89S",
        FieldLocation::ShortRight => "9S",
        FieldLocation::ShortRightFoul => "9LS",
        FieldLocation::ShortRightFoulFence => "9LSF",
        FieldLocation::DeepThirdBaseFence => "5DF",
        FieldLocation::DeepThirdBase => "5D",
        FieldLocation::DeepThirdShortstop => "56D",
        FieldLocation::DeepShortstop => "6D",
        FieldLocation::DeepMiddleShortstop => "6MD",
        FieldLocation::DeepMiddleSecondBase => "4MD",
        FieldLocation::DeepSecondBase => "4D",
        FieldLocation::DeepSecondFirstBase => "34D",
        FieldLocation::DeepFirstBase => "3D",
        FieldLocation::DeepFirstBaseFence => "3DF",
        FieldLocation::ThirdBaseFence => "5F",
        FieldLocation::ThirdShortstop => "56",
        FieldLocation::Shortstop => "6",
        FieldLocation::MiddleShortstop => "6M",
        FieldLocation::MiddleSecondBase => "4M",
        FieldLocation::SecondBase => "4",
        FieldLocation::SecondFirstBase => "34",
        FieldLocation::FirstBase => "3",
        FieldLocation::FirstBaseFence => "3F",
        FieldLocation::ShortThirdBase => "5S",
        FieldLocation::ShortThirdShortstop => "56S",
        FieldLocation::ShortShortstop => "6S",
        FieldLocation::ShortMiddleShortstop => "6MS",
        FieldLocation::ShortMiddleSecondBase => "4MS",
        FieldLocation::ShortSecondBase => "4S",
        FieldLocation::ShortSecondFirstBase => "34S",
        FieldLocation::ShortFirstBase => "3S",
        FieldLocation::PitcherThird => "15",
        FieldLocation::Pitcher => "1",
        FieldLocation::PitcherFirst => "13",
        FieldLocation::CatcherThirdFence => "25F",
        FieldLocation::CatcherThird => "25",
        FieldLocation::ShortPitcher => "1S",
        FieldLocation::CatcherFirst => "23",
        FieldLocation::CatcherFirstFence => "23F",
        FieldLocation::Catcher => "2",
        FieldLocation::CatcherFence => "2F",
    }
}

/// A zone code of a single character names one of the nine single-digit
/// positions.
#[verifier::rlimit(100)]
#[verifier::spinoff_prover]
pub proof fn lemma_short_code_single_digit(s: Seq<char>)
    requires
        s.len() == 1,
        location_of_code(s) is Some,
    ensures
        crate::game::location_is_single_digit(location_of_code(s).unwrap()),
{
    assert(s =~= seq![s[0]]);
    reveal_strlit("78XD");
    reveal_strlit("8XD");
    reveal_strlit("89XD");
    reveal_strlit("7LDF");
    reveal_strlit("7LD");
    reveal_strlit("7D");
    reveal_strlit("78D");
    reveal_strlit("8D");
    reveal_strlit("89D");
    reveal_strlit("9D");
    reveal_strlit("9LD");
    reveal_strlit("9LDF");
    reveal_strlit("7LF");
    reveal_strlit("7L");
    reveal_strlit("7");
    reveal_strlit("78");
    reveal_strlit("8");
    reveal_strlit("89");
    reveal_strlit("9");
    reveal_strlit("9L");
    reveal_strlit("9LF");
    reveal_strlit("7LSF");
    reveal_strlit("7LS");
    reveal_strlit("7S");
    reveal_strlit("78S");
    reveal_strlit("8S");
    reveal_strlit("89S");
    reveal_strlit("9S");
    reveal_strlit("9LS");
    reveal_strlit("9LSF");
    reveal_strlit("5DF");
    reveal_strlit("5D");
    reveal_strlit("56D");
    reveal_strlit("6D");
    reveal_strlit("6MD");
    reveal_strlit("4MD");
    reveal_strlit("4D");
    reveal_strlit("34D");
    reveal_strlit("3D");
    reveal_strlit("3DF");
    reveal_strlit("5F");
    reveal_strlit("56");
    reveal_strlit("6");
    reveal_strlit("6M");
    reveal_strlit("4M");
    reveal_strlit("4");
    reveal_strlit("34");
    reveal_strlit("3");
    reveal_strlit("3F");
    reveal_strlit("5S");
    reveal_strlit("56S");
    reveal_strlit("6S");
    reveal_strlit("6MS");
    reveal_strlit("4MS");
    reveal_strlit("4S");
    reveal_strlit("34S");
    reveal_strlit("3S");
    reveal_strlit("15");
    reveal_strlit("1");
    reveal_strlit("13");
    reveal_strlit("25F");
    reveal_strlit("25");
    reveal_strlit("1S");
    reveal_strlit("23");
    reveal_strlit("23F");
    reveal_strlit("2");
    reveal_strlit("2F");
    assert(s != "78XD"@);
    assert(s != "8XD"@);
    assert(s != "89XD"@);
    assert(s != "7LDF"@);
    assert(s != "7LD"@);
    assert(s != "7D"@);
    assert(s != "78D"@);
    assert(s != "8D"@);
    assert(s != "89D"@);
    assert(s != "9D"@);
    assert(s != "9LD"@);
    assert(s != "9LDF"@);
    assert(s != "7LF"@);
    assert(s != "7L"@);
    assert(s != "78"@);
    assert(s != "89"@);
    assert(s != "9L"@);
    assert(s != "9LF"@);
    assert(s != "7LSF"@);
    assert(s != "7LS"@);
    assert(s != "7S"@);
    assert(s != "78S"@);
    assert(s != "8S"@);
    assert(s != "89S"@);
    assert(s != "9S"@);
    assert(s != "9LS"@);
    assert(s != "9LSF"@);
    assert(s != "5DF"@);
    assert(s != "5D"@);
    assert(s != "56D"@);
    assert(s != "6D"@);
    assert(s != "6MD"@);
    assert(s != "4MD"@);
    assert(s != "4D"@);
    assert(s != "34D"@);
    assert(s != "3D"@);
    assert(s != "3DF"@);
    assert(s != "5F"@);
    assert(s != "56"@);
    assert(s != "6M"@);
    assert(s != "4M"@);
    assert(s != "34"@);
    assert(s != "3F"@);
    assert(s != "5S"@);
    assert(s != "56S"@);
    assert(s != "6S"@);
    assert(s != "6MS"@);
    assert(s != "4MS"@);
    assert(s != "4S"@);
    assert(s != "34S"@);
    assert(s != "3S"@);
    assert(s != "15"@);
    assert(s != "13"@);
    assert(s != "25F"@);
    assert(s != "25"@);
    assert(s != "1S"@);
    assert(s != "23"@);
    assert(s != "23F"@);
    assert(s != "2F"@);
    assert(s == "7"@ || s == "8"@ || s == "9"@ || s == "6"@ || s == "4"@ || s == "3"@ || s
        == "1"@ || s == "2"@);
    if s == "7"@ {
        assert(location_of_code(s) == Some(FieldLocation::Left));
    } else if s == "8"@ {
        assert(location_of_code(s) == Some(FieldLocation::Center));
    } else if s == "9"@ {
        assert(location_of_code(s) == Some(FieldLocation::Right));
    } else if s == "6"@ {
        assert(location_of_code(s) == Some(FieldLocation::Shortstop));
    } else if s == "4"@ {
        assert(location_of_code(s) == Some(FieldLocation::SecondBase));
    } else if s == "3"@ {
        assert(location_of_code(s) == Some(FieldLocation::FirstBase));
    } else if s == "1"@ {
        assert(location_of_code(s) == Some(FieldLocation::Pitcher));
    } else {
        assert(location_of_code(s) == Some(FieldLocation::Catcher));
    }
}

/// For every valid zone-code text, formatting the looked-up location
/// yields the original text back: the catalogue read is injective.
#[verifier::rlimit(100)]
#[verifier::spinoff_prover]
pub proof fn lemma_location_text_round_trip(s: Seq<char>)
    requires
        location_of_code(s) is Some,
    ensures
        location_code(location_of_code(s).unwrap()) == s,
{
    reveal_strlit("78XD");
    reveal_strlit("8XD");
    reveal_strlit("89XD");
    reveal_strlit("7LDF");
    reveal_strlit("7LD");
    reveal_strlit("7D");
    reveal_strlit("78D");
    reveal_strlit("8D");
    reveal_strlit("89D");
    reveal_strlit("9D");
    reveal_strlit("9LD");
    reveal_strlit("9LDF");
    reveal_strlit("7LF");
    reveal_strlit("7L");
    reveal_strlit("7");
    reveal_strlit("78");
    reveal_strlit("8");
    reveal_strlit("89");
    reveal_strlit("9");
    reveal_strlit("9L");
    reveal_strlit("9LF");
    reveal_strlit("7LSF");
    reveal_strlit("7LS");
    reveal_strlit("7S");
    reveal_strlit("78S");
    reveal_strlit("8S");
    reveal_strlit("89S");
    reveal_strlit("9S");
    reveal_strlit("9LS");
    reveal_strlit("9LSF");
    reveal_strlit("5DF");
    reveal_strlit("5D");
    reveal_strlit("56D");
    reveal_strlit("6D");
    reveal_strlit("6MD");
    reveal_strlit("4MD");
    reveal_strlit("4D");
    reveal_strlit("34D");
    reveal_strlit("3D");
    reveal_strlit("3DF");
    reveal_strlit("5F");
    reveal_strlit("56");
    reveal_strlit("6");
    reveal_strlit("6M");
    reveal_strlit("4M");
    reveal_strlit("4");
    reveal_strlit("34");
    reveal_strlit("3");
    reveal_strlit("3F");
    reveal_strlit("5S");
    reveal_strlit("56S");
    reveal_strlit("6S");
    reveal_strlit("6MS");
    reveal_strlit("4MS");
    reveal_strlit("4S");
    reveal_strlit("34S");
    reveal_strlit("3S");
    reveal_strlit("15");
    reveal_strlit("1");
    reveal_strlit("13");
    reveal_strlit("25F");
    reveal_strlit("25");
    reveal_strlit("1S");
    reveal_strlit("23");
    reveal_strlit("23F");
    reveal_strlit("2");
    reveal_strlit("2F");
}

} // verus!
