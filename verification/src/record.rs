//! The record grammar: one line of a game account, either an identifier,
//! a version, a starter or substitute entry, a metadata record, or a play.

use vstd::prelude::*;
use crate::event::{ParseError, ParseErrorKind, spec_parse_event_at};
use crate::game::{
    AttendanceInfo, Count, DayNightInfo, Event, EventV, FieldConditionInfo, GameTypeInfo, Pitch,
    PitchModifier, PitchType, PitchesInfo, PlayNote, Position, PrecipitationInfo, SkyInfo,
    TemperatureInfo, TimeOfGameInfo, WindDirectionInfo, WindSpeedInfo, event_view,
};
use crate::lex::{digit_val, is_digit, lit_at, match_lit};

verus! {

/// The two sides of a game.
#[derive(Clone, Copy, Debug, PartialEq, Eq, Structural)]
pub enum Team {
    Visiting,
    Home,
}

/// One metadata record, keyed by the word after `info,`.
#[derive(Debug, PartialEq)]
pub enum Info {
    VisitingTeam(String),
    HomeTeam(String),
    Date(String),
    Number(u8),
    StartTime(String),
    DayNight(DayNightInfo),
    Innings(u8),
    Tiebreaker(u8),
    UsedDesignatedHitterRule(bool),
    Pitches(PitchesInfo),
    OfficialScorer(String),
    HomeTeamBatFirst(bool),
    UmpireHome(Option<String>),
    Umpire1B(Option<String>),
    Umpire2B(Option<String>),
    Umpire3B(Option<String>),
    UmpireLeftField(Option<String>),
    UmpireRightField(Option<String>),
    FieldCondition(FieldConditionInfo),
    Precipitation(PrecipitationInfo),
    Sky(SkyInfo),
    Temperature(TemperatureInfo),
    WindDirection(WindDirectionInfo),
    WindSpeed(WindSpeedInfo),
    TimeOfGame(TimeOfGameInfo),
    Attendance(AttendanceInfo),
    Site(String),
    WP(String),
    LP(String),
    Save(Option<String>),
    GameWinningRBI(Option<String>),
    GameType(GameTypeInfo),
    Other(String, String),
}

/// One decoded line of a game account.
#[derive(Debug, PartialEq)]
pub enum Line {
    Id(String),
    Version(u8),
    StartSub {
        is_start: bool,
        player_id: String,
        player_name: String,
        team: Team,
        batting_order: u8,
        position: Position,
    },
    Info(Info),
    Play {
        inning: u8,
        team: Team,
        batter_id: String,
        count: Count,
        pitches: Option<Vec<Pitch>>,
        event: Event,
        note: Option<PlayNote>,
    },
}


impl Clone for Info {
    /// A copy equal to the original record.
    fn clone(&self) -> (res: Self)
        ensures
            res == *self,
    {
        match self {
            Info::VisitingTeam(t) => Info::VisitingTeam(t.clone()),
            Info::HomeTeam(t) => Info::HomeTeam(t.clone()),
            Info::Date(t) => Info::Date(t.clone()),
            Info::Number(x) => Info::Number(*x),
            Info::StartTime(t) => Info::StartTime(t.clone()),
            Info::DayNight(x) => Info::DayNight(*x),
            Info::Innings(x) => Info::Innings(*x),
            Info::Tiebreaker(x) => Info::Tiebreaker(*x),
            Info::UsedDesignatedHitterRule(x) => Info::UsedDesignatedHitterRule(*x),
            Info::Pitches(x) => Info::Pitches(*x),
            Info::OfficialScorer(t) => Info::OfficialScorer(t.clone()),
            Info::HomeTeamBatFirst(x) => Info::HomeTeamBatFirst(*x),
            Info::UmpireHome(o) => Info::UmpireHome(
                match o {
                    Some(t) => Some(t.clone()),
                    None => None,
                },
            ),
            Info::Umpire1B(o) => Info::Umpire1B(
                match o {
                    Some(t) => Some(t.clone()),
                    None => None,
                },
            ),
            Info::Umpire2B(o) => Info::Umpire2B(
                match o {
                    Some(t) => Some(t.clone()),
                    None => None,
                },
            ),
            Info::Umpire3B(o) => Info::Umpire3B(
                match o {
                    Some(t) => Some(t.clone()),
                    None => None,
                },
            ),
            Info::UmpireLeftField(o) => Info::UmpireLeftField(
                match o {
                    Some(t) => Some(t.clone()),
                    None => None,
                },
            ),
            Info::UmpireRightField(o) => Info::UmpireRightField(
                match o {
                    Some(t) => Some(t.clone()),
                    None => None,
                },
            ),
            Info::FieldCondition(x) => Info::FieldCondition(*x),
            Info::Precipitation(x) => Info::Precipitation(*x),
            Info::Sky(x) => Info::Sky(*x),
            Info::Temperature(x) => Info::Temperature(*x),
            Info::WindDirection(x) => Info::WindDirection(*x),
            Info::WindSpeed(x) => Info::WindSpeed(*x),
            Info::TimeOfGame(x) => Info::TimeOfGame(*x),
            Info::Attendance(x) => Info::Attendance(*x),
            Info::Site(t) => Info::Site(t.clone()),
            Info::WP(t) => Info::WP(t.clone()),
            Info::LP(t) => Info::LP(t.clone()),
            Info::Save(o) => Info::Save(
                match o {
                    Some(t) => Some(t.clone()),
                    None => None,
                },
            ),
            Info::GameWinningRBI(o) => Info::GameWinningRBI(
                match o {
                    Some(t) => Some(t.clone()),
                    None => None,
                },
            ),
            Info::GameType(x) => Info::GameType(*x),
            Info::Other(k, v) => Info::Other(k.clone(), v.clone()),
        }
    }
}

/// The mathematical shape of a metadata record: text payloads as character
/// sequences.
pub enum InfoV {
    VisitingTeam(Seq<char>),
    HomeTeam(Seq<char>),
    Date(Seq<char>),
    Number(u8),
    StartTime(Seq<char>),
    DayNight(DayNightInfo),
    Innings(u8),
    Tiebreaker(u8),
    UsedDesignatedHitterRule(bool),
    Pitches(PitchesInfo),
    OfficialScorer(Seq<char>),
    HomeTeamBatFirst(bool),
    UmpireHome(Option<Seq<char>>),
    Umpire1B(Option<Seq<char>>),
    Umpire2B(Option<Seq<char>>),
    Umpire3B(Option<Seq<char>>),
    UmpireLeftField(Option<Seq<char>>),
    UmpireRightField(Option<Seq<char>>),
    FieldCondition(FieldConditionInfo),
    Precipitation(PrecipitationInfo),
    Sky(SkyInfo),
    Temperature(TemperatureInfo),
    WindDirection(WindDirectionInfo),
    WindSpeed(WindSpeedInfo),
    TimeOfGame(TimeOfGameInfo),
    Attendance(AttendanceInfo),
    Site(Seq<char>),
    WP(Seq<char>),
    LP(Seq<char>),
    Save(Option<Seq<char>>),
    GameWinningRBI(Option<Seq<char>>),
    GameType(GameTypeInfo),
    Other(Seq<char>, Seq<char>),
}

/// The mathematical shape of a decoded line.
pub enum LineV {
    Id(Seq<char>),
    Version(u8),
    StartSub {
        is_start: bool,
        player_id: Seq<char>,
        player_name: Seq<char>,
        team: Team,
        batting_order: u8,
        position: Position,
    },
    Info(InfoV),
    Play {
        inning: u8,
        team: Team,
        batter_id: Seq<char>,
        count: Count,
        pitches: Option<Seq<Pitch>>,
        event: EventV,
        note: Option<PlayNote>,
    },
}

pub open spec fn opt_string_view(o: Option<String>) -> Option<Seq<char>> {
    match o {
        Some(t) => Some(t@),
        None => None,
    }
}

pub open spec fn info_view(i: Info) -> InfoV {
    match i {
        Info::VisitingTeam(t) => InfoV::VisitingTeam(t@),
        Info::HomeTeam(t) => InfoV::HomeTeam(t@),
        Info::Date(t) => InfoV::Date(t@),
        Info::Number(n) => InfoV::Number(n),
        Info::StartTime(t) => InfoV::StartTime(t@),
        Info::DayNight(v) => InfoV::DayNight(v),
        Info::Innings(n) => InfoV::Innings(n),
        Info::Tiebreaker(n) => InfoV::Tiebreaker(n),
        Info::UsedDesignatedHitterRule(b) => InfoV::UsedDesignatedHitterRule(b),
        Info::Pitches(v) => InfoV::Pitches(v),
        Info::OfficialScorer(t) => InfoV::OfficialScorer(t@),
        Info::HomeTeamBatFirst(b) => InfoV::HomeTeamBatFirst(b),
        Info::UmpireHome(o) => InfoV::UmpireHome(opt_string_view(o)),
        Info::Umpire1B(o) => InfoV::Umpire1B(opt_string_view(o)),
        Info::Umpire2B(o) => InfoV::Umpire2B(opt_string_view(o)),
        Info::Umpire3B(o) => InfoV::Umpire3B(opt_string_view(o)),
        Info::UmpireLeftField(o) => InfoV::UmpireLeftField(opt_string_view(o)),
        Info::UmpireRightField(o) => InfoV::UmpireRightField(opt_string_view(o)),
        Info::FieldCondition(v) => InfoV::FieldCondition(v),
        Info::Precipitation(v) => InfoV::Precipitation(v),
        Info::Sky(v) => InfoV::Sky(v),
        Info::Temperature(v) => InfoV::Temperature(v),
        Info::WindDirection(v) => InfoV::WindDirection(v),
        Info::WindSpeed(v) => InfoV::WindSpeed(v),
        Info::TimeOfGame(v) => InfoV::TimeOfGame(v),
        Info::Attendance(v) => InfoV::Attendance(v),
        Info::Site(t) => InfoV::Site(t@),
        Info::WP(t) => InfoV::WP(t@),
        Info::LP(t) => InfoV::LP(t@),
        Info::Save(o) => InfoV::Save(opt_string_view(o)),
        Info::GameWinningRBI(o) => InfoV::GameWinningRBI(opt_string_view(o)),
        Info::GameType(v) => InfoV::GameType(v),
        Info::Other(k, v) => InfoV::Other(k@, v@),
    }
}

pub open spec fn opt_pitches_view(o: Option<Vec<Pitch>>) -> Option<Seq<Pitch>> {
    match o {
        Some(v) => Some(v@),
        None => None,
    }
}

pub open spec fn line_view(l: Line) -> LineV {
    match l {
        Line::Id(t) => LineV::Id(t@),
        Line::Version(n) => LineV::Version(n),
        Line::StartSub { is_start, player_id, player_name, team, batting_order, position } => (
        LineV::StartSub {
            is_start,
            player_id: player_id@,
            player_name: player_name@,
            team,
            batting_order,
            position,
        }),
        Line::Info(i) => LineV::Info(info_view(i)),
        Line::Play { inning, team, batter_id, count, pitches, event, note } => LineV::Play {
            inning,
            team,
            batter_id: batter_id@,
            count,
            pitches: opt_pitches_view(pitches),
            event: event_view(event),
            note,
        },
    }
}

impl View for Info {
    type V = InfoV;

    open spec fn view(&self) -> InfoV {
        info_view(*self)
    }
}

impl View for Line {
    type V = LineV;

    open spec fn view(&self) -> LineV {
        line_view(*self)
    }
}

/// The first comma at or after `i`, or the end of the input.
pub open spec fn find_comma(s: Seq<char>, i: int) -> int
    decreases s.len() - i,
{
    if !(0 <= i < s.len()) {
        s.len() as int
    } else if s[i] == ',' {
        i
    } else {
        find_comma(s, i + 1)
    }
}

pub proof fn lemma_find_comma(s: Seq<char>, i: int)
    requires
        0 <= i <= s.len(),
    ensures
        i <= find_comma(s, i) <= s.len(),
        forall|k: int| i <= k < find_comma(s, i) ==> s[k] != ',',
        find_comma(s, i) < s.len() ==> s[find_comma(s, i)] == ',',
    decreases s.len() - i,
{
    if i < s.len() && s[i] != ',' {
        lemma_find_comma(s, i + 1);
    }
}

/// The region `s[a..b)` holds exactly the literal `p`.
pub open spec fn region_is(s: Seq<char>, a: int, b: int, p: Seq<char>) -> bool {
    b - a == p.len() && lit_at(s, a, p)
}

/// All characters of `s[a..b)` are decimal digits.
pub open spec fn all_digits(s: Seq<char>, a: int, b: int) -> bool {
    forall|k: int| a <= k < b ==> is_digit(#[trigger] s[k])
}

/// The value of the decimal digits `s[a..b)`.
pub open spec fn digits_val(s: Seq<char>, a: int, b: int) -> int
    decreases b - a,
{
    if b <= a {
        0
    } else {
        digits_val(s, a, b - 1) * 10 + digit_val(s[b - 1])
    }
}

/// The value of a digit run is never negative.
pub proof fn lemma_digits_val_nonneg(s: Seq<char>, a: int, b: int)
    requires
        all_digits(s, a, b),
    ensures
        digits_val(s, a, b) >= 0,
    decreases b - a,
{
    if b > a {
        lemma_digits_val_nonneg(s, a, b - 1);
    }
}

/// Extending a digit run to the right never decreases its value.
pub proof fn lemma_digits_val_mono(s: Seq<char>, a: int, k: int, b: int)
    requires
        a <= k <= b,
        all_digits(s, a, b),
    ensures
        digits_val(s, a, b) >= digits_val(s, a, k),
    decreases b - k,
{
    if k < b {
        lemma_digits_val_mono(s, a, k, b - 1);
        lemma_digits_val_nonneg(s, a, b - 1);
    }
}

/// A numeric field read as in the source notation: at least one digit, all
/// digits, and a value that a machine word can hold.
pub open spec fn spec_number(s: Seq<char>, a: int, b: int) -> Option<u64> {
    if a < b <= s.len() && all_digits(s, a, b) && digits_val(s, a, b) <= u64::MAX {
        Some(digits_val(s, a, b) as u64)
    } else {
        None
    }
}

/// The roster position named by the region, written `1`..`12`.
pub open spec fn position_of(s: Seq<char>, a: int, b: int) -> Option<Position> {
    if region_is(s, a, b, "1"@) {
        Some(Position::Pitcher)
    } else if region_is(s, a, b, "2"@) {
        Some(Position::Catcher)
    } else if region_is(s, a, b, "3"@) {
        Some(Position::FirstBase)
    } else if region_is(s, a, b, "4"@) {
        Some(Position::SecondBase)
    } else if region_is(s, a, b, "5"@) {
        Some(Position::ThirdBase)
    } else if region_is(s, a, b, "6"@) {
        Some(Position::Shortstop)
    } else if region_is(s, a, b, "7"@) {
        Some(Position::LeftField)
    } else if region_is(s, a, b, "8"@) {
        Some(Position::CenterField)
    } else if region_is(s, a, b, "9"@) {
        Some(Position::RightField)
    } else if region_is(s, a, b, "10"@) {
        Some(Position::DesignatedHitter)
    } else if region_is(s, a, b, "11"@) {
        Some(Position::PinchHitter)
    } else if region_is(s, a, b, "12"@) {
        Some(Position::PinchRunner)
    } else {
        None
    }
}

pub open spec fn day_night_of(s: Seq<char>, a: int, b: int) -> Option<DayNightInfo> {
    if region_is(s, a, b, "day"@) {
        Some(DayNightInfo::Day)
    } else if region_is(s, a, b, "night"@) {
        Some(DayNightInfo::Night)
    } else {
        None
    }
}

pub open spec fn pitches_info_of(s: Seq<char>, a: int, b: int) -> Option<PitchesInfo> {
    if region_is(s, a, b, "pitches"@) {
        Some(PitchesInfo::Pitches)
    } else if region_is(s, a, b, "count"@) {
        Some(PitchesInfo::Count)
    } else if region_is(s, a, b, "none"@) {
        Some(PitchesInfo::NotRecorded)
    } else {
        None
    }
}

pub open spec fn field_condition_of(s: Seq<char>, a: int, b: int) -> Option<FieldConditionInfo> {
    if region_is(s, a, b, "dry"@) {
        Some(FieldConditionInfo::Dry)
    } else if region_is(s, a, b, "soaked"@) {
        Some(FieldConditionInfo::Soaked)
    } else if region_is(s, a, b, "wet"@) {
        Some(FieldConditionInfo::Wet)
    } else if region_is(s, a, b, "unknown"@) {
        Some(FieldConditionInfo::Unknown)
    } else {
        None
    }
}

pub open spec fn precipitation_of(s: Seq<char>, a: int, b: int) -> Option<PrecipitationInfo> {
    if region_is(s, a, b, "drizzle"@) {
        Some(PrecipitationInfo::Drizzle)
    } else if region_is(s, a, b, "none"@) {
        Some(PrecipitationInfo::NoPrecipitation)
    } else if region_is(s, a, b, "rain"@) {
        Some(PrecipitationInfo::Rain)
    } else if region_is(s, a, b, "showers"@) {
        Some(PrecipitationInfo::Showers)
    } else if region_is(s, a, b, "snow"@) {
        Some(PrecipitationInfo::Snow)
    } else if region_is(s, a, b, "unknown"@) {
        Some(PrecipitationInfo::Unknown)
    } else {
        None
    }
}

pub open spec fn sky_of(s: Seq<char>, a: int, b: int) -> Option<SkyInfo> {
    if region_is(s, a, b, "cloudy"@) {
        Some(SkyInfo::Cloudy)
    } else if region_is(s, a, b, "dome"@) {
        Some(SkyInfo::Dome)
    } else if region_is(s, a, b, "night"@) {
        Some(SkyInfo::Night)
    } else if region_is(s, a, b, "overcast"@) {
        Some(SkyInfo::Overcast)
    } else if region_is(s, a, b, "sunny"@) {
        Some(SkyInfo::Sunny)
    } else if region_is(s, a, b, "unknown"@) {
        Some(SkyInfo::Unknown)
    } else {
        None
    }
}

pub open spec fn wind_direction_of(s: Seq<char>, a: int, b: int) -> Option<WindDirectionInfo> {
    if region_is(s, a, b, "fromcf"@) {
        Some(WindDirectionInfo::FromCenterField)
    } else if region_is(s, a, b, "fromlf"@) {
        Some(WindDirectionInfo::FromLeftField)
    } else if region_is(s, a, b, "fromrf"@) {
        Some(WindDirectionInfo::FromRightField)
    } else if region_is(s, a, b, "ltor"@) {
        Some(WindDirectionInfo::LeftToRight)
    } else if region_is(s, a, b, "rtol"@) {
        Some(WindDirectionInfo::RightToLeft)
    } else if region_is(s, a, b, "tocf"@) {
        Some(WindDirectionInfo::ToCenterField)
    } else if region_is(s, a, b, "tolf"@) {
        Some(WindDirectionInfo::ToLeftField)
    } else if region_is(s, a, b, "torf"@) {
        Some(WindDirectionInfo::ToRightField)
    } else if region_is(s, a, b, "unknown"@) {
        Some(WindDirectionInfo::Unknown)
    } else {
        None
    }
}

pub open spec fn game_type_of(s: Seq<char>, a: int, b: int) -> Option<GameTypeInfo> {
    if region_is(s, a, b, "regular"@) {
        Some(GameTypeInfo::Regular)
    } else if region_is(s, a, b, "exhibition"@) {
        Some(GameTypeInfo::Exhibition)
    } else if region_is(s, a, b, "preseason"@) {
        Some(GameTypeInfo::Preseason)
    } else if region_is(s, a, b, "allstar"@) {
        Some(GameTypeInfo::AllStar)
    } else if region_is(s, a, b, "playoff"@) {
        Some(GameTypeInfo::Playoff)
    } else if region_is(s, a, b, "worldseries"@) {
        Some(GameTypeInfo::WorldSeries)
    } else if region_is(s, a, b, "lcs"@) {
        Some(GameTypeInfo::LeagueChampionshipSeries)
    } else if region_is(s, a, b, "divisionseries"@) {
        Some(GameTypeInfo::DivisionSeries)
    } else if region_is(s, a, b, "wildcard"@) {
        Some(GameTypeInfo::Wildcard)
    } else if region_is(s, a, b, "championship"@) {
        Some(GameTypeInfo::Championship)
    } else {
        None
    }
}

pub open spec fn is_upper(c: char) -> bool {
    ('A' as u32) <= (c as u32) <= ('Z' as u32)
}

/// A team name: one to three capital letters.
pub open spec fn team_name_ok(s: Seq<char>, a: int, b: int) -> bool {
    &&& 1 <= b - a <= 3
    &&& forall|k: int| a <= k < b ==> is_upper(#[trigger] s[k])
}

pub open spec fn pitch_type_of_char(c: char) -> Option<PitchType> {
    if c == 'A' {
        Some(PitchType::AutomaticStrike)
    } else if c == 'B' {
        Some(PitchType::Ball)
    } else if c == 'C' {
        Some(PitchType::CalledStrike)
    } else if c == 'F' {
        Some(PitchType::Foul)
    } else if c == 'H' {
        Some(PitchType::HitBatter)
    } else if c == 'I' {
        Some(PitchType::IntentionalBall)
    } else if c == 'K' {
        Some(PitchType::Strike)
    } else if c == 'L' {
        Some(PitchType::FoulBunt)
    } else if c == 'M' {
        Some(PitchType::MissedBuntAttempt)
    } else if c == 'N' {
        Some(PitchType::NoPitch)
    } else if c == 'O' {
        Some(PitchType::FoulTipOnBunt)
    } else if c == 'P' {
        Some(PitchType::Pitchout)
    } else if c == 'Q' {
        Some(PitchType::SwingingOnPitchout)
    } else if c == 'R' {
        Some(PitchType::FoulBallOnPitchout)
    } else if c == 'S' {
        Some(PitchType::SwingingStrike)
    } else if c == 'T' {
        Some(PitchType::FoulTip)
    } else if c == 'U' {
        Some(PitchType::UnknownOrMissedPitch)
    } else if c == 'V' {
        Some(PitchType::CalledBall)
    } else if c == 'X' {
        Some(PitchType::BallInPlayByBatter)
    } else if c == 'Y' {
        Some(PitchType::BallInPlayOnPitchout)
    } else if c == '1' {
        Some(PitchType::PickoffThrowToFirstBase)
    } else if c == '2' {
        Some(PitchType::PickoffThrowToSecondBase)
    } else if c == '3' {
        Some(PitchType::PickoffThrowToThirdBase)
    } else if c == '.' {
        Some(PitchType::NotInvolvingBatter)
    } else {
        None
    }
}

pub open spec fn pitch_modifier_of_char(c: char) -> Option<PitchModifier> {
    if c == '+' {
        Some(PitchModifier::PickoffThrowByCatcher)
    } else if c == '*' {
        Some(PitchModifier::BlockedByCatcher)
    } else if c == '>' {
        Some(PitchModifier::RunnerGoingOnPitch)
    } else {
        None
    }
}

pub open spec fn play_note_of_char(c: char) -> Option<PlayNote> {
    if c == '#' {
        Some(PlayNote::UncertainHash)
    } else if c == '!' {
        Some(PlayNote::Exceptional)
    } else if c == '?' {
        Some(PlayNote::UncertainQuestion)
    } else if c == '+' {
        Some(PlayNote::HardHit)
    } else if c == '-' {
        Some(PlayNote::SoftHit)
    } else {
        None
    }
}

/// The pitch sequence written on `s[a..b)`: each pitch is an optional
/// modifier character followed by a pitch-type character.
pub open spec fn spec_pitch_seq(s: Seq<char>, a: int, b: int) -> Option<Seq<Pitch>>
    decreases b - a,
{
    if a >= b {
        if a == b {
            Some(Seq::empty())
        } else {
            None
        }
    } else if pitch_modifier_of_char(s[a]) is Some {
        if a + 1 < b && pitch_type_of_char(s[a + 1]) is Some {
            match spec_pitch_seq(s, a + 2, b) {
                Some(rest) => Some(
                    seq![
                        Pitch {
                            pitch_type: pitch_type_of_char(s[a + 1]).unwrap(),
                            pitch_modifier: pitch_modifier_of_char(s[a]),
                        },
                    ] + rest,
                ),
                None => None,
            }
        } else {
            None
        }
    } else if pitch_type_of_char(s[a]) is Some {
        match spec_pitch_seq(s, a + 1, b) {
            Some(rest) => Some(
                seq![
                    Pitch {
                        pitch_type: pitch_type_of_char(s[a]).unwrap(),
                        pitch_modifier: None,
                    },
                ] + rest,
            ),
            None => None,
        }
    } else {
        None
    }
}

pub open spec fn team_of_char(c: char) -> Option<Team> {
    if c == '0' {
        Some(Team::Visiting)
    } else if c == '1' {
        Some(Team::Home)
    } else {
        None
    }
}

/// A free-text field: non-empty and free of commas up to `b`.
pub open spec fn free_text(s: Seq<char>, a: int, b: int) -> bool {
    a < b && find_comma(s, a) >= b
}

pub open spec fn bool_of(s: Seq<char>, a: int, b: int) -> Option<bool> {
    if region_is(s, a, b, "true"@) {
        Some(true)
    } else if region_is(s, a, b, "false"@) {
        Some(false)
    } else {
        None
    }
}

/// An umpire field: the spelling `(none)` for an unnamed umpire, or a name.
pub open spec fn umpire_of(s: Seq<char>, a: int, b: int) -> Option<Option<Seq<char>>> {
    if region_is(s, a, b, "(none)"@) {
        Some(None)
    } else if free_text(s, a, b) {
        Some(Some(s.subrange(a, b)))
    } else {
        None
    }
}

/// An identifier record: `id,` followed by the identifier itself.
pub open spec fn spec_parse_id(s: Seq<char>) -> Option<LineV> {
    if lit_at(s, 0, "id,"@) && s.len() > 3 {
        Some(LineV::Id(s.subrange(3, s.len() as int)))
    } else {
        None
    }
}

/// A version record: `version,` followed by a number, kept modulo 256 as
/// the source notation does.
pub open spec fn spec_parse_version(s: Seq<char>) -> Option<LineV> {
    if lit_at(s, 0, "version,"@) {
        match spec_number(s, 8, s.len() as int) {
            Some(v) => Some(LineV::Version((v % 256) as u8)),
            None => None,
        }
    } else {
        None
    }
}

/// The fields after `start,` or `sub,`: player id, player name, team,
/// one-digit batting order, and a roster position.
pub open spec fn start_sub_body(s: Seq<char>, a: int, is_start: bool) -> Option<LineV> {
    let c1 = find_comma(s, a);
    if !(a < c1 < s.len()) {
        None
    } else {
        let c2 = find_comma(s, c1 + 1);
        if !(c1 + 1 < c2 && c2 < s.len()) {
            None
        } else if !(c2 + 2 < s.len() && team_of_char(s[c2 + 1]) is Some && s[c2 + 2] == ',') {
            None
        } else if !(c2 + 4 < s.len() && is_digit(s[c2 + 3]) && s[c2 + 4] == ',') {
            None
        } else {
            match position_of(s, c2 + 5, s.len() as int) {
                Some(p) => Some(LineV::StartSub {
                    is_start,
                    player_id: s.subrange(a, c1),
                    player_name: s.subrange(c1 + 1, c2),
                    team: team_of_char(s[c2 + 1]).unwrap(),
                    batting_order: digit_val(s[c2 + 3]) as u8,
                    position: p,
                }),
                None => None,
            }
        }
    }
}

pub open spec fn spec_parse_start_sub(s: Seq<char>) -> Option<LineV> {
    if lit_at(s, 0, "start,"@) {
        start_sub_body(s, 6, true)
    } else if lit_at(s, 0, "sub,"@) {
        start_sub_body(s, 4, false)
    } else {
        None
    }
}

/// A metadata record: `info,` then a key, a comma, and a value whose shape
/// the key decides.  An unknown key keeps both key and value verbatim.
pub open spec fn spec_parse_info(s: Seq<char>) -> Option<LineV> {
    if !lit_at(s, 0, "info,"@) {
        None
    } else {
        let c = find_comma(s, 5);
        if !(5 < c < s.len()) {
            None
        } else {
            let a = c + 1;
            let b = s.len() as int;
            if region_is(s, 5, c, "visteam"@) {
                if team_name_ok(s, a, b) {
                    Some(LineV::Info(InfoV::VisitingTeam(s.subrange(a, b))))
                } else {
                    None
                }
            } else if region_is(s, 5, c, "hometeam"@) {
                if team_name_ok(s, a, b) {
                    Some(LineV::Info(InfoV::HomeTeam(s.subrange(a, b))))
                } else {
                    None
                }
            } else if region_is(s, 5, c, "date"@) {
                if free_text(s, a, b) {
                    Some(LineV::Info(InfoV::Date(s.subrange(a, b))))
                } else {
                    None
                }
            } else if region_is(s, 5, c, "number"@) {
                match spec_number(s, a, b) {
                    Some(v) => Some(LineV::Info(InfoV::Number((v % 256) as u8))),
                    None => None,
                }
            } else if region_is(s, 5, c, "starttime"@) {
                if free_text(s, a, b) {
                    Some(LineV::Info(InfoV::StartTime(s.subrange(a, b))))
                } else {
                    None
                }
            } else if region_is(s, 5, c, "daynight"@) {
                match day_night_of(s, a, b) {
                    Some(v) => Some(LineV::Info(InfoV::DayNight(v))),
                    None => None,
                }
            } else if region_is(s, 5, c, "innings"@) {
                match spec_number(s, a, b) {
                    Some(v) => Some(LineV::Info(InfoV::Innings((v % 256) as u8))),
                    None => None,
                }
            } else if region_is(s, 5, c, "tiebreaker"@) {
                if b - a == 1 && (s[a] == '1' || s[a] == '2' || s[a] == '3') {
                    Some(LineV::Info(InfoV::Tiebreaker(digit_val(s[a]) as u8)))
                } else {
                    None
                }
            } else if region_is(s, 5, c, "usedh"@) {
                match bool_of(s, a, b) {
                    Some(v) => Some(LineV::Info(InfoV::UsedDesignatedHitterRule(v))),
                    None => None,
                }
            } else if region_is(s, 5, c, "pitches"@) {
                match pitches_info_of(s, a, b) {
                    Some(v) => Some(LineV::Info(InfoV::Pitches(v))),
                    None => None,
                }
            } else if region_is(s, 5, c, "oscorer"@) {
                if free_text(s, a, b) {
                    Some(LineV::Info(InfoV::OfficialScorer(s.subrange(a, b))))
                } else {
                    None
                }
            } else if region_is(s, 5, c, "htbf"@) {
                match bool_of(s, a, b) {
                    Some(v) => Some(LineV::Info(InfoV::HomeTeamBatFirst(v))),
                    None => None,
                }
            } else if region_is(s, 5, c, "umphome"@) {
                match umpire_of(s, a, b) {
                    Some(v) => Some(LineV::Info(InfoV::UmpireHome(v))),
                    None => None,
                }
            } else if region_is(s, 5, c, "ump1b"@) {
                match umpire_of(s, a, b) {
                    Some(v) => Some(LineV::Info(InfoV::Umpire1B(v))),
                    None => None,
                }
            } else if region_is(s, 5, c, "ump2b"@) {
                match umpire_of(s, a, b) {
                    Some(v) => Some(LineV::Info(InfoV::Umpire2B(v))),
                    None => None,
                }
            } else if region_is(s, 5, c, "ump3b"@) {
                match umpire_of(s, a, b) {
                    Some(v) => Some(LineV::Info(InfoV::Umpire3B(v))),
                    None => None,
                }
            } else if region_is(s, 5, c, "umplf"@) {
                match umpire_of(s, a, b) {
                    Some(v) => Some(LineV::Info(InfoV::UmpireLeftField(v))),
                    None => None,
                }
            } else if region_is(s, 5, c, "umprf"@) {
                match umpire_of(s, a, b) {
                    Some(v) => Some(LineV::Info(InfoV::UmpireRightField(v))),
                    None => None,
                }
            } else if region_is(s, 5, c, "fieldcond"@) {
                match field_condition_of(s, a, b) {
                    Some(v) => Some(LineV::Info(InfoV::FieldCondition(v))),
                    None => None,
                }
            } else if region_is(s, 5, c, "precip"@) {
                match precipitation_of(s, a, b) {
                    Some(v) => Some(LineV::Info(InfoV::Precipitation(v))),
                    None => None,
                }
            } else if region_is(s, 5, c, "sky"@) {
                match sky_of(s, a, b) {
                    Some(v) => Some(LineV::Info(InfoV::Sky(v))),
                    None => None,
                }
            } else if region_is(s, 5, c, "temp"@) {
                match spec_number(s, a, b) {
                    Some(v) => Some(
                        LineV::Info(
                            InfoV::Temperature(
                                if v == 0 {
                                    TemperatureInfo::Unknown
                                } else {
                                    TemperatureInfo::Known((v % 256) as u8)
                                },
                            ),
                        ),
                    ),
                    None => None,
                }
            } else if region_is(s, 5, c, "winddir"@) {
                match wind_direction_of(s, a, b) {
                    Some(v) => Some(LineV::Info(InfoV::WindDirection(v))),
                    None => None,
                }
            } else if region_is(s, 5, c, "windspeed"@) {
                if region_is(s, a, b, "-1"@) {
                    Some(LineV::Info(InfoV::WindSpeed(WindSpeedInfo::Unknown)))
                } else {
                    match spec_number(s, a, b) {
                        Some(v) => Some(
                            LineV::Info(InfoV::WindSpeed(WindSpeedInfo::Known((v % 256) as u8))),
                        ),
                        None => None,
                    }
                }
            } else if region_is(s, 5, c, "timeofgame"@) {
                match spec_number(s, a, b) {
                    Some(v) => Some(
                        LineV::Info(
                            InfoV::TimeOfGame(
                                if v == 0 {
                                    TimeOfGameInfo::Unknown
                                } else {
                                    TimeOfGameInfo::Known((v % 65536) as u16)
                                },
                            ),
                        ),
                    ),
                    None => None,
                }
            } else if region_is(s, 5, c, "attendance"@) {
                match spec_number(s, a, b) {
                    Some(v) => Some(
                        LineV::Info(
                            InfoV::Attendance(
                                if v == 0 {
                                    AttendanceInfo::Unknown
                                } else {
                                    AttendanceInfo::Known((v % 0x1_0000_0000) as u32)
                                },
                            ),
                        ),
                    ),
                    None => None,
                }
            } else if region_is(s, 5, c, "site"@) {
                if free_text(s, a, b) {
                    Some(LineV::Info(InfoV::Site(s.subrange(a, b))))
                } else {
                    None
                }
            } else if region_is(s, 5, c, "wp"@) {
                if free_text(s, a, b) {
                    Some(LineV::Info(InfoV::WP(s.subrange(a, b))))
                } else {
                    None
                }
            } else if region_is(s, 5, c, "lp"@) {
                if free_text(s, a, b) {
                    Some(LineV::Info(InfoV::LP(s.subrange(a, b))))
                } else {
                    None
                }
            } else if region_is(s, 5, c, "save"@) {
                if a == b {
                    Some(LineV::Info(InfoV::Save(None)))
                } else if free_text(s, a, b) {
                    Some(LineV::Info(InfoV::Save(Some(s.subrange(a, b)))))
                } else {
                    None
                }
            } else if region_is(s, 5, c, "gwrbi"@) {
                if a == b {
                    Some(LineV::Info(InfoV::GameWinningRBI(None)))
                } else if free_text(s, a, b) {
                    Some(LineV::Info(InfoV::GameWinningRBI(Some(s.subrange(a, b)))))
                } else {
                    None
                }
            } else if region_is(s, 5, c, "gametype"@) {
                match game_type_of(s, a, b) {
                    Some(v) => Some(LineV::Info(InfoV::GameType(v))),
                    None => None,
                }
            } else {
                if free_text(s, a, b) {
                    Some(LineV::Info(InfoV::Other(s.subrange(5, c), s.subrange(a, b))))
                } else {
                    None
                }
            }
        }
    }
}

/// The event text read with a trailing scorer's note after the event
/// grammar could not account for the final character itself: when that
/// character is a note mark, the event is parsed over the text without it
/// and must then consume all of the rest.
pub open spec fn spec_event_note_trimmed(s: Seq<char>, h: int) -> Option<
    (EventV, Option<PlayNote>),
> {
    if h < s.len() && play_note_of_char(s[s.len() - 1]) is Some {
        let t = s.subrange(0, s.len() - 1);
        match spec_parse_event_at(t, h) {
            Some((ev, j)) => {
                if j == t.len() {
                    Some((ev, play_note_of_char(s[s.len() - 1])))
                } else {
                    None
                }
            },
            None => None,
        }
    } else {
        None
    }
}

/// The event field together with its optional trailing note.  The event
/// grammar reads greedily; a note is whatever single mark it leaves, so a
/// note may also stand directly after a bare outcome, where the outcome
/// grammar alone could not end before it.
pub open spec fn spec_event_with_note(s: Seq<char>, h: int) -> Option<
    (EventV, Option<PlayNote>),
> {
    match spec_parse_event_at(s, h) {
        Some((ev, j)) => {
            if j == s.len() {
                Some((ev, None))
            } else if j + 1 == s.len() && play_note_of_char(s[j]) is Some {
                Some((ev, play_note_of_char(s[j])))
            } else {
                spec_event_note_trimmed(s, h)
            }
        },
        None => spec_event_note_trimmed(s, h),
    }
}

/// A play record: `play,` then inning, team, batter id, ball-strike count,
/// pitch sequence, and the event field with an optional trailing note.
pub open spec fn spec_parse_play(s: Seq<char>) -> Option<LineV> {
    if !lit_at(s, 0, "play,"@) {
        None
    } else {
        let c1 = find_comma(s, 5);
        if !(5 < c1 < s.len()) {
            None
        } else {
            match spec_number(s, 5, c1) {
                Some(v) => {
                    if v == 0 {
                        None
                    } else if !(c1 + 2 < s.len() && team_of_char(s[c1 + 1]) is Some && s[c1 + 2]
                        == ',') {
                        None
                    } else {
                        let d1 = c1 + 3;
                        let c2 = find_comma(s, d1);
                        if !(d1 < c2 && c2 < s.len()) {
                            None
                        } else {
                            let e = c2 + 1;
                            if !(e + 2 < s.len() && s[e + 2] == ',') {
                                None
                            } else {
                                let count: Option<Count> = if s[e] == '?' && s[e + 1] == '?' {
                                    Some(Count::Unknown)
                                } else if is_digit(s[e]) && digit_val(s[e]) <= 3 && is_digit(
                                    s[e + 1],
                                ) && digit_val(s[e + 1]) <= 2 {
                                    Some(
                                        Count::Known {
                                            balls: digit_val(s[e]) as u8,
                                            strikes: digit_val(s[e + 1]) as u8,
                                        },
                                    )
                                } else {
                                    None
                                };
                                match count {
                                    None => None,
                                    Some(count) => {
                                        let g = e + 3;
                                        let c3 = find_comma(s, g);
                                        if !(c3 < s.len()) {
                                            None
                                        } else {
                                            let pitches: Option<Option<Seq<Pitch>>> = if g == c3 {
                                                Some(None)
                                            } else {
                                                match spec_pitch_seq(s, g, c3) {
                                                    Some(ps) => Some(Some(ps)),
                                                    None => None,
                                                }
                                            };
                                            match pitches {
                                                None => None,
                                                Some(pitches) => {
                                                    match spec_event_with_note(s, c3 + 1) {
                                                        None => None,
                                                        Some((ev, note)) => Some(
                                                            LineV::Play {
                                                                inning: (v % 256) as u8,
                                                                team: team_of_char(
                                                                    s[c1 + 1],
                                                                ).unwrap(),
                                                                batter_id: s.subrange(d1, c2),
                                                                count,
                                                                pitches,
                                                                event: ev,
                                                                note,
                                                            },
                                                        ),
                                                    }
                                                },
                                            }
                                        }
                                    },
                                }
                            }
                        }
                    }
                },
                None => None,
            }
        }
    }
}

/// Exec mirror of [`find_comma`].
fn comma_after(s: &str, i: usize) -> (c: usize)
    requires
        i <= s@.len(),
    ensures
        c == find_comma(s@, i as int),
        i <= c <= s@.len(),
        c < s@.len() ==> s@[c as int] == ',',
        forall|k: int| i <= k < c ==> s@[k] != ',',
{
    let n = s.unicode_len();
    let mut j = i;
    loop
        invariant
            i <= j <= n == s@.len(),
            find_comma(s@, i as int) == find_comma(s@, j as int),
        decreases n - j,
    {
        proof {
            lemma_find_comma(s@, i as int);
        }
        if j >= n {
            return j;
        }
        if s.get_char(j) == ',' {
            return j;
        }
        j += 1;
    }
}

/// Exec mirror of [`region_is`].
fn region_match(s: &str, a: usize, b: usize, pat: &str) -> (r: bool)
    requires
        a <= b <= s@.len(),
    ensures
        r == region_is(s@, a as int, b as int, pat@),
{
    b - a == pat.unicode_len() && match_lit(s, a, pat)
}

/// Exec mirror of [`spec_number`]: reads a numeric field, rejecting values
/// beyond the machine word.
fn number_field(s: &str, a: usize, b: usize) -> (r: Option<u64>)
    requires
        a <= b <= s@.len(),
    ensures
        r == spec_number(s@, a as int, b as int),
{
    if a >= b {
        return None;
    }
    let mut acc: u64 = 0;
    let mut k = a;
    while k < b
        invariant
            a <= k <= b <= s@.len(),
            all_digits(s@, a as int, k as int),
            acc as int == digits_val(s@, a as int, k as int),
        decreases b - k,
    {
        let c = s.get_char(k);
        let u = c as u32;
        if !(('0' as u32) <= u && u <= ('9' as u32)) {
            assert(!all_digits(s@, a as int, b as int)) by {
                assert(!is_digit(s@[k as int]));
            }
            return None;
        }
        let d = (u - ('0' as u32)) as u64;
        let m = match acc.checked_mul(10) {
            Some(m) => m,
            None => {
                proof {
                    if all_digits(s@, a as int, b as int) {
                        lemma_digits_val_mono(s@, a as int, k + 1, b as int);
                    }
                }
                return None;
            },
        };
        let acc2 = match m.checked_add(d) {
            Some(acc2) => acc2,
            None => {
                proof {
                    if all_digits(s@, a as int, b as int) {
                        lemma_digits_val_mono(s@, a as int, k + 1, b as int);
                    }
                }
                return None;
            },
        };
        acc = acc2;
        k += 1;
    }
    Some(acc)
}

/// Exec mirror of [`free_text`].
fn free_text_check(s: &str, a: usize, b: usize) -> (r: bool)
    requires
        a <= s@.len(),
    ensures
        r == free_text(s@, a as int, b as int),
{
    if a >= s.unicode_len() {
        proof {
            lemma_find_comma(s@, a as int);
        }
        return false;
    }
    let c = comma_after(s, a);
    a < b && c >= b
}

/// Exec mirror of [`team_name_ok`].
fn team_name_check(s: &str, a: usize, b: usize) -> (r: bool)
    requires
        a <= b <= s@.len(),
    ensures
        r == team_name_ok(s@, a as int, b as int),
{
    if !(1 <= b - a && b - a <= 3) {
        return false;
    }
    let mut k = a;
    while k < b
        invariant
            a <= k <= b <= s@.len(),
            forall|j: int| a <= j < k ==> is_upper(#[trigger] s@[j]),
        decreases b - k,
    {
        let u = s.get_char(k) as u32;
        if !(('A' as u32) <= u && u <= ('Z' as u32)) {
            assert(!is_upper(s@[k as int]));
            return false;
        }
        k += 1;
    }
    true
}

/// Exec mirror of [`position_of`].
fn position_from(s: &str, a: usize, b: usize) -> (r: Option<Position>)
    requires
        a <= b <= s@.len(),
    ensures
        r == position_of(s@, a as int, b as int),
{
    if region_match(s, a, b, "1") {
        Some(Position::Pitcher)
    } else if region_match(s, a, b, "2") {
        Some(Position::Catcher)
    } else if region_match(s, a, b, "3") {
        Some(Position::FirstBase)
    } else if region_match(s, a, b, "4") {
        Some(Position::SecondBase)
    } else if region_match(s, a, b, "5") {
        Some(Position::ThirdBase)
    } else if region_match(s, a, b, "6") {
        Some(Position::Shortstop)
    } else if region_match(s, a, b, "7") {
        Some(Position::LeftField)
    } else if region_match(s, a, b, "8") {
        Some(Position::CenterField)
    } else if region_match(s, a, b, "9") {
        Some(Position::RightField)
    } else if region_match(s, a, b, "10") {
        Some(Position::DesignatedHitter)
    } else if region_match(s, a, b, "11") {
        Some(Position::PinchHitter)
    } else if region_match(s, a, b, "12") {
        Some(Position::PinchRunner)
    } else {
        None
    }
}

fn day_night_from(s: &str, a: usize, b: usize) -> (r: Option<DayNightInfo>)
    requires
        a <= b <= s@.len(),
    ensures
        r == day_night_of(s@, a as int, b as int),
{
    if region_match(s, a, b, "day") {
        Some(DayNightInfo::Day)
    } else if region_match(s, a, b, "night") {
        Some(DayNightInfo::Night)
    } else {
        None
    }
}

fn pitches_info_from(s: &str, a: usize, b: usize) -> (r: Option<PitchesInfo>)
    requires
        a <= b <= s@.len(),
    ensures
        r == pitches_info_of(s@, a as int, b as int),
{
    if region_match(s, a, b, "pitches") {
        Some(PitchesInfo::Pitches)
    } else if region_match(s, a, b, "count") {
        Some(PitchesInfo::Count)
    } else if region_match(s, a, b, "none") {
        Some(PitchesInfo::NotRecorded)
    } else {
        None
    }
}

fn field_condition_from(s: &str, a: usize, b: usize) -> (r: Option<FieldConditionInfo>)
    requires
        a <= b <= s@.len(),
    ensures
        r == field_condition_of(s@, a as int, b as int),
{
    if region_match(s, a, b, "dry") {
        Some(FieldConditionInfo::Dry)
    } else if region_match(s, a, b, "soaked") {
        Some(FieldConditionInfo::Soaked)
    } else if region_match(s, a, b, "wet") {
        Some(FieldConditionInfo::Wet)
    } else if region_match(s, a, b, "unknown") {
        Some(FieldConditionInfo::Unknown)
    } else {
        None
    }
}

fn precipitation_from(s: &str, a: usize, b: usize) -> (r: Option<PrecipitationInfo>)
    requires
        a <= b <= s@.len(),
    ensures
        r == precipitation_of(s@, a as int, b as int),
{
    if region_match(s, a, b, "drizzle") {
        Some(PrecipitationInfo::Drizzle)
    } else if region_match(s, a, b, "none") {
        Some(PrecipitationInfo::NoPrecipitation)
    } else if region_match(s, a, b, "rain") {
        Some(PrecipitationInfo::Rain)
    } else if region_match(s, a, b, "showers") {
        Some(PrecipitationInfo::Showers)
    } else if region_match(s, a, b, "snow") {
        Some(PrecipitationInfo::Snow)
    } else if region_match(s, a, b, "unknown") {
        Some(PrecipitationInfo::Unknown)
    } else {
        None
    }
}

fn sky_from(s: &str, a: usize, b: usize) -> (r: Option<SkyInfo>)
    requires
        a <= b <= s@.len(),
    ensures
        r == sky_of(s@, a as int, b as int),
{
    if region_match(s, a, b, "cloudy") {
        Some(SkyInfo::Cloudy)
    } else if region_match(s, a, b, "dome") {
        Some(SkyInfo::Dome)
    } else if region_match(s, a, b, "night") {
        Some(SkyInfo::Night)
    } else if region_match(s, a, b, "overcast") {
        Some(SkyInfo::Overcast)
    } else if region_match(s, a, b, "sunny") {
        Some(SkyInfo::Sunny)
    } else if region_match(s, a, b, "unknown") {
        Some(SkyInfo::Unknown)
    } else {
        None
    }
}

fn wind_direction_from(s: &str, a: usize, b: usize) -> (r: Option<WindDirectionInfo>)
    requires
        a <= b <= s@.len(),
    ensures
        r == wind_direction_of(s@, a as int, b as int),
{
    if region_match(s, a, b, "fromcf") {
        Some(WindDirectionInfo::FromCenterField)
    } else if region_match(s, a, b, "fromlf") {
        Some(WindDirectionInfo::FromLeftField)
    } else if region_match(s, a, b, "fromrf") {
        Some(WindDirectionInfo::FromRightField)
    } else if region_match(s, a, b, "ltor") {
        Some(WindDirectionInfo::LeftToRight)
    } else if region_match(s, a, b, "rtol") {
        Some(WindDirectionInfo::RightToLeft)
    } else if region_match(s, a, b, "tocf") {
        Some(WindDirectionInfo::ToCenterField)
    } else if region_match(s, a, b, "tolf") {
        Some(WindDirectionInfo::ToLeftField)
    } else if region_match(s, a, b, "torf") {
        Some(WindDirectionInfo::ToRightField)
    } else if region_match(s, a, b, "unknown") {
        Some(WindDirectionInfo::Unknown)
    } else {
        None
    }
}

fn game_type_from(s: &str, a: usize, b: usize) -> (r: Option<GameTypeInfo>)
    requires
        a <= b <= s@.len(),
    ensures
        r == game_type_of(s@, a as int, b as int),
{
    if region_match(s, a, b, "regular") {
        Some(GameTypeInfo::Regular)
    } else if region_match(s, a, b, "exhibition") {
        Some(GameTypeInfo::Exhibition)
    } else if region_match(s, a, b, "preseason") {
        Some(GameTypeInfo::Preseason)
    } else if region_match(s, a, b, "allstar") {
        Some(GameTypeInfo::AllStar)
    } else if region_match(s, a, b, "playoff") {
        Some(GameTypeInfo::Playoff)
    } else if region_match(s, a, b, "worldseries") {
        Some(GameTypeInfo::WorldSeries)
    } else if region_match(s, a, b, "lcs") {
        Some(GameTypeInfo::LeagueChampionshipSeries)
    } else if region_match(s, a, b, "divisionseries") {
        Some(GameTypeInfo::DivisionSeries)
    } else if region_match(s, a, b, "wildcard") {
        Some(GameTypeInfo::Wildcard)
    } else if region_match(s, a, b, "championship") {
        Some(GameTypeInfo::Championship)
    } else {
        None
    }
}

fn bool_from(s: &str, a: usize, b: usize) -> (r: Option<bool>)
    requires
        a <= b <= s@.len(),
    ensures
        r == bool_of(s@, a as int, b as int),
{
    if region_match(s, a, b, "true") {
        Some(true)
    } else if region_match(s, a, b, "false") {
        Some(false)
    } else {
        None
    }
}

/// Exec mirror of [`umpire_of`], extracting the name when one is present.
fn umpire_from(s: &str, a: usize, b: usize) -> (r: Option<Option<String>>)
    requires
        a <= b <= s@.len(),
    ensures
        match r {
            Some(o) => umpire_of(s@, a as int, b as int) == Some(opt_string_view(o)),
            None => umpire_of(s@, a as int, b as int) is None,
        },
{
    if region_match(s, a, b, "(none)") {
        Some(None)
    } else if free_text_check(s, a, b) {
        Some(Some(s.substring_char(a, b).to_owned()))
    } else {
        None
    }
}

fn pitch_type_from_char(c: char) -> (r: Option<PitchType>)
    ensures
        r == pitch_type_of_char(c),
{
    if c == 'A' {
        Some(PitchType::AutomaticStrike)
    } else if c == 'B' {
        Some(PitchType::Ball)
    } else if c == 'C' {
        Some(PitchType::CalledStrike)
    } else if c == 'F' {
        Some(PitchType::Foul)
    } else if c == 'H' {
        Some(PitchType::HitBatter)
    } else if c == 'I' {
        Some(PitchType::IntentionalBall)
    } else if c == 'K' {
        Some(PitchType::Strike)
    } else if c == 'L' {
        Some(PitchType::FoulBunt)
    } else if c == 'M' {
        Some(PitchType::MissedBuntAttempt)
    } else if c == 'N' {
        Some(PitchType::NoPitch)
    } else if c == 'O' {
        Some(PitchType::FoulTipOnBunt)
    } else if c == 'P' {
        Some(PitchType::Pitchout)
    } else if c == 'Q' {
        Some(PitchType::SwingingOnPitchout)
    } else if c == 'R' {
        Some(PitchType::FoulBallOnPitchout)
    } else if c == 'S' {
        Some(PitchType::SwingingStrike)
    } else if c == 'T' {
        Some(PitchType::FoulTip)
    } else if c == 'U' {
        Some(PitchType::UnknownOrMissedPitch)
    } else if c == 'V' {
        Some(PitchType::CalledBall)
    } else if c == 'X' {
        Some(PitchType::BallInPlayByBatter)
    } else if c == 'Y' {
        Some(PitchType::BallInPlayOnPitchout)
    } else if c == '1' {
        Some(PitchType::PickoffThrowToFirstBase)
    } else if c == '2' {
        Some(PitchType::PickoffThrowToSecondBase)
    } else if c == '3' {
        Some(PitchType::PickoffThrowToThirdBase)
    } else if c == '.' {
        Some(PitchType::NotInvolvingBatter)
    } else {
        None
    }
}

fn pitch_modifier_from_char(c: char) -> (r: Option<PitchModifier>)
    ensures
        r == pitch_modifier_of_char(c),
{
    if c == '+' {
        Some(PitchModifier::PickoffThrowByCatcher)
    } else if c == '*' {
        Some(PitchModifier::BlockedByCatcher)
    } else if c == '>' {
        Some(PitchModifier::RunnerGoingOnPitch)
    } else {
        None
    }
}

/// Exec mirror of [`spec_pitch_seq`].
fn pitch_seq_from(s: &str, a: usize, b: usize) -> (r: Option<Vec<Pitch>>)
    requires
        a <= b <= s@.len(),
    ensures
        match r {
            Some(v) => spec_pitch_seq(s@, a as int, b as int) == Some(v@),
            None => spec_pitch_seq(s@, a as int, b as int) is None,
        },
{
    let mut acc: Vec<Pitch> = Vec::new();
    let mut cur = a;
    proof {
        assert(acc@ =~= Seq::<Pitch>::empty());
    }
    loop
        invariant
            a <= cur <= b <= s@.len(),
            spec_pitch_seq(s@, a as int, b as int) == (match spec_pitch_seq(
                s@,
                cur as int,
                b as int,
            ) {
                Some(rest) => Some(acc@ + rest),
                None => None::<Seq<Pitch>>,
            }),
        decreases b - cur,
    {
        if cur == b {
            proof {
                assert(acc@ + Seq::<Pitch>::empty() =~= acc@);
            }
            return Some(acc);
        }
        let c = s.get_char(cur);
        let ghost old_acc = acc@;
        match pitch_modifier_from_char(c) {
            Some(m) => {
                if cur + 1 < b {
                    match pitch_type_from_char(s.get_char(cur + 1)) {
                        Some(t) => {
                            let p = Pitch { pitch_type: t, pitch_modifier: Some(m) };
                            acc.push(p);
                            proof {
                                let ro = spec_pitch_seq(s@, cur + 2, b as int);
                                if ro is Some {
                                    assert(old_acc + (seq![p] + ro.unwrap()) =~= acc@
                                        + ro.unwrap());
                                }
                            }
                            cur = cur + 2;
                        },
                        None => {
                            return None;
                        },
                    }
                } else {
                    return None;
                }
            },
            None => {
                match pitch_type_from_char(c) {
                    Some(t) => {
                        let p = Pitch { pitch_type: t, pitch_modifier: None };
                        acc.push(p);
                        proof {
                            let ro = spec_pitch_seq(s@, cur + 1, b as int);
                            if ro is Some {
                                assert(old_acc + (seq![p] + ro.unwrap()) =~= acc@ + ro.unwrap());
                            }
                        }
                        cur = cur + 1;
                    },
                    None => {
                        return None;
                    },
                }
            },
        }
    }
}

fn team_from_char(c: char) -> (r: Option<Team>)
    ensures
        r == team_of_char(c),
{
    if c == '0' {
        Some(Team::Visiting)
    } else if c == '1' {
        Some(Team::Home)
    } else {
        None
    }
}

fn play_note_from_char(c: char) -> (r: Option<PlayNote>)
    ensures
        r == play_note_of_char(c),
{
    if c == '#' {
        Some(PlayNote::UncertainHash)
    } else if c == '!' {
        Some(PlayNote::Exceptional)
    } else if c == '?' {
        Some(PlayNote::UncertainQuestion)
    } else if c == '+' {
        Some(PlayNote::HardHit)
    } else if c == '-' {
        Some(PlayNote::SoftHit)
    } else {
        None
    }
}

/// Exec mirror of [`spec_parse_id`].
fn parse_id_line(s: &str) -> (r: Option<Line>)
    ensures
        match r {
            Some(l) => spec_parse_id(s@) == Some(line_view(l)),
            None => spec_parse_id(s@) is None,
        },
{
    let n = s.unicode_len();
    if match_lit(s, 0, "id,") && n > 3 {
        proof {
            reveal_strlit("id,");
        }
        Some(Line::Id(s.substring_char(3, n).to_owned()))
    } else {
        None
    }
}

/// Exec mirror of [`spec_parse_version`].
fn parse_version_line(s: &str) -> (r: Option<Line>)
    ensures
        match r {
            Some(l) => spec_parse_version(s@) == Some(line_view(l)),
            None => spec_parse_version(s@) is None,
        },
{
    let n = s.unicode_len();
    if match_lit(s, 0, "version,") {
        proof {
            reveal_strlit("version,");
        }
        match number_field(s, 8, n) {
            Some(v) => Some(Line::Version((v % 256) as u8)),
            None => None,
        }
    } else {
        None
    }
}

/// Exec mirror of [`start_sub_body`].
fn parse_start_sub_body(s: &str, a: usize, is_start: bool) -> (r: Option<Line>)
    requires
        a <= s@.len(),
    ensures
        match r {
            Some(l) => start_sub_body(s@, a as int, is_start) == Some(line_view(l)),
            None => start_sub_body(s@, a as int, is_start) is None,
        },
{
    let n = s.unicode_len();
    let c1 = comma_after(s, a);
    if !(a < c1 && c1 < n) {
        return None;
    }
    let c2 = comma_after(s, c1 + 1);
    if !(c1 + 1 < c2 && c2 < n) {
        return None;
    }
    if !(n - c2 > 2) {
        return None;
    }
    let team = match team_from_char(s.get_char(c2 + 1)) {
        Some(t) => t,
        None => {
            return None;
        },
    };
    if s.get_char(c2 + 2) != ',' {
        return None;
    }
    if !(n - c2 > 4) {
        return None;
    }
    let oc = s.get_char(c2 + 3);
    if !crate::lex::digit_char(oc) {
        return None;
    }
    if s.get_char(c2 + 4) != ',' {
        return None;
    }
    let position = match position_from(s, c2 + 5, n) {
        Some(p) => p,
        None => {
            return None;
        },
    };
    Some(Line::StartSub {
        is_start,
        player_id: s.substring_char(a, c1).to_owned(),
        player_name: s.substring_char(c1 + 1, c2).to_owned(),
        team,
        batting_order: ((oc as u32) - ('0' as u32)) as u8,
        position,
    })
}

/// Exec mirror of [`spec_parse_start_sub`].
fn parse_start_sub_line(s: &str) -> (r: Option<Line>)
    ensures
        match r {
            Some(l) => spec_parse_start_sub(s@) == Some(line_view(l)),
            None => spec_parse_start_sub(s@) is None,
        },
{
    if match_lit(s, 0, "start,") {
        proof {
            reveal_strlit("start,");
        }
        parse_start_sub_body(s, 6, true)
    } else if match_lit(s, 0, "sub,") {
        proof {
            reveal_strlit("sub,");
        }
        parse_start_sub_body(s, 4, false)
    } else {
        None
    }
}

/// Exec mirror of [`spec_parse_info`].
#[verifier::rlimit(100)]
#[verifier::spinoff_prover]
fn parse_info_line(s: &str) -> (r: Option<Line>)
    ensures
        match r {
            Some(l) => spec_parse_info(s@) == Some(line_view(l)),
            None => spec_parse_info(s@) is None,
        },
{
    if !match_lit(s, 0, "info,") {
        return None;
    }
    proof {
        reveal_strlit("info,");
    }
    let n = s.unicode_len();
    let c = comma_after(s, 5);
    if !(5 < c && c < n) {
        return None;
    }
    let a = c + 1;
    let b = n;
    if region_match(s, 5, c, "visteam") {
        if team_name_check(s, a, b) {
            Some(Line::Info(Info::VisitingTeam(s.substring_char(a, b).to_owned())))
        } else {
            None
        }
    } else if region_match(s, 5, c, "hometeam") {
        if team_name_check(s, a, b) {
            Some(Line::Info(Info::HomeTeam(s.substring_char(a, b).to_owned())))
        } else {
            None
        }
    } else if region_match(s, 5, c, "date") {
        if free_text_check(s, a, b) {
            Some(Line::Info(Info::Date(s.substring_char(a, b).to_owned())))
        } else {
            None
        }
    } else if region_match(s, 5, c, "number") {
        match number_field(s, a, b) {
            Some(v) => Some(Line::Info(Info::Number((v % 256) as u8))),
            None => None,
        }
    } else if region_match(s, 5, c, "starttime") {
        if free_text_check(s, a, b) {
            Some(Line::Info(Info::StartTime(s.substring_char(a, b).to_owned())))
        } else {
            None
        }
    } else if region_match(s, 5, c, "daynight") {
        match day_night_from(s, a, b) {
            Some(v) => Some(Line::Info(Info::DayNight(v))),
            None => None,
        }
    } else if region_match(s, 5, c, "innings") {
        match number_field(s, a, b) {
            Some(v) => Some(Line::Info(Info::Innings((v % 256) as u8))),
            None => None,
        }
    } else if region_match(s, 5, c, "tiebreaker") {
        if b - a == 1 {
            let tc = s.get_char(a);
            if tc == '1' || tc == '2' || tc == '3' {
                Some(Line::Info(Info::Tiebreaker(((tc as u32) - ('0' as u32)) as u8)))
            } else {
                None
            }
        } else {
            None
        }
    } else if region_match(s, 5, c, "usedh") {
        match bool_from(s, a, b) {
            Some(v) => Some(Line::Info(Info::UsedDesignatedHitterRule(v))),
            None => None,
        }
    } else if region_match(s, 5, c, "pitches") {
        match pitches_info_from(s, a, b) {
            Some(v) => Some(Line::Info(Info::Pitches(v))),
            None => None,
        }
    } else if region_match(s, 5, c, "oscorer") {
        if free_text_check(s, a, b) {
            Some(Line::Info(Info::OfficialScorer(s.substring_char(a, b).to_owned())))
        } else {
            None
        }
    } else if region_match(s, 5, c, "htbf") {
        match bool_from(s, a, b) {
            Some(v) => Some(Line::Info(Info::HomeTeamBatFirst(v))),
            None => None,
        }
    } else if region_match(s, 5, c, "umphome") {
        match umpire_from(s, a, b) {
            Some(v) => Some(Line::Info(Info::UmpireHome(v))),
            None => None,
        }
    } else if region_match(s, 5, c, "ump1b") {
        match umpire_from(s, a, b) {
            Some(v) => Some(Line::Info(Info::Umpire1B(v))),
            None => None,
        }
    } else if region_match(s, 5, c, "ump2b") {
        match umpire_from(s, a, b) {
            Some(v) => Some(Line::Info(Info::Umpire2B(v))),
            None => None,
        }
    } else if region_match(s, 5, c, "ump3b") {
        match umpire_from(s, a, b) {
            Some(v) => Some(Line::Info(Info::Umpire3B(v))),
            None => None,
        }
    } else if region_match(s, 5, c, "umplf") {
        match umpire_from(s, a, b) {
            Some(v) => Some(Line::Info(Info::UmpireLeftField(v))),
            None => None,
        }
    } else if region_match(s, 5, c, "umprf") {
        match umpire_from(s, a, b) {
            Some(v) => Some(Line::Info(Info::UmpireRightField(v))),
            None => None,
        }
    } else if region_match(s, 5, c, "fieldcond") {
        match field_condition_from(s, a, b) {
            Some(v) => Some(Line::Info(Info::FieldCondition(v))),
            None => None,
        }
    } else if region_match(s, 5, c, "precip") {
        match precipitation_from(s, a, b) {
            Some(v) => Some(Line::Info(Info::Precipitation(v))),
            None => None,
        }
    } else if region_match(s, 5, c, "sky") {
        match sky_from(s, a, b) {
            Some(v) => Some(Line::Info(Info::Sky(v))),
            None => None,
        }
    } else if region_match(s, 5, c, "temp") {
        match number_field(s, a, b) {
            Some(v) => {
                if v == 0 {
                    Some(Line::Info(Info::Temperature(TemperatureInfo::Unknown)))
                } else {
                    Some(Line::Info(Info::Temperature(TemperatureInfo::Known((v % 256) as u8))))
                }
            },
            None => None,
        }
    } else if region_match(s, 5, c, "winddir") {
        match wind_direction_from(s, a, b) {
            Some(v) => Some(Line::Info(Info::WindDirection(v))),
            None => None,
        }
    } else if region_match(s, 5, c, "windspeed") {
        if region_match(s, a, b, "-1") {
            Some(Line::Info(Info::WindSpeed(WindSpeedInfo::Unknown)))
        } else {
            match number_field(s, a, b) {
                Some(v) => Some(Line::Info(Info::WindSpeed(WindSpeedInfo::Known((v % 256) as u8)))),
                None => None,
            }
        }
    } else if region_match(s, 5, c, "timeofgame") {
        match number_field(s, a, b) {
            Some(v) => {
                if v == 0 {
                    Some(Line::Info(Info::TimeOfGame(TimeOfGameInfo::Unknown)))
                } else {
                    Some(
                        Line::Info(Info::TimeOfGame(TimeOfGameInfo::Known((v % 65536) as u16))),
                    )
                }
            },
            None => None,
        }
    } else if region_match(s, 5, c, "attendance") {
        match number_field(s, a, b) {
            Some(v) => {
                if v == 0 {
                    Some(Line::Info(Info::Attendance(AttendanceInfo::Unknown)))
                } else {
                    Some(
                        Line::Info(
                            Info::Attendance(AttendanceInfo::Known((v % 0x1_0000_0000) as u32)),
                        ),
                    )
                }
            },
            None => None,
        }
    } else if region_match(s, 5, c, "site") {
        if free_text_check(s, a, b) {
            Some(Line::Info(Info::Site(s.substring_char(a, b).to_owned())))
        } else {
            None
        }
    } else if region_match(s, 5, c, "wp") {
        if free_text_check(s, a, b) {
            Some(Line::Info(Info::WP(s.substring_char(a, b).to_owned())))
        } else {
            None
        }
    } else if region_match(s, 5, c, "lp") {
        if free_text_check(s, a, b) {
            Some(Line::Info(Info::LP(s.substring_char(a, b).to_owned())))
        } else {
            None
        }
    } else if region_match(s, 5, c, "save") {
        if a == b {
            Some(Line::Info(Info::Save(None)))
        } else if free_text_check(s, a, b) {
            Some(Line::Info(Info::Save(Some(s.substring_char(a, b).to_owned()))))
        } else {
            None
        }
    } else if region_match(s, 5, c, "gwrbi") {
        if a == b {
            Some(Line::Info(Info::GameWinningRBI(None)))
        } else if free_text_check(s, a, b) {
            Some(Line::Info(Info::GameWinningRBI(Some(s.substring_char(a, b).to_owned()))))
        } else {
            None
        }
    } else if region_match(s, 5, c, "gametype") {
        match game_type_from(s, a, b) {
            Some(v) => Some(Line::Info(Info::GameType(v))),
            None => None,
        }
    } else {
        if free_text_check(s, a, b) {
            Some(
                Line::Info(
                    Info::Other(
                        s.substring_char(5, c).to_owned(),
                        s.substring_char(a, b).to_owned(),
                    ),
                ),
            )
        } else {
            None
        }
    }
}

/// Exec mirror of [`spec_event_note_trimmed`].
fn event_note_trimmed(s: &str, h: usize) -> (r: Option<(Event, Option<PlayNote>)>)
    requires
        h <= s@.len(),
    ensures
        match r {
            Some((ev, note)) => spec_event_note_trimmed(s@, h as int) == Some(
                (event_view(ev), note),
            ),
            None => spec_event_note_trimmed(s@, h as int) is None,
        },
{
    let n = s.unicode_len();
    if !(h < n) {
        return None;
    }
    let nt = match play_note_from_char(s.get_char(n - 1)) {
        Some(nt) => nt,
        None => {
            return None;
        },
    };
    let t = s.substring_char(0, n - 1);
    match crate::event::parse_event_at(t, h) {
        Ok((ev, j)) => {
            if j == n - 1 {
                Some((ev, Some(nt)))
            } else {
                None
            }
        },
        Err(_) => None,
    }
}

/// Exec mirror of [`spec_event_with_note`].
fn event_with_note(s: &str, h: usize) -> (r: Option<(Event, Option<PlayNote>)>)
    requires
        h <= s@.len(),
    ensures
        match r {
            Some((ev, note)) => spec_event_with_note(s@, h as int) == Some(
                (event_view(ev), note),
            ),
            None => spec_event_with_note(s@, h as int) is None,
        },
{
    let n = s.unicode_len();
    match crate::event::parse_event_at(s, h) {
        Ok((ev, j)) => {
            if j == n {
                return Some((ev, None));
            }
            if j + 1 == n {
                match play_note_from_char(s.get_char(j)) {
                    Some(nt) => {
                        return Some((ev, Some(nt)));
                    },
                    None => (),
                }
            }
            event_note_trimmed(s, h)
        },
        Err(_) => event_note_trimmed(s, h),
    }
}

/// Exec mirror of [`spec_parse_play`].
fn parse_play_line(s: &str) -> (r: Option<Line>)
    ensures
        match r {
            Some(l) => spec_parse_play(s@) == Some(line_view(l)),
            None => spec_parse_play(s@) is None,
        },
{
    if !match_lit(s, 0, "play,") {
        return None;
    }
    proof {
        reveal_strlit("play,");
    }
    let n = s.unicode_len();
    let c1 = comma_after(s, 5);
    if !(5 < c1 && c1 < n) {
        return None;
    }
    let v = match number_field(s, 5, c1) {
        Some(v) => v,
        None => {
            return None;
        },
    };
    if v == 0 {
        return None;
    }
    if !(n - c1 > 2) {
        return None;
    }
    let team = match team_from_char(s.get_char(c1 + 1)) {
        Some(t) => t,
        None => {
            return None;
        },
    };
    if s.get_char(c1 + 2) != ',' {
        return None;
    }
    let d1 = c1 + 3;
    let c2 = comma_after(s, d1);
    if !(d1 < c2 && c2 < n) {
        return None;
    }
    let e = c2 + 1;
    if !(n - e > 2) {
        return None;
    }
    if s.get_char(e + 2) != ',' {
        return None;
    }
    let b0 = s.get_char(e);
    let b1 = s.get_char(e + 1);
    let count: Count = if b0 == '?' && b1 == '?' {
        Count::Unknown
    } else {
        let u0 = b0 as u32;
        let u1 = b1 as u32;
        if ('0' as u32) <= u0 && u0 <= ('3' as u32) && ('0' as u32) <= u1 && u1 <= ('2' as u32) {
            Count::Known { balls: (u0 - ('0' as u32)) as u8, strikes: (u1 - ('0' as u32)) as u8 }
        } else {
            return None;
        }
    };
    let g = e + 3;
    let c3 = comma_after(s, g);
    if !(c3 < n) {
        return None;
    }
    let pitches: Option<Vec<Pitch>> = if g == c3 {
        None
    } else {
        match pitch_seq_from(s, g, c3) {
            Some(ps) => Some(ps),
            None => {
                return None;
            },
        }
    };
    let (event, note) = match event_with_note(s, c3 + 1) {
        Some(en) => en,
        None => {
            return None;
        },
    };
    Some(Line::Play {
        inning: (v % 256) as u8,
        team,
        batter_id: s.substring_char(d1, c2).to_owned(),
        count,
        pitches,
        event,
        note,
    })
}

impl Line {
    /// Decodes one line of a game account: an `id`, `version`, `start`,
    /// `sub`, `info` or `play` record.  Fails exactly when the line matches
    /// none of the five record grammars.
    pub fn parse(line: &str) -> (r: Result<Line, ParseError>)
        ensures
            r is Ok <==> spec_parse_line(line@) is Some,
            r matches Ok(l) ==> spec_parse_line(line@) == Some(line_view(l)),
    {
        if let Some(l) = parse_id_line(line) {
            return Ok(l);
        }
        if let Some(l) = parse_version_line(line) {
            return Ok(l);
        }
        if let Some(l) = parse_start_sub_line(line) {
            return Ok(l);
        }
        if let Some(l) = parse_info_line(line) {
            return Ok(l);
        }
        if let Some(l) = parse_play_line(line) {
            return Ok(l);
        }
        Err(ParseError { position: 0, kind: ParseErrorKind::UnknownVariant })
    }
}

/// One line of a game account: the first record form that matches.
pub open spec fn spec_parse_line(s: Seq<char>) -> Option<LineV> {
    if spec_parse_id(s) is Some {
        spec_parse_id(s)
    } else if spec_parse_version(s) is Some {
        spec_parse_version(s)
    } else if spec_parse_start_sub(s) is Some {
        spec_parse_start_sub(s)
    } else if spec_parse_info(s) is Some {
        spec_parse_info(s)
    } else if spec_parse_play(s) is Some {
        spec_parse_play(s)
    } else {
        None
    }
}

} // verus!
