//! The data model: defensive positions, bases, runners, field locations,
//! fielding sequences, event outcomes, modifiers and runner advances, plus
//! the per-game metadata records and the game builder.

use vstd::prelude::*;

verus! {

/// A defensive position reference: a known number 1-9 or an explicit
/// "unknown fielder" marker.
#[derive(Clone, Copy, Debug, PartialEq, Eq, Structural)]
pub enum Fielder {
    Known(u8),
    Unknown,
}

/// A base on the base paths.  The textual spellings `H` and `B` are synonyms
/// for `Home`.
#[derive(Clone, Copy, Debug, PartialEq, Eq, Structural)]
pub enum Base {
    First,
    Second,
    Third,
    Home,
}

/// A base occupant: the batter, or the runner on first, second or third.
#[derive(Clone, Copy, Debug, PartialEq, Eq, Structural)]
pub enum Runner {
    Batter,
    First,
    Second,
    Third,
}

/// The runner that an omitted out annotation is inferred to name, given the
/// fielder credited with the putout.
pub open spec fn spec_runner_from_fielder(f: Fielder) -> Option<Runner> {
    match f {
        Fielder::Known(n) => {
            if n == 3 {
                Some(Runner::Third)
            } else if n == 4 {
                Some(Runner::Second)
            } else if n == 5 {
                Some(Runner::First)
            } else {
                None
            }
        },
        Fielder::Unknown => None,
    }
}

impl Runner {
    /// Maps a fielder number to the runner who normally occupies the base
    /// that fielder covers; only 3, 4 and 5 have a mapping.
    pub fn from_fielder(fielder: &Fielder) -> (r: Option<Runner>)
        ensures
            r == spec_runner_from_fielder(*fielder),
    {
        if let Fielder::Known(n) = fielder {
            if *n == 3 {
                Some(Runner::Third)
            } else if *n == 4 {
                Some(Runner::Second)
            } else if *n == 5 {
                Some(Runner::First)
            } else {
                None
            }
        } else {
            None
        }
    }
}

/// A fine-grained zone of the field, parsed from a fixed catalogue of short
/// alphanumeric codes.
#[derive(Clone, Copy, Debug, PartialEq, Eq, Structural)]
pub enum FieldLocation {
    ExtremelyDeepCenterLeft,
    ExtremelyDeepCenter,
    ExtremelyDeepCenterRight,
    DeepLeftFoulFence,
    DeepLeftFoul,
    DeepLeft,
    DeepCenterLeft,
    DeepCenter,
    DeepCenterRight,
    DeepRight,
    DeepRightFoul,
    DeepRightFoulFence,
    LeftFoulFence,
    LeftFoul,
    Left,
    CenterLeft,
    Center,
    CenterRight,
    Right,
    RightFoul,
    RightFoulFence,
    ShortLeftFoulFence,
    ShortLeftFoul,
    ShortLeft,
    ShortCenterLeft,
    ShortCenter,
    ShortCenterRight,
    ShortRight,
    ShortRightFoul,
    ShortRightFoulFence,
    DeepThirdBaseFence,
    DeepThirdBase,
    DeepThirdShortstop,
    DeepShortstop,
    DeepMiddleShortstop,
    DeepMiddleSecondBase,
    DeepSecondBase,
    DeepSecondFirstBase,
    DeepFirstBase,
    DeepFirstBaseFence,
    ThirdBaseFence,
    ThirdShortstop,
    Shortstop,
    MiddleShortstop,
    MiddleSecondBase,
    SecondBase,
    SecondFirstBase,
    FirstBase,
    FirstBaseFence,
    ShortThirdBase,
    ShortThirdShortstop,
    ShortShortstop,
    ShortMiddleShortstop,
    ShortMiddleSecondBase,
    ShortSecondBase,
    ShortSecondFirstBase,
    ShortFirstBase,
    PitcherThird,
    Pitcher,
    PitcherFirst,
    CatcherThirdFence,
    CatcherThird,
    ShortPitcher,
    CatcherFirst,
    CatcherFirstFence,
    Catcher,
    CatcherFence,
}

/// How a fielding error came about: a throwing error (optionally naming the
/// base the throw missed) or any other error.
#[derive(Clone, Copy, Debug, PartialEq, Eq, Structural)]
pub enum FieldingErrorType {
    ThrowingError(Option<Base>),
    NonThrowingError,
}

/// One step of a fielding sequence: a clean touch, or an error that ends the
/// sequence.
#[derive(Clone, Copy, Debug, PartialEq, Eq, Structural)]
pub enum BallPathNode {
    Success { fielder: Fielder },
    Error { fielder: Fielder, error_type: FieldingErrorType },
}

/// The primary outcome of a play.  `Strikeout` and `Walk` may own a nested
/// base-running event joined to them by `+` in the text.
#[derive(Debug, PartialEq)]
pub enum EventType {
    Out {
        credited_fielder: Fielder,
        assisting_fielders: Vec<Fielder>,
        runner_out: Runner,
    },
    DoublePlay {
        credited_fielders: Vec<Fielder>,
        assisting_fielders: Vec<Fielder>,
        runners_out: Vec<Runner>,
    },
    TriplePlay {
        credited_fielders: Vec<Fielder>,
        assisting_fielders: Vec<Fielder>,
        runners_out: Vec<Runner>,
    },
    Interference,
    Single { credited_fielder: Fielder, assisting_fielders: Vec<Fielder> },
    Double { credited_fielder: Fielder, assisting_fielders: Vec<Fielder> },
    GroundRuleDouble,
    Triple { credited_fielder: Fielder, assisting_fielders: Vec<Fielder> },
    Error { credited_fielder: Fielder, assisting_fielders: Vec<Fielder> },
    FieldersChoice { credited_fielder: Fielder },
    ErrorOnFoulFlyBall { credited_fielder: Fielder },
    SoloHomeRun,
    InsideTheParkHomeRun { credited_fielder: Fielder },
    HitByPitch,
    Strikeout {
        ball_path: Vec<BallPathNode>,
        base_running_event: Option<Box<EventType>>,
    },
    NoPlay,
    Walk {
        intentional: bool,
        base_running_event: Option<Box<EventType>>,
    },
    Balk,
    CaughtStealing { base: Base, ball_path: Vec<BallPathNode> },
    DefensiveIndifference,
    OtherAdvance,
    PassedBall,
    WildPitch,
    Pickoff { caught_stealing: bool, base: Base, ball_path: Vec<BallPathNode> },
    StolenBase { bases: Vec<Base> },
}

/// A qualifier on an outcome: hit location, batted-ball type, special-play
/// flags and the like.
#[derive(Clone, Copy, Debug, PartialEq, Eq, Structural)]
pub enum EventModifier {
    AppealPlay,
    PopUpBunt,
    GroundBallBunt,
    BuntGroundedIntoDoublePlay,
    BatterInterference,
    LineDriveBunt,
    BattingOutOfTurn,
    BuntPoppedIntoDoublePlay,
    RunnerHitByBattedBall,
    CalledThirdStrike,
    CourtesyBatter,
    CourtesyFielder,
    CourtesyRunner,
    UnspecifiedDoublePlay,
    Error(Fielder),
    Fly,
    FlyBallDoublePlay,
    FanInterference,
    Foul,
    ForceOut,
    GroundBall,
    GroundBallDoublePlay,
    GroundBallTriplePlay,
    InfieldFlyRule,
    Interference,
    InsideTheParkHomeRun,
    LineDrive,
    LinedIntoDoublePlay,
    LinedIntoTriplePlay,
    ManagerChallengeOfCallOnTheField,
    NoDoublePlayCreditedForThisPlay,
    FielderObstructingRunner,
    PopFly,
    RunnerPassedAnotherRunnerAndWasCalledOut,
    RelayThrowFromFielderWithNoOut(Fielder),
    RunnerInterference,
    SacrificeFly,
    SacrificeHitOrBunt,
    Throw(Option<Base>),
    UnspecifiedTriplePlay,
    UmpireInterference,
    UmpireReviewOfCallOnTheField,
    HitLocation(FieldLocation),
}

/// A bracketed qualifier on one base advance.
#[derive(Debug, PartialEq)]
pub enum AdvanceParameter {
    BallPath(Vec<BallPathNode>),
    Unearned,
    TeamUnearned,
    RBICredited,
    RBINotCredited,
    Interference(FieldLocation),
    WildPitch,
    PassedBall,
}

/// A runner's movement between two bases; `out` marks that the runner was
/// put out attempting the advance.
#[derive(Debug, PartialEq)]
pub struct Advance {
    pub starting_base: Base,
    pub ending_base: Base,
    pub out: bool,
    pub parameters: Vec<AdvanceParameter>,
}

/// A fully decoded event field: the outcome, its qualifiers in source order,
/// and the runner advances in source order.
#[derive(Debug, PartialEq)]
pub struct Event {
    pub event_type: EventType,
    pub modifiers: Vec<EventModifier>,
    pub advances: Vec<Advance>,
}


/// The mathematical shape of an outcome: [`EventType`] with every vector
/// read as a sequence.  Contracts and grammar specifications speak of this
/// type; executable values are related to it by their view.
pub enum EventTypeV {
    Out {
        credited_fielder: Fielder,
        assisting_fielders: Seq<Fielder>,
        runner_out: Runner,
    },
    DoublePlay {
        credited_fielders: Seq<Fielder>,
        assisting_fielders: Seq<Fielder>,
        runners_out: Seq<Runner>,
    },
    TriplePlay {
        credited_fielders: Seq<Fielder>,
        assisting_fielders: Seq<Fielder>,
        runners_out: Seq<Runner>,
    },
    Interference,
    Single { credited_fielder: Fielder, assisting_fielders: Seq<Fielder> },
    Double { credited_fielder: Fielder, assisting_fielders: Seq<Fielder> },
    GroundRuleDouble,
    Triple { credited_fielder: Fielder, assisting_fielders: Seq<Fielder> },
    Error { credited_fielder: Fielder, assisting_fielders: Seq<Fielder> },
    FieldersChoice { credited_fielder: Fielder },
    ErrorOnFoulFlyBall { credited_fielder: Fielder },
    SoloHomeRun,
    InsideTheParkHomeRun { credited_fielder: Fielder },
    HitByPitch,
    Strikeout {
        ball_path: Seq<BallPathNode>,
        base_running_event: Option<Box<EventTypeV>>,
    },
    NoPlay,
    Walk {
        intentional: bool,
        base_running_event: Option<Box<EventTypeV>>,
    },
    Balk,
    CaughtStealing { base: Base, ball_path: Seq<BallPathNode> },
    DefensiveIndifference,
    OtherAdvance,
    PassedBall,
    WildPitch,
    Pickoff { caught_stealing: bool, base: Base, ball_path: Seq<BallPathNode> },
    StolenBase { bases: Seq<Base> },
}

/// The mathematical shape of an advance parameter.
pub enum AdvanceParameterV {
    BallPath(Seq<BallPathNode>),
    Unearned,
    TeamUnearned,
    RBICredited,
    RBINotCredited,
    Interference(FieldLocation),
    WildPitch,
    PassedBall,
}

/// The mathematical shape of an advance.
pub struct AdvanceV {
    pub starting_base: Base,
    pub ending_base: Base,
    pub out: bool,
    pub parameters: Seq<AdvanceParameterV>,
}

/// The mathematical shape of a decoded event field.
pub struct EventV {
    pub event_type: EventTypeV,
    pub modifiers: Seq<EventModifier>,
    pub advances: Seq<AdvanceV>,
}

pub open spec fn event_type_view(e: EventType) -> EventTypeV
    decreases e,
{
    match e {
        EventType::Out { credited_fielder, assisting_fielders, runner_out } => EventTypeV::Out {
            credited_fielder,
            assisting_fielders: assisting_fielders@,
            runner_out,
        },
        EventType::DoublePlay { credited_fielders, assisting_fielders, runners_out } => (
        EventTypeV::DoublePlay {
            credited_fielders: credited_fielders@,
            assisting_fielders: assisting_fielders@,
            runners_out: runners_out@,
        }),
        EventType::TriplePlay { credited_fielders, assisting_fielders, runners_out } => (
        EventTypeV::TriplePlay {
            credited_fielders: credited_fielders@,
            assisting_fielders: assisting_fielders@,
            runners_out: runners_out@,
        }),
        EventType::Interference => EventTypeV::Interference,
        EventType::Single { credited_fielder, assisting_fielders } => EventTypeV::Single {
            credited_fielder,
            assisting_fielders: assisting_fielders@,
        },
        EventType::Double { credited_fielder, assisting_fielders } => EventTypeV::Double {
            credited_fielder,
            assisting_fielders: assisting_fielders@,
        },
        EventType::GroundRuleDouble => EventTypeV::GroundRuleDouble,
        EventType::Triple { credited_fielder, assisting_fielders } => EventTypeV::Triple {
            credited_fielder,
            assisting_fielders: assisting_fielders@,
        },
        EventType::Error { credited_fielder, assisting_fielders } => EventTypeV::Error {
            credited_fielder,
            assisting_fielders: assisting_fielders@,
        },
        EventType::FieldersChoice { credited_fielder } => EventTypeV::FieldersChoice {
            credited_fielder,
        },
        EventType::ErrorOnFoulFlyBall { credited_fielder } => EventTypeV::ErrorOnFoulFlyBall {
            credited_fielder,
        },
        EventType::SoloHomeRun => EventTypeV::SoloHomeRun,
        EventType::InsideTheParkHomeRun { credited_fielder } => (
        EventTypeV::InsideTheParkHomeRun { credited_fielder }),
        EventType::HitByPitch => EventTypeV::HitByPitch,
        EventType::Strikeout { ball_path, base_running_event } => EventTypeV::Strikeout {
            ball_path: ball_path@,
            base_running_event: match base_running_event {
                Some(sub) => Some(Box::new(event_type_view(*sub))),
                None => None,
            },
        },
        EventType::NoPlay => EventTypeV::NoPlay,
        EventType::Walk { intentional, base_running_event } => EventTypeV::Walk {
            intentional,
            base_running_event: match base_running_event {
                Some(sub) => Some(Box::new(event_type_view(*sub))),
                None => None,
            },
        },
        EventType::Balk => EventTypeV::Balk,
        EventType::CaughtStealing { base, ball_path } => EventTypeV::CaughtStealing {
            base,
            ball_path: ball_path@,
        },
        EventType::DefensiveIndifference => EventTypeV::DefensiveIndifference,
        EventType::OtherAdvance => EventTypeV::OtherAdvance,
        EventType::PassedBall => EventTypeV::PassedBall,
        EventType::WildPitch => EventTypeV::WildPitch,
        EventType::Pickoff { caught_stealing, base, ball_path } => EventTypeV::Pickoff {
            caught_stealing,
            base,
            ball_path: ball_path@,
        },
        EventType::StolenBase { bases } => EventTypeV::StolenBase { bases: bases@ },
    }
}

pub open spec fn advance_parameter_view(p: AdvanceParameter) -> AdvanceParameterV {
    match p {
        AdvanceParameter::BallPath(path) => AdvanceParameterV::BallPath(path@),
        AdvanceParameter::Unearned => AdvanceParameterV::Unearned,
        AdvanceParameter::TeamUnearned => AdvanceParameterV::TeamUnearned,
        AdvanceParameter::RBICredited => AdvanceParameterV::RBICredited,
        AdvanceParameter::RBINotCredited => AdvanceParameterV::RBINotCredited,
        AdvanceParameter::Interference(l) => AdvanceParameterV::Interference(l),
        AdvanceParameter::WildPitch => AdvanceParameterV::WildPitch,
        AdvanceParameter::PassedBall => AdvanceParameterV::PassedBall,
    }
}

/// The views of a parameter list, element by element.
pub open spec fn advance_parameters_view(ps: Seq<AdvanceParameter>) -> Seq<AdvanceParameterV> {
    ps.map_values(|p: AdvanceParameter| advance_parameter_view(p))
}

pub open spec fn advance_view(a: Advance) -> AdvanceV {
    AdvanceV {
        starting_base: a.starting_base,
        ending_base: a.ending_base,
        out: a.out,
        parameters: advance_parameters_view(a.parameters@),
    }
}

/// The views of an advance list, element by element.
pub open spec fn advances_view(advs: Seq<Advance>) -> Seq<AdvanceV> {
    advs.map_values(|a: Advance| advance_view(a))
}

pub open spec fn event_view(e: Event) -> EventV {
    EventV {
        event_type: event_type_view(e.event_type),
        modifiers: e.modifiers@,
        advances: advances_view(e.advances@),
    }
}

impl View for EventType {
    type V = EventTypeV;

    open spec fn view(&self) -> EventTypeV {
        event_type_view(*self)
    }
}

impl View for AdvanceParameter {
    type V = AdvanceParameterV;

    open spec fn view(&self) -> AdvanceParameterV {
        advance_parameter_view(*self)
    }
}

impl View for Advance {
    type V = AdvanceV;

    open spec fn view(&self) -> AdvanceV {
        advance_view(*self)
    }
}

impl View for Event {
    type V = EventV;

    open spec fn view(&self) -> EventV {
        event_view(*self)
    }
}

/// The position of a base in base order, batter's box to home plate.
pub open spec fn base_index(b: Base) -> int {
    match b {
        Base::First => 1,
        Base::Second => 2,
        Base::Third => 3,
        Base::Home => 4,
    }
}

/// A fielder number, when known, lies in 1..=9.
pub open spec fn fielder_wf(f: Fielder) -> bool {
    match f {
        Fielder::Known(n) => 1 <= n <= 9,
        Fielder::Unknown => true,
    }
}

pub open spec fn fielders_wf(fs: Seq<Fielder>) -> bool {
    forall|i: int| 0 <= i < fs.len() ==> fielder_wf(#[trigger] fs[i])
}

pub open spec fn ball_path_node_wf(n: BallPathNode) -> bool {
    match n {
        BallPathNode::Success { fielder } => fielder_wf(fielder),
        BallPathNode::Error { fielder, error_type } => fielder_wf(fielder),
    }
}

/// A fielding sequence is a chain of clean touches with at most one error,
/// which can only stand last.
pub open spec fn ball_path_wf(p: Seq<BallPathNode>) -> bool {
    &&& forall|i: int| 0 <= i < p.len() ==> ball_path_node_wf(#[trigger] p[i])
    &&& forall|i: int| 0 <= i < p.len() - 1 ==> (#[trigger] p[i]) is Success
}

/// The bases of one stolen-base record are strictly increasing in base order.
pub open spec fn bases_increasing(bs: Seq<Base>) -> bool {
    forall|i: int, j: int|
        0 <= i && j == i + 1 && j < bs.len() ==> base_index(#[trigger] bs[i]) < base_index(
            #[trigger] bs[j],
        )
}

/// The outcome kinds that may follow a strikeout or walk as a `+`-joined
/// base-running event.
pub open spec fn sub_event_allowed(e: EventTypeV) -> bool {
    match e {
        EventTypeV::StolenBase { .. } => true,
        EventTypeV::CaughtStealing { .. } => true,
        EventTypeV::OtherAdvance => true,
        EventTypeV::Pickoff { caught_stealing, .. } => !caught_stealing,
        EventTypeV::PassedBall => true,
        EventTypeV::WildPitch => true,
        EventTypeV::Error { .. } => true,
        _ => false,
    }
}

/// Structural invariants of an outcome: fielder numbers in range, the
/// runner-out and credited-fielder lists of a double/triple play of length
/// two/three, stolen bases non-empty and strictly increasing, strikeout
/// fielding sequences made of clean touches, and nested base-running events
/// drawn from the allowed subset.
pub open spec fn event_type_wf(e: EventTypeV) -> bool
    decreases e,
{
    match e {
        EventTypeV::Out { credited_fielder, assisting_fielders, runner_out } => {
            fielder_wf(credited_fielder) && fielders_wf(assisting_fielders)
        },
        EventTypeV::DoublePlay { credited_fielders, assisting_fielders, runners_out } => {
            &&& credited_fielders.len() == 2
            &&& runners_out.len() == 2
            &&& fielders_wf(credited_fielders)
            &&& fielders_wf(assisting_fielders)
        },
        EventTypeV::TriplePlay { credited_fielders, assisting_fielders, runners_out } => {
            &&& credited_fielders.len() == 3
            &&& runners_out.len() == 3
            &&& fielders_wf(credited_fielders)
            &&& fielders_wf(assisting_fielders)
        },
        EventTypeV::Single { credited_fielder, assisting_fielders } => {
            fielder_wf(credited_fielder) && fielders_wf(assisting_fielders)
        },
        EventTypeV::Double { credited_fielder, assisting_fielders } => {
            fielder_wf(credited_fielder) && fielders_wf(assisting_fielders)
        },
        EventTypeV::Triple { credited_fielder, assisting_fielders } => {
            fielder_wf(credited_fielder) && fielders_wf(assisting_fielders)
        },
        EventTypeV::Error { credited_fielder, assisting_fielders } => {
            fielder_wf(credited_fielder) && fielders_wf(assisting_fielders)
        },
        EventTypeV::FieldersChoice { credited_fielder } => fielder_wf(credited_fielder),
        EventTypeV::ErrorOnFoulFlyBall { credited_fielder } => fielder_wf(credited_fielder),
        EventTypeV::InsideTheParkHomeRun { credited_fielder } => fielder_wf(credited_fielder),
        EventTypeV::Strikeout { ball_path, base_running_event } => {
            &&& ball_path_wf(ball_path)
            &&& forall|i: int| 0 <= i < ball_path.len() ==> (#[trigger] ball_path[i]) is Success
            &&& match base_running_event {
                Some(sub) => sub_event_allowed(*sub) && event_type_wf(*sub),
                None => true,
            }
        },
        EventTypeV::Walk { intentional, base_running_event } => {
            match base_running_event {
                Some(sub) => sub_event_allowed(*sub) && event_type_wf(*sub),
                None => true,
            }
        },
        EventTypeV::CaughtStealing { base, ball_path } => ball_path_wf(ball_path),
        EventTypeV::Pickoff { caught_stealing, base, ball_path } => ball_path_wf(ball_path),
        EventTypeV::StolenBase { bases } => bases.len() >= 1 && bases_increasing(bases),
        _ => true,
    }
}

/// The field locations whose textual code is a single digit; only these may
/// stand in a fielding-interference advance parameter.
pub open spec fn location_is_single_digit(l: FieldLocation) -> bool {
    match l {
        FieldLocation::Pitcher => true,
        FieldLocation::Catcher => true,
        FieldLocation::FirstBase => true,
        FieldLocation::SecondBase => true,
        FieldLocation::Shortstop => true,
        FieldLocation::Left => true,
        FieldLocation::Center => true,
        FieldLocation::Right => true,
        _ => false,
    }
}

pub open spec fn modifier_wf(m: EventModifier) -> bool {
    match m {
        EventModifier::Error(f) => fielder_wf(f),
        EventModifier::RelayThrowFromFielderWithNoOut(f) => fielder_wf(f),
        _ => true,
    }
}

pub open spec fn advance_parameter_wf(p: AdvanceParameterV) -> bool {
    match p {
        AdvanceParameterV::BallPath(path) => ball_path_wf(path),
        AdvanceParameterV::Interference(l) => location_is_single_digit(l),
        _ => true,
    }
}

pub open spec fn advance_wf(a: AdvanceV) -> bool {
    forall|i: int| 0 <= i < a.parameters.len() ==> advance_parameter_wf(#[trigger] a.parameters[i])
}

/// How the pitch record of a game account is to be read.
#[derive(Clone, Copy, Debug, PartialEq, Eq, Structural)]
pub enum PitchesInfo {
    Pitches,
    Count,
    NotRecorded,
}

#[derive(Clone, Copy, Debug, PartialEq, Eq, Structural)]
pub enum DayNightInfo {
    Day,
    Night,
}

#[derive(Clone, Copy, Debug, PartialEq, Eq, Structural)]
pub enum FieldConditionInfo {
    Dry,
    Soaked,
    Wet,
    Unknown,
}

#[derive(Clone, Copy, Debug, PartialEq, Eq, Structural)]
pub enum PrecipitationInfo {
    Drizzle,
    NoPrecipitation,
    Rain,
    Showers,
    Snow,
    Unknown,
}

#[derive(Clone, Copy, Debug, PartialEq, Eq, Structural)]
pub enum SkyInfo {
    Cloudy,
    Dome,
    Night,
    Overcast,
    Sunny,
    Unknown,
}

#[derive(Clone, Copy, Debug, PartialEq, Eq, Structural)]
pub enum TemperatureInfo {
    Known(u8),
    Unknown,
}

#[derive(Clone, Copy, Debug, PartialEq, Eq, Structural)]
pub enum WindDirectionInfo {
    FromCenterField,
    FromLeftField,
    FromRightField,
    LeftToRight,
    RightToLeft,
    ToCenterField,
    ToLeftField,
    ToRightField,
    Unknown,
}

#[derive(Clone, Copy, Debug, PartialEq, Eq, Structural)]
pub enum WindSpeedInfo {
    Known(u8),
    Unknown,
}

#[derive(Clone, Copy, Debug, PartialEq, Eq, Structural)]
pub enum TimeOfGameInfo {
    Known(u16),
    Unknown,
}

#[derive(Clone, Copy, Debug, PartialEq, Eq, Structural)]
pub enum AttendanceInfo {
    Known(u32),
    Unknown,
}

#[derive(Clone, Copy, Debug, PartialEq, Eq, Structural)]
pub enum GameTypeInfo {
    Regular,
    Exhibition,
    Preseason,
    AllStar,
    Playoff,
    WorldSeries,
    LeagueChampionshipSeries,
    DivisionSeries,
    Wildcard,
    Championship,
}

/// The metadata of one game account, accumulated key by key.
#[derive(Clone, Debug, PartialEq)]
pub struct InfoState {
    pub visiting_team: Option<String>,
    pub home_team: Option<String>,
    pub date: Option<String>,
    pub number: Option<u8>,
    pub start_time: Option<String>,
    pub day_night: Option<DayNightInfo>,
    pub innings: Option<u8>,
    pub tiebreaker: Option<u8>,
    pub used_designated_hitter_rule: Option<bool>,
    pub pitches: Option<PitchesInfo>,
    pub official_scorer: Option<String>,
    pub home_team_bat_first: Option<bool>,
    pub umpire_home: Option<String>,
    pub umpire_1b: Option<String>,
    pub umpire_2b: Option<String>,
    pub umpire_3b: Option<String>,
    pub umpire_left_field: Option<String>,
    pub umpire_right_field: Option<String>,
    pub field_condition: Option<FieldConditionInfo>,
    pub precipitation: Option<PrecipitationInfo>,
    pub sky: Option<SkyInfo>,
    pub temperature: Option<TemperatureInfo>,
    pub wind_direction: Option<WindDirectionInfo>,
    pub wind_speed: Option<WindSpeedInfo>,
    pub time_of_game: Option<TimeOfGameInfo>,
    pub attendance: Option<AttendanceInfo>,
    pub site: Option<String>,
    pub wp: Option<String>,
    pub lp: Option<String>,
    pub save: Option<String>,
    pub game_winning_rbi: Option<String>,
    pub game_type: Option<GameTypeInfo>,
}

/// The metadata defaults that hold before any `info` record is read.
pub open spec fn info_state_default(s: InfoState) -> bool {
    &&& s.visiting_team is None
    &&& s.home_team is None
    &&& s.date is None
    &&& s.number == Some(0u8)
    &&& s.start_time is None
    &&& s.day_night is None
    &&& s.innings == Some(9u8)
    &&& s.tiebreaker == Some(0u8)
    &&& s.used_designated_hitter_rule is None
    &&& s.pitches is None
    &&& s.official_scorer is None
    &&& s.home_team_bat_first == Some(false)
    &&& s.umpire_home is None
    &&& s.umpire_1b is None
    &&& s.umpire_2b is None
    &&& s.umpire_3b is None
    &&& s.umpire_left_field is None
    &&& s.umpire_right_field is None
    &&& s.field_condition is None
    &&& s.precipitation is None
    &&& s.sky is None
    &&& s.temperature is None
    &&& s.wind_direction is None
    &&& s.wind_speed is None
    &&& s.time_of_game is None
    &&& s.attendance is None
    &&& s.site is None
    &&& s.wp is None
    &&& s.lp is None
    &&& s.save is None
    &&& s.game_winning_rbi is None
    &&& s.game_type == Some(GameTypeInfo::Regular)
}

impl Default for InfoState {
    /// The state before any metadata record has been read: a handful of keys
    /// carry conventional defaults, everything else is unset.
    fn default() -> (s: Self)
        ensures
            info_state_default(s),
    {
        InfoState {
            visiting_team: None,
            home_team: None,
            date: None,
            number: Some(0),
            start_time: None,
            day_night: None,
            innings: Some(9),
            tiebreaker: Some(0),
            used_designated_hitter_rule: None,
            pitches: None,
            official_scorer: None,
            home_team_bat_first: Some(false),
            umpire_home: None,
            umpire_1b: None,
            umpire_2b: None,
            umpire_3b: None,
            umpire_left_field: None,
            umpire_right_field: None,
            field_condition: None,
            precipitation: None,
            sky: None,
            temperature: None,
            wind_direction: None,
            wind_speed: None,
            time_of_game: None,
            attendance: None,
            site: None,
            wp: None,
            lp: None,
            save: None,
            game_winning_rbi: None,
            game_type: Some(GameTypeInfo::Regular),
        }
    }
}

/// A batting or throwing hand.
#[derive(Clone, Copy, Debug, PartialEq, Eq, Structural)]
pub enum Hand {
    Left,
    Right,
    Both,
}

/// A roster position, written as the numbers 1-12 in the text.
#[derive(Clone, Copy, Debug, PartialEq, Eq, Structural)]
pub enum Position {
    Pitcher,
    Catcher,
    FirstBase,
    SecondBase,
    ThirdBase,
    Shortstop,
    LeftField,
    CenterField,
    RightField,
    DesignatedHitter,
    PinchHitter,
    PinchRunner,
}

/// One roster entry.  The position list preserves first-appearance order and
/// never repeats a position.
#[derive(Clone, Debug, PartialEq)]
pub struct Player {
    pub id: String,
    pub name: String,
    pub team: String,
    pub positions: Vec<Position>,
    pub batting_order: u8,
}

/// The ball-strike count when the play happened.
#[derive(Clone, Copy, Debug, PartialEq, Eq, Structural)]
pub enum Count {
    Known { balls: u8, strikes: u8 },
    Unknown,
}

/// One pitch of a pitch sequence.
#[derive(Clone, Copy, Debug, PartialEq, Eq, Structural)]
pub enum PitchType {
    AutomaticStrike,
    Ball,
    CalledStrike,
    Foul,
    HitBatter,
    IntentionalBall,
    Strike,
    FoulBunt,
    MissedBuntAttempt,
    NoPitch,
    FoulTipOnBunt,
    Pitchout,
    SwingingOnPitchout,
    FoulBallOnPitchout,
    SwingingStrike,
    FoulTip,
    UnknownOrMissedPitch,
    CalledBall,
    BallInPlayByBatter,
    BallInPlayOnPitchout,
    PickoffThrowToFirstBase,
    PickoffThrowToSecondBase,
    PickoffThrowToThirdBase,
    NotInvolvingBatter,
}

#[derive(Clone, Copy, Debug, PartialEq, Eq, Structural)]
pub enum PitchModifier {
    PickoffThrowByCatcher,
    BlockedByCatcher,
    RunnerGoingOnPitch,
}

#[derive(Clone, Copy, Debug, PartialEq, Eq, Structural)]
pub struct Pitch {
    pub pitch_type: PitchType,
    pub pitch_modifier: Option<PitchModifier>,
}

/// A scorer's annotation trailing a play record.
#[derive(Clone, Copy, Debug, PartialEq, Eq, Structural)]
pub enum PlayNote {
    UncertainHash,
    Exceptional,
    UncertainQuestion,
    HardHit,
    SoftHit,
}

/// One plate appearance or base-running play, joined with the game context
/// that was current when it was recorded.
#[derive(Debug, PartialEq)]
pub struct Play {
    pub info_state: InfoState,
    pub home_team_players: Vec<Player>,
    pub visiting_team_players: Vec<Player>,
    pub inning: u8,
    pub batter_id: String,
    pub count: Option<Count>,
    pub pitches: Option<Vec<Pitch>>,
    pub event: Option<Event>,
    pub note: Option<PlayNote>,
    pub comments: Vec<String>,
}

/// A fully assembled game account.
#[derive(Debug)]
pub struct Game {
    pub id: String,
    pub version: u8,
    pub plays: Vec<Play>,
}

/// Copies a vector of plain values.
pub fn copy_vec<T: Copy>(v: &Vec<T>) -> (r: Vec<T>)
    ensures
        r@ == v@,
{
    let mut r: Vec<T> = Vec::new();
    let mut k: usize = 0;
    while k < v.len()
        invariant
            0 <= k <= v@.len(),
            r@ == v@.take(k as int),
        decreases v@.len() - k,
    {
        r.push(v[k]);
        k += 1;
        proof {
            assert(r@ =~= v@.take(k as int));
        }
    }
    proof {
        assert(v@.take(v@.len() as int) =~= v@);
    }
    r
}

impl Clone for EventType {
    /// A copy that reads as the same outcome.
    fn clone(&self) -> (res: Self)
        ensures
            event_type_view(res) == event_type_view(*self),
        decreases *self,
    {
        match self {
            EventType::Out { credited_fielder, assisting_fielders, runner_out } => EventType::Out {
                credited_fielder: *credited_fielder,
                assisting_fielders: copy_vec(assisting_fielders),
                runner_out: *runner_out,
            },
            EventType::DoublePlay { credited_fielders, assisting_fielders, runners_out } => (
            EventType::DoublePlay {
                credited_fielders: copy_vec(credited_fielders),
                assisting_fielders: copy_vec(assisting_fielders),
                runners_out: copy_vec(runners_out),
            }),
            EventType::TriplePlay { credited_fielders, assisting_fielders, runners_out } => (
            EventType::TriplePlay {
                credited_fielders: copy_vec(credited_fielders),
                assisting_fielders: copy_vec(assisting_fielders),
                runners_out: copy_vec(runners_out),
            }),
            EventType::Interference => EventType::Interference,
            EventType::Single { credited_fielder, assisting_fielders } => EventType::Single {
                credited_fielder: *credited_fielder,
                assisting_fielders: copy_vec(assisting_fielders),
            },
            EventType::Double { credited_fielder, assisting_fielders } => EventType::Double {
                credited_fielder: *credited_fielder,
                assisting_fielders: copy_vec(assisting_fielders),
            },
            EventType::GroundRuleDouble => EventType::GroundRuleDouble,
            EventType::Triple { credited_fielder, assisting_fielders } => EventType::Triple {
                credited_fielder: *credited_fielder,
                assisting_fielders: copy_vec(assisting_fielders),
            },
            EventType::Error { credited_fielder, assisting_fielders } => EventType::Error {
                credited_fielder: *credited_fielder,
                assisting_fielders: copy_vec(assisting_fielders),
            },
            EventType::FieldersChoice { credited_fielder } => EventType::FieldersChoice {
                credited_fielder: *credited_fielder,
            },
            EventType::ErrorOnFoulFlyBall { credited_fielder } => EventType::ErrorOnFoulFlyBall {
                credited_fielder: *credited_fielder,
            },
            EventType::SoloHomeRun => EventType::SoloHomeRun,
            EventType::InsideTheParkHomeRun { credited_fielder } => (
            EventType::InsideTheParkHomeRun { credited_fielder: *credited_fielder }),
            EventType::HitByPitch => EventType::HitByPitch,
            EventType::Strikeout { ball_path, base_running_event } => EventType::Strikeout {
                ball_path: copy_vec(ball_path),
                base_running_event: match base_running_event {
                    Some(sub) => Some(Box::new((**sub).clone())),
                    None => None,
                },
            },
            EventType::NoPlay => EventType::NoPlay,
            EventType::Walk { intentional, base_running_event } => EventType::Walk {
                intentional: *intentional,
                base_running_event: match base_running_event {
                    Some(sub) => Some(Box::new((**sub).clone())),
                    None => None,
                },
            },
            EventType::Balk => EventType::Balk,
            EventType::CaughtStealing { base, ball_path } => EventType::CaughtStealing {
                base: *base,
                ball_path: copy_vec(ball_path),
            },
            EventType::DefensiveIndifference => EventType::DefensiveIndifference,
            EventType::OtherAdvance => EventType::OtherAdvance,
            EventType::PassedBall => EventType::PassedBall,
            EventType::WildPitch => EventType::WildPitch,
            EventType::Pickoff { caught_stealing, base, ball_path } => EventType::Pickoff {
                caught_stealing: *caught_stealing,
                base: *base,
                ball_path: copy_vec(ball_path),
            },
            EventType::StolenBase { bases } => EventType::StolenBase {
                bases: copy_vec(bases),
            },
        }
    }
}

impl Clone for AdvanceParameter {
    /// A copy that reads as the same parameter.
    fn clone(&self) -> (res: Self)
        ensures
            advance_parameter_view(res) == advance_parameter_view(*self),
    {
        match self {
            AdvanceParameter::BallPath(path) => AdvanceParameter::BallPath(copy_vec(path)),
            AdvanceParameter::Unearned => AdvanceParameter::Unearned,
            AdvanceParameter::TeamUnearned => AdvanceParameter::TeamUnearned,
            AdvanceParameter::RBICredited => AdvanceParameter::RBICredited,
            AdvanceParameter::RBINotCredited => AdvanceParameter::RBINotCredited,
            AdvanceParameter::Interference(l) => AdvanceParameter::Interference(*l),
            AdvanceParameter::WildPitch => AdvanceParameter::WildPitch,
            AdvanceParameter::PassedBall => AdvanceParameter::PassedBall,
        }
    }
}

impl Clone for Advance {
    /// A copy that reads as the same advance.
    fn clone(&self) -> (res: Self)
        ensures
            advance_view(res) == advance_view(*self),
    {
        let mut parameters: Vec<AdvanceParameter> = Vec::new();
        let mut k: usize = 0;
        while k < self.parameters.len()
            invariant
                0 <= k <= self.parameters@.len(),
                advance_parameters_view(parameters@) == advance_parameters_view(
                    self.parameters@.take(k as int),
                ),
            decreases self.parameters@.len() - k,
        {
            let c = self.parameters[k].clone();
            let ghost cv = c;
            let ghost prev = parameters@;
            parameters.push(c);
            k += 1;
            proof {
                assert(parameters@ =~= prev.push(cv));
                assert(advance_parameters_view(prev.push(cv)) =~= advance_parameters_view(
                    prev,
                ).push(advance_parameter_view(cv)));
                assert(advance_parameters_view(self.parameters@.take(k as int))
                    =~= advance_parameters_view(self.parameters@.take(k - 1)).push(
                    advance_parameter_view(self.parameters@[k - 1]),
                ));
            }
        }
        proof {
            assert(self.parameters@.take(self.parameters@.len() as int) =~= self.parameters@);
            assert(advance_parameters_view(parameters@) =~= advance_parameters_view(
                self.parameters@,
            ));
        }
        Advance {
            starting_base: self.starting_base,
            ending_base: self.ending_base,
            out: self.out,
            parameters,
        }
    }
}

impl Clone for Event {
    /// A copy that reads as the same event.
    fn clone(&self) -> (res: Self)
        ensures
            event_view(res) == event_view(*self),
    {
        let mut advances: Vec<Advance> = Vec::new();
        let mut k: usize = 0;
        while k < self.advances.len()
            invariant
                0 <= k <= self.advances@.len(),
                advances_view(advances@) == advances_view(self.advances@.take(k as int)),
            decreases self.advances@.len() - k,
        {
            let c = self.advances[k].clone();
            let ghost cv = c;
            let ghost prev = advances@;
            advances.push(c);
            k += 1;
            proof {
                assert(advances@ =~= prev.push(cv));
                assert(advances_view(prev.push(cv)) =~= advances_view(prev).push(
                    advance_view(cv),
                ));
                assert(advances_view(self.advances@.take(k as int)) =~= advances_view(
                    self.advances@.take(k - 1),
                ).push(advance_view(self.advances@[k - 1])));
            }
        }
        proof {
            assert(self.advances@.take(self.advances@.len() as int) =~= self.advances@);
            assert(advances_view(advances@) =~= advances_view(self.advances@));
        }
        Event {
            event_type: self.event_type.clone(),
            modifiers: copy_vec(&self.modifiers),
            advances,
        }
    }
}

/// Structural invariants of a fully decoded event.
pub open spec fn event_wf(e: EventV) -> bool {
    &&& event_type_wf(e.event_type)
    &&& forall|i: int| 0 <= i < e.modifiers.len() ==> modifier_wf(#[trigger] e.modifiers[i])
    &&& forall|i: int| 0 <= i < e.advances.len() ==> advance_wf(#[trigger] e.advances[i])
}

} // verus!
