//! Accumulation of a game account: the builder that collects metadata,
//! roster entries and plays, and the parser that feeds it line by line.

use vstd::prelude::*;
use crate::game::{
    AttendanceInfo, DayNightInfo, FieldConditionInfo, Game, GameTypeInfo, InfoState, Pitch,
    PitchesInfo, Play, Player, Position, PrecipitationInfo, SkyInfo, TemperatureInfo,
    TimeOfGameInfo, WindDirectionInfo, WindSpeedInfo, info_state_default,
};
use crate::game::{event_view};
use crate::record::{Info, InfoV, Line, LineV, Team, info_view, spec_parse_line};
use vstd::pervasive::VecAdditionalExecFns;

verus! {

/// The state of one game account while its lines are being read.
#[derive(Debug)]
pub struct GameBuilder {
    pub info_state: InfoState,
    pub home_team_players: Vec<Player>,
    pub visiting_team_players: Vec<Player>,
    pub id: Option<String>,
    pub version: Option<u8>,
    pub plays: Vec<Play>,
}

/// The first entry of `ps` whose id reads as `id`, or the length of `ps`
/// when there is none.
pub open spec fn player_index(ps: Seq<Player>, id: Seq<char>, i: int) -> int
    decreases ps.len() - i,
{
    if !(0 <= i < ps.len()) {
        ps.len() as int
    } else if ps[i].id@ == id {
        i
    } else {
        player_index(ps, id, i + 1)
    }
}

pub proof fn lemma_player_index(ps: Seq<Player>, id: Seq<char>, i: int)
    requires
        0 <= i <= ps.len(),
    ensures
        i <= player_index(ps, id, i) <= ps.len(),
        player_index(ps, id, i) < ps.len() ==> ps[player_index(ps, id, i)].id@ == id,
        forall|k: int| i <= k < player_index(ps, id, i) ==> ps[k].id@ != id,
    decreases ps.len() - i,
{
    if i < ps.len() && ps[i].id@ != id {
        lemma_player_index(ps, id, i + 1);
    }
}

/// The position list after a fresh roster entry is merged with an earlier
/// one: the new positions first, then the previously recorded positions
/// that are not among them.
pub open spec fn merged_positions(new: Seq<Position>, old_ps: Seq<Position>) -> Seq<Position>
    decreases old_ps.len(),
{
    if old_ps.len() == 0 {
        new
    } else {
        let rest = merged_positions(new, old_ps.drop_last());
        if rest.contains(old_ps.last()) {
            rest
        } else {
            rest.push(old_ps.last())
        }
    }
}

/// Everything of a builder but its metadata is unchanged.
pub open spec fn only_info_changed(a: GameBuilder, b: GameBuilder) -> bool {
    &&& b.home_team_players == a.home_team_players
    &&& b.visiting_team_players == a.visiting_team_players
    &&& b.id == a.id
    &&& b.version == a.version
    &&& b.plays == a.plays
}

impl GameBuilder {
    /// A builder with no lines read yet.
    pub fn new() -> (b: GameBuilder)
        ensures
            info_state_default(b.info_state),
            b.home_team_players@.len() == 0,
            b.visiting_team_players@.len() == 0,
            b.id is None,
            b.version is None,
            b.plays@.len() == 0,
    {
        GameBuilder {
            info_state: InfoState::default(),
            home_team_players: Vec::new(),
            visiting_team_players: Vec::new(),
            id: None,
            version: None,
            plays: Vec::new(),
        }
    }

    pub fn get_id(&self) -> (r: Option<&String>)
        ensures
            r is Some <==> self.id is Some,
            r matches Some(v) ==> *v == self.id.unwrap(),
    {
        match &self.id {
            Some(v) => Some(v),
            None => None,
        }
    }

    pub fn get_version(&self) -> (r: Option<&u8>)
        ensures
            r is Some <==> self.version is Some,
            r matches Some(v) ==> *v == self.version.unwrap(),
    {
        match &self.version {
            Some(v) => Some(v),
            None => None,
        }
    }

    pub fn get_info_state(&self) -> (r: &InfoState)
        ensures
            *r == self.info_state,
    {
        &self.info_state
    }

    pub fn get_home_team_players(&self) -> (r: &Vec<Player>)
        ensures
            *r == self.home_team_players,
    {
        &self.home_team_players
    }

    pub fn get_visiting_team_players(&self) -> (r: &Vec<Player>)
        ensures
            *r == self.visiting_team_players,
    {
        &self.visiting_team_players
    }

    pub fn get_plays(&self) -> (r: &Vec<Play>)
        ensures
            *r == self.plays,
    {
        &self.plays
    }

    pub fn set_id(&mut self, id: String)
        ensures
            *final(self) == (GameBuilder { id: Some(id), ..*old(self) }),
    {
        self.id = Some(id);
    }

    pub fn set_version(&mut self, version: u8)
        ensures
            *final(self) == (GameBuilder { version: Some(version), ..*old(self) }),
    {
        self.version = Some(version);
    }

    pub fn set_info_state_visiting_team(&mut self, visiting_team: String)
        ensures
            only_info_changed(*old(self), *final(self)),
            final(self).info_state == (InfoState {
                visiting_team: Some(visiting_team),
                ..old(self).info_state
            }),
    {
        self.info_state.visiting_team = Some(visiting_team);
    }

    pub fn set_info_state_home_team(&mut self, home_team: String)
        ensures
            only_info_changed(*old(self), *final(self)),
            final(self).info_state == (InfoState {
                home_team: Some(home_team),
                ..old(self).info_state
            }),
    {
        self.info_state.home_team = Some(home_team);
    }

    pub fn set_info_state_date(&mut self, date: String)
        ensures
            only_info_changed(*old(self), *final(self)),
            final(self).info_state == (InfoState {
                date: Some(date),
                ..old(self).info_state
            }),
    {
        self.info_state.date = Some(date);
    }

    pub fn set_info_state_number(&mut self, number: u8)
        ensures
            only_info_changed(*old(self), *final(self)),
            final(self).info_state == (InfoState {
                number: Some(number),
                ..old(self).info_state
            }),
    {
        self.info_state.number = Some(number);
    }

    pub fn set_info_state_start_time(&mut self, start_time: String)
        ensures
            only_info_changed(*old(self), *final(self)),
            final(self).info_state == (InfoState {
                start_time: Some(start_time),
                ..old(self).info_state
            }),
    {
        self.info_state.start_time = Some(start_time);
    }

    pub fn set_info_state_day_night(&mut self, day_night: DayNightInfo)
        ensures
            only_info_changed(*old(self), *final(self)),
            final(self).info_state == (InfoState {
                day_night: Some(day_night),
                ..old(self).info_state
            }),
    {
        self.info_state.day_night = Some(day_night);
    }

    pub fn set_info_state_innings(&mut self, innings: u8)
        ensures
            only_info_changed(*old(self), *final(self)),
            final(self).info_state == (InfoState {
                innings: Some(innings),
                ..old(self).info_state
            }),
    {
        self.info_state.innings = Some(innings);
    }

    pub fn set_info_state_tiebreaker(&mut self, tiebreaker: u8)
        ensures
            only_info_changed(*old(self), *final(self)),
            final(self).info_state == (InfoState {
                tiebreaker: Some(tiebreaker),
                ..old(self).info_state
            }),
    {
        self.info_state.tiebreaker = Some(tiebreaker);
    }

    pub fn set_info_state_used_designated_hitter_rule(&mut self, used_designated_hitter_rule: bool)
        ensures
            only_info_changed(*old(self), *final(self)),
            final(self).info_state == (InfoState {
                used_designated_hitter_rule: Some(used_designated_hitter_rule),
                ..old(self).info_state
            }),
    {
        self.info_state.used_designated_hitter_rule = Some(used_designated_hitter_rule);
    }

    pub fn set_info_state_pitches(&mut self, pitches: PitchesInfo)
        ensures
            only_info_changed(*old(self), *final(self)),
            final(self).info_state == (InfoState {
                pitches: Some(pitches),
                ..old(self).info_state
            }),
    {
        self.info_state.pitches = Some(pitches);
    }

    pub fn set_info_state_official_scorer(&mut self, official_scorer: String)
        ensures
            only_info_changed(*old(self), *final(self)),
            final(self).info_state == (InfoState {
                official_scorer: Some(official_scorer),
                ..old(self).info_state
            }),
    {
        self.info_state.official_scorer = Some(official_scorer);
    }

    pub fn set_info_state_home_team_bat_first(&mut self, home_team_bat_first: bool)
        ensures
            only_info_changed(*old(self), *final(self)),
            final(self).info_state == (InfoState {
                home_team_bat_first: Some(home_team_bat_first),
                ..old(self).info_state
            }),
    {
        self.info_state.home_team_bat_first = Some(home_team_bat_first);
    }

    pub fn set_info_state_umpire_home(&mut self, umpire_home: Option<String>)
        ensures
            only_info_changed(*old(self), *final(self)),
            final(self).info_state == (InfoState {
                umpire_home: umpire_home,
                ..old(self).info_state
            }),
    {
        self.info_state.umpire_home = umpire_home;
    }

    pub fn set_info_state_umpire_1b(&mut self, umpire_1b: Option<String>)
        ensures
            only_info_changed(*old(self), *final(self)),
            final(self).info_state == (InfoState {
                umpire_1b: umpire_1b,
                ..old(self).info_state
            }),
    {
        self.info_state.umpire_1b = umpire_1b;
    }

    pub fn set_info_state_umpire_2b(&mut self, umpire_2b: Option<String>)
        ensures
            only_info_changed(*old(self), *final(self)),
            final(self).info_state == (InfoState {
                umpire_2b: umpire_2b,
                ..old(self).info_state
            }),
    {
        self.info_state.umpire_2b = umpire_2b;
    }

    pub fn set_info_state_umpire_3b(&mut self, umpire_3b: Option<String>)
        ensures
            only_info_changed(*old(self), *final(self)),
            final(self).info_state == (InfoState {
                umpire_3b: umpire_3b,
                ..old(self).info_state
            }),
    {
        self.info_state.umpire_3b = umpire_3b;
    }

    pub fn set_info_state_umpire_left_field(&mut self, umpire_left_field: Option<String>)
        ensures
            only_info_changed(*old(self), *final(self)),
            final(self).info_state == (InfoState {
                umpire_left_field: umpire_left_field,
                ..old(self).info_state
            }),
    {
        self.info_state.umpire_left_field = umpire_left_field;
    }

    pub fn set_info_state_umpire_right_field(&mut self, umpire_right_field: Option<String>)
        ensures
            only_info_changed(*old(self), *final(self)),
            final(self).info_state == (InfoState {
                umpire_right_field: umpire_right_field,
                ..old(self).info_state
            }),
    {
        self.info_state.umpire_right_field = umpire_right_field;
    }

    pub fn set_info_state_field_condition(&mut self, field_condition: FieldConditionInfo)
        ensures
            only_info_changed(*old(self), *final(self)),
            final(self).info_state == (InfoState {
                field_condition: Some(field_condition),
                ..old(self).info_state
            }),
    {
        self.info_state.field_condition = Some(field_condition);
    }

    pub fn set_info_state_precipitation(&mut self, precipitation: PrecipitationInfo)
        ensures
            only_info_changed(*old(self), *final(self)),
            final(self).info_state == (InfoState {
                precipitation: Some(precipitation),
                ..old(self).info_state
            }),
    {
        self.info_state.precipitation = Some(precipitation);
    }

    pub fn set_info_state_sky(&mut self, sky: SkyInfo)
        ensures
            only_info_changed(*old(self), *final(self)),
            final(self).info_state == (InfoState {
                sky: Some(sky),
                ..old(self).info_state
            }),
    {
        self.info_state.sky = Some(sky);
    }

    pub fn set_info_state_temperature(&mut self, temperature: TemperatureInfo)
        ensures
            only_info_changed(*old(self), *final(self)),
            final(self).info_state == (InfoState {
                temperature: Some(temperature),
                ..old(self).info_state
            }),
    {
        self.info_state.temperature = Some(temperature);
    }

    pub fn set_info_state_wind_direction(&mut self, wind_direction: WindDirectionInfo)
        ensures
            only_info_changed(*old(self), *final(self)),
            final(self).info_state == (InfoState {
                wind_direction: Some(wind_direction),
                ..old(self).info_state
            }),
    {
        self.info_state.wind_direction = Some(wind_direction);
    }

    pub fn set_info_state_wind_speed(&mut self, wind_speed: WindSpeedInfo)
        ensures
            only_info_changed(*old(self), *final(self)),
            final(self).info_state == (InfoState {
                wind_speed: Some(wind_speed),
                ..old(self).info_state
            }),
    {
        self.info_state.wind_speed = Some(wind_speed);
    }

    pub fn set_info_state_time_of_game(&mut self, time_of_game: TimeOfGameInfo)
        ensures
            only_info_changed(*old(self), *final(self)),
            final(self).info_state == (InfoState {
                time_of_game: Some(time_of_game),
                ..old(self).info_state
            }),
    {
        self.info_state.time_of_game = Some(time_of_game);
    }

    pub fn set_info_state_attendance(&mut self, attendance: AttendanceInfo)
        ensures
            only_info_changed(*old(self), *final(self)),
            final(self).info_state == (InfoState {
                attendance: Some(attendance),
                ..old(self).info_state
            }),
    {
        self.info_state.attendance = Some(attendance);
    }

    pub fn set_info_state_site(&mut self, site: String)
        ensures
            only_info_changed(*old(self), *final(self)),
            final(self).info_state == (InfoState {
                site: Some(site),
                ..old(self).info_state
            }),
    {
        self.info_state.site = Some(site);
    }

    pub fn set_info_state_wp(&mut self, wp: String)
        ensures
            only_info_changed(*old(self), *final(self)),
            final(self).info_state == (InfoState {
                wp: Some(wp),
                ..old(self).info_state
            }),
    {
        self.info_state.wp = Some(wp);
    }

    pub fn set_info_state_lp(&mut self, lp: String)
        ensures
            only_info_changed(*old(self), *final(self)),
            final(self).info_state == (InfoState {
                lp: Some(lp),
                ..old(self).info_state
            }),
    {
        self.info_state.lp = Some(lp);
    }

    pub fn set_info_state_save(&mut self, save: Option<String>)
        ensures
            only_info_changed(*old(self), *final(self)),
            final(self).info_state == (InfoState {
                save: save,
                ..old(self).info_state
            }),
    {
        self.info_state.save = save;
    }

    pub fn set_info_state_game_winning_rbi(&mut self, game_winning_rbi: Option<String>)
        ensures
            only_info_changed(*old(self), *final(self)),
            final(self).info_state == (InfoState {
                game_winning_rbi: game_winning_rbi,
                ..old(self).info_state
            }),
    {
        self.info_state.game_winning_rbi = game_winning_rbi;
    }

    pub fn set_info_state_game_type(&mut self, game_type: GameTypeInfo)
        ensures
            only_info_changed(*old(self), *final(self)),
            final(self).info_state == (InfoState {
                game_type: Some(game_type),
                ..old(self).info_state
            }),
    {
        self.info_state.game_type = Some(game_type);
    }
}

/// How one metadata record changes the metadata state: the keyed field is
/// set to the record's payload and every other field is kept.
pub open spec fn info_effect(pre: InfoState, post: InfoState, iv: InfoV) -> bool {
    match iv {
        InfoV::VisitingTeam(t) => post == (InfoState { visiting_team: post.visiting_team, ..pre }) && (match post.visiting_team { Some(x) => x@ == t, None => false }),
        InfoV::HomeTeam(t) => post == (InfoState { home_team: post.home_team, ..pre }) && (match post.home_team { Some(x) => x@ == t, None => false }),
        InfoV::Date(t) => post == (InfoState { date: post.date, ..pre }) && (match post.date { Some(x) => x@ == t, None => false }),
        InfoV::Number(n) => post == (InfoState { number: Some(n), ..pre }),
        InfoV::StartTime(t) => post == (InfoState { start_time: post.start_time, ..pre }) && (match post.start_time { Some(x) => x@ == t, None => false }),
        InfoV::DayNight(v) => post == (InfoState { day_night: Some(v), ..pre }),
        InfoV::Innings(n) => post == (InfoState { innings: Some(n), ..pre }),
        InfoV::Tiebreaker(n) => post == (InfoState { tiebreaker: Some(n), ..pre }),
        InfoV::UsedDesignatedHitterRule(b) => post == (InfoState { used_designated_hitter_rule: Some(b), ..pre }),
        InfoV::Pitches(v) => post == (InfoState { pitches: Some(v), ..pre }),
        InfoV::OfficialScorer(t) => post == (InfoState { official_scorer: post.official_scorer, ..pre }) && (match post.official_scorer { Some(x) => x@ == t, None => false }),
        InfoV::HomeTeamBatFirst(b) => post == (InfoState { home_team_bat_first: Some(b), ..pre }),
        InfoV::UmpireHome(o) => post == (InfoState { umpire_home: post.umpire_home, ..pre }) && (match (post.umpire_home, o) { (Some(x), Some(t)) => x@ == t, (None, None) => true, _ => false }),
        InfoV::Umpire1B(o) => post == (InfoState { umpire_1b: post.umpire_1b, ..pre }) && (match (post.umpire_1b, o) { (Some(x), Some(t)) => x@ == t, (None, None) => true, _ => false }),
        InfoV::Umpire2B(o) => post == (InfoState { umpire_2b: post.umpire_2b, ..pre }) && (match (post.umpire_2b, o) { (Some(x), Some(t)) => x@ == t, (None, None) => true, _ => false }),
        InfoV::Umpire3B(o) => post == (InfoState { umpire_3b: post.umpire_3b, ..pre }) && (match (post.umpire_3b, o) { (Some(x), Some(t)) => x@ == t, (None, None) => true, _ => false }),
        InfoV::UmpireLeftField(o) => post == (InfoState { umpire_left_field: post.umpire_left_field, ..pre }) && (match (post.umpire_left_field, o) { (Some(x), Some(t)) => x@ == t, (None, None) => true, _ => false }),
        InfoV::UmpireRightField(o) => post == (InfoState { umpire_right_field: post.umpire_right_field, ..pre }) && (match (post.umpire_right_field, o) { (Some(x), Some(t)) => x@ == t, (None, None) => true, _ => false }),
        InfoV::FieldCondition(v) => post == (InfoState { field_condition: Some(v), ..pre }),
        InfoV::Precipitation(v) => post == (InfoState { precipitation: Some(v), ..pre }),
        InfoV::Sky(v) => post == (InfoState { sky: Some(v), ..pre }),
        InfoV::Temperature(v) => post == (InfoState { temperature: Some(v), ..pre }),
        InfoV::WindDirection(v) => post == (InfoState { wind_direction: Some(v), ..pre }),
        InfoV::WindSpeed(v) => post == (InfoState { wind_speed: Some(v), ..pre }),
        InfoV::TimeOfGame(v) => post == (InfoState { time_of_game: Some(v), ..pre }),
        InfoV::Attendance(v) => post == (InfoState { attendance: Some(v), ..pre }),
        InfoV::Site(t) => post == (InfoState { site: post.site, ..pre }) && (match post.site { Some(x) => x@ == t, None => false }),
        InfoV::WP(t) => post == (InfoState { wp: post.wp, ..pre }) && (match post.wp { Some(x) => x@ == t, None => false }),
        InfoV::LP(t) => post == (InfoState { lp: post.lp, ..pre }) && (match post.lp { Some(x) => x@ == t, None => false }),
        InfoV::Save(o) => post == (InfoState { save: post.save, ..pre }) && (match (post.save, o) { (Some(x), Some(t)) => x@ == t, (None, None) => true, _ => false }),
        InfoV::GameWinningRBI(o) => post == (InfoState { game_winning_rbi: post.game_winning_rbi, ..pre }) && (match (post.game_winning_rbi, o) { (Some(x), Some(t)) => x@ == t, (None, None) => true, _ => false }),
        InfoV::GameType(v) => post == (InfoState { game_type: Some(v), ..pre }),
        InfoV::Other(k, v) => post == pre,
    }
}

/// What [`GameBuilder::set_player`] leaves in a team's list: an entry with
/// a fresh id is appended; an entry with a known id is replaced by the
/// fresh record, with the earlier positions merged in behind its own.
pub open spec fn roster_upserted(pre: Seq<Player>, post: Seq<Player>, p: Player) -> bool {
    let i = player_index(pre, p.id@, 0);
    if i == pre.len() {
        post == pre.push(p)
    } else {
        &&& post.len() == pre.len()
        &&& forall|k: int| 0 <= k < pre.len() && k != i ==> post[k] == pre[k]
        &&& post[i].id == p.id
        &&& post[i].name == p.name
        &&& post[i].team == p.team
        &&& post[i].batting_order == p.batting_order
        &&& post[i].positions@ == merged_positions(p.positions@, pre[i].positions@)
    }
}

/// Whether `v` lists the position `p`.
fn has_position(v: &Vec<Position>, p: Position) -> (b: bool)
    ensures
        b == v@.contains(p),
{
    let mut k: usize = 0;
    while k < v.len()
        invariant
            0 <= k <= v@.len(),
            forall|j: int| 0 <= j < k ==> v@[j] != p,
        decreases v@.len() - k,
    {
        if v[k] == p {
            assert(v@.contains(p)) by {
                assert(v@[k as int] == p);
            }
            return true;
        }
        k += 1;
    }
    false
}

/// The first entry of `list` with the given id, or the length of the list.
fn find_player(list: &Vec<Player>, id: &String) -> (i: usize)
    ensures
        i as int == player_index(list@, id@, 0),
        i <= list@.len(),
{
    let n = list.len();
    let mut i: usize = 0;
    loop
        invariant
            0 <= i <= n == list@.len(),
            player_index(list@, id@, 0) == player_index(list@, id@, i as int),
        decreases n - i,
    {
        proof {
            lemma_player_index(list@, id@, i as int);
        }
        if i >= n {
            return i;
        }
        if list[i].id == *id {
            return i;
        }
        i += 1;
    }
}

/// Adds or merges one roster entry in a team list.
fn upsert_player(list: &mut Vec<Player>, player: Player)
    ensures
        roster_upserted(old(list)@, final(list)@, player),
{
    proof {
        lemma_player_index(old(list)@, player.id@, 0);
    }
    let n = list.len();
    let i = find_player(list, &player.id);
    if i < n {
        let Player { id, name, team, positions, batting_order } = player;
        let ghost new0 = positions@;
        let mut merged = positions;
        let m = list[i].positions.len();
        let mut j: usize = 0;
        while j < m
            invariant
                0 <= j <= m == list@[i as int].positions@.len(),
                *list == *old(list),
                i < list@.len(),
                merged@ == merged_positions(new0, list@[i as int].positions@.take(j as int)),
            decreases m - j,
        {
            let op = list[i].positions[j];
            if !has_position(&merged, op) {
                merged.push(op);
            }
            j += 1;
            proof {
                assert(list@[i as int].positions@.take(j as int).drop_last() =~= list@[
                    i as int
                ].positions@.take(j - 1));
                assert(list@[i as int].positions@.take(j as int).last() == list@[
                    i as int
                ].positions@[j - 1]);
            }
        }
        proof {
            assert(list@[i as int].positions@.take(m as int) =~= list@[i as int].positions@);
        }
        list.set(i, Player { id, name, team, positions: merged, batting_order });
    } else {
        list.push(player);
    }
}

impl GameBuilder {
    /// Applies one metadata record to the metadata state.
    pub fn set_info(&mut self, info: Info)
        ensures
            only_info_changed(*old(self), *final(self)),
            info_effect(old(self).info_state, final(self).info_state, info_view(info)),
    {
        match info {
            Info::VisitingTeam(t) => self.set_info_state_visiting_team(t),
            Info::HomeTeam(t) => self.set_info_state_home_team(t),
            Info::Date(t) => self.set_info_state_date(t),
            Info::Number(n) => self.set_info_state_number(n),
            Info::StartTime(t) => self.set_info_state_start_time(t),
            Info::DayNight(v) => self.set_info_state_day_night(v),
            Info::Innings(n) => self.set_info_state_innings(n),
            Info::Tiebreaker(n) => self.set_info_state_tiebreaker(n),
            Info::UsedDesignatedHitterRule(b) => self.set_info_state_used_designated_hitter_rule(
                b,
            ),
            Info::Pitches(v) => self.set_info_state_pitches(v),
            Info::OfficialScorer(t) => self.set_info_state_official_scorer(t),
            Info::HomeTeamBatFirst(b) => self.set_info_state_home_team_bat_first(b),
            Info::UmpireHome(o) => self.set_info_state_umpire_home(o),
            Info::Umpire1B(o) => self.set_info_state_umpire_1b(o),
            Info::Umpire2B(o) => self.set_info_state_umpire_2b(o),
            Info::Umpire3B(o) => self.set_info_state_umpire_3b(o),
            Info::UmpireLeftField(o) => self.set_info_state_umpire_left_field(o),
            Info::UmpireRightField(o) => self.set_info_state_umpire_right_field(o),
            Info::FieldCondition(v) => self.set_info_state_field_condition(v),
            Info::Precipitation(v) => self.set_info_state_precipitation(v),
            Info::Sky(v) => self.set_info_state_sky(v),
            Info::Temperature(v) => self.set_info_state_temperature(v),
            Info::WindDirection(v) => self.set_info_state_wind_direction(v),
            Info::WindSpeed(v) => self.set_info_state_wind_speed(v),
            Info::TimeOfGame(v) => self.set_info_state_time_of_game(v),
            Info::Attendance(v) => self.set_info_state_attendance(v),
            Info::Site(t) => self.set_info_state_site(t),
            Info::WP(t) => self.set_info_state_wp(t),
            Info::LP(t) => self.set_info_state_lp(t),
            Info::Save(o) => self.set_info_state_save(o),
            Info::GameWinningRBI(o) => self.set_info_state_game_winning_rbi(o),
            Info::GameType(v) => self.set_info_state_game_type(v),
            Info::Other(_, _) => (),
        }
    }

    /// Records one roster entry for the named team, merging positions when
    /// the player already appears.
    pub fn set_player(&mut self, team: &Team, player: Player)
        ensures
            final(self).info_state == old(self).info_state,
            final(self).id == old(self).id,
            final(self).version == old(self).version,
            final(self).plays == old(self).plays,
            match *team {
                Team::Visiting => roster_upserted(
                    old(self).visiting_team_players@,
                    final(self).visiting_team_players@,
                    player,
                ) && final(self).home_team_players == old(self).home_team_players,
                Team::Home => roster_upserted(
                    old(self).home_team_players@,
                    final(self).home_team_players@,
                    player,
                ) && final(self).visiting_team_players == old(self).visiting_team_players,
            },
    {
        match team {
            Team::Visiting => upsert_player(&mut self.visiting_team_players, player),
            Team::Home => upsert_player(&mut self.home_team_players, player),
        }
    }

    /// Appends one play.
    pub fn play(&mut self, play: Play)
        ensures
            final(self).plays@ == old(self).plays@.push(play),
            final(self).info_state == old(self).info_state,
            final(self).home_team_players == old(self).home_team_players,
            final(self).visiting_team_players == old(self).visiting_team_players,
            final(self).id == old(self).id,
            final(self).version == old(self).version,
    {
        self.plays.push(play);
    }

    /// Assembles the game, requiring an identifier, a version, and at
    /// least one play; otherwise names the first missing piece.
    pub fn build(self) -> (r: Result<Game, String>)
        ensures
            r is Ok <==> (self.id is Some && self.version is Some && self.plays@.len() > 0),
            r matches Ok(g) ==> g.id == self.id.unwrap() && g.version == self.version.unwrap()
                && g.plays == self.plays,
            r matches Err(e) ==> (if self.id is None {
                e@ == "id is required"@
            } else if self.version is None {
                e@ == "version is required"@
            } else {
                e@ == "plays are required"@
            }),
    {
        let GameBuilder { info_state, home_team_players, visiting_team_players, id, version, plays }
            = self;
        let id = match id {
            Some(id) => id,
            None => {
                return Err("id is required".to_owned());
            },
        };
        let version = match version {
            Some(v) => v,
            None => {
                return Err("version is required".to_owned());
            },
        };
        if plays.len() == 0 {
            return Err("plays are required".to_owned());
        }
        Ok(Game { id, version, plays })
    }
}

/// The named team's list received one roster entry built from a starter or
/// substitute line: the player's id, name, batting order and single
/// position read as the line's fields, its team as the name recorded for
/// that side, and the list changed exactly as [`roster_upserted`] says.
pub open spec fn roster_received(
    pre_list: Seq<Player>,
    post_list: Seq<Player>,
    team_name: Option<String>,
    player_id: Seq<char>,
    player_name: Seq<char>,
    batting_order: u8,
    position: Position,
) -> bool {
    match team_name {
        Some(tn) => exists|p: Player|
            {
                &&& #[trigger] roster_upserted(pre_list, post_list, p)
                &&& p.id@ == player_id
                &&& p.name@ == player_name
                &&& p.team@ == tn@
                &&& p.batting_order == batting_order
                &&& p.positions@ == seq![position]
            },
        None => false,
    }
}

/// How one decoded line changes a builder.
pub open spec fn line_applied(pre: GameBuilder, post: GameBuilder, l: LineV) -> bool {
    match l {
        LineV::Id(t) => post == (GameBuilder { id: post.id, ..pre }) && (match post.id {
            Some(x) => x@ == t,
            None => false,
        }),
        LineV::Version(n) => post == (GameBuilder { version: Some(n), ..pre }),
        LineV::StartSub { is_start, player_id, player_name, team, batting_order, position } => {
            &&& post.id == pre.id
            &&& post.version == pre.version
            &&& post.plays == pre.plays
            &&& post.info_state == pre.info_state
            &&& match team {
                Team::Visiting => post.home_team_players == pre.home_team_players
                    && roster_received(
                    pre.visiting_team_players@,
                    post.visiting_team_players@,
                    pre.info_state.visiting_team,
                    player_id,
                    player_name,
                    batting_order,
                    position,
                ),
                Team::Home => post.visiting_team_players == pre.visiting_team_players
                    && roster_received(
                    pre.home_team_players@,
                    post.home_team_players@,
                    pre.info_state.home_team,
                    player_id,
                    player_name,
                    batting_order,
                    position,
                ),
            }
        },
        LineV::Info(iv) => only_info_changed(pre, post) && info_effect(
            pre.info_state,
            post.info_state,
            iv,
        ),
        LineV::Play { inning, team, batter_id, count, pitches, event, note } => {
            &&& post.id == pre.id
            &&& post.version == pre.version
            &&& post.info_state == pre.info_state
            &&& post.home_team_players == pre.home_team_players
            &&& post.visiting_team_players == pre.visiting_team_players
            &&& post.plays@.len() == pre.plays@.len() + 1
            &&& forall|k: int| 0 <= k < pre.plays@.len() ==> post.plays@[k] == pre.plays@[k]
            &&& {
                let last = post.plays@.last();
                &&& last.inning == inning
                &&& last.batter_id@ == batter_id
                &&& last.count == Some(count)
                &&& (match last.pitches {
                    Some(v) => pitches == Some(v@),
                    None => pitches is None,
                })
                &&& (match last.event {
                    Some(e) => event_view(e) == event,
                    None => false,
                })
                &&& last.note == note
            }
        },
    }
}

/// Reads decoded lines one by one into a [`GameBuilder`].
pub struct GameParser {
    pub game_builder: GameBuilder,
}

impl GameParser {
    pub fn new() -> (p: GameParser)
        ensures
            info_state_default(p.game_builder.info_state),
            p.game_builder.home_team_players@.len() == 0,
            p.game_builder.visiting_team_players@.len() == 0,
            p.game_builder.id is None,
            p.game_builder.version is None,
            p.game_builder.plays@.len() == 0,
    {
        GameParser { game_builder: GameBuilder::new() }
    }

    /// Applies one decoded line to the builder.  A starter or substitute
    /// line fails when its team's name has not been recorded yet; every
    /// other line is always accepted.
    pub fn parse_line(&mut self, line: &Line) -> (r: Result<(), String>)
        ensures
            r is Err <==> (match line@ {
                LineV::StartSub { team, .. } => match team {
                    Team::Home => old(self).game_builder.info_state.home_team is None,
                    Team::Visiting => old(self).game_builder.info_state.visiting_team is None,
                },
                _ => false,
            }),
            r is Err ==> *final(self) == *old(self),
            r matches Err(e) ==> (match line@ {
                LineV::StartSub { team, .. } => match team {
                    Team::Home => e@ == "home team name not set yet"@,
                    Team::Visiting => e@ == "visiting team name not set yet"@,
                },
                _ => false,
            }),
            r is Ok ==> line_applied(old(self).game_builder, final(self).game_builder, line@),
    {
        match line {
            Line::Id(id) => {
                self.game_builder.set_id(id.clone());
                Ok(())
            },
            Line::Version(version) => {
                self.game_builder.set_version(*version);
                Ok(())
            },
            Line::StartSub { is_start, player_id, player_name, team, batting_order, position } => {
                let team_name = match team {
                    Team::Home => match &self.game_builder.info_state.home_team {
                        Some(t) => t.clone(),
                        None => {
                            return Err("home team name not set yet".to_owned());
                        },
                    },
                    Team::Visiting => match &self.game_builder.info_state.visiting_team {
                        Some(t) => t.clone(),
                        None => {
                            return Err("visiting team name not set yet".to_owned());
                        },
                    },
                };
                let mut positions: Vec<Position> = Vec::new();
                positions.push(*position);
                let player = Player {
                    id: player_id.clone(),
                    name: player_name.clone(),
                    team: team_name,
                    positions,
                    batting_order: *batting_order,
                };
                let ghost witness = player;
                proof {
                    assert(witness.positions@ =~= seq![*position]);
                }
                self.game_builder.set_player(team, player);
                proof {
                    match team {
                        Team::Visiting => {
                            assert(roster_upserted(
                                old(self).game_builder.visiting_team_players@,
                                self.game_builder.visiting_team_players@,
                                witness,
                            ));
                        },
                        Team::Home => {
                            assert(roster_upserted(
                                old(self).game_builder.home_team_players@,
                                self.game_builder.home_team_players@,
                                witness,
                            ));
                        },
                    }
                }
                Ok(())
            },
            Line::Info(info) => {
                self.game_builder.set_info(info.clone());
                Ok(())
            },
            Line::Play { inning, team, batter_id, count, pitches, event, note } => {
                let pitches_copy: Option<Vec<Pitch>> = match pitches {
                    Some(v) => Some(crate::game::copy_vec(v)),
                    None => None,
                };
                let play = Play {
                    info_state: self.game_builder.info_state.clone(),
                    home_team_players: self.game_builder.home_team_players.clone(),
                    visiting_team_players: self.game_builder.visiting_team_players.clone(),
                    inning: *inning,
                    batter_id: batter_id.clone(),
                    count: Some(*count),
                    pitches: pitches_copy,
                    event: Some(event.clone()),
                    note: *note,
                    comments: Vec::new(),
                };
                self.game_builder.play(play);
                Ok(())
            },
        }
    }
}

/// The first line break at or after `i`, or the end of the input.
pub open spec fn find_newline(s: Seq<char>, i: int) -> int
    decreases s.len() - i,
{
    if !(0 <= i < s.len()) {
        s.len() as int
    } else if s[i] == '\n' {
        i
    } else {
        find_newline(s, i + 1)
    }
}

fn newline_after(s: &str, i: usize) -> (c: usize)
    requires
        i <= s@.len(),
    ensures
        c == find_newline(s@, i as int),
        i <= c <= s@.len(),
{
    let n = s.unicode_len();
    let mut j = i;
    loop
        invariant
            i <= j <= n == s@.len(),
            find_newline(s@, i as int) == find_newline(s@, j as int),
        decreases n - j,
    {
        if j >= n {
            return j;
        }
        if s.get_char(j) == '\n' {
            return j;
        }
        j += 1;
    }
}

/// The `\n`-separated segments of a game account from position `i` on,
/// the text after the last break included.
pub open spec fn line_segments(s: Seq<char>, i: int) -> Seq<Seq<char>>
    decreases s.len() + 1 - i,
{
    let b = find_newline(s, i);
    if b >= s.len() {
        seq![s.subrange(i, s.len() as int)]
    } else {
        if i <= b && b + 1 <= s.len() {
            seq![s.subrange(i, b)] + line_segments(s, b + 1)
        } else {
            Seq::empty()
        }
    }
}

/// Every segment parses as a line and, applied in order, the lines carry
/// the builder from `b0` to `bn`.
pub open spec fn lines_applied(b0: GameBuilder, bn: GameBuilder, segs: Seq<Seq<char>>) -> bool
    decreases segs.len(),
{
    if segs.len() == 0 {
        bn == b0
    } else {
        &&& spec_parse_line(segs[0]) is Some
        &&& exists|mid: GameBuilder|
            #[trigger] line_applied(b0, mid, spec_parse_line(segs[0]).unwrap()) && lines_applied(
                mid,
                bn,
                segs.drop_first(),
            )
    }
}

/// Extending an applied chain by one more parsed-and-applied segment.
proof fn lemma_lines_applied_snoc(
    b0: GameBuilder,
    b1: GameBuilder,
    b2: GameBuilder,
    segs: Seq<Seq<char>>,
    seg: Seq<char>,
)
    requires
        lines_applied(b0, b1, segs),
        spec_parse_line(seg) is Some,
        line_applied(b1, b2, spec_parse_line(seg).unwrap()),
    ensures
        lines_applied(b0, b2, segs.push(seg)),
    decreases segs.len(),
{
    if segs.len() == 0 {
        assert(segs.push(seg)[0] == seg);
        assert(segs.push(seg).drop_first() =~= Seq::<Seq<char>>::empty());
        assert(line_applied(b0, b2, spec_parse_line(seg).unwrap()) && lines_applied(
            b2,
            b2,
            segs.push(seg).drop_first(),
        ));
    } else {
        let mid = choose|mid: GameBuilder|
            #[trigger] line_applied(b0, mid, spec_parse_line(segs[0]).unwrap()) && lines_applied(
                mid,
                b1,
                segs.drop_first(),
            );
        lemma_lines_applied_snoc(mid, b1, b2, segs.drop_first(), seg);
        assert(segs.push(seg)[0] == segs[0]);
        assert(segs.push(seg).drop_first() =~= segs.drop_first().push(seg));
        assert(line_applied(b0, mid, spec_parse_line(segs.push(seg)[0]).unwrap())
            && lines_applied(mid, b2, segs.push(seg).drop_first()));
    }
}

/// A builder no line has touched yet.
pub open spec fn fresh_builder(b: GameBuilder) -> bool {
    &&& info_state_default(b.info_state)
    &&& b.home_team_players@.len() == 0
    &&& b.visiting_team_players@.len() == 0
    &&& b.id is None
    &&& b.version is None
    &&& b.plays@.len() == 0
}

/// The game is what decoding the block yields: starting from an untouched
/// builder, every line of the block parses and applies in order, reaching a
/// state with an identifier, a version and at least one play, from which
/// the game's fields are taken.
pub open spec fn game_decodes_block(g: Game, block: Seq<char>) -> bool {
    exists|b0: GameBuilder, bf: GameBuilder|
        {
            &&& fresh_builder(b0)
            &&& #[trigger] lines_applied(b0, bf, line_segments(block, 0))
            &&& bf.id is Some
            &&& bf.version is Some
            &&& g.id == bf.id.unwrap()
            &&& g.version == bf.version.unwrap()
            &&& g.plays == bf.plays
            &&& g.plays@.len() > 0
        }
}

impl GameParser {
    /// Parses one segment as a line and applies it to the builder.
    fn apply_segment(&mut self, seg: &str) -> (r: Result<(), String>)
        ensures
            r is Ok ==> spec_parse_line(seg@) is Some && line_applied(
                old(self).game_builder,
                final(self).game_builder,
                spec_parse_line(seg@).unwrap(),
            ),
    {
        let l = match Line::parse(seg) {
            Ok(l) => l,
            Err(_) => {
                return Err("invalid line".to_owned());
            },
        };
        self.parse_line(&l)
    }

    /// Reads a whole game account, line by line, and assembles the game:
    /// on success, every `\n`-separated segment parsed as a line and the
    /// lines, applied in order, carried the builder to a state with an
    /// identifier, a version and at least one play, from which the game's
    /// fields were taken.  Fails when any line fails to parse or to apply,
    /// or when one of those three pieces is missing.
    #[verifier::rlimit(100)]
    #[verifier::spinoff_prover]
    pub fn parse_game(&mut self, game: &str) -> (r: Result<Game, String>)
        ensures
            r matches Ok(g) ==> exists|bf: GameBuilder|
                {
                    &&& #[trigger] lines_applied(
                        old(self).game_builder,
                        bf,
                        line_segments(game@, 0),
                    )
                    &&& bf.id is Some
                    &&& bf.version is Some
                    &&& g.id == bf.id.unwrap()
                    &&& g.version == bf.version.unwrap()
                    &&& g.plays == bf.plays
                },
            r matches Ok(g) ==> g.plays@.len() > 0,
    {
        let n = game.unicode_len();
        let mut start: usize = 0;
        let ghost mut done: Seq<Seq<char>> = Seq::empty();
        proof {
            assert(line_segments(game@, 0) =~= done + line_segments(game@, 0));
        }
        loop
            invariant
                start <= n == game@.len(),
                line_segments(game@, 0) == done + line_segments(game@, start as int),
                lines_applied(old(self).game_builder, self.game_builder, done),
            decreases n - start,
        {
            let br = newline_after(game, start);
            let seg = game.substring_char(start, br);
            let ghost pre_builder = self.game_builder;
            match self.apply_segment(seg) {
                Ok(()) => (),
                Err(e) => {
                    return Err(e);
                },
            }
            proof {
                lemma_lines_applied_snoc(
                    old(self).game_builder,
                    pre_builder,
                    self.game_builder,
                    done,
                    seg@,
                );
                done = done.push(seg@);
            }
            if br >= n {
                proof {
                    assert(line_segments(game@, start as int) =~= seq![seg@]);
                    assert(done =~= line_segments(game@, 0));
                }
                let ghost built = self.game_builder;
                let mut finished = GameBuilder::new();
                core::mem::swap(&mut self.game_builder, &mut finished);
                let r = finished.build();
                proof {
                    if r is Ok {
                        assert(lines_applied(
                            old(self).game_builder,
                            built,
                            line_segments(game@, 0),
                        ));
                    }
                }
                return r;
            }
            proof {
                let rest = line_segments(game@, br + 1);
                assert(line_segments(game@, start as int) =~= seq![seg@] + rest);
                assert((done.drop_last() + seq![seg@]) + rest =~= done + rest);
            }
            start = br + 1;
        }
    }
}

} // verus!
