use retroplay::game::{
    AttendanceInfo, Count, DayNightInfo, Event, EventModifier, EventType, FieldConditionInfo,
    FieldLocation, Fielder, GameTypeInfo, Pitch, PitchType, PitchesInfo, PlayNote, Position,
    PrecipitationInfo, Runner, SkyInfo, TemperatureInfo, TimeOfGameInfo, WindDirectionInfo,
    WindSpeedInfo,
};
use retroplay::record::{Info, Line, Team};

#[test]
fn parse_valid_id() {
    let line = "id,ANA201004050";
    let result = Line::parse(line);
    assert_eq!(result, Ok(Line::Id("ANA201004050".to_string())));
}

#[test]
fn parse_version() {
    // test valid
    let line = "version,2";
    let result = Line::parse(line);
    assert_eq!(result, Ok(Line::Version(2)));

    // test invalid
    let line = "version,a";
    let result = Line::parse(line);
    assert!(result.is_err());
}

#[test]
fn parse_info_visteam() {
    let line = "info,visteam,ANA";
    let result = Line::parse(line);
    assert_eq!(result, Ok(Line::Info(Info::VisitingTeam("ANA".to_string()))));
}

#[test]
fn parse_info_hometeam() {
    let line = "info,hometeam,LAA";
    let result = Line::parse(line);
    assert_eq!(result, Ok(Line::Info(Info::HomeTeam("LAA".to_string()))));
}

#[test]
fn parse_info_date() {
    let line = "info,date,2010-04-05";
    let result = Line::parse(line);
    assert_eq!(result, Ok(Line::Info(Info::Date("2010-04-05".to_string()))));
}

#[test]
fn parse_info_number() {
    // test valid
    let line = "info,number,1";
    let result = Line::parse(line);
    assert_eq!(result, Ok(Line::Info(Info::Number(1))));

    // test invalid
    let line = "info,number,a";
    let result = Line::parse(line);
    assert!(result.is_err());
}

#[test]
fn parse_info_daynight() {
    // test valid
    let line = "info,daynight,day";
    let result = Line::parse(line);
    assert_eq!(result, Ok(Line::Info(Info::DayNight(DayNightInfo::Day))));

    let line = "info,daynight,night";
    let result = Line::parse(line);
    assert_eq!(result, Ok(Line::Info(Info::DayNight(DayNightInfo::Night))));

    // test invalid
    let line = "info,daynight,a";
    let result = Line::parse(line);
    assert!(result.is_err());
}

#[test]
fn parse_info_innings() {
    // test valid
    let line = "info,innings,9";
    let result = Line::parse(line);
    assert_eq!(result, Ok(Line::Info(Info::Innings(9))));

    // test invalid
    let line = "info,innings,a";
    let result = Line::parse(line);
    assert!(result.is_err());
}

#[test]
fn parse_info_tiebreaker() {
    // test valid
    let line = "info,tiebreaker,1";
    let result = Line::parse(line);
    assert_eq!(result, Ok(Line::Info(Info::Tiebreaker(1))));

    // test invalid
    let line = "info,tiebreaker,a";
    let result = Line::parse(line);
    assert!(result.is_err());
}

#[test]
fn parse_info_usedh() {
    // test valid
    let line = "info,usedh,true";
    let result = Line::parse(line);
    assert_eq!(result, Ok(Line::Info(Info::UsedDesignatedHitterRule(true))));

    let line = "info,usedh,false";
    let result = Line::parse(line);
    assert_eq!(result, Ok(Line::Info(Info::UsedDesignatedHitterRule(false))));

    // test invalid
    let line = "info,usedh,a";
    let result = Line::parse(line);
    assert!(result.is_err());
}

#[test]
fn parse_info_pitches() {
    // test valid
    let line = "info,pitches,pitches";
    let result = Line::parse(line);
    assert_eq!(result, Ok(Line::Info(Info::Pitches(PitchesInfo::Pitches))));

    let line = "info,pitches,count";
    let result = Line::parse(line);
    assert_eq!(result, Ok(Line::Info(Info::Pitches(PitchesInfo::Count))));

    let line = "info,pitches,none";
    let result = Line::parse(line);
    assert_eq!(result, Ok(Line::Info(Info::Pitches(PitchesInfo::NotRecorded))));

    // test invalid
    let line = "info,pitches,a";
    let result = Line::parse(line);
    assert!(result.is_err());
}

#[test]
fn parse_info_oscorer() {
    let line = "info,oscorer,abc";
    let result = Line::parse(line);
    assert_eq!(result, Ok(Line::Info(Info::OfficialScorer("abc".to_string()))));
}

#[test]
fn parse_info_htbf() {
    // test valid
    let line = "info,htbf,true";
    let result = Line::parse(line);
    assert_eq!(result, Ok(Line::Info(Info::HomeTeamBatFirst(true))));

    let line = "info,htbf,false";
    let result = Line::parse(line);
    assert_eq!(result, Ok(Line::Info(Info::HomeTeamBatFirst(false))));

    // test invalid
    let line = "info,htbf,a";
    let result = Line::parse(line);
    assert!(result.is_err());
}

#[test]
fn parse_info_umpire_home() {
    let line = "info,umphome,abc";
    let result = Line::parse(line);
    assert_eq!(result, Ok(Line::Info(Info::UmpireHome(Some("abc".to_string())))));

    let line = "info,umphome,(none)";
    let result = Line::parse(line);
    assert_eq!(result, Ok(Line::Info(Info::UmpireHome(None))));
}

#[test]
fn parse_info_umpire_1b() {
    let line = "info,ump1b,abc";
    let result = Line::parse(line);
    assert_eq!(result, Ok(Line::Info(Info::Umpire1B(Some("abc".to_string())))));

    let line = "info,ump1b,(none)";
    let result = Line::parse(line);
    assert_eq!(result, Ok(Line::Info(Info::Umpire1B(None))));
}

#[test]
fn parse_info_umpire_2b() {
    let line = "info,ump2b,abc";
    let result = Line::parse(line);
    assert_eq!(result, Ok(Line::Info(Info::Umpire2B(Some("abc".to_string())))));

    let line = "info,ump2b,(none)";
    let result = Line::parse(line);
    assert_eq!(result, Ok(Line::Info(Info::Umpire2B(None))));
}

#[test]
fn parse_info_umpire_3b() {
    let line = "info,ump3b,abc";
    let result = Line::parse(line);
    assert_eq!(result, Ok(Line::Info(Info::Umpire3B(Some("abc".to_string())))));

    let line = "info,ump3b,(none)";
    let result = Line::parse(line);
    assert_eq!(result, Ok(Line::Info(Info::Umpire3B(None))));
}

#[test]
fn parse_info_umpire_lf() {
    let line = "info,umplf,abc";
    let result = Line::parse(line);
    assert_eq!(result, Ok(Line::Info(Info::UmpireLeftField(Some("abc".to_string())))));

    let line = "info,umplf,(none)";
    let result = Line::parse(line);
    assert_eq!(result, Ok(Line::Info(Info::UmpireLeftField(None))));
}

#[test]
fn parse_info_umpire_rf() {
    let line = "info,umprf,abc";
    let result = Line::parse(line);
    assert_eq!(result, Ok(Line::Info(Info::UmpireRightField(Some("abc".to_string())))));

    let line = "info,umprf,(none)";
    let result = Line::parse(line);
    assert_eq!(result, Ok(Line::Info(Info::UmpireRightField(None))));
}

#[test]
fn parse_info_fieldcond() {
    // test valid
    let line = "info,fieldcond,dry";
    let result = Line::parse(line);
    assert_eq!(result, Ok(Line::Info(Info::FieldCondition(FieldConditionInfo::Dry))));

    let line = "info,fieldcond,soaked";
    let result = Line::parse(line);
    assert_eq!(result, Ok(Line::Info(Info::FieldCondition(FieldConditionInfo::Soaked))));

    let line = "info,fieldcond,wet";
    let result = Line::parse(line);
    assert_eq!(result, Ok(Line::Info(Info::FieldCondition(FieldConditionInfo::Wet))));

    let line = "info,fieldcond,unknown";
    let result = Line::parse(line);
    assert_eq!(result, Ok(Line::Info(Info::FieldCondition(FieldConditionInfo::Unknown))));

    // test invalid
    let line = "info,fieldcond,a";
    let result = Line::parse(line);
    assert!(result.is_err());
}

#[test]
fn parse_info_precip() {
    // test valid
    let line = "info,precip,drizzle";
    let result = Line::parse(line);
    assert_eq!(result, Ok(Line::Info(Info::Precipitation(PrecipitationInfo::Drizzle))));

    let line = "info,precip,none";
    let result = Line::parse(line);
    assert_eq!(
        result,
        Ok(Line::Info(Info::Precipitation(PrecipitationInfo::NoPrecipitation)))
    );

    let line = "info,precip,rain";
    let result = Line::parse(line);
    assert_eq!(result, Ok(Line::Info(Info::Precipitation(PrecipitationInfo::Rain))));

    let line = "info,precip,showers";
    let result = Line::parse(line);
    assert_eq!(result, Ok(Line::Info(Info::Precipitation(PrecipitationInfo::Showers))));

    let line = "info,precip,snow";
    let result = Line::parse(line);
    assert_eq!(result, Ok(Line::Info(Info::Precipitation(PrecipitationInfo::Snow))));

    let line = "info,precip,unknown";
    let result = Line::parse(line);
    assert_eq!(result, Ok(Line::Info(Info::Precipitation(PrecipitationInfo::Unknown))));

    // test invalid
    let line = "info,precip,a";
    let result = Line::parse(line);
    assert!(result.is_err());
}

#[test]
fn parse_info_sky() {
    // test valid
    let line = "info,sky,cloudy";
    let result = Line::parse(line);
    assert_eq!(result, Ok(Line::Info(Info::Sky(SkyInfo::Cloudy))));

    let line = "info,sky,dome";
    let result = Line::parse(line);
    assert_eq!(result, Ok(Line::Info(Info::Sky(SkyInfo::Dome))));

    let line = "info,sky,night";
    let result = Line::parse(line);
    assert_eq!(result, Ok(Line::Info(Info::Sky(SkyInfo::Night))));

    let line = "info,sky,overcast";
    let result = Line::parse(line);
    assert_eq!(result, Ok(Line::Info(Info::Sky(SkyInfo::Overcast))));

    let line = "info,sky,sunny";
    let result = Line::parse(line);
    assert_eq!(result, Ok(Line::Info(Info::Sky(SkyInfo::Sunny))));

    let line = "info,sky,unknown";
    let result = Line::parse(line);
    assert_eq!(result, Ok(Line::Info(Info::Sky(SkyInfo::Unknown))));

    // test invalid
    let line = "info,sky,a";
    let result = Line::parse(line);
    assert!(result.is_err());
}

#[test]
fn parse_info_temp() {
    // test valid
    let line = "info,temp,70";
    let result = Line::parse(line);
    assert_eq!(result, Ok(Line::Info(Info::Temperature(TemperatureInfo::Known(70)))));

    let line = "info,temp,0";
    let result = Line::parse(line);
    assert_eq!(result, Ok(Line::Info(Info::Temperature(TemperatureInfo::Unknown))));

    // test invalid
    let line = "info,temp,a";
    let result = Line::parse(line);
    assert!(result.is_err());
}

#[test]
fn parse_info_winddir() {
    // test valid
    let line = "info,winddir,fromcf";
    let result = Line::parse(line);
    assert_eq!(
        result,
        Ok(Line::Info(Info::WindDirection(WindDirectionInfo::FromCenterField)))
    );

    let line = "info,winddir,fromlf";
    let result = Line::parse(line);
    assert_eq!(
        result,
        Ok(Line::Info(Info::WindDirection(WindDirectionInfo::FromLeftField)))
    );

    let line = "info,winddir,fromrf";
    let result = Line::parse(line);
    assert_eq!(
        result,
        Ok(Line::Info(Info::WindDirection(WindDirectionInfo::FromRightField)))
    );

    let line = "info,winddir,ltor";
    let result = Line::parse(line);
    assert_eq!(result, Ok(Line::Info(Info::WindDirection(WindDirectionInfo::LeftToRight))));

    let line = "info,winddir,rtol";
    let result = Line::parse(line);
    assert_eq!(result, Ok(Line::Info(Info::WindDirection(WindDirectionInfo::RightToLeft))));

    let line = "info,winddir,tocf";
    let result = Line::parse(line);
    assert_eq!(
        result,
        Ok(Line::Info(Info::WindDirection(WindDirectionInfo::ToCenterField)))
    );

    let line = "info,winddir,tolf";
    let result = Line::parse(line);
    assert_eq!(result, Ok(Line::Info(Info::WindDirection(WindDirectionInfo::ToLeftField))));

    let line = "info,winddir,torf";
    let result = Line::parse(line);
    assert_eq!(result, Ok(Line::Info(Info::WindDirection(WindDirectionInfo::ToRightField))));

    let line = "info,winddir,unknown";
    let result = Line::parse(line);
    assert_eq!(result, Ok(Line::Info(Info::WindDirection(WindDirectionInfo::Unknown))));

    // test invalid
    let line = "info,winddir,a";
    let result = Line::parse(line);
    assert!(result.is_err());
}

#[test]
fn parse_info_windspeed() {
    // test valid
    let line = "info,windspeed,10";
    let result = Line::parse(line);
    assert_eq!(result, Ok(Line::Info(Info::WindSpeed(WindSpeedInfo::Known(10)))));

    let line = "info,windspeed,-1";
    let result = Line::parse(line);
    assert_eq!(result, Ok(Line::Info(Info::WindSpeed(WindSpeedInfo::Unknown))));

    // test invalid
    let line = "info,windspeed,a";
    let result = Line::parse(line);
    assert!(result.is_err());
}

#[test]
fn parse_info_timeofgame() {
    // test valid
    let line = "info,timeofgame,120";
    let result = Line::parse(line);
    assert_eq!(result, Ok(Line::Info(Info::TimeOfGame(TimeOfGameInfo::Known(120)))));

    let line = "info,timeofgame,0";
    let result = Line::parse(line);
    assert_eq!(result, Ok(Line::Info(Info::TimeOfGame(TimeOfGameInfo::Unknown))));

    // test invalid
    let line = "info,timeofgame,a";
    let result = Line::parse(line);
    assert!(result.is_err());
}

#[test]
fn parse_info_attendance() {
    // test valid
    let line = "info,attendance,120";
    let result = Line::parse(line);
    assert_eq!(result, Ok(Line::Info(Info::Attendance(AttendanceInfo::Known(120)))));

    let line = "info,attendance,0";
    let result = Line::parse(line);
    assert_eq!(result, Ok(Line::Info(Info::Attendance(AttendanceInfo::Unknown))));

    // test invalid
    let line = "info,attendance,a";
    let result = Line::parse(line);
    assert!(result.is_err());
}

#[test]
fn parse_info_site() {
    let line = "info,site,abc";
    let result = Line::parse(line);
    assert_eq!(result, Ok(Line::Info(Info::Site("abc".to_string()))));
}

#[test]
fn parse_info_wp() {
    let line = "info,wp,abc";
    let result = Line::parse(line);
    assert_eq!(result, Ok(Line::Info(Info::WP("abc".to_string()))));
}

#[test]
fn parse_info_lp() {
    let line = "info,lp,abc";
    let result = Line::parse(line);
    assert_eq!(result, Ok(Line::Info(Info::LP("abc".to_string()))));
}

#[test]
fn parse_info_save() {
    let line = "info,save,abc";
    let result = Line::parse(line);
    assert_eq!(result, Ok(Line::Info(Info::Save(Some("abc".to_string())))));

    let line = "info,save,";
    let result = Line::parse(line);
    assert_eq!(result, Ok(Line::Info(Info::Save(None))));
}

#[test]
fn parse_info_gwrbi() {
    let line = "info,gwrbi,abc";
    let result = Line::parse(line);
    assert_eq!(result, Ok(Line::Info(Info::GameWinningRBI(Some("abc".to_string())))));

    let line = "info,gwrbi,";
    let result = Line::parse(line);
    assert_eq!(result, Ok(Line::Info(Info::GameWinningRBI(None))));
}

#[test]
fn parse_info_gametype() {
    // test valid
    let line = "info,gametype,regular";
    let result = Line::parse(line);
    assert_eq!(result, Ok(Line::Info(Info::GameType(GameTypeInfo::Regular))));

    let line = "info,gametype,exhibition";
    let result = Line::parse(line);
    assert_eq!(result, Ok(Line::Info(Info::GameType(GameTypeInfo::Exhibition))));

    let line = "info,gametype,preseason";
    let result = Line::parse(line);
    assert_eq!(result, Ok(Line::Info(Info::GameType(GameTypeInfo::Preseason))));

    let line = "info,gametype,allstar";
    let result = Line::parse(line);
    assert_eq!(result, Ok(Line::Info(Info::GameType(GameTypeInfo::AllStar))));

    let line = "info,gametype,playoff";
    let result = Line::parse(line);
    assert_eq!(result, Ok(Line::Info(Info::GameType(GameTypeInfo::Playoff))));

    let line = "info,gametype,worldseries";
    let result = Line::parse(line);
    assert_eq!(result, Ok(Line::Info(Info::GameType(GameTypeInfo::WorldSeries))));

    let line = "info,gametype,lcs";
    let result = Line::parse(line);
    assert_eq!(
        result,
        Ok(Line::Info(Info::GameType(GameTypeInfo::LeagueChampionshipSeries)))
    );

    let line = "info,gametype,divisionseries";
    let result = Line::parse(line);
    assert_eq!(result, Ok(Line::Info(Info::GameType(GameTypeInfo::DivisionSeries))));

    let line = "info,gametype,wildcard";
    let result = Line::parse(line);
    assert_eq!(result, Ok(Line::Info(Info::GameType(GameTypeInfo::Wildcard))));

    let line = "info,gametype,championship";
    let result = Line::parse(line);
    assert_eq!(result, Ok(Line::Info(Info::GameType(GameTypeInfo::Championship))));

    // test invalid
    let line = "info,gametype,a";
    let result = Line::parse(line);
    assert!(result.is_err());
}

#[test]
fn parse_info_other() {
    let line = "info,key,value";
    let result = Line::parse(line);
    assert_eq!(
        result,
        Ok(Line::Info(Info::Other("key".to_string(), "value".to_string())))
    );
}

#[test]
fn parse_invalid_line_type() {
    let line = "invalid,line";
    let result = Line::parse(line);
    assert!(result.is_err());
}

#[test]
fn parse_start_sub_line() {
    let line = "start,1,player1,0,1,3";
    let result = Line::parse(line);
    assert_eq!(
        result,
        Ok(Line::StartSub {
            is_start: true,
            player_id: "1".to_string(),
            player_name: "player1".to_string(),
            team: Team::Visiting,
            batting_order: 1,
            position: Position::FirstBase,
        })
    );

    let line = "sub,2,player2,1,2,8";
    let result = Line::parse(line);
    assert_eq!(
        result,
        Ok(Line::StartSub {
            is_start: false,
            player_id: "2".to_string(),
            player_name: "player2".to_string(),
            team: Team::Home,
            batting_order: 2,
            position: Position::CenterField,
        })
    );
}

#[test]
fn parse_play_line() {
    // the out's runner annotation is omitted and fielder 8 has no
    // fielder-to-runner mapping, so the event field is rejected
    let line = "play,7,0,saboc001,01,CX,8/F78";
    let result = Line::parse(line);
    assert!(result.is_err());

    // with the runner written out the record decodes in full
    let line = "play,7,0,saboc001,01,CX,8(B)/F78";
    let result = Line::parse(line);
    assert_eq!(
        result,
        Ok(Line::Play {
            inning: 7,
            team: Team::Visiting,
            batter_id: "saboc001".to_string(),
            count: Count::Known { balls: 0, strikes: 1 },
            pitches: Some(vec![
                Pitch { pitch_type: PitchType::CalledStrike, pitch_modifier: None },
                Pitch { pitch_type: PitchType::BallInPlayByBatter, pitch_modifier: None },
            ]),
            event: Event {
                event_type: EventType::Out {
                    credited_fielder: Fielder::Known(8),
                    assisting_fielders: Vec::new(),
                    runner_out: Runner::Batter,
                },
                modifiers: vec![
                    EventModifier::Fly,
                    EventModifier::HitLocation(FieldLocation::CenterLeft),
                ],
                advances: Vec::new(),
            },
            note: None,
        })
    );
}

#[test]
fn parse_play_line_with_note() {
    // a scorer's note directly after a bare outcome
    let result = Line::parse("play,1,0,x,??,,NP#");
    assert_eq!(
        result,
        Ok(Line::Play {
            inning: 1,
            team: Team::Visiting,
            batter_id: "x".to_string(),
            count: Count::Unknown,
            pitches: None,
            event: Event {
                event_type: EventType::NoPlay,
                modifiers: Vec::new(),
                advances: Vec::new(),
            },
            note: Some(PlayNote::UncertainHash),
        })
    );

    // a trailing hard-hit mark where the strikeout's own sub-event joiner
    // cannot account for it
    let result = Line::parse("play,1,0,x,??,,K+");
    assert_eq!(
        result,
        Ok(Line::Play {
            inning: 1,
            team: Team::Visiting,
            batter_id: "x".to_string(),
            count: Count::Unknown,
            pitches: None,
            event: Event {
                event_type: EventType::Strikeout {
                    ball_path: Vec::new(),
                    base_running_event: None,
                },
                modifiers: Vec::new(),
                advances: Vec::new(),
            },
            note: Some(PlayNote::HardHit),
        })
    );

    // a note after a modifier still works the direct way
    let result = Line::parse("play,1,0,x,??,,54/G!");
    assert_eq!(
        result,
        Ok(Line::Play {
            inning: 1,
            team: Team::Visiting,
            batter_id: "x".to_string(),
            count: Count::Unknown,
            pitches: None,
            event: Event {
                event_type: EventType::Out {
                    credited_fielder: Fielder::Known(4),
                    assisting_fielders: vec![Fielder::Known(5)],
                    runner_out: Runner::Second,
                },
                modifiers: vec![EventModifier::GroundBall],
                advances: Vec::new(),
            },
            note: Some(PlayNote::Exceptional),
        })
    );

    // further bare outcomes with trailing marks
    match Line::parse("play,1,0,x,??,,S8!").unwrap() {
        Line::Play { note, .. } => assert_eq!(note, Some(PlayNote::Exceptional)),
        other => panic!("not a play record: {other:?}"),
    }
    match Line::parse("play,1,0,x,??,,CS2(24)+").unwrap() {
        Line::Play { note, .. } => assert_eq!(note, Some(PlayNote::HardHit)),
        other => panic!("not a play record: {other:?}"),
    }

    // at most one trailing mark; anything more spoils the line
    assert!(Line::parse("play,1,0,x,??,,NP#!").is_err());
    assert!(Line::parse("play,1,0,x,??,,NP##").is_err());
}
