use retroplay::builder::GameParser;
use retroplay::game::{DayNightInfo, Player, Position};
use retroplay::record::{Info, Line, Team};

#[test]
fn parse_id_line() {
    let mut parser = GameParser::new();

    let line = Line::Id("ANA201004050".to_string());
    let result = parser.parse_line(&line);
    assert!(result.is_ok());
}

#[test]
fn parse_version_line() {
    let mut parser = GameParser::new();

    let line = Line::Version(2);
    let result = parser.parse_line(&line);
    assert!(result.is_ok());
}

#[test]
fn parse_info_line() {
    let mut parser = GameParser::new();

    let line = Line::Info(Info::DayNight(DayNightInfo::Day));
    let result = parser.parse_line(&line);

    assert!(result.is_ok());
    assert!(parser.game_builder.info_state.day_night.is_some());
    assert_eq!(parser.game_builder.info_state.day_night, Some(DayNightInfo::Day));
}

#[test]
fn parse_start_line() {
    let mut parser = GameParser::new();

    let line = Line::Info(Info::HomeTeam("NYA".to_string()));
    let result = parser.parse_line(&line);
    assert!(result.is_ok());

    let line = Line::Info(Info::VisitingTeam("CHC".to_string()));
    let result = parser.parse_line(&line);
    assert!(result.is_ok());

    let line = Line::StartSub {
        is_start: true,
        player_id: "1".to_string(),
        player_name: "player1".to_string(),
        team: Team::Visiting,
        batting_order: 1,
        position: Position::FirstBase,
    };
    let result = parser.parse_line(&line);

    assert!(result.is_ok());
    assert!(parser.game_builder.visiting_team_players.contains(&Player {
        id: "1".to_string(),
        name: "player1".to_string(),
        team: "CHC".to_string(),
        positions: vec![Position::FirstBase],
        batting_order: 1,
    }));

    // test multiple positions
    let line = Line::StartSub {
        is_start: true,
        player_id: "2".to_string(),
        player_name: "player2".to_string(),
        team: Team::Home,
        batting_order: 1,
        position: Position::DesignatedHitter,
    };
    let result = parser.parse_line(&line);
    assert!(result.is_ok());
    assert!(parser.game_builder.home_team_players.contains(&Player {
        id: "2".to_string(),
        name: "player2".to_string(),
        team: "NYA".to_string(),
        batting_order: 1,
        positions: vec![Position::DesignatedHitter],
    }));

    let line = Line::StartSub {
        is_start: true,
        player_id: "2".to_string(),
        player_name: "player2".to_string(),
        team: Team::Home,
        batting_order: 1,
        position: Position::Pitcher,
    };
    let result = parser.parse_line(&line);
    assert!(result.is_ok());
    assert!(parser.game_builder.home_team_players.contains(&Player {
        id: "2".to_string(),
        name: "player2".to_string(),
        team: "NYA".to_string(),
        batting_order: 1,
        positions: vec![Position::Pitcher, Position::DesignatedHitter],
    }));

    assert_eq!(parser.game_builder.home_team_players.len(), 1);
    assert_eq!(parser.game_builder.visiting_team_players.len(), 1);
}
