use retroplay::builder::{GameBuilder, GameParser};
use retroplay::event::{parse_event, ParseErrorKind};
use retroplay::event_text::format_event;
use retroplay::game::{
    AdvanceParameter, Base, BallPathNode, EventModifier, EventType, FieldLocation, Fielder,
    FieldingErrorType, Runner,
};
use retroplay::record::{Info, Line};

#[test]
fn out_with_fly_and_location() {
    // fielder 8 has no fielder-to-runner mapping, so the omitted runner
    // annotation cannot be inferred and the field is rejected
    assert!(parse_event("8/F78").is_err());

    // with the runner written out, the modifier catalogue and the
    // precedence of the out alternative decide the rest
    let e = parse_event("8(B)/F78").unwrap();
    assert_eq!(
        e.event_type,
        EventType::Out {
            credited_fielder: Fielder::Known(8),
            assisting_fielders: vec![],
            runner_out: Runner::Batter,
        }
    );
    assert_eq!(
        e.modifiers,
        vec![EventModifier::Fly, EventModifier::HitLocation(FieldLocation::CenterLeft)]
    );
    assert!(e.advances.is_empty());
}

#[test]
fn stolen_bases_collapse() {
    let e = parse_event("SB2;SB3").unwrap();
    assert_eq!(e.event_type, EventType::StolenBase { bases: vec![Base::Second, Base::Third] });
    assert!(e.modifiers.is_empty());
    assert!(e.advances.is_empty());
}

#[test]
fn caught_stealing_with_throwing_error() {
    let e = parse_event("CS2(2E4/TH)").unwrap();
    assert_eq!(
        e.event_type,
        EventType::CaughtStealing {
            base: Base::Second,
            ball_path: vec![
                BallPathNode::Success { fielder: Fielder::Known(2) },
                BallPathNode::Error {
                    fielder: Fielder::Known(4),
                    error_type: FieldingErrorType::ThrowingError(None),
                },
            ],
        }
    );
}

#[test]
fn home_run_disambiguation() {
    let solo = parse_event("HR").unwrap();
    assert_eq!(solo.event_type, EventType::SoloHomeRun);

    let in_park = parse_event("H8").unwrap();
    assert_eq!(
        in_park.event_type,
        EventType::InsideTheParkHomeRun { credited_fielder: Fielder::Known(8) }
    );
}

#[test]
fn strikeout_with_sub_event() {
    let e = parse_event("K+SB2").unwrap();
    assert_eq!(
        e.event_type,
        EventType::Strikeout {
            ball_path: vec![],
            base_running_event: Some(Box::new(EventType::StolenBase {
                bases: vec![Base::Second],
            })),
        }
    );
}

#[test]
fn out_format_is_canonical() {
    let e = parse_event("8(B)/F78").unwrap();
    assert_eq!(format_event(&e), "8(B)/F/78");
}

#[test]
fn format_then_parse_is_identity() {
    let fields = [
        "43(1)",
        "643",
        "64(1)3(B)",
        "5(2)4(1)3(B)",
        "C",
        "S7",
        "S",
        "D89",
        "T9",
        "DGR",
        "E4",
        "34E2",
        "FC2",
        "FLE5",
        "HR",
        "HR7",
        "H8",
        "HP",
        "K",
        "K23",
        "K+SB2",
        "K23+CS2(24)",
        "NP",
        "W",
        "IW",
        "I",
        "W+WP",
        "IW+PB",
        "K+OA",
        "K+PO1(13)",
        "K+E4",
        "BK",
        "CS2(24)",
        "CSH(12E2/TH3)",
        "DI",
        "OA",
        "PB",
        "WP",
        "PO1(13)",
        "POCS2(1361)",
        "SB2;SB3;SBH",
        "SBH",
        "8(B)/F78.3-H(UR)",
        "S8/L.1-3;B-2(NR)",
        "D7/G.2-H(UR)(NR);1-3",
        "S7.3XH((86E2/TH))",
        "W.1-2(2/INT)",
        "WP.2-3(WP)",
        "PB.2-3(PB)",
        "S9.3-H(RBI);2-H(TUR)",
        "9(B)/SF/F9.3-H",
        "46(1)/FO/G4",
        "3/G/BGDP",
        "K/C",
        "54(B)/BP/BINT",
        "8(B)/IPHR/UREV",
        "D7/MREV/RINT/UINT",
        "S6/COUB/COUF/COUR/BOOT",
        "7(B)/FL/AP/IF/SH/SF",
        "8(B)/BR/PR/NDP/OBS",
        "6(B)/LDP/LTP/GTP/FDP/GDP",
        "43/E4/R5/TH",
        "D9/TH2/DP/TP/FINT/BPDP",
        "8(B)/78XD",
        "2(B)/2F",
        "5/5S/P",
    ];
    for field in fields {
        let first = parse_event(field).unwrap();
        let canon = format_event(&first);
        let second = parse_event(&canon).unwrap();
        assert_eq!(first, second, "round trip failed for {field}");
    }
}

#[test]
fn advance_parameters_decode() {
    let e = parse_event("S7.3XH((86E2/TH))").unwrap();
    assert_eq!(e.advances.len(), 1);
    let a = &e.advances[0];
    assert_eq!(a.starting_base, Base::Third);
    assert_eq!(a.ending_base, Base::Home);
    assert!(a.out);
    assert_eq!(
        a.parameters,
        vec![AdvanceParameter::BallPath(vec![
            BallPathNode::Success { fielder: Fielder::Known(8) },
            BallPathNode::Success { fielder: Fielder::Known(6) },
            BallPathNode::Error {
                fielder: Fielder::Known(2),
                error_type: FieldingErrorType::ThrowingError(None),
            },
        ])]
    );

    let e = parse_event("W.1-2(2/INT)").unwrap();
    assert_eq!(
        e.advances[0].parameters,
        vec![AdvanceParameter::Interference(FieldLocation::Catcher)]
    );
}

#[test]
fn unknown_fielder_reference() {
    let e = parse_event("SU").unwrap();
    assert_eq!(
        e.event_type,
        EventType::Single { credited_fielder: Fielder::Unknown, assisting_fielders: vec![] }
    );

    let e = parse_event("U3(B)").unwrap();
    assert_eq!(
        e.event_type,
        EventType::Out {
            credited_fielder: Fielder::Known(3),
            assisting_fielders: vec![Fielder::Unknown],
            runner_out: Runner::Batter,
        }
    );
}

#[test]
fn implied_runner_from_infield_fielder() {
    // with the runner annotation omitted, fielders 3, 4 and 5 imply a runner
    let e = parse_event("54").unwrap();
    assert_eq!(
        e.event_type,
        EventType::Out {
            credited_fielder: Fielder::Known(4),
            assisting_fielders: vec![Fielder::Known(5)],
            runner_out: Runner::Second,
        }
    );
}

#[test]
fn malformed_fields_are_rejected() {
    // no alternative matches the outcome token
    assert!(parse_event("").is_err());
    assert!(parse_event("ZZ").is_err());
    assert!(parse_event("8F").is_err());
    // an omitted runner annotation whose credited fielder has no
    // fielder-to-runner mapping cannot be inferred
    assert!(parse_event("8").is_err());
    assert!(parse_event("68").is_err());
    assert!(parse_event("64(1)8").is_err());
    // a stolen-base repetition must name strictly increasing bases
    assert!(parse_event("SB3;SB2").is_err());
    assert!(parse_event("SB2;SB2").is_err());
    // an unterminated fielding sequence
    assert!(parse_event("CS2(24").is_err());
    // a modifier code outside the catalogue
    assert!(parse_event("8/99").is_err());
    // a dangling modifier separator
    assert!(parse_event("8/").is_err());
    // an advance list that cannot be read
    assert!(parse_event("8.X-2").is_err());
}

#[test]
fn error_positions_and_kinds() {
    let err = parse_event("ZZ").unwrap_err();
    assert_eq!(err.kind, ParseErrorKind::UnknownVariant);
    assert_eq!(err.position, 0);

    // the outcome and one modifier parse; the rest cannot be consumed
    let err = parse_event("54/F#").unwrap_err();
    assert_eq!(err.kind, ParseErrorKind::TrailingInput);
    assert_eq!(err.position, 4);
}

#[test]
fn number_fields_wrap_like_the_source() {
    let result = Line::parse("info,number,300");
    assert_eq!(result, Ok(Line::Info(Info::Number(44))));
}

#[test]
fn builder_requires_id_version_and_plays() {
    let b = GameBuilder::new();
    let r = b.build();
    assert!(matches!(r, Err(ref m) if m == "id is required"));

    let mut b = GameBuilder::new();
    b.set_id("X".to_string());
    let r = b.build();
    assert!(matches!(r, Err(ref m) if m == "version is required"));

    let mut b = GameBuilder::new();
    b.set_id("X".to_string());
    b.set_version(1);
    let r = b.build();
    assert!(matches!(r, Err(ref m) if m == "plays are required"));
}

#[test]
fn parse_whole_game() {
    let game_text = "id,ANA201004050\n\
                     version,2\n\
                     info,visteam,CHC\n\
                     info,hometeam,NYA\n\
                     start,1,player1,0,1,3\n\
                     play,1,0,player1,??,,8(B)/F78";
    let mut parser = GameParser::new();
    let game = parser.parse_game(game_text).unwrap();
    assert_eq!(game.id, "ANA201004050");
    assert_eq!(game.version, 2);
    assert_eq!(game.plays.len(), 1);
    assert_eq!(game.plays[0].batter_id, "player1");

    // a malformed line spoils the whole account
    let mut parser = GameParser::new();
    assert!(parser.parse_game("id,A\nnonsense").is_err());
}
