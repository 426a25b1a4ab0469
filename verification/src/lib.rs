//! Decoder for play-by-play baseball event records written in the compact
//! positional text notation used by retrosheet-style game accounts.
//!
//! The heart of the crate is the event-field grammar engine: an ordered-choice
//! recursive-descent parser that turns one event-field string such as
//! `8/F78.3-H(UR)` into a typed [`game::Event`], together with a formatter
//! that maps events back to canonical text.  The grammar is specified by pure
//! spec functions over `Seq<char>`; every executable parser is proved to
//! return exactly what the specification says.

pub mod advances;
pub mod ball_path;
pub mod builder;
pub mod event;
pub mod event_parse;
pub mod event_text;
pub mod event_type;
pub mod files;
pub mod game;
pub mod laws;
pub mod lex;
pub mod locations;
pub mod modifiers;
pub mod record;
