//! The event assembler: outcome, then modifiers, then an optional
//! `.`-introduced advance list, composed over one event-field string.

use vstd::prelude::*;
use crate::advances::{parse_advances, spec_advances};
use crate::event_parse::parse_event_type;
use crate::event_type::spec_event_type;
use crate::game::{Event, EventV, event_view};
use crate::modifiers::{lemma_modifiers_bounds, parse_modifiers, spec_modifiers};

verus! {

/// Why an event field failed to parse.
#[derive(Clone, Copy, Debug, PartialEq, Eq, Structural)]
pub enum ParseErrorKind {
    /// No primitive token matches at the position.
    Lex,
    /// A token matched a closed catalogue's shape but none of its values.
    UnknownVariant,
    /// A sub-grammar completed but a required surrounding piece is missing.
    StructuralError,
    /// The grammar succeeded but characters remain unconsumed.
    TrailingInput,
}

/// A structured parse failure: the character offset at which no alternative
/// could consume the input, and the kind of failure.
#[derive(Clone, Copy, Debug, PartialEq, Eq, Structural)]
pub struct ParseError {
    pub position: usize,
    pub kind: ParseErrorKind,
}

/// The end of the outcome token that starts at `i`: the first `/` or `.`
/// that stands outside parentheses, or the end of the input.
pub open spec fn token_end(s: Seq<char>, i: int, depth: int) -> int
    decreases s.len() - i,
{
    if !(0 <= i < s.len()) {
        s.len() as int
    } else if depth == 0 && (s[i] == '/' || s[i] == '.') {
        i
    } else {
        let d: int = if s[i] == '(' {
            depth + 1
        } else if s[i] == ')' && depth > 0 {
            depth - 1
        } else {
            depth
        };
        token_end(s, i + 1, d)
    }
}

pub proof fn lemma_token_end_bounds(s: Seq<char>, i: int, depth: int)
    requires
        0 <= i <= s.len(),
    ensures
        i <= token_end(s, i, depth) <= s.len(),
    decreases s.len() - i,
{
    if i < s.len() && !(depth == 0 && (s[i] == '/' || s[i] == '.')) {
        let d: int = if s[i] == '(' {
            depth + 1
        } else if s[i] == ')' && depth > 0 {
            depth - 1
        } else {
            depth
        };
        lemma_token_end_bounds(s, i + 1, d);
    }
}

/// Exec mirror of [`token_end`].
pub fn find_token_end(s: &str, i: usize) -> (te: usize)
    requires
        i <= s@.len(),
    ensures
        te == token_end(s@, i as int, 0),
        i <= te <= s@.len(),
{
    proof {
        lemma_token_end_bounds(s@, i as int, 0);
    }
    let n = s.unicode_len();
    let mut j = i;
    let mut depth: usize = 0;
    loop
        invariant
            i <= j <= n == s@.len(),
            depth <= j,
            token_end(s@, i as int, 0) == token_end(s@, j as int, depth as int),
        decreases n - j,
    {
        proof {
            lemma_token_end_bounds(s@, j as int, depth as int);
        }
        if j >= n {
            return j;
        }
        let c = s.get_char(j);
        if depth == 0 && (c == '/' || c == '.') {
            return j;
        }
        if c == '(' {
            depth = depth + 1;
        } else if c == ')' && depth > 0 {
            depth = depth - 1;
        }
        j += 1;
    }
}

/// An event parsed at position `i`: outcome token, modifier list, optional
/// advance list, and the position where parsing stopped.
pub open spec fn spec_parse_event_at(s: Seq<char>, i: int) -> Option<(EventV, int)> {
    let te = token_end(s, i, 0);
    match spec_event_type(s, i, te) {
        None => None,
        Some(et) => {
            let (mods, j) = spec_modifiers(s, te);
            if j < s.len() && s[j] == '.' {
                match spec_advances(s, j + 1) {
                    Some((advs, end)) => Some(
                        (EventV { event_type: et, modifiers: mods, advances: advs }, end),
                    ),
                    None => None,
                }
            } else {
                Some((EventV { event_type: et, modifiers: mods, advances: Seq::empty() }, j))
            }
        },
    }
}

/// A whole event field: an event that consumes every character.
pub open spec fn spec_parse_event(s: Seq<char>) -> Option<EventV> {
    match spec_parse_event_at(s, 0) {
        Some((e, end)) => {
            if end == s.len() {
                Some(e)
            } else {
                None
            }
        },
        None => None,
    }
}

/// Parses an event at position `i`; on success also returns the position
/// where the event ended.  On failure the error carries the offset of the
/// piece that could not be read.
pub fn parse_event_at(s: &str, i: usize) -> (r: Result<(Event, usize), ParseError>)
    requires
        i <= s@.len(),
    ensures
        match r {
            Ok((e, j)) => spec_parse_event_at(s@, i as int) == Some((event_view(e), j as int))
                && i <= j <= s@.len(),
            Err(_) => spec_parse_event_at(s@, i as int) is None,
        },
{
    let te = find_token_end(s, i);
    let et = match parse_event_type(s, i, te) {
        Some(et) => et,
        None => {
            return Err(ParseError { position: i, kind: ParseErrorKind::UnknownVariant });
        },
    };
    let (mods, j) = parse_modifiers(s, te);
    proof {
        lemma_modifiers_bounds(s@, te as int);
    }
    let n = s.unicode_len();
    if j < n && s.get_char(j) == '.' {
        match parse_advances(s, j + 1) {
            Some((advs, end)) => {
                let e = Event { event_type: et, modifiers: mods, advances: advs };
                Ok((e, end))
            },
            None => Err(ParseError { position: j + 1, kind: ParseErrorKind::StructuralError }),
        }
    } else {
        let e = Event { event_type: et, modifiers: mods, advances: Vec::new() };
        proof {
            assert(event_view(e).advances =~= Seq::<crate::game::AdvanceV>::empty());
        }
        Ok((e, j))
    }
}

/// Decodes one whole event field, the core transform of this crate: the
/// outcome, its modifiers in source order, and its advances in source
/// order.  Fails exactly when the grammar admits no reading of the whole
/// string, with the offset where parsing stopped.
pub fn parse_event(s: &str) -> (r: Result<Event, ParseError>)
    ensures
        r is Ok <==> spec_parse_event(s@) is Some,
        r matches Ok(e) ==> spec_parse_event(s@) == Some(event_view(e)),
{
    match parse_event_at(s, 0) {
        Ok((e, j)) => {
            let n = s.unicode_len();
            if j == n {
                Ok(e)
            } else {
                Err(ParseError { position: j, kind: ParseErrorKind::TrailingInput })
            }
        },
        Err(err) => Err(err),
    }
}

} // verus!
