//! The file level: splitting a multi-game file into per-game text blocks,
//! one per `id,` occurrence, and handing each block to the game parser.

use vstd::prelude::*;
use crate::builder::{GameBuilder, GameParser, fresh_builder, game_decodes_block, line_segments, lines_applied};
use crate::game::Game;
use crate::lex::{lit_at, match_lit};

verus! {

/// The first position at or after `i` where a game block begins (the
/// pattern `id,` occurs), or the end of the input.
pub open spec fn find_game_mark(s: Seq<char>, i: int) -> int
    decreases s.len() - i,
{
    if !(0 <= i) || i + 3 > s.len() {
        s.len() as int
    } else if lit_at(s, i, "id,"@) {
        i
    } else {
        find_game_mark(s, i + 1)
    }
}

pub proof fn lemma_find_game_mark(s: Seq<char>, i: int)
    requires
        0 <= i <= s.len(),
    ensures
        i <= find_game_mark(s, i) <= s.len(),
        find_game_mark(s, i) < s.len() ==> lit_at(s, find_game_mark(s, i), "id,"@)
            && find_game_mark(s, i) + 3 <= s.len(),
    decreases s.len() - i,
{
    reveal_strlit("id,");
    if i + 3 <= s.len() && !lit_at(s, i, "id,"@) {
        lemma_find_game_mark(s, i + 1);
    }
}

/// The per-game text blocks from position `i` on: each block is `id,`
/// followed by the text up to the next `id,` mark, exactly as splitting the
/// file at every `id,` occurrence and restoring the prefix leaves them.
pub open spec fn game_blocks(s: Seq<char>, i: int) -> Seq<Seq<char>>
    decreases s.len() + 3 - i,
{
    let m = find_game_mark(s, i);
    if m >= s.len() {
        seq!["id,"@ + s.subrange(i, s.len() as int)]
    } else {
        if i <= m && m + 3 <= s.len() {
            seq!["id,"@ + s.subrange(i, m)] + game_blocks(s, m + 3)
        } else {
            Seq::empty()
        }
    }
}

/// The whole file's game blocks.
pub open spec fn spec_split_games(s: Seq<char>) -> Seq<Seq<char>> {
    game_blocks(s, 0)
}

/// The texts of a list of strings.
pub open spec fn string_views(v: Seq<String>) -> Seq<Seq<char>> {
    v.map_values(|t: String| t@)
}

/// Exec mirror of [`find_game_mark`].
fn next_game_mark(s: &str, i: usize) -> (j: usize)
    requires
        i <= s@.len(),
    ensures
        j as int == find_game_mark(s@, i as int),
        i <= j <= s@.len(),
        j < s@.len() ==> j + 3 <= s@.len(),
{
    let n = s.unicode_len();
    let mut j = i;
    loop
        invariant
            i <= j <= n == s@.len(),
            find_game_mark(s@, i as int) == find_game_mark(s@, j as int),
        decreases n - j,
    {
        proof {
            lemma_find_game_mark(s@, j as int);
        }
        if n - j < 3 {
            return n;
        }
        if match_lit(s, j, "id,") {
            return j;
        }
        j += 1;
    }
}

/// Reads whole game-account files: splits them into per-game blocks and
/// decodes each block.
pub struct FileParser;

impl FileParser {
    pub fn new() -> Self {
        FileParser {}
    }

    /// Splits a file into per-game text blocks: one block for each `id,`
    /// occurrence, with the text before the first occurrence kept as a
    /// leading block of its own.
    fn split_games(&self, file_content: &str) -> (r: Vec<String>)
        ensures
            string_views(r@) == spec_split_games(file_content@),
            r@.len() >= 1,
    {
        let n = file_content.unicode_len();
        let mut out: Vec<String> = Vec::new();
        let mut cur: usize = 0;
        proof {
            assert(string_views(out@) =~= Seq::<Seq<char>>::empty());
        }
        loop
            invariant
                cur <= n == file_content@.len(),
                game_blocks(file_content@, 0) == string_views(out@) + game_blocks(
                    file_content@,
                    cur as int,
                ),
            decreases n + 3 - cur,
        {
            let m = next_game_mark(file_content, cur);
            let mut piece = "id,".to_owned();
            piece.append(file_content.substring_char(cur, m));
            let ghost piece_view = piece@;
            let ghost old_out = out@;
            out.push(piece);
            proof {
                assert(piece_view =~= "id,"@ + file_content@.subrange(cur as int, m as int));
                assert(string_views(out@) =~= string_views(old_out).push(piece_view));
            }
            if m >= n {
                proof {
                    assert(game_blocks(file_content@, cur as int) =~= seq![piece_view]);
                    assert(string_views(old_out) + seq![piece_view] =~= string_views(out@));
                }
                return out;
            }
            proof {
                lemma_find_game_mark(file_content@, cur as int);
                let rest = game_blocks(file_content@, m + 3);
                assert(game_blocks(file_content@, cur as int) =~= seq![piece_view] + rest);
                assert(string_views(old_out) + (seq![piece_view] + rest) =~= string_views(out@)
                    + rest);
            }
            cur = m + 3;
        }
    }

    /// Decodes one game block from a fresh builder.
    fn parse_game(&self, game: &str) -> (r: Result<Game, String>)
        ensures
            r matches Ok(g) ==> game_decodes_block(g, game@),
    {
        let mut parser = GameParser::new();
        let ghost b0 = parser.game_builder;
        let r = parser.parse_game(game);
        proof {
            if r is Ok {
                let g = r.unwrap();
                let bf = choose|bf: GameBuilder|
                    {
                        &&& #[trigger] lines_applied(b0, bf, line_segments(game@, 0))
                        &&& bf.id is Some
                        &&& bf.version is Some
                        &&& g.id == bf.id.unwrap()
                        &&& g.version == bf.version.unwrap()
                        &&& g.plays == bf.plays
                    };
                assert(fresh_builder(b0) && lines_applied(b0, bf, line_segments(game@, 0))
                    && bf.id is Some && bf.version is Some && g.id == bf.id.unwrap()
                    && g.version == bf.version.unwrap() && g.plays == bf.plays
                    && g.plays@.len() > 0);
            }
        }
        r
    }

    /// Splits a file into game blocks and decodes them all in order: on
    /// success the list holds, for each block, exactly the game that block
    /// decodes to.  The first block that fails spoils the whole file.
    pub fn parse_file(&mut self, file_content: &str) -> (r: Result<Vec<Game>, String>)
        ensures
            r matches Ok(games) ==> games@.len() == spec_split_games(file_content@).len()
                && (forall|k: int|
                0 <= k < games@.len() ==> game_decodes_block(
                    #[trigger] games@[k],
                    spec_split_games(file_content@)[k],
                )),
    {
        let games_text = self.split_games(file_content);
        let mut parsed_games: Vec<Game> = Vec::new();
        let mut k: usize = 0;
        while k < games_text.len()
            invariant
                0 <= k <= games_text@.len(),
                string_views(games_text@) == spec_split_games(file_content@),
                parsed_games@.len() == k,
                forall|j: int|
                    0 <= j < parsed_games@.len() ==> game_decodes_block(
                        #[trigger] parsed_games@[j],
                        spec_split_games(file_content@)[j],
                    ),
            decreases games_text@.len() - k,
        {
            let game = match self.parse_game(games_text[k].as_str()) {
                Ok(g) => g,
                Err(e) => {
                    return Err(e);
                },
            };
            proof {
                assert(string_views(games_text@)[k as int] == games_text@[k as int]@);
            }
            parsed_games.push(game);
            k += 1;
        }
        proof {
            assert(spec_split_games(file_content@).len() == games_text@.len());
        }
        Ok(parsed_games)
    }
}

} // verus!
