//! The Sudoku application's state: the game, the screen on top of it, and
//! where a first puzzle comes from.

use vstd::prelude::*;

use crate::sudoku::screen::{press_answers, Press, SudokuHits, SudokuScreen};
use crate::sudoku_rules::game::Game;
use crate::sudoku_rules::generate::{drawn, Difficulty};

verus! {

/// The seed of a first puzzle where the system has no randomness to give.
pub const FALLBACK_SEED: u64 = 0x5344_4F4B_5530_3031;

/// A number written in bytes, the lowest first.
pub open spec fn little_endian(bytes: Seq<u8>) -> nat
    decreases bytes.len(),
{
    if bytes.len() == 0 {
        0
    } else {
        bytes[0] as nat + 256 * little_endian(bytes.drop_first())
    }
}

/// `getrandom::fill` fills a buffer from the system's randomness, or fails.
/// Nothing holds of the bytes it gives.
#[verifier::external_body]
fn random_bytes() -> (bytes: Option<[u8; 8]>) {
    let mut bytes = [0u8; 8];
    match getrandom::fill(&mut bytes) {
        Ok(()) => Some(bytes),
        Err(_) => None,
    }
}

/// The seed that random bytes stand for, or a fixed one without them: a player
/// is better served by a puzzle they may have seen than by no puzzle.
pub fn seed_from(bytes: Option<[u8; 8]>) -> (seed: u64)
    ensures
        bytes is None ==> seed == FALLBACK_SEED,
        bytes is Some ==> seed == little_endian(bytes->0@),
{
    match bytes {
        None => FALLBACK_SEED,
        Some(bytes) => {
            proof {
                reveal_with_fuel(little_endian, 9);
                lemma_bytes(bytes@);
            }
            bytes[0] as u64 + 256 * (bytes[1] as u64 + 256 * (bytes[2] as u64 + 256 * (bytes[3] as u64
                + 256 * (bytes[4] as u64 + 256 * (bytes[5] as u64 + 256 * (bytes[6] as u64 + 256
                * (bytes[7] as u64)))))))
        },
    }
}

proof fn lemma_bytes(s: Seq<u8>)
    requires
        s.len() == 8,
    ensures
        little_endian(s) == s[0] + 256 * (s[1] + 256 * (s[2] + 256 * (s[3] + 256 * (s[4] + 256 * (
        s[5] + 256 * (s[6] + 256 * s[7])))))),
{
    reveal_with_fuel(little_endian, 9);
}

/// The Sudoku app.
#[derive(Debug)]
pub struct SudokuApp {
    /// The puzzle being played.
    pub game: Game,
    /// What the screen shows on top of it.
    pub screen: SudokuScreen,
}

impl SudokuApp {
    /// The game and the screen are as they should be.
    pub open spec fn wf(&self) -> bool {
        self.game.wf() && self.screen.wf()
    }

    /// The app is on the first puzzle of `seed`, with nothing touched.
    pub open spec fn begins_with(&self, seed: u64) -> bool {
        let first = drawn(Difficulty::Easy, seed);
        &&& self.game.task().level() == Difficulty::Easy
        &&& self.game.task().clues() == first.givens
        &&& self.game.task().answer() == first.solution
        &&& self.game.position() == first.givens
        &&& self.game.stream() == first.state
        &&& self.game.changes() == 0
        &&& self.screen == (SudokuScreen {
            selected: None,
            notice: None,
            new_puzzle_armed: false,
            next_difficulty: Difficulty::Easy,
        })
    }

    /// A fresh app on a puzzle nobody has seen before.
    pub fn new() -> (app: Self)
        ensures
            app.wf(),
            exists|seed: u64| app.begins_with(seed),
    {
        let seed: u64 = seed_from(random_bytes());
        let app = Self::with_seed(seed);
        assert(app.begins_with(seed));
        app
    }

    /// A fresh app on the puzzle `seed` generates.
    pub fn with_seed(seed: u64) -> (app: Self)
        ensures
            app.wf(),
            app.begins_with(seed),
    {
        let game = Game::start(Difficulty::Easy, seed);
        Self { screen: SudokuScreen::new(game.difficulty()), game }
    }

    /// An app that goes on with a saved game.
    pub fn resume(game: Game) -> (app: Self)
        requires
            game.wf(),
        ensures
            app.wf(),
            app.game == game,
            app.screen == (SudokuScreen {
                selected: None,
                notice: None,
                new_puzzle_armed: false,
                next_difficulty: game.task().level(),
            }),
    {
        Self { screen: SudokuScreen::new(game.difficulty()), game }
    }

    /// Handles a pointer event and says whether the puzzle changed, which is
    /// when it is worth writing to storage: a tap that only moved the
    /// selection, or that was refused, is not.
    pub fn press(&mut self, hits: SudokuHits, most: usize) -> (answer: (Press, bool))
        requires
            old(self).wf(),
            old(self).game.changes() < u64::MAX,
            hits.wf(),
        ensures
            final(self).wf(),
            press_answers(
                old(self).screen,
                old(self).game.state(),
                hits,
                most as int,
                final(self).screen,
                final(self).game.state(),
                answer.0,
            ),
            answer.1 == (final(self).game.changes() != old(self).game.changes()),
    {
        let revision: u64 = self.game.revision();
        let press = self.screen.press(&mut self.game, hits, most);
        let changed = self.game.revision() != revision;
        (press, changed)
    }
}

impl Default for SudokuApp {
    fn default() -> (app: Self)
        ensures
            app.wf(),
            exists|seed: u64| app.begins_with(seed),
    {
        Self::new()
    }
}

} // verus!
