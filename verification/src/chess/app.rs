//! The Chess application's state: the game, and the screen on top of it.

use vstd::prelude::*;

use crate::action::Action;
use crate::chess::screen::{pressed, ChessHits, ChessScreen, ChessStep};
use crate::chess_rules::board::playable;
use crate::chess_rules::game::{start_game, Game};

verus! {

/// The Chess app.
#[derive(Debug)]
pub struct ChessApp {
    /// The game being played.
    pub game: Game,
    /// What the screen shows on top of it.
    pub screen: ChessScreen,
}

impl ChessApp {
    /// The game began at the starting position, and the screen is as it should
    /// be.
    pub open spec fn wf(&self) -> bool {
        &&& self.game.wf()
        &&& self.game.from_start()
        &&& playable(self.game@.board)
        &&& self.screen.wf()
    }

    /// A fresh app on a new game.
    pub fn new() -> (app: Self)
        ensures
            app.wf(),
            app.game@ == start_game(),
            app.screen == (ChessScreen {
                flipped: false,
                selected: None,
                pending_promotion: None,
                new_game_armed: false,
            }),
    {
        Self { game: Game::new(), screen: ChessScreen::new() }
    }

    /// Goes on with a saved game.
    pub fn resume(&mut self, game: Game)
        requires
            old(self).wf(),
            game.wf(),
            game.from_start(),
            playable(game@.board),
        ensures
            final(self).wf(),
            final(self).game == game,
            final(self).screen == old(self).screen,
    {
        self.game = game;
    }

    /// Handles a pointer event and says whether the game changed, which is
    /// when it is worth writing to storage: a tap that only changed the
    /// selection is not.
    pub fn press(&mut self, hits: ChessHits) -> (answer: (Action, bool))
        requires
            old(self).wf(),
            hits.square is Some ==> hits.square->0.wf(),
        ensures
            final(self).wf(),
            (ChessStep {
                screen: final(self).screen,
                game: final(self).game@,
                action: answer.0,
            }) == pressed(old(self).screen, old(self).game@, hits),
            answer.1 == (final(self).game@.events.len() != old(self).game@.events.len()),
    {
        let before: usize = self.game.ply();
        let action = self.screen.press(&mut self.game, hits);
        let changed = self.game.ply() != before;
        (action, changed)
    }
}

impl Default for ChessApp {
    fn default() -> (app: Self)
        ensures
            app.wf(),
            app.game@ == start_game(),
    {
        Self::new()
    }
}

} // verus!
