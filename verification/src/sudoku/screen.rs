//! What a tap on the Sudoku screen does, and what it changes on the glass.
//!
//! The press is the only moment the state before and the state after both
//! exist, so the press is what says what moved. Entering a digit is the case
//! worth being exact about: one cell out of eighty-one.

use vstd::prelude::*;
use vstd::string::*;

use crate::action::Action;
use crate::damage::Damage;
use crate::sudoku::layout::PadKey;
use crate::sudoku_rules::error::MoveError;
use crate::sudoku_rules::game::{clear_verdict, entry_verdict, renewed, rewritten, Game, GameState};
use crate::sudoku_rules::generate::Difficulty;
use crate::sudoku_rules::model::{filled, solved};
use crate::sudoku_rules::types::{cell_name, Cell};
use crate::text::{decimal, push_decimal, push_text};

verus! {

/// What the screen is saying about the last press, on top of the board state.
///
/// All three are refusals. The board is exactly what it was before the refused
/// tap, so they live here and are cleared by the next press that does
/// something.
#[derive(Debug, Clone, Copy, PartialEq, Eq, Structural)]
pub enum Notice {
    /// A digit was tapped with no cell selected.
    NoSelection,
    /// A given was tapped, or aimed at.
    Given,
    /// That digit is already in `with`.
    Conflict {
        /// The cell that already holds it.
        with: Cell,
    },
}

impl Notice {
    /// A cell that is named is on the grid.
    pub open spec fn wf(self) -> bool {
        self matches Notice::Conflict { with } ==> with.wf()
    }

    /// The line this notice puts on the screen.
    pub open spec fn line(self) -> Seq<char> {
        match self {
            Notice::NoSelection => "TAP A CELL FIRST"@,
            Notice::Given => "THAT CELL IS A GIVEN"@,
            Notice::Conflict { with } => "ALREADY IN "@ + cell_name(with@),
        }
    }

    /// The line this notice puts on the screen.
    pub fn text(self) -> (text: String)
        requires
            self.wf(),
        ensures
            text@ == self.line(),
    {
        match self {
            Notice::NoSelection => "TAP A CELL FIRST".to_owned(),
            Notice::Given => "THAT CELL IS A GIVEN".to_owned(),
            Notice::Conflict { with } => {
                let mut text = "ALREADY IN ".to_owned();
                push_text(&mut text, with.name().as_str());
                text
            },
        }
    }
}

/// A part of the screen that a press can change by itself.
#[derive(Debug, Clone, Copy, PartialEq, Eq, Structural)]
pub enum Region {
    /// The new-puzzle action.
    NewPuzzle,
    /// The next-level action.
    Difficulty,
    /// The band the status and notice line is drawn in.
    Status,
    /// One cell of the grid.
    Cell(Cell),
}

/// What a press did.
#[derive(Debug, Clone, PartialEq, Eq)]
pub struct Press {
    /// What the app should ask the platform for.
    pub action: Action,
    /// What changed on the glass.
    pub damage: Damage<Region>,
}

/// What is asked for after a press that changed these regions: nothing for
/// none, a redraw for some.
pub open spec fn claim_action(changed: Seq<Region>) -> Action {
    if changed.len() == 0 {
        Action::Nothing
    } else {
        Action::Redraw
    }
}

/// What is claimed after a press that changed these regions, where the
/// platform takes no more than `most` of them at once.
pub open spec fn claim_damage(changed: Seq<Region>, most: int) -> Option<Seq<Region>> {
    if changed.len() > most && changed.len() > 0 {
        None
    } else {
        Some(changed)
    }
}

impl Press {
    /// A press that changed nothing.
    pub fn nothing() -> (press: Self)
        ensures
            press.action == Action::Nothing,
            press.damage@ == Some(Seq::<Region>::empty()),
    {
        Self { action: Action::Nothing, damage: Damage::Regions(Vec::new()) }
    }

    /// A press that asks for `action` without changing the screen.
    pub fn leaving(action: Action) -> (press: Self)
        ensures
            press.action == action,
            press.damage@ == Some(Seq::<Region>::empty()),
    {
        Self { action, damage: Damage::Regions(Vec::new()) }
    }

    /// A press that changed `regions` and nothing else.
    ///
    /// An empty list is [`Self::nothing`] rather than a redraw of nothing, and
    /// more regions than the platform takes becomes everything: over-claiming
    /// costs one larger update, and dropping the overflow costs a stale cell.
    pub fn regions(regions: Vec<Region>, most: usize) -> (press: Self)
        ensures
            press.action == claim_action(regions@),
            press.damage@ == claim_damage(regions@, most as int),
    {
        if regions.is_empty() {
            assert(regions@ =~= Seq::<Region>::empty());
            return Self::nothing();
        }
        if regions.len() > most {
            return Self::everything();
        }
        Self { action: Action::Redraw, damage: Damage::Regions(regions) }
    }

    /// A press that changed enough of the screen not to enumerate it.
    pub fn everything() -> (press: Self)
        ensures
            press.action == Action::Redraw,
            press.damage@ == None::<Seq<Region>>,
    {
        Self { action: Action::Redraw, damage: Damage::Full }
    }
}

/// What the Sudoku screen is showing, on top of the board state.
#[derive(Debug, Clone, Copy, PartialEq, Eq, Structural)]
pub struct SudokuScreen {
    /// The cell a digit would go into.
    pub selected: Option<Cell>,
    /// What the screen is saying about the last refused press.
    pub notice: Option<Notice>,
    /// Whether the new-puzzle action was tapped once and awaits a confirming
    /// second tap.
    pub new_puzzle_armed: bool,
    /// The level the next new puzzle will be generated at.
    ///
    /// Separate from the level of the puzzle on screen: changing this must not
    /// throw away a puzzle someone is part-way through.
    pub next_difficulty: Difficulty,
}

/// What of the screen, as it was drawn, a pointer landed on.
#[derive(Debug, Clone, Copy)]
pub struct SudokuHits {
    /// Whether the pointer was lifted, which is what makes it a tap.
    pub tap: bool,
    /// Whether the home action was hit.
    pub home: bool,
    /// Whether the new-puzzle action was hit.
    pub new_puzzle: bool,
    /// Whether the next-level action was hit.
    pub difficulty: bool,
    /// The key of the digit pad that was hit.
    pub key: Option<PadKey>,
    /// The cell of the grid that was hit.
    pub cell: Option<Cell>,
}

impl SudokuHits {
    /// What was hit is on the screen.
    pub open spec fn wf(self) -> bool {
        &&& self.key is Some ==> self.key->0.wf()
        &&& self.cell is Some ==> self.cell->0.wf()
    }

    /// The pointer confirms a new puzzle on `screen`.
    pub open spec fn confirms(self, screen: SudokuScreen) -> bool {
        self.tap && !self.home && self.new_puzzle && screen.new_puzzle_armed
    }
}

/// What a tap leaves behind.
pub struct SudokuStep {
    /// What the screen shows.
    pub screen: SudokuScreen,
    /// The game.
    pub game: GameState,
    /// What to ask the platform for.
    pub action: Action,
    /// The regions that changed, or `None` for everything.
    pub damage: Option<Seq<Region>>,
}

/// A step that changed these regions.
pub open spec fn step(
    screen: SudokuScreen,
    game: GameState,
    changed: Seq<Region>,
    most: int,
) -> SudokuStep {
    SudokuStep {
        screen,
        game,
        action: claim_action(changed),
        damage: claim_damage(changed, most),
    }
}

/// The regions changed so far, with the status band where the notice changes.
pub open spec fn noted(
    changed: Seq<Region>,
    screen: SudokuScreen,
    notice: Option<Notice>,
) -> Seq<Region> {
    if screen.notice == notice {
        changed
    } else {
        changed.push(Region::Status)
    }
}

/// What a tap on a cell does: a given is refused and leaves the selection where
/// it was; the selected cell is let go; any other is selected in its place.
pub open spec fn cell_tapped(
    screen: SudokuScreen,
    game: GameState,
    cell: Cell,
    changed: Seq<Region>,
    most: int,
) -> SudokuStep {
    if game.task.clues()[cell@] != 0 {
        let notice = Some(Notice::Given);
        step(SudokuScreen { notice, ..screen }, game, noted(changed, screen, notice), most)
    } else {
        let told = noted(changed, screen, None);
        let left = if screen.selected is Some && screen.selected != Some(cell) {
            told.push(Region::Cell(screen.selected->0))
        } else {
            told
        };
        let selected = if screen.selected == Some(cell) {
            None
        } else {
            Some(cell)
        };
        step(
            SudokuScreen { notice: None, selected, ..screen },
            game,
            left.push(Region::Cell(cell)),
            most,
        )
    }
}

/// What a tap on the digit pad does: a refused entry says why; one that is
/// accepted changes its cell alone, unless it solves the puzzle.
pub open spec fn key_tapped(
    screen: SudokuScreen,
    game: GameState,
    key: PadKey,
    changed: Seq<Region>,
    most: int,
) -> SudokuStep {
    match screen.selected {
        None => {
            let notice = Some(Notice::NoSelection);
            step(SudokuScreen { notice, ..screen }, game, noted(changed, screen, notice), most)
        },
        Some(cell) => {
            let verdict = match key {
                PadKey::Digit(digit) => entry_verdict(game, cell@, digit@),
                PadKey::Clear => clear_verdict(game, cell@),
            };
            match verdict {
                Ok(_) => {
                    let next = rewritten(game, cell@, key.writes());
                    if solved(next.position) {
                        SudokuStep {
                            screen: SudokuScreen { notice: None, selected: None, ..screen },
                            game: next,
                            action: Action::Redraw,
                            damage: None,
                        }
                    } else {
                        step(
                            SudokuScreen { notice: None, ..screen },
                            next,
                            noted(changed, screen, None).push(Region::Cell(cell)),
                            most,
                        )
                    }
                },
                Err(MoveError::Conflict { with }) => {
                    let notice = Some(Notice::Conflict { with });
                    step(
                        SudokuScreen { notice, ..screen },
                        game,
                        noted(changed, screen, notice),
                        most,
                    )
                },
                Err(MoveError::Given) => {
                    let notice = Some(Notice::Given);
                    step(
                        SudokuScreen { notice, ..screen },
                        game,
                        noted(changed, screen, notice),
                        most,
                    )
                },
                Err(_) => SudokuStep { screen, game, action: Action::Redraw, damage: None },
            }
        },
    }
}

/// What a pointer event does, other than confirming a new puzzle. The footer
/// answers first, and anything but the new-puzzle action or home takes back a
/// new puzzle that was only half asked for; then, while the puzzle is not
/// solved, the pad and the grid answer.
pub open spec fn pressed(
    screen: SudokuScreen,
    game: GameState,
    hits: SudokuHits,
    most: int,
) -> SudokuStep {
    let none = Seq::<Region>::empty();
    let calm = SudokuScreen { new_puzzle_armed: false, ..screen };
    let disarmed = if screen.new_puzzle_armed {
        none.push(Region::NewPuzzle)
    } else {
        none
    };
    if !hits.tap {
        step(screen, game, none, most)
    } else if hits.home {
        SudokuStep { screen, game, action: Action::Home, damage: Some(none) }
    } else if hits.new_puzzle {
        step(
            SudokuScreen { new_puzzle_armed: true, ..screen },
            game,
            none.push(Region::NewPuzzle),
            most,
        )
    } else if hits.difficulty {
        step(
            SudokuScreen { next_difficulty: screen.next_difficulty.following(), ..calm },
            game,
            disarmed.push(Region::Difficulty),
            most,
        )
    } else if solved(game.position) {
        step(calm, game, disarmed, most)
    } else if hits.key is Some {
        key_tapped(calm, game, hits.key->0, disarmed, most)
    } else if hits.cell is Some {
        cell_tapped(calm, game, hits.cell->0, disarmed, most)
    } else {
        step(calm, game, disarmed, most)
    }
}

/// What a pointer event does to the screen and the game, and what it answers:
/// a confirmed new puzzle is the next of the game's own stream and changes
/// everything.
pub open spec fn press_answers(
    screen: SudokuScreen,
    game: GameState,
    hits: SudokuHits,
    most: int,
    next_screen: SudokuScreen,
    next_game: GameState,
    press: Press,
) -> bool {
    if hits.confirms(screen) {
        &&& renewed(game, next_game, screen.next_difficulty)
        &&& next_screen == (SudokuScreen {
            selected: None,
            notice: None,
            new_puzzle_armed: false,
            next_difficulty: screen.next_difficulty,
        })
        &&& press.action == Action::Redraw
        &&& press.damage@ == None::<Seq<Region>>
    } else {
        (SudokuStep {
            screen: next_screen,
            game: next_game,
            action: press.action,
            damage: press.damage@,
        }) == pressed(screen, game, hits, most)
    }
}

impl SudokuScreen {
    /// Every cell the screen remembers is on the grid.
    pub open spec fn wf(&self) -> bool {
        &&& self.selected is Some ==> self.selected->0.wf()
        &&& self.notice is Some ==> self.notice->0.wf()
    }

    /// A fresh screen: nothing selected, and a new puzzle would be at
    /// `difficulty`.
    pub fn new(difficulty: Difficulty) -> (screen: Self)
        ensures
            screen.wf(),
            screen == (SudokuScreen {
                selected: None,
                notice: None,
                new_puzzle_armed: false,
                next_difficulty: difficulty,
            }),
    {
        Self { selected: None, notice: None, new_puzzle_armed: false, next_difficulty: difficulty }
    }

    /// Handles a pointer event, mutating `game` when the tap enters or clears a
    /// digit. The platform takes no more than `most` regions at once.
    pub fn press(&mut self, game: &mut Game, hits: SudokuHits, most: usize) -> (press: Press)
        requires
            old(self).wf(),
            old(game).wf(),
            old(game).changes() < u64::MAX,
            hits.wf(),
        ensures
            final(self).wf(),
            final(game).wf(),
            press_answers(
                *old(self),
                old(game).state(),
                hits,
                most as int,
                *final(self),
                final(game).state(),
                press,
            ),
    {
        if !hits.tap {
            return Press::nothing();
        }
        if hits.home {
            return Press::leaving(Action::Home);
        }
        let mut changed: Vec<Region> = Vec::new();
        assert(changed@ =~= Seq::<Region>::empty());
        if hits.new_puzzle {
            if !self.new_puzzle_armed {
                self.new_puzzle_armed = true;
                changed.push(Region::NewPuzzle);
                return Press::regions(changed, most);
            }
            game.new_puzzle(self.next_difficulty);
            self.new_puzzle_armed = false;
            self.selected = None;
            self.notice = None;
            // A new grid, a new status bar and a footer label: everything.
            return Press::everything();
        }

        // Any other press disarms the confirmation, which rewrites its label.
        if self.new_puzzle_armed {
            self.new_puzzle_armed = false;
            changed.push(Region::NewPuzzle);
        }
        if hits.difficulty {
            self.next_difficulty = self.next_difficulty.next();
            changed.push(Region::Difficulty);
            return Press::regions(changed, most);
        }
        if game.is_solved() {
            // The puzzle is finished; only the footer above does anything.
            return Press::regions(changed, most);
        }
        if let Some(key) = hits.key {
            return self.enter(game, key, changed, most);
        }
        if let Some(cell) = hits.cell {
            return self.select(game, cell, changed, most);
        }
        Press::regions(changed, most)
    }

    /// A tap on the grid.
    fn select(
        &mut self,
        game: &Game,
        cell: Cell,
        changed: Vec<Region>,
        most: usize,
    ) -> (press: Press)
        requires
            old(self).wf(),
            game.wf(),
            cell.wf(),
        ensures
            final(self).wf(),
            (SudokuStep {
                screen: *final(self),
                game: game.state(),
                action: press.action,
                damage: press.damage@,
            }) == cell_tapped(*old(self), game.state(), cell, changed@, most as int),
    {
        let mut changed = changed;
        if game.is_given(cell) {
            // The selection is left where it was: clearing it would make a
            // mis-tap cost two taps.
            self.note(Some(Notice::Given), &mut changed);
            return Press::regions(changed, most);
        }
        self.note(None, &mut changed);
        let previous = self.selected;
        // Tapping the selected cell again deselects it, and claims that one
        // cell once rather than twice.
        if let Some(left) = previous {
            if left != cell {
                changed.push(Region::Cell(left));
            }
        }
        self.selected = if previous == Some(cell) {
            None
        } else {
            Some(cell)
        };
        changed.push(Region::Cell(cell));
        Press::regions(changed, most)
    }

    /// A tap on the digit pad.
    fn enter(
        &mut self,
        game: &mut Game,
        key: PadKey,
        changed: Vec<Region>,
        most: usize,
    ) -> (press: Press)
        requires
            old(self).wf(),
            old(game).wf(),
            old(game).changes() < u64::MAX,
            key.wf(),
        ensures
            final(self).wf(),
            final(game).wf(),
            (SudokuStep {
                screen: *final(self),
                game: final(game).state(),
                action: press.action,
                damage: press.damage@,
            }) == key_tapped(*old(self), old(game).state(), key, changed@, most as int),
    {
        let mut changed = changed;
        let cell = match self.selected {
            Some(cell) => cell,
            None => {
                self.note(Some(Notice::NoSelection), &mut changed);
                return Press::regions(changed, most);
            },
        };
        let outcome = match key {
            PadKey::Digit(digit) => game.set(cell, digit),
            PadKey::Clear => game.clear(cell),
        };
        match outcome {
            Ok(()) => {
                self.note(None, &mut changed);
                if game.is_solved() {
                    // The status line changes and the selection outline
                    // retires, so this frame is not a one-cell change.
                    self.selected = None;
                    return Press::everything();
                }
                changed.push(Region::Cell(cell));
                Press::regions(changed, most)
            },
            Err(MoveError::Conflict { with }) => {
                self.note(Some(Notice::Conflict { with }), &mut changed);
                Press::regions(changed, most)
            },
            Err(MoveError::Given) => {
                self.note(Some(Notice::Given), &mut changed);
                Press::regions(changed, most)
            },
            // A solved game is handled before this is reached.
            Err(MoveError::Solved) => Press::everything(),
        }
    }

    /// Sets the notice, claiming the status band if it actually changed.
    fn note(&mut self, notice: Option<Notice>, changed: &mut Vec<Region>)
        ensures
            *final(self) == (SudokuScreen { notice, ..*old(self) }),
            final(changed)@ == noted(old(changed)@, *old(self), notice),
    {
        if self.notice != notice {
            self.notice = notice;
            changed.push(Region::Status);
        }
    }
}

/// The line under the heading: what the last press did, or what to do next.
pub open spec fn status_line(screen: SudokuScreen, position: Seq<int>) -> Seq<char> {
    if solved(position) {
        "SOLVED"@
    } else if screen.notice is Some {
        screen.notice->0.line()
    } else if screen.selected is Some {
        "TAP A DIGIT"@
    } else {
        "TAP A CELL, THEN A DIGIT"@
    }
}

/// The line under the heading: what the last press did, or what to do next.
pub fn status_text(screen: &SudokuScreen, game: &Game) -> (text: String)
    requires
        screen.wf(),
        game.wf(),
    ensures
        text@ == status_line(*screen, game.position()),
{
    if game.is_solved() {
        return "SOLVED".to_owned();
    }
    match screen.notice {
        Some(notice) => notice.text(),
        None => match screen.selected {
            Some(_) => "TAP A DIGIT".to_owned(),
            None => "TAP A CELL, THEN A DIGIT".to_owned(),
        },
    }
}

/// The status bar's right-hand side: the level and the number of givens.
pub fn puzzle_text(game: &Game) -> (text: String)
    requires
        game.wf(),
    ensures
        text@ == game.task().level().label_text() + " \u{00B7} "@ + decimal(
            filled(game.task().clues()),
        ) + " GIVENS"@,
{
    let mut text = game.difficulty().label().to_owned();
    push_text(&mut text, " \u{00B7} ");
    push_decimal(&mut text, game.puzzle().given_count() as u64);
    push_text(&mut text, " GIVENS");
    text
}

/// The footer's labels from left to right.
pub fn footer_labels(screen: &SudokuScreen) -> (labels: Vec<String>)
    ensures
        labels@.len() == 3,
        labels@[0]@ == (if screen.new_puzzle_armed {
            "CONFIRM NEW PUZZLE?"@
        } else {
            "NEW PUZZLE"@
        }),
        labels@[1]@ == "NEXT: "@ + screen.next_difficulty.label_text(),
        labels@[2]@ == "HOME"@,
{
    let mut labels: Vec<String> = Vec::new();
    if screen.new_puzzle_armed {
        labels.push("CONFIRM NEW PUZZLE?".to_owned());
    } else {
        labels.push("NEW PUZZLE".to_owned());
    }
    let mut next = "NEXT: ".to_owned();
    push_text(&mut next, screen.next_difficulty.label());
    labels.push(next);
    labels.push("HOME".to_owned());
    labels
}

/// A pointer that is not lifted changes nothing and asks for nothing.
pub proof fn law_hover_is_never_a_tap(
    screen: SudokuScreen,
    game: GameState,
    hits: SudokuHits,
    most: int,
)
    requires
        !hits.tap,
    ensures
        pressed(screen, game, hits, most) == step(screen, game, Seq::empty(), most),
        pressed(screen, game, hits, most).action == Action::Nothing,
{
}

/// Home is always reachable: a tap on it asks for the home screen and leaves
/// everything as it is, whatever else is on the glass.
pub proof fn law_home_is_always_reachable(
    screen: SudokuScreen,
    game: GameState,
    hits: SudokuHits,
    most: int,
)
    requires
        hits.tap && hits.home,
    ensures
        pressed(screen, game, hits, most).action == Action::Home,
        pressed(screen, game, hits, most).screen == screen,
        pressed(screen, game, hits, most).game == game,
{
}

/// A new puzzle needs two taps: the first leaves the game alone and says that
/// it waits for the second, and any other tap but home takes it back.
pub proof fn law_new_puzzle_needs_two_taps(
    screen: SudokuScreen,
    game: GameState,
    hits: SudokuHits,
    most: int,
)
    requires
        hits.tap && !hits.home,
        !(hits.new_puzzle && screen.new_puzzle_armed),
    ensures
        pressed(screen, game, hits, most).screen.new_puzzle_armed == hits.new_puzzle,
        hits.new_puzzle ==> pressed(screen, game, hits, most).game == game,
{
}

/// A digit that is accepted without solving the puzzle, with nothing said and
/// nothing half asked for, changes its own cell and nothing else on the glass.
pub proof fn law_entry_claims_one_cell(
    screen: SudokuScreen,
    game: GameState,
    hits: SudokuHits,
    most: int,
)
    requires
        hits.tap && !hits.home && !hits.new_puzzle && !hits.difficulty,
        hits.key is Some,
        screen.selected is Some,
        screen.notice is None,
        !screen.new_puzzle_armed,
        !solved(game.position),
        (match hits.key->0 {
            PadKey::Digit(digit) => entry_verdict(game, screen.selected->0@, digit@),
            PadKey::Clear => clear_verdict(game, screen.selected->0@),
        }) is Ok,
        !solved(rewritten(game, screen.selected->0@, hits.key->0.writes()).position),
        most >= 1,
    ensures
        pressed(screen, game, hits, most).damage == Some(
            seq![Region::Cell(screen.selected->0)],
        ),
        pressed(screen, game, hits, most).screen == screen,
{
    let one = seq![Region::Cell(screen.selected->0)];
    assert(Seq::<Region>::empty().push(Region::Cell(screen.selected->0)) =~= one);
}

/// A solved puzzle only answers the footer: the game stays as it is.
pub proof fn law_solved_puzzle_is_closed(
    screen: SudokuScreen,
    game: GameState,
    hits: SudokuHits,
    most: int,
)
    requires
        solved(game.position),
        !hits.confirms(screen),
    ensures
        pressed(screen, game, hits, most).game == game,
{
}

/// A press that is not the confirmation of a new puzzle never replaces the
/// puzzle on screen.
pub proof fn law_puzzle_is_kept(
    screen: SudokuScreen,
    game: GameState,
    hits: SudokuHits,
    most: int,
)
    requires
        !hits.confirms(screen),
    ensures
        pressed(screen, game, hits, most).game.task == game.task,
        pressed(screen, game, hits, most).game.stream == game.stream,
{
}

} // verus!
