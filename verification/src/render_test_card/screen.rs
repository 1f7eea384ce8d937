//! What a tap on the card does, and what it changes on the glass.
//!
//! Every section but two is static once drawn. Switching sections always
//! claims everything: the sections draw wildly different content.

use vstd::prelude::*;

use crate::action::Action;
use crate::damage::Damage;
use crate::render_test_card::nav::Section;
use crate::render_test_card::sections::damage::{self, DamageGridState, CELL_COUNT};
use crate::render_test_card::sections::ghosting::{self, cycled, GhostingState};

verus! {

/// Which section is showing, and the scratch state the two interactive
/// sections carry. Nothing here is persisted.
#[derive(Debug, Clone, Copy, PartialEq, Eq)]
pub struct RenderTestCardScreen {
    /// The section currently showing.
    pub section: Section,
    /// The cycled patch.
    pub ghosting: GhostingState,
    /// The damage grid.
    pub damage_grid: DamageGridState,
}

impl Default for RenderTestCardScreen {
    fn default() -> (screen: Self)
        ensures
            screen.section == Section::Greyscale,
            screen.ghosting == (GhostingState { cycles: 0, on: false }),
            screen.damage_grid@ == Seq::new(20, |i: int| false),
    {
        Self {
            section: Section::default(),
            ghosting: GhostingState::default(),
            damage_grid: DamageGridState::default(),
        }
    }
}

/// A part of the card that a press can change by itself.
#[derive(Debug, Clone, Copy, PartialEq, Eq, Structural)]
pub enum Region {
    /// The cycled patch.
    Patch,
    /// The line that counts the cycles.
    Counter,
    /// One cell of the damage grid.
    Cell(usize),
}

/// What a press did.
#[derive(Debug, Clone, PartialEq, Eq)]
pub struct Press {
    /// What the app should ask the platform for.
    pub action: Action,
    /// What changed on the glass.
    pub damage: Damage<Region>,
}

impl Press {
    /// A press that changed nothing.
    pub fn nothing() -> (press: Self)
        ensures
            press.action == Action::Nothing,
            press.damage@ == Some(Seq::<Region>::empty()),
    {
        Self { action: Action::Nothing, damage: Damage::Regions(Vec::new()) }
    }

    /// A press that asks for `action` without changing the screen.
    pub fn leaving(action: Action) -> (press: Self)
        ensures
            press.action == action,
            press.damage@ == Some(Seq::<Region>::empty()),
    {
        Self { action, damage: Damage::Regions(Vec::new()) }
    }

    /// A press that changed `regions` and nothing else, where the platform
    /// takes no more than `most` regions at once.
    pub fn regions(regions: Vec<Region>, most: usize) -> (press: Self)
        ensures
            press.action == claim_action(regions@),
            press.damage@ == claim_damage(regions@, most as int),
    {
        if regions.is_empty() {
            assert(regions@ =~= Seq::<Region>::empty());
            return Self::nothing();
        }
        if regions.len() > most {
            return Self::everything();
        }
        Self { action: Action::Redraw, damage: Damage::Regions(regions) }
    }

    /// A press that changed enough of the screen not to enumerate it.
    pub fn everything() -> (press: Self)
        ensures
            press.action == Action::Redraw,
            press.damage@ == None::<Seq<Region>>,
    {
        Self { action: Action::Redraw, damage: Damage::Full }
    }
}

/// What is asked for after a press that changed these regions.
pub open spec fn claim_action(changed: Seq<Region>) -> Action {
    if changed.len() == 0 {
        Action::Nothing
    } else {
        Action::Redraw
    }
}

/// What is claimed after a press that changed these regions.
pub open spec fn claim_damage(changed: Seq<Region>, most: int) -> Option<Seq<Region>> {
    if changed.len() > most && changed.len() > 0 {
        None
    } else {
        Some(changed)
    }
}

/// What of the card, as it was drawn, a pointer landed on.
#[derive(Debug, Clone, Copy)]
pub struct CardHits {
    /// Whether the pointer was lifted, which is what makes it a tap.
    pub tap: bool,
    /// Whether the home action was hit.
    pub home: bool,
    /// The section whose tab was hit.
    pub tab: Option<Section>,
    /// Whether the ghosting section's button was drawn and hit.
    pub cycle: bool,
    /// The cell of the damage grid that was drawn and hit.
    pub cell: Option<usize>,
}

/// What a press leaves behind.
pub struct CardStep {
    /// The section showing.
    pub section: Section,
    /// The cycled patch.
    pub ghosting: GhostingState,
    /// The damage grid.
    pub grid: Seq<bool>,
    /// What to ask the platform for.
    pub action: Action,
    /// The regions that changed, or `None` for everything.
    pub damage: Option<Seq<Region>>,
}

/// What a pointer event does: home first, then a tab that is not the current
/// one, then whatever the section answers.
pub open spec fn pressed(
    section: Section,
    patch: GhostingState,
    grid: Seq<bool>,
    hits: CardHits,
    most: int,
) -> CardStep {
    let none = Seq::<Region>::empty();
    let still = CardStep {
        section,
        ghosting: patch,
        grid,
        action: Action::Nothing,
        damage: Some(none),
    };
    if !hits.tap {
        still
    } else if hits.home {
        CardStep { action: Action::Home, ..still }
    } else if hits.tab is Some && hits.tab->0 != section {
        CardStep { section: hits.tab->0, action: Action::Redraw, damage: None, ..still }
    } else if section is Ghosting && hits.cycle {
        let changed = seq![Region::Patch, Region::Counter];
        CardStep {
            ghosting: cycled(patch),
            action: claim_action(changed),
            damage: claim_damage(changed, most),
            ..still
        }
    } else if section is Damage && hits.cell is Some {
        let changed = seq![Region::Cell(hits.cell->0)];
        CardStep {
            grid: grid.update(hits.cell->0 as int, !grid[hits.cell->0 as int]),
            action: claim_action(changed),
            damage: claim_damage(changed, most),
            ..still
        }
    } else {
        still
    }
}

/// Handles a pointer event against what was drawn for it. The platform takes
/// no more than `most` regions at once.
pub fn press(screen: &mut RenderTestCardScreen, hits: CardHits, most: usize) -> (press: Press)
    requires
        hits.cycle ==> old(screen).ghosting.cycles < u32::MAX,
        hits.cell is Some ==> hits.cell->0 < CELL_COUNT,
    ensures
        (CardStep {
            section: final(screen).section,
            ghosting: final(screen).ghosting,
            grid: final(screen).damage_grid@,
            action: press.action,
            damage: press.damage@,
        }) == pressed(
            old(screen).section,
            old(screen).ghosting,
            old(screen).damage_grid@,
            hits,
            most as int,
        ),
{
    if !hits.tap {
        return Press::nothing();
    }
    if hits.home {
        return Press::leaving(Action::Home);
    }
    if let Some(section) = hits.tab {
        if section != screen.section {
            screen.section = section;
            return Press::everything();
        }
    }
    let mut regions: Vec<Region> = Vec::new();
    match screen.section {
        Section::Ghosting => {
            if ghosting::press(&mut screen.ghosting, hits.cycle) {
                regions.push(Region::Patch);
                regions.push(Region::Counter);
                assert(regions@ =~= seq![Region::Patch, Region::Counter]);
                return Press::regions(regions, most);
            }
        },
        Section::Damage => {
            if let Some(index) = damage::press(&mut screen.damage_grid, hits.cell) {
                regions.push(Region::Cell(index));
                assert(regions@ =~= seq![Region::Cell(index)]);
                return Press::regions(regions, most);
            }
        },
        _ => {},
    }
    Press::nothing()
}

/// Home is always reachable: a tap on it asks for the home screen and leaves
/// everything as it is, whatever else is on the glass.
pub proof fn law_home_is_always_reachable(
    section: Section,
    patch: GhostingState,
    grid: Seq<bool>,
    hits: CardHits,
    most: int,
)
    requires
        hits.tap && hits.home,
    ensures
        pressed(section, patch, grid, hits, most).action == Action::Home,
        pressed(section, patch, grid, hits, most).section == section,
        pressed(section, patch, grid, hits, most).ghosting == patch,
        pressed(section, patch, grid, hits, most).grid == grid,
{
}

/// Tapping the same cell twice puts the grid back as it was.
pub proof fn law_second_tap_undoes_the_first(
    patch: GhostingState,
    grid: Seq<bool>,
    hits: CardHits,
    most: int,
)
    requires
        grid.len() == 20,
        hits.tap && !hits.home,
        hits.tab is None,
        hits.cell is Some,
        hits.cell->0 < 20,
    ensures
        ({
            let once = pressed(Section::Damage, patch, grid, hits, most).grid;
            pressed(Section::Damage, patch, once, hits, most).grid == grid
        }),
{
    let i = hits.cell->0 as int;
    let once = grid.update(i, !grid[i]);
    assert(once.update(i, !once[i]) =~= grid);
}

/// Switching sections claims everything; tapping the section that is showing
/// claims nothing unless the section itself answers.
pub proof fn law_only_a_switch_claims_everything(
    section: Section,
    patch: GhostingState,
    grid: Seq<bool>,
    hits: CardHits,
    most: int,
)
    requires
        most >= 2,
    ensures
        pressed(section, patch, grid, hits, most).damage is None <==> pressed(
            section,
            patch,
            grid,
            hits,
            most,
        ).section != section,
{
}

} // verus!
