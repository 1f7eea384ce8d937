//! What the home screen shows, and what a pointer on it does.

use vstd::prelude::*;
use vstd::string::*;

use crate::action::Action;
use crate::home::shelf::{Manifest, ShelfEntry, ShelfEntryView, ShelfGlyph};
use crate::text::{push_text, same_text};

verus! {

/// One line in the system summary under the shelf.
///
/// A pair of strings the caller supplies: the home screen displays platform
/// facts, it does not go looking for them.
#[derive(Debug, Clone, PartialEq, Eq)]
pub struct SystemFact {
    /// Left-hand label.
    pub label: String,
    /// Right-hand value.
    pub value: String,
}

impl SystemFact {
    /// The label and the value.
    pub open spec fn view(&self) -> (Seq<char>, Seq<char>) {
        (self.label@, self.value@)
    }

    /// Builds a fact.
    pub fn new(label: &str, value: &str) -> (fact: Self)
        ensures
            fact@ == (label@, value@),
    {
        Self { label: label.to_owned(), value: value.to_owned() }
    }
}

/// Where a pointer is in its contact with the panel.
#[derive(Debug, Clone, Copy, PartialEq, Eq, Structural)]
pub enum PointerPhase {
    /// Near the panel without touching it.
    Hover,
    /// Just touched.
    Down,
    /// Moved while touching.
    Moved,
    /// Lifted.
    Up,
    /// Taken away by the system.
    Cancelled,
}

/// What the home screen is showing.
#[derive(Debug, Clone, PartialEq, Eq)]
pub struct HomeScreen {
    /// The shelf, in display order.
    pub entries: Vec<ShelfEntry>,
    /// Facts listed under the shelf.
    pub facts: Vec<SystemFact>,
    /// Which tile is currently held down.
    pub pressed: Option<usize>,
    /// Text shown at the top right of the status bar.
    pub status: String,
}

/// What facts say.
pub open spec fn fact_lines(facts: Seq<SystemFact>) -> Seq<(Seq<char>, Seq<char>)> {
    facts.map_values(|fact: SystemFact| fact@)
}

/// The first of the lines from `from` on with this label, or their number where
/// there is none.
pub open spec fn line_of(lines: Seq<(Seq<char>, Seq<char>)>, label: Seq<char>, from: int) -> int
    decreases lines.len() - from,
{
    if from >= lines.len() {
        lines.len() as int
    } else if lines[from].0 == label {
        from
    } else {
        line_of(lines, label, from + 1)
    }
}

/// The lines with a label's value set: in place where the label is listed, at
/// the end where it is not.
pub open spec fn filed(
    lines: Seq<(Seq<char>, Seq<char>)>,
    label: Seq<char>,
    value: Seq<char>,
) -> Seq<(Seq<char>, Seq<char>)> {
    let at = line_of(lines, label, 0);
    if at < lines.len() {
        lines.update(at, (label, value))
    } else {
        lines.push((label, value))
    }
}

/// Which tile is held down after a pointer event.
pub open spec fn held_after(
    held: Option<usize>,
    phase: PointerPhase,
    hit: Option<usize>,
) -> Option<usize> {
    match phase {
        PointerPhase::Hover => held,
        PointerPhase::Down | PointerPhase::Moved => hit,
        PointerPhase::Up | PointerPhase::Cancelled => None,
    }
}

/// What a pointer event asks for. Lifting it on a tile launches the tile's app,
/// or, where the tile has none, hands the panel back; the shelf follows a
/// contact and ignores a pen that only hovers.
pub open spec fn asks(
    entries: Seq<ShelfEntry>,
    held: Option<usize>,
    phase: PointerPhase,
    hit: Option<usize>,
    action: Action,
) -> bool {
    match phase {
        PointerPhase::Hover => action == Action::Nothing,
        PointerPhase::Down | PointerPhase::Moved => action == (if held == hit {
            Action::Nothing
        } else {
            Action::Redraw
        }),
        PointerPhase::Cancelled => action == Action::Redraw,
        PointerPhase::Up => if hit is Some && hit->0 < entries.len() {
            match entries[hit->0 as int]@.launch {
                Some(id) => action matches Action::Launch(target) && target@ == id,
                None => action == Action::ReturnToStock,
            }
        } else {
            action == Action::Redraw
        },
    }
}

impl HomeScreen {
    /// Sets `label`'s value, replacing it if already listed or appending it if
    /// not.
    pub fn set_fact(&mut self, label: &str, value: &str)
        ensures
            fact_lines(final(self).facts@) == filed(fact_lines(old(self).facts@), label@, value@),
            final(self).entries == old(self).entries,
            final(self).pressed == old(self).pressed,
            final(self).status == old(self).status,
    {
        let ghost lines = fact_lines(self.facts@);
        let count: usize = self.facts.len();
        let mut index: usize = 0;
        while index < count
            invariant
                self.facts == old(self).facts,
                self.entries == old(self).entries,
                self.pressed == old(self).pressed,
                self.status == old(self).status,
                lines == fact_lines(self.facts@),
                count == lines.len(),
                index <= count,
                line_of(lines, label@, 0) == line_of(lines, label@, index as int),
            decreases count - index,
        {
            assert(lines[index as int] == self.facts@[index as int]@);
            if same_text(self.facts[index].label.as_str(), label) {
                self.facts.set(index, SystemFact::new(label, value));
                assert(fact_lines(self.facts@) =~= filed(lines, label@, value@));
                return;
            }
            index = index + 1;
        }
        self.facts.push(SystemFact::new(label, value));
        assert(fact_lines(self.facts@) =~= filed(lines, label@, value@));
    }

    /// Handles a pointer event that hit the tile `hit`, and says what the app
    /// should ask the platform for.
    ///
    /// The only entry with nothing to launch is the handoff back to the
    /// tablet's own software, so a tap on a tile without a target is read as
    /// that.
    pub fn press(&mut self, phase: PointerPhase, hit: Option<usize>) -> (action: Action)
        ensures
            asks(old(self).entries@, old(self).pressed, phase, hit, action),
            final(self).pressed == held_after(old(self).pressed, phase, hit),
            final(self).entries == old(self).entries,
            final(self).facts == old(self).facts,
            final(self).status == old(self).status,
    {
        match phase {
            // A hovering pen has not pressed anything.
            PointerPhase::Hover => Action::Nothing,
            PointerPhase::Down | PointerPhase::Moved => {
                if self.pressed == hit {
                    Action::Nothing
                } else {
                    self.pressed = hit;
                    Action::Redraw
                }
            },
            PointerPhase::Cancelled => {
                self.pressed = None;
                Action::Redraw
            },
            PointerPhase::Up => {
                self.pressed = None;
                match hit {
                    Some(index) => {
                        if index < self.entries.len() {
                            match self.entries[index].launch() {
                                Some(id) => Action::Launch(id.clone()),
                                None => Action::ReturnToStock,
                            }
                        } else {
                            Action::Redraw
                        }
                    },
                    None => Action::Redraw,
                }
            },
        }
    }
}

impl Default for HomeScreen {
    fn default() -> (screen: Self)
        ensures
            screen.entries@.len() == 0,
            screen.facts@.len() == 0,
            screen.pressed is None,
            screen.status@.len() == 0,
    {
        Self { entries: Vec::new(), facts: Vec::new(), pressed: None, status: String::new() }
    }
}

/// The shelf this build ships with, and what it says of itself: Settings, the
/// App Store, and the way back to the tablet's own software.
pub fn shipped_screen(home: &Manifest, settings: &Manifest, app_store: &Manifest) -> (screen:
    HomeScreen)
    ensures
        screen.entries@.len() == 3,
        screen.entries@[0]@ == (ShelfEntryView {
            label: settings.name@,
            detail: "V"@ + settings.version@,
            glyph: ShelfGlyph::Gear,
            launch: Some(settings.id@),
        }),
        screen.entries@[1]@ == (ShelfEntryView {
            label: app_store.name@,
            detail: "V"@ + app_store.version@,
            glyph: ShelfGlyph::Store,
            launch: Some(app_store.id@),
        }),
        screen.entries@[2]@ == (ShelfEntryView {
            label: "Return to stock"@,
            detail: "REMARKABLE"@,
            glyph: ShelfGlyph::Stock,
            launch: None,
        }),
        fact_lines(screen.facts@) == seq![("Home"@, "V"@ + home.version@)],
        screen.pressed is None,
        screen.status@ == "V"@ + home.version@,
{
    let mut version = "V".to_owned();
    push_text(&mut version, home.version.as_str());
    let mut entries: Vec<ShelfEntry> = Vec::new();
    entries.push(ShelfEntry::from_manifest(settings, ShelfGlyph::Gear));
    entries.push(ShelfEntry::from_manifest(app_store, ShelfGlyph::Store));
    entries.push(ShelfEntry::action("Return to stock", "REMARKABLE", ShelfGlyph::Stock));
    let mut facts: Vec<SystemFact> = Vec::new();
    facts.push(SystemFact::new("Home", version.as_str()));
    assert(fact_lines(facts@) =~= seq![("Home"@, "V"@ + home.version@)]);
    HomeScreen { entries, facts, pressed: None, status: version }
}

/// Filing a fact keeps every other label's line where it was, and files no
/// label twice: a label listed once is listed once afterwards.
pub proof fn law_facts_are_not_duplicated(
    lines: Seq<(Seq<char>, Seq<char>)>,
    label: Seq<char>,
    value: Seq<char>,
)
    requires
        forall|i: int, j: int|
            0 <= i < lines.len() && 0 <= j < lines.len() && i != j ==> (#[trigger] lines[i]).0 != (
            #[trigger] lines[j]).0,
    ensures
        forall|i: int, j: int|
            0 <= i < filed(lines, label, value).len() && 0 <= j < filed(lines, label, value).len()
                && i != j ==> (#[trigger] filed(lines, label, value)[i]).0 != (
            #[trigger] filed(lines, label, value)[j]).0,
        filed(lines, label, value).contains((label, value)),
{
    let at = line_of(lines, label, 0);
    let next = filed(lines, label, value);
    lemma_line_of(lines, label, 0);
    if at < lines.len() {
        assert(next[at] == (label, value));
    } else {
        assert(next[lines.len() as int] == (label, value));
    }
}

proof fn lemma_line_of(lines: Seq<(Seq<char>, Seq<char>)>, label: Seq<char>, from: int)
    requires
        0 <= from <= lines.len(),
    ensures
        from <= line_of(lines, label, from) <= lines.len(),
        line_of(lines, label, from) < lines.len() ==> lines[line_of(lines, label, from)].0 == label,
        line_of(lines, label, from) == lines.len() ==> forall|i: int|
            from <= i < lines.len() ==> (#[trigger] lines[i]).0 != label,
    decreases lines.len() - from,
{
    if from < lines.len() && lines[from].0 != label {
        lemma_line_of(lines, label, from + 1);
    }
}

} // verus!
