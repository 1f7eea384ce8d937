//! What the home screen promises, tile by tile and line by line.

use vstd::prelude::*;
use vstd::string::*;

use crate::action::Action;
use crate::home::app::{battery_line, BatteryFact, BatteryState};
use crate::home::screen::{asks, filed, held_after, line_of, PointerPhase};
use crate::home::shelf::ShelfEntry;
use crate::text::decimal;

verus! {

/// Lifting the pointer on a tile launches the app of that very tile, or hands
/// the panel back where the tile has none; lifting it anywhere else launches
/// nothing. No other phase of a contact launches anything or leaves.
pub proof fn law_a_tile_launches_its_own_app(
    entries: Seq<ShelfEntry>,
    held: Option<usize>,
    phase: PointerPhase,
    hit: Option<usize>,
    action: Action,
)
    requires
        asks(entries, held, phase, hit, action),
    ensures
        action is Launch ==> {
            &&& phase is Up
            &&& hit is Some && hit->0 < entries.len()
            &&& entries[hit->0 as int]@.launch is Some
            &&& action->Launch_0@ == entries[hit->0 as int]@.launch->0
        },
        action == Action::ReturnToStock ==> {
            &&& phase is Up
            &&& hit is Some && hit->0 < entries.len()
            &&& entries[hit->0 as int]@.launch is None
        },
        phase is Up && hit is Some && hit->0 < entries.len() ==> (if entries[hit->0 as int]@.launch
            is Some {
            action is Launch
        } else {
            action == Action::ReturnToStock
        }),
        phase is Up && (hit is None || hit->0 >= entries.len()) ==> action == Action::Redraw,
        phase is Hover ==> action == Action::Nothing,
        phase is Cancelled ==> action == Action::Redraw,
        action != Action::Home,
{
}

/// The tile held down is the one under the contact while it lasts, and none once
/// it ends; a pen that only hovers changes nothing; and a frame is asked for
/// while a contact lasts exactly where the tile held down changes.
pub proof fn law_the_held_tile_follows_the_contact(
    entries: Seq<ShelfEntry>,
    held: Option<usize>,
    phase: PointerPhase,
    hit: Option<usize>,
    action: Action,
)
    requires
        asks(entries, held, phase, hit, action),
    ensures
        phase is Hover ==> held_after(held, phase, hit) == held,
        phase is Down || phase is Moved ==> held_after(held, phase, hit) == hit,
        phase is Up || phase is Cancelled ==> held_after(held, phase, hit) is None,
        phase is Down || phase is Moved ==> (action == Action::Redraw <==> held_after(
            held,
            phase,
            hit,
        ) != held) && (action == Action::Nothing <==> held_after(held, phase, hit) == held),
{
}

/// Filing a fact sets the value of that label's first line, or adds a line at
/// the end where there is none, and leaves every other line as it is and where
/// it is.
pub proof fn law_filing_changes_one_line(
    lines: Seq<(Seq<char>, Seq<char>)>,
    label: Seq<char>,
    value: Seq<char>,
    k: int,
)
    requires
        0 <= k < lines.len(),
    ensures
        ({
            let next = filed(lines, label, value);
            let listed = exists|j: int| 0 <= j < lines.len() && (#[trigger] lines[j]).0 == label;
            &&& lines[k].0 != label ==> next[k] == lines[k]
            &&& listed ==> next.len() == lines.len()
            &&& !listed ==> next.len() == lines.len() + 1 && next.last() == (label, value)
            &&& lines[k].0 == label && (forall|j: int|
                0 <= j < k ==> (#[trigger] lines[j]).0 != label) ==> next[k] == (label, value)
        }),
{
    lemma_line_of(lines, label, 0);
    let at = line_of(lines, label, 0);
    if at < lines.len() {
        assert(lines[at].0 == label);
    }
}

proof fn lemma_line_of(lines: Seq<(Seq<char>, Seq<char>)>, label: Seq<char>, from: int)
    requires
        0 <= from <= lines.len(),
    ensures
        from <= line_of(lines, label, from) <= lines.len(),
        line_of(lines, label, from) < lines.len() ==> lines[line_of(lines, label, from)].0 == label,
        forall|j: int| from <= j < line_of(lines, label, from) ==> (#[trigger] lines[j]).0 != label,
    decreases lines.len() - from,
{
    if from < lines.len() && lines[from].0 != label {
        lemma_line_of(lines, label, from + 1);
    }
}

/// The battery line begins with the percentage, and goes on to say that it
/// charges exactly where the battery is on external power.
pub proof fn law_the_battery_line_says_what_is_read(fact: BatteryFact)
    ensures
        ({
            let shown = decimal(fact.percent as nat) + "%"@;
            let powered = fact.state == BatteryState::Charging || fact.state == BatteryState::Full;
            &&& powered ==> battery_line(fact) == shown + " (charging)"@
            &&& !powered ==> battery_line(fact) == shown
        }),
{
    reveal_strlit("");
    assert(decimal(fact.percent as nat) + "%"@ + ""@ =~= decimal(fact.percent as nat) + "%"@);
}

} // verus!
