//! The same patch under each pairing of waveform and content type that the
//! panel knows.

use vstd::prelude::*;
use vstd::string::*;

verus! {

/// How many patches stand side by side.
pub const COLUMNS: usize = 2;

/// A pairing of waveform and content type.
#[derive(Debug, Clone, Copy, PartialEq, Eq)]
pub struct Pairing {
    /// What it is for.
    pub name: &'static str,
    /// Its mode, and what the mode does.
    pub detail: &'static str,
}

impl Pairing {
    /// The name and the detail.
    pub open spec fn view(&self) -> (Seq<char>, Seq<char>) {
        (self.name@, self.detail@)
    }
}

/// The pairings, in the order they are drawn.
pub fn pairings() -> (pairings: [Pairing; 4])
    ensures
        pairings@[0]@ == ("INK"@, "mode 0 \u{00b7} mono \u{00b7} fast, live ink"@),
        pairings@[1]@ == ("ANIMATION"@, "mode 2 \u{00b7} mono \u{00b7} fast, unused today"@),
        pairings@[2]@ == ("UI"@, "mode 3 \u{00b7} mono \u{00b7} settled UI"@),
        pairings@[3]@ == ("CONTENT"@, "mode 4 \u{00b7} colour \u{00b7} slow, full colour"@),
{
    [
        Pairing { name: "INK", detail: "mode 0 \u{00b7} mono \u{00b7} fast, live ink" },
        Pairing { name: "ANIMATION", detail: "mode 2 \u{00b7} mono \u{00b7} fast, unused today" },
        Pairing { name: "UI", detail: "mode 3 \u{00b7} mono \u{00b7} settled UI" },
        Pairing { name: "CONTENT", detail: "mode 4 \u{00b7} colour \u{00b7} slow, full colour" },
    ]
}

/// The column and the row of a patch.
pub fn patch_place(index: usize) -> (place: (usize, usize))
    ensures
        place.0 < COLUMNS,
        place.1 * COLUMNS + place.0 == index,
{
    (index % COLUMNS, index / COLUMNS)
}

} // verus!
