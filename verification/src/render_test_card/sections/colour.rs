//! Colours on a panel that is designed for in greyscale: the primaries and
//! secondaries at full strength, the same pulled halfway to white, and a few
//! muted tones that a real accent would use.

use vstd::prelude::*;
use vstd::string::*;

use crate::text::push_char;

verus! {

/// A named colour.
#[derive(Debug, Clone, Copy, PartialEq, Eq)]
pub struct Swatch {
    /// What it is labelled.
    pub name: &'static str,
    /// Red.
    pub r: u8,
    /// Green.
    pub g: u8,
    /// Blue.
    pub b: u8,
}

impl Swatch {
    /// The label and the three channels.
    pub open spec fn view(&self) -> (Seq<char>, (u8, u8, u8)) {
        (self.name@, (self.r, self.g, self.b))
    }

    /// Builds a swatch.
    pub fn new(name: &'static str, r: u8, g: u8, b: u8) -> (swatch: Self)
        ensures
            swatch@ == (name@, (r, g, b)),
    {
        Self { name, r, g, b }
    }

    /// The colour in hexadecimal, two digits a channel.
    ///
    /// There is no leading mark: the stroke font has no glyph for it.
    pub fn hex(&self) -> (text: String)
        ensures
            text@ == hex_text(self.r, self.g, self.b),
    {
        let mut text = String::new();
        push_channel(&mut text, self.r);
        push_channel(&mut text, self.g);
        push_channel(&mut text, self.b);
        assert(text@ =~= hex_text(self.r, self.g, self.b));
        text
    }
}

/// A titled row of swatches.
#[derive(Debug, PartialEq, Eq)]
pub struct Group {
    /// The title.
    pub title: &'static str,
    /// The swatches, from the left.
    pub swatches: Vec<Swatch>,
}

/// What swatches are.
pub open spec fn swatch_views(swatches: Seq<Swatch>) -> Seq<(Seq<char>, (u8, u8, u8))> {
    swatches.map_values(|swatch: Swatch| swatch@)
}

impl Group {
    /// The title and the swatches.
    pub open spec fn view(&self) -> (Seq<char>, Seq<(Seq<char>, (u8, u8, u8))>) {
        (self.title@, swatch_views(self.swatches@))
    }
}

/// A hexadecimal digit, a capital from ten on.
pub open spec fn hex_digit(n: u8) -> char {
    if n < 10 {
        (48 + n) as u8 as char
    } else {
        (55 + n) as u8 as char
    }
}

/// Three channels in hexadecimal.
pub open spec fn hex_text(r: u8, g: u8, b: u8) -> Seq<char> {
    seq![
        hex_digit(r / 16),
        hex_digit(r % 16),
        hex_digit(g / 16),
        hex_digit(g % 16),
        hex_digit(b / 16),
        hex_digit(b % 16),
    ]
}

/// Adds a hexadecimal digit at the end of `text`.
fn push_hex_digit(text: &mut String, n: u8)
    requires
        n < 16,
    ensures
        final(text)@ == old(text)@.push(hex_digit(n)),
{
    if n < 10 {
        push_char(text, (48 + n) as char);
    } else {
        push_char(text, (55 + n) as char);
    }
}

/// Adds one channel at the end of `text`.
fn push_channel(text: &mut String, channel: u8)
    ensures
        final(text)@ == old(text)@.push(hex_digit(channel / 16)).push(hex_digit(channel % 16)),
{
    push_hex_digit(text, channel / 16);
    push_hex_digit(text, channel % 16);
}

/// The primaries and secondaries at full strength.
pub open spec fn full_colours() -> Seq<(Seq<char>, (u8, u8, u8))> {
    seq![
        ("RED"@, (0xFFu8, 0x00u8, 0x00u8)),
        ("GREEN"@, (0x00u8, 0xFFu8, 0x00u8)),
        ("BLUE"@, (0x00u8, 0x00u8, 0xFFu8)),
        ("YELLOW"@, (0xFFu8, 0xFFu8, 0x00u8)),
        ("CYAN"@, (0x00u8, 0xFFu8, 0xFFu8)),
        ("MAGENTA"@, (0xFFu8, 0x00u8, 0xFFu8)),
    ]
}

/// The primaries and secondaries halfway to white.
pub open spec fn soft_colours() -> Seq<(Seq<char>, (u8, u8, u8))> {
    seq![
        ("RED SOFT"@, (0xFFu8, 0x80u8, 0x80u8)),
        ("GREEN SOFT"@, (0x80u8, 0xFFu8, 0x80u8)),
        ("BLUE SOFT"@, (0x80u8, 0x80u8, 0xFFu8)),
        ("YELLOW SOFT"@, (0xFFu8, 0xFFu8, 0x80u8)),
        ("CYAN SOFT"@, (0x80u8, 0xFFu8, 0xFFu8)),
        ("MAGENTA SOFT"@, (0xFFu8, 0x80u8, 0xFFu8)),
    ]
}

/// Muted tones that an interface would use.
pub open spec fn tints() -> Seq<(Seq<char>, (u8, u8, u8))> {
    seq![
        ("ACCENT BLUE"@, (0x3Bu8, 0x6Eu8, 0xA5u8)),
        ("SUCCESS GREEN"@, (0x3Eu8, 0x7Cu8, 0x4Au8)),
        ("WARNING AMBER"@, (0xB5u8, 0x79u8, 0x3Au8)),
        ("DANGER RED"@, (0xB5u8, 0x44u8, 0x3Au8)),
        ("HIGHLIGHT TEAL"@, (0x3Eu8, 0x8Eu8, 0x86u8)),
    ]
}

/// The groups of colours, from the top.
pub fn groups() -> (groups: Vec<Group>)
    ensures
        groups@.len() == 3,
        groups@[0]@ == ("PRIMARY / SECONDARY - FULL SATURATION"@, full_colours()),
        groups@[1]@ == ("PRIMARY / SECONDARY - HALFWAY TO WHITE"@, soft_colours()),
        groups@[2]@ == ("REALISTIC UI TINTS"@, tints()),
{
    let mut full: Vec<Swatch> = Vec::new();
    full.push(Swatch::new("RED", 0xFF, 0x00, 0x00));
    full.push(Swatch::new("GREEN", 0x00, 0xFF, 0x00));
    full.push(Swatch::new("BLUE", 0x00, 0x00, 0xFF));
    full.push(Swatch::new("YELLOW", 0xFF, 0xFF, 0x00));
    full.push(Swatch::new("CYAN", 0x00, 0xFF, 0xFF));
    full.push(Swatch::new("MAGENTA", 0xFF, 0x00, 0xFF));
    assert(swatch_views(full@) =~= full_colours());
    let mut soft: Vec<Swatch> = Vec::new();
    soft.push(Swatch::new("RED SOFT", 0xFF, 0x80, 0x80));
    soft.push(Swatch::new("GREEN SOFT", 0x80, 0xFF, 0x80));
    soft.push(Swatch::new("BLUE SOFT", 0x80, 0x80, 0xFF));
    soft.push(Swatch::new("YELLOW SOFT", 0xFF, 0xFF, 0x80));
    soft.push(Swatch::new("CYAN SOFT", 0x80, 0xFF, 0xFF));
    soft.push(Swatch::new("MAGENTA SOFT", 0xFF, 0x80, 0xFF));
    assert(swatch_views(soft@) =~= soft_colours());
    let mut muted: Vec<Swatch> = Vec::new();
    muted.push(Swatch::new("ACCENT BLUE", 0x3B, 0x6E, 0xA5));
    muted.push(Swatch::new("SUCCESS GREEN", 0x3E, 0x7C, 0x4A));
    muted.push(Swatch::new("WARNING AMBER", 0xB5, 0x79, 0x3A));
    muted.push(Swatch::new("DANGER RED", 0xB5, 0x44, 0x3A));
    muted.push(Swatch::new("HIGHLIGHT TEAL", 0x3E, 0x8E, 0x86));
    assert(swatch_views(muted@) =~= tints());
    let mut groups: Vec<Group> = Vec::new();
    groups.push(Group { title: "PRIMARY / SECONDARY - FULL SATURATION", swatches: full });
    groups.push(Group { title: "PRIMARY / SECONDARY - HALFWAY TO WHITE", swatches: soft });
    groups.push(Group { title: "REALISTIC UI TINTS", swatches: muted });
    groups
}

/// A channel halfway to white, rounded up.
pub open spec fn halfway(channel: u8) -> int {
    (channel + 0xFF + 1) / 2
}

/// The soft colours are the full ones, each channel halfway to white and each
/// under its own name.
pub proof fn law_soft_is_halfway_to_white(k: int)
    requires
        0 <= k < full_colours().len(),
    ensures
        soft_colours().len() == full_colours().len(),
        soft_colours()[k].0 == full_colours()[k].0 + " SOFT"@,
        (soft_colours()[k].1).0 == halfway((full_colours()[k].1).0),
        (soft_colours()[k].1).1 == halfway((full_colours()[k].1).1),
        (soft_colours()[k].1).2 == halfway((full_colours()[k].1).2),
{
    reveal_strlit(" SOFT");
    reveal_strlit("RED");
    reveal_strlit("GREEN");
    reveal_strlit("BLUE");
    reveal_strlit("YELLOW");
    reveal_strlit("CYAN");
    reveal_strlit("MAGENTA");
    reveal_strlit("RED SOFT");
    reveal_strlit("GREEN SOFT");
    reveal_strlit("BLUE SOFT");
    reveal_strlit("YELLOW SOFT");
    reveal_strlit("CYAN SOFT");
    reveal_strlit("MAGENTA SOFT");
    assert("RED SOFT"@ =~= "RED"@ + " SOFT"@);
    assert("GREEN SOFT"@ =~= "GREEN"@ + " SOFT"@);
    assert("BLUE SOFT"@ =~= "BLUE"@ + " SOFT"@);
    assert("YELLOW SOFT"@ =~= "YELLOW"@ + " SOFT"@);
    assert("CYAN SOFT"@ =~= "CYAN"@ + " SOFT"@);
    assert("MAGENTA SOFT"@ =~= "MAGENTA"@ + " SOFT"@);
}

} // verus!
