//! The sections of the card, and the tabs that switch between them.

use vstd::prelude::*;

verus! {

/// One section of the render test card.
#[derive(Debug, Clone, Copy, PartialEq, Eq, Structural)]
pub enum Section {
    /// Every palette step, labelled, plus a continuous ramp for banding.
    ///
    /// The section a fresh launch opens on: it needs no interpretation.
    Greyscale,
    /// Primaries, secondaries and a set of UI tints, at full and reduced
    /// saturation.
    Colour,
    /// Identical content under four labelled pairings of waveform and content
    /// type.
    Waveform,
    /// A patch cycled under partial refresh next to an untouched control.
    Ghosting,
    /// Hairlines at each orientation and the stroke font at every chrome size.
    Text,
    /// A grid that claims damage one cell at a time.
    Damage,
    /// The surface geometry this session actually received.
    Geometry,
}

impl Section {
    /// Every section, in tab order.
    pub const ALL: [Section; 7] = [
        Section::Greyscale,
        Section::Colour,
        Section::Waveform,
        Section::Ghosting,
        Section::Text,
        Section::Damage,
        Section::Geometry,
    ];

    /// Where the section's tab stands.
    pub open spec fn place(self) -> int {
        match self {
            Section::Greyscale => 0,
            Section::Colour => 1,
            Section::Waveform => 2,
            Section::Ghosting => 3,
            Section::Text => 4,
            Section::Damage => 5,
            Section::Geometry => 6,
        }
    }

    /// The section whose tab stands at `index`.
    pub fn at_tab(index: usize) -> (section: Option<Self>)
        ensures
            section is Some <==> index < 7,
            section is Some ==> section->0.place() == index,
    {
        let sections = Section::ALL;
        if index < 7 {
            Some(sections[index])
        } else {
            None
        }
    }

    /// The short label drawn on its tab.
    pub fn tab_label(self) -> (label: &'static str)
        ensures
            label@ == (match self {
                Section::Greyscale => "GREY"@,
                Section::Colour => "COLOUR"@,
                Section::Waveform => "WAVEFORM"@,
                Section::Ghosting => "GHOSTING"@,
                Section::Text => "TEXT"@,
                Section::Damage => "DAMAGE"@,
                Section::Geometry => "GEOMETRY"@,
            }),
    {
        match self {
            Section::Greyscale => "GREY",
            Section::Colour => "COLOUR",
            Section::Waveform => "WAVEFORM",
            Section::Ghosting => "GHOSTING",
            Section::Text => "TEXT",
            Section::Damage => "DAMAGE",
            Section::Geometry => "GEOMETRY",
        }
    }

    /// The heading drawn at the top of its content.
    pub fn heading(self) -> (heading: &'static str)
        ensures
            heading@ == (match self {
                Section::Greyscale => "GREYSCALE RAMP"@,
                Section::Colour => "COLOUR RAMPS"@,
                Section::Waveform => "WAVEFORM X CONTENT-TYPE MATRIX"@,
                Section::Ghosting => "GHOSTING"@,
                Section::Text => "HAIRLINES AND TEXT"@,
                Section::Damage => "DAMAGE REGIONS"@,
                Section::Geometry => "GEOMETRY READOUT"@,
            }),
    {
        match self {
            Section::Greyscale => "GREYSCALE RAMP",
            Section::Colour => "COLOUR RAMPS",
            Section::Waveform => "WAVEFORM X CONTENT-TYPE MATRIX",
            Section::Ghosting => "GHOSTING",
            Section::Text => "HAIRLINES AND TEXT",
            Section::Damage => "DAMAGE REGIONS",
            Section::Geometry => "GEOMETRY READOUT",
        }
    }
}

impl Default for Section {
    fn default() -> (section: Self)
        ensures
            section == Section::Greyscale,
    {
        Section::Greyscale
    }
}

} // verus!
