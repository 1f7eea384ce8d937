//! Shelf entries, and where their tiles stand.

use vstd::prelude::*;
use vstd::string::*;

use crate::text::push_text;

verus! {

/// The mark drawn on a tile.
#[derive(Debug, Clone, Copy, PartialEq, Eq, Structural)]
#[non_exhaustive]
pub enum ShelfGlyph {
    /// A miniature chess board.
    Board,
    /// A shop bag, for the App Store.
    Store,
    /// A return arrow, for handing the screen back to the tablet's own
    /// software.
    Stock,
    /// A gear, for Settings.
    Gear,
}

/// What an installed app declares about itself.
#[derive(Debug, Clone, PartialEq, Eq)]
pub struct Manifest {
    /// The app's identifier.
    pub id: String,
    /// The app's name.
    pub name: String,
    /// The app's version.
    pub version: String,
}

/// One tile on the shelf.
#[derive(Debug, Clone, PartialEq, Eq)]
pub struct ShelfEntry {
    pub(crate) label: String,
    pub(crate) detail: String,
    pub(crate) glyph: ShelfGlyph,
    pub(crate) launch: Option<String>,
}

/// What a tile says and does.
pub struct ShelfEntryView {
    /// The title.
    pub label: Seq<char>,
    /// The line under the title.
    pub detail: Seq<char>,
    /// The mark.
    pub glyph: ShelfGlyph,
    /// The app a tap launches.
    pub launch: Option<Seq<char>>,
}

impl ShelfEntry {
    /// What the tile says and does.
    pub open(crate) spec fn view(&self) -> ShelfEntryView {
        ShelfEntryView {
            label: self.label@,
            detail: self.detail@,
            glyph: self.glyph,
            launch: match self.launch {
                Some(id) => Some(id@),
                None => None,
            },
        }
    }

    /// Builds an entry from an installed app's manifest. Tapping it launches
    /// the app.
    pub fn from_manifest(manifest: &Manifest, glyph: ShelfGlyph) -> (entry: Self)
        ensures
            entry@ == (ShelfEntryView {
                label: manifest.name@,
                detail: "V"@ + manifest.version@,
                glyph,
                launch: Some(manifest.id@),
            }),
    {
        let mut detail = "V".to_owned();
        push_text(&mut detail, manifest.version.as_str());
        Self {
            label: manifest.name.clone(),
            detail,
            glyph,
            launch: Some(manifest.id.clone()),
        }
    }

    /// Builds an entry for something that is not an app: there is no manifest,
    /// no id, and nothing to launch.
    pub fn action(label: &str, detail: &str, glyph: ShelfGlyph) -> (entry: Self)
        ensures
            entry@ == (ShelfEntryView { label: label@, detail: detail@, glyph, launch: None }),
    {
        Self { label: label.to_owned(), detail: detail.to_owned(), glyph, launch: None }
    }

    /// The tile's title.
    pub fn label(&self) -> (label: &str)
        ensures
            label@ == self@.label,
    {
        self.label.as_str()
    }

    /// The line under the title.
    pub fn detail(&self) -> (detail: &str)
        ensures
            detail@ == self@.detail,
    {
        self.detail.as_str()
    }

    /// Which mark to draw.
    pub fn glyph(&self) -> (glyph: ShelfGlyph)
        ensures
            glyph == self@.glyph,
    {
        self.glyph
    }

    /// The app a tap on this tile should launch, if it is one.
    pub fn launch(&self) -> (id: Option<&String>)
        ensures
            self@.launch == (match id {
                Some(id) => Some(id@),
                None => None,
            }),
    {
        match &self.launch {
            Some(id) => Some(id),
            None => None,
        }
    }
}

/// How many tiles stand side by side.
pub const COLUMNS: usize = 2;

/// The column and row of a tile: two columns, filled in entry order.
pub fn tile_place(index: usize) -> (place: (usize, usize))
    ensures
        place.0 < COLUMNS,
        index == place.1 * COLUMNS + place.0,
{
    (index % COLUMNS, index / COLUMNS)
}

} // verus!
