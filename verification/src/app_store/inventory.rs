//! A snapshot of what is installed and what is offered, merged.

use vstd::prelude::*;
use vstd::string::*;

use crate::text::{optional, same_text, texts};

verus! {

/// Where an app stands between the tablet and the catalog.
#[derive(Debug, Clone, Copy, PartialEq, Eq, Structural)]
pub enum AppState {
    /// Offered, and not installed.
    Available,
    /// Installed, and a newer version is offered.
    UpdateAvailable,
    /// The selected release does not start.
    Failing,
    /// On disk, with no release selected.
    NothingSelected,
    /// Installed, with no catalog to compare with.
    Installed,
    /// Installed, and the newest there is.
    UpToDate,
    /// Installed, and no longer offered.
    InstalledNotOffered,
}

/// How a release has fared since it was selected.
#[derive(Debug, Clone, PartialEq, Eq)]
pub struct Health {
    /// Whether it has ever started.
    pub started: bool,
    /// How often it was tried.
    pub attempts: u32,
    /// What the last failure said.
    pub last_failure: Option<String>,
}

/// One app, as the store and the catalog know it.
#[derive(Debug, Clone, PartialEq, Eq)]
pub struct AppEntry {
    /// The app's identifier.
    pub app: String,
    /// The name to draw.
    pub name: String,
    /// Where it stands.
    pub state: AppState,
    /// The version that is selected.
    pub installed: Option<String>,
    /// The version that is offered.
    pub available: Option<String>,
    /// A prerelease that is offered.
    pub available_prerelease: Option<String>,
    /// The versions on disk, oldest first.
    pub on_disk: Vec<String>,
    /// Whether there is a previous release to go back to.
    pub can_roll_back: bool,
    /// How the selected release has fared.
    pub health: Option<Health>,
}

/// What a release's record says.
pub struct HealthView {
    /// Whether it has ever started.
    pub started: bool,
    /// How often it was tried.
    pub attempts: u32,
    /// What the last failure said.
    pub last_failure: Option<Seq<char>>,
}

/// What an entry says.
pub struct EntryView {
    /// The app's identifier.
    pub app: Seq<char>,
    /// The name to draw.
    pub name: Seq<char>,
    /// Where it stands.
    pub state: AppState,
    /// The version that is selected.
    pub installed: Option<Seq<char>>,
    /// The version that is offered.
    pub available: Option<Seq<char>>,
    /// A prerelease that is offered.
    pub prerelease: Option<Seq<char>>,
    /// The versions on disk, oldest first.
    pub on_disk: Seq<Seq<char>>,
    /// Whether there is a previous release to go back to.
    pub can_roll_back: bool,
    /// How the selected release has fared.
    pub health: Option<HealthView>,
}

impl AppEntry {
    /// What the entry says.
    pub open spec fn view(&self) -> EntryView {
        EntryView {
            app: self.app@,
            name: self.name@,
            state: self.state,
            installed: optional(self.installed),
            available: optional(self.available),
            prerelease: optional(self.available_prerelease),
            on_disk: texts(self.on_disk@),
            can_roll_back: self.can_roll_back,
            health: match self.health {
                Some(health) => Some(
                    HealthView {
                        started: health.started,
                        attempts: health.attempts,
                        last_failure: optional(health.last_failure),
                    },
                ),
                None => None,
            },
        }
    }
}

/// The newest version of an app on disk, if there is one.
pub open spec fn newest(entry: EntryView) -> Option<Seq<char>> {
    if entry.on_disk.len() == 0 {
        None
    } else {
        Some(entry.on_disk.last())
    }
}

/// What the catalog is, where there is one.
#[derive(Debug, Clone, PartialEq, Eq)]
pub struct CatalogStatus {
    /// Its name.
    pub name: String,
    /// Whether it could not be reached, so that what is shown may be behind.
    pub stale: bool,
}

/// Everything installed and everything offered.
#[derive(Debug, Clone, PartialEq, Eq)]
pub struct Inventory {
    /// One entry for each app, in display order.
    pub entries: Vec<AppEntry>,
    /// The catalog, where there is one.
    pub catalog: Option<CatalogStatus>,
    /// Whether the rows may be behind the catalog.
    pub stale: bool,
}

/// What entries say.
pub open spec fn entry_views(entries: Seq<AppEntry>) -> Seq<EntryView> {
    entries.map_values(|entry: AppEntry| entry@)
}

/// The first of the entries from `from` on about `app`, or their number where
/// there is none.
pub open spec fn place_of(entries: Seq<EntryView>, app: Seq<char>, from: int) -> int
    decreases entries.len() - from,
{
    if from >= entries.len() {
        entries.len() as int
    } else if entries[from].app == app {
        from
    } else {
        place_of(entries, app, from + 1)
    }
}

/// Whether there is an entry about `app`.
pub open spec fn lists(entries: Seq<EntryView>, app: Seq<char>) -> bool {
    place_of(entries, app, 0) < entries.len()
}

/// The entry about `app`.
pub open spec fn entry_of(entries: Seq<EntryView>, app: Seq<char>) -> EntryView {
    entries[place_of(entries, app, 0)]
}

pub proof fn lemma_place_of(entries: Seq<EntryView>, app: Seq<char>, from: int)
    requires
        0 <= from <= entries.len(),
    ensures
        from <= place_of(entries, app, from) <= entries.len(),
        place_of(entries, app, from) < entries.len() ==> entries[place_of(
            entries,
            app,
            from,
        )].app == app,
    decreases entries.len() - from,
{
    if from < entries.len() && entries[from].app != app {
        lemma_place_of(entries, app, from + 1);
    }
}

impl Inventory {
    /// What the entries say.
    pub open spec fn views(&self) -> Seq<EntryView> {
        entry_views(self.entries@)
    }

    /// Where the entry about `app` stands.
    pub fn position(&self, app: &str) -> (place: Option<usize>)
        ensures
            place is Some <==> lists(self.views(), app@),
            place is Some ==> place->0 == place_of(self.views(), app@, 0) && place->0
                < self.entries@.len(),
    {
        let ghost views = self.views();
        let mut index: usize = 0;
        while index < self.entries.len()
            invariant
                views == self.views(),
                views.len() == self.entries@.len(),
                index <= self.entries@.len(),
                place_of(views, app@, 0) == place_of(views, app@, index as int),
            decreases self.entries@.len() - index,
        {
            assert(views[index as int] == self.entries@[index as int]@);
            if same_text(self.entries[index].app.as_str(), app) {
                return Some(index);
            }
            index = index + 1;
        }
        None
    }

    /// The entry about `app`, if there is one.
    pub fn entry(&self, app: &str) -> (entry: Option<&AppEntry>)
        ensures
            entry is Some <==> lists(self.views(), app@),
            entry is Some ==> entry->0@ == entry_of(self.views(), app@),
    {
        match self.position(app) {
            Some(index) => {
                assert(self.views()[index as int] == self.entries@[index as int]@);
                Some(&self.entries[index])
            },
            None => None,
        }
    }
}

} // verus!
