//! What the App Store is showing, and what a press changes about it.
//!
//! Every method here is a pure state transition over a snapshot.

use vstd::prelude::*;
use vstd::string::*;
use vstd::view::View as _;

use crate::app_store::inventory::{
    entry_of, lists, newest, AppEntry, AppState, EntryView, Inventory,
};
use crate::text::{copy_optional, optional, push_text, same_text};

verus! {

/// Work the app should do off the event loop.
#[derive(Debug, Clone, PartialEq, Eq)]
pub enum Request {
    /// Re-read the store and the catalog.
    Refresh,
    /// Fetch one version's release notes.
    Notes {
        /// Which app.
        app: String,
        /// Which version.
        version: String,
    },
    /// Install or update, explicitly asked for.
    Install {
        /// Which app.
        app: String,
        /// Which version.
        version: String,
    },
    /// Select the previous release, explicitly asked for.
    Rollback {
        /// Which app.
        app: String,
    },
}

/// What a request asks.
pub enum RequestView {
    /// Re-read the store and the catalog.
    Refresh,
    /// Fetch one version's release notes.
    Notes {
        /// Which app.
        app: Seq<char>,
        /// Which version.
        version: Seq<char>,
    },
    /// Install or update.
    Install {
        /// Which app.
        app: Seq<char>,
        /// Which version.
        version: Seq<char>,
    },
    /// Select the previous release.
    Rollback {
        /// Which app.
        app: Seq<char>,
    },
}

impl Request {
    /// What the request asks.
    pub open spec fn view(&self) -> RequestView {
        match self {
            Request::Refresh => RequestView::Refresh,
            Request::Notes { app, version } => RequestView::Notes { app: app@, version: version@ },
            Request::Install { app, version } => RequestView::Install {
                app: app@,
                version: version@,
            },
            Request::Rollback { app } => RequestView::Rollback { app: app@ },
        }
    }
}

/// What an optional request asks.
pub open spec fn asked(request: Option<Request>) -> Option<RequestView> {
    match request {
        Some(request) => Some(request@),
        None => None,
    }
}

/// What a request produced.
#[derive(Debug, Clone)]
#[allow(inconsistent_fields)]
pub enum Outcome {
    /// A fresh snapshot.
    Refreshed(Box<Inventory>),
    /// Notes for the app that was asked about.
    Notes {
        /// Which app.
        app: String,
        /// The text.
        text: String,
    },
    /// An install finished and this version is now selected.
    Installed {
        /// Which app.
        app: String,
        /// What is selected now.
        version: String,
    },
    /// A rollback finished.
    RolledBack {
        /// Which app.
        app: String,
        /// What is selected now.
        version: String,
    },
    /// The notes could not be fetched. Nothing was being changed, so a change in
    /// flight goes on, even one of the same app.
    NotesFailed {
        /// Which app.
        app: String,
        /// What happened.
        message: String,
        /// What the person can do about it.
        advice: &'static str,
    },
    /// Something failed. A change in flight ends by a failure about its own app,
    /// and goes on after any other.
    Failed {
        /// Which app, when the failure was about one.
        app: Option<String>,
        /// What happened.
        message: String,
        /// What the person can do about it.
        advice: &'static str,
    },
}

/// How far the operation in flight has got, as the screen shows it.
#[derive(Debug, Clone, PartialEq, Eq)]
pub struct Working {
    /// Which app it is about.
    pub app: String,
    /// The step, in words.
    pub step: String,
    /// Download fraction in percent, when there is one to show.
    pub percent: Option<u8>,
}

/// A failure the screen is showing.
#[derive(Debug, Clone, PartialEq, Eq)]
pub struct Failure {
    /// What happened.
    pub message: String,
    /// What to do about it.
    pub advice: String,
}

/// Which view is showing.
#[derive(Debug, Clone, PartialEq, Eq)]
pub enum View {
    /// The list of apps.
    List,
    /// One app, with its versions and notes.
    Detail(String),
}

/// The App Store's whole state.
#[derive(Debug, Clone, PartialEq, Eq)]
pub struct AppStoreScreen {
    /// Which view is showing.
    pub view: View,
    /// The snapshot behind the rows.
    pub inventory: Inventory,
    /// Notes that have arrived, and the app they are about.
    pub notes: Option<(String, String)>,
    /// The operation in flight.
    pub working: Option<Working>,
    /// The failure on screen.
    pub failure: Option<Failure>,
}

/// What an operation in flight says: the app, the step and the percentage.
pub type WorkingView = (Seq<char>, Seq<char>, Option<u8>);

/// What the screen consists of.
pub struct StoreView {
    /// The app whose detail view is showing, or `None` for the list.
    pub showing: Option<Seq<char>>,
    /// The rows.
    pub entries: Seq<EntryView>,
    /// The catalog's name and whether it is out of reach.
    pub catalog: Option<(Seq<char>, bool)>,
    /// Whether the rows may be behind.
    pub stale: bool,
    /// Notes that have arrived, and the app they are about.
    pub notes: Option<(Seq<char>, Seq<char>)>,
    /// The operation in flight.
    pub working: Option<WorkingView>,
    /// The failure on screen: what happened, and what to do about it.
    pub failure: Option<(Seq<char>, Seq<char>)>,
}

/// What the primary button on an app's row would ask for: install what is
/// offered, roll back what fails, select again what is on disk, or nothing.
pub open spec fn primary_request(entries: Seq<EntryView>, app: Seq<char>) -> Option<RequestView> {
    if !lists(entries, app) {
        None
    } else {
        let entry = entry_of(entries, app);
        match entry.state {
            AppState::Available | AppState::UpdateAvailable => match entry.available {
                Some(version) => Some(RequestView::Install { app, version }),
                None => None,
            },
            AppState::Failing => if entry.can_roll_back {
                Some(RequestView::Rollback { app })
            } else {
                None
            },
            AppState::NothingSelected => match newest(entry) {
                Some(version) => Some(RequestView::Install { app, version }),
                None => None,
            },
            AppState::Installed | AppState::UpToDate | AppState::InstalledNotOffered => None,
        }
    }
}

/// The word on the primary button.
pub open spec fn primary_word(entries: Seq<EntryView>, app: Seq<char>) -> Option<Seq<char>> {
    if !lists(entries, app) {
        None
    } else {
        let entry = entry_of(entries, app);
        match entry.state {
            AppState::Available => Some("INSTALL"@),
            AppState::UpdateAvailable => Some("UPDATE"@),
            AppState::Failing => if entry.can_roll_back {
                Some("ROLL BACK"@)
            } else {
                None
            },
            AppState::NothingSelected => Some("REPAIR"@),
            _ => None,
        }
    }
}

/// Whether an app is listed with a previous release to go back to.
pub open spec fn may_roll_back(entries: Seq<EntryView>, app: Seq<char>) -> bool {
    lists(entries, app) && entry_of(entries, app).can_roll_back
}

/// Whether a request changes what is installed, rather than reading.
pub open spec fn changes_installs(request: RequestView) -> bool {
    request is Install || request is Rollback
}

/// The app a changing request is about.
pub open spec fn target_of(request: RequestView) -> Seq<char> {
    match request {
        RequestView::Install { app, version } => app,
        RequestView::Rollback { app } => app,
        _ => Seq::empty(),
    }
}

/// Whether an operation may start: reading always may, changing only while
/// nothing else changes.
pub open spec fn may_begin(store: StoreView, request: RequestView) -> bool {
    !changes_installs(request) || store.working is None
}

/// The screen once an operation has started.
pub open spec fn begun(store: StoreView, request: RequestView) -> StoreView {
    if changes_installs(request) && store.working is None {
        StoreView {
            failure: None,
            working: Some((target_of(request), "STARTING"@, None)),
            ..store
        }
    } else {
        store
    }
}

/// The screen with an app's detail view open, if the app is listed.
pub open spec fn opened(store: StoreView, app: Seq<char>) -> StoreView {
    if lists(store.entries, app) {
        StoreView { showing: Some(app), failure: None, notes: None, ..store }
    } else {
        store
    }
}

/// What opening an app's detail view asks for: the notes of what is offered.
pub open spec fn open_request(store: StoreView, app: Seq<char>) -> Option<RequestView> {
    if lists(store.entries, app) {
        match entry_of(store.entries, app).available {
            Some(version) => Some(RequestView::Notes { app, version }),
            None => None,
        }
    } else {
        None
    }
}

/// The screen once a request has finished. A fresh snapshot closes a detail
/// view whose app is gone; an answer to a change ends the change, and an answer
/// to anything else leaves it in flight.
pub open spec fn applied(store: StoreView, outcome: Outcome) -> StoreView {
    match outcome {
        Outcome::Refreshed(inventory) => {
            let next = StoreView {
                entries: inventory.views(),
                catalog: catalog_view(*inventory),
                stale: inventory.stale,
                ..store
            };
            if store.showing is Some && !lists(inventory.views(), store.showing->0) {
                StoreView { showing: None, notes: None, ..next }
            } else {
                next
            }
        },
        Outcome::Notes { app, text } => StoreView { notes: Some((app@, text@)), ..store },
        Outcome::Installed { app, version } => StoreView { working: None, failure: None, ..store },
        Outcome::RolledBack { app, version } => StoreView { working: None, failure: None, ..store },
        Outcome::NotesFailed { app, message, advice } => StoreView {
            failure: Some((message@, advice@)),
            ..store
        },
        Outcome::Failed { app, message, advice } => StoreView {
            working: if is_in_flight(store, optional(app)) {
                None
            } else {
                store.working
            },
            failure: Some((message@, advice@)),
            ..store
        },
    }
}

/// The snapshot behind the rows once a request has finished: a fresh one where
/// that is the answer, and otherwise the one there was.
pub open spec fn snapshot_after(inventory: Inventory, outcome: Outcome) -> Inventory {
    match outcome {
        Outcome::Refreshed(fresh) => *fresh,
        _ => inventory,
    }
}

/// Whether the change in flight is of the app a failure is about.
pub open spec fn is_in_flight(store: StoreView, about: Option<Seq<char>>) -> bool {
    store.working is Some && about == Some((store.working->0).0)
}

/// What an inventory says of its catalog.
pub open spec fn catalog_view(inventory: Inventory) -> Option<(Seq<char>, bool)> {
    match inventory.catalog {
        Some(status) => Some((status.name@, status.stale)),
        None => None,
    }
}

/// The notes on screen: those that have arrived, while their app is showing.
pub open spec fn shown_notes(store: StoreView) -> Option<Seq<char>> {
    match store.notes {
        Some((app, text)) => if store.showing == Some(app) {
            Some(text)
        } else {
            None
        },
        None => None,
    }
}

impl AppStoreScreen {
    /// What the screen consists of.
    pub open spec fn state(&self) -> StoreView {
        StoreView {
            showing: match self.view {
                View::List => None,
                View::Detail(app) => Some(app@),
            },
            entries: self.inventory.views(),
            catalog: catalog_view(self.inventory),
            stale: self.inventory.stale,
            notes: match self.notes {
                Some((app, text)) => Some((app@, text@)),
                None => None,
            },
            working: match self.working {
                Some(working) => Some((working.app@, working.step@, working.percent)),
                None => None,
            },
            failure: match self.failure {
                Some(failure) => Some((failure.message@, failure.advice@)),
                None => None,
            },
        }
    }

    /// A screen over a snapshot.
    pub fn new(inventory: Inventory) -> (screen: Self)
        ensures
            screen.inventory == inventory,
            screen.state() == (StoreView {
                showing: None,
                entries: inventory.views(),
                catalog: catalog_view(inventory),
                stale: inventory.stale,
                notes: None,
                working: None,
                failure: None,
            }),
    {
        Self { view: View::List, inventory, notes: None, working: None, failure: None }
    }

    /// Which view is showing.
    pub fn view(&self) -> (view: &View)
        ensures
            *view == self.view,
    {
        &self.view
    }

    /// The snapshot behind the rows.
    pub fn inventory(&self) -> (inventory: &Inventory)
        ensures
            *inventory == self.inventory,
    {
        &self.inventory
    }

    /// The rows to draw.
    pub fn rows(&self) -> (rows: &Vec<AppEntry>)
        ensures
            *rows == self.inventory.entries,
    {
        &self.inventory.entries
    }

    /// The app the detail view is about, if that is what is showing.
    pub fn detail(&self) -> (entry: Option<&AppEntry>)
        ensures
            entry is Some <==> self.state().showing is Some && lists(
                self.state().entries,
                self.state().showing->0,
            ),
            entry is Some ==> entry->0@ == entry_of(
                self.state().entries,
                self.state().showing->0,
            ),
    {
        match &self.view {
            View::Detail(app) => self.inventory.entry(app.as_str()),
            View::List => None,
        }
    }

    /// The notes on screen, if they are for the app being shown.
    pub fn notes(&self) -> (notes: Option<&str>)
        ensures
            shown_notes(self.state()) == (match notes {
                Some(text) => Some(text@),
                None => None,
            }),
    {
        match &self.notes {
            Some((app, text)) => match &self.view {
                View::Detail(showing) => {
                    if same_text(showing.as_str(), app.as_str()) {
                        Some(text.as_str())
                    } else {
                        None
                    }
                },
                View::List => None,
            },
            None => None,
        }
    }

    /// The operation in flight, if any.
    pub fn working(&self) -> (working: Option<&Working>)
        ensures
            working is Some <==> self.working is Some,
            working is Some ==> *working->0 == self.working->0,
    {
        match &self.working {
            Some(working) => Some(working),
            None => None,
        }
    }

    /// The failure on screen, if any.
    pub fn failure(&self) -> (failure: Option<&Failure>)
        ensures
            failure is Some <==> self.failure is Some,
            failure is Some ==> *failure->0 == self.failure->0,
    {
        match &self.failure {
            Some(failure) => Some(failure),
            None => None,
        }
    }

    /// Whether the catalog could not be reached, so the rows may be behind.
    pub fn is_stale(&self) -> (stale: bool)
        ensures
            stale == self.state().stale,
    {
        self.inventory.stale
    }

    /// A one-line summary of the catalog, for the status bar.
    pub fn catalog_summary(&self) -> (summary: String)
        ensures
            summary@ == (match self.state().catalog {
                Some((name, stale)) => if stale {
                    name + " \u{00B7} OFFLINE"@
                } else {
                    name
                },
                None => "NO CATALOG"@,
            }),
    {
        match &self.inventory.catalog {
            Some(status) => {
                let mut summary = status.name.clone();
                if status.stale {
                    push_text(&mut summary, " \u{00B7} OFFLINE");
                }
                summary
            },
            None => "NO CATALOG".to_owned(),
        }
    }

    /// Opens one app's detail view, and asks for its notes if there are any to
    /// fetch.
    pub fn open(&mut self, app: &str) -> (request: Option<Request>)
        ensures
            final(self).state() == opened(old(self).state(), app@),
            asked(request) == open_request(old(self).state(), app@),
            final(self).inventory == old(self).inventory,
    {
        let version = match self.inventory.entry(app) {
            Some(entry) => copy_optional(&entry.available),
            None => {
                return None;
            },
        };
        self.view = View::Detail(app.to_owned());
        self.failure = None;
        self.notes = None;
        match version {
            Some(version) => Some(Request::Notes { app: app.to_owned(), version }),
            None => None,
        }
    }

    /// Goes back to the list.
    pub fn back(&mut self)
        ensures
            final(self).state() == (StoreView { showing: None, notes: None, ..old(self).state() }),
            final(self).inventory == old(self).inventory,
    {
        self.view = View::List;
        self.notes = None;
    }

    /// Dismisses the failure on screen.
    pub fn dismiss_failure(&mut self)
        ensures
            final(self).state() == (StoreView { failure: None, ..old(self).state() }),
            final(self).inventory == old(self).inventory,
    {
        self.failure = None;
    }

    /// The action the primary button on `app`'s row would take.
    ///
    /// `None` when there is nothing to do: already current, or offered by
    /// nothing. A row with no action draws no button rather than a disabled one
    /// nobody can explain.
    pub fn primary_action(&self, app: &str) -> (request: Option<Request>)
        ensures
            asked(request) == primary_request(self.state().entries, app@),
    {
        let entry = match self.inventory.entry(app) {
            Some(entry) => entry,
            None => {
                return None;
            },
        };
        match entry.state {
            AppState::Available | AppState::UpdateAvailable => match &entry.available {
                Some(version) => Some(
                    Request::Install { app: app.to_owned(), version: version.clone() },
                ),
                None => None,
            },
            AppState::Failing => {
                if entry.can_roll_back {
                    Some(Request::Rollback { app: app.to_owned() })
                } else {
                    None
                }
            },
            AppState::NothingSelected => {
                if entry.on_disk.len() > 0 {
                    let newest: usize = entry.on_disk.len() - 1;
                    Some(
                        Request::Install {
                            app: app.to_owned(),
                            version: entry.on_disk[newest].clone(),
                        },
                    )
                } else {
                    None
                }
            },
            AppState::Installed | AppState::UpToDate | AppState::InstalledNotOffered => None,
        }
    }

    /// The word on the primary button.
    pub fn primary_label(&self, app: &str) -> (label: Option<&'static str>)
        ensures
            primary_word(self.state().entries, app@) == (match label {
                Some(label) => Some(label@),
                None => None,
            }),
    {
        let entry = match self.inventory.entry(app) {
            Some(entry) => entry,
            None => {
                return None;
            },
        };
        match entry.state {
            AppState::Available => Some("INSTALL"),
            AppState::UpdateAvailable => Some("UPDATE"),
            AppState::Failing => {
                if entry.can_roll_back {
                    Some("ROLL BACK")
                } else {
                    None
                }
            },
            AppState::NothingSelected => Some("REPAIR"),
            AppState::Installed | AppState::UpToDate | AppState::InstalledNotOffered => None,
        }
    }

    /// Whether a rollback button belongs on `app`'s detail view.
    pub fn can_roll_back(&self, app: &str) -> (can: bool)
        ensures
            can == may_roll_back(self.state().entries, app@),
    {
        match self.inventory.entry(app) {
            Some(entry) => entry.can_roll_back,
            None => false,
        }
    }

    /// Starts an operation, refusing to start a second one.
    ///
    /// The rule is about changing things. A refresh or a notes fetch reads, and
    /// is exactly what someone does while waiting for a download.
    pub fn begin(&mut self, request: &Request) -> (started: bool)
        ensures
            started == may_begin(old(self).state(), request@),
            final(self).state() == begun(old(self).state(), request@),
            final(self).inventory == old(self).inventory,
    {
        let app = match request {
            Request::Install { app, version: _ } => app.clone(),
            Request::Rollback { app } => app.clone(),
            Request::Refresh => {
                return true;
            },
            Request::Notes { app: _, version: _ } => {
                return true;
            },
        };
        if self.working.is_some() {
            return false;
        }
        self.failure = None;
        self.working = Some(Working { app, step: "STARTING".to_owned(), percent: None });
        true
    }

    /// Updates the step shown for the operation in flight.
    pub fn report(&mut self, step: &str, percent: Option<u8>)
        ensures
            final(self).state() == (StoreView {
                working: match old(self).state().working {
                    Some(working) => Some((working.0, step@, percent)),
                    None => None,
                },
                ..old(self).state()
            }),
            final(self).inventory == old(self).inventory,
    {
        let working = self.working.take();
        self.working = match working {
            Some(working) => Some(Working { app: working.app, step: step.to_owned(), percent }),
            None => None,
        };
    }

    /// Folds a finished request back into the screen.
    pub fn apply(&mut self, outcome: Outcome)
        ensures
            final(self).state() == applied(old(self).state(), outcome),
            final(self).inventory == snapshot_after(old(self).inventory, outcome),
    {
        match outcome {
            Outcome::Refreshed(inventory) => {
                self.inventory = *inventory;
                // A detail view whose app has vanished from the catalog and
                // from disk has nothing left to show.
                let gone = match &self.view {
                    View::Detail(app) => self.inventory.entry(app.as_str()).is_none(),
                    View::List => false,
                };
                if gone {
                    self.view = View::List;
                    self.notes = None;
                }
            },
            Outcome::Notes { app, text } => {
                self.notes = Some((app, text));
            },
            Outcome::Installed { app: _, version: _ } => {
                self.working = None;
                self.failure = None;
            },
            Outcome::RolledBack { app: _, version: _ } => {
                self.working = None;
                self.failure = None;
            },
            Outcome::NotesFailed { app: _, message, advice } => {
                self.failure = Some(Failure { message, advice: advice.to_owned() });
            },
            Outcome::Failed { app, message, advice } => {
                let ended = match (&app, &self.working) {
                    (Some(app), Some(working)) => same_text(app.as_str(), working.app.as_str()),
                    _ => false,
                };
                if ended {
                    self.working = None;
                }
                self.failure = Some(Failure { message, advice: advice.to_owned() });
            },
        }
    }

    /// The name to draw for an app: the one it is listed under, or else
    /// `fallback`.
    pub fn name_of(&self, app: &str, fallback: &str) -> (name: String)
        ensures
            name@ == (if lists(self.state().entries, app@) {
                entry_of(self.state().entries, app@).name
            } else {
                fallback@
            }),
    {
        match self.inventory.entry(app) {
            Some(entry) => entry.name.clone(),
            None => fallback.to_owned(),
        }
    }
}

/// One change at a time: while one is in flight, no other can start, whichever
/// app it is about, and reading goes on.
pub proof fn law_one_change_at_a_time(store: StoreView, request: RequestView, other: RequestView)
    requires
        changes_installs(request),
        may_begin(store, request),
    ensures
        may_begin(begun(store, request), other) <==> !changes_installs(other),
        changes_installs(other) ==> begun(begun(store, request), other) == begun(store, request),
{
}

/// A row's button only ever changes that row's own app.
pub proof fn law_button_is_about_its_row(entries: Seq<EntryView>, app: Seq<char>)
    ensures
        primary_request(entries, app) is Some ==> changes_installs(
            primary_request(entries, app)->0,
        ) && target_of(primary_request(entries, app)->0) == app,
{
}

/// Notes are only ever shown for the app being looked at, and going back
/// forgets them.
pub proof fn law_notes_belong_to_what_is_shown(store: StoreView)
    ensures
        shown_notes(store) is Some ==> store.showing == Some((store.notes->0).0),
        shown_notes(StoreView { showing: None, notes: None, ..store }) is None,
        store.showing is None ==> shown_notes(store) is None,
{
}

/// Whatever ends a change, another can start afterwards: an install, a rollback,
/// or a failure about the app in flight.
pub proof fn law_an_answer_ends_the_change(
    store: StoreView,
    outcome: Outcome,
    request: RequestView,
)
    requires
        outcome is Installed || outcome is RolledBack || (outcome matches Outcome::Failed {
            app,
            message,
            advice,
        } && is_in_flight(store, optional(app))),
    ensures
        may_begin(applied(store, outcome), request),
{
}

/// Whether an outcome answers a request that only reads: a fresh snapshot or
/// notes, or that there are none.
pub open spec fn answers_a_read(outcome: Outcome) -> bool {
    ||| outcome is Refreshed
    ||| outcome is Notes
    ||| outcome is NotesFailed
    ||| (outcome matches Outcome::Failed { app, message, advice } && app is None)
}

/// A read must not clear the operation in flight: whatever it is answered with,
/// the change goes on as it was, and no second one can start.
pub proof fn law_a_read_leaves_the_change_in_flight(
    store: StoreView,
    outcome: Outcome,
    request: RequestView,
)
    requires
        store.working is Some,
        answers_a_read(outcome),
    ensures
        applied(store, outcome).working == store.working,
        changes_installs(request) ==> !may_begin(applied(store, outcome), request),
{
}

} // verus!
