//! The App Store application's state, and what it asks of a worker.

use vstd::prelude::*;
use vstd::string::*;
use vstd::view::View as _;

use crate::action::Action;
use crate::app_store::inventory::place_of;
use crate::app_store::screen::{
    applied, asked, begun, changes_installs, may_begin, open_request, opened, primary_request,
    snapshot_after, AppStoreScreen, Outcome, Request, RequestView, StoreView, View,
};
use crate::damage::Damage;

verus! {

/// A step of an install.
#[derive(Debug, Clone, Copy, PartialEq, Eq, Structural)]
pub enum Step {
    /// Fetching the archive.
    Downloading {
        /// Bytes fetched.
        done: u64,
        /// Bytes there are, or nought where that is not known.
        total: u64,
    },
    /// Checking the archive against what was signed.
    Verifying,
    /// Unpacking it.
    Extracting,
    /// Putting it in place.
    Committing,
    /// Selecting it.
    Activating,
}

/// The word a step shows as.
pub open spec fn step_word(step: Step) -> Seq<char> {
    match step {
        Step::Downloading { done, total } => "DOWNLOADING"@,
        Step::Verifying => "VERIFYING"@,
        Step::Extracting => "EXTRACTING"@,
        Step::Committing => "COMMITTING"@,
        Step::Activating => "ACTIVATING"@,
    }
}

/// The percentage a step shows: only a download of known size has one. The
/// hundredfold is cut off at the largest number there is.
pub open spec fn step_percent(step: Step) -> Option<u8> {
    match step {
        Step::Downloading { done, total } => if total > 0 {
            let hundredfold = if done * 100 > u64::MAX {
                u64::MAX as int
            } else {
                done * 100
            };
            let percent = hundredfold / total as int;
            Some(
                if percent > 100 {
                    100u8
                } else {
                    percent as u8
                },
            )
        } else {
            None
        },
        _ => None,
    }
}

/// The word, and for a download the fraction, that one step shows as.
pub fn describe(step: Step) -> (shown: (&'static str, Option<u8>))
    ensures
        shown.0@ == step_word(step),
        shown.1 == step_percent(step),
{
    match step {
        Step::Downloading { done, total } => {
            if total > 0 {
                let hundredfold: u64 = match done.checked_mul(100) {
                    Some(product) => product,
                    None => u64::MAX,
                };
                let percent: u64 = hundredfold / total;
                let percent: u8 = if percent > 100 {
                    100
                } else {
                    percent as u8
                };
                ("DOWNLOADING", Some(percent))
            } else {
                ("DOWNLOADING", None)
            }
        },
        Step::Verifying => ("VERIFYING", None),
        Step::Extracting => ("EXTRACTING", None),
        Step::Committing => ("COMMITTING", None),
        Step::Activating => ("ACTIVATING", None),
    }
}

/// What of the list, as it was drawn, a tap landed on.
#[derive(Debug, Clone, Copy)]
pub struct ListHits {
    /// Whether the refresh button was hit.
    pub refresh: bool,
    /// The row whose action button was hit.
    pub action: Option<usize>,
    /// The row that was hit.
    pub row: Option<usize>,
}

/// What of the detail view, as it was drawn, a tap landed on.
#[derive(Debug, Clone, Copy)]
pub struct DetailHits {
    /// Whether the back button was hit.
    pub back: bool,
    /// Whether the primary button was drawn and hit.
    pub primary: bool,
    /// Whether the roll-back button was drawn and hit.
    pub rollback: bool,
}

/// The App Store app.
#[derive(Debug)]
pub struct AppStoreApp {
    /// What the screen shows.
    pub screen: AppStoreScreen,
    /// What the last change touched, by row, so that a frame can claim less
    /// than the whole panel when that is safe.
    pub pending_damage: Damage<usize>,
}

/// What a press leaves behind.
pub struct StoreStep {
    /// What the screen shows.
    pub store: StoreView,
    /// The rows that changed, or `None` for everything.
    pub damage: Option<Seq<usize>>,
    /// What to ask the platform for.
    pub action: Action,
    /// What to hand to a worker.
    pub request: Option<RequestView>,
}

/// A press that did nothing.
pub open spec fn idle(store: StoreView, damage: Option<Seq<usize>>) -> StoreStep {
    StoreStep { store, damage, action: Action::Nothing, request: None }
}

/// What starting an operation does. One that starts from a row touches that row
/// alone, unless a failure banner goes away and moves every row.
pub open spec fn started(
    store: StoreView,
    damage: Option<Seq<usize>>,
    request: RequestView,
    row: Option<usize>,
) -> StoreStep {
    if !may_begin(store, request) {
        idle(store, damage)
    } else {
        StoreStep {
            store: begun(store, request),
            damage: if store.failure is None && row is Some {
                Some(seq![row->0])
            } else {
                None
            },
            action: Action::Redraw,
            request: Some(request),
        }
    }
}

/// What a tap on the list does.
pub open spec fn list_pressed(
    store: StoreView,
    damage: Option<Seq<usize>>,
    hits: ListHits,
) -> StoreStep {
    if hits.refresh {
        StoreStep { request: Some(RequestView::Refresh), ..idle(store, damage) }
    } else if hits.action is Some {
        let index = hits.action->0;
        if index < store.entries.len() {
            match primary_request(store.entries, store.entries[index as int].app) {
                Some(request) => started(store, damage, request, Some(index)),
                None => idle(store, damage),
            }
        } else {
            idle(store, damage)
        }
    } else if hits.row is Some {
        let index = hits.row->0;
        if index < store.entries.len() {
            let app = store.entries[index as int].app;
            StoreStep {
                store: opened(store, app),
                damage: None,
                action: Action::Redraw,
                request: open_request(store, app),
            }
        } else {
            idle(store, damage)
        }
    } else {
        idle(store, damage)
    }
}

/// What a tap on the detail view does.
pub open spec fn detail_pressed(
    store: StoreView,
    damage: Option<Seq<usize>>,
    hits: DetailHits,
) -> StoreStep {
    if hits.back {
        StoreStep {
            store: StoreView { showing: None, notes: None, ..store },
            damage: None,
            action: Action::Redraw,
            request: None,
        }
    } else if store.showing is None {
        idle(store, damage)
    } else {
        let app = store.showing->0;
        let primary = primary_request(store.entries, app);
        if hits.primary && primary is Some {
            started(store, damage, primary->0, None)
        } else if hits.rollback {
            started(store, damage, RequestView::Rollback { app }, None)
        } else {
            idle(store, damage)
        }
    }
}

/// The row the operation in flight is drawn in, where `drawn` rows of the list
/// are on the glass: none in the detail view, before the first frame, or where
/// the row did not fit.
pub open spec fn working_row(store: StoreView, drawn: Option<usize>) -> Option<usize> {
    if drawn is None || store.working is None {
        None
    } else {
        let place = place_of(store.entries, (store.working->0).0, 0);
        if place < store.entries.len() && place < drawn->0 {
            Some(place as usize)
        } else {
            None
        }
    }
}

impl AppStoreApp {
    /// Builds the App Store showing `screen`.
    pub fn new(screen: AppStoreScreen) -> (app: Self)
        ensures
            app.screen == screen,
            app.pending_damage@ is None,
    {
        Self { screen, pending_damage: Damage::Full }
    }

    /// Handles a tap on the list: what to ask the platform for, and what to
    /// hand to a worker.
    pub fn press_list(&mut self, hits: ListHits) -> (answer: (Action, Option<Request>))
        ensures
            (StoreStep {
                store: final(self).screen.state(),
                damage: final(self).pending_damage@,
                action: answer.0,
                request: asked(answer.1),
            }) == list_pressed(old(self).screen.state(), old(self).pending_damage@, hits),
            final(self).screen.inventory == old(self).screen.inventory,
    {
        if hits.refresh {
            // Nothing on screen changes at the moment of the tap; the redraw
            // comes later, with the answer.
            return (Action::Nothing, Some(Request::Refresh));
        }
        if let Some(index) = hits.action {
            if index >= self.screen.inventory.entries.len() {
                return (Action::Nothing, None);
            }
            let app = self.screen.inventory.entries[index].app.clone();
            assert(self.screen.state().entries[index as int] == self.screen.inventory.entries@[
                index as int
            ]@);
            return match self.screen.primary_action(app.as_str()) {
                Some(request) => self.start(request, Some(index)),
                None => (Action::Nothing, None),
            };
        }
        if let Some(index) = hits.row {
            if index >= self.screen.inventory.entries.len() {
                return (Action::Nothing, None);
            }
            let app = self.screen.inventory.entries[index].app.clone();
            assert(self.screen.state().entries[index as int] == self.screen.inventory.entries@[
                index as int
            ]@);
            let request = self.screen.open(app.as_str());
            // Opening a detail view redraws the whole screen, not one row.
            self.pending_damage = Damage::Full;
            return (Action::Redraw, request);
        }
        (Action::Nothing, None)
    }

    /// Handles a tap on the detail view.
    pub fn press_detail(&mut self, hits: DetailHits) -> (answer: (Action, Option<Request>))
        ensures
            (StoreStep {
                store: final(self).screen.state(),
                damage: final(self).pending_damage@,
                action: answer.0,
                request: asked(answer.1),
            }) == detail_pressed(old(self).screen.state(), old(self).pending_damage@, hits),
            final(self).screen.inventory == old(self).screen.inventory,
    {
        if hits.back {
            self.screen.back();
            self.pending_damage = Damage::Full;
            return (Action::Redraw, None);
        }
        let app = match &self.screen.view {
            View::Detail(app) => app.clone(),
            View::List => {
                return (Action::Nothing, None);
            },
        };
        if hits.primary {
            if let Some(request) = self.screen.primary_action(app.as_str()) {
                return self.start(request, None);
            }
        }
        if hits.rollback {
            return self.start(Request::Rollback { app }, None);
        }
        (Action::Nothing, None)
    }

    /// Starts an install or a rollback: begins it on the screen and works out
    /// how much of the panel that changed.
    fn start(&mut self, request: Request, row: Option<usize>) -> (answer: (
        Action,
        Option<Request>,
    ))
        ensures
            (StoreStep {
                store: final(self).screen.state(),
                damage: final(self).pending_damage@,
                action: answer.0,
                request: asked(answer.1),
            }) == started(
                old(self).screen.state(),
                old(self).pending_damage@,
                request@,
                row,
            ),
            final(self).screen.inventory == old(self).screen.inventory,
    {
        let had_failure = self.screen.failure.is_some();
        if !self.screen.begin(&request) {
            return (Action::Nothing, None);
        }
        self.pending_damage = match row {
            Some(index) => {
                if had_failure {
                    Damage::Full
                } else {
                    let mut rows: Vec<usize> = Vec::new();
                    rows.push(index);
                    assert(rows@ =~= seq![index]);
                    Damage::Regions(rows)
                }
            },
            None => Damage::Full,
        };
        (Action::Redraw, Some(request))
    }

    /// The row the operation in flight is drawn in.
    fn working_row(&self, drawn: Option<usize>) -> (row: Option<usize>)
        ensures
            row == working_row(self.screen.state(), drawn),
    {
        let drawn: usize = match drawn {
            Some(drawn) => drawn,
            None => {
                return None;
            },
        };
        match &self.screen.working {
            Some(working) => match self.screen.inventory.position(working.app.as_str()) {
                Some(index) => {
                    if index < drawn {
                        Some(index)
                    } else {
                        None
                    }
                },
                None => None,
            },
            None => None,
        }
    }

    /// Folds in a step of the operation in flight, while `drawn` rows of the
    /// list are on the glass.
    pub fn progress(&mut self, step: &str, percent: Option<u8>, drawn: Option<usize>) -> (action:
        Action)
        ensures
            action == Action::Redraw,
            final(self).screen.state() == (StoreView {
                working: match old(self).screen.state().working {
                    Some(working) => Some((working.0, step@, percent)),
                    None => None,
                },
                ..old(self).screen.state()
            }),
            final(self).pending_damage@ == (match working_row(old(self).screen.state(), drawn) {
                Some(row) => Some(seq![row]),
                None => None,
            }),
            final(self).screen.inventory == old(self).screen.inventory,
    {
        self.pending_damage = match self.working_row(drawn) {
            Some(row) => {
                let mut rows: Vec<usize> = Vec::new();
                rows.push(row);
                assert(rows@ =~= seq![row]);
                Damage::Regions(rows)
            },
            None => Damage::Full,
        };
        self.screen.report(step, percent);
        Action::Redraw
    }

    /// Folds in the answer to a request. None of what that changes is safe to
    /// describe as one row.
    pub fn done(&mut self, outcome: Outcome) -> (action: Action)
        ensures
            action == Action::Redraw,
            final(self).screen.state() == applied(old(self).screen.state(), outcome),
            final(self).screen.inventory == snapshot_after(old(self).screen.inventory, outcome),
            final(self).pending_damage@ is None,
    {
        self.screen.apply(outcome);
        self.pending_damage = Damage::Full;
        Action::Redraw
    }
}

/// Nothing is installed or rolled back without a tap on a button for it: a
/// tap elsewhere, a step and an answer hand no change to a worker.
pub proof fn law_changes_are_explicit(
    store: StoreView,
    damage: Option<Seq<usize>>,
    list: ListHits,
    detail: DetailHits,
)
    ensures
        list_pressed(store, damage, list).request is Some && changes_installs(
            list_pressed(store, damage, list).request->0,
        ) ==> list.action is Some && !list.refresh,
        detail_pressed(store, damage, detail).request is Some && changes_installs(
            detail_pressed(store, damage, detail).request->0,
        ) ==> detail.primary || detail.rollback,
{
}

/// A change that is handed to a worker is on screen as the one in flight, and
/// is the only one: while one is in flight, no tap hands over another.
pub proof fn law_no_second_change(
    store: StoreView,
    damage: Option<Seq<usize>>,
    list: ListHits,
    detail: DetailHits,
)
    requires
        store.working is Some,
    ensures
        list_pressed(store, damage, list).request is Some ==> !changes_installs(
            list_pressed(store, damage, list).request->0,
        ),
        detail_pressed(store, damage, detail).request is None,
{
}

} // verus!
