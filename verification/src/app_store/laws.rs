//! What the App Store promises, row by row and tap by tap.
//!
//! Each law speaks of the rows on screen, of what they say and of where a tap
//! landed.

use vstd::prelude::*;
use vstd::string::*;

use crate::action::Action;
use crate::app_store::app::{
    detail_pressed, list_pressed, step_percent, step_word, working_row, DetailHits, ListHits, Step,
};
use crate::app_store::inventory::{
    entry_of, lemma_place_of, lists, place_of, AppEntry, EntryView, Inventory,
};
use crate::app_store::render::{
    attempts, banner, detail_of, missing_notes, prerelease, row_of, versions, DetailLineView,
    FootView, RowEndView,
};
use crate::app_store::screen::{
    applied, begun, may_roll_back, open_request, opened, primary_request, primary_word, shown_notes,
    snapshot_after, AppStoreScreen, Outcome, RequestView, StoreView,
};
use crate::app_store::source::{says_failed, SourceError};
use crate::app_store::wrap::{laid_out, shown_lines, WrappedView};
use crate::text::{decimal, trimmed, uppercase};

verus! {

/// An app is listed exactly where some row is about it, and its row is the
/// first of those.
pub proof fn law_an_app_is_found_where_it_is_listed(entries: Seq<EntryView>, app: Seq<char>)
    ensures
        lists(entries, app) <==> exists|k: int|
            0 <= k < entries.len() && (#[trigger] entries[k]).app == app,
        lists(entries, app) ==> exists|k: int|
            0 <= k < entries.len() && (#[trigger] entries[k]).app == app && entry_of(entries, app)
                == entries[k] && forall|j: int| 0 <= j < k ==> (#[trigger] entries[j]).app != app,
{
    lemma_place_of(entries, app, 0);
    lemma_first_place(entries, app, 0);
    let place = place_of(entries, app, 0);
    if place < entries.len() {
        assert(entries[place].app == app);
    }
}

proof fn lemma_first_place(entries: Seq<EntryView>, app: Seq<char>, from: int)
    requires
        0 <= from <= entries.len(),
    ensures
        forall|j: int|
            from <= j < place_of(entries, app, from) ==> (#[trigger] entries[j]).app != app,
    decreases entries.len() - from,
{
    if from < entries.len() && entries[from].app != app {
        lemma_first_place(entries, app, from + 1);
    }
}

/// What the primary button of the first row about an app asks for: to install
/// the version that is offered, where one is and the app is not installed or
/// has an update; to roll back an app that fails, where it can; to install the
/// newest version on disk again, where none is selected; and nothing for an app
/// that is as it should be.
pub proof fn law_the_button_asks_for_what_the_row_needs(entries: Seq<EntryView>, k: int)
    requires
        0 <= k < entries.len(),
        forall|j: int| 0 <= j < k ==> (#[trigger] entries[j]).app != entries[k].app,
    ensures
        ({
            let row = entries[k];
            let asked = primary_request(entries, row.app);
            let offered = row.state is Available || row.state is UpdateAvailable;
            let settled = row.state is Installed || row.state is UpToDate
                || row.state is InstalledNotOffered;
            &&& offered && row.available is Some ==> asked == Some(
                RequestView::Install { app: row.app, version: row.available->0 },
            )
            &&& offered && row.available is None ==> asked is None
            &&& row.state is Failing ==> asked == (if row.can_roll_back {
                Some(RequestView::Rollback { app: row.app })
            } else {
                None
            })
            &&& row.state is NothingSelected && row.on_disk.len() > 0 ==> asked == Some(
                RequestView::Install {
                    app: row.app,
                    version: row.on_disk[row.on_disk.len() - 1],
                },
            )
            &&& row.state is NothingSelected && row.on_disk.len() == 0 ==> asked is None
            &&& settled ==> asked is None
        }),
{
    law_an_app_is_found_where_it_is_listed(entries, entries[k].app);
    let app = entries[k].app;
    let j = choose|j: int|
        0 <= j < entries.len() && (#[trigger] entries[j]).app == app && entry_of(entries, app)
            == entries[j] && forall|i: int| 0 <= i < j ==> (#[trigger] entries[i]).app != app;
    assert(entries[k].app == app);
    assert(j == k);
}

/// The word on the button says what it asks for: to install what is new, to
/// update what is old, to repair what has nothing selected, and to roll back.
pub proof fn law_the_word_says_what_is_asked(entries: Seq<EntryView>, app: Seq<char>)
    requires
        primary_request(entries, app) is Some,
    ensures
        primary_request(entries, app)->0 is Rollback <==> primary_word(entries, app) == Some(
            "ROLL BACK"@,
        ),
        entry_of(entries, app).state is Available <==> primary_word(entries, app) == Some(
            "INSTALL"@,
        ),
        entry_of(entries, app).state is UpdateAvailable <==> primary_word(entries, app) == Some(
            "UPDATE"@,
        ),
        entry_of(entries, app).state is NothingSelected <==> primary_word(entries, app) == Some(
            "REPAIR"@,
        ),
{
    reveal_strlit("ROLL BACK");
    reveal_strlit("INSTALL");
    reveal_strlit("UPDATE");
    reveal_strlit("REPAIR");
    assert("UPDATE"@[0] != "REPAIR"@[0]);
    assert("INSTALL"@.len() != "UPDATE"@.len());
    assert("ROLL BACK"@.len() != "UPDATE"@.len());
}

/// What the rows say of prereleases changes no button: rows that differ only in
/// that have the same buttons, and no button installs a version that is neither
/// the one offered nor one on disk.
pub proof fn law_prereleases_are_never_asked_for(
    entries: Seq<EntryView>,
    others: Seq<EntryView>,
    app: Seq<char>,
)
    requires
        entries.len() == others.len(),
        forall|k: int|
            0 <= k < entries.len() ==> (#[trigger] others[k]) == (EntryView {
                prerelease: others[k].prerelease,
                ..entries[k]
            }),
    ensures
        primary_request(entries, app) == primary_request(others, app),
        open_request_of(entries, app) == open_request_of(others, app),
        primary_request(entries, app) matches Some(RequestView::Install { app: about, version })
            ==> about == app && (entry_of(entries, app).available == Some(version) || entry_of(
            entries,
            app,
        ).on_disk.contains(version)),
{
    lemma_same_place(entries, others, app, 0);
    lemma_place_of(entries, app, 0);
    if lists(entries, app) {
        assert(others[place_of(entries, app, 0)] == others[place_of(entries, app, 0)]);
        let disk = entry_of(entries, app).on_disk;
        if disk.len() > 0 {
            assert(disk[disk.len() - 1] == disk.last());
        }
    }
}

/// The notes that opening an app asks for, with these rows.
pub open spec fn open_request_of(entries: Seq<EntryView>, app: Seq<char>) -> Option<RequestView> {
    open_request(
        StoreView {
            showing: None,
            entries,
            catalog: None,
            stale: false,
            notes: None,
            working: None,
            failure: None,
        },
        app,
    )
}

proof fn lemma_same_place(
    entries: Seq<EntryView>,
    others: Seq<EntryView>,
    app: Seq<char>,
    from: int,
)
    requires
        entries.len() == others.len(),
        0 <= from <= entries.len(),
        forall|k: int|
            0 <= k < entries.len() ==> (#[trigger] others[k]) == (EntryView {
                prerelease: others[k].prerelease,
                ..entries[k]
            }),
    ensures
        place_of(entries, app, from) == place_of(others, app, from),
    decreases entries.len() - from,
{
    if from < entries.len() {
        assert(others[from] == others[from]);
        lemma_same_place(entries, others, app, from + 1);
    }
}

/// Starting an operation: a change shows as the one in flight, about its own
/// app, with no percentage yet, and takes a failure off the screen; reading
/// changes nothing; and neither touches the rows, the view or the notes.
pub proof fn law_starting_shows_the_change(store: StoreView, app: Seq<char>, version: Seq<char>)
    requires
        store.working is None,
    ensures
        forall|request: RequestView|
            (request == (RequestView::Install { app, version }) || request
                == (RequestView::Rollback { app })) ==> {
                let next = #[trigger] begun(store, request);
                &&& next.working is Some
                &&& (next.working->0).0 == app
                &&& (next.working->0).2 is None
                &&& next.failure is None
                &&& next.showing == store.showing
                &&& next.entries == store.entries
                &&& next.catalog == store.catalog
                &&& next.stale == store.stale
                &&& next.notes == store.notes
            },
        begun(store, RequestView::Refresh) == store,
        begun(store, RequestView::Notes { app, version }) == store,
{
}

/// Opening an app that is listed shows it, forgets the notes and the failure of
/// what was shown before, and asks for the notes of the version offered, of that
/// app; one that is not listed changes nothing and asks for nothing.
pub proof fn law_opening_shows_that_app(store: StoreView, app: Seq<char>)
    ensures
        !lists(store.entries, app) ==> opened(store, app) == store && open_request(store, app)
            is None,
        lists(store.entries, app) ==> {
            let next = opened(store, app);
            &&& next.showing == Some(app)
            &&& next.notes is None
            &&& next.failure is None
            &&& next.working == store.working
            &&& next.entries == store.entries
            &&& next.catalog == store.catalog
            &&& next.stale == store.stale
        },
        lists(store.entries, app) ==> open_request(store, app) == (match entry_of(
            store.entries,
            app,
        ).available {
            Some(version) => Some(RequestView::Notes { app, version }),
            None => None,
        }),
{
}

/// Folding an answer in: a snapshot brings its own rows, one for each of its
/// entries, and keeps the app on show exactly where it is still listed; notes
/// are kept with the app they are about; a finished change takes the failure off
/// the screen and ends the one in flight; a failure says what happened. What an
/// answer is not about stays.
pub proof fn law_answers_change_what_they_are_about(store: StoreView, outcome: Outcome)
    ensures
        ({
            let next = applied(store, outcome);
            match outcome {
                Outcome::Refreshed(fresh) => {
                    &&& next.entries.len() == fresh.entries@.len()
                    &&& forall|k: int|
                        0 <= k < next.entries.len() ==> #[trigger] next.entries[k]
                            == fresh.entries@[k]@
                    &&& next.stale == fresh.stale
                    &&& next.catalog is Some <==> fresh.catalog is Some
                    &&& fresh.catalog is Some ==> next.catalog == Some(
                        ((fresh.catalog->0).name@, (fresh.catalog->0).stale),
                    )
                    &&& next.working == store.working
                    &&& next.failure == store.failure
                    &&& store.showing is Some && (exists|k: int|
                        0 <= k < next.entries.len() && (#[trigger] next.entries[k]).app
                            == store.showing->0) ==> next.showing == store.showing && next.notes
                        == store.notes
                    &&& store.showing is Some && !(exists|k: int|
                        0 <= k < next.entries.len() && (#[trigger] next.entries[k]).app
                            == store.showing->0) ==> next.showing is None && next.notes is None
                    &&& store.showing is None ==> next.showing is None
                },
                Outcome::Notes { app, text } => {
                    &&& next.notes == Some((app@, text@))
                    &&& next == (StoreView { notes: next.notes, ..store })
                },
                Outcome::Installed { app, version } => {
                    &&& next.working is None
                    &&& next.failure is None
                    &&& next == (StoreView { working: None, failure: None, ..store })
                },
                Outcome::RolledBack { app, version } => {
                    &&& next.working is None
                    &&& next.failure is None
                    &&& next == (StoreView { working: None, failure: None, ..store })
                },
                Outcome::NotesFailed { app, message, advice } => {
                    &&& next.failure == Some((message@, advice@))
                    &&& next == (StoreView { failure: next.failure, ..store })
                },
                Outcome::Failed { app, message, advice } => {
                    &&& next.failure == Some((message@, advice@))
                    &&& next == (StoreView {
                        failure: next.failure,
                        working: next.working,
                        ..store
                    })
                    &&& next.working is None || next.working == store.working
                    &&& app is None ==> next.working == store.working
                    &&& store.working is Some && app is Some ==> (next.working is None <==> app->0@
                        == (store.working->0).0)
                },
            }
        }),
{
    if let Outcome::Refreshed(fresh) = outcome {
        if store.showing is Some {
            law_an_app_is_found_where_it_is_listed(fresh.views(), store.showing->0);
        }
    }
}

/// A tap on the button of a row asks for what that row's button is for, about
/// the app of that very row and no other, shows it in flight, and claims that
/// row of the glass or all of it; while something is in flight it asks for
/// nothing and changes nothing.
pub proof fn law_a_row_button_is_about_its_row(
    store: StoreView,
    damage: Option<Seq<usize>>,
    hits: ListHits,
)
    requires
        !hits.refresh,
        hits.action is Some,
    ensures
        ({
            let step = list_pressed(store, damage, hits);
            let k = hits.action->0 as int;
            let app = store.entries[k].app;
            &&& k >= store.entries.len() ==> step.request is None && step.store == store
                && step.action == Action::Nothing
            &&& k < store.entries.len() && store.working is Some ==> step.request is None
                && step.store == store && step.action == Action::Nothing
            &&& k < store.entries.len() && store.working is None ==> {
                &&& step.request == primary_request(store.entries, app)
                &&& step.request is Some ==> {
                    &&& step.action == Action::Redraw
                    &&& step.store.working is Some && (step.store.working->0).0 == app
                    &&& step.store.entries == store.entries
                    &&& step.store.failure is None
                    &&& step.damage is None <==> store.failure is Some
                    &&& step.damage is Some ==> step.damage->0 == seq![hits.action->0]
                }
                &&& step.request is None ==> step.store == store && step.action == Action::Nothing
            }
        }),
{
    let k = hits.action->0 as int;
    if k < store.entries.len() {
        lemma_place_of(store.entries, store.entries[k].app, 0);
    }
}

/// A tap on a row beside its button opens that very row's app, and asks for its
/// notes and nothing else; a tap on refresh asks to read everything again and
/// changes nothing on the glass; a tap beside everything does nothing.
pub proof fn law_a_row_opens_its_app(
    store: StoreView,
    damage: Option<Seq<usize>>,
    hits: ListHits,
)
    ensures
        ({
            let step = list_pressed(store, damage, hits);
            &&& hits.refresh ==> step.request == Some(RequestView::Refresh) && step.store == store
                && step.action == Action::Nothing && step.damage == damage
            &&& !hits.refresh && hits.action is None && hits.row is None ==> step.request is None
                && step.store == store && step.action == Action::Nothing && step.damage == damage
            &&& !hits.refresh && hits.action is None && hits.row is Some && hits.row->0
                < store.entries.len() ==> {
                let row = store.entries[hits.row->0 as int];
                &&& step.action == Action::Redraw
                &&& step.damage is None
                &&& step.store.showing == Some(row.app)
                &&& step.store.working == store.working
                &&& step.request is Some ==> (step.request->0 matches RequestView::Notes {
                    app,
                    version,
                } && app == row.app)
            }
        }),
{
    if hits.row is Some && hits.row->0 < store.entries.len() {
        let app = store.entries[hits.row->0 as int].app;
        law_an_app_is_found_where_it_is_listed(store.entries, app);
        assert(store.entries[hits.row->0 as int].app == app);
    }
}

/// In the detail view, back goes to the list and keeps what is in flight; the
/// two buttons ask about the app on show and no other, the first for what its
/// row would ask for and the second for a rollback.
pub proof fn law_the_detail_view_is_about_its_app(
    store: StoreView,
    damage: Option<Seq<usize>>,
    hits: DetailHits,
)
    ensures
        ({
            let step = detail_pressed(store, damage, hits);
            &&& hits.back ==> step.store == (StoreView { showing: None, notes: None, ..store })
                && step.request is None && step.action == Action::Redraw && step.damage is None
            &&& !hits.back && (store.showing is None || store.working is Some) ==> step.store
                == store && step.request is None && step.action == Action::Nothing
            &&& !hits.back && !hits.primary && !hits.rollback ==> step.store == store
                && step.request is None && step.action == Action::Nothing
            &&& !hits.back && store.showing is Some && store.working is None ==> {
                let app = store.showing->0;
                let asked = primary_request(store.entries, app);
                &&& hits.primary && asked is Some ==> step.request == asked
                &&& hits.rollback && !(hits.primary && asked is Some) ==> step.request == Some(
                    RequestView::Rollback { app },
                )
                &&& step.request is Some ==> step.store.working is Some && (
                step.store.working->0).0 == app && step.store.showing == store.showing
                    && step.action == Action::Redraw && step.damage is None
            }
        }),
{
    if store.showing is Some {
        lemma_place_of(store.entries, store.showing->0, 0);
    }
}

/// The row in flight is one that is drawn and about the app in flight, the
/// first such; without a drawn list or anything in flight there is none.
pub proof fn law_the_working_row_is_about_the_work(store: StoreView, drawn: Option<usize>)
    requires
        store.entries.len() <= usize::MAX,
    ensures
        ({
            let row = working_row(store, drawn);
            &&& drawn is None || store.working is None ==> row is None
            &&& row is Some ==> row->0 < drawn->0 && row->0 < store.entries.len()
                && store.entries[row->0 as int].app == (store.working->0).0
            &&& row is None && drawn is Some && store.working is Some ==> forall|k: int|
                0 <= k < store.entries.len() && (#[trigger] store.entries[k]).app == (
                store.working->0).0 ==> k >= drawn->0 || exists|j: int|
                    0 <= j < k && (#[trigger] store.entries[j]).app == (store.working->0).0
        }),
{
    if drawn is Some && store.working is Some {
        let app = (store.working->0).0;
        lemma_place_of(store.entries, app, 0);
        lemma_first_place(store.entries, app, 0);
        let place = place_of(store.entries, app, 0);
        if working_row(store, drawn) is None {
            assert forall|k: int|
                0 <= k < store.entries.len() && (#[trigger] store.entries[k]).app == app implies k
                >= drawn->0 || exists|j: int| 0 <= j < k && (#[trigger] store.entries[j]).app
                == app by {
                if place < k {
                    assert(store.entries[place].app == app);
                }
            }
        }
    }
}

/// The percentage of a download is the share that has come, rounded down, and
/// never over a hundred; a download of unknown size, and every other step, has
/// none.
pub proof fn law_percentages_are_shares(done: u64, total: u64)
    ensures
        step_percent(Step::Downloading { done, total }) is Some <==> total > 0,
        total > 0 && done >= total && done * 100 <= u64::MAX ==> step_percent(
            Step::Downloading { done, total },
        ) == Some(100u8),
        total > 0 && done < total && done * 100 <= u64::MAX ==> {
            let percent = step_percent(Step::Downloading { done, total })->0 as int;
            percent * total <= done * 100 < (percent + 1) * total
        },
        total > 0 ==> step_percent(Step::Downloading { done, total })->0 <= 100,
        step_percent(Step::Verifying) is None,
        step_percent(Step::Extracting) is None,
        step_percent(Step::Committing) is None,
        step_percent(Step::Activating) is None,
{
    if total > 0 && done * 100 <= u64::MAX {
        let (share, whole) = (done * 100, total as int);
        let percent = share / whole;
        assert(percent * whole <= share < (percent + 1) * whole) by (nonlinear_arith)
            requires
                percent == share / whole,
                whole > 0,
        ;
        if done < total {
            assert(percent < 100) by (nonlinear_arith)
                requires
                    percent * whole <= share,
                    share < 100 * whole,
                    whole > 0,
            ;
            assert(percent >= 0) by (nonlinear_arith)
                requires
                    share < (percent + 1) * whole,
                    share >= 0,
                    whole > 0,
            ;
        } else {
            assert(percent >= 100) by (nonlinear_arith)
                requires
                    share < (percent + 1) * whole,
                    share >= 100 * whole,
                    whole > 0,
            ;
        }
    }
}

/// A row says its own name and versions, stands out exactly where the app fails
/// or has nothing selected, and ends with how far the work on it has got while
/// there is any, and otherwise with a button exactly where there is something to
/// ask for, filled for an app that fails.
pub proof fn law_a_row_reads_as_its_entry_stands(store: StoreView, entry: EntryView)
    ensures
        ({
            let row = row_of(store, entry);
            let working = store.working is Some && (store.working->0).0 == entry.app;
            let asked = primary_request(store.entries, entry.app);
            &&& row.name == uppercase(entry.name)
            &&& row.versions == versions(entry)
            &&& row.pressing <==> (entry.state is Failing || entry.state is NothingSelected)
            &&& working ==> row.end == (RowEndView::Progress {
                step: (store.working->0).1,
                percent: (store.working->0).2,
            })
            &&& !working && asked is None ==> row.end is Blank
            &&& !working && asked is Some ==> (row.end matches RowEndView::Button { label, filled }
                && Some(label) == primary_word(store.entries, entry.app) && (filled
                <==> entry.state is Failing))
        }),
{
}

/// The detail view begins with the name, the identifier and the versions of its
/// own app; it speaks of a prerelease exactly where one is offered and of failed
/// starts exactly where a release was tried and never started; it shows the
/// notes that have come for that app, unless they are blank; and at its foot
/// stands how far the work on the app has got, or else what can be done.
pub proof fn law_the_detail_view_reads_as_its_entry_stands(store: StoreView, entry: EntryView)
    ensures
        ({
            let page = detail_of(store, entry);
            let working = store.working is Some && (store.working->0).0 == entry.app;
            let tried = entry.health is Some && !entry.health->0.started && entry.health->0.attempts
                > 0;
            let offered = entry.prerelease is Some;
            let asked = primary_request(store.entries, entry.app);
            &&& page.lines.len() == 3 + (if offered {
                1int
            } else {
                0
            }) + (if tried {
                1int
            } else {
                0
            })
            &&& page.lines[0] == DetailLineView::Name(uppercase(entry.name))
            &&& page.lines[1] == DetailLineView::Id(entry.app)
            &&& page.lines[2] == DetailLineView::Versions(versions(entry))
            &&& offered ==> page.lines[3] is Prerelease
            &&& tried ==> page.lines.last() is Health
            &&& page.notes is Ok <==> shown_notes(store) is Some && trimmed(
                shown_notes(store)->0,
            ).len() > 0
            &&& page.notes is Ok ==> page.notes->Ok_0 == shown_notes(store)->0
            &&& page.failure is Some <==> store.failure is Some
            &&& store.failure is Some ==> page.failure->0 == (
                uppercase((store.failure->0).0),
                uppercase((store.failure->0).1),
            )
            &&& working ==> page.foot == (FootView::Progress {
                step: (store.working->0).1,
                percent: (store.working->0).2,
            })
            &&& !working ==> (page.foot matches FootView::Buttons { primary, rollback } && (
            primary is Some <==> asked is Some) && (primary is Some ==> primary == primary_word(
                store.entries,
                entry.app,
            )) && (rollback <==> lists(store.entries, entry.app) && entry_of(
                store.entries,
                entry.app,
            ).can_roll_back))
        }),
{
}

/// What the lines of an entry hold: each names the very version, or the very
/// count and note, that it is about.
pub proof fn law_lines_name_what_they_are_about(entry: EntryView)
    ensures
        entry.installed is Some && entry.available is None ==> versions(entry) == "V"@
            + entry.installed->0,
        entry.installed is Some && entry.available is Some ==> versions(entry) == "V"@
            + entry.installed->0 + " \u{00B7} OFFERED V"@ + entry.available->0,
        entry.installed is None && entry.available is None ==> versions(entry)
            == "NOT INSTALLED"@,
        entry.installed is None && entry.available is Some ==> versions(entry) == "NOT INSTALLED"@
            + " \u{00B7} OFFERED V"@ + entry.available->0,
        prerelease(entry) is Some <==> entry.prerelease is Some,
        prerelease(entry) is Some ==> prerelease(entry)->0.subrange(
            11,
            11 + entry.prerelease->0.len() as int,
        ) == entry.prerelease->0,
        attempts(entry) is Some <==> entry.health is Some && !entry.health->0.started
            && entry.health->0.attempts > 0,
        attempts(entry) is Some ==> attempts(entry)->0.take(
            decimal(entry.health->0.attempts as nat).len() as int,
        ) == decimal(entry.health->0.attempts as nat),
        attempts(entry) is Some && entry.health->0.last_failure is Some ==> attempts(entry)->0.skip(
            attempts(entry)->0.len() - uppercase(entry.health->0.last_failure->0).len(),
        ) == uppercase(entry.health->0.last_failure->0),
{
    reveal_strlit("PRERELEASE ");
    if entry.prerelease is Some {
        assert(prerelease(entry)->0.subrange(11, 11 + entry.prerelease->0.len() as int)
            =~= entry.prerelease->0);
    }
    if attempts(entry) is Some {
        let count = decimal(entry.health->0.attempts as nat);
        assert(attempts(entry)->0.take(count.len() as int) =~= count);
        if entry.health->0.last_failure is Some {
            let note = uppercase(entry.health->0.last_failure->0);
            assert(attempts(entry)->0.skip(attempts(entry)->0.len() - note.len()) =~= note);
        }
    }
}

/// The banner is the failure on screen, what happened before what to do, and
/// only without one that the catalog is out of reach.
pub proof fn law_the_banner_puts_failures_first(store: StoreView)
    ensures
        store.failure is Some ==> banner(store) == Some(
            (store.failure->0).0 + " \u{2014} "@ + (store.failure->0).1,
        ),
        store.failure is None ==> (banner(store) is Some <==> store.stale),
{
}

/// Without notes to show, the detail view says why: that they are on their way
/// where a version is offered, that nothing is offered, or that the release has
/// none.
pub proof fn law_missing_notes_are_explained(notes: Option<Seq<char>>, offered: bool)
    ensures
        missing_notes(notes, offered) is None <==> notes is Some && trimmed(notes->0).len() > 0,
        notes is Some && trimmed(notes->0).len() == 0 ==> missing_notes(notes, offered) == Some(
            "THIS RELEASE SHIPPED WITHOUT NOTES."@,
        ),
        notes is None && offered ==> missing_notes(notes, offered) == Some(
            "FETCHING NOTES\u{2026}"@,
        ),
        notes is None && !offered ==> missing_notes(notes, offered) == Some(
            "THE CATALOG DOES NOT OFFER THIS APP."@,
        ),
{
}

/// An entry is shown as it is: every field of it, and nothing else.
pub proof fn law_an_entry_is_shown_as_it_is(entry: AppEntry)
    ensures
        entry@.app == entry.app@,
        entry@.name == entry.name@,
        entry@.state == entry.state,
        entry@.installed is Some <==> entry.installed is Some,
        entry.installed is Some ==> entry@.installed == Some((entry.installed->0)@),
        entry@.available is Some <==> entry.available is Some,
        entry.available is Some ==> entry@.available == Some((entry.available->0)@),
        entry@.prerelease is Some <==> entry.available_prerelease is Some,
        entry.available_prerelease is Some ==> entry@.prerelease == Some(
            (entry.available_prerelease->0)@,
        ),
        entry@.on_disk.len() == entry.on_disk@.len(),
        forall|k: int|
            0 <= k < entry.on_disk@.len() ==> #[trigger] entry@.on_disk[k] == entry.on_disk@[k]@,
        entry@.can_roll_back == entry.can_roll_back,
        entry@.health is Some <==> entry.health is Some,
        entry.health is Some ==> {
            &&& (entry@.health->0).started == (entry.health->0).started
            &&& (entry@.health->0).attempts == (entry.health->0).attempts
            &&& (entry@.health->0).last_failure is Some <==> (entry.health->0).last_failure is Some
            &&& (entry.health->0).last_failure is Some ==> (entry@.health->0).last_failure == Some(
                ((entry.health->0).last_failure->0)@,
            )
        },
{
}

/// What happened is told in the words it was reported in; what the list of
/// offers and the policy refuse is told by the app it is about.
pub proof fn law_failures_are_told_as_reported(error: SourceError)
    ensures
        error matches SourceError::NotPermitted { app } ==> error.message_text() == "`"@ + app@
            + "` has not been granted package management"@,
        error matches SourceError::NotOffered { app, version } ==> error.message_text()
            == "the catalog no longer offers `"@ + app@ + "` "@ + version@,
        error matches SourceError::Catalog { fault, message } ==> error.message_text() == message@,
        error matches SourceError::Install { fault, message } ==> error.message_text() == message@,
        error matches SourceError::Store { message } ==> error.message_text() == message@,
{
}

/// What to do about a failure goes by what failed and not by what it said: the
/// same fault gets the same advice. An unreachable catalog is a matter of the
/// network, a signature is not to be trusted, and a failed write a matter of
/// room, whether an install or the store met it.
pub proof fn law_advice_goes_by_the_fault(error: SourceError, other: SourceError)
    ensures
        error is NotPermitted ==> error.advice_text()
            == "Grant this app `packages` in host policy and reinstall the platform."@,
        error is NotOffered ==> error.advice_text() == "Refresh the list and try again."@,
        error matches SourceError::Catalog { fault, message } ==> {
            &&& fault is Transport ==> error.advice_text()
                == "The catalog is not reachable. Check the home network; installed apps keep working."@
            &&& fault is Signature ==> error.advice_text()
                == "This was not signed by a key this tablet trusts. Do not install it."@
            &&& fault is Rollback || fault is StalledSerial ==> error.advice_text()
                == "The catalog is older than one already seen. Republish it before installing."@
            &&& fault is Other ==> error.advice_text() == "Re-publish the catalog and refresh."@
        },
        error matches SourceError::Install { fault, message } ==> {
            &&& fault is Running ==> error.advice_text()
                == "Close the app first, then install the update."@
            &&& fault is Digest || fault is Size ==> error.advice_text()
                == "The download did not match what was signed. Try again; nothing was changed."@
            &&& fault is Downgrade ==> error.advice_text()
                == "That version is older than the one installed. Use roll back instead."@
            &&& fault is NoFallback ==> error.advice_text()
                == "There is no previous release to roll back to."@
            &&& fault is Other ==> error.advice_text()
                == "Nothing was changed. The previous release is still in use."@
        },
        error is Store ==> error.advice_text()
            == "There may be no room left. Free some space and try again."@,
        other matches SourceError::Install { fault, message } ==> fault is Io && error is Store
            ==> error.advice_text() == other.advice_text(),
{
}

/// A word is put on the line being filled where it fits there, and begins the
/// next where it does not; the first word of a line stays there however wide it
/// is. Nothing is laid out after eight full lines, and until then the line being
/// filled never runs empty.
pub proof fn law_lines_break_where_a_word_does_not_fit(
    wrapped: WrappedView,
    word: Seq<char>,
    too_wide: bool,
)
    ensures
        ({
            let next = laid_out(wrapped, word, too_wide);
            &&& wrapped.lines.len() >= 8 ==> next == wrapped
            &&& wrapped.lines.len() < 8 && wrapped.line.len() == 0 ==> next.lines == wrapped.lines
                && next.line == word
            &&& wrapped.lines.len() < 8 && wrapped.line.len() > 0 && !too_wide ==> {
                &&& next.lines == wrapped.lines
                &&& next.line.len() == wrapped.line.len() + 1 + word.len()
                &&& next.line.take(wrapped.line.len() as int) == wrapped.line
                &&& next.line[wrapped.line.len() as int] == ' '
                &&& next.line.skip(wrapped.line.len() as int + 1) == word
            }
            &&& wrapped.lines.len() < 8 && wrapped.line.len() > 0 && too_wide ==> {
                &&& next.lines.len() == wrapped.lines.len() + 1
                &&& next.lines.drop_last() == wrapped.lines
                &&& next.lines.last() == wrapped.line
                &&& next.line == word
            }
        }),
{
    reveal_strlit(" ");
    let next = laid_out(wrapped, word, too_wide);
    if wrapped.lines.len() < 8 && wrapped.line.len() > 0 {
        if too_wide {
            assert(next.lines.drop_last() =~= wrapped.lines);
        } else {
            let line = wrapped.line + " "@ + word;
            assert(next.line == line);
            assert(line.take(wrapped.line.len() as int) =~= wrapped.line);
            assert(line.skip(wrapped.line.len() as int + 1) =~= word);
        }
    }
}

/// The lines shown are the full ones and the one being filled; after eight full
/// lines a mark stands in its place, and only then.
pub proof fn law_a_mark_stands_for_what_is_cut(wrapped: WrappedView)
    ensures
        ({
            let shown = shown_lines(wrapped);
            &&& shown.take(wrapped.lines.len() as int) == wrapped.lines
            &&& wrapped.lines.len() >= 8 ==> shown.len() == wrapped.lines.len() + 1 && shown.last()
                == "\u{2026}"@
            &&& wrapped.lines.len() < 8 && wrapped.line.len() > 0 ==> shown.len()
                == wrapped.lines.len() + 1 && shown.last() == wrapped.line
            &&& wrapped.lines.len() < 8 && wrapped.line.len() == 0 ==> shown == wrapped.lines
        }),
{
    assert(shown_lines(wrapped).take(wrapped.lines.len() as int) =~= wrapped.lines);
}

/// Each step of an install shows as its own word.
pub proof fn law_steps_are_named(step: Step)
    ensures
        step is Downloading ==> step_word(step) == "DOWNLOADING"@,
        step is Verifying ==> step_word(step) == "VERIFYING"@,
        step is Extracting ==> step_word(step) == "EXTRACTING"@,
        step is Committing ==> step_word(step) == "COMMITTING"@,
        step is Activating ==> step_word(step) == "ACTIVATING"@,
{
}

/// A rollback is offered for an app exactly where the first entry of that app
/// has a release to go back to.
pub proof fn law_rollback_is_offered_where_there_is_a_release(entries: Seq<EntryView>, k: int)
    requires
        0 <= k < entries.len(),
        forall|j: int| 0 <= j < k ==> (#[trigger] entries[j]).app != entries[k].app,
    ensures
        may_roll_back(entries, entries[k].app) <==> entries[k].can_roll_back,
{
    law_an_app_is_found_where_it_is_listed(entries, entries[k].app);
}

/// A failed request is shown as what happened and what to do about it.
pub proof fn law_a_failed_request_is_shown(
    store: StoreView,
    outcome: Outcome,
    about: Option<String>,
    error: SourceError,
)
    requires
        says_failed(outcome, about, error),
    ensures
        applied(store, outcome).failure == Some((error.message_text(), error.advice_text())),
        about is None ==> applied(store, outcome).working == store.working,
        about is Some && store.working is Some && (store.working->0).0 == about->0@ ==> applied(
            store,
            outcome,
        ).working is None,
{
}

/// Only a fresh snapshot replaces the one behind the rows.
pub proof fn law_only_a_refresh_replaces_the_snapshot(inventory: Inventory, outcome: Outcome)
    ensures
        outcome matches Outcome::Refreshed(fresh) ==> snapshot_after(inventory, outcome) == *fresh,
        !(outcome is Refreshed) ==> snapshot_after(inventory, outcome) == inventory,
{
}

/// The screen is its fields: the view on show, the rows of its snapshot, and the
/// notes, the operation and the failure it holds.
pub proof fn law_the_screen_is_what_it_holds(screen: AppStoreScreen, k: int)
    ensures
        ({
            let store = screen.state();
            &&& store.showing is Some <==> screen.view is Detail
            &&& screen.view is Detail ==> store.showing == Some(screen.view->Detail_0@)
            &&& store.entries.len() == screen.inventory.entries@.len()
            &&& 0 <= k < store.entries.len() ==> store.entries[k] == screen.inventory.entries@[k]@
            &&& store.stale == screen.inventory.stale
            &&& store.notes is Some <==> screen.notes is Some
            &&& screen.notes is Some ==> store.notes == Some(
                ((screen.notes->0).0@, (screen.notes->0).1@),
            )
            &&& store.working is Some <==> screen.working is Some
            &&& screen.working is Some ==> store.working == Some(
                (
                    (screen.working->0).app@,
                    (screen.working->0).step@,
                    (screen.working->0).percent,
                ),
            )
            &&& store.failure is Some <==> screen.failure is Some
            &&& screen.failure is Some ==> store.failure == Some(
                ((screen.failure->0).message@, (screen.failure->0).advice@),
            )
        }),
{
}

} // verus!
