//! The lines the App Store draws, and which buttons it offers.

use vstd::prelude::*;
use vstd::string::*;

use crate::app_store::inventory::{entry_of, lists, AppEntry, AppState, EntryView};
use crate::app_store::screen::{
    may_roll_back, primary_request, primary_word, shown_notes, AppStoreScreen, StoreView,
};
use crate::text::{
    decimal, optional, push_decimal, push_text, same_text, trim, trimmed, upper, uppercase,
};

verus! {

/// The line that compares what is installed with what is offered.
pub open spec fn versions(entry: EntryView) -> Seq<char> {
    let installed = match entry.installed {
        Some(version) => "V"@ + version,
        None => "NOT INSTALLED"@,
    };
    match entry.available {
        Some(version) => installed + " \u{00B7} OFFERED V"@ + version,
        None => installed,
    }
}

/// The line that compares what is installed with what is offered.
pub fn versions_line(entry: &AppEntry) -> (line: String)
    ensures
        line@ == versions(entry@),
{
    let mut line = match &entry.installed {
        Some(version) => {
            let mut line = "V".to_owned();
            push_text(&mut line, version.as_str());
            line
        },
        None => "NOT INSTALLED".to_owned(),
    };
    if let Some(version) = &entry.available {
        push_text(&mut line, " \u{00B7} OFFERED V");
        push_text(&mut line, version.as_str());
    }
    line
}

/// The banner for the one thing that is true of the whole screen: the failure,
/// or else that the catalog is out of reach.
pub open spec fn banner(store: StoreView) -> Option<Seq<char>> {
    match store.failure {
        Some((message, advice)) => Some(message + " \u{2014} "@ + advice),
        None => if store.stale {
            Some("THE CATALOG IS NOT REACHABLE. INSTALLED APPS STILL WORK."@)
        } else {
            None
        },
    }
}

/// The banner above the list, if there is one.
pub fn banner_text(screen: &AppStoreScreen) -> (text: Option<String>)
    ensures
        optional(text) == banner(screen.state()),
{
    match &screen.failure {
        Some(failure) => {
            let mut text = failure.message.clone();
            push_text(&mut text, " \u{2014} ");
            push_text(&mut text, failure.advice.as_str());
            Some(text)
        },
        None => {
            if screen.is_stale() {
                Some("THE CATALOG IS NOT REACHABLE. INSTALLED APPS STILL WORK.".to_owned())
            } else {
                None
            }
        },
    }
}

/// The line about a prerelease that is offered.
pub open spec fn prerelease(entry: EntryView) -> Option<Seq<char>> {
    match entry.prerelease {
        Some(version) => Some(
            "PRERELEASE "@ + version + " \u{00B7} NOT INSTALLED AUTOMATICALLY"@,
        ),
        None => None,
    }
}

/// The line about a prerelease that is offered.
pub fn prerelease_line(entry: &AppEntry) -> (line: Option<String>)
    ensures
        optional(line) == prerelease(entry@),
{
    match &entry.available_prerelease {
        Some(version) => {
            let mut line = "PRERELEASE ".to_owned();
            push_text(&mut line, version.as_str());
            push_text(&mut line, " \u{00B7} NOT INSTALLED AUTOMATICALLY");
            Some(line)
        },
        None => None,
    }
}

/// The line about a release that was tried and has not started.
pub open spec fn attempts(entry: EntryView) -> Option<Seq<char>> {
    match entry.health {
        Some(health) => if health.started || health.attempts == 0 {
            None
        } else {
            Some(
                decimal(health.attempts as nat) + " ATTEMPT(S) WITHOUT A START"@ + (
                match health.last_failure {
                    Some(note) => ": "@ + uppercase(note),
                    None => Seq::empty(),
                }),
            )
        },
        None => None,
    }
}

/// The line about a release that was tried and has not started.
pub fn health_line(entry: &AppEntry) -> (line: Option<String>)
    ensures
        optional(line) == attempts(entry@),
{
    match &entry.health {
        Some(health) => {
            if health.started || health.attempts == 0 {
                return None;
            }
            let mut line = String::new();
            push_decimal(&mut line, health.attempts as u64);
            push_text(&mut line, " ATTEMPT(S) WITHOUT A START");
            if let Some(note) = &health.last_failure {
                push_text(&mut line, ": ");
                push_text(&mut line, upper(note.as_str()).as_str());
            }
            assert(line@ =~= attempts(entry@)->0);
            Some(line)
        },
        None => None,
    }
}

/// Whether the operation in flight is about `app`.
pub open spec fn busy_with(store: StoreView, app: Seq<char>) -> bool {
    store.working is Some && (store.working->0).0 == app
}

/// The word on the primary button of an app, if one is drawn: an app with no
/// action has no button, and the app in flight shows its progress where its
/// button would be.
pub open spec fn drawn_button(store: StoreView, app: Seq<char>) -> Option<Seq<char>> {
    if busy_with(store, app) || primary_request(store.entries, app) is None {
        None
    } else {
        primary_word(store.entries, app)
    }
}

/// Whether the operation in flight is about `app`.
pub fn is_busy(screen: &AppStoreScreen, app: &str) -> (busy: bool)
    ensures
        busy == busy_with(screen.state(), app@),
{
    match &screen.working {
        Some(working) => same_text(working.app.as_str(), app),
        None => false,
    }
}

/// The word on the primary button of an app, if one is drawn.
pub fn button_label(screen: &AppStoreScreen, app: &str) -> (label: Option<&'static str>)
    ensures
        drawn_button(screen.state(), app@) == (match label {
            Some(label) => Some(label@),
            None => None,
        }),
{
    if is_busy(screen, app) || screen.primary_action(app).is_none() {
        None
    } else {
        screen.primary_label(app)
    }
}

/// What stands under the release notes' heading in place of notes: nothing
/// where there are some to show, and otherwise why there are none.
pub open spec fn missing_notes(notes: Option<Seq<char>>, offered: bool) -> Option<Seq<char>> {
    match notes {
        Some(text) => if trimmed(text).len() > 0 {
            None
        } else {
            Some("THIS RELEASE SHIPPED WITHOUT NOTES."@)
        },
        None => if offered {
            Some("FETCHING NOTES\u{2026}"@)
        } else {
            Some("THE CATALOG DOES NOT OFFER THIS APP."@)
        },
    }
}

/// What stands under the release notes' heading in place of notes.
pub fn notes_placeholder(screen: &AppStoreScreen, entry: &AppEntry) -> (line: Option<&'static str>)
    ensures
        missing_notes(shown_notes(screen.state()), entry@.available is Some) == (match line {
            Some(line) => Some(line@),
            None => None,
        }),
{
    match screen.notes() {
        Some(text) => {
            if trim(text).unicode_len() > 0 {
                None
            } else {
                Some("THIS RELEASE SHIPPED WITHOUT NOTES.")
            }
        },
        None => {
            if entry.available.is_some() {
                Some("FETCHING NOTES\u{2026}")
            } else {
                Some("THE CATALOG DOES NOT OFFER THIS APP.")
            }
        },
    }
}

/// What stands at the end of a row.
#[derive(Debug, PartialEq, Eq)]
pub enum RowEnd {
    /// The step of the operation in flight, and for a download its percentage.
    Progress {
        /// The step, in words.
        step: String,
        /// The percentage.
        percent: Option<u8>,
    },
    /// The primary button.
    Button {
        /// The word on it.
        label: &'static str,
        /// Whether it is drawn filled.
        filled: bool,
    },
    /// Nothing.
    Blank,
}

/// What stands at the end of a row, as it reads.
pub enum RowEndView {
    /// The step of the operation in flight, and for a download its percentage.
    Progress {
        /// The step, in words.
        step: Seq<char>,
        /// The percentage.
        percent: Option<u8>,
    },
    /// The primary button.
    Button {
        /// The word on it.
        label: Seq<char>,
        /// Whether it is drawn filled.
        filled: bool,
    },
    /// Nothing.
    Blank,
}

impl RowEnd {
    /// What it reads.
    pub open spec fn view(&self) -> RowEndView {
        match self {
            RowEnd::Progress { step, percent } => RowEndView::Progress {
                step: step@,
                percent: *percent,
            },
            RowEnd::Button { label, filled } => RowEndView::Button {
                label: label@,
                filled: *filled,
            },
            RowEnd::Blank => RowEndView::Blank,
        }
    }
}

/// One row of the list.
#[derive(Debug, PartialEq, Eq)]
pub struct Row {
    /// The app's name.
    pub name: String,
    /// The line that compares what is installed with what is offered.
    pub versions: String,
    /// Whether the app's state is written in full ink: it needs attention.
    pub pressing: bool,
    /// What stands at the end.
    pub end: RowEnd,
}

/// One row of the list, as it reads.
pub struct RowView {
    /// The app's name.
    pub name: Seq<char>,
    /// The line that compares what is installed with what is offered.
    pub versions: Seq<char>,
    /// Whether the app's state is written in full ink.
    pub pressing: bool,
    /// What stands at the end.
    pub end: RowEndView,
}

impl Row {
    /// What it reads.
    pub open spec fn view(&self) -> RowView {
        RowView {
            name: self.name@,
            versions: self.versions@,
            pressing: self.pressing,
            end: self.end@,
        }
    }
}

/// How the row of an entry reads. The row in flight shows its step where its
/// button would be.
pub open spec fn row_of(store: StoreView, entry: EntryView) -> RowView {
    RowView {
        name: uppercase(entry.name),
        versions: versions(entry),
        pressing: entry.state is Failing || entry.state is NothingSelected,
        end: if busy_with(store, entry.app) {
            RowEndView::Progress { step: (store.working->0).1, percent: (store.working->0).2 }
        } else {
            match drawn_button(store, entry.app) {
                Some(label) => RowEndView::Button { label, filled: entry.state is Failing },
                None => RowEndView::Blank,
            }
        },
    }
}

/// How the row of an entry reads.
pub fn row(screen: &AppStoreScreen, entry: &AppEntry) -> (row: Row)
    ensures
        row@ == row_of(screen.state(), entry@),
{
    let failing = matches!(entry.state, AppState::Failing);
    let nothing_selected = matches!(entry.state, AppState::NothingSelected);
    let mut end = match button_label(screen, entry.app.as_str()) {
        Some(label) => RowEnd::Button { label, filled: failing },
        None => RowEnd::Blank,
    };
    if let Some(working) = &screen.working {
        if is_busy(screen, entry.app.as_str()) {
            end = RowEnd::Progress { step: working.step.clone(), percent: working.percent };
        }
    }
    Row {
        name: upper(entry.name.as_str()),
        versions: versions_line(entry),
        pressing: failing || nothing_selected,
        end,
    }
}

/// The rows of the list, in display order.
pub fn rows(screen: &AppStoreScreen) -> (rows: Vec<Row>)
    ensures
        rows@.len() == screen.state().entries.len(),
        forall|k: int|
            0 <= k < rows@.len() ==> (#[trigger] rows@[k])@ == row_of(
                screen.state(),
                screen.state().entries[k],
            ),
{
    let mut rows: Vec<Row> = Vec::new();
    for index in 0..screen.inventory.entries.len()
        invariant
            rows@.len() == index,
            forall|k: int|
                0 <= k < index ==> (#[trigger] rows@[k])@ == row_of(
                    screen.state(),
                    screen.state().entries[k],
                ),
    {
        let entry = &screen.inventory.entries[index];
        assert(screen.state().entries[index as int] == entry@);
        rows.push(row(screen, entry));
    }
    rows
}

/// What stands in the list's place where it has no rows.
pub fn list_placeholder(screen: &AppStoreScreen) -> (line: Option<&'static str>)
    ensures
        line is Some <==> screen.state().entries.len() == 0,
        line is Some ==> line->0@ == "NOTHING INSTALLED, AND THE CATALOG OFFERS NOTHING."@,
{
    if screen.inventory.entries.len() == 0 {
        Some("NOTHING INSTALLED, AND THE CATALOG OFFERS NOTHING.")
    } else {
        None
    }
}

/// One line of the detail view, by what it is about.
#[derive(Debug, PartialEq, Eq)]
pub enum DetailLine {
    /// The app's name.
    Name(String),
    /// The app's identifier.
    Id(String),
    /// What is installed, and what is offered.
    Versions(String),
    /// A prerelease that is offered.
    Prerelease(String),
    /// That the selected release has not started.
    Health(String),
}

/// One line of the detail view, as it reads.
pub enum DetailLineView {
    /// The app's name.
    Name(Seq<char>),
    /// The app's identifier.
    Id(Seq<char>),
    /// What is installed, and what is offered.
    Versions(Seq<char>),
    /// A prerelease that is offered.
    Prerelease(Seq<char>),
    /// That the selected release has not started.
    Health(Seq<char>),
}

impl DetailLine {
    /// What it reads.
    pub open spec fn view(&self) -> DetailLineView {
        match self {
            DetailLine::Name(text) => DetailLineView::Name(text@),
            DetailLine::Id(text) => DetailLineView::Id(text@),
            DetailLine::Versions(text) => DetailLineView::Versions(text@),
            DetailLine::Prerelease(text) => DetailLineView::Prerelease(text@),
            DetailLine::Health(text) => DetailLineView::Health(text@),
        }
    }
}

/// What lines read.
pub open spec fn line_views(lines: Seq<DetailLine>) -> Seq<DetailLineView> {
    lines.map_values(|line: DetailLine| line@)
}

/// The lines of the detail view, from the top: the name, the identifier and the
/// versions, and what there is to say of a prerelease and of failed starts.
pub open spec fn detail_text(entry: EntryView) -> Seq<DetailLineView> {
    let head = seq![
        DetailLineView::Name(uppercase(entry.name)),
        DetailLineView::Id(entry.app),
        DetailLineView::Versions(versions(entry)),
    ];
    let offered = match prerelease(entry) {
        Some(line) => head.push(DetailLineView::Prerelease(line)),
        None => head,
    };
    match attempts(entry) {
        Some(line) => offered.push(DetailLineView::Health(line)),
        None => offered,
    }
}

/// The lines of the detail view, from the top.
pub fn detail_lines(entry: &AppEntry) -> (lines: Vec<DetailLine>)
    ensures
        line_views(lines@) == detail_text(entry@),
{
    let mut lines: Vec<DetailLine> = Vec::new();
    lines.push(DetailLine::Name(upper(entry.name.as_str())));
    lines.push(DetailLine::Id(entry.app.clone()));
    lines.push(DetailLine::Versions(versions_line(entry)));
    let ghost head = seq![
        DetailLineView::Name(uppercase(entry@.name)),
        DetailLineView::Id(entry@.app),
        DetailLineView::Versions(versions(entry@)),
    ];
    assert(line_views(lines@) =~= head);
    if let Some(line) = prerelease_line(entry) {
        let ghost before = line_views(lines@);
        lines.push(DetailLine::Prerelease(line));
        assert(line_views(lines@) =~= before.push(DetailLineView::Prerelease(line@)));
    }
    if let Some(line) = health_line(entry) {
        let ghost before = line_views(lines@);
        lines.push(DetailLine::Health(line));
        assert(line_views(lines@) =~= before.push(DetailLineView::Health(line@)));
    }
    lines
}

/// What stands at the foot of the detail view.
#[derive(Debug, PartialEq, Eq)]
pub enum Foot {
    /// The step of the operation in flight, in place of every button.
    Progress {
        /// The step, in words.
        step: String,
        /// The percentage.
        percent: Option<u8>,
    },
    /// The buttons.
    Buttons {
        /// The word on the primary button, if there is one.
        primary: Option<&'static str>,
        /// Whether there is a roll-back button.
        rollback: bool,
    },
}

/// What stands at the foot of the detail view, as it reads.
pub enum FootView {
    /// The step of the operation in flight, in place of every button.
    Progress {
        /// The step, in words.
        step: Seq<char>,
        /// The percentage.
        percent: Option<u8>,
    },
    /// The buttons.
    Buttons {
        /// The word on the primary button, if there is one.
        primary: Option<Seq<char>>,
        /// Whether there is a roll-back button.
        rollback: bool,
    },
}

impl Foot {
    /// What it reads.
    pub open spec fn view(&self) -> FootView {
        match self {
            Foot::Progress { step, percent } => FootView::Progress {
                step: step@,
                percent: *percent,
            },
            Foot::Buttons { primary, rollback } => FootView::Buttons {
                primary: match primary {
                    Some(label) => Some(label@),
                    None => None,
                },
                rollback: *rollback,
            },
        }
    }
}

/// The detail view, from the top to its foot.
#[derive(Debug, PartialEq, Eq)]
pub struct DetailPage {
    /// The lines about the app.
    pub lines: Vec<DetailLine>,
    /// The release notes, or why there are none.
    pub notes: Result<String, &'static str>,
    /// The failure on screen: what happened, and what to do about it.
    pub failure: Option<(String, String)>,
    /// What stands at the foot.
    pub foot: Foot,
}

/// The detail view, as it reads.
pub struct DetailPageView {
    /// The lines about the app.
    pub lines: Seq<DetailLineView>,
    /// The release notes, or why there are none.
    pub notes: Result<Seq<char>, Seq<char>>,
    /// The failure on screen: what happened, and what to do about it.
    pub failure: Option<(Seq<char>, Seq<char>)>,
    /// What stands at the foot.
    pub foot: FootView,
}

impl DetailPage {
    /// What it reads.
    pub open spec fn view(&self) -> DetailPageView {
        DetailPageView {
            lines: line_views(self.lines@),
            notes: match self.notes {
                Ok(text) => Ok(text@),
                Err(line) => Err(line@),
            },
            failure: match self.failure {
                Some((message, advice)) => Some((message@, advice@)),
                None => None,
            },
            foot: self.foot@,
        }
    }
}

/// How the detail view of an entry reads.
pub open spec fn detail_of(store: StoreView, entry: EntryView) -> DetailPageView {
    DetailPageView {
        lines: detail_text(entry),
        notes: match missing_notes(shown_notes(store), entry.available is Some) {
            Some(line) => Err(line),
            None => Ok(shown_notes(store)->0),
        },
        failure: match store.failure {
            Some((message, advice)) => Some((uppercase(message), uppercase(advice))),
            None => None,
        },
        foot: if busy_with(store, entry.app) {
            FootView::Progress { step: (store.working->0).1, percent: (store.working->0).2 }
        } else {
            FootView::Buttons {
                primary: drawn_button(store, entry.app),
                rollback: may_roll_back(store.entries, entry.app),
            }
        },
    }
}

/// How the detail view reads, or what stands in its place where the app it is
/// about is not listed.
pub fn detail_page(screen: &AppStoreScreen) -> (page: Result<DetailPage, &'static str>)
    ensures
        page is Ok <==> screen.state().showing is Some && lists(
            screen.state().entries,
            screen.state().showing->0,
        ),
        page is Ok ==> page->Ok_0@ == detail_of(
            screen.state(),
            entry_of(screen.state().entries, screen.state().showing->0),
        ),
        page is Err ==> page->Err_0@ == "THAT APP IS NO LONGER HERE."@,
{
    let entry = match screen.detail() {
        Some(entry) => entry,
        None => {
            return Err("THAT APP IS NO LONGER HERE.");
        },
    };
    let notes: Result<String, &'static str> = match notes_placeholder(screen, entry) {
        Some(line) => Err(line),
        None => match screen.notes() {
            Some(text) => Ok(text.to_owned()),
            None => Err(""),
        },
    };
    let failure = match &screen.failure {
        Some(failure) => Some((upper(failure.message.as_str()), upper(failure.advice.as_str()))),
        None => None,
    };
    let mut foot = Foot::Buttons {
        primary: button_label(screen, entry.app.as_str()),
        rollback: screen.can_roll_back(entry.app.as_str()),
    };
    if let Some(working) = &screen.working {
        if is_busy(screen, entry.app.as_str()) {
            foot = Foot::Progress { step: working.step.clone(), percent: working.percent };
        }
    }
    Ok(DetailPage { lines: detail_lines(entry), notes, failure, foot })
}

/// A button is drawn exactly where it has something to ask for, for every app
/// that is not in flight.
pub proof fn law_button_word_and_request_agree(store: StoreView, app: Seq<char>)
    ensures
        drawn_button(store, app) is Some <==> !busy_with(store, app) && primary_request(
            store.entries,
            app,
        ) is Some,
        drawn_button(store, app) is Some ==> drawn_button(store, app) == primary_word(
            store.entries,
            app,
        ),
{
}

/// The detail view of an app never offers a change to it while one is in
/// flight, and says how far that one has got.
pub proof fn law_busy_app_offers_no_change(store: StoreView, entry: EntryView)
    requires
        busy_with(store, entry.app),
    ensures
        detail_of(store, entry).foot is Progress,
        row_of(store, entry).end is Progress,
{
}

} // verus!
