//! The lines of each Settings page.

use vstd::prelude::*;
use vstd::string::*;

use crate::settings::bytes::{bytes_text, format_bytes};
use crate::settings::host::{
    app_views, grant_views, held, AppView, CatalogStatus, DiagnosticEntry, GrantSummary, GrantView,
    InstalledAppSummary, PlatformInfo, StorageUsage,
};
use crate::text::{push_text, upper, uppercase};

verus! {

/// A label and its value.
#[derive(Debug, PartialEq, Eq)]
pub struct Fact {
    /// The label.
    pub label: String,
    /// The value.
    pub value: String,
}

impl Fact {
    /// The label and the value.
    pub open spec fn view(&self) -> (Seq<char>, Seq<char>) {
        (self.label@, self.value@)
    }

    /// Builds a fact.
    pub fn new(label: &str, value: String) -> (fact: Self)
        ensures
            fact@ == (label@, value@),
    {
        Self { label: label.to_owned(), value }
    }
}

/// What facts say.
pub open spec fn fact_lines(facts: Seq<Fact>) -> Seq<(Seq<char>, Seq<char>)> {
    facts.map_values(|fact: Fact| fact@)
}

/// The line under an app's name.
pub open spec fn app_line(app: AppView) -> Seq<char> {
    match app.previous {
        Some(previous) => "ACTIVE V"@ + app.active + " \u{00B7} PREVIOUS V"@ + previous,
        None => "ACTIVE V"@ + app.active + " \u{00B7} NO PREVIOUS RELEASE"@,
    }
}

/// The line under an app's name.
pub fn app_detail(app: &InstalledAppSummary) -> (line: String)
    ensures
        line@ == app_line(app@),
{
    let mut line = "ACTIVE V".to_owned();
    push_text(&mut line, app.active_version.as_str());
    match &app.previous_version {
        Some(previous) => {
            push_text(&mut line, " \u{00B7} PREVIOUS V");
            push_text(&mut line, previous.as_str());
        },
        None => {
            push_text(&mut line, " \u{00B7} NO PREVIOUS RELEASE");
        },
    }
    line
}

/// The name an app's row shows.
pub fn app_title(app: &InstalledAppSummary) -> (title: String)
    ensures
        title@ == uppercase(app@.name),
{
    upper(app.name.as_str())
}

/// The title of a grant's row.
pub fn grant_title(grant: &GrantSummary) -> (title: String)
    ensures
        title@ == uppercase(grant@.name) + " \u{00B7} "@ + uppercase(grant@.capability),
{
    let mut title = upper(grant.app_name.as_str());
    push_text(&mut title, " \u{00B7} ");
    push_text(&mut title, upper(grant.capability.name.as_str()).as_str());
    title
}

/// The line under a grant's title.
pub fn grant_detail(grant: &GrantSummary) -> (line: &'static str)
    ensures
        line@ == (if grant.in_use {
            "IN USE NOW"@
        } else {
            "GRANTED, NOT CURRENTLY IN USE"@
        }),
{
    if grant.in_use {
        "IN USE NOW"
    } else {
        "GRANTED, NOT CURRENTLY IN USE"
    }
}

/// The line under the storage meter, of what is used and what is free.
pub open spec fn usage_text(used: int, free: int) -> Seq<char> {
    bytes_text(used) + " USED OF "@ + bytes_text(used + free)
}

/// The line under the storage meter.
pub fn usage_line(storage: &StorageUsage) -> (line: String)
    requires
        held(storage.buckets@, storage.buckets@.len() as int) + storage.free_bytes <= u64::MAX,
    ensures
        line@ == bytes_text(held(storage.buckets@, storage.buckets@.len() as int)) + " USED OF "@
            + bytes_text(
            held(storage.buckets@, storage.buckets@.len() as int) + storage.free_bytes,
        ),
        line@ == usage_text(
            held(storage.buckets@, storage.buckets@.len() as int) as int,
            storage.free_bytes as int,
        ),
{
    let used: u64 = storage.used_bytes();
    let total: u64 = used + storage.free_bytes;
    let mut line = format_bytes(used);
    push_text(&mut line, " USED OF ");
    push_text(&mut line, format_bytes(total).as_str());
    line
}

/// The storage page's facts: each bucket, then what is free.
pub fn storage_facts(storage: &StorageUsage) -> (facts: Vec<Fact>)
    ensures
        facts@.len() == storage.buckets@.len() + 1,
        forall|k: int|
            0 <= k < storage.buckets@.len() ==> (#[trigger] facts@[k])@ == (
                storage.buckets@[k].label@,
                bytes_text(storage.buckets@[k].bytes as int),
            ),
        facts@.last()@ == ("FREE"@, bytes_text(storage.free_bytes as int)),
{
    let mut facts: Vec<Fact> = Vec::new();
    for index in 0..storage.buckets.len()
        invariant
            facts@.len() == index,
            forall|k: int|
                0 <= k < index ==> (#[trigger] facts@[k])@ == (
                    storage.buckets@[k].label@,
                    bytes_text(storage.buckets@[k].bytes as int),
                ),
    {
        let bucket = &storage.buckets[index];
        facts.push(Fact::new(bucket.label.as_str(), format_bytes(bucket.bytes)));
    }
    facts.push(Fact::new("FREE", format_bytes(storage.free_bytes)));
    facts
}

/// The catalog page's facts.
pub fn catalog_facts(catalog: &CatalogStatus) -> (facts: Vec<Fact>)
    ensures
        fact_lines(facts@) == seq![
            ("ENDPOINT"@, catalog@.0),
            (
                "LAST SUCCESSFUL FETCH"@,
                match catalog@.1 {
                    Some(when) => when,
                    None => "NEVER"@,
                },
            ),
            (
                "REACHABLE NOW"@,
                if catalog@.2 {
                    "YES"@
                } else {
                    "NO"@
                },
            ),
        ],
{
    let mut facts: Vec<Fact> = Vec::new();
    facts.push(Fact::new("ENDPOINT", catalog.endpoint.clone()));
    let fetched = match &catalog.last_fetch {
        Some(when) => when.clone(),
        None => "NEVER".to_owned(),
    };
    facts.push(Fact::new("LAST SUCCESSFUL FETCH", fetched));
    let reachable = if catalog.reachable {
        "YES".to_owned()
    } else {
        "NO".to_owned()
    };
    facts.push(Fact::new("REACHABLE NOW", reachable));
    proof {
        let said = seq![
            ("ENDPOINT"@, catalog@.0),
            (
                "LAST SUCCESSFUL FETCH"@,
                match catalog@.1 {
                    Some(when) => when,
                    None => "NEVER"@,
                },
            ),
            (
                "REACHABLE NOW"@,
                if catalog@.2 {
                    "YES"@
                } else {
                    "NO"@
                },
            ),
        ];
        assert(fact_lines(facts@) =~= said);
    }
    facts
}

/// The platform page's facts.
pub fn platform_facts(platform: &PlatformInfo) -> (facts: Vec<Fact>)
    ensures
        fact_lines(facts@) == seq![
            ("PAPERCLIP VERSION"@, "V"@ + platform@.0),
            ("FIRMWARE"@, platform@.1),
            ("ACTIVE PLATFORM RELEASE"@, platform@.2),
        ],
{
    let mut version = "V".to_owned();
    push_text(&mut version, platform.paperclip_version.as_str());
    let mut facts: Vec<Fact> = Vec::new();
    facts.push(Fact::new("PAPERCLIP VERSION", version));
    facts.push(Fact::new("FIRMWARE", platform.firmware.clone()));
    facts.push(Fact::new("ACTIVE PLATFORM RELEASE", platform.active_release.clone()));
    assert(fact_lines(facts@) =~= seq![
        ("PAPERCLIP VERSION"@, "V"@ + platform@.0),
        ("FIRMWARE"@, platform@.1),
        ("ACTIVE PLATFORM RELEASE"@, platform@.2),
    ]);
    facts
}

/// One row of a page that lists something.
#[derive(Debug, PartialEq, Eq)]
pub struct Row {
    /// What the row is about.
    pub title: String,
    /// The line under it.
    pub detail: String,
    /// The words on its buttons, from the right.
    pub buttons: Vec<&'static str>,
}

/// One row, as it reads.
pub struct RowView {
    /// What the row is about.
    pub title: Seq<char>,
    /// The line under it.
    pub detail: Seq<char>,
    /// The words on its buttons, from the right.
    pub buttons: Seq<Seq<char>>,
}

impl Row {
    /// What the row reads.
    pub open spec fn view(&self) -> RowView {
        RowView {
            title: self.title@,
            detail: self.detail@,
            buttons: self.buttons@.map_values(|label: &'static str| label@),
        }
    }
}

/// How an app's row reads. Every app can be uninstalled; only one with a
/// previous release can be rolled back.
pub open spec fn app_row_of(app: AppView) -> RowView {
    RowView {
        title: uppercase(app.name),
        detail: app_line(app),
        buttons: match app.previous {
            Some(_) => seq!["UNINSTALL"@, "ROLLBACK"@],
            None => seq!["UNINSTALL"@],
        },
    }
}

/// How an app's row reads.
pub fn app_row(app: &InstalledAppSummary) -> (row: Row)
    ensures
        row@ == app_row_of(app@),
{
    let mut buttons: Vec<&'static str> = Vec::new();
    buttons.push("UNINSTALL");
    if app.has_previous_release() {
        buttons.push("ROLLBACK");
    }
    let row = Row { title: app_title(app), detail: app_detail(app), buttons };
    assert(row@.buttons =~= app_row_of(app@).buttons);
    row
}

/// How a grant's row reads.
pub open spec fn grant_row_of(grant: GrantView) -> RowView {
    RowView {
        title: uppercase(grant.name) + " \u{00B7} "@ + uppercase(grant.capability),
        detail: if grant.in_use {
            "IN USE NOW"@
        } else {
            "GRANTED, NOT CURRENTLY IN USE"@
        },
        buttons: seq!["REVOKE"@],
    }
}

/// How a grant's row reads.
pub fn grant_row(grant: &GrantSummary) -> (row: Row)
    ensures
        row@ == grant_row_of(grant@),
{
    let mut buttons: Vec<&'static str> = Vec::new();
    buttons.push("REVOKE");
    let row = Row { title: grant_title(grant), detail: grant_detail(grant).to_owned(), buttons };
    assert(row@.buttons =~= grant_row_of(grant@).buttons);
    row
}

/// What rows read.
pub open spec fn row_views(rows: Seq<Row>) -> Seq<RowView> {
    rows.map_values(|row: Row| row@)
}

/// The apps page: a row for each app, or a line that says there is none.
pub fn apps_page(apps: &Vec<InstalledAppSummary>) -> (page: Result<Vec<Row>, &'static str>)
    ensures
        page is Ok <==> apps@.len() > 0,
        page is Ok ==> row_views(page->Ok_0@) == app_views(apps@).map_values(
            |app: AppView| app_row_of(app),
        ),
        page is Err ==> page->Err_0@ == "NOTHING INSTALLED FROM THE CATALOG YET."@,
{
    if apps.len() == 0 {
        return Err("NOTHING INSTALLED FROM THE CATALOG YET.");
    }
    let mut rows: Vec<Row> = Vec::new();
    for index in 0..apps.len()
        invariant
            rows@.len() == index,
            forall|k: int| 0 <= k < index ==> (#[trigger] rows@[k])@ == app_row_of(apps@[k]@),
    {
        rows.push(app_row(&apps[index]));
    }
    assert(row_views(rows@) =~= app_views(apps@).map_values(|app: AppView| app_row_of(app)));
    Ok(rows)
}

/// The grants page: a row for each grant, or a line that says there is none.
pub fn grants_page(grants: &Vec<GrantSummary>) -> (page: Result<Vec<Row>, &'static str>)
    ensures
        page is Ok <==> grants@.len() > 0,
        page is Ok ==> row_views(page->Ok_0@) == grant_views(grants@).map_values(
            |grant: GrantView| grant_row_of(grant),
        ),
        page is Err ==> page->Err_0@ == "NO CAPABILITIES ARE GRANTED."@,
{
    if grants.len() == 0 {
        return Err("NO CAPABILITIES ARE GRANTED.");
    }
    let mut rows: Vec<Row> = Vec::new();
    for index in 0..grants.len()
        invariant
            rows@.len() == index,
            forall|k: int| 0 <= k < index ==> (#[trigger] rows@[k])@ == grant_row_of(grants@[k]@),
    {
        rows.push(grant_row(&grants[index]));
    }
    assert(row_views(rows@) =~= grant_views(grants@).map_values(
        |grant: GrantView| grant_row_of(grant),
    ));
    Ok(rows)
}

/// The line the diagnostics page ends with: where the whole log is, or where
/// there are no entries that there are none.
pub fn diagnostics_ending(entries: &Vec<DiagnosticEntry>) -> (line: &'static str)
    ensures
        line@ == (if entries@.len() == 0 {
            "NO ERRORS RECORDED."@
        } else {
            "FULL LOGS: /HOME/ROOT/PAPERCLIP/LOGS"@
        }),
{
    if entries.len() == 0 {
        "NO ERRORS RECORDED."
    } else {
        "FULL LOGS: /HOME/ROOT/PAPERCLIP/LOGS"
    }
}

/// A row offers a rollback exactly where there is a release to go back to.
pub proof fn law_rollback_is_offered_where_possible(app: AppView)
    ensures
        app_row_of(app).buttons.contains("ROLLBACK"@) <==> app.previous is Some,
{
    reveal_strlit("UNINSTALL");
    reveal_strlit("ROLLBACK");
    assert("UNINSTALL"@.len() != "ROLLBACK"@.len());
    if app.previous is Some {
        assert(app_row_of(app).buttons[1] == "ROLLBACK"@);
    }
}

} // verus!
