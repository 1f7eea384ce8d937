//! What Settings promises, row by row and press by press.
//!
//! Each law speaks of the apps and grants on screen, of where a press landed,
//! and of what the host is then asked.

use vstd::prelude::*;
use vstd::string::*;

use crate::action::Action;
use crate::settings::app::{changed_between, outcome_of, Painted, Region};
use crate::settings::bytes::{bytes_text, double_of, lift, nearest, tenths, LIFT_LIMIT};
use crate::settings::host::{
    app_place, apps_without, failing_lines, fixture_app, fixture_buckets, fixture_grants,
    grants_without, held, installed_of, log_lines, revoked, rolled_back, stored_buckets,
    uninstalled, AppView, GrantView, HostOpError, InstalledAppSummary, LaunchRecord, StorageBucket,
    StoreEntry, StoredApp,
};
use crate::settings::nav::SettingsPage;
use crate::settings::pages::{app_line, app_row_of, grant_row_of, usage_text};
use crate::settings::screen::{
    filed, pressed, AdminValue, KindView, PageHits, PendingKind, SettingsHits, SettingsScreen,
    SettingsView,
};
use crate::text::{decimal, digit_char, uppercase};

verus! {

/// A tap on one thing of the page, with no dialog open and nothing else hit.
pub open spec fn on_page(page: PageHits) -> SettingsHits {
    SettingsHits {
        tap: true,
        dialog: false,
        cancel: false,
        confirm: false,
        return_to_stock: false,
        tab: None,
        page,
    }
}

/// A tap on the button of the open dialog that goes through with it.
pub open spec fn on_confirm() -> SettingsHits {
    SettingsHits { dialog: true, confirm: true, ..on_page(PageHits::ReadOnly) }
}

/// Uninstalling is about the row it was asked in: the dialog names the app of
/// that very row and what data it holds, and confirming it asks the host to
/// uninstall that app's own id. Two rows with different ids never ask for the
/// same. A press past the last row does nothing.
pub proof fn law_uninstall_is_of_the_row(screen: SettingsScreen, index: usize)
    requires
        screen.pending is None,
    ensures
        ({
            let asked = pressed(
                screen.state(),
                on_page(PageHits::Apps { uninstall: Some(index), rollback: None }),
            );
            let done = pressed(asked.screen, on_confirm());
            let app = screen.apps@[index as int];
            &&& index < screen.apps@.len() ==> {
                &&& asked.action == Action::Redraw
                &&& asked.admin is None
                &&& asked.screen.pending is Some
                &&& asked.screen.pending->0.dialog.title == "UNINSTALL "@ + uppercase(app.name@)
                &&& asked.screen.pending->0.dialog.confirm_label == "UNINSTALL"@
                &&& app.data_bytes > 0 ==> asked.screen.pending->0.dialog.lines == seq![
                    bytes_text(app.data_bytes as int) + " OF DATA WILL BE DELETED."@,
                    "THIS CANNOT BE UNDONE."@,
                ]
                &&& app.data_bytes == 0 ==> asked.screen.pending->0.dialog.lines == seq![
                    "NO DATA WILL BE LOST."@,
                ]
                &&& done.admin == Some(KindView::Uninstall(app.id@))
                &&& done.screen == screen.state()
            }
            &&& index >= screen.apps@.len() ==> asked.screen == screen.state() && asked.action
                == Action::Nothing && asked.admin is None
        }),
{
    if index < screen.apps@.len() {
        assert(screen.state().apps[index as int] == screen.apps@[index as int]@);
    }
}

/// Rolling back is about the row it was asked in: where the app of that very row
/// has a previous release, the dialog names the app and that release, and
/// confirming it asks the host to roll that app's own id back. Without a
/// previous release nothing opens.
pub proof fn law_rollback_is_of_the_row(screen: SettingsScreen, index: usize)
    requires
        screen.pending is None,
    ensures
        ({
            let asked = pressed(
                screen.state(),
                on_page(PageHits::Apps { uninstall: None, rollback: Some(index) }),
            );
            let done = pressed(asked.screen, on_confirm());
            let app = screen.apps@[index as int];
            &&& index < screen.apps@.len() && app.previous_version is Some ==> {
                &&& asked.action == Action::Redraw
                &&& asked.admin is None
                &&& asked.screen.pending is Some
                &&& asked.screen.pending->0.dialog.title == "ROLL BACK "@ + uppercase(app.name@)
                &&& asked.screen.pending->0.dialog.lines == seq![
                    "RETURNS TO V"@ + app.previous_version->0@ + "."@,
                ]
                &&& done.admin == Some(KindView::Rollback(app.id@))
                &&& done.screen == screen.state()
            }
            &&& index >= screen.apps@.len() || app.previous_version is None ==> asked.screen
                == screen.state() && asked.action == Action::Nothing && asked.admin is None
        }),
{
    if index < screen.apps@.len() {
        assert(screen.state().apps[index as int] == screen.apps@[index as int]@);
    }
}

/// Revoking is about the row it was asked in: the dialog names the app of that
/// very grant, warns where the grant is in use and names the capability where it
/// is not, and confirming it asks the host to take that capability from that
/// app's own id.
pub proof fn law_revoke_is_of_the_row(screen: SettingsScreen, index: usize)
    requires
        screen.pending is None,
    ensures
        ({
            let asked = pressed(
                screen.state(),
                on_page(PageHits::Grants { revoke: Some(index) }),
            );
            let done = pressed(asked.screen, on_confirm());
            let grant = screen.grants@[index as int];
            &&& index < screen.grants@.len() ==> {
                &&& asked.action == Action::Redraw
                &&& asked.admin is None
                &&& asked.screen.pending is Some
                &&& grant.in_use ==> asked.screen.pending->0.dialog.lines == seq![
                    uppercase(grant.app_name@) + " IS USING THIS RIGHT NOW."@,
                    "REVOKING MAY INTERRUPT IT."@,
                ]
                &&& !grant.in_use ==> asked.screen.pending->0.dialog.lines == seq![
                    uppercase(grant.app_name@) + " WILL LOSE "@ + uppercase(grant.capability.name@)
                        + " ACCESS."@,
                ]
                &&& done.admin == Some(KindView::Revoke(grant.app_id@, grant.capability.name@))
                &&& done.screen == screen.state()
            }
            &&& index >= screen.grants@.len() ==> asked.screen == screen.state() && asked.action
                == Action::Nothing && asked.admin is None
        }),
{
    if index < screen.grants@.len() {
        assert(screen.state().grants[index as int] == screen.grants@[index as int]@);
    }
}

/// What a write is about is told by its sort, its app and its capability: a
/// write that reads as an uninstall is one, of the app it names, and so on.
pub proof fn law_a_write_is_what_it_reads_as(kind: PendingKind, app: Seq<char>, name: Seq<char>)
    ensures
        kind@ == KindView::Uninstall(app) ==> (kind matches PendingKind::Uninstall(id) && id@ == app),
        kind@ == KindView::Rollback(app) ==> (kind matches PendingKind::Rollback(id) && id@ == app),
        kind@ == KindView::Revoke(app, name) ==> (kind matches PendingKind::Revoke(id, capability)
            && id@ == app && capability.name@ == name),
{
}

/// Without a dialog on the glass, a tap on a tab turns to that very page and
/// does nothing else; a tap on the return action hands the panel back and
/// changes nothing; and a tap on a page without buttons does nothing.
pub proof fn law_tabs_turn_the_page(screen: SettingsScreen, hits: SettingsHits)
    requires
        screen.pending is None,
        hits.tap,
        !hits.dialog,
    ensures
        ({
            let step = pressed(screen.state(), hits);
            &&& step.admin is None
            &&& hits.return_to_stock ==> step.action == Action::ReturnToStock && step.screen
                == screen.state()
            &&& !hits.return_to_stock && hits.tab is Some && hits.tab->0 != screen.page ==> {
                &&& step.screen.page == hits.tab->0
                &&& step.screen.pending is None
                &&& step.action == Action::Redraw
            }
            &&& hits.tab is None || hits.tab->0 == screen.page ==> step.screen.page == screen.page
            &&& !hits.return_to_stock && (hits.tab is None || hits.tab->0 == screen.page)
                && hits.page is ReadOnly ==> step.screen == screen.state() && step.action
                == Action::Nothing
        }),
{
}

/// A tap on cancel closes the dialog without asking anything; one beside the
/// dialog's buttons leaves it open; and a pointer that is not lifted changes
/// nothing.
pub proof fn law_dialogs_close_by_their_buttons(screen: SettingsScreen, hits: SettingsHits)
    ensures
        ({
            let step = pressed(screen.state(), hits);
            &&& !hits.tap ==> step.screen == screen.state() && step.action == Action::Nothing
                && step.admin is None
            &&& hits.tap && hits.dialog && hits.cancel ==> step.screen.pending is None
                && step.screen.page == screen.page && step.action == Action::Redraw
                && step.admin is None
            &&& hits.tap && hits.dialog && !hits.cancel && !hits.confirm ==> step.screen
                == screen.state() && step.action == Action::Nothing && step.admin is None
        }),
{
}

/// An answer of the host fills the one field it is about and leaves the others,
/// the page and an open dialog alone; how a write went is shown nowhere.
pub proof fn law_answers_fill_their_own_field(screen: SettingsScreen, value: AdminValue)
    ensures
        ({
            let next = filed(screen, value);
            &&& next.page == screen.page
            &&& next.pending == screen.pending
            &&& next.apps == (match value {
                AdminValue::InstalledApps(apps) => apps,
                _ => screen.apps,
            })
            &&& next.storage == (match value {
                AdminValue::StorageUsage(storage) => storage,
                _ => screen.storage,
            })
            &&& next.grants == (match value {
                AdminValue::Grants(grants) => grants,
                _ => screen.grants,
            })
            &&& next.catalog == (match value {
                AdminValue::CatalogStatus(catalog) => catalog,
                _ => screen.catalog,
            })
            &&& next.platform == (match value {
                AdminValue::PlatformInfo(platform) => platform,
                _ => screen.platform,
            })
            &&& next.diagnostics == (match value {
                AdminValue::Diagnostics(entries) => entries,
                _ => screen.diagnostics,
            })
        }),
        outcome_of(value) is Some <==> value is Rollback || value is Uninstall
            || value is RevokeGrant,
{
}

/// What a frame claims: everything where it is the first, or where a dialog is
/// open on it or was on the one before; nothing where it shows the page that was
/// shown; and otherwise the tab that was lit, the tab that is, and what is below
/// them, where both were drawn.
pub proof fn law_frames_claim_what_moved(previous: Option<Painted>, now: Painted, tabs: int)
    ensures
        ({
            let claim = changed_between(previous, now, tabs);
            let first = previous is None;
            let dialog = now.confirming || (previous is Some && previous->0.confirming);
            let same = previous is Some && previous->0.page == now.page;
            let drawn = previous is Some && previous->0.page.place() < tabs && now.page.place()
                < tabs;
            &&& claim is None <==> first || dialog || (!same && !drawn)
            &&& !first && !dialog && same ==> claim is Some && claim->0.len() == 0
            &&& !first && !dialog && !same && drawn ==> {
                &&& claim->0.len() == 3
                &&& claim->0[0] == Region::Tab(previous->0.page)
                &&& claim->0[1] == Region::Tab(now.page)
                &&& claim->0[2] == Region::BelowTabs
            }
        }),
{
}

/// The tabs stand in the order apps, storage, grants, catalog, platform and
/// diagnostics.
pub proof fn law_tabs_stand_in_order()
    ensures
        SettingsPage::Apps.place() == 0,
        SettingsPage::Storage.place() == 1,
        SettingsPage::Grants.place() == 2,
        SettingsPage::Catalog.place() == 3,
        SettingsPage::Platform.place() == 4,
        SettingsPage::Diagnostics.place() == 5,
{
}

/// Uninstalling takes away exactly the apps of that id, and the rest stay in
/// their order; so with their grants, all of them, or those of one capability.
pub proof fn law_removal_takes_only_what_is_named(
    apps: Seq<AppView>,
    grants: Seq<GrantView>,
    id: Seq<char>,
    name: Seq<char>,
)
    ensures
        apps_without(apps, id, apps.len() as int) == apps.filter(|app: AppView| app.id != id),
        grants_without(grants, id, None, grants.len() as int) == grants.filter(
            |grant: GrantView| grant.app != id,
        ),
        grants_without(grants, id, Some(name), grants.len() as int) == grants.filter(
            |grant: GrantView| !(grant.app == id && grant.capability == name),
        ),
{
    lemma_apps_without(apps, id, apps.len() as int);
    lemma_grants_without(grants, id, name, grants.len() as int);
    assert(apps.take(apps.len() as int) =~= apps);
    assert(grants.take(grants.len() as int) =~= grants);
}

proof fn lemma_apps_without(apps: Seq<AppView>, id: Seq<char>, n: int)
    requires
        0 <= n <= apps.len(),
    ensures
        apps_without(apps, id, n) == apps.take(n).filter(|app: AppView| app.id != id),
    decreases n,
{
    reveal(Seq::filter);
    if n > 0 {
        lemma_apps_without(apps, id, n - 1);
        assert(apps.take(n).drop_last() =~= apps.take(n - 1));
    }
}

proof fn lemma_grants_without(grants: Seq<GrantView>, id: Seq<char>, name: Seq<char>, n: int)
    requires
        0 <= n <= grants.len(),
    ensures
        grants_without(grants, id, None, n) == grants.take(n).filter(
            |grant: GrantView| grant.app != id,
        ),
        grants_without(grants, id, Some(name), n) == grants.take(n).filter(
            |grant: GrantView| !(grant.app == id && grant.capability == name),
        ),
    decreases n,
{
    reveal(Seq::filter);
    if n > 0 {
        lemma_grants_without(grants, id, name, n - 1);
        assert(grants.take(n).drop_last() =~= grants.take(n - 1));
    }
}

/// An app is looked up by its id, and the first of that id is found.
pub proof fn law_apps_are_found_by_id(apps: Seq<AppView>, id: Seq<char>)
    ensures
        ({
            let place = app_place(apps, id, 0);
            &&& 0 <= place <= apps.len()
            &&& place < apps.len() ==> apps[place].id == id
            &&& forall|k: int| 0 <= k < place ==> (#[trigger] apps[k]).id != id
        }),
{
    lemma_app_place(apps, id, 0);
}

proof fn lemma_app_place(apps: Seq<AppView>, id: Seq<char>, from: int)
    requires
        0 <= from <= apps.len(),
    ensures
        from <= app_place(apps, id, from) <= apps.len(),
        app_place(apps, id, from) < apps.len() ==> apps[app_place(apps, id, from)].id == id,
        forall|k: int| from <= k < app_place(apps, id, from) ==> (#[trigger] apps[k]).id != id,
    decreases apps.len() - from,
{
    if from < apps.len() && apps[from].id != id {
        lemma_app_place(apps, id, from + 1);
    }
}

/// What is used is the sum of the buckets: one bucket more adds what it holds,
/// and no bucket holds nothing.
pub proof fn law_used_is_the_sum_of_the_buckets(
    buckets: Seq<StorageBucket>,
    bucket: StorageBucket,
)
    ensures
        held(Seq::empty(), 0) == 0,
        held(buckets.push(bucket), buckets.len() as int + 1) == held(buckets, buckets.len() as int)
            + bucket.bytes,
{
    lemma_held_of_longer(buckets, bucket, buckets.len() as int);
}

proof fn lemma_held_of_longer(buckets: Seq<StorageBucket>, bucket: StorageBucket, n: int)
    requires
        0 <= n <= buckets.len(),
    ensures
        held(buckets.push(bucket), n) == held(buckets, n),
    decreases n,
{
    if n > 0 {
        lemma_held_of_longer(buckets, bucket, n - 1);
    }
}

/// The apps of a store are its entries with a version selected, in their order,
/// each with its own id, name, versions and bytes.
pub proof fn law_the_store_lists_what_is_installed(entries: Seq<StoreEntry>, entry: StoreEntry)
    ensures
        installed_of(Seq::empty(), 0).len() == 0,
        ({
            let before = installed_of(entries, entries.len() as int);
            let now = installed_of(entries.push(entry), entries.len() as int + 1);
            &&& entry.installed is None ==> now == before
            &&& entry.installed is Some ==> {
                &&& now.len() == before.len() + 1
                &&& now.drop_last() == before
                &&& now.last().id == entry.id@
                &&& now.last().name == entry.name@
                &&& now.last().active == entry.installed->0@
                &&& now.last().previous is Some <==> entry.fallback is Some
                &&& entry.fallback is Some ==> now.last().previous->0 == entry.fallback->0@
                &&& now.last().data_bytes == entry.data_bytes
            }
        }),
{
    lemma_installed_of_longer(entries, entry, entries.len() as int);
    let before = installed_of(entries, entries.len() as int);
    let now = installed_of(entries.push(entry), entries.len() as int + 1);
    if entry.installed is Some {
        assert(now.drop_last() =~= before);
    }
}

proof fn lemma_installed_of_longer(entries: Seq<StoreEntry>, entry: StoreEntry, n: int)
    requires
        0 <= n <= entries.len(),
    ensures
        installed_of(entries.push(entry), n) == installed_of(entries, n),
    decreases n,
{
    if n > 0 {
        lemma_installed_of_longer(entries, entry, n - 1);
    }
}

/// The log has a line for every release that was tried and never started, in
/// order, each with its own version, count and note, and for no other; one line
/// says so where there is none; and the last line is always the note on what is
/// not kept.
pub proof fn law_the_log_lists_what_failed(records: Seq<LaunchRecord>, record: LaunchRecord)
    ensures
        ({
            let before = failing_lines(records, records.len() as int);
            let now = failing_lines(records.push(record), records.len() as int + 1);
            let failing = !record.started && record.attempts > 0;
            &&& !failing ==> now == before
            &&& failing ==> now.len() == before.len() + 1 && now.drop_last() == before
                && now.last().0 == "UNKNOWN"@ && now.last().1 == uppercase(record.leaf@) + " V"@ + record.version@
                + " HAS NOT STARTED AFTER "@ + decimal(record.attempts as nat) + " ATTEMPT(S)"@ + (
            match record.last_failure {
                Some(note) => ": "@ + uppercase(note@),
                None => Seq::empty(),
            })
        }),
        failing_lines(Seq::empty(), 0).len() == 0,
        log_lines(records).len() == (if failing_lines(records, records.len() as int).len() == 0 {
            2
        } else {
            failing_lines(records, records.len() as int).len() + 1
        }),
        log_lines(records).last() == (
            "NOTE"@,
            "GRANTS AND CATALOG HAVE NO PERSISTED HOST STATE YET"@,
        ),
        failing_lines(records, records.len() as int).len() == 0 ==> log_lines(records)[0] == (
            "UNKNOWN"@,
            "NO FAILED LAUNCHES RECORDED"@,
        ),
        failing_lines(records, records.len() as int).len() > 0 ==> log_lines(records).drop_last()
            == failing_lines(records, records.len() as int),
{
    lemma_failing_of_longer(records, record, records.len() as int);
    let before = failing_lines(records, records.len() as int);
    let now = failing_lines(records.push(record), records.len() as int + 1);
    if !record.started && record.attempts > 0 {
        assert(now.drop_last() =~= before);
    }
    if before.len() > 0 {
        assert(log_lines(records).drop_last() =~= before);
    }
}

proof fn lemma_failing_of_longer(records: Seq<LaunchRecord>, record: LaunchRecord, n: int)
    requires
        0 <= n <= records.len(),
    ensures
        failing_lines(records.push(record), n) == failing_lines(records, n),
    decreases n,
{
    if n > 0 {
        lemma_failing_of_longer(records, record, n - 1);
    }
}

/// A row of the apps page names its own app and its own two versions; a row of
/// the grants page its own app and capability, and whether the grant is in use.
pub proof fn law_rows_name_what_they_are_about(app: InstalledAppSummary, grant: GrantView)
    ensures
        app_row_of(app@).title == uppercase(app.name@),
        app_row_of(app@).detail == app_line(app@),
        app_row_of(app@).buttons[0] == "UNINSTALL"@,
        app.previous_version is Some ==> app_line(app@) == "ACTIVE V"@ + app.active_version@
            + " \u{00B7} PREVIOUS V"@ + app.previous_version->0@,
        app.previous_version is None ==> app_line(app@) == "ACTIVE V"@ + app.active_version@
            + " \u{00B7} NO PREVIOUS RELEASE"@,
        grant_row_of(grant).title == uppercase(grant.name) + " \u{00B7} "@ + uppercase(
            grant.capability,
        ),
        grant.in_use <==> grant_row_of(grant).detail == "IN USE NOW"@,
{
    reveal_strlit("IN USE NOW");
    reveal_strlit("GRANTED, NOT CURRENTLY IN USE");
    assert("IN USE NOW"@.len() != "GRANTED, NOT CURRENTLY IN USE"@.len());
}

proof fn lemma_nearest_is_near(num: int, den: int)
    requires
        den > 0,
    ensures
        -den <= 2 * (nearest(num, den) * den - num) <= den,
{
    let (whole, rest) = (num / den, num % den);
    assert(num == whole * den + rest && 0 <= rest < den) by (nonlinear_arith)
        requires
            den > 0,
            whole == num / den,
            rest == num % den,
    ;
    assert((whole + 1) * den == whole * den + den) by (nonlinear_arith);
}

proof fn lemma_lift_reaches(x: int, limit: int)
    requires
        x > 0,
    ensures
        x * lift(x, limit) >= limit,
        lift(x, limit) >= 1,
    decreases (if x < limit { limit - x } else { 0 }),
{
    if x < limit {
        lemma_lift_reaches(2 * x, limit);
        let rest = lift(2 * x, limit);
        assert(x * (2 * rest) == (2 * x) * rest) by (nonlinear_arith);
    }
}

/// A byte count is shown to the nearest tenth of a megabyte: what is shown is
/// never further from the count than half a tenth. It reads as the whole
/// megabytes, a point, one digit and the unit. Counts past fifty-three bits are
/// rounded to that many before they are shown.
pub proof fn law_bytes_are_read_to_the_nearest_tenth(bytes: int)
    requires
        0 <= bytes < 0x20_0000_0000_0000,
    ensures
        -50_000 <= tenths(bytes) * 100_000 - bytes <= 50_000,
        bytes_text(bytes) == decimal((tenths(bytes) / 10) as nat) + "."@ + seq![
            digit_char((tenths(bytes) % 10) as nat),
        ] + " MB"@,
{
    assert(decimal((tenths(bytes) % 10) as nat) =~= seq![digit_char((tenths(bytes) % 10) as nat)]);
    if bytes > 0 {
        let limit = LIFT_LIMIT as int;
        assert(double_of(bytes) == bytes);
        let up = lift(bytes, limit);
        lemma_lift_reaches(bytes, limit);
        assert(up > 500_000) by (nonlinear_arith)
            requires
                bytes * up >= 4_503_599_627_370_496_000_000,
                0 < bytes < 0x20_0000_0000_0000,
        ;
        let quotient = nearest(bytes * up, 1_000_000);
        lemma_nearest_is_near(bytes * up, 1_000_000);
        lemma_nearest_is_near(10 * quotient, up);
        let shown = tenths(bytes);
        assert(shown == nearest(10 * quotient, up));
        let off = shown * 100_000 - bytes;
        assert(2 * (off * up) == 100_000 * (2 * (shown * up - 10 * quotient)) + 2 * (quotient
            * 1_000_000 - bytes * up)) by (nonlinear_arith)
            requires
                off == shown * 100_000 - bytes,
        ;
        assert(2 * (off * up) <= 100_000 * up + 1_000_000);
        assert(2 * (off * up) >= -(100_000 * up + 1_000_000));
        assert(off < 50_001 && off > -50_001) by (nonlinear_arith)
            requires
                2 * (off * up) <= 100_000 * up + 1_000_000,
                2 * (off * up) >= -(100_000 * up + 1_000_000),
                up > 500_000,
        ;
    }
}

/// What stands in before the host answers hangs together: both grants are of the
/// one app, one of them in use, and the app's own bucket holds what the app does.
pub proof fn law_what_stands_in_hangs_together()
    ensures
        fixture_grants().len() == 2,
        forall|k: int|
            0 <= k < 2 ==> (#[trigger] fixture_grants()[k]).app == fixture_app().id
                && fixture_grants()[k].name == fixture_app().name,
        fixture_grants()[0].in_use,
        !fixture_grants()[1].in_use,
        fixture_grants()[0].capability == "storage"@,
        fixture_grants()[1].capability == "sharing"@,
        fixture_app().previous is Some,
        fixture_buckets().len() == 4,
        fixture_buckets()[0] == ("DATA / CHESS"@, fixture_app().data_bytes),
        fixture_buckets()[1].0 == "SHARED"@,
        fixture_buckets()[2].0 == "STAGING"@,
        fixture_buckets()[3].0 == "RELEASES"@,
{
}

/// The store has a bucket for each of its apps, in their order, under the app's
/// own name and with what that app holds.
pub proof fn law_each_app_has_its_bucket(apps: Seq<StoredApp>, k: int)
    requires
        0 <= k < apps.len(),
    ensures
        stored_buckets(apps).len() == apps.len(),
        stored_buckets(apps)[k].0 == "DATA / "@ + uppercase(apps[k].leaf@),
        stored_buckets(apps)[k].1 == apps[k].data_bytes,
{
}

/// Rolling back puts the previous release of that app in force, with none before
/// it, and touches nothing else; so it cannot be done twice. It is refused, and
/// nothing changes, where the app is not installed or has no previous release.
pub proof fn law_rollback_goes_to_the_previous_release(
    apps: Seq<AppView>,
    grants: Seq<GrantView>,
    k: int,
    id: Seq<char>,
)
    requires
        0 <= k < apps.len(),
        forall|j: int| 0 <= j < k ==> (#[trigger] apps[j]).id != apps[k].id,
    ensures
        ({
            let (result, (next, kept)) = rolled_back((apps, grants), apps[k].id);
            &&& kept == grants
            &&& next.len() == apps.len()
            &&& forall|j: int| 0 <= j < apps.len() && j != k ==> #[trigger] next[j] == apps[j]
            &&& result is Ok <==> apps[k].previous is Some
            &&& apps[k].previous is Some ==> {
                &&& next[k].active == apps[k].previous->0
                &&& next[k].previous is None
                &&& next[k].id == apps[k].id
                &&& next[k].name == apps[k].name
                &&& next[k].data_bytes == apps[k].data_bytes
                &&& rolled_back((next, kept), apps[k].id) == (
                    Err::<(), HostOpError>(HostOpError::NoPreviousRelease),
                    (next, kept),
                )
            }
            &&& apps[k].previous is None ==> next == apps && result == Err::<(), HostOpError>(
                HostOpError::NoPreviousRelease,
            )
        }),
        (forall|j: int| 0 <= j < apps.len() ==> (#[trigger] apps[j]).id != id) ==> rolled_back(
            (apps, grants),
            id,
        ) == (Err::<(), HostOpError>(HostOpError::NotInstalled), (apps, grants)),
{
    law_apps_are_found_by_id(apps, apps[k].id);
    law_apps_are_found_by_id(apps, id);
    assert(app_place(apps, apps[k].id, 0) == k) by {
        lemma_found_no_later(apps, k, 0);
    }
    let next = rolled_back((apps, grants), apps[k].id).1.0;
    assert(next[k].id == apps[k].id);
    law_apps_are_found_by_id(next, apps[k].id);
    assert(app_place(next, next[k].id, 0) == k) by {
        lemma_found_no_later(next, k, 0);
    }
}

proof fn lemma_found_no_later(apps: Seq<AppView>, k: int, from: int)
    requires
        0 <= from <= k < apps.len(),
    ensures
        app_place(apps, apps[k].id, from) <= k,
    decreases k - from,
{
    if from < k && apps[from].id != apps[k].id {
        lemma_found_no_later(apps, k, from + 1);
    }
}

/// Uninstalling takes every app of that id and every grant of it, and leaves the
/// others as they are; it is refused, and nothing changes, exactly where no such
/// app is installed.
pub proof fn law_uninstalling_takes_the_app_and_its_grants(
    apps: Seq<AppView>,
    grants: Seq<GrantView>,
    id: Seq<char>,
)
    ensures
        ({
            let (result, (next, kept)) = uninstalled((apps, grants), id);
            let installed = exists|j: int| 0 <= j < apps.len() && (#[trigger] apps[j]).id == id;
            &&& result is Ok <==> installed
            &&& installed ==> next == apps.filter(|app: AppView| app.id != id) && kept
                == grants.filter(|grant: GrantView| grant.app != id)
            &&& !installed ==> result == Err::<(), HostOpError>(HostOpError::NotInstalled) && next
                == apps && kept == grants
        }),
{
    law_removal_takes_only_what_is_named(apps, grants, id, Seq::empty());
    lemma_apps_left(apps, id, apps.len() as int);
}

proof fn lemma_apps_left(apps: Seq<AppView>, id: Seq<char>, n: int)
    requires
        0 <= n <= apps.len(),
    ensures
        apps_without(apps, id, n).len() <= n,
        apps_without(apps, id, n).len() < n <==> exists|j: int|
            0 <= j < n && (#[trigger] apps[j]).id == id,
    decreases n,
{
    if n > 0 {
        lemma_apps_left(apps, id, n - 1);
        if exists|j: int| 0 <= j < n && (#[trigger] apps[j]).id == id {
            let j = choose|j: int| 0 <= j < n && (#[trigger] apps[j]).id == id;
            assert(j < n - 1 || apps[n - 1].id == id);
        }
    }
}

/// Revoking takes the grants of that app and capability and leaves the others
/// and every app; it is refused, and nothing changes, exactly where no such grant
/// is held.
pub proof fn law_revoking_takes_that_grant(
    apps: Seq<AppView>,
    grants: Seq<GrantView>,
    id: Seq<char>,
    name: Seq<char>,
)
    ensures
        ({
            let (result, (next, kept)) = revoked((apps, grants), id, name);
            let granted = exists|j: int|
                0 <= j < grants.len() && (#[trigger] grants[j]).app == id && grants[j].capability
                    == name;
            &&& next == apps
            &&& result is Ok <==> granted
            &&& granted ==> kept == grants.filter(
                |grant: GrantView| !(grant.app == id && grant.capability == name),
            )
            &&& !granted ==> result == Err::<(), HostOpError>(HostOpError::GrantNotHeld) && kept
                == grants
        }),
{
    law_removal_takes_only_what_is_named(apps, grants, id, name);
    lemma_grants_left(grants, id, name, grants.len() as int);
}

proof fn lemma_grants_left(grants: Seq<GrantView>, id: Seq<char>, name: Seq<char>, n: int)
    requires
        0 <= n <= grants.len(),
    ensures
        grants_without(grants, id, Some(name), n).len() <= n,
        grants_without(grants, id, Some(name), n).len() < n <==> exists|j: int|
            0 <= j < n && (#[trigger] grants[j]).app == id && grants[j].capability == name,
    decreases n,
{
    if n > 0 {
        lemma_grants_left(grants, id, name, n - 1);
        if exists|j: int|
            0 <= j < n && (#[trigger] grants[j]).app == id && grants[j].capability == name {
            let j = choose|j: int|
                0 <= j < n && (#[trigger] grants[j]).app == id && grants[j].capability == name;
            assert(j < n - 1 || (grants[n - 1].app == id && grants[n - 1].capability == name));
        }
    }
}

/// The meter sets what is used against what there is in all: the used and the
/// free together.
pub proof fn law_the_meter_is_of_what_there_is(used: int, free: int)
    ensures
        usage_text(used, free) == bytes_text(used) + " USED OF "@ + bytes_text(free + used),
        free == 0 ==> usage_text(used, free) == bytes_text(used) + " USED OF "@ + bytes_text(used),
{
}

/// Where a press lands on both buttons of the apps page, it is the uninstall that
/// is asked about.
pub proof fn law_uninstall_comes_before_rollback(
    screen: SettingsView,
    index: usize,
    other: Option<usize>,
)
    ensures
        pressed(
            screen,
            on_page(PageHits::Apps { uninstall: Some(index), rollback: other }),
        ) == pressed(screen, on_page(PageHits::Apps { uninstall: Some(index), rollback: None })),
{
}

/// The screen is its fields: the page, the apps and the grants in their order,
/// each with everything known of it, and the dialog that is open.
pub proof fn law_the_screen_is_what_it_was_told(screen: SettingsScreen, k: int)
    ensures
        screen.state().page == screen.page,
        screen.state().apps.len() == screen.apps@.len(),
        0 <= k < screen.apps@.len() ==> {
            let (app, shown) = (screen.apps@[k], screen.state().apps[k]);
            &&& shown.id == app.id@ && shown.name == app.name@
            &&& shown.active == app.active_version@
            &&& shown.previous is Some <==> app.previous_version is Some
            &&& app.previous_version is Some ==> shown.previous->0 == app.previous_version->0@
            &&& shown.data_bytes == app.data_bytes
        },
        screen.state().grants.len() == screen.grants@.len(),
        0 <= k < screen.grants@.len() ==> {
            let (grant, shown) = (screen.grants@[k], screen.state().grants[k]);
            &&& shown.app == grant.app_id@ && shown.name == grant.app_name@
            &&& shown.capability == grant.capability.name@
            &&& shown.in_use == grant.in_use
        },
        screen.state().pending is Some <==> screen.pending is Some,
{
}

} // verus!
