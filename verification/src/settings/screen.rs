//! What the Settings screen shows, and what a press on it does.
//!
//! The screen holds a snapshot of what the host last answered, plus which page
//! is showing and which destructive action, if any, waits on a confirmation.
//! It calls nobody itself: the host answers later.

use vstd::prelude::*;
use vstd::string::*;

use crate::action::Action;
use crate::settings::bytes::{bytes_text, format_bytes};
use crate::settings::confirm::{ConfirmDialog, DialogView};
use crate::settings::host::{
    app_views, bucket_views, entry_lines, fixture_app, fixture_buckets, fixture_grants, grant_views,
    placeholder_apps, placeholder_catalog, placeholder_diagnostics, placeholder_grants,
    placeholder_platform, placeholder_storage, AppView, Capability, CatalogStatus, DiagnosticEntry,
    GrantSummary, GrantView, HostOpError, InstalledAppSummary, PlatformInfo, StorageUsage,
};
use crate::settings::nav::SettingsPage;
use crate::text::{push_text, texts, upper, uppercase};

verus! {

/// What confirming the open dialog would ask the host to do.
#[derive(Debug, Clone, PartialEq, Eq)]
pub enum PendingKind {
    /// Select an app's previous release.
    Rollback(String),
    /// Remove an app and its data.
    Uninstall(String),
    /// Take a capability away from an app.
    Revoke(String, Capability),
}

/// What a pending action is about.
pub enum KindView {
    /// Select an app's previous release.
    Rollback(Seq<char>),
    /// Remove an app and its data.
    Uninstall(Seq<char>),
    /// Take a capability away from an app.
    Revoke(Seq<char>, Seq<char>),
}

/// What can be asked of the host.
#[derive(Debug, PartialEq, Eq)]
pub enum AdminQuery {
    /// The installed apps.
    InstalledApps,
    /// What storage holds.
    StorageUsage,
    /// The grants in force.
    Grants,
    /// The catalog's endpoint and reachability.
    CatalogStatus,
    /// Platform version facts.
    PlatformInfo,
    /// Recent platform errors.
    Diagnostics,
    /// Select an app's previous release.
    Rollback {
        /// Which app.
        app: String,
    },
    /// Remove an app and its data.
    Uninstall {
        /// Which app.
        app: String,
    },
    /// Take a capability away from an app.
    RevokeGrant {
        /// Which app.
        app: String,
        /// Which capability.
        capability: Capability,
    },
}

/// What the host answers.
#[derive(Debug, PartialEq, Eq)]
pub enum AdminValue {
    /// The installed apps.
    InstalledApps(Vec<InstalledAppSummary>),
    /// What storage holds.
    StorageUsage(StorageUsage),
    /// The grants in force.
    Grants(Vec<GrantSummary>),
    /// The catalog's endpoint and reachability.
    CatalogStatus(CatalogStatus),
    /// Platform version facts.
    PlatformInfo(PlatformInfo),
    /// Recent platform errors.
    Diagnostics(Vec<DiagnosticEntry>),
    /// How a rollback went.
    Rollback(Result<(), HostOpError>),
    /// How an uninstall went.
    Uninstall(Result<(), HostOpError>),
    /// How a revocation went.
    RevokeGrant(Result<(), HostOpError>),
    /// An answer this build knows nothing of.
    Unknown,
}

impl PendingKind {
    /// What the action is about.
    pub open spec fn view(&self) -> KindView {
        match self {
            PendingKind::Rollback(app) => KindView::Rollback(app@),
            PendingKind::Uninstall(app) => KindView::Uninstall(app@),
            PendingKind::Revoke(app, capability) => KindView::Revoke(app@, capability.name@),
        }
    }

    /// The query that carries this action to the host.
    pub fn into_query(self) -> (query: AdminQuery)
        ensures
            query == (match self {
                PendingKind::Rollback(app) => AdminQuery::Rollback { app },
                PendingKind::Uninstall(app) => AdminQuery::Uninstall { app },
                PendingKind::Revoke(app, capability) => AdminQuery::RevokeGrant {
                    app,
                    capability,
                },
            }),
    {
        match self {
            PendingKind::Rollback(app) => AdminQuery::Rollback { app },
            PendingKind::Uninstall(app) => AdminQuery::Uninstall { app },
            PendingKind::Revoke(app, capability) => AdminQuery::RevokeGrant { app, capability },
        }
    }
}

/// A destructive action waiting on its confirmation.
#[derive(Debug, Clone, PartialEq, Eq)]
pub struct PendingAction {
    /// What is asked.
    pub dialog: ConfirmDialog,
    /// What confirming it does.
    pub kind: PendingKind,
}

/// What a pending action says and does.
pub struct PendingView {
    /// What is asked.
    pub dialog: DialogView,
    /// What confirming it does.
    pub kind: KindView,
}

/// What an optional pending action says and does.
pub open spec fn pending_view(pending: Option<PendingAction>) -> Option<PendingView> {
    match pending {
        Some(pending) => Some(PendingView { dialog: pending.dialog@, kind: pending.kind@ }),
        None => None,
    }
}

/// What an optional write is about.
pub open spec fn kind_view(kind: Option<PendingKind>) -> Option<KindView> {
    match kind {
        Some(kind) => Some(kind@),
        None => None,
    }
}

/// What the Settings screen is showing.
#[derive(Debug, Clone, PartialEq, Eq)]
pub struct SettingsScreen {
    /// Which page is current.
    pub page: SettingsPage,
    /// The installed apps.
    pub apps: Vec<InstalledAppSummary>,
    /// What storage holds.
    pub storage: StorageUsage,
    /// The grants in force.
    pub grants: Vec<GrantSummary>,
    /// The catalog's endpoint and reachability.
    pub catalog: CatalogStatus,
    /// Platform version facts.
    pub platform: PlatformInfo,
    /// Recent platform errors.
    pub diagnostics: Vec<DiagnosticEntry>,
    /// The action that waits on a confirmation.
    pub pending: Option<PendingAction>,
}

/// What one press decided.
#[derive(Debug, Clone, PartialEq, Eq)]
pub struct Press {
    /// What the platform should do next.
    pub action: Action,
    /// A write to ask the host for, when this press confirmed a destructive
    /// action. The dialog has already closed by then.
    pub admin: Option<PendingKind>,
}

impl Press {
    /// A press that changed nothing.
    pub fn ignored() -> (press: Self)
        ensures
            press.action == Action::Nothing,
            press.admin is None,
    {
        Self { action: Action::Nothing, admin: None }
    }

    /// A press that changed what is on screen and nothing else.
    pub fn redraw() -> (press: Self)
        ensures
            press.action == Action::Redraw,
            press.admin is None,
    {
        Self { action: Action::Redraw, admin: None }
    }
}

/// What of the current page, as it was drawn, a pointer landed on.
#[derive(Debug, Clone, Copy)]
pub enum PageHits {
    /// The apps page: the rows whose buttons were hit.
    Apps {
        /// The row whose uninstall button was hit.
        uninstall: Option<usize>,
        /// The row whose rollback button was hit.
        rollback: Option<usize>,
    },
    /// The grants page.
    Grants {
        /// The row whose revoke button was hit.
        revoke: Option<usize>,
    },
    /// A read-only page.
    ReadOnly,
}

/// What of the screen, as it was drawn, a pointer landed on.
#[derive(Debug, Clone, Copy)]
pub struct SettingsHits {
    /// Whether the pointer was lifted, which is what makes it a tap.
    pub tap: bool,
    /// Whether a confirmation was drawn.
    pub dialog: bool,
    /// Whether the confirmation's cancel button was hit.
    pub cancel: bool,
    /// Whether the confirmation's other button was hit.
    pub confirm: bool,
    /// Whether the return action was drawn and hit.
    pub return_to_stock: bool,
    /// The page whose tab was hit.
    pub tab: Option<SettingsPage>,
    /// What of the page was hit.
    pub page: PageHits,
}

/// The dialog that asks for a rollback, if the app of that row has a release
/// to go back to.
pub open spec fn rollback_dialog(apps: Seq<AppView>, index: int) -> Option<PendingView> {
    if 0 <= index < apps.len() && apps[index].previous is Some {
        Some(
            PendingView {
                dialog: DialogView {
                    title: "ROLL BACK "@ + uppercase(apps[index].name),
                    lines: seq!["RETURNS TO V"@ + apps[index].previous->0 + "."@],
                    confirm_label: "ROLL BACK"@,
                },
                kind: KindView::Rollback(apps[index].id),
            },
        )
    } else {
        None
    }
}

/// The dialog that asks for an uninstall, stating what would be lost.
pub open spec fn uninstall_dialog(apps: Seq<AppView>, index: int) -> Option<PendingView> {
    if 0 <= index < apps.len() {
        Some(
            PendingView {
                dialog: DialogView {
                    title: "UNINSTALL "@ + uppercase(apps[index].name),
                    lines: if apps[index].data_bytes > 0 {
                        seq![
                            bytes_text(apps[index].data_bytes as int)
                                + " OF DATA WILL BE DELETED."@,
                            "THIS CANNOT BE UNDONE."@,
                        ]
                    } else {
                        seq!["NO DATA WILL BE LOST."@]
                    },
                    confirm_label: "UNINSTALL"@,
                },
                kind: KindView::Uninstall(apps[index].id),
            },
        )
    } else {
        None
    }
}

/// The dialog that asks for a revocation, warning when the app relies on the
/// grant right now.
pub open spec fn revoke_dialog(grants: Seq<GrantView>, index: int) -> Option<PendingView> {
    if 0 <= index < grants.len() {
        let grant = grants[index];
        Some(
            PendingView {
                dialog: DialogView {
                    title: "REVOKE GRANT"@,
                    lines: if grant.in_use {
                        seq![
                            uppercase(grant.name) + " IS USING THIS RIGHT NOW."@,
                            "REVOKING MAY INTERRUPT IT."@,
                        ]
                    } else {
                        seq![
                            uppercase(grant.name) + " WILL LOSE "@ + uppercase(grant.capability)
                                + " ACCESS."@,
                        ]
                    },
                    confirm_label: "REVOKE"@,
                },
                kind: KindView::Revoke(grant.app, grant.capability),
            },
        )
    } else {
        None
    }
}

/// What a press can change: the page and the pending action.
pub struct SettingsView {
    /// The current page.
    pub page: SettingsPage,
    /// The installed apps.
    pub apps: Seq<AppView>,
    /// The grants in force.
    pub grants: Seq<GrantView>,
    /// The action that waits on a confirmation.
    pub pending: Option<PendingView>,
}

/// The screen with a dialog open, where there is one to open.
pub open spec fn asking(screen: SettingsView, dialog: Option<PendingView>) -> SettingsView {
    if dialog is Some {
        SettingsView { pending: dialog, ..screen }
    } else {
        screen
    }
}

/// What a press on the current page does: nothing while a dialog is open.
pub open spec fn page_pressed(screen: SettingsView, hits: PageHits) -> SettingsView {
    if screen.pending is Some {
        screen
    } else {
        match hits {
            PageHits::Apps { uninstall, rollback } => if uninstall is Some {
                asking(screen, uninstall_dialog(screen.apps, uninstall->0 as int))
            } else if rollback is Some {
                asking(screen, rollback_dialog(screen.apps, rollback->0 as int))
            } else {
                screen
            },
            PageHits::Grants { revoke } => if revoke is Some {
                asking(screen, revoke_dialog(screen.grants, revoke->0 as int))
            } else {
                screen
            },
            PageHits::ReadOnly => screen,
        }
    }
}

/// What a press on a tab does: nothing while a dialog is open.
pub open spec fn tab_pressed(screen: SettingsView, tab: Option<SettingsPage>) -> SettingsView {
    if screen.pending is None && tab is Some {
        SettingsView { page: tab->0, ..screen }
    } else {
        screen
    }
}

/// What a pointer event leaves behind.
pub struct SettingsStep {
    /// What the screen shows.
    pub screen: SettingsView,
    /// What to ask the platform for.
    pub action: Action,
    /// What to ask the host for.
    pub admin: Option<KindView>,
}

/// What a pointer event does. While a confirmation is on the glass it absorbs
/// every press, including one that lands on the page underneath it.
pub open spec fn pressed(screen: SettingsView, hits: SettingsHits) -> SettingsStep {
    let closed = SettingsView { pending: None, ..screen };
    let turned = tab_pressed(screen, hits.tab);
    if !hits.tap {
        SettingsStep { screen, action: Action::Nothing, admin: None }
    } else if hits.dialog {
        if hits.cancel {
            SettingsStep { screen: closed, action: Action::Redraw, admin: None }
        } else if hits.confirm {
            SettingsStep {
                screen: closed,
                action: Action::Redraw,
                admin: match screen.pending {
                    Some(pending) => Some(pending.kind),
                    None => None,
                },
            }
        } else {
            SettingsStep { screen, action: Action::Nothing, admin: None }
        }
    } else if hits.return_to_stock {
        SettingsStep { screen, action: Action::ReturnToStock, admin: None }
    } else if turned.page != screen.page {
        SettingsStep { screen: turned, action: Action::Redraw, admin: None }
    } else {
        let next = page_pressed(turned, hits.page);
        SettingsStep {
            screen: next,
            action: if next.pending is Some {
                Action::Redraw
            } else {
                Action::Nothing
            },
            admin: None,
        }
    }
}

/// Everything but the page and the pending action is as it was.
pub open spec fn same_facts(screen: SettingsScreen, other: SettingsScreen) -> bool {
    &&& screen.apps == other.apps
    &&& screen.storage == other.storage
    &&& screen.grants == other.grants
    &&& screen.catalog == other.catalog
    &&& screen.platform == other.platform
    &&& screen.diagnostics == other.diagnostics
}

/// The screen with one answer filed under the field it belongs to. How a write
/// went is not shown: only what the host reports is.
pub open spec fn filed(screen: SettingsScreen, value: AdminValue) -> SettingsScreen {
    match value {
        AdminValue::InstalledApps(apps) => SettingsScreen { apps, ..screen },
        AdminValue::StorageUsage(storage) => SettingsScreen { storage, ..screen },
        AdminValue::Grants(grants) => SettingsScreen { grants, ..screen },
        AdminValue::CatalogStatus(catalog) => SettingsScreen { catalog, ..screen },
        AdminValue::PlatformInfo(platform) => SettingsScreen { platform, ..screen },
        AdminValue::Diagnostics(diagnostics) => SettingsScreen { diagnostics, ..screen },
        _ => screen,
    }
}

/// Whether a screen shows the apps page with nothing loaded yet but the version
/// of the software itself.
pub open spec fn is_loading(screen: SettingsScreen, version: Seq<char>) -> bool {
    &&& screen.page == SettingsPage::Apps
    &&& screen.apps@.len() == 0
    &&& screen.storage.free_bytes == 0
    &&& screen.storage.buckets@.len() == 0
    &&& screen.grants@.len() == 0
    &&& screen.catalog@ == ("\u{2026}"@, None::<Seq<char>>, false)
    &&& screen.platform@ == (version, "\u{2026}"@, "\u{2026}"@)
    &&& screen.diagnostics@.len() == 0
    &&& screen.pending is None
}

impl SettingsScreen {
    /// What a press can change, and what decides it.
    pub open spec fn state(&self) -> SettingsView {
        SettingsView {
            page: self.page,
            apps: app_views(self.apps@),
            grants: grant_views(self.grants@),
            pending: pending_view(self.pending),
        }
    }

    /// A screen with nothing loaded yet, showing the apps page, for software of
    /// this version.
    pub fn loading(version: &str) -> (screen: Self)
        ensures
            is_loading(screen, version@),
    {
        Self {
            page: SettingsPage::Apps,
            apps: Vec::new(),
            storage: StorageUsage { free_bytes: 0, buckets: Vec::new() },
            grants: Vec::new(),
            catalog: CatalogStatus {
                endpoint: "\u{2026}".to_owned(),
                last_fetch: None,
                reachable: false,
            },
            platform: PlatformInfo {
                paperclip_version: version.to_owned(),
                firmware: "\u{2026}".to_owned(),
                active_release: "\u{2026}".to_owned(),
            },
            diagnostics: Vec::new(),
            pending: None,
        }
    }

    /// A screen pre-populated with fixture data.
    pub fn preview() -> (screen: Self)
        ensures
            screen.page == SettingsPage::Apps,
            app_views(screen.apps@) == seq![fixture_app()],
            screen.storage.free_bytes == 41_300_000,
            bucket_views(screen.storage.buckets@) == fixture_buckets(),
            grant_views(screen.grants@) == fixture_grants(),
            screen.catalog@ == ("HTTPS://CATALOG.LOCAL"@, Some("2026-09-16 21:04"@), true),
            screen.platform@ == ("0.1.0"@, "3.28.0.172"@, "STAGE 4"@),
            entry_lines(screen.diagnostics@) == seq![
                ("2026-09-16 21:04"@, "NO ERRORS RECORDED THIS SESSION"@),
            ],
            screen.pending is None,
    {
        Self {
            page: SettingsPage::Apps,
            apps: placeholder_apps(),
            storage: placeholder_storage(),
            grants: placeholder_grants(),
            catalog: placeholder_catalog(),
            platform: placeholder_platform(),
            diagnostics: placeholder_diagnostics(),
            pending: None,
        }
    }

    /// Files one answer's value under the field it belongs to.
    pub fn apply(&mut self, value: AdminValue)
        ensures
            *final(self) == filed(*old(self), value),
    {
        match value {
            AdminValue::InstalledApps(apps) => {
                self.apps = apps;
            },
            AdminValue::StorageUsage(storage) => {
                self.storage = storage;
            },
            AdminValue::Grants(grants) => {
                self.grants = grants;
            },
            AdminValue::CatalogStatus(catalog) => {
                self.catalog = catalog;
            },
            AdminValue::PlatformInfo(platform) => {
                self.platform = platform;
            },
            AdminValue::Diagnostics(diagnostics) => {
                self.diagnostics = diagnostics;
            },
            AdminValue::Rollback(_) | AdminValue::Uninstall(_) | AdminValue::RevokeGrant(_)
            | AdminValue::Unknown => {},
        }
    }

    /// Whether a confirmation is currently blocking the page underneath it.
    pub fn is_confirming(&self) -> (confirming: bool)
        ensures
            confirming == (self.pending is Some),
    {
        self.pending.is_some()
    }

    /// Whether the footer offers to hand the panel back: not while a
    /// confirmation covers it.
    pub fn offers_return(&self) -> (offers: bool)
        ensures
            offers == (self.pending is None),
    {
        self.pending.is_none()
    }

    /// Handles a press on a nav tab. Ignored while a confirmation is open.
    pub fn press_tab(&mut self, tab: Option<SettingsPage>)
        ensures
            final(self).state() == tab_pressed(old(self).state(), tab),
            same_facts(*final(self), *old(self)),
            final(self).pending == old(self).pending,
    {
        if self.pending.is_some() {
            return;
        }
        if let Some(page) = tab {
            self.page = page;
        }
    }

    /// Handles a press on the apps page.
    pub fn press_apps(&mut self, uninstall: Option<usize>, rollback: Option<usize>)
        ensures
            final(self).state() == page_pressed(
                old(self).state(),
                PageHits::Apps { uninstall, rollback },
            ),
            same_facts(*final(self), *old(self)),
    {
        if self.pending.is_some() {
            return;
        }
        if let Some(index) = uninstall {
            self.begin_uninstall(index);
        } else if let Some(index) = rollback {
            self.begin_rollback(index);
        }
    }

    /// Handles a press on the grants page.
    pub fn press_grants(&mut self, revoke: Option<usize>)
        ensures
            final(self).state() == page_pressed(old(self).state(), PageHits::Grants { revoke }),
            same_facts(*final(self), *old(self)),
    {
        if self.pending.is_some() {
            return;
        }
        if let Some(index) = revoke {
            self.begin_revoke(index);
        }
    }

    /// Opens the rollback confirmation for an app.
    ///
    /// Does nothing when the app has no previous release: there is nothing to
    /// confirm.
    pub fn begin_rollback(&mut self, index: usize)
        ensures
            final(self).state() == asking(
                old(self).state(),
                rollback_dialog(old(self).state().apps, index as int),
            ),
            same_facts(*final(self), *old(self)),
    {
        if index >= self.apps.len() {
            return;
        }
        assert(self.state().apps[index as int] == self.apps@[index as int]@);
        let app = &self.apps[index];
        match &app.previous_version {
            Some(previous) => {
                let mut title = "ROLL BACK ".to_owned();
                push_text(&mut title, upper(app.name.as_str()).as_str());
                let mut line = "RETURNS TO V".to_owned();
                push_text(&mut line, previous.as_str());
                push_text(&mut line, ".");
                let mut lines: Vec<String> = Vec::new();
                lines.push(line);
                proof {
                    let said = rollback_dialog(self.state().apps, index as int)->0.dialog.lines;
                    assert(texts(lines@) =~= said);
                }
                self.pending = Some(
                    PendingAction {
                        dialog: ConfirmDialog::new(title, lines, "ROLL BACK"),
                        kind: PendingKind::Rollback(app.id.clone()),
                    },
                );
            },
            None => {},
        }
    }

    /// Opens the uninstall confirmation for an app, stating plainly what data
    /// would be lost.
    pub fn begin_uninstall(&mut self, index: usize)
        ensures
            final(self).state() == asking(
                old(self).state(),
                uninstall_dialog(old(self).state().apps, index as int),
            ),
            same_facts(*final(self), *old(self)),
    {
        if index >= self.apps.len() {
            return;
        }
        assert(self.state().apps[index as int] == self.apps@[index as int]@);
        let app = &self.apps[index];
        let mut lines: Vec<String> = Vec::new();
        if app.data_bytes > 0 {
            let mut line = format_bytes(app.data_bytes);
            push_text(&mut line, " OF DATA WILL BE DELETED.");
            lines.push(line);
            lines.push("THIS CANNOT BE UNDONE.".to_owned());
        } else {
            lines.push("NO DATA WILL BE LOST.".to_owned());
        }
        proof {
            let said = uninstall_dialog(self.state().apps, index as int)->0.dialog.lines;
            assert(texts(lines@) =~= said);
        }
        let mut title = "UNINSTALL ".to_owned();
        push_text(&mut title, upper(app.name.as_str()).as_str());
        self.pending = Some(
            PendingAction {
                dialog: ConfirmDialog::new(title, lines, "UNINSTALL"),
                kind: PendingKind::Uninstall(app.id.clone()),
            },
        );
    }

    /// Opens the revoke confirmation for a grant, warning when the app is
    /// relying on the grant right now rather than only eventually.
    pub fn begin_revoke(&mut self, index: usize)
        ensures
            final(self).state() == asking(
                old(self).state(),
                revoke_dialog(old(self).state().grants, index as int),
            ),
            same_facts(*final(self), *old(self)),
    {
        if index >= self.grants.len() {
            return;
        }
        assert(self.state().grants[index as int] == self.grants@[index as int]@);
        let grant = &self.grants[index];
        let mut line = upper(grant.app_name.as_str());
        let mut lines: Vec<String> = Vec::new();
        if grant.in_use {
            push_text(&mut line, " IS USING THIS RIGHT NOW.");
            lines.push(line);
            lines.push("REVOKING MAY INTERRUPT IT.".to_owned());
        } else {
            push_text(&mut line, " WILL LOSE ");
            push_text(&mut line, upper(grant.capability.name.as_str()).as_str());
            push_text(&mut line, " ACCESS.");
            lines.push(line);
        }
        proof {
            let said = revoke_dialog(self.state().grants, index as int)->0.dialog.lines;
            assert(texts(lines@) =~= said);
        }
        self.pending = Some(
            PendingAction {
                dialog: ConfirmDialog::new("REVOKE GRANT".to_owned(), lines, "REVOKE"),
                kind: PendingKind::Revoke(
                    grant.app_id.clone(),
                    Capability { name: grant.capability.name.clone() },
                ),
            },
        );
    }

    /// Backs out of the open confirmation without asking the host anything.
    pub fn cancel(&mut self)
        ensures
            final(self).state() == (SettingsView { pending: None, ..old(self).state() }),
            same_facts(*final(self), *old(self)),
            final(self).pending is None,
    {
        self.pending = None;
    }

    /// Closes the open confirmation and hands back what it asked for, if
    /// anything was pending.
    pub fn confirm(&mut self) -> (kind: Option<PendingKind>)
        ensures
            final(self).state() == (SettingsView { pending: None, ..old(self).state() }),
            same_facts(*final(self), *old(self)),
            final(self).pending is None,
            kind_view(kind) == (match old(self).state().pending {
                Some(pending) => Some(pending.kind),
                None => None,
            }),
    {
        match self.pending.take() {
            Some(pending) => Some(pending.kind),
            None => None,
        }
    }

    /// Handles one pointer event against what was drawn for it.
    ///
    /// Order matters and is the modal rule: while a confirmation is open it
    /// absorbs every press.
    pub fn press(&mut self, hits: SettingsHits) -> (press: Press)
        ensures
            (SettingsStep {
                screen: final(self).state(),
                action: press.action,
                admin: kind_view(press.admin),
            }) == pressed(old(self).state(), hits),
            same_facts(*final(self), *old(self)),
    {
        if !hits.tap {
            return Press::ignored();
        }
        if hits.dialog {
            if hits.cancel {
                self.cancel();
                return Press::redraw();
            }
            if hits.confirm {
                return Press { action: Action::Redraw, admin: self.confirm() };
            }
            // The scrim. A press here resolves nothing, and must not reach
            // the page it is covering.
            return Press::ignored();
        }
        if hits.return_to_stock {
            return Press { action: Action::ReturnToStock, admin: None };
        }
        let page = self.page;
        self.press_tab(hits.tab);
        if self.page != page {
            return Press::redraw();
        }
        match hits.page {
            PageHits::Apps { uninstall, rollback } => self.press_apps(uninstall, rollback),
            PageHits::Grants { revoke } => self.press_grants(revoke),
            PageHits::ReadOnly => {},
        }
        if self.is_confirming() {
            Press::redraw()
        } else {
            Press::ignored()
        }
    }
}

/// Nothing destructive happens without a confirmation: the host is asked for a
/// write only by confirming the dialog on the glass, and for exactly what that
/// dialog is about.
pub proof fn law_writes_are_confirmed(screen: SettingsView, hits: SettingsHits)
    ensures
        pressed(screen, hits).admin is Some ==> {
            &&& hits.tap && hits.dialog && hits.confirm && !hits.cancel
            &&& screen.pending is Some
            &&& pressed(screen, hits).admin == Some(screen.pending->0.kind)
            &&& pressed(screen, hits).screen.pending is None
        },
{
}

/// An open dialog is modal: whatever is pressed, the page under it stays as it
/// is, and the dialog goes only by its own buttons.
pub proof fn law_dialog_is_modal(screen: SettingsView, hits: SettingsHits)
    requires
        screen.pending is Some,
        hits.dialog,
    ensures
        pressed(screen, hits).screen.page == screen.page,
        pressed(screen, hits).screen.pending is None || pressed(screen, hits).screen == screen,
        pressed(screen, hits).screen.pending is None ==> hits.tap && (hits.cancel || hits.confirm),
{
}

/// A dialog that takes data away says so, and that it cannot be undone; one
/// that does not says nothing is lost.
pub proof fn law_uninstall_says_what_is_lost(apps: Seq<AppView>, index: int)
    requires
        0 <= index < apps.len(),
    ensures
        ({
            let lines = uninstall_dialog(apps, index)->0.dialog.lines;
            if apps[index].data_bytes > 0 {
                lines.len() == 2 && lines[0] == bytes_text(apps[index].data_bytes as int)
                    + " OF DATA WILL BE DELETED."@ && lines[1] == "THIS CANNOT BE UNDONE."@
            } else {
                lines == seq!["NO DATA WILL BE LOST."@]
            }
        }),
{
}

/// Cancelling asks the host nothing and leaves the page as it was before the
/// dialog.
pub proof fn law_cancel_undoes_asking(screen: SettingsView, dialog: Option<PendingView>)
    requires
        screen.pending is None,
    ensures
        (SettingsView { pending: None, ..asking(screen, dialog) }) == screen,
{
}

} // verus!
