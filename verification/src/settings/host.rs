//! What Settings reads from, and asks of, the host.
//!
//! Settings is a client of the platform, never an owner of it: rollback,
//! uninstall and grant revocation are host transactions.

use vstd::prelude::*;
use vstd::string::*;

use crate::text::{
    copy_optional, decimal, optional, push_decimal, push_text, same_text, upper, uppercase,
};

verus! {

/// One row on the installed-apps page.
#[derive(Debug, Clone, PartialEq, Eq)]
pub struct InstalledAppSummary {
    /// The app's stable id, used to address it in a host call.
    pub id: String,
    /// The name to show.
    pub name: String,
    /// The release currently active.
    pub active_version: String,
    /// The release rollback would restore, if any.
    pub previous_version: Option<String>,
    /// Bytes held under this app's own data directory, so an uninstall
    /// confirmation can say what would be lost.
    pub data_bytes: u64,
}

/// What a row on the installed-apps page says.
pub struct AppView {
    /// The app's id.
    pub id: Seq<char>,
    /// The name to show.
    pub name: Seq<char>,
    /// The release currently active.
    pub active: Seq<char>,
    /// The release rollback would restore.
    pub previous: Option<Seq<char>>,
    /// Bytes of its own.
    pub data_bytes: u64,
}

impl InstalledAppSummary {
    /// What the row says.
    pub open spec fn view(&self) -> AppView {
        AppView {
            id: self.id@,
            name: self.name@,
            active: self.active_version@,
            previous: optional(self.previous_version),
            data_bytes: self.data_bytes,
        }
    }

    /// Whether rollback has anywhere to go.
    pub fn has_previous_release(&self) -> (has: bool)
        ensures
            has == (self@.previous is Some),
    {
        self.previous_version.is_some()
    }

    /// A copy of the row.
    pub fn copy(&self) -> (copy: Self)
        ensures
            copy@ == self@,
    {
        Self {
            id: self.id.clone(),
            name: self.name.clone(),
            active_version: self.active_version.clone(),
            previous_version: copy_optional(&self.previous_version),
            data_bytes: self.data_bytes,
        }
    }
}

/// One named storage bucket and what it holds.
#[derive(Debug, Clone, PartialEq, Eq)]
pub struct StorageBucket {
    /// What the bucket is.
    pub label: String,
    /// Bytes held.
    pub bytes: u64,
}

impl StorageBucket {
    /// What the bucket is and holds.
    pub open spec fn view(&self) -> (Seq<char>, u64) {
        (self.label@, self.bytes)
    }

    /// Builds a bucket.
    pub fn new(label: &str, bytes: u64) -> (bucket: Self)
        ensures
            bucket@ == (label@, bytes),
    {
        Self { label: label.to_owned(), bytes }
    }
}

/// What is using the space.
#[derive(Debug, Clone, PartialEq, Eq)]
pub struct StorageUsage {
    /// Bytes free on the filesystem.
    pub free_bytes: u64,
    /// Named buckets, each with the bytes it holds, in display order.
    pub buckets: Vec<StorageBucket>,
}

/// What the first `n` buckets hold together.
pub open spec fn held(buckets: Seq<StorageBucket>, n: int) -> int
    decreases n,
{
    if n <= 0 {
        0
    } else {
        held(buckets, n - 1) + buckets[n - 1].bytes
    }
}

proof fn lemma_held_grows(buckets: Seq<StorageBucket>, m: int, n: int)
    requires
        0 <= m <= n,
    ensures
        0 <= held(buckets, m) <= held(buckets, n),
    decreases n,
{
    if m < n {
        lemma_held_grows(buckets, m, n - 1);
    } else if n > 0 {
        lemma_held_grows(buckets, m - 1, n - 1);
    }
}

/// What buckets are and hold.
pub open spec fn bucket_views(buckets: Seq<StorageBucket>) -> Seq<(Seq<char>, u64)> {
    buckets.map_values(|bucket: StorageBucket| bucket@)
}

impl StorageUsage {
    /// Total held across every bucket.
    pub fn used_bytes(&self) -> (used: u64)
        requires
            held(self.buckets@, self.buckets@.len() as int) <= u64::MAX,
        ensures
            used == held(self.buckets@, self.buckets@.len() as int),
    {
        let mut used: u64 = 0;
        for index in 0..self.buckets.len()
            invariant
                held(self.buckets@, self.buckets@.len() as int) <= u64::MAX,
                used == held(self.buckets@, index as int),
        {
            proof {
                lemma_held_grows(self.buckets@, index + 1, self.buckets@.len() as int);
            }
            used = used + self.buckets[index].bytes;
        }
        used
    }
}

/// What a capability is called.
#[derive(Debug, Clone, PartialEq, Eq)]
pub struct Capability {
    /// Its name.
    pub name: String,
}

impl Capability {
    /// The capability of a name.
    pub fn named(name: &str) -> (capability: Self)
        ensures
            capability.name@ == name@,
    {
        Self { name: name.to_owned() }
    }
}

/// One capability grant, and whether revoking it would land on an app while it
/// is actually relying on it.
#[derive(Debug, Clone, PartialEq, Eq)]
pub struct GrantSummary {
    /// The app the grant was made to.
    pub app_id: String,
    /// The app's display name.
    pub app_name: String,
    /// What was granted.
    pub capability: Capability,
    /// Whether the app is currently exercising this grant.
    pub in_use: bool,
}

/// What a grant says.
pub struct GrantView {
    /// The app the grant was made to.
    pub app: Seq<char>,
    /// The app's display name.
    pub name: Seq<char>,
    /// What was granted.
    pub capability: Seq<char>,
    /// Whether the app is currently exercising it.
    pub in_use: bool,
}

impl GrantSummary {
    /// What the grant says.
    pub open spec fn view(&self) -> GrantView {
        GrantView {
            app: self.app_id@,
            name: self.app_name@,
            capability: self.capability.name@,
            in_use: self.in_use,
        }
    }

    /// A copy of the grant.
    pub fn copy(&self) -> (copy: Self)
        ensures
            copy@ == self@,
    {
        Self {
            app_id: self.app_id.clone(),
            app_name: self.app_name.clone(),
            capability: Capability { name: self.capability.name.clone() },
            in_use: self.in_use,
        }
    }
}

/// The configured catalog and whether it answered last time anyone asked.
#[derive(Debug, Clone, PartialEq, Eq)]
pub struct CatalogStatus {
    /// The configured catalog endpoint.
    pub endpoint: String,
    /// When the endpoint last answered, already formatted.
    pub last_fetch: Option<String>,
    /// Whether the endpoint answered the most recent attempt.
    pub reachable: bool,
}

impl CatalogStatus {
    /// The endpoint, the last fetch and whether it answered.
    pub open spec fn view(&self) -> (Seq<char>, Option<Seq<char>>, bool) {
        (self.endpoint@, optional(self.last_fetch), self.reachable)
    }
}

/// The platform facts a bug report needs.
#[derive(Debug, Clone, PartialEq, Eq)]
pub struct PlatformInfo {
    /// The software's own version.
    pub paperclip_version: String,
    /// The firmware image it is running on.
    pub firmware: String,
    /// The active platform release.
    pub active_release: String,
}

impl PlatformInfo {
    /// The three facts.
    pub open spec fn view(&self) -> (Seq<char>, Seq<char>, Seq<char>) {
        (self.paperclip_version@, self.firmware@, self.active_release@)
    }
}

/// One entry in the diagnostics log, read-only.
#[derive(Debug, Clone, PartialEq, Eq)]
pub struct DiagnosticEntry {
    /// When it happened, already formatted.
    pub when: String,
    /// What was logged.
    pub message: String,
}

impl DiagnosticEntry {
    /// When it happened and what was logged.
    pub open spec fn view(&self) -> (Seq<char>, Seq<char>) {
        (self.when@, self.message@)
    }

    /// Builds an entry.
    pub fn new(when: &str, message: &str) -> (entry: Self)
        ensures
            entry@ == (when@, message@),
    {
        Self { when: when.to_owned(), message: message.to_owned() }
    }
}

/// What entries say.
pub open spec fn entry_lines(entries: Seq<DiagnosticEntry>) -> Seq<(Seq<char>, Seq<char>)> {
    entries.map_values(|entry: DiagnosticEntry| entry@)
}

/// Why a requested operation did not happen.
#[derive(Debug, Clone, PartialEq, Eq)]
pub enum HostOpError {
    /// Rollback was requested for an app with no previous release.
    NoPreviousRelease,
    /// The app id named in the request is not installed.
    NotInstalled,
    /// The grant named in the request is not held.
    GrantNotHeld,
    /// This host has no transaction for the request yet.
    NotSupported {
        /// Why not.
        reason: &'static str,
    },
    /// The operation failed for another reason.
    Failed(String),
}

/// How an install transaction failed.
#[derive(Debug, PartialEq, Eq)]
pub enum InstallFailure {
    /// There is no release to fall back to.
    NoFallback,
    /// No release is selected.
    NothingSelected,
    /// Anything else, in words.
    Other(String),
}

impl HostOpError {
    /// The failure of a host operation that an install transaction's failure
    /// is.
    pub fn from_install(failure: InstallFailure) -> (error: Self)
        ensures
            error == (match failure {
                InstallFailure::NoFallback => HostOpError::NoPreviousRelease,
                InstallFailure::NothingSelected => HostOpError::NotInstalled,
                InstallFailure::Other(text) => HostOpError::Failed(text),
            }),
    {
        match failure {
            InstallFailure::NoFallback => HostOpError::NoPreviousRelease,
            InstallFailure::NothingSelected => HostOpError::NotInstalled,
            InstallFailure::Other(text) => HostOpError::Failed(text),
        }
    }
}

/// Everything Settings reads from, or asks of, the host.
///
/// Read methods return a snapshot rather than a live handle. The three write
/// methods are exactly the host transactions this app is scoped to.
pub trait SettingsHost {
    /// Every installed app, in display order.
    fn installed_apps(&self) -> Vec<InstalledAppSummary>;

    /// What storage holds today.
    fn storage_usage(&self) -> StorageUsage;

    /// Every capability grant in force.
    fn grants(&self) -> Vec<GrantSummary>;

    /// The catalog's configured endpoint and reachability.
    fn catalog_status(&self) -> CatalogStatus;

    /// Platform version facts.
    fn platform_info(&self) -> PlatformInfo;

    /// Recent platform errors, most recent first.
    fn diagnostics(&self) -> Vec<DiagnosticEntry>;

    /// Rolls `app` back to the release rollback would restore.
    fn rollback(&mut self, app: &str) -> Result<(), HostOpError>;

    /// Uninstalls `app`, including its data.
    fn uninstall(&mut self, app: &str) -> Result<(), HostOpError>;

    /// Revokes `capability` from `app`.
    fn revoke_grant(&mut self, app: &str, capability: &Capability) -> Result<(), HostOpError>;
}

/// Fixture data for the desktop preview and for tests: every value is invented
/// so the pages have something legible to draw.
#[derive(Debug, Clone)]
pub struct PlaceholderHost {
    pub(crate) apps: Vec<InstalledAppSummary>,
    pub(crate) grants: Vec<GrantSummary>,
}

/// What rows on the installed-apps page say.
pub open spec fn app_views(apps: Seq<InstalledAppSummary>) -> Seq<AppView> {
    apps.map_values(|app: InstalledAppSummary| app@)
}

/// What grants say.
pub open spec fn grant_views(grants: Seq<GrantSummary>) -> Seq<GrantView> {
    grants.map_values(|grant: GrantSummary| grant@)
}

/// The installed app of the fixture.
pub open spec fn fixture_app() -> AppView {
    AppView {
        id: "dev.calum.chess"@,
        name: "Chess"@,
        active: "0.2.0"@,
        previous: Some("0.1.0"@),
        data_bytes: 2_400_000,
    }
}

/// The grants of the fixture: one in use, one idle.
pub open spec fn fixture_grants() -> Seq<GrantView> {
    seq![
        GrantView {
            app: "dev.calum.chess"@,
            name: "Chess"@,
            capability: "storage"@,
            in_use: true,
        },
        GrantView {
            app: "dev.calum.chess"@,
            name: "Chess"@,
            capability: "sharing"@,
            in_use: false,
        },
    ]
}

/// The buckets of the fixture.
pub open spec fn fixture_buckets() -> Seq<(Seq<char>, u64)> {
    seq![
        ("DATA / CHESS"@, 2_400_000u64),
        ("SHARED"@, 0u64),
        ("STAGING"@, 0u64),
        ("RELEASES"@, 18_700_000u64),
    ]
}

/// The installed app of the fixture.
pub fn placeholder_apps() -> (apps: Vec<InstalledAppSummary>)
    ensures
        app_views(apps@) == seq![fixture_app()],
{
    let mut apps: Vec<InstalledAppSummary> = Vec::new();
    apps.push(
        InstalledAppSummary {
            id: "dev.calum.chess".to_owned(),
            name: "Chess".to_owned(),
            active_version: "0.2.0".to_owned(),
            previous_version: Some("0.1.0".to_owned()),
            data_bytes: 2_400_000,
        },
    );
    assert(app_views(apps@) =~= seq![fixture_app()]);
    apps
}

/// The grants of the fixture.
pub fn placeholder_grants() -> (grants: Vec<GrantSummary>)
    ensures
        grant_views(grants@) == fixture_grants(),
{
    let mut grants: Vec<GrantSummary> = Vec::new();
    grants.push(
        GrantSummary {
            app_id: "dev.calum.chess".to_owned(),
            app_name: "Chess".to_owned(),
            capability: Capability::named("storage"),
            in_use: true,
        },
    );
    grants.push(
        GrantSummary {
            app_id: "dev.calum.chess".to_owned(),
            app_name: "Chess".to_owned(),
            capability: Capability::named("sharing"),
            in_use: false,
        },
    );
    assert(grant_views(grants@) =~= fixture_grants());
    grants
}

/// The storage of the fixture.
pub fn placeholder_storage() -> (storage: StorageUsage)
    ensures
        storage.free_bytes == 41_300_000,
        bucket_views(storage.buckets@) == fixture_buckets(),
{
    let mut buckets: Vec<StorageBucket> = Vec::new();
    buckets.push(StorageBucket::new("DATA / CHESS", 2_400_000));
    buckets.push(StorageBucket::new("SHARED", 0));
    buckets.push(StorageBucket::new("STAGING", 0));
    buckets.push(StorageBucket::new("RELEASES", 18_700_000));
    assert(bucket_views(buckets@) =~= fixture_buckets());
    StorageUsage { free_bytes: 41_300_000, buckets }
}

/// The catalog of the fixture.
pub fn placeholder_catalog() -> (catalog: CatalogStatus)
    ensures
        catalog@ == ("HTTPS://CATALOG.LOCAL"@, Some("2026-09-16 21:04"@), true),
{
    CatalogStatus {
        endpoint: "HTTPS://CATALOG.LOCAL".to_owned(),
        last_fetch: Some("2026-09-16 21:04".to_owned()),
        reachable: true,
    }
}

/// The platform facts of the fixture.
pub fn placeholder_platform() -> (platform: PlatformInfo)
    ensures
        platform@ == ("0.1.0"@, "3.28.0.172"@, "STAGE 4"@),
{
    PlatformInfo {
        paperclip_version: "0.1.0".to_owned(),
        firmware: "3.28.0.172".to_owned(),
        active_release: "STAGE 4".to_owned(),
    }
}

/// The log of the fixture.
pub fn placeholder_diagnostics() -> (entries: Vec<DiagnosticEntry>)
    ensures
        entry_lines(entries@) == seq![("2026-09-16 21:04"@, "NO ERRORS RECORDED THIS SESSION"@)],
{
    let mut entries: Vec<DiagnosticEntry> = Vec::new();
    entries.push(DiagnosticEntry::new("2026-09-16 21:04", "NO ERRORS RECORDED THIS SESSION"));
    assert(entry_lines(entries@) =~= seq![
        ("2026-09-16 21:04"@, "NO ERRORS RECORDED THIS SESSION"@),
    ]);
    entries
}

/// The first of the apps from `from` on with this id, or their number where
/// there is none.
pub open spec fn app_place(apps: Seq<AppView>, id: Seq<char>, from: int) -> int
    decreases apps.len() - from,
{
    if from >= apps.len() {
        apps.len() as int
    } else if apps[from].id == id {
        from
    } else {
        app_place(apps, id, from + 1)
    }
}

/// The first `n` apps without those of this id.
pub open spec fn apps_without(apps: Seq<AppView>, id: Seq<char>, n: int) -> Seq<AppView>
    decreases n,
{
    if n <= 0 {
        Seq::empty()
    } else if apps[n - 1].id == id {
        apps_without(apps, id, n - 1)
    } else {
        apps_without(apps, id, n - 1).push(apps[n - 1])
    }
}

/// Whether a grant is one of the app's and, where a capability is named, of
/// that capability.
pub open spec fn is_grant_of(
    grant: GrantView,
    id: Seq<char>,
    capability: Option<Seq<char>>,
) -> bool {
    grant.app == id && (capability is None || grant.capability == capability->0)
}

/// The first `n` grants without those.
pub open spec fn grants_without(
    grants: Seq<GrantView>,
    id: Seq<char>,
    capability: Option<Seq<char>>,
    n: int,
) -> Seq<GrantView>
    decreases n,
{
    if n <= 0 {
        Seq::empty()
    } else if is_grant_of(grants[n - 1], id, capability) {
        grants_without(grants, id, capability, n - 1)
    } else {
        grants_without(grants, id, capability, n - 1).push(grants[n - 1])
    }
}

/// What rolling an app back answers, and what is installed and granted then.
pub open spec fn rolled_back(held: (Seq<AppView>, Seq<GrantView>), id: Seq<char>) -> (
    Result<(), HostOpError>,
    (Seq<AppView>, Seq<GrantView>),
) {
    let (apps, grants) = held;
    let place = app_place(apps, id, 0);
    if place >= apps.len() {
        (Err(HostOpError::NotInstalled), held)
    } else {
        match apps[place].previous {
            None => (Err(HostOpError::NoPreviousRelease), held),
            Some(previous) => {
                let app = AppView { active: previous, previous: None, ..apps[place] };
                (Ok(()), (apps.update(place, app), grants))
            },
        }
    }
}

/// What uninstalling an app answers, and what is installed and granted then.
pub open spec fn uninstalled(held: (Seq<AppView>, Seq<GrantView>), id: Seq<char>) -> (
    Result<(), HostOpError>,
    (Seq<AppView>, Seq<GrantView>),
) {
    let (apps, grants) = held;
    let left = apps_without(apps, id, apps.len() as int);
    if left.len() == apps.len() {
        (Err(HostOpError::NotInstalled), held)
    } else {
        (Ok(()), (left, grants_without(grants, id, None, grants.len() as int)))
    }
}

/// What revoking a grant answers, and what is installed and granted then.
pub open spec fn revoked(
    held: (Seq<AppView>, Seq<GrantView>),
    id: Seq<char>,
    capability: Seq<char>,
) -> (Result<(), HostOpError>, (Seq<AppView>, Seq<GrantView>)) {
    let (apps, grants) = held;
    let left = grants_without(grants, id, Some(capability), grants.len() as int);
    if left.len() == grants.len() {
        (Err(HostOpError::GrantNotHeld), held)
    } else {
        (Ok(()), (apps, left))
    }
}

/// The grants without those of this app and capability.
fn keep_grants(grants: &Vec<GrantSummary>, id: &str, capability: Option<&str>) -> (kept: Vec<
    GrantSummary,
>)
    ensures
        grant_views(kept@) == grants_without(
            grant_views(grants@),
            id@,
            match capability {
                Some(name) => Some(name@),
                None => None,
            },
            grants@.len() as int,
        ),
        kept@.len() <= grants@.len(),
{
    let ghost views = grant_views(grants@);
    let ghost named = match capability {
        Some(name) => Some(name@),
        None => None,
    };
    let mut kept: Vec<GrantSummary> = Vec::new();
    assert(grant_views(kept@) =~= Seq::<GrantView>::empty());
    for index in 0..grants.len()
        invariant
            views == grant_views(grants@),
            named == (match capability {
                Some(name) => Some(name@),
                None => None,
            }),
            grant_views(kept@) == grants_without(views, id@, named, index as int),
            kept@.len() <= index,
    {
        assert(views[index as int] == grants@[index as int]@);
        let grant = &grants[index];
        let same_capability = match capability {
            Some(name) => same_text(grant.capability.name.as_str(), name),
            None => true,
        };
        if !(same_text(grant.app_id.as_str(), id) && same_capability) {
            let ghost before = grant_views(kept@);
            kept.push(grant.copy());
            assert(grant_views(kept@) =~= before.push(grant@));
        }
    }
    kept
}

impl PlaceholderHost {
    /// What is installed and what is granted.
    pub open(crate) spec fn view(&self) -> (Seq<AppView>, Seq<GrantView>) {
        (app_views(self.apps@), grant_views(self.grants@))
    }

    /// Builds the fixture the preview screens are drawn from.
    pub fn new() -> (host: Self)
        ensures
            host@ == (seq![fixture_app()], fixture_grants()),
    {
        Self { apps: placeholder_apps(), grants: placeholder_grants() }
    }

    /// Where the app of an id stands.
    fn position(&self, id: &str) -> (place: Option<usize>)
        ensures
            place is Some <==> app_place(self@.0, id@, 0) < self@.0.len(),
            place is Some ==> place->0 == app_place(self@.0, id@, 0) && place->0 < self.apps@.len(),
    {
        let ghost views = self@.0;
        let mut index: usize = 0;
        while index < self.apps.len()
            invariant
                views == self@.0,
                views.len() == self.apps@.len(),
                index <= self.apps@.len(),
                app_place(views, id@, 0) == app_place(views, id@, index as int),
            decreases self.apps@.len() - index,
        {
            assert(views[index as int] == self.apps@[index as int]@);
            if same_text(self.apps[index].id.as_str(), id) {
                return Some(index);
            }
            index = index + 1;
        }
        None
    }
}

impl Default for PlaceholderHost {
    fn default() -> (host: Self)
        ensures
            host@ == (seq![fixture_app()], fixture_grants()),
    {
        Self::new()
    }
}

impl SettingsHost for PlaceholderHost {
    fn installed_apps(&self) -> (apps: Vec<InstalledAppSummary>)
        ensures
            app_views(apps@) == self@.0,
    {
        let mut apps: Vec<InstalledAppSummary> = Vec::new();
        for index in 0..self.apps.len()
            invariant
                apps@.len() == index,
                forall|k: int| 0 <= k < index ==> (#[trigger] apps@[k])@ == self.apps@[k]@,
        {
            apps.push(self.apps[index].copy());
        }
        assert(app_views(apps@) =~= self@.0);
        apps
    }

    fn storage_usage(&self) -> (storage: StorageUsage)
        ensures
            storage.free_bytes == 41_300_000,
            bucket_views(storage.buckets@) == fixture_buckets(),
    {
        placeholder_storage()
    }

    fn grants(&self) -> (grants: Vec<GrantSummary>)
        ensures
            grant_views(grants@) == self@.1,
    {
        let mut grants: Vec<GrantSummary> = Vec::new();
        for index in 0..self.grants.len()
            invariant
                grants@.len() == index,
                forall|k: int| 0 <= k < index ==> (#[trigger] grants@[k])@ == self.grants@[k]@,
        {
            grants.push(self.grants[index].copy());
        }
        assert(grant_views(grants@) =~= self@.1);
        grants
    }

    fn catalog_status(&self) -> (catalog: CatalogStatus)
        ensures
            catalog@ == ("HTTPS://CATALOG.LOCAL"@, Some("2026-09-16 21:04"@), true),
    {
        placeholder_catalog()
    }

    fn platform_info(&self) -> (platform: PlatformInfo)
        ensures
            platform@ == ("0.1.0"@, "3.28.0.172"@, "STAGE 4"@),
    {
        placeholder_platform()
    }

    fn diagnostics(&self) -> (entries: Vec<DiagnosticEntry>)
        ensures
            entry_lines(entries@) == seq![
                ("2026-09-16 21:04"@, "NO ERRORS RECORDED THIS SESSION"@),
            ],
    {
        placeholder_diagnostics()
    }

    fn rollback(&mut self, app: &str) -> (result: Result<(), HostOpError>)
        ensures
            ({
                let (apps, grants) = old(self)@;
                let place = app_place(apps, app@, 0);
                if place >= apps.len() {
                    result == Err::<(), HostOpError>(HostOpError::NotInstalled) && final(self)@
                        == old(self)@
                } else if apps[place].previous is None {
                    result == Err::<(), HostOpError>(HostOpError::NoPreviousRelease)
                        && final(self)@ == old(self)@
                } else {
                    result is Ok && final(self)@ == (
                        apps.update(
                            place,
                            AppView {
                                active: apps[place].previous->0,
                                previous: None,
                                ..apps[place]
                            },
                        ),
                        grants,
                    )
                }
            }),
            (result, final(self)@) == rolled_back(old(self)@, app@),
    {
        let ghost before = self@.0;
        let index: usize = match self.position(app) {
            Some(index) => index,
            None => {
                return Err(HostOpError::NotInstalled);
            },
        };
        assert(before[index as int] == self.apps@[index as int]@);
        let mut entry = self.apps[index].copy();
        match entry.previous_version.take() {
            Some(previous) => {
                entry.active_version = previous;
                self.apps.set(index, entry);
                assert(self@.0 =~= before.update(index as int, entry@));
                Ok(())
            },
            None => Err(HostOpError::NoPreviousRelease),
        }
    }

    fn uninstall(&mut self, app: &str) -> (result: Result<(), HostOpError>)
        ensures
            ({
                let (apps, grants) = old(self)@;
                let left = apps_without(apps, app@, apps.len() as int);
                if left.len() == apps.len() {
                    result == Err::<(), HostOpError>(HostOpError::NotInstalled)
                } else {
                    result is Ok && final(self)@ == (
                        left,
                        grants_without(grants, app@, None, grants.len() as int),
                    )
                }
            }),
            result is Err ==> final(self)@ == old(self)@,
            (result, final(self)@) == uninstalled(old(self)@, app@),
    {
        let ghost views = self@.0;
        let mut left: Vec<InstalledAppSummary> = Vec::new();
        assert(app_views(left@) =~= Seq::<AppView>::empty());
        for index in 0..self.apps.len()
            invariant
                self@ == old(self)@,
                views == self@.0,
                app_views(left@) == apps_without(views, app@, index as int),
        {
            assert(views[index as int] == self.apps@[index as int]@);
            let candidate = &self.apps[index];
            if !same_text(candidate.id.as_str(), app) {
                let ghost before = app_views(left@);
                left.push(candidate.copy());
                assert(app_views(left@) =~= before.push(candidate@));
            }
        }
        assert(app_views(left@).len() == left@.len());
        if left.len() == self.apps.len() {
            return Err(HostOpError::NotInstalled);
        }
        self.apps = left;
        self.grants = keep_grants(&self.grants, app, None);
        Ok(())
    }

    fn revoke_grant(&mut self, app: &str, capability: &Capability) -> (result: Result<
        (),
        HostOpError,
    >)
        ensures
            ({
                let (apps, grants) = old(self)@;
                let left = grants_without(
                    grants,
                    app@,
                    Some(capability.name@),
                    grants.len() as int,
                );
                if left.len() == grants.len() {
                    result == Err::<(), HostOpError>(HostOpError::GrantNotHeld)
                } else {
                    result is Ok && final(self)@ == (apps, left)
                }
            }),
            result is Err ==> final(self)@ == old(self)@,
            (result, final(self)@) == revoked(old(self)@, app@, capability.name@),
    {
        let left = keep_grants(&self.grants, app, Some(capability.name.as_str()));
        assert(grant_views(left@).len() == left@.len());
        if left.len() == self.grants.len() {
            return Err(HostOpError::GrantNotHeld);
        }
        self.grants = left;
        Ok(())
    }
}

/// What is known of an app in the store: its leaf name and the bytes it holds.
#[derive(Debug, PartialEq, Eq)]
pub struct StoredApp {
    /// The last part of the app's identifier.
    pub leaf: String,
    /// Bytes of its own.
    pub data_bytes: u64,
}

/// The label of an app's bucket.
pub open spec fn data_label(leaf: Seq<char>) -> Seq<char> {
    "DATA / "@ + uppercase(leaf)
}

/// The buckets of the apps in a store.
pub open spec fn stored_buckets(apps: Seq<StoredApp>) -> Seq<(Seq<char>, u64)> {
    apps.map_values(|app: StoredApp| (data_label(app.leaf@), app.data_bytes))
}

/// The buckets of a store: one for each app, then the three that are shared.
pub fn store_buckets(apps: &Vec<StoredApp>, shared: u64, staging: u64, releases: u64) -> (buckets:
    Vec<StorageBucket>)
    ensures
        bucket_views(buckets@) == stored_buckets(apps@).push(("SHARED"@, shared)).push(
            ("STAGING"@, staging),
        ).push(("RELEASES"@, releases)),
{
    let mut buckets: Vec<StorageBucket> = Vec::new();
    for index in 0..apps.len()
        invariant
            buckets@.len() == index,
            forall|k: int|
                0 <= k < index ==> (#[trigger] buckets@[k])@ == (
                    data_label(apps@[k].leaf@),
                    apps@[k].data_bytes,
                ),
    {
        let mut label = "DATA / ".to_owned();
        push_text(&mut label, upper(apps[index].leaf.as_str()).as_str());
        buckets.push(StorageBucket { label, bytes: apps[index].data_bytes });
    }
    buckets.push(StorageBucket::new("SHARED", shared));
    buckets.push(StorageBucket::new("STAGING", staging));
    buckets.push(StorageBucket::new("RELEASES", releases));
    assert(bucket_views(buckets@) =~= stored_buckets(apps@).push(("SHARED"@, shared)).push(
        ("STAGING"@, staging),
    ).push(("RELEASES"@, releases)));
    buckets
}

/// What a store holds. Free space that could not be read counts as none.
pub fn store_storage(
    apps: &Vec<StoredApp>,
    shared: u64,
    staging: u64,
    releases: u64,
    free: Option<u64>,
) -> (storage: StorageUsage)
    ensures
        storage.free_bytes == (match free {
            Some(bytes) => bytes,
            None => 0,
        }),
        bucket_views(storage.buckets@) == stored_buckets(apps@).push(("SHARED"@, shared)).push(
            ("STAGING"@, staging),
        ).push(("RELEASES"@, releases)),
{
    let buckets = store_buckets(apps, shared, staging, releases);
    let free_bytes: u64 = match free {
        Some(bytes) => bytes,
        None => 0,
    };
    StorageUsage { free_bytes, buckets }
}

/// What is known of an app in the store and of its releases.
#[derive(Debug, PartialEq, Eq)]
pub struct StoreEntry {
    /// The app's identifier.
    pub id: String,
    /// The name to show.
    pub name: String,
    /// The version that is selected.
    pub installed: Option<String>,
    /// The version rollback would restore.
    pub fallback: Option<String>,
    /// Bytes of its own.
    pub data_bytes: u64,
}

/// The first `n` entries of which a version is selected, as installed apps.
pub open spec fn installed_of(entries: Seq<StoreEntry>, n: int) -> Seq<AppView>
    decreases n,
{
    if n <= 0 {
        Seq::empty()
    } else {
        let entry = entries[n - 1];
        match entry.installed {
            Some(version) => installed_of(entries, n - 1).push(
                AppView {
                    id: entry.id@,
                    name: entry.name@,
                    active: version@,
                    previous: optional(entry.fallback),
                    data_bytes: entry.data_bytes,
                },
            ),
            None => installed_of(entries, n - 1),
        }
    }
}

/// The apps of a store that are installed: those with a version selected.
pub fn store_apps(entries: &Vec<StoreEntry>) -> (apps: Vec<InstalledAppSummary>)
    ensures
        app_views(apps@) == installed_of(entries@, entries@.len() as int),
{
    let mut apps: Vec<InstalledAppSummary> = Vec::new();
    assert(app_views(apps@) =~= Seq::<AppView>::empty());
    for index in 0..entries.len()
        invariant
            app_views(apps@) == installed_of(entries@, index as int),
    {
        let entry = &entries[index];
        if let Some(version) = &entry.installed {
            let ghost before = app_views(apps@);
            let app = InstalledAppSummary {
                id: entry.id.clone(),
                name: entry.name.clone(),
                active_version: version.clone(),
                previous_version: copy_optional(&entry.fallback),
                data_bytes: entry.data_bytes,
            };
            apps.push(app);
            assert(app_views(apps@) =~= before.push(app@));
        }
    }
    apps
}

/// What a store without an uninstall transaction answers to an uninstall.
pub fn store_uninstall() -> (result: Result<(), HostOpError>)
    ensures
        result matches Err(HostOpError::NotSupported { reason }) && reason@
            == "paper_packages has no uninstall transaction yet \u{2014} only install, rollback and recover"@,
{
    Err(
        HostOpError::NotSupported {
            reason: "paper_packages has no uninstall transaction yet \u{2014} only install, rollback and recover",
        },
    )
}

/// What a store without persisted grants answers to a revocation.
pub fn store_revoke() -> (result: Result<(), HostOpError>)
    ensures
        result matches Err(HostOpError::NotSupported { reason }) && reason@
            == "InstallPolicy is in-memory only; there is no persisted grant store to revoke from"@,
{
    Err(
        HostOpError::NotSupported {
            reason: "InstallPolicy is in-memory only; there is no persisted grant store to revoke from",
        },
    )
}

/// How a stored app's selected release has fared.
#[derive(Debug, PartialEq, Eq)]
pub struct LaunchRecord {
    /// The last part of the app's identifier.
    pub leaf: String,
    /// The selected version.
    pub version: String,
    /// Whether it has ever started.
    pub started: bool,
    /// How often it was tried.
    pub attempts: u32,
    /// What the last failure said.
    pub last_failure: Option<String>,
}

/// Whether a record is of a release that was tried and has not started.
pub open spec fn is_failing(record: LaunchRecord) -> bool {
    !record.started && record.attempts > 0
}

/// What the log says of a release that has not started.
pub open spec fn failing_line(record: LaunchRecord) -> Seq<char> {
    uppercase(record.leaf@) + " V"@ + record.version@ + " HAS NOT STARTED AFTER "@ + decimal(
        record.attempts as nat,
    ) + " ATTEMPT(S)"@ + (match record.last_failure {
        Some(note) => ": "@ + uppercase(note@),
        None => Seq::empty(),
    })
}

/// What the log says of the first `n` records: a line for each that fails.
pub open spec fn failing_lines(records: Seq<LaunchRecord>, n: int) -> Seq<(Seq<char>, Seq<char>)>
    decreases n,
{
    if n <= 0 {
        Seq::empty()
    } else if is_failing(records[n - 1]) {
        failing_lines(records, n - 1).push(("UNKNOWN"@, failing_line(records[n - 1])))
    } else {
        failing_lines(records, n - 1)
    }
}

/// What the whole log says.
pub open spec fn log_lines(records: Seq<LaunchRecord>) -> Seq<(Seq<char>, Seq<char>)> {
    let failing = failing_lines(records, records.len() as int);
    let some = if failing.len() == 0 {
        seq![("UNKNOWN"@, "NO FAILED LAUNCHES RECORDED"@)]
    } else {
        failing
    };
    some.push(("NOTE"@, "GRANTS AND CATALOG HAVE NO PERSISTED HOST STATE YET"@))
}

/// The log of a store: every release that was tried and has not started, or
/// that there is none, and what the store cannot know.
pub fn store_diagnostics(records: &Vec<LaunchRecord>) -> (entries: Vec<DiagnosticEntry>)
    ensures
        entry_lines(entries@) == log_lines(records@),
{
    let mut entries: Vec<DiagnosticEntry> = Vec::new();
    assert(entry_lines(entries@) =~= Seq::<(Seq<char>, Seq<char>)>::empty());
    for index in 0..records.len()
        invariant
            entry_lines(entries@) == failing_lines(records@, index as int),
    {
        let record = &records[index];
        if !record.started && record.attempts > 0 {
            let mut message = upper(record.leaf.as_str());
            push_text(&mut message, " V");
            push_text(&mut message, record.version.as_str());
            push_text(&mut message, " HAS NOT STARTED AFTER ");
            push_decimal(&mut message, record.attempts as u64);
            push_text(&mut message, " ATTEMPT(S)");
            if let Some(note) = &record.last_failure {
                push_text(&mut message, ": ");
                push_text(&mut message, upper(note.as_str()).as_str());
            }
            let ghost before = entry_lines(entries@);
            assert(message@ =~= failing_line(*record));
            entries.push(DiagnosticEntry { when: "UNKNOWN".to_owned(), message });
            assert(entry_lines(entries@) =~= before.push(("UNKNOWN"@, failing_line(*record))));
        }
    }
    assert(entry_lines(entries@).len() == entries@.len());
    if entries.is_empty() {
        entries.push(DiagnosticEntry::new("UNKNOWN", "NO FAILED LAUNCHES RECORDED"));
        assert(entry_lines(entries@) =~= seq![("UNKNOWN"@, "NO FAILED LAUNCHES RECORDED"@)]);
    }
    let ghost before = entry_lines(entries@);
    entries.push(
        DiagnosticEntry::new("NOTE", "GRANTS AND CATALOG HAVE NO PERSISTED HOST STATE YET"),
    );
    assert(entry_lines(entries@) =~= before.push(
        ("NOTE"@, "GRANTS AND CATALOG HAVE NO PERSISTED HOST STATE YET"@),
    ));
    entries
}

/// What a store without a persisted catalog says of it.
pub fn store_catalog() -> (catalog: CatalogStatus)
    ensures
        catalog@ == ("NOT CONFIGURED"@, None::<Seq<char>>, false),
{
    CatalogStatus { endpoint: "NOT CONFIGURED".to_owned(), last_fetch: None, reachable: false }
}

/// What a store without device evidence says of the platform.
pub fn store_platform(version: &str) -> (platform: PlatformInfo)
    ensures
        platform@ == (version@, "NOT VERIFIED"@, "NOT VERIFIED"@),
{
    PlatformInfo {
        paperclip_version: version.to_owned(),
        firmware: "NOT VERIFIED".to_owned(),
        active_release: "NOT VERIFIED".to_owned(),
    }
}

} // verus!
