//! The Settings app: installed apps, storage, grants, catalog, platform facts
//! and diagnostics, and the few things that can be asked of the host.

pub mod app;
pub mod bytes;
pub mod confirm;
pub mod host;
pub mod laws;
pub mod nav;
pub mod pages;
pub mod screen;

pub use app::SettingsApp;
pub use bytes::format_bytes;
pub use confirm::ConfirmDialog;
pub use host::{
    Capability, CatalogStatus, DiagnosticEntry, GrantSummary, HostOpError, InstalledAppSummary,
    PlaceholderHost, PlatformInfo, SettingsHost, StorageBucket, StorageUsage,
};
pub use nav::SettingsPage;
pub use screen::{AdminQuery, AdminValue, PageHits, Press, SettingsHits, SettingsScreen};
