//! The pages of Settings, and the tabs that switch between them.

use vstd::prelude::*;

verus! {

/// One page of Settings.
#[derive(Debug, Clone, Copy, PartialEq, Eq, Structural)]
pub enum SettingsPage {
    /// Installed apps: versions, rollback, uninstall.
    Apps,
    /// What is used under the data, shared, staging and release directories.
    Storage,
    /// Which apps hold which capability grants.
    Grants,
    /// The configured catalog endpoint and its reachability.
    Catalog,
    /// Versions of the software, the firmware and the platform release.
    Platform,
    /// Recent platform errors, read-only.
    Diagnostics,
}

impl SettingsPage {
    /// Every page, in tab order.
    pub const ALL: [SettingsPage; 6] = [
        SettingsPage::Apps,
        SettingsPage::Storage,
        SettingsPage::Grants,
        SettingsPage::Catalog,
        SettingsPage::Platform,
        SettingsPage::Diagnostics,
    ];

    /// Where the page's tab stands.
    pub open spec fn place(self) -> int {
        match self {
            SettingsPage::Apps => 0,
            SettingsPage::Storage => 1,
            SettingsPage::Grants => 2,
            SettingsPage::Catalog => 3,
            SettingsPage::Platform => 4,
            SettingsPage::Diagnostics => 5,
        }
    }

    /// Where the page's tab stands.
    pub fn tab_index(self) -> (index: usize)
        ensures
            index == self.place(),
            index < 6,
    {
        match self {
            SettingsPage::Apps => 0,
            SettingsPage::Storage => 1,
            SettingsPage::Grants => 2,
            SettingsPage::Catalog => 3,
            SettingsPage::Platform => 4,
            SettingsPage::Diagnostics => 5,
        }
    }

    /// The page whose tab stands at `index`.
    pub fn at_tab(index: usize) -> (page: Option<Self>)
        ensures
            page is Some <==> index < 6,
            page is Some ==> page->0.place() == index,
    {
        let pages = SettingsPage::ALL;
        if index < 6 {
            Some(pages[index])
        } else {
            None
        }
    }

    /// The short label drawn on its tab.
    pub fn tab_label(self) -> (label: &'static str)
        ensures
            label@ == (match self {
                SettingsPage::Apps => "APPS"@,
                SettingsPage::Storage => "STORAGE"@,
                SettingsPage::Grants => "GRANTS"@,
                SettingsPage::Catalog => "CATALOG"@,
                SettingsPage::Platform => "PLATFORM"@,
                SettingsPage::Diagnostics => "LOGS"@,
            }),
    {
        match self {
            SettingsPage::Apps => "APPS",
            SettingsPage::Storage => "STORAGE",
            SettingsPage::Grants => "GRANTS",
            SettingsPage::Catalog => "CATALOG",
            SettingsPage::Platform => "PLATFORM",
            SettingsPage::Diagnostics => "LOGS",
        }
    }

    /// The heading drawn at the top of its content.
    pub fn heading(self) -> (heading: &'static str)
        ensures
            heading@ == (match self {
                SettingsPage::Apps => "INSTALLED APPS"@,
                SettingsPage::Storage => "STORAGE"@,
                SettingsPage::Grants => "GRANTS"@,
                SettingsPage::Catalog => "CATALOG"@,
                SettingsPage::Platform => "PLATFORM"@,
                SettingsPage::Diagnostics => "DIAGNOSTICS"@,
            }),
    {
        match self {
            SettingsPage::Apps => "INSTALLED APPS",
            SettingsPage::Storage => "STORAGE",
            SettingsPage::Grants => "GRANTS",
            SettingsPage::Catalog => "CATALOG",
            SettingsPage::Platform => "PLATFORM",
            SettingsPage::Diagnostics => "DIAGNOSTICS",
        }
    }
}

/// Every page has a tab of its own.
pub proof fn law_tabs_are_distinct(page: SettingsPage, other: SettingsPage)
    requires
        page.place() == other.place(),
    ensures
        page == other,
{
}

} // verus!
