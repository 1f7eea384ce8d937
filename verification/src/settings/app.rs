//! The Settings application's state: what to ask the host, what its answers
//! mean, and how much of the panel a frame changes.

use vstd::prelude::*;

use crate::action::Action;
use crate::damage::Damage;
use crate::settings::host::HostOpError;
use crate::settings::nav::SettingsPage;
use crate::settings::screen::{
    filed, is_loading, pressed, same_facts, AdminQuery, AdminValue, KindView, SettingsHits,
    SettingsScreen, SettingsStep,
};

verus! {

/// What a frame showed, of what decides how much of the panel the next one
/// changes.
#[derive(Debug, Clone, Copy, PartialEq, Eq, Structural)]
pub struct Painted {
    /// Which page.
    pub page: SettingsPage,
    /// Whether a dialog was over it.
    pub confirming: bool,
}

/// A part of the screen that a page change touches.
#[derive(Debug, Clone, Copy, PartialEq, Eq, Structural)]
pub enum Region {
    /// One tab.
    Tab(SettingsPage),
    /// Everything below the tabs.
    BelowTabs,
}

/// What changed between two frames, where `tabs` tabs were drawn. Everything,
/// for a first frame and for a dialog on either side; the two tabs whose
/// highlight moved and what is below, for a page change; otherwise nothing.
pub open spec fn changed_between(
    previous: Option<Painted>,
    now: Painted,
    tabs: int,
) -> Option<Seq<Region>> {
    if previous is None || previous->0.confirming || now.confirming {
        None
    } else if previous->0.page == now.page {
        Some(Seq::empty())
    } else if previous->0.page.place() < tabs && now.page.place() < tabs {
        Some(seq![Region::Tab(previous->0.page), Region::Tab(now.page), Region::BelowTabs])
    } else {
        None
    }
}

/// The Settings app.
#[derive(Debug)]
pub struct SettingsApp {
    /// What the screen shows.
    pub screen: SettingsScreen,
    /// Whether the launch reads have been sent yet.
    pub asked: bool,
    /// What the last frame drawn showed, or `None` when the next frame has to
    /// be treated as the first one.
    pub painted: Option<Painted>,
    /// What the frame just drawn changed.
    pub damage: Damage<Region>,
}

/// What an answer calls for.
#[derive(Debug, PartialEq, Eq)]
pub struct Answered {
    /// What to ask the platform for.
    pub action: Action,
    /// The refusal to warn about, if a write was refused.
    pub refused: Option<HostOpError>,
    /// Whether everything is to be read again, because a write landed.
    pub reread: bool,
}

/// How a write went, or `None` for the answer to a read.
pub open spec fn outcome_of(value: AdminValue) -> Option<Result<(), HostOpError>> {
    match value {
        AdminValue::Rollback(result) => Some(result),
        AdminValue::Uninstall(result) => Some(result),
        AdminValue::RevokeGrant(result) => Some(result),
        _ => None,
    }
}

/// Every read this app asks for at launch and on resume.
pub fn reads() -> (queries: Vec<AdminQuery>)
    ensures
        queries@ == seq![
            AdminQuery::InstalledApps,
            AdminQuery::StorageUsage,
            AdminQuery::Grants,
            AdminQuery::CatalogStatus,
            AdminQuery::PlatformInfo,
            AdminQuery::Diagnostics,
        ],
{
    let mut queries: Vec<AdminQuery> = Vec::new();
    queries.push(AdminQuery::InstalledApps);
    queries.push(AdminQuery::StorageUsage);
    queries.push(AdminQuery::Grants);
    queries.push(AdminQuery::CatalogStatus);
    queries.push(AdminQuery::PlatformInfo);
    queries.push(AdminQuery::Diagnostics);
    assert(queries@ =~= seq![
        AdminQuery::InstalledApps,
        AdminQuery::StorageUsage,
        AdminQuery::Grants,
        AdminQuery::CatalogStatus,
        AdminQuery::PlatformInfo,
        AdminQuery::Diagnostics,
    ]);
    queries
}

/// What an optional query is about, where it is a write.
pub open spec fn write_view(query: Option<AdminQuery>) -> Option<KindView> {
    match query {
        Some(AdminQuery::Rollback { app }) => Some(KindView::Rollback(app@)),
        Some(AdminQuery::Uninstall { app }) => Some(KindView::Uninstall(app@)),
        Some(AdminQuery::RevokeGrant { app, capability }) => Some(
            KindView::Revoke(app@, capability.name@),
        ),
        _ => None,
    }
}

impl SettingsApp {
    /// Builds Settings showing nothing until the host answers.
    pub fn new(version: &str) -> (app: Self)
        ensures
            is_loading(app.screen, version@),
            !app.asked,
            app.painted is None,
            app.damage@ is None,
    {
        Self {
            screen: SettingsScreen::loading(version),
            asked: false,
            painted: None,
            damage: Damage::Full,
        }
    }

    /// The screen this app is driving.
    pub fn screen(&self) -> (screen: &SettingsScreen)
        ensures
            *screen == self.screen,
    {
        &self.screen
    }

    /// What changed between `previous` and the frame just drawn as `now`.
    pub fn damage_between(previous: Option<Painted>, now: Painted, tabs: usize) -> (damage: Damage<
        Region,
    >)
        ensures
            damage@ == changed_between(previous, now, tabs as int),
    {
        let previous = match previous {
            Some(previous) => previous,
            None => {
                return Damage::Full;
            },
        };
        if previous.confirming || now.confirming {
            return Damage::Full;
        }
        let mut regions: Vec<Region> = Vec::new();
        if previous.page == now.page {
            assert(regions@ =~= Seq::<Region>::empty());
            return Damage::Regions(regions);
        }
        if previous.page.tab_index() >= tabs || now.page.tab_index() >= tabs {
            // A strip that did not draw the tabs this app knows about is not
            // something to guess about: repaint everything.
            return Damage::Full;
        }
        regions.push(Region::Tab(previous.page));
        regions.push(Region::Tab(now.page));
        regions.push(Region::BelowTabs);
        assert(regions@ =~= seq![
            Region::Tab(previous.page),
            Region::Tab(now.page),
            Region::BelowTabs,
        ]);
        Damage::Regions(regions)
    }

    /// Notes that a frame was drawn with `tabs` tabs, and says whether the
    /// launch reads are to be sent, which they are once.
    pub fn drawn(&mut self, tabs: usize) -> (ask: bool)
        ensures
            ask == !old(self).asked,
            final(self).asked,
            final(self).screen == old(self).screen,
            final(self).painted == Some(
                Painted {
                    page: old(self).screen.page,
                    confirming: old(self).screen.pending is Some,
                },
            ),
            final(self).damage@ == changed_between(
                old(self).painted,
                final(self).painted->0,
                tabs as int,
            ),
    {
        let ask = !self.asked;
        self.asked = true;
        let now = Painted { page: self.screen.page, confirming: self.screen.is_confirming() };
        self.damage = Self::damage_between(self.painted, now, tabs);
        self.painted = Some(now);
        ask
    }

    /// Handles a pointer event: what to ask the platform for, and the write to
    /// ask the host for.
    pub fn press(&mut self, hits: SettingsHits) -> (answer: (Action, Option<AdminQuery>))
        ensures
            (SettingsStep {
                screen: final(self).screen.state(),
                action: answer.0,
                admin: write_view(answer.1),
            }) == pressed(old(self).screen.state(), hits),
            same_facts(final(self).screen, old(self).screen),
            answer.1 is Some <==> pressed(old(self).screen.state(), hits).admin is Some,
            final(self).asked == old(self).asked,
            final(self).painted == old(self).painted,
            final(self).damage == old(self).damage,
    {
        let press = self.screen.press(hits);
        let query = match press.admin {
            Some(kind) => Some(kind.into_query()),
            None => None,
        };
        (press.action, query)
    }

    /// Handles coming back: whatever is on the glass, the next frame is a first
    /// one, and everything is to be read again.
    pub fn resumed(&mut self) -> (action: Action)
        ensures
            action == Action::Redraw,
            final(self).painted is None,
            final(self).screen == old(self).screen,
            final(self).asked == old(self).asked,
            final(self).damage == old(self).damage,
    {
        self.painted = None;
        Action::Redraw
    }

    /// Handles an answer of the host. A write that landed, whichever way, calls
    /// for reading everything it could have changed again.
    pub fn answered(&mut self, value: AdminValue) -> (answered: Answered)
        ensures
            final(self).screen == filed(old(self).screen, value),
            answered.action == Action::Redraw,
            answered.reread == (outcome_of(value) is Some),
            answered.refused == (match outcome_of(value) {
                Some(Err(error)) => Some(error),
                _ => None,
            }),
            final(self).asked == old(self).asked,
            final(self).painted == old(self).painted,
            final(self).damage == old(self).damage,
    {
        match value {
            AdminValue::Rollback(result) | AdminValue::Uninstall(result)
            | AdminValue::RevokeGrant(result) => {
                let refused = match result {
                    Ok(()) => None,
                    Err(error) => Some(error),
                };
                Answered { action: Action::Redraw, refused, reread: true }
            },
            read => {
                self.screen.apply(read);
                Answered { action: Action::Redraw, refused: None, reread: false }
            },
        }
    }
}

/// A frame after one that showed the same page, with no dialog on either, is
/// claimed to change nothing.
pub proof fn law_unchanged_frame_claims_nothing(painted: Painted, tabs: int)
    requires
        !painted.confirming,
    ensures
        changed_between(Some(painted), painted, tabs) == Some(Seq::<Region>::empty()),
{
}

/// Opening or closing a dialog claims the whole panel.
pub proof fn law_dialog_claims_everything(previous: Painted, now: Painted, tabs: int)
    requires
        previous.confirming || now.confirming,
    ensures
        changed_between(Some(previous), now, tabs) is None,
{
}

} // verus!
