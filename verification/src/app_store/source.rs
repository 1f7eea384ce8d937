//! Why the App Store could not do something, and what to do about it.

use vstd::prelude::*;
use vstd::string::*;

use crate::app_store::inventory::Inventory;
use crate::app_store::screen::Outcome;
use crate::text::push_text;

verus! {

/// What was wrong with a catalog.
#[derive(Debug, Clone, Copy, PartialEq, Eq, Structural)]
pub enum CatalogFault {
    /// It could not be reached.
    Transport,
    /// Its signature was not believed.
    Signature,
    /// It is older than one already seen.
    Rollback,
    /// Its serial number stands still.
    StalledSerial,
    /// Anything else.
    Other,
}

/// What was wrong with an install or a rollback.
#[derive(Debug, Clone, Copy, PartialEq, Eq, Structural)]
pub enum InstallFault {
    /// The app is running.
    Running,
    /// The download has another digest than was signed.
    Digest,
    /// The download has another size than was signed.
    Size,
    /// The version is older than the one installed.
    Downgrade,
    /// There is no previous release.
    NoFallback,
    /// Reading or writing failed.
    Io,
    /// Anything else.
    Other,
}

/// Why the App Store could not do something.
///
/// The message says what happened; the advice says what the person holding the
/// tablet can do about it.
#[derive(Debug, PartialEq, Eq)]
#[non_exhaustive]
#[allow(inconsistent_fields)]
pub enum SourceError {
    /// This build was not granted package management.
    NotPermitted {
        /// Which app asked.
        app: String,
    },
    /// The catalog no longer offers the version that was on screen.
    NotOffered {
        /// Which app.
        app: String,
        /// Which version.
        version: String,
    },
    /// The catalog could not be read or believed.
    Catalog {
        /// What was wrong.
        fault: CatalogFault,
        /// What it said.
        message: String,
    },
    /// An install or rollback failed.
    Install {
        /// What was wrong.
        fault: InstallFault,
        /// What it said.
        message: String,
    },
    /// The store could not be read or written.
    Store {
        /// What it said.
        message: String,
    },
}

impl SourceError {
    /// What the person can actually do about it.
    pub open spec fn advice_text(self) -> Seq<char> {
        match self {
            SourceError::NotPermitted { app } =>
                "Grant this app `packages` in host policy and reinstall the platform."@,
            SourceError::NotOffered { app, version } => "Refresh the list and try again."@,
            SourceError::Catalog { fault, message } => match fault {
                CatalogFault::Transport =>
                    "The catalog is not reachable. Check the home network; installed apps keep working."@,
                CatalogFault::Signature =>
                    "This was not signed by a key this tablet trusts. Do not install it."@,
                CatalogFault::Rollback | CatalogFault::StalledSerial =>
                    "The catalog is older than one already seen. Republish it before installing."@,
                CatalogFault::Other => "Re-publish the catalog and refresh."@,
            },
            SourceError::Install { fault, message } => match fault {
                InstallFault::Running => "Close the app first, then install the update."@,
                InstallFault::Digest | InstallFault::Size =>
                    "The download did not match what was signed. Try again; nothing was changed."@,
                InstallFault::Downgrade =>
                    "That version is older than the one installed. Use roll back instead."@,
                InstallFault::NoFallback => "There is no previous release to roll back to."@,
                InstallFault::Io => "There may be no room left. Free some space and try again."@,
                InstallFault::Other =>
                    "Nothing was changed. The previous release is still in use."@,
            },
            SourceError::Store { message } =>
                "There may be no room left. Free some space and try again."@,
        }
    }

    /// What happened, in words.
    pub open spec fn message_text(self) -> Seq<char> {
        match self {
            SourceError::NotPermitted { app } => "`"@ + app@
                + "` has not been granted package management"@,
            SourceError::NotOffered { app, version } => "the catalog no longer offers `"@ + app@
                + "` "@ + version@,
            SourceError::Catalog { fault, message } => message@,
            SourceError::Install { fault, message } => message@,
            SourceError::Store { message } => message@,
        }
    }

    /// What the person can actually do about it.
    pub fn advice(&self) -> (advice: &'static str)
        ensures
            advice@ == self.advice_text(),
    {
        match self {
            SourceError::NotPermitted { app: _ } => {
                "Grant this app `packages` in host policy and reinstall the platform."
            },
            SourceError::NotOffered { app: _, version: _ } => "Refresh the list and try again.",
            SourceError::Catalog { fault, message: _ } => match fault {
                CatalogFault::Transport => {
                    "The catalog is not reachable. Check the home network; installed apps keep working."
                },
                CatalogFault::Signature => {
                    "This was not signed by a key this tablet trusts. Do not install it."
                },
                CatalogFault::Rollback | CatalogFault::StalledSerial => {
                    "The catalog is older than one already seen. Republish it before installing."
                },
                CatalogFault::Other => "Re-publish the catalog and refresh.",
            },
            SourceError::Install { fault, message: _ } => match fault {
                InstallFault::Running => "Close the app first, then install the update.",
                InstallFault::Digest | InstallFault::Size => {
                    "The download did not match what was signed. Try again; nothing was changed."
                },
                InstallFault::Downgrade => {
                    "That version is older than the one installed. Use roll back instead."
                },
                InstallFault::NoFallback => "There is no previous release to roll back to.",
                InstallFault::Io => "There may be no room left. Free some space and try again.",
                InstallFault::Other => "Nothing was changed. The previous release is still in use.",
            },
            SourceError::Store { message: _ } => {
                "There may be no room left. Free some space and try again."
            },
        }
    }

    /// What happened, in words.
    pub fn message(&self) -> (message: String)
        ensures
            message@ == self.message_text(),
    {
        match self {
            SourceError::NotPermitted { app } => {
                let mut message = "`".to_owned();
                push_text(&mut message, app.as_str());
                push_text(&mut message, "` has not been granted package management");
                message
            },
            SourceError::NotOffered { app, version } => {
                let mut message = "the catalog no longer offers `".to_owned();
                push_text(&mut message, app.as_str());
                push_text(&mut message, "` ");
                push_text(&mut message, version.as_str());
                message
            },
            SourceError::Catalog { fault: _, message } => message.clone(),
            SourceError::Install { fault: _, message } => message.clone(),
            SourceError::Store { message } => message.clone(),
        }
    }
}

/// Whether an outcome says that a request failed, about which app and why.
pub open spec fn says_failed(outcome: Outcome, about: Option<String>, error: SourceError) -> bool {
    outcome matches Outcome::Failed { app, message, advice } && app == about && message@
        == error.message_text() && advice@ == error.advice_text()
}

/// The outcome a failed request is folded in as.
pub fn failed(app: Option<String>, error: &SourceError) -> (outcome: Outcome)
    ensures
        says_failed(outcome, app, *error),
{
    Outcome::Failed { app, message: error.message(), advice: error.advice() }
}

/// The outcome of a refresh.
pub fn refreshed(answer: Result<Inventory, SourceError>) -> (outcome: Outcome)
    ensures
        match answer {
            Ok(inventory) => outcome matches Outcome::Refreshed(fresh) && *fresh == inventory,
            Err(error) => says_failed(outcome, None, error),
        },
{
    match answer {
        Ok(inventory) => Outcome::Refreshed(Box::new(inventory)),
        Err(error) => failed(None, &error),
    }
}

/// The outcome of fetching an app's notes. That they could not be fetched is no
/// failure of a change to the app.
pub fn fetched(app: String, answer: Result<String, SourceError>) -> (outcome: Outcome)
    ensures
        match answer {
            Ok(text) => outcome == (Outcome::Notes { app, text }),
            Err(error) => outcome matches Outcome::NotesFailed { app: about, message, advice }
                && about == app && message@ == error.message_text() && advice@
                == error.advice_text(),
        },
{
    match answer {
        Ok(text) => Outcome::Notes { app, text },
        Err(error) => Outcome::NotesFailed {
            app,
            message: error.message(),
            advice: error.advice(),
        },
    }
}

/// The outcome of an install, answered with the version that is selected now.
pub fn installed(app: String, answer: Result<String, SourceError>) -> (outcome: Outcome)
    ensures
        match answer {
            Ok(version) => outcome == (Outcome::Installed { app, version }),
            Err(error) => says_failed(outcome, Some(app), error),
        },
{
    match answer {
        Ok(version) => Outcome::Installed { app, version },
        Err(error) => failed(Some(app), &error),
    }
}

/// The outcome of a rollback, answered with the version that is selected now.
pub fn rolled_back(app: String, answer: Result<String, SourceError>) -> (outcome: Outcome)
    ensures
        match answer {
            Ok(version) => outcome == (Outcome::RolledBack { app, version }),
            Err(error) => says_failed(outcome, Some(app), error),
        },
{
    match answer {
        Ok(version) => Outcome::RolledBack { app, version },
        Err(error) => failed(Some(app), &error),
    }
}

/// Lets an app manage packages only where it was granted to.
pub fn check_grant(app: &str, granted: bool) -> (result: Result<(), SourceError>)
    ensures
        result is Ok <==> granted,
        result is Err ==> (result->Err_0 matches SourceError::NotPermitted { app: asking }
            && asking@ == app@),
{
    if granted {
        Ok(())
    } else {
        Err(SourceError::NotPermitted { app: app.to_owned() })
    }
}

/// Lets a version be installed only where the catalog still offers it.
pub fn check_offer(app: &str, version: &str, offered: bool) -> (result: Result<(), SourceError>)
    ensures
        result is Ok <==> offered,
        result is Err ==> (result->Err_0 matches SourceError::NotOffered {
            app: asked,
            version: wanted,
        } && asked@ == app@ && wanted@ == version@),
{
    if offered {
        Ok(())
    } else {
        Err(SourceError::NotOffered { app: app.to_owned(), version: version.to_owned() })
    }
}

} // verus!
