//! The destructive-action confirmation.
//!
//! Uninstall, rollback and revoke cannot be undone once asked for. Every one
//! of them builds one of these before the host is asked at all, and states
//! plainly what will be lost.

use vstd::prelude::*;
use vstd::string::*;

use crate::text::texts;

verus! {

/// What to ask, and what pressing through it does.
#[derive(Debug, Clone, PartialEq, Eq)]
pub struct ConfirmDialog {
    /// What is about to happen.
    pub title: String,
    /// What it costs, one statement per line.
    pub lines: Vec<String>,
    /// The label on the button that goes through with it.
    pub confirm_label: String,
}

/// What a dialog says.
pub struct DialogView {
    /// What is about to happen.
    pub title: Seq<char>,
    /// What it costs.
    pub lines: Seq<Seq<char>>,
    /// The label on the button that goes through with it.
    pub confirm_label: Seq<char>,
}

impl ConfirmDialog {
    /// What the dialog says.
    pub open spec fn view(&self) -> DialogView {
        DialogView {
            title: self.title@,
            lines: texts(self.lines@),
            confirm_label: self.confirm_label@,
        }
    }

    /// Builds a dialog.
    pub fn new(title: String, lines: Vec<String>, confirm_label: &str) -> (dialog: Self)
        ensures
            dialog@ == (DialogView {
                title: title@,
                lines: texts(lines@),
                confirm_label: confirm_label@,
            }),
    {
        Self { title, lines, confirm_label: confirm_label.to_owned() }
    }
}

} // verus!
