//! What of the glass a frame changes.

use vstd::prelude::*;

verus! {

/// What of the glass changed, in the regions a screen names.
///
/// Claiming less than changed leaves a stale rectangle on the panel, so when in
/// doubt a screen claims all of it.
#[derive(Debug, Clone, PartialEq, Eq)]
pub enum Damage<R> {
    /// These regions and nothing else.
    Regions(Vec<R>),
    /// Everything.
    Full,
}

impl<R> Damage<R> {
    /// The regions that changed, or `None` for everything.
    pub open spec fn view(&self) -> Option<Seq<R>> {
        match self {
            Damage::Regions(regions) => Some(regions@),
            Damage::Full => None,
        }
    }
}

} // verus!
