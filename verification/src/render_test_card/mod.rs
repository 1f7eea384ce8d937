//! The render test card: sections that settle what the panel can do, and what
//! a tap on them changes.

pub mod laws;
pub mod nav;
pub mod screen;
pub mod sections;

pub use nav::Section;
pub use screen::{press, CardHits, Press, Region, RenderTestCardScreen};
