//! The sections of the card that hold state or compute what they show.

pub mod colour;
pub mod damage;
pub mod geometry;
pub mod ghosting;
pub mod waveform;
