//! Runtime core of a click-through lyrics overlay: the hover/dwell gesture
//! that decides when the overlay captures the mouse, the shared interaction
//! settings it reads, the ingress handlers that turn producer payloads into
//! presentation events, and the font list offered in the settings.

pub mod config;
pub mod events;
pub mod fonts;
pub mod geometry;
pub mod hover;
pub mod ingress;
pub mod payload;
pub mod proofs;
