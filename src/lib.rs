//! Game-clock and light-source tracking for tabletop sessions: a clock that
//! advances in whole seconds, fires a turn at fixed minute boundaries, burns
//! down light sources, rolls ambient events and encounters, and keeps a
//! per-turn log.
pub mod app;
pub mod clock;
pub mod rng;
pub mod state;
pub mod systems;

pub use app::ShadowtrackApp;
