//! The verified core of Hardwave Spotlight, a concert lightshow plugin that
//! analyses audio and drives a reactive light show.
//!
//! The floating-point signal processing runs in the plugin; this library holds
//! the state it is organised around: the frames and histories of samples and
//! energies, the counters that pace periodic work, the cooldowns of the drum
//! triggers, the section state machine, the parameter names and the stored
//! sign-in token.

pub mod auth;
pub mod beat;
pub mod frame;
pub mod onset;
pub mod params;
pub mod ring;
pub mod schedule;
pub mod section;
