//! A tap-tempo estimation library.
//!
//! A user taps a key in rhythm; the library keeps a bounded, time-ordered
//! window of hit timestamps and estimates the implied tempo (beats per
//! minute) from the mean interval between the retained hits.
//!
//! Timestamps are opaque monotonic instants measured in nanoseconds and are
//! supplied by the caller, so the estimator can be driven by a synthetic
//! clock as well as by a real one.

pub mod config;
pub mod input;
pub mod tempo;
pub mod window;

pub use config::Config;
pub use config::idle_expired;
pub use input::Action;
pub use input::KeyInput;
pub use input::handle_input;
pub use tempo::tempo_scaled;
pub use window::RegisteredHits;
