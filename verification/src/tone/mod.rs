//! Tone module: the tone character table (`apply` / `strip`) and the rule for
//! which vowel of a nucleus receives the tone (`place`).

pub mod tables;
pub mod placement;

pub use tables::{apply, strip};
pub use placement::place;
