//! A typing-speed trainer's core: the keystroke engine that scores typed keys
//! against a target line, and the sliding window of upcoming lines.

pub mod analytics;
pub mod client;
pub mod decimal;
pub mod errors;
pub mod keys;
pub mod typing;
pub mod typing_laws;
pub mod window;
pub mod window_laws;
