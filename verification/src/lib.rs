//! Embeds a native JavaScript runtime in the host process: a single-shot
//! execution guard, argument marshalling for the foreign start call,
//! translation of foreign exit reports into structured errors, and a
//! one-shot slot for the initialization callback.

pub mod args;
pub mod callback;
pub mod error;
pub mod lifecycle;
