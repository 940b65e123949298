//! Event unification and notification-state management for a desktop agent
//! that watches an audio mixer and a battery service.
//!
//! The library holds the decisions: which notification an event leads to,
//! what it shows, and which on-screen notification it replaces. Talking to
//! the audio server, the message bus and the notification service is left to
//! the program around it, which hands plain values in and takes plain values
//! back.

pub mod content;
pub mod dispatch;
pub mod event;
pub mod notifier;
pub mod notify;
pub mod pulse;
pub mod text;
pub mod upower;

pub use event::{Category, Event};
