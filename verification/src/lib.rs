//! Event routing core of a two-panel terminal file manager.
//!
//! Raw input and signal events are resolved into one [`app::Action`] per tick,
//! bus messages are broadcast to every component in a fixed order, and a single
//! dialog slot is opened and closed in reaction to them.

pub mod app;
pub mod component;
pub mod config;
pub mod fm;
pub mod layout;
