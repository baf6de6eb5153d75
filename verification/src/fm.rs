//! The file manager's orchestrator.

pub mod app;
