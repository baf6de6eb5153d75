//! The read-only colour configuration that every component is built with.

use vstd::prelude::*;

verus! {

/// A terminal colour of `ratatui`, carried through as it is.
#[verifier::external_type_specification]
#[verifier::external_body]
pub struct ExColor(ratatui::style::Color);

/// Colours of the user interface.
#[derive(Debug, Copy, Clone)]
pub struct Ui {
    pub hotkey_fg: ratatui::style::Color,
    pub hotkey_bg: ratatui::style::Color,
    pub selected_fg: ratatui::style::Color,
    pub selected_bg: ratatui::style::Color,
}

/// The sixteen-colour palette used for syntax highlighting.
#[derive(Debug, Copy, Clone)]
pub struct Highlight {
    pub base00: ratatui::style::Color,
    pub base03: ratatui::style::Color,
    pub base05: ratatui::style::Color,
    pub base08: ratatui::style::Color,
    pub base09: ratatui::style::Color,
    pub base0a: ratatui::style::Color,
    pub base0b: ratatui::style::Color,
    pub base0c: ratatui::style::Color,
    pub base0d: ratatui::style::Color,
    pub base0e: ratatui::style::Color,
    pub base0f: ratatui::style::Color,
}

/// The whole configuration.
#[derive(Debug, Copy, Clone)]
pub struct Config {
    pub ui: Ui,
    pub highlight: Highlight,
}

} // verus!
