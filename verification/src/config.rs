//! The editor's persisted user settings and their default values.

use vstd::prelude::*;

verus! {

/// The user settings the editor persists between sessions.
#[derive(Debug, Clone)]
pub struct EulerConfig {
    pub compiler: String,
    pub auto_save: bool,
    pub theme: String,
    pub ui_font: String,
    pub code_font: String,
    pub debounce_ms: u64,
    pub vim_mode: bool,
    pub relative_line_numbers: bool,
    pub show_line_numbers: bool,
    pub split_orientation: String,
    pub sidebar_visible: bool,
}

/// Default for settings that are on unless turned off.
pub fn default_true() -> (b: bool)
    ensures
        b == true,
{
    true
}

/// Default orientation of the editor/preview split.
pub fn default_split_orientation() -> (s: String)
    ensures
        s@ == "horizontal"@,
{
    String::from_str("horizontal")
}

/// Default font of the user interface.
pub fn default_ui_font() -> (s: String)
    ensures
        s@ == "Geist"@,
{
    String::from_str("Geist")
}

/// Default font of the code editor.
pub fn default_code_font() -> (s: String)
    ensures
        s@ == "Geist Mono"@,
{
    String::from_str("Geist Mono")
}

impl Default for EulerConfig {
    /// The settings a fresh installation starts from.
    fn default() -> (c: Self)
        ensures
            c.compiler@ == "pdflatex"@,
            c.auto_save == true,
            c.theme@ == "vercel-dark"@,
            c.ui_font@ == "Geist"@,
            c.code_font@ == "Geist Mono"@,
            c.debounce_ms == 800,
            c.vim_mode == false,
            c.relative_line_numbers == false,
            c.show_line_numbers == true,
            c.split_orientation@ == "horizontal"@,
            c.sidebar_visible == false,
    {
        EulerConfig {
            compiler: String::from_str("pdflatex"),
            auto_save: true,
            theme: String::from_str("vercel-dark"),
            ui_font: default_ui_font(),
            code_font: default_code_font(),
            debounce_ms: 800,
            vim_mode: false,
            relative_line_numbers: false,
            show_line_numbers: true,
            split_orientation: default_split_orientation(),
            sidebar_visible: false,
        }
    }
}

} // verus!
