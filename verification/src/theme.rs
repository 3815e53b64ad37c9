//! The editor's built-in colour themes as plain data: a theme's identifier,
//! its display name, and its named colours. Persisting a theme to disk, and
//! the JSON shape it is stored in, live with the embedding application.

use vstd::prelude::*;

verus! {

/// The named colours of one theme.
#[derive(Debug, Clone)]
pub struct ThemeColors {
    pub bg_primary: String,
    pub bg_secondary: String,
    pub bg_tertiary: String,
    pub border: String,
    pub text_primary: String,
    pub text_secondary: String,
    pub text_muted: String,
    pub accent: String,
    pub error: String,
    pub success: String,
    pub warning: String,
}

/// One colour theme: its identifier, the name shown to the user, and its
/// colours.
#[derive(Debug, Clone)]
pub struct Theme {
    pub name: String,
    pub display_name: String,
    pub colors: ThemeColors,
}

/// The built-in dark theme a fresh installation starts from.
pub fn default_dark_theme() -> (t: Theme)
    ensures
        t.name@ == "vercel-dark"@,
        t.display_name@ == "Vercel Dark"@,
        t.colors.bg_primary@ == "#0a0a0a"@,
        t.colors.bg_secondary@ == "#111111"@,
        t.colors.bg_tertiary@ == "#1a1a1a"@,
        t.colors.border@ == "#2e2e2e"@,
        t.colors.text_primary@ == "#ededed"@,
        t.colors.text_secondary@ == "#a1a1a1"@,
        t.colors.text_muted@ == "#666666"@,
        t.colors.accent@ == "#ffffff"@,
        t.colors.error@ == "#ff6369"@,
        t.colors.success@ == "#50e3c2"@,
        t.colors.warning@ == "#f5a623"@,
{
    Theme {
        name: String::from_str("vercel-dark"),
        display_name: String::from_str("Vercel Dark"),
        colors: ThemeColors {
            bg_primary: String::from_str("#0a0a0a"),
            bg_secondary: String::from_str("#111111"),
            bg_tertiary: String::from_str("#1a1a1a"),
            border: String::from_str("#2e2e2e"),
            text_primary: String::from_str("#ededed"),
            text_secondary: String::from_str("#a1a1a1"),
            text_muted: String::from_str("#666666"),
            accent: String::from_str("#ffffff"),
            error: String::from_str("#ff6369"),
            success: String::from_str("#50e3c2"),
            warning: String::from_str("#f5a623"),
        },
    }
}

/// The built-in light theme.
pub fn vercel_light_theme() -> (t: Theme)
    ensures
        t.name@ == "vercel-light"@,
        t.display_name@ == "Vercel Light"@,
        t.colors.bg_primary@ == "#e5e5e5"@,
        t.colors.bg_secondary@ == "#f4f4f5"@,
        t.colors.bg_tertiary@ == "#d9d9d9"@,
        t.colors.border@ == "#d9d9d9"@,
        t.colors.text_primary@ == "#09090b"@,
        t.colors.text_secondary@ == "#666666"@,
        t.colors.text_muted@ == "#a3a3a3"@,
        t.colors.accent@ == "#0068d6"@,
        t.colors.error@ == "#bd2864"@,
        t.colors.success@ == "#16a34a"@,
        t.colors.warning@ == "#e16009"@,
{
    Theme {
        name: String::from_str("vercel-light"),
        display_name: String::from_str("Vercel Light"),
        colors: ThemeColors {
            bg_primary: String::from_str("#e5e5e5"),
            bg_secondary: String::from_str("#f4f4f5"),
            bg_tertiary: String::from_str("#d9d9d9"),
            border: String::from_str("#d9d9d9"),
            text_primary: String::from_str("#09090b"),
            text_secondary: String::from_str("#666666"),
            text_muted: String::from_str("#a3a3a3"),
            accent: String::from_str("#0068d6"),
            error: String::from_str("#bd2864"),
            success: String::from_str("#16a34a"),
            warning: String::from_str("#e16009"),
        },
    }
}

/// The Catppuccin Latte theme.
pub fn catppuccin_latte_theme() -> (t: Theme)
    ensures
        t.name@ == "catppuccin-latte"@,
        t.display_name@ == "Catppuccin Latte"@,
        t.colors.bg_primary@ == "#eff1f5"@,
        t.colors.bg_secondary@ == "#e6e9ef"@,
        t.colors.bg_tertiary@ == "#ccd0da"@,
        t.colors.border@ == "#bcc0cc"@,
        t.colors.text_primary@ == "#4c4f69"@,
        t.colors.text_secondary@ == "#5c5f77"@,
        t.colors.text_muted@ == "#8c8fa1"@,
        t.colors.accent@ == "#7287fd"@,
        t.colors.error@ == "#d20f39"@,
        t.colors.success@ == "#40a02b"@,
        t.colors.warning@ == "#df8e1d"@,
{
    Theme {
        name: String::from_str("catppuccin-latte"),
        display_name: String::from_str("Catppuccin Latte"),
        colors: ThemeColors {
            bg_primary: String::from_str("#eff1f5"),
            bg_secondary: String::from_str("#e6e9ef"),
            bg_tertiary: String::from_str("#ccd0da"),
            border: String::from_str("#bcc0cc"),
            text_primary: String::from_str("#4c4f69"),
            text_secondary: String::from_str("#5c5f77"),
            text_muted: String::from_str("#8c8fa1"),
            accent: String::from_str("#7287fd"),
            error: String::from_str("#d20f39"),
            success: String::from_str("#40a02b"),
            warning: String::from_str("#df8e1d"),
        },
    }
}

/// The Catppuccin Frappé theme.
pub fn catppuccin_frappe_theme() -> (t: Theme)
    ensures
        t.name@ == "catppuccin-frappe"@,
        t.display_name@ == "Catppuccin Frappé"@,
        t.colors.bg_primary@ == "#303446"@,
        t.colors.bg_secondary@ == "#292c3c"@,
        t.colors.bg_tertiary@ == "#414559"@,
        t.colors.border@ == "#51576d"@,
        t.colors.text_primary@ == "#c6d0f5"@,
        t.colors.text_secondary@ == "#b5bfe2"@,
        t.colors.text_muted@ == "#838ba7"@,
        t.colors.accent@ == "#babbf1"@,
        t.colors.error@ == "#e78284"@,
        t.colors.success@ == "#a6d189"@,
        t.colors.warning@ == "#e5c890"@,
{
    Theme {
        name: String::from_str("catppuccin-frappe"),
        display_name: String::from_str("Catppuccin Frappé"),
        colors: ThemeColors {
            bg_primary: String::from_str("#303446"),
            bg_secondary: String::from_str("#292c3c"),
            bg_tertiary: String::from_str("#414559"),
            border: String::from_str("#51576d"),
            text_primary: String::from_str("#c6d0f5"),
            text_secondary: String::from_str("#b5bfe2"),
            text_muted: String::from_str("#838ba7"),
            accent: String::from_str("#babbf1"),
            error: String::from_str("#e78284"),
            success: String::from_str("#a6d189"),
            warning: String::from_str("#e5c890"),
        },
    }
}

/// The Catppuccin Macchiato theme.
pub fn catppuccin_macchiato_theme() -> (t: Theme)
    ensures
        t.name@ == "catppuccin-macchiato"@,
        t.display_name@ == "Catppuccin Macchiato"@,
        t.colors.bg_primary@ == "#24273a"@,
        t.colors.bg_secondary@ == "#1e2030"@,
        t.colors.bg_tertiary@ == "#363a4f"@,
        t.colors.border@ == "#494d64"@,
        t.colors.text_primary@ == "#cad3f5"@,
        t.colors.text_secondary@ == "#b8c0e0"@,
        t.colors.text_muted@ == "#8087a2"@,
        t.colors.accent@ == "#b7bdf8"@,
        t.colors.error@ == "#ed8796"@,
        t.colors.success@ == "#a6da95"@,
        t.colors.warning@ == "#eed49f"@,
{
    Theme {
        name: String::from_str("catppuccin-macchiato"),
        display_name: String::from_str("Catppuccin Macchiato"),
        colors: ThemeColors {
            bg_primary: String::from_str("#24273a"),
            bg_secondary: String::from_str("#1e2030"),
            bg_tertiary: String::from_str("#363a4f"),
            border: String::from_str("#494d64"),
            text_primary: String::from_str("#cad3f5"),
            text_secondary: String::from_str("#b8c0e0"),
            text_muted: String::from_str("#8087a2"),
            accent: String::from_str("#b7bdf8"),
            error: String::from_str("#ed8796"),
            success: String::from_str("#a6da95"),
            warning: String::from_str("#eed49f"),
        },
    }
}

/// The Catppuccin Mocha theme.
pub fn catppuccin_mocha_theme() -> (t: Theme)
    ensures
        t.name@ == "catppuccin-mocha"@,
        t.display_name@ == "Catppuccin Mocha"@,
        t.colors.bg_primary@ == "#1e1e2e"@,
        t.colors.bg_secondary@ == "#181825"@,
        t.colors.bg_tertiary@ == "#313244"@,
        t.colors.border@ == "#45475a"@,
        t.colors.text_primary@ == "#cdd6f4"@,
        t.colors.text_secondary@ == "#bac2de"@,
        t.colors.text_muted@ == "#7f849c"@,
        t.colors.accent@ == "#b4befe"@,
        t.colors.error@ == "#f38ba8"@,
        t.colors.success@ == "#a6e3a1"@,
        t.colors.warning@ == "#f9e2af"@,
{
    Theme {
        name: String::from_str("catppuccin-mocha"),
        display_name: String::from_str("Catppuccin Mocha"),
        colors: ThemeColors {
            bg_primary: String::from_str("#1e1e2e"),
            bg_secondary: String::from_str("#181825"),
            bg_tertiary: String::from_str("#313244"),
            border: String::from_str("#45475a"),
            text_primary: String::from_str("#cdd6f4"),
            text_secondary: String::from_str("#bac2de"),
            text_muted: String::from_str("#7f849c"),
            accent: String::from_str("#b4befe"),
            error: String::from_str("#f38ba8"),
            success: String::from_str("#a6e3a1"),
            warning: String::from_str("#f9e2af"),
        },
    }
}

} // verus!
