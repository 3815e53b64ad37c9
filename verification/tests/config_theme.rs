use euler_core::config::{
    default_code_font, default_split_orientation, default_true, default_ui_font, EulerConfig,
};
use euler_core::theme::{
    catppuccin_frappe_theme, catppuccin_latte_theme, catppuccin_macchiato_theme,
    catppuccin_mocha_theme, default_dark_theme, vercel_light_theme,
};

#[test]
fn default_settings_match_a_fresh_installation() {
    let c = EulerConfig::default();
    assert_eq!(c.compiler, "pdflatex");
    assert!(c.auto_save);
    assert_eq!(c.theme, "vercel-dark");
    assert_eq!(c.ui_font, "Geist");
    assert_eq!(c.code_font, "Geist Mono");
    assert_eq!(c.debounce_ms, 800);
    assert!(!c.vim_mode);
    assert!(!c.relative_line_numbers);
    assert!(c.show_line_numbers);
    assert_eq!(c.split_orientation, "horizontal");
    assert!(!c.sidebar_visible);
}

#[test]
fn field_defaults_match_their_helpers() {
    assert!(default_true());
    assert_eq!(default_split_orientation(), "horizontal");
    assert_eq!(default_ui_font(), "Geist");
    assert_eq!(default_code_font(), "Geist Mono");
}

#[test]
fn dark_theme_holds_its_colors() {
    let t = default_dark_theme();
    assert_eq!(t.name, "vercel-dark");
    assert_eq!(t.display_name, "Vercel Dark");
    assert_eq!(t.colors.bg_primary, "#0a0a0a");
    assert_eq!(t.colors.accent, "#ffffff");
    assert_eq!(t.colors.error, "#ff6369");
    assert_eq!(t.colors.warning, "#f5a623");
}

#[test]
fn light_theme_holds_its_colors() {
    let t = vercel_light_theme();
    assert_eq!(t.name, "vercel-light");
    assert_eq!(t.display_name, "Vercel Light");
    assert_eq!(t.colors.bg_primary, "#e5e5e5");
    assert_eq!(t.colors.accent, "#0068d6");
}

#[test]
fn catppuccin_themes_hold_their_identities() {
    let latte = catppuccin_latte_theme();
    assert_eq!(latte.name, "catppuccin-latte");
    assert_eq!(latte.display_name, "Catppuccin Latte");
    assert_eq!(latte.colors.bg_primary, "#eff1f5");

    let frappe = catppuccin_frappe_theme();
    assert_eq!(frappe.name, "catppuccin-frappe");
    assert_eq!(frappe.display_name, "Catppuccin Frapp\u{e9}");
    assert_eq!(frappe.colors.bg_primary, "#303446");

    let macchiato = catppuccin_macchiato_theme();
    assert_eq!(macchiato.name, "catppuccin-macchiato");
    assert_eq!(macchiato.colors.bg_primary, "#24273a");

    let mocha = catppuccin_mocha_theme();
    assert_eq!(mocha.name, "catppuccin-mocha");
    assert_eq!(mocha.colors.bg_primary, "#1e1e2e");
}
