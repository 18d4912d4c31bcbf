use messenger_desktop::theme_manager::{Theme, ThemeManager, ThemePayload};

#[test]
fn test_theme_creation() {
    let theme = ThemePayload {
        name: "Dark".to_string(),
        css: "body { background-color: #18191a; }".to_string(),
    };
    assert_eq!(theme.name, "Dark");
    assert_eq!(theme.css, "body { background-color: #18191a; }");
}

#[test]
fn test_get_themes() {
    let themes = ThemeManager::get_themes();
    assert!(themes.len() > 0);
    assert_eq!(
        themes,
        vec!["light", "dark", "darker", "oled-black", "custom"]
    );
}

#[test]
fn test_set_theme() {
    let mut manager = ThemeManager::new();
    assert_eq!(manager.current_theme_name(), "light");
    let payload = manager.set_theme("dark");
    assert_eq!(payload.name, "dark");
    assert!(payload.css.contains("#1a1a2e"));
    assert_eq!(manager.current_theme_name(), "dark");
    assert_eq!(manager.current_theme(), &Theme::Dark);
}

#[test]
fn test_set_theme_unknown_falls_back_to_light() {
    let mut manager = ThemeManager::new();
    manager.set_theme("dark");
    let payload = manager.set_theme("solarized");
    assert_eq!(manager.current_theme_name(), "light");
    assert!(payload.css.is_empty());
}

#[test]
fn test_set_custom_css() {
    let mut manager = ThemeManager::new();
    let payload = manager.set_custom_css("body { color: red; }".to_string());
    assert_eq!(payload.name, "custom");
    assert_eq!(payload.css, "body { color: red; }");
    assert_eq!(manager.current_theme_name(), "custom");
}

#[test]
fn test_css_per_theme() {
    assert!(ThemeManager::get_css(&Theme::Light).is_empty());
    assert!(ThemeManager::get_css(&Theme::Dark).contains("#1a1a2e"));
    assert!(ThemeManager::get_css(&Theme::Darker).contains("#0d0d1a"));
    assert!(ThemeManager::get_css(&Theme::OledBlack).contains("#000000"));
    assert_eq!(
        ThemeManager::get_css(&Theme::Custom("x".to_string())),
        "x"
    );
}
