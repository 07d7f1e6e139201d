use ssher::config::{CliThemeConfig, LayoutConfig, LogoConfig, ThemeConfig, UiConfig};

#[test]
fn cli_theme_config_default_values() {
    let config = CliThemeConfig::default();
    assert!(config.enabled);
    assert_eq!(config.header, "Yellow");
    assert_eq!(config.name, "Cyan");
    assert_eq!(config.target, "Green");
    assert_eq!(config.port, "Magenta");
    assert_eq!(config.identity, "Blue");
    assert_eq!(config.tags, "DarkGray");
}

#[test]
fn ui_config_default_values() {
    let config = UiConfig::default();
    assert!(config.logo.enabled);
    assert_eq!(config.logo.lines.len(), 5);
    assert!(config.logo.lines[0].contains("____"));

    assert!(config.layout.show_logo);
    assert!(config.layout.show_search);
    assert!(!config.layout.show_monitor);
    assert!(config.layout.show_help);
    assert!(config.layout.show_status);
    assert_eq!(config.layout.logo_height, 5);
    assert_eq!(config.layout.search_height, 3);

    assert_eq!(config.theme.logo, "Cyan");
    assert_eq!(config.theme.header, "Yellow");
    assert_eq!(config.theme.highlight, "Blue");
    assert_eq!(config.theme.border, "DarkGray");
    assert_eq!(config.theme.help, "Green");
    assert_eq!(config.theme.status, "Magenta");
    assert_eq!(config.theme.text, "White");
}

#[test]
fn logo_config_default_values() {
    let config = LogoConfig::default();
    assert!(config.enabled);
    assert_eq!(config.lines.len(), 5);
}

#[test]
fn layout_config_default_values() {
    let config = LayoutConfig::default();
    assert!(config.show_logo);
    assert!(config.show_search);
    assert!(!config.show_monitor);
    assert!(config.show_help);
    assert!(config.show_status);
    assert_eq!(config.logo_height, 5);
    assert_eq!(config.search_height, 3);
    assert_eq!(config.monitor_height, 5);
    assert_eq!(config.help_height, 2);
    assert_eq!(config.status_height, 1);
}

#[test]
fn theme_config_default_values() {
    let config = ThemeConfig::default();
    assert_eq!(config.logo, "Cyan");
    assert_eq!(config.header, "Yellow");
    assert_eq!(config.highlight, "Blue");
    assert_eq!(config.border, "DarkGray");
    assert_eq!(config.help, "Green");
    assert_eq!(config.status, "Magenta");
    assert_eq!(config.text, "White");
}
