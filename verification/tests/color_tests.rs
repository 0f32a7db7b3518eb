use gitfetch_rs::colors::{get_ansi_color, hex_to_rgb};
use gitfetch_rs::config::{default_show_date, Config, ConfigManager};
use gitfetch_rs::config::ColorConfig;

#[test]
fn test_color_config_default() {
    let config = ColorConfig::default();

    assert!(!config.level_0.is_empty(), "Level 0 color should not be empty");
    assert!(!config.level_1.is_empty(), "Level 1 color should not be empty");
    assert!(!config.level_2.is_empty(), "Level 2 color should not be empty");
    assert!(!config.level_3.is_empty(), "Level 3 color should not be empty");
    assert!(!config.level_4.is_empty(), "Level 4 color should not be empty");

    // Check hex format
    assert!(config.level_0.starts_with('#'), "Colors should start with #");
    assert_eq!(config.level_0.len(), 7, "Hex colors should be 7 chars");
}

#[test]
fn test_color_config_levels_different() {
    let config = ColorConfig::default();

    // Each level should have different colors
    assert_ne!(config.level_0, config.level_1);
    assert_ne!(config.level_1, config.level_2);
    assert_ne!(config.level_2, config.level_3);
    assert_ne!(config.level_3, config.level_4);
}

#[test]
fn test_get_ansi_color_basic() {
    let colors = ColorConfig::default();

    let ansi = get_ansi_color(&colors.level_0);
    assert!(ansi.is_ok(), "Should return ANSI code for valid hex");

    let color_string = ansi.unwrap();
    assert!(!color_string.is_empty(), "ANSI code should not be empty");
}

#[test]
fn test_get_ansi_color_all_levels() {
    let colors = ColorConfig::default();

    assert!(get_ansi_color(&colors.level_0).is_ok());
    assert!(get_ansi_color(&colors.level_1).is_ok());
    assert!(get_ansi_color(&colors.level_2).is_ok());
    assert!(get_ansi_color(&colors.level_3).is_ok());
    assert!(get_ansi_color(&colors.level_4).is_ok());
}

#[test]
fn test_get_ansi_color_formats() {
    // Test with various valid hex formats
    assert!(get_ansi_color("#ff0000").is_ok());
    assert!(get_ansi_color("00ff00").is_ok());
    assert!(get_ansi_color("#0000ff").is_ok());
}

#[test]
fn test_ansi_color_contains_escape_sequence() {
    let color = get_ansi_color("#ff5733").unwrap();
    assert!(color.starts_with("\x1b[38;2;"));
    assert!(color.ends_with("m"));
}

#[test]
fn hex_to_rgb_reads_components() {
    assert_eq!(hex_to_rgb("#ff5733"), (255, 87, 51));
    assert_eq!(hex_to_rgb("00ff00"), (0, 255, 0));
    assert_eq!(hex_to_rgb("#FFFFFF"), (255, 255, 255));
}

#[test]
fn hex_to_rgb_malformed_defaults_to_zero() {
    assert_eq!(hex_to_rgb(""), (0, 0, 0));
    assert_eq!(hex_to_rgb("#zzff00"), (0, 255, 0));
    assert_eq!(hex_to_rgb("#ff"), (255, 0, 0));
}

#[test]
fn ansi_color_is_exact_truecolor_escape() {
    assert_eq!(get_ansi_color("#ff5733").unwrap(), "\x1b[38;2;255;87;51m");
    assert_eq!(get_ansi_color("#000000").unwrap(), "\x1b[38;2;0;0;0m");
}

#[test]
fn config_manager_accessors_round_trip() {
    let mut manager = ConfigManager::from_loaded("config.toml".to_string(), Config::default());
    assert!(!manager.is_initialized());
    assert!(manager.get_provider().is_none());

    manager.set_provider("github".to_string());
    assert!(manager.is_initialized());
    assert_eq!(manager.get_provider(), Some("github"));

    manager.set_provider_url("https://api.github.com".to_string());
    assert_eq!(manager.get_provider_url(), Some("https://api.github.com"));

    manager.set_token("SECRET-REDACTED".to_string());
    assert_eq!(manager.get_token(), Some("SECRET-REDACTED"));

    manager.set_default_username("octocat".to_string());
    assert_eq!(manager.get_default_username(), Some("octocat"));
}

#[test]
fn default_config_keeps_month_ruler_on() {
    assert!(default_show_date());
    let config = Config::default();
    assert!(config.show_date);
    assert_eq!(config.cache_expiry_minutes, 15);
    assert!(config.provider.is_none());
}
