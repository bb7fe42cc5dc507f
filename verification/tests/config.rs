use window_native::mac_window::NS_BACKING_STORE_BUFFERED;
use window_native::window_config::{macos_config, MacosWindowConfig};
use window_native::WindowConfig;

#[test]
fn default_is_the_documented_window() {
    let config = WindowConfig::default();
    assert_eq!(config.title, "My App");
    assert_eq!(config.width, 800);
    assert_eq!(config.height, 600);
    assert_eq!(config.position, (0, 0));
    assert_eq!(f64::from_bits(config.position.0), 0.0);
    assert_eq!(f64::from_bits(config.position.1), 0.0);
    assert_eq!(config.backing, 2);
    assert_eq!(config.backing, NS_BACKING_STORE_BUFFERED);
    assert!(config.has_title);
    assert!(config.closable);
    assert!(config.resizable);
    assert!(config.minimizable);
}

#[test]
fn overriding_some_fields_keeps_the_other_defaults() {
    let config = WindowConfig {
        title: String::from("Hello World"),
        width: 1000,
        resizable: false,
        ..WindowConfig::default()
    };
    assert_eq!(config.title, "Hello World");
    assert_eq!(config.width, 1000);
    assert!(!config.resizable);
    let default = WindowConfig::default();
    assert_eq!(config.height, default.height);
    assert_eq!(config.height, 600);
    assert_eq!(config.position, default.position);
    assert_eq!(config.backing, default.backing);
    assert_eq!(config.has_title, default.has_title);
    assert_eq!(config.closable, default.closable);
    assert_eq!(config.minimizable, default.minimizable);
}

fn assert_same_fields(platform: &MacosWindowConfig, source: &WindowConfig) {
    assert_eq!(platform.title, source.title);
    assert_eq!(platform.width, source.width);
    assert_eq!(platform.height, source.height);
    assert_eq!(platform.position, source.position);
    assert_eq!(platform.backing, source.backing);
    assert_eq!(platform.has_title, source.has_title);
    assert_eq!(platform.closable, source.closable);
    assert_eq!(platform.resizable, source.resizable);
    assert_eq!(platform.minimizable, source.minimizable);
}

#[test]
fn macos_config_copies_every_field() {
    let config = WindowConfig {
        title: String::from("Editor"),
        width: 1280,
        height: 720,
        position: (40.5f64.to_bits(), (-12.25f64).to_bits()),
        backing: 0,
        has_title: true,
        closable: false,
        resizable: true,
        minimizable: false,
    };
    let platform = macos_config(&config);
    assert_same_fields(&platform, &config);
    assert_eq!(platform.title, "Editor");
    assert_eq!(platform.width, 1280);
    assert_eq!(platform.height, 720);
    assert_eq!(f64::from_bits(platform.position.0), 40.5);
    assert_eq!(f64::from_bits(platform.position.1), -12.25);
    assert_eq!(platform.backing, 0);
    assert!(platform.has_title && platform.resizable);
    assert!(!platform.closable && !platform.minimizable);
}

#[test]
fn macos_config_of_the_default() {
    let config = WindowConfig::default();
    let platform = macos_config(&config);
    assert_same_fields(&platform, &config);
    assert_eq!(platform.title, "My App");
}

#[test]
fn macos_config_twice_gives_equal_configs() {
    let config = WindowConfig { title: String::from("Twice"), height: 1, ..WindowConfig::default() };
    let first = macos_config(&config);
    let second = macos_config(&config);
    assert_eq!(first.title, second.title);
    assert_eq!(first.width, second.width);
    assert_eq!(first.height, second.height);
    assert_eq!(first.position, second.position);
    assert_eq!(first.backing, second.backing);
    assert_eq!(first.has_title, second.has_title);
    assert_eq!(first.closable, second.closable);
    assert_eq!(first.resizable, second.resizable);
    assert_eq!(first.minimizable, second.minimizable);
    // The source is left as it was.
    assert_eq!(config.title, "Twice");
    assert_eq!(config.height, 1);
}

#[test]
fn macos_config_forwards_unvalidated_values() {
    let config = WindowConfig {
        title: String::new(),
        width: 0,
        height: 0,
        backing: 255,
        ..WindowConfig::default()
    };
    let platform = macos_config(&config);
    assert_eq!(platform.title, "");
    assert_eq!(platform.width, 0);
    assert_eq!(platform.height, 0);
    assert_eq!(platform.backing, 255);
}

#[test]
fn macos_config_keeps_a_title_with_nul() {
    let config = WindowConfig { title: String::from("a\0b"), ..WindowConfig::default() };
    let platform = macos_config(&config);
    assert_eq!(platform.title, "a\0b");
    assert_eq!(platform.title.len(), 3);
}
