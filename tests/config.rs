use juke::{Config, KeyBinding};

#[test]
fn test_default_config() {
    let config = Config::default();
    assert_eq!(config.playback.seek_step, 10);
    assert!(config.keys.play_pause.contains("Space"));
    assert!(config.keys.next.contains("n"));
    assert!(config.keys.next.contains("Right"));
}

#[test]
fn test_keybinding_contains() {
    let single = KeyBinding::Single("Space".to_string());
    assert!(single.contains("Space"));
    assert!(!single.contains("Enter"));

    let multiple = KeyBinding::Multiple(vec!["n".to_string(), "Right".to_string()]);
    assert!(multiple.contains("n"));
    assert!(multiple.contains("Right"));
    assert!(!multiple.contains("Left"));
}

#[test]
fn test_validation() {
    let mut config = Config::default();
    config.playback.seek_step = 0;
    config.validate();
    assert_eq!(config.playback.seek_step, 10);
}

#[test]
fn validation_keeps_a_valid_step() {
    let mut config = Config::default();
    config.playback.seek_step = 3;
    config.validate();
    assert_eq!(config.playback.seek_step, 3);
}

#[test]
fn binding_keys_in_order() {
    let config = Config::default();
    assert_eq!(config.keys.quit.keys(), vec!["q", "Esc"]);
    assert_eq!(config.keys.help.keys(), vec!["?", "h"]);
    assert_eq!(config.keys.search.keys(), vec!["/"]);
    assert!(!config.keys.shuffle.contains("s"));
    assert!(config.keys.shuffle.contains("S"));
    let empty = KeyBinding::Multiple(Vec::new());
    assert!(empty.keys().is_empty());
    assert!(!empty.contains(""));
}
