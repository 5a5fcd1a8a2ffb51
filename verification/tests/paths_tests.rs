//! Resolution of the configuration file's location.

use apply_patch::dispatch::EXIT_FAILURE;
use apply_patch::dispatch::path_undetermined_message;
use apply_patch::paths::config_path;
use apply_patch::paths::temp_path;

#[test]
fn override_variable_is_taken_verbatim() {
    let r = config_path(
        Some("/etc/gate.json".to_string()),
        Some("/xdg".to_string()),
        Some("/home/u".to_string()),
    );
    assert_eq!(r, Some("/etc/gate.json".to_string()));
}

#[test]
fn config_home_beats_home_directory() {
    let r = config_path(None, Some("/xdg".to_string()), Some("/home/u".to_string()));
    assert_eq!(r, Some("/xdg/.apply_patch/config.json".to_string()));
}

#[test]
fn home_directory_is_the_fallback() {
    let r = config_path(None, None, Some("/home/u".to_string()));
    assert_eq!(r, Some("/home/u/.apply_patch/config.json".to_string()));
}

#[test]
fn nothing_set_resolves_nowhere() {
    assert_eq!(config_path(None, None, None), None);
    let text = path_undetermined_message();
    assert!(text.contains("could not determine"));
    assert_eq!(text, "Error: could not determine config path (HOME/XDG_CONFIG_HOME not set).");
    assert_eq!(EXIT_FAILURE, 1);
}

#[test]
fn temp_file_sits_beside_the_target() {
    assert_eq!(temp_path("/home/u/.apply_patch/config.json"), "/home/u/.apply_patch/config.json.tmp");
    assert_eq!(temp_path("plain"), "plain.tmp");
}
