//! The argument interpreter, outcome by outcome.

use apply_patch::args::ArgsOutcome;
use apply_patch::args::ConfigUpdate;
use apply_patch::args::UsageError;
use apply_patch::args::interpret_args;
use apply_patch::config::Mode;
use apply_patch::dispatch::usage_error_message;

fn strings(items: &[&str]) -> Vec<String> {
    items.iter().map(|s| s.to_string()).collect()
}

#[test]
fn empty_argv_is_an_empty_patch_list() {
    let r = interpret_args(&strings(&[]));
    assert_eq!(r, ArgsOutcome::Patch(vec![]));
}

#[test]
fn one_positional_is_the_payload_candidate() {
    let r = interpret_args(&strings(&["*** Begin Patch"]));
    assert_eq!(r, ArgsOutcome::Patch(strings(&["*** Begin Patch"])));
}

#[test]
fn several_positionals_are_kept_in_order() {
    let r = interpret_args(&strings(&["one", "two", "three"]));
    assert_eq!(r, ArgsOutcome::Patch(strings(&["one", "two", "three"])));
}

#[test]
fn help_flags_short_circuit() {
    assert_eq!(interpret_args(&strings(&["-h"])), ArgsOutcome::Help);
    assert_eq!(interpret_args(&strings(&["--help"])), ArgsOutcome::Help);
    // Even beside other flags or positionals, help wins once reached.
    assert_eq!(interpret_args(&strings(&["--apply", "-h", "PATCH"])), ArgsOutcome::Help);
}

#[test]
fn show_config_alone_is_a_command() {
    let r = interpret_args(&strings(&["--show-config"]));
    assert_eq!(
        r,
        ArgsOutcome::Command(ConfigUpdate {
            show: true,
            mode: None,
            refuse_message: None,
            warn_message: None,
        })
    );
}

#[test]
fn mode_flag_takes_each_literal() {
    for (lit, mode) in [
        ("apply", Mode::Apply),
        ("refuse", Mode::Refuse),
        ("warn", Mode::Warn),
    ] {
        let r = interpret_args(&strings(&["--mode", lit]));
        assert_eq!(
            r,
            ArgsOutcome::Command(ConfigUpdate {
                show: false,
                mode: Some(mode),
                refuse_message: None,
                warn_message: None,
            })
        );
    }
}

#[test]
fn mode_aliases_match_their_literals() {
    for (flag, mode) in [
        ("--apply", Mode::Apply),
        ("--refuse", Mode::Refuse),
        ("--warn", Mode::Warn),
    ] {
        let r = interpret_args(&strings(&[flag]));
        assert_eq!(
            r,
            ArgsOutcome::Command(ConfigUpdate {
                show: false,
                mode: Some(mode),
                refuse_message: None,
                warn_message: None,
            })
        );
    }
}

#[test]
fn later_mode_flag_wins() {
    let r = interpret_args(&strings(&["--apply", "--warn"]));
    assert_eq!(
        r,
        ArgsOutcome::Command(ConfigUpdate {
            show: false,
            mode: Some(Mode::Warn),
            refuse_message: None,
            warn_message: None,
        })
    );
}

#[test]
fn mode_without_value_is_a_usage_error() {
    let r = interpret_args(&strings(&["--mode"]));
    assert_eq!(r, ArgsOutcome::Usage(UsageError::ModeMissingValue));
    assert_eq!(
        usage_error_message(&UsageError::ModeMissingValue),
        "Error: --mode requires a value."
    );
}

#[test]
fn unknown_mode_value_is_named_in_the_error() {
    let r = interpret_args(&strings(&["--mode", "loud"]));
    assert_eq!(r, ArgsOutcome::Usage(UsageError::InvalidMode("loud".to_string())));
    assert_eq!(
        usage_error_message(&UsageError::InvalidMode("loud".to_string())),
        "Error: invalid --mode value: loud"
    );
}

#[test]
fn set_messages_carry_their_values() {
    let r = interpret_args(&strings(&["--set-refuse-message", "no patching here"]));
    assert_eq!(
        r,
        ArgsOutcome::Command(ConfigUpdate {
            show: false,
            mode: None,
            refuse_message: Some(Some("no patching here".to_string())),
            warn_message: None,
        })
    );
    let r = interpret_args(&strings(&["--set-warn-message", "careful"]));
    assert_eq!(
        r,
        ArgsOutcome::Command(ConfigUpdate {
            show: false,
            mode: None,
            refuse_message: None,
            warn_message: Some(Some("careful".to_string())),
        })
    );
}

#[test]
fn set_messages_without_value_are_usage_errors() {
    assert_eq!(
        interpret_args(&strings(&["--set-refuse-message"])),
        ArgsOutcome::Usage(UsageError::RefuseMessageMissingValue)
    );
    assert_eq!(
        usage_error_message(&UsageError::RefuseMessageMissingValue),
        "Error: --set-refuse-message requires a value."
    );
    assert_eq!(
        interpret_args(&strings(&["--set-warn-message"])),
        ArgsOutcome::Usage(UsageError::WarnMessageMissingValue)
    );
    assert_eq!(
        usage_error_message(&UsageError::WarnMessageMissingValue),
        "Error: --set-warn-message requires a value."
    );
}

#[test]
fn clear_messages_request_the_clearing() {
    let r = interpret_args(&strings(&["--clear-refuse-message", "--clear-warn-message"]));
    assert_eq!(
        r,
        ArgsOutcome::Command(ConfigUpdate {
            show: false,
            mode: None,
            refuse_message: Some(None),
            warn_message: Some(None),
        })
    );
}

#[test]
fn a_set_value_may_look_like_a_flag() {
    // The token after a value-bearing flag is consumed as its value.
    let r = interpret_args(&strings(&["--set-refuse-message", "--warn"]));
    assert_eq!(
        r,
        ArgsOutcome::Command(ConfigUpdate {
            show: false,
            mode: None,
            refuse_message: Some(Some("--warn".to_string())),
            warn_message: None,
        })
    );
}

#[test]
fn unknown_option_is_named_in_the_error() {
    let r = interpret_args(&strings(&["--frobnicate"]));
    assert_eq!(r, ArgsOutcome::Usage(UsageError::UnknownOption("--frobnicate".to_string())));
    assert_eq!(
        usage_error_message(&UsageError::UnknownOption("--frobnicate".to_string())),
        "Error: unknown option: --frobnicate"
    );
}

#[test]
fn config_flags_refuse_positionals() {
    for argv in [
        vec!["--show-config", "PATCH"],
        vec!["PATCH", "--refuse"],
        vec!["--set-warn-message", "w", "PATCH"],
    ] {
        let r = interpret_args(&strings(&argv));
        assert_eq!(r, ArgsOutcome::Usage(UsageError::ConflictingPatchArgument));
    }
    let text = usage_error_message(&UsageError::ConflictingPatchArgument);
    assert!(text.contains("cannot be combined"));
    assert_eq!(text, "Error: configuration flags cannot be combined with a PATCH argument.");
}

#[test]
fn every_config_flag_together_still_parses() {
    let r = interpret_args(&strings(&[
        "--show-config",
        "--mode",
        "warn",
        "--set-refuse-message",
        "r",
        "--set-warn-message",
        "w",
    ]));
    assert_eq!(
        r,
        ArgsOutcome::Command(ConfigUpdate {
            show: true,
            mode: Some(Mode::Warn),
            refuse_message: Some(Some("r".to_string())),
            warn_message: Some(Some("w".to_string())),
        })
    );
}

#[test]
fn a_lone_dash_is_an_unknown_option() {
    let r = interpret_args(&strings(&["-"]));
    assert_eq!(r, ArgsOutcome::Usage(UsageError::UnknownOption("-".to_string())));
}

#[test]
fn an_empty_token_is_a_positional() {
    let r = interpret_args(&strings(&[""]));
    assert_eq!(r, ArgsOutcome::Patch(strings(&[""])));
}

#[test]
fn usage_error_before_help_wins() {
    let r = interpret_args(&strings(&["--bogus", "-h"]));
    assert_eq!(r, ArgsOutcome::Usage(UsageError::UnknownOption("--bogus".to_string())));
    // A help token after a value-bearing flag is that flag's value.
    let r = interpret_args(&strings(&["--mode", "-h"]));
    assert_eq!(r, ArgsOutcome::Usage(UsageError::InvalidMode("-h".to_string())));
}
