//! The configuration model and its persistence round trip, run against the
//! real JSON codec.

use apply_patch::config::Config;
use apply_patch::config::Mode;
use apply_patch::config::mode_str;
use apply_patch::config::parse_mode;
use apply_patch::persist::config_from_fields;
use apply_patch::persist::load_config;
use apply_patch::persist::serialize_config;

#[test]
fn mode_literals_parse_and_print() {
    assert_eq!(parse_mode("apply"), Some(Mode::Apply));
    assert_eq!(parse_mode("refuse"), Some(Mode::Refuse));
    assert_eq!(parse_mode("warn"), Some(Mode::Warn));
    assert_eq!(parse_mode(""), None);
    assert_eq!(parse_mode("Apply"), None);
    assert_eq!(parse_mode("warns"), None);
    for m in [Mode::Apply, Mode::Refuse, Mode::Warn] {
        assert_eq!(parse_mode(mode_str(m)), Some(m));
    }
}

#[test]
fn default_config_applies_with_builtin_notices() {
    let c = Config::default();
    assert_eq!(c.mode, Mode::Apply);
    assert_eq!(c.refuse_message, None);
    assert_eq!(c.warn_message, None);
    assert_eq!(Mode::default(), Mode::Apply);
}

#[test]
fn missing_file_loads_all_defaults() {
    assert_eq!(load_config(None), Config::default());
}

#[test]
fn corrupted_file_loads_all_defaults() {
    for bytes in [
        &b"not json at all"[..],
        &b"{\"mode\": \"refu"[..],
        &b""[..],
        &b"[1, 2, 3]"[..],
        &b"42"[..],
    ] {
        assert_eq!(load_config(Some(bytes.to_vec())), Config::default());
    }
}

#[test]
fn stored_fields_are_read_back() {
    let doc = b"{\n  \"mode\": \"refuse\",\n  \"refuse_message\": \"go away\",\n  \"warn_message\": null\n}";
    let c = load_config(Some(doc.to_vec()));
    assert_eq!(c.mode, Mode::Refuse);
    assert_eq!(c.refuse_message, Some("go away".to_string()));
    assert_eq!(c.warn_message, None);
}

#[test]
fn unrecognized_mode_falls_back_keeping_messages() {
    let doc = b"{\"mode\": \"loud\", \"warn_message\": \"w\"}";
    let c = load_config(Some(doc.to_vec()));
    assert_eq!(c.mode, Mode::Apply);
    assert_eq!(c.warn_message, Some("w".to_string()));
    assert_eq!(c.refuse_message, None);
}

#[test]
fn non_string_fields_fall_back_individually() {
    let doc = b"{\"mode\": 7, \"refuse_message\": [\"x\"], \"warn_message\": \"kept\"}";
    let c = load_config(Some(doc.to_vec()));
    assert_eq!(c.mode, Mode::Apply);
    assert_eq!(c.refuse_message, None);
    assert_eq!(c.warn_message, Some("kept".to_string()));
}

#[test]
fn fields_build_the_config_with_defaults() {
    let c = config_from_fields(None, None, None);
    assert_eq!(c, Config::default());
    let c = config_from_fields(Some("warn".to_string()), None, Some("w".to_string()));
    assert_eq!(c.mode, Mode::Warn);
    assert_eq!(c.refuse_message, None);
    assert_eq!(c.warn_message, Some("w".to_string()));
}

#[test]
fn default_config_serializes_exactly() {
    let doc = serialize_config(&Config::default());
    assert_eq!(doc, "{\n  \"mode\": \"apply\",\n  \"refuse_message\": null,\n  \"warn_message\": null\n}");
}

#[test]
fn full_config_serializes_exactly() {
    let cfg = Config {
        mode: Mode::Refuse,
        refuse_message: Some("say \"no\"\nline two".to_string()),
        warn_message: Some("tab\there".to_string()),
    };
    let doc = serialize_config(&cfg);
    assert_eq!(
        doc,
        "{\n  \"mode\": \"refuse\",\n  \"refuse_message\": \"say \\\"no\\\"\\nline two\",\n  \"warn_message\": \"tab\\there\"\n}"
    );
}

#[test]
fn control_characters_use_unicode_escapes() {
    let cfg = Config {
        mode: Mode::Apply,
        refuse_message: Some("a\u{1}b\u{1f}c\u{8}d".to_string()),
        warn_message: None,
    };
    let doc = serialize_config(&cfg);
    assert!(doc.contains("\"a\\u0001b\\u001fc\\bd\""));
}

#[test]
fn serializer_matches_the_reference_codec() {
    // The rendered document must be byte for byte what the JSON codec
    // itself pretty-prints for the same object.
    let cases = [
        Config::default(),
        Config {
            mode: Mode::Warn,
            refuse_message: Some("quotes \" backslash \\ newline \n tab \t".to_string()),
            warn_message: Some("control \u{1f} high \u{7f} unicode caf\u{e9} \u{1f600}".to_string()),
        },
        Config {
            mode: Mode::Refuse,
            refuse_message: None,
            warn_message: Some(String::new()),
        },
    ];
    for cfg in cases {
        let mut obj = serde_json::Map::new();
        obj.insert(
            "mode".to_string(),
            serde_json::Value::String(mode_str(cfg.mode).to_string()),
        );
        obj.insert(
            "refuse_message".to_string(),
            match &cfg.refuse_message {
                Some(s) => serde_json::Value::String(s.clone()),
                None => serde_json::Value::Null,
            },
        );
        obj.insert(
            "warn_message".to_string(),
            match &cfg.warn_message {
                Some(s) => serde_json::Value::String(s.clone()),
                None => serde_json::Value::Null,
            },
        );
        let reference = serde_json::to_string_pretty(&serde_json::Value::Object(obj)).unwrap();
        assert_eq!(serialize_config(&cfg), reference);
    }
}

#[test]
fn saved_configs_load_back_identically() {
    let cases = [
        Config::default(),
        Config {
            mode: Mode::Refuse,
            refuse_message: Some("custom refuse".to_string()),
            warn_message: None,
        },
        Config {
            mode: Mode::Warn,
            refuse_message: Some("with \"quotes\" and \\slashes\\".to_string()),
            warn_message: Some("multi\nline\twith controls \u{2} and caf\u{e9} \u{1f600}".to_string()),
        },
        Config {
            mode: Mode::Apply,
            refuse_message: Some(String::new()),
            warn_message: Some("ends in newline\n".to_string()),
        },
    ];
    for cfg in cases {
        let doc = serialize_config(&cfg);
        let reloaded = load_config(Some(doc.into_bytes()));
        assert_eq!(reloaded, cfg);
    }
}
