//! Tests of the persistence contract's decisions: loading with and without a
//! default, the save decision, path resolution, and the first-write-wins and
//! idempotence scenarios played out against a simulated file.

use supernova_config::config_file_name;
use supernova_config::config_file_path;
use supernova_config::load_from_read;
use supernova_config::resolve_config_root;
use supernova_config::save_if_not_exists_action;
use supernova_config::ConfigError;
use supernova_config::CreateOutcome;
use supernova_config::DecoderConfig;
use supernova_config::SaveAction;
use supernova_config::SupernovaConfig;
use supernova_config::SupernovaDecodeConfig;

fn beam(num_beams: u32) -> SupernovaDecodeConfig {
    SupernovaDecodeConfig { decoder: DecoderConfig::Beam { num_beams } }
}

/// One save round against a simulated file: what an exclusive create would
/// report for the file's state, then the decided action applied to it.
fn simulate_save(
    file: Option<String>,
    value: SupernovaDecodeConfig,
) -> Result<Option<String>, String> {
    let outcome = if file.is_some() {
        CreateOutcome::AlreadyExists
    } else {
        CreateOutcome::Created
    };
    match save_if_not_exists_action(&value, outcome) {
        SaveAction::WriteContent(text) => Ok(Some(text)),
        SaveAction::SkipExisting => Ok(file),
        SaveAction::Fail(message) => Err(message),
    }
}

/// One save-defaults round against a simulated file: load from it, then save
/// what loading gave.
fn simulate_save_defaults(file: Option<String>) -> Result<Option<String>, String> {
    match load_from_read::<SupernovaDecodeConfig>(file.as_deref()) {
        Ok(value) => simulate_save(file, value),
        Err(e) => Err(e.message()),
    }
}

#[test]
fn load_missing_file_returns_default() {
    let loaded = load_from_read::<SupernovaDecodeConfig>(None).unwrap();
    assert_eq!(loaded, beam(4));
    assert_eq!(loaded, SupernovaDecodeConfig::default());
}

#[test]
fn load_missing_file_without_default_fails() {
    let loaded = load_from_read::<DecoderConfig>(None);
    assert!(matches!(loaded, Err(ConfigError::NoDefaultAvailable)));
}

#[test]
fn no_default_error_message_gives_guidance() {
    let message = ConfigError::NoDefaultAvailable.message();
    assert_eq!(
        message.as_str(),
        "Unable to load config from file and there are no default values for this config. \
         Consider declaring a default value for this config type."
    );
}

#[test]
fn load_malformed_file_surfaces_error() {
    let loaded = load_from_read::<SupernovaDecodeConfig>(Some("{ not a config }"));
    match loaded {
        Err(ConfigError::Malformed(message)) => {
            assert_eq!(
                message.as_str(),
                "Error loading config from file: the content does not decode as this \
                 configuration type"
            );
        }
        other => panic!("expected a malformed error, got {:?}", other),
    }
}

#[test]
fn load_existing_file_parses_it() {
    let on_disk = beam(17).encode();
    let loaded = load_from_read::<SupernovaDecodeConfig>(Some(on_disk.as_str())).unwrap();
    assert_eq!(loaded, beam(17));
}

#[test]
fn save_on_fresh_file_writes_encoding() {
    let action = save_if_not_exists_action(&beam(4), CreateOutcome::Created);
    match action {
        SaveAction::WriteContent(text) => assert_eq!(text, beam(4).encode()),
        other => panic!("expected a write, got {:?}", other),
    }
}

#[test]
fn save_on_existing_file_is_a_no_op() {
    let action = save_if_not_exists_action(&beam(4), CreateOutcome::AlreadyExists);
    assert!(matches!(action, SaveAction::SkipExisting));
}

#[test]
fn save_surfaces_other_create_failures() {
    let action = save_if_not_exists_action(
        &beam(4),
        CreateOutcome::Failed("permission denied".to_string()),
    );
    match action {
        SaveAction::Fail(message) => assert_eq!(message.as_str(), "permission denied"),
        other => panic!("expected a failure, got {:?}", other),
    }
}

#[test]
fn first_write_wins() {
    let after_first = simulate_save(None, beam(4)).unwrap();
    assert_eq!(after_first.as_deref(), Some(beam(4).encode().as_str()));
    let after_second = simulate_save(after_first.clone(), beam(99)).unwrap();
    assert_eq!(after_second, after_first);
}

#[test]
fn save_defaults_is_idempotent() {
    let after_first = simulate_save_defaults(None).unwrap();
    assert_eq!(after_first.as_deref(), Some(beam(4).encode().as_str()));
    let mut file = after_first.clone();
    for _ in 0..3 {
        file = simulate_save_defaults(file).unwrap();
        assert_eq!(file, after_first);
    }
}

#[test]
fn save_defaults_without_default_fails_and_writes_nothing() {
    let loaded = load_from_read::<DecoderConfig>(None);
    assert!(matches!(loaded, Err(ConfigError::NoDefaultAvailable)));
}

#[test]
fn config_file_names_follow_the_convention() {
    assert_eq!(config_file_name("decode").as_str(), "sn-config-decode.json");
    assert_eq!(config_file_name("test").as_str(), "sn-config-test.json");
}

#[test]
fn config_root_defaults_to_the_working_directory() {
    assert_eq!(resolve_config_root(None).as_str(), ".");
    assert_eq!(
        resolve_config_root(Some("/etc/supernova".to_string())).as_str(),
        "/etc/supernova"
    );
}

#[test]
fn config_paths_join_root_and_file_name() {
    assert_eq!(
        config_file_path(Some("/tmp/cfg".to_string()), "decode").as_str(),
        "/tmp/cfg/sn-config-decode.json"
    );
    assert_eq!(
        config_file_path(None, "decode").as_str(),
        "./sn-config-decode.json"
    );
}

#[test]
fn example_scenario_materializes_the_default() {
    // A configured root and no existing file: loading yields the default,
    // saving defaults writes its pretty text, and loading that text back
    // yields an equal value.
    let path = config_file_path(Some("/tmp/cfg".to_string()), "decode");
    assert_eq!(path.as_str(), "/tmp/cfg/sn-config-decode.json");
    let loaded = load_from_read::<SupernovaDecodeConfig>(None).unwrap();
    assert_eq!(loaded.decoder, DecoderConfig::Beam { num_beams: 4 });
    let file = simulate_save_defaults(None).unwrap().unwrap();
    assert!(file.contains("\"type\": \"beam\""));
    assert!(file.contains("\"num_beams\": 4"));
    let reloaded = load_from_read::<SupernovaDecodeConfig>(Some(file.as_str())).unwrap();
    assert_eq!(reloaded, loaded);
}
