use amaterasu::config::apply_config_to_amaterasu;
use amaterasu::config::default_mode;
use amaterasu::config::default_passes;
use amaterasu::config::default_sync;
use amaterasu::config::default_true;
use amaterasu::config::get_config_path;
use amaterasu::config::join_path;
use amaterasu::config::merge_cli_flags;
use amaterasu::config::parse_mode_from_config;
use amaterasu::config::CliFlags;
use amaterasu::config::ConfigError;
use amaterasu::config::ConfigFile;
use amaterasu::config::DefaultConfig;
use amaterasu::config::ModeConfig;
use amaterasu::config::ModeConfigs;
use amaterasu::AmaterasuConfig;
use amaterasu::WipeMode;

#[test]
fn test_mode_parsing() {
    assert!(matches!(parse_mode_from_config("fast"), WipeMode::Fast));
    assert!(matches!(
        parse_mode_from_config("STANDARD"),
        WipeMode::Standard
    ));
    assert!(matches!(
        parse_mode_from_config("paranoid"),
        WipeMode::Paranoid
    ));
    assert!(matches!(
        parse_mode_from_config("invalid"),
        WipeMode::Standard
    ));
}

#[test]
fn test_default_config_creation() {
    let config = ConfigFile::default();
    assert_eq!(config.defaults.mode, "standard");
    assert!(config.defaults.verify);
    assert!(config.defaults.progress);
}

#[test]
fn mode_parsing_ignores_case_and_nothing_else() {
    assert_eq!(parse_mode_from_config("FaSt"), WipeMode::Fast);
    assert_eq!(parse_mode_from_config("PARANOID"), WipeMode::Paranoid);
    assert_eq!(parse_mode_from_config(" fast"), WipeMode::Standard);
    assert_eq!(parse_mode_from_config("fast "), WipeMode::Standard);
    assert_eq!(parse_mode_from_config(""), WipeMode::Standard);
    assert_eq!(parse_mode_from_config("fas"), WipeMode::Standard);
    assert_eq!(parse_mode_from_config("f\u{e4}st"), WipeMode::Standard);
}

#[test]
fn default_values_of_the_file() {
    assert_eq!(default_mode(), "standard");
    assert!(default_true());
    assert_eq!(default_passes(), 3);
    assert!(default_sync());
    let defaults = DefaultConfig::default();
    assert_eq!(defaults.mode, "standard");
    assert!(defaults.verify);
    assert!(defaults.progress);
    let table = ModeConfig::default();
    assert_eq!(table.passes, 3);
    assert!(table.patterns.is_empty());
    assert!(table.sync);
    assert!(!table.verify_each_pass);
    assert!(!table.disable_cow);
}

#[test]
fn default_mode_tables_list_the_passes() {
    let modes = ModeConfigs::default();
    assert_eq!(modes.fast.passes, 1);
    assert_eq!(modes.fast.patterns, vec!["random".to_string()]);
    assert!(!modes.fast.sync);
    assert!(!modes.fast.verify_each_pass);
    assert!(!modes.fast.disable_cow);
    assert_eq!(modes.standard.passes, 3);
    assert_eq!(
        modes.standard.patterns,
        vec!["random".to_string(), "zeros".to_string(), "random".to_string()]
    );
    assert!(modes.standard.sync);
    assert!(!modes.standard.verify_each_pass);
    assert!(!modes.standard.disable_cow);
    assert_eq!(modes.paranoid.passes, 7);
    assert_eq!(
        modes.paranoid.patterns,
        vec![
            "random".to_string(),
            "0x55".to_string(),
            "0xAA".to_string(),
            "random".to_string(),
            "ones".to_string(),
            "zeros".to_string(),
            "random".to_string(),
        ]
    );
    assert!(modes.paranoid.sync);
    assert!(modes.paranoid.verify_each_pass);
    assert!(modes.paranoid.disable_cow);
}

#[test]
fn mode_table_for_a_mode() {
    let table = ModeConfig::for_mode(WipeMode::Standard, false, true, false);
    assert_eq!(table.passes, 3);
    assert_eq!(table.patterns.len(), 3);
    assert_eq!(table.patterns[1], "zeros");
    assert!(!table.sync);
    assert!(table.verify_each_pass);
}

#[test]
fn config_path_prefers_the_configuration_directory() {
    assert_eq!(
        get_config_path(Some("/home/u/.cfg"), Some("/home/u")),
        Ok("/home/u/.cfg/amaterasu/config.toml".to_string())
    );
    assert_eq!(
        get_config_path(None, Some("/home/u")),
        Ok("/home/u/.config/amaterasu/config.toml".to_string())
    );
    assert_eq!(get_config_path(None, None), Err(ConfigError::NoConfigDirectory));
}

#[test]
fn config_path_adds_no_second_separator() {
    assert_eq!(
        get_config_path(Some("/xdg/"), None),
        Ok("/xdg/amaterasu/config.toml".to_string())
    );
    assert_eq!(
        get_config_path(Some(""), Some("/home/u")),
        Ok("amaterasu/config.toml".to_string())
    );
    assert_eq!(join_path("a".to_string(), "b"), "a/b");
    assert_eq!(join_path("a/".to_string(), "b"), "a/b");
    assert_eq!(join_path(String::new(), "b"), "b");
    assert_eq!(join_path("/".to_string(), "b"), "/b");
}

#[test]
fn command_line_takes_precedence() {
    let cli = AmaterasuConfig {
        verify: false,
        progress: false,
        force: true,
        mode: WipeMode::Paranoid,
        wipe_metadata: false,
        metadata_passes: 9,
    };
    let applied = apply_config_to_amaterasu(&ConfigFile::default(), cli);
    assert_eq!(applied, cli);
}

#[test]
fn flags_and_defaults_combine() {
    let mut defaults = DefaultConfig::default();
    let flags = CliFlags {
        verify: false,
        no_progress: false,
        force: false,
        mode: WipeMode::Fast,
        no_metadata_wipe: false,
        metadata_passes: 3,
    };
    let config = merge_cli_flags(&defaults, flags);
    assert_eq!(
        config,
        AmaterasuConfig {
            verify: true,
            progress: true,
            force: false,
            mode: WipeMode::Fast,
            wipe_metadata: true,
            metadata_passes: 3,
        }
    );
    defaults.verify = false;
    defaults.progress = false;
    let config = merge_cli_flags(&defaults, flags);
    assert!(!config.verify);
    assert!(!config.progress);
    let flags = CliFlags {
        verify: true,
        no_progress: true,
        force: true,
        mode: WipeMode::Standard,
        no_metadata_wipe: true,
        metadata_passes: 0,
    };
    defaults.progress = true;
    let config = merge_cli_flags(&defaults, flags);
    assert!(config.verify);
    assert!(!config.progress);
    assert!(config.force);
    assert!(!config.wipe_metadata);
    assert_eq!(config.metadata_passes, 0);
}

#[test]
fn default_run_configuration() {
    let config = AmaterasuConfig::default();
    assert!(config.verify);
    assert!(config.progress);
    assert!(!config.force);
    assert_eq!(config.mode, WipeMode::Standard);
    assert!(config.wipe_metadata);
    assert_eq!(config.metadata_passes, 3);
}
