use autonixdoc::cli::{
    resolve_option, resolve_with_config, Behaviors, CompiledPattern, ConfigSource, Driver,
    Environment, FailureBehavior, FailureResponse, LogLevel, MappingType, PathIdentification,
};
use autonixdoc::mapping::AutoMappingConfig;

fn empty_env() -> Environment {
    Environment {
        config: None,
        on_failure: None,
        prefix: None,
        anchor_prefix: None,
        logging_level: None,
        regex_pattern: None,
    }
}

fn driver() -> Driver {
    Driver {
        input_dir: "/src".to_string(),
        output_dir: "/docs".to_string(),
        mapping: MappingType::Auto,
        on_failure: None,
        config: None,
        logging_level: None,
        prefix: None,
        anchor_prefix: None,
        regex_pattern: None,
    }
}

#[test]
fn test_path_identification_extension_default() {
    let identification = PathIdentification::default();
    assert!(matches!(identification, PathIdentification::NixExtension));
}

#[test]
fn test_path_identification_from_pattern_none() {
    let identification = PathIdentification::from_pattern(None).unwrap();
    assert!(matches!(identification, PathIdentification::NixExtension));
}

#[test]
fn test_path_identification_from_pattern_some() {
    let identification = PathIdentification::from_pattern(Some(r"\.rs$".to_string())).unwrap();
    assert!(matches!(identification, PathIdentification::Regex(_)));
}

#[test]
fn test_path_identification_from_pattern_invalid_regex() {
    let result = PathIdentification::from_pattern(Some("[".to_string()));
    assert!(result.is_err());
    assert!(result
        .unwrap_err()
        .message()
        .contains("Invalid regex pattern"));
}

#[test]
fn test_path_identification_extension_should_process_nix() {
    let identification = PathIdentification::NixExtension;
    assert!(identification.should_process("/path/to/file.nix"));
}

#[test]
fn test_path_identification_extension_should_not_process_other() {
    let identification = PathIdentification::NixExtension;
    assert!(!identification.should_process("/path/to/file.rs"));
}

#[test]
fn test_path_identification_extension_should_not_process_no_extension() {
    let identification = PathIdentification::NixExtension;
    assert!(!identification.should_process("/path/to/file"));
}

#[test]
fn test_path_identification_extension_is_case_sensitive() {
    let identification = PathIdentification::NixExtension;
    assert!(!identification.should_process("/path/to/file.NIX"));
    assert!(!identification.should_process("/path/to/.nix"));
    assert!(identification.should_process("relative.nix"));
}

#[test]
fn test_path_identification_regex_should_process_matching() {
    let regex = CompiledPattern::new(r"\.rs$").unwrap();
    let identification = PathIdentification::Regex(regex);
    assert!(identification.should_process("/path/to/file.rs"));
}

#[test]
fn test_path_identification_regex_should_not_process_non_matching() {
    let regex = CompiledPattern::new(r"\.rs$").unwrap();
    let identification = PathIdentification::Regex(regex);
    assert!(!identification.should_process("/path/to/file.nix"));
}

#[test]
fn test_path_identification_regex_complex_pattern() {
    let regex = CompiledPattern::new(r".*/(lib|src)/.*\.nix$").unwrap();
    let identification = PathIdentification::Regex(regex);

    assert!(identification.should_process("/project/lib/module.nix"));
    assert!(identification.should_process("/project/src/utils.nix"));
    assert!(!identification.should_process("/project/docs/readme.nix"));
}

#[test]
fn test_pattern_identification_reverses_extension_strategy() {
    let by_pattern = PathIdentification::from_pattern(Some(r"\.rs$".to_string())).unwrap();
    assert!(by_pattern.should_process("a.rs"));
    assert!(!by_pattern.should_process("a.nix"));
    let by_extension = PathIdentification::from_pattern(None).unwrap();
    assert!(!by_extension.should_process("a.rs"));
    assert!(by_extension.should_process("a.nix"));
}

#[test]
fn test_pattern_keeps_its_text() {
    let regex = CompiledPattern::new("abc").unwrap();
    assert_eq!(regex.as_str(), "abc");
    assert!(regex.is_match("xxabcxx"));
    assert!(!regex.is_match("ab"));
}

#[test]
fn test_behaviors_new_with_extension_default() {
    let behaviors = Behaviors::new(None, None).unwrap();
    assert_eq!(behaviors.on_failure, FailureBehavior::Log);
    assert!(matches!(
        behaviors.path_identification,
        PathIdentification::NixExtension
    ));
}

#[test]
fn test_behaviors_new_with_regex_pattern() {
    let behaviors =
        Behaviors::new(Some(FailureBehavior::Abort), Some(r"\.rs$".to_string())).unwrap();
    assert_eq!(behaviors.on_failure, FailureBehavior::Abort);
    assert!(matches!(
        behaviors.path_identification,
        PathIdentification::Regex(_)
    ));
}

#[test]
fn test_behaviors_new_with_invalid_regex() {
    let result = Behaviors::new(None, Some("[".to_string()));
    assert!(result.is_err());
}

#[test]
fn test_failure_behavior_parse() {
    assert_eq!("abort".parse::<FailureBehavior>(), Ok(FailureBehavior::Abort));
    assert_eq!("LOG".parse::<FailureBehavior>(), Ok(FailureBehavior::Log));
    assert_eq!("Skip".parse::<FailureBehavior>(), Ok(FailureBehavior::Skip));
    assert_eq!(
        "never".parse::<FailureBehavior>(),
        Err("Unknown failure behavior: never".to_string())
    );
    assert_eq!(FailureBehavior::from_lowercase("SKIP"), None);
    assert_eq!(FailureBehavior::default(), FailureBehavior::Log);
}

#[test]
fn test_log_level_parse() {
    assert_eq!(
        "Debug".parse::<LogLevel>(),
        Ok(LogLevel(log::LevelFilter::Debug))
    );
    assert_eq!(
        "loud".parse::<LogLevel>(),
        Err("Unknown logging level: loud".to_string())
    );
    assert_eq!(
        LogLevel(log::LevelFilter::Trace).filter(),
        log::LevelFilter::Trace
    );
}

#[test]
fn test_failure_responses() {
    assert_eq!(FailureBehavior::Abort.response(), FailureResponse::Propagate);
    assert_eq!(FailureBehavior::Log.response(), FailureResponse::Report);
    assert_eq!(FailureBehavior::Skip.response(), FailureResponse::Ignore);
}

#[test]
fn test_resolution_precedence() {
    assert_eq!(resolve_with_config(Some(1), Some(2), Some(3)), Some(1));
    assert_eq!(resolve_with_config(None, Some(2), Some(3)), Some(2));
    assert_eq!(resolve_with_config(None, None, Some(3)), Some(3));
    assert_eq!(resolve_with_config::<u8>(None, None, None), None);
    assert_eq!(resolve_option(None, Some(2)), Some(2));
    assert_eq!(resolve_option(Some(1), Some(2)), Some(1));
}

#[test]
fn test_failure_behavior_precedence_scenario() {
    let mut config = AutoMappingConfig::default();
    config.failure_behavior = Some(FailureBehavior::Skip);
    let mut env = empty_env();
    env.on_failure = Some("log".to_string());
    let mut d = driver();
    d.on_failure = Some(FailureBehavior::Abort);

    let run = d.run(&env, config).unwrap();
    assert_eq!(run.behaviors.on_failure, FailureBehavior::Abort);

    let mut config = AutoMappingConfig::default();
    config.failure_behavior = Some(FailureBehavior::Skip);
    let run = driver().run(&env, config).unwrap();
    assert_eq!(run.behaviors.on_failure, FailureBehavior::Log);

    let mut config = AutoMappingConfig::default();
    config.failure_behavior = Some(FailureBehavior::Skip);
    let run = driver().run(&empty_env(), config).unwrap();
    assert_eq!(run.behaviors.on_failure, FailureBehavior::Skip);
}

#[test]
fn test_unparseable_environment_value_is_ignored() {
    let mut config = AutoMappingConfig::default();
    config.failure_behavior = Some(FailureBehavior::Skip);
    let mut env = empty_env();
    env.on_failure = Some("sometimes".to_string());
    let run = driver().run(&env, config).unwrap();
    assert_eq!(run.behaviors.on_failure, FailureBehavior::Skip);
}

#[test]
fn test_driver_run_defaults() {
    let run = driver().run(&empty_env(), AutoMappingConfig::default()).unwrap();
    assert_eq!(run.behaviors.on_failure, FailureBehavior::Log);
    assert!(matches!(
        run.behaviors.path_identification,
        PathIdentification::NixExtension
    ));
    assert_eq!(run.logging_level, None);
}

#[test]
fn test_driver_run_logging_level_tiers() {
    let mut config = AutoMappingConfig::default();
    config.logging_level = Some("error".to_string());
    let mut env = empty_env();
    env.logging_level = Some("TRACE".to_string());
    let run = driver().run(&env, config).unwrap();
    assert_eq!(run.logging_level, Some(LogLevel(log::LevelFilter::Trace)));

    let mut config = AutoMappingConfig::default();
    config.logging_level = Some("error".to_string());
    let run = driver().run(&empty_env(), config).unwrap();
    assert_eq!(run.logging_level, Some(LogLevel(log::LevelFilter::Error)));
}

#[test]
fn test_driver_run_invalid_pattern_from_environment() {
    let mut env = empty_env();
    env.regex_pattern = Some("(".to_string());
    let result = driver().run(&env, AutoMappingConfig::default());
    let err = result.err().unwrap();
    assert_eq!(err.message(), "Invalid regex pattern: (");
}

#[test]
fn test_driver_run_pattern_from_command_line_wins() {
    let mut env = empty_env();
    env.regex_pattern = Some("(".to_string());
    let mut d = driver();
    d.regex_pattern = Some(r"\.rs$".to_string());
    let run = d.run(&env, AutoMappingConfig::default()).unwrap();
    assert!(run.behaviors.path_identification.should_process("x.rs"));
}

#[test]
fn test_config_path_and_source() {
    let mut env = empty_env();
    env.config = Some("env.toml".to_string());
    let mut d = driver();
    assert_eq!(d.config_path(&env), Some("env.toml".to_string()));
    d.config = Some("cli.toml".to_string());
    assert_eq!(d.config_path(&env), Some("cli.toml".to_string()));
    assert_eq!(driver().config_path(&empty_env()), None);

    assert!(matches!(
        Driver::config_source(Some("x.toml".to_string()), true),
        ConfigSource::Given(p) if p == "x.toml"
    ));
    assert!(matches!(
        Driver::config_source(None, true),
        ConfigSource::Default(p) if p == "autonixdoc.toml"
    ));
    assert!(matches!(
        Driver::config_source(None, false),
        ConfigSource::Defaults
    ));
}
