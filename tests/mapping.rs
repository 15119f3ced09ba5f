use autonixdoc::cli::{FailureBehavior, LogLevel, MappingType};
use autonixdoc::mapping::{
    get_mapping, AutoMapping, AutoMappingConfig, BaselineConfig, MappingError, PathAction,
    PathMapping,
};

fn output(p: &str) -> PathAction {
    PathAction::OutputTo(p.to_string())
}

#[test]
fn test_auto_mapping_absolute_basic() {
    let mapping = AutoMapping::new("/src", "/docs");
    let result = mapping.resolve(&Default::default(), "/src/lib/module.nix").unwrap();
    assert_eq!(result, output("/docs/lib/module.md"));
}

#[test]
fn test_auto_mapping_absolute_nested() {
    let mapping = AutoMapping::new("/project/src", "/output");
    let result = mapping
        .resolve(&Default::default(), "/project/src/deep/nested/file.nix")
        .unwrap();
    assert_eq!(result, output("/output/deep/nested/file.md"));
}

#[test]
fn test_auto_mapping_absolute_root_level() {
    let mapping = AutoMapping::new("/src", "/docs");
    let result = mapping.resolve(&Default::default(), "/src/default.nix").unwrap();
    assert_eq!(result, output("/docs/default.md"));
}

#[test]
fn test_auto_mapping_relative_basic() {
    let mapping = AutoMapping::new("src", "docs");
    let result = mapping.resolve(&Default::default(), "src/lib/module.nix").unwrap();
    assert_eq!(result, output("docs/lib/module.md"));
}

#[test]
fn test_auto_mapping_relative_nested() {
    let mapping = AutoMapping::new("project/src", "output");
    let result = mapping
        .resolve(&Default::default(), "project/src/deep/nested/file.nix")
        .unwrap();
    assert_eq!(result, output("output/deep/nested/file.md"));
}

#[test]
fn test_auto_mapping_relative_root_level() {
    let mapping = AutoMapping::new("src", "docs");
    let result = mapping.resolve(&Default::default(), "src/default.nix").unwrap();
    assert_eq!(result, output("docs/default.md"));
}

#[test]
fn test_auto_mapping_mixed_absolute_relative() {
    let mapping = AutoMapping::new("/absolute/src", "relative/docs");
    let result = mapping.resolve(&Default::default(), "/absolute/src/file.nix").unwrap();
    assert_eq!(result, output("relative/docs/file.md"));
}

#[test]
fn test_auto_mapping_no_parent_error() {
    let mapping = AutoMapping::new("/src", "/docs");
    let result = mapping.resolve(&Default::default(), "/");
    assert!(result.is_err());
    assert_eq!(result.unwrap_err().message(), "source path had no parent");
}

#[test]
fn test_auto_mapping_no_file_stem_error() {
    let mapping = AutoMapping::new("/src", "/docs");
    let result = mapping.resolve(&Default::default(), "/src/..");
    assert!(result.is_err());
    assert_eq!(result.unwrap_err().message(), "source path had no file name");
}

#[test]
fn test_auto_mapping_current_directory() {
    let mapping = AutoMapping::new(".", "docs/");
    let result = mapping.resolve(&Default::default(), "./example.nix").unwrap();
    assert_eq!(result, output("docs/example.md"));
}

#[test]
fn test_auto_mapping_invalid_prefix_is_internal_error() {
    let mapping = AutoMapping::new("/src", "/docs");
    let result = mapping.resolve(&Default::default(), "/other/lib/module.nix");
    let err = result.unwrap_err();
    assert_eq!(err, MappingError::OutsideRoot);
    assert_eq!(
        err.message(),
        "Source directory isn't a prefix of source path? Please report this, it's a bug"
    );
}

#[test]
fn test_auto_mapping_relative_invalid_prefix_is_internal_error() {
    let mapping = AutoMapping::new("src", "docs");
    let result = mapping.resolve(&Default::default(), "other/lib/module.nix");
    assert_eq!(result.unwrap_err(), MappingError::OutsideRoot);
}

#[test]
fn test_ignore_paths_single_file() {
    let mut config = AutoMappingConfig::default();
    config.ignore_paths.push("/src/lib/module.nix".to_string());
    let mapping = AutoMapping::new("/src", "/docs");
    let result = mapping.resolve(&config, "/src/lib/module.nix").unwrap();
    assert_eq!(result, PathAction::Skip);
}

#[test]
fn test_ignore_paths_multiple_files() {
    let mut config = AutoMappingConfig::default();
    config.ignore_paths.push("/src/lib/module1.nix".to_string());
    config.ignore_paths.push("/src/lib/module3.nix".to_string());
    let mapping = AutoMapping::new("/src", "/docs");

    let result1 = mapping.resolve(&config, "/src/lib/module1.nix").unwrap();
    assert_eq!(result1, PathAction::Skip);

    let result2 = mapping.resolve(&config, "/src/lib/module2.nix").unwrap();
    assert_eq!(result2, output("/docs/lib/module2.md"));

    let result3 = mapping.resolve(&config, "/src/lib/module3.nix").unwrap();
    assert_eq!(result3, PathAction::Skip);
}

#[test]
fn test_ignore_paths_relative_paths() {
    let mut config = AutoMappingConfig::default();
    config.ignore_paths.push("src/lib/ignored.nix".to_string());
    let mapping = AutoMapping::new("src", "docs");
    let result = mapping.resolve(&config, "src/lib/ignored.nix").unwrap();
    assert_eq!(result, PathAction::Skip);
}

#[test]
fn test_ignore_paths_not_ignored() {
    let mut config = AutoMappingConfig::default();
    config.ignore_paths.push("/src/lib/ignored.nix".to_string());
    let mapping = AutoMapping::new("/src", "/docs");
    let result = mapping.resolve(&config, "/src/lib/normal.nix").unwrap();
    assert_eq!(result, output("/docs/lib/normal.md"));
}

#[test]
fn test_ignore_paths_nested_directories() {
    let mut config = AutoMappingConfig::default();
    config
        .ignore_paths
        .push("/project/src/deep/nested/ignored.nix".to_string());
    let mapping = AutoMapping::new("/project/src", "/output");

    let ignored_result = mapping
        .resolve(&config, "/project/src/deep/nested/ignored.nix")
        .unwrap();
    assert_eq!(ignored_result, PathAction::Skip);

    let normal_result = mapping
        .resolve(&config, "/project/src/deep/nested/normal.nix")
        .unwrap();
    assert_eq!(normal_result, output("/output/deep/nested/normal.md"));
}

#[test]
fn test_ignore_paths_compare_by_components() {
    let mut config = AutoMappingConfig::default();
    config.ignore_paths.push("/src//lib/./module.nix".to_string());
    let mapping = AutoMapping::new("/src", "/docs");
    let result = mapping.resolve(&config, "/src/lib/module.nix").unwrap();
    assert_eq!(result, PathAction::Skip);
}

#[test]
fn test_baseline_config_default_values() {
    let config = AutoMappingConfig::default();

    assert_eq!(config.failure_behavior(), None);
    assert_eq!(config.prefix(), None);
    assert_eq!(config.anchor_prefix(), None);
    assert_eq!(config.logging_level(), None);
}

#[test]
fn test_baseline_config_with_values() {
    let mut config = AutoMappingConfig::default();
    config.failure_behavior = Some(FailureBehavior::Abort);
    config.prefix = Some("test-prefix".to_string());
    config.anchor_prefix = Some("test-anchor".to_string());
    config.logging_level = Some("info".to_string());

    assert_eq!(config.failure_behavior(), Some(FailureBehavior::Abort));
    assert_eq!(config.prefix(), Some("test-prefix".to_string()));
    assert_eq!(config.anchor_prefix(), Some("test-anchor".to_string()));
    assert_eq!(config.logging_level(), Some(LogLevel(log::LevelFilter::Info)));
}

#[test]
fn test_baseline_config_logging_level_parsing() {
    let test_cases = vec![
        ("error", LogLevel(log::LevelFilter::Error)),
        ("warn", LogLevel(log::LevelFilter::Warn)),
        ("info", LogLevel(log::LevelFilter::Info)),
        ("debug", LogLevel(log::LevelFilter::Debug)),
        ("trace", LogLevel(log::LevelFilter::Trace)),
        ("ERROR", LogLevel(log::LevelFilter::Error)),
        ("WARN", LogLevel(log::LevelFilter::Warn)),
    ];

    for (input, expected) in test_cases {
        let mut config = AutoMappingConfig::default();
        config.logging_level = Some(input.to_string());

        assert_eq!(
            config.logging_level(),
            Some(expected),
            "Failed for input: {}",
            input
        );
    }
}

#[test]
fn test_baseline_config_none_logging_level() {
    let config = AutoMappingConfig {
        ignore_paths: Vec::new(),
        failure_behavior: None,
        prefix: None,
        anchor_prefix: None,
        logging_level: None,
    };

    assert_eq!(config.logging_level(), None);
}

#[test]
fn test_baseline_config_unknown_logging_level() {
    let mut config = AutoMappingConfig::default();
    config.logging_level = Some("verbose".to_string());
    assert_eq!(config.logging_level(), None);
}

#[test]
fn test_get_mapping_auto() {
    let mapping = get_mapping(MappingType::Auto, "/src", "/docs");
    assert_eq!(mapping.source_base(), "/src");
    let result = mapping.resolve(&Default::default(), "/src/a/b.nix").unwrap();
    assert_eq!(result, output("/docs/a/b.md"));
}

#[test]
fn test_destination_appends_extension_to_stem() {
    let mapping = AutoMapping::new("/src", "/docs");
    let result = mapping.resolve(&Default::default(), "/src/foo.tar.nix").unwrap();
    assert_eq!(result, output("/docs/foo.tar.md"));
    let hidden = mapping.resolve(&Default::default(), "/src/.hidden").unwrap();
    assert_eq!(hidden, output("/docs/.hidden.md"));
}

#[test]
fn test_destination_normalises_separators() {
    let mapping = AutoMapping::new("/src/", "/docs//out/");
    let result = mapping
        .resolve(&Default::default(), "/src//lib/./module.nix")
        .unwrap();
    assert_eq!(result, output("/docs/out/lib/module.md"));
}

#[test]
fn test_destination_law_example() {
    let mapping = AutoMapping::new("/src", "/docs");
    let result = mapping.resolve(&Default::default(), "/src/lib/module.nix").unwrap();
    assert_eq!(result, output("/docs/lib/module.md"));
}
