use vibranium::compiler::error::{CompilerError, ConfigError};
use vibranium::io_error::{IoError, IoErrorKind};
use vibranium::project_config::{find_entry, is_relative_dir_name, text_elements, ConfigFormatError, ProjectConfig};
use vibranium::project_generator::is_within;
use vibranium::toml_format::{count_nesting_marks, MAX_NESTING_MARKS};
use vibranium::project_generator::error::ProjectGenerationError;
use vibranium::project_generator::{ConfigFile, GenerationPlan, ProjectGenerator};
use vibranium::toml_format::TomlItem;
use vibranium::Vibranium;

fn strings(items: &[&str]) -> Vec<String> {
    items.iter().map(|s| s.to_string()).collect()
}

fn custom_config_text() -> String {
    "artifacts_dir = \"build\"\nsmart_contract_sources = [\"src/**\", \"lib/*.sol\"]\n".to_string()
}

fn fresh_plan() -> GenerationPlan {
    let generator = ProjectGenerator::new();
    generator.generate_project(true, ConfigFile::Missing).expect("fresh project")
}

#[test]
fn missing_project_path_is_reported() {
    let generator = ProjectGenerator::new();
    for config in [ConfigFile::Missing, ConfigFile::Contents(custom_config_text())] {
        let r = generator.generate_project(false, config);
        assert!(matches!(r, Err(ProjectGenerationError::ProjectPathNotFound)));
    }
}

#[test]
fn fresh_project_gets_default_layout() {
    let plan = fresh_plan();
    assert_eq!(plan.directories, strings(&[".vibranium", "contracts", "artifacts"]));
    let text = plan.config_text.expect("config to write");
    let config = ProjectConfig::from_toml(&text).expect("readable config");
    assert_eq!(config.artifacts_dir, "artifacts");
    assert_eq!(config.smart_contract_sources, strings(&["contracts/**"]));
}

#[test]
fn fresh_config_text_is_exact() {
    let plan = fresh_plan();
    assert_eq!(
        plan.config_text.unwrap(),
        "artifacts_dir = \"artifacts\"\nsmart_contract_sources = [\"contracts/**\"]\n"
    );
}

#[test]
fn generating_twice_is_a_noop() {
    let first = fresh_plan();
    let text = first.config_text.clone().unwrap();
    let generator = ProjectGenerator::new();
    let second = generator.generate_project(true, ConfigFile::Contents(text)).expect("second run");
    assert!(second.config_text.is_none());
    assert_eq!(second.directories, first.directories);
    assert!(second.missing_directories(&vec![true, true, true]).is_empty());
}

#[test]
fn custom_artifacts_dir_replaces_default() {
    let generator = ProjectGenerator::new();
    let plan = generator.generate_project(true, ConfigFile::Contents(custom_config_text())).unwrap();
    assert!(plan.config_text.is_none());
    assert_eq!(plan.directories, strings(&[".vibranium", "contracts", "build"]));
    assert!(!plan.directories.contains(&"artifacts".to_string()));
}

#[test]
fn only_missing_directories_are_created() {
    let plan = fresh_plan();
    assert_eq!(plan.missing_directories(&vec![true, false, true]), strings(&["contracts"]));
    assert_eq!(plan.missing_directories(&vec![false, true, false]), strings(&[".vibranium", "artifacts"]));
    assert_eq!(plan.missing_directories(&vec![false, false, false]), plan.directories);
}

#[test]
fn unreadable_config_is_an_io_error() {
    let generator = ProjectGenerator::new();
    let err = IoError::new(IoErrorKind::PermissionDenied, "permission denied".to_string());
    match generator.generate_project(true, ConfigFile::Unreadable(err.clone())) {
        Err(ProjectGenerationError::Io(e)) => assert_eq!(e, err),
        other => panic!("unexpected {:?}", other),
    }
}

#[test]
fn malformed_config_is_a_deserialization_error() {
    let generator = ProjectGenerator::new();
    let r = generator.generate_project(true, ConfigFile::Contents("artifacts_dir = ".to_string()));
    assert!(matches!(r, Err(ProjectGenerationError::ConfigDeserialization(ConfigFormatError::Syntax(_)))));
}

#[test]
fn config_field_errors() {
    match ProjectConfig::from_toml("smart_contract_sources = []\n") {
        Err(ConfigFormatError::MissingField(k)) => assert_eq!(k, "artifacts_dir"),
        other => panic!("unexpected {:?}", other),
    }
    match ProjectConfig::from_toml("artifacts_dir = \"out\"\n") {
        Err(ConfigFormatError::MissingField(k)) => assert_eq!(k, "smart_contract_sources"),
        other => panic!("unexpected {:?}", other),
    }
    match ProjectConfig::from_toml("artifacts_dir = 5\nsmart_contract_sources = []\n") {
        Err(ConfigFormatError::InvalidField(k)) => assert_eq!(k, "artifacts_dir"),
        other => panic!("unexpected {:?}", other),
    }
    match ProjectConfig::from_toml("artifacts_dir = \"out\"\nsmart_contract_sources = [1, 2]\n") {
        Err(ConfigFormatError::InvalidField(k)) => assert_eq!(k, "smart_contract_sources"),
        other => panic!("unexpected {:?}", other),
    }
    match ProjectConfig::from_toml("artifacts_dir = \"out\"\nsmart_contract_sources = \"src\"\n") {
        Err(ConfigFormatError::InvalidField(k)) => assert_eq!(k, "smart_contract_sources"),
        other => panic!("unexpected {:?}", other),
    }
}

#[test]
fn extra_config_keys_are_ignored() {
    let text = "name = \"demo\"\nartifacts_dir = \"out\"\nsmart_contract_sources = []\n";
    let config = ProjectConfig::from_toml(text).unwrap();
    assert_eq!(config.artifacts_dir, "out");
    assert!(config.smart_contract_sources.is_empty());
}

#[test]
fn config_round_trips_through_toml() {
    let config = ProjectConfig {
        artifacts_dir: "target/abi".to_string(),
        smart_contract_sources: strings(&["contracts/**", "vendor/*.sol", ""]),
    };
    let text = config.to_toml().unwrap();
    assert_eq!(ProjectConfig::from_toml(&text).unwrap(), config);
    let empty = ProjectConfig { artifacts_dir: "out".to_string(), smart_contract_sources: Vec::new() };
    assert_eq!(ProjectConfig::from_toml(&empty.to_toml().unwrap()).unwrap(), empty);
}

#[test]
fn to_toml_entries_lists_both_fields() {
    let config = ProjectConfig { artifacts_dir: "out".to_string(), smart_contract_sources: strings(&["a"]) };
    let entries = config.to_toml_entries();
    assert_eq!(entries.len(), 2);
    assert_eq!(entries[0].0, "artifacts_dir");
    assert_eq!(entries[1].0, "smart_contract_sources");
}

#[test]
fn find_entry_takes_the_first_match() {
    let entries = vec![
        ("a".to_string(), TomlItem::Other),
        ("b".to_string(), TomlItem::Text("one".to_string())),
        ("b".to_string(), TomlItem::Text("two".to_string())),
    ];
    assert_eq!(find_entry(&entries, "b"), Some(&TomlItem::Text("one".to_string())));
    assert_eq!(find_entry(&entries, "c"), None);
}

#[test]
fn text_elements_requires_all_strings() {
    let good = vec![Some("x".to_string()), Some("y".to_string())];
    assert_eq!(text_elements(&good), Some(strings(&["x", "y"])));
    let bad = vec![Some("x".to_string()), None];
    assert_eq!(text_elements(&bad), None);
    assert_eq!(text_elements(&Vec::new()), Some(Vec::new()));
}

#[test]
fn reset_without_state_dir_is_refused() {
    let generator = ProjectGenerator::new();
    let plan = generator.reset_project(false, ConfigFile::Contents(custom_config_text()));
    assert!(plan.removals.is_empty());
    assert!(matches!(plan.outcome, Err(ProjectGenerationError::VibraniumDirectoryNotFound)));
}

#[test]
fn reset_removes_state_and_artifacts() {
    let generator = ProjectGenerator::new();
    let plan = generator.reset_project(true, ConfigFile::Missing);
    assert_eq!(plan.removals, strings(&[".vibranium", "artifacts"]));
    assert!(plan.outcome.is_ok());
    let plan = generator.reset_project(true, ConfigFile::Contents(custom_config_text()));
    assert_eq!(plan.removals, strings(&[".vibranium", "artifacts", "build"]));
    assert!(plan.outcome.is_ok());
}

#[test]
fn reset_reports_bad_config_after_cleanup() {
    let generator = ProjectGenerator::new();
    let plan = generator.reset_project(true, ConfigFile::Contents("artifacts_dir = [".to_string()));
    assert_eq!(plan.removals, strings(&[".vibranium", "artifacts"]));
    assert!(matches!(plan.outcome, Err(ProjectGenerationError::ConfigDeserialization(_))));
    let err = IoError::new(IoErrorKind::Other, "disk".to_string());
    let plan = generator.reset_project(true, ConfigFile::Unreadable(err));
    assert!(matches!(plan.outcome, Err(ProjectGenerationError::Io(_))));
}

#[test]
fn reset_then_generate_restores_project() {
    let vibranium = Vibranium::new("/tmp/project".to_string());
    let reset = vibranium.reset_project(true, ConfigFile::Contents(custom_config_text()));
    assert_eq!(reset.removals, strings(&[".vibranium", "artifacts", "build"]));
    let plan = vibranium
        .generate_after_reset(reset.outcome, true, ConfigFile::Contents(custom_config_text()))
        .unwrap();
    assert!(plan.config_text.is_none());
    assert_eq!(plan.directories, strings(&[".vibranium", "contracts", "build"]));
}

#[test]
fn failed_reset_skips_generation() {
    let vibranium = Vibranium::new("p".to_string());
    let reset = vibranium.reset_project(false, ConfigFile::Missing);
    let r = vibranium.generate_after_reset(reset.outcome, true, ConfigFile::Missing);
    assert!(matches!(r, Err(ProjectGenerationError::VibraniumDirectoryNotFound)));
}

#[test]
fn init_project_delegates_to_generator() {
    let vibranium = Vibranium::new("p".to_string());
    assert_eq!(vibranium.project_path(), "p");
    let plan = vibranium.init_project(true, ConfigFile::Missing).unwrap();
    assert_eq!(plan.directories, strings(&[".vibranium", "contracts", "artifacts"]));
    assert!(matches!(
        vibranium.init_project(false, ConfigFile::Missing),
        Err(ProjectGenerationError::ProjectPathNotFound)
    ));
}

#[test]
fn compile_requires_initialized_project() {
    let vibranium = Vibranium::new("p".to_string());
    let r = vibranium.check_compile_ready(false);
    assert!(matches!(
        r,
        Err(CompilerError::VibraniumDirectoryNotFound(ProjectGenerationError::VibraniumDirectoryNotFound))
    ));
    assert!(vibranium.check_compile_ready(true).is_ok());
}

#[test]
fn check_vibranium_dir_exists_reports_missing_dir() {
    let generator = ProjectGenerator::new();
    assert!(generator.check_vibranium_dir_exists(true).is_ok());
    assert!(matches!(
        generator.check_vibranium_dir_exists(false),
        Err(ProjectGenerationError::VibraniumDirectoryNotFound)
    ));
}

#[test]
fn compiler_error_descriptions() {
    let missing = CompilerError::Io(IoError::new(IoErrorKind::NotFound, "no such file".to_string()));
    assert_eq!(missing.description(), "Couldn't find executable for requested compiler");
    let other = CompilerError::Io(IoError::new(IoErrorKind::Other, "broken pipe".to_string()));
    assert_eq!(other.description(), "broken pipe");
    let gate = CompilerError::VibraniumDirectoryNotFound(ProjectGenerationError::VibraniumDirectoryNotFound);
    assert_eq!(gate.description(), "Not a Vibranium project: couldn't find .vibranium directory");
    let invalid = CompilerError::InvalidConfig(ConfigError { message: "unknown compiler".to_string() });
    assert_eq!(invalid.description(), "unknown compiler");
}

#[test]
fn generation_error_descriptions() {
    assert_eq!(
        ProjectGenerationError::ProjectPathNotFound.description(),
        "Couldn't find directory for given project path"
    );
    let not_found = ProjectGenerationError::Io(IoError::new(IoErrorKind::NotFound, "x".to_string()));
    assert_eq!(not_found.description(), "Couldn't find file or directory");
    let other = ProjectGenerationError::Io(IoError::new(IoErrorKind::AlreadyExists, "exists".to_string()));
    assert_eq!(other.description(), "exists");
    let bad = ProjectGenerationError::ConfigDeserialization(ConfigFormatError::MissingField("k".to_string()));
    assert_eq!(bad.description(), "Couldn't deserialize Vibranium config");
}

#[test]
fn default_config_values() {
    let config = ProjectGenerator::new().default_config();
    assert_eq!(config.artifacts_dir, "artifacts");
    assert_eq!(config.smart_contract_sources, strings(&["contracts/**"]));
    assert!(IoError::new(IoErrorKind::NotFound, String::new()).is_not_found());
}

fn config_with_artifacts(dir: &str) -> String {
    format!("artifacts_dir = \"{}\"\nsmart_contract_sources = [\"contracts/**\"]\n", dir)
}

#[test]
fn any_artifacts_dir_is_read() {
    for dir in ["", ".", "..", "/abs", "a/../b", "./build", "build/", "c:build", "target/abi", "a..b"] {
        assert_eq!(ProjectConfig::from_toml(&config_with_artifacts(dir)).unwrap().artifacts_dir, dir);
    }
}

#[test]
fn trailing_separator_round_trips() {
    let config = ProjectConfig { artifacts_dir: "build/".to_string(), smart_contract_sources: strings(&["src/*.sol"]) };
    let text = config.to_toml().unwrap();
    assert_eq!(ProjectConfig::from_toml(&text).unwrap(), config);
}

#[test]
fn relative_dir_names() {
    assert!(is_relative_dir_name("build/abi"));
    assert!(is_relative_dir_name("build/"));
    assert!(is_relative_dir_name(".build"));
    assert!(!is_relative_dir_name("../build"));
    assert!(!is_relative_dir_name("a/./b"));
    assert!(!is_relative_dir_name("."));
    assert!(!is_relative_dir_name(""));
    assert!(!is_relative_dir_name("/"));
    assert!(!is_relative_dir_name("/abs"));
    assert!(!is_relative_dir_name("c:build"));
}

#[test]
fn reset_never_removes_outside_the_project() {
    let generator = ProjectGenerator::new();
    for dir in ["", ".", "..", "/abs", "a/../..", "./"] {
        let plan = generator.reset_project(true, ConfigFile::Contents(config_with_artifacts(dir)));
        assert_eq!(plan.removals, strings(&[".vibranium", "artifacts"]), "{}", dir);
        assert!(plan.outcome.is_ok());
    }
    let plan = generator.reset_project(true, ConfigFile::Contents(config_with_artifacts("build/")));
    assert_eq!(plan.removals, strings(&[".vibranium", "artifacts", "build/"]));
}

#[test]
fn within_compares_components() {
    assert!(is_within("contracts", "contracts"));
    assert!(is_within("contracts/build", "contracts"));
    assert!(is_within("contracts\\build", "contracts"));
    assert!(!is_within("contracts2", "contracts"));
    assert!(!is_within("contract", "contracts"));
    assert!(!is_within("build/contracts", "contracts"));
}

#[test]
fn reset_spares_contracts_and_config_file() {
    let generator = ProjectGenerator::new();
    for dir in ["contracts", "contracts/", "contracts/build", "vibranium.toml"] {
        let plan = generator.reset_project(true, ConfigFile::Contents(config_with_artifacts(dir)));
        assert_eq!(plan.removals, strings(&[".vibranium", "artifacts"]), "{}", dir);
        assert!(plan.outcome.is_ok());
    }
    let plan = generator.reset_project(true, ConfigFile::Contents(config_with_artifacts("contracts2")));
    assert_eq!(plan.removals, strings(&[".vibranium", "artifacts", "contracts2"]));
}

#[test]
fn deeply_nested_config_is_refused() {
    let text = format!("artifacts_dir = {}", "[".repeat(100_000));
    assert!(matches!(ProjectConfig::from_toml(&text), Err(ConfigFormatError::TooManyNestingMarks)));
    let generator = ProjectGenerator::new();
    let plan = generator.reset_project(true, ConfigFile::Contents(text));
    assert!(matches!(
        plan.outcome,
        Err(ProjectGenerationError::ConfigDeserialization(ConfigFormatError::TooManyNestingMarks))
    ));
}

#[test]
fn long_dotted_key_is_refused() {
    let key = vec!["a"; 100_000].join(".");
    let text = format!("{} = 1\n", key);
    assert!(matches!(ProjectConfig::from_toml(&text), Err(ConfigFormatError::TooManyNestingMarks)));
    let header = format!("[{}]\n", key);
    assert!(matches!(ProjectConfig::from_toml(&header), Err(ConfigFormatError::TooManyNestingMarks)));
}

#[test]
fn nesting_marks_are_counted() {
    assert_eq!(count_nesting_marks("a = [1, {b = [2]}]\n[t]"), 4);
    assert_eq!(count_nesting_marks("a.b.c = 1.5"), 3);
    assert_eq!(count_nesting_marks(""), 0);
}

#[test]
fn texts_at_the_limit_are_parsed() {
    let arrays = format!(
        "artifacts_dir = \"out\"\nsmart_contract_sources = {}{}",
        "[".repeat(MAX_NESTING_MARKS),
        "]".repeat(MAX_NESTING_MARKS)
    );
    assert!(matches!(ProjectConfig::from_toml(&arrays), Err(ConfigFormatError::InvalidField(_))));
    let dotted = format!("{} = 1\n", vec!["a"; MAX_NESTING_MARKS + 1].join("."));
    assert!(matches!(ProjectConfig::from_toml(&dotted), Err(ConfigFormatError::MissingField(_))));
    let header = format!("[{}]\n", vec!["a"; MAX_NESTING_MARKS].join("."));
    assert!(matches!(ProjectConfig::from_toml(&header), Err(ConfigFormatError::MissingField(_))));
}
