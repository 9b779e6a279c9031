use mangater::cli::engine::{config_file_or_default, DEFAULT_CONFIG_FILE};
use mangater::cli::{build_engine, list_domains, scrap, ConfigMode, LogLevel, ScrapArgs};
use mangater::entity::{ConfigEntry, ConfigValue};
use mangater::errors::SdkError;
use mangater::orchestration::{AppConfigJson5, ConfigLoad};
use mangater::traits::Registry;

fn entry(key: &str, value: ConfigValue) -> ConfigEntry {
    ConfigEntry { key: key.to_string(), value }
}

fn document(plugins: Vec<ConfigEntry>) -> ConfigLoad {
    ConfigLoad::Parsed(AppConfigJson5 { global: ConfigValue::Null, plugins })
}

#[test]
fn test_engine_registry_list_domains() {
    let mut engine = build_engine("config.json5", document(Vec::new())).unwrap();
    let domains = engine.registry().list_registered_domains();

    assert!(!domains.is_empty());
    assert_eq!(domains.contains(&"wikipedia".to_string()), true);
}

#[test]
fn test_cmd_list_domains() {
    let result = list_domains("config.json5", document(Vec::new()));
    assert!(result.is_ok());

    let domains = result.unwrap();
    assert!(!domains.is_empty());
    assert_eq!(domains.contains(&"wikipedia".to_string()), true);
}

#[test]
fn the_log_levels_by_name() {
    assert_eq!(LogLevel::Trace.to_string(), "trace");
    assert_eq!(LogLevel::Debug.to_string(), "debug");
    assert_eq!(LogLevel::Info.to_string(), "info");
    assert_eq!(LogLevel::Warn.to_string(), "warn");
    assert_eq!(LogLevel::Error.to_string(), "error");
}

#[test]
fn the_defaults_of_the_command_line() {
    assert_eq!(LogLevel::default(), LogLevel::Info);
    assert_eq!(ConfigMode::default(), ConfigMode::Json);
    assert_eq!(DEFAULT_CONFIG_FILE, "config.json5");
    assert_eq!(config_file_or_default(None), "config.json5");
    assert_eq!(config_file_or_default(Some("my.json".to_string())), "my.json");
}

#[test]
fn scrap_accepts_every_address() {
    let args = ScrapArgs { url: "https://en.wikipedia.org/wiki/NoSQL".to_string(), output: None };
    assert!(scrap(args).is_ok());
    let args = ScrapArgs { url: String::new(), output: Some("out.txt".to_string()) };
    assert!(scrap(args).is_ok());
}

#[test]
fn the_engine_registers_wikipedia_with_its_settings() {
    let plugins = vec![entry(
        "wikipedia",
        ConfigValue::Table(vec![entry("need_content", ConfigValue::Bool(true))]),
    )];
    let mut engine = build_engine("config.json5", document(plugins)).unwrap();
    assert_eq!(engine.config().expect("a configuration").plugins.len(), 1);
    assert_eq!(engine.registry().list_registered_domains(), vec!["wikipedia".to_string()]);
    let found = engine
        .registry()
        .resolve_domain("https://en.wikipedia.org/wiki/NoSQL")
        .expect("the wikipedia handler");
    assert_eq!(found.get_domain_key(), "wikipedia");
    assert_eq!(found.get_domain_registerable().match_patterns(&[]).len(), 2);
    assert!(engine.registry().resolve_domain("https://example.org/").is_none());
}

#[test]
fn the_engine_registers_wikipedia_with_the_defaults() {
    let plugins = vec![entry("other", ConfigValue::Bool(true))];
    let mut engine = build_engine("config.json5", document(plugins)).unwrap();
    let found = engine
        .registry()
        .resolve_domain("https://de.wikipedia.org/")
        .expect("the wikipedia handler");
    assert_eq!(found.get_domain_registerable().match_patterns(&[]).len(), 1);
}

#[test]
fn no_engine_without_a_configuration() {
    match build_engine("conf.json5", ConfigLoad::Unreadable("denied".to_string())) {
        Err(SdkError::InvalidConfig(detail)) => assert_eq!(detail, "conf.json5 - denied"),
        _ => panic!("expected an invalid configuration"),
    }
    match build_engine("conf.json5", ConfigLoad::Malformed("unexpected end".to_string())) {
        Err(SdkError::InvalidConfig(detail)) => assert_eq!(detail, "conf.json5 - unexpected end"),
        _ => panic!("expected an invalid configuration"),
    }
    match list_domains("etc/conf.json", ConfigLoad::Malformed("unexpected end".to_string())) {
        Err(SdkError::InvalidConfig(detail)) => {
            assert_eq!(detail, "etc/conf.json - unexpected end")
        }
        _ => panic!("expected an invalid configuration"),
    }
}

#[test]
fn no_engine_with_a_block_that_does_not_decode() {
    let plugins = vec![entry("wikipedia", ConfigValue::Text("on".to_string()))];
    match build_engine("config.json5", document(plugins)) {
        Err(SdkError::InvalidConfig(detail)) => assert_eq!(
            detail,
            "config.json5 - invalid type: expected the settings of wikipedia as a table or a list"
        ),
        _ => panic!("expected an invalid configuration"),
    }
    let plugins = vec![entry(
        "wikipedia",
        ConfigValue::Table(vec![entry("need_content", ConfigValue::Text("yes".to_string()))]),
    )];
    match list_domains("config.json5", document(plugins)) {
        Err(SdkError::InvalidConfig(detail)) => assert_eq!(
            detail,
            "config.json5 - invalid type: expected need_content as a boolean"
        ),
        _ => panic!("expected an invalid configuration"),
    }
}

#[test]
fn the_engine_extracts_the_plan_of_wikipedia() {
    let plugins = vec![entry(
        "wikipedia",
        ConfigValue::Table(vec![entry("need_content", ConfigValue::Bool(true))]),
    )];
    let engine = build_engine("config.json5", document(plugins)).unwrap();
    let extraction = engine
        .extract("https://en.wikipedia.org/wiki/NoSQL", &[])
        .expect("the wikipedia handler");
    assert_eq!(extraction.results.len(), 2);
    assert_eq!(extraction.results[0].pattern, "img");
    assert_eq!(extraction.results[1].pattern, "#mw-content-text");
    assert!(matches!(extraction.offer.persist(&extraction.results[0], vec![1, 2]), Ok(false)));
    assert!(engine.extract("http://en.wikipedia.org/wiki/NoSQL", &[]).is_none());
}

#[test]
fn the_engine_takes_a_block_written_as_a_list() {
    let plugins = vec![entry("wikipedia", ConfigValue::List(vec![ConfigValue::Bool(true)]))];
    let engine = build_engine("config.json5", document(plugins)).unwrap();
    let extraction = engine
        .extract("https://en.wikipedia.org/wiki/NoSQL", &[])
        .expect("the wikipedia handler");
    assert_eq!(extraction.results.len(), 2);
    let plugins = vec![entry("wikipedia", ConfigValue::List(Vec::new()))];
    let engine = build_engine("config.json5", document(plugins)).unwrap();
    let extraction = engine
        .extract("https://en.wikipedia.org/wiki/NoSQL", &[])
        .expect("the wikipedia handler");
    assert_eq!(extraction.results.len(), 1);
}
