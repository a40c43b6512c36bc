use media_collector::config::{
    default_log_directory, default_log_file_prefix, default_log_rotation, default_log_to_console,
    default_log_to_file, AppConfig, AppSettings, ChildModuleConfig, ConfigError, DatabaseConfig,
    HttpConfig, LogRotation, LoggingConfig, ModulesConfig, ParentModuleConfig, RetryConfig,
};

fn child(enabled: bool, rate: u64, key: &str) -> ChildModuleConfig {
    ChildModuleConfig {
        enabled,
        rate_limit_millis: rate,
        api_key: key.to_string(),
        requires_api_key: !key.is_empty(),
    }
}

fn sample() -> AppConfig {
    AppConfig {
        app: AppSettings { log_level: "info".to_string(), logging: LoggingConfig::default() },
        database: DatabaseConfig { host: "localhost".to_string(), port: 27017, name: "media".to_string() },
        modules: ModulesConfig {
            anime: ParentModuleConfig { enabled: true },
            manga: ParentModuleConfig::default(),
        },
        child_modules: vec![
            ("my_anime_list".to_string(), child(true, 3000, "secret")),
            ("jikan".to_string(), child(true, 1000, "")),
            ("anilist".to_string(), child(false, 500, "")),
        ],
        http: HttpConfig {
            timeout_seconds: 30,
            user_agent: "agent".to_string(),
            default_rate_limit_millis: 2000,
            retry: RetryConfig { max_retries: 3, base_delay_ms: 1000, max_delay_ms: 60000 },
        },
    }
}

#[test]
fn child_module_validation() {
    let c = sample();
    assert_eq!(c.validate_child_module("my_anime_list", true), Ok(()));
    assert_eq!(c.validate_child_module("jikan", false), Ok(()));
    assert_eq!(
        c.validate_child_module("jikan", true),
        Err(ConfigError::MissingApiKey("jikan".to_string()))
    );
    assert_eq!(
        c.validate_child_module("anilist", false),
        Err(ConfigError::Invalid("Module 'anilist' is disabled".to_string()))
    );
    assert_eq!(
        c.validate_child_module("kitsu", false),
        Err(ConfigError::Invalid("Module 'kitsu' not found in configuration".to_string()))
    );
    assert!(c.can_start_child_module("my_anime_list", true));
    assert!(!c.can_start_child_module("anilist", false));
}

#[test]
fn child_module_lookups() {
    let c = sample();
    assert!(c.is_child_module_enabled("jikan"));
    assert!(!c.is_child_module_enabled("anilist"));
    assert!(!c.is_child_module_enabled("kitsu"));
    assert_eq!(c.get_rate_limit("my_anime_list"), 3000);
    assert_eq!(c.get_rate_limit("jikan"), 1000);
    assert_eq!(c.get_rate_limit("kitsu"), 2000);
    assert_eq!(c.get_api_key("my_anime_list"), Some("secret".to_string()));
    assert_eq!(c.get_api_key("jikan"), None);
    assert_eq!(c.get_api_key("kitsu"), None);
    assert_eq!(c.get_child_module_config("anilist").map(|m| m.rate_limit_millis), Some(500));
}

#[test]
fn parent_modules() {
    let c = sample();
    assert!(c.is_parent_module_enabled("anime"));
    assert!(!c.is_parent_module_enabled("manga"));
    assert!(!c.is_parent_module_enabled("music"));
}

#[test]
fn logging_defaults() {
    let l = LoggingConfig::default();
    assert!(l.log_to_file && l.log_to_console);
    assert_eq!(l.log_directory, "./logs");
    assert_eq!(l.log_file_prefix, "media-collector");
    assert_eq!(l.log_rotation, LogRotation::Daily);
    assert!(default_log_to_file());
    assert!(default_log_to_console());
    assert_eq!(default_log_directory(), "./logs");
    assert_eq!(default_log_file_prefix(), "media-collector");
    assert_eq!(default_log_rotation(), LogRotation::Daily);
    assert!(!ParentModuleConfig::default().enabled);
}

#[test]
fn module_names_must_be_unique() {
    let mut c = sample();
    assert!(c.has_unique_module_names());
    c.child_modules.push(("jikan".to_string(), child(false, 9000, "other")));
    assert!(!c.has_unique_module_names());
}
