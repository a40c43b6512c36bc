use vstd::prelude::*;

verus! {

/// Application settings as loaded from the configuration source.
#[derive(Debug, Clone)]
pub struct AppConfig {
    pub app: AppSettings,
    pub database: DatabaseConfig,
    pub modules: ModulesConfig,
    /// Child-module settings by module name, each name at most once.
    pub child_modules: Vec<(String, ChildModuleConfig)>,
    pub http: HttpConfig,
}

#[derive(Debug, Clone)]
pub struct AppSettings {
    pub log_level: String,
    pub logging: LoggingConfig,
}

#[derive(Debug, Clone)]
pub struct LoggingConfig {
    pub log_to_file: bool,
    pub log_directory: String,
    pub log_file_prefix: String,
    pub log_rotation: LogRotation,
    pub log_to_console: bool,
}

/// How often the log file rolls over.
#[derive(Debug, Clone, Copy, PartialEq, Eq, Structural)]
pub enum LogRotation {
    Daily,
    Hourly,
    Never,
}

pub fn default_log_to_file() -> (r: bool)
    ensures
        r,
{
    true
}

pub fn default_log_directory() -> (r: String)
    ensures
        r@ == "./logs"@,
{
    "./logs".to_owned()
}

pub fn default_log_file_prefix() -> (r: String)
    ensures
        r@ == "media-collector"@,
{
    "media-collector".to_owned()
}

pub fn default_log_rotation() -> (r: LogRotation)
    ensures
        r == LogRotation::Daily,
{
    LogRotation::Daily
}

pub fn default_log_to_console() -> (r: bool)
    ensures
        r,
{
    true
}

impl Default for LoggingConfig {
    /// Log to `./logs/media-collector*` rotated daily, and to the console.
    fn default() -> (r: Self)
        ensures
            r.log_to_file,
            r.log_directory@ == "./logs"@,
            r.log_file_prefix@ == "media-collector"@,
            r.log_rotation == LogRotation::Daily,
            r.log_to_console,
    {
        LoggingConfig {
            log_to_file: default_log_to_file(),
            log_directory: default_log_directory(),
            log_file_prefix: default_log_file_prefix(),
            log_rotation: default_log_rotation(),
            log_to_console: default_log_to_console(),
        }
    }
}

#[derive(Debug, Clone)]
pub struct DatabaseConfig {
    pub host: String,
    pub port: i32,
    pub name: String,
}

#[derive(Debug, Clone, Copy)]
pub struct ModulesConfig {
    pub anime: ParentModuleConfig,
    pub manga: ParentModuleConfig,
}

#[derive(Debug, Clone, Copy, PartialEq, Eq, Structural)]
pub struct ParentModuleConfig {
    pub enabled: bool,
}

impl Default for ParentModuleConfig {
    /// Disabled.
    fn default() -> (r: Self)
        ensures
            !r.enabled,
    {
        ParentModuleConfig { enabled: false }
    }
}

/// Settings of one child module (an API client). The rate is in
/// milli-requests per second.
#[derive(Debug, Clone)]
pub struct ChildModuleConfig {
    pub enabled: bool,
    pub rate_limit_millis: u64,
    pub api_key: String,
    pub requires_api_key: bool,
}

#[derive(Debug, Clone)]
pub struct HttpConfig {
    pub timeout_seconds: u64,
    pub user_agent: String,
    /// Rate for clients without settings of their own, in milli-requests
    /// per second.
    pub default_rate_limit_millis: u64,
    pub retry: RetryConfig,
}

#[derive(Debug, Clone, Copy, PartialEq, Eq, Structural)]
pub struct RetryConfig {
    pub max_retries: u32,
    pub base_delay_ms: u64,
    pub max_delay_ms: u64,
}

/// Why a child module may not start, or the configuration could not load.
#[derive(Debug, Clone, PartialEq, Eq)]
pub enum ConfigError {
    MissingApiKey(String),
    Invalid(String),
    LoadFailed(String),
}

/// The settings of the first child module of that name.
pub open spec fn find_module(list: Seq<(String, ChildModuleConfig)>, name: Seq<char>) -> Option<
    ChildModuleConfig,
>
    decreases list.len(),
{
    if list.len() == 0 {
        None
    } else if list[0].0@ == name {
        Some(list[0].1)
    } else {
        find_module(list.drop_first(), name)
    }
}

/// Text of the error for a module absent from the configuration.
pub open spec fn not_found_message(name: Seq<char>) -> Seq<char> {
    "Module '"@ + name + "' not found in configuration"@
}

/// Text of the error for a disabled module.
pub open spec fn disabled_message(name: Seq<char>) -> Seq<char> {
    "Module '"@ + name + "' is disabled"@
}

/// The outcome of validating a child module: absent or disabled modules are
/// invalid, a module that needs an API key must have a non-empty one.
pub open spec fn validation_ok(found: Option<ChildModuleConfig>, requires_api_key: bool) -> bool {
    match found {
        None => false,
        Some(c) => c.enabled && !(requires_api_key && c.api_key@.len() == 0),
    }
}

fn quoted_message(name: &str, tail: &str) -> (r: String)
    ensures
        r@ == "Module '"@ + name@ + tail@,
{
    "Module '".to_owned().concat(name).concat(tail)
}

/// No two child modules share a name.
pub open spec fn module_names_unique(list: Seq<(String, ChildModuleConfig)>) -> bool {
    forall|i: int, j: int| 0 <= i < j < list.len() ==> (#[trigger] list[i]).0@ != (#[trigger] list[j]).0@
}

impl AppConfig {
    /// Child-module names are unique, so the list is a map from name to
    /// settings.
    pub open spec fn wf(&self) -> bool {
        module_names_unique(self.child_modules@)
    }

    /// Whether no two child modules share a name.
    pub fn has_unique_module_names(&self) -> (r: bool)
        ensures
            r == self.wf(),
    {
        let n = self.child_modules.len();
        let mut j: usize = 0;
        while j < n
            invariant
                j <= n,
                n == self.child_modules@.len(),
                forall|a: int, b: int|
                    0 <= a < b < j ==> (#[trigger] self.child_modules@[a]).0@ != (
                    #[trigger] self.child_modules@[b]).0@,
            decreases n - j,
        {
            let mut i: usize = 0;
            while i < j
                invariant
                    i <= j < n,
                    n == self.child_modules@.len(),
                    forall|a: int, b: int|
                        0 <= a < b < j ==> (#[trigger] self.child_modules@[a]).0@ != (
                        #[trigger] self.child_modules@[b]).0@,
                    forall|a: int| 0 <= a < i ==> (#[trigger] self.child_modules@[a]).0@
                        != self.child_modules@[j as int].0@,
                decreases j - i,
            {
                if self.child_modules[i].0 == self.child_modules[j].0 {
                    return false;
                }
                i = i + 1;
            }
            j = j + 1;
        }
        true
    }

    /// The settings of the named child module.
    pub fn get_child_module_config(&self, module_name: &str) -> (r: Option<&ChildModuleConfig>)
        requires
            self.wf(),
        ensures
            r matches Some(c) ==> find_module(self.child_modules@, module_name@) == Some(*c),
            r is None ==> find_module(self.child_modules@, module_name@) is None,
    {
        let name = module_name.to_owned();
        let mut i: usize = 0;
        assert(self.child_modules@.subrange(0, self.child_modules@.len() as int)
            =~= self.child_modules@);
        while i < self.child_modules.len()
            invariant
                i <= self.child_modules@.len(),
                name@ == module_name@,
                find_module(self.child_modules@, module_name@) == find_module(
                    self.child_modules@.subrange(i as int, self.child_modules@.len() as int),
                    module_name@,
                ),
            decreases self.child_modules@.len() - i,
        {
            let ghost rest = self.child_modules@.subrange(i as int, self.child_modules@.len() as int);
            assert(rest[0] == self.child_modules@[i as int]);
            if self.child_modules[i].0 == name {
                return Some(&self.child_modules[i].1);
            }
            assert(rest.drop_first() =~= self.child_modules@.subrange(
                i + 1,
                self.child_modules@.len() as int,
            ));
            i = i + 1;
        }
        None
    }

    /// Checks that the named child module is configured, enabled, and has an
    /// API key when it needs one.
    pub fn validate_child_module(&self, module_name: &str, requires_api_key: bool) -> (r: Result<
        (),
        ConfigError,
    >)
        requires
            self.wf(),
        ensures
            r is Ok == validation_ok(
                find_module(self.child_modules@, module_name@),
                requires_api_key,
            ),
            match find_module(self.child_modules@, module_name@) {
                None => r matches Err(ConfigError::Invalid(m)) && m@ == not_found_message(
                    module_name@,
                ),
                Some(c) => if !c.enabled {
                    r matches Err(ConfigError::Invalid(m)) && m@ == disabled_message(module_name@)
                } else if requires_api_key && c.api_key@.len() == 0 {
                    r matches Err(ConfigError::MissingApiKey(m)) && m@ == module_name@
                } else {
                    r is Ok
                },
            },
    {
        match self.get_child_module_config(module_name) {
            None => Err(
                ConfigError::Invalid(quoted_message(module_name, "' not found in configuration")),
            ),
            Some(config) => {
                if !config.enabled {
                    Err(ConfigError::Invalid(quoted_message(module_name, "' is disabled")))
                } else if requires_api_key && config.api_key.as_str().is_empty() {
                    Err(ConfigError::MissingApiKey(module_name.to_owned()))
                } else {
                    Ok(())
                }
            },
        }
    }

    /// Whether the named child module may start.
    pub fn can_start_child_module(&self, module_name: &str, requires_api_key: bool) -> (r: bool)
        requires
            self.wf(),
        ensures
            r == validation_ok(find_module(self.child_modules@, module_name@), requires_api_key),
    {
        self.validate_child_module(module_name, requires_api_key).is_ok()
    }

    /// Whether the parent module `anime` or `manga` is enabled; false for
    /// any other name.
    pub fn is_parent_module_enabled(&self, module_name: &str) -> (r: bool)
        ensures
            r == ((module_name@ == "anime"@ && self.modules.anime.enabled) || (module_name@
                == "manga"@ && self.modules.manga.enabled)),
    {
        proof {
            reveal_strlit("anime");
            reveal_strlit("manga");
        }
        let name = module_name.to_owned();
        if name == "anime".to_owned() {
            assert(module_name@[0] == 'a' && "manga"@[0] == 'm');
            self.modules.anime.enabled
        } else if name == "manga".to_owned() {
            self.modules.manga.enabled
        } else {
            false
        }
    }

    /// Whether the named child module is configured and enabled.
    pub fn is_child_module_enabled(&self, module_name: &str) -> (r: bool)
        requires
            self.wf(),
        ensures
            r == (find_module(self.child_modules@, module_name@) matches Some(c) && c.enabled),
    {
        match self.get_child_module_config(module_name) {
            Some(c) => c.enabled,
            None => false,
        }
    }

    /// Rate of the named child module, or the default rate when it has no
    /// settings; in milli-requests per second.
    pub fn get_rate_limit(&self, module_name: &str) -> (r: u64)
        requires
            self.wf(),
        ensures
            r == match find_module(self.child_modules@, module_name@) {
                Some(c) => c.rate_limit_millis,
                None => self.http.default_rate_limit_millis,
            },
    {
        match self.get_child_module_config(module_name) {
            Some(c) => c.rate_limit_millis,
            None => self.http.default_rate_limit_millis,
        }
    }

    /// API key of the named child module, when set and non-empty.
    pub fn get_api_key(&self, module_name: &str) -> (r: Option<String>)
        requires
            self.wf(),
        ensures
            match find_module(self.child_modules@, module_name@) {
                Some(c) => if c.api_key@.len() == 0 {
                    r is None
                } else {
                    r matches Some(k) && k@ == c.api_key@
                },
                None => r is None,
            },
    {
        match self.get_child_module_config(module_name) {
            Some(c) => {
                if c.api_key.as_str().is_empty() {
                    None
                } else {
                    Some(c.api_key.clone())
                }
            },
            None => None,
        }
    }
}

} // verus!
