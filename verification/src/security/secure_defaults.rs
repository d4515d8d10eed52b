use vstd::prelude::*;
use vstd::string::*;
use crate::time_span::TimeSpan;

verus! {

/// Configuration for secure defaults.
#[derive(Debug, Clone, Copy, PartialEq, Eq, Structural)]
pub struct SecureDefaultsConfig {
    /// Whether secure defaults are enabled
    pub enabled: bool,
    /// Whether to enforce secure defaults (fail if they can't be applied)
    pub enforce: bool,
    /// Whether to log when secure defaults are applied
    pub log_application: bool,
}

impl Default for SecureDefaultsConfig {
    fn default() -> (r: Self)
        ensures
            r.enabled && r.enforce && r.log_application,
    {
        SecureDefaultsConfig { enabled: true, enforce: true, log_application: true }
    }
}

/// A component that secure defaults are applied to, in the order in which
/// they are applied.
#[derive(Debug, Clone, Copy, PartialEq, Eq, Structural)]
pub enum DefaultsStep {
    Database,
    Storage,
    Network,
    Authentication,
    InputValidation,
    ErrorHandling,
    FileOperation,
    Configuration,
}

/// All components, in the order in which secure defaults are applied to them.
pub open spec fn all_steps() -> Seq<DefaultsStep> {
    seq![
        DefaultsStep::Database,
        DefaultsStep::Storage,
        DefaultsStep::Network,
        DefaultsStep::Authentication,
        DefaultsStep::InputValidation,
        DefaultsStep::ErrorHandling,
        DefaultsStep::FileOperation,
        DefaultsStep::Configuration,
    ]
}

/// Service that decides how secure defaults are applied; the steps it names
/// are carried out against the database and the file system by its caller.
#[derive(Debug)]
pub struct SecureDefaultsService {
    /// Configuration
    pub config: SecureDefaultsConfig,
}

impl SecureDefaultsService {
    /// Create a new service, with the default configuration when none is given.
    pub fn new(config: Option<SecureDefaultsConfig>) -> (r: Self)
        ensures
            match config {
                Some(c) => r.config == c,
                None => r.config.enabled && r.config.enforce && r.config.log_application,
            },
    {
        let config = match config {
            Some(c) => c,
            None => SecureDefaultsConfig::default(),
        };
        SecureDefaultsService { config }
    }

    /// The components to apply secure defaults to, in order: all of them when
    /// secure defaults are enabled, none otherwise.
    pub fn apply_secure_defaults(&self) -> (r: Vec<DefaultsStep>)
        ensures
            self.config.enabled ==> r@ == all_steps(),
            !self.config.enabled ==> r@.len() == 0,
    {
        if !self.config.enabled {
            return Vec::new();
        }
        let r = vec![
            DefaultsStep::Database,
            DefaultsStep::Storage,
            DefaultsStep::Network,
            DefaultsStep::Authentication,
            DefaultsStep::InputValidation,
            DefaultsStep::ErrorHandling,
            DefaultsStep::FileOperation,
            DefaultsStep::Configuration,
        ];
        assert(r@ == all_steps());
        r
    }

    /// The statements that apply secure defaults to the database, in the
    /// order in which they are run.
    pub fn database_statements(&self) -> (r: Vec<&'static str>)
        ensures
            r@.len() == 4,
            r@[0]@ == "PRAGMA busy_timeout = 5000"@,
            r@[1]@ == "PRAGMA journal_mode = WAL"@,
            r@[2]@ == "PRAGMA synchronous = NORMAL"@,
            r@[3]@ == "PRAGMA foreign_keys = ON"@,
    {
        vec![
            "PRAGMA busy_timeout = 5000",
            "PRAGMA journal_mode = WAL",
            "PRAGMA synchronous = NORMAL",
            "PRAGMA foreign_keys = ON",
        ]
    }
}

/// Database secure defaults.
#[derive(Debug)]
pub struct DatabaseSecureDefaults;

/// The connection parameters appended to a database path.
pub open spec fn connection_params() -> Seq<char> {
    "?mode=rwc&cache=shared&_journal_mode=WAL&_synchronous=NORMAL&_foreign_keys=ON&_busy_timeout=5000"@
}

impl DatabaseSecureDefaults {
    /// Get the secure connection string for an SQLite database at `path`.
    pub fn get_connection_string(path: &str) -> (r: String)
        ensures
            r@ == path@ + connection_params(),
    {
        let mut s = path.to_owned();
        s.append("?mode=rwc&cache=shared&_journal_mode=WAL&_synchronous=NORMAL&_foreign_keys=ON&_busy_timeout=5000");
        s
    }

    /// Get the secure SQLite pragmas.
    pub fn get_pragmas() -> (r: Vec<&'static str>)
        ensures
            r@.len() == 4,
            r@[0]@ == "PRAGMA journal_mode = WAL"@,
            r@[1]@ == "PRAGMA synchronous = NORMAL"@,
            r@[2]@ == "PRAGMA foreign_keys = ON"@,
            r@[3]@ == "PRAGMA busy_timeout = 5000"@,
    {
        vec![
            "PRAGMA journal_mode = WAL",
            "PRAGMA synchronous = NORMAL",
            "PRAGMA foreign_keys = ON",
            "PRAGMA busy_timeout = 5000",
        ]
    }
}

/// Network secure defaults.
#[derive(Debug)]
pub struct NetworkSecureDefaults;

impl NetworkSecureDefaults {
    /// Get the secure timeout: 30 seconds.
    pub fn get_timeout() -> (r: TimeSpan)
        ensures
            r.millis == 30_000,
    {
        TimeSpan::from_secs(30)
    }

    /// Get the secure keepalive interval: 20 seconds.
    pub fn get_keepalive_interval() -> (r: TimeSpan)
        ensures
            r.millis == 20_000,
    {
        TimeSpan::from_secs(20)
    }

    /// Whether TLS is used: always, by default.
    pub fn get_tls_config() -> (r: bool)
        ensures
            r,
    {
        true
    }
}

/// Authentication secure defaults.
#[derive(Debug)]
pub struct AuthenticationSecureDefaults;

impl AuthenticationSecureDefaults {
    /// Get the number of password hashing iterations.
    pub fn get_password_hashing_iterations() -> (r: u32)
        ensures
            r == 100_000,
    {
        100_000
    }

    /// Get the token expiration: one hour.
    pub fn get_token_expiration() -> (r: TimeSpan)
        ensures
            r.millis == 3_600_000,
    {
        TimeSpan::from_secs(3600)
    }

    /// Get the key length in bytes (256 bits).
    pub fn get_key_length() -> (r: usize)
        ensures
            r == 32,
    {
        32
    }
}

/// Input validation secure defaults.
#[derive(Debug)]
pub struct InputValidationSecureDefaults;

impl InputValidationSecureDefaults {
    /// Get the maximum input length: 1 MiB.
    pub fn get_max_input_length() -> (r: usize)
        ensures
            r == 1024 * 1024,
    {
        1024 * 1024
    }

    /// Get the username pattern: 3 to 32 letters, digits, underscores and
    /// hyphens.
    pub fn get_username_regex() -> (r: &'static str)
        ensures
            r@ == "^[a-zA-Z0-9_-]{3,32}$"@,
    {
        "^[a-zA-Z0-9_-]{3,32}$"
    }

    /// Get the email pattern.
    pub fn get_email_regex() -> (r: &'static str)
        ensures
            r@ == "^[a-zA-Z0-9._%+-]+@[a-zA-Z0-9.-]+\\.[a-zA-Z]{2,}$"@,
    {
        "^[a-zA-Z0-9._%+-]+@[a-zA-Z0-9.-]+\\.[a-zA-Z]{2,}$"
    }
}

/// File operation secure defaults.
#[derive(Debug)]
pub struct FileOperationSecureDefaults;

impl FileOperationSecureDefaults {
    /// The name of the application's directory under the system's temporary
    /// directory.
    pub fn temp_dir_name() -> (r: &'static str)
        ensures
            r@ == "evo-pro"@,
    {
        "evo-pro"
    }

    /// Get the secure file permissions: owner read and write (0o600).
    pub fn get_file_permissions() -> (r: u32)
        ensures
            r == 0o600,
    {
        0o600
    }

    /// Get the secure directory permissions: owner read, write and execute
    /// (0o700).
    pub fn get_directory_permissions() -> (r: u32)
        ensures
            r == 0o700,
    {
        0o700
    }
}

} // verus!
