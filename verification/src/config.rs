//! The settings the server starts with.
//!
//! Settings are read once, at start-up, and handed on as a value. Reading
//! the process environment is left to the caller: it passes what it found,
//! and the rules here say what that amounts to.

use crate::text::parse_decimal;
use crate::text::parsed_decimal;
use vstd::prelude::*;
use vstd::string::*;

verus! {

/// The address the server binds to when none is given.
pub open spec fn default_host() -> Seq<char> {
    "127.0.0.1"@
}

/// The settings of a running server. The code duration is in seconds.
pub struct Config {
    pub database_url: String,
    pub server_host: String,
    pub server_port: u16,
    pub frontend_build_path: String,
    pub base_url: Option<String>,
    pub confirmation_code_duration: u64,
}

/// What was found in the environment, variable by variable.
pub struct Environment {
    pub database_url: Option<String>,
    pub server_host: Option<String>,
    pub server_port: Option<String>,
    pub frontend_build_path: Option<String>,
    pub base_url: Option<String>,
    pub confirmation_code_duration_seconds: Option<String>,
}

/// Why the settings could not be read.
#[derive(Clone, Copy, Debug, PartialEq, Eq, Structural)]
pub enum ConfigError {
    DatabaseUrlMissing,
    ServerPortMissing,
    ServerPortInvalid,
    FrontendBuildPathMissing,
    CodeDurationMissing,
    CodeDurationInvalid,
}

impl ConfigError {
    /// The sentence that names the variable at fault.
    pub fn describe(&self) -> (message: String)
        ensures
            message@ == match self {
                ConfigError::DatabaseUrlMissing => "DATABASE_URL must be set"@,
                ConfigError::ServerPortMissing => "SERVER_PORT must be set"@,
                ConfigError::ServerPortInvalid => "SERVER_PORT must be a valid u16 number"@,
                ConfigError::FrontendBuildPathMissing => "FRONTEND_BUILD_PATH must be set"@,
                ConfigError::CodeDurationMissing => "CONFIRMATION_CODE_DURATION_SECONDS must be set"@,
                ConfigError::CodeDurationInvalid =>
                    "CONFIRMATION_CODE_DURATION_SECONDS must be a valid u64 number"@,
            },
    {
        match self {
            ConfigError::DatabaseUrlMissing => String::from_str("DATABASE_URL must be set"),
            ConfigError::ServerPortMissing => String::from_str("SERVER_PORT must be set"),
            ConfigError::ServerPortInvalid => String::from_str(
                "SERVER_PORT must be a valid u16 number",
            ),
            ConfigError::FrontendBuildPathMissing => String::from_str(
                "FRONTEND_BUILD_PATH must be set",
            ),
            ConfigError::CodeDurationMissing => String::from_str(
                "CONFIRMATION_CODE_DURATION_SECONDS must be set",
            ),
            ConfigError::CodeDurationInvalid => String::from_str(
                "CONFIRMATION_CODE_DURATION_SECONDS must be a valid u64 number",
            ),
        }
    }
}

/// The first thing wrong with what was found, in the order the variables
/// are looked at; nothing where the settings can be read.
pub open spec fn first_fault(env: Environment) -> Option<ConfigError> {
    if env.database_url is None {
        Some(ConfigError::DatabaseUrlMissing)
    } else if env.server_port is None {
        Some(ConfigError::ServerPortMissing)
    } else if parsed_decimal(env.server_port->Some_0@, u16::MAX as u64) is None {
        Some(ConfigError::ServerPortInvalid)
    } else if env.frontend_build_path is None {
        Some(ConfigError::FrontendBuildPathMissing)
    } else if env.confirmation_code_duration_seconds is None {
        Some(ConfigError::CodeDurationMissing)
    } else if parsed_decimal(env.confirmation_code_duration_seconds->Some_0@, u64::MAX) is None {
        Some(ConfigError::CodeDurationInvalid)
    } else {
        None
    }
}

impl Config {
    /// Reads the settings from what was found in the environment. The host
    /// defaults to the loopback address; an empty base URL counts as none.
    pub fn from_env(env: Environment) -> (r: Result<Config, ConfigError>)
        ensures
            match first_fault(env) {
                Some(fault) => r == Err::<Config, ConfigError>(fault),
                None => r is Ok && {
                    let config = r->Ok_0;
                    &&& config.database_url@ == env.database_url->Some_0@
                    &&& config.server_host@ == match env.server_host {
                        Some(host) => host@,
                        None => default_host(),
                    }
                    &&& config.server_port == parsed_decimal(
                        env.server_port->Some_0@,
                        u16::MAX as u64,
                    )->Some_0
                    &&& config.frontend_build_path@ == env.frontend_build_path->Some_0@
                    &&& match config.base_url {
                        Some(url) => env.base_url is Some && url@ == env.base_url->Some_0@
                            && url@.len() > 0,
                        None => env.base_url is None || env.base_url->Some_0@.len() == 0,
                    }
                    &&& config.confirmation_code_duration == parsed_decimal(
                        env.confirmation_code_duration_seconds->Some_0@,
                        u64::MAX,
                    )->Some_0
                },
            },
    {
        let database_url = match env.database_url {
            Some(url) => url,
            None => {
                return Err(ConfigError::DatabaseUrlMissing);
            },
        };
        let server_host = match env.server_host {
            Some(host) => host,
            None => String::from_str("127.0.0.1"),
        };
        let port_text = match env.server_port {
            Some(text) => text,
            None => {
                return Err(ConfigError::ServerPortMissing);
            },
        };
        let server_port: u16 = match parse_decimal(port_text.as_str(), u16::MAX as u64) {
            Some(port) => port as u16,
            None => {
                return Err(ConfigError::ServerPortInvalid);
            },
        };
        let frontend_build_path = match env.frontend_build_path {
            Some(path) => path,
            None => {
                return Err(ConfigError::FrontendBuildPathMissing);
            },
        };
        let base_url = match env.base_url {
            Some(url) => if url.as_str().unicode_len() > 0 {
                Some(url)
            } else {
                None
            },
            None => None,
        };
        let duration_text = match env.confirmation_code_duration_seconds {
            Some(text) => text,
            None => {
                return Err(ConfigError::CodeDurationMissing);
            },
        };
        let confirmation_code_duration = match parse_decimal(duration_text.as_str(), u64::MAX) {
            Some(seconds) => seconds,
            None => {
                return Err(ConfigError::CodeDurationInvalid);
            },
        };
        Ok(
            Config {
                database_url,
                server_host,
                server_port,
                frontend_build_path,
                base_url,
                confirmation_code_duration,
            },
        )
    }

    /// The code duration in milliseconds, where it can be represented.
    pub fn code_validity_millis(&self) -> (millis: Option<u64>)
        ensures
            match millis {
                Some(m) => m == self.confirmation_code_duration * 1000,
                None => self.confirmation_code_duration * 1000 > u64::MAX,
            },
    {
        if self.confirmation_code_duration > u64::MAX / 1000 {
            None
        } else {
            Some(self.confirmation_code_duration * 1000)
        }
    }
}

} // verus!
