//! The configuration of the process: where it comes from and what it holds.

use crate::error::{AppServerError, ServerFault};
use vstd::prelude::*;
use vstd::string::*;

verus! {

/// The settings of one environment.
#[derive(Debug, Clone, PartialEq, Eq)]
pub struct EnvConfig {
    pub provider_url: String,
}

/// The settings of the HTTP server.
#[derive(Debug, Clone, PartialEq, Eq)]
pub struct ServerConfig {
    pub port: String,
}

/// The whole configuration.
#[derive(Debug, Clone, PartialEq, Eq)]
pub struct AppConfig {
    pub server: ServerConfig,
    pub environment: EnvConfig,
}

/// Whether a name is one of the environments that the process runs in.
pub open spec fn is_allowed_environment(name: Seq<char>) -> bool {
    name == "dev"@ || name == "prd"@ || name == "stg"@
}

/// What came of reading the settings file of an environment.
#[derive(Debug, Clone, PartialEq, Eq)]
pub enum SettingsFile {
    /// The file could not be found or read.
    Unreadable,
    /// The file was read, but does not hold the settings of an environment.
    Malformed,
    /// The settings that the file holds.
    Loaded(EnvConfig),
}

/// A configuration that waits for the settings file of its environment.
#[derive(Debug, Clone, PartialEq, Eq)]
pub struct SettingsRequest {
    pub environment: String,
    pub port: String,
}

/// The text of the failure for an environment that is not allowed.
pub open spec fn invalid_environment_text(name: Seq<char>) -> Seq<char> {
    "Invalid environment: "@ + name
}

/// Where the settings of an environment are read from, the file's extension
/// left out.
pub open spec fn settings_source(name: Seq<char>) -> Seq<char> {
    "./src/environment/"@ + name
}

/// The text of the failure for a settings file that cannot be read.
pub open spec fn invalid_path_text(name: Seq<char>) -> Seq<char> {
    "Invalid file path: ./src/environment/"@ + name + ".toml"@
}

/// Begins the configuration from the two variables of the process
/// environment, `ENV` and `PORT`, each given if it is set. `ENV` must be set,
/// then `PORT`, and `ENV` must name an allowed environment; the first of
/// these that fails is reported.
pub fn get_app_config(env: Option<String>, port: Option<String>) -> (r: Result<
    SettingsRequest,
    AppServerError,
>)
    ensures
        match (env, port) {
            (None, _) => r matches Err(e) && e@ == ServerFault::Config("ENV is not set"@),
            (Some(_), None) => r matches Err(e) && e@ == ServerFault::Config("PORT is not set"@),
            (Some(name), Some(number)) => if is_allowed_environment(name@) {
                r matches Ok(request) && request.environment@ == name@ && request.port@
                    == number@
            } else {
                r matches Err(e) && e@ == ServerFault::Config(invalid_environment_text(name@))
            },
        },
{
    let environment = match env {
        Some(name) => name,
        None => {
            return Err(AppServerError::ConfigError(String::from_str("ENV is not set")));
        },
    };
    let port = match port {
        Some(number) => number,
        None => {
            return Err(AppServerError::ConfigError(String::from_str("PORT is not set")));
        },
    };
    let allowed = environment == String::from_str("dev") || environment == String::from_str("prd")
        || environment == String::from_str("stg");
    if !allowed {
        let message = String::from_str("Invalid environment: ").concat(environment.as_str());
        return Err(AppServerError::ConfigError(message));
    }
    Ok(SettingsRequest { environment, port })
}

impl SettingsRequest {
    /// Where the settings of the environment are to be read from, the file's
    /// extension left out.
    pub fn source(&self) -> (path: String)
        ensures
            path@ == settings_source(self.environment@),
    {
        String::from_str("./src/environment/").concat(self.environment.as_str())
    }

    /// Completes the configuration with what came of reading the settings
    /// file: the port from the process environment and the settings from the
    /// file, or the failure that the file stands for.
    pub fn resume(self, file: SettingsFile) -> (r: Result<AppConfig, AppServerError>)
        ensures
            match file {
                SettingsFile::Unreadable => r matches Err(e) && e@ == ServerFault::Config(
                    invalid_path_text(self.environment@),
                ),
                SettingsFile::Malformed => r matches Err(e) && e@ == ServerFault::Config(
                    "Invalid EnvConfig structure"@,
                ),
                SettingsFile::Loaded(settings) => r matches Ok(config) && config.server.port@
                    == self.port@ && config.environment.provider_url@ == settings.provider_url@,
            },
    {
        match file {
            SettingsFile::Unreadable => {
                let message = String::from_str("Invalid file path: ./src/environment/").concat(
                    self.environment.as_str(),
                ).concat(".toml");
                Err(AppServerError::ConfigError(message))
            },
            SettingsFile::Malformed => Err(
                AppServerError::ConfigError(String::from_str("Invalid EnvConfig structure")),
            ),
            SettingsFile::Loaded(settings) => Ok(
                AppConfig { server: ServerConfig { port: self.port }, environment: settings },
            ),
        }
    }
}

} // verus!
