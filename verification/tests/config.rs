use blockchain_facade::environment::config::{
    get_app_config, AppConfig, EnvConfig, ServerConfig, SettingsFile, SettingsRequest,
};
use blockchain_facade::error::{AppServerError, BlockchainServiceError};

fn some(text: &str) -> Option<String> {
    Some(text.to_string())
}

fn config_error(message: &str) -> AppServerError {
    AppServerError::ConfigError(message.to_string())
}

#[test]
fn test_get_app_config_valid_dev_env() {
    let request = get_app_config(some("dev"), some("8080")).unwrap();
    assert_eq!(request.source(), "./src/environment/dev");
    let result = request.resume(SettingsFile::Loaded(EnvConfig {
        provider_url: "http://localhost:8080".to_string(),
    }));

    assert!(result.is_ok());
    let config = result.unwrap();
    assert_eq!(config.server.port, "8080");
    assert_eq!(config.environment.provider_url, "http://localhost:8080");
}

#[test]
fn env_must_be_set() {
    assert_eq!(get_app_config(None, some("8080")), Err(config_error("ENV is not set")));
    assert_eq!(get_app_config(None, None), Err(config_error("ENV is not set")));
}

#[test]
fn port_must_be_set() {
    assert_eq!(get_app_config(some("dev"), None), Err(config_error("PORT is not set")));
    assert_eq!(get_app_config(some("nope"), None), Err(config_error("PORT is not set")));
}

#[test]
fn only_three_environments_are_allowed() {
    for name in ["dev", "prd", "stg"] {
        assert_eq!(
            get_app_config(some(name), some("3000")),
            Ok(SettingsRequest { environment: name.to_string(), port: "3000".to_string() })
        );
    }
    for name in ["", "prod", "DEV", "dev ", "test"] {
        assert_eq!(
            get_app_config(some(name), some("3000")),
            Err(config_error(&format!("Invalid environment: {}", name)))
        );
    }
}

#[test]
fn settings_are_read_from_the_file_of_the_environment() {
    let request = get_app_config(some("stg"), some("80")).unwrap();
    assert_eq!(request.source(), "./src/environment/stg");
}

#[test]
fn a_file_that_cannot_be_read_is_reported_with_its_path() {
    let request = get_app_config(some("prd"), some("80")).unwrap();
    assert_eq!(
        request.resume(SettingsFile::Unreadable),
        Err(config_error("Invalid file path: ./src/environment/prd.toml"))
    );
}

#[test]
fn a_file_of_another_shape_is_reported() {
    let request = get_app_config(some("prd"), some("80")).unwrap();
    assert_eq!(
        request.resume(SettingsFile::Malformed),
        Err(config_error("Invalid EnvConfig structure"))
    );
}

#[test]
fn the_configuration_joins_port_and_settings() {
    let request = get_app_config(some("prd"), some("443")).unwrap();
    assert_eq!(
        request.resume(SettingsFile::Loaded(EnvConfig {
            provider_url: "https://node.example".to_string()
        })),
        Ok(AppConfig {
            server: ServerConfig { port: "443".to_string() },
            environment: EnvConfig { provider_url: "https://node.example".to_string() },
        })
    );
}

#[test]
fn a_failure_of_the_process_reads_as_its_kind_and_cause() {
    assert_eq!(
        config_error("ENV is not set").message(),
        "Configuration error: ENV is not set"
    );
    assert_eq!(
        AppServerError::IoError("address in use".to_string()).message(),
        "I/O error: address in use"
    );
    assert_eq!(
        AppServerError::BlockchainServiceError(BlockchainServiceError::EthContractError(
            "execution reverted".to_string()
        ))
        .message(),
        "Blockchain service error: Contract error: execution reverted"
    );
}
