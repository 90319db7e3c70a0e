use oidc_login::config::{Config, ConfigError};

fn config_with_key(jwt_key: &str) -> Config {
    Config {
        authorization_endpoint: "https://id.example/authorize".to_string(),
        token_endpoint: "https://id.example/token".to_string(),
        client_id: "shift-app".to_string(),
        client_secret: "s3cret".to_string(),
        redirect_uri: "https://app.example/login".to_string(),
        jwt_key: jwt_key.to_string(),
    }
}

#[test]
fn hexadecimal_key_is_usable() {
    assert_eq!(config_with_key("00ff10ab").validate(), Ok(()));
    assert_eq!(config_with_key("00FF10AB").validate(), Ok(()));
}

#[test]
fn malformed_key_is_refused_at_startup() {
    assert_eq!(config_with_key("00ff1").validate(), Err(ConfigError::InvalidSigningKey));
    assert_eq!(config_with_key("key!").validate(), Err(ConfigError::InvalidSigningKey));
}
