use flo_client::config::{ClientConfig, ConfigError, EnvOverrides, CONNECT_WS_PORT};

fn no_env() -> EnvOverrides {
    EnvOverrides {
        local_port: None,
        user_data_path: None,
        installation_path: None,
        lobby_domain: None,
    }
}

fn port_env(text: &str) -> EnvOverrides {
    EnvOverrides {
        local_port: Some(text.to_string()),
        ..no_env()
    }
}

#[test]
fn default_config() {
    let config = ClientConfig::default();
    assert_eq!(config.local_port, CONNECT_WS_PORT);
    assert_eq!(config.local_port, 3551);
    assert_eq!(config.user_data_path, None);
    assert_eq!(config.installation_path, None);
    assert_eq!(config.lobby_domain, "service.w3flo.com");
}

#[test]
fn from_env_without_variables_is_default() {
    assert_eq!(ClientConfig::from_env(no_env()), Ok(ClientConfig::default()));
}

#[test]
fn from_env_overrides_every_field() {
    let env = EnvOverrides {
        local_port: Some("8080".to_string()),
        user_data_path: Some("C:\\Users\\fluxx\\OneDrive\\Documents\\Warcraft III".to_string()),
        installation_path: Some("C:\\Program Files (x86)\\Warcraft III".to_string()),
        lobby_domain: Some("lobby.example".to_string()),
    };
    let config = ClientConfig::from_env(env).unwrap();
    assert_eq!(config.local_port, 8080);
    assert_eq!(
        config.user_data_path.as_deref(),
        Some("C:\\Users\\fluxx\\OneDrive\\Documents\\Warcraft III")
    );
    assert_eq!(
        config.installation_path.as_deref(),
        Some("C:\\Program Files (x86)\\Warcraft III")
    );
    assert_eq!(config.lobby_domain, "lobby.example");
}

#[test]
fn port_texts_that_denote_a_port() {
    assert_eq!(ClientConfig::from_env(port_env("80")).unwrap().local_port, 80);
    assert_eq!(ClientConfig::from_env(port_env("+80")).unwrap().local_port, 80);
    assert_eq!(ClientConfig::from_env(port_env("0080")).unwrap().local_port, 80);
    assert_eq!(ClientConfig::from_env(port_env("0")).unwrap().local_port, 0);
    assert_eq!(ClientConfig::from_env(port_env("65535")).unwrap().local_port, 65535);
    assert_eq!(ClientConfig::from_env(port_env("0000065535")).unwrap().local_port, 65535);
}

#[test]
fn port_texts_that_denote_none_leave_the_port() {
    for text in ["", "+", "-", "-1", "65536", "99999999999", "80 ", " 80", "8_0", "0x50", "++1", "abc", "\u{663}"] {
        let config = ClientConfig::from_env(port_env(text)).unwrap();
        assert_eq!(config.local_port, CONNECT_WS_PORT, "text {:?}", text);
    }
}

#[test]
fn apply_env_keeps_unset_fields() {
    let mut config = ClientConfig {
        local_port: 1234,
        user_data_path: Some("data".to_string()),
        installation_path: None,
        lobby_domain: "a.example".to_string(),
    };
    config.apply_env(EnvOverrides {
        installation_path: Some("install".to_string()),
        ..no_env()
    });
    assert_eq!(
        config,
        ClientConfig {
            local_port: 1234,
            user_data_path: Some("data".to_string()),
            installation_path: Some("install".to_string()),
            lobby_domain: "a.example".to_string(),
        }
    );
}

#[test]
fn apply_env_twice_is_apply_env_once() {
    let env = EnvOverrides {
        local_port: Some("4000".to_string()),
        user_data_path: None,
        installation_path: Some("install".to_string()),
        lobby_domain: Some("b.example".to_string()),
    };
    let mut once = ClientConfig::default();
    once.apply_env(env.clone());
    let mut twice = ClientConfig::default();
    twice.apply_env(env.clone());
    twice.apply_env(env);
    assert_eq!(once, twice);
    assert_eq!(once.local_port, 4000);
}

#[test]
fn load_applies_env_to_the_parsed_file() {
    let parsed = ClientConfig {
        local_port: 3000,
        user_data_path: None,
        installation_path: None,
        lobby_domain: "file.example".to_string(),
    };
    let loaded = ClientConfig::load(Ok(parsed), port_env("3001")).unwrap();
    assert_eq!(loaded.local_port, 3001);
    assert_eq!(loaded.lobby_domain, "file.example");
}

#[test]
fn load_hands_errors_on() {
    let err = ConfigError::Parse("missing field".to_string());
    assert_eq!(ClientConfig::load(Err(err.clone()), port_env("3001")), Err(err));
    let io = ConfigError::Io("not found".to_string());
    assert_eq!(ClientConfig::load(Err(io.clone()), no_env()), Err(io));
}

#[test]
fn test_client() {
    let table: toml::Table = toml::from_str(
        r#"user_data_path = "C:\\Users\\fluxx\\OneDrive\\Documents\\Warcraft III"
installation_path = "C:\\Program Files (x86)\\Warcraft III""#,
    )
    .unwrap();
    let text = |key: &str| table.get(key).and_then(|v| v.as_str()).map(|s| s.to_string());
    let mut config = ClientConfig::default();
    config.user_data_path = text("user_data_path");
    config.installation_path = text("installation_path");
    config.apply_env(no_env());
    assert_eq!(
        config.user_data_path.as_deref(),
        Some("C:\\Users\\fluxx\\OneDrive\\Documents\\Warcraft III")
    );
    assert_eq!(
        config.installation_path.as_deref(),
        Some("C:\\Program Files (x86)\\Warcraft III")
    );
    assert_eq!(config.local_port, CONNECT_WS_PORT);
    println!("{:?}", config);
}
