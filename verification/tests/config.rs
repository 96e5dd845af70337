use rustdesk_ab::config::{parse_port, Config, ConfigEnv, ConfigError};

fn no_env() -> ConfigEnv {
    ConfigEnv { port: None, db_path: None, jwt_secret: None, admin_username: None, admin_password: None }
}

#[test]
fn defaults() {
    let c = Config::default();
    assert_eq!(c.port, 21114);
    assert_eq!(c.db_path, "data/db.sqlite3");
    assert_eq!(c.jwt_secret, "");
    assert_eq!(c.admin_username, "admin");
    assert_eq!(c.admin_password, "");
    assert_eq!(c.token_expiry_hours, 168);
}

#[test]
fn environment_overrides_file() {
    let env = ConfigEnv {
        port: Some("8080".to_string()),
        db_path: Some("/data/db.sqlite3".to_string()),
        jwt_secret: Some("s3cret".to_string()),
        admin_username: None,
        admin_password: Some("pw".to_string()),
    };
    let c = Config::default().with_env(env).ok().unwrap();
    assert_eq!(c.port, 8080);
    assert_eq!(c.db_path, "/data/db.sqlite3");
    assert_eq!(c.jwt_secret, "s3cret");
    assert_eq!(c.admin_username, "admin");
    assert_eq!(c.admin_password, "pw");
    assert_eq!(c.token_expiry_hours, 168);
}

#[test]
fn invalid_port_is_refused() {
    let env = ConfigEnv { port: Some("http".to_string()), ..no_env() };
    match Config::default().with_env(env) {
        Err(ConfigError::InvalidPort(p)) => assert_eq!(p, "http"),
        Ok(_) => panic!("port must be refused"),
    }
}

#[test]
fn ports_parse_like_u16() {
    for text in ["0", "1", "21114", "65535", "+80", "00080", "", "+", "-1", "65536", " 80", "80 ", "8a", "99999999999999999999"] {
        assert_eq!(parse_port(text), text.parse::<u16>().ok(), "{:?}", text);
    }
}

#[test]
fn fallback_secrets() {
    let c = Config::default().with_env(no_env()).ok().unwrap().with_fallback_secrets();
    assert_eq!(c.jwt_secret.len(), 64);
    assert!(c.jwt_secret.chars().all(|ch| ch.is_ascii_alphanumeric()));
    assert_eq!(c.admin_password, "admin");
    let again = Config::default().with_fallback_secrets();
    assert_ne!(again.jwt_secret, c.jwt_secret);

    let env = ConfigEnv { jwt_secret: Some("keep".to_string()), admin_password: Some("pw".to_string()), ..no_env() };
    let c = Config::default().with_env(env).ok().unwrap().with_fallback_secrets();
    assert_eq!(c.jwt_secret, "keep");
    assert_eq!(c.admin_password, "pw");
}
