use schnose_gsi_client::config::{API_KEY_HEADER, DEFAULT_API_URL};
use schnose_gsi_client::{get, ArgsError, Config, LogLevel};

#[test]
fn log_level_defaults_to_info() {
    let args = get(None, None).unwrap();
    assert_eq!(args.log_level, LogLevel::Info);
    assert_eq!(args.config_path, None);
    assert_eq!(args.log_filter(), "ERROR,schnose_gsi_client=INFO");
}

#[test]
fn log_level_names_and_numbers() {
    assert_eq!(get(Some("debug".to_string()), None).unwrap().log_level, LogLevel::Debug);
    assert_eq!(get(Some("TRACE".to_string()), None).unwrap().log_level, LogLevel::Trace);
    assert_eq!(get(Some("Warn".to_string()), None).unwrap().log_level, LogLevel::Warn);
    assert_eq!(get(Some("1".to_string()), None).unwrap().log_level, LogLevel::Error);
    assert_eq!(get(Some("+05".to_string()), None).unwrap().log_level, LogLevel::Trace);
}

#[test]
fn unknown_log_level_is_rejected() {
    for text in ["", "0", "6", "verbose", "-1", "infos"] {
        assert_eq!(get(Some(text.to_string()), None).unwrap_err(), ArgsError::UnknownLogLevel, "{text}");
    }
}

#[test]
fn config_path_is_kept() {
    let args = get(Some("error".to_string()), Some("/tmp/c.toml".to_string())).unwrap();
    assert_eq!(args.config_path.as_deref(), Some("/tmp/c.toml"));
    assert_eq!(args.log_filter(), "ERROR,schnose_gsi_client=ERROR");
}

#[test]
fn default_config() {
    let c = Config::default();
    assert_eq!(c.cfg_path, None);
    assert_eq!(c.gsi_port, 7878);
    assert_eq!(c.api_url, DEFAULT_API_URL);
    assert_eq!(c.schnose_api_key, None);
    assert!(c.notification().is_none());
}

#[test]
fn notification_carries_key() {
    let mut c = Config::default();
    c.schnose_api_key = Some("0a1b2c3d-0000-4000-8000-00000000abcd".to_string());
    let n = c.notification().unwrap();
    assert_eq!(n.url, DEFAULT_API_URL);
    assert_eq!(n.header_name, API_KEY_HEADER);
    assert_eq!(n.header_name, "x-schnose-api-key");
    assert_eq!(n.header_value, "0a1b2c3d-0000-4000-8000-00000000abcd");
}
