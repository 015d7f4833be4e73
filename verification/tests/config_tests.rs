use streamserver::config::{str_to_level, AppConfig, LogConf, LogLevel, ServerConf, StreamConf};

#[test]
fn test_log_conf_defaults() {
    let conf = LogConf::default();
    assert_eq!(conf.level, "info");
    assert_eq!(conf.file, "");
    assert!(!conf.rotate);
}

#[test]
fn test_server_conf_defaults() {
    let conf = ServerConf::default();
    assert_eq!(conf.host, "127.0.0.1");
    assert_eq!(conf.port, 8080);
    assert_eq!(conf.api_addr, "http://[::1]:9082");
    assert_eq!(conf.api_secret, "secret");
}

#[test]
fn test_stream_conf_defaults() {
    let conf = StreamConf::default();
    assert_eq!(conf.host, "127.0.0.1");
    assert_eq!(conf.port, 8081);
    assert!(conf.temp_hls_path.ends_with("/stream-hls"));
    assert_eq!(conf.hls_fragment_seconds, 1);
    assert_eq!(conf.hls_fragment_max_count, 10);
}

#[test]
fn test_app_config_defaults() {
    let conf = AppConfig::default();
    assert!(!conf.debug);
    assert_eq!(conf.log.level, "info");
    assert_eq!(conf.server.port, 8080);
    assert_eq!(conf.stream.port, 8081);
}

#[test]
fn test_get_self_addr() {
    let conf = ServerConf::default();
    assert_eq!(conf.get_self_addr(), "127.0.0.1:8080");
    let mut other = ServerConf::default();
    other.host = "0.0.0.0".to_string();
    other.port = 9;
    assert_eq!(other.get_self_addr(), "0.0.0.0:9");
}

#[test]
fn test_str_to_level_known_names() {
    assert_eq!(str_to_level("error"), LogLevel::Error);
    assert_eq!(str_to_level("warn"), LogLevel::Warn);
    assert_eq!(str_to_level("info"), LogLevel::Info);
    assert_eq!(str_to_level("debug"), LogLevel::Debug);
}

#[test]
fn test_str_to_level_is_case_insensitive() {
    // A comparison on the raw text would fall back to the default here.
    assert_eq!(str_to_level("ERROR"), LogLevel::Error);
    assert_eq!(str_to_level("Warn"), LogLevel::Warn);
    assert_eq!(str_to_level("DeBuG"), LogLevel::Debug);
}

#[test]
fn test_str_to_level_unknown_names_default_to_info() {
    assert_eq!(str_to_level("trace"), LogLevel::Info);
    assert_eq!(str_to_level(""), LogLevel::Info);
}
