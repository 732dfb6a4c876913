use polarizer::config::{parse_u16, parse_u64, parse_usize, AppConfig, ConfigError, ConfigSource, ConfigVar};

fn empty_source() -> ConfigSource {
    ConfigSource {
        redis_uri: None,
        model_path: None,
        stream_key: None,
        consumer_group: None,
        consumer_name: None,
        batch_size: None,
        block_timeout_ms: None,
        worker_count: None,
        max_download_bytes: None,
        phash_prefix: None,
        phash_cache_ttl_secs: None,
        result_stream_key: None,
        health_port: None,
        log_level: None,
        hostname: None,
    }
}

fn minimal_source() -> ConfigSource {
    let mut src = empty_source();
    src.redis_uri = Some("redis://127.0.0.1:6379".to_string());
    src.model_path = Some("/app/model.onnx".to_string());
    src
}

#[test]
fn parse_u64_accepts_plain_and_plus_prefixed_digits() {
    assert_eq!(parse_u64("0"), Some(0));
    assert_eq!(parse_u64("5000"), Some(5000));
    assert_eq!(parse_u64("+42"), Some(42));
    assert_eq!(parse_u64("007"), Some(7));
    assert_eq!(parse_u64("18446744073709551615"), Some(u64::MAX));
}

#[test]
fn parse_u64_rejects_what_std_rejects() {
    for s in ["", "+", "-1", " 1", "1 ", "1_000", "12a", "0x10", "١٢", "18446744073709551616", "++1"] {
        assert_eq!(parse_u64(s), None, "input {s:?}");
        assert!(s.parse::<u64>().is_err(), "std accepts {s:?}");
    }
}

#[test]
fn parsers_agree_with_std() {
    for s in ["0", "1", "+9", "65535", "65536", "4294967296", "99999999999999999999", "", "x", "-0"] {
        assert_eq!(parse_u64(s), s.parse::<u64>().ok(), "u64 {s:?}");
        assert_eq!(parse_usize(s), s.parse::<usize>().ok(), "usize {s:?}");
        assert_eq!(parse_u16(s), s.parse::<u16>().ok(), "u16 {s:?}");
    }
}

#[test]
fn unset_variables_take_documented_defaults() {
    let c = AppConfig::from_source(minimal_source()).unwrap();
    assert_eq!(c.redis_uri, "redis://127.0.0.1:6379");
    assert_eq!(c.model_path, "/app/model.onnx");
    assert_eq!(c.stream_key, "polarizer:jobs");
    assert_eq!(c.consumer_group, "polarizer-workers");
    assert_eq!(c.consumer_name, "worker-0");
    assert_eq!(c.batch_size, 10);
    assert_eq!(c.block_timeout_ms, 5000);
    assert_eq!(c.worker_count, 4);
    assert_eq!(c.max_download_bytes, 20_971_520);
    assert_eq!(c.phash_prefix, "phash:");
    assert_eq!(c.phash_cache_ttl_secs, 604_800);
    assert_eq!(c.result_stream_key, "polarizer:results");
    assert_eq!(c.health_port, 9090);
    assert_eq!(c.log_level, "info");
}

#[test]
fn consumer_name_defaults_to_hostname() {
    let mut src = minimal_source();
    src.hostname = Some("node-7".to_string());
    assert_eq!(AppConfig::from_source(src).unwrap().consumer_name, "node-7");
    let mut src = minimal_source();
    src.hostname = Some("node-7".to_string());
    src.consumer_name = Some("explicit".to_string());
    assert_eq!(AppConfig::from_source(src).unwrap().consumer_name, "explicit");
}

#[test]
fn set_variables_override_defaults() {
    let mut src = minimal_source();
    src.stream_key = Some("jobs".to_string());
    src.batch_size = Some("25".to_string());
    src.block_timeout_ms = Some("100".to_string());
    src.worker_count = Some("+8".to_string());
    src.max_download_bytes = Some("1024".to_string());
    src.phash_prefix = Some("h:".to_string());
    src.phash_cache_ttl_secs = Some("60".to_string());
    src.result_stream_key = Some("out".to_string());
    src.health_port = Some("8080".to_string());
    src.log_level = Some("debug".to_string());
    let c = AppConfig::from_source(src).unwrap();
    assert_eq!(c.stream_key, "jobs");
    assert_eq!(c.batch_size, 25);
    assert_eq!(c.block_timeout_ms, 100);
    assert_eq!(c.worker_count, 8);
    assert_eq!(c.max_download_bytes, 1024);
    assert_eq!(c.phash_prefix, "h:");
    assert_eq!(c.phash_cache_ttl_secs, 60);
    assert_eq!(c.result_stream_key, "out");
    assert_eq!(c.health_port, 8080);
    assert_eq!(c.log_level, "debug");
}

#[test]
fn missing_required_variables_are_reported_in_order() {
    let e = AppConfig::from_source(empty_source()).unwrap_err();
    assert_eq!(e, ConfigError::Missing(ConfigVar::RedisUri));
    let mut src = empty_source();
    src.redis_uri = Some("redis://x".to_string());
    let e = AppConfig::from_source(src).unwrap_err();
    assert_eq!(e, ConfigError::Missing(ConfigVar::ModelPath));
    assert_eq!(ConfigVar::ModelPath.env_key(), "MODEL_PATH");
}

#[test]
fn malformed_numbers_are_reported() {
    let mut src = minimal_source();
    src.health_port = Some("70000".to_string());
    assert_eq!(AppConfig::from_source(src).unwrap_err(), ConfigError::Invalid(ConfigVar::HealthPort));
    let mut src = minimal_source();
    src.batch_size = Some("ten".to_string());
    src.health_port = Some("70000".to_string());
    assert_eq!(AppConfig::from_source(src).unwrap_err(), ConfigError::Invalid(ConfigVar::BatchSize));
    let mut src = minimal_source();
    src.phash_cache_ttl_secs = Some("-1".to_string());
    assert_eq!(
        AppConfig::from_source(src).unwrap_err(),
        ConfigError::Invalid(ConfigVar::PhashCacheTtlSecs)
    );
    assert_eq!(ConfigVar::HealthPort.integer_kind(), "u16");
    assert_eq!(ConfigVar::BatchSize.integer_kind(), "usize");
    assert_eq!(ConfigVar::PhashCacheTtlSecs.integer_kind(), "u64");
    assert_eq!(ConfigVar::PhashCacheTtlSecs.env_key(), "PHASH_CACHE_TTL_SECS");
}

#[test]
fn error_messages_name_the_variable() {
    let e = AppConfig::from_source(empty_source()).unwrap_err();
    assert_eq!(e.message(), "missing required environment variable: REDIS_URI");
    let mut src = empty_source();
    src.redis_uri = Some("redis://r".to_string());
    let e = AppConfig::from_source(src).unwrap_err();
    assert_eq!(e.message(), "missing required environment variable: MODEL_PATH");

    let mut src = minimal_source();
    src.batch_size = Some("ten".to_string());
    assert_eq!(AppConfig::from_source(src).unwrap_err().message(), "BATCH_SIZE must be a valid usize");
    let mut src = minimal_source();
    src.health_port = Some("70000".to_string());
    assert_eq!(AppConfig::from_source(src).unwrap_err().message(), "HEALTH_PORT must be a valid u16");
    let mut src = minimal_source();
    src.block_timeout_ms = Some("1.5".to_string());
    assert_eq!(
        AppConfig::from_source(src).unwrap_err().message(),
        "BLOCK_TIMEOUT_MS must be a valid u64"
    );
    assert_eq!(
        ConfigError::Invalid(ConfigVar::WorkerCount).message(),
        "WORKER_COUNT must be a valid usize"
    );
    assert_eq!(
        ConfigError::Invalid(ConfigVar::MaxDownloadBytes).message(),
        "MAX_DOWNLOAD_BYTES must be a valid u64"
    );
    assert_eq!(
        ConfigError::Invalid(ConfigVar::PhashCacheTtlSecs).message(),
        "PHASH_CACHE_TTL_SECS must be a valid u64"
    );
}
