//! Typed service configuration, built from the raw values of the
//! environment variables that configure the service.
use vstd::prelude::*;

verus! {

// ── Decimal numbers ─────────────────────────────────────────────────────
/// An ASCII decimal digit.
pub open spec fn is_ascii_digit(c: char) -> bool {
    '0' <= c && c <= '9'
}

/// The numeric value of an ASCII decimal digit.
pub open spec fn digit_value(c: char) -> nat {
    (c as int - '0' as int) as nat
}

/// Every character of `d` is an ASCII decimal digit.
pub open spec fn all_digits(d: Seq<char>) -> bool {
    forall|i: int| 0 <= i < d.len() ==> #[trigger] is_ascii_digit(d[i])
}

/// The value of a string of decimal digits, most significant first.
pub open spec fn decimal_value(d: Seq<char>) -> nat
    decreases d.len(),
{
    if d.len() == 0 {
        0
    } else {
        decimal_value(d.drop_last()) * 10 + digit_value(d.last())
    }
}

/// The digits of an unsigned number: an optional leading `+` is dropped.
pub open spec fn unsigned_digits(s: Seq<char>) -> Seq<char> {
    if s.len() > 0 && s[0] == '+' {
        s.drop_first()
    } else {
        s
    }
}

/// What std's `FromStr` gives for an unsigned integer type whose largest
/// value is `max`: an optional `+`, then at least one ASCII digit and
/// nothing else, with a value no larger than `max`.
pub open spec fn parse_unsigned(s: Seq<char>, max: nat) -> Option<nat> {
    let d = unsigned_digits(s);
    if d.len() > 0 && all_digits(d) && decimal_value(d) <= max {
        Some(decimal_value(d))
    } else {
        None
    }
}

proof fn lemma_decimal_value_step(d: Seq<char>, k: int)
    requires
        0 <= k < d.len(),
    ensures
        decimal_value(d.take(k + 1)) == decimal_value(d.take(k)) * 10 + digit_value(d[k]),
        decimal_value(d.take(k + 1)) >= decimal_value(d.take(k)),
{
    assert(d.take(k + 1).drop_last() =~= d.take(k));
}

/// Parses `s` as a `u64` the way `str::parse::<u64>` does.
pub fn parse_u64(s: &str) -> (r: Option<u64>)
    ensures
        r == (match parse_unsigned(s@, u64::MAX as nat) {
            Some(n) => Some(n as u64),
            None => None::<u64>,
        }),
{
    let n = s.unicode_len();
    let mut start: usize = 0;
    if n > 0 && s.get_char(0) == '+' {
        start = 1;
    }
    let ghost d = unsigned_digits(s@);
    assert(d =~= s@.skip(start as int));
    if start >= n {
        return None;
    }
    let mut i: usize = start;
    let mut acc: u64 = 0;
    let mut overflow = false;
    assert(d.take(0) =~= Seq::<char>::empty());
    while i < n
        invariant
            n == s@.len(),
            start <= i <= n,
            start < n,
            d == s@.skip(start as int),
            d == unsigned_digits(s@),
            all_digits(d.take(i - start)),
            !overflow ==> acc == decimal_value(d.take(i - start)),
            overflow ==> decimal_value(d.take(i - start)) > u64::MAX,
        decreases n - i,
    {
        let c = s.get_char(i);
        proof {
            assert(d[i - start] == c);
        }
        if !('0' <= c && c <= '9') {
            proof {
                assert(!is_ascii_digit(d[i - start]));
            }
            return None;
        }
        let dv: u64 = (c as u64) - 48;
        proof {
            lemma_decimal_value_step(d, i - start);
            assert(dv == digit_value(d[i - start]));
            assert forall|j: int| 0 <= j < (i + 1 - start) implies #[trigger] is_ascii_digit(
                d.take(i + 1 - start)[j],
            ) by {
                if j < i - start {
                    assert(d.take(i + 1 - start)[j] == d.take(i - start)[j]);
                }
            }
        }
        if !overflow {
            match acc.checked_mul(10) {
                Some(m) => match m.checked_add(dv) {
                    Some(v) => {
                        acc = v;
                    },
                    None => {
                        overflow = true;
                    },
                },
                None => {
                    overflow = true;
                },
            }
        }
        i = i + 1;
    }
    assert(d.take(n - start) =~= d);
    if overflow {
        None
    } else {
        Some(acc)
    }
}

/// Parses `s` as a `usize` the way `str::parse::<usize>` does.
pub fn parse_usize(s: &str) -> (r: Option<usize>)
    ensures
        r == (match parse_unsigned(s@, usize::MAX as nat) {
            Some(n) => Some(n as usize),
            None => None::<usize>,
        }),
{
    match parse_u64(s) {
        Some(v) => {
            if v <= usize::MAX as u64 {
                Some(v as usize)
            } else {
                None
            }
        },
        None => None,
    }
}

/// Parses `s` as a `u16` the way `str::parse::<u16>` does.
pub fn parse_u16(s: &str) -> (r: Option<u16>)
    ensures
        r == (match parse_unsigned(s@, u16::MAX as nat) {
            Some(n) => Some(n as u16),
            None => None::<u16>,
        }),
{
    match parse_u64(s) {
        Some(v) => {
            if v <= 65535 {
                Some(v as u16)
            } else {
                None
            }
        },
        None => None,
    }
}


// ── Configuration ───────────────────────────────────────────────────────
/// The environment variables that configure the service.
#[derive(Debug, Clone, Copy, PartialEq, Eq, Structural)]
pub enum ConfigVar {
    RedisUri,
    ModelPath,
    StreamKey,
    ConsumerGroup,
    ConsumerName,
    BatchSize,
    BlockTimeoutMs,
    WorkerCount,
    MaxDownloadBytes,
    PhashPrefix,
    PhashCacheTtlSecs,
    ResultStreamKey,
    HealthPort,
    LogLevel,
}

/// The name of the environment variable behind each setting.
pub open spec fn spec_env_key(v: ConfigVar) -> Seq<char> {
    match v {
        ConfigVar::RedisUri => "REDIS_URI"@,
        ConfigVar::ModelPath => "MODEL_PATH"@,
        ConfigVar::StreamKey => "STREAM_KEY"@,
        ConfigVar::ConsumerGroup => "CONSUMER_GROUP"@,
        ConfigVar::ConsumerName => "CONSUMER_NAME"@,
        ConfigVar::BatchSize => "BATCH_SIZE"@,
        ConfigVar::BlockTimeoutMs => "BLOCK_TIMEOUT_MS"@,
        ConfigVar::WorkerCount => "WORKER_COUNT"@,
        ConfigVar::MaxDownloadBytes => "MAX_DOWNLOAD_BYTES"@,
        ConfigVar::PhashPrefix => "PHASH_PREFIX"@,
        ConfigVar::PhashCacheTtlSecs => "PHASH_CACHE_TTL_SECS"@,
        ConfigVar::ResultStreamKey => "RESULT_STREAM_KEY"@,
        ConfigVar::HealthPort => "HEALTH_PORT"@,
        ConfigVar::LogLevel => "LOG_LEVEL"@,
    }
}

/// The integer type a numeric setting must parse as, by name.
pub open spec fn spec_integer_kind(v: ConfigVar) -> Seq<char> {
    match v {
        ConfigVar::BatchSize | ConfigVar::WorkerCount => "usize"@,
        ConfigVar::HealthPort => "u16"@,
        _ => "u64"@,
    }
}

impl ConfigVar {
    /// The environment variable that holds this setting.
    pub fn env_key(&self) -> (r: &'static str)
        ensures
            r@ == spec_env_key(*self),
    {
        match self {
            ConfigVar::RedisUri => "REDIS_URI",
            ConfigVar::ModelPath => "MODEL_PATH",
            ConfigVar::StreamKey => "STREAM_KEY",
            ConfigVar::ConsumerGroup => "CONSUMER_GROUP",
            ConfigVar::ConsumerName => "CONSUMER_NAME",
            ConfigVar::BatchSize => "BATCH_SIZE",
            ConfigVar::BlockTimeoutMs => "BLOCK_TIMEOUT_MS",
            ConfigVar::WorkerCount => "WORKER_COUNT",
            ConfigVar::MaxDownloadBytes => "MAX_DOWNLOAD_BYTES",
            ConfigVar::PhashPrefix => "PHASH_PREFIX",
            ConfigVar::PhashCacheTtlSecs => "PHASH_CACHE_TTL_SECS",
            ConfigVar::ResultStreamKey => "RESULT_STREAM_KEY",
            ConfigVar::HealthPort => "HEALTH_PORT",
            ConfigVar::LogLevel => "LOG_LEVEL",
        }
    }

    /// The integer type that this setting must parse as (meaningful for
    /// the numeric settings).
    pub fn integer_kind(&self) -> (r: &'static str)
        ensures
            r@ == spec_integer_kind(*self),
    {
        match self {
            ConfigVar::BatchSize | ConfigVar::WorkerCount => "usize",
            ConfigVar::HealthPort => "u16",
            _ => "u64",
        }
    }
}

/// Why a configuration could not be built.
#[derive(Debug, Clone, Copy, PartialEq, Eq, Structural)]
pub enum ConfigError {
    /// A required variable is unset (or not valid unicode).
    Missing(ConfigVar),
    /// A numeric variable does not parse as its integer type.
    Invalid(ConfigVar),
}

/// The message of a configuration error: for a missing variable,
/// `missing required environment variable: KEY`; for an invalid one,
/// `KEY must be a valid TYPE`.
pub open spec fn config_error_message(e: ConfigError) -> Seq<char> {
    match e {
        ConfigError::Missing(v) => "missing required environment variable: "@ + spec_env_key(v),
        ConfigError::Invalid(v) => spec_env_key(v) + " must be a valid "@ + spec_integer_kind(v),
    }
}

impl ConfigError {
    /// The message that the service reports for this error.
    pub fn message(&self) -> (r: String)
        ensures
            r@ == config_error_message(*self),
    {
        match self {
            ConfigError::Missing(v) => {
                let mut m = "missing required environment variable: ".to_owned();
                m.append(v.env_key());
                m
            },
            ConfigError::Invalid(v) => {
                let mut m = v.env_key().to_owned();
                m.append(" must be a valid ");
                m.append(v.integer_kind());
                m
            },
        }
    }
}

/// The raw values of the configuration variables, as read from the
/// environment: `None` where a variable is unset or not valid unicode.
/// `hostname` is the machine's host name, `None` where it could not be
/// read.
pub struct ConfigSource {
    pub redis_uri: Option<String>,
    pub model_path: Option<String>,
    pub stream_key: Option<String>,
    pub consumer_group: Option<String>,
    pub consumer_name: Option<String>,
    pub batch_size: Option<String>,
    pub block_timeout_ms: Option<String>,
    pub worker_count: Option<String>,
    pub max_download_bytes: Option<String>,
    pub phash_prefix: Option<String>,
    pub phash_cache_ttl_secs: Option<String>,
    pub result_stream_key: Option<String>,
    pub health_port: Option<String>,
    pub log_level: Option<String>,
    pub hostname: Option<String>,
}

/// The text of a setting: its value where it is set, else `default`.
pub open spec fn setting(v: Option<String>, default: Seq<char>) -> Seq<char> {
    match v {
        Some(s) => s@,
        None => default,
    }
}

/// The consumer name used when `CONSUMER_NAME` is unset: the host name,
/// or `worker-0` where it could not be read.
pub open spec fn default_consumer_name(src: ConfigSource) -> Seq<char> {
    setting(src.hostname, "worker-0"@)
}

/// The first error met while building a configuration from `src`, in the
/// order in which the settings are read; `None` where there is none.
pub open spec fn config_error(src: ConfigSource) -> Option<ConfigError> {
    if src.redis_uri is None {
        Some(ConfigError::Missing(ConfigVar::RedisUri))
    } else if src.model_path is None {
        Some(ConfigError::Missing(ConfigVar::ModelPath))
    } else if parse_unsigned(setting(src.batch_size, "10"@), usize::MAX as nat) is None {
        Some(ConfigError::Invalid(ConfigVar::BatchSize))
    } else if parse_unsigned(setting(src.block_timeout_ms, "5000"@), u64::MAX as nat) is None {
        Some(ConfigError::Invalid(ConfigVar::BlockTimeoutMs))
    } else if parse_unsigned(setting(src.worker_count, "4"@), usize::MAX as nat) is None {
        Some(ConfigError::Invalid(ConfigVar::WorkerCount))
    } else if parse_unsigned(setting(src.max_download_bytes, "20971520"@), u64::MAX as nat)
        is None {
        Some(ConfigError::Invalid(ConfigVar::MaxDownloadBytes))
    } else if parse_unsigned(setting(src.phash_cache_ttl_secs, "604800"@), u64::MAX as nat)
        is None {
        Some(ConfigError::Invalid(ConfigVar::PhashCacheTtlSecs))
    } else if parse_unsigned(setting(src.health_port, "9090"@), u16::MAX as nat) is None {
        Some(ConfigError::Invalid(ConfigVar::HealthPort))
    } else {
        None
    }
}

/// Application configuration.
#[derive(Debug, Clone)]
pub struct AppConfig {
    /// Redis connection URI (e.g. `redis://127.0.0.1:6379`).
    pub redis_uri: String,
    /// Name of the Redis stream to consume from.
    pub stream_key: String,
    /// Consumer group name.
    pub consumer_group: String,
    /// Unique consumer name within the group (defaults to the host name).
    pub consumer_name: String,
    /// How many messages to pull per `XREADGROUP` call.
    pub batch_size: usize,
    /// Block timeout for `XREADGROUP`, in milliseconds.
    pub block_timeout_ms: u64,
    /// Path to the ONNX model file.
    pub model_path: String,
    /// Number of concurrent worker tasks.
    pub worker_count: usize,
    /// Maximum allowed download size in bytes.
    pub max_download_bytes: u64,
    /// Redis key prefix for pHash cache entries.
    pub phash_prefix: String,
    /// TTL for cached pHash → score entries, in seconds.
    pub phash_cache_ttl_secs: u64,
    /// Redis stream key to push results into.
    pub result_stream_key: String,
    /// Port for the health / readiness HTTP server.
    pub health_port: u16,
    /// `tracing` env-filter directive (e.g. `info`, `polarizer=debug`).
    pub log_level: String,
}

impl AppConfig {
    /// `self` is the configuration that `src` describes: each setting holds
    /// the value of its variable where it is set and the default otherwise.
    pub open spec fn built_from(self, src: ConfigSource) -> bool {
        &&& src.redis_uri matches Some(v) && self.redis_uri@ == v@
        &&& src.model_path matches Some(v) && self.model_path@ == v@
        &&& self.stream_key@ == setting(src.stream_key, "polarizer:jobs"@)
        &&& self.consumer_group@ == setting(src.consumer_group, "polarizer-workers"@)
        &&& self.consumer_name@ == setting(src.consumer_name, default_consumer_name(src))
        &&& parse_unsigned(setting(src.batch_size, "10"@), usize::MAX as nat) == Some(
            self.batch_size as nat,
        )
        &&& parse_unsigned(setting(src.block_timeout_ms, "5000"@), u64::MAX as nat) == Some(
            self.block_timeout_ms as nat,
        )
        &&& parse_unsigned(setting(src.worker_count, "4"@), usize::MAX as nat) == Some(
            self.worker_count as nat,
        )
        &&& parse_unsigned(setting(src.max_download_bytes, "20971520"@), u64::MAX as nat)
            == Some(self.max_download_bytes as nat)
        &&& self.phash_prefix@ == setting(src.phash_prefix, "phash:"@)
        &&& parse_unsigned(setting(src.phash_cache_ttl_secs, "604800"@), u64::MAX as nat)
            == Some(self.phash_cache_ttl_secs as nat)
        &&& self.result_stream_key@ == setting(src.result_stream_key, "polarizer:results"@)
        &&& parse_unsigned(setting(src.health_port, "9090"@), u16::MAX as nat) == Some(
            self.health_port as nat,
        )
        &&& self.log_level@ == setting(src.log_level, "info"@)
    }

    /// Builds the configuration from the raw variable values, applying the
    /// defaults of unset variables. Fails with the first missing required
    /// variable or malformed number, in the order the settings are read.
    pub fn from_source(src: ConfigSource) -> (r: Result<AppConfig, ConfigError>)
        ensures
            r is Err <==> config_error(src) is Some,
            r matches Err(e) ==> config_error(src) == Some(e),
            r matches Ok(c) ==> c.built_from(src),
    {
        let redis_uri = match src.redis_uri {
            Some(v) => v,
            None => {
                return Err(ConfigError::Missing(ConfigVar::RedisUri));
            },
        };
        let model_path = match src.model_path {
            Some(v) => v,
            None => {
                return Err(ConfigError::Missing(ConfigVar::ModelPath));
            },
        };
        let stream_key = text_or(src.stream_key, "polarizer:jobs");
        let consumer_group = text_or(src.consumer_group, "polarizer-workers");
        let fallback_name = text_or(src.hostname, "worker-0");
        let consumer_name = match src.consumer_name {
            Some(v) => v,
            None => fallback_name,
        };
        let batch_text = text_or(src.batch_size, "10");
        let batch_size = match parse_usize(batch_text.as_str()) {
            Some(v) => v,
            None => {
                return Err(ConfigError::Invalid(ConfigVar::BatchSize));
            },
        };
        let timeout_text = text_or(src.block_timeout_ms, "5000");
        let block_timeout_ms = match parse_u64(timeout_text.as_str()) {
            Some(v) => v,
            None => {
                return Err(ConfigError::Invalid(ConfigVar::BlockTimeoutMs));
            },
        };
        let workers_text = text_or(src.worker_count, "4");
        let worker_count = match parse_usize(workers_text.as_str()) {
            Some(v) => v,
            None => {
                return Err(ConfigError::Invalid(ConfigVar::WorkerCount));
            },
        };
        let max_text = text_or(src.max_download_bytes, "20971520");
        let max_download_bytes = match parse_u64(max_text.as_str()) {
            Some(v) => v,
            None => {
                return Err(ConfigError::Invalid(ConfigVar::MaxDownloadBytes));
            },
        };
        let phash_prefix = text_or(src.phash_prefix, "phash:");
        let ttl_text = text_or(src.phash_cache_ttl_secs, "604800");
        let phash_cache_ttl_secs = match parse_u64(ttl_text.as_str()) {
            Some(v) => v,
            None => {
                return Err(ConfigError::Invalid(ConfigVar::PhashCacheTtlSecs));
            },
        };
        let result_stream_key = text_or(src.result_stream_key, "polarizer:results");
        let port_text = text_or(src.health_port, "9090");
        let health_port = match parse_u16(port_text.as_str()) {
            Some(v) => v,
            None => {
                return Err(ConfigError::Invalid(ConfigVar::HealthPort));
            },
        };
        let log_level = text_or(src.log_level, "info");
        Ok(AppConfig {
            redis_uri,
            stream_key,
            consumer_group,
            consumer_name,
            batch_size,
            block_timeout_ms,
            model_path,
            worker_count,
            max_download_bytes,
            phash_prefix,
            phash_cache_ttl_secs,
            result_stream_key,
            health_port,
            log_level,
        })
    }
}

/// The numeric defaults parse to the values that the service documents.
proof fn lemma_numeric_defaults()
    ensures
        parse_unsigned("10"@, usize::MAX as nat) == Some(10nat),
        parse_unsigned("5000"@, u64::MAX as nat) == Some(5000nat),
        parse_unsigned("4"@, usize::MAX as nat) == Some(4nat),
        parse_unsigned("20971520"@, u64::MAX as nat) == Some(20971520nat),
        parse_unsigned("604800"@, u64::MAX as nat) == Some(604800nat),
        parse_unsigned("9090"@, u16::MAX as nat) == Some(9090nat),
{
    reveal_strlit("10");
    reveal_strlit("5000");
    reveal_strlit("4");
    reveal_strlit("20971520");
    reveal_strlit("604800");
    reveal_strlit("9090");
    reveal_with_fuel(decimal_value, 9);
    assert(unsigned_digits("10"@) == "10"@);
    assert(unsigned_digits("5000"@) == "5000"@);
    assert(unsigned_digits("4"@) == "4"@);
    assert(unsigned_digits("20971520"@) == "20971520"@);
    assert(unsigned_digits("604800"@) == "604800"@);
    assert(unsigned_digits("9090"@) == "9090"@);
    assert(decimal_value("10"@) == 10);
    assert(decimal_value("5000"@) == 5000);
    assert(decimal_value("4"@) == 4);
    assert(decimal_value("20971520"@) == 20971520);
    assert(decimal_value("604800"@) == 604800);
    assert(decimal_value("9090"@) == 9090);
}

/// A variable that is unset takes the documented default, and a default
/// never makes the configuration fail: only a required variable that is
/// unset, or a numeric variable that is set to a malformed value, does.
pub proof fn lemma_unset_variables_take_defaults(src: ConfigSource, c: AppConfig)
    requires
        c.built_from(src),
    ensures
        src.stream_key is None ==> c.stream_key@ == "polarizer:jobs"@,
        src.consumer_group is None ==> c.consumer_group@ == "polarizer-workers"@,
        src.consumer_name is None && src.hostname is None ==> c.consumer_name@ == "worker-0"@,
        src.batch_size is None ==> c.batch_size == 10,
        src.block_timeout_ms is None ==> c.block_timeout_ms == 5000,
        src.worker_count is None ==> c.worker_count == 4,
        src.max_download_bytes is None ==> c.max_download_bytes == 20971520,
        src.phash_prefix is None ==> c.phash_prefix@ == "phash:"@,
        src.phash_cache_ttl_secs is None ==> c.phash_cache_ttl_secs == 604800,
        src.result_stream_key is None ==> c.result_stream_key@ == "polarizer:results"@,
        src.health_port is None ==> c.health_port == 9090,
        src.log_level is None ==> c.log_level@ == "info"@,
{
    lemma_numeric_defaults();
}

/// Only a set variable can be malformed: an error names either a required
/// variable that is unset or a numeric variable that is set.
pub proof fn lemma_errors_name_their_cause(src: ConfigSource)
    ensures
        config_error(src) == Some(ConfigError::Missing(ConfigVar::RedisUri)) <==> src.redis_uri
            is None,
        config_error(src) matches Some(ConfigError::Missing(v)) ==> v
            == ConfigVar::RedisUri || v == ConfigVar::ModelPath,
        config_error(src) == Some(ConfigError::Invalid(ConfigVar::BatchSize))
            ==> src.batch_size is Some,
        config_error(src) == Some(ConfigError::Invalid(ConfigVar::BlockTimeoutMs))
            ==> src.block_timeout_ms is Some,
        config_error(src) == Some(ConfigError::Invalid(ConfigVar::WorkerCount))
            ==> src.worker_count is Some,
        config_error(src) == Some(ConfigError::Invalid(ConfigVar::MaxDownloadBytes))
            ==> src.max_download_bytes is Some,
        config_error(src) == Some(ConfigError::Invalid(ConfigVar::PhashCacheTtlSecs))
            ==> src.phash_cache_ttl_secs is Some,
        config_error(src) == Some(ConfigError::Invalid(ConfigVar::HealthPort))
            ==> src.health_port is Some,
{
    lemma_numeric_defaults();
}

/// The value of a setting where it is set, else the given default.
fn text_or(v: Option<String>, default: &str) -> (r: String)
    ensures
        r@ == setting(v, default@),
{
    match v {
        Some(s) => s,
        None => default.to_owned(),
    }
}

/// Each setting is read from the variable that the service documents for
/// it, and no two settings share a variable.
pub proof fn lemma_settings_read_documented_variables(v: ConfigVar, w: ConfigVar)
    ensures
        spec_env_key(ConfigVar::RedisUri) == "REDIS_URI"@,
        spec_env_key(ConfigVar::ModelPath) == "MODEL_PATH"@,
        spec_env_key(ConfigVar::StreamKey) == "STREAM_KEY"@,
        spec_env_key(ConfigVar::ConsumerGroup) == "CONSUMER_GROUP"@,
        spec_env_key(ConfigVar::ConsumerName) == "CONSUMER_NAME"@,
        spec_env_key(ConfigVar::BatchSize) == "BATCH_SIZE"@,
        spec_env_key(ConfigVar::BlockTimeoutMs) == "BLOCK_TIMEOUT_MS"@,
        spec_env_key(ConfigVar::WorkerCount) == "WORKER_COUNT"@,
        spec_env_key(ConfigVar::MaxDownloadBytes) == "MAX_DOWNLOAD_BYTES"@,
        spec_env_key(ConfigVar::PhashPrefix) == "PHASH_PREFIX"@,
        spec_env_key(ConfigVar::PhashCacheTtlSecs) == "PHASH_CACHE_TTL_SECS"@,
        spec_env_key(ConfigVar::ResultStreamKey) == "RESULT_STREAM_KEY"@,
        spec_env_key(ConfigVar::HealthPort) == "HEALTH_PORT"@,
        spec_env_key(ConfigVar::LogLevel) == "LOG_LEVEL"@,
        v != w ==> spec_env_key(v) != spec_env_key(w),
{
    reveal_strlit("REDIS_URI");
    reveal_strlit("MODEL_PATH");
    reveal_strlit("STREAM_KEY");
    reveal_strlit("CONSUMER_GROUP");
    reveal_strlit("CONSUMER_NAME");
    reveal_strlit("BATCH_SIZE");
    reveal_strlit("BLOCK_TIMEOUT_MS");
    reveal_strlit("WORKER_COUNT");
    reveal_strlit("MAX_DOWNLOAD_BYTES");
    reveal_strlit("PHASH_PREFIX");
    reveal_strlit("PHASH_CACHE_TTL_SECS");
    reveal_strlit("RESULT_STREAM_KEY");
    reveal_strlit("HEALTH_PORT");
    reveal_strlit("LOG_LEVEL");
    if v != w {
        assert(spec_env_key(v)[0] != spec_env_key(w)[0] || spec_env_key(v).len() != spec_env_key(w).len()
            || spec_env_key(v)[6] != spec_env_key(w)[6]);
    }
}

/// The integer type that each numeric setting must parse as, as the
/// messages name it: counts are `usize`, the port is `u16`, sizes and
/// durations are `u64`; and the two messages name their variable.
pub proof fn lemma_error_messages_name_variable_and_type(v: ConfigVar)
    ensures
        spec_integer_kind(ConfigVar::BatchSize) == "usize"@,
        spec_integer_kind(ConfigVar::WorkerCount) == "usize"@,
        spec_integer_kind(ConfigVar::HealthPort) == "u16"@,
        spec_integer_kind(ConfigVar::BlockTimeoutMs) == "u64"@,
        spec_integer_kind(ConfigVar::MaxDownloadBytes) == "u64"@,
        spec_integer_kind(ConfigVar::PhashCacheTtlSecs) == "u64"@,
        config_error_message(ConfigError::Missing(v)) == "missing required environment variable: "@
            + spec_env_key(v),
        config_error_message(ConfigError::Invalid(v)) == spec_env_key(v) + " must be a valid "@
            + spec_integer_kind(v),
{
}

} // verus!
