//! Configuration: built-in defaults, overridden by what the environment gives.

use vstd::prelude::*;
use vstd::string::StringExecFns;
use crate::text::{parse_u64, parsed_within};

verus! {

/// The weight bound of the memory tier where none is configured.
pub const DEFAULT_MEMORY_CACHE_SIZE: u64 = 10_000;

/// The advisory ceiling of the disk tier where none is configured: 50 GiB.
pub const DEFAULT_DISK_CACHE_MAX_BYTES: u64 = 53_687_091_200;

/// The total time allowed for one upstream request, in seconds.
pub const UPSTREAM_TIMEOUT_SECS: u64 = 30;

/// The `max-age` handed to clients, in seconds: seven days, the least that upstream's policy asks for.
pub const CACHE_MAX_AGE_SECS: u64 = 604_800;

/// The settings of the proxy.
#[derive(Debug, Clone)]
pub struct Config {
    pub bind_addr: String,
    pub cache_dir: String,
    pub memory_cache_size: u64,
    pub disk_cache_max_bytes: u64,
    pub upstream_timeout_secs: u64,
    pub cache_max_age_secs: u64,
    pub user_agent: String,
}

/// The values of the environment variables that can override a default, each
/// as it was found: `BIND_ADDR`, `CACHE_DIR`, `MEMORY_CACHE_SIZE`,
/// `DISK_CACHE_MAX_BYTES` and `USER_AGENT`.
pub struct Overrides {
    pub bind_addr: Option<String>,
    pub cache_dir: Option<String>,
    pub memory_cache_size: Option<String>,
    pub disk_cache_max_bytes: Option<String>,
    pub user_agent: Option<String>,
}

/// The text that is configured: the override where there is one, else the default.
pub open spec fn text_or(value: Option<String>, default: Seq<char>) -> Seq<char> {
    match value {
        Some(text) => text@,
        None => default,
    }
}

/// The number that is configured: the override where it reads as a `u64`, else the default.
pub open spec fn number_or(value: Option<String>, default: u64) -> u64 {
    match value {
        Some(text) => match parsed_within(text@, u64::MAX) {
            Some(n) => n,
            None => default,
        },
        None => default,
    }
}

/// The override where there is one, else the default.
fn choose_text(value: Option<String>, default: &str) -> (text: String)
    ensures
        text@ == text_or(value, default@),
{
    match value {
        Some(text) => text,
        None => String::from_str(default),
    }
}

/// The override where it reads as a number, else the default.
fn choose_number(value: Option<String>, default: u64) -> (n: u64)
    ensures
        n == number_or(value, default),
{
    match value {
        Some(text) => match parse_u64(text.as_str()) {
            Some(n) => n,
            None => default,
        },
        None => default,
    }
}

impl Config {
    /// The settings that `overrides` gives, with the default wherever a value
    /// is absent or, for a number, does not read as one.
    pub fn from_overrides(overrides: Overrides) -> (config: Config)
        ensures
            config.bind_addr@ == text_or(overrides.bind_addr, "0.0.0.0:3000"@),
            config.cache_dir@ == text_or(overrides.cache_dir, "cache"@),
            config.memory_cache_size == number_or(
                overrides.memory_cache_size,
                DEFAULT_MEMORY_CACHE_SIZE,
            ),
            config.disk_cache_max_bytes == number_or(
                overrides.disk_cache_max_bytes,
                DEFAULT_DISK_CACHE_MAX_BYTES,
            ),
            config.upstream_timeout_secs == UPSTREAM_TIMEOUT_SECS,
            config.cache_max_age_secs == CACHE_MAX_AGE_SECS,
            config.user_agent@ == text_or(
                overrides.user_agent,
                "maptile_cacher/0.1 (tile caching proxy)"@,
            ),
    {
        Config {
            bind_addr: choose_text(overrides.bind_addr, "0.0.0.0:3000"),
            cache_dir: choose_text(overrides.cache_dir, "cache"),
            memory_cache_size: choose_number(
                overrides.memory_cache_size,
                DEFAULT_MEMORY_CACHE_SIZE,
            ),
            disk_cache_max_bytes: choose_number(
                overrides.disk_cache_max_bytes,
                DEFAULT_DISK_CACHE_MAX_BYTES,
            ),
            upstream_timeout_secs: UPSTREAM_TIMEOUT_SECS,
            cache_max_age_secs: CACHE_MAX_AGE_SECS,
            user_agent: choose_text(
                overrides.user_agent,
                "maptile_cacher/0.1 (tile caching proxy)",
            ),
        }
    }
}

impl Default for Config {
    /// The settings where the environment overrides nothing.
    fn default() -> (config: Config)
        ensures
            config.bind_addr@ == "0.0.0.0:3000"@,
            config.cache_dir@ == "cache"@,
            config.memory_cache_size == DEFAULT_MEMORY_CACHE_SIZE,
            config.disk_cache_max_bytes == DEFAULT_DISK_CACHE_MAX_BYTES,
            config.upstream_timeout_secs == UPSTREAM_TIMEOUT_SECS,
            config.cache_max_age_secs == CACHE_MAX_AGE_SECS,
            config.user_agent@ == "maptile_cacher/0.1 (tile caching proxy)"@,
    {
        Config::from_overrides(
            Overrides {
                bind_addr: None,
                cache_dir: None,
                memory_cache_size: None,
                disk_cache_max_bytes: None,
                user_agent: None,
            },
        )
    }
}

} // verus!
