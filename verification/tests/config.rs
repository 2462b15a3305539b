use maptile_cacher::config::{
    Config, Overrides, CACHE_MAX_AGE_SECS, DEFAULT_DISK_CACHE_MAX_BYTES,
    DEFAULT_MEMORY_CACHE_SIZE, UPSTREAM_TIMEOUT_SECS,
};

fn nothing() -> Overrides {
    Overrides {
        bind_addr: None,
        cache_dir: None,
        memory_cache_size: None,
        disk_cache_max_bytes: None,
        user_agent: None,
    }
}

#[test]
fn defaults_are_as_documented() {
    let config = Config::default();
    assert_eq!(config.bind_addr, "0.0.0.0:3000");
    assert_eq!(config.cache_dir, "cache");
    assert_eq!(config.memory_cache_size, 10_000);
    assert_eq!(config.disk_cache_max_bytes, 50 * 1024 * 1024 * 1024);
    assert_eq!(config.upstream_timeout_secs, 30);
    assert_eq!(config.cache_max_age_secs, 7 * 24 * 60 * 60);
    assert_eq!(config.user_agent, "maptile_cacher/0.1 (tile caching proxy)");
}

#[test]
fn constants_have_their_values() {
    assert_eq!(DEFAULT_MEMORY_CACHE_SIZE, 10_000);
    assert_eq!(DEFAULT_DISK_CACHE_MAX_BYTES, 53_687_091_200);
    assert_eq!(UPSTREAM_TIMEOUT_SECS, 30);
    assert_eq!(CACHE_MAX_AGE_SECS, 604_800);
}

#[test]
fn no_override_gives_the_defaults() {
    let config = Config::from_overrides(nothing());
    let default = Config::default();
    assert_eq!(config.bind_addr, default.bind_addr);
    assert_eq!(config.cache_dir, default.cache_dir);
    assert_eq!(config.memory_cache_size, default.memory_cache_size);
    assert_eq!(config.disk_cache_max_bytes, default.disk_cache_max_bytes);
    assert_eq!(config.user_agent, default.user_agent);
}

#[test]
fn overrides_replace_the_defaults() {
    let config = Config::from_overrides(Overrides {
        bind_addr: Some("127.0.0.1:8080".to_string()),
        cache_dir: Some("/var/cache/tiles".to_string()),
        memory_cache_size: Some("2000000".to_string()),
        disk_cache_max_bytes: Some("1073741824".to_string()),
        user_agent: Some("tiles-test/1.0".to_string()),
    });
    assert_eq!(config.bind_addr, "127.0.0.1:8080");
    assert_eq!(config.cache_dir, "/var/cache/tiles");
    assert_eq!(config.memory_cache_size, 2_000_000);
    assert_eq!(config.disk_cache_max_bytes, 1_073_741_824);
    assert_eq!(config.user_agent, "tiles-test/1.0");
    assert_eq!(config.upstream_timeout_secs, 30);
    assert_eq!(config.cache_max_age_secs, 604_800);
}

#[test]
fn a_number_that_does_not_read_falls_back_to_the_default() {
    let mut overrides = nothing();
    overrides.memory_cache_size = Some("lots".to_string());
    overrides.disk_cache_max_bytes = Some("-5".to_string());
    let config = Config::from_overrides(overrides);
    assert_eq!(config.memory_cache_size, 10_000);
    assert_eq!(config.disk_cache_max_bytes, 53_687_091_200);

    let mut overrides = nothing();
    overrides.memory_cache_size = Some("".to_string());
    overrides.disk_cache_max_bytes = Some("18446744073709551616".to_string());
    let config = Config::from_overrides(overrides);
    assert_eq!(config.memory_cache_size, 10_000);
    assert_eq!(config.disk_cache_max_bytes, 53_687_091_200);
}

#[test]
fn an_empty_text_override_is_taken_as_it_is() {
    let mut overrides = nothing();
    overrides.cache_dir = Some(String::new());
    overrides.memory_cache_size = Some("0".to_string());
    let config = Config::from_overrides(overrides);
    assert_eq!(config.cache_dir, "");
    assert_eq!(config.memory_cache_size, 0);
}
