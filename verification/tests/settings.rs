use metasearch::config::{Config, EngineConfig, ProxyConfig, ProxyType, RateLimiter};
use metasearch::SafeSearchLevel;

#[test]
fn default_engine_settings() {
    let engine = EngineConfig::default();
    assert!(engine.enabled);
    assert_eq!(engine.timeout, 5);
    assert_eq!(engine.score_multiplier, 1_000_000);
}

#[test]
fn default_rate_limiter() {
    assert_eq!(RateLimiter::default(), RateLimiter { number_of_requests: 10, time_limit: 10 });
}

#[test]
fn default_configuration() {
    let config = Config::default();
    assert_eq!(config.log_level, 0);
    assert!(config.threads >= 1);
    assert_eq!(config.port, 2000);
    assert_eq!(config.bind_ip, "0.0.0.0");
    assert_eq!(config.request_timeout, 5);
    assert!(config.user_agents.is_empty());
    assert_eq!(config.safe_search_level, 1);
    assert_eq!(config.redis_url, None);
    assert_eq!(config.cache_expiry_time, 0);
    assert_eq!(config.proxy, None);
    assert_eq!(
        config.upstream_search_engines,
        vec![
            ("Bing".to_string(), EngineConfig::default()),
            ("DuckDuckGo".to_string(), EngineConfig::default()),
        ]
    );
    assert_eq!(config.enabled_engines(), vec!["Bing".to_string(), "DuckDuckGo".to_string()]);
    assert_eq!(
        config.score_multipliers(),
        vec![("Bing".to_string(), 1_000_000), ("DuckDuckGo".to_string(), 1_000_000)]
    );
    assert_eq!(config.default_safe_search_level(), SafeSearchLevel::Medium);
}

#[test]
fn disabled_engines_are_left_out() {
    let mut config = Config::default();
    config.upstream_search_engines = vec![
        ("Bing".to_string(), EngineConfig { enabled: false, timeout: 3, score_multiplier: 500_000 }),
        ("Mojeek".to_string(), EngineConfig { enabled: true, timeout: 3, score_multiplier: 2_000_000 }),
        ("DuckDuckGo".to_string(), EngineConfig { enabled: true, timeout: 3, score_multiplier: 800_000 }),
    ];
    assert_eq!(config.enabled_engines(), vec!["Mojeek".to_string(), "DuckDuckGo".to_string()]);
    assert_eq!(
        config.score_multipliers(),
        vec![
            ("Bing".to_string(), 500_000),
            ("Mojeek".to_string(), 2_000_000),
            ("DuckDuckGo".to_string(), 800_000),
        ]
    );
}

#[test]
fn levels_of_filtering() {
    let mut config = Config::default();
    config.safe_search_level = 0;
    assert_eq!(config.default_safe_search_level(), SafeSearchLevel::Off);
    config.safe_search_level = 1;
    assert_eq!(config.default_safe_search_level(), SafeSearchLevel::Medium);
    config.safe_search_level = 2;
    assert_eq!(config.default_safe_search_level(), SafeSearchLevel::High);
    config.safe_search_level = 255;
    assert_eq!(config.default_safe_search_level(), SafeSearchLevel::High);
}

#[test]
fn proxy_settings_compare_by_value() {
    let proxy = ProxyConfig {
        connection_url: "socks5://127.0.0.1:9050".to_string(),
        is_tor: true,
        proxy_type: ProxyType::Socks5,
    };
    assert_eq!(proxy.clone(), proxy);
    assert_ne!(ProxyType::Socks5, ProxyType::Http);
}
