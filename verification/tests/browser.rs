use spire::browser::behavior::BrowserBehaviorConfig;
use spire::browser::browser_type::BrowserType;
use spire::browser::builder::{pool_build_error, BrowserBuilder};
use spire::browser::config::{BrowserConfig, BuilderError, WebDriverConfig};
use spire::browser::error::{BrowserError, ConfigError, NavigationErrorType};
use spire::browser::json::{Capabilities, Json};
use spire::browser::manager::{BrowserManager, RetryStep};
use spire::browser::pool::PoolConfig;
use spire::browser::stats::{ConnectionStats, ConnectionStatsCollection};
use spire::error::{Error, ErrorKind};
use spire::time::Duration;

#[test]
fn browser_config_builder() {
    let config = BrowserConfig::builder()
        .with_url("http://localhost:4444")
        .with_connect_timeout(Duration::from_secs(10))
        .with_managed(true)
        .build()
        .expect("Should build successfully");

    assert_eq!(config.url, "http://localhost:4444");
    assert_eq!(config.connect_timeout, Duration::from_secs(10));
    assert!(config.managed);
}

#[test]
fn browser_config_builder_validation() {
    let result = BrowserConfig::builder().with_url("").build();
    assert!(result.is_err());

    let result = BrowserConfig::builder().with_url("invalid-url").build();
    assert!(result.is_err());

    let result = BrowserConfig::builder()
        .with_url("http://localhost:4444")
        .with_connect_timeout(Duration::zero())
        .build();
    assert!(result.is_err());
}

#[test]
fn browser_config_new() {
    let config = BrowserConfig::new("http://localhost:4444");
    assert_eq!(config.url, "http://localhost:4444");
    assert!(!config.managed);
}

#[test]
fn config_browser_config_validation() {
    let config = BrowserConfig::new("http://localhost:4444");
    assert!(config.validate().is_ok());

    let config = BrowserConfig { url: String::new(), ..Default::default() };
    assert!(config.validate().is_err());

    let config = BrowserConfig::new("localhost:4444");
    assert!(config.validate().is_err());
}

#[test]
fn browser_config_capabilities() {
    let config = BrowserConfig::new("http://localhost:4444")
        .with_capability("browserName", Json::text("firefox"))
        .with_connect_timeout(Duration::from_secs(10))
        .managed();

    assert!(config.managed);
    assert_eq!(config.connect_timeout, Duration::from_secs(10));
    assert!(config.capabilities.contains_key("browserName"));
}

#[test]
fn config_config_error_display() {
    let error = ConfigError::InvalidUrl { message: "Empty URL".to_string() };
    assert_eq!(error.to_display_string(), "Invalid URL: Empty URL");

    let error = ConfigError::InvalidTimeout { message: "Timeout is zero".to_string() };
    assert_eq!(error.to_display_string(), "Invalid timeout: Timeout is zero");
}

#[test]
fn mod_config_error_display() {
    let error = ConfigError::InvalidUrl { message: "Empty URL".to_string() };
    assert_eq!(error.to_display_string(), "Invalid URL: Empty URL");

    let error = ConfigError::InvalidTimeout { message: "Timeout is zero".to_string() };
    assert_eq!(error.to_display_string(), "Invalid timeout: Timeout is zero");
}

#[test]
fn config_errors_become_backend_errors() {
    let e = ConfigError::InvalidPool { message: "too small".to_string() }.into_error();
    assert_eq!(e.kind(), ErrorKind::Backend);
    assert_eq!(e.message(), "Invalid pool configuration: too small");
    let v = ConfigError::Validation { message: "bad".to_string() };
    assert_eq!(v.to_display_string(), "Validation error: bad");
}

#[test]
fn validation_messages_in_order() {
    let e = BrowserConfig::new("").validate().unwrap_err();
    assert_eq!(e.message(), "WebDriver URL cannot be empty");
    let e = BrowserConfig::new("ftp://x").validate().unwrap_err();
    assert_eq!(e.message(), "Invalid WebDriver URL format: ftp://x");
    let e = BrowserConfig::new("https://x").with_connect_timeout(Duration::zero()).validate().unwrap_err();
    assert_eq!(e.message(), "Connect timeout must be greater than zero");
    let mut c = BrowserConfig::new("https://x");
    c.request_timeout = Duration::zero();
    assert_eq!(c.validate().unwrap_err().message(), "Request timeout must be greater than zero");
}

#[test]
fn builder_error_texts() {
    let r = BrowserConfig::builder().build();
    match r {
        Err(e @ BuilderError::UninitializedField(_)) => {
            assert_eq!(e.to_display_string(), "`url` must be initialized");
        },
        other => panic!("unexpected {:?}", other),
    }
    let r = BrowserConfig::builder().with_url("invalid-url").build().unwrap_err();
    assert_eq!(r.to_display_string(), "[backend] Invalid WebDriver URL format: invalid-url");
}

#[test]
fn base_url_strips_trailing_slashes() {
    assert_eq!(BrowserConfig::new("http://localhost:4444//").base_url(), "http://localhost:4444");
    assert_eq!(WebDriverConfig::new("http://h/").base_url(), "http://h");
    assert_eq!(BrowserConfig::new("http://h").to_display_string(), "Browser(http://h, managed: false)");
}

fn stats(id: u64, age: u64, idle: u64, requests: u64, errors: u64, healthy: bool, url: &str) -> ConnectionStats {
    ConnectionStats {
        id,
        age: Duration::from_secs(age),
        idle_time: Duration::from_secs(idle),
        request_count: requests,
        error_count: errors,
        healthy,
        session_id: None,
        config_url: url.to_string(),
    }
}

#[test]
fn connection_stats_stale_detection() {
    let stats = stats(1, 3600, 600, 100, 5, true, "http://localhost:4444");
    assert!(!stats.is_stale(Duration::from_secs(7200), Duration::from_secs(1200)));
    assert!(stats.is_stale(Duration::from_secs(1800), Duration::from_secs(1200)));
    assert!(stats.is_stale(Duration::from_secs(7200), Duration::from_secs(300)));
}

#[test]
fn stats_collection_aggregation() {
    let mut collection = ConnectionStatsCollection::new();
    collection.add(stats(1, 100, 10, 10, 1, true, "http://localhost:4444"));
    collection.add(stats(2, 200, 20, 20, 4, false, "http://localhost:4445"));

    assert_eq!(collection.count(), 2);
    assert_eq!(collection.healthy_count(), 1);
    assert_eq!(collection.unhealthy_count(), 1);
    assert_eq!(collection.total_requests(), 30);
    assert_eq!(collection.total_errors(), 5);
    assert_eq!(collection.total_errors() as f64 / collection.total_requests() as f64, 5.0 / 30.0);

    let avg_age = collection.average_age();
    assert_eq!(avg_age, Duration::from_secs(150));
}

#[test]
fn stats_collection_filtering() {
    let mut collection = ConnectionStatsCollection::new();
    collection.add(stats(1, 100, 10, 100, 5, true, "http://localhost:4444"));
    collection.add(stats(2, 200, 20, 10, 6, true, "http://localhost:4445"));

    let high_error = collection.filter(|s| s.error_count as f64 / s.request_count as f64 > 0.1);
    assert_eq!(high_error.len(), 1);
    assert_eq!(high_error[0].id, 2);
}

#[test]
fn stale_connections_in_order() {
    let mut collection = ConnectionStatsCollection::new();
    collection.add(stats(1, 10, 1, 0, 0, true, "a"));
    collection.add(stats(2, 5000, 1, 0, 0, true, "b"));
    collection.add(stats(3, 10, 900, 0, 0, false, "c"));
    let stale = collection.stale_connections(Duration::from_secs(3600), Duration::from_secs(600));
    let ids: Vec<u64> = stale.iter().map(|s| s.id).collect();
    assert_eq!(ids, vec![2, 3]);
    assert_eq!(collection.healthy_count() + collection.unhealthy_count(), collection.count());
}

#[test]
fn average_age_of_nothing_is_zero() {
    let collection = ConnectionStatsCollection::new();
    assert_eq!(collection.average_age(), Duration::zero());
    assert_eq!(collection.total_requests(), 0);
}

#[test]
fn browser_type_display() {
    assert_eq!(BrowserType::Chrome.to_display_string(), "Chrome");
    assert_eq!(BrowserType::Firefox.to_display_string(), "Firefox");
    assert_eq!(BrowserType::Edge.to_display_string(), "Edge");
    assert_eq!(BrowserType::Safari.to_display_string(), "Safari");
    assert_eq!(BrowserType::custom("custom").to_display_string(), "Custom(custom)");
}

#[test]
fn browser_type_from_str() {
    assert!(matches!(BrowserType::from_name("chrome"), BrowserType::Chrome));
    assert!(matches!(BrowserType::from_name("firefox"), BrowserType::Firefox));
    assert!(matches!(BrowserType::from_name("edge"), BrowserType::Edge));
    assert!(matches!(BrowserType::from_name("safari"), BrowserType::Safari));

    match BrowserType::from_name("unknown") {
        BrowserType::Custom { name, .. } => assert_eq!(name, "unknown"),
        _ => panic!("Expected Custom browser type"),
    }
}

#[test]
fn browser_names_compare_in_lowercase() {
    assert!(matches!(BrowserType::from_name("Google-Chrome"), BrowserType::Chrome));
    assert!(matches!(BrowserType::from_name("MicrosoftEdge"), BrowserType::Edge));
    match BrowserType::from_name("Opera") {
        BrowserType::Custom { name, .. } => assert_eq!(name, "opera"),
        _ => panic!("Expected Custom browser type"),
    }
}

#[test]
fn lowercase_names_match_exactly() {
    assert!(matches!(BrowserType::from_lowercase_name("apple-safari".to_string()), BrowserType::Safari));
    assert!(matches!(BrowserType::from_lowercase_name("mozilla-firefox".to_string()), BrowserType::Firefox));
    match BrowserType::from_lowercase_name("Chrome".to_string()) {
        BrowserType::Custom { name, .. } => assert_eq!(name, "Chrome"),
        _ => panic!("Expected Custom browser type"),
    }
}

#[test]
fn browser_name() {
    assert_eq!(BrowserType::Chrome.browser_name(), "chrome");
    assert_eq!(BrowserType::Firefox.browser_name(), "firefox");
    assert_eq!(BrowserType::Edge.browser_name(), "MicrosoftEdge");
    assert_eq!(BrowserType::Safari.browser_name(), "safari");
}

#[test]
fn default_capabilities() {
    let chrome_caps = BrowserType::Chrome.default_capabilities();
    assert!(chrome_caps.contains_key("browserName"));
    assert!(chrome_caps.contains_key("goog:chromeOptions"));
    assert!(chrome_caps.contains_key("acceptInsecureCerts"));

    let firefox_caps = BrowserType::Firefox.default_capabilities();
    assert!(firefox_caps.contains_key("browserName"));
    assert!(firefox_caps.contains_key("moz:firefoxOptions"));
}

fn args_of(caps: &Capabilities, key: &str) -> Vec<String> {
    let options = caps.get(key).expect("options");
    match options {
        Json::Object(entries) => {
            for (k, v) in entries {
                if k == "args" {
                    if let Json::Array(items) = v {
                        return items
                            .iter()
                            .map(|j| match j {
                                Json::Text(s) => s.clone(),
                                _ => panic!("not text"),
                            })
                            .collect();
                    }
                }
            }
            panic!("no args")
        },
        _ => panic!("not an object"),
    }
}

#[test]
fn headless_capabilities() {
    let chrome_headless = BrowserType::Chrome.headless_capabilities();
    let args = args_of(&chrome_headless, "goog:chromeOptions");
    assert!(args.iter().any(|a| a.contains("--headless")));
}

#[test]
fn headless_arguments_follow_the_defaults() {
    let default_args = args_of(&BrowserType::Firefox.default_capabilities(), "moz:firefoxOptions");
    let headless_args = args_of(&BrowserType::Firefox.headless_capabilities(), "moz:firefoxOptions");
    assert_eq!(default_args, vec!["--no-sandbox", "--disable-dev-shm-usage"]);
    assert_eq!(headless_args, vec!["--no-sandbox", "--disable-dev-shm-usage", "--headless", "--width=1920", "--height=1080"]);
    let edge = args_of(&BrowserType::Edge.performance_capabilities(), "ms:edgeOptions");
    assert_eq!(edge.len(), 7);
    assert_eq!(edge[6], "--disable-plugins");
    let safari = BrowserType::Safari.headless_capabilities();
    assert_eq!(safari.len(), 4);
    assert!(safari.contains_key("webkit:WebRTCConfiguration"));
}

#[test]
fn performance_preferences() {
    let caps = BrowserType::Chrome.performance_capabilities();
    match caps.get("goog:chromeOptions") {
        Some(Json::Object(entries)) => {
            let prefs = entries.iter().find(|(k, _)| k == "prefs").map(|(_, v)| v).unwrap();
            match prefs {
                Json::Object(p) => {
                    assert_eq!(p.len(), 5);
                    assert_eq!(p[3].0, "profile.default_content_setting_values.plugins");
                },
                _ => panic!("prefs not an object"),
            }
        },
        _ => panic!("no options"),
    }
    match caps.get("pageLoadStrategy") {
        Some(Json::Text(s)) => assert_eq!(s, "normal"),
        _ => panic!("no page load strategy"),
    }
}

#[test]
fn supports_headless() {
    assert!(BrowserType::Chrome.supports_headless());
    assert!(BrowserType::Firefox.supports_headless());
    assert!(BrowserType::Edge.supports_headless());
    assert!(!BrowserType::Safari.supports_headless());
    assert!(BrowserType::custom("test").supports_headless());
}

#[test]
fn with_capability() {
    let browser = BrowserType::Chrome.with_capability("test", Json::text("value"));
    match browser {
        BrowserType::Custom { capabilities, name } => {
            assert_eq!(name, "chrome");
            assert!(capabilities.contains_key("test"));
            assert!(matches!(capabilities.get("test"), Some(Json::Text(s)) if s == "value"));
            assert!(capabilities.contains_key("goog:chromeOptions"));
        },
        _ => panic!("Expected Custom browser type after adding capability"),
    }
}

#[test]
fn custom_browser_keeps_its_capabilities() {
    let mut own = Capabilities::new();
    own.insert("x".to_string(), Json::Number(3));
    let caps = BrowserType::custom_with_capabilities("mine", own).default_capabilities();
    assert_eq!(caps.len(), 4);
    assert!(matches!(caps.get("browserName"), Some(Json::Text(s)) if s == "mine"));
    assert!(matches!(caps.get("x"), Some(Json::Number(3))));
}

#[test]
fn webdriver_config_builder() {
    let config = WebDriverConfig::builder()
        .with_url("http://localhost:4444")
        .with_browser(BrowserType::Firefox)
        .with_connect_timeout(Duration::from_secs(10))
        .with_managed(true)
        .build()
        .expect("Should build successfully");

    assert_eq!(config.url, "http://localhost:4444");
    assert!(matches!(config.browser, BrowserType::Firefox));
    assert_eq!(config.connect_timeout, Duration::from_secs(10));
    assert!(config.managed);
}

#[test]
fn webdriver_config_builder_validation() {
    let result = WebDriverConfig::builder().with_url("").build();
    assert!(result.is_err());

    let result = WebDriverConfig::builder().with_url("invalid-url").build();
    assert!(result.is_err());

    let result = WebDriverConfig::builder()
        .with_url("http://localhost:4444")
        .with_connect_timeout(Duration::zero())
        .build();
    assert!(result.is_err());
}

#[test]
fn webdriver_config_new() {
    let config = WebDriverConfig::new("http://localhost:4444");
    assert_eq!(config.url, "http://localhost:4444");
    assert!(matches!(config.browser, BrowserType::Chrome));
    assert!(!config.managed);
}

#[test]
fn webdriver_config_validation() {
    let config = WebDriverConfig::new("http://localhost:4444");
    assert!(config.validate().is_ok());

    let config = WebDriverConfig { url: String::new(), ..Default::default() };
    assert!(config.validate().is_err());

    let config = WebDriverConfig::new("localhost:4444");
    assert!(config.validate().is_err());
}

#[test]
fn webdriver_config_capabilities() {
    let config = WebDriverConfig::new("http://localhost:4444")
        .with_capability("browserName", Json::text("firefox"))
        .with_connect_timeout(Duration::from_secs(10))
        .managed();

    assert!(config.managed);
    assert_eq!(config.connect_timeout, Duration::from_secs(10));
    assert!(config.capabilities.contains_key("browserName"));
}

#[test]
fn pool_config_builder() {
    let config = PoolConfig::builder()
        .with_max_size(20_usize)
        .with_min_size(5_usize)
        .with_acquire_timeout(Duration::from_secs(45))
        .with_max_lifetime(Duration::from_secs(7200))
        .build()
        .expect("Should build successfully");

    assert_eq!(config.max_size, 20);
    assert_eq!(config.min_size, 5);
    assert_eq!(config.acquire_timeout, Duration::from_secs(45));
    assert_eq!(config.max_lifetime, Some(Duration::from_secs(7200)));
}

#[test]
fn pool_config_builder_validation() {
    let result = PoolConfig::builder().with_max_size(0_usize).build();
    assert!(result.is_err());

    let result = PoolConfig::builder().with_max_size(5_usize).with_min_size(10_usize).build();
    assert!(result.is_err());

    let result = PoolConfig::builder().with_acquire_timeout(Duration::zero()).build();
    assert!(result.is_err());
}

#[test]
fn pool_config_validation() {
    let config = PoolConfig::default();
    assert!(config.validate().is_ok());

    let config = PoolConfig { max_size: 0, ..Default::default() };
    assert!(config.validate().is_err());

    let config = PoolConfig { min_size: 5, max_size: 3, ..Default::default() };
    assert!(config.validate().is_err());
}

#[test]
fn browser_error_display() {
    let error = BrowserError::timeout("page_load", 30);
    assert_eq!(error.to_display_string(), "Operation 'page_load' timed out after 30 seconds");

    let nav_error = BrowserError::navigation_error(
        "https://example.com",
        NavigationErrorType::HttpError(404),
        Some("Page not found".to_string()),
    );
    assert!(nav_error.to_display_string().contains("Navigation to"));
    assert!(nav_error.to_display_string().contains("404"));
}

#[test]
fn browser_error_category() {
    assert_eq!(BrowserError::timeout("test", 30).category(), "timeout");
    assert_eq!(
        BrowserError::connection_failed("http://localhost:4444", "Connection refused").category(),
        "connection"
    );
    assert_eq!(BrowserError::configuration("Invalid config", None).category(), "config");
}

#[test]
fn browser_error_retryable() {
    assert!(BrowserError::connection_failed("http://localhost:4444", "Connection refused").is_retryable());
    assert!(!BrowserError::configuration("Invalid config", None).is_retryable());
    assert!(BrowserError::timeout("navigation", 30).is_retryable());

    let nav_error =
        BrowserError::navigation_error("https://example.com", NavigationErrorType::HttpError(500), None);
    assert!(nav_error.is_retryable());

    let nav_error_client =
        BrowserError::navigation_error("https://example.com", NavigationErrorType::HttpError(404), None);
    assert!(!nav_error_client.is_retryable());
}

#[test]
fn navigation_error_type_display() {
    assert_eq!(NavigationErrorType::InvalidUrl.to_display_string(), "Invalid URL");
    assert_eq!(NavigationErrorType::HttpError(404).to_display_string(), "HTTP error 404");
    assert_eq!(NavigationErrorType::NetworkError.to_display_string(), "Network error");
}

#[test]
fn browser_error_to_spire_error() {
    let browser_err = BrowserError::timeout("test", 30);
    let spire_err: Error = browser_err.into_error();
    assert_eq!(spire_err.kind(), ErrorKind::Timeout);
}

#[test]
fn build_browser_backend() {
    let _backend = BrowserBuilder::new().with_unmanaged("http://127.0.0.1:4444").build();
}

#[test]
fn lib_browser_config_validation() {
    let config = BrowserConfig::new("http://localhost:4444");
    assert!(config.validate().is_ok());

    let invalid_config = BrowserConfig::new("");
    assert!(invalid_config.validate().is_err());
}

#[test]
fn browser_error_categories() {
    assert_eq!(BrowserError::timeout("test", 30).category(), "timeout");
    assert_eq!(
        BrowserError::connection_failed("http://localhost:4444", "Connection refused").category(),
        "connection"
    );
    assert_eq!(BrowserError::configuration("Invalid config", None).category(), "config");
}

#[test]
fn error_retryability() {
    assert!(BrowserError::connection_failed("http://localhost:4444", "Connection refused").is_retryable());
    assert!(!BrowserError::configuration("Invalid config", None).is_retryable());
    assert!(BrowserError::timeout("navigation", 30).is_retryable());
}

#[test]
fn pool_exhaustion_is_retryable_and_kinds() {
    let e = BrowserError::pool_exhausted(4, 4);
    assert!(e.is_retryable());
    assert_eq!(e.category(), "pool");
    assert_eq!(BrowserError::configuration("x", None).error_kind(), ErrorKind::Backend);
}

#[test]
fn builder_default() {
    let builder = BrowserBuilder::default();
    assert!(builder.configs.is_empty());
    assert!(builder.max_size.is_none());
    assert!(builder.health_checks.is_none());
}

#[test]
fn builder_with_unmanaged() {
    let builder = BrowserBuilder::new().with_unmanaged("http://localhost:4444");
    assert_eq!(builder.configs.len(), 1);
    assert_eq!(builder.configs[0].url, "http://localhost:4444");
    assert!(!builder.configs[0].managed);
}

#[test]
fn builder_with_managed() {
    let builder = BrowserBuilder::new().with_managed("http://localhost:4444");
    assert_eq!(builder.configs.len(), 1);
    assert_eq!(builder.configs[0].url, "http://localhost:4444");
    assert!(builder.configs[0].managed);
}

#[test]
fn builder_with_config() {
    let config = BrowserConfig::new("http://localhost:4444");
    let builder = BrowserBuilder::new().with_config(config).unwrap();
    assert_eq!(builder.configs.len(), 1);
    assert_eq!(builder.configs[0].url, "http://localhost:4444");
}

#[test]
fn builder_with_pool_settings() {
    let builder = BrowserBuilder::new()
        .with_max_pool_size(20)
        .with_min_pool_size(5)
        .with_health_checks(true)
        .with_max_retry_attempts(3);

    assert_eq!(builder.max_size, Some(20));
    assert_eq!(builder.min_size, Some(5));
    assert_eq!(builder.health_checks, Some(true));
    assert_eq!(builder.max_retry_attempts, Some(3));
}

#[test]
fn builder_validation() {
    let result = BrowserBuilder::new().build();
    assert!(result.is_err());
    assert!(result.unwrap_err().to_display_string().contains("At least one WebDriver configuration"));

    let result = BrowserBuilder::new().with_unmanaged("http://localhost:4444").with_max_pool_size(0).build();
    assert!(result.is_err());
    assert!(result.unwrap_err().to_display_string().contains("max_size must be greater than zero"));

    let result = BrowserBuilder::new()
        .with_unmanaged("http://localhost:4444")
        .with_max_pool_size(5)
        .with_min_pool_size(10)
        .build();
    assert!(result.is_err());
    assert!(result.unwrap_err().to_display_string().contains("min_size cannot be greater than max_size"));
}

#[test]
fn builder_skip_validation() {
    let builder = BrowserBuilder::new().without_config_validation().with_unmanaged("invalid-url");
    assert!(builder.skip_validation);
}

#[test]
fn builder_display() {
    let builder = BrowserBuilder::new().with_unmanaged("http://localhost:4444").with_max_pool_size(10);
    let display_str = builder.to_display_string();
    assert!(display_str.contains("configs: 1"));
    assert!(display_str.contains("max_size: Some(10)"));
    assert_eq!(BrowserBuilder::new().to_display_string(), "BrowserBuilder(configs: 0, max_size: None)");
}

#[test]
fn builder_retry_attempts_minimum() {
    let builder = BrowserBuilder::new().with_max_retry_attempts(0);
    assert_eq!(builder.max_retry_attempts, Some(1));
}

#[test]
fn builder_refuses_invalid_configs_unless_told_not_to() {
    let bad = BrowserConfig::new("invalid-url");
    let e = BrowserBuilder::new().with_config(bad).unwrap_err();
    assert_eq!(e.message(), "Invalid WebDriver URL format: invalid-url");
    let ok = BrowserBuilder::new().without_config_validation().with_config(BrowserConfig::new("invalid-url"));
    assert_eq!(ok.unwrap().configs.len(), 1);
    let e = BrowserBuilder::new()
        .with_configs(vec![BrowserConfig::new("http://a"), BrowserConfig::new(""), BrowserConfig::new("x")])
        .unwrap_err();
    assert_eq!(e.message(), "WebDriver URL cannot be empty");
}

#[test]
fn build_validates_every_endpoint_unless_told_not_to() {
    let e = BrowserBuilder::new().with_unmanaged("invalid-url").build().unwrap_err();
    assert_eq!(e.kind(), ErrorKind::Backend);
    assert_eq!(e.message(), "Invalid WebDriver URL format: invalid-url");
    let e = BrowserBuilder::new()
        .with_unmanaged("http://a")
        .with_unmanaged("")
        .with_max_pool_size(0)
        .build()
        .unwrap_err();
    assert_eq!(e.message(), "WebDriver URL cannot be empty");
    let plan = BrowserBuilder::new().without_config_validation().with_unmanaged("invalid-url").build().unwrap();
    assert_eq!(plan.manager.len(), 1);
}

#[test]
fn build_gathers_the_pool_plan() {
    let plan = BrowserBuilder::new()
        .with_unmanaged("http://a")
        .with_managed("http://b")
        .with_health_checks(false)
        .with_acquire_timeout(Duration::from_secs(7))
        .build()
        .unwrap();
    assert_eq!(plan.max_size, 10);
    assert_eq!(plan.wait_timeout, Some(Duration::from_secs(7)));
    assert_eq!(plan.manager.len(), 2);
    assert!(!plan.manager.health_checks_enabled());
    assert_eq!(plan.manager.max_retry_attempts(), 3);
    assert_eq!(pool_build_error("closed").message(), "Failed to create browser connection pool: closed");
}

#[test]
fn browser_behavior_config_builder() {
    let config = BrowserBehaviorConfig::builder()
        .with_navigation_timeout(Duration::from_secs(60))
        .with_element_timeout(Duration::from_secs(20))
        .with_extract_html(true)
        .with_extract_text(true)
        .with_user_agent("TestBot/1.0")
        .with_max_response_size(5_usize * 1024 * 1024)
        .with_capture_screenshots(true)
        .build()
        .unwrap();

    assert_eq!(config.navigation_timeout, Duration::from_secs(60));
    assert_eq!(config.element_timeout, Duration::from_secs(20));
    assert!(config.extract_html);
    assert!(config.extract_text);
    assert_eq!(config.user_agent, Some("TestBot/1.0".to_string()));
    assert_eq!(config.max_response_size, 5_usize * 1024 * 1024);
    assert!(config.capture_screenshots);
}

#[test]
fn browser_behavior_config_builder_validation() {
    let result = BrowserBehaviorConfig::builder().with_navigation_timeout(Duration::from_secs(0)).build();
    assert!(result.is_err());

    let result = BrowserBehaviorConfig::builder().with_element_timeout(Duration::from_secs(0)).build();
    assert!(result.is_err());

    let result = BrowserBehaviorConfig::builder().with_max_response_size(0_usize).build();
    assert!(result.is_err());

    let result = BrowserBehaviorConfig::builder().with_user_agent("").build();
    assert!(result.is_err());

    let result = BrowserBehaviorConfig::builder()
        .with_navigation_timeout(Duration::from_secs(30))
        .with_element_timeout(Duration::from_secs(10))
        .with_max_response_size(1024_usize)
        .build();
    assert!(result.is_ok());
}

#[test]
fn browser_behavior_config_default() {
    let config = BrowserBehaviorConfig::default();
    assert_eq!(config.navigation_timeout, Duration::from_secs(30));
    assert_eq!(config.element_timeout, Duration::from_secs(10));
    assert!(config.extract_html);
    assert!(!config.extract_text);
    assert!(config.enable_javascript);
    assert!(config.wait_for_load);
    assert_eq!(config.user_agent, None);
    assert_eq!(config.max_response_size, 10_usize * 1024 * 1024);
    assert!(!config.capture_screenshots);
}

#[test]
fn sub_second_timeouts_are_refused() {
    let r = BrowserBehaviorConfig::builder().with_navigation_timeout(Duration::from_millis(500)).build();
    match r {
        Err(BuilderError::ValidationError(m)) => assert_eq!(m, "Navigation timeout must be greater than 0"),
        other => panic!("unexpected {:?}", other),
    }
    let r = BrowserBehaviorConfig::builder().with_user_agent("   ").build();
    assert!(r.is_err());
}

#[test]
fn webdriver_manager_creation() {
    let manager = BrowserManager::new();
    assert!(manager.is_empty());
    assert!(manager.health_checks_enabled());
    assert_eq!(manager.max_retry_attempts(), 3);
}

#[test]
fn webdriver_manager_with_config() {
    let config = BrowserConfig::new("http://localhost:4444");
    let manager = BrowserManager::new().with_config(config);

    assert_eq!(manager.len(), 1);
    assert!(manager.select_config().is_some());
}

#[test]
fn webdriver_manager_with_multiple_configs() {
    let configs = vec![BrowserConfig::new("http://localhost:4444"), BrowserConfig::new("http://localhost:4445")];
    let manager = BrowserManager::new().with_configs(configs);

    assert_eq!(manager.len(), 2);
    let url = manager.select_config().unwrap().url.clone();
    assert!(url == "http://localhost:4444" || url == "http://localhost:4445");
    assert!(BrowserManager::new().select_config().is_none());
}

#[test]
fn webdriver_manager_configuration() {
    let manager = BrowserManager::new().with_health_checks(false).with_max_retry_attempts(5);

    assert!(!manager.health_checks_enabled());
    assert_eq!(manager.max_retry_attempts(), 5);
}

#[test]
fn manager_retries_then_gives_up() {
    let manager = BrowserManager::new();
    match manager.after_failure(1, "refused") {
        RetryStep::Retry(d) => assert_eq!(d.as_millis(), 100),
        other => panic!("unexpected {:?}", other),
    }
    match manager.after_failure(2, "refused") {
        RetryStep::Retry(d) => assert_eq!(d.as_millis(), 200),
        other => panic!("unexpected {:?}", other),
    }
    match manager.after_failure(3, "refused") {
        RetryStep::GiveUp(e) => {
            assert_eq!(e.kind(), ErrorKind::Backend);
            assert_eq!(e.message(), "Failed to create WebDriver after 3 attempts: refused");
        },
        other => panic!("unexpected {:?}", other),
    }
    assert!(BrowserManager::recycle_result(true).is_ok());
    assert_eq!(
        BrowserManager::recycle_result(false).unwrap_err().message(),
        "WebDriver failed health check during recycle"
    );
    assert_eq!(BrowserManager::no_config_error().message(), "No WebDriver configurations available");
}

#[test]
fn every_browser_error_variant() {
    let cases: Vec<(BrowserError, &str, &str, bool, ErrorKind)> = vec![
        (
            BrowserError::connection_failed("http://h", "refused"),
            "Failed to connect to WebDriver server at 'http://h': refused",
            "connection",
            true,
            ErrorKind::Http,
        ),
        (
            BrowserError::invalid_session(Some("abc".to_string()), "gone"),
            "Invalid browser session 'abc': gone",
            "session",
            false,
            ErrorKind::Backend,
        ),
        (BrowserError::invalid_session(None, "gone"), "Invalid browser session: gone", "session", false, ErrorKind::Backend),
        (
            BrowserError::pool_exhausted(4, 3),
            "Browser pool exhausted: 3/4 connections active",
            "pool",
            true,
            ErrorKind::Backend,
        ),
        (
            BrowserError::configuration("bad", Some("url".to_string())),
            "Configuration error in 'url': bad",
            "config",
            false,
            ErrorKind::Backend,
        ),
        (
            BrowserError::process_error("spawn", Some(-2), "died"),
            "Process 'spawn' failed with exit code -2: died",
            "process",
            false,
            ErrorKind::Backend,
        ),
        (BrowserError::process_error("spawn", None, "died"), "Process 'spawn' failed: died", "process", false, ErrorKind::Backend),
        (
            BrowserError::element_error("click", Some("#a".to_string()), "hidden"),
            "Element operation 'click' failed on selector '#a': hidden",
            "element",
            false,
            ErrorKind::Worker,
        ),
        (
            BrowserError::navigation_error("https://x", NavigationErrorType::Timeout, None),
            "Navigation to 'https://x' failed: Navigation timeout",
            "navigation",
            true,
            ErrorKind::Http,
        ),
        (
            BrowserError::javascript_error("f()", "boom"),
            "Script execution failed: boom\nScript: f()",
            "script",
            false,
            ErrorKind::Worker,
        ),
        (
            BrowserError::resource_error("file", "a.txt", "missing"),
            "Resource error for file 'a.txt': missing",
            "resource",
            true,
            ErrorKind::Io,
        ),
        (
            BrowserError::capability_error("k", "v", "unknown"),
            "Capability 'k' error with value 'v': unknown",
            "capability",
            false,
            ErrorKind::Backend,
        ),
        (
            BrowserError::operation_failed("save", "disk full"),
            "Operation 'save' failed: disk full",
            "operation",
            true,
            ErrorKind::Backend,
        ),
        (
            BrowserError::from_navigation(NavigationErrorType::Blocked),
            "Navigation to 'unknown' failed: Navigation blocked",
            "navigation",
            false,
            ErrorKind::Http,
        ),
    ];
    for (error, text, category, retryable, kind) in cases {
        assert_eq!(error.to_display_string(), text);
        assert_eq!(error.category(), category);
        assert_eq!(error.is_retryable(), retryable);
        assert_eq!(error.error_kind(), kind);
        let e = error.into_error();
        assert_eq!(e.kind(), kind);
        assert_eq!(e.message(), text);
    }
    assert_eq!(NavigationErrorType::CertificateError.to_display_string(), "Certificate error");
    assert_eq!(NavigationErrorType::Unknown.to_display_string(), "Unknown navigation error");
}

#[test]
fn large_and_fractional_numbers_are_kept() {
    let big = Json::Unsigned(u64::MAX);
    assert!(matches!(big.clone(), Json::Unsigned(u64::MAX)));
    match Json::Float("1.5".to_string()).clone() {
        Json::Float(text) => assert_eq!(text, "1.5"),
        other => panic!("unexpected {:?}", other),
    }
}
