use pool_fetcher::config::{proxy_url, Config, ConfigError};
use pool_fetcher::models::Protocol;

fn some(s: &str) -> Option<String> {
    Some(s.to_string())
}

#[test]
fn config_defaults_database_paths() {
    let c = Config::from_values(None, None, some("u3"), some("ua"), some("u2"), some("u4"), some("up")).unwrap();
    assert_eq!(c.db_path, "pools.db");
    assert_eq!(c.ticks_db_path, "ticks.db");
    assert_eq!(c.url_for(Protocol::UniV3), "u3");
    assert_eq!(c.url_for(Protocol::AerodromeV3), "ua");
    assert_eq!(c.url_for(Protocol::UniV2), "u2");
    assert_eq!(c.url_for(Protocol::UniV4), "u4");
    assert_eq!(c.url_for(Protocol::PancakeV4), "up");
}

#[test]
fn config_keeps_given_paths() {
    let c = Config::from_values(some("a.db"), some("b.db"), some("u3"), some("ua"), some("u2"), some("u4"), some("up")).unwrap();
    assert_eq!(c.db_path, "a.db");
    assert_eq!(c.ticks_db_path, "b.db");
}

#[test]
fn config_reports_first_missing_url() {
    let r = Config::from_values(None, None, some("u3"), None, some("u2"), None, some("up"));
    assert_eq!(r.err(), Some(ConfigError::MissingAerodromeUrl));
    let r = Config::from_values(None, None, None, None, None, None, None);
    assert_eq!(r.err(), Some(ConfigError::MissingUniV3Url));
    let r = Config::from_values(None, None, some("a"), some("b"), some("c"), some("d"), None);
    assert_eq!(r.err(), Some(ConfigError::MissingPancakeV4Url));
    assert_eq!(ConfigError::MissingUniV2Url.message(), "Missing URL_UNIV2_BASE in .env");
    assert_eq!(ConfigError::MissingUniV4Url.message(), "Missing URL_UNIV4_BASE in .env");
}

#[test]
fn proxy_url_adds_scheme() {
    assert_eq!(proxy_url("127.0.0.1:7890".to_string()), "http://127.0.0.1:7890");
    assert_eq!(proxy_url("http://h:1".to_string()), "http://h:1");
    assert_eq!(proxy_url("https://h:1".to_string()), "https://h:1");
    assert_eq!(proxy_url("socks5://h".to_string()), "http://socks5://h");
    assert_eq!(proxy_url("htt".to_string()), "http://htt");
}

#[test]
fn missing_url_names_the_first_one() {
    assert_eq!(Config::missing_url(&None, &None, &None, &None, &None), Some(ConfigError::MissingUniV3Url));
    assert_eq!(
        Config::missing_url(&some("a"), &some("b"), &None, &None, &some("e")),
        Some(ConfigError::MissingUniV2Url)
    );
    assert_eq!(Config::missing_url(&some("a"), &some("b"), &some("c"), &some("d"), &some("e")), None);
    assert_eq!(ConfigError::MissingUniV3Url.message(), "Missing URL_UNIV3_BASE in .env");
}

#[test]
fn load_values_with_every_url() {
    let c = Config::load_values(None, some("t.db"), some("u3"), some("ua"), some("u2"), some("u4"), some("up"));
    assert_eq!(c.db_path, "pools.db");
    assert_eq!(c.ticks_db_path, "t.db");
    assert_eq!(c.url_pancake_v4, "up");
}
