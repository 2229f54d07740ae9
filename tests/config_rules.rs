use cosmos_ibc_watcher::config::{
    check_parse_u64, parse_duration, parse_u64, refresh, ChainConfig, Channel, Config,
    PrometheusConfig,
};
use cosmos_ibc_watcher::error::WatcherError;
use cosmos_ibc_watcher::time::Span;

fn channel(min_total: &str) -> Channel {
    Channel {
        port_id: "transfer".to_string(),
        channel_id: "channel-0".to_string(),
        destination_chain_id: "osmosis-1".to_string(),
        min_total: min_total.to_string(),
        refresh: refresh(),
        min_time_before_client_expiration: None,
    }
}

fn config_with(thresholds: &[&str]) -> Config {
    Config {
        prometheus: PrometheusConfig::default(),
        chains: vec![ChainConfig {
            id: "mantra-1".to_string(),
            grpc_addr: "https://grpc.mantrachain.io".to_string(),
            channels: thresholds.iter().map(|t| channel(t)).collect(),
        }],
    }
}

#[test]
fn parse_u64_reads_decimal_text() {
    assert_eq!(parse_u64("10"), Some(10));
    assert_eq!(parse_u64("0"), Some(0));
    assert_eq!(parse_u64("+7"), Some(7));
    assert_eq!(parse_u64("007"), Some(7));
    assert_eq!(parse_u64("18446744073709551615"), Some(u64::MAX));
}

#[test]
fn parse_u64_rejects_what_std_rejects() {
    for text in ["", "+", "-", "-1", "1a", " 1", "1.5", "18446744073709551616", "99999999999999999999"] {
        assert_eq!(parse_u64(text), None, "{}", text);
        assert!(text.parse::<u64>().is_err());
    }
}

#[test]
fn check_parse_u64_accepts_valid_thresholds() {
    assert_eq!(check_parse_u64(config_with(&["10", "0", "500"])), Ok(()));
    assert_eq!(check_parse_u64(config_with(&[])), Ok(()));
}

#[test]
fn check_parse_u64_rejects_a_bad_threshold() {
    assert_eq!(
        check_parse_u64(config_with(&["10", "ten"])),
        Err(WatcherError::ConfigParseU64)
    );
    assert_eq!(check_parse_u64(config_with(&["-5"])), Err(WatcherError::ConfigParseU64));
}

#[test]
fn default_refresh_is_two_minutes() {
    assert_eq!(refresh().as_secs(), 120);
    assert_eq!(refresh().subsec_nanos(), 0);
}

#[test]
fn default_prometheus_config() {
    let p = PrometheusConfig::default();
    assert_eq!(p.host, "0.0.0.0");
    assert_eq!(p.port, 9090);
    assert!(p.reset.is_none());
}

#[test]
fn parse_duration_reads_duration_text() {
    assert_eq!(parse_duration("90s"), Ok(Span::from_secs(90)));
    assert_eq!(parse_duration("2m"), Ok(Span::from_secs(120)));
    assert_eq!(parse_duration("1h"), Ok(Span::from_secs(3600)));
}

#[test]
fn parse_duration_rejects_bad_text() {
    assert_eq!(parse_duration(""), Err(WatcherError::ConfigDuration));
    assert_eq!(parse_duration("soon"), Err(WatcherError::ConfigDuration));
}

#[test]
fn span_arithmetic() {
    let s = Span::from_parts(10, 500);
    assert_eq!(s.as_nanos(), 10_000_000_500);
    assert_eq!(s.as_secs(), 10);
    assert_eq!(s.subsec_nanos(), 500);
    assert_eq!(Span::from_secs(1000).third().as_nanos(), 333_333_333_333);
    assert_eq!(Span::from_nanos(7).as_nanos(), 7);
}

#[test]
fn error_messages() {
    assert_eq!(WatcherError::ConfigParseU64.message(), "invalid number");
    assert_eq!(WatcherError::ConfigIo.message(), "config I/O error");
}

fn chain(id: &str, addr: &str) -> ChainConfig {
    ChainConfig {
        id: id.to_string(),
        grpc_addr: addr.to_string(),
        channels: vec![channel("1")],
    }
}

#[test]
fn chains_map_by_id_later_wins() {
    let config = Config {
        prometheus: PrometheusConfig::default(),
        chains: vec![chain("a", "https://one"), chain("b", "https://two"), chain("a", "https://three")],
    };
    let m = config.chains_map();
    assert_eq!(m.len(), 2);
    assert_eq!(m.get("a").unwrap().grpc_addr, "https://three");
    assert_eq!(m.get("b").unwrap().grpc_addr, "https://two");
    assert!(m.get("c").is_none());
}

#[test]
fn chains_map_of_no_chains_is_empty() {
    let config = Config { prometheus: PrometheusConfig::default(), chains: vec![] };
    assert!(config.chains_map().is_empty());
}
