use cosmos_ibc_watcher::backlog::{backlog_status, BacklogMonitor};
use cosmos_ibc_watcher::client::{
    client_health, decimal_string, margin_text, update_ibc_client_status, ClientAction, ClientEvent,
    ClientMonitor, ClientPhase,
};
use cosmos_ibc_watcher::config::{refresh, Channel};
use cosmos_ibc_watcher::error::WatcherError;
use cosmos_ibc_watcher::telemetry::register_custom_metrics;
use cosmos_ibc_watcher::time::{Height, Span};

fn channel(min_total: &str, margin: Option<&str>) -> Channel {
    Channel {
        port_id: "transfer".to_string(),
        channel_id: "channel-0".to_string(),
        destination_chain_id: "osmosis-1".to_string(),
        min_total: min_total.to_string(),
        refresh: refresh(),
        min_time_before_client_expiration: margin.map(|m| m.to_string()),
    }
}

fn sample(text: &str, name: &str) -> Option<String> {
    let prefix = format!("{}{{", name);
    text.lines()
        .find(|l| l.starts_with(&prefix))
        .map(|l| l.rsplit(' ').next().unwrap().to_string())
}

const T: u64 = 1_700_000_000;

#[test]
fn backlog_status_against_threshold() {
    assert_eq!(backlog_status(7, 10), 0);
    assert_eq!(backlog_status(10, 10), 1);
    assert_eq!(backlog_status(15, 10), 1);
    assert_eq!(backlog_status(0, 0), 1);
}

#[test]
fn backlog_scenario_seven_then_fifteen() {
    let mut store = register_custom_metrics().unwrap();
    let m = BacklogMonitor::new("mantra-1", "https://grpc.mantrachain.io", &channel("10", None))
        .unwrap();
    assert_eq!(m.min_total, 10);
    m.on_poll(&mut store, Some(7));
    let text = store.render();
    assert_eq!(sample(&text, "ibc_status"), Some("0".to_string()));
    assert_eq!(sample(&text, "ibc_count"), Some("7".to_string()));
    assert_eq!(sample(&text, "ibc_query_status"), Some("0".to_string()));
    m.on_poll(&mut store, Some(15));
    let text = store.render();
    assert_eq!(sample(&text, "ibc_status"), Some("1".to_string()));
    assert_eq!(sample(&text, "ibc_count"), Some("15".to_string()));
}

#[test]
fn backlog_failed_poll_marks_endpoint_only() {
    let mut store = register_custom_metrics().unwrap();
    let m = BacklogMonitor::new("mantra-1", "https://x", &channel("10", None)).unwrap();
    m.on_poll(&mut store, Some(7));
    m.on_poll(&mut store, None);
    let text = store.render();
    assert_eq!(sample(&text, "ibc_query_status"), Some("1".to_string()));
    assert_eq!(sample(&text, "ibc_status"), Some("0".to_string()));
    assert_eq!(sample(&text, "ibc_count"), Some("7".to_string()));
}

#[test]
fn backlog_count_saturates() {
    let mut store = register_custom_metrics().unwrap();
    let m = BacklogMonitor::new("c", "e", &channel("1", None)).unwrap();
    m.on_poll(&mut store, Some(u64::MAX));
    // the exposition writes gauge values as floats
    let shown: f64 = sample(&store.render(), "ibc_count").unwrap().parse().unwrap();
    assert_eq!(shown, i64::MAX as f64);
}

#[test]
fn backlog_monitor_rejects_bad_threshold() {
    assert_eq!(
        BacklogMonitor::new("c", "e", &channel("lots", None)).err(),
        Some(WatcherError::ConfigParseU64)
    );
}

#[test]
fn client_health_near_expiry() {
    let margin = Span::from_secs(200);
    let period = Span::from_secs(1000);
    let t = Span::from_secs(T);
    assert_eq!(client_health(margin, period, t, Span::from_secs(T + 900)), (1, 100));
    assert_eq!(client_health(margin, period, t, Span::from_secs(T + 500)), (0, 500));
}

#[test]
fn client_health_expired() {
    let period = Span::from_secs(1000);
    let t = Span::from_secs(T);
    assert_eq!(client_health(Span::from_secs(200), period, t, Span::from_secs(T + 1000)), (1, 0));
    assert_eq!(client_health(Span::zero(), period, t, Span::from_secs(T + 5000)), (1, 0));
}

#[test]
fn client_health_at_the_margin() {
    let t = Span::from_secs(T);
    assert_eq!(
        client_health(Span::from_secs(100), Span::from_secs(1000), t, Span::from_secs(T + 900)),
        (1, 100)
    );
}

#[test]
fn update_client_status_publishes_both_gauges() {
    let mut store = register_custom_metrics().unwrap();
    update_ibc_client_status(
        &mut store,
        "mantra-1",
        "transfer",
        "channel-0",
        "osmosis-1",
        Span::from_secs(200),
        Span::from_secs(1000),
        Span::from_secs(T),
        Span::from_secs(T + 900),
    );
    let text = store.render();
    assert_eq!(sample(&text, "ibc_client_time_before_expire"), Some("100".to_string()));
    assert_eq!(sample(&text, "ibc_client_status"), Some("1".to_string()));
    assert!(text.contains("min_time_before_client_expiration=\"200s\""));
}

#[test]
fn margin_label_is_whole_seconds() {
    assert_eq!(margin_text(Span::from_secs(200)), "200s");
    assert_eq!(margin_text(Span::from_parts(333, 333_333_333)), "333s");
    assert_eq!(margin_text(Span::zero()), "0s");
}

#[test]
fn client_monitor_full_tick_then_cache_hit() {
    let mut store = register_custom_metrics().unwrap();
    let mut m = ClientMonitor::new("mantra-1", "https://x", &channel("10", None)).unwrap();
    assert_eq!(m.state.last_client_state_height, Height::min());
    assert_eq!(m.step(&mut store, ClientEvent::Tick), ClientAction::QueryTrustingPeriod);
    let period = Span::from_secs(1200);
    assert_eq!(
        m.step(&mut store, ClientEvent::TrustingPeriod(Some(period))),
        ClientAction::QueryLatestHeight
    );
    assert_eq!(m.state.min_time_before_client_expiration, Some(Span::from_secs(400)));
    let h = Height::new(1, 50).unwrap();
    assert_eq!(
        m.step(&mut store, ClientEvent::LatestHeight(Some(h))),
        ClientAction::QueryConsensusTimestamp(h)
    );
    let t = Span::from_secs(T);
    assert_eq!(m.step(&mut store, ClientEvent::ConsensusTimestamp(Some(t))), ClientAction::ReadClock);
    assert_eq!(m.state.last_client_state_height, h);
    assert_eq!(m.step(&mut store, ClientEvent::Clock(Span::from_secs(T + 300))), ClientAction::Wait);
    let text = store.render();
    assert_eq!(sample(&text, "ibc_client_time_before_expire"), Some("900".to_string()));
    assert_eq!(sample(&text, "ibc_client_status"), Some("0".to_string()));

    // next tick: the trusting period is cached and the height has not moved
    assert_eq!(m.step(&mut store, ClientEvent::Tick), ClientAction::QueryLatestHeight);
    assert_eq!(m.step(&mut store, ClientEvent::LatestHeight(Some(h))), ClientAction::ReadClock);
    assert_eq!(m.state.last_consensus_state_duration, Some(t));
    assert_eq!(m.step(&mut store, ClientEvent::Clock(Span::from_secs(T + 1000))), ClientAction::Wait);
    let text = store.render();
    assert_eq!(sample(&text, "ibc_client_time_before_expire"), Some("200".to_string()));
    assert_eq!(sample(&text, "ibc_client_status"), Some("1".to_string()));
}

#[test]
fn client_monitor_failed_consensus_query_keeps_height() {
    let mut store = register_custom_metrics().unwrap();
    let mut m =
        ClientMonitor::new("c", "https://x", &channel("10", Some("10m"))).unwrap();
    assert_eq!(m.state.min_time_before_client_expiration, Some(Span::from_secs(600)));
    m.step(&mut store, ClientEvent::Tick);
    m.step(&mut store, ClientEvent::TrustingPeriod(Some(Span::from_secs(3000))));
    assert_eq!(m.state.min_time_before_client_expiration, Some(Span::from_secs(600)));
    let h = Height::new(0, 9).unwrap();
    m.step(&mut store, ClientEvent::LatestHeight(Some(h)));
    let before = m.state;
    assert_eq!(m.step(&mut store, ClientEvent::ConsensusTimestamp(None)), ClientAction::Wait);
    assert_eq!(m.state.last_client_state_height, before.last_client_state_height);
    assert_eq!(m.state.last_consensus_state_duration, None);
    assert_eq!(m.state.phase, ClientPhase::Idle);
    assert_eq!(sample(&store.render(), "ibc_query_status"), Some("1".to_string()));
    // the next tick retries the same height transition
    m.step(&mut store, ClientEvent::Tick);
    assert_eq!(
        m.step(&mut store, ClientEvent::LatestHeight(Some(h))),
        ClientAction::QueryConsensusTimestamp(h)
    );
}

#[test]
fn client_monitor_failed_trusting_period_query() {
    let mut store = register_custom_metrics().unwrap();
    let mut m = ClientMonitor::new("c", "https://x", &channel("10", None)).unwrap();
    m.step(&mut store, ClientEvent::Tick);
    assert_eq!(m.step(&mut store, ClientEvent::TrustingPeriod(None)), ClientAction::Wait);
    assert!(m.state.trusting_period.is_none());
    assert_eq!(m.step(&mut store, ClientEvent::Tick), ClientAction::QueryTrustingPeriod);
}

#[test]
fn client_monitor_skips_report_before_first_height() {
    let mut store = register_custom_metrics().unwrap();
    let mut m = ClientMonitor::new("c", "https://x", &channel("10", None)).unwrap();
    m.step(&mut store, ClientEvent::Tick);
    m.step(&mut store, ClientEvent::TrustingPeriod(Some(Span::from_secs(300))));
    assert_eq!(
        m.step(&mut store, ClientEvent::LatestHeight(Some(Height::min()))),
        ClientAction::Wait
    );
    assert!(sample(&store.render(), "ibc_client_status").is_none());
}

#[test]
fn client_monitor_rejects_bad_margin() {
    assert_eq!(
        ClientMonitor::new("c", "e", &channel("10", Some("whenever"))).err(),
        Some(WatcherError::ConfigDuration)
    );
}

#[test]
fn heights() {
    assert!(Height::new(0, 0).is_none());
    let a = Height::new(0, 5).unwrap();
    let b = Height::new(1, 2).unwrap();
    assert!(b.is_after(&a));
    assert!(!a.is_after(&b));
    assert!(!a.is_after(&a));
}

#[test]
fn decimal_string_writes_digits() {
    assert_eq!(decimal_string(0), "0");
    assert_eq!(decimal_string(7), "7");
    assert_eq!(decimal_string(120), "120");
    assert_eq!(decimal_string(u64::MAX), u64::MAX.to_string());
}
