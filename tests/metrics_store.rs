use cosmos_ibc_watcher::telemetry::{
    ibc_client_status_setter, ibc_count_setter, ibc_query_status_setter, ibc_status_setter,
    register_custom_metrics,
};

fn sample(text: &str, name: &str) -> Option<String> {
    let prefix = format!("{}{{", name);
    text.lines()
        .find(|l| l.starts_with(&prefix))
        .map(|l| l.rsplit(' ').next().unwrap().to_string())
}

#[test]
fn new_store_renders_nothing() {
    let store = register_custom_metrics().unwrap();
    assert_eq!(store.render(), "");
}

#[test]
fn setter_writes_a_series() {
    let mut store = register_custom_metrics().unwrap();
    ibc_status_setter(&mut store, "mantra-1", "transfer", "channel-0", "osmosis-1", "10", 1);
    let text = store.render();
    assert_eq!(sample(&text, "ibc_status"), Some("1".to_string()));
    assert!(text.contains("min_total=\"10\""));
    assert!(text.contains("chain_id=\"mantra-1\""));
}

#[test]
fn reset_all_then_render_is_empty() {
    let mut store = register_custom_metrics().unwrap();
    ibc_status_setter(&mut store, "a", "transfer", "channel-0", "b", "10", 0);
    ibc_count_setter(&mut store, "a", "transfer", "channel-0", "b", "10", 7);
    ibc_query_status_setter(&mut store, "a", "transfer", "channel-0", "b", "https://x", 0);
    ibc_client_status_setter(&mut store, "a", "transfer", "channel-0", "b", "200s", 1);
    assert!(!store.render().is_empty());
    store.reset_all();
    assert_eq!(store.render(), "");
}

#[test]
fn setting_twice_renders_the_same() {
    let mut store = register_custom_metrics().unwrap();
    ibc_count_setter(&mut store, "a", "transfer", "channel-0", "b", "10", 42);
    let once = store.render();
    ibc_count_setter(&mut store, "a", "transfer", "channel-0", "b", "10", 42);
    assert_eq!(store.render(), once);
}

#[test]
fn last_write_wins() {
    let mut store = register_custom_metrics().unwrap();
    ibc_count_setter(&mut store, "a", "transfer", "channel-0", "b", "10", 3);
    ibc_count_setter(&mut store, "a", "transfer", "channel-0", "b", "10", 9);
    let text = store.render();
    assert_eq!(sample(&text, "ibc_count"), Some("9".to_string()));
    assert_eq!(text.lines().filter(|l| l.starts_with("ibc_count{")).count(), 1);
}

#[test]
fn store_has_five_gauges_with_their_labels() {
    let mut store = register_custom_metrics().unwrap();
    ibc_status_setter(&mut store, "a", "p", "c", "d", "10", 0);
    ibc_count_setter(&mut store, "a", "p", "c", "d", "10", 5);
    ibc_query_status_setter(&mut store, "a", "p", "c", "d", "https://x", 0);
    ibc_client_status_setter(&mut store, "a", "p", "c", "d", "200s", 0);
    cosmos_ibc_watcher::telemetry::ibc_client_time_before_expire_setter(
        &mut store, "a", "p", "c", "d", "200s", 300,
    );
    let text = store.render();
    for (name, last) in [
        ("ibc_status", "min_total=\"10\""),
        ("ibc_count", "min_total=\"10\""),
        ("ibc_query_status", "query_endpoint_url=\"https://x\""),
        ("ibc_client_status", "min_time_before_client_expiration=\"200s\""),
        ("ibc_client_time_before_expire", "min_time_before_client_expiration=\"200s\""),
    ] {
        let line = text
            .lines()
            .find(|l| l.starts_with(&format!("{}{{", name)))
            .unwrap_or_else(|| panic!("no series of {}", name));
        for label in ["chain_id=\"a\"", "port_id=\"p\"", "channel_id=\"c\"", "destination_chain_id=\"d\"", last] {
            assert!(line.contains(label), "{} lacks {}", line, label);
        }
    }
    assert_eq!(text.lines().filter(|l| l.starts_with("# TYPE")).count(), 5);
}

#[test]
fn two_stores_are_independent() {
    let mut a = register_custom_metrics().unwrap();
    let b = register_custom_metrics().unwrap();
    ibc_count_setter(&mut a, "x", "p", "c", "d", "1", 1);
    assert!(!a.render().is_empty());
    assert_eq!(b.render(), "");
}
