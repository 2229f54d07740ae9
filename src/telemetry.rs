//! The metrics store: five labelled integer gauges in one registry.
use crate::error::WatcherError;
use prometheus::Encoder;
use prometheus::{IntGaugeVec, Registry};
use vstd::prelude::*;

verus! {

#[verifier::external_type_specification]
#[verifier::external_body]
pub struct ExRegistry(prometheus::Registry);

#[verifier::external_type_specification]
#[verifier::external_body]
pub struct ExPrometheusError(prometheus::Error);

/// A prometheus integer gauge vector with five labels. Its one constructor,
/// `new_gauge_vec`, gives it five label names.
#[verifier::external_body]
pub struct LabelledGauge {
    inner: IntGaugeVec,
}

/// The series of one gauge vector: for each key of a label tuple, the label
/// tuple that first created the series and its current value.
pub type Series = Map<u64, (Seq<Seq<char>>, i64)>;

/// What a gauge vector holds.
pub uninterp spec fn gauge_series(g: LabelledGauge) -> Series;

/// The metric name a gauge vector was made with.
pub uninterp spec fn gauge_name(g: LabelledGauge) -> Seq<char>;

/// The label names a gauge vector was made with, in order.
pub uninterp spec fn gauge_label_names(g: LabelledGauge) -> Seq<Seq<char>>;

/// The descriptor id that prometheus derives from a metric name that has no
/// constant labels.
pub uninterp spec fn descriptor_id(name: Seq<char>) -> u64;

/// The descriptor ids and collector ids in use in a registry.
pub uninterp spec fn registered_ids(r: Registry) -> Set<u64>;

/// The metric names registered in a registry.
pub uninterp spec fn registered_names(r: Registry) -> Set<Seq<char>>;

/// The key under which a gauge vector files a tuple of label values.
pub uninterp spec fn label_key(labels: Seq<Seq<char>>) -> u64;

/// The text exposition of the store's five gauge vectors, given their series
/// in the order status, count, query status, client status, time before
/// expiry.
pub uninterp spec fn exposition(series: Seq<Series>) -> Seq<char>;

/// The series after the series of `labels` is set to `v`.
pub open spec fn series_set(m: Series, labels: Seq<Seq<char>>, v: i64) -> Series {
    let k = label_key(labels);
    if m.contains_key(k) {
        m.insert(k, (m[k].0, v))
    } else {
        m.insert(k, (labels, v))
    }
}

/// The value of the series of `labels`, if it is set.
pub open spec fn series_value(m: Series, labels: Seq<Seq<char>>) -> Option<i64> {
    if m.contains_key(label_key(labels)) {
        Some(m[label_key(labels)].1)
    } else {
        None
    }
}

/// The five label values of a series.
pub open spec fn labels5(
    a: Seq<char>,
    b: Seq<char>,
    c: Seq<char>,
    d: Seq<char>,
    e: Seq<char>,
) -> Seq<Seq<char>> {
    seq![a, b, c, d, e]
}

/// A letter or `_`, or also `:` where `colon` holds.
pub open spec fn name_char(c: char, colon: bool) -> bool {
    ('a' <= c <= 'z') || ('A' <= c <= 'Z') || c == '_' || (colon && c == ':')
}

/// A name of one or more name characters, digits allowed after the first.
pub open spec fn is_ident(s: Seq<char>, colon: bool) -> bool {
    &&& s.len() > 0
    &&& name_char(s[0], colon)
    &&& forall|i: int| 1 <= i < s.len() ==> name_char(#[trigger] s[i], colon) || ('0' <= s[i] <= '9')
}

/// Whether prometheus accepts a gauge description: a help text, a metric
/// name over `[a-zA-Z_:][a-zA-Z0-9_:]*`, label names over
/// `[a-zA-Z_][a-zA-Z0-9_]*`, no label name twice.
pub open spec fn valid_gauge(name: Seq<char>, help: Seq<char>, labels: Seq<Seq<char>>) -> bool {
    &&& help.len() > 0
    &&& is_ident(name, true)
    &&& forall|i: int| 0 <= i < labels.len() ==> is_ident(#[trigger] labels[i], false)
    &&& forall|i: int, j: int| 0 <= i < j < labels.len() ==> labels[i] != labels[j]
}

/// Relies on `IntGaugeVec::new`, `Opts::new` and `Desc::new`: a valid
/// description gives a vector, with that name and those label names, that
/// holds no series.
#[verifier::external_body]
fn new_gauge_vec(
    name: &str,
    help: &str,
    l0: &str,
    l1: &str,
    l2: &str,
    l3: &str,
    l4: &str,
) -> (r: Result<LabelledGauge, prometheus::Error>)
    ensures
        valid_gauge(name@, help@, labels5(l0@, l1@, l2@, l3@, l4@)) ==> r is Ok,
        r matches Ok(g) ==> {
            &&& gauge_series(g) == Series::empty()
            &&& gauge_name(g) == name@
            &&& gauge_label_names(g) == labels5(l0@, l1@, l2@, l3@, l4@)
        },
{
    let inner = IntGaugeVec::new(prometheus::Opts::new(name, help), &[l0, l1, l2, l3, l4])?;
    Ok(LabelledGauge { inner })
}

/// Relies on `MetricVec::with_label_values` and `GenericGauge::set`: the
/// series filed under the key of the labels gets the value; a new series
/// keeps the labels it was created with. The vector has five label names,
/// so `with_label_values` does not panic on five values.
#[verifier::external_body]
fn set_gauge(
    g: &mut LabelledGauge,
    l0: &str,
    l1: &str,
    l2: &str,
    l3: &str,
    l4: &str,
    v: i64,
)
    ensures
        gauge_name(*final(g)) == gauge_name(*old(g)),
        gauge_label_names(*final(g)) == gauge_label_names(*old(g)),
        gauge_series(*final(g)).contains_key(label_key(labels5(l0@, l1@, l2@, l3@, l4@))),
        gauge_series(*final(g)) == series_set(
            gauge_series(*old(g)),
            labels5(l0@, l1@, l2@, l3@, l4@),
            v,
        ),
{
    g.inner.with_label_values(&[l0, l1, l2, l3, l4]).set(v)
}

/// Relies on `MetricVec::reset`: every series is removed.
#[verifier::external_body]
fn reset_gauge(g: &mut LabelledGauge)
    ensures
        gauge_name(*final(g)) == gauge_name(*old(g)),
        gauge_label_names(*final(g)) == gauge_label_names(*old(g)),
        gauge_series(*final(g)) == Series::empty(),
{
    g.inner.reset()
}

/// Relies on `Registry::register`, which adds a collector that shares the
/// gauge vector's series. A gauge vector has one descriptor, with no
/// constant labels; its registration succeeds where neither its descriptor
/// id nor its name is in use, and then records both.
#[verifier::external_body]
fn register_gauge(r: &mut Registry, g: &LabelledGauge) -> (res: Result<(), prometheus::Error>)
    ensures
        !registered_ids(*old(r)).contains(descriptor_id(gauge_name(*g)))
            && !registered_names(*old(r)).contains(gauge_name(*g)) ==> res is Ok,
        res is Ok ==> registered_ids(*final(r)) == registered_ids(*old(r)).insert(
            descriptor_id(gauge_name(*g)),
        ),
        res is Ok ==> registered_names(*final(r)) == registered_names(*old(r)).insert(
            gauge_name(*g),
        ),
{
    r.register(Box::new(g.inner.clone()))
}

/// A new registry holds nothing.
pub assume_specification[ prometheus::Registry::new ]() -> (r: Registry)
    ensures
        registered_ids(r) == Set::<u64>::empty(),
        registered_names(r) == Set::<Seq<char>>::empty(),
;

/// The store of gauges that the monitors write and a scraper reads.
pub struct MetricsStore {
    status: LabelledGauge,
    count: LabelledGauge,
    query_status: LabelledGauge,
    client_status: LabelledGauge,
    time_before_expire: LabelledGauge,
    registry: Registry,
}

/// What the store holds: the series of each of its five gauges.
pub struct MetricsView {
    /// Backlog status: 0 below the threshold, 1 at or above it.
    pub status: Series,
    /// Backlog count.
    pub count: Series,
    /// Query status: 0 reachable, 1 the last query failed.
    pub query_status: Series,
    /// Client status: 0 healthy, 1 near or past expiry.
    pub client_status: Series,
    /// Seconds before the client expires.
    pub time_before_expire: Series,
}

impl MetricsView {
    /// The five series, in the order of the exposition.
    pub open spec fn families(self) -> Seq<Series> {
        seq![self.status, self.count, self.query_status, self.client_status, self.time_before_expire]
    }

    /// Whether no gauge holds any series.
    pub open spec fn is_empty(self) -> bool {
        &&& self.status == Series::empty()
        &&& self.count == Series::empty()
        &&& self.query_status == Series::empty()
        &&& self.client_status == Series::empty()
        &&& self.time_before_expire == Series::empty()
    }
}

impl View for MetricsStore {
    type V = MetricsView;

    closed spec fn view(&self) -> MetricsView {
        MetricsView {
            status: gauge_series(self.status),
            count: gauge_series(self.count),
            query_status: gauge_series(self.query_status),
            client_status: gauge_series(self.client_status),
            time_before_expire: gauge_series(self.time_before_expire),
        }
    }
}

/// Relies on `Registry::gather` and `TextEncoder::encode`: the registry of a
/// well-formed store holds its five gauge vectors and nothing else, gathering drops vectors without series and
/// sorts the rest by name and their series by labels, so the text depends
/// on the series alone, and is empty where there are none.
#[verifier::external_body]
fn encode_registry(store: &MetricsStore) -> (r: String)
    requires
        store.well_formed(),
    ensures
        r@ == exposition(store@.families()),
        store@.is_empty() ==> r@.len() == 0,
{
    let mut buffer = Vec::new();
    let _ = prometheus::TextEncoder::new().encode(&store.registry.gather(), &mut buffer);
    String::from_utf8(buffer).unwrap_or_default()
}

impl MetricsStore {
    /// The metric names of the five gauges, in the order of the exposition.
    pub closed spec fn metric_names(&self) -> Seq<Seq<char>> {
        seq![
            gauge_name(self.status),
            gauge_name(self.count),
            gauge_name(self.query_status),
            gauge_name(self.client_status),
            gauge_name(self.time_before_expire),
        ]
    }

    /// The label names of the five gauges, in the order of the exposition.
    pub closed spec fn metric_label_names(&self) -> Seq<Seq<Seq<char>>> {
        seq![
            gauge_label_names(self.status),
            gauge_label_names(self.count),
            gauge_label_names(self.query_status),
            gauge_label_names(self.client_status),
            gauge_label_names(self.time_before_expire),
        ]
    }

    /// The metric names registered in the store's registry.
    pub closed spec fn registered(&self) -> Set<Seq<char>> {
        registered_names(self.registry)
    }

    /// The names, label names and registrations, which writes keep.
    pub open spec fn same_layout(&self, other: &MetricsStore) -> bool {
        &&& self.metric_names() == other.metric_names()
        &&& self.metric_label_names() == other.metric_label_names()
        &&& self.registered() == other.registered()
    }

    /// Whether the store has its five gauges, with their label names, and
    /// its registry holds exactly those five.
    pub open spec fn well_formed(&self) -> bool {
        &&& self.metric_names() == store_metric_names()
        &&& self.metric_label_names() == store_label_names()
        &&& self.registered() == store_metric_names().to_set()
    }

    /// Clears every series of every gauge.
    pub fn reset_all(&mut self)
        ensures
            final(self)@.is_empty(),
            final(self).same_layout(old(self)),
    {
        reset_gauge(&mut self.status);
        reset_gauge(&mut self.count);
        reset_gauge(&mut self.query_status);
        reset_gauge(&mut self.client_status);
        reset_gauge(&mut self.time_before_expire);
    }

    /// The text exposition of every series, for a scraper.
    pub fn render(&self) -> (r: String)
        requires
            self.well_formed(),
        ensures
            r@ == exposition(self@.families()),
            self@.is_empty() ==> r@.len() == 0,
    {
        encode_registry(self)
    }
}

/// The metric names of the store's gauges, in the order of the exposition.
pub open spec fn store_metric_names() -> Seq<Seq<char>> {
    seq![
        "ibc_status"@,
        "ibc_count"@,
        "ibc_query_status"@,
        "ibc_client_status"@,
        "ibc_client_time_before_expire"@,
    ]
}

/// The label names of a channel's series, ending in `last`.
pub open spec fn channel_label_names(last: Seq<char>) -> Seq<Seq<char>> {
    labels5("chain_id"@, "port_id"@, "channel_id"@, "destination_chain_id"@, last)
}

/// The label names of the store's gauges, in the order of the exposition.
pub open spec fn store_label_names() -> Seq<Seq<Seq<char>>> {
    seq![
        channel_label_names("min_total"@),
        channel_label_names("min_total"@),
        channel_label_names("query_endpoint_url"@),
        channel_label_names("min_time_before_client_expiration"@),
        channel_label_names("min_time_before_client_expiration"@),
    ]
}

/// Whether the descriptor ids of the names differ pairwise.
pub open spec fn ids_distinct(names: Seq<Seq<char>>) -> bool {
    forall|i: int, j: int|
        0 <= i < j < names.len() ==> descriptor_id(names[i]) != descriptor_id(names[j])
}

proof fn lemma_channel_labels_valid(last: Seq<char>)
    requires
        is_ident(last, false),
        last != "chain_id"@,
        last != "port_id"@,
        last != "channel_id"@,
        last != "destination_chain_id"@,
    ensures
        forall|i: int|
            0 <= i < 5 ==> is_ident(#[trigger] channel_label_names(last)[i], false),
        forall|i: int, j: int|
            0 <= i < j < 5 ==> channel_label_names(last)[i] != channel_label_names(last)[j],
{
    reveal_strlit("chain_id");
    reveal_strlit("port_id");
    reveal_strlit("channel_id");
    reveal_strlit("destination_chain_id");
    assert(is_ident("chain_id"@, false));
    assert(is_ident("port_id"@, false));
    assert(is_ident("channel_id"@, false));
    assert(is_ident("destination_chain_id"@, false));
    assert("chain_id"@ != "port_id"@);
    assert("chain_id"@ != "channel_id"@);
    assert("chain_id"@ != "destination_chain_id"@);
    assert("port_id"@ != "channel_id"@);
    assert("port_id"@ != "destination_chain_id"@);
    assert("channel_id"@ != "destination_chain_id"@);
}

/// A gauge vector over a channel's labels, the last one named `last`.
fn channel_gauge(name: &str, help: &str, last: &str) -> (r: Result<LabelledGauge, WatcherError>)
    requires
        valid_gauge(name@, help@, channel_label_names(last@)),
    ensures
        r matches Ok(g) ==> {
            &&& gauge_series(g) == Series::empty()
            &&& gauge_name(g) == name@
            &&& gauge_label_names(g) == channel_label_names(last@)
        },
        r is Ok,
{
    match new_gauge_vec(name, help, "chain_id", "port_id", "channel_id", "destination_chain_id", last) {
        Ok(g) => Ok(g),
        Err(_) => Err(WatcherError::MetricRegistration),
    }
}

/// Registers a gauge vector; an error where prometheus refuses it.
fn register(r: &mut Registry, g: &LabelledGauge) -> (res: Result<(), WatcherError>)
    ensures
        !registered_ids(*old(r)).contains(descriptor_id(gauge_name(*g)))
            && !registered_names(*old(r)).contains(gauge_name(*g)) ==> res is Ok,
        res is Ok ==> registered_ids(*final(r)) == registered_ids(*old(r)).insert(
            descriptor_id(gauge_name(*g)),
        ),
        res is Ok ==> registered_names(*final(r)) == registered_names(*old(r)).insert(
            gauge_name(*g),
        ),
        res is Err ==> res == Err::<(), WatcherError>(WatcherError::MetricRegistration),
{
    match register_gauge(r, g) {
        Ok(()) => Ok(()),
        Err(_) => Err(WatcherError::MetricRegistration),
    }
}

/// Creates the five gauges of the store and registers them in a fresh
/// registry: backlog status and count under the threshold, query status
/// under the endpoint, client status and seconds before expiry under the
/// warning margin. Prometheus refuses a registration only where the
/// descriptor ids of two of the names coincide.
pub fn register_custom_metrics() -> (r: Result<MetricsStore, WatcherError>)
    ensures
        ids_distinct(store_metric_names()) ==> r is Ok,
        r matches Ok(s) ==> s@.is_empty() && s.well_formed(),
        r is Err ==> r == Err::<MetricsStore, WatcherError>(WatcherError::MetricRegistration),
{
    proof {
        reveal_strlit("chain_id");
        reveal_strlit("port_id");
        reveal_strlit("channel_id");
        reveal_strlit("destination_chain_id");
        reveal_strlit("min_total");
        reveal_strlit("query_endpoint_url");
        reveal_strlit("min_time_before_client_expiration");
        reveal_strlit("ibc_status");
        reveal_strlit("ibc_count");
        reveal_strlit("ibc_query_status");
        reveal_strlit("ibc_client_status");
        reveal_strlit("ibc_client_time_before_expire");
        reveal_strlit("IBC Status. 0: < min_total, 1: > min_total");
        reveal_strlit("no of ibc packet commitments");
        reveal_strlit(
            "IBC Query Status show the ibc query is successful or not. 0: can access, 1: cannot access",
        );
        reveal_strlit(
            "IBC client status. 0: (expiry_time - now) > min_time_before_client_expiration, 1: (expiry_time - now) < min_time_before_client_expiration",
        );
        reveal_strlit(
            "the times left before client reach min_time_before_client_expiration in seconds",
        );
        lemma_channel_labels_valid("min_total"@);
        assert("query_endpoint_url"@[0] != "chain_id"@[0]);
        lemma_channel_labels_valid("query_endpoint_url"@);
        lemma_channel_labels_valid("min_time_before_client_expiration"@);
        assert(is_ident("ibc_status"@, true));
        assert(is_ident("ibc_count"@, true));
        assert(is_ident("ibc_query_status"@, true));
        assert(is_ident("ibc_client_status"@, true));
        assert(is_ident("ibc_client_time_before_expire"@, true));
    }
    let status = channel_gauge(
        "ibc_status",
        "IBC Status. 0: < min_total, 1: > min_total",
        "min_total",
    )?;
    let count = channel_gauge("ibc_count", "no of ibc packet commitments", "min_total")?;
    let query_status = channel_gauge(
        "ibc_query_status",
        "IBC Query Status show the ibc query is successful or not. 0: can access, 1: cannot access",
        "query_endpoint_url",
    )?;
    let client_status = channel_gauge(
        "ibc_client_status",
        "IBC client status. 0: (expiry_time - now) > min_time_before_client_expiration, 1: (expiry_time - now) < min_time_before_client_expiration",
        "min_time_before_client_expiration",
    )?;
    let time_before_expire = channel_gauge(
        "ibc_client_time_before_expire",
        "the times left before client reach min_time_before_client_expiration in seconds",
        "min_time_before_client_expiration",
    )?;
    let ghost names = store_metric_names();
    let mut registry = Registry::new();
    register(&mut registry, &status)?;
    register(&mut registry, &count)?;
    register(&mut registry, &query_status)?;
    register(&mut registry, &client_status)?;
    register(&mut registry, &time_before_expire)?;
    proof {
        assert(registered_names(registry) =~= names.to_set());
    }
    Ok(MetricsStore { status, count, query_status, client_status, time_before_expire, registry })
}

/// Sets the backlog status of a channel.
pub fn ibc_status_setter(
    store: &mut MetricsStore,
    chain_id: &str,
    port_id: &str,
    channel_id: &str,
    destination_chain_id: &str,
    min_total: &str,
    status: i64,
)
    ensures
        final(store).same_layout(old(store)),
        final(store)@ == (MetricsView {
            status: series_set(
                old(store)@.status,
                labels5(chain_id@, port_id@, channel_id@, destination_chain_id@, min_total@),
                status,
            ),
            ..old(store)@
        }),
{
    set_gauge(&mut store.status, chain_id, port_id, channel_id, destination_chain_id, min_total, status);
}

/// Sets the backlog count of a channel.
pub fn ibc_count_setter(
    store: &mut MetricsStore,
    chain_id: &str,
    port_id: &str,
    channel_id: &str,
    destination_chain_id: &str,
    min_total: &str,
    count: i64,
)
    ensures
        final(store).same_layout(old(store)),
        final(store)@ == (MetricsView {
            count: series_set(
                old(store)@.count,
                labels5(chain_id@, port_id@, channel_id@, destination_chain_id@, min_total@),
                count,
            ),
            ..old(store)@
        }),
{
    set_gauge(&mut store.count, chain_id, port_id, channel_id, destination_chain_id, min_total, count);
}

/// Sets the query status of a channel, under the endpoint it was queried at.
pub fn ibc_query_status_setter(
    store: &mut MetricsStore,
    chain_id: &str,
    port_id: &str,
    channel_id: &str,
    destination_chain_id: &str,
    query_endpoint_url: &str,
    status: i64,
)
    ensures
        final(store).same_layout(old(store)),
        final(store)@ == (MetricsView {
            query_status: series_set(
                old(store)@.query_status,
                labels5(chain_id@, port_id@, channel_id@, destination_chain_id@, query_endpoint_url@),
                status,
            ),
            ..old(store)@
        }),
{
    set_gauge(&mut store.query_status, chain_id, port_id, channel_id, destination_chain_id, query_endpoint_url, status);
}

/// Sets the client status of a channel, under its warning margin.
pub fn ibc_client_status_setter(
    store: &mut MetricsStore,
    chain_id: &str,
    port_id: &str,
    channel_id: &str,
    destination_chain_id: &str,
    min_time_before_client_expiration: &str,
    status: i64,
)
    ensures
        final(store).same_layout(old(store)),
        final(store)@ == (MetricsView {
            client_status: series_set(
                old(store)@.client_status,
                labels5(chain_id@, port_id@, channel_id@, destination_chain_id@, min_time_before_client_expiration@),
                status,
            ),
            ..old(store)@
        }),
{
    set_gauge(&mut store.client_status, chain_id, port_id, channel_id, destination_chain_id, min_time_before_client_expiration, status);
}

/// Sets the seconds before client expiry of a channel, under its warning margin.
pub fn ibc_client_time_before_expire_setter(
    store: &mut MetricsStore,
    chain_id: &str,
    port_id: &str,
    channel_id: &str,
    destination_chain_id: &str,
    min_time_before_client_expiration: &str,
    time_before_expire: i64,
)
    ensures
        final(store).same_layout(old(store)),
        final(store)@ == (MetricsView {
            time_before_expire: series_set(
                old(store)@.time_before_expire,
                labels5(chain_id@, port_id@, channel_id@, destination_chain_id@, min_time_before_client_expiration@),
                time_before_expire,
            ),
            ..old(store)@
        }),
{
    set_gauge(&mut store.time_before_expire, chain_id, port_id, channel_id, destination_chain_id, min_time_before_client_expiration, time_before_expire);
}

/// Setting a series twice to the same value leaves what setting it once
/// leaves.
pub proof fn lemma_set_twice(m: Series, labels: Seq<Seq<char>>, v: i64)
    ensures
        series_set(series_set(m, labels, v), labels, v) == series_set(m, labels, v),
{
    let k = label_key(labels);
    let m1 = series_set(m, labels, v);
    assert(m1.contains_key(k));
    assert(m1.insert(k, (m1[k].0, v)) =~= m1);
}

/// Setting a series of any gauge twice to the same value renders the same
/// text as setting it once.
pub proof fn lemma_set_twice_renders_same(
    view: MetricsView,
    gauge: int,
    labels: Seq<Seq<char>>,
    v: i64,
)
    requires
        0 <= gauge < 5,
    ensures
        ({
            let f = view.families();
            exposition(f.update(gauge, series_set(series_set(f[gauge], labels, v), labels, v)))
                == exposition(f.update(gauge, series_set(f[gauge], labels, v)))
        }),
{
    lemma_set_twice(view.families()[gauge], labels, v);
}

} // verus!
