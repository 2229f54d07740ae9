//! The client monitor of a channel: a state machine that caches the trusting
//! period, the last client height and the consensus timestamp at that
//! height, and derives how long the client has before it expires.
use crate::config::{duration_text_nanos, parse_duration, Channel};
use crate::error::WatcherError;
use crate::telemetry::{
    ibc_client_status_setter, ibc_client_time_before_expire_setter, ibc_query_status_setter,
    labels5, series_set, MetricsStore, MetricsView,
};
use crate::time::{height_lt, Height, Span, NANOS_PER_SEC};
use vstd::prelude::*;
use vstd::string::StringExecFns;

verus! {

/// The decimal digits of a number.
pub open spec fn decimal_text(n: nat) -> Seq<char>
    decreases n,
{
    if n < 10 {
        seq![(n + 48) as char]
    } else {
        decimal_text(n / 10).push(((n % 10) + 48) as char)
    }
}

fn digit_str(d: u64) -> (r: &'static str)
    requires
        d < 10,
    ensures
        r@ == seq![(d + 48) as char],
{
    proof {
        reveal_strlit("0");
        reveal_strlit("1");
        reveal_strlit("2");
        reveal_strlit("3");
        reveal_strlit("4");
        reveal_strlit("5");
        reveal_strlit("6");
        reveal_strlit("7");
        reveal_strlit("8");
        reveal_strlit("9");
    }
    match d {
        0 => "0",
        1 => "1",
        2 => "2",
        3 => "3",
        4 => "4",
        5 => "5",
        6 => "6",
        7 => "7",
        8 => "8",
        _ => "9",
    }
}

/// The decimal digits of a number.
pub fn decimal_string(n: u64) -> (r: String)
    ensures
        r@ == decimal_text(n as nat),
    decreases n,
{
    if n < 10 {
        digit_str(n).to_owned()
    } else {
        let mut r = decimal_string(n / 10);
        let ghost head = r@;
        r.append(digit_str(n % 10));
        assert(r@ =~= head.push(((n % 10) + 48) as char));
        r
    }
}

/// The label of a warning margin: its whole seconds followed by `s`.
pub open spec fn margin_label(margin: nat) -> Seq<char> {
    decimal_text(margin / NANOS_PER_SEC as nat) + seq!['s']
}

pub fn margin_text(margin: Span) -> (r: String)
    ensures
        r@ == margin_label(margin@),
{
    let digits = decimal_string(margin.as_secs());
    let r = digits.concat("s");
    proof {
        reveal_strlit("s");
    }
    r
}

/// Seconds before expiry as a gauge value: the whole seconds from `now` to
/// `expiry`, 0 once expired, saturating at `i64::MAX`.
pub open spec fn time_before_expire_of(expiry: nat, now: nat) -> i64 {
    if expiry > now {
        let secs = ((expiry - now) as nat) / NANOS_PER_SEC as nat;
        if secs <= i64::MAX {
            secs as i64
        } else {
            i64::MAX
        }
    } else {
        0
    }
}

/// Client status: 0 while more than `margin` is left before `expiry`, else 1.
pub open spec fn client_status_of(expiry: nat, now: nat, margin: nat) -> i64 {
    if expiry > now && expiry - now > margin {
        0
    } else {
        1
    }
}

/// The store after publishing the client health of a channel.
pub open spec fn after_report(
    v: MetricsView,
    chain_id: Seq<char>,
    port_id: Seq<char>,
    channel_id: Seq<char>,
    destination_chain_id: Seq<char>,
    margin: nat,
    trusting_period: nat,
    consensus_time: nat,
    now: nat,
) -> MetricsView {
    let labels = labels5(
        chain_id,
        port_id,
        channel_id,
        destination_chain_id,
        margin_label(margin),
    );
    let expiry = consensus_time + trusting_period;
    MetricsView {
        time_before_expire: series_set(
            v.time_before_expire,
            labels,
            time_before_expire_of(expiry, now),
        ),
        client_status: series_set(v.client_status, labels, client_status_of(expiry, now, margin)),
        ..v
    }
}

/// Client health: the client status and the seconds before expiry, given
/// the warning margin, the trusting period, the consensus timestamp of the
/// last client height and the time now.
pub fn client_health(margin: Span, trusting_period: Span, consensus_time: Span, now: Span) -> (r: (
    i64,
    i64,
))
    ensures
        r.0 == client_status_of(consensus_time@ + trusting_period@, now@, margin@),
        r.1 == time_before_expire_of(consensus_time@ + trusting_period@, now@),
{
    let expiry: u128 = consensus_time.as_nanos() + trusting_period.as_nanos();
    let now_nanos = now.as_nanos();
    let margin_nanos = margin.as_nanos();
    if expiry > now_nanos {
        let left = expiry - now_nanos;
        let secs = left / NANOS_PER_SEC;
        let seconds: i64 = if secs <= i64::MAX as u128 {
            secs as i64
        } else {
            i64::MAX
        };
        if left > margin_nanos {
            (0, seconds)
        } else {
            (1, seconds)
        }
    } else {
        (1, 0)
    }
}

/// Publishes the client health of a channel: the seconds before the client
/// expires and the client status, both under the warning margin's label.
pub fn update_ibc_client_status(
    store: &mut MetricsStore,
    chain_id: &str,
    port_id: &str,
    channel_id: &str,
    destination_chain_id: &str,
    min_time_before_client_expiration: Span,
    trusting_period: Span,
    last_channel_client_consensus_state_duration: Span,
    now: Span,
)
    ensures
        final(store).same_layout(old(store)),
        final(store)@ == after_report(
            old(store)@,
            chain_id@,
            port_id@,
            channel_id@,
            destination_chain_id@,
            min_time_before_client_expiration@,
            trusting_period@,
            last_channel_client_consensus_state_duration@,
            now@,
        ),
{
    let label = margin_text(min_time_before_client_expiration);
    let (status, seconds) = client_health(
        min_time_before_client_expiration,
        trusting_period,
        last_channel_client_consensus_state_duration,
        now,
    );
    ibc_client_time_before_expire_setter(
        store,
        chain_id,
        port_id,
        channel_id,
        destination_chain_id,
        label.as_str(),
        seconds,
    );
    ibc_client_status_setter(
        store,
        chain_id,
        port_id,
        channel_id,
        destination_chain_id,
        label.as_str(),
        status,
    );
}

/// Where a tick of the client monitor stands.
#[derive(Clone, Copy, Debug, PartialEq, Eq, Structural)]
pub enum ClientPhase {
    /// Between ticks.
    Idle,
    /// Waiting for the trusting period.
    AwaitTrustingPeriod,
    /// Waiting for the latest client height.
    AwaitHeight,
    /// Waiting for the consensus timestamp at a new height.
    AwaitConsensus(Height),
    /// Waiting for the time now, to publish the client health.
    AwaitClock,
}

/// What the monitor is told: a tick of its timer, an answer to a query
/// (`None` where the query failed), or the time now.
#[derive(Clone, Copy, Debug, PartialEq, Eq, Structural)]
pub enum ClientEvent {
    Tick,
    TrustingPeriod(Option<Span>),
    LatestHeight(Option<Height>),
    ConsensusTimestamp(Option<Span>),
    Clock(Span),
}

/// What the monitor asks for next.
#[derive(Clone, Copy, Debug, PartialEq, Eq, Structural)]
pub enum ClientAction {
    QueryTrustingPeriod,
    QueryLatestHeight,
    QueryConsensusTimestamp(Height),
    ReadClock,
    /// Nothing more this tick: wait for the next one.
    Wait,
}

/// The facts a client monitor keeps between ticks, and where its tick stands.
#[derive(Clone, Copy, Debug, PartialEq, Eq, Structural)]
pub struct ClientMonitorState {
    pub trusting_period: Option<Span>,
    pub min_time_before_client_expiration: Option<Span>,
    pub last_client_state_height: Height,
    pub last_consensus_state_duration: Option<Span>,
    pub phase: ClientPhase,
}

impl ClientMonitorState {
    /// What each phase needs: a warning margin once the trusting period is
    /// known, the trusting period once past its query, and a consensus
    /// timestamp before publishing.
    pub open spec fn wf(self) -> bool {
        &&& self.trusting_period is Some ==> self.min_time_before_client_expiration is Some
        &&& (self.phase is AwaitHeight || self.phase is AwaitConsensus || self.phase is AwaitClock)
            ==> self.trusting_period is Some
        &&& self.phase is AwaitTrustingPeriod ==> self.trusting_period is None
        &&& self.phase is AwaitClock ==> self.last_consensus_state_duration is Some
        &&& self.phase matches ClientPhase::AwaitConsensus(h) ==> height_lt(
            self.last_client_state_height,
            h,
        )
    }

    /// The action that the current phase waits on.
    pub open spec fn pending(self) -> ClientAction {
        match self.phase {
            ClientPhase::Idle => ClientAction::Wait,
            ClientPhase::AwaitTrustingPeriod => ClientAction::QueryTrustingPeriod,
            ClientPhase::AwaitHeight => ClientAction::QueryLatestHeight,
            ClientPhase::AwaitConsensus(h) => ClientAction::QueryConsensusTimestamp(h),
            ClientPhase::AwaitClock => ClientAction::ReadClock,
        }
    }

    /// The same state, between ticks.
    pub open spec fn idle(self) -> ClientMonitorState {
        ClientMonitorState { phase: ClientPhase::Idle, ..self }
    }
}

/// The next state and action after an event. An event that does not answer
/// the pending action leaves the state as it is and repeats that action.
pub open spec fn transition(s: ClientMonitorState, e: ClientEvent) -> (
    ClientMonitorState,
    ClientAction,
) {
    match (s.phase, e) {
        (_, ClientEvent::Tick) => if s.trusting_period is None {
            (
                ClientMonitorState { phase: ClientPhase::AwaitTrustingPeriod, ..s },
                ClientAction::QueryTrustingPeriod,
            )
        } else {
            (
                ClientMonitorState { phase: ClientPhase::AwaitHeight, ..s },
                ClientAction::QueryLatestHeight,
            )
        },
        (ClientPhase::AwaitTrustingPeriod, ClientEvent::TrustingPeriod(r)) => match r {
            None => (s.idle(), ClientAction::Wait),
            Some(d) => (
                ClientMonitorState {
                    trusting_period: Some(d),
                    min_time_before_client_expiration: match s.min_time_before_client_expiration {
                        Some(m) => Some(m),
                        None => Some(d.spec_third()),
                    },
                    phase: ClientPhase::AwaitHeight,
                    ..s
                },
                ClientAction::QueryLatestHeight,
            ),
        },
        (ClientPhase::AwaitHeight, ClientEvent::LatestHeight(r)) => match r {
            None => (s.idle(), ClientAction::Wait),
            Some(h) => if height_lt(s.last_client_state_height, h) {
                (
                    ClientMonitorState { phase: ClientPhase::AwaitConsensus(h), ..s },
                    ClientAction::QueryConsensusTimestamp(h),
                )
            } else if s.last_consensus_state_duration is Some {
                (
                    ClientMonitorState { phase: ClientPhase::AwaitClock, ..s },
                    ClientAction::ReadClock,
                )
            } else {
                (s.idle(), ClientAction::Wait)
            },
        },
        (ClientPhase::AwaitConsensus(h), ClientEvent::ConsensusTimestamp(r)) => match r {
            None => (s.idle(), ClientAction::Wait),
            Some(t) => (
                ClientMonitorState {
                    last_client_state_height: h,
                    last_consensus_state_duration: Some(t),
                    phase: ClientPhase::AwaitClock,
                    ..s
                },
                ClientAction::ReadClock,
            ),
        },
        (ClientPhase::AwaitClock, ClientEvent::Clock(_)) => (s.idle(), ClientAction::Wait),
        _ => (s, s.pending()),
    }
}

/// The query status that an event reports, where it answers a pending query.
pub open spec fn query_status_of(s: ClientMonitorState, e: ClientEvent) -> Option<i64> {
    match (s.phase, e) {
        (ClientPhase::AwaitTrustingPeriod, ClientEvent::TrustingPeriod(r)) => Some(
            if r is Some { 0 } else { 1 },
        ),
        (ClientPhase::AwaitHeight, ClientEvent::LatestHeight(r)) => Some(
            if r is Some { 0 } else { 1 },
        ),
        (ClientPhase::AwaitConsensus(_), ClientEvent::ConsensusTimestamp(r)) => Some(
            if r is Some { 0 } else { 1 },
        ),
        _ => None,
    }
}

/// The client monitor of one channel.
pub struct ClientMonitor {
    pub chain_id: String,
    pub endpoint: String,
    pub port_id: String,
    pub channel_id: String,
    pub destination_chain_id: String,
    pub state: ClientMonitorState,
}

/// Whether a configured warning margin, if any, reads as a duration.
pub open spec fn margin_valid(ch: Channel) -> bool {
    match ch.min_time_before_client_expiration {
        None => true,
        Some(t) => duration_text_nanos(t@) is Some,
    }
}

impl ClientMonitor {
    /// Labels of the query status series.
    pub open spec fn query_labels(&self) -> Seq<Seq<char>> {
        labels5(
            self.chain_id@,
            self.port_id@,
            self.channel_id@,
            self.destination_chain_id@,
            self.endpoint@,
        )
    }

    /// Whether two monitors watch the same channel at the same endpoint.
    pub open spec fn same_channel(&self, other: &ClientMonitor) -> bool {
        &&& self.chain_id@ == other.chain_id@
        &&& self.endpoint@ == other.endpoint@
        &&& self.port_id@ == other.port_id@
        &&& self.channel_id@ == other.channel_id@
        &&& self.destination_chain_id@ == other.destination_chain_id@
    }

    /// The store after the monitor handles an event: the client health once
    /// the time is known, else the query status that the event reports.
    pub open spec fn effect(&self, v: MetricsView, e: ClientEvent) -> MetricsView {
        let s = self.state;
        match (s.phase, e) {
            (ClientPhase::AwaitClock, ClientEvent::Clock(now)) => after_report(
                v,
                self.chain_id@,
                self.port_id@,
                self.channel_id@,
                self.destination_chain_id@,
                s.min_time_before_client_expiration->0@,
                s.trusting_period->0@,
                s.last_consensus_state_duration->0@,
                now@,
            ),
            _ => match query_status_of(s, e) {
                Some(q) => MetricsView {
                    query_status: series_set(v.query_status, self.query_labels(), q),
                    ..v
                },
                None => v,
            },
        }
    }

    /// The monitor of `channel` on the chain `chain_id`, queried at
    /// `endpoint`, with nothing fetched yet and the last height at its
    /// lowest. Fails where the channel's warning margin does not read as a
    /// duration.
    pub fn new(chain_id: &str, endpoint: &str, channel: &Channel) -> (r: Result<
        ClientMonitor,
        WatcherError,
    >)
        ensures
            r is Ok <==> margin_valid(*channel),
            r is Err ==> r == Err::<ClientMonitor, WatcherError>(WatcherError::ConfigDuration),
            r matches Ok(m) ==> {
                &&& m.chain_id@ == chain_id@
                &&& m.endpoint@ == endpoint@
                &&& m.port_id@ == channel.port_id@
                &&& m.channel_id@ == channel.channel_id@
                &&& m.destination_chain_id@ == channel.destination_chain_id@
                &&& m.state.trusting_period is None
                &&& m.state.last_client_state_height == Height {
                    revision_number: 0,
                    revision_height: 1,
                }
                &&& m.state.last_consensus_state_duration is None
                &&& m.state.phase == ClientPhase::Idle
                &&& match channel.min_time_before_client_expiration {
                    None => m.state.min_time_before_client_expiration is None,
                    Some(t) => m.state.min_time_before_client_expiration matches Some(d)
                        && duration_text_nanos(t@) == Some(d@),
                }
            },
    {
        let margin = match &channel.min_time_before_client_expiration {
            None => None,
            Some(t) => Some(parse_duration(t.as_str())?),
        };
        Ok(
            ClientMonitor {
                chain_id: chain_id.to_owned(),
                endpoint: endpoint.to_owned(),
                port_id: channel.port_id.clone(),
                channel_id: channel.channel_id.clone(),
                destination_chain_id: channel.destination_chain_id.clone(),
                state: ClientMonitorState {
                    trusting_period: None,
                    min_time_before_client_expiration: margin,
                    last_client_state_height: Height::min(),
                    last_consensus_state_duration: None,
                    phase: ClientPhase::Idle,
                },
            },
        )
    }

    fn report_query(&self, store: &mut MetricsStore, status: i64)
        ensures
            final(store).same_layout(old(store)),
            final(store)@ == (MetricsView {
                query_status: series_set(old(store)@.query_status, self.query_labels(), status),
                ..old(store)@
            }),
    {
        ibc_query_status_setter(
            store,
            self.chain_id.as_str(),
            self.port_id.as_str(),
            self.channel_id.as_str(),
            self.destination_chain_id.as_str(),
            self.endpoint.as_str(),
            status,
        );
    }

    /// Handles one event, writes what it shows to the store, and says what
    /// to do next.
    pub fn step(&mut self, store: &mut MetricsStore, event: ClientEvent) -> (a: ClientAction)
        requires
            old(self).state.wf(),
        ensures
            final(self).state.wf(),
            (final(self).state, a) == transition(old(self).state, event),
            final(self).same_channel(old(self)),
            final(store)@ == old(self).effect(old(store)@, event),
            final(store).same_layout(old(store)),
    {
        let s = self.state;
        match (s.phase, event) {
            (_, ClientEvent::Tick) => {
                if s.trusting_period.is_none() {
                    self.state.phase = ClientPhase::AwaitTrustingPeriod;
                    ClientAction::QueryTrustingPeriod
                } else {
                    self.state.phase = ClientPhase::AwaitHeight;
                    ClientAction::QueryLatestHeight
                }
            },
            (ClientPhase::AwaitTrustingPeriod, ClientEvent::TrustingPeriod(r)) => match r {
                None => {
                    self.report_query(store, 1);
                    self.state.phase = ClientPhase::Idle;
                    ClientAction::Wait
                },
                Some(d) => {
                    self.report_query(store, 0);
                    self.state.trusting_period = Some(d);
                    if s.min_time_before_client_expiration.is_none() {
                        self.state.min_time_before_client_expiration = Some(d.third());
                    }
                    self.state.phase = ClientPhase::AwaitHeight;
                    ClientAction::QueryLatestHeight
                },
            },
            (ClientPhase::AwaitHeight, ClientEvent::LatestHeight(r)) => match r {
                None => {
                    self.report_query(store, 1);
                    self.state.phase = ClientPhase::Idle;
                    ClientAction::Wait
                },
                Some(h) => {
                    self.report_query(store, 0);
                    if h.is_after(&s.last_client_state_height) {
                        self.state.phase = ClientPhase::AwaitConsensus(h);
                        ClientAction::QueryConsensusTimestamp(h)
                    } else if s.last_consensus_state_duration.is_some() {
                        self.state.phase = ClientPhase::AwaitClock;
                        ClientAction::ReadClock
                    } else {
                        self.state.phase = ClientPhase::Idle;
                        ClientAction::Wait
                    }
                },
            },
            (ClientPhase::AwaitConsensus(h), ClientEvent::ConsensusTimestamp(r)) => match r {
                None => {
                    self.report_query(store, 1);
                    self.state.phase = ClientPhase::Idle;
                    ClientAction::Wait
                },
                Some(t) => {
                    self.report_query(store, 0);
                    self.state.last_client_state_height = h;
                    self.state.last_consensus_state_duration = Some(t);
                    self.state.phase = ClientPhase::AwaitClock;
                    ClientAction::ReadClock
                },
            },
            (ClientPhase::AwaitClock, ClientEvent::Clock(now)) => {
                let margin = s.min_time_before_client_expiration.unwrap();
                let trusting_period = s.trusting_period.unwrap();
                let consensus_time = s.last_consensus_state_duration.unwrap();
                update_ibc_client_status(
                    store,
                    self.chain_id.as_str(),
                    self.port_id.as_str(),
                    self.channel_id.as_str(),
                    self.destination_chain_id.as_str(),
                    margin,
                    trusting_period,
                    consensus_time,
                    now,
                );
                self.state.phase = ClientPhase::Idle;
                ClientAction::Wait
            },
            _ => match s.phase {
                ClientPhase::Idle => ClientAction::Wait,
                ClientPhase::AwaitTrustingPeriod => ClientAction::QueryTrustingPeriod,
                ClientPhase::AwaitHeight => ClientAction::QueryLatestHeight,
                ClientPhase::AwaitConsensus(h) => ClientAction::QueryConsensusTimestamp(h),
                ClientPhase::AwaitClock => ClientAction::ReadClock,
            },
        }
    }
}

/// Whether an event reports a failed query.
pub open spec fn is_failure(e: ClientEvent) -> bool {
    ||| e == ClientEvent::TrustingPeriod(None)
    ||| e == ClientEvent::LatestHeight(None)
    ||| e == ClientEvent::ConsensusTimestamp(None)
}

/// Heights in order, equal heights included.
pub open spec fn height_le(a: Height, b: Height) -> bool {
    !height_lt(b, a)
}

/// The state after a sequence of events.
pub open spec fn run(s: ClientMonitorState, events: Seq<ClientEvent>) -> ClientMonitorState
    decreases events.len(),
{
    if events.len() == 0 {
        s
    } else {
        run(transition(s, events[0]).0, events.drop_first())
    }
}

/// Every transition keeps a state well formed.
pub proof fn lemma_transition_wf(s: ClientMonitorState, e: ClientEvent)
    requires
        s.wf(),
    ensures
        transition(s, e).0.wf(),
{
}

/// A failed query changes none of the cached facts: the trusting period,
/// the warning margin, the last client height and its consensus timestamp.
pub proof fn lemma_failed_query_keeps_cache(s: ClientMonitorState, e: ClientEvent)
    requires
        is_failure(e),
    ensures
        transition(s, e).0.trusting_period == s.trusting_period,
        transition(s, e).0.min_time_before_client_expiration
            == s.min_time_before_client_expiration,
        transition(s, e).0.last_client_state_height == s.last_client_state_height,
        transition(s, e).0.last_consensus_state_duration == s.last_consensus_state_duration,
{
}

/// The last client height never goes down, whatever the events.
pub proof fn lemma_height_monotone(s: ClientMonitorState, events: Seq<ClientEvent>)
    requires
        s.wf(),
    ensures
        height_le(s.last_client_state_height, run(s, events).last_client_state_height),
    decreases events.len(),
{
    if events.len() > 0 {
        let s1 = transition(s, events[0]).0;
        lemma_transition_wf(s, events[0]);
        assert(height_le(s.last_client_state_height, s1.last_client_state_height));
        lemma_height_monotone(s1, events.drop_first());
    }
}

/// A latest height that is not above the cached one asks for no consensus
/// timestamp, keeps the cache, and the client health then published uses
/// the cached timestamp.
pub proof fn lemma_same_height_uses_cache(
    m: ClientMonitor,
    h: Height,
    v: MetricsView,
    now: Span,
)
    requires
        m.state.wf(),
        m.state.phase == ClientPhase::AwaitHeight,
        height_le(h, m.state.last_client_state_height),
        m.state.last_consensus_state_duration is Some,
    ensures
        ({
            let (s2, a) = transition(m.state, ClientEvent::LatestHeight(Some(h)));
            let m2 = ClientMonitor { state: s2, ..m };
            &&& a == ClientAction::ReadClock
            &&& s2.last_client_state_height == m.state.last_client_state_height
            &&& s2.last_consensus_state_duration == m.state.last_consensus_state_duration
            &&& m2.effect(v, ClientEvent::Clock(now)) == after_report(
                v,
                m.chain_id@,
                m.port_id@,
                m.channel_id@,
                m.destination_chain_id@,
                m.state.min_time_before_client_expiration->0@,
                m.state.trusting_period->0@,
                m.state.last_consensus_state_duration->0@,
                now@,
            )
        }),
{
}

} // verus!
