//! The backlog monitor of a channel: what one poll of the packet commitment
//! total writes to the store.
use crate::config::{threshold_of, Channel};
use crate::error::WatcherError;
use crate::telemetry::{
    ibc_count_setter, ibc_query_status_setter, ibc_status_setter, labels5, series_set,
    series_value, MetricsStore, MetricsView,
};
use vstd::prelude::*;

verus! {

/// Backlog status: 0 while the count is below the threshold, else 1.
pub open spec fn backlog_status_of(count: u64, min_total: u64) -> i64 {
    if count < min_total {
        0
    } else {
        1
    }
}

/// A count as a gauge value, saturating at `i64::MAX`.
pub open spec fn gauge_count(count: u64) -> i64 {
    if count <= i64::MAX {
        count as i64
    } else {
        i64::MAX
    }
}

pub fn backlog_status(count: u64, min_total: u64) -> (r: i64)
    ensures
        r == backlog_status_of(count, min_total),
        r == 0 <==> count < min_total,
{
    if count < min_total {
        0
    } else {
        1
    }
}

fn count_to_gauge(count: u64) -> (r: i64)
    ensures
        r == gauge_count(count),
{
    if count <= i64::MAX as u64 {
        count as i64
    } else {
        i64::MAX
    }
}

/// The backlog monitor of one channel.
pub struct BacklogMonitor {
    pub chain_id: String,
    pub endpoint: String,
    pub port_id: String,
    pub channel_id: String,
    pub destination_chain_id: String,
    /// The threshold as configured, used as a label.
    pub min_total_text: String,
    /// The threshold.
    pub min_total: u64,
}

impl BacklogMonitor {
    /// Labels of the query status series.
    pub open spec fn query_labels(&self) -> Seq<Seq<char>> {
        labels5(
            self.chain_id@,
            self.port_id@,
            self.channel_id@,
            self.destination_chain_id@,
            self.endpoint@,
        )
    }

    /// Labels of the backlog status and count series.
    pub open spec fn threshold_labels(&self) -> Seq<Seq<char>> {
        labels5(
            self.chain_id@,
            self.port_id@,
            self.channel_id@,
            self.destination_chain_id@,
            self.min_total_text@,
        )
    }

    /// The store after one poll: `None` is a failed query.
    pub open spec fn after_poll(&self, v: MetricsView, result: Option<u64>) -> MetricsView {
        match result {
            None => MetricsView { query_status: series_set(v.query_status, self.query_labels(), 1), ..v },
            Some(c) => MetricsView {
                query_status: series_set(v.query_status, self.query_labels(), 0),
                status: series_set(
                    v.status,
                    self.threshold_labels(),
                    backlog_status_of(c, self.min_total),
                ),
                count: series_set(v.count, self.threshold_labels(), gauge_count(c)),
                ..v
            },
        }
    }

    /// The store after a sequence of polls, oldest first.
    pub open spec fn after_polls(&self, v: MetricsView, results: Seq<Option<u64>>) -> MetricsView
        decreases results.len(),
    {
        if results.len() == 0 {
            v
        } else {
            self.after_poll(self.after_polls(v, results.drop_last()), results.last())
        }
    }

    /// After any sequence of polls, the backlog status is 0 exactly when the
    /// count of the most recent successful poll is below the threshold, and
    /// the backlog count is that count (saturated at `i64::MAX`); failed
    /// polls after it change nothing.
    pub proof fn lemma_status_follows_last_success(
        &self,
        v: MetricsView,
        results: Seq<Option<u64>>,
        k: int,
    )
        requires
            0 <= k < results.len(),
            results[k] is Some,
            forall|j: int| k < j < results.len() ==> #[trigger] results[j] is None,
        ensures
            series_value(self.after_polls(v, results).status, self.threshold_labels()) == Some(
                backlog_status_of(results[k]->0, self.min_total),
            ),
            series_value(self.after_polls(v, results).status, self.threshold_labels()) == Some(0i64)
                <==> results[k]->0 < self.min_total,
            series_value(self.after_polls(v, results).count, self.threshold_labels()) == Some(
                gauge_count(results[k]->0),
            ),
            results[k]->0 <= i64::MAX ==> series_value(
                self.after_polls(v, results).count,
                self.threshold_labels(),
            ) == Some(results[k]->0 as i64),
        decreases results.len(),
    {
        if k < results.len() - 1 {
            let rest = results.drop_last();
            assert(rest[k] == results[k]);
            assert forall|j: int| k < j < rest.len() implies #[trigger] rest[j] is None by {
                assert(rest[j] == results[j]);
            }
            self.lemma_status_follows_last_success(v, rest, k);
            assert(results.last() is None);
        }
    }

    /// The monitor of `channel` on the chain `chain_id`, queried at
    /// `endpoint`; fails where the channel's threshold is not a `u64`.
    pub fn new(chain_id: &str, endpoint: &str, channel: &Channel) -> (r: Result<
        BacklogMonitor,
        WatcherError,
    >)
        ensures
            r is Ok <==> threshold_of(*channel) is Some,
            r is Err ==> r == Err::<BacklogMonitor, WatcherError>(WatcherError::ConfigParseU64),
            r matches Ok(m) ==> {
                &&& m.chain_id@ == chain_id@
                &&& m.endpoint@ == endpoint@
                &&& m.port_id@ == channel.port_id@
                &&& m.channel_id@ == channel.channel_id@
                &&& m.destination_chain_id@ == channel.destination_chain_id@
                &&& m.min_total_text@ == channel.min_total@
                &&& Some(m.min_total) == threshold_of(*channel)
            },
    {
        match crate::config::parse_u64(channel.min_total.as_str()) {
            None => Err(WatcherError::ConfigParseU64),
            Some(min_total) => Ok(
                BacklogMonitor {
                    chain_id: chain_id.to_owned(),
                    endpoint: endpoint.to_owned(),
                    port_id: channel.port_id.clone(),
                    channel_id: channel.channel_id.clone(),
                    destination_chain_id: channel.destination_chain_id.clone(),
                    min_total_text: channel.min_total.clone(),
                    min_total,
                },
            ),
        }
    }

    /// Publishes the outcome of one poll of the backlog: `Some(count)` on
    /// success, `None` where the query failed. A failed query marks the
    /// endpoint unreachable and leaves the backlog series as they were.
    pub fn on_poll(&self, store: &mut MetricsStore, result: Option<u64>)
        ensures
            final(store).same_layout(old(store)),
            final(store)@ == self.after_poll(old(store)@, result),
            result matches Some(c) ==> series_value(final(store)@.status, self.threshold_labels())
                == Some(backlog_status_of(c, self.min_total)),
            result matches Some(c) ==> series_value(final(store)@.count, self.threshold_labels())
                == Some(gauge_count(c)),
            result is None ==> final(store)@.status == old(store)@.status
                && final(store)@.count == old(store)@.count,
    {
        match result {
            None => {
                ibc_query_status_setter(
                    store,
                    self.chain_id.as_str(),
                    self.port_id.as_str(),
                    self.channel_id.as_str(),
                    self.destination_chain_id.as_str(),
                    self.endpoint.as_str(),
                    1,
                );
            },
            Some(total) => {
                ibc_query_status_setter(
                    store,
                    self.chain_id.as_str(),
                    self.port_id.as_str(),
                    self.channel_id.as_str(),
                    self.destination_chain_id.as_str(),
                    self.endpoint.as_str(),
                    0,
                );
                ibc_status_setter(
                    store,
                    self.chain_id.as_str(),
                    self.port_id.as_str(),
                    self.channel_id.as_str(),
                    self.destination_chain_id.as_str(),
                    self.min_total_text.as_str(),
                    backlog_status(total, self.min_total),
                );
                ibc_count_setter(
                    store,
                    self.chain_id.as_str(),
                    self.port_id.as_str(),
                    self.channel_id.as_str(),
                    self.destination_chain_id.as_str(),
                    self.min_total_text.as_str(),
                    count_to_gauge(total),
                );
            },
        }
    }
}

} // verus!
