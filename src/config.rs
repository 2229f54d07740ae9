//! Configuration of the watcher: the chains and channels to watch.
use crate::error::WatcherError;
use crate::time::{Span, NANOS_PER_SEC};
use vstd::hash_map::StringHashMap;
use vstd::prelude::*;
use vstd::utf8::encode_utf8;

verus! {

/// Default time between two polls of a channel: 120 seconds.
pub const DEFAULT_REFRESH_SECS: u64 = 120;

/// The poll interval of a channel that names none.
pub fn refresh() -> (r: Span)
    ensures
        r@ == DEFAULT_REFRESH_SECS as nat * NANOS_PER_SEC,
{
    Span::from_secs(DEFAULT_REFRESH_SECS)
}

/// Where the metrics are served, and how often they are cleared.
#[derive(Clone, Debug)]
pub struct PrometheusConfig {
    pub host: String,
    pub port: i32,
    pub reset: Option<Span>,
}

impl Default for PrometheusConfig {
    fn default() -> (r: PrometheusConfig)
        ensures
            r.host@ == "0.0.0.0"@,
            r.port == 9090,
            r.reset is None,
    {
        PrometheusConfig { host: String::from_str("0.0.0.0"), port: 9090, reset: None }
    }
}

/// One channel to watch on a chain.
#[derive(Clone, Debug)]
pub struct Channel {
    pub port_id: String,
    pub channel_id: String,
    pub destination_chain_id: String,
    /// Backlog threshold, as the decimal text of a `u64`.
    pub min_total: String,
    pub refresh: Span,
    /// Warning margin before the client expires, as duration text.
    pub min_time_before_client_expiration: Option<String>,
}

/// One chain: its id, the address of its gRPC query service, its channels.
#[derive(Clone, Debug)]
pub struct ChainConfig {
    pub id: String,
    pub grpc_addr: String,
    pub channels: Vec<Channel>,
}

/// The whole configuration.
#[derive(Clone, Debug)]
pub struct Config {
    pub prometheus: PrometheusConfig,
    pub chains: Vec<ChainConfig>,
}

/// Whether `chains[i]` is the last chain with the id `id`.
pub open spec fn last_with_id(chains: Seq<ChainConfig>, id: Seq<char>, i: int) -> bool {
    &&& 0 <= i < chains.len()
    &&& chains[i].id@ == id
    &&& forall|j: int| i < j < chains.len() ==> (#[trigger] chains[j]).id@ != id
}

impl Config {
    /// The chains by id; where two chains share an id, the later one.
    pub fn chains_map(&self) -> (r: StringHashMap<&ChainConfig>)
        ensures
            forall|id: Seq<char>|
                #[trigger] r@.contains_key(id) <==> exists|i: int|
                    0 <= i < self.chains@.len() && (#[trigger] self.chains@[i]).id@ == id,
            forall|id: Seq<char>|
                #[trigger] r@.contains_key(id) ==> exists|i: int|
                    last_with_id(self.chains@, id, i) && *r@[id] == self.chains@[i],
    {
        let mut r: StringHashMap<&ChainConfig> = StringHashMap::new();
        let mut c: usize = 0;
        while c < self.chains.len()
            invariant
                0 <= c <= self.chains@.len(),
                forall|id: Seq<char>|
                    #[trigger] r@.contains_key(id) <==> exists|i: int|
                        0 <= i < c && (#[trigger] self.chains@[i]).id@ == id,
                forall|id: Seq<char>|
                    #[trigger] r@.contains_key(id) ==> exists|i: int|
                        last_with_id(self.chains@.subrange(0, c as int), id, i) && *r@[id]
                            == self.chains@[i],
            decreases self.chains@.len() - c,
        {
            let chain = &self.chains[c];
            let ghost prev = r@;
            r.insert(chain.id.clone(), chain);
            proof {
                let p = self.chains@.subrange(0, c + 1);
                assert forall|id: Seq<char>| #[trigger] r@.contains_key(id) implies exists|i: int|
                    last_with_id(p, id, i) && *r@[id] == self.chains@[i] by {
                    if id == chain.id@ {
                        assert(last_with_id(p, id, c as int));
                    } else {
                        assert(prev.contains_key(id));
                        let i = choose|i: int|
                            last_with_id(self.chains@.subrange(0, c as int), id, i) && *prev[id]
                                == self.chains@[i];
                        assert(last_with_id(p, id, i));
                    }
                }
                assert forall|id: Seq<char>| #[trigger] r@.contains_key(id) <==> exists|i: int|
                    0 <= i < c + 1 && (#[trigger] self.chains@[i]).id@ == id by {
                    if id == chain.id@ {
                        assert(self.chains@[c as int].id@ == id);
                    }
                }
            }
            c = c + 1;
        }
        assert(self.chains@.subrange(0, c as int) =~= self.chains@);
        r
    }
}

pub open spec fn is_ascii_digit(b: u8) -> bool {
    48 <= b <= 57
}

/// Whether every byte is a decimal digit.
pub open spec fn all_digits(d: Seq<u8>) -> bool {
    forall|i: int| 0 <= i < d.len() ==> is_ascii_digit(#[trigger] d[i])
}

/// The number written by a sequence of decimal digits.
pub open spec fn digits_value(d: Seq<u8>) -> nat
    decreases d.len(),
{
    if d.len() == 0 {
        0
    } else {
        digits_value(d.drop_last()) * 10 + (d.last() - 48) as nat
    }
}

/// The digits of a number text: what follows a leading `+`, if any.
pub open spec fn unsigned_digits(b: Seq<u8>) -> Seq<u8> {
    if b.len() > 0 && b[0] == 43 {
        b.drop_first()
    } else {
        b
    }
}

/// The `u64` that a text writes in decimal, with an optional leading `+`;
/// none where a byte is not a digit, there is no digit, or the number
/// exceeds `u64::MAX`.
pub open spec fn decimal_u64(b: Seq<u8>) -> Option<u64> {
    let d = unsigned_digits(b);
    if d.len() > 0 && all_digits(d) && digits_value(d) <= u64::MAX {
        Some(digits_value(d) as u64)
    } else {
        None
    }
}

proof fn lemma_digits_value_prefix(d: Seq<u8>, k: int)
    requires
        0 <= k <= d.len(),
        forall|i: int| 0 <= i < d.len() ==> is_ascii_digit(#[trigger] d[i]),
    ensures
        digits_value(d.subrange(0, k)) <= digits_value(d),
    decreases d.len() - k,
{
    if k < d.len() {
        lemma_digits_value_prefix(d, k + 1);
        let p = d.subrange(0, k + 1);
        assert(p.drop_last() =~= d.subrange(0, k));
    } else {
        assert(d.subrange(0, k) =~= d);
    }
}

/// Reads the decimal text of a `u64`, as `str::parse::<u64>` does.
pub fn parse_u64(s: &str) -> (r: Option<u64>)
    ensures
        r == decimal_u64(encode_utf8(s@)),
{
    let b = s.as_bytes();
    let n = b.len();
    let ghost bs = b@;
    assert(bs == encode_utf8(s@));
    let mut start: usize = 0;
    if n > 0 && b[0] == 43u8 {
        start = 1;
    }
    let ghost d = unsigned_digits(bs);
    assert(d =~= bs.subrange(start as int, n as int));
    if start == n {
        return None;
    }
    let mut acc: u64 = 0;
    let mut i: usize = start;
    while i < n
        invariant
            start <= i <= n,
            n == bs.len(),
            b@ == bs,
            d =~= bs.subrange(start as int, n as int),
            d == unsigned_digits(bs),
            bs == encode_utf8(s@),
            forall|j: int| 0 <= j < i - start ==> is_ascii_digit(#[trigger] d[j]),
            acc as nat == digits_value(d.subrange(0, i - start)),
        decreases n - i,
    {
        let c = b[i];
        if c < 48u8 || c > 57u8 {
            assert(!is_ascii_digit(d[i - start]));
            assert(decimal_u64(bs) is None);
            return None;
        }
        let ghost k = i - start;
        assert(d.subrange(0, k + 1).drop_last() =~= d.subrange(0, k));
        assert(d.subrange(0, k + 1).last() == c);
        let digit = (c - 48u8) as u64;
        if acc > (u64::MAX - digit) / 10 {
            proof {
                assert(digits_value(d.subrange(0, k + 1)) > u64::MAX) by (nonlinear_arith)
                    requires
                        digits_value(d.subrange(0, k + 1)) == acc * 10 + digit,
                        acc > (u64::MAX - digit) / 10,
                        digit <= 9,
                ;
                if all_digits(d) {
                    lemma_digits_value_prefix(d, k + 1);
                }
                assert(decimal_u64(bs) is None);
            }
            return None;
        }
        assert(acc * 10 + digit <= u64::MAX) by (nonlinear_arith)
            requires
                acc <= (u64::MAX - digit) / 10,
                digit <= 9,
        ;
        acc = acc * 10 + digit;
        i = i + 1;
    }
    assert(d.subrange(0, n - start) =~= d);
    Some(acc)
}

/// The threshold of a channel, where its text reads as a `u64`.
pub open spec fn threshold_of(ch: Channel) -> Option<u64> {
    decimal_u64(encode_utf8(ch.min_total@))
}

/// Whether every channel of every chain has a threshold that reads as a `u64`.
pub open spec fn thresholds_valid(config: Config) -> bool {
    forall|c: int, h: int|
        0 <= c < config.chains@.len() && 0 <= h < config.chains@[c].channels@.len()
            ==> (#[trigger] threshold_of(config.chains@[c].channels@[h])) is Some
}

/// Checks that every channel's threshold reads as a `u64`.
pub fn check_parse_u64(config: Config) -> (r: Result<(), WatcherError>)
    ensures
        r is Ok <==> thresholds_valid(config),
        r is Err ==> r == Err::<(), WatcherError>(WatcherError::ConfigParseU64),
{
    let mut c: usize = 0;
    while c < config.chains.len()
        invariant
            0 <= c <= config.chains@.len(),
            forall|c2: int, h: int|
                0 <= c2 < c && 0 <= h < config.chains@[c2].channels@.len()
                    ==> (#[trigger] threshold_of(config.chains@[c2].channels@[h])) is Some,
        decreases config.chains@.len() - c,
    {
        let channels = &config.chains[c].channels;
        let mut h: usize = 0;
        while h < channels.len()
            invariant
                0 <= c < config.chains@.len(),
                channels == config.chains@[c as int].channels,
                0 <= h <= channels@.len(),
                forall|c2: int, h2: int|
                    0 <= c2 < c && 0 <= h2 < config.chains@[c2].channels@.len()
                        ==> (#[trigger] threshold_of(config.chains@[c2].channels@[h2])) is Some,
                forall|h2: int| 0 <= h2 < h ==> (#[trigger] threshold_of(channels@[h2])) is Some,
            decreases channels@.len() - h,
        {
            if parse_u64(channels[h].min_total.as_str()).is_none() {
                assert(threshold_of(config.chains@[c as int].channels@[h as int]) is None);
                return Err(WatcherError::ConfigParseU64);
            }
            h = h + 1;
        }
        c = c + 1;
    }
    Ok(())
}

/// The length in nanoseconds of the duration that a text names, as
/// `duration_str` reads it; none where it names no duration.
pub uninterp spec fn duration_text_nanos(s: Seq<char>) -> Option<nat>;

/// Relies on `duration_str::parse`: the duration a text names, as whole
/// seconds and nanoseconds below one second, or an error; an empty text is an
/// error.
#[verifier::external_body]
fn duration_parts(s: &str) -> (r: Option<(u64, u32)>)
    ensures
        r is Some <==> duration_text_nanos(s@) is Some,
        r matches Some(p) ==> p.1 < NANOS_PER_SEC && duration_text_nanos(s@) == Some(
            (p.0 as nat * NANOS_PER_SEC + p.1 as nat) as nat,
        ),
        s@.len() == 0 ==> r is None,
{
    match duration_str::parse(s) {
        Ok(d) => Some((d.as_secs(), d.subsec_nanos())),
        Err(_) => None,
    }
}

/// Reads a duration text such as `"1h 30m"` or `"90s"`.
pub fn parse_duration(s: &str) -> (r: Result<Span, WatcherError>)
    ensures
        r is Ok <==> duration_text_nanos(s@) is Some,
        r matches Ok(d) ==> duration_text_nanos(s@) == Some(d@),
        r is Err ==> r == Err::<Span, WatcherError>(WatcherError::ConfigDuration),
{
    match duration_parts(s) {
        Some((secs, nanos)) => Ok(Span::from_parts(secs, nanos)),
        None => Err(WatcherError::ConfigDuration),
    }
}

} // verus!
