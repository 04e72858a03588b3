//! Rate-limit retry decisions, request ids and transport statistics.

use vstd::prelude::*;

verus! {

/// How many times one call is resent after a "too many requests" answer.
pub const MAX_RATE_LIMIT_RETRIES: u32 = 5;

/// The wait before a resend when the server names no usable delay.
pub const DEFAULT_RATE_LIMIT_WAIT_MS: u64 = 500;

/// A `Retry-After` value (in seconds) is used only below this bound.
pub const MAX_RETRY_AFTER_SECS: u64 = 120;

/// The HTTP status of a rate-limited answer.
pub const TOO_MANY_REQUESTS: u16 = 429;

pub open spec fn is_digit(c: char) -> bool {
    '0' <= c && c <= '9'
}

/// The value of a string of decimal digits.
pub open spec fn decimal_value(s: Seq<char>) -> int
    decreases s.len(),
{
    if s.len() == 0 {
        0
    } else {
        decimal_value(s.drop_last()) * 10 + (s.last() as int - '0' as int)
    }
}

pub open spec fn all_digits(s: Seq<char>) -> bool {
    s.len() > 0 && forall|i: int| 0 <= i < s.len() ==> is_digit(#[trigger] s[i])
}

/// The number that `s` spells as an unsigned 64-bit decimal: digits only,
/// with one optional leading `+`, and a value that fits.
pub open spec fn parsed_u64(s: Seq<char>) -> Option<u64> {
    let d = if s.len() > 0 && s[0] == '+' {
        s.drop_first()
    } else {
        s
    };
    if all_digits(d) && decimal_value(d) <= u64::MAX {
        Some(decimal_value(d) as u64)
    } else {
        None
    }
}

/// Relies on `str::parse::<u64>` (`u64::from_str`): it accepts exactly the
/// non-empty decimal digit strings, with an optional leading `+`, whose
/// value fits in a `u64`.
#[verifier::external_body]
fn parse_u64(s: &str) -> (r: Option<u64>)
    ensures
        r == parsed_u64(s@),
{
    s.parse::<u64>().ok()
}

pub open spec fn opt_chars(o: Option<&str>) -> Option<Seq<char>> {
    match o {
        Some(s) => Some(s@),
        None => None,
    }
}

/// The wait, in milliseconds, before resending a rate-limited request whose
/// answer carried the given `Retry-After` header value (if any).
pub open spec fn retry_wait_ms(retry_after: Option<Seq<char>>) -> u64 {
    match retry_after {
        Some(h) => match parsed_u64(h) {
            Some(secs) => if secs < MAX_RETRY_AFTER_SECS {
                (secs * 1000) as u64
            } else {
                DEFAULT_RATE_LIMIT_WAIT_MS
            },
            None => DEFAULT_RATE_LIMIT_WAIT_MS,
        },
        None => DEFAULT_RATE_LIMIT_WAIT_MS,
    }
}

pub open spec fn is_success_status(status: u16) -> bool {
    200 <= status <= 299
}

pub open spec fn sat_add(a: u64, b: u64) -> u64 {
    if a + b > u64::MAX {
        u64::MAX
    } else {
        (a + b) as u64
    }
}

pub open spec fn elapsed_between(start_ms: u64, now_ms: u64) -> u64 {
    if now_ms >= start_ms {
        (now_ms - start_ms) as u64
    } else {
        0
    }
}

/// What to do with one HTTP answer of a call.
#[derive(Debug, Clone, Copy, PartialEq, Eq, Structural)]
pub enum HttpVerdict {
    /// Rate limited: sleep this long, then send the same request again.
    Retry { wait_ms: u64 },
    /// The call fails with a transport error carrying this status.
    Fail { status: u16 },
    /// A success status: decode the body.
    Accept,
}

/// Counters of one transport, accumulated over all its calls.
#[derive(Debug, Clone, Copy, PartialEq, Eq, Structural)]
pub struct TransportStats {
    pub request_count: u64,
    pub elapsed_ms: u64,
    pub rate_limited_ms: u64,
}

impl TransportStats {
    /// The counters after one more call that took `elapsed_ms` in all, of
    /// which `rate_limited_ms` were spent waiting on rate limits.
    pub open spec fn recorded(self, elapsed_ms: u64, rate_limited_ms: u64) -> TransportStats {
        TransportStats {
            request_count: sat_add(self.request_count, 1),
            elapsed_ms: sat_add(self.elapsed_ms, elapsed_ms),
            rate_limited_ms: sat_add(self.rate_limited_ms, rate_limited_ms),
        }
    }

    pub open spec fn new_spec() -> TransportStats {
        TransportStats { request_count: 0, elapsed_ms: 0, rate_limited_ms: 0 }
    }

    pub fn new() -> (r: TransportStats)
        ensures
            r == TransportStats::new_spec(),
    {
        TransportStats { request_count: 0, elapsed_ms: 0, rate_limited_ms: 0 }
    }

    /// Adds one finished call to the counters, all three in one step.
    pub fn record(&mut self, elapsed_ms: u64, rate_limited_ms: u64)
        ensures
            *final(self) == old(self).recorded(elapsed_ms, rate_limited_ms),
    {
        self.request_count = self.request_count.saturating_add(1);
        self.elapsed_ms = self.elapsed_ms.saturating_add(elapsed_ms);
        self.rate_limited_ms = self.rate_limited_ms.saturating_add(rate_limited_ms);
    }
}

/// The source of request ids of one transport: each id is handed out once,
/// in increasing order.
#[derive(Debug)]
pub struct RequestIds {
    pub next: u64,
}

impl RequestIds {
    pub fn new() -> (r: RequestIds)
        ensures
            r.next == 0,
    {
        RequestIds { next: 0 }
    }

    /// Hands out the next id; `None` once every `u64` has been used.
    pub fn issue(&mut self) -> (r: Option<u64>)
        ensures
            old(self).next < u64::MAX ==> r == Some(old(self).next) && final(self).next
                == old(self).next + 1,
            old(self).next == u64::MAX ==> r is None && final(self).next == old(self).next,
    {
        if self.next < u64::MAX {
            let id = self.next;
            self.next = self.next + 1;
            Some(id)
        } else {
            None
        }
    }
}

/// The state of one JSON-RPC endpoint's transport: where it sends, the ids
/// it has handed out, and its counters. A host shares it between callers
/// behind a lock, holding the lock only to take an id or to commit a call.
#[derive(Debug)]
pub struct HttpSender {
    url: String,
    request_ids: RequestIds,
    stats: TransportStats,
}

impl HttpSender {
    pub closed spec fn spec_url(&self) -> String {
        self.url
    }

    pub closed spec fn next_id(&self) -> u64 {
        self.request_ids.next
    }

    pub closed spec fn stats(&self) -> TransportStats {
        self.stats
    }

    /// A transport for `url` that has sent nothing yet.
    pub fn new(url: String) -> (r: HttpSender)
        ensures
            r.spec_url() == url,
            r.next_id() == 0,
            r.stats() == TransportStats::new_spec(),
    {
        HttpSender { url, request_ids: RequestIds::new(), stats: TransportStats::new() }
    }

    /// The id for a new request: larger than every id handed out before,
    /// and `None` once none is left.
    pub fn next_request_id(&mut self) -> (r: Option<u64>)
        ensures
            old(self).next_id() < u64::MAX ==> r == Some(old(self).next_id())
                && final(self).next_id() == old(self).next_id() + 1,
            old(self).next_id() == u64::MAX ==> r is None && final(self).next_id()
                == old(self).next_id(),
            final(self).spec_url() == old(self).spec_url(),
            final(self).stats() == old(self).stats(),
    {
        self.request_ids.issue()
    }

    /// Commits a finished call, tracked by `updater`, at `now_ms`.
    pub fn commit(&mut self, updater: &StatsUpdater, now_ms: u64)
        ensures
            final(self).stats() == old(self).stats().recorded(
                elapsed_between(updater.request_start_ms, now_ms),
                updater.rate_limited_ms,
            ),
            final(self).spec_url() == old(self).spec_url(),
            final(self).next_id() == old(self).next_id(),
    {
        updater.finish(now_ms, &mut self.stats);
    }

    /// The endpoint that requests go to.
    pub fn url(&self) -> (r: &String)
        ensures
            *r == self.spec_url(),
    {
        &self.url
    }

    /// A copy of the counters as they stand.
    pub fn get_transport_stats(&self) -> (r: TransportStats)
        ensures
            r == self.stats(),
    {
        self.stats
    }
}

/// The bookkeeping of one call: when it started, how many rate-limit
/// retries it has left, and how long it has waited on rate limits.
#[derive(Debug, Clone, Copy, PartialEq, Eq, Structural)]
pub struct StatsUpdater {
    pub request_start_ms: u64,
    pub too_many_requests_retries: u32,
    pub rate_limited_ms: u64,
}

impl StatsUpdater {
    /// The bookkeeping and verdict after an HTTP answer with `status` and
    /// the given `Retry-After` header value.
    pub open spec fn after_response(self, status: u16, retry_after: Option<Seq<char>>) -> (
        StatsUpdater,
        HttpVerdict,
    ) {
        if is_success_status(status) {
            (self, HttpVerdict::Accept)
        } else if status == TOO_MANY_REQUESTS && self.too_many_requests_retries > 0 {
            let wait_ms = retry_wait_ms(retry_after);
            (
                StatsUpdater {
                    too_many_requests_retries: (self.too_many_requests_retries - 1) as u32,
                    rate_limited_ms: sat_add(self.rate_limited_ms, wait_ms),
                    ..self
                },
                HttpVerdict::Retry { wait_ms },
            )
        } else {
            (self, HttpVerdict::Fail { status })
        }
    }

    /// Starts the bookkeeping of a call made at `request_start_ms`.
    pub fn new(request_start_ms: u64) -> (r: StatsUpdater)
        ensures
            r.request_start_ms == request_start_ms,
            r.too_many_requests_retries == MAX_RATE_LIMIT_RETRIES,
            r.rate_limited_ms == 0,
    {
        StatsUpdater {
            request_start_ms,
            too_many_requests_retries: MAX_RATE_LIMIT_RETRIES,
            rate_limited_ms: 0,
        }
    }

    /// Counts `wait_ms` as time spent waiting on rate limits.
    pub fn add_rate_limited_time(&mut self, wait_ms: u64)
        ensures
            *final(self) == (StatsUpdater {
                rate_limited_ms: sat_add(old(self).rate_limited_ms, wait_ms),
                ..*old(self)
            }),
    {
        self.rate_limited_ms = self.rate_limited_ms.saturating_add(wait_ms);
    }

    /// Decides what to do with an HTTP answer: decode it on a success
    /// status, wait and resend on "too many requests" while retries are
    /// left, and fail on any other status.
    pub fn on_response(&mut self, status: u16, retry_after: Option<&str>) -> (r: HttpVerdict)
        ensures
            (*final(self), r) == old(self).after_response(status, opt_chars(retry_after)),
    {
        if 200 <= status && status <= 299 {
            HttpVerdict::Accept
        } else if status == TOO_MANY_REQUESTS && self.too_many_requests_retries > 0 {
            let wait_ms = rate_limit_wait_ms(retry_after);
            self.too_many_requests_retries = self.too_many_requests_retries - 1;
            self.add_rate_limited_time(wait_ms);
            HttpVerdict::Retry { wait_ms }
        } else {
            HttpVerdict::Fail { status }
        }
    }

    /// Commits the finished call, at `now_ms`, to `stats`: one more request,
    /// its whole elapsed time, and its rate-limited time.
    pub fn finish(&self, now_ms: u64, stats: &mut TransportStats)
        ensures
            *final(stats) == old(stats).recorded(
                elapsed_between(self.request_start_ms, now_ms),
                self.rate_limited_ms,
            ),
    {
        stats.record(now_ms.saturating_sub(self.request_start_ms), self.rate_limited_ms);
    }
}

/// The answers of one call that all carry `status`, one per header value in
/// `hs`: the bookkeeping after them, and the verdict on each.
pub open spec fn after_responses(u: StatsUpdater, status: u16, hs: Seq<Option<Seq<char>>>) -> (
    StatsUpdater,
    Seq<HttpVerdict>,
)
    decreases hs.len(),
{
    if hs.len() == 0 {
        (u, Seq::empty())
    } else {
        let (u1, v) = u.after_response(status, hs[0]);
        let (u2, vs) = after_responses(u1, status, hs.drop_first());
        (u2, seq![v] + vs)
    }
}

/// The sum of the waits that the header values in `hs` ask for.
pub open spec fn total_wait_ms(hs: Seq<Option<Seq<char>>>) -> int
    decreases hs.len(),
{
    if hs.len() == 0 {
        0
    } else {
        retry_wait_ms(hs[0]) + total_wait_ms(hs.drop_first())
    }
}

proof fn lemma_wait_bounded(h: Option<Seq<char>>)
    ensures
        retry_wait_ms(h) < 120000,
{
}

/// A call that is answered "too many requests" six times in a row waits and
/// resends after each of the first five answers, as long as each header
/// asks, and fails with that status on the sixth without another try; its
/// rate-limited time is then the sum of the five waits, and committing it
/// adds exactly one request and that sum to the transport's counters.
pub proof fn rate_limit_retries_end_after_five(
    start_ms: u64,
    hs: Seq<Option<Seq<char>>>,
    stats: TransportStats,
    elapsed_ms: u64,
)
    requires
        hs.len() == 6,
        stats.request_count < u64::MAX,
        stats.rate_limited_ms + total_wait_ms(hs.take(5)) <= u64::MAX,
    ensures
        ({
            let fresh = StatsUpdater {
                request_start_ms: start_ms,
                too_many_requests_retries: MAX_RATE_LIMIT_RETRIES,
                rate_limited_ms: 0,
            };
            let (u, vs) = after_responses(fresh, TOO_MANY_REQUESTS, hs);
            &&& vs.len() == 6
            &&& forall|i: int| 0 <= i < 5 ==> vs[i] == HttpVerdict::Retry { wait_ms: retry_wait_ms(hs[i]) }
            &&& vs[5] == HttpVerdict::Fail { status: TOO_MANY_REQUESTS }
            &&& u.too_many_requests_retries == 0
            &&& u.rate_limited_ms == total_wait_ms(hs.take(5))
            &&& stats.recorded(elapsed_ms, u.rate_limited_ms).request_count == stats.request_count + 1
            &&& stats.recorded(elapsed_ms, u.rate_limited_ms).rate_limited_ms == stats.rate_limited_ms
                + total_wait_ms(hs.take(5))
        }),
{
    let h1 = hs.drop_first();
    let h2 = h1.drop_first();
    let h3 = h2.drop_first();
    let h4 = h3.drop_first();
    let h5 = h4.drop_first();
    let h6 = h5.drop_first();
    assert(h6.len() == 0);
    lemma_wait_bounded(hs[0]);
    lemma_wait_bounded(hs[1]);
    lemma_wait_bounded(hs[2]);
    lemma_wait_bounded(hs[3]);
    lemma_wait_bounded(hs[4]);
    let t = hs.take(5);
    assert(t.drop_first() =~= h1.take(4));
    assert(h1.take(4).drop_first() =~= h2.take(3));
    assert(h2.take(3).drop_first() =~= h3.take(2));
    assert(h3.take(2).drop_first() =~= h4.take(1));
    assert(h4.take(1).drop_first() =~= h5.take(0));
    reveal_with_fuel(total_wait_ms, 6);
    reveal_with_fuel(after_responses, 7);
}

/// Committing a call adds exactly one to the request count, however many
/// rate-limit retries the call went through.
pub proof fn one_request_per_call(stats: TransportStats, u: StatsUpdater, now_ms: u64)
    requires
        stats.request_count < u64::MAX,
    ensures
        stats.recorded(elapsed_between(u.request_start_ms, now_ms), u.rate_limited_ms).request_count
            == stats.request_count + 1,
{
}

/// The wait before resending a rate-limited request: the `Retry-After`
/// value in seconds when it is a number below the bound, else the default.
pub fn rate_limit_wait_ms(retry_after: Option<&str>) -> (r: u64)
    ensures
        r == retry_wait_ms(opt_chars(retry_after)),
{
    match retry_after {
        Some(h) => match parse_u64(h) {
            Some(secs) => if secs < MAX_RETRY_AFTER_SECS {
                secs * 1000
            } else {
                DEFAULT_RATE_LIMIT_WAIT_MS
            },
            None => DEFAULT_RATE_LIMIT_WAIT_MS,
        },
        None => DEFAULT_RATE_LIMIT_WAIT_MS,
    }
}

} // verus!
