//! The rate limiter: a counter for each client, kept in the store, and the
//! decision that follows from its count.
//!
//! The count is taken and its expiry set in one step by the store, which
//! runs [`INCREMENT_SCRIPT`] for that. Where the store fails, the request is
//! allowed.

use vstd::prelude::*;
use vstd::string::*;

verus! {

/// The key of the counter of the client `identity`.
pub open spec fn rate_limit_key_of(identity: Seq<char>) -> Seq<char> {
    "ratelimit:"@ + identity
}

/// The key of the counter of the client `identity`.
pub fn rate_limit_key(identity: &str) -> (key: String)
    ensures
        key@ == rate_limit_key_of(identity@),
{
    "ratelimit:".to_owned().concat(identity)
}

/// The script that the store runs as one step: it raises the counter under
/// the first key and, where the counter has just been created, lets it
/// expire after the number of seconds given as the first argument. It
/// returns the new count.
pub const INCREMENT_SCRIPT: &'static str =
    "local current = redis.call('INCR', KEYS[1])\nif current == 1 then\n    redis.call('EXPIRE', KEYS[1], ARGV[1])\nend\nreturn current";

/// Whether requests are counted at all: a limit of zero switches the
/// limiter off.
pub open spec fn limiting(limit: u32) -> bool {
    limit != 0
}

/// Whether a request is allowed under the limit `limit`, where `count` is
/// the count that the store returned for it, or `None` where the store
/// failed.
pub open spec fn allowed(limit: u32, count: Option<i64>) -> bool {
    match count {
        Some(n) => !limiting(limit) || n <= limit,
        None => true,
    }
}

/// Whether requests are counted at all.
pub fn is_limiting(limit: u32) -> (b: bool)
    ensures
        b == limiting(limit),
{
    limit != 0
}

/// Decides whether a request is allowed under the limit `limit`, where
/// `count` is the count that the store returned for it, or `None` where the
/// store failed.
pub fn check_rate_limit(limit: u32, count: Option<i64>) -> (allow: bool)
    ensures
        allow == allowed(limit, count),
{
    if limit == 0 {
        return true;
    }
    match count {
        Some(n) => n <= limit as i64,
        None => true,
    }
}

/// A counter in the store: its count, and the instant at which it expires.
pub ghost struct Counter {
    pub count: int,
    pub expires_at: int,
}

/// What one run of the script at the instant `now` leaves in the store,
/// where `entry` is what the store held: a counter that has not expired is
/// raised and keeps its expiry; otherwise a new one starts at 1 and expires
/// `window` seconds later.
pub open spec fn incremented(entry: Option<Counter>, now: int, window: int) -> Counter {
    match entry {
        Some(counter) if now < counter.expires_at => Counter {
            count: counter.count + 1,
            expires_at: counter.expires_at,
        },
        _ => Counter { count: 1, expires_at: now + window },
    }
}

/// What the store holds after requests at the instants `times`, in that
/// order, where it held `entry` before.
pub open spec fn after_requests(entry: Option<Counter>, times: Seq<int>, window: int) -> Option<
    Counter,
>
    decreases times.len(),
{
    if times.len() == 0 {
        entry
    } else {
        Some(incremented(after_requests(entry, times.drop_last(), window), times.last(), window))
    }
}

/// Whether the instants `times` are in order and all lie in the `window`
/// seconds that begin with the first of them.
pub open spec fn within_window(times: Seq<int>, window: int) -> bool {
    &&& forall|i: int, j: int|
        0 <= i <= j < times.len() ==> (#[trigger] times[i]) <= (#[trigger] times[j])
    &&& forall|i: int| 0 <= i < times.len() ==> (#[trigger] times[i]) < times[0] + window
}

/// A client's requests within one window are counted one by one: after the
/// requests at `times`, the first of which found no live counter, the count
/// is their number, and the counter expires `window` seconds after the first.
pub proof fn lemma_counted_within_window(entry: Option<Counter>, times: Seq<int>, window: int)
    requires
        times.len() > 0,
        within_window(times, window),
        entry matches Some(counter) ==> counter.expires_at <= times[0],
    ensures
        after_requests(entry, times, window) == Some(
            Counter { count: times.len() as int, expires_at: times[0] + window },
        ),
    decreases times.len(),
{
    let earlier = times.drop_last();
    if earlier.len() == 0 {
        assert(after_requests(entry, earlier, window) == entry);
    } else {
        assert(earlier[0] == times[0]);
        assert forall|i: int, j: int| 0 <= i <= j < earlier.len() implies (#[trigger] earlier[i])
            <= (#[trigger] earlier[j]) by {
            assert(earlier[i] == times[i] && earlier[j] == times[j]);
        }
        assert forall|i: int| 0 <= i < earlier.len() implies (#[trigger] earlier[i]) < earlier[0]
            + window by {
            assert(earlier[i] == times[i]);
        }
        lemma_counted_within_window(entry, earlier, window);
    }
}

/// With a limit of `limit` requests in `window` seconds, of a client's
/// requests within one window the first `limit` are allowed and every
/// further one is denied.
pub proof fn lemma_request_beyond_limit_denied(
    entry: Option<Counter>,
    times: Seq<int>,
    window: int,
    limit: u32,
)
    requires
        limiting(limit),
        times.len() > 0,
        within_window(times, window),
        entry matches Some(counter) ==> counter.expires_at <= times[0],
        after_requests(entry, times, window).unwrap().count <= i64::MAX,
    ensures
        allowed(limit, Some(after_requests(entry, times, window).unwrap().count as i64))
            <==> times.len() <= limit,
{
    lemma_counted_within_window(entry, times, window);
}

/// Once the window has elapsed, the counter starts again: a request at or
/// after the expiry of the counter is counted as the first, and is allowed
/// under every limit.
pub proof fn lemma_allowed_after_window(counter: Counter, now: int, window: int, limit: u32)
    requires
        counter.expires_at <= now,
    ensures
        incremented(Some(counter), now, window).count == 1,
        allowed(limit, Some(1)),
{
}

/// A limit of zero allows every request, and so does a failure of the
/// store under every limit.
pub proof fn lemma_always_allowed(limit: u32, count: Option<i64>)
    ensures
        allowed(0, count),
        allowed(limit, None),
{
}

} // verus!
