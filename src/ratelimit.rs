use vstd::prelude::*;

use lru::LruCache;

use crate::lru_cache::{bucket_entries, bucket_get, bucket_put, new_bucket_cache, new_string_cache, string_entries, string_get, string_put};

verus! {

/// How many buckets, and as many endpoints, the tracker remembers.
pub const RATE_LIMITS_CACHE_SIZE: usize = 1000;

/// Per-bucket rate-limit state learned from REST responses, and the bucket each endpoint
/// belongs to. Both are bounded caches: the least recently used entry makes room.
pub struct RateLimitTracker {
    buckets: LruCache<String, (u32, u64)>,
    endpoints: LruCache<String, String>,
}

/// The tracker's content: bucket id to (remaining, reset time in ms since the epoch),
/// and endpoint to bucket id.
pub struct TrackerView {
    pub buckets: Map<Seq<char>, (u32, u64)>,
    pub endpoints: Map<Seq<char>, Seq<char>>,
}

impl View for RateLimitTracker {
    type V = TrackerView;

    closed spec fn view(&self) -> TrackerView {
        TrackerView { buckets: bucket_entries(self.buckets), endpoints: string_entries(self.endpoints) }
    }
}

/// How long (ms) a request to `endpoint` at time `now` must wait: until the reset time of
/// its bucket when that bucket is known to be exhausted, else not at all.
pub open spec fn spec_delay(t: TrackerView, endpoint: Seq<char>, now: u64) -> u64 {
    if t.endpoints.contains_key(endpoint) && t.buckets.contains_key(t.endpoints[endpoint]) {
        let (remaining, reset_at) = t.buckets[t.endpoints[endpoint]];
        if remaining == 0 && reset_at > now {
            (reset_at - now) as u64
        } else {
            0
        }
    } else {
        0
    }
}

/// What `record` leaves behind: the endpoint maps to the bucket, the bucket holds the new
/// entry, and every other entry that is still there is unchanged.
pub open spec fn recorded(
    before: TrackerView,
    after: TrackerView,
    endpoint: Seq<char>,
    bucket: Seq<char>,
    remaining: u32,
    reset_at: u64,
) -> bool {
    &&& after.endpoints.contains_key(endpoint)
    &&& after.endpoints[endpoint] == bucket
    &&& after.buckets.contains_key(bucket)
    &&& after.buckets[bucket] == (remaining, reset_at)
    &&& forall|o: Seq<char>| #[trigger] after.buckets.contains_key(o) && o != bucket
        ==> before.buckets.contains_key(o) && after.buckets[o] == before.buckets[o]
    &&& forall|o: Seq<char>| #[trigger] after.endpoints.contains_key(o) && o != endpoint
        ==> before.endpoints.contains_key(o) && after.endpoints[o] == before.endpoints[o]
}

impl RateLimitTracker {
    /// An empty tracker.
    pub fn new() -> (r: RateLimitTracker)
        ensures
            r@.buckets.dom().len() == 0 && r@.buckets.dom().finite(),
            r@.endpoints.dom().len() == 0 && r@.endpoints.dom().finite(),
    {
        RateLimitTracker {
            buckets: new_bucket_cache(RATE_LIMITS_CACHE_SIZE),
            endpoints: new_string_cache(RATE_LIMITS_CACHE_SIZE),
        }
    }

    /// Records the rate-limit headers of a response: the endpoint belongs to `bucket`, which
    /// has `remaining` calls left until `reset_at` (ms since the epoch).
    pub fn record(&mut self, endpoint: &str, bucket: &str, remaining: u32, reset_at: u64)
        ensures
            recorded(old(self)@, final(self)@, endpoint@, bucket@, remaining, reset_at),
    {
        bucket_put(&mut self.buckets, bucket, (remaining, reset_at));
        string_put(&mut self.endpoints, endpoint, bucket);
    }

    /// How long (ms) a request to `endpoint` issued at `now` must wait first; 0 means go.
    pub fn limited_delay(&mut self, endpoint: &str, now: u64) -> (r: u64)
        ensures
            r == spec_delay(old(self)@, endpoint@, now),
            final(self)@ == old(self)@,
    {
        let b = string_get(&mut self.endpoints, endpoint);
        match b {
            None => 0,
            Some(bucket) => {
                match bucket_get(&mut self.buckets, bucket.as_str()) {
                    None => 0,
                    Some((remaining, reset_at)) => {
                        if remaining == 0 && reset_at > now {
                            reset_at - now
                        } else {
                            0
                        }
                    },
                }
            },
        }
    }
}

/// After a response reports a bucket exhausted until `reset_at`, a request to that endpoint
/// started before `reset_at` waits until at least `reset_at`; one started later does not wait.
pub proof fn lemma_exhausted_bucket_waits(
    before: TrackerView,
    after: TrackerView,
    endpoint: Seq<char>,
    bucket: Seq<char>,
    reset_at: u64,
    now: u64,
)
    requires
        recorded(before, after, endpoint, bucket, 0, reset_at),
    ensures
        now < reset_at ==> now + spec_delay(after, endpoint, now) >= reset_at,
        now >= reset_at ==> spec_delay(after, endpoint, now) == 0,
{
}

} // verus!
