use vstd::prelude::*;
use vstd::string::*;

use crate::ratelimit::{recorded, RateLimitTracker};
use crate::text::{all_digits, chars_of, digit_value, digits_value, is_digit, parse_u64, spec_parse_u64};

verus! {

/// The digit at position `k` of a fraction, zero past its end.
pub open spec fn frac_digit(f: Seq<char>, k: int) -> nat {
    if k < f.len() { digit_value(f[k]) } else { 0 }
}

/// The whole milliseconds in the fractional digits `f` of a number of seconds.
pub open spec fn frac_millis(f: Seq<char>) -> nat {
    frac_digit(f, 0) * 100 + frac_digit(f, 1) * 10 + frac_digit(f, 2)
}

/// `s[..i]` is the integer part of a number of seconds, followed either by nothing or by a
/// dot and one or more digits.
pub open spec fn is_seconds_split(s: Seq<char>, i: int) -> bool {
    &&& 0 < i <= s.len()
    &&& all_digits(s.subrange(0, i))
    &&& (i == s.len() || (s[i] == '.' && i + 1 < s.len() && all_digits(s.subrange(i + 1, s.len() as int))))
}

/// The milliseconds in a decimal number of seconds such as `12` or `0.25` (digits past the
/// third decimal are dropped); `None` for any other text or a value past `u64::MAX`.
pub open spec fn spec_seconds_millis(s: Seq<char>) -> Option<u64> {
    if exists|i: int| is_seconds_split(s, i) {
        let i = choose|i: int| is_seconds_split(s, i);
        let ms = digits_value(s.subrange(0, i)) * 1000 + (if i < s.len() {
            frac_millis(s.subrange(i + 1, s.len() as int))
        } else {
            0
        });
        if ms <= u64::MAX {
            Some(ms as u64)
        } else {
            None
        }
    } else {
        None
    }
}

proof fn lemma_split_unique(s: Seq<char>, i: int, j: int)
    requires
        is_seconds_split(s, i),
        is_seconds_split(s, j),
    ensures
        i == j,
{
    if i < j {
        assert(is_digit(s.subrange(0, j)[i]));
    } else if j < i {
        assert(is_digit(s.subrange(0, i)[j]));
    }
}

/// The end of the run of digits that starts at `from`.
fn scan_digits(v: &Vec<char>, from: usize) -> (r: usize)
    requires
        from <= v@.len(),
    ensures
        from <= r <= v@.len(),
        all_digits(v@.subrange(from as int, r as int)),
        r < v@.len() ==> !is_digit(v@[r as int]),
{
    let mut i = from;
    while i < v.len() && '0' <= v[i] && v[i] <= '9'
        invariant
            from <= i <= v@.len(),
            all_digits(v@.subrange(from as int, i as int)),
        decreases v@.len() - i,
    {
        assert(v@.subrange(from as int, i + 1) =~= v@.subrange(from as int, i as int).push(v@[i as int]));
        i = i + 1;
    }
    i
}

fn digit_at(v: &Vec<char>, k: usize) -> (r: u64)
    requires
        all_digits(v@.subrange(k as int, v@.len() as int)) || k >= v@.len(),
    ensures
        r as nat == (if k < v@.len() { digit_value(v@[k as int]) } else { 0 }),
        r < 10,
{
    if k < v.len() {
        assert(is_digit(v@.subrange(k as int, v@.len() as int)[0]));
        (v[k] as u32 - '0' as u32) as u64
    } else {
        0
    }
}

/// Reads a number of seconds, such as a `retry-after` or `x-ratelimit-reset` header, as
/// whole milliseconds.
pub fn parse_seconds_millis(text: &str) -> (r: Option<u64>)
    ensures
        r == spec_seconds_millis(text@),
{
    let v = chars_of(text);
    let ghost s = v@;
    let i = scan_digits(&v, 0);
    assert(s.subrange(0, 0) =~= Seq::<char>::empty());
    if i == 0 {
        assert forall|k: int| !is_seconds_split(s, k) by {
            if 0 < k <= s.len() && all_digits(s.subrange(0, k)) {
                assert(is_digit(s.subrange(0, k)[0]));
            }
        }
        return None;
    }
    let mut end = v.len();
    if i < v.len() {
        if v[i] != '.' || i + 1 >= v.len() {
            assert forall|k: int| !is_seconds_split(s, k) by {
                if is_seconds_split(s, k) {
                    lemma_split_unique_at(s, i as int, k);
                }
            }
            return None;
        }
        end = scan_digits(&v, i + 1);
        if end < v.len() {
            assert forall|k: int| !is_seconds_split(s, k) by {
                if is_seconds_split(s, k) {
                    lemma_split_unique_at(s, i as int, k);
                    assert(is_digit(s.subrange(i + 1, s.len() as int)[end - i - 1]));
                }
            }
            return None;
        }
    }
    assert(is_seconds_split(s, i as int));
    proof {
        assert forall|k: int| is_seconds_split(s, k) implies k == i by {
            lemma_split_unique(s, i as int, k);
        }
    }
    let frac: u64 = if i < v.len() {
        assert(v@.subrange(i + 1, v@.len() as int) == s.subrange(i + 1, s.len() as int));
        let a = digit_at(&v, i + 1);
        let b = if v.len() - i > 2 {
            assert(v@.subrange(i + 2, v@.len() as int) =~= s.subrange(i + 1, s.len() as int).subrange(1, s.len() - i - 1));
            digit_at(&v, i + 2)
        } else {
            0
        };
        let c = if v.len() - i > 3 {
            assert(v@.subrange(i + 3, v@.len() as int) =~= s.subrange(i + 1, s.len() as int).subrange(2, s.len() - i - 1));
            digit_at(&v, i + 3)
        } else {
            0
        };
        proof {
            let f = s.subrange(i + 1, s.len() as int);
            assert(frac_digit(f, 0) == a);
            assert(frac_digit(f, 1) == b);
            assert(frac_digit(f, 2) == c);
        }
        a * 100 + b * 10 + c
    } else {
        0
    };
    match parse_u64(&v, 0, i) {
        None => None,
        Some(whole) => {
            match whole.checked_mul(1000) {
                None => None,
                Some(w) => w.checked_add(frac),
            }
        },
    }
}

/// A split point must sit at the end of the leading digits.
proof fn lemma_split_unique_at(s: Seq<char>, i: int, k: int)
    requires
        0 < i <= s.len(),
        all_digits(s.subrange(0, i)),
        i < s.len() ==> !is_digit(s[i]),
        is_seconds_split(s, k),
    ensures
        k == i,
{
    if k < i {
        assert(is_digit(s.subrange(0, i)[k]));
    } else if i < k {
        assert(is_digit(s.subrange(0, k)[i]));
    }
}

/// The HTTP status that asks a client to slow down.
pub const TOO_MANY_REQUESTS: u16 = 429;

/// How many consecutive 429 answers a call accepts before it gives up.
pub const MAX_RATE_LIMIT_RETRIES: u32 = 8;

/// What the dispatcher does after a response.
#[derive(Debug, Clone, Copy, PartialEq, Eq, Structural)]
pub enum RetryDecision {
    /// The response is final: hand it to the caller.
    Done,
    /// Wait this many milliseconds, then send the same request again.
    RetryAfter(u64),
    /// Too many 429 answers in a row: report an error.
    GiveUp,
}

/// The wait a 429 response asks for: its `retry-after` header in ms, 0 when it is absent or
/// unreadable.
pub open spec fn spec_retry_millis(retry_after: Option<Seq<char>>) -> u64 {
    match retry_after {
        Some(t) => match spec_seconds_millis(t) {
            Some(ms) => ms,
            None => 0,
        },
        None => 0,
    }
}

pub open spec fn opt_str_view(o: Option<&str>) -> Option<Seq<char>> {
    match o {
        Some(s) => Some(s@),
        None => None,
    }
}

/// The retry bookkeeping of one REST call.
#[derive(Debug, Clone, Copy, PartialEq, Eq, Structural)]
pub struct RestCall {
    /// 429 answers received so far.
    pub retries: u32,
    /// The most 429 answers that are retried.
    pub max_retries: u32,
}

impl RestCall {
    /// A call that has received no answer yet.
    pub fn new() -> (r: RestCall)
        ensures
            r.retries == 0,
            r.max_retries == MAX_RATE_LIMIT_RETRIES,
    {
        RestCall { retries: 0, max_retries: MAX_RATE_LIMIT_RETRIES }
    }

    /// Decides what follows a response with `status` and `retry-after` header.
    pub fn on_response(&mut self, status: u16, retry_after: Option<&str>) -> (r: RetryDecision)
        ensures
            status != TOO_MANY_REQUESTS ==> r == RetryDecision::Done && *final(self) == *old(self),
            status == TOO_MANY_REQUESTS && old(self).retries >= old(self).max_retries ==> r
                == RetryDecision::GiveUp && *final(self) == *old(self),
            status == TOO_MANY_REQUESTS && old(self).retries < old(self).max_retries ==> r
                == RetryDecision::RetryAfter(spec_retry_millis(opt_str_view(retry_after)))
                && final(self).retries == old(self).retries + 1
                && final(self).max_retries == old(self).max_retries,
    {
        if status != TOO_MANY_REQUESTS {
            return RetryDecision::Done;
        }
        if self.retries >= self.max_retries {
            return RetryDecision::GiveUp;
        }
        self.retries = self.retries + 1;
        let ms = match retry_after {
            Some(t) => match parse_seconds_millis(t) {
                Some(ms) => ms,
                None => 0,
            },
            None => 0,
        };
        RetryDecision::RetryAfter(ms)
    }
}

/// The `x-ratelimit-remaining` header as a count, 0 when absent or unreadable.
pub open spec fn spec_remaining(h: Option<Seq<char>>) -> u32 {
    match h {
        Some(t) => match spec_parse_u64(t) {
            Some(n) => if n <= u32::MAX { n as u32 } else { 0 },
            None => 0,
        },
        None => 0,
    }
}

/// The `x-ratelimit-reset` header in ms since the epoch, 0 when absent or unreadable.
pub open spec fn spec_reset(h: Option<Seq<char>>) -> u64 {
    match h {
        Some(t) => match spec_seconds_millis(t) {
            Some(ms) => ms,
            None => 0,
        },
        None => 0,
    }
}

/// Feeds the rate-limit headers of a response to `endpoint` into the tracker; a response
/// without `x-ratelimit-bucket` leaves it as it was.
pub fn record_response(
    tracker: &mut RateLimitTracker,
    endpoint: &str,
    bucket: Option<&str>,
    remaining: Option<&str>,
    reset: Option<&str>,
)
    ensures
        bucket is None ==> final(tracker)@ == old(tracker)@,
        bucket matches Some(b) ==> recorded(
            old(tracker)@,
            final(tracker)@,
            endpoint@,
            b@,
            spec_remaining(opt_str_view(remaining)),
            spec_reset(opt_str_view(reset)),
        ),
{
    if let Some(b) = bucket {
        let left: u32 = match remaining {
            Some(t) => {
                let v = chars_of(t);
                match parse_u64(&v, 0, v.len()) {
                    Some(n) => if n <= u32::MAX as u64 { n as u32 } else { 0 },
                    None => 0,
                }
            },
            None => 0,
        };
        let reset_at: u64 = match reset {
            Some(t) => match parse_seconds_millis(t) {
                Some(ms) => ms,
                None => 0,
            },
            None => 0,
        };
        proof {
            if let Some(t) = remaining {
                assert(t@.subrange(0, t@.len() as int) =~= t@);
            }
        }
        tracker.record(endpoint, b, left, reset_at);
    }
}

/// The headers every REST call carries: JSON content and the bot's authorization.
pub fn get_headers(token: &str) -> (r: Vec<(String, String)>)
    ensures
        r@.len() == 2,
        r@[0].0@ == "Content-Type"@,
        r@[0].1@ == "application/json"@,
        r@[1].0@ == "Authorization"@,
        r@[1].1@ == "Bot "@ + token@,
{
    let mut auth = String::from_str("Bot ");
    auth.append(token);
    let mut r: Vec<(String, String)> = Vec::new();
    r.push((String::from_str("Content-Type"), String::from_str("application/json")));
    r.push((String::from_str("Authorization"), auth));
    r
}

} // verus!
