//! Rate limiting: how many requests a client address may make in a window.
use vstd::prelude::*;
use std::collections::HashMap;
use vstd::string::*;

verus! {

broadcast use vstd::std_specs::hash::group_hash_axioms;

/// The length of a rate-limit window, in nanoseconds (60 seconds).
pub const RATE_LIMIT_WINDOW_NANOS: u64 = 60_000_000_000;
pub const RATE_LIMIT_WINDOW_SECONDS: u64 = 60;
pub const RATE_LIMIT_MAX_REQUESTS: u32 = 100;
pub const RATE_LIMIT_CLEANUP_THRESHOLD: usize = 10000;

/// Requests counted for one client address in its current window, which began
/// at `window_start` (nanoseconds on the service's monotonic clock).
#[derive(Clone, Copy, Debug)]
pub struct RateLimitEntry {
    pub count: u32,
    pub window_start: u64,
}

/// Time from `start` to `now`, or zero when `now` is earlier.
pub open spec fn since(now: u64, start: u64) -> u64 {
    if now >= start { (now - start) as u64 } else { 0 }
}

/// The window of `e` is still open at `now`.
pub open spec fn window_open(e: RateLimitEntry, now: u64) -> bool {
    since(now, e.window_start) < RATE_LIMIT_WINDOW_NANOS
}

/// The entries of `m` whose window is still open at `now`.
pub open spec fn open_entries(m: Map<u128, RateLimitEntry>, now: u64) -> Map<u128, RateLimitEntry> {
    Map::new(|k: u128| m.contains_key(k) && window_open(m[k], now), |k: u128| m[k])
}

/// Counts per client address, keyed by the address as a 128-bit number (an
/// IPv4 address in its IPv6-mapped form).
pub struct RateLimiter {
    requests: HashMap<u128, RateLimitEntry>,
    last_cleanup: u64,
}

/// The table after the periodic clean-up at `now`: once it holds more than
/// the threshold and a window has passed since the last clean-up, entries whose
/// window has closed are dropped.
pub open spec fn cleaned(m: Map<u128, RateLimitEntry>, last_cleanup: u64, now: u64) -> (Map<u128, RateLimitEntry>, u64) {
    if m.len() > RATE_LIMIT_CLEANUP_THRESHOLD && since(now, last_cleanup) > RATE_LIMIT_WINDOW_NANOS {
        (open_entries(m, now), now)
    } else {
        (m, last_cleanup)
    }
}

/// The decision for a request from `ip` at `now` against table `m`, and the
/// entry `ip` has afterwards: a closed window restarts with this request; an
/// open window admits the request while fewer than the maximum were admitted.
pub open spec fn decide_request(m: Map<u128, RateLimitEntry>, ip: u128, now: u64) -> (bool, RateLimitEntry) {
    let e = if m.contains_key(ip) { m[ip] } else { RateLimitEntry { count: 0, window_start: now } };
    if since(now, e.window_start) >= RATE_LIMIT_WINDOW_NANOS {
        (true, RateLimitEntry { count: 1, window_start: now })
    } else if e.count >= RATE_LIMIT_MAX_REQUESTS {
        (false, e)
    } else {
        (true, RateLimitEntry { count: (e.count + 1) as u32, window_start: e.window_start })
    }
}

/// One request from `ip` at `now` against table `m` last cleaned at
/// `last_cleanup`: the table afterwards, the time of its last clean-up, and
/// whether the request is admitted.
pub open spec fn limiter_step(m: Map<u128, RateLimitEntry>, last_cleanup: u64, ip: u128, now: u64)
    -> (Map<u128, RateLimitEntry>, u64, bool)
{
    let (c, last) = cleaned(m, last_cleanup, now);
    let (ok, entry) = decide_request(c, ip, now);
    (c.insert(ip, entry), last, ok)
}

/// A run of requests, each an address and a time, taken one after the other
/// from table `m` last cleaned at `last_cleanup`: the table and clean-up time
/// afterwards, and the answer to each request.
pub open spec fn limiter_run(m: Map<u128, RateLimitEntry>, last_cleanup: u64, reqs: Seq<(u128, u64)>)
    -> (Map<u128, RateLimitEntry>, u64, Seq<bool>)
    decreases reqs.len(),
{
    if reqs.len() == 0 {
        (m, last_cleanup, Seq::empty())
    } else {
        let (m1, l1, answers) = limiter_run(m, last_cleanup, reqs.drop_last());
        let (m2, l2, ok) = limiter_step(m1, l1, reqs.last().0, reqs.last().1);
        (m2, l2, answers.push(ok))
    }
}

impl RateLimiter {
    pub closed spec fn table(&self) -> Map<u128, RateLimitEntry> {
        self.requests@
    }

    pub closed spec fn spec_last_cleanup(&self) -> u64 {
        self.last_cleanup
    }

    /// No address is ever counted beyond the maximum.
    pub closed spec fn inv(&self) -> bool {
        forall|k: u128| #[trigger] self.requests@.contains_key(k) ==> self.requests@[k].count <= RATE_LIMIT_MAX_REQUESTS
    }

    /// No address is ever counted beyond the maximum: `new` makes a limiter
    /// that keeps `inv`, `check_rate_limit` keeps it, and it bounds every count.
    pub proof fn law_counts_bounded(&self)
        requires
            self.inv(),
        ensures
            forall|k: u128| #[trigger] self.table().contains_key(k) ==> self.table()[k].count <= RATE_LIMIT_MAX_REQUESTS,
    {
    }

    /// An empty table whose last clean-up is `now`.
    pub fn new(now: u64) -> (r: RateLimiter)
        ensures
            r.inv(),
            r.table() == Map::<u128, RateLimitEntry>::empty(),
            r.spec_last_cleanup() == now,
    {
        RateLimiter { requests: HashMap::new(), last_cleanup: now }
    }

    fn drop_closed(&mut self, now: u64)
        requires
            old(self).inv(),
        ensures
            final(self).inv(),
            final(self).table() == open_entries(old(self).table(), now),
            final(self).spec_last_cleanup() == old(self).spec_last_cleanup(),
    {
        let mut kept: HashMap<u128, RateLimitEntry> = HashMap::new();
        let ghost old_map = self.requests@;
        for pair in it: self.requests.iter()
            invariant
                old_map == self.requests@,
                forall|k: u128| #[trigger] old_map.contains_key(k) ==> old_map[k].count <= RATE_LIMIT_MAX_REQUESTS,
                forall|k: u128| #[trigger] kept@.contains_key(k) ==> old_map.contains_key(k) && kept@[k] == old_map[k]
                    && window_open(old_map[k], now),
                forall|i: int| 0 <= i < it.index() && window_open(*it.seq()[i].1, now)
                    ==> #[trigger] kept@.contains_key(*it.seq()[i].0),
                forall|i: int| 0 <= i < it.seq().len() ==> old_map.contains_key(*it.seq()[i].0)
                    && old_map[*it.seq()[i].0] == *it.seq()[i].1,
                forall|k: u128| #[trigger] old_map.contains_key(k) ==> it.seq().contains((&k, &old_map[k])),
        {
            let (k, e) = pair;
            assert(old_map.contains_key(*k) && old_map[*k] == *e);
            if now < e.window_start || now - e.window_start < RATE_LIMIT_WINDOW_NANOS {
                kept.insert(*k, *e);
            }
        }
        assert(kept@ =~= open_entries(old_map, now));
        self.requests = kept;
    }

    /// Counts a request from `ip` at `now` and answers whether it is admitted.
    pub fn check_rate_limit(&mut self, ip: u128, now: u64) -> (admitted: bool)
        requires
            old(self).inv(),
        ensures
            final(self).inv(),
            (final(self).table(), final(self).spec_last_cleanup(), admitted)
                == limiter_step(old(self).table(), old(self).spec_last_cleanup(), ip, now),
    {
        if self.requests.len() > RATE_LIMIT_CLEANUP_THRESHOLD {
            let elapsed = if now >= self.last_cleanup { now - self.last_cleanup } else { 0 };
            if elapsed > RATE_LIMIT_WINDOW_NANOS {
                self.drop_closed(now);
                self.last_cleanup = now;
            }
        }
        let entry = match self.requests.get(&ip) {
            Some(e) => *e,
            None => RateLimitEntry { count: 0, window_start: now },
        };
        assert(entry.count <= RATE_LIMIT_MAX_REQUESTS);
        let ghost before = self.requests@;
        let elapsed = if now >= entry.window_start { now - entry.window_start } else { 0 };
        if elapsed >= RATE_LIMIT_WINDOW_NANOS {
            self.requests.insert(ip, RateLimitEntry { count: 1, window_start: now });
            assert forall|k: u128| #[trigger] self.requests@.contains_key(k) implies self.requests@[k].count <= RATE_LIMIT_MAX_REQUESTS by {
                if k != ip { assert(before.contains_key(k)); }
            }
            return true;
        }
        if entry.count >= RATE_LIMIT_MAX_REQUESTS {
            self.requests.insert(ip, entry);
            assert forall|k: u128| #[trigger] self.requests@.contains_key(k) implies self.requests@[k].count <= RATE_LIMIT_MAX_REQUESTS by {
                if k != ip { assert(before.contains_key(k)); }
            }
            return false;
        }
        self.requests.insert(ip, RateLimitEntry { count: entry.count + 1, window_start: entry.window_start });
        assert forall|k: u128| #[trigger] self.requests@.contains_key(k) implies self.requests@[k].count <= RATE_LIMIT_MAX_REQUESTS by {
            if k != ip { assert(before.contains_key(k)); }
        }
        true
    }
}

} // verus!

verus! {

/// The refusal of a request by its API key: `missing api key` when the header
/// is absent, not text or empty, `invalid api key` when it is not the
/// configured key, and none otherwise.
pub fn api_key_refusal(config: &crate::config::ApiConfig, header: Option<&str>) -> (r: Option<&'static str>)
    ensures
        match header {
            Some(k) if k@.len() > 0 => if crate::deployment::pipeline::bytes(config.key()) == k.spec_bytes() {
                r is None
            } else {
                r matches Some(m) && m@ == "invalid api key"@
            },
            _ => r matches Some(m) && m@ == "missing api key"@,
        },
{
    let key = match header {
        Some(k) => {
            if k.is_empty() {
                return Some("missing api key");
            }
            k
        },
        None => return Some("missing api key"),
    };
    if !config.verify_key(key) {
        return Some("invalid api key");
    }
    None
}

/// The value of `Access-Control-Allow-Origin`: with no configured list of
/// origins every origin is allowed, so it echoes the request's origin, or is
/// `*` when there is none.
pub fn cors_allowed_origin(origin: Option<&str>) -> (r: String)
    ensures
        r@ == match origin {
            Some(o) => o@,
            None => "*"@,
        },
{
    match origin {
        Some(o) => o.to_owned(),
        None => "*".to_owned(),
    }
}

/// The methods a preflight allows.
pub fn cors_allowed_methods() -> (r: &'static str)
    ensures
        r@ == "GET, POST, PUT, DELETE, OPTIONS"@,
{
    "GET, POST, PUT, DELETE, OPTIONS"
}

/// The headers a preflight allows.
pub fn cors_allowed_headers() -> (r: &'static str)
    ensures
        r@ == "Content-Type, Authorization, X-API-Key"@,
{
    "Content-Type, Authorization, X-API-Key"
}

/// The headers added to every response, as name and value.
pub fn security_headers() -> (r: Vec<(&'static str, &'static str)>)
    ensures
        r@.len() == 4,
        r@[0].0@ == "x-content-type-options"@ && r@[0].1@ == "nosniff"@,
        r@[1].0@ == "x-frame-options"@ && r@[1].1@ == "DENY"@,
        r@[2].0@ == "X-XSS-Protection"@ && r@[2].1@ == "1; mode=block"@,
        r@[3].0@ == "cache-control"@ && r@[3].1@ == "no-store"@,
{
    let mut r = Vec::new();
    r.push(("x-content-type-options", "nosniff"));
    r.push(("x-frame-options", "DENY"));
    r.push(("X-XSS-Protection", "1; mode=block"));
    r.push(("cache-control", "no-store"));
    r
}

} // verus!
