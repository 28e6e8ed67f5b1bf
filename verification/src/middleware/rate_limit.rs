//! A per-client limit on the rate of requests.
//!
//! Each client has a counter of the requests in its current window. The
//! window is reset when the client has been silent for more than a minute.
//! A request passes while the counter is below the limit per minute, and the
//! first few requests of a window pass in any case. Instants are milliseconds
//! on a clock that does not run backwards.

use std::collections::HashMap;
use vstd::prelude::*;
use vstd::std_specs::hash::*;
use vstd::std_specs::iter::IteratorSpec;
use vstd::string::*;

verus! {

broadcast use vstd::std_specs::hash::group_hash_axioms;

/// Milliseconds of silence after which a client's window starts anew.
pub const WINDOW: i64 = 60_000;

/// The limits.
#[derive(Clone, Copy, Debug, PartialEq, Eq, Structural)]
pub struct RateLimiterConfig {
    pub requests_per_minute: usize,
    pub burst_size: usize,
}

impl Default for RateLimiterConfig {
    /// Sixty requests per minute, with a burst of five.
    fn default() -> (config: Self)
        ensures
            config.requests_per_minute == 60,
            config.burst_size == 5,
    {
        RateLimiterConfig { requests_per_minute: 60, burst_size: 5 }
    }
}

/// What is remembered of one client.
#[derive(Clone, Copy, Debug, PartialEq, Eq, Structural)]
pub struct ClientTracker {
    pub last_request: i64,
    pub requests_in_window: usize,
}

/// The counter a request at `now` finds: zero for a new client and for one
/// whose window has run out.
pub open spec fn counted_before(tracker: Option<ClientTracker>, now: i64) -> usize {
    match tracker {
        Some(t) => if now - t.last_request > WINDOW {
            0
        } else {
            t.requests_in_window
        },
        None => 0,
    }
}

/// The counter with one more request, never beyond the largest number.
pub open spec fn counted_after(before: usize) -> usize {
    if before == usize::MAX {
        before
    } else {
        (before + 1) as usize
    }
}

/// What a request at `now` leaves of the client's tracker, and whether it
/// passes.
pub open spec fn admitted(tracker: Option<ClientTracker>, config: RateLimiterConfig, now: i64) -> (
    ClientTracker,
    bool,
) {
    let before = counted_before(tracker, now);
    let after = counted_after(before);
    (
        ClientTracker { last_request: now, requests_in_window: after },
        before < config.requests_per_minute || after <= config.burst_size,
    )
}

/// Counts a request at `now` against a client's tracker and decides whether
/// it passes.
pub fn decide(tracker: Option<ClientTracker>, config: &RateLimiterConfig, now: i64) -> (out: (
    ClientTracker,
    bool,
))
    ensures
        out == admitted(tracker, *config, now),
{
    let before: usize = match tracker {
        Some(t) => if now as i128 - t.last_request as i128 > WINDOW as i128 {
            0
        } else {
            t.requests_in_window
        },
        None => 0,
    };
    let after: usize = if before == usize::MAX {
        before
    } else {
        before + 1
    };
    (
        ClientTracker { last_request: now, requests_in_window: after },
        before < config.requests_per_minute || after <= config.burst_size,
    )
}

/// A tracker is stale at `now` when its client has been silent for a minute
/// or more.
pub open spec fn stale(tracker: ClientTracker, now: i64) -> bool {
    now - tracker.last_request >= WINDOW
}

/// What is kept of a tracker when stale ones are forgotten at `now`.
pub open spec fn fresh_only(tracker: Option<ClientTracker>, now: i64) -> Option<ClientTracker> {
    match tracker {
        Some(t) => if stale(t, now) {
            None
        } else {
            Some(t)
        },
        None => None,
    }
}

/// The limiter: the limits and what is remembered of each client. A client
/// is known by the number of its address.
pub struct RateLimiter {
    config: RateLimiterConfig,
    clients: HashMap<u128, ClientTracker>,
}

impl View for RateLimiter {
    type V = Map<u128, ClientTracker>;

    /// What is remembered, by the number of the client's address.
    closed spec fn view(&self) -> Map<u128, ClientTracker> {
        self.clients@
    }
}

impl RateLimiter {
    /// The limits in force.
    pub closed spec fn limits(&self) -> RateLimiterConfig {
        self.config
    }

    /// What is remembered of the client at `address`, if anything.
    pub open spec fn tracker(&self, address: u128) -> Option<ClientTracker> {
        if self@.contains_key(address) {
            Some(self@[address])
        } else {
            None
        }
    }

    /// A limiter that remembers nobody.
    pub fn new(config: RateLimiterConfig) -> (limiter: Self)
        ensures
            limiter.limits() == config,
            limiter@ == Map::<u128, ClientTracker>::empty(),
    {
        RateLimiter { config, clients: HashMap::new() }
    }

    /// Number of clients remembered.
    pub fn len(&self) -> (n: usize)
        ensures
            n == self@.dom().len(),
    {
        self.clients.len()
    }

    /// Counts a request from `address` at `now` and decides whether it
    /// passes. Only that client's tracker changes.
    pub fn check(&mut self, address: u128, now: i64) -> (passes: bool)
        ensures
            final(self).limits() == old(self).limits(),
            passes == admitted(old(self).tracker(address), old(self).limits(), now).1,
            final(self)@ == old(self)@.insert(
                address,
                admitted(old(self).tracker(address), old(self).limits(), now).0,
            ),
    {
        let held: Option<ClientTracker> = match self.clients.get(&address) {
            Some(tracker) => Some(*tracker),
            None => None,
        };
        let (tracker, passes) = decide(held, &self.config, now);
        self.clients.insert(address, tracker);
        passes
    }

    /// Forgets every client that has been silent for a minute or more at
    /// `now`, and nobody else.
    pub fn cleanup(&mut self, now: i64)
        ensures
            final(self).limits() == old(self).limits(),
            forall|address: u128|
                #[trigger] final(self).tracker(address) == fresh_only(
                    old(self).tracker(address),
                    now,
                ),
    {
        let ghost before = self.clients@;
        let ghost all = spec_keys_iter(&self.clients).remaining().unref();
        let mut keys: Vec<u128> = Vec::new();
        proof {
            axiom_spec_keys_iter(&self.clients);
        }
        for key in it: self.clients.keys()
            invariant
                it.seq().unref() == all,
                keys@ == all.subrange(0, it.index() as int),
        {
            keys.push(*key);
            assert(keys@ =~= all.subrange(0, it.index() + 1));
        }
        assert(keys@ =~= all);
        let mut i: usize = 0;
        while i < keys.len()
            invariant
                i <= keys@.len(),
                keys@.to_set() == before.dom(),
                self.config == old(self).config,
                forall|k: u128| #[trigger]
                    self.clients@.contains_key(k) ==> before.contains_key(k) && self.clients@[k]
                        == before[k],
                forall|k: u128| #[trigger]
                    before.contains_key(k) && !stale(before[k], now)
                        ==> self.clients@.contains_key(k),
                forall|j: int|
                    0 <= j < i && stale(before[#[trigger] keys@[j]], now)
                        ==> !self.clients@.contains_key(keys@[j]),
            decreases keys@.len() - i,
        {
            let key = keys[i];
            proof {
                assert(keys@.to_set().contains(keys@[i as int]));
            }
            let gone = match self.clients.get(&key) {
                Some(tracker) => now as i128 - tracker.last_request as i128 >= WINDOW as i128,
                None => false,
            };
            if gone {
                self.clients.remove(&key);
            }
            i += 1;
        }
        proof {
            assert forall|address: u128| #[trigger]
                self.tracker(address) == fresh_only(old(self).tracker(address), now) by {
                if before.contains_key(address) {
                    assert(keys@.to_set().contains(address));
                    let j = choose|j: int| 0 <= j < keys@.len() && keys@[j] == address;
                    assert(keys@[j] == address);
                }
            }
        }
    }
}

} // verus!
