//! Throttling decisions over a keyed counter store with expiry.
//!
//! The store itself is outside the library: a caller reads the counter for a
//! key, asks this module whether the key is throttled or how to record one
//! more event, and carries out the returned plan against the store.
use vstd::prelude::*;

verus! {

/// Number of recorded events from which a subject is throttled.
pub const THROTTLE_LIMIT: i64 = 5;

/// Lifetime of a counter after its latest event: 24 hours.
pub const COUNTER_TTL_SECONDS: i64 = 86400;

/// A counter as read from the store, as a mathematical integer.
/// `None` stands for a missing counter and for a read that failed.
pub open spec fn count_of(read: Option<i64>) -> Option<int> {
    match read {
        Some(v) => Some(v as int),
        None => None,
    }
}

/// A subject is throttled when its counter exists and has reached the limit.
pub open spec fn throttled(count: Option<int>) -> bool {
    match count {
        Some(c) => c >= THROTTLE_LIMIT,
        None => false,
    }
}

/// The value a counter holds after one more event.
pub open spec fn count_after_event(count: Option<int>) -> int {
    match count {
        Some(c) => c + 1,
        None => 1,
    }
}

/// The counter after `n` events recorded on a fresh key, none of them expired.
pub open spec fn count_after_events(n: nat) -> Option<int>
    decreases n,
{
    if n == 0 {
        None
    } else {
        Some(count_after_event(count_after_events((n - 1) as nat)))
    }
}

/// The write that records an event.
#[derive(PartialEq, Eq, Structural, Clone, Copy, Debug)]
pub enum CounterWrite {
    /// Store the value 1 under the key.
    Create,
    /// Add 1 to the value under the key.
    Increment,
}

/// What to do to the store to record one event: a write, then setting the
/// key's time to live.
#[derive(PartialEq, Eq, Structural, Clone, Copy, Debug)]
pub struct CounterPlan {
    pub write: CounterWrite,
    pub ttl_seconds: i64,
}

impl CounterPlan {
    /// The value the store holds under the key once the plan is carried out.
    /// Incrementing a missing key starts it from zero.
    pub open spec fn apply(self, count: Option<int>) -> int {
        match self.write {
            CounterWrite::Create => 1,
            CounterWrite::Increment => match count {
                Some(c) => c + 1,
                None => 1,
            },
        }
    }

    /// The value the store holds under the key once the plan is carried out,
    /// or `None` where that value does not fit an `i64`.
    pub fn resulting_count(&self, read: Option<i64>) -> (r: Option<i64>)
        ensures
            match r {
                Some(v) => v as int == self.apply(count_of(read)),
                None => self.apply(count_of(read)) > i64::MAX,
            },
            self.apply(count_of(read)) <= i64::MAX ==> r is Some,
    {
        match self.write {
            CounterWrite::Create => Some(1),
            CounterWrite::Increment => match read {
                Some(v) => v.checked_add(1),
                None => Some(1),
            },
        }
    }
}

/// The plan that records an event on a counter that reads `read`.
pub open spec fn event_plan(read: Option<i64>) -> CounterPlan {
    CounterPlan {
        write: if read is Some {
            CounterWrite::Increment
        } else {
            CounterWrite::Create
        },
        ttl_seconds: COUNTER_TTL_SECONDS,
    }
}

/// Whether a subject whose counter reads `read` is throttled. A missing or
/// unreadable counter never throttles.
pub fn is_throttled(read: Option<i64>) -> (r: bool)
    ensures
        r == throttled(count_of(read)),
{
    match read {
        Some(c) => c >= THROTTLE_LIMIT,
        None => false,
    }
}

/// How to record one more event on a counter that reads `read`: create it
/// with value 1 when it is missing, increment it otherwise, and in both cases
/// push its expiry a full lifetime forward.
pub fn record_event(read: Option<i64>) -> (r: CounterPlan)
    ensures
        r == event_plan(read),
        r.ttl_seconds == COUNTER_TTL_SECONDS,
        r.apply(count_of(read)) == count_after_event(count_of(read)),
{
    let write = match read {
        Some(_) => CounterWrite::Increment,
        None => CounterWrite::Create,
    };
    CounterPlan { write, ttl_seconds: COUNTER_TTL_SECONDS }
}

/// After `n` events on a fresh key the counter holds `n` (nothing for `n == 0`).
pub proof fn lemma_count_after_events(n: nat)
    ensures
        count_after_events(n) == (if n == 0 {
            None
        } else {
            Some(n as int)
        }),
    decreases n,
{
    if n > 0 {
        lemma_count_after_events((n - 1) as nat);
    }
}

/// A key on which exactly `n` events were recorded, none expired, is
/// throttled if and only if `n` is at least five.
pub proof fn lemma_throttled_iff_five_events(n: nat)
    ensures
        throttled(count_after_events(n)) <==> n >= 5,
{
    lemma_count_after_events(n);
}

/// Recording an event and then checking the key sees the count raised by
/// exactly one over what was read before: no event is lost between two
/// sequential calls on one key. The raised count fits the store's integers
/// whenever the count read was below the largest one.
pub proof fn lemma_record_then_check(read: Option<i64>)
    requires
        read is Some ==> read.unwrap() < i64::MAX,
    ensures
        event_plan(read).apply(count_of(read)) == (match read {
            Some(c) => c as int + 1,
            None => 1,
        }),
        event_plan(read).apply(count_of(read)) <= i64::MAX,
        throttled(Some(event_plan(read).apply(count_of(read)))) <==> (match read {
            Some(c) => c as int + 1 >= THROTTLE_LIMIT,
            None => 1 >= THROTTLE_LIMIT,
        }),
{
}

/// Every recorded event sets the key's time to live to the full lifetime,
/// which is at least whatever time the counter had left.
pub proof fn lemma_event_refreshes_ttl(read: Option<i64>, remaining: int)
    requires
        0 <= remaining <= COUNTER_TTL_SECONDS,
    ensures
        event_plan(read).ttl_seconds == COUNTER_TTL_SECONDS,
        event_plan(read).ttl_seconds >= remaining,
{
}

} // verus!
