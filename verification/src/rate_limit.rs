//! Per-source failure accounting with a windowed lockout.
//!
//! Every rule here is a function of `now`, a reading of a monotonic clock in
//! milliseconds. A source that has never been seen behaves like a fresh entry.

use std::collections::HashMap;
use vstd::prelude::*;

verus! {

broadcast use vstd::std_specs::hash::group_hash_axioms;

/// Failures within one window after which a source is locked out.
pub const RL_MAX_ATTEMPTS: u32 = 5;

/// Length of the rolling window, in milliseconds.
pub const RL_WINDOW_MS: u64 = 30_000;

/// Length of a lockout, in milliseconds.
pub const RL_LOCKOUT_MS: u64 = 30_000;

/// The address of a source: an IPv4 address as 32 bits, or an IPv6 address
/// as 128 bits.
#[derive(Debug, Clone, Copy, PartialEq, Eq)]
pub enum SourceAddr {
    V4(u32),
    V6(u128),
}

/// Milliseconds that passed from `start` to `now`; zero when `now` is earlier.
pub open spec fn elapsed_since(start: u64, now: u64) -> int {
    if now >= start {
        now - start
    } else {
        0
    }
}

/// Failure account of one source.
///
/// A lockout is stored by the instant at which it began; it ends
/// `RL_LOCKOUT_MS` later, so its end never has to fit a machine integer.
#[derive(Debug, Clone, Copy, PartialEq, Eq)]
pub struct RateLimitEntry {
    pub window_start: u64,
    pub attempts: u32,
    pub locked_at: Option<u64>,
}

/// Answer of the limiter for one source at one instant.
#[derive(Debug, Clone, Copy, PartialEq, Eq)]
pub enum RateCheck {
    Allowed,
    /// Locked, with the whole seconds that remain.
    Locked(u64),
}

impl RateLimitEntry {
    /// The account of a source first seen at `now`.
    pub open spec fn fresh(now: u64) -> Self {
        RateLimitEntry { window_start: now, attempts: 0, locked_at: None }
    }

    /// The instant at which the lockout ends, if one was ever set.
    pub open spec fn lockout_until(self) -> Option<int> {
        match self.locked_at {
            Some(at) => Some(at + RL_LOCKOUT_MS),
            None => None,
        }
    }

    /// Whether the source is locked out at `now`.
    pub open spec fn locked(self, now: u64) -> bool {
        match self.lockout_until() {
            Some(until) => now < until,
            None => false,
        }
    }

    /// Whole seconds of lockout that remain at `now`; zero when not locked.
    pub open spec fn remaining(self, now: u64) -> int {
        match self.lockout_until() {
            Some(until) => if now < until {
                (until - now) / 1000
            } else {
                0
            },
            None => 0,
        }
    }

    /// What the limiter answers for this account at `now`.
    pub open spec fn check(self, now: u64) -> RateCheck {
        if self.locked(now) {
            RateCheck::Locked(self.remaining(now) as u64)
        } else {
            RateCheck::Allowed
        }
    }

    /// The account after a failure at `now`: a window that has run out is
    /// restarted first, then the failure is counted, and the fifth failure
    /// of a window starts a lockout. The count stops at `u32::MAX`.
    pub open spec fn after_failure(self, now: u64) -> Self {
        let expired = elapsed_since(self.window_start, now) > RL_WINDOW_MS;
        let start = if expired {
            now
        } else {
            self.window_start
        };
        let counted = if expired {
            0u32
        } else {
            self.attempts
        };
        let attempts = if counted < u32::MAX {
            (counted + 1) as u32
        } else {
            counted
        };
        RateLimitEntry {
            window_start: start,
            attempts,
            locked_at: if attempts >= RL_MAX_ATTEMPTS {
                Some(now)
            } else {
                self.locked_at
            },
        }
    }

    /// The account after a success at `now`.
    pub open spec fn after_success(self, now: u64) -> Self {
        RateLimitEntry::fresh(now)
    }

    /// The account after the failures at `times`, in order.
    pub open spec fn after_failures(self, times: Seq<u64>) -> Self
        decreases times.len(),
    {
        if times.len() == 0 {
            self
        } else {
            self.after_failures(times.drop_last()).after_failure(times.last())
        }
    }

    /// The account of a source first seen at `now`.
    pub fn new(now: u64) -> (entry: Self)
        ensures
            entry == RateLimitEntry::fresh(now),
    {
        RateLimitEntry { window_start: now, attempts: 0, locked_at: None }
    }

    /// Whether the source is locked out at `now`.
    pub fn is_locked(&self, now: u64) -> (locked: bool)
        ensures
            locked == self.locked(now),
    {
        match self.locked_at {
            Some(at) => now < at || now - at < RL_LOCKOUT_MS,
            None => false,
        }
    }

    /// Whole seconds of lockout that remain at `now`; zero when not locked.
    pub fn remaining_lockout_secs(&self, now: u64) -> (secs: u64)
        ensures
            secs == self.remaining(now),
    {
        match self.locked_at {
            Some(at) => {
                if now >= at {
                    let gone: u64 = now - at;
                    if gone >= RL_LOCKOUT_MS {
                        0
                    } else {
                        (RL_LOCKOUT_MS - gone) / 1000
                    }
                } else {
                    let ahead: u128 = (at - now) as u128 + RL_LOCKOUT_MS as u128;
                    (ahead / 1000) as u64
                }
            },
            None => 0,
        }
    }

    /// Counts a failure at `now`.
    pub fn register_failure(&mut self, now: u64)
        ensures
            *final(self) == old(self).after_failure(now),
    {
        if now >= self.window_start && now - self.window_start > RL_WINDOW_MS {
            self.window_start = now;
            self.attempts = 0;
        }
        if self.attempts < u32::MAX {
            self.attempts = self.attempts + 1;
        }
        if self.attempts >= RL_MAX_ATTEMPTS {
            self.locked_at = Some(now);
        }
    }

    /// Counts a success at `now`: the account starts over.
    pub fn register_success(&mut self, now: u64)
        ensures
            *final(self) == old(self).after_success(now),
    {
        self.window_start = now;
        self.attempts = 0;
        self.locked_at = None;
    }
}

/// The failure accounts of all sources.
pub struct RateLimiter {
    v4: HashMap<u32, RateLimitEntry>,
    v6: HashMap<u128, RateLimitEntry>,
}

/// The account that `accounts` holds for `source`, or a fresh one.
pub open spec fn account_of(
    accounts: Map<SourceAddr, RateLimitEntry>,
    source: SourceAddr,
    now: u64,
) -> RateLimitEntry {
    if accounts.contains_key(source) {
        accounts[source]
    } else {
        RateLimitEntry::fresh(now)
    }
}

impl View for RateLimiter {
    type V = Map<SourceAddr, RateLimitEntry>;

    closed spec fn view(&self) -> Map<SourceAddr, RateLimitEntry> {
        Map::new(
            |source: SourceAddr|
                match source {
                    SourceAddr::V4(address) => self.v4@.contains_key(address),
                    SourceAddr::V6(address) => self.v6@.contains_key(address),
                },
            |source: SourceAddr|
                match source {
                    SourceAddr::V4(address) => self.v4@[address],
                    SourceAddr::V6(address) => self.v6@[address],
                },
        )
    }
}

impl RateLimiter {
    /// A limiter that has seen no source.
    pub fn new() -> (limiter: Self)
        ensures
            limiter@ == Map::<SourceAddr, RateLimitEntry>::empty(),
    {
        let limiter = RateLimiter { v4: HashMap::new(), v6: HashMap::new() };
        assert(limiter@ =~= Map::<SourceAddr, RateLimitEntry>::empty());
        limiter
    }

    /// The account that is held for `source`, if there is one.
    fn held(&self, source: SourceAddr) -> (found: Option<RateLimitEntry>)
        ensures
            found == if self@.contains_key(source) {
                Some(self@[source])
            } else {
                None
            },
    {
        let found = match source {
            SourceAddr::V4(address) => self.v4.get(&address),
            SourceAddr::V6(address) => self.v6.get(&address),
        };
        match found {
            Some(entry) => Some(*entry),
            None => None,
        }
    }

    /// Puts `entry` in place as the account of `source`.
    fn keep(&mut self, source: SourceAddr, entry: RateLimitEntry)
        ensures
            final(self)@ == old(self)@.insert(source, entry),
    {
        match source {
            SourceAddr::V4(address) => {
                self.v4.insert(address, entry);
            },
            SourceAddr::V6(address) => {
                self.v6.insert(address, entry);
            },
        }
        assert(self@ =~= old(self)@.insert(source, entry));
    }

    /// Whether `source` may try now. The accounts are left as they are.
    pub fn check(&self, source: SourceAddr, now: u64) -> (answer: RateCheck)
        ensures
            answer == account_of(self@, source, now).check(now),
    {
        match self.held(source) {
            Some(entry) => {
                if entry.is_locked(now) {
                    RateCheck::Locked(entry.remaining_lockout_secs(now))
                } else {
                    RateCheck::Allowed
                }
            },
            None => RateCheck::Allowed,
        }
    }

    /// Counts a failure of `source` at `now`.
    pub fn record_failure(&mut self, source: SourceAddr, now: u64)
        ensures
            final(self)@ == old(self)@.insert(
                source,
                account_of(old(self)@, source, now).after_failure(now),
            ),
    {
        let mut entry = match self.held(source) {
            Some(held) => held,
            None => RateLimitEntry::new(now),
        };
        entry.register_failure(now);
        self.keep(source, entry);
    }

    /// Counts a success of `source` at `now`: its account starts over.
    pub fn record_success(&mut self, source: SourceAddr, now: u64)
        ensures
            final(self)@ == old(self)@.insert(
                source,
                account_of(old(self)@, source, now).after_success(now),
            ),
    {
        let mut entry = match self.held(source) {
            Some(held) => held,
            None => RateLimitEntry::new(now),
        };
        entry.register_success(now);
        self.keep(source, entry);
    }
}

/// Within one window the fifth failure locks the source: when an account
/// without counted failures meets five or more failures, none of which finds
/// the window run out, it is locked at the instant of the last of them, for
/// the full lockout.
pub proof fn law_fifth_failure_locks(entry: RateLimitEntry, times: Seq<u64>)
    requires
        entry.attempts == 0,
        times.len() >= RL_MAX_ATTEMPTS,
        forall|i: int|
            0 <= i < times.len() ==> elapsed_since(entry.window_start, #[trigger] times[i])
                <= RL_WINDOW_MS,
    ensures
        entry.after_failures(times).locked(times.last()),
        entry.after_failures(times).check(times.last()) == RateCheck::Locked(
            (RL_LOCKOUT_MS / 1000) as u64,
        ),
{
    lemma_failures_in_window(entry, times);
}

/// Fewer than five failures within one window do not lock a source that
/// was not locked before.
pub proof fn law_fewer_failures_do_not_lock(entry: RateLimitEntry, times: Seq<u64>, now: u64)
    requires
        entry.attempts == 0,
        entry.locked_at is None,
        times.len() < RL_MAX_ATTEMPTS,
        forall|i: int|
            0 <= i < times.len() ==> elapsed_since(entry.window_start, #[trigger] times[i])
                <= RL_WINDOW_MS,
    ensures
        !entry.after_failures(times).locked(now),
        entry.after_failures(times).check(now) == RateCheck::Allowed,
{
    lemma_failures_in_window(entry, times);
}

/// A success resets the account, whatever came before it: no failures are
/// counted and the source is allowed at every instant.
pub proof fn law_success_resets(entry: RateLimitEntry, at: u64, now: u64)
    ensures
        entry.after_success(at).attempts == 0,
        !entry.after_success(at).locked(now),
        entry.after_success(at).check(now) == RateCheck::Allowed,
{
}

/// A lockout is a cooldown: it holds until thirty seconds after it began
/// and at no instant from then on.
pub proof fn law_lockout_ends(entry: RateLimitEntry, began: u64, now: u64)
    requires
        entry.locked_at == Some(began),
    ensures
        entry.locked(now) <==> now < began + RL_LOCKOUT_MS,
        now >= began + RL_LOCKOUT_MS ==> entry.check(now) == RateCheck::Allowed,
{
}

/// What happens to one source leaves the account of every other source as
/// it was.
pub proof fn law_sources_are_isolated(
    accounts: Map<SourceAddr, RateLimitEntry>,
    source: SourceAddr,
    other: SourceAddr,
    at: u64,
    now: u64,
)
    requires
        source != other,
    ensures
        account_of(
            accounts.insert(source, account_of(accounts, source, at).after_failure(at)),
            other,
            now,
        ) == account_of(accounts, other, now),
        account_of(
            accounts.insert(source, account_of(accounts, source, at).after_success(at)),
            other,
            now,
        ) == account_of(accounts, other, now),
{
}

proof fn lemma_failures_in_window(entry: RateLimitEntry, times: Seq<u64>)
    requires
        entry.attempts == 0,
        forall|i: int|
            0 <= i < times.len() ==> elapsed_since(entry.window_start, #[trigger] times[i])
                <= RL_WINDOW_MS,
    ensures
        entry.after_failures(times).window_start == entry.window_start,
        entry.after_failures(times).attempts == if times.len() < u32::MAX {
            times.len()
        } else {
            u32::MAX as nat
        },
        times.len() >= RL_MAX_ATTEMPTS ==> entry.after_failures(times).locked_at == Some(
            times.last(),
        ),
        times.len() < RL_MAX_ATTEMPTS ==> entry.after_failures(times).locked_at
            == entry.locked_at,
    decreases times.len(),
{
    if times.len() > 0 {
        let before = times.drop_last();
        lemma_failures_in_window(entry, before);
    }
}

} // verus!
