use vstd::prelude::*;

use crate::user::{Timestamp, UserState};

verus! {

/// How many days a record stays fresh, by user state.
#[derive(PartialEq, Eq, Structural, Clone, Copy, Debug)]
pub struct UserFreshDuration {
    pub active: i64,
    pub abondon: i64,
    pub dropped: i64,
    pub banned: i64,
}

pub open spec fn default_fresh_duration() -> UserFreshDuration {
    UserFreshDuration { active: 1, abondon: 30, dropped: 36500, banned: 36500 }
}

/// The number of days a record in state `state` stays fresh.
pub open spec fn fresh_days(d: UserFreshDuration, state: UserState) -> i64 {
    match state {
        UserState::Active => d.active,
        UserState::Abondon => d.abondon,
        UserState::Dropped => d.dropped,
        UserState::Banned => d.banned,
    }
}

/// Whether data written at `update_at` is stale at `now` for a record in `state`.
pub open spec fn expired(d: UserFreshDuration, update_at: Timestamp, state: UserState, now: Timestamp) -> bool {
    (update_at as int) < (now as int) - (fresh_days(d, state) as int) * 86400
}

impl UserFreshDuration {
    pub fn default_active_duration() -> (r: i64)
        ensures
            r == 1,
    {
        1
    }

    pub fn default_abondon_duration() -> (r: i64)
        ensures
            r == 30,
    {
        30
    }

    pub fn default_dropped_duration() -> (r: i64)
        ensures
            r == 365 * 100,
    {
        365 * 100
    }

    pub fn default_banned_duration() -> (r: i64)
        ensures
            r == 365 * 100,
    {
        365 * 100
    }

    /// Days of freshness for a record in `state`.
    pub fn get_fresh_duration(&self, state: UserState) -> (r: i64)
        ensures
            r == fresh_days(*self, state),
    {
        match state {
            UserState::Active => self.active,
            UserState::Abondon => self.abondon,
            UserState::Dropped => self.dropped,
            UserState::Banned => self.banned,
        }
    }

    /// Whether data written at `update_at` is stale at `now`.
    pub fn is_expired(&self, update_at: Timestamp, state: UserState, now: Timestamp) -> (r: bool)
        ensures
            r == expired(*self, update_at, state, now),
    {
        let days = self.get_fresh_duration(state) as i128;
        (update_at as i128) < (now as i128) - days * 86400
    }
}

impl Default for UserFreshDuration {
    fn default() -> (r: UserFreshDuration)
        ensures
            r == default_fresh_duration(),
    {
        UserFreshDuration {
            active: UserFreshDuration::default_active_duration(),
            abondon: UserFreshDuration::default_abondon_duration(),
            dropped: UserFreshDuration::default_dropped_duration(),
            banned: UserFreshDuration::default_banned_duration(),
        }
    }
}

/// Under the default durations, a banned record is not refreshed, while an
/// active one with the same age is: for any age of more than a day and at
/// most a hundred years (of 365 days).
pub proof fn lemma_banned_is_not_refreshed(update_at: Timestamp, now: Timestamp)
    requires
        (now as int) - (update_at as int) > 86400,
        (now as int) - (update_at as int) <= 36500 * 86400,
    ensures
        !expired(default_fresh_duration(), update_at, UserState::Banned, now),
        !expired(default_fresh_duration(), update_at, UserState::Dropped, now),
        expired(default_fresh_duration(), update_at, UserState::Active, now),
{
}

} // verus!
