use vstd::prelude::*;

use crate::fresh::{expired, UserFreshDuration};
use crate::store::{is_keyed, uid_index_from, UserRecord, UserTable};
use crate::timeline::NameWalk;
use crate::uid::{Uid, UidKey};
use crate::user::{InitUser, Timestamp};

verus! {

/// The identity a walk uses: the slug when it is known (slugs stay with a
/// person, numeric ids may not), else the numeric id.
pub open spec fn canonical_key(u: UserRecord) -> UidKey {
    match u.sid {
        Some(s) => UidKey::Sid(s@),
        None => UidKey::Nid(u.nid->Some_0),
    }
}

/// Whether the name history of `u` is missing or stale at `now`.
pub open spec fn names_stale(d: UserFreshDuration, u: UserRecord, now: Timestamp) -> bool {
    match u.extra.name_history {
        Some(h) => expired(d, h.update_at, u.state, now),
        None => true,
    }
}

/// Whether the profile of `u` is stale at `now`.
pub fn profile_is_stale(fresh: &UserFreshDuration, u: &UserRecord, now: Timestamp) -> (r: bool)
    ensures
        r == expired(*fresh, u.update_at, u.state, now),
{
    fresh.is_expired(u.update_at, u.state, now)
}

/// Whether the name history of `u` is missing or stale at `now`.
pub fn name_history_is_stale(fresh: &UserFreshDuration, u: &UserRecord, now: Timestamp) -> (r: bool)
    ensures
        r == names_stale(*fresh, *u, now),
{
    match &u.extra.name_history {
        Some(h) => fresh.is_expired(h.update_at, u.state, now),
        None => true,
    }
}

/// The identity under which the timeline of `u` is walked.
pub fn canonical_uid(u: &UserRecord) -> (r: Uid)
    requires
        is_keyed(*u),
    ensures
        r@ == canonical_key(*u),
{
    match &u.sid {
        Some(s) => Uid::Sid(s.clone()),
        None => match u.nid {
            Some(n) => Uid::Nid(n),
            None => Uid::Nid(0),
        },
    }
}

/// The timeline walk that refreshes the name history of `u`, when it is
/// missing or stale: it starts from the canonical identity and stops at the
/// checkpoint reached before (at the start of time when there is none).
pub fn name_walk_for(fresh: &UserFreshDuration, u: &UserRecord, now: Timestamp) -> (r: Option<NameWalk>)
    requires
        is_keyed(*u),
    ensures
        r is Some <==> names_stale(*fresh, *u, now),
        r matches Some(w) ==> {
            &&& w.uid@ == canonical_key(*u)
            &&& w.page == 1
            &&& w.stop_at == match u.extra.name_history {
                Some(h) => h.key_point,
                None => i64::MIN,
            }
            &&& w.names@ == Set::<Seq<char>>::empty()
            &&& w.key_point is None
        },
{
    let stop_at = match &u.extra.name_history {
        Some(h) => {
            if !fresh.is_expired(h.update_at, u.state, now) {
                return None;
            }
            h.key_point
        },
        None => i64::MIN,
    };
    Some(NameWalk::new(canonical_uid(u), stop_at))
}

/// What a read of one identity does.
#[derive(PartialEq, Eq, Structural, Clone, Copy, Debug)]
pub enum ReadPlan {
    /// Nothing is stored under the identity: fetch the profile first, and fail
    /// the read when that fails.
    FirstFetch,
    /// Serve the record at `index` at once; start the background refreshes
    /// that are due.
    Serve { index: usize, refresh_profile: bool, refresh_names: bool },
}

/// Decides how a read of `uid` at `now` is served.
pub fn plan_read(fresh: &UserFreshDuration, table: &UserTable, uid: &Uid, now: Timestamp) -> (r: ReadPlan)
    ensures
        ({
            let i = uid_index_from(table@, uid@, 0);
            if i < 0 {
                r == ReadPlan::FirstFetch
            } else {
                r == ReadPlan::Serve {
                    index: i as usize,
                    refresh_profile: expired(*fresh, table@[i].update_at, table@[i].state, now),
                    refresh_names: names_stale(*fresh, table@[i], now),
                }
            }
        }),
{
    match table.position(uid) {
        None => ReadPlan::FirstFetch,
        Some(i) => {
            let u = table.get(i);
            ReadPlan::Serve {
                index: i,
                refresh_profile: profile_is_stale(fresh, u, now),
                refresh_names: name_history_is_stale(fresh, u, now),
            }
        },
    }
}

/// The profile a first fetch of `uid` starts from: the default profile with
/// the requested identity set.
pub fn fetch_init(uid: Uid) -> (r: InitUser)
    ensures
        match uid@ {
            UidKey::Nid(n) => r.nid == Some(n) && r.sid is None,
            UidKey::Sid(s) => r.sid matches Some(t) && t@ == s && r.nid is None,
        },
        r.name@ == Seq::<char>::empty(),
        r.join_time is None,
        r.last_active is None,
        r.collections is None,
        r.names_update is None,
{
    let mut init = InitUser::default();
    init.update_uid(uid);
    init
}

} // verus!
