use vstd::prelude::*;

use crate::timeline::WalkError;
use crate::uid::{Uid, UidKey};
use crate::user::{is_merged_history, Extra, InitUser, NameHistory, NamesUpdate, Timestamp, UserState};

verus! {

/// A stored user.
pub struct UserRecord {
    /// Internal id, made once when the record is created.
    pub id: u128,
    pub nid: Option<i32>,
    pub sid: Option<String>,
    pub name: String,
    pub state: UserState,
    pub join_time: Option<Timestamp>,
    pub last_active: Option<Timestamp>,
    /// When the profile was last read in full.
    pub update_at: Timestamp,
    pub extra: Extra,
}

pub open spec fn sid_key(s: Option<String>) -> Option<Seq<char>> {
    match s {
        Some(x) => Some(x@),
        None => None,
    }
}

/// Whether a record has at least one of its two keys.
pub open spec fn is_keyed(r: UserRecord) -> bool {
    r.nid is Some || r.sid is Some
}

/// Whether a record is found under an identity.
pub open spec fn matches_uid(r: UserRecord, k: UidKey) -> bool {
    match k {
        UidKey::Nid(n) => r.nid == Some(n),
        UidKey::Sid(s) => sid_key(r.sid) == Some(s),
    }
}

/// Whether a record shares a key with a freshly read profile.
pub open spec fn matches_init(r: UserRecord, init: InitUser) -> bool {
    (init.nid is Some && r.nid == init.nid) || (init.sid is Some && sid_key(r.sid) == sid_key(init.sid))
}

/// The first index from `i` on whose record is found under `k`, or -1.
pub open spec fn uid_index_from(rows: Seq<UserRecord>, k: UidKey, i: int) -> int
    decreases rows.len() - i,
{
    if i >= rows.len() || i < 0 {
        -1
    } else if matches_uid(rows[i], k) {
        i
    } else {
        uid_index_from(rows, k, i + 1)
    }
}

/// The first index from `i` on whose record shares a key with `init`, or -1.
pub open spec fn init_index_from(rows: Seq<UserRecord>, init: InitUser, i: int) -> int
    decreases rows.len() - i,
{
    if i >= rows.len() || i < 0 {
        -1
    } else if matches_init(rows[i], init) {
        i
    } else {
        init_index_from(rows, init, i + 1)
    }
}

/// Whether `r` is `existing` after taking in the profile `init` at `now`: keys
/// that `init` has are set, name, state and last activity are replaced, and
/// the parts of `extra` that `init` has are merged in.
pub open spec fn is_updated_record(r: UserRecord, existing: UserRecord, init: InitUser, now: Timestamp) -> bool {
    &&& r.id == existing.id
    &&& r.nid == (if init.nid is Some { init.nid } else { existing.nid })
    &&& r.sid == (if init.sid is Some { init.sid } else { existing.sid })
    &&& r.name == init.name
    &&& r.state == init.state
    &&& r.join_time == existing.join_time
    &&& r.last_active == init.last_active
    &&& r.update_at == now
    &&& r.extra.collections == (if init.collections is Some {
        init.collections
    } else {
        existing.extra.collections
    })
    &&& match init.names_update {
        Some(u) => is_merged_history(
            r.extra.name_history,
            existing.extra.name_history,
            u.key_point,
            u.names@,
            now,
        ),
        None => r.extra.name_history == existing.extra.name_history,
    }
}

/// Whether `r` is the record made from the profile `init` under id `id` at `now`.
pub open spec fn is_new_record(r: UserRecord, init: InitUser, id: u128, now: Timestamp) -> bool {
    &&& r.id == id
    &&& r.nid == init.nid
    &&& r.sid == init.sid
    &&& r.name == init.name
    &&& r.state == init.state
    &&& r.join_time == init.join_time
    &&& r.last_active == init.last_active
    &&& r.update_at == now
    &&& r.extra.collections == init.collections
    &&& match init.names_update {
        Some(u) => r.extra.name_history matches Some(h) && h.update_at == now && h.key_point
            == u.key_point && h.names == u.names,
        None => r.extra.name_history is None,
    }
}

/// Merges a freshly read profile into the record it was matched with.
pub fn update_user(init: InitUser, existing: UserRecord, now: Timestamp) -> (r: UserRecord)
    ensures
        is_updated_record(r, existing, init, now),
{
    let mut r = existing;
    if let Some(nid) = init.nid {
        r.nid = Some(nid);
    }
    if let Some(sid) = init.sid {
        r.sid = Some(sid);
    }
    r.name = init.name;
    r.state = init.state;
    r.last_active = init.last_active;
    r.extra.update_collections_opt(init.collections);
    r.extra.update_name_history_opt(init.names_update, now);
    r.update_at = now;
    r
}

/// The record made from a freshly read profile.
pub fn insert_user(init: InitUser, id: u128, now: Timestamp) -> (r: UserRecord)
    ensures
        is_new_record(r, init, id, now),
{
    let name_history = match init.names_update {
        Some(u) => Some(NameHistory { update_at: now, key_point: u.key_point, names: u.names }),
        None => None,
    };
    UserRecord {
        id,
        nid: init.nid,
        sid: init.sid,
        name: init.name,
        state: init.state,
        join_time: init.join_time,
        last_active: init.last_active,
        update_at: now,
        extra: Extra { name_history, collections: init.collections },
    }
}

/// Why a store operation did nothing.
#[derive(PartialEq, Eq, Structural, Clone, Copy, Debug)]
pub enum StoreError {
    /// The profile has neither a numeric id nor a slug.
    MissingKey,
    /// No record is found under the identity.
    NotFound,
    /// The timeline walk failed; the record is left as it was.
    Walk(WalkError),
}

/// Whether `after` and `r` are what upserting `init` (new id `id`, at `now`) into `before` gives.
pub open spec fn upserted(
    before: Seq<UserRecord>,
    after: Seq<UserRecord>,
    init: InitUser,
    id: u128,
    now: Timestamp,
    r: Result<usize, StoreError>,
) -> bool {
    let i = init_index_from(before, init, 0);
    if init.nid is None && init.sid is None {
        r == Err::<usize, StoreError>(StoreError::MissingKey) && after == before
    } else if i >= 0 {
        &&& r == Ok::<usize, StoreError>(i as usize)
        &&& after.len() == before.len()
        &&& forall|j: int| 0 <= j < before.len() && j != i ==> after[j] == before[j]
        &&& is_updated_record(after[i], before[i], init, now)
    } else {
        &&& r == Ok::<usize, StoreError>(before.len() as usize)
        &&& after.len() == before.len() + 1
        &&& forall|j: int| 0 <= j < before.len() ==> after[j] == before[j]
        &&& is_new_record(after[before.len() as int], init, id, now)
    }
}

/// The stored users, each with a numeric id or a slug; lookups take either.
pub struct UserTable {
    rows: Vec<UserRecord>,
}

impl View for UserTable {
    type V = Seq<UserRecord>;

    closed spec fn view(&self) -> Seq<UserRecord> {
        self.rows@
    }
}

proof fn lemma_uid_index_bounds(rows: Seq<UserRecord>, k: UidKey, i: int)
    requires
        0 <= i,
    ensures
        uid_index_from(rows, k, i) == -1 || (i <= uid_index_from(rows, k, i) < rows.len()
            && matches_uid(rows[uid_index_from(rows, k, i)], k)),
    decreases rows.len() - i,
{
    if i < rows.len() && !matches_uid(rows[i], k) {
        lemma_uid_index_bounds(rows, k, i + 1);
    }
}

proof fn lemma_init_index_bounds(rows: Seq<UserRecord>, init: InitUser, i: int)
    requires
        0 <= i,
    ensures
        init_index_from(rows, init, i) == -1 || (i <= init_index_from(rows, init, i) < rows.len()
            && matches_init(rows[init_index_from(rows, init, i)], init)),
    decreases rows.len() - i,
{
    if i < rows.len() && !matches_init(rows[i], init) {
        lemma_init_index_bounds(rows, init, i + 1);
    }
}

fn same_sid(a: &Option<String>, b: &Option<String>) -> (r: bool)
    ensures
        r == (a is Some && sid_key(*a) == sid_key(*b)),
{
    match (a, b) {
        (Some(x), Some(y)) => x.eq(y),
        _ => false,
    }
}

fn record_matches_uid(r: &UserRecord, uid: &Uid) -> (b: bool)
    ensures
        b == matches_uid(*r, uid@),
{
    match uid {
        Uid::Nid(n) => match r.nid {
            Some(m) => m == *n,
            None => false,
        },
        Uid::Sid(s) => match &r.sid {
            Some(t) => t.eq(s),
            None => false,
        },
    }
}

fn record_matches_init(r: &UserRecord, init: &InitUser) -> (b: bool)
    ensures
        b == matches_init(*r, *init),
{
    let by_nid = match (init.nid, r.nid) {
        (Some(a), Some(b)) => a == b,
        _ => false,
    };
    by_nid || same_sid(&init.sid, &r.sid)
}

impl UserTable {
    pub fn new() -> (r: UserTable)
        ensures
            r@ == Seq::<UserRecord>::empty(),
    {
        UserTable { rows: Vec::new() }
    }

    pub fn len(&self) -> (r: usize)
        ensures
            r == self@.len(),
    {
        self.rows.len()
    }

    pub fn get(&self, i: usize) -> (r: &UserRecord)
        requires
            i < self@.len(),
        ensures
            *r == self@[i as int],
    {
        &self.rows[i]
    }

    /// The index of the record found under `uid`, if any.
    pub fn position(&self, uid: &Uid) -> (r: Option<usize>)
        ensures
            match r {
                Some(i) => i < self@.len() && i as int == uid_index_from(self@, uid@, 0),
                None => uid_index_from(self@, uid@, 0) == -1,
            },
    {
        let mut i: usize = 0;
        while i < self.rows.len()
            invariant
                0 <= i <= self@.len(),
                uid_index_from(self@, uid@, 0) == uid_index_from(self@, uid@, i as int),
            decreases self@.len() - i,
        {
            if record_matches_uid(&self.rows[i], uid) {
                return Some(i);
            }
            i = i + 1;
        }
        None
    }

    /// The record found under `uid`, if any.
    pub fn find_by_uid(&self, uid: &Uid) -> (r: Option<&UserRecord>)
        ensures
            match r {
                Some(u) => {
                    let i = uid_index_from(self@, uid@, 0);
                    0 <= i < self@.len() && *u == self@[i]
                },
                None => uid_index_from(self@, uid@, 0) == -1,
            },
    {
        proof {
            lemma_uid_index_bounds(self@, uid@, 0);
        }
        match self.position(uid) {
            Some(i) => Some(&self.rows[i]),
            None => None,
        }
    }

    /// Stores a freshly read profile: merged into the first record that shares
    /// either key with it, or added as a new record (with id `id`). Returns the
    /// index of the record.
    pub fn upsert_user(&mut self, init: InitUser, id: u128, now: Timestamp) -> (r: Result<usize, StoreError>)
        ensures
            upserted(old(self)@, final(self)@, init, id, now, r),
    {
        if init.nid.is_none() && init.sid.is_none() {
            return Err(StoreError::MissingKey);
        }
        proof {
            lemma_init_index_bounds(self@, init, 0);
        }
        let mut i: usize = 0;
        while i < self.rows.len()
            invariant
                0 <= i <= self@.len(),
                self@ == old(self)@,
                init_index_from(self@, init, 0) == init_index_from(self@, init, i as int),
            decreases self@.len() - i,
        {
            if record_matches_init(&self.rows[i], &init) {
                let existing = self.rows.remove(i);
                let updated = update_user(init, existing, now);
                self.rows.insert(i, updated);
                assert forall|j: int| 0 <= j < old(self)@.len() && j != i implies self@[j] == old(self)@[j] by {
                }
                return Ok(i);
            }
            i = i + 1;
        }
        let n = self.rows.len();
        let rec = insert_user(init, id, now);
        self.rows.push(rec);
        Ok(n)
    }

    /// Merges a walk's result into the name history of the record found under `uid`.
    pub fn update_name_history(&mut self, uid: &Uid, update: NamesUpdate, now: Timestamp) -> (r: Result<usize, StoreError>)
        ensures
            ({
                let i = uid_index_from(old(self)@, uid@, 0);
                if i < 0 {
                    r == Err::<usize, StoreError>(StoreError::NotFound) && final(self)@ == old(self)@
                } else {
                    &&& r == Ok::<usize, StoreError>(i as usize)
                    &&& final(self)@.len() == old(self)@.len()
                    &&& forall|j: int| 0 <= j < old(self)@.len() && j != i ==> final(self)@[j] == old(self)@[j]
                    &&& is_merged_history(final(self)@[i].extra.name_history, old(self)@[i].extra.name_history,
                        update.key_point, update.names@, now)
                    &&& final(self)@[i].extra.collections == old(self)@[i].extra.collections
                    &&& final(self)@[i].id == old(self)@[i].id
                    &&& final(self)@[i].nid == old(self)@[i].nid
                    &&& final(self)@[i].sid == old(self)@[i].sid
                    &&& final(self)@[i].name == old(self)@[i].name
                    &&& final(self)@[i].state == old(self)@[i].state
                    &&& final(self)@[i].update_at == old(self)@[i].update_at
                }
            }),
    {
        proof {
            lemma_uid_index_bounds(self@, uid@, 0);
        }
        match self.position(uid) {
            None => Err(StoreError::NotFound),
            Some(i) => {
                let mut rec = self.rows.remove(i);
                rec.extra.update_name_history(update, now);
                self.rows.insert(i, rec);
                assert forall|j: int| 0 <= j < old(self)@.len() && j != i implies self@[j] == old(self)@[j] by {
                }
                Ok(i)
            },
        }
    }

    /// Ends a name-history refresh: a walk that failed leaves every record as
    /// it was; a finished one is merged into the record found under `uid`.
    pub fn finish_name_walk(
        &mut self,
        uid: &Uid,
        outcome: Result<NamesUpdate, WalkError>,
        now: Timestamp,
    ) -> (r: Result<usize, StoreError>)
        ensures
            outcome is Err ==> r == Err::<usize, StoreError>(StoreError::Walk(outcome->Err_0))
                && *final(self) == *old(self),
            outcome is Ok ==> (r is Ok <==> uid_index_from(old(self)@, uid@, 0) >= 0),
            outcome is Ok && r is Ok ==> is_merged_history(
                final(self)@[r->Ok_0 as int].extra.name_history,
                old(self)@[r->Ok_0 as int].extra.name_history,
                outcome->Ok_0.key_point,
                outcome->Ok_0.names@,
                now,
            ),
    {
        proof {
            lemma_uid_index_bounds(self@, uid@, 0);
        }
        match outcome {
            Err(e) => Err(StoreError::Walk(e)),
            Ok(u) => {
                let ghost i = uid_index_from(self@, uid@, 0);
                let n = self.rows.len();
                assert(i < n);
                let res = self.update_name_history(uid, u, now);
                assert(res is Ok ==> res->Ok_0 as int == i);
                res
            },
        }
    }
}

/// A profile that shares a key with a stored record is merged into that
/// record: no record is added, and the record then carries every key that
/// the profile has.
pub proof fn lemma_upsert_merges_identity(
    before: Seq<UserRecord>,
    after: Seq<UserRecord>,
    init: InitUser,
    id: u128,
    now: Timestamp,
    r: Result<usize, StoreError>,
    j: int,
)
    requires
        upserted(before, after, init, id, now, r),
        before.len() <= usize::MAX,
        0 <= j < before.len(),
        matches_init(before[j], init),
    ensures
        after.len() == before.len(),
        r is Ok,
        ({
            let i = r->Ok_0 as int;
            &&& 0 <= i < after.len()
            &&& matches_init(before[i], init)
            &&& after[i].id == before[i].id
            &&& init.nid is Some ==> after[i].nid == init.nid
            &&& init.sid is Some ==> after[i].sid == init.sid
        }),
{
    lemma_init_index_bounds(before, init, 0);
    lemma_init_index_is_first(before, init, 0, j);
}

proof fn lemma_init_index_is_first(rows: Seq<UserRecord>, init: InitUser, i: int, j: int)
    requires
        0 <= i <= j < rows.len(),
        matches_init(rows[j], init),
    ensures
        0 <= init_index_from(rows, init, i) <= j,
    decreases j - i,
{
    if !matches_init(rows[i], init) {
        lemma_init_index_is_first(rows, init, i + 1, j);
    }
}

} // verus!
