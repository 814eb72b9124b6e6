use vstd::prelude::*;

use crate::names::Names;
use crate::text::{lower_of, lowercase, same_text};
use crate::uid::Uid;

verus! {

/// Seconds since the Unix epoch, in UTC.
pub type Timestamp = i64;

/// How a user stands with the site, which decides how long the record stays fresh.
#[derive(PartialEq, Eq, Structural, Clone, Copy, Debug)]
pub enum UserState {
    Active,
    Abondon,
    Dropped,
    Banned,
}

pub open spec fn user_state_text(s: UserState) -> Seq<char> {
    match s {
        UserState::Active => "active"@,
        UserState::Abondon => "abondon"@,
        UserState::Dropped => "dropped"@,
        UserState::Banned => "banned"@,
    }
}

pub open spec fn user_state_of(t: Seq<char>) -> Option<UserState> {
    let l = lower_of(t);
    if l == "active"@ {
        Some(UserState::Active)
    } else if l == "abondon"@ {
        Some(UserState::Abondon)
    } else if l == "dropped"@ {
        Some(UserState::Dropped)
    } else if l == "banned"@ {
        Some(UserState::Banned)
    } else {
        None
    }
}

impl UserState {
    pub fn to_string(&self) -> (r: String)
        ensures
            r@ == user_state_text(*self),
    {
        match self {
            UserState::Active => String::from_str("active"),
            UserState::Abondon => String::from_str("abondon"),
            UserState::Dropped => String::from_str("dropped"),
            UserState::Banned => String::from_str("banned"),
        }
    }

    /// Reads a state name, ignoring case.
    pub fn from_str(s: &str) -> (r: Result<UserState, ()>)
        ensures
            r is Ok <==> user_state_of(s@) is Some,
            r is Ok ==> user_state_of(s@) == Some(r->Ok_0),
    {
        let l = lowercase(s);
        if same_text(l.as_str(), "active") {
            Ok(UserState::Active)
        } else if same_text(l.as_str(), "abondon") {
            Ok(UserState::Abondon)
        } else if same_text(l.as_str(), "dropped") {
            Ok(UserState::Dropped)
        } else if same_text(l.as_str(), "banned") {
            Ok(UserState::Banned)
        } else {
            Err(())
        }
    }
}

/// Where a subject stands in a user's collection.
#[derive(PartialEq, Eq, Structural, Clone, Copy, Debug)]
pub enum SubjectState {
    Do,
    Collect,
    Wish,
    OnHold,
    Dropped,
}

pub open spec fn subject_state_of(t: Seq<char>) -> Option<SubjectState> {
    let l = lower_of(t);
    if l == "do"@ {
        Some(SubjectState::Do)
    } else if l == "collect"@ {
        Some(SubjectState::Collect)
    } else if l == "wish"@ {
        Some(SubjectState::Wish)
    } else if l == "on_hold"@ {
        Some(SubjectState::OnHold)
    } else if l == "dropped"@ {
        Some(SubjectState::Dropped)
    } else {
        None
    }
}

impl SubjectState {
    /// Reads a collection state name, ignoring case.
    pub fn from_str(s: &str) -> (r: Result<SubjectState, ()>)
        ensures
            r is Ok <==> subject_state_of(s@) is Some,
            r is Ok ==> subject_state_of(s@) == Some(r->Ok_0),
    {
        let l = lowercase(s);
        if same_text(l.as_str(), "do") {
            Ok(SubjectState::Do)
        } else if same_text(l.as_str(), "collect") {
            Ok(SubjectState::Collect)
        } else if same_text(l.as_str(), "wish") {
            Ok(SubjectState::Wish)
        } else if same_text(l.as_str(), "on_hold") {
            Ok(SubjectState::OnHold)
        } else if same_text(l.as_str(), "dropped") {
            Ok(SubjectState::Dropped)
        } else {
            Err(())
        }
    }
}

/// The kind of a subject.
#[derive(PartialEq, Eq, Structural, Clone, Copy, Debug)]
pub enum SubjectType {
    Anime,
    Game,
    Book,
    Music,
    Real,
}

pub open spec fn subject_type_of(t: Seq<char>) -> Option<SubjectType> {
    let l = lower_of(t);
    if l == "anime"@ {
        Some(SubjectType::Anime)
    } else if l == "game"@ {
        Some(SubjectType::Game)
    } else if l == "book"@ {
        Some(SubjectType::Book)
    } else if l == "music"@ {
        Some(SubjectType::Music)
    } else if l == "real"@ {
        Some(SubjectType::Real)
    } else {
        None
    }
}

impl SubjectType {
    /// Reads a subject kind name, ignoring case.
    pub fn from_str(s: &str) -> (r: Result<SubjectType, ()>)
        ensures
            r is Ok <==> subject_type_of(s@) is Some,
            r is Ok ==> subject_type_of(s@) == Some(r->Ok_0),
    {
        let l = lowercase(s);
        if same_text(l.as_str(), "anime") {
            Ok(SubjectType::Anime)
        } else if same_text(l.as_str(), "game") {
            Ok(SubjectType::Game)
        } else if same_text(l.as_str(), "book") {
            Ok(SubjectType::Book)
        } else if same_text(l.as_str(), "music") {
            Ok(SubjectType::Music)
        } else if same_text(l.as_str(), "real") {
            Ok(SubjectType::Real)
        } else {
            Err(())
        }
    }
}

/// Counts of one kind of subject, by collection state.
#[derive(PartialEq, Eq, Structural, Clone, Copy, Debug)]
pub struct TypedCollection {
    pub doing: Option<usize>,
    pub collect: Option<usize>,
    pub wish: Option<usize>,
    pub on_hold: Option<usize>,
    pub dropped: Option<usize>,
}

pub open spec fn empty_typed_collection() -> TypedCollection {
    TypedCollection { doing: None, collect: None, wish: None, on_hold: None, dropped: None }
}

pub open spec fn with_count(c: TypedCollection, st: SubjectState, n: usize) -> TypedCollection {
    match st {
        SubjectState::Do => TypedCollection { doing: Some(n), ..c },
        SubjectState::Collect => TypedCollection { collect: Some(n), ..c },
        SubjectState::Wish => TypedCollection { wish: Some(n), ..c },
        SubjectState::OnHold => TypedCollection { on_hold: Some(n), ..c },
        SubjectState::Dropped => TypedCollection { dropped: Some(n), ..c },
    }
}

/// The counts that a list of (state name, count) pairs gives: for each state,
/// the last count listed under a name of it.
pub open spec fn count_fold(list: Seq<(String, usize)>) -> TypedCollection
    decreases list.len(),
{
    if list.len() == 0 {
        empty_typed_collection()
    } else {
        let c = count_fold(list.drop_last());
        match subject_state_of(list.last().0@) {
            Some(st) => with_count(c, st, list.last().1),
            None => c,
        }
    }
}

/// Whether some pair of the list names a known state.
pub open spec fn names_some_state(list: Seq<(String, usize)>) -> bool {
    exists|i: int| 0 <= i < list.len() && (#[trigger] subject_state_of(list[i].0@)) is Some
}

impl TypedCollection {
    /// Gathers the counts of a list of (state name, count) pairs; `None` when
    /// no pair names a known state.
    pub fn build(list: Vec<(String, usize)>) -> (r: Option<TypedCollection>)
        ensures
            r == (if names_some_state(list@) { Some(count_fold(list@)) } else { None }),
    {
        let mut result = TypedCollection {
            doing: None,
            collect: None,
            wish: None,
            on_hold: None,
            dropped: None,
        };
        let mut s = false;
        let mut i: usize = 0;
        while i < list.len()
            invariant
                0 <= i <= list@.len(),
                result == count_fold(list@.subrange(0, i as int)),
                s == (exists|j: int| 0 <= j < i && (#[trigger] subject_state_of(list@[j].0@)) is Some),
            decreases list@.len() - i,
        {
            let ghost prefix = list@.subrange(0, i + 1);
            assert(prefix.drop_last() =~= list@.subrange(0, i as int));
            assert(prefix.last() == list@[i as int]);
            let count = list[i].1;
            match SubjectState::from_str(list[i].0.as_str()) {
                Ok(st) => {
                    s = true;
                    match st {
                        SubjectState::Do => result.doing = Some(count),
                        SubjectState::Collect => result.collect = Some(count),
                        SubjectState::Wish => result.wish = Some(count),
                        SubjectState::OnHold => result.on_hold = Some(count),
                        SubjectState::Dropped => result.dropped = Some(count),
                    }
                },
                Err(()) => {},
            }
            i = i + 1;
        }
        assert(list@.subrange(0, list@.len() as int) =~= list@);
        if s {
            Some(result)
        } else {
            None
        }
    }
}

/// Collection counts of a user, by subject kind.
#[derive(PartialEq, Eq, Structural, Clone, Copy, Debug)]
pub struct Collections {
    pub anime: Option<TypedCollection>,
    pub game: Option<TypedCollection>,
    pub book: Option<TypedCollection>,
    pub music: Option<TypedCollection>,
    pub real: Option<TypedCollection>,
}

pub open spec fn empty_collections() -> Collections {
    Collections { anime: None, game: None, book: None, music: None, real: None }
}

pub open spec fn with_kind(c: Collections, t: SubjectType, v: Option<TypedCollection>) -> Collections {
    match t {
        SubjectType::Anime => Collections { anime: v, ..c },
        SubjectType::Game => Collections { game: v, ..c },
        SubjectType::Book => Collections { book: v, ..c },
        SubjectType::Music => Collections { music: v, ..c },
        SubjectType::Real => Collections { real: v, ..c },
    }
}

/// For each kind, the last counts listed for it; entries without counts are passed over.
pub open spec fn kind_fold(list: Seq<(SubjectType, Option<TypedCollection>)>) -> Collections
    decreases list.len(),
{
    if list.len() == 0 {
        empty_collections()
    } else {
        let c = kind_fold(list.drop_last());
        if list.last().1 is Some {
            with_kind(c, list.last().0, list.last().1)
        } else {
            c
        }
    }
}

impl Collections {
    /// Gathers per-kind counts; `None` when no entry has counts.
    pub fn build(list: Vec<(SubjectType, Option<TypedCollection>)>) -> (r: Option<Collections>)
        ensures
            r == (if exists|i: int| 0 <= i < list@.len() && (#[trigger] list@[i]).1 is Some {
                Some(kind_fold(list@))
            } else {
                None
            }),
    {
        let mut result = Collections { anime: None, game: None, book: None, music: None, real: None };
        let mut s = false;
        let mut i: usize = 0;
        while i < list.len()
            invariant
                0 <= i <= list@.len(),
                result == kind_fold(list@.subrange(0, i as int)),
                s == (exists|j: int| 0 <= j < i && (#[trigger] list@[j]).1 is Some),
            decreases list@.len() - i,
        {
            let ghost prefix = list@.subrange(0, i + 1);
            assert(prefix.drop_last() =~= list@.subrange(0, i as int));
            assert(prefix.last() == list@[i as int]);
            let (st, collection) = list[i];
            if collection.is_some() {
                s = true;
                match st {
                    SubjectType::Anime => result.anime = collection,
                    SubjectType::Game => result.game = collection,
                    SubjectType::Book => result.book = collection,
                    SubjectType::Music => result.music = collection,
                    SubjectType::Real => result.real = collection,
                }
            }
            i = i + 1;
        }
        assert(list@.subrange(0, list@.len() as int) =~= list@);
        if s {
            Some(result)
        } else {
            None
        }
    }
}

/// What is known of a user's former names, and how far back the timeline was read.
pub struct NameHistory {
    pub update_at: Timestamp,
    pub key_point: Timestamp,
    pub names: Names,
}

/// The result of one walk over a user's timeline.
pub struct NamesUpdate {
    pub key_point: Timestamp,
    pub names: Names,
}

/// The checkpoint after merging a walk's checkpoint: never earlier than before.
pub open spec fn merged_key_point(prev: Option<NameHistory>, key_point: Timestamp) -> Timestamp {
    match prev {
        Some(h) => if h.key_point >= key_point { h.key_point } else { key_point },
        None => key_point,
    }
}

/// The names after merging a walk's names: the union with those known before.
pub open spec fn merged_names(prev: Option<NameHistory>, names: Set<Seq<char>>) -> Set<Seq<char>> {
    match prev {
        Some(h) => h.names@.union(names),
        None => names,
    }
}

/// Whether `h` is what merging an update (checkpoint `key_point`, names `names`)
/// into `prev` at time `now` gives.
pub open spec fn is_merged_history(
    h: Option<NameHistory>,
    prev: Option<NameHistory>,
    key_point: Timestamp,
    names: Set<Seq<char>>,
    now: Timestamp,
) -> bool {
    &&& h is Some
    &&& h->Some_0.update_at == now
    &&& h->Some_0.key_point == merged_key_point(prev, key_point)
    &&& h->Some_0.names@ == merged_names(prev, names)
}

/// The parts of a user record that are kept as one document.
pub struct Extra {
    pub name_history: Option<NameHistory>,
    pub collections: Option<Collections>,
}

impl Default for Extra {
    fn default() -> (r: Extra)
        ensures
            r.name_history is None,
            r.collections is None,
    {
        Extra { name_history: None, collections: None }
    }
}

impl Extra {
    /// Takes each part of `other` that is present.
    pub fn merge(&mut self, other: Extra)
        ensures
            final(self).name_history == (if other.name_history is Some {
                other.name_history
            } else {
                old(self).name_history
            }),
            final(self).collections == (if other.collections is Some {
                other.collections
            } else {
                old(self).collections
            }),
    {
        if let Some(nh) = other.name_history {
            self.name_history = Some(nh);
        }
        if let Some(c) = other.collections {
            self.collections = Some(c);
        }
    }

    pub fn update_collections(&mut self, collections: Collections)
        ensures
            final(self).collections == Some(collections),
            final(self).name_history == old(self).name_history,
    {
        self.collections = Some(collections);
    }

    pub fn update_collections_opt(&mut self, collections: Option<Collections>)
        ensures
            final(self).collections == (if collections is Some { collections } else { old(self).collections }),
            final(self).name_history == old(self).name_history,
    {
        if let Some(c) = collections {
            self.collections = Some(c);
        }
    }

    pub fn replace_name_history(&mut self, name_history: NameHistory)
        ensures
            final(self).name_history == Some(name_history),
            final(self).collections == old(self).collections,
    {
        self.name_history = Some(name_history);
    }

    /// Merges a walk's result: the names are added to those known, and the
    /// checkpoint moves forward only.
    pub fn update_name_history(&mut self, update: NamesUpdate, now: Timestamp)
        ensures
            is_merged_history(final(self).name_history, old(self).name_history, update.key_point, update.names@, now),
            final(self).collections == old(self).collections,
    {
        let prev = self.name_history.take();
        let h = match prev {
            Some(mut h) => {
                h.update_at = now;
                if update.key_point > h.key_point {
                    h.key_point = update.key_point;
                }
                h.names.extend(update.names);
                h
            },
            None => NameHistory { update_at: now, key_point: update.key_point, names: update.names },
        };
        self.name_history = Some(h);
    }

    pub fn update_name_history_opt(&mut self, update: Option<NamesUpdate>, now: Timestamp)
        ensures
            match update {
                Some(u) => is_merged_history(final(self).name_history, old(self).name_history, u.key_point, u.names@, now),
                None => final(self).name_history == old(self).name_history,
            },
            final(self).collections == old(self).collections,
    {
        if let Some(u) = update {
            self.update_name_history(u, now);
        }
    }

    /// The names known so far; none when no history is kept.
    pub fn into_names(self) -> (r: Names)
        ensures
            r@ == match self.name_history {
                Some(h) => h.names@,
                None => Set::<Seq<char>>::empty(),
            },
    {
        match self.name_history {
            Some(h) => h.names,
            None => Names::new(),
        }
    }
}

/// A freshly read profile, before it is stored.
pub struct InitUser {
    pub nid: Option<i32>,
    pub sid: Option<String>,
    pub name: String,
    pub join_time: Option<Timestamp>,
    pub last_active: Option<Timestamp>,
    pub state: UserState,
    pub collections: Option<Collections>,
    pub names_update: Option<NamesUpdate>,
}

impl Default for InitUser {
    fn default() -> (r: InitUser)
        ensures
            r.nid is None,
            r.sid is None,
            r.name@ == Seq::<char>::empty(),
            r.join_time is None,
            r.last_active is None,
            r.state == UserState::Abondon,
            r.collections is None,
            r.names_update is None,
    {
        InitUser {
            nid: None,
            sid: None,
            name: String::new(),
            join_time: None,
            last_active: None,
            state: UserState::Abondon,
            collections: None,
            names_update: None,
        }
    }
}

} // verus!

verus! {

impl InitUser {
    pub fn update_uid(&mut self, uid: Uid)
        ensures
            match uid {
                Uid::Nid(n) => final(self).nid == Some(n) && final(self).sid == old(self).sid,
                Uid::Sid(s) => final(self).sid == Some(s) && final(self).nid == old(self).nid,
            },
            final(self).name == old(self).name,
            final(self).state == old(self).state,
            final(self).join_time == old(self).join_time,
            final(self).last_active == old(self).last_active,
            final(self).collections == old(self).collections,
            final(self).names_update == old(self).names_update,
    {
        match uid {
            Uid::Nid(n) => self.nid = Some(n),
            Uid::Sid(s) => self.sid = Some(s),
        }
    }

    pub fn update_name(&mut self, name: String)
        ensures
            *final(self) == (InitUser { name, ..*old(self) }),
    {
        self.name = name;
    }

    pub fn update_state(&mut self, state: UserState)
        ensures
            *final(self) == (InitUser { state, ..*old(self) }),
    {
        self.state = state;
    }

    pub fn update_join_time(&mut self, join_time: Timestamp)
        ensures
            *final(self) == (InitUser { join_time: Some(join_time), ..*old(self) }),
    {
        self.join_time = Some(join_time);
    }

    pub fn update_join_time_opt(&mut self, join_time: Option<Timestamp>)
        ensures
            *final(self) == (if join_time is Some { InitUser { join_time, ..*old(self) } } else { *old(self) }),
    {
        if let Some(t) = join_time {
            self.join_time = Some(t);
        }
    }

    pub fn update_last_active(&mut self, last_active: Timestamp)
        ensures
            *final(self) == (InitUser { last_active: Some(last_active), ..*old(self) }),
    {
        self.last_active = Some(last_active);
    }

    pub fn update_last_active_opt(&mut self, last_active: Option<Timestamp>)
        ensures
            *final(self) == (if last_active is Some { InitUser { last_active, ..*old(self) } } else { *old(self) }),
    {
        if let Some(t) = last_active {
            self.last_active = Some(t);
        }
    }

    pub fn update_collections(&mut self, collections: Collections)
        ensures
            *final(self) == (InitUser { collections: Some(collections), ..*old(self) }),
    {
        self.collections = Some(collections);
    }

    pub fn update_collections_opt(&mut self, collections: Option<Collections>)
        ensures
            *final(self) == (if collections is Some { InitUser { collections, ..*old(self) } } else { *old(self) }),
    {
        if let Some(c) = collections {
            self.collections = Some(c);
        }
    }

    pub fn update_names_update(&mut self, names_update: NamesUpdate)
        ensures
            *final(self) == (InitUser { names_update: Some(names_update), ..*old(self) }),
    {
        self.names_update = Some(names_update);
    }

    pub fn update_names_update_opt(&mut self, names_update: Option<NamesUpdate>)
        ensures
            *final(self) == (if names_update is Some { InitUser { names_update, ..*old(self) } } else { *old(self) }),
    {
        if let Some(u) = names_update {
            self.names_update = Some(u);
        }
    }

    pub fn set_nid(&mut self, nid: Option<i32>)
        ensures
            *final(self) == (InitUser { nid, ..*old(self) }),
    {
        self.nid = nid;
    }

    pub fn set_sid(&mut self, sid: Option<String>)
        ensures
            *final(self) == (InitUser { sid, ..*old(self) }),
    {
        self.sid = sid;
    }

    pub fn set_join_time(&mut self, join_time: Option<Timestamp>)
        ensures
            *final(self) == (InitUser { join_time, ..*old(self) }),
    {
        self.join_time = join_time;
    }

    pub fn set_last_active(&mut self, last_active: Option<Timestamp>)
        ensures
            *final(self) == (InitUser { last_active, ..*old(self) }),
    {
        self.last_active = last_active;
    }

    pub fn set_names_update(&mut self, names_update: Option<NamesUpdate>)
        ensures
            *final(self) == (InitUser { names_update, ..*old(self) }),
    {
        self.names_update = names_update;
    }

    pub fn set_collections(&mut self, collections: Option<Collections>)
        ensures
            *final(self) == (InitUser { collections, ..*old(self) }),
    {
        self.collections = collections;
    }
}

/// Merging walk results never loses a name and never moves the checkpoint back.
pub proof fn lemma_merge_is_monotone(
    h: Option<NameHistory>,
    prev: Option<NameHistory>,
    key_point: Timestamp,
    names: Set<Seq<char>>,
    now: Timestamp,
)
    requires
        is_merged_history(h, prev, key_point, names, now),
    ensures
        prev matches Some(p) ==> p.names@.subset_of(h->Some_0.names@) && p.key_point <= h->Some_0.key_point,
        names.subset_of(h->Some_0.names@),
{
}

/// Over any run of merges, every name known at the start is still known at
/// the end, and the checkpoint at the end is no earlier than at the start:
/// `hs[i + 1]` is `hs[i]` with the update `(kps[i], ns[i])` merged in at `nows[i]`.
pub proof fn lemma_history_monotone(
    hs: Seq<Option<NameHistory>>,
    kps: Seq<Timestamp>,
    ns: Seq<Set<Seq<char>>>,
    nows: Seq<Timestamp>,
)
    requires
        hs.len() >= 1,
        kps.len() == hs.len() - 1,
        ns.len() == hs.len() - 1,
        nows.len() == hs.len() - 1,
        forall|i: int| 0 <= i < hs.len() - 1 ==> is_merged_history(#[trigger] hs[i + 1], hs[i], kps[i], ns[i], nows[i]),
        hs[0] is Some,
    ensures
        hs.last() is Some,
        hs[0]->Some_0.names@.subset_of(hs.last()->Some_0.names@),
        hs[0]->Some_0.key_point <= hs.last()->Some_0.key_point,
    decreases hs.len(),
{
    if hs.len() > 1 {
        let n = hs.len() - 1;
        lemma_history_monotone(hs.drop_last(), kps.drop_last(), ns.drop_last(), nows.drop_last());
        assert(hs.drop_last().last() == hs[n - 1]);
        let i = n - 1;
        assert(is_merged_history(hs[i + 1], hs[i], kps[i], ns[i], nows[i]));
    }
}

} // verus!
