use vstd::prelude::*;

use crate::clock::{parse_time, time_spec, TimeError};
use crate::names::{text_set, Names};
use crate::text::{decimal_of, same_text, split_nth, split_piece, usize_text};
use crate::uid::{uid_of, uid_text, Uid, UidKey};
use crate::user::{NamesUpdate, Timestamp};

verus! {

/// The address of a user's profile page on the site at `origin`.
pub open spec fn home_url(origin: Seq<char>, uid: UidKey) -> Seq<char> {
    origin + "/user/"@ + uid_text(uid)
}

/// The address of one page of a user's status timeline on the site at `origin`.
pub open spec fn timeline_url(origin: Seq<char>, uid: UidKey, page: nat) -> Seq<char> {
    origin + "/user/"@ + uid_text(uid) + "/timeline?type=say&ajax=1&page="@ + decimal_of(page as int)
}

/// The identity that an address of the form `<scheme>//<host>/user/<id>/...` names.
pub open spec fn redirect_target(url: Seq<char>) -> UidKey {
    uid_of(split_piece(url, '/', 4))
}

/// Builds the addresses of a user's pages.
pub struct Compass {
    pub uid: Uid,
}

impl Compass {
    pub fn new(uid: Uid) -> (r: Compass)
        ensures
            r.uid == uid,
    {
        Compass { uid }
    }

    /// `origin` followed by `/` and `path`.
    pub fn with_origin(origin: &str, path: &str) -> (r: String)
        ensures
            r@ == origin@ + "/"@ + path@,
    {
        let mut r = String::from_str(origin);
        r.append("/");
        r.append(path);
        r
    }

    pub fn home(&self, origin: &str) -> (r: String)
        ensures
            r@ == home_url(origin@, self.uid@),
    {
        let mut r = String::from_str(origin);
        r.append("/user/");
        let id = self.uid.to_string();
        r.append(id.as_str());
        r
    }

    pub fn timeline_say_with_page(&self, origin: &str, page: usize) -> (r: String)
        ensures
            r@ == timeline_url(origin@, self.uid@, page as nat),
    {
        let mut r = String::from_str(origin);
        r.append("/user/");
        let id = self.uid.to_string();
        r.append(id.as_str());
        r.append("/timeline?type=say&ajax=1&page=");
        let p = usize_text(page);
        r.append(p.as_str());
        r
    }
}

/// What one timeline page holds: the time of its oldest entry, and the names
/// that its name-change entries announce.
pub struct TimelinePage {
    pub checkpoint: Timestamp,
    pub names: Names,
}

/// Reads one timeline page from what its document shows: whether it has a
/// timeline at all, the text of its first date header, and the names that its
/// name-change entries announce.
pub fn read_timeline_page(has_timeline: bool, header: &str, names: Vec<String>, now: Timestamp) -> (r: Result<
    Option<TimelinePage>,
    TimeError,
>)
    ensures
        !has_timeline ==> r == Ok::<Option<TimelinePage>, TimeError>(None),
        has_timeline ==> match time_spec(header@, now) {
            Err(e) => r == Err::<Option<TimelinePage>, TimeError>(e),
            Ok(t) => r matches Ok(Some(p)) && p.checkpoint == t && p.names@ == text_set(names@),
        },
{
    if !has_timeline {
        return Ok(None);
    }
    match parse_time(header, now) {
        Err(e) => Err(e),
        Ok(t) => Ok(Some(TimelinePage { checkpoint: t, names: Names::from_vec(names) })),
    }
}

/// Why a walk over the timeline stopped without a result.
#[derive(PartialEq, Eq, Structural, Clone, Copy, Debug)]
pub enum WalkError {
    /// The site answered with a status other than success.
    Status(u16),
    /// The page could not be read.
    Parse,
}

/// What the driver of a walk does next.
pub enum WalkStep {
    /// Fetch the page that `NameWalk::url` names.
    Fetch,
    /// The response is for the page asked for: read its body and pass it to `on_page`.
    ReadBody,
    /// The walk is over.
    Done(NamesUpdate),
    /// The walk failed; nothing of it is to be kept.
    Failed(WalkError),
}

/// A walk back through a user's status timeline, page by page, gathering the
/// names that the user has had, until it reaches the point read before.
pub struct NameWalk {
    /// The identity under which the next page is fetched.
    pub uid: Uid,
    /// The next page to fetch, counting from one.
    pub page: usize,
    /// The checkpoint that earlier walks reached.
    pub stop_at: Timestamp,
    /// The names gathered so far.
    pub names: Names,
    /// The checkpoint of the first page read.
    pub key_point: Option<Timestamp>,
}

impl NameWalk {
    /// A walk from the first page, which stops once it reaches `stop_at`.
    pub fn new(uid: Uid, stop_at: Timestamp) -> (r: NameWalk)
        ensures
            r.uid == uid,
            r.page == 1,
            r.stop_at == stop_at,
            r.names@ == Set::<Seq<char>>::empty(),
            r.key_point is None,
    {
        NameWalk { uid, page: 1, stop_at, names: Names::new(), key_point: None }
    }

    /// The address of the next page to fetch.
    pub fn url(&self, origin: &str) -> (r: String)
        ensures
            r@ == timeline_url(origin@, self.uid@, self.page as nat),
    {
        let c = Compass { uid: self.uid.clone() };
        c.timeline_say_with_page(origin, self.page)
    }

    /// Takes the response to a fetch of `requested`. A response from another
    /// address means that the user is now known under another identity: the
    /// walk adopts it and fetches the same page again.
    pub fn on_response(&mut self, requested: &str, final_url: &str, status: u16) -> (r: WalkStep)
        ensures
            requested@ != final_url@ ==> {
                &&& r is Fetch
                &&& final(self).uid@ == redirect_target(final_url@)
                &&& final(self).page == old(self).page
                &&& final(self).stop_at == old(self).stop_at
                &&& final(self).names == old(self).names
                &&& final(self).key_point == old(self).key_point
            },
            requested@ == final_url@ && !(200 <= status <= 299) ==> {
                &&& r == WalkStep::Failed(WalkError::Status(status))
                &&& *final(self) == *old(self)
            },
            requested@ == final_url@ && 200 <= status <= 299 ==> {
                &&& r is ReadBody
                &&& *final(self) == *old(self)
            },
    {
        if !same_text(requested, final_url) {
            let piece = split_nth(final_url, '/', 4);
            self.uid = Uid::from_str(piece);
            return WalkStep::Fetch;
        }
        if status < 200 || status > 299 {
            return WalkStep::Failed(WalkError::Status(status));
        }
        WalkStep::ReadBody
    }

    /// Takes what was read from the page body: `Ok(None)` when the page has no
    /// timeline (the history is exhausted). The walk stops at the first page
    /// whose checkpoint is at or before `stop_at`.
    pub fn on_page(&mut self, page: Result<Option<TimelinePage>, TimeError>, now: Timestamp) -> (r: WalkStep)
        requires
            old(self).page < usize::MAX,
        ensures
            page is Err ==> r == WalkStep::Failed(WalkError::Parse) && *final(self) == *old(self),
            page matches Ok(None) ==> r matches WalkStep::Done(u) && u.key_point == match old(self).key_point {
                Some(k) => k,
                None => now,
            } && u.names@ == old(self).names@,
            page matches Ok(Some(p)) ==> {
                let kp = match old(self).key_point {
                    Some(k) => k,
                    None => p.checkpoint,
                };
                let names = old(self).names@.union(p.names@);
                if p.checkpoint <= old(self).stop_at {
                    r matches WalkStep::Done(u) && u.key_point == kp && u.names@ == names
                } else {
                    &&& r is Fetch
                    &&& final(self).page == old(self).page + 1
                    &&& final(self).uid == old(self).uid
                    &&& final(self).stop_at == old(self).stop_at
                    &&& final(self).key_point == Some(kp)
                    &&& final(self).names@ == names
                }
            },
    {
        match page {
            Err(_) => WalkStep::Failed(WalkError::Parse),
            Ok(None) => {
                let kp = match self.key_point {
                    Some(k) => k,
                    None => now,
                };
                let mut names = Names::new();
                std::mem::swap(&mut names, &mut self.names);
                WalkStep::Done(NamesUpdate { key_point: kp, names })
            },
            Ok(Some(p)) => {
                let kp = match self.key_point {
                    Some(k) => k,
                    None => p.checkpoint,
                };
                self.key_point = Some(kp);
                self.names.extend(p.names);
                if p.checkpoint <= self.stop_at {
                    let mut names = Names::new();
                    std::mem::swap(&mut names, &mut self.names);
                    WalkStep::Done(NamesUpdate { key_point: kp, names })
                } else {
                    self.page = self.page + 1;
                    WalkStep::Fetch
                }
            },
        }
    }
}

} // verus!
