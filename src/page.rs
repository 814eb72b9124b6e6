use vstd::prelude::*;

use crate::text::{parse_i32, parse_i32_spec, same_text, split_nth, split_piece};
use crate::uid::{uid_of, Uid, UidKey};
use crate::user::{Collections, InitUser, Timestamp, UserState};

verus! {

pub open spec fn starts_with(s: Seq<char>, p: Seq<char>) -> bool {
    p.len() <= s.len() && s.subrange(0, p.len() as int) == p
}

pub open spec fn ends_with(s: Seq<char>, p: Seq<char>) -> bool {
    p.len() <= s.len() && s.subrange(s.len() - p.len(), s.len() as int) == p
}

pub open spec fn contains_text(s: Seq<char>, p: Seq<char>) -> bool {
    exists|i: int| 0 <= i && i + p.len() <= s.len() && #[trigger] s.subrange(i, i + p.len()) == p
}

/// `s` with every trailing repeat of `p` taken off (nothing when `p` is empty).
pub open spec fn trim_end_all(s: Seq<char>, p: Seq<char>) -> Seq<char>
    decreases s.len(),
{
    if p.len() > 0 && ends_with(s, p) {
        trim_end_all(s.subrange(0, s.len() - p.len()), p)
    } else {
        s
    }
}

/// The index of the last `c` in `s`, or -1.
pub open spec fn last_index_of(s: Seq<char>, c: char, end: int) -> int
    decreases end,
{
    if end <= 0 {
        -1
    } else if s[end - 1] == c {
        end - 1
    } else {
        last_index_of(s, c, end - 1)
    }
}

/// What `s.split(c).last()` yields: the text after the last `c`.
pub open spec fn last_piece(s: Seq<char>, c: char) -> Seq<char> {
    s.subrange(last_index_of(s, c, s.len() as int) + 1, s.len() as int)
}

/// Whether `s` starts with `p`.
pub fn has_prefix(s: &str, p: &str) -> (r: bool)
    ensures
        r == starts_with(s@, p@),
{
    let n = s.unicode_len();
    let m = p.unicode_len();
    if m > n {
        return false;
    }
    let head = s.substring_char(0, m);
    same_text(head, p)
}

/// Whether `s` ends with `p`.
pub fn has_suffix(s: &str, p: &str) -> (r: bool)
    ensures
        r == ends_with(s@, p@),
{
    let n = s.unicode_len();
    let m = p.unicode_len();
    if m > n {
        return false;
    }
    let tail = s.substring_char(n - m, n);
    same_text(tail, p)
}

/// Whether `p` occurs in `s`.
pub fn has_text(s: &str, p: &str) -> (r: bool)
    ensures
        r == contains_text(s@, p@),
{
    let n = s.unicode_len();
    let m = p.unicode_len();
    if m == 0 {
        assert(s@.subrange(0, 0 + p@.len() as int) =~= p@);
        return true;
    }
    if m > n {
        return false;
    }
    let last = n - m;
    let mut i: usize = 0;
    while i <= last
        invariant
            n == s@.len(),
            m == p@.len(),
            1 <= m <= n,
            last == n - m,
            0 <= i <= last + 1,
            forall|j: int| 0 <= j < i ==> #[trigger] s@.subrange(j, j + m) != p@,
        decreases last + 1 - i,
    {
        if same_text(s.substring_char(i, i + m), p) {
            return true;
        }
        i = i + 1;
    }
    false
}

/// `s` with every trailing repeat of `p` taken off.
pub fn trim_end_matches<'a>(s: &'a str, p: &str) -> (r: &'a str)
    ensures
        r@ == trim_end_all(s@, p@),
{
    let m = p.unicode_len();
    if m == 0 {
        return s;
    }
    let mut t = s;
    while has_suffix(t, p)
        invariant
            m == p@.len(),
            m > 0,
            trim_end_all(t@, p@) == trim_end_all(s@, p@),
        decreases t@.len(),
    {
        let n = t.unicode_len();
        t = t.substring_char(0, n - m);
    }
    t
}

proof fn lemma_last_index_bounds(s: Seq<char>, c: char, end: int)
    requires
        0 <= end <= s.len(),
    ensures
        -1 <= last_index_of(s, c, end) < end,
    decreases end,
{
    if end > 0 && s[end - 1] != c {
        lemma_last_index_bounds(s, c, end - 1);
    }
}

/// The text after the last `c` in `s` (all of `s` when there is none).
pub fn after_last<'a>(s: &'a str, c: char) -> (r: &'a str)
    ensures
        r@ == last_piece(s@, c),
{
    let n = s.unicode_len();
    let mut end = n;
    proof {
        lemma_last_index_bounds(s@, c, n as int);
    }
    while end > 0
        invariant
            n == s@.len(),
            end <= n,
            last_index_of(s@, c, end as int) == last_index_of(s@, c, n as int),
        decreases end,
    {
        if s.get_char(end - 1) == c {
            return s.substring_char(end, n);
        }
        end = end - 1;
    }
    s.substring_char(0, n)
}

/// The numeric id in a private-message link `/pm/compose/<id>.chii`.
pub open spec fn nid_of_pm_href(href: Seq<char>) -> Option<i32> {
    if starts_with(href, "/pm/compose/"@) {
        parse_i32_spec(trim_end_all(href.subrange("/pm/compose/"@.len() as int, href.len() as int), ".chii"@))
    } else {
        None
    }
}

/// The numeric id in an avatar style `background-image:url('//lain.bgm.tv/pic/user/.../<id>_x.jpg')`.
pub open spec fn nid_of_avatar(style: Seq<char>) -> Option<i32> {
    if starts_with(style, "background-image:url('//lain.bgm.tv/pic/user/"@) {
        parse_i32_spec(split_piece(split_piece(last_piece(style, '/'), '.', 0), '_', 0))
    } else {
        None
    }
}

/// Reads the numeric id from a private-message link.
pub fn nid_from_pm_href(href: &str) -> (r: Option<i32>)
    ensures
        r == nid_of_pm_href(href@),
{
    if !has_prefix(href, "/pm/compose/") {
        return None;
    }
    let m = "/pm/compose/".unicode_len();
    let rest = href.substring_char(m, href.unicode_len());
    let id = trim_end_matches(rest, ".chii");
    parse_i32(id)
}

/// Reads the numeric id from an avatar style.
pub fn nid_from_avatar_style(style: &str) -> (r: Option<i32>)
    ensures
        r == nid_of_avatar(style@),
{
    if !has_prefix(style, "background-image:url('//lain.bgm.tv/pic/user/") {
        return None;
    }
    let file = after_last(style, '/');
    let stem = split_nth(file, '.', 0);
    let id = split_nth(stem, '_', 0);
    parse_i32(id)
}

/// Why a profile page gives no profile.
#[derive(PartialEq, Eq, Structural, Clone, Copy, Debug)]
pub enum PageError {
    /// The site says that there is no such user.
    UserNotFound,
    /// The page shows no `@handle` where one was needed.
    MissingHandle,
}

/// What the document of a profile page shows, as text, before it is interpreted.
pub struct UserPageFacts {
    /// The heading of the site's error message, empty when there is none.
    pub message: String,
    /// When the user joined, when the page shows a readable date.
    pub join_time: Option<Timestamp>,
    /// The `@handle` shown beside the name.
    pub handle: String,
    /// The link of the private-message button, if any.
    pub pm_href: Option<String>,
    /// The style of the avatar, if any.
    pub avatar_style: Option<String>,
    pub name: String,
    /// Whether the page shows a pinned timeline.
    pub has_timeline: bool,
    /// The time of the newest timeline entry, when readable.
    pub last_active: Option<Timestamp>,
    /// The collection counts, when the page has a timeline.
    pub collections: Option<Collections>,
    /// The heading of the notice box, empty when there is none.
    pub notice_title: String,
    /// The text of the notice box, empty when there is none.
    pub notice_tip: String,
}

/// The state a profile page shows: banned when the notice says so and does
/// not announce an unban, else dropped (or banned, by name) when no activity
/// is shown, else active when the last activity is later than `active_since`.
pub open spec fn page_state(
    notice_title: Seq<char>,
    notice_tip: Seq<char>,
    name: Seq<char>,
    last_active: Option<Timestamp>,
    active_since: Timestamp,
) -> UserState {
    if notice_title == "用户已封禁"@ && !contains_text(notice_tip, "解封"@) {
        UserState::Banned
    } else {
        match last_active {
            None => if name == "[已封禁]"@ { UserState::Banned } else { UserState::Dropped },
            Some(la) => if la > active_since { UserState::Active } else { UserState::Abondon },
        }
    }
}

/// Decides the state a profile page shows.
pub fn classify_user_state(
    notice_title: &str,
    notice_tip: &str,
    name: &str,
    last_active: Option<Timestamp>,
    active_since: Timestamp,
) -> (r: UserState)
    ensures
        r == page_state(notice_title@, notice_tip@, name@, last_active, active_since),
{
    if same_text(notice_title, "用户已封禁") && !has_text(notice_tip, "解封") {
        return UserState::Banned;
    }
    match last_active {
        None => if same_text(name, "[已封禁]") {
            UserState::Banned
        } else {
            UserState::Dropped
        },
        Some(la) => if la > active_since {
            UserState::Active
        } else {
            UserState::Abondon
        },
    }
}

pub open spec fn opt_text(s: Option<String>) -> Option<Seq<char>> {
    match s {
        Some(t) => Some(t@),
        None => None,
    }
}

/// The identity that the page's `@handle` names.
pub open spec fn handle_key(f: UserPageFacts) -> UidKey {
    uid_of(f.handle@.drop_first())
}

/// The numeric id that the page's links give: from the private-message link
/// when it yields one, else from the avatar.
pub open spec fn nid_from_links(f: UserPageFacts) -> Option<i32> {
    let pm = match f.pm_href {
        Some(h) => if starts_with(h@, "/pm/compose/"@) { nid_of_pm_href(h@) } else { None },
        None => None,
    };
    if pm is Some {
        pm
    } else {
        match f.avatar_style {
            Some(st) => if starts_with(st@, "background-image:url('//lain.bgm.tv/pic/user/"@) {
                nid_of_avatar(st@)
            } else {
                None
            },
            None => None,
        }
    }
}

/// Whether `r` is the profile that the facts `f` give on top of `init`.
pub open spec fn interpreted(r: InitUser, init: InitUser, f: UserPageFacts, active_since: Timestamp) -> bool {
    let la = if f.has_timeline { f.last_active } else { init.last_active };
    let from_handle = init.sid is None;
    let nid0 = if from_handle && handle_key(f) is Nid { Some(handle_key(f)->Nid_0) } else { init.nid };
    let sid0 = if from_handle && handle_key(f) is Sid { Some(handle_key(f)->Sid_0) } else { opt_text(init.sid) };
    &&& r.join_time == f.join_time
    &&& r.nid == (if nid0 is Some { nid0 } else { nid_from_links(f) })
    &&& opt_text(r.sid) == sid0
    &&& r.name == f.name
    &&& r.last_active == la
    &&& r.collections == (if f.has_timeline { f.collections } else { init.collections })
    &&& r.names_update == init.names_update
    &&& r.state == page_state(f.notice_title@, f.notice_tip@, f.name@, la, active_since)
}

/// Interprets what a profile page shows, on top of what was known before
/// (`init`): fails when the site reports no such user, or when the slug is
/// unknown and the page shows no `@handle`. The numeric id, when unknown, is
/// read from the private-message link, else from the avatar.
pub fn interpret_userpage(f: UserPageFacts, init: InitUser, active_since: Timestamp) -> (r: Result<InitUser, PageError>)
    ensures
        f.message@ == "呜咕，出错了"@ ==> r == Err::<InitUser, PageError>(PageError::UserNotFound),
        f.message@ != "呜咕，出错了"@ && init.sid is None && !starts_with(f.handle@, "@"@) ==> r
            == Err::<InitUser, PageError>(PageError::MissingHandle),
        f.message@ != "呜咕，出错了"@ && (init.sid is Some || starts_with(f.handle@, "@"@)) ==> r
            is Ok && interpreted(r->Ok_0, init, f, active_since),
{
    if same_text(f.message.as_str(), "呜咕，出错了") {
        return Err(PageError::UserNotFound);
    }
    let mut init = init;
    init.set_join_time(f.join_time);
    if init.sid.is_none() {
        if !has_prefix(f.handle.as_str(), "@") {
            return Err(PageError::MissingHandle);
        }
        proof {
            reveal_strlit("@");
        }
        let n = f.handle.unicode_len();
        let handle = f.handle.as_str().substring_char(1, n);
        proof {
            assert(handle@ == f.handle@.drop_first());
        }
        init.update_uid(Uid::from_str(handle));
    }
    if init.nid.is_none() {
        if let Some(href) = &f.pm_href {
            if has_prefix(href.as_str(), "/pm/compose/") {
                init.set_nid(nid_from_pm_href(href.as_str()));
            }
        }
    }
    if init.nid.is_none() {
        if let Some(style) = &f.avatar_style {
            if has_prefix(style.as_str(), "background-image:url('//lain.bgm.tv/pic/user/") {
                init.set_nid(nid_from_avatar_style(style.as_str()));
            }
        }
    }
    init.update_name(f.name);
    if f.has_timeline {
        init.set_last_active(f.last_active);
        init.set_collections(f.collections);
    }
    let state = classify_user_state(
        f.notice_title.as_str(),
        f.notice_tip.as_str(),
        init.name.as_str(),
        init.last_active,
        active_since,
    );
    init.update_state(state);
    Ok(init)
}

} // verus!
