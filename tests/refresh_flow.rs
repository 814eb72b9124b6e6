use bgm_collector::clock::TimeError;
use bgm_collector::coalescer::{Admission, TaskQueue};
use bgm_collector::fresh::UserFreshDuration;
use bgm_collector::names::Names;
use bgm_collector::refresh::{
    canonical_uid, fetch_init, name_history_is_stale, name_walk_for, plan_read, profile_is_stale, ReadPlan,
};
use bgm_collector::store::{StoreError, UserTable};
use bgm_collector::timeline::{Compass, NameWalk, TimelinePage, WalkError, WalkStep};
use bgm_collector::uid::Uid;
use bgm_collector::user::{InitUser, NamesUpdate, UserState};

const DAY: i64 = 86400;

fn names(list: &[&str]) -> Names {
    Names::from_vec(list.iter().map(|s| s.to_string()).collect())
}

fn sorted(n: &Names) -> Vec<String> {
    let mut v = n.to_vec();
    v.sort();
    v
}

fn page(checkpoint: i64, list: &[&str]) -> Result<Option<TimelinePage>, TimeError> {
    Ok(Some(TimelinePage { checkpoint, names: names(list) }))
}

#[test]
fn compass_urls() {
    let c = Compass::new(Uid::Sid("sai".to_string()));
    assert_eq!(c.home("https://bgm.tv"), "https://bgm.tv/user/sai");
    assert_eq!(
        c.timeline_say_with_page("https://bgm.tv", 3),
        "https://bgm.tv/user/sai/timeline?type=say&ajax=1&page=3"
    );
    assert_eq!(Compass::with_origin("https://chii.in", "user/1"), "https://chii.in/user/1");
}

#[test]
fn walk_stops_at_stored_checkpoint() {
    let mut w = NameWalk::new(Uid::Nid(5), 1000);
    let origin = "https://bgm.tv";
    let url = w.url(origin);
    assert_eq!(url, "https://bgm.tv/user/5/timeline?type=say&ajax=1&page=1");
    assert!(matches!(w.on_response(&url, &url, 200), WalkStep::ReadBody));
    assert!(matches!(w.on_page(page(5000, &["a"]), 9999), WalkStep::Fetch));
    assert_eq!(w.page, 2);
    let url = w.url(origin);
    assert!(matches!(w.on_response(&url, &url, 200), WalkStep::ReadBody));
    match w.on_page(page(1000, &["b"]), 9999) {
        WalkStep::Done(u) => {
            assert_eq!(u.key_point, 5000);
            assert_eq!(sorted(&u.names), vec!["a", "b"]);
        }
        _ => panic!("walk should end at the stored checkpoint"),
    }
}

#[test]
fn walk_redirect_retries_same_page() {
    let origin = "https://bgm.tv";
    let mut w = NameWalk::new(Uid::Nid(123), 0);
    let url = w.url(origin);
    assert!(matches!(w.on_response(&url, &url, 200), WalkStep::ReadBody));
    assert!(matches!(w.on_page(page(500, &[]), 900), WalkStep::Fetch));
    assert_eq!(w.page, 2);
    let requested = w.url(origin);
    let final_url = "https://bgm.tv/user/alice/timeline?type=say&ajax=1&page=2";
    assert!(matches!(w.on_response(&requested, final_url, 200), WalkStep::Fetch));
    assert_eq!(w.page, 2);
    assert_eq!(w.url(origin), final_url);
    assert!(matches!(w.uid, Uid::Sid(ref s) if s == "alice"));
}

#[test]
fn walk_without_timeline_uses_now() {
    let mut w = NameWalk::new(Uid::Nid(1), i64::MIN);
    match w.on_page(Ok(None), 777) {
        WalkStep::Done(u) => {
            assert_eq!(u.key_point, 777);
            assert!(u.names.to_vec().is_empty());
        }
        _ => panic!("no timeline ends the walk"),
    }
}

#[test]
fn walk_failures() {
    let mut w = NameWalk::new(Uid::Nid(1), 0);
    let url = w.url("https://bgm.tv");
    assert!(matches!(w.on_response(&url, &url, 404), WalkStep::Failed(WalkError::Status(404))));
    assert!(matches!(w.on_page(Err(TimeError::Unreadable), 1), WalkStep::Failed(WalkError::Parse)));
    assert_eq!(w.page, 1);
}

fn stored_user(table: &mut UserTable) {
    let mut init = InitUser::default();
    init.set_nid(Some(42));
    init.update_name("n".to_string());
    init.update_names_update(NamesUpdate { key_point: 100, names: names(&["old"]) });
    assert_eq!(table.upsert_user(init, 1, 200), Ok(0));
}

#[test]
fn failed_walk_leaves_history_untouched() {
    let mut t = UserTable::new();
    stored_user(&mut t);
    let mut w = NameWalk::new(Uid::Nid(42), 100);
    let origin = "https://bgm.tv";
    for checkpoint in [900, 800] {
        let url = w.url(origin);
        assert!(matches!(w.on_response(&url, &url, 200), WalkStep::ReadBody));
        assert!(matches!(w.on_page(page(checkpoint, &["new"]), 1000), WalkStep::Fetch));
    }
    assert_eq!(w.page, 3);
    let url = w.url(origin);
    let e = match w.on_response(&url, &url, 500) {
        WalkStep::Failed(e) => e,
        _ => panic!("page 3 should fail"),
    };
    assert_eq!(t.finish_name_walk(&Uid::Nid(42), Err(e), 1000), Err(StoreError::Walk(WalkError::Status(500))));
    let h = t.get(0).extra.name_history.as_ref().unwrap();
    assert_eq!(h.key_point, 100);
    assert_eq!(h.update_at, 200);
    assert_eq!(sorted(&h.names), vec!["old"]);
}

#[test]
fn finished_walk_merges_history() {
    let mut t = UserTable::new();
    stored_user(&mut t);
    let u = NamesUpdate { key_point: 50, names: names(&["new"]) };
    assert_eq!(t.finish_name_walk(&Uid::Nid(42), Ok(u), 300), Ok(0));
    let h = t.get(0).extra.name_history.as_ref().unwrap();
    assert_eq!(h.key_point, 100);
    assert_eq!(h.update_at, 300);
    assert_eq!(sorted(&h.names), vec!["new", "old"]);
    let u = NamesUpdate { key_point: 150, names: names(&[]) };
    assert_eq!(t.update_name_history(&Uid::Nid(42), u, 400), Ok(0));
    assert_eq!(t.get(0).extra.name_history.as_ref().unwrap().key_point, 150);
    let u = NamesUpdate { key_point: 1, names: names(&[]) };
    assert_eq!(t.update_name_history(&Uid::Nid(7), u, 400), Err(StoreError::NotFound));
}

#[test]
fn banned_is_not_refreshed_but_active_is() {
    let fresh = UserFreshDuration::default();
    let now = 2_000_000_000;
    let long_ago = now - 3650 * DAY;
    assert!(!fresh.is_expired(long_ago, UserState::Banned, now));
    assert!(!fresh.is_expired(long_ago, UserState::Dropped, now));
    assert!(fresh.is_expired(long_ago, UserState::Active, now));
    assert!(fresh.is_expired(long_ago, UserState::Abondon, now));
    assert!(!fresh.is_expired(now - DAY / 2, UserState::Active, now));
    assert_eq!(fresh.get_fresh_duration(UserState::Abondon), 30);
    assert_eq!(UserFreshDuration::default_banned_duration(), 36500);
}

#[test]
fn stale_checks_and_walk_start() {
    let fresh = UserFreshDuration::default();
    let mut t = UserTable::new();
    let mut init = fetch_init(Uid::Nid(9));
    init.update_state(UserState::Active);
    assert_eq!(t.upsert_user(init, 1, 0), Ok(0));
    let u = t.get(0);
    assert!(profile_is_stale(&fresh, u, 2 * DAY));
    assert!(!profile_is_stale(&fresh, u, DAY / 2));
    assert!(name_history_is_stale(&fresh, u, 0));
    let w = name_walk_for(&fresh, u, 0).unwrap();
    assert_eq!(w.stop_at, i64::MIN);
    assert!(matches!(w.uid, Uid::Nid(9)));
    assert!(matches!(canonical_uid(u), Uid::Nid(9)));

    let mut init = fetch_init(Uid::Sid("nine".to_string()));
    init.set_nid(Some(9));
    init.update_state(UserState::Active);
    init.update_names_update(NamesUpdate { key_point: 77, names: names(&[]) });
    assert_eq!(t.upsert_user(init, 2, 10), Ok(0));
    let u = t.get(0);
    assert!(name_walk_for(&fresh, u, 10 + DAY / 2).is_none());
    let w = name_walk_for(&fresh, u, 10 + 2 * DAY).unwrap();
    assert_eq!(w.stop_at, 77);
    assert!(matches!(w.uid, Uid::Sid(ref s) if s == "nine"));
}

#[test]
fn queue_coalesces_same_key() {
    let mut q = TaskQueue::new(2);
    let key = Uid::Nid(1);
    let mut started = 0;
    for _ in 0..5 {
        if q.enter(&key) == Admission::Start {
            started += 1;
        }
    }
    assert_eq!(started, 1);
    assert_eq!(q.running(), 1);
    q.finish(&key);
    assert_eq!(q.running(), 0);
    assert_eq!(q.enter(&key), Admission::Start);
}

#[test]
fn queue_bounds_running_work() {
    let mut q = TaskQueue::new(2);
    assert_eq!(q.enter(&Uid::Nid(1)), Admission::Start);
    assert_eq!(q.enter(&Uid::Sid("b".to_string())), Admission::Start);
    assert_eq!(q.enter(&Uid::Nid(3)), Admission::Wait);
    assert_eq!(q.enter(&Uid::Nid(4)), Admission::Wait);
    assert_eq!(q.running(), 2);
    assert!(q.contains(&Uid::Sid("b".to_string())));
    q.finish(&Uid::Sid("b".to_string()));
    assert_eq!(q.enter(&Uid::Nid(3)), Admission::Start);
    assert_eq!(q.running(), 2);
    q.finish(&Uid::Nid(99));
    assert_eq!(q.running(), 2);
}

#[test]
fn read_plan_serves_cached_and_gates_refresh() {
    let fresh = UserFreshDuration::default();
    let mut t = UserTable::new();
    let now = 2_000_000_000;
    assert_eq!(plan_read(&fresh, &t, &Uid::Nid(1), now), ReadPlan::FirstFetch);
    let mut banned = fetch_init(Uid::Nid(1));
    banned.update_state(UserState::Banned);
    assert_eq!(t.upsert_user(banned, 1, now - 3650 * DAY), Ok(0));
    let mut active = fetch_init(Uid::Sid("act".to_string()));
    active.update_state(UserState::Active);
    assert_eq!(t.upsert_user(active, 2, now - 3650 * DAY), Ok(1));
    assert_eq!(
        plan_read(&fresh, &t, &Uid::Nid(1), now),
        ReadPlan::Serve { index: 0, refresh_profile: false, refresh_names: true }
    );
    assert_eq!(
        plan_read(&fresh, &t, &Uid::Sid("act".to_string()), now),
        ReadPlan::Serve { index: 1, refresh_profile: true, refresh_names: true }
    );
}
