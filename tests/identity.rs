use bgm_collector::names::Names;
use bgm_collector::store::{StoreError, UserTable};
use bgm_collector::text::split_nth;
use bgm_collector::uid::Uid;
use bgm_collector::user::{Collections, InitUser, NamesUpdate, SubjectState, SubjectType, TypedCollection, UserState};

fn names(list: &[&str]) -> Names {
    Names::from_vec(list.iter().map(|s| s.to_string()).collect())
}

fn sorted(n: &Names) -> Vec<String> {
    let mut v = n.to_vec();
    v.sort();
    v
}

#[test]
fn uid_from_str_prefers_number() {
    assert!(matches!(Uid::from_str("123"), Uid::Nid(123)));
    assert!(matches!(Uid::from_str("-7"), Uid::Nid(-7)));
    match Uid::from_str("alice") {
        Uid::Sid(s) => assert_eq!(s, "alice"),
        Uid::Nid(_) => panic!("slug read as number"),
    }
    // too large for an i32: a slug
    assert!(Uid::from_str("99999999999").is_sid());
    assert!(Uid::from_str("12a").is_sid());
}

#[test]
fn uid_to_string() {
    assert_eq!(Uid::Nid(928410).to_string(), "928410");
    assert_eq!(Uid::Nid(-3).to_string(), "-3");
    assert_eq!(Uid::Sid("sai".to_string()).to_string(), "sai");
}

#[test]
fn split_nth_takes_path_segment() {
    let url = "https://bgm.tv/user/sai/timeline?type=say&ajax=1&page=2";
    assert_eq!(split_nth(url, '/', 4), "sai");
    assert_eq!(split_nth(url, '/', 0), "https:");
    assert_eq!(split_nth(url, '/', 1), "");
    assert_eq!(split_nth("https://bgm.tv", '/', 4), "");
}

#[test]
fn names_union() {
    let mut a = names(&["a", "b"]);
    a.extend(names(&["b", "c"]));
    assert_eq!(sorted(&a), vec!["a", "b", "c"]);
    assert!(a.contains(&"c".to_string()));
    assert!(!a.contains(&"d".to_string()));
    a.insert("a".to_string());
    assert_eq!(a.to_vec().len(), 3);
}

#[test]
fn state_names_ignore_case() {
    assert_eq!(SubjectState::from_str("ON_HOLD"), Ok(SubjectState::OnHold));
    assert_eq!(SubjectState::from_str("Do"), Ok(SubjectState::Do));
    assert_eq!(SubjectState::from_str("doing"), Err(()));
    assert_eq!(SubjectType::from_str("Anime"), Ok(SubjectType::Anime));
    assert_eq!(UserState::from_str("BANNED"), Ok(UserState::Banned));
    assert_eq!(UserState::Abondon.to_string(), "abondon");
}

#[test]
fn typed_collection_build() {
    assert_eq!(TypedCollection::build(vec![]), None);
    assert_eq!(TypedCollection::build(vec![("unknown".to_string(), 3)]), None);
    let c = TypedCollection::build(vec![
        ("do".to_string(), 1),
        ("collect".to_string(), 20),
        ("bogus".to_string(), 9),
        ("Wish".to_string(), 5),
        ("do".to_string(), 2),
    ])
    .unwrap();
    assert_eq!(c.doing, Some(2));
    assert_eq!(c.collect, Some(20));
    assert_eq!(c.wish, Some(5));
    assert_eq!(c.on_hold, None);
    assert_eq!(c.dropped, None);
}

#[test]
fn collections_build() {
    assert_eq!(Collections::build(vec![]), None);
    assert_eq!(Collections::build(vec![(SubjectType::Game, None)]), None);
    let t = TypedCollection { doing: Some(1), collect: None, wish: None, on_hold: None, dropped: None };
    let c = Collections::build(vec![(SubjectType::Anime, Some(t)), (SubjectType::Book, None)]).unwrap();
    assert_eq!(c.anime, Some(t));
    assert_eq!(c.book, None);
    assert_eq!(c.game, None);
}

fn profile(nid: Option<i32>, sid: Option<&str>, name: &str) -> InitUser {
    let mut init = InitUser::default();
    init.set_nid(nid);
    init.set_sid(sid.map(|s| s.to_string()));
    init.update_name(name.to_string());
    init.update_state(UserState::Active);
    init
}

#[test]
fn upsert_merges_slug_into_numeric_record() {
    let mut t = UserTable::new();
    assert_eq!(t.upsert_user(profile(Some(123), None, "old"), 1, 100), Ok(0));
    assert_eq!(t.len(), 1);
    assert_eq!(t.upsert_user(profile(Some(123), Some("alice"), "Alice"), 2, 200), Ok(0));
    assert_eq!(t.len(), 1);
    let r = t.get(0);
    assert_eq!(r.id, 1);
    assert_eq!(r.nid, Some(123));
    assert_eq!(r.sid.as_deref(), Some("alice"));
    assert_eq!(r.name, "Alice");
    assert_eq!(r.update_at, 200);
    assert!(t.find_by_uid(&Uid::Sid("alice".to_string())).is_some());
    assert!(t.find_by_uid(&Uid::Nid(123)).is_some());
}

#[test]
fn upsert_matches_either_key() {
    let mut t = UserTable::new();
    assert_eq!(t.upsert_user(profile(None, Some("bob"), "Bob"), 1, 10), Ok(0));
    assert_eq!(t.upsert_user(profile(Some(7), None, "Seven"), 2, 10), Ok(1));
    assert_eq!(t.upsert_user(profile(Some(5), Some("bob"), "Bob2"), 3, 20), Ok(0));
    assert_eq!(t.len(), 2);
    assert_eq!(t.get(0).nid, Some(5));
    assert_eq!(t.upsert_user(profile(None, None, "nobody"), 4, 30), Err(StoreError::MissingKey));
    assert_eq!(t.len(), 2);
}

#[test]
fn new_record_takes_names_update() {
    let mut t = UserTable::new();
    let mut init = profile(Some(9), None, "N");
    init.update_names_update(NamesUpdate { key_point: 50, names: names(&["x"]) });
    assert_eq!(t.upsert_user(init, 11, 60), Ok(0));
    let h = t.get(0).extra.name_history.as_ref().unwrap();
    assert_eq!(h.key_point, 50);
    assert_eq!(h.update_at, 60);
    assert_eq!(sorted(&h.names), vec!["x"]);
}
