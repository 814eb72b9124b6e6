use bgm_collector::config::{OnAir, Proxy, User};
use bgm_collector::page::{
    classify_user_state, has_text, interpret_userpage, nid_from_avatar_style, nid_from_pm_href, trim_end_matches,
    PageError, UserPageFacts,
};
use bgm_collector::scheduler::{RetryRun, RunPhase, Scheduler, Task};
use bgm_collector::user::{InitUser, UserState};

#[test]
fn proxy_uri() {
    let p = Proxy { host: Some("127.0.0.1".to_string()), port: Some(7890) };
    assert_eq!(p.get_uri().as_deref(), Some("127.0.0.1:7890"));
    assert_eq!(Proxy { host: None, port: Some(1) }.get_uri(), None);
    assert_eq!(Proxy::default().get_uri(), None);
}

#[test]
fn config_defaults() {
    assert_eq!(Scheduler::default_cron(), "0 0 0 * * *");
    assert_eq!(Scheduler::default_retry(), 1);
    let u = User::default();
    assert_eq!(u.origins, vec!["https://bgm.tv", "https://chii.in", "https://bangumi.tv"]);
    assert_eq!(u.active_month, 6);
    assert!(u.origins.contains(u.random_origin()));
    assert!(OnAir::default_mirror().ends_with("dist/data.json"));
}

#[test]
fn retry_stops_at_first_success() {
    let mut run = RetryRun::new(3);
    assert!(run.begin());
    run.record(false);
    assert_eq!(run.phase, RunPhase::Retrying);
    assert!(run.begin());
    run.record(true);
    assert_eq!(run.phase, RunPhase::Succeeded);
    assert_eq!(run.attempts, 2);
    assert!(run.is_finished());
}

#[test]
fn retry_gives_up_after_last_try() {
    let mut run = RetryRun::new(2);
    assert!(run.begin());
    run.record(false);
    assert!(run.begin());
    run.record(false);
    assert_eq!(run.phase, RunPhase::Failed);
    assert_eq!(run.attempts, 2);
    let mut none = RetryRun::new(0);
    assert!(!none.begin());
    assert_eq!(none.phase, RunPhase::Failed);
}

#[test]
fn task_fields() {
    let t = Task::new("OnAir Data Refresh".to_string(), Scheduler::default(), true);
    assert_eq!(t.get_name(), "OnAir Data Refresh");
    assert_eq!(t.get_cron(), "0 0 0 * * *");
    assert_eq!(t.get_retry(), 1);
    assert!(t.get_run_now());
}

#[test]
fn link_ids() {
    assert_eq!(nid_from_pm_href("/pm/compose/928410.chii"), Some(928410));
    assert_eq!(nid_from_pm_href("/pm/compose/12.chii.chii"), Some(12));
    assert_eq!(nid_from_pm_href("/user/12"), None);
    assert_eq!(
        nid_from_avatar_style("background-image:url('//lain.bgm.tv/pic/user/l/000/92/84/928410_abc.jpg?r=1')"),
        Some(928410)
    );
    assert_eq!(nid_from_avatar_style("background-image:url('//lain.bgm.tv/pic/user/l/icon.jpg')"), None);
    assert_eq!(nid_from_avatar_style("color: red"), None);
    assert_eq!(trim_end_matches("x.chii.chii", ".chii"), "x");
    assert!(has_text("将于 2025 解封", "解封"));
    assert!(!has_text("", "解封"));
}

#[test]
fn user_state_from_page() {
    assert_eq!(classify_user_state("用户已封禁", "", "n", Some(10), 0), UserState::Banned);
    assert_eq!(classify_user_state("用户已封禁", "将于明日解封", "n", Some(10), 0), UserState::Active);
    assert_eq!(classify_user_state("", "", "[已封禁]", None, 0), UserState::Banned);
    assert_eq!(classify_user_state("", "", "someone", None, 0), UserState::Dropped);
    assert_eq!(classify_user_state("", "", "someone", Some(5), 10), UserState::Abondon);
}

fn facts() -> UserPageFacts {
    UserPageFacts {
        message: String::new(),
        join_time: Some(1460563200),
        handle: "@vickscarlet".to_string(),
        pm_href: Some("/pm/compose/456.chii".to_string()),
        avatar_style: None,
        name: "神戸小鳥".to_string(),
        has_timeline: true,
        last_active: Some(1000),
        collections: None,
        notice_title: String::new(),
        notice_tip: String::new(),
    }
}

#[test]
fn interpret_profile_page() {
    let init = interpret_userpage(facts(), InitUser::default(), 500).unwrap();
    assert_eq!(init.name, "神戸小鳥");
    assert_eq!(init.sid.as_deref(), Some("vickscarlet"));
    assert_eq!(init.nid, Some(456));
    assert_eq!(init.join_time, Some(1460563200));
    assert_eq!(init.state, UserState::Active);

    let mut f = facts();
    f.message = "呜咕，出错了".to_string();
    assert!(matches!(interpret_userpage(f, InitUser::default(), 500), Err(PageError::UserNotFound)));
    let mut f = facts();
    f.handle = "vickscarlet".to_string();
    assert!(matches!(interpret_userpage(f, InitUser::default(), 500), Err(PageError::MissingHandle)));
}

#[test]
fn catalog_task() {
    let t = bgm_collector::scheduler::task(Scheduler { cron: "0 */5 * * * *".to_string(), retry: 3 });
    assert_eq!(t.get_name(), "OnAir Data Refresh");
    assert_eq!(t.get_cron(), "0 */5 * * * *");
    assert_eq!(t.get_retry(), 3);
    assert!(t.get_run_now());
}
