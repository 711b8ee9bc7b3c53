use kite_agent::guard::{AuthGuard, GuardAction, GuardEvent, GuardMode, GuardOutcome};
use kite_agent::pool::{QueryStep, Session, SessionPool};
use kite_agent::service::{
    images_to_fetch, match_image_url, store_image, store_images, tag_category, tran_category, Activity,
    ActionError, ActivityDetailRequest, ActivityListRequest, ScActivityRequest, ScImages,
    ScJoinRequest, ScScoreItemRequest, SessionSource,
};
use kite_agent::text::{push_decimal, push_signed_decimal};

const REDIRECT: &str =
    "https://authserver.sit.edu.cn/authserver/login?service=http%3A%2F%2Fsc.sit.edu.cn%2F";

fn session(account: &str, state: &[u8]) -> Session {
    Session { account: account.to_string(), password: "pw".to_string(), state: state.to_vec() }
}

fn fetched(status: u16, url: &str) -> GuardEvent {
    GuardEvent::Fetched { status, final_url: url.to_string() }
}

#[test]
fn category_zero_is_empty() {
    assert_eq!(tran_category(0), Ok(String::new()));
}

#[test]
fn known_categories_map_to_their_keys() {
    assert_eq!(tran_category(5), Ok("8ab17f543fe62d5d013fe62e6dc70001".to_string()));
    assert_eq!(tran_category(1), Ok("001".to_string()));
    assert_eq!(tran_category(11), Ok("ff8080814e241104014fedbbf7fd329d".to_string()));
}

#[test]
fn unknown_categories_are_bad_parameters() {
    assert_eq!(tran_category(12), Err(ActionError::BadParameter));
    assert_eq!(tran_category(-1), Err(ActionError::BadParameter));
    assert_eq!(tran_category(i32::MAX), Err(ActionError::BadParameter));
    let request = ActivityListRequest { count: 10, index: 1, category: 40 };
    assert_eq!(request.plan().err(), Some(ActionError::BadParameter));
}

#[test]
fn list_plan_builds_the_page_address() {
    let request = ActivityListRequest { count: 20, index: 3, category: 1 };
    let plan = request.plan().unwrap();
    assert_eq!(
        plan.url,
        "http://sc.sit.edu.cn/public/activity/activityList.action?pageNo=3&pageSize=20&categoryId=001"
    );
    assert_eq!(plan.session, SessionSource::Random);
    assert_eq!(plan.guard, GuardMode::Eager);
    assert!(!plan.fetch_images);
    let any = ActivityListRequest { count: 65535, index: 0, category: 0 }.plan().unwrap();
    assert_eq!(
        any.url,
        "http://sc.sit.edu.cn/public/activity/activityList.action?pageNo=0&pageSize=65535&categoryId="
    );
}

#[test]
fn detail_plan_is_lazy_and_fetches_images() {
    let plan = ActivityDetailRequest { id: 1234 }.plan();
    assert_eq!(plan.url, "http://sc.sit.edu.cn/public/activity/activityDetail.action?activityId=1234");
    assert_eq!(plan.guard, GuardMode::Lazy);
    assert!(plan.fetch_images);
    let negative = ActivityDetailRequest { id: -7 }.plan();
    assert_eq!(negative.url, "http://sc.sit.edu.cn/public/activity/activityDetail.action?activityId=-7");
}

#[test]
fn account_plans_use_the_account() {
    let score = ScScoreItemRequest { account: "u1".to_string(), password: "p1".to_string() }.plan();
    assert_eq!(score.url, "http://sc.sit.edu.cn/public/pcenter/scoreDetail.action");
    assert_eq!(
        score.session,
        SessionSource::Account { account: "u1".to_string(), password: "p1".to_string() }
    );
    let history = ScActivityRequest { account: "u2".to_string(), password: "p2".to_string() }.plan();
    assert_eq!(history.url, "http://sc.sit.edu.cn/public/pcenter/activityOrderList.action?pageSize=200");
    let join = ScJoinRequest {
        account: "u3".to_string(),
        password: "p3".to_string(),
        activity_id: 9,
        force: false,
    }
    .plan();
    assert_eq!(join.url, history.url);
    assert_eq!(join.guard, GuardMode::Eager);
    assert_eq!(
        join.session,
        SessionSource::Account { account: "u3".to_string(), password: "p3".to_string() }
    );
}

#[test]
fn decimal_text() {
    let mut s = String::new();
    push_decimal(&mut s, 0);
    assert_eq!(s, "0");
    let mut s = "x".to_string();
    push_decimal(&mut s, 4294967295);
    assert_eq!(s, "x4294967295");
    let mut s = String::new();
    push_signed_decimal(&mut s, i32::MIN);
    assert_eq!(s, "-2147483648");
    let mut s = String::new();
    push_signed_decimal(&mut s, 10);
    assert_eq!(s, "10");
}

#[test]
fn listed_activities_get_the_category() {
    let list = vec![
        Activity { id: 1, title: "a".to_string(), category: 0 },
        Activity { id: 2, title: "b".to_string(), category: 3 },
    ];
    let tagged = tag_category(list, 5);
    assert_eq!(tagged.len(), 2);
    assert_eq!(tagged[0], Activity { id: 1, title: "a".to_string(), category: 5 });
    assert_eq!(tagged[1], Activity { id: 2, title: "b".to_string(), category: 5 });
    assert!(tag_category(vec![], 1).is_empty());
}

#[test]
fn image_urls() {
    assert_eq!(match_image_url("/upload/a.png"), "http://sc.sit.edu.cn/upload/a.png");
    assert_eq!(match_image_url("http://sc.sit.edu.cn/b.png"), "http://sc.sit.edu.cn/b.png");
    assert_eq!(match_image_url("http://job.sit.edu.cn/c.png"), "http://job.sit.edu.cn/c.png");
    assert_eq!(match_image_url(""), "http://sc.sit.edu.cn");
}

#[test]
fn only_images_without_content_are_fetched() {
    let mut images = vec![
        ScImages { old_name: "/a.png".to_string(), content: vec![1, 2, 3] },
        ScImages { old_name: "/b.png".to_string(), content: vec![] },
    ];
    let todo = images_to_fetch(&images);
    assert_eq!(todo, vec![1]);
    for i in todo {
        store_image(&mut images, i, Some(vec![7, 7]));
    }
    assert_eq!(images[0], ScImages { old_name: "/a.png".to_string(), content: vec![1, 2, 3] });
    assert_eq!(images[1], ScImages { old_name: "/b.png".to_string(), content: vec![7, 7] });
}

#[test]
fn failed_image_download_leaves_the_image() {
    let mut images = vec![ScImages { old_name: "/a.png".to_string(), content: vec![] }];
    store_image(&mut images, 0, None);
    assert_eq!(images[0], ScImages { old_name: "/a.png".to_string(), content: vec![] });
    assert_eq!(images_to_fetch(&images), vec![0]);
    assert!(images_to_fetch(&vec![]).is_empty());
}

#[test]
fn empty_pool_draws_nothing() {
    let pool = SessionPool::new();
    assert_eq!(pool.len(), 0);
    assert!(pool.choose_randomly(0).is_none());
    assert!(pool.choose_randomly(u64::MAX).is_none());
    assert!(pool.query("a").is_none());
}

#[test]
fn draw_picks_by_position() {
    let mut pool = SessionPool::new();
    pool.insert(session("a", &[1]));
    pool.insert(session("b", &[2]));
    assert_eq!(pool.len(), 2);
    assert_eq!(pool.choose_randomly(0).unwrap().account, "a");
    assert_eq!(pool.choose_randomly(3).unwrap().account, "b");
}

#[test]
fn insert_replaces_the_same_account() {
    let mut pool = SessionPool::new();
    pool.insert(session("a", &[1]));
    pool.insert(session("a", &[2]));
    assert_eq!(pool.len(), 1);
    assert_eq!(pool.query("a").unwrap().state, vec![2]);
}

#[test]
fn concurrent_lookups_log_in_once() {
    let mut pool = SessionPool::new();
    assert_eq!(pool.begin_query("a"), QueryStep::Login);
    assert_eq!(pool.begin_query("a"), QueryStep::Wait);
    assert_eq!(pool.begin_query("b"), QueryStep::Login);
    pool.finish_login("a", Some(session("a", &[4])));
    assert_eq!(pool.begin_query("a"), QueryStep::Ready);
    assert_eq!(pool.query("a").unwrap().state, vec![4]);
    pool.finish_login("b", None);
    assert!(pool.query("b").is_none());
    assert_eq!(pool.begin_query("b"), QueryStep::Login);
}

#[test]
fn login_for_another_account_is_not_stored() {
    let mut pool = SessionPool::new();
    assert_eq!(pool.begin_query("a"), QueryStep::Login);
    pool.finish_login("a", Some(session("z", &[1])));
    assert_eq!(pool.len(), 0);
    assert_eq!(pool.begin_query("a"), QueryStep::Login);
}

#[test]
fn lazy_guard_with_ok_response_costs_nothing() {
    let (mut guard, first) = AuthGuard::start(GuardMode::Lazy);
    assert_eq!(first, GuardAction::FetchTarget);
    assert_eq!(guard.step(fetched(200, "http://sc.sit.edu.cn/x")), GuardAction::Done(GuardOutcome::UseResponse));
}

#[test]
fn lazy_guard_reauthenticates_once_then_retries() {
    let (mut guard, _) = AuthGuard::start(GuardMode::Lazy);
    assert_eq!(guard.step(fetched(302, "http://sc.sit.edu.cn/x")), GuardAction::FetchLanding);
    assert_eq!(guard.step(fetched(200, REDIRECT)), GuardAction::Login);
    assert_eq!(guard.step(GuardEvent::LoggedIn), GuardAction::FetchLanding);
    assert_eq!(guard.step(fetched(200, "http://sc.sit.edu.cn/")), GuardAction::Done(GuardOutcome::RetryTarget));
}

#[test]
fn lazy_guard_with_live_session_retries_without_login() {
    let (mut guard, _) = AuthGuard::start(GuardMode::Lazy);
    assert_eq!(guard.step(fetched(500, "http://sc.sit.edu.cn/x")), GuardAction::FetchLanding);
    assert_eq!(guard.step(fetched(200, "http://sc.sit.edu.cn/")), GuardAction::Done(GuardOutcome::RetryTarget));
}

#[test]
fn eager_guard_checks_first() {
    let (mut guard, first) = AuthGuard::start(GuardMode::Eager);
    assert_eq!(first, GuardAction::FetchLanding);
    assert_eq!(guard.step(fetched(200, "http://sc.sit.edu.cn/")), GuardAction::Done(GuardOutcome::Active));
    let (mut guard, _) = AuthGuard::start(GuardMode::Eager);
    assert_eq!(guard.step(fetched(200, REDIRECT)), GuardAction::Login);
    assert_eq!(guard.step(GuardEvent::LoggedIn), GuardAction::FetchLanding);
    assert_eq!(guard.step(fetched(200, REDIRECT)), GuardAction::Done(GuardOutcome::Active));
}

#[test]
fn failed_login_ends_the_check() {
    let (mut guard, _) = AuthGuard::start(GuardMode::Eager);
    assert_eq!(guard.step(fetched(200, REDIRECT)), GuardAction::Login);
    assert_eq!(guard.step(GuardEvent::Error), GuardAction::Done(GuardOutcome::Failed));
    assert_eq!(guard.step(GuardEvent::LoggedIn), GuardAction::Done(GuardOutcome::Failed));
}

#[test]
fn stored_downloads_touch_only_empty_images() {
    let mut images = vec![
        ScImages { old_name: "/a.png".to_string(), content: vec![] },
        ScImages { old_name: "/b.png".to_string(), content: vec![5] },
        ScImages { old_name: "/c.png".to_string(), content: vec![] },
    ];
    let todo = images_to_fetch(&images);
    assert_eq!(todo, vec![0, 2]);
    store_images(&mut images, &todo, vec![Some(vec![1]), None]);
    assert_eq!(images[0], ScImages { old_name: "/a.png".to_string(), content: vec![1] });
    assert_eq!(images[1], ScImages { old_name: "/b.png".to_string(), content: vec![5] });
    assert_eq!(images[2], ScImages { old_name: "/c.png".to_string(), content: vec![] });
}
