use kite_agent::pool::{QueryStep, Session, SessionPool};
use kite_agent::run::{copy_session, RequestRun, RunAction, RunError, RunEvent, RunPhase};
use kite_agent::service::{ActivityDetailRequest, ActivityListRequest, ScScoreItemRequest};

const LOGIN_PAGE: &str =
    "https://authserver.sit.edu.cn/authserver/login?service=http%3A%2F%2Fsc.sit.edu.cn%2F";
const DETAIL: &str = "http://sc.sit.edu.cn/public/activity/activityDetail.action?activityId=8";
const SCORE: &str = "http://sc.sit.edu.cn/public/pcenter/scoreDetail.action";

fn session(account: &str, state: &[u8]) -> Session {
    Session { account: account.to_string(), password: "pw".to_string(), state: state.to_vec() }
}

fn fetched(status: u16, url: &str, body: &[u8], state: &[u8]) -> RunEvent {
    RunEvent::Fetched { status, final_url: url.to_string(), body: body.to_vec(), state: state.to_vec() }
}

#[test]
fn run_without_any_session_fails() {
    let mut pool = SessionPool::new();
    let mut run = RequestRun::new(ActivityDetailRequest { id: 8 }.plan());
    assert_eq!(run.phase(), RunPhase::Acquire);
    assert_eq!(
        run.step(&mut pool, RunEvent::Start { draw: 3 }),
        RunAction::Finish(Err(RunError::NoSessionAvailable))
    );
    assert_eq!(run.phase(), RunPhase::Finished);
    assert_eq!(run.step(&mut pool, RunEvent::Failed), RunAction::Finish(Err(RunError::FetchFailed)));
}

#[test]
fn lazy_run_with_live_session_fetches_once() {
    let mut pool = SessionPool::new();
    pool.insert(session("a", &[1]));
    let mut run = RequestRun::new(ActivityDetailRequest { id: 8 }.plan());
    assert_eq!(run.step(&mut pool, RunEvent::Start { draw: 0 }), RunAction::Fetch(DETAIL.to_string()));
    assert_eq!(run.session().unwrap().account, "a");
    assert_eq!(
        run.step(&mut pool, fetched(200, DETAIL, b"<html>", &[2])),
        RunAction::Finish(Ok(b"<html>".to_vec()))
    );
    assert_eq!(pool.query("a").unwrap().state, vec![2]);
}

#[test]
fn lazy_run_renews_an_expired_session_then_retries() {
    let mut pool = SessionPool::new();
    pool.insert(session("a", &[1]));
    let mut run = RequestRun::new(ActivityDetailRequest { id: 8 }.plan());
    assert_eq!(run.step(&mut pool, RunEvent::Start { draw: 5 }), RunAction::Fetch(DETAIL.to_string()));
    assert_eq!(run.step(&mut pool, fetched(302, DETAIL, b"", &[1])), RunAction::Fetch(LOGIN_PAGE.to_string()));
    assert_eq!(
        run.step(&mut pool, fetched(200, LOGIN_PAGE, b"", &[1])),
        RunAction::Login { account: "a".to_string(), password: "pw".to_string() }
    );
    assert_eq!(run.step(&mut pool, RunEvent::LoggedIn(session("a", &[9]))), RunAction::Fetch(LOGIN_PAGE.to_string()));
    assert_eq!(
        run.step(&mut pool, fetched(200, "http://sc.sit.edu.cn/", b"", &[9])),
        RunAction::Fetch(DETAIL.to_string())
    );
    assert_eq!(run.phase(), RunPhase::Target);
    assert_eq!(run.step(&mut pool, fetched(200, DETAIL, b"page", &[10])), RunAction::Finish(Ok(b"page".to_vec())));
    assert_eq!(pool.query("a").unwrap().state, vec![10]);
}

#[test]
fn account_run_logs_in_then_checks_eagerly() {
    let mut pool = SessionPool::new();
    let request = ScScoreItemRequest { account: "u".to_string(), password: "p".to_string() };
    let mut run = RequestRun::new(request.plan());
    assert_eq!(
        run.step(&mut pool, RunEvent::Start { draw: 0 }),
        RunAction::Login { account: "u".to_string(), password: "p".to_string() }
    );
    // A second lookup of the same account meanwhile waits.
    assert_eq!(pool.begin_query("u"), QueryStep::Wait);
    let fresh = Session { account: "u".to_string(), password: "p".to_string(), state: vec![3] };
    assert_eq!(run.step(&mut pool, RunEvent::LoggedIn(fresh)), RunAction::Fetch(LOGIN_PAGE.to_string()));
    assert_eq!(pool.begin_query("u"), QueryStep::Ready);
    assert_eq!(
        run.step(&mut pool, fetched(200, "http://sc.sit.edu.cn/", b"", &[3])),
        RunAction::Fetch(SCORE.to_string())
    );
    assert_eq!(run.step(&mut pool, fetched(200, SCORE, b"score", &[4])), RunAction::Finish(Ok(b"score".to_vec())));
    assert_eq!(pool.query("u").unwrap().state, vec![4]);
}

#[test]
fn waiting_run_asks_again() {
    let mut pool = SessionPool::new();
    assert_eq!(pool.begin_query("u"), QueryStep::Login);
    let request = ScScoreItemRequest { account: "u".to_string(), password: "p".to_string() };
    let mut run = RequestRun::new(request.plan());
    assert_eq!(run.step(&mut pool, RunEvent::Start { draw: 0 }), RunAction::Wait);
    assert_eq!(run.phase(), RunPhase::Acquire);
    pool.finish_login("u", Some(session("u", &[1])));
    assert_eq!(run.step(&mut pool, RunEvent::Start { draw: 0 }), RunAction::Fetch(LOGIN_PAGE.to_string()));
}

#[test]
fn failed_login_fails_the_run() {
    let mut pool = SessionPool::new();
    let request = ScScoreItemRequest { account: "u".to_string(), password: "bad".to_string() };
    let mut run = RequestRun::new(request.plan());
    assert!(matches!(run.step(&mut pool, RunEvent::Start { draw: 0 }), RunAction::Login { .. }));
    assert_eq!(run.step(&mut pool, RunEvent::Failed), RunAction::Finish(Err(RunError::LoginFailed)));
    assert_eq!(pool.len(), 0);
    assert_eq!(pool.begin_query("u"), QueryStep::Login);
}

#[test]
fn failed_target_fetch_fails_the_run() {
    let mut pool = SessionPool::new();
    pool.insert(session("a", &[1]));
    let mut run = RequestRun::new(ActivityListRequest { count: 10, index: 1, category: 0 }.plan().unwrap());
    assert_eq!(run.step(&mut pool, RunEvent::Start { draw: 0 }), RunAction::Fetch(LOGIN_PAGE.to_string()));
    assert!(matches!(run.step(&mut pool, fetched(200, "http://sc.sit.edu.cn/", b"", &[1])), RunAction::Fetch(_)));
    assert_eq!(run.step(&mut pool, RunEvent::Failed), RunAction::Finish(Err(RunError::FetchFailed)));
    assert_eq!(pool.query("a").unwrap().state, vec![1]);
}

#[test]
fn session_copy_is_equal() {
    let s = session("a", &[1, 2]);
    assert_eq!(copy_session(&s), s);
}

#[test]
fn renewal_keeps_the_account_and_refuses_another() {
    let mut pool = SessionPool::new();
    pool.insert(session("a", &[1]));
    let mut run = RequestRun::new(ActivityDetailRequest { id: 8 }.plan());
    run.step(&mut pool, RunEvent::Start { draw: 0 });
    run.step(&mut pool, fetched(302, DETAIL, b"", &[1]));
    assert!(matches!(run.step(&mut pool, fetched(200, LOGIN_PAGE, b"", &[1])), RunAction::Login { .. }));
    let other = Session { account: "z".to_string(), password: "zz".to_string(), state: vec![7] };
    assert_eq!(run.step(&mut pool, RunEvent::LoggedIn(other)), RunAction::Finish(Err(RunError::FetchFailed)));
    assert_eq!(pool.query("a").unwrap().state, vec![1]);
    assert!(pool.query("z").is_none());
}

#[test]
fn renewed_session_is_stored_under_its_account() {
    let mut pool = SessionPool::new();
    pool.insert(session("a", &[1]));
    let mut run = RequestRun::new(ActivityDetailRequest { id: 8 }.plan());
    run.step(&mut pool, RunEvent::Start { draw: 0 });
    run.step(&mut pool, fetched(302, DETAIL, b"", &[1]));
    run.step(&mut pool, fetched(200, LOGIN_PAGE, b"", &[1]));
    let renewed = Session { account: "a".to_string(), password: "new".to_string(), state: vec![8] };
    assert_eq!(run.step(&mut pool, RunEvent::LoggedIn(renewed)), RunAction::Fetch(LOGIN_PAGE.to_string()));
    run.step(&mut pool, fetched(200, "http://sc.sit.edu.cn/", b"", &[8]));
    assert_eq!(run.step(&mut pool, fetched(200, DETAIL, b"p", &[9])), RunAction::Finish(Ok(b"p".to_vec())));
    assert_eq!(pool.query("a").unwrap(), &session("a", &[9]));
}

#[test]
fn random_run_refuses_an_event_before_start() {
    let mut pool = SessionPool::new();
    pool.insert(session("a", &[1]));
    let mut run = RequestRun::new(ActivityDetailRequest { id: 8 }.plan());
    assert_eq!(run.step(&mut pool, RunEvent::Failed), RunAction::Finish(Err(RunError::LoginFailed)));
    assert_eq!(pool.len(), 1);
}
