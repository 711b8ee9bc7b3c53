use vstd::prelude::*;
use crate::guard::{
    guard_next, login_redirect_url, sso_sc_redirect, AuthGuard, GuardAction, GuardEvent, GuardMode, GuardOutcome,
    GuardPhase,
};
use crate::pool::{finish_login_spec, insert_spec, query_spec, QueryStep, Session, SessionPool, SessionView};
use crate::service::{FetchPlan, SessionSource};

verus! {

/// A copy of a session.
pub fn copy_session(s: &Session) -> (r: Session)
    ensures
        r@ == s@,
{
    let state = s.state.clone();
    proof {
        assert(state@ =~= s.state@);
    }
    Session { account: s.account.clone(), password: s.password.clone(), state }
}

/// Why a request could not be carried out.
#[derive(Debug, Clone, Copy, PartialEq, Eq, Structural)]
pub enum RunError {
    /// The request takes any session and none is stored.
    NoSessionAvailable,
    /// Logging in to the request's account failed.
    LoginFailed,
    /// A fetch failed, or the session could not be renewed.
    FetchFailed,
}

/// What the caller observed after the last action.
#[derive(Debug, Clone, PartialEq, Eq)]
pub enum RunEvent {
    /// Begin, or go on after a wait; `draw` picks the session of a request
    /// that takes any.
    Start { draw: u64 },
    /// A response came: its status, the address it ended at, its body, and the
    /// session state it left behind.
    Fetched { status: u16, final_url: String, body: Vec<u8>, state: Vec<u8> },
    /// A login succeeded with this session.
    LoggedIn(Session),
    /// The fetch or the login failed.
    Failed,
}

/// What the caller does next.
#[derive(Debug, PartialEq, Eq)]
pub enum RunAction {
    /// Log in with this account and password, and report `LoggedIn` or `Failed`.
    Login { account: String, password: String },
    /// Another caller is logging in to the account: report `Start` again later.
    Wait,
    /// Fetch this address with the run's session, and report `Fetched` or `Failed`.
    Fetch(String),
    /// The request is over: the body of the page, or why it failed.
    Finish(Result<Vec<u8>, RunError>),
}

/// Where a run stands.
#[derive(Debug, Clone, Copy, PartialEq, Eq, Structural)]
pub enum RunPhase {
    /// Getting a session.
    Acquire,
    /// Checking the session.
    Guard,
    /// Fetching the target with a checked session.
    Target,
    Finished,
}

/// The event that the session check sees for a run's event, while the run
/// uses a session of `account`: a login to another account counts as failed.
pub open spec fn guard_event_of(event: RunEvent, account: Seq<char>) -> GuardEvent {
    match event {
        RunEvent::Fetched { status, final_url, .. } => GuardEvent::Fetched { status, final_url },
        RunEvent::LoggedIn(s) => if s@.account == account {
            GuardEvent::LoggedIn
        } else {
            GuardEvent::Error
        },
        _ => GuardEvent::Error,
    }
}

/// One request carried out against the service: it gets a session from the
/// pool, checks it, fetches the target, and stores the session back.
pub struct RequestRun {
    plan: FetchPlan,
    phase: RunPhase,
    guard: AuthGuard,
    session: Option<Session>,
    kept: Vec<u8>,
}

impl RequestRun {
    pub closed spec fn spec_phase(&self) -> RunPhase {
        self.phase
    }

    pub closed spec fn spec_guard_phase(&self) -> GuardPhase {
        self.guard.phase
    }

    pub closed spec fn spec_mode(&self) -> GuardMode {
        self.plan.guard
    }

    pub closed spec fn spec_url(&self) -> Seq<char> {
        self.plan.url@
    }

    pub closed spec fn spec_source(&self) -> SessionSource {
        self.plan.session
    }

    /// The session in use, once one has been got.
    pub closed spec fn spec_session(&self) -> SessionView {
        self.session->Some_0@
    }

    pub closed spec fn wf(&self) -> bool {
        &&& self.guard.mode == self.plan.guard
        &&& (self.phase is Guard || self.phase is Target) ==> self.session is Some
    }

    /// A run of the plan, before its first event.
    pub fn new(plan: FetchPlan) -> (r: Self)
        ensures
            r.wf(),
            r.spec_phase() == RunPhase::Acquire,
            r.spec_mode() == plan.guard,
            r.spec_url() == plan.url@,
            r.spec_source() == plan.session,
    {
        let mode = plan.guard;
        RequestRun {
            plan,
            phase: RunPhase::Acquire,
            guard: AuthGuard { mode, phase: GuardPhase::Finished },
            session: None,
            kept: Vec::new(),
        }
    }

    /// Carries out what the session check asks for next.
    fn follow(&mut self, pool: &mut SessionPool, action: GuardAction) -> (r: RunAction)
        requires
            old(self).wf(),
            old(pool).wf(),
            old(self).phase is Guard,
        ensures
            final(self).wf(),
            final(pool).wf(),
            final(self).plan == old(self).plan,
            final(self).guard == old(self).guard,
            final(self).session == old(self).session,
            action == GuardAction::FetchTarget ==> (r matches RunAction::Fetch(u) && u@ == old(self).plan.url@),
            action == GuardAction::FetchLanding ==> (r matches RunAction::Fetch(u) && u@ == login_redirect_url()),
            action == GuardAction::Login ==> (r matches RunAction::Login { account, password }
                && account@ == old(self).spec_session().account && password@ == old(self).spec_session().password),
            !(action is Done) ==> final(self).phase == RunPhase::Guard && final(pool)@ == old(pool)@,
            action == GuardAction::Done(GuardOutcome::UseResponse) ==> {
                &&& r matches RunAction::Finish(Ok(body)) && body@ == old(self).kept@
                &&& final(self).phase == RunPhase::Finished
                &&& final(pool)@ == insert_spec(old(pool)@, old(self).spec_session())
            },
            (action == GuardAction::Done(GuardOutcome::Active) || action == GuardAction::Done(
                GuardOutcome::RetryTarget,
            )) ==> {
                &&& r matches RunAction::Fetch(u) && u@ == old(self).plan.url@
                &&& final(self).phase == RunPhase::Target
                &&& final(pool)@ == old(pool)@
            },
            action == GuardAction::Done(GuardOutcome::Failed) ==> {
                &&& r == RunAction::Finish(Err(RunError::FetchFailed))
                &&& final(self).phase == RunPhase::Finished
                &&& final(pool)@ == old(pool)@
            },
    {
        match action {
            GuardAction::FetchTarget => RunAction::Fetch(self.plan.url.clone()),
            GuardAction::FetchLanding => RunAction::Fetch(String::from_str(sso_sc_redirect())),
            GuardAction::Login => {
                let session = self.session.as_ref().unwrap();
                RunAction::Login { account: session.account.clone(), password: session.password.clone() }
            },
            GuardAction::Done(GuardOutcome::UseResponse) => {
                pool.insert(copy_session(self.session.as_ref().unwrap()));
                self.phase = RunPhase::Finished;
                let body = self.kept.clone();
                proof {
                    assert(body@ =~= old(self).kept@);
                }
                RunAction::Finish(Ok(body))
            },
            GuardAction::Done(GuardOutcome::Failed) => {
                self.phase = RunPhase::Finished;
                RunAction::Finish(Err(RunError::FetchFailed))
            },
            GuardAction::Done(_) => {
                self.phase = RunPhase::Target;
                RunAction::Fetch(self.plan.url.clone())
            },
        }
    }

    pub fn phase(&self) -> (r: RunPhase)
        ensures
            r == self.spec_phase(),
    {
        self.phase
    }

    /// The session in use, once one has been got.
    pub fn session(&self) -> (r: Option<&Session>)
        requires
            self.wf(),
        ensures
            (self.spec_phase() is Guard || self.spec_phase() is Target) ==> r is Some,
            r matches Some(s) ==> s@ == self.spec_session(),
    {
        self.session.as_ref()
    }

    /// Takes what the caller observed and says what to do next.
    pub fn step(&mut self, pool: &mut SessionPool, event: RunEvent) -> (r: RunAction)
        requires
            old(self).wf(),
            old(pool).wf(),
        ensures
            final(self).wf(),
            final(pool).wf(),
            final(self).spec_mode() == old(self).spec_mode(),
            final(self).spec_url() == old(self).spec_url(),
            final(self).spec_source() == old(self).spec_source(),
            // An ended run stays ended and touches nothing.
            old(self).spec_phase() is Finished ==> r == RunAction::Finish(Err(RunError::FetchFailed))
                && final(self).spec_phase() is Finished && final(pool)@ == old(pool)@,
            // Success hands over the body of the target's response, and stores
            // the session, with the state that response left, back in the pool.
            r matches RunAction::Finish(Ok(body)) ==> {
                &&& event matches RunEvent::Fetched { body: b, state, .. }
                &&& body@ == b@
                &&& final(self).spec_session().state == state@
                &&& final(pool)@ == insert_spec(old(pool)@, final(self).spec_session())
                &&& final(self).spec_phase() is Finished
            },
            // Once got, the session keeps its account and password to the end;
            // only its state changes.
            (old(self).spec_phase() is Guard || old(self).spec_phase() is Target) ==> {
                &&& final(self).spec_session().account == old(self).spec_session().account
                &&& final(self).spec_session().password == old(self).spec_session().password
            },
            // A request that takes any session draws it from the pool.
            (old(self).spec_phase() is Acquire && old(self).spec_source() is Random && event is Start) ==> {
                &&& final(pool)@ == old(pool)@
                &&& old(pool).entries().len() == 0 ==> r == RunAction::Finish(Err(RunError::NoSessionAvailable))
                    && final(self).spec_phase() is Finished
                &&& old(pool).entries().len() > 0 ==> final(self).spec_phase() is Guard
                    && final(self).spec_session() == old(pool).entries()[(event->draw as int) % (old(pool).entries().len() as int)]
            },
            (old(self).spec_phase() is Acquire && old(self).spec_source() is Random && !(event is Start)) ==> {
                &&& r == RunAction::Finish(Err(RunError::LoginFailed))
                &&& final(pool)@ == old(pool)@
                &&& final(self).spec_phase() is Finished
            },
            // A request of one account gets its session by a get-or-create lookup.
            (old(self).spec_phase() is Acquire && old(self).spec_source() is Account && event is Start) ==> {
                let account = old(self).spec_source()->account@;
                let (q, m) = query_spec(old(pool)@, account);
                &&& final(pool)@ == m
                &&& q == QueryStep::Wait ==> r == RunAction::Wait && final(self).spec_phase() is Acquire
                &&& q == QueryStep::Login ==> final(self).spec_phase() is Acquire && (r matches RunAction::Login { account: a, password: p }
                    && a@ == account && p@ == old(self).spec_source()->password@)
                &&& q == QueryStep::Ready ==> final(self).spec_phase() is Guard
                    && final(self).spec_session() == m.sessions[account]
            },
            (old(self).spec_phase() is Acquire && old(self).spec_source() is Account && !(event is Start)) ==> {
                let account = old(self).spec_source()->account@;
                &&& (event is LoggedIn && event->LoggedIn_0@.account == account) ==> {
                    &&& final(pool)@ == finish_login_spec(old(pool)@, account, Some(event->LoggedIn_0@))
                    &&& final(self).spec_phase() is Guard
                    &&& final(self).spec_session() == event->LoggedIn_0@
                }
                &&& !(event is LoggedIn && event->LoggedIn_0@.account == account) ==> {
                    &&& final(pool)@ == finish_login_spec(old(pool)@, account, None)
                    &&& r == RunAction::Finish(Err(RunError::LoginFailed))
                    &&& final(self).spec_phase() is Finished
                }
            },
            // A checked session starts its check by the plan's mode.
            (old(self).spec_phase() is Acquire && final(self).spec_phase() is Guard) ==> {
                &&& old(self).spec_mode() == GuardMode::Eager ==> final(self).spec_guard_phase() == GuardPhase::AwaitLanding
                    && (r matches RunAction::Fetch(u) && u@ == login_redirect_url())
                &&& old(self).spec_mode() == GuardMode::Lazy ==> final(self).spec_guard_phase() == GuardPhase::AwaitTarget
                    && (r matches RunAction::Fetch(u) && u@ == old(self).spec_url())
            },
            // While the session is checked, the check decides.
            old(self).spec_phase() is Guard ==> {
                let (gp, ga) = guard_next(old(self).spec_mode(), old(self).spec_guard_phase(),
                    guard_event_of(event, old(self).spec_session().account));
                &&& !(ga is Done) ==> final(self).spec_phase() is Guard && final(self).spec_guard_phase() == gp
                    && final(pool)@ == old(pool)@
                &&& ga == GuardAction::FetchTarget ==> (r matches RunAction::Fetch(u) && u@ == old(self).spec_url())
                &&& ga == GuardAction::FetchLanding ==> (r matches RunAction::Fetch(u) && u@ == login_redirect_url())
                &&& ga == GuardAction::Login ==> (r matches RunAction::Login { account, password }
                    && account@ == final(self).spec_session().account && password@ == final(self).spec_session().password)
                &&& ga == GuardAction::Done(GuardOutcome::UseResponse) ==> r is Finish && r->Finish_0 is Ok
                &&& (ga == GuardAction::Done(GuardOutcome::Active) || ga == GuardAction::Done(GuardOutcome::RetryTarget))
                    ==> (r matches RunAction::Fetch(u) && u@ == old(self).spec_url()) && final(self).spec_phase() is Target
                    && final(pool)@ == old(pool)@
                &&& ga == GuardAction::Done(GuardOutcome::Failed) ==> r == RunAction::Finish(Err(RunError::FetchFailed))
                    && final(pool)@ == old(pool)@
            },
            // With a checked session, the target's response ends the run.
            old(self).spec_phase() is Target ==> {
                &&& event is Fetched ==> r is Finish && r->Finish_0 is Ok
                &&& !(event is Fetched) ==> r == RunAction::Finish(Err(RunError::FetchFailed))
                    && final(pool)@ == old(pool)@ && final(self).spec_phase() is Finished
            },
    {
        match self.phase {
            RunPhase::Acquire => self.acquire(pool, event),
            RunPhase::Guard => {
                let ghost before = self.guard;
                let guard_event = match event {
                    RunEvent::Fetched { status, final_url, body, state } => {
                        if self.guard.phase == GuardPhase::AwaitTarget {
                            self.kept = body;
                        }
                        let mut session = self.session.take().unwrap();
                        session.state = state;
                        self.session = Some(session);
                        GuardEvent::Fetched { status, final_url }
                    },
                    RunEvent::LoggedIn(renewed) => {
                        let mut session = self.session.take().unwrap();
                        if renewed.account == session.account {
                            session.state = renewed.state;
                            self.session = Some(session);
                            GuardEvent::LoggedIn
                        } else {
                            self.session = Some(session);
                            GuardEvent::Error
                        }
                    },
                    _ => GuardEvent::Error,
                };
                let action = self.guard.step(guard_event);
                self.follow(pool, action)
            },
            RunPhase::Target => match event {
                RunEvent::Fetched { status, final_url, body, state } => {
                    let mut session = self.session.take().unwrap();
                    session.state = state;
                    pool.insert(copy_session(&session));
                    self.session = Some(session);
                    self.phase = RunPhase::Finished;
                    RunAction::Finish(Ok(body))
                },
                _ => {
                    self.phase = RunPhase::Finished;
                    RunAction::Finish(Err(RunError::FetchFailed))
                },
            },
            RunPhase::Finished => RunAction::Finish(Err(RunError::FetchFailed)),
        }
    }

    /// Gets the run's session.
    fn acquire(&mut self, pool: &mut SessionPool, event: RunEvent) -> (r: RunAction)
        requires
            old(self).wf(),
            old(pool).wf(),
            old(self).phase is Acquire,
        ensures
            final(self).wf(),
            final(pool).wf(),
            final(self).plan == old(self).plan,
            final(self).phase is Acquire || final(self).phase is Guard || final(self).phase is Finished,
            !(r matches RunAction::Finish(Ok(_))),
            final(self).phase is Finished ==> r is Finish,
            final(self).phase is Guard ==> {
                &&& old(self).plan.guard == GuardMode::Eager ==> final(self).guard.phase == GuardPhase::AwaitLanding
                    && (r matches RunAction::Fetch(u) && u@ == login_redirect_url())
                &&& old(self).plan.guard == GuardMode::Lazy ==> final(self).guard.phase == GuardPhase::AwaitTarget
                    && (r matches RunAction::Fetch(u) && u@ == old(self).plan.url@)
            },
            (old(self).plan.session is Random && !(event is Start)) ==> {
                &&& r == RunAction::Finish(Err(RunError::LoginFailed))
                &&& final(pool)@ == old(pool)@
                &&& final(self).phase is Finished
            },
            (old(self).plan.session is Random && event is Start) ==> {
                &&& final(pool)@ == old(pool)@
                &&& old(pool).entries().len() == 0 ==> r == RunAction::Finish(Err(RunError::NoSessionAvailable))
                    && final(self).phase is Finished
                &&& old(pool).entries().len() > 0 ==> final(self).phase is Guard
                    && final(self).spec_session() == old(pool).entries()[(event->draw as int) % (old(pool).entries().len() as int)]
            },
            (old(self).plan.session is Account && event is Start) ==> {
                let account = old(self).plan.session->account@;
                let (q, m) = query_spec(old(pool)@, account);
                &&& final(pool)@ == m
                &&& q == QueryStep::Wait ==> r == RunAction::Wait && final(self).phase is Acquire
                &&& q == QueryStep::Login ==> final(self).phase is Acquire && (r matches RunAction::Login { account: a, password: p }
                    && a@ == account && p@ == old(self).plan.session->password@)
                &&& q == QueryStep::Ready ==> final(self).phase is Guard
                    && final(self).spec_session() == m.sessions[account]
            },
            (old(self).plan.session is Account && !(event is Start)) ==> {
                let account = old(self).plan.session->account@;
                &&& (event is LoggedIn && event->LoggedIn_0@.account == account) ==> {
                    &&& final(pool)@ == finish_login_spec(old(pool)@, account, Some(event->LoggedIn_0@))
                    &&& final(self).phase is Guard
                    &&& final(self).spec_session() == event->LoggedIn_0@
                }
                &&& !(event is LoggedIn && event->LoggedIn_0@.account == account) ==> {
                    &&& final(pool)@ == finish_login_spec(old(pool)@, account, None)
                    &&& r == RunAction::Finish(Err(RunError::LoginFailed))
                    &&& final(self).phase is Finished
                }
            },
    {
        let (random, account, password) = match &self.plan.session {
            SessionSource::Random => (true, String::new(), String::new()),
            SessionSource::Account { account, password } => (false, account.clone(), password.clone()),
        };
        match event {
            RunEvent::Start { draw } => {
                if random {
                    match pool.choose_randomly(draw) {
                        None => {
                            self.phase = RunPhase::Finished;
                            RunAction::Finish(Err(RunError::NoSessionAvailable))
                        },
                        Some(s) => {
                            let s = copy_session(s);
                            self.begin_guard(pool, s)
                        },
                    }
                } else {
                    match pool.begin_query(account.as_str()) {
                        QueryStep::Wait => RunAction::Wait,
                        QueryStep::Login => RunAction::Login { account, password },
                        QueryStep::Ready => {
                            let s = copy_session(pool.query(account.as_str()).unwrap());
                            self.begin_guard(pool, s)
                        },
                    }
                }
            },
            RunEvent::LoggedIn(s) => {
                if random {
                    self.phase = RunPhase::Finished;
                    RunAction::Finish(Err(RunError::LoginFailed))
                } else if s.account == account {
                    pool.finish_login(account.as_str(), Some(copy_session(&s)));
                    self.begin_guard(pool, s)
                } else {
                    pool.finish_login(account.as_str(), None);
                    self.phase = RunPhase::Finished;
                    RunAction::Finish(Err(RunError::LoginFailed))
                }
            },
            _ => {
                if !random {
                    pool.finish_login(account.as_str(), None);
                }
                self.phase = RunPhase::Finished;
                RunAction::Finish(Err(RunError::LoginFailed))
            },
        }
    }

    /// Starts checking the session just got.
    fn begin_guard(&mut self, pool: &mut SessionPool, session: Session) -> (r: RunAction)
        requires
            old(self).wf(),
            old(pool).wf(),
        ensures
            final(self).wf(),
            final(pool)@ == old(pool)@,
            final(pool).wf(),
            final(self).plan == old(self).plan,
            final(self).phase == RunPhase::Guard,
            final(self).spec_session() == session@,
            old(self).plan.guard == GuardMode::Eager ==> final(self).guard.phase == GuardPhase::AwaitLanding
                && (r matches RunAction::Fetch(u) && u@ == login_redirect_url()),
            old(self).plan.guard == GuardMode::Lazy ==> final(self).guard.phase == GuardPhase::AwaitTarget
                && (r matches RunAction::Fetch(u) && u@ == old(self).plan.url@),
    {
        let (guard, action) = AuthGuard::start(self.plan.guard);
        self.guard = guard;
        self.session = Some(session);
        self.phase = RunPhase::Guard;
        self.follow(pool, action)
    }
}

} // verus!
