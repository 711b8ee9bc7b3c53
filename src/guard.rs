use vstd::prelude::*;

verus! {

/// The address that an expired session is sent back to. Fetching it with a
/// live session redirects onward to the service; with an expired one the
/// response stays at this address.
pub open spec fn login_redirect_url() -> Seq<char> {
    "https://authserver.sit.edu.cn/authserver/login?service=http%3A%2F%2Fsc.sit.edu.cn%2F"@
}

pub fn sso_sc_redirect() -> (r: &'static str)
    ensures
        r@ == login_redirect_url(),
{
    "https://authserver.sit.edu.cn/authserver/login?service=http%3A%2F%2Fsc.sit.edu.cn%2F"
}

/// The status of a successful HTTP response.
pub const STATUS_OK: u16 = 200;

/// How a session is checked before the real fetch.
#[derive(Debug, Clone, Copy, PartialEq, Eq, Structural)]
pub enum GuardMode {
    /// Check the landing address first, always.
    Eager,
    /// Fetch the target first, and check only if that did not succeed.
    Lazy,
}

/// Where the check stands.
#[derive(Debug, Clone, Copy, PartialEq, Eq, Structural)]
pub enum GuardPhase {
    AwaitTarget,
    AwaitLanding,
    AwaitLogin,
    AwaitRecheck,
    Finished,
}

/// How the check ended.
#[derive(Debug, Clone, Copy, PartialEq, Eq, Structural)]
pub enum GuardOutcome {
    /// The session is live: go on with the real fetch.
    Active,
    /// The target's response succeeded: use it as it is.
    UseResponse,
    /// The session has been renewed: fetch the target once more.
    RetryTarget,
    /// A fetch or the login failed: the request fails.
    Failed,
}

/// What the caller does next.
#[derive(Debug, Clone, Copy, PartialEq, Eq, Structural)]
pub enum GuardAction {
    /// Fetch the real target.
    FetchTarget,
    /// Fetch the landing address.
    FetchLanding,
    /// Log in again through the redirect chain.
    Login,
    /// The check is over.
    Done(GuardOutcome),
}

/// What the caller observed after the last action.
#[derive(Debug, Clone, PartialEq, Eq)]
pub enum GuardEvent {
    /// A response came, with its status and the address it ended at.
    Fetched { status: u16, final_url: String },
    /// The login succeeded.
    LoggedIn,
    /// The fetch or the login failed.
    Error,
}

/// The outcome once the session is known to be live (again).
pub open spec fn settled(mode: GuardMode) -> GuardOutcome {
    match mode {
        GuardMode::Eager => GuardOutcome::Active,
        GuardMode::Lazy => GuardOutcome::RetryTarget,
    }
}

/// The next phase and action, from the phase and what was observed.
pub open spec fn guard_next(mode: GuardMode, phase: GuardPhase, event: GuardEvent) -> (GuardPhase, GuardAction) {
    let failed = (GuardPhase::Finished, GuardAction::Done(GuardOutcome::Failed));
    match phase {
        GuardPhase::AwaitTarget => match event {
            GuardEvent::Fetched { status, final_url } => if status == STATUS_OK {
                (GuardPhase::Finished, GuardAction::Done(GuardOutcome::UseResponse))
            } else {
                (GuardPhase::AwaitLanding, GuardAction::FetchLanding)
            },
            _ => failed,
        },
        GuardPhase::AwaitLanding => match event {
            GuardEvent::Fetched { status, final_url } => if final_url@ == login_redirect_url() {
                (GuardPhase::AwaitLogin, GuardAction::Login)
            } else {
                (GuardPhase::Finished, GuardAction::Done(settled(mode)))
            },
            _ => failed,
        },
        GuardPhase::AwaitLogin => match event {
            GuardEvent::LoggedIn => (GuardPhase::AwaitRecheck, GuardAction::FetchLanding),
            _ => failed,
        },
        GuardPhase::AwaitRecheck => match event {
            GuardEvent::Fetched { .. } => (GuardPhase::Finished, GuardAction::Done(settled(mode))),
            _ => failed,
        },
        _ => failed,
    }
}

/// The session check of one request.
pub struct AuthGuard {
    pub mode: GuardMode,
    pub phase: GuardPhase,
}

impl AuthGuard {
    /// A check in the given mode, and its first action: the landing address
    /// when eager, the target itself when lazy.
    pub fn start(mode: GuardMode) -> (r: (AuthGuard, GuardAction))
        ensures
            r.0.mode == mode,
            mode == GuardMode::Eager ==> r.0.phase == GuardPhase::AwaitLanding && r.1 == GuardAction::FetchLanding,
            mode == GuardMode::Lazy ==> r.0.phase == GuardPhase::AwaitTarget && r.1 == GuardAction::FetchTarget,
    {
        match mode {
            GuardMode::Eager => (AuthGuard { mode, phase: GuardPhase::AwaitLanding }, GuardAction::FetchLanding),
            GuardMode::Lazy => (AuthGuard { mode, phase: GuardPhase::AwaitTarget }, GuardAction::FetchTarget),
        }
    }

    /// Takes what the caller observed and says what to do next. A check that
    /// is over answers every further event with a failure.
    pub fn step(&mut self, event: GuardEvent) -> (r: GuardAction)
        ensures
            final(self).mode == old(self).mode,
            (final(self).phase, r) == guard_next(old(self).mode, old(self).phase, event),
    {
        let ghost ev = event;
        let failed = (GuardPhase::Finished, GuardAction::Done(GuardOutcome::Failed));
        let settled_outcome = match self.mode {
            GuardMode::Eager => GuardOutcome::Active,
            GuardMode::Lazy => GuardOutcome::RetryTarget,
        };
        let (phase, action) = match self.phase {
            GuardPhase::AwaitTarget => match event {
                GuardEvent::Fetched { status, final_url } => if status == STATUS_OK {
                    (GuardPhase::Finished, GuardAction::Done(GuardOutcome::UseResponse))
                } else {
                    (GuardPhase::AwaitLanding, GuardAction::FetchLanding)
                },
                _ => failed,
            },
            GuardPhase::AwaitLanding => match event {
                GuardEvent::Fetched { status, final_url } => {
                    let redirect = String::from_str(sso_sc_redirect());
                    if final_url == redirect {
                        (GuardPhase::AwaitLogin, GuardAction::Login)
                    } else {
                        (GuardPhase::Finished, GuardAction::Done(settled_outcome))
                    }
                },
                _ => failed,
            },
            GuardPhase::AwaitLogin => match event {
                GuardEvent::LoggedIn => (GuardPhase::AwaitRecheck, GuardAction::FetchLanding),
                _ => failed,
            },
            GuardPhase::AwaitRecheck => match event {
                GuardEvent::Fetched { .. } => (GuardPhase::Finished, GuardAction::Done(settled_outcome)),
                _ => failed,
            },
            _ => failed,
        };
        self.phase = phase;
        action
    }
}

/// The lazy check, given a successful response of the target, ends at once and
/// hands that response on: no round trip beyond the target's own.
pub proof fn lemma_lazy_ok_costs_nothing(status: u16, final_url: String)
    requires
        status == STATUS_OK,
    ensures
        guard_next(GuardMode::Lazy, GuardPhase::AwaitTarget, GuardEvent::Fetched { status, final_url })
            == (GuardPhase::Finished, GuardAction::Done(GuardOutcome::UseResponse)),
{
}

/// The lazy check, given a failed response of the target, checks the landing
/// address once. If that shows the session expired, it logs in exactly once and
/// checks again; either way it then ends by asking the caller to fetch the
/// target once more. No path asks for a second login.
pub proof fn lemma_lazy_failure_reauthenticates_once(
    status: u16,
    target_url: String,
    landing: GuardEvent,
    recheck: GuardEvent,
)
    requires
        status != STATUS_OK,
        landing is Fetched,
        recheck is Fetched,
    ensures
        ({
            let (after_target, first) = guard_next(GuardMode::Lazy, GuardPhase::AwaitTarget,
                GuardEvent::Fetched { status, final_url: target_url });
            let (after_landing, second) = guard_next(GuardMode::Lazy, after_target, landing);
            &&& first == GuardAction::FetchLanding
            &&& (landing->final_url@ == login_redirect_url()) ==> {
                &&& second == GuardAction::Login
                &&& guard_next(GuardMode::Lazy, after_landing, GuardEvent::LoggedIn).1 == GuardAction::FetchLanding
                &&& guard_next(GuardMode::Lazy, guard_next(GuardMode::Lazy, after_landing, GuardEvent::LoggedIn).0, recheck)
                    == (GuardPhase::Finished, GuardAction::Done(GuardOutcome::RetryTarget))
            }
            &&& (landing->final_url@ != login_redirect_url()) ==> second == GuardAction::Done(GuardOutcome::RetryTarget)
        }),
{
}

/// How many more events a check in this phase can take before it ends.
pub open spec fn remaining_steps(phase: GuardPhase) -> nat {
    match phase {
        GuardPhase::AwaitTarget => 4,
        GuardPhase::AwaitLanding => 3,
        GuardPhase::AwaitLogin => 2,
        GuardPhase::AwaitRecheck => 1,
        GuardPhase::Finished => 0,
    }
}

/// Every event brings the check closer to its end, and an ended check only
/// reports failure: a failed login or fetch ends the check, and nothing is
/// retried without bound.
pub proof fn lemma_guard_terminates(mode: GuardMode, phase: GuardPhase, event: GuardEvent)
    ensures
        phase != GuardPhase::Finished ==> remaining_steps(guard_next(mode, phase, event).0) < remaining_steps(phase),
        guard_next(mode, phase, event).0 == GuardPhase::Finished <==> guard_next(mode, phase, event).1 is Done,
        (event is Error) ==> guard_next(mode, phase, event) == (GuardPhase::Finished, GuardAction::Done(GuardOutcome::Failed)),
{
}

} // verus!
