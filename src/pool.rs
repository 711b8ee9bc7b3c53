use vstd::prelude::*;

verus! {

/// The authentication state of one account of the external service.
#[derive(Debug, Clone, PartialEq, Eq)]
pub struct Session {
    /// The account this session belongs to.
    pub account: String,
    /// The credential the session was obtained with.
    pub password: String,
    /// The cookies or token, as the transport stores them.
    pub state: Vec<u8>,
}

/// What a session is, as plain values.
pub ghost struct SessionView {
    pub account: Seq<char>,
    pub password: Seq<char>,
    pub state: Seq<u8>,
}

impl View for Session {
    type V = SessionView;

    open spec fn view(&self) -> SessionView {
        SessionView { account: self.account@, password: self.password@, state: self.state@ }
    }
}

/// The step that a get-or-create lookup of one account leads to.
#[derive(Debug, Clone, Copy, PartialEq, Eq, Structural)]
pub enum QueryStep {
    /// A session for the account is stored: use it.
    Ready,
    /// No session is stored and no login for it is under way: log in, then
    /// report the result with `finish_login`.
    Login,
    /// Another caller is logging in to this account: ask again later.
    Wait,
}

/// The sessions, keyed by account, and the accounts being logged in to.
pub ghost struct PoolModel {
    pub sessions: Map<Seq<char>, SessionView>,
    pub pending: Set<Seq<char>>,
}

/// What a get-or-create lookup returns and leaves behind.
pub open spec fn query_spec(m: PoolModel, account: Seq<char>) -> (QueryStep, PoolModel) {
    if m.sessions.contains_key(account) {
        (QueryStep::Ready, m)
    } else if m.pending.contains(account) {
        (QueryStep::Wait, m)
    } else {
        (QueryStep::Login, PoolModel { sessions: m.sessions, pending: m.pending.insert(account) })
    }
}

/// The pool after a session is stored, replacing any for the same account.
pub open spec fn insert_spec(m: PoolModel, s: SessionView) -> PoolModel {
    PoolModel { sessions: m.sessions.insert(s.account, s), pending: m.pending.remove(s.account) }
}

/// The pool after a login to `account` ends, with the session it produced if it
/// succeeded. A session for another account is not stored.
pub open spec fn finish_login_spec(m: PoolModel, account: Seq<char>, s: Option<SessionView>) -> PoolModel {
    match s {
        Some(s) if s.account == account => insert_spec(m, s),
        _ => PoolModel { sessions: m.sessions, pending: m.pending.remove(account) },
    }
}

/// The session pool.
pub struct SessionPool {
    sessions: Vec<Session>,
    pending: Vec<String>,
}

impl SessionPool {
    pub closed spec fn wf(&self) -> bool {
        &&& forall|i: int, j: int|
            0 <= i < j < self.sessions@.len() ==> self.sessions@[i].account@
                != self.sessions@[j].account@
        &&& forall|i: int, j: int|
            0 <= i < j < self.pending@.len() ==> self.pending@[i]@ != self.pending@[j]@
    }

    /// The sessions in the order they are stored; a random draw picks by position.
    pub closed spec fn entries(&self) -> Seq<SessionView> {
        self.sessions@.map_values(|s: Session| s@)
    }

    pub closed spec fn view(&self) -> PoolModel {
        PoolModel {
            sessions: Map::new(
                |a: Seq<char>| exists|i: int| 0 <= i < self.sessions@.len() && self.sessions@[i].account@ == a,
                |a: Seq<char>|
                    self.sessions@[choose|i: int|
                        0 <= i < self.sessions@.len() && self.sessions@[i].account@ == a]@,
            ),
            pending: Set::new(|a: Seq<char>| exists|i: int| 0 <= i < self.pending@.len() && self.pending@[i]@ == a),
        }
    }

    /// An empty pool.
    pub fn new() -> (r: Self)
        ensures
            r.wf(),
            r@.sessions == Map::<Seq<char>, SessionView>::empty(),
            r@.pending == Set::<Seq<char>>::empty(),
    {
        let r = SessionPool { sessions: Vec::new(), pending: Vec::new() };
        proof {
            assert(r@.sessions =~= Map::<Seq<char>, SessionView>::empty());
            assert(r@.pending =~= Set::<Seq<char>>::empty());
        }
        r
    }

    /// Position of the session for `account`, if one is stored.
    fn position(&self, account: &str) -> (r: Option<usize>)
        requires
            self.wf(),
        ensures
            match r {
                Some(i) => i < self.sessions@.len() && self.sessions@[i as int].account@ == account@,
                None => forall|i: int| 0 <= i < self.sessions@.len() ==> self.sessions@[i].account@ != account@,
            },
    {
        let key = String::from_str(account);
        let mut i: usize = 0;
        while i < self.sessions.len()
            invariant
                0 <= i <= self.sessions@.len(),
                key@ == account@,
                forall|k: int| 0 <= k < i ==> self.sessions@[k].account@ != account@,
            decreases self.sessions@.len() - i,
        {
            if self.sessions[i].account == key {
                return Some(i);
            }
            i = i + 1;
        }
        None
    }

    proof fn lemma_view_at(&self, i: int)
        requires
            self.wf(),
            0 <= i < self.sessions@.len(),
        ensures
            self@.sessions.contains_key(self.sessions@[i].account@),
            self@.sessions[self.sessions@[i].account@] == self.sessions@[i]@,
    {
        let a = self.sessions@[i].account@;
        assert(self@.sessions.contains_key(a));
        let j = choose|j: int| 0 <= j < self.sessions@.len() && self.sessions@[j].account@ == a;
        assert(j == i);
    }

    proof fn lemma_view_contains(&self, a: Seq<char>)
        requires
            self.wf(),
        ensures
            self@.sessions.contains_key(a) <==> exists|i: int|
                0 <= i < self.sessions@.len() && self.sessions@[i].account@ == a,
            self@.pending.contains(a) <==> exists|i: int|
                0 <= i < self.pending@.len() && self.pending@[i]@ == a,
    {
    }

    /// The number of stored sessions.
    pub fn len(&self) -> (r: usize)
        requires
            self.wf(),
        ensures
            r == self.entries().len(),
    {
        self.sessions.len()
    }

    /// Picks the stored session at position `draw` modulo the number stored, so
    /// that a uniformly random `draw` picks a session uniformly; nothing when
    /// the pool is empty.
    pub fn choose_randomly(&self, draw: u64) -> (r: Option<&Session>)
        requires
            self.wf(),
        ensures
            r is None <==> self.entries().len() == 0,
            r matches Some(s) ==> s@ == self.entries()[(draw as int) % (self.entries().len() as int)]
                && self@.sessions.contains_key(s@.account) && self@.sessions[s@.account] == s@,
    {
        let n = self.sessions.len();
        if n == 0 {
            None
        } else {
            let i = (draw % (n as u64)) as usize;
            proof {
                self.lemma_view_at(i as int);
            }
            Some(&self.sessions[i])
        }
    }

    /// The session stored for `account`, if any.
    pub fn query(&self, account: &str) -> (r: Option<&Session>)
        requires
            self.wf(),
        ensures
            r is Some <==> self@.sessions.contains_key(account@),
            r matches Some(s) ==> s@ == self@.sessions[account@],
    {
        match self.position(account) {
            Some(i) => {
                proof {
                    self.lemma_view_at(i as int);
                }
                Some(&self.sessions[i])
            },
            None => None,
        }
    }

    fn pending_position(&self, account: &str) -> (r: Option<usize>)
        requires
            self.wf(),
        ensures
            match r {
                Some(i) => i < self.pending@.len() && self.pending@[i as int]@ == account@,
                None => forall|i: int| 0 <= i < self.pending@.len() ==> self.pending@[i]@ != account@,
            },
    {
        let key = String::from_str(account);
        let mut i: usize = 0;
        while i < self.pending.len()
            invariant
                0 <= i <= self.pending@.len(),
                key@ == account@,
                forall|k: int| 0 <= k < i ==> self.pending@[k]@ != account@,
            decreases self.pending@.len() - i,
        {
            if self.pending[i] == key {
                return Some(i);
            }
            i = i + 1;
        }
        None
    }

    fn remove_pending(&mut self, account: &str)
        requires
            old(self).wf(),
        ensures
            final(self).wf(),
            final(self).sessions == old(self).sessions,
            final(self)@.pending == old(self)@.pending.remove(account@),
    {
        match self.pending_position(account) {
            Some(i) => {
                let ghost before = self.pending@;
                self.pending.remove(i);
                proof {
                    assert forall|x: int, y: int| 0 <= x < y < self.pending@.len() implies self.pending@[x]@
                        != self.pending@[y]@ by {
                        let x0 = if x < i { x } else { x + 1 };
                        let y0 = if y < i { y } else { y + 1 };
                        assert(self.pending@[x] == before[x0]);
                        assert(self.pending@[y] == before[y0]);
                    }
                    assert forall|a: Seq<char>| self@.pending.contains(a) <==> old(self)@.pending.remove(account@).contains(a) by {
                        if old(self)@.pending.remove(account@).contains(a) {
                            let k = choose|k: int| 0 <= k < before.len() && before[k]@ == a;
                            assert(k != i);
                            let k1 = if k < i { k } else { k - 1 };
                            assert(self.pending@[k1] == before[k]);
                        }
                        if self@.pending.contains(a) {
                            let k = choose|k: int| 0 <= k < self.pending@.len() && self.pending@[k]@ == a;
                            let k0 = if k < i { k } else { k + 1 };
                            assert(self.pending@[k] == before[k0]);
                            assert(k0 != i);
                        }
                    }
                    assert(final(self)@.pending =~= old(self)@.pending.remove(account@));
                }
            },
            None => {
                proof {
                    assert(self@.pending =~= old(self)@.pending.remove(account@));
                }
            },
        }
    }

    /// Starts a get-or-create lookup of `account`. At most one caller at a time
    /// is told to log in to a given account; the others wait until the login
    /// has been reported with `finish_login`.
    pub fn begin_query(&mut self, account: &str) -> (r: QueryStep)
        requires
            old(self).wf(),
        ensures
            final(self).wf(),
            (r, final(self)@) == query_spec(old(self)@, account@),
            final(self).entries() == old(self).entries(),
    {
        proof {
            self.lemma_view_contains(account@);
        }
        if self.position(account).is_some() {
            return QueryStep::Ready;
        }
        if self.pending_position(account).is_some() {
            return QueryStep::Wait;
        }
        let ghost before = self.pending@;
        self.pending.push(String::from_str(account));
        proof {
            assert(self.pending@ == before.push(self.pending@[before.len() as int]));
            assert forall|a: Seq<char>| self@.pending.contains(a) <==> old(self)@.pending.insert(account@).contains(a) by {
                if old(self)@.pending.contains(a) {
                    let k = choose|k: int| 0 <= k < before.len() && before[k]@ == a;
                    assert(self.pending@[k] == before[k]);
                }
                if a == account@ {
                    assert(self.pending@[before.len() as int]@ == a);
                }
                if self@.pending.contains(a) {
                    let k = choose|k: int| 0 <= k < self.pending@.len() && self.pending@[k]@ == a;
                    if k < before.len() {
                        assert(self.pending@[k] == before[k]);
                    }
                }
            }
            assert(self@.pending =~= old(self)@.pending.insert(account@));
            assert(self@.sessions =~= old(self)@.sessions);
        }
        QueryStep::Login
    }

    /// Stores `session`, replacing the one stored for the same account; a login
    /// to that account is no longer under way.
    pub fn insert(&mut self, session: Session)
        requires
            old(self).wf(),
        ensures
            final(self).wf(),
            final(self)@ == insert_spec(old(self)@, session@),
    {
        let ghost sv = session@;
        let ghost a = session@.account;
        self.remove_pending(session.account.as_str());
        let pos = self.position(session.account.as_str());
        let ghost mid = *self;
        match pos {
            Some(i) => {
                self.sessions.set(i, session);
                proof {
                    assert forall|x: int, y: int| 0 <= x < y < self.sessions@.len() implies self.sessions@[x].account@
                        != self.sessions@[y].account@ by {
                        assert(mid.sessions@[x].account@ != mid.sessions@[y].account@);
                    }
                }
            },
            None => {
                self.sessions.push(session);
                proof {
                    assert forall|x: int, y: int| 0 <= x < y < self.sessions@.len() implies self.sessions@[x].account@
                        != self.sessions@[y].account@ by {
                        if y < mid.sessions@.len() {
                            assert(mid.sessions@[x].account@ != mid.sessions@[y].account@);
                        }
                    }
                }
            },
        }
        proof {
            let n = self.sessions@.len();
            let idx: int = match pos { Some(i) => i as int, None => mid.sessions@.len() as int };
            assert(self.sessions@[idx]@ == sv);
            assert forall|b: Seq<char>| #![auto] self@.sessions.contains_key(b) <==> mid@.sessions.insert(a, sv).contains_key(b) by {
                if b == a {
                    self.lemma_view_at(idx);
                } else {
                    if self@.sessions.contains_key(b) {
                        let k = choose|k: int| 0 <= k < n && self.sessions@[k].account@ == b;
                        assert(k != idx);
                        assert(mid.sessions@[k] == self.sessions@[k]);
                    }
                    if mid@.sessions.contains_key(b) {
                        let k = choose|k: int| 0 <= k < mid.sessions@.len() && mid.sessions@[k].account@ == b;
                        assert(k != idx);
                        assert(mid.sessions@[k] == self.sessions@[k]);
                    }
                }
            }
            assert forall|b: Seq<char>| #[trigger] self@.sessions.contains_key(b) implies self@.sessions[b] == mid@.sessions.insert(a, sv)[b] by {
                if b == a {
                    self.lemma_view_at(idx);
                } else {
                    let k = choose|k: int| 0 <= k < n && self.sessions@[k].account@ == b;
                    assert(k != idx);
                    assert(mid.sessions@[k] == self.sessions@[k]);
                    self.lemma_view_at(k);
                    mid.lemma_view_at(k);
                }
            }
            assert(self@.sessions =~= mid@.sessions.insert(a, sv));
            assert(self@.pending =~= mid@.pending);
        }
    }
    /// Reports the end of a login to `account` that `begin_query` asked for,
    /// with the session it produced if it succeeded.
    pub fn finish_login(&mut self, account: &str, session: Option<Session>)
        requires
            old(self).wf(),
        ensures
            final(self).wf(),
            final(self)@ == finish_login_spec(
                old(self)@,
                account@,
                match session {
                    Some(s) => Some(s@),
                    None => None,
                },
            ),
    {
        let key = String::from_str(account);
        match session {
            Some(s) => {
                if s.account == key {
                    self.insert(s);
                } else {
                    self.remove_pending(account);
                    proof {
                        assert(self@.sessions =~= old(self)@.sessions);
                    }
                }
            },
            None => {
                self.remove_pending(account);
                proof {
                    assert(self@.sessions =~= old(self)@.sessions);
                }
            },
        }
    }
}

/// Two get-or-create lookups of the same unknown account, the second made
/// while the first is logging in: only the first logs in, the second waits.
/// Once the login is reported with its session, the pool holds that session
/// and a further lookup uses it without logging in. If the login failed, the
/// account is free again and the next lookup may try once more.
pub proof fn lemma_query_or_logs_in_once(m: PoolModel, account: Seq<char>, s: SessionView)
    requires
        !m.sessions.contains_key(account),
        !m.pending.contains(account),
        s.account == account,
    ensures
        query_spec(m, account).0 == QueryStep::Login,
        query_spec(query_spec(m, account).1, account).0 == QueryStep::Wait,
        ({
            let after = finish_login_spec(query_spec(query_spec(m, account).1, account).1, account, Some(s));
            &&& after.sessions.contains_key(account)
            &&& after.sessions[account] == s
            &&& !after.pending.contains(account)
            &&& query_spec(after, account).0 == QueryStep::Ready
        }),
        ({
            let failed = finish_login_spec(query_spec(query_spec(m, account).1, account).1, account, None);
            &&& !failed.sessions.contains_key(account)
            &&& query_spec(failed, account).0 == QueryStep::Login
        }),
{
}

/// However lookups interleave, a lookup is told to log in to an account only
/// when no session is stored for it and no other login to it is under way,
/// and the account then counts as under way.
pub proof fn lemma_login_only_when_free(m: PoolModel, account: Seq<char>)
    ensures
        query_spec(m, account).0 == QueryStep::Login <==> (!m.sessions.contains_key(account)
            && !m.pending.contains(account)),
        query_spec(m, account).0 == QueryStep::Login ==> query_spec(m, account).1.pending.contains(account),
        query_spec(m, account).1.sessions == m.sessions,
{
}

} // verus!
