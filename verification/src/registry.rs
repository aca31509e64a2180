use vstd::prelude::*;

use crate::error::ApiError;
use crate::session::{LoginState, LoginStateView, Session, SessionView};

verus! {

/// The process-wide session store: session ids are indices into an
/// append-only sequence, so an id, once handed out, is unique for the
/// lifetime of the registry and stays retrievable — sessions are
/// never evicted.
///
/// The registry itself performs no I/O; the embedding program wraps
/// it in its own reader/writer lock and must release that lock before
/// any network call.
pub struct Registry {
    sessions: Vec<Session>,
}

impl View for Registry {
    type V = Seq<SessionView>;

    closed spec fn view(&self) -> Seq<SessionView> {
        self.sessions.deep_view()
    }
}

impl Registry {
    /// True when `id` names a session this registry holds.
    pub open spec fn contains_id(&self, id: u64) -> bool {
        id < self@.len()
    }

    /// The session record behind `id`.
    pub open spec fn session_at(&self, id: u64) -> SessionView
        recommends
            self.contains_id(id),
    {
        self@[id as int]
    }

    /// An empty registry, created once at process start.
    pub fn new() -> (r: Registry)
        ensures
            r@ == Seq::<SessionView>::empty(),
    {
        Registry { sessions: Vec::new() }
    }

    /// How many sessions have ever been created.
    pub fn len(&self) -> (n: usize)
        ensures
            n == self@.len(),
    {
        self.sessions.len()
    }

    /// Allocates a fresh id, never handed out before, and inserts a
    /// `Pending` session bound to the given remote-client handle.
    /// Every previously created session is untouched and stays
    /// retrievable under its old id.
    pub fn create(&mut self, client: u64) -> (id: u64)
        ensures
            id == old(self)@.len(),
            !old(self).contains_id(id),
            final(self).contains_id(id),
            final(self)@ == old(self)@.push(
                SessionView { client, login: LoginStateView::Pending },
            ),
    {
        let id = self.sessions.len() as u64;
        self.sessions.push(Session { client, login: LoginState::Pending });
        id
    }

    /// Read access to one session; returns `None` exactly when the id
    /// was never created.
    pub fn get(&self, id: u64) -> (r: Option<&Session>)
        ensures
            match r {
                Some(s) => self.contains_id(id) && s@ == self.session_at(id),
                None => !self.contains_id(id),
            },
    {
        let n = self.sessions.len();
        if id < n as u64 {
            Some(&self.sessions[id as usize])
        } else {
            None
        }
    }

    /// Applies a login-state transition to exactly one session.
    /// Fails with `SessionNotFound`, leaving the registry unchanged,
    /// exactly when the id was never created; otherwise only the named
    /// session's login state changes — its client binding and every
    /// other session are untouched.
    pub fn mutate(&mut self, id: u64, login: LoginState) -> (r: Result<(), ApiError>)
        ensures
            match r {
                Ok(()) => old(self).contains_id(id) && final(self)@ == old(self)@.update(
                    id as int,
                    SessionView { client: old(self).session_at(id).client, login: login@ },
                ),
                Err(e) => !old(self).contains_id(id) && e is SessionNotFound && final(self)@
                    == old(self)@,
            },
    {
        let n = self.sessions.len();
        if id < n as u64 {
            let i = id as usize;
            let client = self.sessions[i].client;
            self.sessions.set(i, Session { client, login });
            assert(self@ =~= old(self)@.update(
                id as int,
                SessionView { client, login: login@ },
            ));
            Ok(())
        } else {
            Err(ApiError::SessionNotFound)
        }
    }
}

} // verus!
