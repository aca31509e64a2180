use vstd::prelude::*;

use crate::session::{after_exchange, LoginStateView, SessionView};

verus! {

// The lifecycle guarantees of the registry and the login state
// machine, stated over the registry's view — a sequence of session
// records in which a session's id is its index — and over the
// transition function that `login_sso_callback` applies.

/// A session is born pending: immediately after a login is started,
/// the freshly created session — the one appended at the new id —
/// reports `Pending`, and every status query on it answers `pending`.
pub proof fn lemma_fresh_session_pending(pre: Seq<SessionView>, client: u64)
    ensures
        pre.push(SessionView { client, login: LoginStateView::Pending })[pre.len() as int].login
            is Pending,
{
}

/// An accepted token always logs the session in, from whatever state
/// the exchange found it.
pub proof fn lemma_accepted_token_logs_in(prev: LoginStateView)
    ensures
        after_exchange(prev, Ok(())) is LoggedIn,
{
}

/// A rejected token records exactly the capability's reported error
/// text on any session that is not already logged in, so a status
/// query then reports that text.
pub proof fn lemma_rejected_token_records_error(prev: LoginStateView, m: Seq<char>)
    requires
        !(prev is LoggedIn),
    ensures
        after_exchange(prev, Err(m)) == LoginStateView::Failed(m),
{
}

/// A failed login is not terminal: a later accepted token on the same
/// session still logs it in.
pub proof fn lemma_failure_not_terminal(m: Seq<char>)
    ensures
        after_exchange(LoginStateView::Failed(m), Ok(())) is LoggedIn,
{
}

/// Two session creations never collide: the ids handed out by two
/// consecutive creations differ, and afterwards each id retrieves
/// exactly the session created under it — no lost update.
pub proof fn lemma_two_creates_distinct(pre: Seq<SessionView>, s1: SessionView, s2: SessionView)
    ensures
        pre.len() < pre.push(s1).len(),
        pre.push(s1).push(s2)[pre.len() as int] == s1,
        pre.push(s1).push(s2)[pre.push(s1).len() as int] == s2,
{
}

/// Creating a session disturbs no other: every session that was
/// retrievable before is retrievable unchanged afterwards.
pub proof fn lemma_create_keeps_sessions(pre: Seq<SessionView>, s: SessionView, id: int)
    requires
        0 <= id < pre.len(),
    ensures
        pre.push(s)[id] == pre[id],
{
}

/// Mutating one session disturbs no other: a transition applied at
/// one id leaves the record under every other id unchanged, and
/// removes nothing.
pub proof fn lemma_mutate_keeps_other_sessions(
    pre: Seq<SessionView>,
    at: int,
    v: SessionView,
    other: int,
)
    requires
        0 <= at < pre.len(),
        0 <= other < pre.len(),
        other != at,
    ensures
        pre.update(at, v).len() == pre.len(),
        pre.update(at, v)[other] == pre[other],
{
}

} // verus!
