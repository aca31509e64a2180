use vstd::prelude::*;

verus! {

/// The login state of one session, held as a single tagged value so
/// that no caller can observe a half-updated combination of signals.
#[derive(Debug, Clone)]
pub enum LoginState {
    /// Freshly created; the SSO callback has not arrived yet.
    Pending,
    /// A login token was exchanged successfully.
    LoggedIn,
    /// The last token exchange failed; the field is the capability's
    /// reported error text. A later successful exchange may still
    /// log the session in.
    Failed(String),
}

/// Spec-level image of a `LoginState`.
pub enum LoginStateView {
    Pending,
    LoggedIn,
    Failed(Seq<char>),
}

impl View for LoginState {
    type V = LoginStateView;

    open spec fn view(&self) -> LoginStateView {
        match self {
            LoginState::Pending => LoginStateView::Pending,
            LoginState::LoggedIn => LoginStateView::LoggedIn,
            LoginState::Failed(m) => LoginStateView::Failed(m@),
        }
    }
}

/// One user's authentication attempt against the homeserver: an
/// exclusively owned handle to the bound remote client, and the
/// session's login state.
#[derive(Debug, Clone)]
pub struct Session {
    /// Handle under which the embedding program holds the remote
    /// client that was bound to this session at creation.
    pub client: u64,
    /// Where the session stands in the login state machine.
    pub login: LoginState,
}

/// Spec-level image of a `Session`.
pub struct SessionView {
    pub client: u64,
    pub login: LoginStateView,
}

impl View for Session {
    type V = SessionView;

    open spec fn view(&self) -> SessionView {
        SessionView { client: self.client, login: self.login@ }
    }
}

impl DeepView for Session {
    type V = SessionView;

    open spec fn deep_view(&self) -> SessionView {
        self@
    }
}

/// The transition relation of the login state machine: `Pending` may
/// move to `LoggedIn` or `Failed`, a `Failed` session may be retried
/// into `LoggedIn` or fail again with a new message, and `LoggedIn`
/// is terminal. Every state may also stay where it is.
pub open spec fn login_step_allowed(from: LoginStateView, to: LoginStateView) -> bool {
    match (from, to) {
        (LoginStateView::Pending, _) => true,
        (LoginStateView::Failed(_), LoginStateView::LoggedIn) => true,
        (LoginStateView::Failed(_), LoginStateView::Failed(_)) => true,
        (LoginStateView::LoggedIn, to) => to is LoggedIn,
        _ => from == to,
    }
}

/// The state a session's login moves to when a token exchange comes
/// back: an accepted token logs the session in, a rejected token
/// records the capability's error text, and a session that is already
/// logged in stays logged in.
pub open spec fn after_exchange(prev: LoginStateView, exchange: Result<(), Seq<char>>) -> LoginStateView {
    if prev is LoggedIn {
        LoginStateView::LoggedIn
    } else {
        match exchange {
            Ok(()) => LoginStateView::LoggedIn,
            Err(m) => LoginStateView::Failed(m),
        }
    }
}

impl LoginState {
    /// Applies one token-exchange outcome to this login state.
    pub fn apply_exchange(&self, exchange: &Result<(), String>) -> (next: LoginState)
        ensures
            next@ == after_exchange(self@, match exchange {
                Ok(()) => Ok(()),
                Err(m) => Err(m@),
            }),
    {
        match self {
            LoginState::LoggedIn => LoginState::LoggedIn,
            _ => match exchange {
                Ok(()) => LoginState::LoggedIn,
                Err(m) => LoginState::Failed(m.clone()),
            },
        }
    }
}

/// Every reachable move of the login state machine is one that the
/// transition relation allows: applying a token-exchange outcome to
/// any state yields a state that `login_step_allowed` admits.
pub proof fn lemma_exchange_respects_transitions(
    prev: LoginStateView,
    exchange: Result<(), Seq<char>>,
)
    ensures
        login_step_allowed(prev, after_exchange(prev, exchange)),
{
}

} // verus!
