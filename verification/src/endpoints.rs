use vstd::prelude::*;

use crate::config::Config;
use crate::decimal::{all_dec_digits, dec_rep, dec_value, parse_u64, u64_to_dec};
use crate::error::ApiError;
use crate::orchestrator::{
    degrade, lemma_degrade_warning_nonempty, resolve_strict, timeout_warning, upstream_warning,
    CallOutcome, Operation, ReadResponse,
};
use crate::registry::Registry;
use crate::session::{after_exchange, LoginState, LoginStateView, SessionView};

verus! {

/// Everything the running facade owns: the session registry and the
/// configuration it was started with. Created once at process start,
/// torn down at shutdown.
pub struct ApiState {
    pub sessions: Registry,
    pub config: Config,
}

impl ApiState {
    /// A fresh state with no sessions.
    pub fn new(config: Config) -> (s: ApiState)
        ensures
            s.sessions@ == Seq::<SessionView>::empty(),
            s.config == config,
    {
        ApiState { sessions: Registry::new(), config }
    }
}

/// The decoded body of a send-message request.
pub struct MessageBody {
    pub body: String,
}

/// The decoded query string of the SSO callback.
pub struct CallbackQuery {
    pub session_id: String,
    pub login_token: String,
}

/// The liveness answer of the facade itself.
pub struct ServiceStatus {
    pub status: String,
}

/// What starting a login hands back before the SSO URL is fetched:
/// the fresh session id and the callback address that carries it.
pub struct SsoStartBegun {
    pub session_id: u64,
    pub redirect_url: String,
}

/// The completed answer of the SSO-start operation.
pub struct SsoStartResponse {
    pub session_id: String,
    pub sso_url: String,
}

/// The answer of a login-status query.
pub struct StatusReport {
    pub status: String,
    pub error: Option<String>,
}

/// One room as the sync operation reports it.
pub struct RoomSummary {
    pub room_id: String,
}

/// What a successful sync call carries: the rooms seen and the
/// continuation token for the next page.
pub struct SyncData {
    pub rooms: Vec<RoomSummary>,
    pub next_batch: String,
}

/// The answer of the sync endpoint: always a room list and a
/// continuation token; the `error` field carries the warning of a
/// degraded outcome.
pub struct SyncResponse {
    pub rooms: Vec<RoomSummary>,
    pub next_batch: String,
    pub error: Option<String>,
}

/// One room as the room-list operation reports it.
pub struct RoomInfo {
    pub room_id: String,
    pub name: String,
}

/// One message as the message-list operation reports it.
pub struct MessageInfo {
    pub sender: String,
    pub body: String,
    pub event_id: String,
    pub timestamp: u64,
}

/// The answer of a successful send-message operation.
pub struct SendMessageResponse {
    pub status: String,
    pub event_id: String,
}

/// The answer of a successful create-room operation.
pub struct CreateRoomResponse {
    pub room_id: String,
}

/// The answer of a successful join- or leave-room operation.
pub struct RoomActionResponse {
    pub status: String,
    pub room_id: String,
}

/// The session id that a request's id text denotes: ids travel as
/// decimal numbers, and a text that denotes no number a registry
/// could ever have handed out denotes no session at all.
pub open spec fn wire_session_id(t: Seq<char>) -> Option<u64> {
    if t.len() > 0 && all_dec_digits(t) && dec_value(t) <= u64::MAX {
        Some(dec_value(t) as u64)
    } else {
        None
    }
}

/// The callback address embedded into the SSO redirect for a session.
pub open spec fn callback_redirect(id: nat) -> Seq<char> {
    "http://localhost:8080/login/sso/callback?session_id="@ + dec_rep(id)
}

/// Builds the callback address carrying a session id.
pub fn callback_redirect_url(id: u64) -> (s: String)
    ensures
        s@ == callback_redirect(id as nat),
{
    String::from_str("http://localhost:8080/login/sso/callback?session_id=").concat(
        u64_to_dec(id).as_str(),
    )
}

/// The facade's own liveness answer: always running.
pub fn status() -> (r: ServiceStatus)
    ensures
        r.status@ == "running"@,
{
    ServiceStatus { status: String::from_str("running") }
}

/// Resolves a request's session-id text against the registry. Returns
/// the id exactly when the text denotes a session the registry holds;
/// any id never created — including any text that is no id at all —
/// is answered with `SessionNotFound`.
pub fn lookup_session(reg: &Registry, id_text: &str) -> (r: Result<u64, ApiError>)
    ensures
        match r {
            Ok(id) => wire_session_id(id_text@) == Some(id) && reg.contains_id(id),
            Err(e) => e is SessionNotFound && (match wire_session_id(id_text@) {
                Some(id) => !reg.contains_id(id),
                None => true,
            }),
        },
{
    match parse_u64(id_text) {
        Some(id) => match reg.get(id) {
            Some(_) => Ok(id),
            None => Err(ApiError::SessionNotFound),
        },
        None => Err(ApiError::SessionNotFound),
    }
}

/// Resolves the session behind a session-scoped remote operation and
/// hands out the remote-client handle to call. An id never created is
/// `SessionNotFound`; a session that has not completed a successful
/// login is `NotAuthenticated`; otherwise the session's bound client
/// handle comes back.
pub fn prepare_session_call(reg: &Registry, id_text: &str) -> (r: Result<u64, ApiError>)
    ensures
        match wire_session_id(id_text@) {
            None => (r matches Err(e) && e is SessionNotFound),
            Some(id) => {
                if !reg.contains_id(id) {
                    r matches Err(e) && e is SessionNotFound
                } else if !(reg.session_at(id).login is LoggedIn) {
                    r matches Err(e) && e is NotAuthenticated
                } else {
                    r matches Ok(h) && h == reg.session_at(id).client
                }
            },
        },
{
    match parse_u64(id_text) {
        None => Err(ApiError::SessionNotFound),
        Some(id) => match reg.get(id) {
            None => Err(ApiError::SessionNotFound),
            Some(session) => match &session.login {
                LoginState::LoggedIn => Ok(session.client),
                _ => Err(ApiError::NotAuthenticated),
            },
        },
    }
}

/// Starts a login: when the remote client could be built, a fresh
/// `Pending` session bound to it enters the registry — its id was
/// never handed out before — and the callback address carrying the
/// new id comes back for the SSO-URL request. When the capability
/// could not produce a client, nothing changes and the failure
/// surfaces as `UpstreamProtocolError`.
pub fn login_sso_start(reg: &mut Registry, client: Result<u64, String>) -> (r: Result<
    SsoStartBegun,
    ApiError,
>)
    ensures
        client matches Err(e) ==> (r matches Err(err) && err matches
            ApiError::UpstreamProtocolError(d) && d@ == e@ && final(reg)@ == old(reg)@),
        client matches Ok(h) ==> (r matches Ok(b) && b.session_id as nat == old(reg)@.len()
            && !old(reg).contains_id(b.session_id) && final(reg)@ == old(reg)@.push(
            SessionView { client: h, login: LoginStateView::Pending },
        ) && final(reg).contains_id(b.session_id) && final(reg).session_at(b.session_id).login
            is Pending && b.redirect_url@ == callback_redirect(b.session_id as nat)),
{
    match client {
        Err(e) => Err(ApiError::UpstreamProtocolError(e)),
        Ok(h) => {
            let id = reg.create(h);
            let redirect_url = callback_redirect_url(id);
            Ok(SsoStartBegun { session_id: id, redirect_url })
        },
    }
}

/// Finishes the SSO-start operation once the capability has answered
/// the SSO-URL request: on success the response carries the session
/// id in its wire form together with the URL; a capability failure
/// surfaces as `UpstreamProtocolError`.
pub fn login_sso_finish(session_id: u64, sso: Result<String, String>) -> (r: Result<
    SsoStartResponse,
    ApiError,
>)
    ensures
        sso matches Ok(u) ==> (r matches Ok(resp) && resp.session_id@ == dec_rep(
            session_id as nat,
        ) && resp.sso_url == u),
        sso matches Err(e) ==> (r matches Err(err) && err matches ApiError::UpstreamProtocolError(
            d,
        ) && d@ == e@),
{
    match sso {
        Ok(u) => Ok(SsoStartResponse { session_id: u64_to_dec(session_id), sso_url: u }),
        Err(e) => Err(ApiError::UpstreamProtocolError(e)),
    }
}

/// Completes a login with the outcome of the token exchange. An id
/// never created is `SessionNotFound` and nothing changes. Otherwise
/// exactly this session's login state moves as the state machine
/// prescribes — an accepted token logs it in, a rejected token
/// records the capability's error text — and the call itself reports
/// success or the rejection. A rejected exchange leaves the session
/// queryable, so a later retry on the same id can still succeed.
pub fn login_sso_callback(reg: &mut Registry, id_text: &str, exchange: Result<(), String>) -> (r:
    Result<String, ApiError>)
    ensures
        match wire_session_id(id_text@) {
            None => (r matches Err(e) && e is SessionNotFound && final(reg)@ == old(reg)@),
            Some(id) => {
                if !old(reg).contains_id(id) {
                    r matches Err(e) && e is SessionNotFound && final(reg)@ == old(reg)@
                } else {
                    &&& final(reg)@ == old(reg)@.update(
                        id as int,
                        SessionView {
                            client: old(reg).session_at(id).client,
                            login: after_exchange(
                                old(reg).session_at(id).login,
                                match exchange {
                                    Ok(()) => Ok(()),
                                    Err(m) => Err(m@),
                                },
                            ),
                        },
                    )
                    &&& (exchange matches Ok(()) ==> (r matches Ok(msg) && msg@
                        == "Login successful! You can now close this window and return to the application."@))
                    &&& (exchange matches Err(m) ==> (r matches Err(err) && err matches
                        ApiError::UpstreamProtocolError(d) && d@ == m@))
                }
            },
        },
{
    match parse_u64(id_text) {
        None => Err(ApiError::SessionNotFound),
        Some(id) => match reg.get(id) {
            None => Err(ApiError::SessionNotFound),
            Some(session) => {
                let next = session.login.apply_exchange(&exchange);
                let _ = reg.mutate(id, next);
                match exchange {
                    Ok(()) => Ok(String::from_str(
                        "Login successful! You can now close this window and return to the application.",
                    )),
                    Err(m) => Err(ApiError::UpstreamProtocolError(m)),
                }
            },
        },
    }
}

/// Reports where a session stands in the login state machine: an id
/// never created is `SessionNotFound`; otherwise `pending`,
/// `logged_in`, or `error` together with the recorded error text.
pub fn login_status(reg: &Registry, id_text: &str) -> (r: Result<StatusReport, ApiError>)
    ensures
        match wire_session_id(id_text@) {
            None => (r matches Err(e) && e is SessionNotFound),
            Some(id) => {
                if !reg.contains_id(id) {
                    r matches Err(e) && e is SessionNotFound
                } else {
                    match reg.session_at(id).login {
                        LoginStateView::Pending => r matches Ok(s) && s.status@ == "pending"@
                            && s.error is None,
                        LoginStateView::LoggedIn => r matches Ok(s) && s.status@ == "logged_in"@
                            && s.error is None,
                        LoginStateView::Failed(m) => r matches Ok(s) && s.status@ == "error"@ && (
                        s.error matches Some(t) && t@ == m),
                    }
                }
            },
        },
{
    match parse_u64(id_text) {
        None => Err(ApiError::SessionNotFound),
        Some(id) => match reg.get(id) {
            None => Err(ApiError::SessionNotFound),
            Some(session) => match &session.login {
                LoginState::Pending => Ok(StatusReport {
                    status: String::from_str("pending"),
                    error: None,
                }),
                LoginState::LoggedIn => Ok(StatusReport {
                    status: String::from_str("logged_in"),
                    error: None,
                }),
                LoginState::Failed(m) => Ok(StatusReport {
                    status: String::from_str("error"),
                    error: Some(m.clone()),
                }),
            },
        },
    }
}

/// Resolves one sync call. A successful call passes its rooms and
/// continuation token through untouched. A failed or timed-out call
/// still returns success: the rooms fall back to the bounded fallback
/// fetch (or to an empty list), the `error` field carries a non-empty
/// warning, and the continuation token is a sentinel that tells a
/// timeout apart from an upstream failure, so callers can always
/// retry pagination.
pub fn sync(primary: CallOutcome<SyncData>, fallback: CallOutcome<Vec<RoomSummary>>) -> (r:
    SyncResponse)
    ensures
        primary matches CallOutcome::Succeeded(d) ==> (r.rooms == d.rooms && r.next_batch
            == d.next_batch && r.error is None),
        primary matches CallOutcome::UpstreamError(e) ==> (r.next_batch@ == "failure_sync_token"@
            && (r.error matches Some(w) && w@ == upstream_warning(Operation::Sync.spec_name(), e@)
            && w@.len() > 0)),
        primary is TimedOut ==> (r.next_batch@ == "timeout_sync_token"@ && (r.error matches Some(w)
            && w@ == timeout_warning(Operation::Sync.spec_name()) && w@.len() > 0)),
        !(primary is Succeeded) ==> (match fallback {
            CallOutcome::Succeeded(f) => r.rooms == f,
            _ => r.rooms@.len() == 0,
        }),
{
    proof {
        lemma_degrade_warning_nonempty(Operation::Sync, match &primary {
            CallOutcome::UpstreamError(e) => e@,
            _ => Seq::<char>::empty(),
        });
    }
    match primary {
        CallOutcome::Succeeded(d) => SyncResponse {
            rooms: d.rooms,
            next_batch: d.next_batch,
            error: None,
        },
        CallOutcome::UpstreamError(e) => {
            let resolved = degrade(
                &Operation::Sync,
                CallOutcome::UpstreamError(e),
                fallback,
                Vec::new(),
            );
            SyncResponse {
                rooms: resolved.payload,
                next_batch: String::from_str("failure_sync_token"),
                error: resolved.warning,
            }
        },
        CallOutcome::TimedOut => {
            let resolved = degrade(
                &Operation::Sync,
                CallOutcome::TimedOut,
                fallback,
                Vec::new(),
            );
            SyncResponse {
                rooms: resolved.payload,
                next_batch: String::from_str("timeout_sync_token"),
                error: resolved.warning,
            }
        },
    }
}

/// The two degraded-sync sentinels can be told apart, and each can be
/// told apart from an empty token, so a caller can always see whether
/// a page is real progress, a timeout, or an upstream failure.
pub proof fn lemma_sync_sentinels_differ()
    ensures
        "timeout_sync_token"@ != "failure_sync_token"@,
        "timeout_sync_token"@.len() > 0,
        "failure_sync_token"@.len() > 0,
{
    reveal_strlit("timeout_sync_token");
    reveal_strlit("failure_sync_token");
    assert("timeout_sync_token"@[0] != "failure_sync_token"@[0]);
}

/// Resolves one room-list call: the real list on success, else the
/// bounded fallback fetch's list (or an empty one) with a non-empty
/// warning — never an error.
pub fn rooms(primary: CallOutcome<Vec<RoomInfo>>, fallback: CallOutcome<Vec<RoomInfo>>) -> (r:
    ReadResponse<Vec<RoomInfo>>)
    ensures
        primary matches CallOutcome::Succeeded(v) ==> (r.payload == v && r.warning is None),
        primary matches CallOutcome::UpstreamError(e) ==> (r.warning matches Some(w) && w@
            == upstream_warning(Operation::ListRooms.spec_name(), e@) && w@.len() > 0),
        primary is TimedOut ==> (r.warning matches Some(w) && w@ == timeout_warning(
            Operation::ListRooms.spec_name(),
        ) && w@.len() > 0),
        !(primary is Succeeded) ==> (match fallback {
            CallOutcome::Succeeded(f) => r.payload == f,
            _ => r.payload@.len() == 0,
        }),
{
    proof {
        lemma_degrade_warning_nonempty(Operation::ListRooms, match &primary {
            CallOutcome::UpstreamError(e) => e@,
            _ => Seq::<char>::empty(),
        });
    }
    degrade(&Operation::ListRooms, primary, fallback, Vec::new())
}

/// The display name under which one room is reported: the capability's
/// answer when its bounded fetch succeeded, else `Unknown`.
pub fn room_display_name(outcome: CallOutcome<String>) -> (name: String)
    ensures
        outcome matches CallOutcome::Succeeded(n) ==> name == n,
        !(outcome is Succeeded) ==> name@ == "Unknown"@,
{
    match outcome {
        CallOutcome::Succeeded(n) => n,
        _ => String::from_str("Unknown"),
    }
}

/// Resolves one message-list call: the real messages on success, else
/// the bounded fallback fetch's list (or an empty one) with a
/// non-empty warning — never an error.
pub fn room_messages(
    primary: CallOutcome<Vec<MessageInfo>>,
    fallback: CallOutcome<Vec<MessageInfo>>,
) -> (r: ReadResponse<Vec<MessageInfo>>)
    ensures
        primary matches CallOutcome::Succeeded(v) ==> (r.payload == v && r.warning is None),
        primary matches CallOutcome::UpstreamError(e) ==> (r.warning matches Some(w) && w@
            == upstream_warning(Operation::ListMessages.spec_name(), e@) && w@.len() > 0),
        primary is TimedOut ==> (r.warning matches Some(w) && w@ == timeout_warning(
            Operation::ListMessages.spec_name(),
        ) && w@.len() > 0),
        !(primary is Succeeded) ==> (match fallback {
            CallOutcome::Succeeded(f) => r.payload == f,
            _ => r.payload@.len() == 0,
        }),
{
    proof {
        lemma_degrade_warning_nonempty(Operation::ListMessages, match &primary {
            CallOutcome::UpstreamError(e) => e@,
            _ => Seq::<char>::empty(),
        });
    }
    degrade(&Operation::ListMessages, primary, fallback, Vec::new())
}

/// Assembles one reported message from the fields that could be read
/// out of a raw event, substituting a fixed default for every absent
/// field.
pub fn message_from_fields(
    sender: Option<String>,
    body: Option<String>,
    event_id: Option<String>,
    timestamp: Option<u64>,
) -> (m: MessageInfo)
    ensures
        (match sender {
            Some(s) => m.sender == s,
            None => m.sender@ == "Unknown"@,
        }),
        (match body {
            Some(b) => m.body == b,
            None => m.body@ == "No content"@,
        }),
        (match event_id {
            Some(e) => m.event_id == e,
            None => m.event_id@ == "Unknown"@,
        }),
        (match timestamp {
            Some(t) => m.timestamp == t,
            None => m.timestamp == 0,
        }),
{
    MessageInfo {
        sender: match sender {
            Some(s) => s,
            None => String::from_str("Unknown"),
        },
        body: match body {
            Some(b) => b,
            None => String::from_str("No content"),
        },
        event_id: match event_id {
            Some(e) => e,
            None => String::from_str("Unknown"),
        },
        timestamp: match timestamp {
            Some(t) => t,
            None => 0,
        },
    }
}

/// Resolves one send-message call: a strict write. The response claims
/// success exactly when the capability answered within the deadline;
/// an upstream failure propagates with the capability's text and an
/// elapsed deadline surfaces as a `Timeout` naming the operation — no
/// event id is ever invented.
pub fn send_message(outcome: CallOutcome<String>) -> (r: Result<SendMessageResponse, ApiError>)
    ensures
        r is Ok <==> outcome is Succeeded,
        outcome matches CallOutcome::Succeeded(eid) ==> (r matches Ok(resp) && resp.status@
            == "success"@ && resp.event_id == eid),
        outcome matches CallOutcome::UpstreamError(e) ==> (r matches Err(err) && err matches
            ApiError::UpstreamProtocolError(d) && d@ == e@),
        outcome is TimedOut ==> (r matches Err(err) && err matches ApiError::Timeout(n) && n@
            == Operation::SendMessage.spec_name()),
{
    match resolve_strict(&Operation::SendMessage, outcome) {
        Ok(eid) => Ok(SendMessageResponse { status: String::from_str("success"), event_id: eid }),
        Err(e) => Err(e),
    }
}

/// Resolves one create-room call: a strict write, resolved like
/// `send_message`.
pub fn create_room(outcome: CallOutcome<String>) -> (r: Result<CreateRoomResponse, ApiError>)
    ensures
        r is Ok <==> outcome is Succeeded,
        outcome matches CallOutcome::Succeeded(rid) ==> (r matches Ok(resp) && resp.room_id
            == rid),
        outcome matches CallOutcome::UpstreamError(e) ==> (r matches Err(err) && err matches
            ApiError::UpstreamProtocolError(d) && d@ == e@),
        outcome is TimedOut ==> (r matches Err(err) && err matches ApiError::Timeout(n) && n@
            == Operation::CreateRoom.spec_name()),
{
    match resolve_strict(&Operation::CreateRoom, outcome) {
        Ok(rid) => Ok(CreateRoomResponse { room_id: rid }),
        Err(e) => Err(e),
    }
}

/// Resolves one join-room call: a strict write; on success the
/// response names the joined room.
pub fn join_room(room_id: String, outcome: CallOutcome<()>) -> (r: Result<
    RoomActionResponse,
    ApiError,
>)
    ensures
        r is Ok <==> outcome is Succeeded,
        outcome is Succeeded ==> (r matches Ok(resp) && resp.status@ == "success"@ && resp.room_id
            == room_id),
        outcome matches CallOutcome::UpstreamError(e) ==> (r matches Err(err) && err matches
            ApiError::UpstreamProtocolError(d) && d@ == e@),
        outcome is TimedOut ==> (r matches Err(err) && err matches ApiError::Timeout(n) && n@
            == Operation::JoinRoom.spec_name()),
{
    match resolve_strict(&Operation::JoinRoom, outcome) {
        Ok(()) => Ok(RoomActionResponse { status: String::from_str("success"), room_id }),
        Err(e) => Err(e),
    }
}

/// Resolves one leave-room call: a strict write; on success the
/// response names the left room.
pub fn leave_room(room_id: String, outcome: CallOutcome<()>) -> (r: Result<
    RoomActionResponse,
    ApiError,
>)
    ensures
        r is Ok <==> outcome is Succeeded,
        outcome is Succeeded ==> (r matches Ok(resp) && resp.status@ == "success"@ && resp.room_id
            == room_id),
        outcome matches CallOutcome::UpstreamError(e) ==> (r matches Err(err) && err matches
            ApiError::UpstreamProtocolError(d) && d@ == e@),
        outcome is TimedOut ==> (r matches Err(err) && err matches ApiError::Timeout(n) && n@
            == Operation::LeaveRoom.spec_name()),
{
    match resolve_strict(&Operation::LeaveRoom, outcome) {
        Ok(()) => Ok(RoomActionResponse { status: String::from_str("success"), room_id }),
        Err(e) => Err(e),
    }
}

} // verus!
