//! Session lifecycle management and timeout-bounded request orchestration
//! for an HTTP facade in front of a remote chat-protocol homeserver.
//!
//! The crate keeps per-user login sessions in a [`Registry`], drives
//! each session through the SSO login state machine around
//! [`LoginState`], and resolves the outcome of every remote operation
//! through the orchestrator around [`Operation`]: degradable reads
//! fall back to a best-effort payload with a warning, strict writes
//! surface their failure, and each operation runs under its own
//! deadline.
//!
//! All network traffic with the homeserver is performed by the embedding
//! program through a remote-client capability; this crate makes the
//! decisions: which session a request resolves to, how its login state
//! moves, and what every combination of upstream outcome and operation
//! category must return.

mod config;
mod decimal;
mod endpoints;
mod error;
mod lifecycle;
mod orchestrator;
mod registry;
mod roomid;
mod session;
mod urlcheck;

pub use config::{Config, HomeserverConfig};
pub use decimal::{
    all_dec_digits, dec_digit, dec_rep, dec_value, digit_val, is_dec_digit, lemma_dec_round_trip,
    parse_u64, u64_to_dec,
};
pub use endpoints::{
    callback_redirect, callback_redirect_url, create_room, join_room, leave_room,
    lemma_sync_sentinels_differ, login_sso_callback, login_sso_finish, login_sso_start,
    login_status, lookup_session, message_from_fields, prepare_session_call, room_display_name,
    room_messages, rooms, send_message, status, sync, wire_session_id, ApiState, CallbackQuery,
    CreateRoomResponse, MessageBody, MessageInfo, RoomActionResponse, RoomInfo, RoomSummary,
    SendMessageResponse, ServiceStatus, SsoStartBegun, SsoStartResponse, StatusReport, SyncData,
    SyncResponse,
};
pub use error::{error_text, ApiError};
pub use lifecycle::{
    lemma_accepted_token_logs_in, lemma_create_keeps_sessions, lemma_failure_not_terminal,
    lemma_fresh_session_pending, lemma_mutate_keeps_other_sessions,
    lemma_rejected_token_records_error, lemma_two_creates_distinct,
};
pub use orchestrator::{
    degrade, fallback_payload, lemma_degrade_warning_nonempty, lemma_fallback_deadline_short,
    lemma_read_write_deadline_asymmetry, lemma_sync_deadline_covers_long_poll, resolve_strict,
    timeout_warning, upstream_warning, CallOutcome, Category, Operation, ReadResponse,
    FALLBACK_DEADLINE_SECS, SYNC_LONG_POLL_SECS,
};
pub use registry::Registry;
pub use roomid::{valid_room_id, validate_room_id};
pub use session::{
    after_exchange, lemma_exchange_respects_transitions, login_step_allowed, LoginState,
    LoginStateView, Session, SessionView,
};
pub use urlcheck::{check_homeserver_url, url_parse_accepts};
