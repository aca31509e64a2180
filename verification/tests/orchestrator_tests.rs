use matrix_api::{create_room, join_room, leave_room, message_from_fields, room_display_name,
    room_messages, rooms, send_message, sync, ApiError, CallOutcome, Category, MessageInfo,
    Operation, RoomInfo, RoomSummary, SyncData, FALLBACK_DEADLINE_SECS, SYNC_LONG_POLL_SECS};

fn summaries(ids: &[&str]) -> Vec<RoomSummary> {
    ids.iter().map(|id| RoomSummary { room_id: id.to_string() }).collect()
}

#[test]
fn sync_success_passes_through() {
    let data = SyncData {
        rooms: summaries(&["!a:x", "!b:x"]),
        next_batch: "batch-17".to_string(),
    };
    let r = sync(CallOutcome::Succeeded(data), CallOutcome::TimedOut);
    assert_eq!(r.next_batch, "batch-17");
    assert!(r.error.is_none());
    let ids: Vec<&str> = r.rooms.iter().map(|s| s.room_id.as_str()).collect();
    assert_eq!(ids, vec!["!a:x", "!b:x"]);
}

#[test]
fn sync_timeout_degrades_with_token_and_warning() {
    let fallback = summaries(&["!known:x"]);
    let r = sync(CallOutcome::TimedOut, CallOutcome::Succeeded(fallback));
    assert_eq!(r.next_batch, "timeout_sync_token");
    let warning = r.error.expect("degraded sync carries a warning");
    assert!(!warning.is_empty());
    assert_eq!(warning, "sync timed out (continuing with fallback)");
    assert_eq!(r.rooms.len(), 1);
    assert_eq!(r.rooms[0].room_id, "!known:x");
}

#[test]
fn sync_upstream_failure_still_succeeds() {
    // The capability fails every sync call and even the fallback fetch
    // fails: the response is still a success with an empty room list,
    // a failure token, and a non-empty warning.
    let r = sync(
        CallOutcome::UpstreamError("boom".to_string()),
        CallOutcome::UpstreamError("boom".to_string()),
    );
    assert_eq!(r.next_batch, "failure_sync_token");
    assert!(r.rooms.is_empty());
    let warning = r.error.expect("degraded sync carries a warning");
    assert_eq!(warning, "sync upstream error (continuing with fallback): boom");
}

#[test]
fn sync_sentinels_distinguish_causes() {
    let timed = sync(CallOutcome::TimedOut, CallOutcome::TimedOut);
    let failed = sync(
        CallOutcome::UpstreamError("x".to_string()),
        CallOutcome::TimedOut,
    );
    assert_ne!(timed.next_batch, failed.next_batch);
}

#[test]
fn rooms_degrade_to_fallback_then_empty() {
    let fallback = vec![RoomInfo { room_id: "!a:x".to_string(), name: "A".to_string() }];
    let r = rooms(CallOutcome::TimedOut, CallOutcome::Succeeded(fallback));
    assert_eq!(r.payload.len(), 1);
    assert_eq!(r.payload[0].room_id, "!a:x");
    assert!(r.warning.is_some());

    let r = rooms(
        CallOutcome::UpstreamError("down".to_string()),
        CallOutcome::TimedOut,
    );
    assert!(r.payload.is_empty());
    assert_eq!(
        r.warning.as_deref(),
        Some("list_rooms upstream error (continuing with fallback): down")
    );
}

#[test]
fn room_messages_degrade_like_other_reads() {
    let r = room_messages(CallOutcome::TimedOut, CallOutcome::TimedOut);
    assert!(r.payload.is_empty());
    assert_eq!(
        r.warning.as_deref(),
        Some("list_messages timed out (continuing with fallback)")
    );
    let real = vec![MessageInfo {
        sender: "@u:x".to_string(),
        body: "hi".to_string(),
        event_id: "$e1".to_string(),
        timestamp: 9,
    }];
    let r = room_messages(CallOutcome::Succeeded(real), CallOutcome::TimedOut);
    assert!(r.warning.is_none());
    assert_eq!(r.payload.len(), 1);
    assert_eq!(r.payload[0].body, "hi");
}

#[test]
fn display_name_falls_back_to_unknown() {
    assert_eq!(room_display_name(CallOutcome::Succeeded("Ops".to_string())), "Ops");
    assert_eq!(room_display_name(CallOutcome::TimedOut), "Unknown");
    assert_eq!(
        room_display_name(CallOutcome::UpstreamError("x".to_string())),
        "Unknown"
    );
}

#[test]
fn message_fields_get_defaults() {
    let m = message_from_fields(None, None, None, None);
    assert_eq!(m.sender, "Unknown");
    assert_eq!(m.body, "No content");
    assert_eq!(m.event_id, "Unknown");
    assert_eq!(m.timestamp, 0);
    let m = message_from_fields(
        Some("@a:x".to_string()),
        Some("text".to_string()),
        Some("$e".to_string()),
        Some(5),
    );
    assert_eq!(m.sender, "@a:x");
    assert_eq!(m.body, "text");
    assert_eq!(m.event_id, "$e");
    assert_eq!(m.timestamp, 5);
}

#[test]
fn send_timeout_is_a_visible_failure() {
    // A timed-out strict write never claims success and carries no
    // event id.
    match send_message(CallOutcome::TimedOut) {
        Err(ApiError::Timeout(op)) => assert_eq!(op, "send_message"),
        _ => panic!("a timed-out send must fail with a timeout error"),
    }
}

#[test]
fn send_upstream_failure_propagates() {
    // The capability fails every send call: the response is a failure,
    // never a success with an event id.
    match send_message(CallOutcome::UpstreamError("rejected".to_string())) {
        Err(ApiError::UpstreamProtocolError(detail)) => assert_eq!(detail, "rejected"),
        _ => panic!("a failed send must propagate the upstream error"),
    }
}

#[test]
fn send_success_reports_event_id() {
    let r = send_message(CallOutcome::Succeeded("$ev1".to_string())).expect("sent");
    assert_eq!(r.status, "success");
    assert_eq!(r.event_id, "$ev1");
}

#[test]
fn create_room_is_strict() {
    let r = create_room(CallOutcome::Succeeded("!new:x".to_string())).expect("created");
    assert_eq!(r.room_id, "!new:x");
    match create_room(CallOutcome::TimedOut) {
        Err(ApiError::Timeout(op)) => assert_eq!(op, "create_room"),
        _ => panic!("a timed-out create must fail"),
    }
}

#[test]
fn join_and_leave_are_strict() {
    let r = join_room("!r:x".to_string(), CallOutcome::Succeeded(())).expect("joined");
    assert_eq!(r.status, "success");
    assert_eq!(r.room_id, "!r:x");
    match join_room("!r:x".to_string(), CallOutcome::UpstreamError("denied".to_string())) {
        Err(ApiError::UpstreamProtocolError(detail)) => assert_eq!(detail, "denied"),
        _ => panic!("a failed join must propagate"),
    }
    let r = leave_room("!r:x".to_string(), CallOutcome::Succeeded(())).expect("left");
    assert_eq!(r.status, "success");
    assert_eq!(r.room_id, "!r:x");
    match leave_room("!r:x".to_string(), CallOutcome::TimedOut) {
        Err(ApiError::Timeout(op)) => assert_eq!(op, "leave_room"),
        _ => panic!("a timed-out leave must fail"),
    }
}

#[test]
fn deadlines_favour_reads_over_writes() {
    let ops = [
        Operation::Sync,
        Operation::ListRooms,
        Operation::ListMessages,
        Operation::SendMessage,
        Operation::CreateRoom,
        Operation::JoinRoom,
        Operation::LeaveRoom,
    ];
    for r in ops.iter().filter(|o| o.category() == Category::DegradableRead) {
        for w in ops.iter().filter(|o| o.category() == Category::StrictWrite) {
            assert!(r.deadline_secs() > w.deadline_secs());
        }
        assert!(FALLBACK_DEADLINE_SECS < r.deadline_secs());
    }
    assert!(Operation::Sync.deadline_secs() > SYNC_LONG_POLL_SECS);
    assert_eq!(Operation::Sync.deadline_secs(), 90);
    assert_eq!(Operation::SendMessage.deadline_secs(), 5);
    assert_eq!(Operation::SendMessage.name(), "send_message");
    assert_eq!(Operation::Sync.category(), Category::DegradableRead);
    assert_eq!(Operation::CreateRoom.category(), Category::StrictWrite);
}
