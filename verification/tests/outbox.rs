use blue_horizon::backoff::{backoff_delay_secs, MAX_ATTEMPTS, MAX_DELAY_SECS};
use blue_horizon::error::AppError;
use blue_horizon::outbox::{AttemptEvent, MutationStatus, Outbox, QueuedMutation, SWEEP_BATCH};

const ALICE: &str = "did:plc:alice";
const BOB: &str = "did:plc:bob";

fn network_down() -> AppError {
    AppError::NetworkError("connection refused".to_string())
}

fn failed(reason: &str) -> AttemptEvent {
    AttemptEvent::Failed { reason: reason.to_string() }
}

fn queue_with(ids: &[(&str, &str, i64)]) -> Outbox {
    let mut outbox = Outbox::new();
    for (id, owner, at) in ids {
        outbox.enqueue(id, owner, "{}", &network_down(), *at).unwrap();
    }
    outbox
}

/// Runs one sweep in which every delivery fails; returns how many entries were attempted.
fn failing_sweep(outbox: &mut Outbox, owner: &str, now: i64) -> usize {
    let batch = outbox.due_batch(Some(owner), now);
    for pos in &batch {
        outbox.apply(*pos, &AttemptEvent::Started, now).unwrap();
        outbox.apply(*pos, &failed("Network error: timed out"), now).unwrap();
    }
    batch.len()
}

#[test]
fn backoff_doubles_from_thirty_seconds_up_to_half_an_hour() {
    assert_eq!(backoff_delay_secs(1), 30);
    assert_eq!(backoff_delay_secs(2), 60);
    assert_eq!(backoff_delay_secs(3), 120);
    assert_eq!(backoff_delay_secs(4), 240);
    assert_eq!(backoff_delay_secs(5), 480);
    assert_eq!(backoff_delay_secs(6), 960);
    assert_eq!(backoff_delay_secs(7), 1800);
    assert_eq!(backoff_delay_secs(8), 1800);
}

#[test]
fn backoff_clamps_the_attempts() {
    assert_eq!(backoff_delay_secs(0), 30);
    assert_eq!(backoff_delay_secs(9), 1800);
    assert_eq!(backoff_delay_secs(u32::MAX), MAX_DELAY_SECS);
}

#[test]
fn backoff_never_shrinks() {
    let mut last = 0;
    for attempts in 0..20 {
        let delay = backoff_delay_secs(attempts);
        assert!(delay >= last);
        last = delay;
    }
}

#[test]
fn enqueue_creates_a_queued_entry_due_at_once() {
    let mut outbox = Outbox::new();
    let event = outbox.enqueue("m-1", ALICE, "{\"text\":\"hi\"}", &network_down(), 1_000).unwrap();
    assert_eq!(event.id, "m-1");
    assert_eq!(outbox.len(), 1);
    let row = outbox.row(0);
    assert_eq!(row.id, "m-1");
    assert_eq!(row.owner, ALICE);
    assert_eq!(row.payload, "{\"text\":\"hi\"}");
    assert_eq!(row.status, MutationStatus::Queued);
    assert_eq!(row.attempts, 1);
    assert_eq!(row.next_retry_at, 1_000);
    assert!(row.next_retry_at <= 1_000);
    assert_eq!(row.last_error, "Network error: connection refused");
    assert_eq!(row.created_at, 1_000);
    assert_eq!(row.updated_at, 1_000);
    assert_eq!(row.sent_at, None);
    assert_eq!(outbox.due_batch(Some(ALICE), 1_000), vec![0]);
}

#[test]
fn enqueue_refuses_an_id_that_is_taken() {
    let mut outbox = queue_with(&[("m-1", ALICE, 10)]);
    let refused = outbox.enqueue("m-1", BOB, "other", &network_down(), 20);
    match refused {
        Err(AppError::InternalError(text)) => {
            assert_eq!(text, "enqueue retry failed: id already present")
        }
        _ => panic!("a duplicate id was accepted"),
    }
    assert_eq!(outbox.len(), 1);
    assert_eq!(outbox.row(0).owner, ALICE);
}

#[test]
fn enqueue_now_draws_an_id_and_reads_the_clock() {
    let mut outbox = Outbox::new();
    let first = outbox.enqueue_now(ALICE, "{}", &AppError::SessionNotFound).unwrap();
    let second = outbox.enqueue_now(ALICE, "{}", &AppError::SessionNotFound).unwrap();
    assert_eq!(first.id.len(), 36);
    assert_eq!(first.id.as_bytes()[8], b'-');
    assert_eq!(first.id.as_bytes()[13], b'-');
    assert_eq!(first.id.as_bytes()[14], b'4');
    assert_eq!(first.id.as_bytes()[18], b'-');
    assert_eq!(first.id.as_bytes()[23], b'-');
    assert_ne!(first.id, second.id);
    assert_eq!(outbox.len(), 2);
    let row = outbox.row(0);
    assert_eq!(row.id, first.id);
    assert_eq!(row.status, MutationStatus::Queued);
    assert_eq!(row.attempts, 1);
    assert_eq!(row.last_error, "Session not found");
    // Later than the first of January 2020, and the same instant in all three places.
    assert!(row.created_at > 1_577_836_800_000);
    assert_eq!(row.next_retry_at, row.created_at);
    assert_eq!(row.updated_at, row.created_at);
}

#[test]
fn one_failing_sweep_queues_the_entry_again_thirty_seconds_on() {
    let mut outbox = Outbox::new();
    outbox.enqueue("m-1", ALICE, "P", &network_down(), 5_000).unwrap();
    assert_eq!(failing_sweep(&mut outbox, ALICE, 6_000), 1);
    let row = outbox.row(0);
    assert_eq!(row.status, MutationStatus::Queued);
    assert_eq!(row.attempts, 2);
    assert_eq!(row.next_retry_at, 6_000 + 30_000);
    assert_eq!(row.last_error, "Network error: timed out");
    assert_eq!(row.updated_at, 6_000);
    assert_eq!(row.payload, "P");
    assert_eq!(row.sent_at, None);
    // Not due again before the delay has passed.
    assert!(outbox.due_batch(Some(ALICE), 35_999).is_empty());
    assert_eq!(outbox.due_batch(Some(ALICE), 36_000), vec![0]);
}

#[test]
fn eight_failing_sweeps_give_the_entry_up_for_good() {
    let mut outbox = Outbox::new();
    outbox.enqueue("m-1", ALICE, "P", &network_down(), 0).unwrap();
    let delays = [30, 60, 120, 240, 480, 960];
    let mut now: i64 = 0;
    for (sweep, delay) in delays.iter().enumerate() {
        assert_eq!(failing_sweep(&mut outbox, ALICE, now), 1);
        let row = outbox.row(0);
        assert_eq!(row.status, MutationStatus::Queued);
        assert_eq!(row.attempts as usize, sweep + 2);
        assert_eq!(row.next_retry_at, now + delay * 1000);
        now = row.next_retry_at;
    }
    // The seventh failing sweep brings the count to eight.
    assert_eq!(failing_sweep(&mut outbox, ALICE, now), 1);
    assert_eq!(outbox.row(0).status, MutationStatus::Failed);
    assert_eq!(outbox.row(0).attempts, 8);
    assert_eq!(outbox.row(0).attempts, MAX_ATTEMPTS);
    assert_eq!(outbox.row(0).next_retry_at, now);
    let updated_at = outbox.row(0).updated_at;
    // The eighth and the ninth find nothing to do.
    for later in [now + 1_800_000, now + 3_600_000] {
        assert_eq!(failing_sweep(&mut outbox, ALICE, later), 0);
        let row = outbox.row(0);
        assert_eq!(row.status, MutationStatus::Failed);
        assert_eq!(row.attempts, 8);
        assert_eq!(row.next_retry_at, now);
        assert_eq!(row.updated_at, updated_at);
        assert_eq!(row.sent_at, None);
    }
}

#[test]
fn a_sweep_takes_the_ten_oldest() {
    let mut outbox = Outbox::new();
    // Twelve entries, created at 120, 110, ..., 10.
    for i in 0..12i64 {
        let id = format!("m-{i}");
        outbox.enqueue(&id, ALICE, "{}", &network_down(), 120 - 10 * i).unwrap();
    }
    let batch = outbox.due_batch(Some(ALICE), 1_000);
    assert_eq!(batch.len(), SWEEP_BATCH);
    assert_eq!(batch, vec![11, 10, 9, 8, 7, 6, 5, 4, 3, 2]);
    for pair in batch.windows(2) {
        assert!(outbox.row(pair[0]).created_at < outbox.row(pair[1]).created_at);
    }
}

#[test]
fn entries_of_one_instant_go_in_the_order_they_came() {
    let outbox = queue_with(&[("a", ALICE, 50), ("b", ALICE, 10), ("c", ALICE, 50), ("d", ALICE, 10)]);
    assert_eq!(outbox.due_batch(Some(ALICE), 50), vec![1, 3, 0, 2]);
}

#[test]
fn a_sweep_takes_only_due_entries_of_the_identity() {
    let mut outbox = queue_with(&[("a", ALICE, 10), ("b", BOB, 20), ("c", ALICE, 30), ("d", ALICE, 40)]);
    assert_eq!(outbox.due_batch(Some(ALICE), 35), vec![0, 2]);
    assert_eq!(outbox.due_batch(Some(BOB), 35), vec![1]);
    assert!(outbox.due_batch(Some("did:plc:carol"), 35).is_empty());
    assert!(outbox.due_batch(Some(ALICE), 9).is_empty());
    // An entry that was sent is left alone.
    outbox.apply(0, &AttemptEvent::Started, 35).unwrap();
    outbox.apply(0, &AttemptEvent::Delivered, 36).unwrap();
    assert_eq!(outbox.due_batch(Some(ALICE), 100), vec![2, 3]);
}

#[test]
fn an_attempt_left_unfinished_is_taken_again() {
    let mut outbox = queue_with(&[("a", ALICE, 10)]);
    outbox.apply(0, &AttemptEvent::Started, 20).unwrap();
    assert_eq!(outbox.row(0).status, MutationStatus::Retrying);
    assert_eq!(outbox.due_batch(Some(ALICE), 20), vec![0]);
    outbox.apply(0, &AttemptEvent::Started, 25).unwrap();
    assert_eq!(outbox.row(0).status, MutationStatus::Retrying);
    assert_eq!(outbox.row(0).attempts, 1);
    assert_eq!(outbox.row(0).updated_at, 25);
}

#[test]
fn without_an_identity_a_sweep_selects_nothing() {
    let outbox = queue_with(&[("a", ALICE, 10)]);
    assert!(outbox.due_batch(None, 1_000).is_empty());
}

#[test]
fn a_delivery_marks_the_entry_sent_and_is_announced() {
    let mut outbox = queue_with(&[("m-1", ALICE, 10)]);
    assert!(outbox.apply(0, &AttemptEvent::Started, 20).unwrap().is_none());
    let announced = outbox.apply(0, &AttemptEvent::Delivered, 30).unwrap().unwrap();
    assert_eq!(announced.id, "m-1");
    let row = outbox.row(0);
    assert_eq!(row.status, MutationStatus::Sent);
    assert_eq!(row.sent_at, Some(30));
    assert_eq!(row.updated_at, 30);
    assert_eq!(row.attempts, 1);
    assert_eq!(row.next_retry_at, 10);
}

#[test]
fn a_malformed_payload_fails_the_entry_without_an_attempt() {
    let mut outbox = queue_with(&[("m-1", ALICE, 10), ("m-2", ALICE, 11)]);
    let rejected = AttemptEvent::PayloadRejected { reason: "expected value at line 1".to_string() };
    assert!(outbox.apply(0, &rejected, 20).unwrap().is_none());
    let row = outbox.row(0);
    assert_eq!(row.status, MutationStatus::Failed);
    assert_eq!(row.attempts, 2);
    assert_eq!(row.last_error, "Invalid retry payload: expected value at line 1");
    assert_eq!(row.next_retry_at, 10);
    assert_eq!(row.updated_at, 20);
    assert_eq!(row.sent_at, None);
    // The rest of the batch goes on.
    assert_eq!(outbox.due_batch(Some(ALICE), 20), vec![1]);
}

#[test]
fn the_queue_rejects_what_an_entry_does_not_take() {
    let mut outbox = queue_with(&[("m-1", ALICE, 10)]);
    // An attempt cannot end before it has started.
    for event in [AttemptEvent::Delivered, failed("late")] {
        match outbox.apply(0, &event, 20) {
            Err(AppError::InternalError(text)) => {
                assert_eq!(text, "retry queue update failed: transition not allowed")
            }
            _ => panic!("accepted"),
        }
    }
    assert_eq!(outbox.row(0).status, MutationStatus::Queued);
    assert_eq!(outbox.row(0).updated_at, 10);
    // A final entry takes nothing.
    outbox.apply(0, &AttemptEvent::Started, 20).unwrap();
    outbox.apply(0, &AttemptEvent::Delivered, 21).unwrap();
    for event in [
        AttemptEvent::Started,
        AttemptEvent::Delivered,
        failed("again"),
        AttemptEvent::PayloadRejected { reason: "bad".to_string() },
    ] {
        assert!(outbox.apply(0, &event, 30).is_err());
    }
    assert_eq!(outbox.row(0).status, MutationStatus::Sent);
    assert_eq!(outbox.row(0).sent_at, Some(21));
    assert_eq!(outbox.row(0).updated_at, 21);
}

#[test]
fn the_queue_rejects_a_place_without_an_entry() {
    let mut outbox = queue_with(&[("m-1", ALICE, 10)]);
    match outbox.apply(1, &AttemptEvent::Started, 20) {
        Err(AppError::InternalError(text)) => {
            assert_eq!(text, "retry queue update failed: no such entry")
        }
        _ => panic!("accepted"),
    }
    assert_eq!(outbox.len(), 1);
}

#[test]
fn entries_are_found_by_id() {
    let outbox = queue_with(&[("a", ALICE, 10), ("b", BOB, 20)]);
    assert_eq!(outbox.position_of("b"), Some(1));
    assert_eq!(outbox.position_of("a"), Some(0));
    assert_eq!(outbox.position_of("c"), None);
}

fn stored(id: &str, status: MutationStatus, attempts: u32, sent_at: Option<i64>) -> QueuedMutation {
    QueuedMutation {
        id: id.to_string(),
        owner: ALICE.to_string(),
        payload: "{}".to_string(),
        status,
        attempts,
        next_retry_at: 100,
        last_error: String::new(),
        created_at: 50,
        updated_at: 60,
        sent_at,
    }
}

#[test]
fn stored_entries_come_back_in_their_order() {
    let rows = vec![
        stored("a", MutationStatus::Queued, 3, None),
        stored("b", MutationStatus::Sent, 2, Some(70)),
        stored("c", MutationStatus::Failed, 8, None),
        stored("d", MutationStatus::Retrying, 7, None),
    ];
    let outbox = Outbox::restore(rows).unwrap();
    assert_eq!(outbox.len(), 4);
    assert_eq!(outbox.row(1).id, "b");
    assert_eq!(outbox.row(1).sent_at, Some(70));
    assert_eq!(outbox.due_batch(Some(ALICE), 100), vec![0, 3]);
}

#[test]
fn stored_entries_that_break_the_bounds_are_refused() {
    assert!(Outbox::restore(vec![stored("a", MutationStatus::Queued, 8, None)]).is_none());
    assert!(Outbox::restore(vec![stored("a", MutationStatus::Failed, 9, None)]).is_none());
    assert!(Outbox::restore(vec![stored("a", MutationStatus::Sent, 1, None)]).is_none());
    assert!(Outbox::restore(vec![stored("a", MutationStatus::Queued, 1, Some(5))]).is_none());
    assert!(Outbox::restore(vec![
        stored("a", MutationStatus::Queued, 1, None),
        stored("b", MutationStatus::Queued, 1, None),
        stored("a", MutationStatus::Failed, 2, None),
    ])
    .is_none());
    assert!(stored("a", MutationStatus::Queued, 7, None).is_valid());
    assert!(!stored("a", MutationStatus::Retrying, 8, None).is_valid());
}

#[test]
fn statuses_have_their_stored_names() {
    assert_eq!(MutationStatus::Queued.as_str(), "queued");
    assert_eq!(MutationStatus::Retrying.as_str(), "retrying");
    assert_eq!(MutationStatus::Sent.as_str(), "sent");
    assert_eq!(MutationStatus::Failed.as_str(), "failed");
    for status in [MutationStatus::Queued, MutationStatus::Retrying, MutationStatus::Sent, MutationStatus::Failed] {
        assert_eq!(MutationStatus::from_name(status.as_str()), Some(status));
    }
    assert_eq!(MutationStatus::from_name("Queued"), None);
    assert_eq!(MutationStatus::from_name(""), None);
    assert!(!MutationStatus::Queued.terminal());
    assert!(!MutationStatus::Retrying.terminal());
    assert!(MutationStatus::Sent.terminal());
    assert!(MutationStatus::Failed.terminal());
}

#[test]
fn whatever_the_reason_the_new_entry_is_queued_and_due() {
    let reasons = [
        AppError::AuthenticationFailed("denied".to_string()),
        AppError::SessionNotFound,
        AppError::NetworkError("down".to_string()),
        AppError::ApiError("rejected".to_string()),
        AppError::KeyringError("locked".to_string()),
        AppError::InternalError("broken".to_string()),
    ];
    let mut outbox = Outbox::new();
    for (i, reason) in reasons.iter().enumerate() {
        let id = format!("m-{i}");
        let now = 1_000 + i as i64;
        assert_eq!(outbox.enqueue(&id, ALICE, "P", reason, now).unwrap().id, id);
        let row = outbox.row(i);
        assert_eq!(row.status, MutationStatus::Queued);
        assert_eq!(row.attempts, 1);
        assert_eq!(row.next_retry_at, now);
        assert_eq!(row.created_at, now);
        assert_eq!(row.last_error, reason.message());
        // Due at once, and at every later time.
        assert!(outbox.due_batch(Some(ALICE), now).contains(&i));
        assert!(outbox.due_batch(Some(ALICE), now + 1_000_000).contains(&i));
    }
}

#[test]
fn on_an_empty_queue_a_drawn_id_is_always_free() {
    for _ in 0..50 {
        let mut outbox = Outbox::new();
        let event = outbox.enqueue_now(ALICE, "P", &AppError::InternalError("any".to_string())).unwrap();
        assert_eq!(outbox.position_of(&event.id), Some(0));
    }
    // Ids of another shape never stand in the way either.
    let mut outbox = queue_with(&[("m-1", ALICE, 1), ("m-2", BOB, 2)]);
    for _ in 0..50 {
        assert!(outbox.enqueue_now(ALICE, "P", &network_down()).is_ok());
    }
    assert_eq!(outbox.len(), 52);
}
