use blue_horizon::compose::{finish_post, finish_post_now};
use blue_horizon::drafts::{save_post_draft, CreatePostPayload, DraftStore};
use blue_horizon::error::AppError;
use blue_horizon::outbox::{MutationStatus, Outbox};

const ME: &str = "did:plc:me";

fn reply(text: &str) -> CreatePostPayload {
    CreatePostPayload {
        text: text.to_string(),
        reply_to: Some("at://a/post/1".to_string()),
        quote_uri: None,
        quote_cid: None,
        images: Vec::new(),
    }
}

fn stores_with_draft() -> (Outbox, DraftStore) {
    let mut drafts = DraftStore::new();
    save_post_draft(&mut drafts, reply("work in progress"), 5);
    save_post_draft(
        &mut drafts,
        CreatePostPayload {
            text: "another".to_string(),
            reply_to: None,
            quote_uri: None,
            quote_cid: None,
            images: Vec::new(),
        },
        6,
    );
    (Outbox::new(), drafts)
}

#[test]
fn a_post_that_went_out_leaves_no_draft() {
    let (mut outbox, mut drafts) = stores_with_draft();
    let settled = finish_post(&mut outbox, &mut drafts, ME, &reply("done"), "{}", Ok(()), "m-1", 10);
    assert!(settled.unwrap().is_none());
    assert_eq!(outbox.len(), 0);
    assert!(drafts.load("reply:at://a/post/1").is_none());
    assert!(drafts.load("post:new").is_some());
}

#[test]
fn a_post_that_could_not_go_out_is_queued_and_its_draft_removed() {
    for error in [
        AppError::SessionNotFound,
        AppError::NetworkError("timed out".to_string()),
        AppError::ApiError("rate limited".to_string()),
    ] {
        let (mut outbox, mut drafts) = stores_with_draft();
        let text = error.message();
        let settled =
            finish_post(&mut outbox, &mut drafts, ME, &reply("done"), "{\"text\":\"done\"}", Err(error), "m-1", 10);
        assert_eq!(settled.unwrap().unwrap().id, "m-1");
        assert_eq!(outbox.len(), 1);
        let row = outbox.row(0);
        assert_eq!(row.id, "m-1");
        assert_eq!(row.owner, ME);
        assert_eq!(row.payload, "{\"text\":\"done\"}");
        assert_eq!(row.status, MutationStatus::Queued);
        assert_eq!(row.attempts, 1);
        assert_eq!(row.next_retry_at, 10);
        assert_eq!(row.last_error, text);
        assert!(drafts.load("reply:at://a/post/1").is_none());
        assert!(drafts.load("post:new").is_some());
    }
}

#[test]
fn a_failure_that_retrying_cannot_mend_is_reported_and_the_draft_stays() {
    for error in [
        AppError::AuthenticationFailed("bad password".to_string()),
        AppError::KeyringError("locked".to_string()),
        AppError::InternalError("Failed to read image: gone".to_string()),
    ] {
        let (mut outbox, mut drafts) = stores_with_draft();
        let text = error.message();
        let settled = finish_post(&mut outbox, &mut drafts, ME, &reply("done"), "{}", Err(error), "m-1", 10);
        assert_eq!(settled.unwrap_err().message(), text);
        assert_eq!(outbox.len(), 0);
        assert_eq!(drafts.load("reply:at://a/post/1").unwrap().payload.text, "work in progress");
    }
}

#[test]
fn a_post_that_cannot_be_queued_keeps_its_draft() {
    let (mut outbox, mut drafts) = stores_with_draft();
    outbox.enqueue("m-1", ME, "earlier", &AppError::SessionNotFound, 1).unwrap();
    let settled =
        finish_post(&mut outbox, &mut drafts, ME, &reply("done"), "{}", Err(AppError::SessionNotFound), "m-1", 10);
    match settled {
        Err(AppError::InternalError(text)) => assert_eq!(text, "enqueue retry failed: id already present"),
        _ => panic!("queued twice under one id"),
    }
    assert_eq!(outbox.len(), 1);
    assert_eq!(outbox.row(0).payload, "earlier");
    assert!(drafts.load("reply:at://a/post/1").is_some());
}

#[test]
fn a_post_is_queued_under_a_fresh_id() {
    let (mut outbox, mut drafts) = stores_with_draft();
    let error = AppError::NetworkError("down".to_string());
    let event = finish_post_now(&mut outbox, &mut drafts, ME, &reply("done"), "{}", Err(error)).unwrap().unwrap();
    assert_eq!(event.id.len(), 36);
    assert_eq!(outbox.position_of(&event.id), Some(0));
    assert_eq!(outbox.row(0).last_error, "Network error: down");
    assert!(outbox.row(0).created_at > 1_577_836_800_000);
    assert!(drafts.load("reply:at://a/post/1").is_none());
    let sent = finish_post_now(&mut outbox, &mut drafts, ME, &reply("done"), "{}", Ok(())).unwrap();
    assert!(sent.is_none());
    assert_eq!(outbox.len(), 1);
}
