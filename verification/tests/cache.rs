use blue_horizon::cache::{
    cursor_key, is_kept, is_refreshed, normalize_handle, plan_read, settle_fetch, settle_refresh,
    CacheEntry, CacheStore, ReadPlan, ResourceKind,
};
use blue_horizon::error::AppError;

const ME: &str = "did:plc:me";

fn unreachable_remote() -> AppError {
    AppError::NetworkError("no route to host".to_string())
}

fn served(plan: Result<ReadPlan, AppError>) -> Option<(String, bool)> {
    match plan.unwrap() {
        ReadPlan::Serve { payload, refresh } => Some((payload, refresh)),
        ReadPlan::Fetch => None,
    }
}

#[test]
fn a_profile_that_was_fetched_is_served_without_waiting() {
    let mut store = CacheStore::new();
    // A miss: the read has to wait for the remote side.
    assert!(served(plan_read(&store, Some(ME), ResourceKind::Profile, Some("alice"))).is_none());
    let given = settle_fetch(&mut store, ME, ResourceKind::Profile, Some("alice"), Ok("S".to_string()), 10);
    assert_eq!(given.unwrap(), "S");
    // From now on the snapshot is served at once, and refreshed behind the caller's back.
    let again = served(plan_read(&store, Some(ME), ResourceKind::Profile, Some("alice")));
    assert_eq!(again, Some(("S".to_string(), true)));
    // Other handles and other identities still miss.
    assert!(served(plan_read(&store, Some(ME), ResourceKind::Profile, Some("bob"))).is_none());
    assert!(served(plan_read(&store, Some("did:plc:you"), ResourceKind::Profile, Some("alice"))).is_none());
    assert!(served(plan_read(&store, Some(ME), ResourceKind::Timeline, None)).is_none());
}

#[test]
fn a_failing_fetch_without_a_snapshot_is_handed_on() {
    let mut store = CacheStore::new();
    let answer = settle_fetch(&mut store, ME, ResourceKind::Notifications, None, Err(unreachable_remote()), 10);
    match answer {
        Err(AppError::NetworkError(text)) => assert_eq!(text, "no route to host"),
        _ => panic!("a failure was swallowed"),
    }
    assert!(store.lookup(ME, ResourceKind::Notifications, "").is_none());
}

#[test]
fn a_failing_fetch_falls_back_on_the_snapshot() {
    let mut store = CacheStore::new();
    settle_fetch(&mut store, ME, ResourceKind::Notifications, None, Ok("page one".to_string()), 10).unwrap();
    let answer = settle_fetch(&mut store, ME, ResourceKind::Notifications, None, Err(unreachable_remote()), 20);
    assert_eq!(answer.unwrap(), "page one");
    // And once more: the snapshot is not used up.
    let answer = settle_fetch(&mut store, ME, ResourceKind::Notifications, None, Err(AppError::SessionNotFound), 30);
    assert_eq!(answer.unwrap(), "page one");
    let entry = store.lookup(ME, ResourceKind::Notifications, "").unwrap();
    assert_eq!(entry.payload, "page one");
    assert_eq!(entry.cached_at, 10);
}

#[test]
fn a_read_sees_the_old_snapshot_until_the_refresh_has_ended() {
    let mut store = CacheStore::new();
    settle_fetch(&mut store, ME, ResourceKind::Timeline, None, Ok("old".to_string()), 10).unwrap();
    // The refresh is under way: reads still get the old snapshot, whole.
    for _ in 0..3 {
        let plan = served(plan_read(&store, Some(ME), ResourceKind::Timeline, None));
        assert_eq!(plan, Some(("old".to_string(), true)));
    }
    let update = settle_refresh(&mut store, ME, ResourceKind::Timeline, None, Ok("new".to_string()), 20).unwrap();
    assert_eq!(update.kind, ResourceKind::Timeline);
    assert_eq!(update.key, "");
    assert_eq!(update.snapshot, "new");
    let plan = served(plan_read(&store, Some(ME), ResourceKind::Timeline, None));
    assert_eq!(plan, Some(("new".to_string(), true)));
    assert_eq!(store.lookup(ME, ResourceKind::Timeline, "").unwrap().cached_at, 20);
}

#[test]
fn a_failing_refresh_changes_and_announces_nothing() {
    let mut store = CacheStore::new();
    settle_fetch(&mut store, ME, ResourceKind::Profile, Some("alice"), Ok("old".to_string()), 10).unwrap();
    let update = settle_refresh(&mut store, ME, ResourceKind::Profile, Some("alice"), Err(unreachable_remote()), 20);
    assert!(update.is_none());
    let entry = store.lookup(ME, ResourceKind::Profile, "alice").unwrap();
    assert_eq!(entry.payload, "old");
    assert_eq!(entry.cached_at, 10);
}

#[test]
fn a_profile_refresh_announces_the_handle() {
    let mut store = CacheStore::new();
    let update = settle_refresh(&mut store, ME, ResourceKind::Profile, Some("alice"), Ok("P".to_string()), 5).unwrap();
    assert_eq!(update.kind.event_name(), "profile-updated");
    assert_eq!(update.key, "alice");
    assert_eq!(update.snapshot, "P");
    assert_eq!(store.lookup(ME, ResourceKind::Profile, "alice").unwrap().payload, "P");
}

#[test]
fn later_pages_of_the_timeline_are_not_kept() {
    let mut store = CacheStore::new();
    let given = settle_fetch(&mut store, ME, ResourceKind::Timeline, Some("c1"), Ok("page two".to_string()), 10);
    assert_eq!(given.unwrap(), "page two");
    assert!(store.lookup(ME, ResourceKind::Timeline, "c1").is_none());
    assert!(served(plan_read(&store, Some(ME), ResourceKind::Timeline, Some("c1"))).is_none());
    // So a failure for that page has nothing to fall back on.
    let answer = settle_fetch(&mut store, ME, ResourceKind::Timeline, Some("c1"), Err(unreachable_remote()), 20);
    assert!(matches!(answer, Err(AppError::NetworkError(_))));
    // The root view does not stand in for it either.
    settle_fetch(&mut store, ME, ResourceKind::Timeline, None, Ok("root".to_string()), 30).unwrap();
    let answer = settle_fetch(&mut store, ME, ResourceKind::Timeline, Some("c1"), Err(unreachable_remote()), 40);
    assert!(answer.is_err());
}

#[test]
fn a_later_page_is_never_read_from_the_store_first() {
    // Even if a snapshot lies under the cursor, a timeline page further on is fetched.
    let store = CacheStore::restore(vec![CacheEntry {
        owner: ME.to_string(),
        kind: ResourceKind::Timeline,
        key: "c1".to_string(),
        payload: "stale".to_string(),
        cached_at: 1,
    }])
    .unwrap();
    assert!(served(plan_read(&store, Some(ME), ResourceKind::Timeline, Some("c1"))).is_none());
    // Yet a failure falls back on exactly that snapshot.
    let mut store = store;
    let answer = settle_fetch(&mut store, ME, ResourceKind::Timeline, Some("c1"), Err(unreachable_remote()), 2);
    assert_eq!(answer.unwrap(), "stale");
}

#[test]
fn later_pages_of_notifications_are_kept_but_not_refreshed() {
    let mut store = CacheStore::new();
    settle_fetch(&mut store, ME, ResourceKind::Notifications, Some("c1"), Ok("page two".to_string()), 10).unwrap();
    let plan = served(plan_read(&store, Some(ME), ResourceKind::Notifications, Some("c1")));
    assert_eq!(plan, Some(("page two".to_string(), false)));
    settle_fetch(&mut store, ME, ResourceKind::Notifications, None, Ok("page one".to_string()), 11).unwrap();
    let plan = served(plan_read(&store, Some(ME), ResourceKind::Notifications, None));
    assert_eq!(plan, Some(("page one".to_string(), true)));
}

#[test]
fn without_an_identity_nothing_is_read() {
    let store = CacheStore::new();
    assert!(matches!(plan_read(&store, None, ResourceKind::Timeline, None), Err(AppError::SessionNotFound)));
    assert!(matches!(plan_read(&store, None, ResourceKind::Profile, Some("alice")), Err(AppError::SessionNotFound)));
}

#[test]
fn the_last_writer_wins() {
    let mut store = CacheStore::new();
    store.upsert(ME, ResourceKind::Profile, "alice", "one", 1);
    store.upsert(ME, ResourceKind::Profile, "bob", "two", 2);
    store.upsert(ME, ResourceKind::Profile, "alice", "three", 3);
    let entry = store.lookup(ME, ResourceKind::Profile, "alice").unwrap();
    assert_eq!(entry.payload, "three");
    assert_eq!(entry.cached_at, 3);
    assert_eq!(store.lookup(ME, ResourceKind::Profile, "bob").unwrap().payload, "two");
    assert!(store.lookup(ME, ResourceKind::Notifications, "alice").is_none());
}

#[test]
fn two_snapshots_for_one_id_are_refused() {
    let entry = |payload: &str| CacheEntry {
        owner: ME.to_string(),
        kind: ResourceKind::Profile,
        key: "alice".to_string(),
        payload: payload.to_string(),
        cached_at: 1,
    };
    assert!(CacheStore::restore(vec![entry("a"), entry("b")]).is_none());
    let mut other = entry("b");
    other.kind = ResourceKind::Timeline;
    let store = CacheStore::restore(vec![entry("a"), other]).unwrap();
    assert_eq!(store.lookup(ME, ResourceKind::Timeline, "alice").unwrap().payload, "b");
}

#[test]
fn handles_are_trimmed_and_lowered() {
    assert_eq!(normalize_handle("  Alice.BSky.Social \n"), "alice.bsky.social");
    assert_eq!(normalize_handle("bob"), "bob");
    assert_eq!(normalize_handle("ÄRGER"), "ärger");
}

#[test]
fn the_root_view_has_the_empty_key() {
    assert_eq!(cursor_key(None), "");
    assert_eq!(cursor_key(Some("abc")), "abc");
    assert_eq!(cursor_key(Some("")), "");
}

#[test]
fn each_kind_has_its_rules() {
    assert!(is_kept(ResourceKind::Timeline, None));
    assert!(!is_kept(ResourceKind::Timeline, Some("c")));
    assert!(!is_kept(ResourceKind::Timeline, Some("")));
    assert!(is_kept(ResourceKind::Notifications, None));
    assert!(is_kept(ResourceKind::Notifications, Some("c")));
    assert!(is_kept(ResourceKind::Profile, Some("alice")));
    assert!(is_refreshed(ResourceKind::Timeline, None));
    assert!(!is_refreshed(ResourceKind::Timeline, Some("c")));
    assert!(is_refreshed(ResourceKind::Notifications, None));
    assert!(!is_refreshed(ResourceKind::Notifications, Some("c")));
    assert!(is_refreshed(ResourceKind::Profile, Some("alice")));
    assert_eq!(ResourceKind::Timeline.event_name(), "timeline-updated");
    assert_eq!(ResourceKind::Notifications.event_name(), "notifications-updated");
}
