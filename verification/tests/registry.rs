use addon_publish::registry::{accepted, cache_is_fresh, CacheAction, CacheEvent, CacheState};

type Catalog = Vec<(String, i64)>;

fn catalog(tag: &str) -> Catalog {
    vec![(tag.to_string(), 1)]
}

#[test]
fn freshness_window_is_500_seconds() {
    assert!(cache_is_fresh(Some(0)));
    assert!(cache_is_fresh(Some(499)));
    assert!(!cache_is_fresh(Some(500)));
    assert!(!cache_is_fresh(Some(u64::MAX)));
    assert!(!cache_is_fresh(None));
}

#[test]
fn fresh_copy_is_read_and_used() {
    let state: CacheState<Catalog> = CacheState::Unchecked;
    assert_eq!(state.next_action(), CacheAction::CheckAge);
    let state = state.advance(CacheEvent::Age { seconds: Some(499) });
    assert_eq!(state, CacheState::Reading);
    assert_eq!(state.next_action(), CacheAction::ReadCache);
    let state = state.advance(CacheEvent::Cached { snapshot: Some(catalog("cached")) });
    assert_eq!(state, CacheState::Ready { snapshot: catalog("cached") });
    assert_eq!(state.next_action(), CacheAction::Finish);
    assert_eq!(state.into_snapshot(), Some(catalog("cached")));
}

#[test]
fn stale_copy_is_fetched_and_overwritten() {
    let state: CacheState<Catalog> = CacheState::Unchecked;
    let state = state.advance(CacheEvent::Age { seconds: Some(500) });
    assert_eq!(state, CacheState::Fetching);
    assert_eq!(state.next_action(), CacheAction::Fetch);
    let state = state.advance(CacheEvent::Fetched { snapshot: Some(catalog("live")) });
    assert_eq!(state, CacheState::Writing { snapshot: catalog("live") });
    assert_eq!(state.next_action(), CacheAction::WriteCache);
    assert_eq!(state.snapshot(), Some(&catalog("live")));
    let state = state.advance(CacheEvent::Written);
    assert_eq!(state, CacheState::Ready { snapshot: catalog("live") });
}

#[test]
fn missing_copy_is_fetched() {
    let state: CacheState<Catalog> = CacheState::Unchecked;
    assert_eq!(state.advance(CacheEvent::Age { seconds: None }), CacheState::Fetching);
}

#[test]
fn corrupt_copy_is_fetched() {
    let state: CacheState<Catalog> = CacheState::Reading;
    assert_eq!(state.advance(CacheEvent::Cached { snapshot: None }), CacheState::Fetching);
}

#[test]
fn failed_fetch_is_fatal() {
    let state: CacheState<Catalog> = CacheState::Fetching;
    let state = state.advance(CacheEvent::Fetched { snapshot: None });
    assert_eq!(state, CacheState::Failed);
    assert_eq!(state.next_action(), CacheAction::Abort);
    assert_eq!(state.into_snapshot(), None);
}

#[test]
fn cache_events_out_of_turn_change_nothing() {
    let state: CacheState<Catalog> = CacheState::Unchecked;
    assert_eq!(state.advance(CacheEvent::Written), CacheState::Unchecked);
    let state: CacheState<Catalog> = CacheState::Fetching;
    assert_eq!(
        state.advance(CacheEvent::Cached { snapshot: Some(catalog("x")) }),
        CacheState::Fetching
    );
}

#[test]
fn only_200_is_accepted() {
    assert!(accepted(200));
    assert!(!accepted(201));
    assert!(!accepted(400));
    assert!(!accepted(0));
}
