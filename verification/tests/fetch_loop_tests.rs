use pool_fetcher::fetcher::{
    build_query, build_query_from, FetchAction, FetchEvent, FetchFailure, FetchPhase, FetchState, FinishReason, BATCH_SIZE,
};
use pool_fetcher::models::Protocol;

fn step(s: &mut FetchState, e: FetchEvent) -> FetchAction {
    assert!(s.accepts(&e));
    assert!(s.has_room_for(&e));
    s.step(e)
}

fn sent(a: &FetchAction) -> (String, u64) {
    match a {
        FetchAction::Send { query, delay_secs } => (query.clone(), *delay_secs),
        _ => panic!("expected a request"),
    }
}

#[test]
fn first_page_request() {
    let mut s = FetchState::new(Protocol::UniV3, None);
    let a = step(&mut s, FetchEvent::Resume);
    assert_eq!(sent(&a), (build_query(&Protocol::UniV3, 0, BATCH_SIZE), 0));
    assert_eq!(s.page_count, 1);
    assert_eq!(s.attempts, 1);
    assert_eq!(s.phase, FetchPhase::Requesting);
}

#[test]
fn full_pages_then_short_page() {
    let mut s = FetchState::new(Protocol::UniV2, None);
    step(&mut s, FetchEvent::Resume);
    assert!(matches!(step(&mut s, FetchEvent::Body { has_data: true, has_errors: false }), FetchAction::Parse { warn: false }));
    assert!(matches!(step(&mut s, FetchEvent::Parsed { fetched: 1000, kept: 600 }), FetchAction::Store));
    assert!(matches!(step(&mut s, FetchEvent::Stored), FetchAction::Pause { delay_millis: 200 }));
    assert_eq!(s.total_saved, 600);
    assert_eq!(s.skip, 1000);
    let a = step(&mut s, FetchEvent::Resume);
    assert_eq!(sent(&a).0, build_query(&Protocol::UniV2, 1000, 1000));
    step(&mut s, FetchEvent::Body { has_data: true, has_errors: true });
    assert!(matches!(step(&mut s, FetchEvent::Parsed { fetched: 999, kept: 0 }), FetchAction::Finish(FinishReason::LastPage)));
    assert_eq!(s.skip, 2000);
    assert_eq!(s.total_saved, 600);
    assert_eq!(s.phase, FetchPhase::Done);
}

#[test]
fn stops_at_pool_limit() {
    let mut s = FetchState::new(Protocol::UniV4, None);
    for page in 0..5 {
        step(&mut s, FetchEvent::Resume);
        step(&mut s, FetchEvent::Body { has_data: true, has_errors: false });
        step(&mut s, FetchEvent::Parsed { fetched: 1000, kept: 1000 });
        step(&mut s, FetchEvent::Stored);
        assert_eq!(s.total_saved, (page + 1) * 1000);
    }
    assert!(matches!(step(&mut s, FetchEvent::Resume), FetchAction::Finish(FinishReason::LimitReached)));
    assert_eq!(s.page_count, 5);
}

#[test]
fn request_retries_back_off_then_fail() {
    let mut s = FetchState::new(Protocol::UniV3, None);
    step(&mut s, FetchEvent::Resume);
    let mut delays = Vec::new();
    for _ in 0..4 {
        delays.push(sent(&step(&mut s, FetchEvent::RequestFailed)).1);
    }
    assert_eq!(delays, vec![2, 4, 8, 16]);
    assert!(matches!(step(&mut s, FetchEvent::RequestFailed), FetchAction::Fail(FetchFailure::Request)));
}

#[test]
fn unreadable_bodies_fail_after_retries() {
    let mut s = FetchState::new(Protocol::UniV3, None);
    step(&mut s, FetchEvent::Resume);
    for _ in 0..4 {
        step(&mut s, FetchEvent::BodyUnreadable);
    }
    assert!(matches!(step(&mut s, FetchEvent::BodyUnreadable), FetchAction::Fail(FetchFailure::Body)));
}

#[test]
fn graphql_errors_retry_then_give_up() {
    let mut s = FetchState::new(Protocol::PancakeV4, None);
    step(&mut s, FetchEvent::Resume);
    let mut delays = Vec::new();
    for _ in 0..5 {
        delays.push(sent(&step(&mut s, FetchEvent::Body { has_data: false, has_errors: true })).1);
    }
    assert_eq!(delays, vec![2, 4, 8, 16, 32]);
    assert_eq!(s.attempts, 6);
    assert!(matches!(step(&mut s, FetchEvent::Body { has_data: false, has_errors: true }), FetchAction::GiveUp));
    assert_eq!(s.phase, FetchPhase::Done);
}

#[test]
fn mixed_retries_stay_bounded() {
    let mut s = FetchState::new(Protocol::UniV3, None);
    step(&mut s, FetchEvent::Resume);
    for _ in 0..4 {
        step(&mut s, FetchEvent::RequestFailed);
    }
    for _ in 0..5 {
        step(&mut s, FetchEvent::Body { has_data: false, has_errors: true });
    }
    assert_eq!(s.attempts, 10);
    assert!(matches!(step(&mut s, FetchEvent::RequestFailed), FetchAction::Fail(FetchFailure::Request)));
}

#[test]
fn missing_data_without_errors_fails() {
    let mut s = FetchState::new(Protocol::UniV3, None);
    step(&mut s, FetchEvent::Resume);
    assert!(matches!(
        step(&mut s, FetchEvent::Body { has_data: false, has_errors: false }),
        FetchAction::Fail(FetchFailure::MissingData)
    ));
}

#[test]
fn parse_and_store_failures() {
    let mut s = FetchState::new(Protocol::UniV3, None);
    step(&mut s, FetchEvent::Resume);
    step(&mut s, FetchEvent::Body { has_data: true, has_errors: false });
    assert!(matches!(step(&mut s, FetchEvent::ParseFailed), FetchAction::Fail(FetchFailure::Parse)));
    let mut t = FetchState::new(Protocol::UniV3, None);
    step(&mut t, FetchEvent::Resume);
    step(&mut t, FetchEvent::Body { has_data: true, has_errors: false });
    step(&mut t, FetchEvent::Parsed { fetched: 10, kept: 3 });
    assert!(matches!(step(&mut t, FetchEvent::StoreFailed), FetchAction::Fail(FetchFailure::Store)));
}

#[test]
fn unexpected_events_are_not_accepted() {
    let s = FetchState::new(Protocol::UniV3, None);
    assert!(!s.accepts(&FetchEvent::Stored));
    assert!(s.accepts(&FetchEvent::Resume));
    let mut t = FetchState::new(Protocol::UniV3, None);
    step(&mut t, FetchEvent::Resume);
    step(&mut t, FetchEvent::Body { has_data: true, has_errors: false });
    assert!(!t.accepts(&FetchEvent::Parsed { fetched: 1, kept: 2 }));
}

#[test]
fn empty_page_is_last() {
    let mut s = FetchState::new(Protocol::UniV3, None);
    step(&mut s, FetchEvent::Resume);
    step(&mut s, FetchEvent::Body { has_data: true, has_errors: false });
    assert!(matches!(step(&mut s, FetchEvent::Parsed { fetched: 0, kept: 0 }), FetchAction::Finish(FinishReason::LastPage)));
}

#[test]
fn resumed_fetch_starts_after_the_start_id() {
    let mut s = FetchState::new(Protocol::UniV3, Some("0xabc".to_string()));
    let a = step(&mut s, FetchEvent::Resume);
    let (query, delay) = sent(&a);
    assert_eq!(delay, 0);
    assert_eq!(query, build_query_from(&Protocol::UniV3, 0, BATCH_SIZE, Some("0xabc")));
    assert_ne!(query, build_query(&Protocol::UniV3, 0, BATCH_SIZE));
    assert!(query.contains(r#"where: { id_gt: "0xabc" }"#));
    step(&mut s, FetchEvent::Body { has_data: true, has_errors: false });
    step(&mut s, FetchEvent::Parsed { fetched: 1000, kept: 10 });
    step(&mut s, FetchEvent::Stored);
    let (next, _) = sent(&step(&mut s, FetchEvent::Resume));
    assert_eq!(next, build_query_from(&Protocol::UniV3, 1000, BATCH_SIZE, Some("0xabc")));
    let (retry, delay) = sent(&step(&mut s, FetchEvent::RequestFailed));
    assert_eq!(retry, next);
    assert_eq!(delay, 2);
}

#[test]
fn fetch_without_start_id_starts_from_the_first_page() {
    let mut s = FetchState::new(Protocol::UniV2, None);
    let (query, _) = sent(&step(&mut s, FetchEvent::Resume));
    assert_eq!(query, build_query(&Protocol::UniV2, 0, BATCH_SIZE));
}
