use actix_rl::controller::default_do_rate_limit;
use actix_rl::controller::default_find_identifier;
use actix_rl::controller::default_on_rate_limit_error;
use actix_rl::controller::DEFAULT_RATE_LIMITED_UNTIL_HEADER;
use actix_rl::error::Error;
use actix_rl::middleware::Decision;
use actix_rl::middleware::PipelineEvent;
use actix_rl::middleware::PipelineState;
use actix_rl::middleware::RateLimit;
use actix_rl::middleware::StoreOutcome;
use actix_rl::store::mem_store::MemStoreInner;

/// Drive one request through the whole pipeline: read the re-entrancy guard,
/// evaluate the hooks, increment the store when asked, and return the decision
/// together with the store's snapshot, marking the guard on forwarding as the
/// pipeline directs.
fn run_request(
    limiter: &RateLimit,
    store: &mut MemStoreInner,
    marker: &mut bool,
    should_limit: bool,
    peer_addr: Option<String>,
    now: u64,
) -> (Decision, Option<(u64, Option<u64>)>) {
    let mut state = RateLimit::start();
    let mut observed: Option<(u64, Option<u64>)> = None;
    state = limiter.step(state, PipelineEvent::Begin);
    state = limiter.step(state, PipelineEvent::BypassMarker { present: *marker });
    if state == PipelineState::CheckShouldLimit {
        state = limiter.step(state, PipelineEvent::ShouldLimit { check: should_limit });
    }
    let identifier = default_find_identifier(peer_addr);
    if state == PipelineState::ExtractIdentifier {
        state = limiter.step(state, PipelineEvent::Identifier);
    }
    if state == PipelineState::StoreIncrement {
        let snap = store.incr(identifier, now);
        let outcome = StoreOutcome::Counted {
            count: snap.date_count.count as u64,
            expire_date: snap.expire_date(),
        };
        observed = Some((snap.date_count.count as u64, snap.expire_date()));
        state = limiter.step(state, PipelineEvent::StoreResult { outcome });
    }
    match state {
        PipelineState::Terminal(decision) => {
            if decision == Decision::Forward {
                *marker = true;
            }
            (decision, observed)
        }
        _ => panic!("the pipeline did not settle"),
    }
}

#[test]
fn test_middleware() {
    // TTL of 10 seconds, threshold 10, capacity hint 1024.
    let mut store = MemStoreInner::new(1024, 10_000);
    let limiter = RateLimit::new(10);

    for i in 0..10u64 {
        let mut marker = false;
        let (decision, _) = run_request(
            &limiter,
            &mut store,
            &mut marker,
            default_do_rate_limit(),
            None,
            i,
        );
        assert_eq!(decision, Decision::Forward);
        assert!(marker);
    }

    // then, rate limited...
    let mut wait_until: u64 = 0;
    for i in 10..20u64 {
        let mut marker = false;
        let (decision, _) = run_request(
            &limiter,
            &mut store,
            &mut marker,
            default_do_rate_limit(),
            None,
            i,
        );
        match decision {
            Decision::RejectRateLimited { until } => {
                let response = default_on_rate_limit_error(&Error::RateLimited(until));
                assert_eq!(response.status, 429);
                assert_eq!(response.headers[0].0, DEFAULT_RATE_LIMITED_UNTIL_HEADER);
                wait_until = response.headers[0].1.parse().unwrap();
            }
            _ => panic!("expected a rate-limited rejection"),
        }
        assert!(!marker);
    }
    println!("rate limited until: {}", wait_until);
    assert_eq!(wait_until, 10);

    // once the window has elapsed, requests pass again.
    let after = wait_until * 1000 + 1;
    for i in 0..5u64 {
        let mut marker = false;
        let (decision, observed) = run_request(
            &limiter,
            &mut store,
            &mut marker,
            default_do_rate_limit(),
            None,
            after + i,
        );
        assert_eq!(decision, Decision::Forward);
        assert_eq!(observed.unwrap().0, i + 1);
    }
}

#[test]
fn test_do_rate_limit() {
    let mut store = MemStoreInner::new(1024, 10_000);
    let limiter = RateLimit::new(10);
    let check_path = |path: &str| path != "/bypass";

    for i in 0..10u64 {
        let mut marker = false;
        let (decision, _) =
            run_request(&limiter, &mut store, &mut marker, check_path("/"), None, i);
        assert_eq!(decision, Decision::Forward);
    }

    // then, rate limited...
    let mut wait_until: u64 = 0;
    for i in 10..20u64 {
        let mut marker = false;
        let (decision, _) =
            run_request(&limiter, &mut store, &mut marker, check_path("/"), None, i);
        match decision {
            Decision::RejectRateLimited { until } => {
                let response = default_on_rate_limit_error(&Error::RateLimited(until));
                wait_until = response.headers[0].1.parse().unwrap();
            }
            _ => panic!("expected a rate-limited rejection"),
        }
    }

    // but /bypass is never rate limited, and never counted.
    for i in 10..20u64 {
        let mut marker = false;
        let (decision, observed) = run_request(
            &limiter,
            &mut store,
            &mut marker,
            check_path("/bypass"),
            None,
            i,
        );
        assert_eq!(decision, Decision::Forward);
        assert!(observed.is_none());
        assert!(marker);
    }

    println!("rate limited until: {}", wait_until);

    // once the window has elapsed, requests pass again.
    let after = wait_until * 1000 + 1;
    for i in 0..5u64 {
        let mut marker = false;
        let (decision, _) =
            run_request(&limiter, &mut store, &mut marker, check_path("/"), None, after + i);
        assert_eq!(decision, Decision::Forward);
    }
}

#[test]
fn threshold_boundary() {
    // With a threshold of N, the Nth hit passes and the (N + 1)th is rejected.
    let mut store = MemStoreInner::new(8, 60_000);
    let limiter = RateLimit::new(3);
    let mut decisions = Vec::new();
    for i in 0..4u64 {
        let mut marker = false;
        let (decision, _) = run_request(&limiter, &mut store, &mut marker, true, None, i);
        decisions.push(decision);
    }
    assert_eq!(decisions[0], Decision::Forward);
    assert_eq!(decisions[1], Decision::Forward);
    assert_eq!(decisions[2], Decision::Forward);
    assert_eq!(
        decisions[3],
        Decision::RejectRateLimited { until: Some(60_000) }
    );
}

#[test]
fn reentrancy_marker_prevents_double_counting() {
    // Evaluating the pipeline twice for one request increments the store once.
    let mut store = MemStoreInner::new(8, 60_000);
    let limiter = RateLimit::new(10);
    let mut marker = false;

    let (first, observed) = run_request(&limiter, &mut store, &mut marker, true, None, 0);
    assert_eq!(first, Decision::Forward);
    assert_eq!(observed.unwrap().0, 1);
    assert!(marker);

    // The nested pass sees the marker and consults no store.
    let (second, observed) = run_request(&limiter, &mut store, &mut marker, true, None, 0);
    assert_eq!(second, Decision::Forward);
    assert!(observed.is_none());

    // A later, distinct request observes a single count so far.
    let mut fresh_marker = false;
    let (_, observed) = run_request(&limiter, &mut store, &mut fresh_marker, true, None, 1);
    assert_eq!(observed.unwrap().0, 2);
}

#[test]
fn store_failure_is_terminal() {
    let limiter = RateLimit::new(10);
    let mut state = RateLimit::start();
    state = limiter.step(state, PipelineEvent::Begin);
    state = limiter.step(state, PipelineEvent::BypassMarker { present: false });
    state = limiter.step(state, PipelineEvent::ShouldLimit { check: true });
    state = limiter.step(state, PipelineEvent::Identifier);
    state = limiter.step(
        state,
        PipelineEvent::StoreResult { outcome: StoreOutcome::Failed },
    );
    assert_eq!(state, PipelineState::Terminal(Decision::RejectStoreError));
}

#[test]
fn checked_request_always_reaches_the_store() {
    // Identifier extraction always yields an identifier (the documented
    // default stands in when no hook is set), so a request under check is
    // always counted.
    let limiter = RateLimit::new(10);
    let mut state = RateLimit::start();
    state = limiter.step(state, PipelineEvent::Begin);
    state = limiter.step(state, PipelineEvent::BypassMarker { present: false });
    state = limiter.step(state, PipelineEvent::ShouldLimit { check: true });
    state = limiter.step(state, PipelineEvent::Identifier);
    assert_eq!(state, PipelineState::StoreIncrement);
}

#[test]
fn anonymous_requests_count_under_the_default_identifier() {
    // With no peer address the default identifier is the sentinel string, so
    // anonymous requests share one counter and are still rate limited.
    let mut store = MemStoreInner::new(8, 60_000);
    let limiter = RateLimit::new(1);

    let mut first_marker = false;
    let (first, observed) = run_request(&limiter, &mut store, &mut first_marker, true, None, 0);
    assert_eq!(first, Decision::Forward);
    assert_eq!(observed.unwrap().0, 1);

    let mut second_marker = false;
    let (second, observed) = run_request(&limiter, &mut store, &mut second_marker, true, None, 1);
    assert_eq!(observed.unwrap().0, 2);
    assert_eq!(second, Decision::RejectRateLimited { until: Some(60_000) });
}

#[test]
fn terminal_states_absorb_events() {
    let limiter = RateLimit::new(10);
    let terminal = PipelineState::Terminal(Decision::Forward);
    let next = limiter.step(
        terminal,
        PipelineEvent::StoreResult {
            outcome: StoreOutcome::Counted { count: 100, expire_date: None },
        },
    );
    assert_eq!(next, terminal);
}
