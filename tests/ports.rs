use stab::ports::{AllocError, AllocStep, PortSearch};
use stab::server::init_port_reply;
use stab::message::Msg;

fn range() -> std::ops::Range<u16> {
    10000..10100
}

#[test]
fn any_port_starts_at_range_start() {
    let (search, step) = PortSearch::begin(&range(), 0, 0);
    assert!(matches!(step, AllocStep::TryBind(10000)));
    assert_eq!(search.bound(10000), Some(10001));
    assert!(matches!(init_port_reply(&Ok(10000)), Msg::InitPort(10000, None)));
}

#[test]
fn any_port_starts_at_cursor() {
    let (_, step) = PortSearch::begin(&range(), 10042, 0);
    assert!(matches!(step, AllocStep::TryBind(10042)));
}

#[test]
fn requested_port_in_range() {
    let (search, step) = PortSearch::begin(&range(), 10000, 10050);
    assert!(matches!(step, AllocStep::TryBind(10050)));
    assert_eq!(search.bound(10050), None);
}

#[test]
fn requested_port_out_of_range() {
    let (_, step) = PortSearch::begin(&range(), 0, 80);
    match step {
        AllocStep::Fail(e) => {
            assert!(matches!(e, AllocError::NotInRange));
            assert_eq!(e.message(), "port not in range");
            match init_port_reply(&Err(e)) {
                Msg::Error(reason) => {
                    assert_eq!(reason, "create control port failed: port not in range")
                }
                other => panic!("unexpected reply {:?}", other),
            }
        }
        other => panic!("unexpected step {:?}", other),
    }
    let (_, upper) = PortSearch::begin(&range(), 0, 10100);
    assert!(matches!(upper, AllocStep::Fail(AllocError::NotInRange)));
}

#[test]
fn requested_port_bind_failure_surfaces_reason() {
    let (mut search, _) = PortSearch::begin(&range(), 0, 10050);
    match search.bind_failed("Address already in use".to_string()) {
        AllocStep::Fail(AllocError::Bind(detail)) => assert_eq!(detail, "Address already in use"),
        other => panic!("unexpected step {:?}", other),
    }
}

#[test]
fn search_wraps_and_gives_up_after_whole_range() {
    let small = 20000u16..20003;
    let (mut search, step) = PortSearch::begin(&small, 20001, 0);
    assert!(matches!(step, AllocStep::TryBind(20001)));
    assert!(matches!(search.bind_failed("busy".to_string()), AllocStep::TryBind(20002)));
    assert!(matches!(search.bind_failed("busy".to_string()), AllocStep::TryBind(20000)));
    match search.bind_failed("busy".to_string()) {
        AllocStep::Fail(e) => {
            assert!(matches!(e, AllocError::NoPortAvailable));
            assert_eq!(e.message(), "no port available");
        }
        other => panic!("unexpected step {:?}", other),
    }
}

#[test]
fn cursor_outside_range_restarts_at_start() {
    let (_, step) = PortSearch::begin(&range(), 10100, 0);
    assert!(matches!(step, AllocStep::TryBind(10000)));
}

#[test]
fn every_candidate_lies_in_range() {
    let (mut search, mut step) = PortSearch::begin(&range(), 10090, 0);
    let mut seen = Vec::new();
    while let AllocStep::TryBind(p) = step {
        assert!((10000..10100).contains(&p));
        assert!(!seen.contains(&p));
        seen.push(p);
        step = search.bind_failed("busy".to_string());
    }
    assert_eq!(seen.len(), 100);
}

#[test]
fn empty_range_has_no_port() {
    let (_, step) = PortSearch::begin(&(10..10), 0, 0);
    assert!(matches!(step, AllocStep::Fail(AllocError::NoPortAvailable)));
}

#[test]
fn failed_search_resets_cursor_to_range_start() {
    let small = 20000u16..20002;
    let (mut search, _) = PortSearch::begin(&small, 20001, 0);
    search.bind_failed("busy".to_string());
    assert!(matches!(search.bind_failed("busy".to_string()), AllocStep::Fail(_)));
    assert_eq!(search.cursor_after_failure(), Some(20000));
    let (requested, _) = PortSearch::begin(&range(), 10007, 80);
    assert_eq!(requested.cursor_after_failure(), None);
}

#[test]
fn next_search_starts_past_last_bound_port() {
    let (first, step) = PortSearch::begin(&range(), 0, 0);
    assert!(matches!(step, AllocStep::TryBind(10000)));
    let cursor = first.bound(10000).unwrap();
    let (_, next) = PortSearch::begin(&range(), cursor, 0);
    assert!(matches!(next, AllocStep::TryBind(10001)));
}
