use localsecret::counters::{AbuseCounter, CounterVerdict, UseCounter};
use localsecret::session::{GateResponse, Session};
use localsecret::shutdown::{Phase, ShutdownOrchestrator, ShutdownReason};

#[test]
fn use_counter_reports_limit_exactly_at_maximum() {
    let mut c = UseCounter::new(3);
    assert_eq!(c.count, 0);
    assert_eq!(c.maximum, 3);
    assert_eq!(c.record_successful_delivery(), CounterVerdict::Continue);
    assert_eq!(c.record_successful_delivery(), CounterVerdict::Continue);
    assert_eq!(c.record_successful_delivery(), CounterVerdict::LimitReached);
    assert_eq!(c.count, 3);
}

#[test]
fn abuse_counter_reports_limit_exactly_at_maximum() {
    let mut c = AbuseCounter::new(2);
    assert_eq!(c.record_unmatched_request(), CounterVerdict::Continue);
    assert_eq!(c.record_unmatched_request(), CounterVerdict::LimitReached);
    assert_eq!(c.count, 2);
}

#[test]
fn shutdown_fires_once_and_keeps_first_reason() {
    let mut o = ShutdownOrchestrator::new();
    assert!(o.currently_running());
    assert_eq!(o.reason(), None);
    let first = o.request_shutdown(ShutdownReason::AbuseLimit);
    let second = o.request_shutdown(ShutdownReason::ExternalSignal);
    assert!(first);
    assert!(!second);
    assert!(!o.currently_running());
    assert_eq!(o.reason(), Some(ShutdownReason::AbuseLimit));
    assert_eq!(o.phase, Phase::Stopping(ShutdownReason::AbuseLimit));
}

#[test]
fn terminating_keeps_the_reason() {
    let mut o = ShutdownOrchestrator::new();
    o.request_shutdown(ShutdownReason::UsesExhausted);
    o.mark_terminated();
    assert_eq!(o.phase, Phase::Terminated(ShutdownReason::UsesExhausted));
    assert_eq!(o.reason(), Some(ShutdownReason::UsesExhausted));
}

#[test]
fn exit_codes_distinguish_clean_from_abusive_stops() {
    assert_eq!(ShutdownReason::UsesExhausted.exit_code(), 0);
    assert_eq!(ShutdownReason::ExternalSignal.exit_code(), 0);
    assert_eq!(ShutdownReason::AbuseLimit.exit_code(), 1);
    assert!(ShutdownReason::UsesExhausted.is_clean());
    assert!(ShutdownReason::ExternalSignal.is_clean());
    assert!(!ShutdownReason::AbuseLimit.is_clean());
}

#[test]
fn single_use_secret_served_once_then_not_found() {
    let mut s = Session::new(1, 3);
    let first = s.on_request(true);
    assert_eq!(first.response, GateResponse::Served);
    assert_eq!(first.shutdown_trigger, Some(ShutdownReason::UsesExhausted));
    let second = s.on_request(true);
    assert_eq!(second.response, GateResponse::NotFound);
    assert_eq!(second.shutdown_trigger, None);
    assert_eq!(s.use_count(), 1);
    assert_eq!(s.fail_count(), 0);
    assert!(!s.accepting());
}

#[test]
fn three_missed_paths_stop_the_session_before_a_fourth() {
    let mut s = Session::new(1, 3);
    let miss1 = s.on_request(false);
    assert_eq!(miss1.response, GateResponse::NotFound);
    assert_eq!(miss1.shutdown_trigger, None);
    assert!(s.accepting());
    let miss2 = s.on_request(false);
    assert_eq!(miss2.shutdown_trigger, None);
    assert!(s.accepting());
    let miss3 = s.on_request(false);
    assert_eq!(miss3.response, GateResponse::NotFound);
    assert_eq!(miss3.shutdown_trigger, Some(ShutdownReason::AbuseLimit));
    assert!(!s.accepting());
    assert_eq!(s.shutdown_reason(), Some(ShutdownReason::AbuseLimit));
    let miss4 = s.on_request(false);
    assert_eq!(miss4.response, GateResponse::NotFound);
    assert_eq!(s.fail_count(), 3);
}

#[test]
fn five_uses_serve_five_requests_and_refuse_the_sixth() {
    let mut s = Session::new(5, 3);
    let mut served: u16 = 0;
    let mut refused: u16 = 0;
    for _ in 0..6u16 {
        match s.on_request(true).response {
            GateResponse::Served => served += 1,
            GateResponse::NotFound => refused += 1,
        }
    }
    assert_eq!(served, 5);
    assert_eq!(refused, 1);
    assert_eq!(s.use_count(), 5);
    assert_eq!(s.fail_count(), 0);
    assert_eq!(s.shutdown_reason(), Some(ShutdownReason::UsesExhausted));
}

#[test]
fn burst_beyond_capacity_serves_exactly_the_maximum() {
    let maximum: u16 = 4;
    let burst: u16 = 11;
    let mut s = Session::new(maximum, 3);
    let mut served: u16 = 0;
    for _ in 0..burst {
        if s.on_request(true).response == GateResponse::Served {
            served += 1;
        }
    }
    assert_eq!(served, maximum);
    assert_eq!(s.use_count(), maximum);
}

#[test]
fn external_signal_stops_without_touching_counters() {
    let mut s = Session::new(2, 3);
    assert!(s.on_external_signal());
    assert!(!s.on_external_signal());
    assert!(!s.accepting());
    assert_eq!(s.shutdown_reason(), Some(ShutdownReason::ExternalSignal));
    assert_eq!(s.use_count(), 0);
    assert_eq!(s.fail_count(), 0);
}

#[test]
fn late_requests_leave_counters_frozen_after_stop() {
    let mut s = Session::new(1, 3);
    s.on_request(true);
    assert!(!s.accepting());
    for _ in 0..5u16 {
        let late = s.on_request(false);
        assert_eq!(late.response, GateResponse::NotFound);
        assert_eq!(late.shutdown_trigger, None);
    }
    assert_eq!(s.use_count(), 1);
    assert_eq!(s.fail_count(), 0);
    assert_eq!(s.shutdown_reason(), Some(ShutdownReason::UsesExhausted));
}

#[test]
fn matched_request_after_abuse_stop_is_not_served() {
    let mut s = Session::new(2, 1);
    let miss = s.on_request(false);
    assert_eq!(miss.shutdown_trigger, Some(ShutdownReason::AbuseLimit));
    let hit = s.on_request(true);
    assert_eq!(hit.response, GateResponse::NotFound);
    assert_eq!(s.use_count(), 0);
}
