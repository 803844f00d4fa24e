use laggard_catcher::bumper::Bumper;
use laggard_catcher::catcher::{
    collect, probe_body, Catcher, CollectorAction, CollectorEvent, DelaySample, ProbeAction,
    ProbeEvent, SkipReason,
};
use laggard_catcher::message::{PropertyValue, StreamMessage};
use laggard_catcher::period::ProbePeriod;
use laggard_catcher::phase::{LoopPhase, StopCause};

fn catcher() -> Catcher {
    Catcher::new(
        "probes".to_string(),
        "returns".to_string(),
        "loc".to_string(),
        ProbePeriod::from_nanos(1_000_000_000).unwrap(),
        "127.0.0.1".to_string(),
        9000,
    )
}

fn tagged(body: Option<Vec<u8>>, value: &str) -> StreamMessage<i64> {
    StreamMessage::new(body, vec![("loc".to_string(), PropertyValue::Text(value.to_string()))])
}

fn sample(label: &str, delay_ms: u128) -> DelaySample {
    DelaySample { label: label.to_string(), delay_ms }
}

#[test]
fn delay_is_observation_minus_send_time() {
    let m = tagged(Some(probe_body(1_000)), "zone-1");
    assert_eq!(catcher().collect(&m, 3_500), Ok(sample("zone-1", 2_500)));
}

#[test]
fn delay_zero_when_observed_at_send_time() {
    let m = tagged(Some(probe_body(77)), "z");
    assert_eq!(catcher().collect(&m, 77), Ok(sample("z", 0)));
}

#[test]
fn probe_relayed_once_is_collected_under_relay_tag() {
    let period = ProbePeriod::from_nanos(1_000_000_000).unwrap();
    assert_eq!(period.as_nanos(), 1_000_000_000);
    let probe: StreamMessage<i64> = StreamMessage::new(Some(probe_body(0)), vec![]);
    assert_eq!(probe.body, Some(vec![0u8; 16]));
    let relay = Bumper::new("b".to_string(), "a".to_string(), "loc".to_string(), "A".to_string());
    let arrived = relay.relay(probe);
    let s = catcher().collect(&arrived, 250).unwrap();
    assert_eq!(s, sample("A", 250));
    let seconds = s.delay_ms as f64 / 1000.0;
    assert!((seconds - 0.25).abs() < 1e-9);
}

#[test]
fn two_hops_are_recorded_under_last_tag() {
    let probe: StreamMessage<i64> = StreamMessage::new(Some(probe_body(10)), vec![]);
    let a = Bumper::new("b".to_string(), "a".to_string(), "loc".to_string(), "A".to_string());
    let b = Bumper::new("c".to_string(), "b".to_string(), "loc".to_string(), "B".to_string());
    let arrived = b.relay(a.relay(probe));
    assert_eq!(catcher().collect(&arrived, 15), Ok(sample("B", 5)));
}

#[test]
fn missing_tag_is_skipped() {
    let m: StreamMessage<i64> = StreamMessage::new(Some(probe_body(0)), vec![]);
    assert_eq!(catcher().collect(&m, 10), Err(SkipReason::MissingTag));
    let other: StreamMessage<i64> = StreamMessage::new(
        Some(probe_body(0)),
        vec![("zone".to_string(), PropertyValue::Text("A".to_string()))],
    );
    assert_eq!(catcher().collect(&other, 10), Err(SkipReason::MissingTag));
}

#[test]
fn non_text_tag_is_skipped() {
    let m: StreamMessage<i64> =
        StreamMessage::new(Some(probe_body(0)), vec![("loc".to_string(), PropertyValue::Other(3))]);
    assert_eq!(catcher().collect(&m, 10), Err(SkipReason::TagNotText));
}

#[test]
fn missing_body_is_skipped() {
    assert_eq!(catcher().collect(&tagged(None, "A"), 10), Err(SkipReason::MissingBody));
}

#[test]
fn short_body_is_skipped() {
    assert_eq!(catcher().collect(&tagged(Some(vec![0u8; 15]), "A"), 10), Err(SkipReason::ShortBody));
    assert_eq!(catcher().collect(&tagged(Some(vec![]), "A"), 10), Err(SkipReason::ShortBody));
}

#[test]
fn future_timestamp_is_skipped() {
    let m = tagged(Some(probe_body(500)), "A");
    assert_eq!(catcher().collect(&m, 499), Err(SkipReason::FutureTimestamp));
}

#[test]
fn free_collect_uses_given_tag_name() {
    let m: StreamMessage<i64> = StreamMessage::new(
        Some(probe_body(1)),
        vec![("where".to_string(), PropertyValue::Text("X".to_string()))],
    );
    assert_eq!(collect(&m, &"where".to_string(), 2), Ok(sample("X", 1)));
}

#[test]
fn collector_loop_skips_and_continues() {
    let c = catcher();
    let (p, a) = c.collector_step::<i64>(LoopPhase::Idle, CollectorEvent::Started);
    assert_eq!(p, LoopPhase::AwaitingEvent);
    assert!(matches!(a, CollectorAction::Wait));
    let untagged: StreamMessage<i64> = StreamMessage::new(Some(probe_body(0)), vec![]);
    let (p, a) = c.collector_step(p, CollectorEvent::Delivered(untagged, 5));
    assert_eq!(p, LoopPhase::AwaitingEvent);
    assert!(matches!(a, CollectorAction::Skip(SkipReason::MissingTag)));
    let (p, a) = c.collector_step(p, CollectorEvent::Delivered(tagged(Some(probe_body(1)), "A"), 5));
    assert_eq!(p, LoopPhase::AwaitingEvent);
    match a {
        CollectorAction::Record(s) => assert_eq!(s, sample("A", 4)),
        other => panic!("unexpected action {:?}", other),
    }
    let (p, a) = c.collector_step::<i64>(p, CollectorEvent::StreamClosed);
    assert_eq!(p, LoopPhase::Terminated);
    assert!(matches!(a, CollectorAction::Stop(StopCause::StreamClosed)));
}

#[test]
fn probe_loop_publishes_counts_and_stops_on_failure() {
    let c = catcher();
    let (p, a) = c.probe_step(LoopPhase::Idle, ProbeEvent::Started);
    assert_eq!(p, LoopPhase::AwaitingEvent);
    assert!(matches!(a, ProbeAction::Wait));
    let (p, a) = c.probe_step(p, ProbeEvent::Tick(258));
    assert_eq!(p, LoopPhase::Processing);
    match a {
        ProbeAction::Publish(body) => assert_eq!(body, 258u128.to_be_bytes().to_vec()),
        other => panic!("unexpected action {:?}", other),
    }
    let (p, a) = c.probe_step(p, ProbeEvent::Published);
    assert_eq!(p, LoopPhase::AwaitingEvent);
    assert!(matches!(a, ProbeAction::CountSent));
    let (p, _) = c.probe_step(p, ProbeEvent::Tick(300));
    let (p, a) = c.probe_step(p, ProbeEvent::PublishFailed);
    assert_eq!(p, LoopPhase::Terminated);
    assert!(matches!(a, ProbeAction::Stop(StopCause::PublishFailed)));
}

#[test]
fn probe_loop_stops_on_shutdown() {
    let (p, a) = catcher().probe_step(LoopPhase::AwaitingEvent, ProbeEvent::Shutdown);
    assert_eq!(p, LoopPhase::Terminated);
    assert!(matches!(a, ProbeAction::Stop(StopCause::Shutdown)));
}
