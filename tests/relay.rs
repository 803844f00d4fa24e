use laggard_catcher::bumper::{Bumper, RelayAction, RelayEvent};
use laggard_catcher::message::{PropertyValue, StreamMessage};
use laggard_catcher::phase::{LoopPhase, StopCause};

fn relay_with(value: &str) -> Bumper {
    Bumper::new(
        "out".to_string(),
        "in".to_string(),
        "loc".to_string(),
        value.to_string(),
    )
}

fn text(s: &str) -> PropertyValue<i64> {
    PropertyValue::Text(s.to_string())
}

#[test]
fn relay_keeps_body_and_adds_tag() {
    let m: StreamMessage<i64> = StreamMessage::new(Some(vec![1, 2, 3]), vec![]);
    let out = relay_with("A").relay(m);
    assert_eq!(out.body, Some(vec![1, 2, 3]));
    assert_eq!(out.properties, vec![("loc".to_string(), text("A"))]);
}

#[test]
fn relay_without_body_stays_without_body() {
    let m: StreamMessage<i64> = StreamMessage::new(None, vec![]);
    let out = relay_with("A").relay(m);
    assert_eq!(out.body, None);
    assert_eq!(out.property(&"loc".to_string()), Some(&text("A")));
}

#[test]
fn relay_overwrites_existing_tag_once() {
    let m = StreamMessage::new(
        None,
        vec![
            ("other".to_string(), PropertyValue::Other(7)),
            ("loc".to_string(), text("old")),
        ],
    );
    let out = relay_with("A").relay(m);
    let named: Vec<_> = out.properties.iter().filter(|p| p.0 == "loc").collect();
    assert_eq!(named.len(), 1);
    assert_eq!(named[0].1, text("A"));
    assert_eq!(out.properties[0], ("other".to_string(), PropertyValue::Other(7)));
    assert_eq!(out.properties.len(), 2);
}

#[test]
fn relay_twice_with_same_tag_is_relay_once() {
    let m: StreamMessage<i64> = StreamMessage::new(Some(vec![5]), vec![]);
    let once = relay_with("A").relay(m);
    let twice = relay_with("A").relay(once.clone());
    assert_eq!(once, twice);
}

#[test]
fn two_hops_keep_last_value() {
    let m: StreamMessage<i64> = StreamMessage::new(Some(vec![0; 16]), vec![]);
    let out = relay_with("B").relay(relay_with("A").relay(m));
    assert_eq!(out.properties, vec![("loc".to_string(), text("B"))]);
}

#[test]
fn relay_loop_publishes_each_delivery() {
    let b = relay_with("A");
    let (p, a) = b.step::<i64>(LoopPhase::Idle, RelayEvent::Started);
    assert_eq!(p, LoopPhase::AwaitingEvent);
    assert!(matches!(a, RelayAction::Wait));
    let m = StreamMessage::new(Some(vec![1]), vec![]);
    let (p, a) = b.step(p, RelayEvent::Delivered(m));
    assert_eq!(p, LoopPhase::Processing);
    match a {
        RelayAction::Publish(out) => assert_eq!(out.property(&"loc".to_string()), Some(&text("A"))),
        other => panic!("unexpected action {:?}", other),
    }
    let (p, a) = b.step::<i64>(p, RelayEvent::Published);
    assert_eq!(p, LoopPhase::AwaitingEvent);
    assert!(matches!(a, RelayAction::Wait));
}

#[test]
fn relay_loop_stops_on_publish_failure() {
    let b = relay_with("A");
    let (p, a) = b.step::<i64>(LoopPhase::Processing, RelayEvent::PublishFailed);
    assert_eq!(p, LoopPhase::Terminated);
    assert!(matches!(a, RelayAction::Stop(StopCause::PublishFailed)));
    let (p, a) = b.step::<i64>(p, RelayEvent::Published);
    assert_eq!(p, LoopPhase::Terminated);
    assert!(matches!(a, RelayAction::Wait));
}

#[test]
fn relay_loop_stops_on_stream_close_and_shutdown() {
    let b = relay_with("A");
    let (p, a) = b.step::<i64>(LoopPhase::AwaitingEvent, RelayEvent::StreamClosed);
    assert_eq!(p, LoopPhase::Terminated);
    assert!(matches!(a, RelayAction::Stop(StopCause::StreamClosed)));
    let (p, a) = b.step::<i64>(LoopPhase::Processing, RelayEvent::Shutdown);
    assert_eq!(p, LoopPhase::Terminated);
    assert!(matches!(a, RelayAction::Stop(StopCause::Shutdown)));
}
