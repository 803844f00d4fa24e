//! The relay: it stamps each delivered message with a fixed location tag and
//! republishes it, in delivery order.
use vstd::prelude::*;
use crate::message::{MessageView, StreamMessage, with_text_property, lemma_with_text_property};
use crate::phase::{LoopPhase, StopCause};

verus! {

/// The message that a relay publishes for `m`: the same body, and the tag
/// `name` set to `value`.
pub open spec fn relayed<V>(m: MessageView<V>, name: Seq<char>, value: Seq<char>) -> MessageView<
    V,
> {
    MessageView { body: m.body, properties: with_text_property(m.properties, name, value) }
}

/// The configuration of one relay.
pub struct Bumper {
    pub send_stream_name: String,
    pub receive_stream_name: String,
    pub location_application_property_name: String,
    pub location_application_property_value: String,
}

/// What the relay loop is told.
#[derive(Debug)]
pub enum RelayEvent<V> {
    /// The subscription to the receive stream is attached.
    Started,
    /// A message was delivered.
    Delivered(StreamMessage<V>),
    /// The publish that was issued has been acknowledged.
    Published,
    /// The publish that was issued failed.
    PublishFailed,
    /// The receive stream ended.
    StreamClosed,
    /// The process is shutting down.
    Shutdown,
}

/// What the relay loop does next.
#[derive(Debug)]
pub enum RelayAction<V> {
    /// Nothing: wait for the next event.
    Wait,
    /// Publish this message to the send stream.
    Publish(StreamMessage<V>),
    /// Leave the loop.
    Stop(StopCause),
}

impl Bumper {
    pub fn new(
        send_stream_name: String,
        receive_stream_name: String,
        location_application_property_name: String,
        location_application_property_value: String,
    ) -> (r: Self)
        ensures
            r.send_stream_name == send_stream_name,
            r.receive_stream_name == receive_stream_name,
            r.location_application_property_name == location_application_property_name,
            r.location_application_property_value == location_application_property_value,
    {
        Bumper {
            send_stream_name,
            receive_stream_name,
            location_application_property_name,
            location_application_property_value,
        }
    }

    /// The tag that this relay stamps on what it republishes.
    pub open spec fn relayed_by<V>(&self, m: MessageView<V>) -> MessageView<V> {
        relayed(
            m,
            self.location_application_property_name@,
            self.location_application_property_value@,
        )
    }

    /// The message to republish for `m`: its body as it came (or none), and
    /// the location tag set to this relay's value, overwriting an earlier one.
    pub fn relay<V>(&self, m: StreamMessage<V>) -> (r: StreamMessage<V>)
        ensures
            r@ == self.relayed_by(m@),
            m.wf() ==> r.wf(),
    {
        let mut out = m;
        out.set_text_property(
            self.location_application_property_name.clone(),
            self.location_application_property_value.clone(),
        );
        proof {
            if m.wf() {
                lemma_with_text_property(
                    m@.properties,
                    self.location_application_property_name@,
                    self.location_application_property_value@,
                );
            }
        }
        out
    }

    /// One decision of the relay loop: from its phase and the event, the next
    /// phase and what to do.
    pub fn step<V>(&self, phase: LoopPhase, event: RelayEvent<V>) -> (r: (LoopPhase, RelayAction<V>))
        ensures
            match (phase, event) {
                (LoopPhase::Terminated, _) => r.0 == LoopPhase::Terminated && r.1 is Wait,
                (_, RelayEvent::Shutdown) => r.0 == LoopPhase::Terminated && r.1 matches RelayAction::Stop(
                    StopCause::Shutdown,
                ),
                (LoopPhase::Idle, RelayEvent::Started) => r.0 == LoopPhase::AwaitingEvent
                    && r.1 is Wait,
                (LoopPhase::AwaitingEvent, RelayEvent::Delivered(m)) => r.0
                    == LoopPhase::Processing && (r.1 matches RelayAction::Publish(out) && out@
                    == self.relayed_by(m@)),
                (LoopPhase::AwaitingEvent, RelayEvent::StreamClosed) => r.0
                    == LoopPhase::Terminated && r.1 matches RelayAction::Stop(
                    StopCause::StreamClosed,
                ),
                (LoopPhase::Processing, RelayEvent::Published) => r.0 == LoopPhase::AwaitingEvent
                    && r.1 is Wait,
                (LoopPhase::Processing, RelayEvent::PublishFailed) => r.0
                    == LoopPhase::Terminated && r.1 matches RelayAction::Stop(
                    StopCause::PublishFailed,
                ),
                _ => r.0 == phase && r.1 is Wait,
            },
    {
        match (phase, event) {
            (LoopPhase::Terminated, _) => (LoopPhase::Terminated, RelayAction::Wait),
            (_, RelayEvent::Shutdown) => (
                LoopPhase::Terminated,
                RelayAction::Stop(StopCause::Shutdown),
            ),
            (LoopPhase::Idle, RelayEvent::Started) => (LoopPhase::AwaitingEvent, RelayAction::Wait),
            (LoopPhase::AwaitingEvent, RelayEvent::Delivered(m)) => (
                LoopPhase::Processing,
                RelayAction::Publish(self.relay(m)),
            ),
            (LoopPhase::AwaitingEvent, RelayEvent::StreamClosed) => (
                LoopPhase::Terminated,
                RelayAction::Stop(StopCause::StreamClosed),
            ),
            (LoopPhase::Processing, RelayEvent::Published) => (
                LoopPhase::AwaitingEvent,
                RelayAction::Wait,
            ),
            (LoopPhase::Processing, RelayEvent::PublishFailed) => (
                LoopPhase::Terminated,
                RelayAction::Stop(StopCause::PublishFailed),
            ),
            _ => (phase, RelayAction::Wait),
        }
    }
}

} // verus!
