//! The probe generator and the latency collector: probes carry their send
//! time, and the collector turns each returning message into a delay sample
//! under its location tag, or skips it with a reason.
use vstd::prelude::*;
use crate::message::{MessageView, PropertyValue, PropertyView, StreamMessage, property_value};
use crate::period::ProbePeriod;
use crate::phase::{LoopPhase, StopCause};
use crate::timestamp::{
    TIMESTAMP_LEN,
    be_value,
    decode_timestamp,
    embedded_timestamp,
    encode_timestamp,
};

verus! {

/// Why the collector passed over a message.
#[derive(PartialEq, Eq, Structural, Clone, Copy, Debug)]
pub enum SkipReason {
    /// No property carries the location tag.
    MissingTag,
    /// The location tag is not text.
    TagNotText,
    /// The message has no body.
    MissingBody,
    /// The body is shorter than a timestamp.
    ShortBody,
    /// The timestamp lies after the time of observation (clock skew); no
    /// sample is recorded rather than a negative or wrapped delay.
    FutureTimestamp,
}

/// A delay to record, in milliseconds, under a location label.
#[derive(Clone, Debug, PartialEq, Eq)]
pub struct DelaySample {
    pub label: String,
    pub delay_ms: u128,
}

/// What the collector makes of `m`, observed at `now` (epoch milliseconds),
/// with the location tag called `name`: the label and the delay, or why the
/// message is skipped. The tag is looked at before the body.
pub open spec fn collected<V>(m: MessageView<V>, name: Seq<char>, now: u128) -> Result<
    (Seq<char>, nat),
    SkipReason,
> {
    match property_value(m.properties, name) {
        None => Err(SkipReason::MissingTag),
        Some(PropertyView::Other(_)) => Err(SkipReason::TagNotText),
        Some(PropertyView::Text(label)) => match m.body {
            None => Err(SkipReason::MissingBody),
            Some(b) => if b.len() < TIMESTAMP_LEN {
                Err(SkipReason::ShortBody)
            } else if (now as nat) < embedded_timestamp(b) {
                Err(SkipReason::FutureTimestamp)
            } else {
                Ok((label, (now - embedded_timestamp(b)) as nat))
            },
        },
    }
}

/// `r` is what the collector makes of `m` at `now` with the tag `name`.
pub open spec fn collects_as<V>(
    r: Result<DelaySample, SkipReason>,
    m: MessageView<V>,
    name: Seq<char>,
    now: u128,
) -> bool {
    match r {
        Ok(s) => collected(m, name, now) == Ok::<(Seq<char>, nat), SkipReason>(
            (s.label@, s.delay_ms as nat),
        ),
        Err(k) => collected(m, name, now) == Err::<(Seq<char>, nat), SkipReason>(k),
    }
}

/// The configuration of the probe-and-collect role.
pub struct Catcher {
    pub send_stream_name: String,
    pub receive_stream_name: String,
    pub location_application_property_name: String,
    pub period: ProbePeriod,
    pub http_host: String,
    pub http_port: u16,
}

/// What the probe generator loop is told.
#[derive(Debug)]
pub enum ProbeEvent {
    /// The timer is running.
    Started,
    /// The timer ticked at this time, in epoch milliseconds.
    Tick(u128),
    /// The probe that was published has been acknowledged.
    Published,
    /// Publishing the probe failed.
    PublishFailed,
    /// The process is shutting down.
    Shutdown,
}

/// What the probe generator loop does next.
#[derive(Debug)]
pub enum ProbeAction {
    /// Nothing: wait for the next event.
    Wait,
    /// Publish a probe with this body.
    Publish(Vec<u8>),
    /// Count one more probe sent.
    CountSent,
    /// Leave the loop.
    Stop(StopCause),
}

/// What the collector loop is told.
#[derive(Debug)]
pub enum CollectorEvent<V> {
    /// The subscription to the receive stream is attached.
    Started,
    /// A message was delivered and observed at this time, in epoch
    /// milliseconds.
    Delivered(StreamMessage<V>, u128),
    /// The receive stream ended.
    StreamClosed,
    /// The process is shutting down.
    Shutdown,
}

/// What the collector loop does next.
#[derive(Debug)]
pub enum CollectorAction {
    /// Nothing: wait for the next event.
    Wait,
    /// Record this sample into the delay histogram.
    Record(DelaySample),
    /// Pass over the message, for this reason.
    Skip(SkipReason),
    /// Leave the loop.
    Stop(StopCause),
}

/// The body of a probe sent at `now_ms`: sixteen bytes, big-endian.
pub fn probe_body(now_ms: u128) -> (r: Vec<u8>)
    ensures
        r@.len() == TIMESTAMP_LEN,
        be_value(r@) == now_ms as nat,
        embedded_timestamp(r@) == now_ms as nat,
{
    let body = encode_timestamp(now_ms);
    proof {
        assert(body@.subrange(0, TIMESTAMP_LEN as int) =~= body@);
    }
    body
}

/// What the collector makes of `m` observed at `now_ms`, with the location
/// tag called `name`.
pub fn collect<V>(m: &StreamMessage<V>, name: &String, now_ms: u128) -> (r: Result<
    DelaySample,
    SkipReason,
>)
    ensures
        collects_as(r, m@, name@, now_ms),
{
    let label = match m.property(name) {
        None => return Err(SkipReason::MissingTag),
        Some(PropertyValue::Other(_)) => return Err(SkipReason::TagNotText),
        Some(PropertyValue::Text(s)) => s.clone(),
    };
    let body = match &m.body {
        None => return Err(SkipReason::MissingBody),
        Some(b) => b,
    };
    let sent = match decode_timestamp(body.as_slice()) {
        None => return Err(SkipReason::ShortBody),
        Some(t) => t,
    };
    if now_ms < sent {
        return Err(SkipReason::FutureTimestamp);
    }
    Ok(DelaySample { label, delay_ms: now_ms - sent })
}

impl Catcher {
    pub fn new(
        send_stream_name: String,
        receive_stream_name: String,
        location_application_property_name: String,
        period: ProbePeriod,
        http_host: String,
        http_port: u16,
    ) -> (r: Self)
        ensures
            r.send_stream_name == send_stream_name,
            r.receive_stream_name == receive_stream_name,
            r.location_application_property_name == location_application_property_name,
            r.period == period,
            r.http_host == http_host,
            r.http_port == http_port,
    {
        Catcher {
            send_stream_name,
            receive_stream_name,
            location_application_property_name,
            period,
            http_host,
            http_port,
        }
    }

    /// What the collector makes of `m` observed at `now_ms`, with this
    /// role's location tag.
    pub fn collect<V>(&self, m: &StreamMessage<V>, now_ms: u128) -> (r: Result<
        DelaySample,
        SkipReason,
    >)
        ensures
            collects_as(r, m@, self.location_application_property_name@, now_ms),
    {
        collect(m, &self.location_application_property_name, now_ms)
    }

    /// One decision of the probe generator loop.
    pub fn probe_step(&self, phase: LoopPhase, event: ProbeEvent) -> (r: (LoopPhase, ProbeAction))
        ensures
            match (phase, event) {
                (LoopPhase::Terminated, _) => r.0 == LoopPhase::Terminated && r.1 is Wait,
                (_, ProbeEvent::Shutdown) => r.0 == LoopPhase::Terminated && r.1 matches ProbeAction::Stop(
                    StopCause::Shutdown,
                ),
                (LoopPhase::Idle, ProbeEvent::Started) => r.0 == LoopPhase::AwaitingEvent
                    && r.1 is Wait,
                (LoopPhase::AwaitingEvent, ProbeEvent::Tick(now)) => r.0 == LoopPhase::Processing
                    && (r.1 matches ProbeAction::Publish(body) && body@.len() == TIMESTAMP_LEN
                    && be_value(body@) == now as nat),
                (LoopPhase::Processing, ProbeEvent::Published) => r.0 == LoopPhase::AwaitingEvent
                    && r.1 is CountSent,
                (LoopPhase::Processing, ProbeEvent::PublishFailed) => r.0
                    == LoopPhase::Terminated && r.1 matches ProbeAction::Stop(
                    StopCause::PublishFailed,
                ),
                _ => r.0 == phase && r.1 is Wait,
            },
    {
        match (phase, event) {
            (LoopPhase::Terminated, _) => (LoopPhase::Terminated, ProbeAction::Wait),
            (_, ProbeEvent::Shutdown) => (
                LoopPhase::Terminated,
                ProbeAction::Stop(StopCause::Shutdown),
            ),
            (LoopPhase::Idle, ProbeEvent::Started) => (LoopPhase::AwaitingEvent, ProbeAction::Wait),
            (LoopPhase::AwaitingEvent, ProbeEvent::Tick(now)) => (
                LoopPhase::Processing,
                ProbeAction::Publish(probe_body(now)),
            ),
            (LoopPhase::Processing, ProbeEvent::Published) => (
                LoopPhase::AwaitingEvent,
                ProbeAction::CountSent,
            ),
            (LoopPhase::Processing, ProbeEvent::PublishFailed) => (
                LoopPhase::Terminated,
                ProbeAction::Stop(StopCause::PublishFailed),
            ),
            _ => (phase, ProbeAction::Wait),
        }
    }

    /// One decision of the collector loop. A delivered message is handled at
    /// once: the loop records or skips it and goes on waiting.
    pub fn collector_step<V>(&self, phase: LoopPhase, event: CollectorEvent<V>) -> (r: (
        LoopPhase,
        CollectorAction,
    ))
        ensures
            match (phase, event) {
                (LoopPhase::Terminated, _) => r.0 == LoopPhase::Terminated && r.1 is Wait,
                (_, CollectorEvent::Shutdown) => r.0 == LoopPhase::Terminated && r.1 matches CollectorAction::Stop(
                    StopCause::Shutdown,
                ),
                (LoopPhase::Idle, CollectorEvent::Started) => r.0 == LoopPhase::AwaitingEvent
                    && r.1 is Wait,
                (LoopPhase::AwaitingEvent, CollectorEvent::Delivered(m, now)) => r.0
                    == LoopPhase::AwaitingEvent && match r.1 {
                    CollectorAction::Record(s) => collects_as(
                        Ok(s),
                        m@,
                        self.location_application_property_name@,
                        now,
                    ),
                    CollectorAction::Skip(k) => collects_as(
                        Err(k),
                        m@,
                        self.location_application_property_name@,
                        now,
                    ),
                    _ => false,
                },
                (LoopPhase::AwaitingEvent, CollectorEvent::StreamClosed) => r.0
                    == LoopPhase::Terminated && r.1 matches CollectorAction::Stop(
                    StopCause::StreamClosed,
                ),
                _ => r.0 == phase && r.1 is Wait,
            },
    {
        match (phase, event) {
            (LoopPhase::Terminated, _) => (LoopPhase::Terminated, CollectorAction::Wait),
            (_, CollectorEvent::Shutdown) => (
                LoopPhase::Terminated,
                CollectorAction::Stop(StopCause::Shutdown),
            ),
            (LoopPhase::Idle, CollectorEvent::Started) => (
                LoopPhase::AwaitingEvent,
                CollectorAction::Wait,
            ),
            (LoopPhase::AwaitingEvent, CollectorEvent::Delivered(m, now)) => {
                let action = match self.collect(&m, now) {
                    Ok(s) => CollectorAction::Record(s),
                    Err(k) => CollectorAction::Skip(k),
                };
                (LoopPhase::AwaitingEvent, action)
            },
            (LoopPhase::AwaitingEvent, CollectorEvent::StreamClosed) => (
                LoopPhase::Terminated,
                CollectorAction::Stop(StopCause::StreamClosed),
            ),
            _ => (phase, CollectorAction::Wait),
        }
    }
}

} // verus!
