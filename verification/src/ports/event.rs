//! Domain events, their metadata and the envelope they travel in.
use vstd::prelude::*;

use crate::common::clock::Timestamp;
use crate::common::ids::{is_uuid_text, new_uuid_text};

verus! {

/// A domain event: something that happened in the domain.
pub trait DomainEvent: Clone {
    /// The type name of this event.
    fn event_type(&self) -> &'static str;

    /// The identifier of this event instance.
    fn event_id(&self) -> &str;

    /// When this event occurred.
    fn occurred_at(&self) -> Timestamp;

    /// Optional correlation identifier for tracing.
    fn correlation_id(&self) -> Option<&str>;

    /// Optional causation identifier for tracking event chains.
    fn causation_id(&self) -> Option<&str>;
}

/// An event payload with its metadata.
#[derive(Debug, Clone)]
pub struct EventEnvelope<E> {
    /// Unique event identifier.
    pub id: String,
    /// Event type name.
    pub event_type: &'static str,
    /// When the event occurred.
    pub occurred_at: Timestamp,
    /// Optional correlation identifier.
    pub correlation_id: Option<String>,
    /// Optional causation identifier.
    pub causation_id: Option<String>,
    /// The event payload.
    pub payload: E,
}

/// Event metadata: identity, time and tracing information.
#[derive(Debug, Clone)]
pub struct EventMetadata {
    /// Unique event identifier.
    pub id: String,
    /// When the event occurred.
    pub occurred_at: Timestamp,
    /// Optional correlation identifier for tracing.
    pub correlation_id: Option<String>,
    /// Optional causation identifier for tracking event chains.
    pub causation_id: Option<String>,
}

impl EventMetadata {
    /// Fresh metadata: a random identifier, the current time, and no
    /// correlation or causation.
    pub fn new() -> (r: Self)
        ensures
            is_uuid_text(r.id@),
            r.correlation_id is None,
            r.causation_id is None,
    {
        EventMetadata {
            id: new_uuid_text(),
            occurred_at: Timestamp::now(),
            correlation_id: None,
            causation_id: None,
        }
    }

    /// Sets the correlation identifier.
    pub fn with_correlation_id(self, correlation_id: String) -> (r: Self)
        ensures
            r.id == self.id,
            r.occurred_at == self.occurred_at,
            r.correlation_id == Some(correlation_id),
            r.causation_id == self.causation_id,
    {
        EventMetadata { correlation_id: Some(correlation_id), ..self }
    }

    /// Sets the causation identifier.
    pub fn with_causation_id(self, causation_id: String) -> (r: Self)
        ensures
            r.id == self.id,
            r.occurred_at == self.occurred_at,
            r.correlation_id == self.correlation_id,
            r.causation_id == Some(causation_id),
    {
        EventMetadata { causation_id: Some(causation_id), ..self }
    }
}

impl Default for EventMetadata {
    fn default() -> (r: Self)
        ensures
            is_uuid_text(r.id@),
            r.correlation_id is None,
            r.causation_id is None,
    {
        Self::new()
    }
}

impl<E> EventEnvelope<E> {
    /// Wraps a payload, with a random identifier and the current time.
    pub fn new(
        payload: E,
        event_type: &'static str,
        correlation_id: Option<String>,
        causation_id: Option<String>,
    ) -> (r: Self)
        ensures
            is_uuid_text(r.id@),
            r.event_type == event_type,
            r.correlation_id == correlation_id,
            r.causation_id == causation_id,
            r.payload == payload,
    {
        EventEnvelope {
            id: new_uuid_text(),
            event_type,
            occurred_at: Timestamp::now(),
            correlation_id,
            causation_id,
            payload,
        }
    }

    /// Maps the payload with `f`, keeping the metadata.
    pub fn map<F, U>(self, f: F) -> (r: EventEnvelope<U>)
        where
            F: FnOnce(E) -> U,
        requires
            f.requires((self.payload,)),
        ensures
            r.id == self.id,
            r.event_type == self.event_type,
            r.occurred_at == self.occurred_at,
            r.correlation_id == self.correlation_id,
            r.causation_id == self.causation_id,
            f.ensures((self.payload,), r.payload),
    {
        EventEnvelope {
            id: self.id,
            event_type: self.event_type,
            occurred_at: self.occurred_at,
            correlation_id: self.correlation_id,
            causation_id: self.causation_id,
            payload: f(self.payload),
        }
    }
}

} // verus!
