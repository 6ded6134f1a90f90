//! Messages as queues carry them.
use vstd::prelude::*;

use core::time::Duration;

use crate::common::clock::Timestamp;
use crate::common::ids::{is_uuid_text, new_uuid_text};
use crate::common::str_map::{text_map, StrMap};

verus! {

/// A message envelope for queue operations.
#[derive(Debug, Clone)]
pub struct Message<T> {
    /// Unique message identifier.
    pub id: String,
    /// Message payload.
    pub payload: T,
    /// Optional correlation identifier.
    pub correlation_id: Option<String>,
    /// Headers.
    pub headers: StrMap<String>,
    /// When the message was enqueued.
    pub enqueued_at: Timestamp,
    /// Optional delay before delivery.
    pub delay: Option<Duration>,
}

impl<T> Message<T> {
    /// A new message: a random identifier, the current time, no
    /// correlation, no headers and no delay.
    pub fn new(payload: T) -> (r: Self)
        ensures
            is_uuid_text(r.id@),
            r.payload == payload,
            r.correlation_id is None,
            r.headers@.len() == 0,
            r.delay is None,
    {
        Message {
            id: new_uuid_text(),
            payload,
            correlation_id: None,
            headers: StrMap::new(),
            enqueued_at: Timestamp::now(),
            delay: None,
        }
    }

    /// Sets the correlation identifier.
    pub fn with_correlation_id(self, id: &str) -> (r: Self)
        ensures
            r.id == self.id,
            r.payload == self.payload,
            r.correlation_id matches Some(c) && c@ == id@,
            r.headers == self.headers,
            r.enqueued_at == self.enqueued_at,
            r.delay == self.delay,
    {
        Message { correlation_id: Some(String::from_str(id)), ..self }
    }

    /// Sets a header, in place of any header of that name.
    pub fn with_header(self, key: &str, value: &str) -> (r: Self)
        ensures
            r.id == self.id,
            r.payload == self.payload,
            r.correlation_id == self.correlation_id,
            text_map(r.headers@) == text_map(self.headers@).insert(key@, value@),
            r.enqueued_at == self.enqueued_at,
            r.delay == self.delay,
    {
        let mut m = self;
        let ghost before = m.headers@;
        m.headers.insert(String::from_str(key), String::from_str(value));
        assert(text_map(m.headers@) =~= text_map(before).insert(key@, value@));
        m
    }

    /// Sets a delay before delivery.
    pub fn with_delay(self, delay: Duration) -> (r: Self)
        ensures
            r.id == self.id,
            r.payload == self.payload,
            r.correlation_id == self.correlation_id,
            r.headers == self.headers,
            r.enqueued_at == self.enqueued_at,
            r.delay == Some(delay),
    {
        Message { delay: Some(delay), ..self }
    }
}

} // verus!
