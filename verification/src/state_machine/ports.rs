//! Outbound ports: what infrastructure provides to the state machine.
use vstd::prelude::*;

use super::entities::{State, StateMachine};
use crate::common::clock::Timestamp;
use crate::common::text::labelled;

verus! {

/// Errors that can occur in repositories.
#[derive(Debug)]
pub enum RepositoryError {
    NotFound(String),
    Persist(String),
    Serialization(String),
}

/// The message of a repository error, as its display form reads.
pub open spec fn repository_error_text(e: RepositoryError) -> Seq<char> {
    match e {
        RepositoryError::NotFound(s) => "not found: "@ + s@,
        RepositoryError::Persist(s) => "persist error: "@ + s@,
        RepositoryError::Serialization(s) => "serialization error: "@ + s@,
    }
}

impl RepositoryError {
    /// The message of the error, as its display form reads.
    pub fn message(&self) -> (r: String)
        ensures
            r@ == repository_error_text(*self),
    {
        match self {
            RepositoryError::NotFound(s) => labelled("not found: ", s.as_str()),
            RepositoryError::Persist(s) => labelled("persist error: ", s.as_str()),
            RepositoryError::Serialization(s) => labelled("serialization error: ", s.as_str()),
        }
    }
}

/// Port for persisting state machines.
pub trait StateMachineRepository<S: State> {
    /// Whether `r` is an answer the repository may give to saving `sm` under
    /// `id`.  The default claims nothing of the answer.
    open spec fn spec_save(&self, id: Seq<char>, sm: StateMachine<S>, r: Result<(), RepositoryError>) -> bool {
        true
    }

    /// Whether `r` is an answer the repository may give to looking up `id`.
    /// The default claims nothing of the answer.
    open spec fn spec_find(&self, id: Seq<char>, r: Result<Option<StateMachine<S>>, RepositoryError>) -> bool {
        true
    }

    /// Save a state machine.
    fn save(&self, id: &str, sm: &StateMachine<S>) -> (r: Result<(), RepositoryError>)
        ensures
            self.spec_save(id@, *sm, r),
    ;

    /// Find a state machine by ID.
    fn find_by_id(&self, id: &str) -> (r: Result<Option<StateMachine<S>>, RepositoryError>)
        ensures
            self.spec_find(id@, r),
    ;

    /// Delete a state machine by ID.
    fn delete(&self, id: &str) -> Result<(), RepositoryError>;
}

/// Errors that can occur in event publishers.
#[derive(Debug)]
pub enum PublisherError {
    Publish(String),
    Connection(String),
}

/// The message of a publisher error, as its display form reads.
pub open spec fn publisher_error_text(e: PublisherError) -> Seq<char> {
    match e {
        PublisherError::Publish(s) => "publish error: "@ + s@,
        PublisherError::Connection(s) => "connection error: "@ + s@,
    }
}

impl PublisherError {
    /// The message of the error, as its display form reads.
    pub fn message(&self) -> (r: String)
        ensures
            r@ == publisher_error_text(*self),
    {
        match self {
            PublisherError::Publish(s) => labelled("publish error: ", s.as_str()),
            PublisherError::Connection(s) => labelled("connection error: ", s.as_str()),
        }
    }
}

/// Event published when a state transition occurs.
#[derive(Debug, Clone)]
pub struct TransitionEvent {
    pub id: String,
    pub from_state: String,
    pub to_state: String,
    pub timestamp: Timestamp,
}

/// Port for publishing state transition events.
pub trait TransitionEventPublisher {
    /// Publish a transition event.
    fn publish(&self, event: TransitionEvent) -> Result<(), PublisherError>;
}

} // verus!
