//! Domain building blocks: entities, value objects and aggregates.
use vstd::prelude::*;

use crate::common::clock::Timestamp;

use super::error::PortError;
use super::event::DomainEvent;
use super::identifier::Identifier;
use vstd::std_specs::cmp::PartialEqSpec;

verus! {

/// An entity: an object with a stable identity.  Two entities with the same
/// identifier are the same entity.
pub trait Entity {
    /// The type of identifier of this entity.
    type Id: Identifier;

    /// The identifier of this entity, as `id` gives it.  A verified
    /// implementation defines it; the default only lets implementations
    /// written outside Verus compile, and fixes no value.
    open spec fn spec_id(&self) -> Self::Id {
        arbitrary()
    }

    /// The identifier of this entity.
    fn id(&self) -> (r: &Self::Id)
        ensures
            *r == self.spec_id(),
    ;

    /// When this entity was created.
    fn created_at(&self) -> Timestamp;

    /// When this entity was last modified.
    fn updated_at(&self) -> Timestamp;
}

/// Extension methods for entities.
pub trait EntityExt: Entity {
    /// Whether `other` is the same entity, by identifier: the identifiers'
    /// own `==`.
    fn is_same<O: Entity<Id = Self::Id>>(&self, other: &O) -> (r: bool)
        ensures
            <Self::Id as PartialEqSpec>::obeys_eq_spec() ==> r == self.spec_id().eq_spec(
                &other.spec_id(),
            ),
    {
        *self.id() == *other.id()
    }
}

impl<T: Entity> EntityExt for T {

}

/// A value object: compared by its attributes, not by identity.
pub trait ValueObject: Clone + PartialEq {
    /// The type of the value held.
    type Value: Clone + PartialEq;

    /// The value held.
    fn value(&self) -> &Self::Value;
}

/// Construction of value objects with validation.
pub trait ValueObjectExt: ValueObject {
    /// Validates a value; every value is valid unless an implementation says
    /// otherwise.
    fn validate(value: &Self::Value) -> (r: Result<(), PortError>)
        default_ensures
            r is Ok,
    {
        Ok(())
    }

    /// A value object for `value`, or the validation error.
    fn new(value: Self::Value) -> Result<Self, PortError> where Self: Sized;

    /// A value object for `value`, without validation.
    fn new_unchecked(value: Self::Value) -> Self;
}

/// An aggregate: a cluster of entities and value objects changed as one.
pub trait Aggregate {
    /// The type of identifier of this aggregate.
    type Id;

    /// The type of the events this aggregate produces.
    type Event: DomainEvent;

    /// The aggregate's identifier.
    fn id(&self) -> &Self::Id;

    /// The version of the aggregate, as `version` gives it.  As for
    /// `Entity::spec_id`, the default fixes no value.
    open spec fn spec_version(&self) -> i64 {
        arbitrary()
    }

    /// The version of the aggregate (0 if new).
    fn version(&self) -> (r: i64)
        ensures
            r == self.spec_version(),
    ;

    /// The events raised and not yet taken, oldest first.  As for
    /// `spec_version`, the default fixes nothing.
    open spec fn spec_pending(&self) -> Seq<Self::Event> {
        arbitrary()
    }

    /// The events raised and not yet taken, oldest first.
    fn pending_events(&self) -> (r: &[Self::Event])
        ensures
            r@ == self.spec_pending(),
    ;

    /// Takes the pending events and clears the queue.
    fn take_events(&mut self) -> (r: Vec<Self::Event>)
        ensures
            r@ == old(self).spec_pending(),
            final(self).spec_pending().len() == 0,
    ;

    /// Applies an event to the aggregate.
    fn apply(&mut self, event: Self::Event);
}

/// Helper methods for aggregates.
pub trait AggregateExt: Aggregate {
    /// Whether events are pending: raised and not yet taken.
    fn has_pending_events(&self) -> (r: bool)
        ensures
            r == (self.spec_pending().len() > 0),
    {
        self.pending_events().len() > 0
    }
}

impl<T: Aggregate> AggregateExt for T {

}

} // verus!
