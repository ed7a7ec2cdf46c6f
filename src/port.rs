use vstd::prelude::*;

use crate::circle::Circle;
use crate::error::DomainError;
use crate::value_object::CircleId;

verus! {

/// Failures reported by a repository adapter.
#[derive(Debug, Clone, PartialEq, Eq)]
pub enum RepositoryError {
    /// No circle is stored under the requested identity.
    NotFound(CircleId),
    /// Stored data could not be rebuilt into a valid aggregate.
    Invalid(DomainError),
    /// The storage backend failed; the text is its own description.
    Backend(String),
}

/// Storage of circles, implemented by a persistence adapter.
pub trait CircleRepositoryPort {
    /// Loads the circle stored under `circle_id`. A circle handed back is
    /// well formed and carries the requested identity.
    fn find_circle_by_id(&self, circle_id: &CircleId) -> (r: Result<Circle, RepositoryError>)
        ensures
            r matches Ok(c) ==> c@.wf() && c@.id == *circle_id,
    ;

    /// Stores a circle, replacing any stored under the same identity.
    fn save(&mut self, circle: Circle) -> (r: Result<(), RepositoryError>);
}

} // verus!
