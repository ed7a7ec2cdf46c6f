use vstd::prelude::*;

verus! {

/// Failures raised by the domain rules: value-object construction and
/// the circle roster operations.
#[derive(Debug, Clone, Copy, PartialEq, Eq, Structural)]
pub enum DomainError {
    /// A grade code outside the closed enumeration.
    InvalidGrade(i32),
    /// The roster already holds `capacity` members.
    CapacityExceeded,
    /// A member with the same identity is already in the circle.
    DuplicateMember,
    /// No roster member carries the requested identity.
    MemberNotFound,
    /// The owner is not part of the roster and cannot be removed from it.
    OwnerNotRemovable,
    /// A circle needs room for at least one member.
    InvalidCapacity,
}

} // verus!
