use vstd::prelude::*;

use crate::value_object::{Grade, Major, MemberId};

verus! {

/// The identity a member carries until storage assigns one.
pub const UNASSIGNED_MEMBER_ID: i32 = 0;

/// A person in the roster of a circle. The grade is valid by its type;
/// age is taken as given.
#[derive(Debug, Clone, PartialEq, Eq)]
pub struct Member {
    pub id: MemberId,
    pub name: String,
    pub age: i32,
    pub grade: Grade,
    pub major: Major,
}

impl Member {
    /// A member that has not been stored yet: its identity is unassigned.
    pub fn new(name: String, age: i32, grade: Grade, major: Major) -> (r: Member)
        ensures
            r.id.id == UNASSIGNED_MEMBER_ID,
            r.name == name,
            r.age == age,
            r.grade == grade,
            r.major == major,
    {
        Member { id: MemberId { id: UNASSIGNED_MEMBER_ID }, name, age, grade, major }
    }

    /// A member read back from storage, with its stored identity.
    pub fn reconstruct(id: MemberId, name: String, age: i32, grade: Grade, major: Major) -> (r:
        Member)
        ensures
            r.id == id,
            r.name == name,
            r.age == age,
            r.grade == grade,
            r.major == major,
    {
        Member { id, name, age, grade, major }
    }
}

} // verus!
