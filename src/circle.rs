use vstd::prelude::*;

use crate::error::DomainError;
use crate::member::Member;
use crate::value_object::{CircleId, MemberId};

verus! {

/// The abstract state of a circle.
///
/// Capacity rule: `capacity` bounds the roster, the members other than the
/// owner; the owner never occupies one of its slots.
pub struct CircleView {
    pub id: CircleId,
    pub name: Seq<char>,
    pub capacity: usize,
    pub owner: Member,
    pub members: Seq<Member>,
}

/// Whether `id` is carried by a member of the roster.
pub open spec fn in_roster(members: Seq<Member>, id: MemberId) -> bool {
    exists|i: int| 0 <= i < members.len() && members[i].id == id
}

/// No two members of the circle, the owner included, share an identity.
pub open spec fn identities_distinct(owner: Member, members: Seq<Member>) -> bool {
    &&& forall|i: int| 0 <= i < members.len() ==> members[i].id != owner.id
    &&& forall|i: int, j: int|
        0 <= i < j < members.len() ==> members[i].id != members[j].id
}

impl CircleView {
    pub open spec fn wf(self) -> bool {
        &&& self.capacity >= 1
        &&& self.members.len() <= self.capacity
        &&& identities_distinct(self.owner, self.members)
    }
}

/// A circle: an owner and an ordered roster bounded by the capacity.
#[derive(Debug, Clone, PartialEq, Eq)]
pub struct Circle {
    id: CircleId,
    name: String,
    capacity: usize,
    owner: Member,
    members: Vec<Member>,
}

impl View for Circle {
    type V = CircleView;

    closed spec fn view(&self) -> CircleView {
        CircleView {
            id: self.id,
            name: self.name@,
            capacity: self.capacity,
            owner: self.owner,
            members: self.members@,
        }
    }
}

/// The check that `Circle::reconstruct` makes, in the order it makes it.
pub open spec fn reconstruct_outcome(capacity: usize, owner: Member, members: Seq<Member>) -> Result<
    (),
    DomainError,
> {
    if capacity == 0 {
        Err(DomainError::InvalidCapacity)
    } else if members.len() > capacity {
        Err(DomainError::CapacityExceeded)
    } else if !identities_distinct(owner, members) {
        Err(DomainError::DuplicateMember)
    } else {
        Ok(())
    }
}

/// The answer of `Circle::add_member` for a member with identity `id`.
pub open spec fn add_outcome(c: CircleView, id: MemberId) -> Result<(), DomainError> {
    if c.members.len() >= c.capacity {
        Err(DomainError::CapacityExceeded)
    } else if id == c.owner.id || in_roster(c.members, id) {
        Err(DomainError::DuplicateMember)
    } else {
        Ok(())
    }
}

/// The answer of `Circle::remove_member` for the identity `id`.
pub open spec fn remove_outcome(c: CircleView, id: MemberId) -> Result<(), DomainError> {
    if id == c.owner.id {
        Err(DomainError::OwnerNotRemovable)
    } else if !in_roster(c.members, id) {
        Err(DomainError::MemberNotFound)
    } else {
        Ok(())
    }
}

impl Circle {
    /// A circle with an empty roster.
    pub fn new(id: CircleId, name: String, capacity: usize, owner: Member) -> (r: Result<
        Circle,
        DomainError,
    >)
        ensures
            capacity == 0 <==> r == Err::<Circle, DomainError>(DomainError::InvalidCapacity),
            capacity >= 1 <==> r is Ok,
            r matches Ok(c) ==> {
                &&& c@.wf()
                &&& c@.id == id
                &&& c@.name == name@
                &&& c@.capacity == capacity
                &&& c@.owner == owner
                &&& c@.members == Seq::<Member>::empty()
            },
    {
        Circle::reconstruct(id, name, capacity, owner, Vec::new())
    }

    /// A circle rebuilt from stored parts. Fails when the capacity is zero,
    /// when the roster is larger than the capacity, or when two members
    /// share an identity, checked in that order.
    pub fn reconstruct(
        id: CircleId,
        name: String,
        capacity: usize,
        owner: Member,
        members: Vec<Member>,
    ) -> (r: Result<Circle, DomainError>)
        ensures
            match reconstruct_outcome(capacity, owner, members@) {
                Ok(_) => r matches Ok(c) && c@ == (CircleView {
                    id,
                    name: name@,
                    capacity,
                    owner,
                    members: members@,
                }),
                Err(e) => r == Err::<Circle, DomainError>(e),
            },
            r matches Ok(c) ==> c@.wf(),
    {
        if capacity == 0 {
            return Err(DomainError::InvalidCapacity);
        }
        if members.len() > capacity {
            return Err(DomainError::CapacityExceeded);
        }
        let n = members.len();
        let mut i: usize = 0;
        while i < n
            invariant
                n == members@.len(),
                0 < capacity,
                n <= capacity,
                i <= n,
                forall|k: int| 0 <= k < i ==> members@[k].id != owner.id,
                forall|k: int, l: int| 0 <= k < l < i ==> members@[k].id != members@[l].id,
            decreases n - i,
        {
            if members[i].id == owner.id {
                assert(members@[i as int].id == owner.id);
                return Err(DomainError::DuplicateMember);
            }
            let mut j: usize = 0;
            while j < i
                invariant
                    n == members@.len(),
                    0 < capacity,
                    n <= capacity,
                    i < n,
                    j <= i,
                    forall|k: int| 0 <= k < j ==> members@[k].id != members@[i as int].id,
                decreases i - j,
            {
                if members[j].id == members[i].id {
                    assert(members@[j as int].id == members@[i as int].id);
                    return Err(DomainError::DuplicateMember);
                }
                j = j + 1;
            }
            i = i + 1;
        }
        Ok(Circle { id, name, capacity, owner, members })
    }

    pub fn id(&self) -> (r: CircleId)
        ensures
            r == self@.id,
    {
        self.id
    }

    pub fn name(&self) -> (r: &String)
        ensures
            r@ == self@.name,
    {
        &self.name
    }

    pub fn capacity(&self) -> (r: usize)
        ensures
            r == self@.capacity,
    {
        self.capacity
    }

    pub fn owner(&self) -> (r: &Member)
        ensures
            *r == self@.owner,
    {
        &self.owner
    }

    /// The roster, in the order the members joined.
    pub fn members(&self) -> (r: &Vec<Member>)
        ensures
            r@ == self@.members,
    {
        &self.members
    }

    /// The position of the roster member carrying `id`, if any.
    pub fn position_of(&self, id: MemberId) -> (r: Option<usize>)
        ensures
            match r {
                Some(i) => i < self@.members.len() && self@.members[i as int].id == id,
                None => !in_roster(self@.members, id),
            },
    {
        let n = self.members.len();
        let mut i: usize = 0;
        while i < n
            invariant
                n == self.members@.len(),
                i <= n,
                forall|k: int| 0 <= k < i ==> self.members@[k].id != id,
            decreases n - i,
        {
            if self.members[i].id == id {
                return Some(i);
            }
            i = i + 1;
        }
        None
    }

    /// Appends a member to the roster. Fails, leaving the circle unchanged,
    /// with `CapacityExceeded` when the roster is full, else with
    /// `DuplicateMember` when the identity is the owner's or already in
    /// the roster.
    pub fn add_member(&mut self, member: Member) -> (r: Result<(), DomainError>)
        requires
            old(self)@.wf(),
        ensures
            final(self)@.wf(),
            r == add_outcome(old(self)@, member.id),
            r is Err ==> final(self)@ == old(self)@,
            r is Ok ==> final(self)@ == (CircleView {
                members: old(self)@.members.push(member),
                ..old(self)@
            }),
    {
        if self.members.len() >= self.capacity {
            return Err(DomainError::CapacityExceeded);
        }
        if member.id == self.owner.id {
            return Err(DomainError::DuplicateMember);
        }
        match self.position_of(member.id) {
            Some(_) => Err(DomainError::DuplicateMember),
            None => {
                self.members.push(member);
                Ok(())
            },
        }
    }

    /// Takes a member out of the roster, keeping the order of the rest.
    /// Fails, leaving the circle unchanged, with `OwnerNotRemovable` for
    /// the owner's identity, else with `MemberNotFound` when no roster
    /// member carries it.
    pub fn remove_member(&mut self, id: MemberId) -> (r: Result<Member, DomainError>)
        requires
            old(self)@.wf(),
        ensures
            final(self)@.wf(),
            r is Ok <==> remove_outcome(old(self)@, id) is Ok,
            r matches Err(e) ==> remove_outcome(old(self)@, id) == Err::<(), DomainError>(e)
                && final(self)@ == old(self)@,
            r matches Ok(m) ==> exists|i: int|
                0 <= i < old(self)@.members.len() && old(self)@.members[i] == m && m.id == id
                    && final(self)@ == (CircleView {
                    members: old(self)@.members.remove(i),
                    ..old(self)@
                }),
    {
        if id == self.owner.id {
            return Err(DomainError::OwnerNotRemovable);
        }
        match self.position_of(id) {
            None => Err(DomainError::MemberNotFound),
            Some(i) => {
                let ghost before = self.members@;
                let m = self.members.remove(i);
                assert(self.members@ == before.remove(i as int));
                assert forall|k: int, l: int|
                    0 <= k < l < self.members@.len() implies self.members@[k].id
                    != self.members@[l].id by {
                    if k >= i {
                        assert(self.members@[k] == before[k + 1]);
                        assert(self.members@[l] == before[l + 1]);
                    } else if l >= i {
                        assert(self.members@[l] == before[l + 1]);
                    }
                }
                Ok(m)
            },
        }
    }
}

} // verus!
