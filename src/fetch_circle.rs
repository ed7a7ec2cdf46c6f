use vstd::prelude::*;

use crate::circle::{Circle, CircleView};
use crate::member::Member;
use crate::port::{CircleRepositoryPort, RepositoryError};
use crate::value_object::{grade_code, major_name, CircleId};

verus! {

/// Request of the fetch-circle use case.
#[derive(Debug, Clone, Copy, PartialEq, Eq, Structural)]
pub struct FetchCircleInput {
    pub id: usize,
}

impl FetchCircleInput {
    pub fn new(id: usize) -> (r: FetchCircleInput)
        ensures
            r.id == id,
    {
        FetchCircleInput { id }
    }
}

/// A member as handed to callers: plain integers and text.
#[derive(Debug, Clone, PartialEq, Eq)]
pub struct MemberOutput {
    pub id: usize,
    pub name: String,
    pub age: usize,
    pub grade: usize,
    pub major: String,
}

/// A circle as handed to callers: plain integers and text.
#[derive(Debug, Clone, PartialEq, Eq)]
pub struct FetchCircleOutput {
    pub circle_id: usize,
    pub circle_name: String,
    pub capacity: usize,
    pub owner: MemberOutput,
    pub members: Vec<MemberOutput>,
}

/// Whether `o` is `m` with every value object widened to an integer or text.
/// Identity and age widen as Rust's integer cast does.
pub open spec fn is_member_output(m: Member, o: MemberOutput) -> bool {
    &&& o.id == m.id.id as usize
    &&& o.name@ == m.name@
    &&& o.age == m.age as usize
    &&& o.grade == grade_code(m.grade) as usize
    &&& o.major@ == major_name(m.major)
}

/// Whether `o` is the circle `c` widened, its roster in the same order.
pub open spec fn is_circle_output(c: CircleView, o: FetchCircleOutput) -> bool {
    &&& o.circle_id == c.id.id
    &&& o.circle_name@ == c.name
    &&& o.capacity == c.capacity
    &&& is_member_output(c.owner, o.owner)
    &&& o.members@.len() == c.members.len()
    &&& forall|i: int|
        0 <= i < c.members.len() ==> #[trigger] is_member_output(c.members[i], o.members@[i])
}

/// Whether `r` answers the lookup outcome `found`: a found circle is
/// widened, a failure is handed on unchanged.
pub open spec fn answers_lookup(
    found: Result<Circle, RepositoryError>,
    r: Result<FetchCircleOutput, RepositoryError>,
) -> bool {
    match found {
        Ok(c) => r matches Ok(o) && is_circle_output(c@, o),
        Err(e) => r == Err::<FetchCircleOutput, RepositoryError>(e),
    }
}

/// A failed lookup, a missing circle among them, is answered with the
/// repository's own failure, never with an output.
pub proof fn lemma_lookup_failure_handed_on(
    e: RepositoryError,
    r: Result<FetchCircleOutput, RepositoryError>,
)
    requires
        answers_lookup(Err(e), r),
    ensures
        r == Err::<FetchCircleOutput, RepositoryError>(e),
        !(r is Ok),
{
}

/// What a repository may answer to a lookup of `id`.
pub open spec fn is_lookup_answer(id: usize, found: Result<Circle, RepositoryError>) -> bool {
    found matches Ok(c) ==> c@.wf() && c@.id.id == id
}

impl MemberOutput {
    pub fn from_member(m: &Member) -> (o: MemberOutput)
        ensures
            is_member_output(*m, o),
    {
        MemberOutput {
            id: usize::from(m.id),
            name: m.name.clone(),
            age: #[verifier::truncate]
            (m.age as usize),
            grade: usize::from(m.grade),
            major: m.major.name(),
        }
    }
}

impl FetchCircleOutput {
    pub fn from_circle(c: &Circle) -> (o: FetchCircleOutput)
        ensures
            is_circle_output(c@, o),
    {
        let roster = c.members();
        let n = roster.len();
        let mut members: Vec<MemberOutput> = Vec::new();
        let mut i: usize = 0;
        while i < n
            invariant
                n == roster@.len(),
                i <= n,
                members@.len() == i,
                forall|k: int| 0 <= k < i ==> #[trigger] is_member_output(roster@[k], members@[k]),
            decreases n - i,
        {
            members.push(MemberOutput::from_member(&roster[i]));
            i = i + 1;
        }
        FetchCircleOutput {
            circle_id: usize::from(c.id()),
            circle_name: c.name().clone(),
            capacity: c.capacity(),
            owner: MemberOutput::from_member(c.owner()),
            members,
        }
    }

    /// Answers a lookup outcome: a found circle is widened, a failure is
    /// handed on unchanged.
    pub fn from_lookup(found: Result<Circle, RepositoryError>) -> (r: Result<
        FetchCircleOutput,
        RepositoryError,
    >)
        ensures
            answers_lookup(found, r),
    {
        match found {
            Ok(c) => Ok(FetchCircleOutput::from_circle(&c)),
            Err(e) => Err(e),
        }
    }
}

/// Fetches one circle through a repository and widens it for callers.
pub struct FetchCircleUsecase<T: CircleRepositoryPort> {
    circle_repository: T,
}

impl<T: CircleRepositoryPort> FetchCircleUsecase<T> {
    /// The repository the use case reads from.
    pub closed spec fn repository(&self) -> T {
        self.circle_repository
    }

    pub fn new(circle_repository: T) -> (r: FetchCircleUsecase<T>)
        ensures
            r.repository() == circle_repository,
    {
        FetchCircleUsecase { circle_repository }
    }

    /// Looks up the circle with the requested identity once and answers
    /// with it widened, or with the repository's failure unchanged.
    pub fn execute(&self, fetch_circle_input: FetchCircleInput) -> (r: Result<
        FetchCircleOutput,
        RepositoryError,
    >)
        ensures
            exists|found: Result<Circle, RepositoryError>|
                call_ensures(
                    T::find_circle_by_id,
                    (&self.repository(), &CircleId { id: fetch_circle_input.id }),
                    found,
                ) && is_lookup_answer(fetch_circle_input.id, found) && answers_lookup(found, r),
            r matches Ok(o) ==> o.circle_id == fetch_circle_input.id,
    {
        let circle_id = CircleId::new(fetch_circle_input.id);
        let found = self.circle_repository.find_circle_by_id(&circle_id);
        let r = FetchCircleOutput::from_lookup(found);
        assert(call_ensures(T::find_circle_by_id, (&self.circle_repository, &circle_id), found)
            && is_lookup_answer(fetch_circle_input.id, found) && answers_lookup(found, r));
        r
    }
}

} // verus!
