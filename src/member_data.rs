use vstd::prelude::*;

use crate::error::DomainError;
use crate::member::Member;
use crate::value_object::{
    grade_code,
    grade_from_code,
    is_recognized_major,
    major_from_text,
    major_name,
    Grade,
    Major,
    MemberId,
    MAX_GRADE_CODE,
    MIN_GRADE_CODE,
};

verus! {

/// The flat storage record of a member.
#[derive(Debug, Clone, PartialEq, Eq)]
pub struct MemberData {
    pub id: i32,
    pub name: String,
    pub age: i32,
    pub grade: i32,
    pub major: String,
}

/// Whether `d` is the storage record of `m`, field by field.
pub open spec fn is_record_of(m: Member, d: MemberData) -> bool {
    &&& d.id == m.id.id
    &&& d.name == m.name
    &&& d.age == m.age
    &&& d.grade == grade_code(m.grade)
    &&& d.major@ == major_name(m.major)
}

/// The member rebuilt from the storage record `d`, or the grade error when
/// its grade code is outside the enumeration.
pub open spec fn member_from_record(d: MemberData) -> Result<Member, DomainError> {
    match grade_from_code(d.grade) {
        Ok(grade) => Ok(
            Member {
                id: MemberId { id: d.id },
                name: d.name,
                age: d.age,
                grade,
                major: major_from_text(d.major@),
            },
        ),
        Err(e) => Err(e),
    }
}

impl MemberData {
    /// Flattens a member into its storage record.
    pub fn from_member(m: Member) -> (r: MemberData)
        ensures
            is_record_of(m, r),
    {
        let major = m.major.name();
        MemberData { id: m.id.id, name: m.name, age: m.age, grade: m.grade.code(), major }
    }

    /// Rebuilds a member from its storage record. Fails with the grade
    /// error exactly when the stored grade code is outside the enumeration.
    pub fn to_member(self) -> (r: Result<Member, DomainError>)
        ensures
            r == member_from_record(self),
    {
        let grade = match Grade::try_from(self.grade) {
            Ok(g) => g,
            Err(e) => {
                return Err(e);
            },
        };
        let major = Major::parse(self.major.as_str());
        Ok(Member::reconstruct(MemberId::from(self.id), self.name, self.age, grade, major))
    }
}

impl From<Member> for MemberData {
    fn from(m: Member) -> (r: MemberData)
        ensures
            is_record_of(m, r),
    {
        MemberData::from_member(m)
    }
}

impl vstd::std_specs::convert::FromSpecImpl<Member> for MemberData {
    open spec fn obeys_from_spec() -> bool {
        false
    }

    open spec fn from_spec(m: Member) -> MemberData {
        arbitrary()
    }
}

impl TryFrom<MemberData> for Member {
    type Error = DomainError;

    fn try_from(d: MemberData) -> (r: Result<Member, DomainError>) {
        d.to_member()
    }
}

impl vstd::std_specs::convert::TryFromSpecImpl<MemberData> for Member {
    open spec fn obeys_try_from_spec() -> bool {
        true
    }

    open spec fn try_from_spec(d: MemberData) -> Result<Member, DomainError> {
        member_from_record(d)
    }
}

/// A member flattened into storage form and rebuilt from it equals the
/// original in every field.
pub proof fn lemma_storage_round_trip(m: Member, d: MemberData)
    requires
        is_record_of(m, d),
    ensures
        member_from_record(d) == Ok::<Member, DomainError>(m),
{
    lemma_grade_code_inverse(m.grade);
    crate::value_object::lemma_major_name_round_trip_all(m.major);
}

/// A record whose grade code is outside the enumeration is rejected with
/// that code, and no member is rebuilt from it.
pub proof fn lemma_invalid_grade_record_rejected(d: MemberData)
    requires
        d.grade < MIN_GRADE_CODE || d.grade > MAX_GRADE_CODE,
    ensures
        member_from_record(d) == Err::<Member, DomainError>(DomainError::InvalidGrade(d.grade)),
{
}

/// The record of a member never holds a grade code outside the enumeration.
pub proof fn lemma_record_grade_in_range(m: Member, d: MemberData)
    requires
        is_record_of(m, d),
    ensures
        MIN_GRADE_CODE <= d.grade <= MAX_GRADE_CODE,
{
}

/// Rebuilding a record and flattening the member again keeps identity,
/// name, age and grade code; the major becomes the text of its
/// classification, the record's own text when that is recognized. The
/// normalised record rebuilds the same member, so normalising twice gives
/// the same record as normalising once.
pub proof fn lemma_record_normalisation(d: MemberData, m: Member, d1: MemberData)
    requires
        member_from_record(d) == Ok::<Member, DomainError>(m),
        is_record_of(m, d1),
    ensures
        d1.id == d.id,
        d1.name == d.name,
        d1.age == d.age,
        d1.grade == d.grade,
        d1.major@ == major_name(major_from_text(d.major@)),
        is_recognized_major(d.major@) ==> d1.major@ == d.major@,
        member_from_record(d1) == Ok::<Member, DomainError>(m),
{
    lemma_storage_round_trip(m, d1);
}

proof fn lemma_grade_code_inverse(g: Grade)
    ensures
        grade_from_code(grade_code(g)) == Ok::<Grade, DomainError>(g),
{
}

} // verus!
