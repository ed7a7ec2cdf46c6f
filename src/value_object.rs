use vstd::prelude::*;

use crate::error::DomainError;
use crate::text::str_equal;

verus! {

/// Identity of a member, stored as the integer used by the storage records.
#[derive(Debug, Clone, Copy, PartialEq, Eq, Structural)]
pub struct MemberId {
    pub id: i32,
}

impl From<i32> for MemberId {
    fn from(id: i32) -> (r: MemberId) {
        MemberId { id }
    }
}

impl vstd::std_specs::convert::FromSpecImpl<i32> for MemberId {
    open spec fn obeys_from_spec() -> bool {
        true
    }

    open spec fn from_spec(id: i32) -> MemberId {
        MemberId { id }
    }
}

impl From<MemberId> for i32 {
    fn from(m: MemberId) -> (r: i32) {
        m.id
    }
}

impl vstd::std_specs::convert::FromSpecImpl<MemberId> for i32 {
    open spec fn obeys_from_spec() -> bool {
        true
    }

    open spec fn from_spec(m: MemberId) -> i32 {
        m.id
    }
}

/// Widening to `usize` follows Rust's integer cast: exact for every
/// non-negative identifier.
impl From<MemberId> for usize {
    fn from(m: MemberId) -> (r: usize) {
        #[verifier::truncate]
        (m.id as usize)
    }
}

impl vstd::std_specs::convert::FromSpecImpl<MemberId> for usize {
    open spec fn obeys_from_spec() -> bool {
        true
    }

    open spec fn from_spec(m: MemberId) -> usize {
        m.id as usize
    }
}

/// Identity of a circle.
#[derive(Debug, Clone, Copy, PartialEq, Eq, Structural)]
pub struct CircleId {
    pub id: usize,
}

impl CircleId {
    pub fn new(id: usize) -> (r: CircleId)
        ensures
            r.id == id,
    {
        CircleId { id }
    }
}

impl From<CircleId> for usize {
    fn from(c: CircleId) -> (r: usize) {
        c.id
    }
}

impl vstd::std_specs::convert::FromSpecImpl<CircleId> for usize {
    open spec fn obeys_from_spec() -> bool {
        true
    }

    open spec fn from_spec(c: CircleId) -> usize {
        c.id
    }
}

/// Academic year: a closed enumeration with the codes 1 to 4.
#[derive(Debug, Clone, Copy, PartialEq, Eq, Structural)]
pub enum Grade {
    First,
    Second,
    Third,
    Fourth,
}

pub const MIN_GRADE_CODE: i32 = 1;

pub const MAX_GRADE_CODE: i32 = 4;

/// The integer code of a grade.
pub open spec fn grade_code(g: Grade) -> i32 {
    match g {
        Grade::First => 1,
        Grade::Second => 2,
        Grade::Third => 3,
        Grade::Fourth => 4,
    }
}

/// The outcome of reading a grade from its integer code.
pub open spec fn grade_from_code(code: i32) -> Result<Grade, DomainError> {
    if code == 1 {
        Ok(Grade::First)
    } else if code == 2 {
        Ok(Grade::Second)
    } else if code == 3 {
        Ok(Grade::Third)
    } else if code == 4 {
        Ok(Grade::Fourth)
    } else {
        Err(DomainError::InvalidGrade(code))
    }
}

impl Grade {
    /// The integer code of this grade.
    pub fn code(&self) -> (r: i32)
        ensures
            r == grade_code(*self),
            MIN_GRADE_CODE <= r <= MAX_GRADE_CODE,
    {
        match self {
            Grade::First => 1,
            Grade::Second => 2,
            Grade::Third => 3,
            Grade::Fourth => 4,
        }
    }
}

impl TryFrom<i32> for Grade {
    type Error = DomainError;

    fn try_from(code: i32) -> (r: Result<Grade, DomainError>) {
        if code == 1 {
            Ok(Grade::First)
        } else if code == 2 {
            Ok(Grade::Second)
        } else if code == 3 {
            Ok(Grade::Third)
        } else if code == 4 {
            Ok(Grade::Fourth)
        } else {
            Err(DomainError::InvalidGrade(code))
        }
    }
}

impl vstd::std_specs::convert::TryFromSpecImpl<i32> for Grade {
    open spec fn obeys_try_from_spec() -> bool {
        true
    }

    open spec fn try_from_spec(code: i32) -> Result<Grade, DomainError> {
        grade_from_code(code)
    }
}

impl From<Grade> for i32 {
    fn from(g: Grade) -> (r: i32) {
        g.code()
    }
}

impl vstd::std_specs::convert::FromSpecImpl<Grade> for i32 {
    open spec fn obeys_from_spec() -> bool {
        true
    }

    open spec fn from_spec(g: Grade) -> i32 {
        grade_code(g)
    }
}

impl From<Grade> for usize {
    fn from(g: Grade) -> (r: usize) {
        g.code() as usize
    }
}

impl vstd::std_specs::convert::FromSpecImpl<Grade> for usize {
    open spec fn obeys_from_spec() -> bool {
        true
    }

    open spec fn from_spec(g: Grade) -> usize {
        grade_code(g) as usize
    }
}

/// Every code in the enumeration yields a grade whose code is the same
/// integer again.
pub proof fn lemma_grade_code_round_trip(code: i32)
    requires
        MIN_GRADE_CODE <= code <= MAX_GRADE_CODE,
    ensures
        grade_from_code(code) is Ok,
        grade_code(grade_from_code(code)->Ok_0) == code,
{
}

/// Every code outside the enumeration is rejected as an invalid grade,
/// never clamped or defaulted.
pub proof fn lemma_grade_code_out_of_range(code: i32)
    requires
        code < MIN_GRADE_CODE || code > MAX_GRADE_CODE,
    ensures
        grade_from_code(code) == Err::<Grade, DomainError>(DomainError::InvalidGrade(code)),
{
}

/// Field of study. Reading one from text is total: unknown text becomes
/// `Other`.
#[derive(Debug, Clone, Copy, PartialEq, Eq, Structural)]
pub enum Major {
    ComputerScience,
    Mathematics,
    Physics,
    Economics,
    Literature,
    Other,
}

/// The text that stands for a major; `Other` is written as its sentinel.
pub open spec fn major_name(m: Major) -> Seq<char> {
    match m {
        Major::ComputerScience => "CS"@,
        Major::Mathematics => "Math"@,
        Major::Physics => "Physics"@,
        Major::Economics => "Economics"@,
        Major::Literature => "Literature"@,
        Major::Other => "Other"@,
    }
}

/// Whether a text names one of the recognized majors.
pub open spec fn is_recognized_major(s: Seq<char>) -> bool {
    s == "CS"@ || s == "Math"@ || s == "Physics"@ || s == "Economics"@ || s == "Literature"@
}

/// The major that a text stands for.
pub open spec fn major_from_text(s: Seq<char>) -> Major {
    if s == "CS"@ {
        Major::ComputerScience
    } else if s == "Math"@ {
        Major::Mathematics
    } else if s == "Physics"@ {
        Major::Physics
    } else if s == "Economics"@ {
        Major::Economics
    } else if s == "Literature"@ {
        Major::Literature
    } else {
        Major::Other
    }
}

impl Major {
    /// Classifies a text; never fails.
    pub fn parse(s: &str) -> (r: Major)
        ensures
            r == major_from_text(s@),
    {
        if str_equal(s, "CS") {
            Major::ComputerScience
        } else if str_equal(s, "Math") {
            Major::Mathematics
        } else if str_equal(s, "Physics") {
            Major::Physics
        } else if str_equal(s, "Economics") {
            Major::Economics
        } else if str_equal(s, "Literature") {
            Major::Literature
        } else {
            Major::Other
        }
    }

    /// The text of this major.
    pub fn name(&self) -> (r: String)
        ensures
            r@ == major_name(*self),
    {
        match self {
            Major::ComputerScience => String::from_str("CS"),
            Major::Mathematics => String::from_str("Math"),
            Major::Physics => String::from_str("Physics"),
            Major::Economics => String::from_str("Economics"),
            Major::Literature => String::from_str("Literature"),
            Major::Other => String::from_str("Other"),
        }
    }
}

impl<'a> From<&'a str> for Major {
    fn from(s: &'a str) -> (r: Major) {
        Major::parse(s)
    }
}

impl<'a> vstd::std_specs::convert::FromSpecImpl<&'a str> for Major {
    open spec fn obeys_from_spec() -> bool {
        true
    }

    open spec fn from_spec(s: &'a str) -> Major {
        major_from_text(s@)
    }
}

impl From<Major> for String {
    fn from(m: Major) -> (r: String)
        ensures
            r@ == major_name(m),
    {
        m.name()
    }
}

impl vstd::std_specs::convert::FromSpecImpl<Major> for String {
    open spec fn obeys_from_spec() -> bool {
        false
    }

    open spec fn from_spec(m: Major) -> String {
        arbitrary()
    }
}

/// Text outside the recognized list is classified as `Other`, whose text
/// is the sentinel.
pub proof fn lemma_unrecognized_major(s: Seq<char>)
    requires
        !is_recognized_major(s),
    ensures
        major_from_text(s) == Major::Other,
        major_name(major_from_text(s)) == "Other"@,
{
}

/// The texts of the majors have pairwise different lengths.
proof fn lemma_major_name_lengths()
    ensures
        "CS"@.len() == 2,
        "Math"@.len() == 4,
        "Physics"@.len() == 7,
        "Economics"@.len() == 9,
        "Literature"@.len() == 10,
        "Other"@.len() == 5,
{
    reveal_strlit("CS");
    reveal_strlit("Math");
    reveal_strlit("Physics");
    reveal_strlit("Economics");
    reveal_strlit("Literature");
    reveal_strlit("Other");
}

/// Each recognized major is read back from its own text.
pub proof fn lemma_major_name_round_trip(m: Major)
    requires
        m != Major::Other,
    ensures
        major_from_text(major_name(m)) == m,
{
    lemma_major_name_lengths();
}

/// Every major, the sentinel included, is read back from its own text.
pub proof fn lemma_major_name_round_trip_all(m: Major)
    ensures
        major_from_text(major_name(m)) == m,
{
    lemma_major_name_lengths();
}

} // verus!
