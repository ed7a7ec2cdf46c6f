use vstd::prelude::*;

pub mod circle;
pub mod error;
pub mod fetch_circle;
pub mod member;
pub mod member_data;
pub mod port;
pub mod text;
pub mod value_object;

pub use circle::Circle;
pub use error::DomainError;
pub use fetch_circle::{FetchCircleInput, FetchCircleOutput, FetchCircleUsecase, MemberOutput};
pub use member::Member;
pub use member_data::MemberData;
pub use port::{CircleRepositoryPort, RepositoryError};
pub use value_object::{CircleId, Grade, Major, MemberId};

verus! {

} // verus!
