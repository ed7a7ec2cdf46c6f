use circle_roster::{Circle, CircleId, DomainError, Grade, Major, Member, MemberId};

fn member(id: i32, name: &str) -> Member {
    Member::reconstruct(MemberId::from(id), name.to_string(), 20, Grade::First, Major::Mathematics)
}

#[test]
fn new_circle_starts_with_empty_roster() {
    let c = Circle::new(CircleId::new(1), "Go".to_string(), 2, member(1, "Owner")).unwrap();
    assert_eq!(c.id(), CircleId::new(1));
    assert_eq!(c.name(), "Go");
    assert_eq!(c.capacity(), 2);
    assert_eq!(c.owner().id, MemberId::from(1));
    assert!(c.members().is_empty());
}

#[test]
fn zero_capacity_is_rejected() {
    assert_eq!(
        Circle::new(CircleId::new(1), "Go".to_string(), 0, member(1, "Owner")),
        Err(DomainError::InvalidCapacity)
    );
}

#[test]
fn add_member_at_capacity_fails_and_keeps_roster() {
    let mut c = Circle::new(CircleId::new(1), "Go".to_string(), 2, member(1, "Owner")).unwrap();
    assert_eq!(c.add_member(member(2, "A")), Ok(()));
    assert_eq!(c.add_member(member(3, "B")), Ok(()));
    let before = c.clone();
    assert_eq!(c.add_member(member(4, "C")), Err(DomainError::CapacityExceeded));
    assert_eq!(c.members().len(), 2);
    assert_eq!(c, before);
}

#[test]
fn owner_does_not_count_against_capacity() {
    let mut c = Circle::new(CircleId::new(1), "Go".to_string(), 1, member(1, "Owner")).unwrap();
    assert_eq!(c.add_member(member(2, "A")), Ok(()));
    assert_eq!(c.members().len(), 1);
    assert_eq!(c.add_member(member(3, "B")), Err(DomainError::CapacityExceeded));
}

#[test]
fn duplicate_identity_is_rejected() {
    let mut c = Circle::new(CircleId::new(1), "Go".to_string(), 3, member(1, "Owner")).unwrap();
    assert_eq!(c.add_member(member(1, "Twin")), Err(DomainError::DuplicateMember));
    assert_eq!(c.add_member(member(2, "A")), Ok(()));
    assert_eq!(c.add_member(member(2, "A again")), Err(DomainError::DuplicateMember));
    assert_eq!(c.members().len(), 1);
}

#[test]
fn remove_member_keeps_order() {
    let mut c = Circle::new(CircleId::new(1), "Go".to_string(), 3, member(1, "Owner")).unwrap();
    c.add_member(member(2, "A")).unwrap();
    c.add_member(member(3, "B")).unwrap();
    c.add_member(member(4, "C")).unwrap();
    let removed = c.remove_member(MemberId::from(3)).unwrap();
    assert_eq!(removed.name, "B");
    let ids: Vec<MemberId> = c.members().iter().map(|m| m.id).collect();
    assert_eq!(ids, vec![MemberId::from(2), MemberId::from(4)]);
}

#[test]
fn remove_errors() {
    let mut c = Circle::new(CircleId::new(1), "Go".to_string(), 3, member(1, "Owner")).unwrap();
    c.add_member(member(2, "A")).unwrap();
    assert_eq!(c.remove_member(MemberId::from(1)), Err(DomainError::OwnerNotRemovable));
    assert_eq!(c.remove_member(MemberId::from(9)), Err(DomainError::MemberNotFound));
    assert_eq!(c.members().len(), 1);
}

#[test]
fn reconstruct_validates_roster() {
    let ok = Circle::reconstruct(CircleId::new(2), "Chess".to_string(), 2, member(1, "O"), vec![member(2, "A"), member(3, "B")]);
    assert!(ok.is_ok());
    assert_eq!(
        Circle::reconstruct(CircleId::new(2), "Chess".to_string(), 1, member(1, "O"), vec![member(2, "A"), member(3, "B")]),
        Err(DomainError::CapacityExceeded)
    );
    assert_eq!(
        Circle::reconstruct(CircleId::new(2), "Chess".to_string(), 3, member(1, "O"), vec![member(2, "A"), member(2, "B")]),
        Err(DomainError::DuplicateMember)
    );
    assert_eq!(
        Circle::reconstruct(CircleId::new(2), "Chess".to_string(), 3, member(1, "O"), vec![member(1, "A")]),
        Err(DomainError::DuplicateMember)
    );
    assert_eq!(
        Circle::reconstruct(CircleId::new(2), "Chess".to_string(), 0, member(1, "O"), vec![]),
        Err(DomainError::InvalidCapacity)
    );
}

#[test]
fn position_of_finds_roster_member() {
    let c = Circle::reconstruct(CircleId::new(2), "Chess".to_string(), 2, member(1, "O"), vec![member(2, "A"), member(3, "B")]).unwrap();
    assert_eq!(c.position_of(MemberId::from(3)), Some(1));
    assert_eq!(c.position_of(MemberId::from(1)), None);
}
