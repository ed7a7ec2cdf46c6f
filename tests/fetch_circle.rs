use circle_roster::{
    Circle, CircleId, CircleRepositoryPort, FetchCircleInput, FetchCircleOutput, FetchCircleUsecase, Grade, Major,
    Member, MemberData, MemberId, MemberOutput, RepositoryError,
};

struct StoredCircles {
    circles: Vec<Circle>,
}

impl CircleRepositoryPort for StoredCircles {
    fn find_circle_by_id(&self, circle_id: &CircleId) -> Result<Circle, RepositoryError> {
        self.circles
            .iter()
            .find(|c| c.id() == *circle_id)
            .cloned()
            .ok_or(RepositoryError::NotFound(*circle_id))
    }

    fn save(&mut self, circle: Circle) -> Result<(), RepositoryError> {
        self.circles.retain(|c| c.id() != circle.id());
        self.circles.push(circle);
        Ok(())
    }
}

fn chess_club() -> Circle {
    let owner = Member::try_from(MemberData {
        id: 10,
        name: "Ann".to_string(),
        age: 20,
        grade: 2,
        major: "CS".to_string(),
    })
    .unwrap();
    let bo = Member::try_from(MemberData {
        id: 11,
        name: "Bo".to_string(),
        age: 21,
        grade: 3,
        major: "Math".to_string(),
    })
    .unwrap();
    Circle::reconstruct(CircleId::new(1), "Chess Club".to_string(), 3, owner, vec![bo]).unwrap()
}

#[test]
fn fetch_stored_circle_end_to_end() {
    let usecase = FetchCircleUsecase::new(StoredCircles { circles: vec![chess_club()] });
    let out = usecase.execute(FetchCircleInput::new(1)).unwrap();
    assert_eq!(out.circle_id, 1);
    assert_eq!(out.circle_name, "Chess Club");
    assert_eq!(out.capacity, 3);
    assert_eq!(
        out.owner,
        MemberOutput { id: 10, name: "Ann".to_string(), age: 20, grade: 2, major: "CS".to_string() }
    );
    assert_eq!(
        out.members,
        vec![MemberOutput { id: 11, name: "Bo".to_string(), age: 21, grade: 3, major: "Math".to_string() }]
    );
}

#[test]
fn fetch_missing_circle_returns_not_found() {
    let usecase = FetchCircleUsecase::new(StoredCircles { circles: vec![chess_club()] });
    assert_eq!(usecase.execute(FetchCircleInput::new(2)), Err(RepositoryError::NotFound(CircleId::new(2))));
}

#[test]
fn fetch_after_save() {
    let mut store = StoredCircles { circles: vec![] };
    store.save(chess_club()).unwrap();
    let usecase = FetchCircleUsecase::new(store);
    assert_eq!(usecase.execute(FetchCircleInput::new(1)).unwrap().members.len(), 1);
}

#[test]
fn lookup_failure_is_handed_on() {
    let e = RepositoryError::Backend("disk offline".to_string());
    assert_eq!(FetchCircleOutput::from_lookup(Err(e.clone())), Err(e));
}

#[test]
fn member_output_widens_fields() {
    let m = Member::reconstruct(MemberId::from(7), "Gus".to_string(), 23, Grade::Fourth, Major::Other);
    let o = MemberOutput::from_member(&m);
    assert_eq!(o, MemberOutput { id: 7, name: "Gus".to_string(), age: 23, grade: 4, major: "Other".to_string() });
}

#[test]
fn circle_output_keeps_roster_order() {
    let mut c = chess_club();
    c.add_member(Member::reconstruct(MemberId::from(12), "Cy".to_string(), 19, Grade::First, Major::Physics)).unwrap();
    let out = FetchCircleOutput::from_circle(&c);
    let ids: Vec<usize> = out.members.iter().map(|m| m.id).collect();
    assert_eq!(ids, vec![11, 12]);
    assert_eq!(out.members[1].major, "Physics");
}

#[test]
fn rejected_add_at_capacity_leaves_fetched_roster() {
    let mut full = Circle::new(CircleId::new(5), "Go".to_string(), 1, Member::reconstruct(MemberId::from(1), "O".to_string(), 30, Grade::Fourth, Major::Economics)).unwrap();
    full.add_member(Member::reconstruct(MemberId::from(2), "A".to_string(), 20, Grade::First, Major::Literature)).unwrap();
    let late = Member::reconstruct(MemberId::from(3), "B".to_string(), 20, Grade::First, Major::Literature);
    assert_eq!(full.add_member(late), Err(circle_roster::DomainError::CapacityExceeded));
    let mut store = StoredCircles { circles: vec![] };
    store.save(full).unwrap();
    let out = FetchCircleUsecase::new(store).execute(FetchCircleInput::new(5)).unwrap();
    assert_eq!(out.members.len(), 1);
    assert!(out.members.iter().all(|m| m.id != 3));
}
