use navera::formation::{FormationMaker, FORMATION_MEMBERS_MAX};

#[test]
fn first_make_draws_a_template() {
    let mut maker: FormationMaker<u32> = FormationMaker::new();
    assert_eq!(maker.make(|| 7), 7);
}

#[test]
fn template_is_shared_by_a_full_group() {
    let mut maker: FormationMaker<u32> = FormationMaker::default();
    let mut next: u32 = 0;
    let mut got = Vec::new();
    for _ in 0..5 {
        next += 1;
        let n = next;
        got.push(maker.make(move || n * 10));
    }
    assert_eq!(FORMATION_MEMBERS_MAX, 2);
    assert_eq!(got, vec![10, 10, 30, 30, 50]);
}

#[test]
fn fresh_is_not_called_while_group_has_room() {
    let mut maker: FormationMaker<(i32, i32)> = FormationMaker::new();
    assert_eq!(maker.make(|| (1, 2)), (1, 2));
    assert_eq!(maker.make(|| panic!("template should be reused")), (1, 2));
}
