use navera::enemy::{enemy_spawn, EnemyCount, ENEMY_MAX};
use navera::formation::FormationMaker;

#[test]
fn spawns_until_the_budget_is_full() {
    let mut count = EnemyCount::new();
    let mut maker: FormationMaker<u32> = FormationMaker::new();
    let mut spawned = Vec::new();
    for i in 0..6u32 {
        spawned.push(enemy_spawn(&mut count, &mut maker, move || i));
    }
    assert_eq!(ENEMY_MAX, 4);
    assert_eq!(spawned, vec![Some(0), Some(0), Some(2), Some(2), None, None]);
    assert_eq!(count.0, 4);
}

#[test]
fn destroyed_enemies_free_the_budget() {
    let mut count = EnemyCount(4);
    let mut maker: FormationMaker<u32> = FormationMaker::new();
    assert_eq!(enemy_spawn(&mut count, &mut maker, || 1), None);
    count.remove(2);
    assert_eq!(count.0, 2);
    assert_eq!(enemy_spawn(&mut count, &mut maker, || 9), Some(9));
    assert_eq!(count.0, 3);
}
