use navera::combat::{first_hit, resolve_laser_hits};

#[test]
fn no_lasers_no_hits() {
    assert_eq!(resolve_laser_hits(&vec![]), vec![]);
}

#[test]
fn laser_takes_first_enemy_it_overlaps() {
    let overlaps = vec![vec![false, true, true]];
    assert_eq!(resolve_laser_hits(&overlaps), vec![(0, 1)]);
}

#[test]
fn an_enemy_falls_to_one_laser_only() {
    let overlaps = vec![
        vec![true, true, false],
        vec![true, false, false],
        vec![true, true, true],
        vec![false, false, false],
    ];
    assert_eq!(resolve_laser_hits(&overlaps), vec![(0, 0), (2, 1)]);
}

#[test]
fn rows_of_different_lengths() {
    let overlaps = vec![vec![false], vec![true, true], vec![false, true, false, true]];
    assert_eq!(resolve_laser_hits(&overlaps), vec![(1, 0), (2, 1)]);
}

#[test]
fn first_laser_on_the_player_hits() {
    assert_eq!(first_hit(&vec![false, true, true]), Some(1));
    assert_eq!(first_hit(&vec![false, false]), None);
    assert_eq!(first_hit(&vec![]), None);
}
