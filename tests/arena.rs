use hexpong::arena::{first_contact, remove_lost, Obstacle};

#[test]
fn walls_come_before_paddles_and_blocks() {
    let r = first_contact(&vec![false, true, true], &vec![true], &vec![true]);
    assert_eq!(r, Some(Obstacle::Wall(1)));
}

#[test]
fn paddles_come_before_blocks() {
    let r = first_contact(&vec![false, false], &vec![false, false, true], &vec![true, true]);
    assert_eq!(r, Some(Obstacle::Bar(2)));
}

#[test]
fn first_block_touched_wins() {
    let r = first_contact(&vec![], &vec![false], &vec![false, true, true]);
    assert_eq!(r, Some(Obstacle::Block(1)));
}

#[test]
fn nothing_touched_means_no_contact() {
    assert_eq!(first_contact(&vec![false], &vec![], &vec![false, false]), None);
    assert_eq!(first_contact(&vec![], &vec![], &vec![]), None);
}

#[test]
fn lost_balls_leave_and_the_rest_keep_order() {
    let mut balls = vec!["a", "b", "c", "d"];
    let respawn = remove_lost(&mut balls, &vec![false, true, false, true]);
    assert_eq!(balls, vec!["a", "c"]);
    assert!(!respawn);
}

#[test]
fn losing_every_ball_asks_for_a_new_one() {
    let mut balls = vec![1u8, 2u8];
    assert!(remove_lost(&mut balls, &vec![true, true]));
    assert!(balls.is_empty());
    let mut none: Vec<u8> = Vec::new();
    assert!(remove_lost(&mut none, &vec![]));
}
