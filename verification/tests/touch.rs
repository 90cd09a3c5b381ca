use mctk::touch::TouchPoints;

#[test]
fn lifted_finger_reports_where_it_came_down() {
    let mut t: TouchPoints<(i32, i32)> = TouchPoints::new();
    t.down(3, (10, 20));
    assert_eq!(t.up(3), Some((10, 20)));
    // It is gone now.
    assert_eq!(t.up(3), None);
}

#[test]
fn lifted_finger_reports_where_it_moved() {
    let mut t: TouchPoints<(i32, i32)> = TouchPoints::new();
    t.down(1, (0, 0));
    assert!(t.motion(1, (5, 6)));
    assert_eq!(t.up(1), Some((5, 6)));
}

#[test]
fn unknown_fingers_neither_move_nor_lift() {
    let mut t: TouchPoints<(i32, i32)> = TouchPoints::new();
    t.down(1, (0, 0));
    assert!(!t.motion(2, (5, 6)));
    assert_eq!(t.up(2), None);
    assert_eq!(t.up(1), Some((0, 0)));
}

#[test]
fn finger_down_again_replaces_its_position() {
    let mut t: TouchPoints<(i32, i32)> = TouchPoints::new();
    t.down(1, (0, 0));
    t.down(1, (7, 7));
    assert_eq!(t.up(1), Some((7, 7)));
    assert_eq!(t.up(1), None);
}

#[test]
fn cancel_lets_go_of_every_finger_once() {
    let mut t: TouchPoints<(i32, i32)> = TouchPoints::new();
    t.down(1, (1, 1));
    t.down(2, (2, 2));
    t.down(3, (3, 3));
    assert!(t.motion(2, (20, 20)));
    let mut cancelled = t.cancel();
    cancelled.sort();
    assert_eq!(cancelled, vec![(1, (1, 1)), (2, (20, 20)), (3, (3, 3))]);
    assert_eq!(t.cancel(), vec![]);
    assert_eq!(t.up(1), None);
}
