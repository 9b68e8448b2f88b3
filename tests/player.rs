use orbit_sim::player::{input_keyboard, Key, PlayerMotion, TestPlugin, SPRINT_SPEED, WALK_SPEED};

#[test]
fn player_starts_at_origin_walking() {
    let p = PlayerMotion::new();
    assert_eq!(p, PlayerMotion { x: 0, y: 0, speed: 2 });
    assert_eq!(WALK_SPEED, 2);
    assert_eq!(SPRINT_SPEED, 5);
    let plugin = TestPlugin;
    assert_eq!(plugin, TestPlugin);
}

#[test]
fn wasd_move_by_one_and_a_half_speed() {
    let mut p = PlayerMotion::new();
    p.press(Key::W);
    assert_eq!((p.x, p.y), (0, 6));
    p.press(Key::D);
    assert_eq!((p.x, p.y), (6, 6));
    p.press(Key::S);
    p.press(Key::S);
    assert_eq!((p.x, p.y), (6, -6));
    p.press(Key::A);
    assert_eq!((p.x, p.y), (0, -6));
    p.press(Key::Other);
    assert_eq!(p, PlayerMotion { x: 0, y: -6, speed: 2 });
}

#[test]
fn shift_sprints_until_released() {
    let mut p = PlayerMotion::new();
    input_keyboard(&mut p, &vec![Key::ShiftLeft, Key::D], &vec![]);
    assert_eq!(p, PlayerMotion { x: 15, y: 0, speed: 5 });
    input_keyboard(&mut p, &vec![Key::D], &vec![Key::ShiftLeft]);
    assert_eq!(p, PlayerMotion { x: 30, y: 0, speed: 2 });
    input_keyboard(&mut p, &vec![Key::D], &vec![]);
    assert_eq!(p, PlayerMotion { x: 36, y: 0, speed: 2 });
}

#[test]
fn keys_act_in_the_order_given() {
    let mut first = PlayerMotion::new();
    input_keyboard(&mut first, &vec![Key::W, Key::ShiftLeft], &vec![]);
    assert_eq!(first, PlayerMotion { x: 0, y: 6, speed: 5 });
    let mut second = PlayerMotion::new();
    input_keyboard(&mut second, &vec![Key::ShiftLeft, Key::W], &vec![]);
    assert_eq!(second, PlayerMotion { x: 0, y: 15, speed: 5 });
}

#[test]
fn releasing_other_keys_changes_nothing() {
    let mut p = PlayerMotion { x: 3, y: 4, speed: 5 };
    p.release(Key::W);
    p.release(Key::Other);
    assert_eq!(p, PlayerMotion { x: 3, y: 4, speed: 5 });
}

#[test]
fn no_input_changes_nothing() {
    let mut p = PlayerMotion { x: -8, y: 9, speed: 5 };
    input_keyboard(&mut p, &vec![], &vec![]);
    assert_eq!(p, PlayerMotion { x: -8, y: 9, speed: 5 });
}

#[test]
fn movement_stops_at_the_edge_of_the_range() {
    let mut p = PlayerMotion { x: i64::MAX - 1, y: i64::MIN + 2, speed: 5 };
    p.press(Key::D);
    p.press(Key::S);
    assert_eq!((p.x, p.y), (i64::MAX, i64::MIN));
}
