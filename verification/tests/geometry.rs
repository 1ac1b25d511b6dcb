use snake_game::direction::Direction;
use snake_game::points::Point;

#[test]
fn opposite_pairs() {
    assert_eq!(Direction::Up.opposite(), Direction::Down);
    assert_eq!(Direction::Down.opposite(), Direction::Up);
    assert_eq!(Direction::Right.opposite(), Direction::Left);
    assert_eq!(Direction::Left.opposite(), Direction::Right);
}

#[test]
fn opposite_is_involutive_and_never_fixed() {
    let all = [Direction::Up, Direction::Right, Direction::Down, Direction::Left];
    for d in all {
        assert_eq!(d.opposite().opposite(), d);
        assert_ne!(d.opposite(), d);
    }
}

#[test]
fn transform_moves_along_each_direction() {
    let p = Point::new(5, 5);
    assert_eq!(p.transform(Direction::Up, 2), Point::new(5, 3));
    assert_eq!(p.transform(Direction::Down, 2), Point::new(5, 7));
    assert_eq!(p.transform(Direction::Right, 3), Point::new(8, 5));
    assert_eq!(p.transform(Direction::Left, 3), Point::new(2, 5));
}

#[test]
fn transform_round_trip_returns_start() {
    let p = Point::new(5, 5);
    let all = [Direction::Up, Direction::Right, Direction::Down, Direction::Left];
    for d in all {
        let out = p.transform(d, 4);
        assert_eq!(out.transform(d.opposite(), 4), p);
    }
}

#[test]
fn transform_unit_steps_compose() {
    let p = Point::new(5, 5);
    let stepped = p
        .transform(Direction::Up, 1)
        .transform(Direction::Up, 1)
        .transform(Direction::Up, 1);
    assert_eq!(stepped, p.transform(Direction::Up, 3));
    let back = stepped
        .transform(Direction::Down, 1)
        .transform(Direction::Down, 1)
        .transform(Direction::Down, 1);
    assert_eq!(back, p);
}

#[test]
fn checked_transform_rejects_negative_results() {
    let p = Point::new(5, 5);
    assert_eq!(p.checked_transform(Direction::Up, 6), None);
    assert_eq!(p.checked_transform(Direction::Left, 6), None);
    assert_eq!(p.checked_transform(Direction::Up, 100), None);
    let origin = Point::new(0, 0);
    assert_eq!(origin.checked_transform(Direction::Up, 1), None);
    assert_eq!(origin.checked_transform(Direction::Left, 1), None);
}

#[test]
fn checked_transform_allows_moves_to_zero() {
    let p = Point::new(5, 5);
    assert_eq!(p.checked_transform(Direction::Up, 5), Some(Point::new(5, 0)));
    assert_eq!(p.checked_transform(Direction::Left, 5), Some(Point::new(0, 5)));
}

#[test]
fn checked_transform_rejects_overflow() {
    let p = Point::new(u16::MAX - 1, 5);
    assert_eq!(p.checked_transform(Direction::Right, 2), None);
    assert_eq!(p.checked_transform(Direction::Right, 1), Some(Point::new(u16::MAX, 5)));
}
