use roguelike_engine::momentum::{Momentum, Movement, Rect};
use roguelike_engine::types::{floor_sqrt, Direction, MoveAction, Position, Reach};

#[test]
fn position_distance_rounds_down() {
    let a = Position::new(0, 0);
    assert_eq!(a.distance(&Position::new(3, 4)), 5);
    assert_eq!(a.distance(&Position::new(1, 1)), 1);
    assert_eq!(a.distance(&Position::new(2, 2)), 2);
    assert_eq!(a.distance(&Position::new(-7, 0)), 7);
    assert_eq!(a.distance(&a), 0);
}

#[test]
fn floor_sqrt_exact_values() {
    assert_eq!(floor_sqrt(0), 0);
    assert_eq!(floor_sqrt(1), 1);
    assert_eq!(floor_sqrt(24), 4);
    assert_eq!(floor_sqrt(25), 5);
    assert_eq!(floor_sqrt(u32::MAX), 65535);
}

#[test]
fn position_arithmetic() {
    let p = Position::from_pair((2, 3));
    assert_eq!(p.pair(), (2, 3));
    assert_eq!(p.into_pair(), (2, 3));
    assert_eq!(p.move_by(1, -1), Position(3, 2));
    assert_eq!(p.move_x(-2), Position(0, 3));
    assert_eq!(p.move_y(4), Position(2, 7));
    assert_eq!(p.add(Position(10, 20)), Position(12, 23));
}

#[test]
fn move_action_offsets() {
    assert_eq!(MoveAction::Left.into_move(), (-1, 0));
    assert_eq!(MoveAction::UpRight.into_move(), (1, -1));
    assert_eq!(MoveAction::Center.into_move(), (0, 0));
    assert_eq!(MoveAction::move_actions().len(), 9);
    assert_eq!(MoveAction::move_actions()[8], MoveAction::Center);
    assert_eq!(MoveAction::from_direction(Direction::Down), MoveAction::Down);
    assert_eq!(Direction::from_delta(-3, 3), Some(Direction::DownLeft));
    assert_eq!(Direction::from_delta(0, 0), None);
}

#[test]
fn reach_single_allows_every_direction() {
    let r = Reach::Single(2);
    assert_eq!(r.move_with_reach(&MoveAction::Left), Some(Position(-2, 0)));
    assert_eq!(r.move_with_reach(&MoveAction::DownRight), Some(Position(2, 2)));
    assert_eq!(r.move_with_reach(&MoveAction::Center), Some(Position(0, 0)));
}

#[test]
fn reach_diag_and_horiz_restrict_directions() {
    assert_eq!(Reach::Diag(1).move_with_reach(&MoveAction::Left), None);
    assert_eq!(Reach::Diag(1).move_with_reach(&MoveAction::UpLeft), Some(Position(-1, -1)));
    assert_eq!(Reach::Diag(1).move_with_reach(&MoveAction::Center), None);
    assert_eq!(Reach::Horiz(3).move_with_reach(&MoveAction::Up), Some(Position(0, -3)));
    assert_eq!(Reach::Horiz(3).move_with_reach(&MoveAction::UpLeft), None);
    assert_eq!(Reach::Horiz(3).move_with_reach(&MoveAction::Center), None);
}

#[test]
fn reach_offsets_cover_every_distance() {
    let single = Reach::Single(1).offsets();
    assert_eq!(
        single,
        vec![
            Position(0, 1),
            Position(-1, 1),
            Position(-1, 0),
            Position(-1, -1),
            Position(0, -1),
            Position(1, -1),
            Position(1, 0),
            Position(1, 1)
        ]
    );
    let horiz = Reach::Horiz(2).offsets();
    assert_eq!(
        horiz,
        vec![
            Position(1, 0),
            Position(0, 1),
            Position(-1, 0),
            Position(0, -1),
            Position(2, 0),
            Position(0, 2),
            Position(-2, 0),
            Position(0, -2)
        ]
    );
    let diag = Reach::Diag(1).offsets();
    assert_eq!(diag, vec![Position(1, 1), Position(-1, 1), Position(1, -1), Position(-1, -1)]);
    assert_eq!(Reach::Single(3).offsets().len(), 24);
    assert_eq!(Reach::Diag(0).offsets().len(), 0);
}

#[test]
fn momentum_builds_up_to_the_limit() {
    let mut m = Momentum::default();
    assert_eq!(m.max, 2);
    assert!(!m.running());
    m.moved(1, 0);
    assert_eq!((m.mx, m.my), (1, 0));
    m.moved(5, 0);
    assert_eq!((m.mx, m.my), (2, 0));
    m.moved(1, 0);
    assert_eq!((m.mx, m.my), (2, 0));
    assert_eq!(m.magnitude(), 2);
    assert!(m.running());
    assert!(!m.diagonal());
}

#[test]
fn momentum_is_lost_on_turning_back() {
    let mut m = Momentum::default();
    m.moved(1, 1);
    assert!(m.diagonal());
    m.moved(-1, 1);
    assert_eq!((m.mx, m.my), (0, 2));
    m.moved(0, 0);
    assert_eq!((m.mx, m.my), (0, 0));
}

#[test]
fn momentum_stays_within_its_limit() {
    let mut m = Momentum { mx: 7, my: -9, took_half_turn: false, max: 3 };
    m.moved(1, -1);
    assert!(m.mx.abs() <= m.max && m.my.abs() <= m.max);
    assert_eq!((m.mx, m.my), (3, -3));
    m.set_momentum(1, -2);
    assert_eq!((m.mx, m.my), (1, -2));
    m.clear();
    assert_eq!((m.mx, m.my), (0, 0));
}

#[test]
fn momentum_at_the_end_of_the_machine_range() {
    let mut m = Momentum { mx: i32::MAX, my: i32::MIN + 1, took_half_turn: true, max: i32::MAX };
    m.moved(0, 0);
    assert_eq!((m.mx, m.my, m.max, m.took_half_turn), (0, 0, i32::MAX, true));
    let mut n = Momentum { mx: i32::MAX, my: i32::MIN, took_half_turn: false, max: i32::MAX };
    n.moved(1, -1);
    assert_eq!((n.mx, n.my), (i32::MAX, -i32::MAX));
    let mut o = Momentum { mx: i32::MAX, my: i32::MIN, took_half_turn: false, max: 0 };
    o.moved(7, -7);
    assert_eq!((o.mx, o.my), (0, 0));
    let mut p = Momentum { mx: i32::MAX, my: -5, took_half_turn: false, max: 3 };
    p.moved(-1, 1);
    assert_eq!((p.mx, p.my), (0, 0));
}

#[test]
fn movement_end_tile() {
    assert_eq!(Movement::Move(1, 2).xy(), (1, 2));
    assert_eq!(Movement::Attack(3, 4, 7).xy(), (3, 4));
    assert_eq!(Movement::Collide(5, 6).xy(), (5, 6));
    assert_eq!(Movement::WallKick(7, 8, 1, 0).xy(), (7, 8));
    assert_eq!(Movement::JumpWall(9, 10).xy(), (9, 10));
}

#[test]
fn rect_center_and_intersection() {
    let r = Rect::new(2, 3, 4, 6);
    assert_eq!((r.x1, r.y1, r.x2, r.y2), (2, 3, 6, 9));
    assert_eq!(r.center(), (4, 6));
    assert_eq!(Rect::new(-3, -3, 0, 0).center(), (-3, -3));
    assert_eq!(Rect::new(-3, 0, 2, 1).center(), (-2, 0));
    assert!(r.intersects_with(&Rect::new(6, 9, 1, 1)));
    assert!(!r.intersects_with(&Rect::new(7, 3, 1, 1)));
}
