use road_intersection::geometry::Rect;
use road_intersection::traffic_light::LightState;
use road_intersection::vehicle::{Color, Direction, Turn, Vehicle};

fn vehicle_at(x: i32, y: i32, direction: Direction, turn: Turn) -> Vehicle {
    let mut v = Vehicle::with_turn(direction, turn);
    v.rect.x = x;
    v.rect.y = y;
    v
}

#[test]
fn spawn_rect_and_color_per_direction() {
    let n = Vehicle::with_turn(Direction::North, Turn::Straight);
    assert_eq!(n.rect, Rect { x: 415, y: 800, w: 20, h: 40 });
    assert_eq!(n.color, Color { r: 180, g: 180, b: 200 });
    assert!(!n.has_turned);
    assert!(!n.in_intersection);

    let s = Vehicle::with_turn(Direction::South, Turn::Right);
    assert_eq!(s.rect, Rect { x: 365, y: -40, w: 20, h: 40 });
    assert_eq!(s.color, Color { r: 200, g: 60, b: 60 });

    let e = Vehicle::with_turn(Direction::East, Turn::Left);
    assert_eq!(e.rect, Rect { x: -40, y: 415, w: 40, h: 20 });
    assert_eq!(e.color, Color { r: 60, g: 100, b: 180 });

    let w = Vehicle::with_turn(Direction::West, Turn::Straight);
    assert_eq!(w.rect, Rect { x: 800, y: 365, w: 40, h: 20 });
}

#[test]
fn random_spawn_matches_its_maneuver() {
    for _ in 0..100 {
        let v = Vehicle::new(Direction::East);
        assert_eq!(v.rect, Rect { x: -40, y: 415, w: 40, h: 20 });
        assert_eq!(v.direction, Direction::East);
        let expected = match v.turn {
            Turn::Straight => Color { r: 180, g: 180, b: 200 },
            Turn::Right => Color { r: 200, g: 60, b: 60 },
            Turn::Left => Color { r: 60, g: 100, b: 180 },
        };
        assert_eq!(v.color, expected);
    }
}

#[test]
fn stop_at_red() {
    // A north-bound vehicle in the stop-line band before a red light does
    // not move at all.
    let mut v = vehicle_at(415, 430, Direction::North, Turn::Straight);
    let before = v.rect;
    v.update(LightState::Red);
    assert_eq!(v.rect, before);
    assert!(!v.has_turned);
    assert!(!v.in_intersection);
}

#[test]
fn red_light_halts_at_stop_line() {
    // Driven from spawn against a permanent red light, the vehicle advances
    // to the stop band and then holds position forever.
    let mut v = Vehicle::with_turn(Direction::North, Turn::Straight);
    for _ in 0..200 {
        v.update(LightState::Red);
    }
    assert_eq!(v.rect.y, 450);
    let before = v.rect;
    v.update(LightState::Red);
    assert_eq!(v.rect, before);
}

#[test]
fn green_light_enters_intersection() {
    let mut v = vehicle_at(415, 430, Direction::North, Turn::Straight);
    v.update(LightState::Green);
    assert!(v.in_intersection);
    assert_eq!(v.rect.y, 425);
    assert_eq!(v.rect.x, 415);
}

#[test]
fn flags_stay_latched() {
    let mut v = vehicle_at(415, 400, Direction::North, Turn::Straight);
    v.in_intersection = true;
    v.has_turned = true;
    for _ in 0..50 {
        v.update(LightState::Red);
        assert!(v.in_intersection);
        assert!(v.has_turned);
    }
}

#[test]
fn right_turn_swaps_sides_around_center() {
    // Covers the trigger point (420, 405) for a north-bound right turn.
    let mut v = vehicle_at(410, 390, Direction::North, Turn::Right);
    v.in_intersection = true;
    let center_before = v.rect.center();
    v.apply_turn();
    assert_eq!(v.direction, Direction::East);
    assert_eq!(v.rect, Rect { x: 400, y: 400, w: 40, h: 20 });
    assert_eq!(v.rect.center(), center_before);
}

#[test]
fn update_through_turn_trigger() {
    let mut v = vehicle_at(410, 390, Direction::North, Turn::Right);
    v.in_intersection = true;
    v.update(LightState::Green);
    assert!(v.has_turned);
    assert_eq!(v.direction, Direction::East);
    // Swapped to (400, 400, 40, 20), then one speed step east.
    assert_eq!(v.rect, Rect { x: 405, y: 400, w: 40, h: 20 });
}

#[test]
fn left_turn_remaps_direction() {
    let mut v = vehicle_at(420, 350, Direction::North, Turn::Left);
    v.in_intersection = true;
    // Rectangle covers the (425, 355) trigger.
    v.update(LightState::Green);
    assert!(v.has_turned);
    assert_eq!(v.direction, Direction::West);
    assert_eq!(v.rect.w, 40);
    assert_eq!(v.rect.h, 20);
}

#[test]
fn straight_maneuver_latches_flag_without_turning() {
    // A north-bound straight vehicle covering its trigger (425, 400) keeps
    // its heading and shape but latches has_turned.
    let mut v = vehicle_at(415, 400, Direction::North, Turn::Straight);
    v.in_intersection = true;
    v.update(LightState::Green);
    assert!(v.has_turned);
    assert_eq!(v.direction, Direction::North);
    assert_eq!(v.rect, Rect { x: 415, y: 395, w: 20, h: 40 });
}

#[test]
fn rect_overlap_is_strict() {
    let a = Rect::new(0, 0, 5, 5);
    assert!(a.has_intersection(&Rect::new(2, 2, 5, 5)));
    assert!(a.has_intersection(&a.clone()));
    // Rectangles that only share an edge do not overlap.
    assert!(!a.has_intersection(&Rect::new(5, 0, 5, 5)));
    assert!(!a.has_intersection(&Rect::new(0, 5, 5, 5)));
    assert!(!a.has_intersection(&Rect::new(6, 6, 2, 2)));
}
