use road_intersection::scheduler::{Lights, Scheduler};
use road_intersection::sim::run_frame;
use road_intersection::sim::{all_vehicles_well_formed, is_on_screen, retire, step_vehicles};
use road_intersection::traffic_light::LightState;
use road_intersection::vehicle::{Direction, Turn, Vehicle};

fn vehicle_at(x: i32, y: i32, direction: Direction, turn: Turn) -> Vehicle {
    let mut v = Vehicle::with_turn(direction, turn);
    v.rect.x = x;
    v.rect.y = y;
    v
}

fn all_green() -> Lights {
    let mut l = Lights::new();
    l.north.update(true);
    l.south.update(true);
    l.east.update(true);
    l.west.update(true);
    l
}

#[test]
fn empty_frame_is_a_no_op() {
    let mut vehicles: Vec<Vehicle> = Vec::new();
    let lights = all_green();
    step_vehicles(&mut vehicles, &lights);
    retire(&mut vehicles);
    assert!(vehicles.is_empty());
}

#[test]
fn close_follower_holds_position() {
    // Leader trailing edge at 240; follower leading edge at 260: the
    // tentative gap is 20 < 50, so the follower's move is discarded while
    // the leader's commits.
    let leader = vehicle_at(415, 200, Direction::North, Turn::Straight);
    let follower = vehicle_at(415, 260, Direction::North, Turn::Straight);
    let mut vehicles = vec![leader, follower];
    let lights = all_green();
    assert!(all_vehicles_well_formed(&vehicles));
    step_vehicles(&mut vehicles, &lights);
    assert_eq!(vehicles[0].rect.y, 195);
    assert_eq!(vehicles[1].rect.y, 260);
}

#[test]
fn distant_follower_moves() {
    let leader = vehicle_at(415, 200, Direction::North, Turn::Straight);
    let follower = vehicle_at(415, 300, Direction::North, Turn::Straight);
    let mut vehicles = vec![leader, follower];
    let lights = all_green();
    step_vehicles(&mut vehicles, &lights);
    assert_eq!(vehicles[0].rect.y, 195);
    assert_eq!(vehicles[1].rect.y, 295);
}

#[test]
fn overlapping_pair_outside_zone_is_frozen() {
    // Two same-lane rectangles that already overlap: neither is "ahead"
    // with a nonnegative gap, so the following check passes, but the
    // collision check rejects both tentative moves.
    let a = vehicle_at(415, 500, Direction::North, Turn::Straight);
    let b = vehicle_at(415, 530, Direction::North, Turn::Straight);
    let mut vehicles = vec![a, b];
    let lights = all_green();
    step_vehicles(&mut vehicles, &lights);
    assert_eq!(vehicles[0].rect.y, 500);
    assert_eq!(vehicles[1].rect.y, 530);
}

#[test]
fn intersection_pair_without_turns_is_skipped() {
    // Inside the zone with no completed turn the collision check
    // deliberately skips the pair, so both overlapping vehicles still move.
    // Both sit off their turn-trigger points, so neither turns this frame.
    let mut a = vehicle_at(415, 430, Direction::North, Turn::Straight);
    let mut b = vehicle_at(390, 430, Direction::East, Turn::Straight);
    a.in_intersection = true;
    b.in_intersection = true;
    let mut vehicles = vec![a, b];
    let lights = all_green();
    step_vehicles(&mut vehicles, &lights);
    assert_eq!(vehicles[0].rect.y, 425);
    assert_eq!(vehicles[1].rect.x, 395);
}

#[test]
fn retirement_prunes_far_offscreen() {
    let gone_north = vehicle_at(415, -60, Direction::North, Turn::Straight);
    let active = vehicle_at(415, 100, Direction::North, Turn::Straight);
    let gone_south = vehicle_at(365, 900, Direction::South, Turn::Straight);
    assert!(!is_on_screen(&gone_north));
    assert!(is_on_screen(&active));
    assert!(!is_on_screen(&gone_south));

    let mut vehicles = vec![gone_north, active, gone_south];
    retire(&mut vehicles);
    assert_eq!(vehicles.len(), 1);
    assert_eq!(vehicles[0].rect.y, 100);
}

#[test]
fn retirement_twice_is_idempotent() {
    let mut vehicles = vec![
        vehicle_at(415, -60, Direction::North, Turn::Straight),
        vehicle_at(415, 100, Direction::North, Turn::Straight),
        vehicle_at(365, 900, Direction::South, Turn::Straight),
        vehicle_at(790, 365, Direction::West, Turn::Left),
    ];
    retire(&mut vehicles);
    let after_first = vehicles.clone();
    retire(&mut vehicles);
    assert_eq!(vehicles, after_first);
}

#[test]
fn lone_straight_vehicle_crosses_and_retires() {
    // A lone north-bound vehicle with a permanent green light crosses the
    // whole board without changing direction, passes its straight trigger
    // (latching has_turned), and is eventually retired.
    let mut vehicles = vec![Vehicle::with_turn(Direction::North, Turn::Straight)];
    let lights = all_green();
    let mut frames = 0;
    let mut saw_turned = false;
    while !vehicles.is_empty() && frames < 400 {
        step_vehicles(&mut vehicles, &lights);
        for v in &vehicles {
            assert_eq!(v.direction, Direction::North);
            assert_eq!(v.turn, Turn::Straight);
            saw_turned = saw_turned || v.has_turned;
        }
        retire(&mut vehicles);
        frames += 1;
    }
    assert!(vehicles.is_empty());
    assert!(saw_turned);
    assert!(frames < 400);
}

#[test]
fn whole_frame_advances_lights_and_vehicles() {
    let mut scheduler = Scheduler::new();
    let mut lights = Lights::new();
    // One west-bound vehicle queued: the first frame rolls the phase over to
    // West, turns its governing (east-mounted) light green, and the vehicle
    // advances one speed step.
    let mut vehicles = vec![Vehicle::with_turn(Direction::West, Turn::Straight)];
    run_frame(&mut scheduler, &mut lights, &mut vehicles);
    assert_eq!(scheduler.green_timer, 77);
    assert_eq!(scheduler.current_light, 2);
    assert_eq!(lights.east.state, LightState::Green);
    assert_eq!(vehicles.len(), 1);
    assert_eq!(vehicles[0].rect.x, 795);
}
