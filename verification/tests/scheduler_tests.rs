use road_intersection::scheduler::{get_timer, Lights, Scheduler};
use road_intersection::geometry::Rect;
use road_intersection::spawn::{is_safe_to_spawn, try_spawn, SpawnTimes};
use road_intersection::traffic_light::LightState;
use road_intersection::vehicle::{Direction, Turn, Vehicle};

fn vehicle_at(x: i32, y: i32, direction: Direction, turn: Turn) -> Vehicle {
    let mut v = Vehicle::with_turn(direction, turn);
    v.rect.x = x;
    v.rect.y = y;
    v
}

fn green_count(l: &Lights) -> usize {
    [l.north.state, l.south.state, l.east.state, l.west.state]
        .iter()
        .filter(|s| **s == LightState::Green)
        .count()
}

#[test]
fn timer_is_demand_proportional() {
    let d = Direction::West;
    let mut vehicles = Vec::new();
    assert_eq!(get_timer(&vehicles, d), 0);

    vehicles.push(Vehicle::with_turn(Direction::West, Turn::Straight));
    assert_eq!(get_timer(&vehicles, d), 77);

    vehicles.push(vehicle_at(700, 365, Direction::West, Turn::Straight));
    assert_eq!(get_timer(&vehicles, d), 155);

    // A vehicle already inside the intersection is not queued.
    let mut inside = vehicle_at(400, 365, Direction::West, Turn::Straight);
    inside.in_intersection = true;
    vehicles.push(inside);
    assert_eq!(get_timer(&vehicles, d), 155);

    // Nor is one that has completed its turn, nor one on another approach.
    let mut turned = vehicle_at(600, 365, Direction::West, Turn::Straight);
    turned.has_turned = true;
    vehicles.push(turned);
    vehicles.push(Vehicle::with_turn(Direction::North, Turn::Straight));
    assert_eq!(get_timer(&vehicles, d), 155);
}

#[test]
fn phase_skip_with_zero_demand() {
    // The initial budget is exhausted immediately; the incoming West phase
    // has no demand, so no light turns green and the cycle advances.
    let mut sched = Scheduler::new();
    let mut lights = Lights::new();
    let vehicles: Vec<Vehicle> = Vec::new();
    assert_eq!(sched.current_light, 1);
    sched.tick(&mut lights, &vehicles);
    assert_eq!(sched.current_light, 2);
    assert_eq!(sched.green_timer, 0);
    assert_eq!(green_count(&lights), 0);
}

#[test]
fn demand_turns_governing_light_green() {
    let mut sched = Scheduler::new();
    let mut lights = Lights::new();
    // Two vehicles genuinely queued west-bound: the incoming phase (index 1)
    // favors West, whose governing light is mounted on the east side.
    let vehicles = vec![
        Vehicle::with_turn(Direction::West, Turn::Straight),
        vehicle_at(700, 365, Direction::West, Turn::Straight),
    ];
    sched.tick(&mut lights, &vehicles);
    assert_eq!(sched.green_timer, 155);
    assert_eq!(sched.n, 0);
    assert_eq!(sched.current_light, 2);
    assert_eq!(lights.east.state, LightState::Green);
    assert_eq!(lights.north.state, LightState::Red);
    assert_eq!(lights.south.state, LightState::Red);
    assert_eq!(lights.west.state, LightState::Red);
}

#[test]
fn quiet_frames_leave_lights_alone() {
    let mut sched = Scheduler::new();
    let mut lights = Lights::new();
    let vehicles = vec![Vehicle::with_turn(Direction::West, Turn::Straight)];
    sched.tick(&mut lights, &vehicles);
    let lights_after_rollover = lights;
    // 77 frames of budget: the next 76 ticks only count.
    for _ in 0..76 {
        sched.tick(&mut lights, &vehicles);
        assert_eq!(lights, lights_after_rollover);
    }
    assert_eq!(sched.n, 76);
}

#[test]
fn at_most_one_light_green_forever() {
    let mut sched = Scheduler::new();
    let mut lights = Lights::new();
    let vehicles = vec![
        Vehicle::with_turn(Direction::West, Turn::Straight),
        Vehicle::with_turn(Direction::North, Turn::Straight),
        vehicle_at(415, 600, Direction::North, Turn::Left),
        Vehicle::with_turn(Direction::East, Turn::Right),
    ];
    assert_eq!(green_count(&lights), 1);
    for _ in 0..2000 {
        sched.tick(&mut lights, &vehicles);
        assert!(green_count(&lights) <= 1);
    }
}

#[test]
fn spawn_rejected_on_next_frame() {
    // One vehicle sits at the North spawn rectangle, accepted at frame 10;
    // a second request one frame later is inside the cooldown and rejected.
    let vehicles = vec![Vehicle::with_turn(Direction::North, Turn::Straight)];
    let mut times = SpawnTimes::new();
    times.set(Direction::North, 10);
    assert!(!is_safe_to_spawn(&vehicles, Direction::North, &times, 11));
}

#[test]
fn spawn_rejected_by_proximity() {
    // Cooldown long elapsed, but a north-bound vehicle's leading (top) edge
    // sits 30 px from the spawn point: rejected.
    let vehicles = vec![vehicle_at(415, 730, Direction::North, Turn::Straight)];
    let times = SpawnTimes::new();
    assert!(!is_safe_to_spawn(&vehicles, Direction::North, &times, 1000));
}

#[test]
fn spawn_accepted_when_lane_is_clear() {
    let vehicles = vec![vehicle_at(415, 300, Direction::North, Turn::Straight)];
    let times = SpawnTimes::new();
    assert!(is_safe_to_spawn(&vehicles, Direction::North, &times, 1000));
    // A fresh spawn far up the lane does not block another approach.
    assert!(is_safe_to_spawn(&vehicles, Direction::East, &times, 1000));
}

#[test]
fn try_spawn_appends_and_records() {
    let mut vehicles = vec![vehicle_at(415, 300, Direction::North, Turn::Straight)];
    let mut times = SpawnTimes::new();
    assert!(try_spawn(&mut vehicles, Direction::North, &mut times, 100));
    assert_eq!(vehicles.len(), 2);
    assert_eq!(vehicles[1].rect, Rect { x: 415, y: 800, w: 20, h: 40 });
    assert_eq!(vehicles[1].direction, Direction::North);
    assert_eq!(times.north, 100);
    assert_eq!(times.south, 0);

    // Within the cooldown the request is refused and nothing changes.
    assert!(!try_spawn(&mut vehicles, Direction::North, &mut times, 101));
    assert_eq!(vehicles.len(), 2);
    assert_eq!(times.north, 100);
}
