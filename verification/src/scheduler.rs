//! Round-robin traffic-light phase control with demand-proportional green
//! time.
//!
//! The four phases favor South-, West-, North- and East-bound traffic in
//! turn.  When the current phase's frame budget runs out, the scheduler
//! counts the vehicles genuinely queued for the incoming phase's direction,
//! gives that phase a green duration proportional to the count, switches
//! every light red and — only when the count is nonzero — the incoming
//! phase's governing light green.  A phase with zero demand is skipped with
//! all lights red, so an empty approach never wastes green time.

use vstd::prelude::*;
use crate::geometry::Rect;
use crate::traffic_light::{LightState, TrafficLight};
use crate::vehicle::{Direction, Vehicle};
use crate::{GREEN_WEIGHT_CENTI, GREEN_SCALE, SAFE_DISTANCE, SINGLE_ROAD_PART, VEHICLE_LENGTH};

verus! {

/// The four lights, one mounted on each side of the junction.  The light
/// mounted on side `D` governs vehicles traveling toward `D`'s opposite:
/// `north` governs south-bound traffic, and so on.
#[derive(Clone, Copy, PartialEq, Eq, Structural, Debug)]
pub struct Lights {
    pub north: TrafficLight,
    pub south: TrafficLight,
    pub east: TrafficLight,
    pub west: TrafficLight,
}

/// The state of the light governing vehicles that travel in direction `d`.
pub open spec fn spec_governing(l: Lights, d: Direction) -> LightState {
    match d {
        Direction::North => l.south.state,
        Direction::South => l.north.state,
        Direction::East => l.west.state,
        Direction::West => l.east.state,
    }
}

/// How many of the four lights show Green.
pub open spec fn spec_green_count(l: Lights) -> int {
    (if l.north.state == LightState::Green { 1int } else { 0int })
        + (if l.south.state == LightState::Green { 1int } else { 0int })
        + (if l.east.state == LightState::Green { 1int } else { 0int })
        + (if l.west.state == LightState::Green { 1int } else { 0int })
}

/// The direction favored by phase `p` of the round-robin cycle.
pub open spec fn spec_phase_direction(p: u8) -> Direction {
    if p == 0 {
        Direction::South
    } else if p == 1 {
        Direction::West
    } else if p == 2 {
        Direction::North
    } else {
        Direction::East
    }
}

/// A vehicle genuinely waiting on approach `d`: traveling toward `d` and
/// neither inside the intersection nor past its turn.
pub open spec fn spec_is_queued(v: Vehicle, d: Direction) -> bool {
    !v.has_turned && !v.in_intersection && v.direction == d
}

/// Number of vehicles of `s` genuinely queued for direction `d`.
pub open spec fn spec_queued_count(s: Seq<Vehicle>, d: Direction) -> int
    decreases s.len(),
{
    if s.len() == 0 {
        0
    } else {
        spec_queued_count(s.drop_last(), d) + if spec_is_queued(s.last(), d) { 1int } else { 0int }
    }
}

/// A count of queued vehicles is never negative.
proof fn lemma_queued_count_nonneg(s: Seq<Vehicle>, d: Direction)
    ensures
        spec_queued_count(s, d) >= 0,
    decreases s.len(),
{
    if s.len() != 0 {
        lemma_queued_count_nonneg(s.drop_last(), d);
    }
}

/// How many vehicles a lane segment can discharge at once: the segment
/// length divided by the room one queued vehicle occupies.
pub open spec fn spec_lane_throughput() -> int {
    SINGLE_ROAD_PART as int / (VEHICLE_LENGTH + SAFE_DISTANCE)
}

/// Green duration, in frames, granted to direction `d`: the queued count
/// times the per-vehicle weight and the frame scale, divided by how many
/// vehicles the lane discharges at once.  Zero exactly when nothing queues.
pub open spec fn spec_green_frames(s: Seq<Vehicle>, d: Direction) -> int {
    spec_queued_count(s, d) * GREEN_WEIGHT_CENTI * GREEN_SCALE / (spec_lane_throughput() * 100)
}

/// The lights after a phase rollover toward direction `d`: every rectangle
/// kept, every state Red, except that `d`'s governing light is Green when
/// `go` holds.
pub open spec fn spec_lights_after_rollover(before: Lights, after: Lights, d: Direction, go: bool) -> bool {
    &&& after.north.rect == before.north.rect
    &&& after.south.rect == before.south.rect
    &&& after.east.rect == before.east.rect
    &&& after.west.rect == before.west.rect
    &&& after.north.state == (if d == Direction::South && go { LightState::Green } else { LightState::Red })
    &&& after.south.state == (if d == Direction::North && go { LightState::Green } else { LightState::Red })
    &&& after.east.state == (if d == Direction::West && go { LightState::Green } else { LightState::Red })
    &&& after.west.state == (if d == Direction::East && go { LightState::Green } else { LightState::Red })
}

impl Lights {
    /// The four lights at their fixed board positions, with the light
    /// mounted on the north side pre-set Green and the rest Red.
    pub fn new() -> (l: Lights)
        ensures
            l.north == (TrafficLight { rect: Rect { x: 320i32, y: 320i32, w: 20u32, h: 20u32 }, state: LightState::Green }),
            l.south == (TrafficLight { rect: Rect { x: 460i32, y: 460i32, w: 20u32, h: 20u32 }, state: LightState::Red }),
            l.east == (TrafficLight { rect: Rect { x: 460i32, y: 320i32, w: 20u32, h: 20u32 }, state: LightState::Red }),
            l.west == (TrafficLight { rect: Rect { x: 320i32, y: 460i32, w: 20u32, h: 20u32 }, state: LightState::Red }),
            spec_green_count(l) == 1,
    {
        Lights {
            north: TrafficLight::new(320, 320, 20, 20, LightState::Green),
            south: TrafficLight::new(460, 460, 20, 20, LightState::Red),
            east: TrafficLight::new(460, 320, 20, 20, LightState::Red),
            west: TrafficLight::new(320, 460, 20, 20, LightState::Red),
        }
    }

    /// Read the light that governs vehicles traveling in direction `d`.
    pub fn governing(&self, d: Direction) -> (s: LightState)
        ensures
            s == spec_governing(*self, d),
    {
        match d {
            Direction::North => self.south.state,
            Direction::South => self.north.state,
            Direction::East => self.west.state,
            Direction::West => self.east.state,
        }
    }
}

/// Green duration, in frames, for direction `d` given the current vehicles:
/// exactly [`spec_green_frames`], and zero exactly when no vehicle queues.
pub fn get_timer(vehicles: &Vec<Vehicle>, direction: Direction) -> (t: i32)
    requires
        vehicles@.len() <= 10_000,
    ensures
        t as int == spec_green_frames(vehicles@, direction),
        t >= 0,
        (t == 0) <==> (spec_queued_count(vehicles@, direction) == 0),
{
    let n = vehicles.len();
    let mut cars_count: i32 = 0;
    let mut i: usize = 0;
    while i < n
        invariant
            n == vehicles@.len() <= 10_000,
            0 <= i <= n,
            cars_count as int == spec_queued_count(vehicles@.take(i as int), direction),
            0 <= cars_count <= i,
        decreases n - i,
    {
        let v = &vehicles[i];
        let queued = !v.has_turned && !v.in_intersection && v.direction == direction;
        proof {
            assert(vehicles@.take(i as int + 1).drop_last() =~= vehicles@.take(i as int));
            assert(vehicles@.take(i as int + 1).last() == vehicles@[i as int]);
        }
        if queued {
            cars_count = cars_count + 1;
        }
        i = i + 1;
    }
    proof {
        assert(vehicles@.take(n as int) =~= vehicles@);
    }
    let lane_throughput = SINGLE_ROAD_PART / (VEHICLE_LENGTH + SAFE_DISTANCE);
    let t = (cars_count * GREEN_WEIGHT_CENTI * GREEN_SCALE) / (lane_throughput * 100);
    proof {
        let q = spec_queued_count(vehicles@, direction);
        if q >= 1 {
            assert(q * GREEN_WEIGHT_CENTI * GREEN_SCALE >= 23250) by (nonlinear_arith)
                requires q >= 1;
            assert(q * GREEN_WEIGHT_CENTI * GREEN_SCALE / 300 >= 77) by (nonlinear_arith)
                requires q * GREEN_WEIGHT_CENTI * GREEN_SCALE >= 23250;
        }
    }
    t
}

/// Round-robin phase state: the frame counter `n`, the current phase's
/// remaining green budget in frames, and the incoming phase index.
#[derive(Clone, Copy, PartialEq, Eq, Structural, Debug)]
pub struct Scheduler {
    pub n: i32,
    pub green_timer: i32,
    pub current_light: u8,
}

impl Scheduler {
    /// Initial phase state: counter and budget at zero, so the very first
    /// frame rolls the cycle over, starting with the West-bound phase.
    pub fn new() -> (s: Scheduler)
        ensures
            s == (Scheduler { n: 0i32, green_timer: 0i32, current_light: 1u8 }),
    {
        Scheduler { n: 0, green_timer: 0, current_light: 1 }
    }

    /// One frame of phase control.  While the budget lasts, only the counter
    /// moves and the lights are untouched.  When it runs out, the incoming
    /// phase's direction is granted a demand-proportional budget, every
    /// light turns Red, the governing light of that direction turns Green
    /// exactly when demand is nonzero, and the cycle advances.  At most one
    /// light is ever left Green.
    pub fn tick(&mut self, lights: &mut Lights, vehicles: &Vec<Vehicle>)
        requires
            old(self).n < i32::MAX,
            old(self).current_light < 4,
            vehicles@.len() <= 10_000,
        ensures
            final(self).current_light < 4,
            old(self).n + 1 <= old(self).green_timer ==> {
                &&& *final(lights) == *old(lights)
                &&& *final(self) == (Scheduler { n: (old(self).n + 1) as i32, ..*old(self) })
            },
            old(self).n + 1 > old(self).green_timer ==> {
                let d = spec_phase_direction(old(self).current_light);
                &&& final(self).n == 0
                &&& final(self).green_timer == spec_green_frames(vehicles@, d)
                &&& final(self).current_light == (old(self).current_light + 1) % 4
                &&& spec_lights_after_rollover(
                        *old(lights),
                        *final(lights),
                        d,
                        spec_queued_count(vehicles@, d) > 0,
                    )
            },
            spec_green_count(*old(lights)) <= 1 ==> spec_green_count(*final(lights)) <= 1,
    {
        self.n = self.n + 1;
        if self.n > self.green_timer {
            self.n = 0;
            let direction = match self.current_light {
                0 => Direction::South,
                1 => Direction::West,
                2 => Direction::North,
                _ => Direction::East,
            };
            self.green_timer = get_timer(vehicles, direction);
            proof {
                lemma_queued_count_nonneg(vehicles@, direction);
            }

            lights.north.update(false);
            lights.south.update(false);
            lights.east.update(false);
            lights.west.update(false);

            if self.green_timer != 0 {
                match direction {
                    Direction::South => lights.north.update(true),
                    Direction::West => lights.east.update(true),
                    Direction::North => lights.south.update(true),
                    Direction::East => lights.west.update(true),
                }
            }

            self.current_light = (self.current_light + 1) % 4;
        }
    }
}

} // verus!
