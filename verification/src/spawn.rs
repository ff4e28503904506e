//! Admission control: may a new vehicle enter a lane?
//!
//! A spawn request is accepted only when the lane's per-direction cooldown
//! has elapsed and no same-direction vehicle sits within the safe distance of
//! the fixed spawn point.

use vstd::prelude::*;
use crate::vehicle::{
    Direction, Vehicle, spec_spawned, wf_vehicle, vehicle_in_bounds_loose,
};
use crate::SAFE_DISTANCE;

verus! {

/// The frame at which the last spawn was accepted, per direction.
#[derive(Clone, Copy, PartialEq, Eq, Structural, Debug)]
pub struct SpawnTimes {
    pub north: i32,
    pub south: i32,
    pub east: i32,
    pub west: i32,
}

/// The recorded last-spawn frame for direction `d`.
pub open spec fn spec_last_spawn(t: SpawnTimes, d: Direction) -> int {
    match d {
        Direction::North => t.north as int,
        Direction::South => t.south as int,
        Direction::East => t.east as int,
        Direction::West => t.west as int,
    }
}

/// Board coordinate of the spawn point along the travel axis for direction
/// `d`, measured against a vehicle's leading edge on that axis.
pub open spec fn spec_spawn_coord(d: Direction) -> int {
    match d {
        Direction::North => 760,
        Direction::South => 80,
        Direction::East => 80,
        Direction::West => 760,
    }
}

/// A vehicle's leading-edge coordinate along its travel axis: the top edge
/// north-bound, bottom edge south-bound, right edge east-bound, left edge
/// west-bound.
pub open spec fn spec_axis_front(v: Vehicle) -> int {
    match v.direction {
        Direction::North => v.rect.y as int,
        Direction::South => v.rect.y + v.rect.h,
        Direction::East => v.rect.x + v.rect.w,
        Direction::West => v.rect.x as int,
    }
}

/// Distance between two axis coordinates.
pub open spec fn spec_dist(a: int, b: int) -> int {
    if a >= b {
        a - b
    } else {
        b - a
    }
}

/// A spawn on direction `d` at frame `frame` is admissible: at least
/// `SAFE_DISTANCE / 2` frames have elapsed since the last accepted spawn on
/// that lane, and every existing same-direction vehicle is at least
/// `SAFE_DISTANCE` away from the spawn point.
pub open spec fn spec_can_spawn(vs: Seq<Vehicle>, d: Direction, last: int, frame: int) -> bool {
    &&& frame - last >= SAFE_DISTANCE / 2
    &&& forall |i: int| 0 <= i < vs.len() && vs[i].direction == d
            ==> spec_dist(spec_axis_front(#[trigger] vs[i]), spec_spawn_coord(d)) >= SAFE_DISTANCE
}

impl SpawnTimes {
    /// All four lanes start as if a spawn had been accepted at frame 0.
    pub fn new() -> (t: SpawnTimes)
        ensures
            t == (SpawnTimes { north: 0i32, south: 0i32, east: 0i32, west: 0i32 }),
    {
        SpawnTimes { north: 0, south: 0, east: 0, west: 0 }
    }

    /// Read the last accepted spawn frame for `d`.
    pub fn get(&self, d: Direction) -> (f: i32)
        ensures
            f as int == spec_last_spawn(*self, d),
    {
        match d {
            Direction::North => self.north,
            Direction::South => self.south,
            Direction::East => self.east,
            Direction::West => self.west,
        }
    }

    /// Record an accepted spawn on `d` at frame `frame`; other lanes keep
    /// their record.
    pub fn set(&mut self, d: Direction, frame: i32)
        ensures
            spec_last_spawn(*final(self), d) == frame as int,
            forall |e: Direction| e != d
                ==> spec_last_spawn(*final(self), e) == spec_last_spawn(*old(self), e),
    {
        match d {
            Direction::North => self.north = frame,
            Direction::South => self.south = frame,
            Direction::East => self.east = frame,
            Direction::West => self.west = frame,
        }
    }
}

/// Decide a spawn request: exactly [`spec_can_spawn`] for the requested
/// direction, the lane's recorded last-spawn frame and the current frame.
pub fn is_safe_to_spawn(
    vehicles: &Vec<Vehicle>,
    direction: Direction,
    last_spawn: &SpawnTimes,
    current_frame: i32,
) -> (r: bool)
    requires
        0 <= spec_last_spawn(*last_spawn, direction) <= current_frame,
        forall |i: int| 0 <= i < vehicles@.len()
            ==> wf_vehicle(#[trigger] vehicles@[i]) && vehicle_in_bounds_loose(vehicles@[i]),
    ensures
        r == spec_can_spawn(
            vehicles@,
            direction,
            spec_last_spawn(*last_spawn, direction),
            current_frame as int,
        ),
{
    let last_frame = last_spawn.get(direction);
    if current_frame - last_frame < SAFE_DISTANCE / 2 {
        return false;
    }

    let spawn_coord: i32 = match direction {
        Direction::North => 760,
        Direction::South => 80,
        Direction::East => 80,
        Direction::West => 760,
    };

    let n = vehicles.len();
    let mut i: usize = 0;
    while i < n
        invariant
            n == vehicles@.len(),
            0 <= i <= n,
            spawn_coord as int == spec_spawn_coord(direction),
            forall |k: int| 0 <= k < vehicles@.len()
                ==> wf_vehicle(#[trigger] vehicles@[k]) && vehicle_in_bounds_loose(vehicles@[k]),
            forall |k: int| 0 <= k < i && vehicles@[k].direction == direction
                ==> spec_dist(spec_axis_front(#[trigger] vehicles@[k]), spec_spawn_coord(direction))
                    >= SAFE_DISTANCE,
        decreases n - i,
    {
        let v = &vehicles[i];
        if v.direction == direction {
            let vehicle_pos = match direction {
                Direction::North => v.rect.y,
                Direction::South => v.rect.y + v.rect.h as i32,
                Direction::East => v.rect.x + v.rect.w as i32,
                Direction::West => v.rect.x,
            };
            let distance = if vehicle_pos >= spawn_coord {
                vehicle_pos - spawn_coord
            } else {
                spawn_coord - vehicle_pos
            };
            if distance < SAFE_DISTANCE {
                return false;
            }
        }
        i = i + 1;
    }
    true
}

/// Handle one spawn request: when admission control accepts it, append a
/// fresh vehicle with a random maneuver at the direction's fixed spawn
/// rectangle and record the accepted frame; otherwise leave everything
/// untouched.  Returns whether the request was accepted, which is exactly
/// [`spec_can_spawn`].
pub fn try_spawn(
    vehicles: &mut Vec<Vehicle>,
    direction: Direction,
    last_spawn: &mut SpawnTimes,
    current_frame: i32,
) -> (spawned: bool)
    requires
        0 <= spec_last_spawn(*old(last_spawn), direction) <= current_frame,
        forall |i: int| 0 <= i < old(vehicles)@.len()
            ==> wf_vehicle(#[trigger] old(vehicles)@[i])
                && vehicle_in_bounds_loose(old(vehicles)@[i]),
    ensures
        spawned == spec_can_spawn(
            old(vehicles)@,
            direction,
            spec_last_spawn(*old(last_spawn), direction),
            current_frame as int,
        ),
        spawned ==> {
            &&& final(vehicles)@ == old(vehicles)@.push(
                    spec_spawned(direction, final(vehicles)@.last().turn))
            &&& spec_last_spawn(*final(last_spawn), direction) == current_frame as int
            &&& forall |e: Direction| e != direction
                    ==> spec_last_spawn(*final(last_spawn), e)
                        == spec_last_spawn(*old(last_spawn), e)
        },
        !spawned ==> {
            &&& final(vehicles)@ == old(vehicles)@
            &&& *final(last_spawn) == *old(last_spawn)
        },
{
    if is_safe_to_spawn(vehicles, direction, last_spawn, current_frame) {
        vehicles.push(Vehicle::new(direction));
        last_spawn.set(direction, current_frame);
        true
    } else {
        false
    }
}

} // verus!
