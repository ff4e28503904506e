//! Vehicles and their per-frame advance.
//!
//! A vehicle is a rectangle traveling along one compass direction with a
//! maneuver assigned at spawn.  Each frame it either halts at a red light or
//! runs through three stages: flag entry into the intersection zone, change
//! heading at its turn-trigger point, and translate one speed step along its
//! (possibly new) direction.  The whole step is captured by [`spec_step`];
//! [`Vehicle::update`] is proved to compute exactly that.

use vstd::prelude::*;
use crate::geometry::{Rect, spec_overlaps, spec_center};
use crate::traffic_light::LightState;
use crate::{VEHICLE_SPEED, ZONE_MIN, ZONE_MAX, VEHICLE_LENGTH, VEHICLE_WIDTH};

verus! {

/// Compass heading a vehicle is currently traveling.  It changes value at
/// most once, at the turn-trigger point.
#[derive(Clone, Copy, PartialEq, Eq, Structural, Debug)]
pub enum Direction {
    North,
    South,
    East,
    West,
}

/// Maneuver assigned at spawn; immutable thereafter.
#[derive(Clone, Copy, PartialEq, Eq, Structural, Debug)]
pub enum Turn {
    Straight,
    Right,
    Left,
}

/// Cosmetic paint color; the renderer reads it, the simulation never does.
#[derive(Clone, Copy, PartialEq, Eq, Structural, Debug)]
pub struct Color {
    pub r: u8,
    pub g: u8,
    pub b: u8,
}

/// One vehicle.  `has_turned` and `in_intersection` are one-shot flags: once
/// true they stay true for the vehicle's lifetime.
#[derive(Clone, Copy, PartialEq, Eq, Structural, Debug)]
pub struct Vehicle {
    pub rect: Rect,
    pub direction: Direction,
    pub velocity: i32,
    pub color: Color,
    pub turn: Turn,
    pub has_turned: bool,
    pub in_intersection: bool,
}

/// North- and south-bound vehicles travel along the vertical axis.
pub open spec fn is_vertical(d: Direction) -> bool {
    d == Direction::North || d == Direction::South
}

/// Heading after the assigned maneuver: straight keeps it, right turns 90
/// degrees clockwise, left 90 degrees counter-clockwise.
pub open spec fn spec_turned_direction(d: Direction, t: Turn) -> Direction {
    match t {
        Turn::Straight => d,
        Turn::Right => match d {
            Direction::North => Direction::East,
            Direction::East => Direction::South,
            Direction::South => Direction::West,
            Direction::West => Direction::North,
        },
        Turn::Left => match d {
            Direction::North => Direction::West,
            Direction::West => Direction::South,
            Direction::South => Direction::East,
            Direction::East => Direction::North,
        },
    }
}

/// The fixed turn-trigger point for each (direction, maneuver) pair: a single
/// board coordinate inside the intersection, placed along a plausible curve
/// for that maneuver.  Each point lies on its lane's swept path, so every
/// vehicle that crosses the zone passes its trigger and latches `has_turned`
/// exactly once; a straight maneuver triggers where its lane crosses the
/// zone's center line.
pub open spec fn spec_turn_point(d: Direction, t: Turn) -> (int, int) {
    match (d, t) {
        (Direction::West, Turn::Left) => (355, 375),
        (Direction::North, Turn::Left) => (425, 355),
        (Direction::South, Turn::Left) => (375, 445),
        (Direction::East, Turn::Left) => (445, 425),
        (Direction::West, Turn::Right) => (405, 375),
        (Direction::North, Turn::Right) => (420, 405),
        (Direction::South, Turn::Right) => (365, 395),
        (Direction::East, Turn::Right) => (395, 415),
        (Direction::West, Turn::Straight) => (400, 375),
        (Direction::East, Turn::Straight) => (400, 425),
        (Direction::North, Turn::Straight) => (425, 400),
        (Direction::South, Turn::Straight) => (375, 400),
    }
}

/// Paint assigned to each maneuver at spawn.
pub open spec fn spec_turn_color(t: Turn) -> Color {
    match t {
        Turn::Straight => Color { r: 180, g: 180, b: 200 },
        Turn::Right => Color { r: 200, g: 60, b: 60 },
        Turn::Left => Color { r: 60, g: 100, b: 180 },
    }
}

/// The fixed off-screen rectangle at which a vehicle of direction `d` spawns.
pub open spec fn spec_spawn_rect(d: Direction) -> Rect {
    match d {
        Direction::North => Rect { x: 415i32, y: 800i32, w: 20u32, h: 40u32 },
        Direction::South => Rect { x: 365i32, y: -40i32, w: 20u32, h: 40u32 },
        Direction::East => Rect { x: -40i32, y: 415i32, w: 40u32, h: 20u32 },
        Direction::West => Rect { x: 800i32, y: 365i32, w: 40u32, h: 20u32 },
    }
}

/// A freshly spawned vehicle of direction `d` and maneuver `t`.
pub open spec fn spec_spawned(d: Direction, t: Turn) -> Vehicle {
    Vehicle {
        rect: spec_spawn_rect(d),
        direction: d,
        velocity: VEHICLE_SPEED as int as i32,
        color: spec_turn_color(t),
        turn: t,
        has_turned: false,
        in_intersection: false,
    }
}

/// Structural well-formedness: the fixed speed, and a rectangle whose
/// orientation matches the travel axis (portrait when vertical, landscape
/// when horizontal).
pub open spec fn wf_vehicle(v: Vehicle) -> bool {
    &&& v.velocity == VEHICLE_SPEED
    &&& (if is_vertical(v.direction) {
            v.rect.w == VEHICLE_WIDTH && v.rect.h == VEHICLE_LENGTH
        } else {
            v.rect.w == VEHICLE_LENGTH && v.rect.h == VEHICLE_WIDTH
        })
}

/// The vehicle's leading edge lies in the stop-line band just outside the
/// intersection zone on its approach.
pub open spec fn spec_in_stop_zone(v: Vehicle) -> bool {
    match v.direction {
        Direction::North => v.rect.y > ZONE_MIN && v.rect.y <= ZONE_MAX,
        Direction::South => v.rect.y + v.rect.h < ZONE_MAX && v.rect.y + v.rect.h >= ZONE_MIN,
        Direction::East => v.rect.x + v.rect.w < ZONE_MAX && v.rect.x + v.rect.w >= ZONE_MIN,
        Direction::West => v.rect.x > ZONE_MIN && v.rect.x <= ZONE_MAX,
    }
}

/// A vehicle halts this frame exactly when it has neither entered the
/// intersection nor turned, its governing light shows Red, and its leading
/// edge is in the stop-line band.
pub open spec fn spec_must_stop(v: Vehicle, light: LightState) -> bool {
    &&& !v.in_intersection
    &&& !v.has_turned
    &&& light == LightState::Red
    &&& spec_in_stop_zone(v)
}

/// The vehicle's leading edge has crossed the near boundary of the
/// intersection zone for its direction.
pub open spec fn spec_entering_zone(v: Vehicle) -> bool {
    match v.direction {
        Direction::North => v.rect.y <= ZONE_MAX,
        Direction::South => v.rect.y + v.rect.h >= ZONE_MIN,
        Direction::East => v.rect.x + v.rect.w >= ZONE_MIN,
        Direction::West => v.rect.x <= ZONE_MAX,
    }
}

/// Stage one of a moving frame: latch `in_intersection` when the zone
/// boundary has been crossed.  The flag is never cleared.
pub open spec fn spec_with_entry(v: Vehicle) -> Vehicle {
    if !v.has_turned && !v.in_intersection && spec_entering_zone(v) {
        Vehicle { in_intersection: true, ..v }
    } else {
        v
    }
}

/// The vehicle's rectangle covers its turn-trigger point.
pub open spec fn spec_at_turn_point(v: Vehicle) -> bool {
    spec_overlaps(v.rect, Rect {
        x: spec_turn_point(v.direction, v.turn).0 as i32,
        y: spec_turn_point(v.direction, v.turn).1 as i32,
        w: 1,
        h: 1,
    })
}

/// The turn maneuver itself: remap the heading, and if the travel axis
/// flipped, swap the rectangle's width and height re-centered on the old
/// center.  Flags are not touched here.
pub open spec fn spec_apply_turn(v: Vehicle) -> Vehicle {
    let d2 = spec_turned_direction(v.direction, v.turn);
    let r = v.rect;
    if (r.w > r.h && is_vertical(d2)) || (r.h > r.w && !is_vertical(d2)) {
        let cx = r.x + r.w / 2;
        let cy = r.y + r.h / 2;
        Vehicle {
            direction: d2,
            rect: Rect {
                x: (cx - r.h / 2) as i32,
                y: (cy - r.w / 2) as i32,
                w: r.h,
                h: r.w,
            },
            ..v
        }
    } else {
        Vehicle { direction: d2, ..v }
    }
}

/// Stage two of a moving frame: when the rectangle covers the trigger point
/// and the vehicle has not yet turned, execute the maneuver and latch
/// `has_turned`.
pub open spec fn spec_with_turn(v: Vehicle) -> Vehicle {
    if !v.has_turned && spec_at_turn_point(v) {
        Vehicle { has_turned: true, ..spec_apply_turn(v) }
    } else {
        v
    }
}

/// Stage three of a moving frame: translate one speed step along the current
/// direction; North and West decrease a coordinate, South and East increase
/// one.
pub open spec fn spec_translated(v: Vehicle) -> Vehicle {
    match v.direction {
        Direction::North => Vehicle { rect: Rect { y: (v.rect.y - v.velocity) as i32, ..v.rect }, ..v },
        Direction::South => Vehicle { rect: Rect { y: (v.rect.y + v.velocity) as i32, ..v.rect }, ..v },
        Direction::East => Vehicle { rect: Rect { x: (v.rect.x + v.velocity) as i32, ..v.rect }, ..v },
        Direction::West => Vehicle { rect: Rect { x: (v.rect.x - v.velocity) as i32, ..v.rect }, ..v },
    }
}

/// One whole frame for one vehicle: halt at a red stop line, or run entry
/// detection, the turn trigger, and the translation, in that order.
pub open spec fn spec_step(v: Vehicle, light: LightState) -> Vehicle {
    if spec_must_stop(v, light) {
        v
    } else {
        spec_translated(spec_with_turn(spec_with_entry(v)))
    }
}

/// Coordinate bound under which a vehicle's arithmetic cannot overflow.
pub open spec fn vehicle_in_bounds(v: Vehicle) -> bool {
    &&& -99_000 <= v.rect.x <= 99_000
    &&& -99_000 <= v.rect.y <= 99_000
}

/// Slightly widened bound that one frame step keeps a vehicle within.
pub open spec fn vehicle_in_bounds_loose(v: Vehicle) -> bool {
    &&& -99_100 <= v.rect.x <= 99_100
    &&& -99_100 <= v.rect.y <= 99_100
}

/// Relies on `rand::random_range`: the result is drawn from the given
/// (non-empty) range, so it is always below 3.
#[verifier::external_body]
fn random_index_of_three() -> (r: u32)
    ensures
        r < 3,
{
    rand::random_range(0u32..3u32)
}

impl Vehicle {
    /// Build a vehicle at the fixed spawn rectangle for `direction`, with a
    /// maneuver drawn uniformly at random and its associated paint.
    pub fn new(direction: Direction) -> (v: Vehicle)
        ensures
            v == spec_spawned(direction, v.turn),
            wf_vehicle(v),
            vehicle_in_bounds(v),
    {
        let turn = match random_index_of_three() {
            0 => Turn::Straight,
            1 => Turn::Right,
            _ => Turn::Left,
        };
        Vehicle::with_turn(direction, turn)
    }

    /// Build a vehicle at the fixed spawn rectangle for `direction` with an
    /// explicit maneuver.
    pub fn with_turn(direction: Direction, turn: Turn) -> (v: Vehicle)
        ensures
            v == spec_spawned(direction, turn),
            wf_vehicle(v),
            vehicle_in_bounds(v),
    {
        let rect = match direction {
            Direction::North => Rect::new(415, 800, 20, 40),
            Direction::South => Rect::new(365, -40, 20, 40),
            Direction::East => Rect::new(-40, 415, 40, 20),
            Direction::West => Rect::new(800, 365, 40, 20),
        };
        let color = match turn {
            Turn::Straight => Color { r: 180, g: 180, b: 200 },
            Turn::Right => Color { r: 200, g: 60, b: 60 },
            Turn::Left => Color { r: 60, g: 100, b: 180 },
        };
        Vehicle {
            rect,
            direction,
            velocity: VEHICLE_SPEED,
            color,
            turn,
            has_turned: false,
            in_intersection: false,
        }
    }

    /// Whether the vehicle must halt this frame before a red light.
    pub fn should_stop_at_light(&self, light_state: LightState) -> (r: bool)
        requires
            vehicle_in_bounds(*self),
            wf_vehicle(*self),
        ensures
            r == spec_must_stop(*self, light_state),
    {
        if self.in_intersection || self.has_turned {
            return false;
        }
        if light_state == LightState::Green {
            return false;
        }
        match self.direction {
            Direction::North => self.rect.y > ZONE_MIN && self.rect.y <= ZONE_MAX,
            Direction::South => {
                (self.rect.y + self.rect.h as i32) < ZONE_MAX
                    && self.rect.y + self.rect.h as i32 >= ZONE_MIN
            }
            Direction::East => {
                (self.rect.x + self.rect.w as i32) < ZONE_MAX
                    && self.rect.x + self.rect.w as i32 >= ZONE_MIN
            }
            Direction::West => self.rect.x > ZONE_MIN && self.rect.x <= ZONE_MAX,
        }
    }

    /// Execute the turn maneuver: remap the heading through the fixed
    /// rotation table and, when the travel axis flips, swap the rectangle's
    /// sides around its old center.  The swap never displaces the vehicle:
    /// the rectangle's center is exactly preserved.
    pub fn apply_turn(&mut self)
        requires
            vehicle_in_bounds(*old(self)),
            wf_vehicle(*old(self)),
        ensures
            *final(self) == spec_apply_turn(*old(self)),
            spec_center(final(self).rect) == spec_center(old(self).rect),
    {
        self.direction = match (self.direction, self.turn) {
            (d, Turn::Straight) => d,
            (Direction::North, Turn::Right) => Direction::East,
            (Direction::East, Turn::Right) => Direction::South,
            (Direction::South, Turn::Right) => Direction::West,
            (Direction::West, Turn::Right) => Direction::North,
            (Direction::North, Turn::Left) => Direction::West,
            (Direction::West, Turn::Left) => Direction::South,
            (Direction::South, Turn::Left) => Direction::East,
            (Direction::East, Turn::Left) => Direction::North,
        };
        let w = self.rect.w;
        let h = self.rect.h;
        let vertical = matches!(self.direction, Direction::North | Direction::South);
        if (w > h && vertical) || (h > w && !vertical) {
            let center = self.rect.center();
            self.rect = Rect::new(
                center.0 - (h / 2) as i32,
                center.1 - (w / 2) as i32,
                h,
                w,
            );
        }
    }

    /// Advance the vehicle one frame against the light that governs its
    /// current direction: exactly [`spec_step`].  Well-formedness is
    /// preserved, the one-shot flags are monotone, and the rectangle moves by
    /// at most one turn re-centering plus one speed step.
    pub fn update(&mut self, light_state: LightState)
        requires
            vehicle_in_bounds(*old(self)),
            wf_vehicle(*old(self)),
        ensures
            *final(self) == spec_step(*old(self), light_state),
            wf_vehicle(*final(self)),
            vehicle_in_bounds_loose(*final(self)),
    {
        if !self.in_intersection && !self.has_turned && self.should_stop_at_light(light_state) {
            return;
        }
        if !self.has_turned && !self.in_intersection {
            let entering = match self.direction {
                Direction::North => self.rect.y <= ZONE_MAX,
                Direction::South => self.rect.y + self.rect.h as i32 >= ZONE_MIN,
                Direction::East => self.rect.x + self.rect.w as i32 >= ZONE_MIN,
                Direction::West => self.rect.x <= ZONE_MAX,
            };
            if entering {
                self.in_intersection = true;
            }
        }
        if !self.has_turned {
            let turn_point: (i32, i32) = match (self.direction, self.turn) {
                (Direction::West, Turn::Left) => (355, 375),
                (Direction::North, Turn::Left) => (425, 355),
                (Direction::South, Turn::Left) => (375, 445),
                (Direction::East, Turn::Left) => (445, 425),
                (Direction::West, Turn::Right) => (405, 375),
                (Direction::North, Turn::Right) => (420, 405),
                (Direction::South, Turn::Right) => (365, 395),
                (Direction::East, Turn::Right) => (395, 415),
                (Direction::West, Turn::Straight) => (400, 375),
                (Direction::East, Turn::Straight) => (400, 425),
                (Direction::North, Turn::Straight) => (425, 400),
                (Direction::South, Turn::Straight) => (375, 400),
            };
            let point_rect = Rect::new(turn_point.0, turn_point.1, 1, 1);
            if self.rect.has_intersection(&point_rect) {
                self.apply_turn();
                self.has_turned = true;
            }
        }
        match self.direction {
            Direction::North => {
                let v = self.velocity;
                self.rect.offset(0, -v)
            }
            Direction::South => {
                let v = self.velocity;
                self.rect.offset(0, v)
            }
            Direction::East => {
                let v = self.velocity;
                self.rect.offset(v, 0)
            }
            Direction::West => {
                let v = self.velocity;
                self.rect.offset(-v, 0)
            }
        }
    }
}

/// Whether a vehicle satisfies the structural invariant and the coordinate
/// bound that the per-frame operations require: exactly
/// `wf_vehicle && vehicle_in_bounds`.
pub fn is_well_formed(v: &Vehicle) -> (r: bool)
    ensures
        r == (wf_vehicle(*v) && vehicle_in_bounds(*v)),
{
    let size_ok = match v.direction {
        Direction::North | Direction::South => {
            v.rect.w == VEHICLE_WIDTH as u32 && v.rect.h == VEHICLE_LENGTH as u32
        }
        Direction::East | Direction::West => {
            v.rect.w == VEHICLE_LENGTH as u32 && v.rect.h == VEHICLE_WIDTH as u32
        }
    };
    v.velocity == VEHICLE_SPEED && size_ok
        && -99_000 <= v.rect.x && v.rect.x <= 99_000
        && -99_000 <= v.rect.y && v.rect.y <= 99_000
}

/// Law: the one-shot flags are monotone.  Once `has_turned` or
/// `in_intersection` is true, one frame step never clears it, whatever the
/// light shows.
pub proof fn lemma_flags_monotone(v: Vehicle, light: LightState)
    ensures
        v.has_turned ==> spec_step(v, light).has_turned,
        v.in_intersection ==> spec_step(v, light).in_intersection,
{
}

/// Law: a turn does not teleport.  The maneuver preserves the rectangle's
/// center exactly, whether or not the travel axis flips.
pub proof fn lemma_turn_preserves_center(v: Vehicle)
    requires
        wf_vehicle(v),
        vehicle_in_bounds(v),
    ensures
        spec_center(spec_apply_turn(v).rect) == spec_center(v.rect),
{
    let r = v.rect;
    assert(-101_000 <= r.x + r.w / 2 - r.h / 2 <= 101_000);
    assert(-101_000 <= r.y + r.h / 2 - r.w / 2 <= 101_000);
}

} // verus!
