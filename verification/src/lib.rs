//! A verified core for a four-way road-intersection simulation.
//!
//! Vehicles spawn on four approach lanes, stop or go according to the
//! traffic-light phase, execute one of three maneuvers inside the junction,
//! and are committed each frame only when the move keeps a safe following
//! distance and causes no collision.  Everything here is plain integer
//! geometry; rendering and input live outside the library.

use vstd::prelude::*;

pub mod geometry;
pub mod traffic_light;
pub mod vehicle;
pub mod spawn;
pub mod scheduler;
pub mod sim;

verus! {

/// Minimum longitudinal gap, in pixels, between two same-direction vehicles,
/// and the minimum clearance around a spawn point.
pub const SAFE_DISTANCE: i32 = 50;

/// Length, in pixels, of one road segment between the board edge and the
/// intersection zone.
pub const SINGLE_ROAD_PART: i32 = 350;

/// Length, in pixels, of a vehicle along its travel axis.
pub const VEHICLE_LENGTH: i32 = 40;

/// Width, in pixels, of a vehicle across its travel axis.
pub const VEHICLE_WIDTH: i32 = 20;

/// Distance, in pixels, a moving vehicle covers each frame.
pub const VEHICLE_SPEED: i32 = 5;

/// Near edge of the square intersection zone, on both axes.
pub const ZONE_MIN: i32 = 350;

/// Far edge of the square intersection zone, on both axes.
pub const ZONE_MAX: i32 = 450;

/// Width and height, in pixels, of the visible board.
pub const BOARD_SIZE: i32 = 800;

/// Off-screen margin beyond which a vehicle is retired.
pub const RETIRE_MARGIN: i32 = 50;

/// Per-vehicle green-time weight, in hundredths of a scheduler timer unit.
pub const GREEN_WEIGHT_CENTI: i32 = 155;

/// Frames per scheduler timer unit.
pub const GREEN_SCALE: i32 = 150;

} // verus!
