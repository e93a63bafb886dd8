//! Motion frames: the physical state of every car slot.
use vstd::prelude::*;
use crate::frame::Float32;

verus! {

/// The number of car slots in a motion frame.
pub const CAR_SLOTS: usize = 22;

/// The body of a motion frame: one record for each of the 22 car slots,
/// whether or not a car takes part in that slot.
#[derive(Debug, Clone, Copy, PartialEq, Eq)]
pub struct MotionBody {
    pub car_motion: [CarMotion; 22],
}

impl View for MotionBody {
    type V = Seq<CarMotion>;

    open spec fn view(&self) -> Seq<CarMotion> {
        self.car_motion@
    }
}

/// The physical state of one car.
///
/// The directions are normalised vectors in a 16-bit fixed-point encoding,
/// which the decoder hands on as it reads it.
#[derive(Debug, Clone, Copy, PartialEq, Eq)]
pub struct CarMotion {
    pub world_position_x: Float32,
    pub world_position_y: Float32,
    pub world_position_z: Float32,
    pub world_velocity_x: Float32,
    pub world_velocity_y: Float32,
    pub world_velocity_z: Float32,
    pub world_forward_direction_x: u16,
    pub world_forward_direction_y: u16,
    pub world_forward_direction_z: u16,
    pub world_right_direction_x: u16,
    pub world_right_direction_y: u16,
    pub world_right_direction_z: u16,
    pub g_force_lateral: Float32,
    pub g_force_longitudinal: Float32,
    pub g_force_vertical: Float32,
    pub yaw: Float32,
    pub pitch: Float32,
    pub roll: Float32,
}

impl CarMotion {
    /// The record whose fields are all zero.
    pub open spec fn zeroed() -> CarMotion {
        CarMotion {
            world_position_x: Float32 { bits: 0 },
            world_position_y: Float32 { bits: 0 },
            world_position_z: Float32 { bits: 0 },
            world_velocity_x: Float32 { bits: 0 },
            world_velocity_y: Float32 { bits: 0 },
            world_velocity_z: Float32 { bits: 0 },
            world_forward_direction_x: 0,
            world_forward_direction_y: 0,
            world_forward_direction_z: 0,
            world_right_direction_x: 0,
            world_right_direction_y: 0,
            world_right_direction_z: 0,
            g_force_lateral: Float32 { bits: 0 },
            g_force_longitudinal: Float32 { bits: 0 },
            g_force_vertical: Float32 { bits: 0 },
            yaw: Float32 { bits: 0 },
            pitch: Float32 { bits: 0 },
            roll: Float32 { bits: 0 },
        }
    }

    // A car at rest at the origin is a state like any other, so no default
    // is part of the public interface. The decoder fills its array with this
    // record before it overwrites every slot.
    pub(crate) fn default() -> (m: Self)
        ensures
            m == Self::zeroed(),
    {
        let zero = Float32::from_bits(0);
        CarMotion {
            world_position_x: zero,
            world_position_y: zero,
            world_position_z: zero,
            world_velocity_x: zero,
            world_velocity_y: zero,
            world_velocity_z: zero,
            world_forward_direction_x: 0,
            world_forward_direction_y: 0,
            world_forward_direction_z: 0,
            world_right_direction_x: 0,
            world_right_direction_y: 0,
            world_right_direction_z: 0,
            g_force_lateral: zero,
            g_force_longitudinal: zero,
            g_force_vertical: zero,
            yaw: zero,
            pitch: zero,
            roll: zero,
        }
    }
}

} // verus!
