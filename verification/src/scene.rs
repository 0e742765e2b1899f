//! The initial scene: three transmitter–receiver pairs.
//!
//! Every build of the scene places one pair per lane: a stationary receiver
//! in the top lane, a receiver moving right (towards its transmitter) in the
//! middle lane, and a receiver moving left (away from it) in the bottom lane.
//! The transmitter of every lane stands at the same x-position; the first two
//! receivers start at the common starting x, the third further right.

use vstd::prelude::*;
use crate::motion::Movement;

verus! {

/// X-position of every transmitter: 400 pixels.
pub const TRANSMITTER_X_MPX: i64 = 400_000;

/// Starting x-position of the stationary and the right-moving receiver:
/// -300 pixels.
pub const RECEIVER_START_X_MPX: i64 = -300_000;

/// Starting x-position of the left-moving receiver: 100 pixels.
pub const LEFT_RECEIVER_START_X_MPX: i64 = 100_000;

/// Vertical distance between the middle lane and the outer lanes: 200 pixels.
pub const LANE_SPACING_MPX: i64 = 200_000;

/// One lane of the scene: where its receiver starts, the height both its
/// transmitter and receiver share, and how the receiver moves.
#[derive(Clone, Copy, PartialEq, Eq, Structural, Debug)]
pub struct LaneSetup {
    pub receiver_x_mpx: i64,
    pub y_mpx: i64,
    pub movement: Movement,
}

/// The three lanes of a freshly built scene, top to bottom: a stationary
/// receiver, one moving right, one moving left.
pub fn initial_lanes() -> (lanes: Vec<LaneSetup>)
    ensures
        lanes@.len() == 3,
        lanes@[0] == (LaneSetup {
            receiver_x_mpx: RECEIVER_START_X_MPX,
            y_mpx: LANE_SPACING_MPX,
            movement: Movement::Stationary,
        }),
        lanes@[1] == (LaneSetup {
            receiver_x_mpx: RECEIVER_START_X_MPX,
            y_mpx: 0,
            movement: Movement::Right,
        }),
        lanes@[2] == (LaneSetup {
            receiver_x_mpx: LEFT_RECEIVER_START_X_MPX,
            y_mpx: (-LANE_SPACING_MPX) as i64,
            movement: Movement::Left,
        }),
{
    let mut lanes: Vec<LaneSetup> = Vec::new();
    lanes.push(LaneSetup {
        receiver_x_mpx: RECEIVER_START_X_MPX,
        y_mpx: LANE_SPACING_MPX,
        movement: Movement::Stationary,
    });
    lanes.push(LaneSetup {
        receiver_x_mpx: RECEIVER_START_X_MPX,
        y_mpx: 0,
        movement: Movement::Right,
    });
    lanes.push(LaneSetup {
        receiver_x_mpx: LEFT_RECEIVER_START_X_MPX,
        y_mpx: -LANE_SPACING_MPX,
        movement: Movement::Left,
    });
    lanes
}

} // verus!
