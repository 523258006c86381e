//! The numbers that tune the game.

use vstd::prelude::*;

verus! {

/// Horizontal position of the bird.
pub const BIRB_X: i64 = 40_000;

/// Height at which the bird starts a run.
pub const BIRB_Y: i64 = 128_000;

/// Radius of the bird's collider.
pub const BIRB_RADIUS: i64 = 15_000;

/// Gravity on the bird, in thousandths of the neutral pull.
pub const BIRB_GRAVITY: i64 = 1_400;

/// Upward speed that a flap gives the bird.
pub const JUMP_VELOCITY: i64 = 600_000;

/// Time between two obstacles, in nanoseconds.
pub const TIME_BETWEEN_SPAWN: u64 = 2_000_000_000;

/// Time that one frame of the bird's animation is shown, in nanoseconds.
pub const TIME_BETWEEN_FRAMES: u64 = 200_000_000;

/// Half the width of an obstacle.
pub const OBSTACLE_WIDTH: i64 = 20_000;

/// Half the height of each of an obstacle's two barriers.
pub const OBSTACLE_HEIGHT: i64 = 400_000;

/// Horizontal speed of an obstacle: it scrolls to the left.
pub const OBSTACLE_SPEED: i64 = -200_000;

/// Lowest height at which an obstacle is placed.
pub const SPAWN_HEIGHT_MIN: i64 = 100_000;

/// Upper end of the heights at which an obstacle is placed, itself left out.
pub const SPAWN_HEIGHT_MAX: i64 = 400_000;

/// Centre of the upper barrier, measured from the obstacle's height.
pub const TOP_PIPE_OFFSET: i64 = 300_000;

/// Centre of the lower barrier, measured from the obstacle's height.
pub const BOTTOM_PIPE_OFFSET: i64 = -700_000;

/// Half the thickness of the floor and of the ceiling.
pub const BOUNDARY_THICKNESS: i64 = 10_000;

/// Height at which the picture of the ground is shown.
pub const GROUND_TEXTURE_Y: i64 = -500_000;

/// Width of the window that the game asks for.
pub const WINDOW_WIDTH: i64 = 640_000;

/// Height of the window that the game asks for.
pub const WINDOW_HEIGHT: i64 = 1_136_000;

/// Points for each obstacle passed.
pub const OBSTACLE_REWARD: usize = 100;

} // verus!
