//! The world: the grid's extent and the cell-validity checks that gate
//! where a card may be played.

use vstd::prelude::*;

use crate::isometric_manipulation::{
    world_to_map_x, world_to_map_y, GridCell, WorldPos, TILE_SIZE_X, TILE_SIZE_Y, WORLD_LIMIT,
};

pub use crate::isometric_manipulation::{map_to_world, world_to_map};

verus! {

/// The playable world: a rectangular grid of the given extent. Creatures
/// and their positions live in the caller's roster; the world only
/// answers questions of extent.
pub struct World {
    pub width: u32,
    pub height: u32,
}

impl World {
    pub fn new(width: u32, height: u32) -> (r: World)
        ensures
            r.width == width,
            r.height == height,
    {
        World { width, height }
    }

    /// The cell-validity predicate: a cell counts as on the map when both
    /// coordinates lie between zero and the extent, inclusive.
    pub open spec fn spec_cell_within(&self, x: int, y: int) -> bool {
        0 <= x <= self.width && 0 <= y <= self.height
    }

    /// Whether the cursor, given in world coordinates, lies on the map:
    /// the grid cell under it passes the cell-validity predicate.
    pub fn cursor_within_map(&self, cursor_world: WorldPos) -> (r: bool)
        requires
            -WORLD_LIMIT <= cursor_world.x <= WORLD_LIMIT,
            -WORLD_LIMIT <= cursor_world.y <= WORLD_LIMIT,
        ensures
            r == self.spec_cell_within(
                world_to_map_x(
                    TILE_SIZE_X as int,
                    TILE_SIZE_Y as int,
                    cursor_world.x as int,
                    cursor_world.y as int,
                ),
                world_to_map_y(
                    TILE_SIZE_X as int,
                    TILE_SIZE_Y as int,
                    cursor_world.x as int,
                    cursor_world.y as int,
                ),
            ),
    {
        let cell = world_to_map(cursor_world);
        cell.x >= 0 && cell.x <= self.width as i64 && cell.y >= 0 && cell.y <= self.height as i64
    }

    /// The grid cell under the cursor, given in world coordinates.
    pub fn cursor_position(&self, cursor_world: WorldPos) -> (r: GridCell)
        requires
            -WORLD_LIMIT <= cursor_world.x <= WORLD_LIMIT,
            -WORLD_LIMIT <= cursor_world.y <= WORLD_LIMIT,
        ensures
            r.x == world_to_map_x(
                TILE_SIZE_X as int,
                TILE_SIZE_Y as int,
                cursor_world.x as int,
                cursor_world.y as int,
            ),
            r.y == world_to_map_y(
                TILE_SIZE_X as int,
                TILE_SIZE_Y as int,
                cursor_world.x as int,
                cursor_world.y as int,
            ),
    {
        world_to_map(cursor_world)
    }
}

} // verus!
