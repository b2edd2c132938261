//! The bidirectional 2:1 axonometric ("isometric") transform between
//! continuous world positions and discrete grid cells.
//!
//! The forward direction places a grid cell on screen with the basis
//! `i_hat = (tile_w / 2, tile_h / 4)`, `j_hat = (-tile_w / 2, tile_h / 4)`
//! and the half-tile horizontal correction `(-tile_w / 2, 0)`; the backward
//! direction applies the exact affine inverse and truncates toward zero.
//! All arithmetic is integer-exact, which is what makes the round trip
//! provable.

use vstd::prelude::*;

use crate::geometry::{trunc_div, trunc_div_i64};

verus! {

/// A discrete cell of the rectangular grid. Signed: no bounds are inherent
/// to the type; validity against a world's size is the caller's concern.
#[derive(Clone, Copy, PartialEq, Eq, Structural, Debug)]
pub struct GridCell {
    pub x: i64,
    pub y: i64,
}

/// A continuous position in world units (the units of the tile size).
#[derive(Clone, Copy, PartialEq, Eq, Structural, Debug)]
pub struct WorldPos {
    pub x: i64,
    pub y: i64,
}

/// The tile size is degenerate: the projection basis would be singular or
/// would not land on whole world units. Rejected when a mapper is built,
/// never at transform time.
#[derive(Clone, Copy, PartialEq, Eq, Structural, Debug)]
pub struct TransformDomainError;

/// Largest tile dimension a mapper accepts. Keeps every product of a
/// coordinate with a tile dimension inside `i64`.
pub const MAX_TILE_DIM: u32 = 4096;

/// Largest grid coordinate magnitude `map_to_world` accepts.
pub const CELL_LIMIT: i64 = 0x4000_0000;

/// Largest world coordinate magnitude `world_to_map` accepts. Every
/// position that `map_to_world` can produce lies well within it.
pub const WORLD_LIMIT: i64 = 0x8000_0000_0000;

/// Tile sizes a mapper can be built from: positive, small enough for the
/// fixed-point arithmetic, with the half width and quarter height whole
/// numbers so the projection is integer-exact.
pub open spec fn valid_tile_size(tw: int, th: int) -> bool {
    &&& 0 < tw <= MAX_TILE_DIM
    &&& tw % 2 == 0
    &&& 0 < th <= MAX_TILE_DIM
    &&& th % 4 == 0
}

/// Where the forward transform puts a grid cell, x coordinate:
/// `(tw/2)·cx - (tw/2)·cy` plus the correction `-tw/2`.
pub open spec fn map_to_world_x(tw: int, cx: int, cy: int) -> int {
    (tw / 2) * (cx - cy - 1)
}

/// Where the forward transform puts a grid cell, y coordinate:
/// `(th/4)·cx + (th/4)·cy`.
pub open spec fn map_to_world_y(th: int, cx: int, cy: int) -> int {
    (th / 4) * (cx + cy)
}

/// The backward transform, x coordinate: the exact inverse of the affine
/// forward map is `(wx + tw/2)/tw + 2·wy/th`, and the single division by
/// `tw·th` truncates that exact rational toward zero.
pub open spec fn world_to_map_x(tw: int, th: int, wx: int, wy: int) -> int {
    trunc_div((wx + tw / 2) * th + 2 * wy * tw, tw * th)
}

/// The backward transform, y coordinate: truncation toward zero of
/// `-(wx + tw/2)/tw + 2·wy/th`.
pub open spec fn world_to_map_y(tw: int, th: int, wx: int, wy: int) -> int {
    trunc_div(-(wx + tw / 2) * th + 2 * wy * tw, tw * th)
}

/// The bidirectional transform between world positions and grid cells,
/// fixed at construction to one tile size.
#[derive(Clone, Copy, PartialEq, Eq, Structural, Debug)]
pub struct IsoMapper {
    tile_w: u32,
    tile_h: u32,
}

impl IsoMapper {
    /// The mapper's configuration is one the transforms are exact for.
    pub closed spec fn wf(self) -> bool {
        valid_tile_size(self.tile_w as int, self.tile_h as int)
    }

    pub closed spec fn spec_tile_w(self) -> int {
        self.tile_w as int
    }

    pub closed spec fn spec_tile_h(self) -> int {
        self.tile_h as int
    }

    /// Builds a mapper for the given tile size, rejecting a degenerate one
    /// at configuration time so that no transform call can fail.
    pub fn new(tile_w: u32, tile_h: u32) -> (r: Result<IsoMapper, TransformDomainError>)
        ensures
            r is Ok <==> valid_tile_size(tile_w as int, tile_h as int),
            r matches Ok(m) ==> m.wf() && m.spec_tile_w() == tile_w && m.spec_tile_h() == tile_h,
    {
        if 0 < tile_w && tile_w <= MAX_TILE_DIM && tile_w % 2 == 0 && 0 < tile_h
            && tile_h <= MAX_TILE_DIM && tile_h % 4 == 0 {
            Ok(IsoMapper { tile_w, tile_h })
        } else {
            Err(TransformDomainError)
        }
    }

    /// Transform a map position to a world position.
    pub fn map_to_world(&self, cell: GridCell) -> (r: WorldPos)
        requires
            self.wf(),
            -CELL_LIMIT <= cell.x <= CELL_LIMIT,
            -CELL_LIMIT <= cell.y <= CELL_LIMIT,
        ensures
            r.x == map_to_world_x(self.spec_tile_w(), cell.x as int, cell.y as int),
            r.y == map_to_world_y(self.spec_tile_h(), cell.x as int, cell.y as int),
            -WORLD_LIMIT <= r.x <= WORLD_LIMIT,
            -WORLD_LIMIT <= r.y <= WORLD_LIMIT,
    {
        let half_w: i64 = (self.tile_w / 2) as i64;
        let quarter_h: i64 = (self.tile_h / 4) as i64;
        proof {
            assert(half_w * (cell.x - cell.y - 1) <= WORLD_LIMIT
                && -WORLD_LIMIT <= half_w * (cell.x - cell.y - 1)) by (nonlinear_arith)
                requires
                    0 <= half_w <= 2048,
                    -(2 * CELL_LIMIT + 1) <= cell.x - cell.y - 1 <= 2 * CELL_LIMIT + 1,
            ;
            assert(quarter_h * (cell.x + cell.y) <= WORLD_LIMIT
                && -WORLD_LIMIT <= quarter_h * (cell.x + cell.y)) by (nonlinear_arith)
                requires
                    0 <= quarter_h <= 1024,
                    -(2 * CELL_LIMIT) <= cell.x + cell.y <= 2 * CELL_LIMIT,
            ;
        }
        let wx: i64 = half_w * (cell.x - cell.y - 1);
        let wy: i64 = quarter_h * (cell.x + cell.y);
        WorldPos { x: wx, y: wy }
    }

    /// Transform a world position to a map position, truncating toward
    /// zero. A position exactly on a cell boundary goes to whichever
    /// neighbouring cell the truncation picks; positions produced by
    /// `map_to_world` come back as the original cell (see
    /// `lemma_round_trip`).
    pub fn world_to_map(&self, world_pos: WorldPos) -> (r: GridCell)
        requires
            self.wf(),
            -WORLD_LIMIT <= world_pos.x <= WORLD_LIMIT,
            -WORLD_LIMIT <= world_pos.y <= WORLD_LIMIT,
        ensures
            r.x == world_to_map_x(
                self.spec_tile_w(),
                self.spec_tile_h(),
                world_pos.x as int,
                world_pos.y as int,
            ),
            r.y == world_to_map_y(
                self.spec_tile_w(),
                self.spec_tile_h(),
                world_pos.x as int,
                world_pos.y as int,
            ),
    {
        let tw: i64 = self.tile_w as i64;
        let th: i64 = self.tile_h as i64;
        let half_w: i64 = (self.tile_w / 2) as i64;
        let ax: i64 = world_pos.x + half_w;
        proof {
            let wl = WORLD_LIMIT as int;
            assert((wl + 2048) * 4096 + 2 * wl * 4096 < 0x4000_0000_0000_0000int);
            assert(ax * th <= (wl + 2048) * 4096 && -((wl + 2048) * 4096) <= ax * th)
                by (nonlinear_arith)
                requires
                    0 < th <= 4096,
                    -(wl + 2048) <= ax <= wl + 2048,
            ;
            assert(2 * world_pos.y * tw <= 2 * wl * 4096 && -(2 * wl * 4096) <= 2 * world_pos.y
                * tw) by (nonlinear_arith)
                requires
                    0 < tw <= 4096,
                    -wl <= world_pos.y <= wl,
            ;
            assert(0 < tw * th <= 4096 * 4096) by (nonlinear_arith)
                requires
                    0 < tw <= 4096,
                    0 < th <= 4096,
            ;
        }
        let num_x: i64 = ax * th + 2 * world_pos.y * tw;
        let num_y: i64 = -(ax * th) + 2 * world_pos.y * tw;
        let den: i64 = tw * th;
        proof {
            assert((-(ax as int)) * (th as int) == -((ax as int) * (th as int)))
                by (nonlinear_arith);
        }
        let cx: i64 = trunc_div_i64(num_x, den);
        let cy: i64 = trunc_div_i64(num_y, den);
        GridCell { x: cx, y: cy }
    }
}

/// The round trip: sending any grid cell to the world and back returns the
/// same cell, for every tile size a mapper can be built from. The forward
/// image lands exactly on a multiple of `tw·th` in the inverse's numerator,
/// so the truncation loses nothing.
pub proof fn lemma_round_trip(tw: int, th: int, cx: int, cy: int)
    requires
        valid_tile_size(tw, th),
    ensures
        world_to_map_x(tw, th, map_to_world_x(tw, cx, cy), map_to_world_y(th, cx, cy)) == cx,
        world_to_map_y(tw, th, map_to_world_x(tw, cx, cy), map_to_world_y(th, cx, cy)) == cy,
{
    let hw = tw / 2;
    let qh = th / 4;
    let wx = map_to_world_x(tw, cx, cy);
    let wy = map_to_world_y(th, cx, cy);
    assert(tw == 2 * hw && th == 4 * qh);
    assert(wx + hw == hw * (cx - cy)) by (nonlinear_arith)
        requires
            wx == hw * (cx - cy - 1),
    ;
    let num_x = (wx + hw) * th + 2 * wy * tw;
    let num_y = -(wx + hw) * th + 2 * wy * tw;
    assert(num_x == (tw * th) * cx && num_y == (tw * th) * cy) by (nonlinear_arith)
        requires
            wx + hw == hw * (cx - cy),
            wy == qh * (cx + cy),
            tw == 2 * hw,
            th == 4 * qh,
            num_x == (wx + hw) * th + 2 * wy * tw,
            num_y == -(wx + hw) * th + 2 * wy * tw,
    ;
    assert(tw * th > 0) by (nonlinear_arith)
        requires
            tw > 0,
            th > 0,
    ;
    lemma_trunc_div_exact(cx, tw * th);
    lemma_trunc_div_exact(cy, tw * th);
}

/// Truncating an exact multiple of the divisor recovers the factor.
proof fn lemma_trunc_div_exact(c: int, d: int)
    requires
        d > 0,
    ensures
        trunc_div(d * c, d) == c,
{
    vstd::arithmetic::div_mod::lemma_div_multiples_vanish(c, d);
    if d * c < 0 {
        assert(d * (-c) == -(d * c)) by (nonlinear_arith);
        vstd::arithmetic::div_mod::lemma_div_multiples_vanish(-c, d);
    }
}

/// Tile width of the game's grid, in world units.
pub const TILE_SIZE_X: u32 = 32;

/// Tile height of the game's grid, in world units.
pub const TILE_SIZE_Y: u32 = 32;

/// The game's mapper: the fixed tile size is valid by construction.
fn game_mapper() -> (r: IsoMapper)
    ensures
        r.wf(),
        r.spec_tile_w() == TILE_SIZE_X,
        r.spec_tile_h() == TILE_SIZE_Y,
{
    IsoMapper { tile_w: TILE_SIZE_X, tile_h: TILE_SIZE_Y }
}

/// Transform a world position to a map position, at the game's tile size.
pub fn world_to_map(world_pos: WorldPos) -> (r: GridCell)
    requires
        -WORLD_LIMIT <= world_pos.x <= WORLD_LIMIT,
        -WORLD_LIMIT <= world_pos.y <= WORLD_LIMIT,
    ensures
        r.x == world_to_map_x(
            TILE_SIZE_X as int,
            TILE_SIZE_Y as int,
            world_pos.x as int,
            world_pos.y as int,
        ),
        r.y == world_to_map_y(
            TILE_SIZE_X as int,
            TILE_SIZE_Y as int,
            world_pos.x as int,
            world_pos.y as int,
        ),
{
    game_mapper().world_to_map(world_pos)
}

/// Transform a map position to a world position, at the game's tile size.
pub fn map_to_world(map_pos: GridCell) -> (r: WorldPos)
    requires
        -CELL_LIMIT <= map_pos.x <= CELL_LIMIT,
        -CELL_LIMIT <= map_pos.y <= CELL_LIMIT,
    ensures
        r.x == map_to_world_x(TILE_SIZE_X as int, map_pos.x as int, map_pos.y as int),
        r.y == map_to_world_y(TILE_SIZE_Y as int, map_pos.x as int, map_pos.y as int),
        -WORLD_LIMIT <= r.x <= WORLD_LIMIT,
        -WORLD_LIMIT <= r.y <= WORLD_LIMIT,
{
    game_mapper().map_to_world(map_pos)
}

} // verus!
