//! The simulation surface: the one storage image that both compute passes read
//! and write in place.

use vstd::prelude::*;
use crate::{SIM_HEIGHT, SIM_WIDTH, WORKGROUP_SIZE};

verus! {

/// The three-dimensional count of workgroups that one dispatch launches.
#[derive(Clone, Copy, Debug, PartialEq, Eq, Structural)]
pub struct Workgroups {
    pub x: u32,
    pub y: u32,
    pub z: u32,
}

/// Extent and tiling of the simulation surface.
///
/// The surface is a grid of `width` by `height` cells of four 8-bit normalized
/// channels each. Compute passes cover it with square tiles of side `tile`, one
/// workgroup per tile. The tile side is never zero.
#[derive(Clone, Copy, Debug)]
pub struct SimulationSurface {
    width: u32,
    height: u32,
    tile: u32,
}

impl SimulationSurface {
    #[verifier::type_invariant]
    spec fn tiled(self) -> bool {
        self.tile > 0
    }

    /// Width of the grid in cells.
    pub closed spec fn spec_width(&self) -> u32 {
        self.width
    }

    /// Height of the grid in cells.
    pub closed spec fn spec_height(&self) -> u32 {
        self.height
    }

    /// Side length of one workgroup tile.
    pub closed spec fn spec_tile(&self) -> u32 {
        self.tile
    }

    /// The workgroups that cover the whole grid: enough tiles along each axis,
    /// rounded up, in a single layer.
    pub open spec fn full_grid(self) -> Workgroups {
        Workgroups {
            x: tiles_to_cover(self.spec_width() as int, self.spec_tile() as int) as u32,
            y: tiles_to_cover(self.spec_height() as int, self.spec_tile() as int) as u32,
            z: 1,
        }
    }

    /// Along each axis the grid's workgroups are the tiles that cover it,
    /// rounded up; when the tile side divides the extent that is their
    /// quotient.
    pub proof fn full_grid_covers(self)
        requires
            self.spec_tile() > 0,
        ensures
            self.full_grid().x == tiles_to_cover(self.spec_width() as int, self.spec_tile() as int),
            self.full_grid().y == tiles_to_cover(
                self.spec_height() as int,
                self.spec_tile() as int,
            ),
            self.full_grid().z == 1,
            self.full_grid().x * self.spec_tile() >= self.spec_width(),
            self.full_grid().y * self.spec_tile() >= self.spec_height(),
            self.spec_width() % self.spec_tile() == 0 ==> self.full_grid().x == self.spec_width()
                / self.spec_tile(),
            self.spec_height() % self.spec_tile() == 0 ==> self.full_grid().y
                == self.spec_height() / self.spec_tile(),
    {
        tiles_fit(self.spec_width() as int, self.spec_tile() as int);
        tiles_fit(self.spec_height() as int, self.spec_tile() as int);
        tiles_cover_exactly(self.spec_width() as int, self.spec_tile() as int);
        tiles_cover_exactly(self.spec_height() as int, self.spec_tile() as int);
    }

    /// Describes a surface of the given extent, tiled by `tile`. There is no
    /// tiling with a zero tile side.
    pub fn new(width: u32, height: u32, tile: u32) -> (surface: Option<SimulationSurface>)
        ensures
            tile == 0 <==> surface is None,
            surface matches Some(s) ==> s.spec_width() == width && s.spec_height() == height
                && s.spec_tile() == tile,
    {
        if tile == 0 {
            None
        } else {
            Some(SimulationSurface { width, height, tile })
        }
    }

    /// The surface the simulation runs on by default: 1280 by 720 cells in
    /// tiles of 8.
    pub fn standard() -> (surface: SimulationSurface)
        ensures
            surface.spec_width() == SIM_WIDTH,
            surface.spec_height() == SIM_HEIGHT,
            surface.spec_tile() == WORKGROUP_SIZE,
            surface.full_grid() == (Workgroups { x: 160, y: 90, z: 1 }),
    {
        assert(tiles_to_cover(1280, 8) == 160 && tiles_to_cover(720, 8) == 90);
        SimulationSurface { width: SIM_WIDTH, height: SIM_HEIGHT, tile: WORKGROUP_SIZE }
    }

    #[verifier::when_used_as_spec(spec_width)]
    pub fn width(&self) -> (width: u32)
        ensures
            width == self.spec_width(),
    {
        self.width
    }

    #[verifier::when_used_as_spec(spec_height)]
    pub fn height(&self) -> (height: u32)
        ensures
            height == self.spec_height(),
    {
        self.height
    }

    #[verifier::when_used_as_spec(spec_tile)]
    pub fn tile(&self) -> (tile: u32)
        ensures
            tile == self.spec_tile(),
            tile > 0,
    {
        proof {
            use_type_invariant(self);
        }
        self.tile
    }

    /// Computes the workgroup counts of a dispatch over the whole grid.
    pub fn workgroups(&self) -> (groups: Workgroups)
        ensures
            groups == self.full_grid(),
            groups.x * self.spec_tile() >= self.spec_width(),
            groups.y * self.spec_tile() >= self.spec_height(),
    {
        proof {
            use_type_invariant(self);
            tiles_cover_exactly(self.width as int, self.tile as int);
            tiles_cover_exactly(self.height as int, self.tile as int);
        }
        Workgroups {
            x: tile_count(self.width, self.tile),
            y: tile_count(self.height, self.tile),
            z: 1,
        }
    }

    /// The pixel every cell holds before the first seeding pass: opaque black.
    pub fn fill_pixel() -> (pixel: [u8; 4])
        ensures
            pixel@ == seq![0u8, 0u8, 0u8, 255u8],
    {
        [0, 0, 0, 255]
    }
}

/// Number of tiles of side `tile` needed to cover `extent` cells.
pub open spec fn tiles_to_cover(extent: int, tile: int) -> int {
    (extent + tile - 1) / tile
}

/// Counts the tiles of side `tile` that cover `extent` cells, rounding up.
pub fn tile_count(extent: u32, tile: u32) -> (count: u32)
    requires
        tile > 0,
    ensures
        count == tiles_to_cover(extent as int, tile as int),
{
    let whole: u32 = extent / tile;
    let rest: u32 = extent % tile;
    proof {
        assert(extent == tile * (extent / tile) + extent % tile) by (nonlinear_arith)
            requires
                tile > 0,
        ;
    }
    if rest == 0 {
        assert((extent + tile - 1) / (tile as int) == whole) by (nonlinear_arith)
            requires
                extent == tile * whole,
                tile > 0,
        ;
        whole
    } else {
        assert((extent + tile - 1) / (tile as int) == whole + 1) by (nonlinear_arith)
            requires
                extent == tile * whole + rest,
                0 < rest < tile,
        ;
        assert(whole + 1 <= u32::MAX) by (nonlinear_arith)
            requires
                extent == tile * whole + rest,
                0 < rest < tile,
                extent <= u32::MAX,
        ;
        whole + 1
    }
}

/// There are never more tiles than cells.
pub proof fn tiles_fit(extent: int, tile: int)
    requires
        extent >= 0,
        tile > 0,
    ensures
        0 <= tiles_to_cover(extent, tile) <= extent,
{
    tiles_cover_exactly(extent, tile);
    let tiles = tiles_to_cover(extent, tile);
    assert(tiles >= 0) by (nonlinear_arith)
        requires
            tiles * tile >= extent,
            extent >= 0,
            tile > 0,
    ;
    if tiles >= 1 {
        assert((tiles - 1) * tile >= tiles - 1) by (nonlinear_arith)
            requires
                tiles >= 1,
                tile >= 1,
        ;
    }
}

/// A tile count covers the extent, and one tile fewer would not.
pub proof fn tiles_cover_exactly(extent: int, tile: int)
    requires
        extent >= 0,
        tile > 0,
    ensures
        tiles_to_cover(extent, tile) * tile >= extent,
        (tiles_to_cover(extent, tile) - 1) * tile < extent,
        extent % tile == 0 ==> tiles_to_cover(extent, tile) == extent / tile,
{
    let q = extent / tile;
    let r = extent % tile;
    assert(extent == tile * q + r && 0 <= r < tile) by (nonlinear_arith)
        requires
            q == extent / tile,
            r == extent % tile,
            tile > 0,
    ;
    if r == 0 {
        assert((extent + tile - 1) / tile == q) by (nonlinear_arith)
            requires
                extent == tile * q,
                tile > 0,
        ;
    } else {
        assert((extent + tile - 1) / tile == q + 1) by (nonlinear_arith)
            requires
                extent == tile * q + r,
                0 < r < tile,
        ;
    }
    assert(tiles_to_cover(extent, tile) * tile >= extent) by (nonlinear_arith)
        requires
            extent == tile * q + r,
            0 <= r < tile,
            tiles_to_cover(extent, tile) == (if r == 0 { q } else { q + 1 }),
    ;
    assert((tiles_to_cover(extent, tile) - 1) * tile < extent) by (nonlinear_arith)
        requires
            extent == tile * q + r,
            0 <= r < tile,
            extent >= 0,
            tiles_to_cover(extent, tile) == (if r == 0 { q } else { q + 1 }),
    ;
}

} // verus!
