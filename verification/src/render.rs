//! Render plugins' settings and the fixed-view map renderer.
use vstd::prelude::*;
pub use crate::geometry::Direction;
use crate::geometry::clamp_i32;
use crate::resources::{Placement, MapResource, spec_place, spec_to_map_coords};
use crate::terrain::{Biome, spec_sprite_index};

verus! {

/// Where a render plugin draws: the main window, the shadow map or a named
/// target.
#[derive(Clone, Copy, Debug)]
pub enum Target {
    Main,
    ShadowMap,
    Custom(&'static str),
}

impl Default for Target {
    fn default() -> (t: Target)
        ensures
            t == Target::Main,
    {
        Target::Main
    }
}

/// Render plugin drawing 2d sprites.
#[derive(Clone, Copy, Debug)]
pub struct RenderSprites {
    pub target: Target,
}

impl Default for RenderSprites {
    fn default() -> (r: RenderSprites)
        ensures
            r.target == Target::Main,
    {
        RenderSprites { target: Target::Main }
    }
}

impl RenderSprites {
    /// Sets the target the sprites are rendered to.
    pub fn with_target(self, target: Target) -> (r: Self)
        ensures
            r.target == target,
    {
        let mut s = self;
        s.target = target;
        s
    }
}

/// Render plugin drawing the terrain blocks.
#[derive(Clone, Copy, Debug)]
pub struct RenderTerrain {
    pub target: Target,
}

impl Default for RenderTerrain {
    fn default() -> (r: RenderTerrain)
        ensures
            r.target == Target::Main,
    {
        RenderTerrain { target: Target::Main }
    }
}

impl RenderTerrain {
    /// Sets the target the terrain is rendered to.
    pub fn with_target(self, target: Target) -> (r: Self)
        ensures
            r.target == target,
    {
        let mut s = self;
        s.target = target;
        s
    }
}

/// Description of the terrain draw pass; it has no settings.
#[derive(Clone, Copy, Debug, PartialEq, Eq, Structural)]
pub struct DrawTerrainDesc;

impl Default for DrawTerrainDesc {
    fn default() -> (d: DrawTerrainDesc)
        ensures
            d == DrawTerrainDesc,
    {
        DrawTerrainDesc
    }
}

impl DrawTerrainDesc {
    pub fn new() -> (d: Self)
        ensures
            d == DrawTerrainDesc,
    {
        DrawTerrainDesc
    }
}

/// Places things on a map that is always seen from the north.
#[derive(Clone, Copy, Debug, PartialEq, Eq, Structural)]
pub struct MapRenderer {
    pub tile_width: u32,
    pub tile_height: u32,
}

impl MapRenderer {
    /// A renderer for the configured tile size.
    pub fn initialize(tile_height: u32, tile_width: u32) -> (m: MapRenderer)
        ensures
            m.tile_height == tile_height,
            m.tile_width == tile_width,
    {
        MapRenderer { tile_height, tile_width }
    }

    /// Converts a cartesian point, already cut to whole tiles, into map
    /// coordinates.
    pub fn to_map_coords(&self, cart_x: i64, cart_y: i64) -> (r: (i32, i32))
        ensures
            (r.0 as int, r.1 as int) == spec_to_map_coords(Direction::NORTH, cart_x as int, cart_y as int),
    {
        (clamp_i32(cart_x as i128), clamp_i32(cart_y as i128))
    }

    /// Where grid point `(x, y, z)` is drawn; the view direction is not
    /// taken into account.
    pub fn place(&self, x: i32, y: i32, z: i32, direction: Direction) -> (p: Placement)
        ensures
            (p.x2 as int, p.y2 as int, p.depth as int) == spec_place(
                Direction::NORTH,
                self.tile_width as int,
                self.tile_height as int,
                x as int,
                y as int,
                z as int,
            ),
    {
        let map = MapResource::initialize(self.tile_height, self.tile_width);
        map.place(&crate::geometry::WorldPos::new(x, y, z))
    }
}

/// Number of levels the whole-map terrain is drawn for, from level 32 up.
pub const DRAWN_LEVELS: usize = 32;

/// The block entry for cell `i` of the whole-map scan (`32` levels per
/// ground column, columns row by row): its tile, and its sprite when it can
/// be seen.
pub open spec fn spec_block(width: int, i: int, b: Biome, visible: bool) -> (i32, i32, i32, Option<usize>) {
    let col = i / 32;
    (
        (col % width) as i32,
        (col / width) as i32,
        (32 + i % 32) as i32,
        if visible { Some(spec_sprite_index(b)) } else { None },
    )
}

/// The blocks among the first `n` cells of the scan, in scan order.
pub open spec fn spec_blocks(width: int, cells: Seq<Option<(Biome, bool)>>, n: int) -> Seq<
    (i32, i32, i32, Option<usize>),
>
    decreases n,
{
    if n <= 0 {
        Seq::empty()
    } else {
        let prev = spec_blocks(width, cells, n - 1);
        match cells[n - 1] {
            Some((b, v)) => prev.push(spec_block(width, n - 1, b, v)),
            None => prev,
        }
    }
}

impl MapRenderer {
    /// The terrain blocks of a `width` x `height` map from the cells found at
    /// levels 32 to 63 of every ground column, scanned row by row (`y`, then
    /// `x`, then the level): one entry per stored block, in scan order, with
    /// its biome's sprite when the block can be seen and no sprite otherwise.
    pub fn terrain_blocks(&self, width: u32, height: u32, cells: &Vec<Option<(Biome, bool)>>) -> (b: Vec<
        (i32, i32, i32, Option<usize>),
    >)
        requires
            cells@.len() == width * height * 32,
        ensures
            b@ == spec_blocks(width as int, cells@, cells@.len() as int),
    {
        let mut out: Vec<(i32, i32, i32, Option<usize>)> = Vec::new();
        let n = cells.len();
        if n > 0 {
            assert(width > 0) by (nonlinear_arith)
                requires
                    n == width * height * 32,
                    n > 0,
            ;
        }
        let w = width as usize;
        let mut i: usize = 0;
        while i < n
            invariant
                n == cells@.len(),
                i <= n,
                n > 0 ==> w > 0,
                w == width,
                out@ == spec_blocks(width as int, cells@, i as int),
            decreases n - i,
        {
            match cells[i] {
                Some((biome, visible)) => {
                    let col = i / 32;
                    let sprite = if visible { Some(biome.sprite_index()) } else { None };
                    out.push(((col % w) as i32, (col / w) as i32, (32 + i % 32) as i32, sprite));
                },
                None => {},
            }
            i = i + 1;
        }
        out
    }
}

} // verus!
