//! The flat map: a single ground level seen from the north, whose tiles
//! are drawn `tile_offset` shorter than their height.
use vstd::prelude::*;
use crate::geometry::{clamp_i32, spec_clamp_i32};
use crate::resources::{Placement, div_trunc, in_i32, lemma_div_trunc_exact};

verus! {

/// Map resource used to convert coordinates into map coordinates, check for
/// collisions amongst objects and place things on screen.
#[derive(Clone, Copy, Debug, PartialEq, Eq, Structural)]
pub struct MapResource {
    pub tile_width: u32,
    pub tile_height: u32,
    pub tile_offset: u32,
    /// Size of the simulated world, in tiles.
    pub width: u32,
    pub height: u32,
}

/// Placement of ground tile `(x, y)`: doubled screen coordinates and depth.
pub open spec fn spec_flat_place(tw: int, th: int, toff: int, x: int, y: int) -> (int, int, int) {
    ((x - y) * tw, (x + y) * (th - toff), -(x + y))
}

/// The cartesian point under the screen point `(x2 / 2, y2 / 2)`, cut to
/// whole tiles toward zero: `x / tw + y / th` and `y / th - x / tw`, where
/// `th` is the drawn tile height.
pub open spec fn spec_flat_screen_to_cart(tw: int, th: int, x2: int, y2: int) -> (int, int) {
    (div_trunc(x2 * th + y2 * tw, 2 * tw * th), div_trunc(y2 * tw - x2 * th, 2 * tw * th))
}

/// Kinds of floor the flat map is made of.
#[derive(Clone, Copy, Debug, PartialEq, Eq, Structural)]
pub enum FloorKind {
    STONE,
    MARBLE,
    GRASS,
    /// Any other kind of ground.
    Other,
}

/// Index of a floor kind's sprite in the terrain sprite sheet.
pub open spec fn spec_floor_sprite(kind: FloorKind) -> usize {
    match kind {
        FloorKind::STONE => 0,
        FloorKind::MARBLE => 1,
        FloorKind::GRASS => 2,
        FloorKind::Other => 0,
    }
}

/// What is found at a map position: whether it is terrain (else objects),
/// and a description of it.
#[derive(Clone, Debug)]
pub struct PickInfo {
    pub is_terrain: bool,
    pub description: String,
}

impl MapResource {
    /// A flat map with the configured tile size and world size.
    pub fn initialize(tile_width: u32, tile_height: u32, tile_offset: u32, width: u32, height: u32) -> (m: MapResource)
        ensures
            m == (MapResource { tile_width, tile_height, tile_offset, width, height }),
    {
        MapResource { tile_width, tile_height, tile_offset, width, height }
    }

    /// The sprite each floor kind is drawn with.
    pub fn floor_sprite(kind: FloorKind) -> (i: usize)
        ensures
            i == spec_floor_sprite(kind),
    {
        match kind {
            FloorKind::STONE => 0,
            FloorKind::MARBLE => 1,
            FloorKind::GRASS => 2,
            FloorKind::Other => 0,
        }
    }

    /// Every floor tile of a `width` x `height` world, row by row: tile
    /// `(x, y)` comes at index `y * width + x`.
    pub fn floor_cells(width: u32, height: u32) -> (c: Vec<(i32, i32)>)
        requires
            width * height <= usize::MAX,
        ensures
            c@.len() == width * height,
            forall|y: int, x: int|
                0 <= y < height && 0 <= x < width ==> #[trigger] c@[y * width + x] == (x as i32, y as i32),
    {
        let mut c: Vec<(i32, i32)> = Vec::new();
        let mut y: u32 = 0;
        while y < height
            invariant
                y <= height,
                width * height <= usize::MAX,
                c@.len() == y * width,
                forall|yy: int, x: int|
                    0 <= yy < y && 0 <= x < width ==> #[trigger] c@[yy * width + x] == (x as i32, yy as i32),
            decreases height - y,
        {
            let ghost base = c@.len();
            let mut x: u32 = 0;
            while x < width
                invariant
                    y < height,
                    x <= width,
                    width * height <= usize::MAX,
                    base == y * width,
                    c@.len() == base + x,
                    forall|yy: int, xx: int|
                        0 <= yy < y && 0 <= xx < width ==> #[trigger] c@[yy * width + xx] == (xx as i32, yy as i32),
                    forall|xx: int| 0 <= xx < x ==> #[trigger] c@[y * width + xx] == (xx as i32, y as i32),
                decreases width - x,
            {
                proof {
                    assert(base + x < width * height) by (nonlinear_arith)
                        requires
                            base == y * width,
                            x < width,
                            y < height,
                    ;
                }
                let ghost before = c@;
                c.push((x as i32, y as i32));
                proof {
                    assert forall|yy: int, xx: int| 0 <= yy < y && 0 <= xx < width implies #[trigger] c@[yy * width
                        + xx] == (xx as i32, yy as i32) by {
                        assert(yy * width + xx < y * width) by (nonlinear_arith)
                            requires
                                0 <= yy < y,
                                0 <= xx < width,
                        ;
                        assert(c@[yy * width + xx] == before[yy * width + xx]);
                    }
                    assert forall|xx: int| 0 <= xx < x + 1 implies #[trigger] c@[y * width + xx] == (
                    xx as i32, y as i32) by {
                        if xx < x {
                            assert(c@[y * width + xx] == before[y * width + xx]);
                        }
                    }
                }
                x = x + 1;
            }
            proof {
                assert(c@.len() == (y + 1) * width) by (nonlinear_arith)
                    requires
                        c@.len() == base + width,
                        base == y * width,
                ;
            }
            y = y + 1;
        }
        proof {
            assert(c@.len() == width * height) by (nonlinear_arith)
                requires
                    c@.len() == y * width,
                    y == height,
            ;
        }
        c
    }

    /// The object placed on a new map: sprite `2` of the object sheet, at
    /// tile `(5, 5)`.
    pub fn initial_object() -> (o: ((i32, i32), usize))
        ensures
            o == ((5i32, 5i32), 2usize),
    {
        ((5, 5), 2)
    }

    /// What is at map position `(x, y)`: the objects there when the world
    /// reports a collision, otherwise the terrain there when the world holds
    /// some, otherwise nothing. The description is that of the objects or of
    /// the terrain found, as `describe_objects` or `describe_terrain` gives
    /// it; the terrain is only asked about when no object is there.
    pub fn whats_at<
        FC: Fn(u32, u32) -> bool,
        FT: Fn(u32, u32) -> bool,
        DO: Fn(u32, u32) -> String,
        DT: Fn(u32, u32) -> String,
    >(
        &self,
        x: i32,
        y: i32,
        world_collides: FC,
        has_terrain: FT,
        describe_objects: DO,
        describe_terrain: DT,
    ) -> (r: Option<PickInfo>)
        requires
            forall|a: u32, b: u32| world_collides.requires((a, b)),
            forall|a: u32, b: u32| has_terrain.requires((a, b)),
            forall|a: u32, b: u32| describe_objects.requires((a, b)),
            forall|a: u32, b: u32| describe_terrain.requires((a, b)),
        ensures
            ({
                let k = (x as u32, y as u32);
                match r {
                    Some(p) => if p.is_terrain {
                        &&& world_collides.ensures(k, false)
                        &&& has_terrain.ensures(k, true)
                        &&& describe_terrain.ensures(k, p.description)
                    } else {
                        &&& world_collides.ensures(k, true)
                        &&& describe_objects.ensures(k, p.description)
                    },
                    None => world_collides.ensures(k, false) && has_terrain.ensures(k, false),
                }
            }),
    {
        let key = (x as u32, y as u32);
        // Any objects at this location?
        if world_collides(key.0, key.1) {
            return Some(PickInfo { is_terrain: false, description: describe_objects(key.0, key.1) });
        }
        if has_terrain(key.0, key.1) {
            return Some(PickInfo { is_terrain: true, description: describe_terrain(key.0, key.1) });
        }
        None
    }

    /// Coordinates outside the world never collide.
    pub open spec fn outside(&self, map_x: i32, map_y: i32) -> bool {
        map_x < 0 || map_x > (self.width as i32) || map_y < 0 || map_y > (self.height as i32)
    }

    /// Checks whether there is a collidable object at `(map_x, map_y)`:
    /// never outside the world, otherwise as `world_collides` reports.
    pub fn has_collision<F: Fn(u32, u32) -> bool>(&self, map_x: i32, map_y: i32, world_collides: F) -> (b: bool)
        requires
            forall|x: u32, y: u32| world_collides.requires((x, y)),
        ensures
            self.outside(map_x, map_y) ==> !b,
            !self.outside(map_x, map_y) ==> world_collides.ensures((map_x as u32, map_y as u32), b),
    {
        if map_x < 0 || map_x > self.width as i32 || map_y < 0 || map_y > self.height as i32 {
            return false;
        }
        world_collides(map_x as u32, map_y as u32)
    }

    /// Converts a cartesian point, already cut to whole tiles
    /// (`x / tile_width + y / (tile_height - tile_offset)` and
    /// `y / (tile_height - tile_offset) - x / tile_width`), into map coordinates.
    pub fn to_map_coords(&self, cart_x: i64, cart_y: i64) -> (r: (i32, i32))
        ensures
            r.0 as int == crate::geometry::spec_clamp_i32(cart_x as int),
            r.1 as int == crate::geometry::spec_clamp_i32(cart_y as int),
    {
        (clamp_i32(cart_x as i128), clamp_i32(cart_y as i128))
    }

    /// Where ground tile `(x, y)` is drawn.
    pub fn place(&self, x: i32, y: i32) -> (p: Placement)
        ensures
            (p.x2 as int, p.y2 as int, p.depth as int) == spec_flat_place(
                self.tile_width as int,
                self.tile_height as int,
                self.tile_offset as int,
                x as int,
                y as int,
            ),
    {
        let d = x as i128 - y as i128;
        let s = x as i128 + y as i128;
        let tw = self.tile_width as i128;
        let th = self.tile_height as i128 - self.tile_offset as i128;
        assert(-0x1_0000_0000_0000_0000 <= d * tw <= 0x1_0000_0000_0000_0000) by (nonlinear_arith)
            requires
                -0x1_0000_0000 <= d <= 0x1_0000_0000,
                0 <= tw < 0x1_0000_0000,
        ;
        assert(-0x1_0000_0000_0000_0000 <= s * th <= 0x1_0000_0000_0000_0000) by (nonlinear_arith)
            requires
                -0x1_0000_0000 <= s <= 0x1_0000_0000,
                -0x1_0000_0000 < th < 0x1_0000_0000,
        ;
        Placement { x2: d * tw, y2: s * th, depth: -s }
    }
}

/// Picking inverts placement on the flat map: the screen point where
/// ground tile `(x, y)` is drawn lies on cartesian point `(x, y)`, and the
/// map coordinates read back there are `(x, y)`.
pub proof fn lemma_flat_pick_inverts_place(map: MapResource, x: int, y: int)
    requires
        map.tile_width > 0,
        map.tile_height > map.tile_offset,
        in_i32(x),
        in_i32(y),
    ensures
        ({
            let th = map.tile_height - map.tile_offset;
            let p = spec_flat_place(map.tile_width as int, map.tile_height as int, map.tile_offset as int, x, y);
            spec_flat_screen_to_cart(map.tile_width as int, th, p.0, p.1) == (x, y)
        }),
        spec_clamp_i32(x) == x && spec_clamp_i32(y) == y,
{
    let tw = map.tile_width as int;
    let th = map.tile_height - map.tile_offset;
    let p = spec_flat_place(tw, map.tile_height as int, map.tile_offset as int, x, y);
    let k = 2 * tw * th;
    assert(p.0 * th + p.1 * tw == k * x) by (nonlinear_arith)
        requires
            p.0 == (x - y) * tw,
            p.1 == (x + y) * th,
            k == 2 * tw * th,
    ;
    assert(p.1 * tw - p.0 * th == k * y) by (nonlinear_arith)
        requires
            p.0 == (x - y) * tw,
            p.1 == (x + y) * th,
            k == 2 * tw * th,
    ;
    assert(k > 0) by (nonlinear_arith)
        requires
            k == 2 * tw * th,
            tw > 0,
            th > 0,
    ;
    lemma_div_trunc_exact(k, x);
    lemma_div_trunc_exact(k, y);
}

} // verus!
