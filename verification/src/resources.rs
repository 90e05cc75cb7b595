//! The rotating map resource: grid-to-screen placement, screen-to-grid
//! picking, view rotation and camera re-centering; and the view shed.
use vstd::prelude::*;
use crate::geometry::{
    WorldPos, Direction, spec_cw, spec_ccw, spec_rotate, spec_unrotate, spec_view_step,
    spec_clamp_i32, clamp_i32,
};

verus! {

/// Where a grid point is drawn: twice the screen `x`, twice the screen `y`
/// (tile sizes may be odd, so halves are kept exact by doubling) and the
/// depth used for draw order before any per-object offset is added.
#[derive(Clone, Copy, Debug, PartialEq, Eq, Structural)]
pub struct Placement {
    pub x2: i128,
    pub y2: i128,
    pub depth: i128,
}

/// Placement of grid point `(x, y, z)` for view `d` and tile size `tw` x `th`.
pub open spec fn spec_place(d: Direction, tw: int, th: int, x: int, y: int, z: int) -> (int, int, int) {
    let r = spec_rotate(d, x, y);
    ((r.0 - r.1) * tw, (r.0 + r.1) * th + 2 * z * th, -(r.0 + r.1))
}

/// `a / b` rounded toward zero, as a float division followed by `trunc`.
pub open spec fn div_trunc(a: int, b: int) -> int {
    if a >= 0 {
        a / b
    } else {
        -((-a) / b)
    }
}

/// The cartesian point under the screen point `(x2 / 2, y2 / 2)`, cut to
/// whole tiles toward zero: `x / tw + y / th` and `y / th - x / tw`.
pub open spec fn spec_screen_to_cart(tw: int, th: int, x2: int, y2: int) -> (int, int) {
    (div_trunc(x2 * th + y2 * tw, 2 * tw * th), div_trunc(y2 * tw - x2 * th, 2 * tw * th))
}

/// Map coordinates of the cartesian point `(cx, cy)` for view `d`.
pub open spec fn spec_to_map_coords(d: Direction, cx: int, cy: int) -> (int, int) {
    let u = spec_unrotate(d, cx, cy);
    (spec_clamp_i32(u.0), spec_clamp_i32(u.1))
}

/// How far re-centring steps along a line of sight after a turn.
pub const CAMERA_DEPTH: i32 = 50;

/// The camera center after the view turned from `prev` to `rot`, from the
/// level-0 center `(x, y)`. After a clockwise turn it steps `50` tiles back
/// along the old line of sight, to the ground tile of the old view's true
/// center; after a counter-clockwise turn it steps `50` tiles forward along
/// the new line of sight, which undoes the clockwise step. A view that did
/// not turn by a quarter keeps its center.
pub open spec fn spec_recentre(prev: Direction, rot: Direction, x: int, y: int) -> (int, int) {
    if rot == spec_cw(prev) {
        let b = spec_view_step(prev);
        (x + CAMERA_DEPTH * b.0, y + CAMERA_DEPTH * b.1)
    } else if rot == spec_ccw(prev) {
        let b = spec_view_step(rot);
        (x - CAMERA_DEPTH * b.0, y - CAMERA_DEPTH * b.1)
    } else {
        (x, y)
    }
}

pub open spec fn in_i32(v: int) -> bool {
    i32::MIN <= v <= i32::MAX
}

/// Map resource used to convert screen coordinates into map coordinates and
/// to place things on screen, for the current view direction.
pub struct MapResource {
    /// Which direction along the map the camera is looking.
    pub rotation: Direction,
    pub prev_rotation: Direction,
    pub rotate_cooldown: bool,
    pub tile_width: u32,
    pub tile_height: u32,
}

impl MapResource {
    /// A map looking north with the configured tile size.
    pub fn initialize(tile_height: u32, tile_width: u32) -> (m: MapResource)
        ensures
            m.rotation == Direction::NORTH,
            m.prev_rotation == Direction::NORTH,
            !m.rotate_cooldown,
            m.tile_height == tile_height,
            m.tile_width == tile_width,
    {
        MapResource {
            rotation: Direction::NORTH,
            prev_rotation: Direction::NORTH,
            rotate_cooldown: false,
            tile_height,
            tile_width,
        }
    }

    /// May `rotate_camera` be called on `pt` without leaving `i32`.
    pub open spec fn camera_fits(&self, pt: WorldPos) -> bool {
        let r = spec_recentre(self.prev_rotation, self.rotation, pt.x as int, pt.y as int);
        in_i32(r.0) && in_i32(r.1)
    }

    /// How far re-centring moves the camera center, along `x` and `y`.
    fn recentre_offset(&self) -> (r: (i64, i64))
        ensures
            forall|x: int, y: int|
                #[trigger] spec_recentre(self.prev_rotation, self.rotation, x, y) == (x + r.0, y + r.1),
            -50 <= r.0 <= 50,
            -50 <= r.1 <= 50,
    {
        if self.rotation == self.prev_rotation.cw() {
            let b = self.prev_rotation.view_step();
            (50 * b.0 as i64, 50 * b.1 as i64)
        } else if self.rotation == self.prev_rotation.ccw() {
            let b = self.rotation.view_step();
            (-50 * b.0 as i64, -50 * b.1 as i64)
        } else {
            (0, 0)
        }
    }

    /// Tells whether `rotate_camera` may be called on `pt`.
    pub fn camera_fits_check(&self, pt: &WorldPos) -> (b: bool)
        ensures
            b == self.camera_fits(*pt),
    {
        let d = self.recentre_offset();
        let rx = pt.x as i64 + d.0;
        let ry = pt.y as i64 + d.1;
        assert(spec_recentre(self.prev_rotation, self.rotation, pt.x as int, pt.y as int) == (rx as int, ry as int));
        let lo = i32::MIN as i64;
        let hi = i32::MAX as i64;
        lo <= rx && rx <= hi && lo <= ry && ry <= hi
    }

    /// The new camera center after a turn of the view, from the level-0
    /// center `pt`: see `spec_recentre`.
    pub fn rotate_camera(&mut self, pt: &WorldPos) -> (r: WorldPos)
        requires
            old(self).camera_fits(*pt),
        ensures
            *final(self) == *old(self),
            (r.x as int, r.y as int) == spec_recentre(
                old(self).prev_rotation,
                old(self).rotation,
                pt.x as int,
                pt.y as int,
            ),
            r.z == pt.z,
    {
        let d = self.recentre_offset();
        let rx = pt.x as i64 + d.0;
        let ry = pt.y as i64 + d.1;
        assert(spec_recentre(self.prev_rotation, self.rotation, pt.x as int, pt.y as int) == (rx as int, ry as int));
        WorldPos::new(rx as i32, ry as i32, pt.z)
    }

    /// Turns the view one step clockwise and starts the rotation cooldown.
    pub fn rotate_cw(&mut self)
        ensures
            final(self).rotation == spec_cw(old(self).rotation),
            final(self).prev_rotation == old(self).rotation,
            final(self).rotate_cooldown,
            final(self).tile_width == old(self).tile_width,
            final(self).tile_height == old(self).tile_height,
    {
        let new_rotation = self.rotation.cw();
        self.rotate_cooldown = true;
        self.prev_rotation = self.rotation;
        self.rotation = new_rotation;
    }

    /// Turns the view one step counter-clockwise and starts the rotation
    /// cooldown.
    pub fn rotate_ccw(&mut self)
        ensures
            final(self).rotation == spec_ccw(old(self).rotation),
            final(self).prev_rotation == old(self).rotation,
            final(self).rotate_cooldown,
            final(self).tile_width == old(self).tile_width,
            final(self).tile_height == old(self).tile_height,
    {
        let new_rotation = self.rotation.ccw();
        self.rotate_cooldown = true;
        self.prev_rotation = self.rotation;
        self.rotation = new_rotation;
    }

    /// Converts a cartesian point, already cut to whole tiles
    /// (`x / tile_width + y / tile_height` and `y / tile_height - x / tile_width`
    /// truncated toward zero), into map coordinates for the current view.
    pub fn to_map_coords(&self, cart_x: i64, cart_y: i64) -> (r: (i32, i32))
        ensures
            (r.0 as int, r.1 as int) == spec_to_map_coords(self.rotation, cart_x as int, cart_y as int),
    {
        let u = self.rotation.unrotate(cart_x, cart_y);
        (clamp_i32(u.0), clamp_i32(u.1))
    }

    /// Where the grid point `pt` is drawn for the current view.
    pub fn place(&self, pt: &WorldPos) -> (p: Placement)
        ensures
            (p.x2 as int, p.y2 as int, p.depth as int) == spec_place(
                self.rotation,
                self.tile_width as int,
                self.tile_height as int,
                pt.x as int,
                pt.y as int,
                pt.z as int,
            ),
    {
        let r = self.rotation.rotate(pt.x as i64, pt.y as i64);
        let tw = self.tile_width as i128;
        let th = self.tile_height as i128;
        let z = pt.z as i128;
        let d = r.0 - r.1;
        let s = r.0 + r.1;
        proof {
            lemma_place_bounds(d as int, s as int, z as int, tw as int, th as int);
        }
        Placement { x2: d * tw, y2: s * th + 2 * z * th, depth: -s }
    }
}

/// Picking inverts placement: the screen point where grid point `(x, y, z)`
/// is drawn lies on the cartesian point of its rotated ground coordinates
/// shifted by its level, and at level 0 the map coordinates read back from
/// that point are `(x, y)` again.
pub proof fn lemma_pick_inverts_place(d: Direction, tw: int, th: int, x: int, y: int, z: int)
    requires
        tw > 0,
        th > 0,
        in_i32(x),
        in_i32(y),
    ensures
        ({
            let p = spec_place(d, tw, th, x, y, z);
            let r = spec_rotate(d, x, y);
            spec_screen_to_cart(tw, th, p.0, p.1) == (r.0 + z, r.1 + z)
        }),
        ({
            let r = spec_rotate(d, x, y);
            spec_to_map_coords(d, r.0, r.1) == (x, y)
        }),
{
    let r = spec_rotate(d, x, y);
    let p = spec_place(d, tw, th, x, y, z);
    let k = 2 * tw * th;
    assert(p.0 * th + p.1 * tw == k * (r.0 + z)) by (nonlinear_arith)
        requires
            p.0 == (r.0 - r.1) * tw,
            p.1 == (r.0 + r.1) * th + 2 * z * th,
            k == 2 * tw * th,
    ;
    assert(p.1 * tw - p.0 * th == k * (r.1 + z)) by (nonlinear_arith)
        requires
            p.0 == (r.0 - r.1) * tw,
            p.1 == (r.0 + r.1) * th + 2 * z * th,
            k == 2 * tw * th,
    ;
    assert(k > 0) by (nonlinear_arith)
        requires
            k == 2 * tw * th,
            tw > 0,
            th > 0,
    ;
    lemma_div_trunc_exact(k, r.0 + z);
    lemma_div_trunc_exact(k, r.1 + z);
}

/// Dividing a multiple of `k` by `k` is exact, whatever the rounding.
pub proof fn lemma_div_trunc_exact(k: int, m: int)
    requires
        k > 0,
    ensures
        div_trunc(k * m, k) == m,
{
    if m >= 0 {
        assert(k * m >= 0) by (nonlinear_arith)
            requires
                k > 0,
                m >= 0,
        ;
        assert((k * m) / k == m) by (nonlinear_arith)
            requires
                k > 0,
        ;
    } else {
        assert(k * m < 0) by (nonlinear_arith)
            requires
                k > 0,
                m < 0,
        ;
        assert(-(k * m) == k * (-m)) by (nonlinear_arith);
        assert((k * (-m)) / k == -m) by (nonlinear_arith)
            requires
                k > 0,
        ;
    }
}

/// Everything on the line of sight through a tile is drawn at the same
/// screen point: going `k` levels up while stepping `k` times along the
/// view's line-of-sight step leaves the screen position unchanged, and the
/// higher tile is drawn nearer the viewer.
pub proof fn lemma_line_of_sight(d: Direction, tw: int, th: int, x: int, y: int, z: int, k: int)
    ensures
        ({
            let s = spec_view_step(d);
            let a = spec_place(d, tw, th, x, y, z);
            let b = spec_place(d, tw, th, x + k * s.0, y + k * s.1, z + k);
            a.0 == b.0 && a.1 == b.1 && b.2 == a.2 + 2 * k
        }),
{
    let s = spec_view_step(d);
    let ks0 = k * s.0;
    let ks1 = k * s.1;
    assert(ks0 == -k || ks0 == k) by (nonlinear_arith)
        requires
            ks0 == k * s.0,
            s.0 == 1 || s.0 == -1,
    ;
    assert(ks1 == -k || ks1 == k) by (nonlinear_arith)
        requires
            ks1 == k * s.1,
            s.1 == 1 || s.1 == -1,
    ;
    let a = spec_place(d, tw, th, x, y, z);
    let b = spec_place(d, tw, th, x + ks0, y + ks1, z + k);
    let ra = spec_rotate(d, x, y);
    let rb = spec_rotate(d, x + ks0, y + ks1);
    assert(rb.0 - rb.1 == ra.0 - ra.1);
    assert(rb.0 + rb.1 == ra.0 + ra.1 - 2 * k);
    assert(b.1 == a.1) by (nonlinear_arith)
        requires
            b.1 == (rb.0 + rb.1) * th + 2 * (z + k) * th,
            a.1 == (ra.0 + ra.1) * th + 2 * z * th,
            rb.0 + rb.1 == ra.0 + ra.1 - 2 * k,
    ;
}

/// Re-centring after a clockwise turn finds the old view's true center:
/// in the view before the turn, the level-0 center and the new center `50`
/// levels up are drawn at the same screen point.
pub proof fn lemma_recentre_on_true_center(prev: Direction, tw: int, th: int, x: int, y: int)
    ensures
        ({
            let c = spec_recentre(prev, spec_cw(prev), x, y);
            let a = spec_place(prev, tw, th, x, y, 0);
            let b = spec_place(prev, tw, th, c.0, c.1, CAMERA_DEPTH as int);
            a.0 == b.0 && a.1 == b.1
        }),
{
    lemma_line_of_sight(prev, tw, th, x, y, 0, CAMERA_DEPTH as int);
}

/// Re-centring after a counter-clockwise turn steps forward along the new
/// line of sight: in the view after the turn, the new center at level 0 is
/// drawn at the same screen point as the old center `50` levels up.
pub proof fn lemma_recentre_forward(prev: Direction, tw: int, th: int, x: int, y: int)
    ensures
        ({
            let rot = spec_ccw(prev);
            let c = spec_recentre(prev, rot, x, y);
            let a = spec_place(rot, tw, th, c.0, c.1, 0);
            let b = spec_place(rot, tw, th, x, y, CAMERA_DEPTH as int);
            a.0 == b.0 && a.1 == b.1
        }),
{
    let rot = spec_ccw(prev);
    let c = spec_recentre(prev, rot, x, y);
    lemma_line_of_sight(rot, tw, th, c.0, c.1, 0, CAMERA_DEPTH as int);
}

/// A view that did not turn keeps its camera center.
pub proof fn lemma_recentre_unturned(d: Direction, x: int, y: int)
    ensures
        spec_recentre(d, d, x, y) == (x, y),
{
}

/// Turning back undoes re-centring: a quarter turn either way with
/// re-centring, then the reverse turn with re-centring again, brings the
/// camera center back where it started.
pub proof fn lemma_recentre_turn_back(d: Direction, x: int, y: int)
    ensures
        ({
            let c = spec_recentre(d, spec_cw(d), x, y);
            spec_recentre(spec_cw(d), spec_ccw(spec_cw(d)), c.0, c.1) == (x, y)
        }),
        ({
            let c = spec_recentre(d, spec_ccw(d), x, y);
            spec_recentre(spec_ccw(d), spec_cw(spec_ccw(d)), c.0, c.1) == (x, y)
        }),
{
}

proof fn lemma_place_bounds(d: int, s: int, z: int, tw: int, th: int)
    requires
        -0x1_0000_0000 <= d <= 0x1_0000_0000,
        -0x1_0000_0000 <= s <= 0x1_0000_0000,
        -0x8000_0000 <= z < 0x8000_0000,
        0 <= tw < 0x1_0000_0000,
        0 <= th < 0x1_0000_0000,
    ensures
        -0x1_0000_0000_0000_0000 <= d * tw <= 0x1_0000_0000_0000_0000,
        -0x1_0000_0000_0000_0000 <= s * th <= 0x1_0000_0000_0000_0000,
        -0x1_0000_0000_0000_0000 <= 2 * z * th <= 0x1_0000_0000_0000_0000,
{
    assert(-0x1_0000_0000_0000_0000 <= d * tw <= 0x1_0000_0000_0000_0000) by (nonlinear_arith)
        requires
            -0x1_0000_0000 <= d <= 0x1_0000_0000,
            0 <= tw < 0x1_0000_0000,
    ;
    assert(-0x1_0000_0000_0000_0000 <= s * th <= 0x1_0000_0000_0000_0000) by (nonlinear_arith)
        requires
            -0x1_0000_0000 <= s <= 0x1_0000_0000,
            0 <= th < 0x1_0000_0000,
    ;
    assert(-0x1_0000_0000_0000_0000 <= 2 * z * th <= 0x1_0000_0000_0000_0000) by (nonlinear_arith)
        requires
            -0x8000_0000 <= z < 0x8000_0000,
            0 <= th < 0x1_0000_0000,
    ;
}

/// Map-coordinate bounds of what the camera currently shows, and the flags
/// that ask the other systems to refresh.
pub struct ViewShed {
    /// Largest map coordinates in view (the top-left screen corner side).
    pub top_left_world: Option<WorldPos>,
    /// Smallest map coordinates in view.
    pub bottom_right_world: Option<WorldPos>,
    /// Center point for current view; the map is rotated around it.
    pub center_world: Option<WorldPos>,
    /// Viewshed needs an update.
    pub request_update: bool,
    pub needs_chunking: bool,
    pub needs_sort: bool,
}

impl Default for ViewShed {
    fn default() -> (v: ViewShed)
        ensures
            v.top_left_world is None,
            v.bottom_right_world is None,
            v.center_world is None,
            v.request_update,
            !v.needs_chunking,
            !v.needs_sort,
    {
        ViewShed {
            top_left_world: None,
            bottom_right_world: None,
            center_world: None,
            request_update: true,
            needs_chunking: false,
            needs_sort: false,
        }
    }
}

impl ViewShed {
    /// Marks the view as changed: chunks must be re-checked and sprites
    /// re-sorted.
    pub fn dirty(&mut self)
        ensures
            final(self).needs_chunking,
            final(self).needs_sort,
            final(self).top_left_world == old(self).top_left_world,
            final(self).bottom_right_world == old(self).bottom_right_world,
            final(self).center_world == old(self).center_world,
            final(self).request_update == old(self).request_update,
    {
        self.needs_chunking = true;
        self.needs_sort = true;
    }
}

} // verus!
