//! The decisions of the per-frame systems: chunk streaming, view bounds,
//! view rotation input, cursor picking, clicks and player steps.
use vstd::prelude::*;
use crate::geometry::{WorldPos, Direction, spec_ccw, spec_cw, spec_view_step};
use crate::resources::{MapResource, ViewShed, spec_to_map_coords, in_i32};
use crate::terrain::{Biome, Cell, VisibleChunks};

verus! {

/// Chunk `c` lies in the inclusive rectangle from `lo` to `hi`.
pub open spec fn in_rect(c: (i32, i32), lo: (i32, i32), hi: (i32, i32)) -> bool {
    lo.0 <= c.0 <= hi.0 && lo.1 <= c.1 <= hi.1
}

/// Chunk order of the streaming walk: by `x`, then by `y`.
pub open spec fn chunk_before(a: (i32, i32), b: (i32, i32)) -> bool {
    a.0 < b.0 || (a.0 == b.0 && a.1 < b.1)
}

/// The chunks of the rectangle that the walk has passed before reaching
/// column `x`, row `y`.
pub open spec fn walked(c: (i32, i32), lo: (i32, i32), hi: (i32, i32), x: int, y: int) -> bool {
    in_rect(c, lo, hi) && (c.0 < x || (c.0 == x && c.1 < y))
}

/// The chunks of a rectangle as a set.
pub open spec fn rect_set(lo: (i32, i32), hi: (i32, i32)) -> Set<(i32, i32)> {
    Set::new(|c: (i32, i32)| in_rect(c, lo, hi))
}

/// Which chunks a streaming pass loads: those of the rectangle not yet in.
pub open spec fn spec_new_chunks(visible: Set<(i32, i32)>, lo: (i32, i32), hi: (i32, i32)) -> Set<(i32, i32)> {
    rect_set(lo, hi).difference(visible)
}

/// Streams in the terrain chunks that come into view.
pub struct RenderTerrainSystem;

impl RenderTerrainSystem {
    /// When the view asks for it, walks the chunk rectangle from
    /// `bottom_right_chunk` up to `top_left_chunk` (inclusive) by `x` then by
    /// `y`, marks every chunk of it visible, and returns, in walk order, the
    /// chunks that were not visible before and must be loaded. The request
    /// is cleared once a column has been walked.
    pub fn run(
        &mut self,
        viewshed: &mut ViewShed,
        visible: &mut VisibleChunks,
        top_left_chunk: (i32, i32),
        bottom_right_chunk: (i32, i32),
    ) -> (loaded: Vec<(i32, i32)>)
        ensures
            !old(viewshed).needs_chunking ==> {
                &&& loaded@.len() == 0
                &&& final(visible)@ == old(visible)@
                &&& *final(viewshed) == *old(viewshed)
            },
            old(viewshed).needs_chunking ==> {
                &&& final(visible)@ == old(visible)@.union(rect_set(bottom_right_chunk, top_left_chunk))
                &&& loaded@.to_set() == spec_new_chunks(old(visible)@, bottom_right_chunk, top_left_chunk)
                &&& forall|i: int, j: int| 0 <= i < j < loaded@.len() ==> chunk_before(loaded@[i], loaded@[j])
                &&& final(viewshed).needs_chunking == (bottom_right_chunk.0 > top_left_chunk.0)
                &&& final(viewshed).needs_sort == old(viewshed).needs_sort
                &&& final(viewshed).request_update == old(viewshed).request_update
                &&& final(viewshed).top_left_world == old(viewshed).top_left_world
                &&& final(viewshed).bottom_right_world == old(viewshed).bottom_right_world
                &&& final(viewshed).center_world == old(viewshed).center_world
            },
    {
        let mut loaded: Vec<(i32, i32)> = Vec::new();
        if !viewshed.needs_chunking {
            return loaded;
        }
        let lo = bottom_right_chunk;
        let hi = top_left_chunk;
        let ghost start = visible@;
        proof {
            assert(walked_set(lo, hi, lo.0 as int, lo.1 as int) =~= Set::<(i32, i32)>::empty());
            assert(visible@ =~= start.union(walked_set(lo, hi, lo.0 as int, lo.1 as int)));
            assert(loaded@.to_set() =~= walked_set(lo, hi, lo.0 as int, lo.1 as int).difference(start));
        }
        let mut x: i64 = lo.0 as i64;
        while x <= hi.0 as i64
            invariant
                lo == bottom_right_chunk,
                hi == top_left_chunk,
                lo.0 <= x <= hi.0 + 1 || (x == lo.0 && lo.0 > hi.0),
                visible@ == start.union(walked_set(lo, hi, x as int, lo.1 as int)),
                loaded@.to_set() == walked_set(lo, hi, x as int, lo.1 as int).difference(start),
                forall|i: int, j: int| 0 <= i < j < loaded@.len() ==> chunk_before(loaded@[i], loaded@[j]),
                forall|i: int| 0 <= i < loaded@.len() ==> loaded@[i].0 < x,
                old(viewshed).needs_chunking,
                viewshed.needs_chunking == (x == lo.0),
                viewshed.needs_sort == old(viewshed).needs_sort,
                viewshed.request_update == old(viewshed).request_update,
                viewshed.top_left_world == old(viewshed).top_left_world,
                viewshed.bottom_right_world == old(viewshed).bottom_right_world,
                viewshed.center_world == old(viewshed).center_world,
            decreases hi.0 as i64 + 1 - x,
        {
            let mut y: i64 = lo.1 as i64;
            while y <= hi.1 as i64
                invariant
                    lo == bottom_right_chunk,
                    hi == top_left_chunk,
                    lo.0 <= x <= hi.0,
                    lo.1 <= y <= hi.1 + 1 || (y == lo.1 && lo.1 > hi.1),
                        visible@ == start.union(walked_set(lo, hi, x as int, y as int)),
                    loaded@.to_set() == walked_set(lo, hi, x as int, y as int).difference(start),
                    forall|i: int, j: int| 0 <= i < j < loaded@.len() ==> chunk_before(loaded@[i], loaded@[j]),
                    forall|i: int| 0 <= i < loaded@.len() ==> (loaded@[i].0 < x || (loaded@[i].0 == x && loaded@[i].1 < y)),
                decreases hi.1 as i64 + 1 - y,
            {
                let c: (i32, i32) = (x as i32, y as i32);
                let ghost before_loaded = loaded@;
                let was_visible = visible.contains(c);
                proof {
                    lemma_walk_step(lo, hi, x as int, y as int);
                }
                if !was_visible {
                    visible.insert(c);
                    loaded.push(c);
                    proof {
                        before_loaded.lemma_push_to_set_commute(c);
                        assert(visible@ =~= start.union(walked_set(lo, hi, x as int, y + 1)));
                        assert(loaded@.to_set() =~= walked_set(lo, hi, x as int, y + 1).difference(start));
                    }
                } else {
                    proof {
                        assert(start.contains(c));
                        assert(visible@ =~= start.union(walked_set(lo, hi, x as int, y + 1)));
                        assert(loaded@.to_set() =~= walked_set(lo, hi, x as int, y + 1).difference(start));
                    }
                }
                y = y + 1;
            }
            proof {
                assert(walked_set(lo, hi, x as int, y as int) =~= walked_set(lo, hi, x + 1, lo.1 as int));
            }
            viewshed.needs_chunking = false;
            x = x + 1;
        }
        proof {
            assert(walked_set(lo, hi, x as int, lo.1 as int) =~= rect_set(lo, hi));
        }
        loaded
    }
}

/// The chunks the walk has passed, as a set.
pub open spec fn walked_set(lo: (i32, i32), hi: (i32, i32), x: int, y: int) -> Set<(i32, i32)> {
    Set::new(|c: (i32, i32)| walked(c, lo, hi, x, y))
}

proof fn lemma_walk_step(lo: (i32, i32), hi: (i32, i32), x: int, y: int)
    requires
        lo.0 <= x <= hi.0,
        lo.1 <= y <= hi.1,
    ensures
        walked_set(lo, hi, x, y + 1) == walked_set(lo, hi, x, y).insert((x as i32, y as i32)),
        !walked_set(lo, hi, x, y).contains((x as i32, y as i32)),
{
    assert(walked_set(lo, hi, x, y + 1) =~= walked_set(lo, hi, x, y).insert((x as i32, y as i32)));
}

/// The ground columns of chunk `chunk` that is `width` x `height` tiles, in
/// drawing order: rows from the last to the first, and in each row columns
/// from the last to the first. Column `c` of row `r` in that order is tile
/// `(x0 + w - 1 - c, y0 + h - 1 - r)` where `(x0, y0)` is the chunk's first
/// tile.
pub open spec fn spec_column(chunk: (i32, i32), w: int, h: int, r: int, c: int) -> (i32, i32) {
    ((chunk.0 * w + w - 1 - c) as i32, (chunk.1 * h + h - 1 - r) as i32)
}

impl RenderTerrainSystem {
    /// The chunk's tile range stays inside `i32`.
    pub open spec fn chunk_fits(chunk: (i32, i32), width: u32, height: u32) -> bool {
        let w = (width as i32) as int;
        let h = (height as i32) as int;
        &&& in_i32(chunk.0 * w)
        &&& in_i32(chunk.0 * w + w)
        &&& in_i32(chunk.1 * h)
        &&& in_i32(chunk.1 * h + h)
    }

    /// The ground columns of a loaded chunk, in the order its blocks are
    /// created: last row first, and last column first within a row.
    pub fn chunk_columns(&self, chunk: (i32, i32), width: u32, height: u32) -> (cols: Vec<(i32, i32)>)
        requires
            Self::chunk_fits(chunk, width, height),
        ensures
            ({
                let w = (width as i32) as int;
                let h = (height as i32) as int;
                let nw = if w > 0 { w } else { 0 };
                let nh = if h > 0 { h } else { 0 };
                &&& cols@.len() == nw * nh
                &&& forall|r: int, c: int|
                    0 <= r < nh && 0 <= c < nw ==> #[trigger] cols@[r * nw + c] == spec_column(chunk, w, h, r, c)
            }),
    {
        let w = width as i32;
        let h = height as i32;
        let start_x = chunk.0 * w;
        let start_y = chunk.1 * h;
        let ghost nw: int = if w > 0 { w as int } else { 0 };
        let ghost nh: int = if h > 0 { h as int } else { 0 };
        let mut cols: Vec<(i32, i32)> = Vec::new();
        let mut y = start_y + h;
        while y > start_y
            invariant
                start_x == chunk.0 * w,
                start_y == chunk.1 * h,
                Self::chunk_fits(chunk, width, height),
                w == width as i32,
                h == height as i32,
                nw == (if w > 0 { w as int } else { 0 }),
                nh == (if h > 0 { h as int } else { 0 }),
                start_y <= y <= start_y + h || (h <= 0 && y == start_y + h),
                h > 0 ==> cols@.len() == (start_y + h - y) * nw,
                h <= 0 ==> cols@.len() == 0,
                forall|r: int, c: int|
                    0 <= r < start_y + h - y && 0 <= c < nw ==> #[trigger] cols@[r * nw + c] == spec_column(
                        chunk,
                        w as int,
                        h as int,
                        r,
                        c,
                    ),
            decreases y - start_y,
        {
            y = y - 1;
            let ghost r: int = start_y + h - 1 - y;
            let ghost base = cols@.len();
            if w > 0 {
                let mut x = start_x + w;
                while x > start_x
                    invariant
                        start_x == chunk.0 * w,
                        start_y == chunk.1 * h,
                        Self::chunk_fits(chunk, width, height),
                        w == width as i32,
                        h == height as i32,
                        nw == (if w > 0 { w as int } else { 0 }),
                        w > 0,
                        h > 0,
                        start_y <= y < start_y + h,
                        r == start_y + h - 1 - y,
                        base == r * nw,
                        start_x <= x <= start_x + w,
                        cols@.len() == base + (start_x + w - x),
                        forall|rr: int, c: int|
                            0 <= rr < r && 0 <= c < nw ==> #[trigger] cols@[rr * nw + c] == spec_column(
                                chunk,
                                w as int,
                                h as int,
                                rr,
                                c,
                            ),
                        forall|c: int|
                            0 <= c < start_x + w - x ==> #[trigger] cols@[r * nw + c] == spec_column(
                                chunk,
                                w as int,
                                h as int,
                                r,
                                c,
                            ),
                    decreases x - start_x,
                {
                    x = x - 1;
                    let ghost before = cols@;
                    cols.push((x, y));
                    proof {
                        let c = start_x + w - 1 - x;
                        assert(cols@[r * nw + c] == (x, y));
                        assert forall|rr: int, cc: int| 0 <= rr < r && 0 <= cc < nw implies #[trigger] cols@[rr * nw + cc]
                            == spec_column(chunk, w as int, h as int, rr, cc) by {
                            lemma_row_index_below(rr, cc, r, nw);
                            assert(cols@[rr * nw + cc] == before[rr * nw + cc]);
                        }
                        assert forall|cc: int| 0 <= cc < start_x + w - x implies #[trigger] cols@[r * nw + cc]
                            == spec_column(chunk, w as int, h as int, r, cc) by {
                            if cc < c {
                                assert(cols@[r * nw + cc] == before[r * nw + cc]);
                            }
                        }
                    }
                }
            }
            proof {
                if w > 0 {
                    assert(cols@.len() == (r + 1) * nw) by (nonlinear_arith)
                        requires
                            cols@.len() == base + w,
                            base == r * nw,
                            nw == w,
                    ;
                } else {
                    assert(cols@.len() == (r + 1) * nw) by (nonlinear_arith)
                        requires
                            cols@.len() == base,
                            base == r * nw,
                            nw == 0,
                    ;
                }
                assert forall|rr: int, c: int|
                    0 <= rr < start_y + h - y && 0 <= c < nw implies #[trigger] cols@[rr * nw + c] == spec_column(
                        chunk,
                        w as int,
                        h as int,
                        rr,
                        c,
                    ) by {
                    if rr < r {
                    } else {
                        assert(rr == r);
                    }
                }
            }
        }
        proof {
            if h > 0 {
                assert(cols@.len() == nh * nw);
                assert(nw * nh == nh * nw) by (nonlinear_arith);
            } else {
                assert(nw * nh == 0) by (nonlinear_arith)
                    requires
                        nh == 0,
                ;
            }
        }
        cols
    }
}

proof fn lemma_row_index_below(rr: int, cc: int, r: int, nw: int)
    requires
        0 <= rr < r,
        0 <= cc < nw,
    ensures
        0 <= rr * nw + cc < r * nw,
{
    assert(rr * nw + cc < (rr + 1) * nw) by (nonlinear_arith)
        requires
            cc < nw,
    ;
    assert((rr + 1) * nw <= r * nw) by (nonlinear_arith)
        requires
            rr + 1 <= r,
            nw > 0,
    ;
    assert(0 <= rr * nw) by (nonlinear_arith)
        requires
            0 <= rr,
            nw > 0,
    ;
}

/// Streaming is idempotent: once a rectangle has been streamed in, a second
/// pass over it loads nothing, and a pass never loads a chunk twice.
pub proof fn lemma_stream_twice_loads_nothing(visible: Set<(i32, i32)>, lo: (i32, i32), hi: (i32, i32))
    ensures
        spec_new_chunks(visible.union(rect_set(lo, hi)), lo, hi) == Set::<(i32, i32)>::empty(),
        spec_new_chunks(visible, lo, hi).disjoint(visible),
{
    assert(spec_new_chunks(visible.union(rect_set(lo, hi)), lo, hi) =~= Set::<(i32, i32)>::empty());
}

/// A screen corner or center already turned into cartesian map units and
/// cut to whole tiles.
pub type CartPoint = (i64, i64);

/// The camera's view, as cartesian points.
#[derive(Clone, Copy, Debug)]
pub struct ViewCorners {
    pub center: CartPoint,
    pub top_left: CartPoint,
    pub top_right: CartPoint,
    pub bottom_left: CartPoint,
    pub bottom_right: CartPoint,
}

pub open spec fn max_i(a: int, b: int) -> int {
    if a >= b { a } else { b }
}

pub open spec fn min_i(a: int, b: int) -> int {
    if a <= b { a } else { b }
}

/// Map coordinates of a cartesian point for the map's current view.
pub open spec fn map_of(map: &MapResource, p: CartPoint) -> (int, int) {
    spec_to_map_coords(map.rotation, p.0 as int, p.1 as int)
}

/// Largest map coordinates among the four corners of the view.
pub open spec fn spec_view_max(map: &MapResource, v: ViewCorners) -> (int, int) {
    let a = map_of(map, v.top_left);
    let b = map_of(map, v.top_right);
    let c = map_of(map, v.bottom_left);
    let d = map_of(map, v.bottom_right);
    (max_i(a.0, max_i(b.0, max_i(c.0, d.0))), max_i(a.1, max_i(b.1, max_i(c.1, d.1))))
}

/// Smallest map coordinates among the four corners of the view.
pub open spec fn spec_view_min(map: &MapResource, v: ViewCorners) -> (int, int) {
    let a = map_of(map, v.top_left);
    let b = map_of(map, v.top_right);
    let c = map_of(map, v.bottom_left);
    let d = map_of(map, v.bottom_right);
    (min_i(a.0, min_i(b.0, min_i(c.0, d.0))), min_i(a.1, min_i(b.1, min_i(c.1, d.1))))
}

fn max_i32(a: i32, b: i32) -> (r: i32)
    ensures
        r == max_i(a as int, b as int),
{
    if a >= b { a } else { b }
}

fn min_i32(a: i32, b: i32) -> (r: i32)
    ensures
        r == min_i(a as int, b as int),
{
    if a <= b { a } else { b }
}

/// Keeps the view shed's map-coordinate bounds up to date.
pub struct ViewshedUpdaterSystem;

impl ViewshedUpdaterSystem {
    /// On request, records the map coordinates of the view's center and the
    /// bounding box of its four corners (level 0), marks the view dirty, and
    /// clears the request. Without a camera only the request is cleared.
    pub fn run(&mut self, map: &MapResource, viewshed: &mut ViewShed, view: Option<ViewCorners>)
        ensures
            !old(viewshed).request_update ==> *final(viewshed) == *old(viewshed),
            old(viewshed).request_update ==> !final(viewshed).request_update,
            old(viewshed).request_update && view is None ==> {
                &&& final(viewshed).top_left_world == old(viewshed).top_left_world
                &&& final(viewshed).bottom_right_world == old(viewshed).bottom_right_world
                &&& final(viewshed).center_world == old(viewshed).center_world
                &&& final(viewshed).needs_chunking == old(viewshed).needs_chunking
                &&& final(viewshed).needs_sort == old(viewshed).needs_sort
            },
            old(viewshed).request_update && view is Some ==> {
                let v = view.unwrap();
                let c = map_of(map, v.center);
                let hi = spec_view_max(map, v);
                let lo = spec_view_min(map, v);
                &&& final(viewshed).center_world matches Some(p) && p.x == c.0 && p.y == c.1 && p.z == 0
                &&& final(viewshed).top_left_world matches Some(p) && p.x == hi.0 && p.y == hi.1 && p.z == 0
                &&& final(viewshed).bottom_right_world matches Some(p) && p.x == lo.0 && p.y == lo.1 && p.z == 0
                &&& final(viewshed).needs_chunking
                &&& final(viewshed).needs_sort
            },
    {
        if !viewshed.request_update {
            return;
        }
        if let Some(v) = view {
            let center_pos = map.to_map_coords(v.center.0, v.center.1);
            viewshed.center_world = Some(WorldPos::new(center_pos.0, center_pos.1, 0));
            let tl = map.to_map_coords(v.top_left.0, v.top_left.1);
            let tr = map.to_map_coords(v.top_right.0, v.top_right.1);
            let bl = map.to_map_coords(v.bottom_left.0, v.bottom_left.1);
            let br = map.to_map_coords(v.bottom_right.0, v.bottom_right.1);
            viewshed.top_left_world = Some(
                WorldPos::new(
                    max_i32(tl.0, max_i32(tr.0, max_i32(bl.0, br.0))),
                    max_i32(tl.1, max_i32(tr.1, max_i32(bl.1, br.1))),
                    0,
                ),
            );
            viewshed.bottom_right_world = Some(
                WorldPos::new(
                    min_i32(tl.0, min_i32(tr.0, min_i32(bl.0, br.0))),
                    min_i32(tl.1, min_i32(tr.1, min_i32(bl.1, br.1))),
                    0,
                ),
            );
            viewshed.dirty();
        }
        viewshed.request_update = false;
    }
}

/// The bounds recorded for a view are ordered: the largest corner
/// coordinates are at least the smallest ones.
pub proof fn lemma_view_bounds_ordered(map: &MapResource, v: ViewCorners)
    ensures
        spec_view_max(map, v).0 >= spec_view_min(map, v).0,
        spec_view_max(map, v).1 >= spec_view_min(map, v).1,
{
}

/// The recorded bounds are the bounding box of the four corners: in each
/// coordinate the largest is at least the map coordinate of every corner and
/// is one of them, and the smallest is at most every corner's and is one of
/// them.
pub proof fn lemma_view_bounds_cover_corners(map: &MapResource, v: ViewCorners)
    ensures
        ({
            let hi = spec_view_max(map, v);
            let lo = spec_view_min(map, v);
            let cs = seq![map_of(map, v.top_left), map_of(map, v.top_right), map_of(map, v.bottom_left), map_of(map, v.bottom_right)];
            &&& forall|i: int| 0 <= i < 4 ==> hi.0 >= (#[trigger] cs[i]).0 && hi.1 >= cs[i].1
            &&& forall|i: int| 0 <= i < 4 ==> lo.0 <= (#[trigger] cs[i]).0 && lo.1 <= cs[i].1
            &&& exists|i: int| 0 <= i < 4 && hi.0 == (#[trigger] cs[i]).0
            &&& exists|i: int| 0 <= i < 4 && hi.1 == (#[trigger] cs[i]).1
            &&& exists|i: int| 0 <= i < 4 && lo.0 == (#[trigger] cs[i]).0
            &&& exists|i: int| 0 <= i < 4 && lo.1 == (#[trigger] cs[i]).1
        }),
{
    let cs = seq![map_of(map, v.top_left), map_of(map, v.top_right), map_of(map, v.bottom_left), map_of(map, v.bottom_right)];
    assert(cs[0] == map_of(map, v.top_left));
    assert(cs[1] == map_of(map, v.top_right));
    assert(cs[2] == map_of(map, v.bottom_left));
    assert(cs[3] == map_of(map, v.bottom_right));
}

/// Turns the map view on key presses, one step per press.
pub struct MapRotateSystem;

impl MapRotateSystem {
    /// With both rotate keys up the cooldown ends; when no cooldown is
    /// running and a key is down the view turns counter-clockwise (left key,
    /// which wins) or clockwise (right key) and the view shed is asked to
    /// update. Returns whether the view turned.
    pub fn run(
        &mut self,
        map: &mut MapResource,
        viewshed: &mut ViewShed,
        rotate_left: bool,
        rotate_right: bool,
    ) -> (turned: bool)
        ensures
            ({
                let cooling = old(map).rotate_cooldown && (rotate_left || rotate_right);
                turned == (!cooling && (rotate_left || rotate_right))
            }),
            turned ==> {
                &&& final(map).rotation == (if rotate_left {
                    spec_ccw(old(map).rotation)
                } else {
                    spec_cw(old(map).rotation)
                })
                &&& final(map).prev_rotation == old(map).rotation
                &&& final(map).rotate_cooldown
                &&& final(viewshed).request_update
            },
            !turned ==> {
                &&& final(map).rotation == old(map).rotation
                &&& final(map).prev_rotation == old(map).prev_rotation
                &&& final(map).rotate_cooldown == (old(map).rotate_cooldown && (rotate_left || rotate_right))
                &&& final(viewshed).request_update == old(viewshed).request_update
            },
            final(map).tile_width == old(map).tile_width,
            final(map).tile_height == old(map).tile_height,
            final(viewshed).top_left_world == old(viewshed).top_left_world,
            final(viewshed).bottom_right_world == old(viewshed).bottom_right_world,
            final(viewshed).center_world == old(viewshed).center_world,
            final(viewshed).needs_chunking == old(viewshed).needs_chunking,
            final(viewshed).needs_sort == old(viewshed).needs_sort,
    {
        if !rotate_left && !rotate_right && map.rotate_cooldown {
            map.rotate_cooldown = false;
        }
        if !map.rotate_cooldown && (rotate_left || rotate_right) {
            if rotate_left {
                map.rotate_ccw();
            } else if rotate_right {
                map.rotate_cw();
            }
            viewshed.request_update = true;
            return true;
        }
        false
    }
}

/// What the cursor is over: a worker, an object, a terrain block, and the
/// map position of the picked tile.
#[derive(Clone, Copy, Debug, PartialEq, Eq, Structural)]
pub struct PickInfo {
    pub worker: Option<u128>,
    pub object: Option<u128>,
    pub terrain: Option<Biome>,
    pub position: Option<WorldPos>,
}

impl Default for PickInfo {
    fn default() -> (p: PickInfo)
        ensures
            p.worker is None,
            p.object is None,
            p.terrain is None,
            p.position is None,
    {
        PickInfo { worker: None, object: None, terrain: None, position: None }
    }
}

/// The currently selected thing (object, terrain, etc.) under the cursor.
#[derive(Clone, Copy, Debug)]
pub struct CursorSelected {
    /// What was clicked on.
    pub pinned: Option<PickInfo>,
    /// What is currently under the mouse cursor.
    pub hover_selected: Option<PickInfo>,
}

impl Default for CursorSelected {
    fn default() -> (c: CursorSelected)
        ensures
            c.pinned is None,
            c.hover_selected is None,
    {
        CursorSelected { pinned: None, hover_selected: None }
    }
}

/// Number of levels the cursor looks through, from level 0 upwards.
pub const SCAN_LEVELS: usize = 63;

/// The tile the cursor scan examines at level `z`: `z` steps along the
/// line of sight from the level-0 tile under the mouse.
pub open spec fn spec_scan_point(d: Direction, map_x: int, map_y: int, z: int) -> (int, int, int) {
    let s = spec_view_step(d);
    (map_x + z * s.0, map_y + z * s.1, z)
}

/// The scan stays inside `i32` for all its steps.
pub open spec fn scan_fits(d: Direction, map_x: int, map_y: int) -> bool {
    let s = spec_view_step(d);
    in_i32(map_x + 63 * s.0) && in_i32(map_y + 63 * s.1)
}

/// A level shows terrain on top: a terrain block with nothing right above.
pub open spec fn is_surface(here: Option<Cell>, above: Option<Cell>) -> bool {
    &&& here matches Some(Cell::Terrain { .. })
    &&& above is None
}

/// The highest scanned level, below `n`, that shows terrain on top.
pub open spec fn spec_surface(here: Seq<Option<Cell>>, above: Seq<Option<Cell>>, n: int) -> Option<int>
    decreases n,
{
    if n <= 0 {
        None
    } else if is_surface(here[n - 1], above[n - 1]) {
        Some(n - 1)
    } else {
        spec_surface(here, above, n - 1)
    }
}

/// What the cursor picks from the scanned cells: the highest level showing
/// terrain, its biome, and that tile's position (the level-0 tile under the
/// mouse when no level shows terrain).
pub open spec fn spec_pick(
    d: Direction,
    map_x: int,
    map_y: int,
    here: Seq<Option<Cell>>,
    above: Seq<Option<Cell>>,
) -> (Option<Biome>, (int, int, int)) {
    match spec_surface(here, above, here.len() as int) {
        Some(z) => (Some(here[z].unwrap()->biome), spec_scan_point(d, map_x, map_y, z)),
        None => (None, (map_x, map_y, 0)),
    }
}

/// Finds what is under the mouse cursor.
pub struct CursorSystem;

impl CursorSystem {
    /// The tile examined at level `z`.
    pub fn scan_point(&self, rotation: Direction, map_x: i32, map_y: i32, z: i32) -> (p: WorldPos)
        requires
            0 <= z <= 63,
            scan_fits(rotation, map_x as int, map_y as int),
        ensures
            (p.x as int, p.y as int, p.z as int) == spec_scan_point(rotation, map_x as int, map_y as int, z as int),
    {
        let s = rotation.view_step();
        WorldPos::new(map_x + z * s.0, map_y + z * s.1, z)
    }

    /// The tile right above `p`, where an object standing on it would be.
    pub fn above(&self, p: &WorldPos) -> (q: WorldPos)
        requires
            p.z < i32::MAX,
        ensures
            q.x == p.x,
            q.y == p.y,
            q.z == p.z + 1,
    {
        WorldPos::new(p.x, p.y, p.z + 1)
    }

    /// Picks the terrain under the cursor from the cells found at each
    /// scanned tile (`here`) and right above it (`above`): the highest level
    /// showing terrain wins. Returns the pick and the picked tile.
    pub fn pick(
        &self,
        rotation: Direction,
        map_x: i32,
        map_y: i32,
        here: &Vec<Option<Cell>>,
        above: &Vec<Option<Cell>>,
    ) -> (r: (PickInfo, WorldPos))
        requires
            here.len() == SCAN_LEVELS,
            above.len() == SCAN_LEVELS,
            scan_fits(rotation, map_x as int, map_y as int),
        ensures
            ({
                let (terrain, pos) = spec_pick(rotation, map_x as int, map_y as int, here@, above@);
                &&& r.0.terrain == terrain
                &&& (r.1.x as int, r.1.y as int, r.1.z as int) == pos
                &&& r.0.position == Some(r.1)
                &&& r.0.worker is None
                &&& r.0.object is None
            }),
    {
        let mut pick = PickInfo::default();
        let mut valid = WorldPos::new(map_x, map_y, 0);
        let mut z: usize = 0;
        while z < SCAN_LEVELS
            invariant
                z <= SCAN_LEVELS,
                here.len() == SCAN_LEVELS,
                above.len() == SCAN_LEVELS,
                scan_fits(rotation, map_x as int, map_y as int),
                pick.worker is None,
                pick.object is None,
                pick.position is None,
                match spec_surface(here@, above@, z as int) {
                    Some(k) => {
                        &&& pick.terrain == Some(here@[k].unwrap()->biome)
                        &&& (valid.x as int, valid.y as int, valid.z as int) == spec_scan_point(
                            rotation,
                            map_x as int,
                            map_y as int,
                            k,
                        )
                    },
                    None => {
                        &&& pick.terrain is None
                        &&& valid == WorldPos { x: map_x, y: map_y, z: 0 }
                    },
                },
            decreases SCAN_LEVELS - z,
        {
            let current = self.scan_point(rotation, map_x, map_y, z as i32);
            match &here[z] {
                Some(Cell::Terrain { biome, .. }) => {
                    if above[z].is_none() {
                        pick.terrain = Some(*biome);
                        valid = current;
                    }
                },
                _ => {},
            }
            z = z + 1;
        }
        pick.position = Some(valid);
        (pick, valid)
    }

    /// Records the object found right above the picked tile, if any.
    pub fn pick_object(&self, pick: &mut PickInfo, cell: &Option<Cell>)
        ensures
            final(pick).object == (match *cell {
                Some(Cell::Object(id)) => Some(id),
                _ => old(pick).object,
            }),
            final(pick).worker == old(pick).worker,
            final(pick).terrain == old(pick).terrain,
            final(pick).position == old(pick).position,
    {
        if let Some(Cell::Object(id)) = cell {
            pick.object = Some(*id);
        }
    }
}

/// The cursor pick is drawn over the tile under the mouse: whatever level
/// the scan picks, the picked tile is placed at the same screen point as
/// the level-0 tile the scan started from.
pub proof fn lemma_pick_under_mouse(
    d: Direction,
    tw: int,
    th: int,
    map_x: int,
    map_y: int,
    here: Seq<Option<Cell>>,
    above: Seq<Option<Cell>>,
)
    ensures
        ({
            let p = spec_pick(d, map_x, map_y, here, above).1;
            let a = crate::resources::spec_place(d, tw, th, p.0, p.1, p.2);
            let b = crate::resources::spec_place(d, tw, th, map_x, map_y, 0);
            a.0 == b.0 && a.1 == b.1
        }),
{
    match spec_surface(here, above, here.len() as int) {
        Some(z) => {
            crate::resources::lemma_line_of_sight(d, tw, th, map_x, map_y, 0, z);
        },
        None => {},
    }
}

/// The scan keeps the highest surface: when level `k` shows terrain on top
/// (a terrain block with nothing right above it) and no scanned level above
/// `k` does, `k` is found, whatever lies below it.
proof fn lemma_surface_is_highest(here: Seq<Option<Cell>>, above: Seq<Option<Cell>>, n: int, k: int)
    requires
        0 <= k < n,
        here[k] matches Some(Cell::Terrain { .. }),
        above[k] is None,
        forall|j: int| k < j < n ==> !is_surface(#[trigger] here[j], above[j]),
    ensures
        spec_surface(here, above, n) == Some(k),
    decreases n,
{
    if n - 1 != k {
        assert(!is_surface(here[n - 1], above[n - 1]));
        lemma_surface_is_highest(here, above, n - 1, k);
    }
}

/// Without any level showing terrain on top, the scan finds nothing.
proof fn lemma_surface_none(here: Seq<Option<Cell>>, above: Seq<Option<Cell>>, n: int)
    requires
        forall|j: int| 0 <= j < n ==> !is_surface(#[trigger] here[j], above[j]),
    ensures
        spec_surface(here, above, n) is None,
    decreases n,
{
    if n > 0 {
        assert(!is_surface(here[n - 1], above[n - 1]));
        lemma_surface_none(here, above, n - 1);
    }
}

/// The cursor picks the highest visible terrain on the line of sight. If
/// the cell scanned at level `k` is terrain with nothing right above it and
/// no higher scanned level is such a surface, the pick is that terrain's
/// biome at the tile `k` steps up the line of sight from the mouse tile,
/// whatever covered terrain lies below. If no scanned level shows terrain on
/// top, nothing is picked and the tile is the level-0 tile under the mouse.
pub proof fn lemma_pick_highest_surface(
    d: Direction,
    map_x: int,
    map_y: int,
    here: Seq<Option<Cell>>,
    above: Seq<Option<Cell>>,
    k: int,
)
    requires
        here.len() == above.len(),
        0 <= k < here.len(),
    ensures
        ({
            let top = forall|j: int|
                k < j < here.len() ==> !((#[trigger] here[j] matches Some(Cell::Terrain { .. })) && above[j] is None);
            let s = spec_view_step(d);
            here[k] matches Some(Cell::Terrain { biome, .. }) ==> (above[k] is None && top ==> spec_pick(
                d,
                map_x,
                map_y,
                here,
                above,
            ) == (Some(biome), (map_x + k * s.0, map_y + k * s.1, k)))
        }),
        (forall|j: int|
            0 <= j < here.len() ==> !((#[trigger] here[j] matches Some(Cell::Terrain { .. })) && above[j] is None))
            ==> spec_pick(d, map_x, map_y, here, above) == (None::<Biome>, (map_x, map_y, 0int)),
{
    let n = here.len() as int;
    if here[k] matches Some(Cell::Terrain { .. }) && above[k] is None && (forall|j: int|
        k < j < n ==> !((#[trigger] here[j] matches Some(Cell::Terrain { .. })) && above[j] is None)) {
        assert forall|j: int| k < j < n implies !is_surface(#[trigger] here[j], above[j]) by {
            assert(!((here[j] matches Some(Cell::Terrain { .. })) && above[j] is None));
        }
        lemma_surface_is_highest(here, above, n, k);
    }
    if forall|j: int| 0 <= j < n ==> !((#[trigger] here[j] matches Some(Cell::Terrain { .. })) && above[j] is None) {
        assert forall|j: int| 0 <= j < n implies !is_surface(#[trigger] here[j], above[j]) by {
            assert(!((here[j] matches Some(Cell::Terrain { .. })) && above[j] is None));
        }
        lemma_surface_none(here, above, n);
    }
}

/// A task for the workers.
#[derive(Clone, Debug)]
pub enum Action {
    /// Harvest the resource at a position: what to harvest, what it yields.
    HarvestResource(WorldPos, String, String),
}

/// What a click step leaves behind: whether the cursor is held down, and
/// whether a click was just completed by releasing the button.
#[derive(Clone, Copy, Debug, PartialEq, Eq, Structural)]
pub struct ClickUpdate {
    pub cursor_down: bool,
    pub released: bool,
}

/// Turns mouse presses on the cursor into clicks.
pub struct ClickSystem;

impl ClickSystem {
    /// One frame of the click state machine: pressing marks the cursor
    /// down; releasing a cursor that was down completes a click and clears
    /// the mark.
    pub fn run(&mut self, cursor_down: bool, mouse_down: bool) -> (u: ClickUpdate)
        ensures
            u.released == (cursor_down && !mouse_down),
            u.cursor_down == mouse_down,
    {
        let mut down = cursor_down;
        if !down && mouse_down {
            down = true;
        }
        let mut released = false;
        if down && !mouse_down {
            released = true;
            down = false;
        }
        ClickUpdate { cursor_down: down, released }
    }

    /// The task a completed click queues: when the hovered pick has an
    /// object that is known and has a map position, harvest wood from the
    /// tree there.
    pub fn harvest(
        &self,
        hover: &Option<PickInfo>,
        object_known: bool,
        object_pos: Option<WorldPos>,
    ) -> (a: Option<Action>)
        ensures
            (a is Some) == (hover matches Some(p) && p.object is Some && object_known && object_pos is Some),
            a matches Some(Action::HarvestResource(pos, what, yields)) ==> {
                &&& Some(pos) == object_pos
                &&& what@ == "tree"@
                &&& yields@ == "wood"@
            },
    {
        if let Some(pick) = hover {
            if pick.object.is_some() && object_known {
                if let Some(pos) = object_pos {
                    return Some(Action::HarvestResource(pos, String::from_str("tree"), String::from_str("wood")));
                }
            }
        }
        None
    }
}

/// Moves the player tile by tile.
pub struct PlayerMovement;

impl PlayerMovement {
    /// May the player at cartesian point `(cart_x, cart_y)` step by
    /// `(dx, dy)` without leaving `i32`.
    pub open spec fn step_fits(map: &MapResource, cart_x: i64, cart_y: i64, dx: i32, dy: i32) -> bool {
        let m = spec_to_map_coords(map.rotation, cart_x as int, cart_y as int);
        in_i32(m.0 + dx) && in_i32(m.1 + dy)
    }

    /// The ground tile the player steps to: the player's map tile moved by
    /// the input.
    pub fn target(&self, map: &MapResource, cart_x: i64, cart_y: i64, dx: i32, dy: i32) -> (p: WorldPos)
        requires
            Self::step_fits(map, cart_x, cart_y, dx, dy),
        ensures
            ({
                let m = spec_to_map_coords(map.rotation, cart_x as int, cart_y as int);
                p.x == m.0 + dx && p.y == m.1 + dy && p.z == 0
            }),
    {
        let m = map.to_map_coords(cart_x, cart_y);
        WorldPos::new(m.0 + dx, m.1 + dy, 0)
    }

    /// The player only moves onto a tile that holds nothing.
    pub fn moves_to(&self, target: WorldPos, cell: &Option<Cell>) -> (r: Option<WorldPos>)
        ensures
            r == (if cell is None { Some(target) } else { None::<WorldPos> }),
    {
        if cell.is_none() {
            Some(target)
        } else {
            None
        }
    }
}

/// What happens to a drawn object after a simulation step.
#[derive(Clone, Copy, Debug, PartialEq, Eq, Structural)]
pub enum ObjectUpdate {
    /// Draw it at this placement.
    Place(crate::resources::Placement),
    /// It is gone from the simulation: remove it from the world.
    Delete,
}

/// Keeps drawn objects in step with the simulation.
pub struct ObjectSim;

impl ObjectSim {
    /// An object still in the simulation at tile `(x, y)` is placed there;
    /// one no longer in the simulation is deleted.
    pub fn update(&self, map: &crate::flat_map::MapResource, object: Option<(u32, u32)>) -> (u: ObjectUpdate)
        ensures
            match object {
                Some((x, y)) => u matches ObjectUpdate::Place(p) && (p.x2 as int, p.y2 as int, p.depth as int)
                    == crate::flat_map::spec_flat_place(
                        map.tile_width as int,
                        map.tile_height as int,
                        map.tile_offset as int,
                        (x as i32) as int,
                        (y as i32) as int,
                    ),
                None => u == ObjectUpdate::Delete,
            },
    {
        match object {
            Some((x, y)) => ObjectUpdate::Place(map.place(x as i32, y as i32)),
            None => ObjectUpdate::Delete,
        }
    }
}

/// Moves the drawn workers to where the simulation has them.
pub struct NPCMovement;

impl NPCMovement {
    /// A worker known to the simulation at tile `(x, y)` is placed there;
    /// otherwise it is left where it is.
    pub fn update(&self, map: &crate::flat_map::MapResource, worker: Option<(u32, u32)>) -> (p: Option<crate::resources::Placement>)
        ensures
            match worker {
                Some((x, y)) => p matches Some(q) && (q.x2 as int, q.y2 as int, q.depth as int)
                    == crate::flat_map::spec_flat_place(
                        map.tile_width as int,
                        map.tile_height as int,
                        map.tile_offset as int,
                        (x as i32) as int,
                        (y as i32) as int,
                    ),
                None => p is None,
            },
    {
        match worker {
            Some((x, y)) => Some(map.place(x as i32, y as i32)),
            None => None,
        }
    }
}

} // verus!
