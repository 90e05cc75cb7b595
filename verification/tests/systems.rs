use dwarf_game::geometry::{Direction, WorldPos};
use dwarf_game::resources::{MapResource, ViewShed};
use dwarf_game::systems::{
    Action, ClickSystem, ClickUpdate, CursorSelected, CursorSystem, MapRotateSystem, PickInfo,
    PlayerMovement, RenderTerrainSystem, ViewCorners, ViewshedUpdaterSystem, SCAN_LEVELS,
};
use dwarf_game::terrain::{Biome, Cell, VisibleChunks};
use dwarf_game::flat_map;
use dwarf_game::resources::Placement;
use dwarf_game::systems::{NPCMovement, ObjectSim, ObjectUpdate};

fn map(rotation: Direction) -> MapResource {
    MapResource {
        rotation,
        prev_rotation: rotation,
        rotate_cooldown: false,
        tile_height: 16,
        tile_width: 32,
    }
}

#[test]
fn viewshed_default_requests_update() {
    let v = ViewShed::default();
    assert!(v.request_update);
    assert!(!v.needs_chunking);
    assert!(!v.needs_sort);
    assert!(v.top_left_world.is_none() && v.bottom_right_world.is_none() && v.center_world.is_none());
}

#[test]
fn viewshed_dirty_sets_both_flags() {
    let mut v = ViewShed::default();
    v.dirty();
    assert!(v.needs_chunking && v.needs_sort && v.request_update);
}

#[test]
fn viewshed_update_bounds() {
    let m = map(Direction::NORTH);
    let mut v = ViewShed::default();
    let corners = ViewCorners {
        center: (5, 5),
        top_left: (-10, 20),
        top_right: (20, 20),
        bottom_left: (-10, -10),
        bottom_right: (20, -10),
    };
    ViewshedUpdaterSystem.run(&m, &mut v, Some(corners));
    assert_eq!(v.center_world, Some(WorldPos::new(5, 5, 0)));
    assert_eq!(v.top_left_world, Some(WorldPos::new(20, 20, 0)));
    assert_eq!(v.bottom_right_world, Some(WorldPos::new(-10, -10, 0)));
    assert!(v.needs_chunking && v.needs_sort);
    assert!(!v.request_update);

    // No request: nothing changes.
    let before = (v.top_left_world, v.needs_chunking);
    let other = ViewCorners { center: (0, 0), top_left: (0, 0), top_right: (0, 0), bottom_left: (0, 0), bottom_right: (0, 0) };
    ViewshedUpdaterSystem.run(&m, &mut v, Some(other));
    assert_eq!((v.top_left_world, v.needs_chunking), before);
}

#[test]
fn viewshed_update_rotated_and_without_camera() {
    let m = map(Direction::SOUTH);
    let mut v = ViewShed::default();
    let corners = ViewCorners {
        center: (1, 2),
        top_left: (3, 4),
        top_right: (-3, 4),
        bottom_left: (3, -4),
        bottom_right: (-3, -4),
    };
    ViewshedUpdaterSystem.run(&m, &mut v, Some(corners));
    assert_eq!(v.center_world, Some(WorldPos::new(-1, -2, 0)));
    assert_eq!(v.top_left_world, Some(WorldPos::new(3, 4, 0)));
    assert_eq!(v.bottom_right_world, Some(WorldPos::new(-3, -4, 0)));

    let mut w = ViewShed::default();
    ViewshedUpdaterSystem.run(&m, &mut w, None);
    assert!(!w.request_update);
    assert!(!w.needs_chunking && w.top_left_world.is_none());
}

#[test]
fn chunk_streaming_loads_new_chunks_in_walk_order() {
    let mut sys = RenderTerrainSystem;
    let mut v = ViewShed::default();
    v.needs_chunking = true;
    let mut visible = VisibleChunks::new();
    let loaded = sys.run(&mut v, &mut visible, (1, 1), (0, 0));
    assert_eq!(loaded, vec![(0, 0), (0, 1), (1, 0), (1, 1)]);
    assert!(!v.needs_chunking);
    assert!([(0, 0), (0, 1), (1, 0), (1, 1)].iter().all(|c| visible.contains(*c)));

    // Overlapping rectangle: only the new column is loaded.
    v.needs_chunking = true;
    let loaded = sys.run(&mut v, &mut visible, (2, 1), (1, 0));
    assert_eq!(loaded, vec![(2, 0), (2, 1)]);
    assert!(visible.contains((2, 0)) && visible.contains((2, 1)));

    // Same rectangle again: nothing new.
    v.needs_chunking = true;
    let loaded = sys.run(&mut v, &mut visible, (2, 1), (1, 0));
    assert!(loaded.is_empty());
    assert!(!visible.insert((2, 1)));
    assert!(visible.contains((2, 1)) && !visible.contains((3, 1)));
}

#[test]
fn chunk_streaming_needs_request() {
    let mut sys = RenderTerrainSystem;
    let mut v = ViewShed::default();
    let mut visible = VisibleChunks::new();
    let loaded = sys.run(&mut v, &mut visible, (1, 1), (0, 0));
    assert!(loaded.is_empty());
    assert!(!visible.contains((0, 0)) && !visible.contains((1, 1)));
}

#[test]
fn chunk_streaming_empty_columns_keep_request() {
    let mut sys = RenderTerrainSystem;
    let mut v = ViewShed::default();
    v.needs_chunking = true;
    let mut visible = VisibleChunks::new();
    // No column: the request stays.
    let loaded = sys.run(&mut v, &mut visible, (0, 5), (1, 0));
    assert!(loaded.is_empty());
    assert!(v.needs_chunking);
    // Columns but no rows: the request is cleared.
    let loaded = sys.run(&mut v, &mut visible, (3, 0), (1, 5));
    assert!(loaded.is_empty());
    assert!(!v.needs_chunking);
}

#[test]
fn rotate_system_turns_once_per_press() {
    let mut m = map(Direction::NORTH);
    let mut v = ViewShed::default();
    v.request_update = false;
    let mut sys = MapRotateSystem;
    assert!(sys.run(&mut m, &mut v, false, true));
    assert_eq!(m.rotation, Direction::WEST);
    assert!(m.rotate_cooldown && v.request_update);
    // Key still held: no second turn.
    v.request_update = false;
    assert!(!sys.run(&mut m, &mut v, false, true));
    assert_eq!(m.rotation, Direction::WEST);
    assert!(!v.request_update);
    // Released: cooldown ends.
    assert!(!sys.run(&mut m, &mut v, false, false));
    assert!(!m.rotate_cooldown);
    // Left wins over right and turns counter-clockwise.
    assert!(sys.run(&mut m, &mut v, true, true));
    assert_eq!(m.rotation, Direction::NORTH);
    assert_eq!(m.prev_rotation, Direction::WEST);
}

fn terrain(b: Biome) -> Option<Cell> {
    Some(Cell::Terrain { biome: b, visible_faces: vec![true] })
}

#[test]
fn cursor_scan_points_follow_line_of_sight() {
    let c = CursorSystem;
    assert_eq!(c.scan_point(Direction::NORTH, 10, 10, 3), WorldPos::new(7, 7, 3));
    assert_eq!(c.scan_point(Direction::EAST, 10, 10, 3), WorldPos::new(7, 13, 3));
    assert_eq!(c.scan_point(Direction::SOUTH, 10, 10, 3), WorldPos::new(13, 13, 3));
    assert_eq!(c.scan_point(Direction::WEST, 10, 10, 3), WorldPos::new(13, 7, 3));
    assert_eq!(c.above(&WorldPos::new(1, 2, 3)), WorldPos::new(1, 2, 4));
}

#[test]
fn cursor_picks_highest_surface() {
    let c = CursorSystem;
    let mut here: Vec<Option<Cell>> = vec![None; SCAN_LEVELS];
    let mut above: Vec<Option<Cell>> = vec![None; SCAN_LEVELS];
    here[2] = terrain(Biome::ROCK);
    here[5] = terrain(Biome::GRASSLAND);
    // Level 7 is covered by something right above it.
    here[7] = terrain(Biome::SNOW);
    above[7] = terrain(Biome::SNOW);
    // An object is not terrain.
    here[9] = Some(Cell::Object(42));
    let (pick, pos) = c.pick(Direction::NORTH, 20, 30, &here, &above);
    assert_eq!(pos, WorldPos::new(15, 25, 5));
    assert_eq!(pick.terrain, Some(Biome::GRASSLAND));
    assert_eq!(pick.position, Some(pos));
    assert_eq!(pick.object, None);
    assert_eq!(pick.worker, None);
}

#[test]
fn cursor_without_surface_picks_ground_tile() {
    let c = CursorSystem;
    let here: Vec<Option<Cell>> = vec![None; SCAN_LEVELS];
    let above: Vec<Option<Cell>> = vec![None; SCAN_LEVELS];
    let (pick, pos) = c.pick(Direction::EAST, -4, 9, &here, &above);
    assert_eq!(pos, WorldPos::new(-4, 9, 0));
    assert_eq!(pick.terrain, None);
    assert_eq!(pick.position, Some(pos));
}

#[test]
fn cursor_records_object_above() {
    let c = CursorSystem;
    let mut pick = PickInfo::default();
    c.pick_object(&mut pick, &Some(Cell::Object(7)));
    assert_eq!(pick.object, Some(7));
    let mut other = PickInfo::default();
    c.pick_object(&mut other, &terrain(Biome::OCEAN));
    assert_eq!(other.object, None);
    c.pick_object(&mut other, &None);
    assert_eq!(other, PickInfo::default());
}

#[test]
fn cursor_selected_starts_empty() {
    let s = CursorSelected::default();
    assert!(s.pinned.is_none() && s.hover_selected.is_none());
}

#[test]
fn click_press_then_release() {
    let mut c = ClickSystem;
    assert_eq!(c.run(false, true), ClickUpdate { cursor_down: true, released: false });
    assert_eq!(c.run(true, true), ClickUpdate { cursor_down: true, released: false });
    assert_eq!(c.run(true, false), ClickUpdate { cursor_down: false, released: true });
    assert_eq!(c.run(false, false), ClickUpdate { cursor_down: false, released: false });
}

#[test]
fn click_on_object_queues_harvest() {
    let c = ClickSystem;
    let pick = PickInfo { object: Some(3), ..PickInfo::default() };
    let pos = WorldPos::new(4, 5, 6);
    match c.harvest(&Some(pick), true, Some(pos)) {
        Some(Action::HarvestResource(p, what, yields)) => {
            assert_eq!(p, pos);
            assert_eq!(what, "tree");
            assert_eq!(yields, "wood");
        }
        None => panic!("expected a harvest task"),
    }
    assert!(c.harvest(&Some(pick), false, Some(pos)).is_none());
    assert!(c.harvest(&Some(pick), true, None).is_none());
    assert!(c.harvest(&Some(PickInfo::default()), true, Some(pos)).is_none());
    assert!(c.harvest(&None, true, Some(pos)).is_none());
}

#[test]
fn player_steps_onto_empty_tiles_only() {
    let p = PlayerMovement;
    let m = map(Direction::NORTH);
    let t = p.target(&m, 3, 4, 1, -1);
    assert_eq!(t, WorldPos::new(4, 3, 0));
    assert_eq!(p.moves_to(t, &None), Some(t));
    assert_eq!(p.moves_to(t, &terrain(Biome::ROCK)), None);
    let west = map(Direction::WEST);
    assert_eq!(p.target(&west, 3, 4, 1, 0), WorldPos::new(-3, 3, 0));
}

#[test]
fn object_sim_places_or_deletes() {
    let m = flat_map::MapResource { tile_width: 32, tile_height: 20, tile_offset: 4, width: 10, height: 8 };
    assert_eq!(ObjectSim.update(&m, Some((3, 1))), ObjectUpdate::Place(Placement { x2: 64, y2: 64, depth: -4 }));
    assert_eq!(ObjectSim.update(&m, None), ObjectUpdate::Delete);
    assert_eq!(NPCMovement.update(&m, Some((2, 2))), Some(Placement { x2: 0, y2: 64, depth: -4 }));
    assert_eq!(NPCMovement.update(&m, None), None);
}

#[test]
fn chunk_columns_in_drawing_order() {
    let sys = RenderTerrainSystem;
    assert_eq!(
        sys.chunk_columns((1, 2), 2, 3),
        vec![(3, 8), (2, 8), (3, 7), (2, 7), (3, 6), (2, 6)]
    );
    assert_eq!(sys.chunk_columns((-1, 0), 4, 1), vec![(-1, 0), (-2, 0), (-3, 0), (-4, 0)]);
    assert!(sys.chunk_columns((5, 5), 0, 3).is_empty());
    assert!(sys.chunk_columns((5, 5), 3, 0).is_empty());
}
