use dwarf_game::components::{PassInfo, SpriteVisibility};
use dwarf_game::entity::{self, Sign};
use dwarf_game::entity::Direction as D;
use dwarf_game::flat_map;
use dwarf_game::render::{DrawTerrainDesc, Direction, MapRenderer, RenderSprites, RenderTerrain, Target};
use dwarf_game::resources::Placement;
use dwarf_game::sprite::{load_sprite_sheet, sheet_names, sprite_sheet_paths, SpriteSheetStorage};
use std::cell::RefCell;
use dwarf_game::terrain::{terrain_sprite, Biome, Cell, VisibleChunks};

#[test]
fn sprite_paths() {
    let (t, s) = sprite_sheet_paths("npc");
    assert_eq!(t, "textures/npc/spritesheet.png");
    assert_eq!(s, "textures/npc/spritesheet.ron");
}

#[test]
fn load_sheet_threads_texture_into_layout() {
    let h = load_sprite_sheet(|p: String| format!("tex<{}>", p), |p: String, t: String| format!("{} using {}", p, t), "cursor");
    assert_eq!(h, "textures/cursor/spritesheet.ron using tex<textures/cursor/spritesheet.png>");
}

#[test]
fn storage_loads_every_sheet_by_name() {
    let s = SpriteSheetStorage::new(|name: &str| name.to_string());
    assert_eq!(s.cursor, "cursor");
    assert_eq!(s.object, "objects");
    assert_eq!(s.terrain, "terrain");
    assert_eq!(s.player, "player");
    assert_eq!(s.npc, "npc");
}

#[test]
fn sprite_index_per_biome() {
    let expected = [
        (Biome::TAIGA, 0),
        (Biome::SNOW, 1),
        (Biome::TUNDRA, 1),
        (Biome::GRASSLAND, 2),
        (Biome::OCEAN, 3),
        (Biome::BEACH, 4),
        (Biome::ROCK, 5),
    ];
    for (b, i) in expected {
        assert_eq!(b.sprite_index(), i);
    }
}

#[test]
fn terrain_sprite_needs_visible_face() {
    let hidden = Some(Cell::Terrain { biome: Biome::BEACH, visible_faces: vec![false, false, false] });
    let shown = Some(Cell::Terrain { biome: Biome::BEACH, visible_faces: vec![false, true, false] });
    let no_faces = Some(Cell::Terrain { biome: Biome::BEACH, visible_faces: vec![] });
    assert_eq!(terrain_sprite(&hidden), None);
    assert_eq!(terrain_sprite(&shown), Some(4));
    assert_eq!(terrain_sprite(&no_faces), None);
    assert_eq!(terrain_sprite(&Some(Cell::Object(1))), None);
    assert_eq!(terrain_sprite(&None), None);
}

#[test]
fn visible_chunks_set() {
    let mut v = VisibleChunks::new();
    assert!(!v.contains((1, -1)));
    assert!(v.insert((1, -1)));
    assert!(v.contains((1, -1)));
    assert!(!v.contains((-1, 1)));
    assert!(v.insert((-1, 1)));
    assert!(!v.insert((-1, 1)));
    assert!(v.contains((-1, 1)) && v.contains((1, -1)));
    // Coordinates that share bits are still told apart.
    assert!(!v.contains((-1, -1)) && !v.contains((1, 1)));
}

#[test]
fn render_plugins_targets() {
    let r = RenderSprites::default();
    assert!(matches!(r.target, Target::Main));
    let r = r.with_target(Target::Custom("minimap"));
    assert!(matches!(r.target, Target::Custom("minimap")));
    let t = RenderTerrain::default().with_target(Target::Custom("map"));
    assert!(matches!(t.target, Target::Custom("map")));
    assert!(matches!(Target::default(), Target::Main));
    assert_eq!(DrawTerrainDesc::new(), DrawTerrainDesc::default());
}

#[test]
fn map_renderer_is_north_view() {
    let r = MapRenderer::initialize(16, 32);
    assert_eq!(r.place(3, 1, 2, Direction::SOUTH), Placement { x2: 64, y2: 128, depth: -4 });
    assert_eq!(r.to_map_coords(-3, 7), (-3, 7));
    assert_eq!(r.to_map_coords(i64::MIN, 1 << 40), (i32::MIN, i32::MAX));
}

#[test]
fn pass_info_records() {
    let mut p = PassInfo::default();
    assert_eq!(p, PassInfo { num_entities: None, walltime: None });
    p.record(12, 3);
    assert_eq!(p, PassInfo { num_entities: Some(12), walltime: Some(3) });
    assert!(SpriteVisibility::default().order.is_empty());
}

#[test]
fn facing_eight_ways() {
    let p = |x, y| entity::Player::calculate_direction(x, y);
    assert_eq!(p(Sign::Negative, Sign::Positive), D::NORTHWEST);
    assert_eq!(p(Sign::Negative, Sign::Negative), D::SOUTHWEST);
    assert_eq!(p(Sign::Negative, Sign::Zero), D::WEST);
    assert_eq!(p(Sign::Positive, Sign::Positive), D::NORTHEAST);
    assert_eq!(p(Sign::Positive, Sign::Negative), D::SOUTHEAST);
    assert_eq!(p(Sign::Positive, Sign::Unordered), D::EAST);
    assert_eq!(p(Sign::Zero, Sign::Positive), D::NORTH);
    assert_eq!(p(Sign::Zero, Sign::Negative), D::SOUTH);
    assert_eq!(p(Sign::Zero, Sign::Zero), D::IDLE);
    assert_eq!(p(Sign::Unordered, Sign::Positive), D::IDLE);
    assert_eq!(D::default(), D::IDLE);
    assert_eq!(D::SOUTHWEST.index(), 8);
    assert_eq!(D::NORTH.index(), 3);
}

#[test]
fn facing_four_ways() {
    let p = |x, y| entity::player::Player::calculate_direction(x, y);
    assert_eq!(p(Sign::Negative, Sign::Positive), D::WEST);
    assert_eq!(p(Sign::Positive, Sign::Negative), D::EAST);
    assert_eq!(p(Sign::Zero, Sign::Positive), D::NORTH);
    assert_eq!(p(Sign::Zero, Sign::Negative), D::SOUTH);
    assert_eq!(p(Sign::Zero, Sign::Zero), D::NORTH);
    assert_eq!(p(Sign::Unordered, Sign::Negative), D::NORTH);
}

#[test]
fn flat_map_collisions_and_placement() {
    let m = flat_map::MapResource { tile_width: 32, tile_height: 20, tile_offset: 4, width: 10, height: 8 };
    assert!(!m.has_collision(-1, 3, |_, _| true));
    assert!(!m.has_collision(11, 3, |_, _| true));
    assert!(!m.has_collision(3, 9, |_, _| true));
    // The far edge itself is still inside.
    assert!(m.has_collision(10, 8, |x, y| x == 10 && y == 8));
    assert!(!m.has_collision(2, 2, |_, _| false));
    assert_eq!(m.place(5, 5), Placement { x2: 0, y2: 160, depth: -10 });
    assert_eq!(m.place(3, 1), Placement { x2: 64, y2: 64, depth: -4 });
    assert_eq!(m.to_map_coords(4, -2), (4, -2));
}

#[test]
fn sheets_load_once_each_in_order() {
    assert_eq!(sheet_names(), vec!["cursor", "objects", "terrain", "player", "npc"]);
    let log: RefCell<Vec<String>> = RefCell::new(Vec::new());
    let s = SpriteSheetStorage::new(|name: &str| {
        log.borrow_mut().push(name.to_string());
        log.borrow().len()
    });
    assert_eq!(*log.borrow(), vec!["cursor", "objects", "terrain", "player", "npc"]);
    assert_eq!((s.cursor, s.object, s.terrain, s.player, s.npc), (1, 2, 3, 4, 5));
}

#[test]
fn flat_map_setup() {
    let m = flat_map::MapResource::initialize(32, 20, 4, 10, 8);
    assert_eq!(m, flat_map::MapResource { tile_width: 32, tile_height: 20, tile_offset: 4, width: 10, height: 8 });
    assert_eq!(flat_map::MapResource::floor_sprite(flat_map::FloorKind::STONE), 0);
    assert_eq!(flat_map::MapResource::floor_sprite(flat_map::FloorKind::MARBLE), 1);
    assert_eq!(flat_map::MapResource::floor_sprite(flat_map::FloorKind::GRASS), 2);
    assert_eq!(flat_map::MapResource::floor_sprite(flat_map::FloorKind::Other), 0);
    assert_eq!(
        flat_map::MapResource::floor_cells(3, 2),
        vec![(0, 0), (1, 0), (2, 0), (0, 1), (1, 1), (2, 1)]
    );
    assert!(flat_map::MapResource::floor_cells(0, 5).is_empty());
    assert!(flat_map::MapResource::floor_cells(4, 0).is_empty());
    assert_eq!(flat_map::MapResource::initial_object(), ((5, 5), 2));
}

#[test]
fn whats_at_asks_objects_first() {
    let m = flat_map::MapResource::initialize(32, 20, 4, 10, 8);
    let asked = RefCell::new(Vec::new());
    let objects = |x: u32, y: u32| format!("[object at {}, {}]", x, y);
    let terrain = |x: u32, y: u32| format!("Some(GRASS) at {}, {}", x, y);
    let r = m
        .whats_at(2, 3, |x, y| x == 2 && y == 3, |x, y| {
            asked.borrow_mut().push((x, y));
            true
        }, objects, terrain)
        .unwrap();
    assert!(!r.is_terrain);
    assert_eq!(r.description, "[object at 2, 3]");
    assert!(asked.borrow().is_empty());
    let r = m
        .whats_at(4, 1, |_, _| false, |x, y| {
            asked.borrow_mut().push((x, y));
            x == 4 && y == 1
        }, objects, terrain)
        .unwrap();
    assert!(r.is_terrain);
    assert_eq!(r.description, "Some(GRASS) at 4, 1");
    assert_eq!(*asked.borrow(), vec![(4, 1)]);
    assert!(m.whats_at(7, 7, |_, _| false, |_, _| false, objects, terrain).is_none());
}

#[test]
fn flat_pick_reads_back_placed_tile() {
    let m = flat_map::MapResource { tile_width: 32, tile_height: 20, tile_offset: 4, width: 10, height: 8 };
    let tw = m.tile_width as f64;
    let th = (m.tile_height - m.tile_offset) as f64;
    for (x, y) in [(3, 1), (5, 5), (0, 7), (9, 2)] {
        let p = m.place(x, y);
        let (sx, sy) = (p.x2 as f64 / 2.0, p.y2 as f64 / 2.0);
        let cart_x = (sx / tw + sy / th).trunc() as i64;
        let cart_y = (sy / th - sx / tw).trunc() as i64;
        assert_eq!(m.to_map_coords(cart_x, cart_y), (x, y));
    }
}

#[test]
fn whole_map_terrain_blocks() {
    let r = MapRenderer::initialize(16, 32);
    let mut cells: Vec<Option<(Biome, bool)>> = vec![None; 32];
    cells[0] = Some((Biome::GRASSLAND, true));
    cells[5] = Some((Biome::ROCK, false));
    cells[31] = Some((Biome::OCEAN, true));
    assert_eq!(
        r.terrain_blocks(1, 1, &cells),
        vec![(0, 0, 32, Some(2)), (0, 0, 37, None), (0, 0, 63, Some(3))]
    );
    let mut cells: Vec<Option<(Biome, bool)>> = vec![None; 128];
    cells[40] = Some((Biome::BEACH, true));
    cells[100] = Some((Biome::SNOW, true));
    assert_eq!(r.terrain_blocks(2, 2, &cells), vec![(1, 0, 40, Some(4)), (1, 1, 36, Some(1))]);
    assert!(r.terrain_blocks(0, 3, &Vec::new()).is_empty());
}
