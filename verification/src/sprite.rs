//! Sprite sheets: where each sheet's texture and layout live, and the set
//! of sheets the game loads.
use vstd::prelude::*;

verus! {

/// Path of the texture image of sprite sheet `name`.
pub open spec fn spec_texture_path(name: Seq<char>) -> Seq<char> {
    "textures/"@ + name + "/spritesheet.png"@
}

/// Path of the sprite layout of sprite sheet `name`.
pub open spec fn spec_sheet_path(name: Seq<char>) -> Seq<char> {
    "textures/"@ + name + "/spritesheet.ron"@
}

/// The texture path and the layout path of sprite sheet `name`.
pub fn sprite_sheet_paths(name: &str) -> (r: (String, String))
    ensures
        r.0@ == spec_texture_path(name@),
        r.1@ == spec_sheet_path(name@),
{
    let mut texture = String::from_str("textures/");
    texture.append(name);
    texture.append("/spritesheet.png");
    let mut sheet = String::from_str("textures/");
    sheet.append(name);
    sheet.append("/spritesheet.ron");
    (texture, sheet)
}

/// Loads sprite sheet `name`: its texture first, then its layout, which
/// refers to that texture. `load_texture` and `load_sheet` do the loading
/// from a path; the handle of the sheet is returned.
pub fn load_sprite_sheet<T, H, FT: Fn(String) -> T, FS: Fn(String, T) -> H>(
    load_texture: FT,
    load_sheet: FS,
    name: &str,
) -> (h: H)
    requires
        forall|p: String| load_texture.requires((p,)),
        forall|p: String, t: T| load_sheet.requires((p, t)),
    ensures
        exists|tp: String, sp: String, t: T|
            {
                &&& tp@ == spec_texture_path(name@)
                &&& sp@ == spec_sheet_path(name@)
                &&& load_texture.ensures((tp,), t)
                &&& load_sheet.ensures((sp, t), h)
            },
{
    let (texture_path, sheet_path) = sprite_sheet_paths(name);
    let ghost tp = texture_path;
    let ghost sp = sheet_path;
    let texture = load_texture(texture_path);
    let ghost t = texture;
    let h = load_sheet(sheet_path, texture);
    assert(load_texture.ensures((tp,), t) && load_sheet.ensures((sp, t), h));
    h
}

/// The sprite sheets of the game, in the order they are loaded: the
/// cursor, objects, terrain, the player and workers.
pub open spec fn spec_sheet_names() -> Seq<&'static str> {
    seq!["cursor", "objects", "terrain", "player", "npc"]
}

/// Names of the sprite sheets, in loading order.
pub fn sheet_names() -> (names: Vec<&'static str>)
    ensures
        names@ == spec_sheet_names(),
{
    let names = vec!["cursor", "objects", "terrain", "player", "npc"];
    assert(names@ =~= spec_sheet_names());
    names
}

/// Handles of all the sprite sheets the game draws with.
pub struct SpriteSheetStorage<H> {
    pub cursor: H,
    pub object: H,
    pub terrain: H,
    pub player: H,
    pub npc: H,
}

impl<H> SpriteSheetStorage<H> {
    /// The handles in loading order, matching `spec_sheet_names`.
    pub open spec fn spec_handles(&self) -> Seq<H> {
        seq![self.cursor, self.object, self.terrain, self.player, self.npc]
    }

    /// Loads every sheet with `load`, walking `sheet_names` in order: the
    /// cursor from "cursor", objects from "objects", terrain from "terrain",
    /// the player from "player" and workers from "npc".
    pub fn new<F: Fn(&str) -> H>(load: F) -> (s: Self)
        requires
            forall|name: &str| load.requires((name,)),
        ensures
            forall|i: int| 0 <= i < 5 ==> load.ensures((#[trigger] spec_sheet_names()[i],), s.spec_handles()[i]),
            load.ensures(("cursor",), s.cursor),
            load.ensures(("objects",), s.object),
            load.ensures(("terrain",), s.terrain),
            load.ensures(("player",), s.player),
            load.ensures(("npc",), s.npc),
    {
        let names = sheet_names();
        let mut handles: Vec<H> = Vec::new();
        let mut i: usize = 0;
        while i < names.len()
            invariant
                names@ == spec_sheet_names(),
                i <= names@.len(),
                handles@.len() == i,
                forall|name: &str| load.requires((name,)),
                forall|j: int| 0 <= j < i ==> load.ensures((names@[j],), #[trigger] handles@[j]),
            decreases names@.len() - i,
        {
            handles.push(load(names[i]));
            i = i + 1;
        }
        let ghost loaded = handles@;
        let npc = handles.pop().unwrap();
        let player = handles.pop().unwrap();
        let terrain = handles.pop().unwrap();
        let object = handles.pop().unwrap();
        let cursor = handles.pop().unwrap();
        proof {
            assert(load.ensures((names@[0],), loaded[0]));
            assert(load.ensures((names@[1],), loaded[1]));
            assert(load.ensures((names@[2],), loaded[2]));
            assert(load.ensures((names@[3],), loaded[3]));
            assert(load.ensures((names@[4],), loaded[4]));
        }
        let s = SpriteSheetStorage { cursor, object, terrain, player, npc };
        assert(s.spec_handles() =~= loaded);
        s
    }
}

} // verus!
