//! Terrain kinds, what occupies a map cell, which sprite draws a terrain
//! block, and the set of chunks already streamed in.
use vstd::prelude::*;
use std::collections::HashSet;

verus! {

/// Kinds of terrain a block can be made of.
#[derive(Clone, Copy, Debug, PartialEq, Eq, Structural)]
pub enum Biome {
    TAIGA,
    SNOW,
    TUNDRA,
    GRASSLAND,
    OCEAN,
    BEACH,
    ROCK,
}

/// Index of the terrain sprite for a biome in the terrain sprite sheet.
pub open spec fn spec_sprite_index(b: Biome) -> usize {
    match b {
        Biome::TAIGA => 0,
        Biome::SNOW | Biome::TUNDRA => 1,
        Biome::GRASSLAND => 2,
        Biome::OCEAN => 3,
        Biome::BEACH => 4,
        Biome::ROCK => 5,
    }
}

impl Biome {
    /// Index of this biome's sprite in the terrain sprite sheet.
    pub fn sprite_index(&self) -> (i: usize)
        ensures
            i == spec_sprite_index(*self),
            i < 6,
    {
        match self {
            Biome::TAIGA => 0,
            Biome::SNOW | Biome::TUNDRA => 1,
            Biome::GRASSLAND => 2,
            Biome::OCEAN => 3,
            Biome::BEACH => 4,
            Biome::ROCK => 5,
        }
    }
}

/// What occupies a map cell: a terrain block, with which of its faces can
/// be seen, or an object with its identifier.
#[derive(Clone, Debug)]
pub enum Cell {
    Terrain { biome: Biome, visible_faces: Vec<bool> },
    Object(u128),
}

pub open spec fn spec_any_visible(faces: Seq<bool>) -> bool {
    exists|i: int| 0 <= i < faces.len() && faces[i]
}

/// The sprite a cell is drawn with: terrain with at least one visible face
/// gets its biome's sprite; hidden terrain, objects and empty cells get none.
pub open spec fn spec_terrain_sprite(cell: Option<Cell>) -> Option<usize> {
    match cell {
        Some(Cell::Terrain { biome, visible_faces }) => if spec_any_visible(visible_faces@) {
            Some(spec_sprite_index(biome))
        } else {
            None
        },
        _ => None,
    }
}

/// Decides whether a cell gets a terrain sprite, and which.
#[verifier::loop_isolation(false)]
pub fn terrain_sprite(cell: &Option<Cell>) -> (r: Option<usize>)
    ensures
        r == spec_terrain_sprite(*cell),
{
    match cell {
        Some(Cell::Terrain { biome, visible_faces }) => {
            let mut i: usize = 0;
            while i < visible_faces.len()
                invariant
                    i <= visible_faces.len(),
                    forall|j: int| 0 <= j < i ==> !visible_faces@[j],
                decreases visible_faces.len() - i,
            {
                if visible_faces[i] {
                    assert(visible_faces@[i as int]);
                    return Some(biome.sprite_index());
                }
                i = i + 1;
            }
            None
        },
        _ => None,
    }
}

/// The hash key of a chunk: its two coordinates side by side in 64 bits.
pub open spec fn chunk_key(c: (i32, i32)) -> u64 {
    (((c.0 as u32) as u64) << 32u64) | ((c.1 as u32) as u64)
}

/// Distinct chunks have distinct keys.
pub proof fn lemma_chunk_key_injective(a: (i32, i32), b: (i32, i32))
    ensures
        chunk_key(a) == chunk_key(b) ==> a == b,
{
    let (a0, a1, b0, b1) = (a.0, a.1, b.0, b.1);
    assert((((a0 as u32) as u64) << 32u64) | ((a1 as u32) as u64) == (((b0 as u32) as u64) << 32u64) | ((
    b1 as u32) as u64) ==> a0 == b0 && a1 == b1) by (bit_vector);
}

fn key_of(c: (i32, i32)) -> (k: u64)
    ensures
        k == chunk_key(c),
{
    (((c.0 as u32) as u64) << 32u64) | ((c.1 as u32) as u64)
}

/// The set of chunks that have been streamed in.
pub struct VisibleChunks {
    chunks: HashSet<u64>,
}

impl View for VisibleChunks {
    type V = Set<(i32, i32)>;

    closed spec fn view(&self) -> Set<(i32, i32)> {
        Set::new(|c: (i32, i32)| self.chunks@.contains(chunk_key(c)))
    }
}

impl VisibleChunks {
    pub fn new() -> (v: VisibleChunks)
        ensures
            v@ == Set::<(i32, i32)>::empty(),
    {
        let v = VisibleChunks { chunks: HashSet::new() };
        proof {
            assert(v@ =~= Set::<(i32, i32)>::empty());
        }
        v
    }

    pub fn contains(&self, c: (i32, i32)) -> (b: bool)
        ensures
            b == self@.contains(c),
    {
        broadcast use vstd::std_specs::hash::group_hash_axioms;
        let k = key_of(c);
        self.chunks.contains(&k)
    }

    /// Adds a chunk; tells whether it was not held before.
    pub fn insert(&mut self, c: (i32, i32)) -> (added: bool)
        ensures
            final(self)@ == old(self)@.insert(c),
            added == !old(self)@.contains(c),
    {
        broadcast use vstd::std_specs::hash::group_hash_axioms;
        let k = key_of(c);
        let added = self.chunks.insert(k);
        proof {
            assert forall|d: (i32, i32)| #![auto] self@.contains(d) <==> old(self)@.insert(c).contains(d) by {
                lemma_chunk_key_injective(c, d);
            }
            assert(self@ =~= old(self)@.insert(c));
        }
        added
    }
}

} // verus!
