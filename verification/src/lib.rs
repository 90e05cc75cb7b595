//! Game logic of an isometric dwarf-colony game: map projection and
//! rotation, cursor picking, chunk streaming bookkeeping, view bounds and
//! the menu / loading / running state machines.
#![allow(non_camel_case_types)]
#![allow(clippy::upper_case_acronyms)]

pub mod geometry;
pub mod resources;
pub mod terrain;
pub mod systems;
pub mod state;
pub mod sprite;
pub mod render;
pub mod components;
pub mod entity;
pub mod flat_map;
