//! Plain data shared between the render passes and the systems.
use vstd::prelude::*;
use crate::state::EntityKey;

verus! {

/// Statistics of the last terrain draw pass.
#[derive(Clone, Copy, Debug, PartialEq, Eq, Structural)]
pub struct PassInfo {
    pub num_entities: Option<usize>,
    pub walltime: Option<u128>,
}

impl Default for PassInfo {
    fn default() -> (p: PassInfo)
        ensures
            p.num_entities is None,
            p.walltime is None,
    {
        PassInfo { num_entities: None, walltime: None }
    }
}

impl PassInfo {
    /// Records how many entities the pass drew and how long it took, in
    /// milliseconds.
    pub fn record(&mut self, num_entities: usize, walltime: u128)
        ensures
            final(self).num_entities == Some(num_entities),
            final(self).walltime == Some(walltime),
    {
        self.num_entities = Some(num_entities);
        self.walltime = Some(walltime);
    }
}

/// The sprites to draw, in drawing order.
#[derive(Clone, Debug)]
pub struct SpriteVisibility {
    pub order: Vec<EntityKey>,
}

impl Default for SpriteVisibility {
    fn default() -> (v: SpriteVisibility)
        ensures
            v.order@.len() == 0,
    {
        SpriteVisibility { order: Vec::new() }
    }
}

} // verus!
