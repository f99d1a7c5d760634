use vstd::prelude::*;

verus! {

/// Index of a terrain descriptor in the `Terrain` table.
#[derive(Clone, Copy, Debug, PartialEq, Eq, Structural)]
pub struct TerrainKind(pub usize);

/// Static description of one kind of terrain.
#[derive(Debug)]
pub struct TerrainDescriptor {
    pub name: String,
    pub sprite_idx: usize,
    /// Walls cannot be entered.
    pub wall: bool,
}

/// Every terrain descriptor, indexed by `TerrainKind`.
pub struct Terrain(pub Vec<TerrainDescriptor>);

impl View for Terrain {
    type V = Seq<TerrainDescriptor>;

    open spec fn view(&self) -> Seq<TerrainDescriptor> {
        self.0@
    }
}

impl Terrain {
    /// Whether `kind` names an entry of the table.
    pub open spec fn has_kind(&self, kind: TerrainKind) -> bool {
        kind.0 < self@.len()
    }

    /// The descriptor of `kind`.
    pub fn get(&self, kind: TerrainKind) -> (r: &TerrainDescriptor)
        requires
            self.has_kind(kind),
        ensures
            *r == self@[kind.0 as int],
    {
        &self.0[kind.0]
    }
}

} // verus!
