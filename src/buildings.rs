use vstd::prelude::*;

verus! {

/// Index of a building descriptor in the `Buildings` table.
#[derive(Clone, Copy, Debug, PartialEq, Eq, Structural)]
pub struct BuildingKind(pub usize);

/// A building standing on the board.
#[derive(Clone, Copy, Debug, PartialEq, Eq)]
pub struct Building {
    pub position: (u32, u32),
    pub kind: BuildingKind,
    pub health: u32,
}

/// Static stat block of one kind of building.
#[derive(Debug)]
pub struct BuildingDescriptor {
    pub name: String,
    /// Name that can be shown to players.
    pub pub_name: String,
    pub max_hp: u32,
    pub sprite_idx: usize,
    pub faction: String,
}

/// Every building descriptor, indexed by `BuildingKind`.
pub struct Buildings(pub Vec<BuildingDescriptor>);

impl View for Buildings {
    type V = Seq<BuildingDescriptor>;

    open spec fn view(&self) -> Seq<BuildingDescriptor> {
        self.0@
    }
}

impl Buildings {
    /// Whether `kind` names an entry of the table.
    pub open spec fn has_kind(&self, kind: BuildingKind) -> bool {
        kind.0 < self@.len()
    }

    /// The descriptor of `kind`.
    pub fn get(&self, kind: BuildingKind) -> (r: &BuildingDescriptor)
        requires
            self.has_kind(kind),
        ensures
            *r == self@[kind.0 as int],
    {
        &self.0[kind.0]
    }
}

impl Building {
    /// A fresh building of `kind` at `pos`, at full health.
    pub fn new(pos: (u32, u32), kind: BuildingKind, stats: &Buildings) -> (r: Self)
        requires
            stats.has_kind(kind),
        ensures
            r.position == pos,
            r.kind == kind,
            r.health == stats@[kind.0 as int].max_hp,
    {
        Self { position: pos, kind, health: stats.0[kind.0].max_hp }
    }
}

} // verus!
