use vstd::prelude::*;

verus! {

/// Index of a unit descriptor in the `Units` table.
#[derive(Clone, Copy, Debug, PartialEq, Eq, Structural)]
pub struct UnitKind(pub usize);

/// A unit standing on the board.
#[derive(Clone, Copy, Debug, PartialEq, Eq)]
pub struct Unit {
    pub position: (u32, u32),
    pub kind: UnitKind,
    pub health: u32,
    pub range_remaining: u32,
}

/// Static stat block of one kind of unit.
#[derive(Debug)]
pub struct UnitDescriptor {
    pub name: String,
    /// Name that can be shown to players.
    pub pub_name: String,
    pub max_hp: u32,
    pub move_range: u32,
    pub attack_range: u32,
    pub damage: u32,
    pub cost: u32,
    pub sprite_idx: usize,
    pub faction: String,
}

/// Every unit descriptor, indexed by `UnitKind`.
pub struct Units(pub Vec<UnitDescriptor>);

impl View for Units {
    type V = Seq<UnitDescriptor>;

    open spec fn view(&self) -> Seq<UnitDescriptor> {
        self.0@
    }
}

impl Units {
    /// Whether `kind` names an entry of the table.
    pub open spec fn has_kind(&self, kind: UnitKind) -> bool {
        kind.0 < self@.len()
    }

    /// The descriptor of `kind`.
    pub fn get(&self, kind: UnitKind) -> (r: &UnitDescriptor)
        requires
            self.has_kind(kind),
        ensures
            *r == self@[kind.0 as int],
    {
        &self.0[kind.0]
    }
}

impl Unit {
    /// A fresh unit of `kind` at `pos`, at full health and full movement.
    pub fn new(pos: (u32, u32), kind: UnitKind, stats: &Units) -> (r: Self)
        requires
            stats.has_kind(kind),
        ensures
            r == Self::spawned(pos, kind, stats@),
    {
        Self {
            position: pos,
            kind,
            health: stats.0[kind.0].max_hp,
            range_remaining: stats.0[kind.0].move_range,
        }
    }

    /// The unit that `new` makes.
    pub open spec fn spawned(pos: (u32, u32), kind: UnitKind, stats: Seq<UnitDescriptor>) -> Unit {
        Unit {
            position: pos,
            kind,
            health: stats[kind.0 as int].max_hp,
            range_remaining: stats[kind.0 as int].move_range,
        }
    }
}

} // verus!
