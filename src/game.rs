use std::collections::HashMap;
use vstd::prelude::*;

use crate::buildings::{Building, BuildingDescriptor, Buildings};
use crate::terrain::{Terrain, TerrainDescriptor, TerrainKind};
use crate::units::{Unit, UnitDescriptor, UnitKind, Units};

verus! {

/// Clients must present this identifier to be let in by the server.
pub const PROTOCOL_ID: u64 = 1208;

pub const MAP_WIDTH: usize = 8;

pub const MAP_HEIGHT: usize = 8;

pub const MAP_SIZE: usize = MAP_WIDTH * MAP_HEIGHT;

/// Identifier of a connected client.
pub type PlayerId = u64;

/// One cell of the board.
#[derive(Clone, Copy, Debug, PartialEq)]
pub struct BoardTile {
    pub terrain: TerrainKind,
    pub unit: Option<Unit>,
    pub building: Option<Building>,
}

impl BoardTile {
    /// Plain terrain of kind 0, with nothing on it.
    pub open spec fn empty() -> BoardTile {
        BoardTile { terrain: TerrainKind(0), unit: None, building: None }
    }
}

impl Default for BoardTile {
    fn default() -> (r: Self)
        ensures
            r == BoardTile::empty(),
    {
        BoardTile { terrain: TerrainKind(0), unit: None, building: None }
    }
}

/// The two sides of a match.
#[derive(Clone, Copy, Debug, PartialEq, Eq, Structural)]
pub enum Faction {
    Volcano,
    Dinosaur,
}

impl Faction {
    /// The label that descriptor tables use for this faction.
    pub open spec fn label_spec(self) -> Seq<char> {
        match self {
            Faction::Volcano => "Volcano"@,
            Faction::Dinosaur => "Dinosaur"@,
        }
    }

    /// The label that descriptor tables use for this faction.
    pub fn label(&self) -> (r: String)
        ensures
            r@ == self.label_spec(),
    {
        match self {
            Faction::Volcano => "Volcano".to_owned(),
            Faction::Dinosaur => "Dinosaur".to_owned(),
        }
    }
}

/// A registered participant.
#[derive(Debug, PartialEq)]
pub struct Player {
    pub name: String,
    pub faction: Faction,
    pub gold: u32,
}

impl Clone for Player {
    fn clone(&self) -> (r: Self)
        ensures
            r == *self,
    {
        Player { name: self.name.clone(), faction: self.faction, gold: self.gold }
    }
}

/// Coarse phase of a match.
#[derive(Clone, Copy, Debug, PartialEq, Eq, Hash, Structural)]
pub enum Stage {
    PreGame,
    InGame,
    Ended,
}

/// Why a match ended.
#[derive(Clone, Copy, Debug, PartialEq, Eq, Structural)]
pub enum EndGameReason {
    PlayerLeft { player_id: PlayerId },
    PlayerWon { winner: PlayerId },
}

/// The only operations that move a `GameState` forward.
#[derive(Debug, PartialEq)]
pub enum GameEvent {
    BeginGame { goes_first: PlayerId },
    EndGame { reason: EndGameReason },
    PlayerJoined { player_id: PlayerId, name: String },
    PlayerDisconnected { player_id: PlayerId },
    BuildUnit { player_id: PlayerId, at: usize, unit_kind: UnitKind },
    MoveUnit { player_id: PlayerId, from: usize, to: usize },
    EndTurn { player_id: PlayerId },
}

impl Clone for GameEvent {
    fn clone(&self) -> (r: Self)
        ensures
            r == *self,
    {
        match self {
            GameEvent::BeginGame { goes_first } => GameEvent::BeginGame { goes_first: *goes_first },
            GameEvent::EndGame { reason } => GameEvent::EndGame { reason: *reason },
            GameEvent::PlayerJoined { player_id, name } => GameEvent::PlayerJoined {
                player_id: *player_id,
                name: name.clone(),
            },
            GameEvent::PlayerDisconnected { player_id } => GameEvent::PlayerDisconnected {
                player_id: *player_id,
            },
            GameEvent::BuildUnit { player_id, at, unit_kind } => GameEvent::BuildUnit {
                player_id: *player_id,
                at: *at,
                unit_kind: *unit_kind,
            },
            GameEvent::MoveUnit { player_id, from, to } => GameEvent::MoveUnit {
                player_id: *player_id,
                from: *from,
                to: *to,
            },
            GameEvent::EndTurn { player_id } => GameEvent::EndTurn { player_id: *player_id },
        }
    }
}

/// The state of one match, advanced only by events.
pub struct GameState {
    pub stage: Stage,
    pub board: [BoardTile; MAP_SIZE],
    pub active_player_id: PlayerId,
    pub players: HashMap<PlayerId, Player>,
    pub history: Vec<GameEvent>,
}

/// Mathematical picture of a `GameState`.
pub struct GameModel {
    pub stage: Stage,
    pub board: Seq<BoardTile>,
    pub active_player_id: PlayerId,
    pub players: Map<PlayerId, Player>,
    pub history: Seq<GameEvent>,
}

impl View for GameState {
    type V = GameModel;

    open spec fn view(&self) -> GameModel {
        GameModel {
            stage: self.stage,
            board: self.board@,
            active_player_id: self.active_player_id,
            players: self.players@,
            history: self.history@,
        }
    }
}

impl GameModel {
    /// The state of a match before anyone has joined.
    pub open spec fn initial() -> GameModel {
        GameModel {
            stage: Stage::PreGame,
            board: Seq::new(MAP_SIZE as nat, |i: int| BoardTile::empty()),
            active_player_id: 0,
            players: Map::empty(),
            history: Seq::empty(),
        }
    }
}

impl Default for GameState {
    fn default() -> (r: Self)
        ensures
            r@ == GameModel::initial(),
    {
        let r = GameState {
            stage: Stage::PreGame,
            board: [BoardTile::default(); MAP_SIZE],
            active_player_id: 0,
            players: HashMap::new(),
            history: Vec::new(),
        };
        assert(r.board@ =~= GameModel::initial().board);
        r
    }
}

/// The three descriptor tables, as one value.
pub struct Descriptors {
    pub units: Units,
    pub terrain: Terrain,
    pub buildings: Buildings,
}

/// Mathematical picture of the descriptor tables.
pub struct Tables {
    pub buildings: Seq<BuildingDescriptor>,
    pub units: Seq<UnitDescriptor>,
    pub terrain: Seq<TerrainDescriptor>,
}

/// The tables that `buildings`, `units` and `terrain` hold.
pub open spec fn tables(buildings: &Buildings, units: &Units, terrain: &Terrain) -> Tables {
    Tables { buildings: buildings@, units: units@, terrain: terrain@ }
}

impl View for Descriptors {
    type V = Tables;

    open spec fn view(&self) -> Tables {
        tables(&self.buildings, &self.units, &self.terrain)
    }
}

} // verus!
