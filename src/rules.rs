use vstd::prelude::*;

use crate::buildings::Buildings;
use crate::game::{
    tables, BoardTile, EndGameReason, GameEvent, GameModel, GameState, PlayerId, Stage, Tables,
    MAP_SIZE,
};
use crate::terrain::Terrain;
use crate::units::Units;

verus! {

impl GameModel {
    /// `p` is registered and it is `p`'s turn.
    pub open spec fn is_active(self, p: PlayerId) -> bool {
        self.players.contains_key(p) && self.active_player_id == p
    }

    /// A unit may be built on `tile` by player `p` from the table entry `kind`.
    pub open spec fn can_build_on(self, tile: BoardTile, p: PlayerId, kind: usize, t: Tables) -> bool {
        let player = self.players[p];
        &&& match tile.building {
            Some(b) => b.kind.0 < t.buildings.len() && t.buildings[b.kind.0 as int].faction@
                == player.faction.label_spec(),
            None => false,
        }
        &&& tile.unit is None
        &&& kind < t.units.len()
        &&& t.units[kind as int].cost <= player.gold
        &&& t.units[kind as int].faction@ == player.faction.label_spec()
    }

    /// Player `p` may move the unit on tile `from` onto tile `to`.
    pub open spec fn can_move(self, p: PlayerId, from: usize, to: usize, t: Tables) -> bool {
        let player = self.players[p];
        let dest = self.board[to as int];
        &&& dest.terrain.0 < t.terrain.len()
        &&& !t.terrain[dest.terrain.0 as int].wall
        &&& match self.board[from as int].unit {
            Some(mover) => mover.kind.0 < t.units.len(),
            None => false,
        }
        &&& match dest.unit {
            Some(defender) => defender.kind.0 < t.units.len() && t.units[defender.kind.0 as int].faction@
                != player.faction.label_spec(),
            None => true,
        }
    }

    /// Whether `e` is legal in this state.
    pub open spec fn valid_event(self, e: GameEvent, t: Tables) -> bool {
        match e {
            GameEvent::BeginGame { goes_first } => self.players.contains_key(goes_first)
                && self.stage == Stage::PreGame,
            GameEvent::EndGame { reason } => match reason {
                EndGameReason::PlayerWon { .. } => self.stage == Stage::InGame,
                EndGameReason::PlayerLeft { .. } => true,
            },
            GameEvent::PlayerJoined { player_id, .. } => !self.players.contains_key(player_id),
            GameEvent::PlayerDisconnected { player_id } => self.players.contains_key(player_id),
            GameEvent::BuildUnit { player_id, at, unit_kind } => {
                &&& self.is_active(player_id)
                &&& at < MAP_SIZE
                &&& self.can_build_on(self.board[at as int], player_id, unit_kind.0, t)
            },
            GameEvent::MoveUnit { player_id, from, to } => {
                &&& self.is_active(player_id)
                &&& from < MAP_SIZE
                &&& to < MAP_SIZE
                &&& self.can_move(player_id, from, to, t)
            },
            GameEvent::EndTurn { player_id } => self.is_active(player_id),
        }
    }
}

impl GameState {
    /// Whether `player_id` is registered and it is that player's turn.
    fn is_active(&self, player_id: PlayerId) -> (r: bool)
        ensures
            r == self@.is_active(player_id),
    {
        self.players.contains_key(&player_id) && self.active_player_id == player_id
    }

    /// Decides whether `event` is legal in the current state. Never fails:
    /// every lookup into a table is checked first.
    pub fn validate(
        &self,
        event: &GameEvent,
        buildings: &Buildings,
        units: &Units,
        terrain: &Terrain,
    ) -> (r: bool)
        ensures
            r == self@.valid_event(*event, tables(buildings, units, terrain)),
    {
        match event {
            GameEvent::BeginGame { goes_first } => {
                self.players.contains_key(goes_first) && self.stage == Stage::PreGame
            },
            GameEvent::EndGame { reason } => match reason {
                EndGameReason::PlayerWon { .. } => self.stage == Stage::InGame,
                EndGameReason::PlayerLeft { .. } => true,
            },
            GameEvent::PlayerJoined { player_id, .. } => !self.players.contains_key(player_id),
            GameEvent::PlayerDisconnected { player_id } => self.players.contains_key(player_id),
            GameEvent::BuildUnit { player_id, at, unit_kind } => {
                if !self.is_active(*player_id) || *at >= MAP_SIZE {
                    return false;
                }
                let player = self.players.get(player_id).unwrap();
                let label = player.faction.label();
                let tile = self.board[*at];
                match tile.building {
                    Some(building) => {
                        if building.kind.0 >= buildings.0.len()
                            || buildings.get(building.kind).faction != label {
                            return false;
                        }
                    },
                    None => {
                        return false;
                    },
                }
                if tile.unit.is_some() || unit_kind.0 >= units.0.len() {
                    return false;
                }
                let descriptor = units.get(*unit_kind);
                descriptor.cost <= player.gold && descriptor.faction == label
            },
            GameEvent::MoveUnit { player_id, from, to } => {
                if !self.is_active(*player_id) || *from >= MAP_SIZE || *to >= MAP_SIZE {
                    return false;
                }
                let player = self.players.get(player_id).unwrap();
                let dest = self.board[*to];
                if dest.terrain.0 >= terrain.0.len() || terrain.get(dest.terrain).wall {
                    return false;
                }
                match self.board[*from].unit {
                    Some(mover) => {
                        if mover.kind.0 >= units.0.len() {
                            return false;
                        }
                    },
                    None => {
                        return false;
                    },
                }
                match dest.unit {
                    Some(defender) => {
                        defender.kind.0 < units.0.len() && units.get(defender.kind).faction
                            != player.faction.label()
                    },
                    None => true,
                }
            },
            GameEvent::EndTurn { player_id } => self.is_active(*player_id),
        }
    }
}

} // verus!
