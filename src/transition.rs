use vstd::prelude::*;

use crate::buildings::Buildings;
use crate::game::{
    tables, BoardTile, Faction, GameEvent, GameModel, GameState, Player, PlayerId, Stage, Tables,
    MAP_WIDTH,
};
use crate::terrain::Terrain;
use crate::units::{Unit, UnitDescriptor, Units};

verus! {

/// Grid coordinate `(x, y)` of board index `i`.
pub open spec fn coords(i: usize) -> (u32, u32) {
    ((i % MAP_WIDTH) as u32, (i / MAP_WIDTH) as u32)
}

/// `k` is the lowest registered id other than `current`.
pub open spec fn is_next_player(players: Map<PlayerId, Player>, current: PlayerId, k: PlayerId) -> bool {
    &&& players.contains_key(k)
    &&& k != current
    &&& forall|j: PlayerId| #[trigger] players.contains_key(j) && j != current ==> k <= j
}

/// Whose turn follows `current`'s: the lowest other registered id, or
/// `current` itself when nobody else is registered.
pub open spec fn next_player(players: Map<PlayerId, Player>, current: PlayerId) -> PlayerId {
    if exists|k: PlayerId| is_next_player(players, current, k) {
        choose|k: PlayerId| is_next_player(players, current, k)
    } else {
        current
    }
}

/// Board after the unit on `from` acts towards `to`: it walks onto an empty
/// tile, or attacks the unit there and takes its place only if that one falls.
pub open spec fn moved_board(
    board: Seq<BoardTile>,
    from: usize,
    to: usize,
    units: Seq<UnitDescriptor>,
) -> Seq<BoardTile> {
    let mover = board[from as int].unit.unwrap();
    let damage = units[mover.kind.0 as int].damage;
    let left = board.update(from as int, BoardTile { unit: None, ..board[from as int] });
    let arrived = left.update(
        to as int,
        BoardTile { unit: Some(Unit { position: coords(to), ..mover }), ..left[to as int] },
    );
    match board[to as int].unit {
        Some(defender) => if defender.health <= damage {
            arrived
        } else {
            board.update(
                to as int,
                BoardTile {
                    unit: Some(Unit { health: (defender.health - damage) as u32, ..defender }),
                    ..board[to as int]
                },
            )
        },
        None => arrived,
    }
}

impl GameModel {
    /// The faction that the next player to join receives.
    pub open spec fn joining_faction(self) -> Faction {
        if self.players.len() == 0 {
            Faction::Volcano
        } else {
            Faction::Dinosaur
        }
    }

    /// The state after a legal event `e`, with `e` recorded in the history.
    pub open spec fn after(self, e: GameEvent, t: Tables) -> GameModel {
        let s = match e {
            GameEvent::BeginGame { goes_first } => GameModel {
                stage: Stage::InGame,
                active_player_id: goes_first,
                ..self
            },
            GameEvent::EndGame { .. } => GameModel { stage: Stage::Ended, ..self },
            GameEvent::PlayerJoined { player_id, name } => GameModel {
                players: self.players.insert(
                    player_id,
                    Player { name, faction: self.joining_faction(), gold: 0 },
                ),
                ..self
            },
            GameEvent::PlayerDisconnected { player_id } => GameModel {
                players: self.players.remove(player_id),
                ..self
            },
            GameEvent::BuildUnit { player_id, at, unit_kind } => {
                let tile = self.board[at as int];
                let unit = Unit::spawned(coords(at), unit_kind, t.units);
                let player = self.players[player_id];
                let cost = t.units[unit_kind.0 as int].cost;
                GameModel {
                    board: self.board.update(at as int, BoardTile { unit: Some(unit), ..tile }),
                    players: self.players.insert(
                        player_id,
                        Player { gold: (player.gold - cost) as u32, ..player },
                    ),
                    ..self
                }
            },
            GameEvent::MoveUnit { from, to, .. } => GameModel {
                board: moved_board(self.board, from, to, t.units),
                ..self
            },
            GameEvent::EndTurn { player_id } => GameModel {
                active_player_id: next_player(self.players, player_id),
                ..self
            },
        };
        GameModel { history: self.history.push(e), ..s }
    }

    /// The state after `e` is offered through validation: applied when
    /// legal, ignored otherwise.
    pub open spec fn offer(self, e: GameEvent, t: Tables) -> GameModel {
        if self.valid_event(e, t) {
            self.after(e, t)
        } else {
            self
        }
    }
}

/// The state after each event of `es`, in order, is offered through
/// validation.
pub open spec fn run(s: GameModel, es: Seq<GameEvent>, t: Tables) -> GameModel
    decreases es.len(),
{
    if es.len() == 0 {
        s
    } else {
        run(s, es.drop_last(), t).offer(es.last(), t)
    }
}

/// The state after each event of `es`, in order, is consumed.
pub open spec fn replay(s: GameModel, es: Seq<GameEvent>, t: Tables) -> GameModel
    decreases es.len(),
{
    if es.len() == 0 {
        s
    } else {
        replay(s, es.drop_last(), t).after(es.last(), t)
    }
}

/// Each event of `es` is legal in the state that the ones before it leave.
pub open spec fn all_valid(s: GameModel, es: Seq<GameEvent>, t: Tables) -> bool
    decreases es.len(),
{
    if es.len() == 0 {
        true
    } else {
        all_valid(s, es.drop_last(), t) && replay(s, es.drop_last(), t).valid_event(es.last(), t)
    }
}

impl GameState {
    /// The lowest registered id other than `current`, if there is one.
    fn lowest_other_player(&self, current: PlayerId) -> (r: Option<PlayerId>)
        ensures
            match r {
                Some(k) => is_next_player(self@.players, current, k),
                None => forall|j: PlayerId| self@.players.contains_key(j) ==> j == current,
            },
    {
        let mut best: Option<PlayerId> = None;
        for k in it: self.players.keys()
            invariant
                it.seq().unref().to_set() == self@.players.dom(),
                match best {
                    Some(b) => {
                        &&& self@.players.contains_key(b)
                        &&& b != current
                        &&& forall|i: int|
                            0 <= i < it.index() && *it.seq()[i] != current ==> b <= *it.seq()[i]
                    },
                    None => forall|i: int| 0 <= i < it.index() ==> *it.seq()[i] == current,
                },
            ensures
                match best {
                    Some(b) => is_next_player(self@.players, current, b),
                    None => forall|j: PlayerId| self@.players.contains_key(j) ==> j == current,
                },
        {
            if *k != current {
                match best {
                    Some(b) => {
                        if *k < b {
                            best = Some(*k);
                        }
                    },
                    None => {
                        best = Some(*k);
                    },
                }
            }
        }
        best
    }

    /// Applies an event that `validate` accepted and records it in the
    /// history. Ending a turn hands it to the lowest other registered id,
    /// which in a two-player match is simply the opponent.
    pub fn consume(
        &mut self,
        valid_event: &GameEvent,
        buildings: &Buildings,
        units: &Units,
        terrain: &Terrain,
    )
        requires
            old(self)@.valid_event(*valid_event, tables(buildings, units, terrain)),
        ensures
            final(self)@ == old(self)@.after(*valid_event, tables(buildings, units, terrain)),
    {
        match valid_event {
            GameEvent::BeginGame { goes_first } => {
                self.active_player_id = *goes_first;
                self.stage = Stage::InGame;
            },
            GameEvent::EndGame { .. } => {
                self.stage = Stage::Ended;
            },
            GameEvent::PlayerJoined { player_id, name } => {
                let faction = if self.players.len() > 0 {
                    Faction::Dinosaur
                } else {
                    Faction::Volcano
                };
                self.players.insert(*player_id, Player { name: name.clone(), faction, gold: 0 });
            },
            GameEvent::PlayerDisconnected { player_id } => {
                self.players.remove(player_id);
            },
            GameEvent::BuildUnit { player_id, at, unit_kind } => {
                let x = (*at % MAP_WIDTH) as u32;
                let y = (*at / MAP_WIDTH) as u32;
                let mut tile = self.board[*at];
                tile.unit = Some(Unit::new((x, y), *unit_kind, units));
                self.board[*at] = tile;
                let mut player = self.players.get(player_id).unwrap().clone();
                player.gold = player.gold - units.get(*unit_kind).cost;
                self.players.insert(*player_id, player);
            },
            GameEvent::MoveUnit { from, to, .. } => {
                let x = (*to % MAP_WIDTH) as u32;
                let y = (*to / MAP_WIDTH) as u32;
                let mut mover = self.board[*from].unit.unwrap();
                let damage = units.get(mover.kind).damage;
                let mut relocate = true;
                let mut dest = self.board[*to];
                if let Some(mut defender) = dest.unit {
                    if defender.health > damage {
                        defender.health = defender.health - damage;
                        dest.unit = Some(defender);
                        self.board[*to] = dest;
                        relocate = false;
                    }
                }
                if relocate {
                    mover.position = (x, y);
                    let mut source = self.board[*from];
                    source.unit = None;
                    self.board[*from] = source;
                    let mut target = self.board[*to];
                    target.unit = Some(mover);
                    self.board[*to] = target;
                }
            },
            GameEvent::EndTurn { player_id } => {
                match self.lowest_other_player(*player_id) {
                    Some(k) => {
                        self.active_player_id = k;
                    },
                    None => {},
                }
            },
        }
        self.history.push(valid_event.clone());
    }
}

} // verus!
