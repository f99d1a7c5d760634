use vstd::prelude::*;

use crate::game::{BoardTile, Faction, GameEvent, GameModel, Player, PlayerId, Tables, MAP_SIZE};
use crate::transition::{all_valid, coords, replay, run};
use crate::units::{Unit, UnitKind};

verus! {

/// The player that `e` is made by, for the events that only the player
/// whose turn it is may make.
pub open spec fn acting_player(e: GameEvent) -> Option<PlayerId> {
    match e {
        GameEvent::BuildUnit { player_id, .. } => Some(player_id),
        GameEvent::MoveUnit { player_id, .. } => Some(player_id),
        GameEvent::EndTurn { player_id } => Some(player_id),
        _ => None,
    }
}

/// Every unit on `board` stands on the tile that its position names, and
/// the board has its full size.
pub open spec fn units_in_place(board: Seq<BoardTile>) -> bool {
    &&& board.len() == MAP_SIZE
    &&& forall|i: int|
        0 <= i < board.len() && (#[trigger] board[i]).unit is Some ==> board[i].unit.unwrap().position
            == coords(i as usize)
}

/// An event that fails validation leaves the state, its history included,
/// exactly as it was.
pub proof fn lemma_rejected_event_leaves_state(s: GameModel, e: GameEvent, t: Tables)
    requires
        !s.valid_event(e, t),
    ensures
        s.offer(e, t) == s,
{
}

/// The events of `es` that pass validation when offered in order from `s`.
pub open spec fn accepted(s: GameModel, es: Seq<GameEvent>, t: Tables) -> Seq<GameEvent>
    decreases es.len(),
{
    if es.len() == 0 {
        Seq::empty()
    } else if run(s, es.drop_last(), t).valid_event(es.last(), t) {
        accepted(s, es.drop_last(), t).push(es.last())
    } else {
        accepted(s, es.drop_last(), t)
    }
}

/// When events are offered through validation, the history gains exactly
/// the events that were legal in the state in which they were offered, in
/// order: a rejected event never enters it.
pub proof fn lemma_history_holds_only_valid_events(s: GameModel, es: Seq<GameEvent>, t: Tables)
    ensures
        run(s, es, t).history == s.history + accepted(s, es, t),
    decreases es.len(),
{
    if es.len() > 0 {
        lemma_history_holds_only_valid_events(s, es.drop_last(), t);
        let prev = accepted(s, es.drop_last(), t);
        assert(s.history + prev.push(es.last()) =~= (s.history + prev).push(es.last()));
    } else {
        assert(s.history + Seq::<GameEvent>::empty() =~= s.history);
    }
}

/// Building, moving and ending the turn are legal only for the player whose
/// turn it is.
pub proof fn lemma_only_active_player_acts(s: GameModel, e: GameEvent, t: Tables, p: PlayerId)
    requires
        acting_player(e) == Some(p),
        p != s.active_player_id,
    ensures
        !s.valid_event(e, t),
{
}

/// Into a match with no players, whoever joins first plays the volcano and
/// whoever joins second plays the dinosaurs.
pub proof fn lemma_factions_follow_join_order(
    s: GameModel,
    a: PlayerId,
    name_a: String,
    b: PlayerId,
    name_b: String,
    t: Tables,
)
    requires
        s.players == Map::<PlayerId, Player>::empty(),
        a != b,
    ensures
        ({
            let first = GameEvent::PlayerJoined { player_id: a, name: name_a };
            let second = GameEvent::PlayerJoined { player_id: b, name: name_b };
            let s1 = s.after(first, t);
            let s2 = s1.after(second, t);
            &&& s.valid_event(first, t)
            &&& s1.valid_event(second, t)
            &&& s2.players[a].faction == Faction::Volcano
            &&& s2.players[b].faction == Faction::Dinosaur
        }),
{
    let first = GameEvent::PlayerJoined { player_id: a, name: name_a };
    let s1 = s.after(first, t);
    assert(s1.players.dom() =~= set![a]);
    assert(s1.players.len() == 1);
}

/// Building a unit costs the builder exactly the unit's price, which the
/// builder could afford.
pub proof fn lemma_build_spends_cost(
    s: GameModel,
    player_id: PlayerId,
    at: usize,
    unit_kind: UnitKind,
    t: Tables,
)
    requires
        s.valid_event(GameEvent::BuildUnit { player_id, at, unit_kind }, t),
    ensures
        ({
            let cost = t.units[unit_kind.0 as int].cost;
            let after = s.after(GameEvent::BuildUnit { player_id, at, unit_kind }, t);
            &&& cost <= s.players[player_id].gold
            &&& after.players[player_id].gold == s.players[player_id].gold - cost
        }),
{
}

/// Every legal event keeps each unit on the tile that its position names:
/// a tile holds at most one unit, and no unit is on two tiles.
pub proof fn lemma_units_stay_in_place(s: GameModel, e: GameEvent, t: Tables)
    requires
        units_in_place(s.board),
        s.valid_event(e, t),
    ensures
        units_in_place(s.after(e, t).board),
{
    let after = s.after(e, t).board;
    assert forall|i: int| 0 <= i < after.len() && (#[trigger] after[i]).unit is Some implies after[i].unit.unwrap().position
        == coords(i as usize) by {
        assert(s.board[i] == s.board[i]);
    }
}

/// 1 when `tile` holds a unit, else 0.
pub open spec fn occupied(tile: BoardTile) -> nat {
    if tile.unit is Some {
        1
    } else {
        0
    }
}

/// How many units stand on `board`.
pub open spec fn unit_count(board: Seq<BoardTile>) -> nat
    decreases board.len(),
{
    if board.len() == 0 {
        0
    } else {
        unit_count(board.drop_last()) + occupied(board.last())
    }
}

/// Replacing one tile changes the count by what that tile held.
proof fn lemma_unit_count_update(board: Seq<BoardTile>, i: int, tile: BoardTile)
    requires
        0 <= i < board.len(),
    ensures
        unit_count(board.update(i, tile)) == unit_count(board) - occupied(board[i]) + occupied(tile),
    decreases board.len(),
{
    let updated = board.update(i, tile);
    if i == board.len() - 1 {
        assert(updated.drop_last() =~= board.drop_last());
    } else {
        assert(updated.drop_last() =~= board.drop_last().update(i, tile));
        lemma_unit_count_update(board.drop_last(), i, tile);
    }
}

/// Only building adds a unit to the board, one at a time; a move never
/// adds one, so no unit is ever copied.
pub proof fn lemma_only_building_adds_units(s: GameModel, e: GameEvent, t: Tables)
    requires
        s.board.len() == MAP_SIZE,
        s.valid_event(e, t),
    ensures
        e is BuildUnit ==> unit_count(s.after(e, t).board) == unit_count(s.board) + 1,
        e is MoveUnit ==> unit_count(s.after(e, t).board) <= unit_count(s.board),
        !(e is BuildUnit) && !(e is MoveUnit) ==> s.after(e, t).board == s.board,
{
    let board = s.board;
    match e {
        GameEvent::BuildUnit { at, unit_kind, .. } => {
            let tile = board[at as int];
            let unit = Unit::spawned(coords(at), unit_kind, t.units);
            lemma_unit_count_update(board, at as int, BoardTile { unit: Some(unit), ..tile });
        },
        GameEvent::MoveUnit { from, to, .. } => {
            let mover = board[from as int].unit.unwrap();
            let left = board.update(from as int, BoardTile { unit: None, ..board[from as int] });
            lemma_unit_count_update(board, from as int, BoardTile { unit: None, ..board[from as int] });
            lemma_unit_count_update(
                left,
                to as int,
                BoardTile { unit: Some(Unit { position: coords(to), ..mover }), ..left[to as int] },
            );
            match board[to as int].unit {
                Some(defender) => {
                    let damage = t.units[mover.kind.0 as int].damage;
                    lemma_unit_count_update(
                        board,
                        to as int,
                        BoardTile {
                            unit: Some(Unit { health: (defender.health - damage) as u32, ..defender }),
                            ..board[to as int]
                        },
                    );
                },
                None => {},
            }
        },
        _ => {},
    }
}

/// From the empty board, any sequence of legal events keeps each unit on
/// the tile that its position names.
pub proof fn lemma_units_in_place_after_play(es: Seq<GameEvent>, t: Tables)
    requires
        all_valid(GameModel::initial(), es, t),
    ensures
        units_in_place(replay(GameModel::initial(), es, t).board),
    decreases es.len(),
{
    if es.len() == 0 {
        assert(units_in_place(GameModel::initial().board));
    } else {
        lemma_units_in_place_after_play(es.drop_last(), t);
        lemma_units_stay_in_place(replay(GameModel::initial(), es.drop_last(), t), es.last(), t);
    }
}

/// Consuming events appends each of them, verbatim and in order, to the
/// history.
pub proof fn lemma_history_records_each_event(s: GameModel, es: Seq<GameEvent>, t: Tables)
    ensures
        replay(s, es, t).history == s.history + es,
    decreases es.len(),
{
    if es.len() > 0 {
        lemma_history_records_each_event(s, es.drop_last(), t);
        assert(s.history + es =~= (s.history + es.drop_last()).push(es.last()));
    }
}

/// From an empty history, `n` consumed events leave a history of length
/// `n` whose `i`-th entry is the `i`-th event.
pub proof fn lemma_history_counts_events(s: GameModel, es: Seq<GameEvent>, t: Tables)
    requires
        s.history.len() == 0,
    ensures
        replay(s, es, t).history.len() == es.len(),
        forall|i: int| 0 <= i < es.len() ==> replay(s, es, t).history[i] == es[i],
{
    lemma_history_records_each_event(s, es, t);
    assert(s.history + es =~= es);
}

} // verus!
