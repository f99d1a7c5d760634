use dinojam::buildings::{BuildingDescriptor, Buildings};
use dinojam::session::{ClientMirror, Outgoing, ReplicaError};
use dinojam::terrain::{Terrain, TerrainDescriptor};
use dinojam::units::{UnitDescriptor, Units};
use dinojam::{EndGameReason, Faction, GameEvent, GameState, Stage};

fn tables() -> (Buildings, Units, Terrain) {
    (
        Buildings(vec![BuildingDescriptor {
            name: "crater".to_string(),
            pub_name: "Crater".to_string(),
            max_hp: 20,
            sprite_idx: 0,
            faction: "Volcano".to_string(),
        }]),
        Units(vec![UnitDescriptor {
            name: "raptor".to_string(),
            pub_name: "Raptor".to_string(),
            max_hp: 8,
            move_range: 3,
            attack_range: 1,
            damage: 3,
            cost: 2,
            sprite_idx: 0,
            faction: "Dinosaur".to_string(),
        }]),
        Terrain(vec![TerrainDescriptor { name: "grass".to_string(), sprite_idx: 0, wall: false }]),
    )
}

fn joined(id: u64, name: &str) -> GameEvent {
    GameEvent::PlayerJoined { player_id: id, name: name.to_string() }
}

#[test]
fn second_connection_gets_roster_and_starts_match() {
    let (b, u, t) = tables();
    let mut s = GameState::default();
    let out = s.on_client_connected(1, "Alice".to_string(), &b, &u, &t);
    assert_eq!(out, vec![Outgoing::Broadcast { event: joined(1, "Alice") }]);
    assert_eq!(s.stage, Stage::PreGame);
    let out = s.on_client_connected(2, "Bob".to_string(), &b, &u, &t);
    assert_eq!(
        out,
        vec![
            Outgoing::Send { to: 2, event: joined(1, "Alice") },
            Outgoing::Broadcast { event: joined(2, "Bob") },
            Outgoing::Broadcast { event: GameEvent::BeginGame { goes_first: 2 } },
        ]
    );
    assert_eq!(s.stage, Stage::InGame);
    assert_eq!(s.active_player_id, 2);
    assert_eq!(s.get_player_faction(&1), Faction::Volcano);
    assert_eq!(s.get_player_faction(&2), Faction::Dinosaur);
    assert_eq!(s.history.len(), 3);
}

#[test]
fn duplicate_connection_is_not_registered_twice() {
    let (b, u, t) = tables();
    let mut s = GameState::default();
    s.on_client_connected(1, "Alice".to_string(), &b, &u, &t);
    let out = s.on_client_connected(1, "Eve".to_string(), &b, &u, &t);
    assert_eq!(out, vec![Outgoing::Send { to: 1, event: joined(1, "Alice") }]);
    assert_eq!(s.players.len(), 1);
    assert_eq!(s.history.len(), 1);
}

#[test]
fn disconnect_ends_the_match() {
    let (b, u, t) = tables();
    let mut s = GameState::default();
    s.on_client_connected(1, "Alice".to_string(), &b, &u, &t);
    s.on_client_connected(2, "Bob".to_string(), &b, &u, &t);
    let out = s.on_client_disconnected(1, &b, &u, &t);
    assert_eq!(
        out,
        vec![
            Outgoing::Broadcast { event: GameEvent::PlayerDisconnected { player_id: 1 } },
            Outgoing::Broadcast {
                event: GameEvent::EndGame { reason: EndGameReason::PlayerLeft { player_id: 1 } }
            },
        ]
    );
    assert_eq!(s.stage, Stage::Ended);
    assert!(s.players.get(&1).is_none());
}

#[test]
fn rejected_event_never_reaches_history() {
    let (b, u, t) = tables();
    let mut s = GameState::default();
    s.on_client_connected(1, "Alice".to_string(), &b, &u, &t);
    s.on_client_connected(2, "Bob".to_string(), &b, &u, &t);
    let before = s.history.clone();
    // it is player 2's turn
    let out = s.on_client_event(GameEvent::EndTurn { player_id: 1 }, &b, &u, &t);
    assert!(out.is_empty());
    assert_eq!(s.history, before);
    assert_eq!(s.active_player_id, 2);
    let out = s.on_client_event(GameEvent::EndTurn { player_id: 2 }, &b, &u, &t);
    assert_eq!(out, vec![Outgoing::Broadcast { event: GameEvent::EndTurn { player_id: 2 } }]);
    assert_eq!(s.active_player_id, 1);
    assert_eq!(s.history.len(), before.len() + 1);
    assert!(!s.history.contains(&GameEvent::EndTurn { player_id: 1 }));
}

#[test]
fn mirror_applies_and_queues_server_events() {
    let (b, u, t) = tables();
    let mut m = ClientMirror::new();
    assert_eq!(m.receive(joined(1, "Alice"), &b, &u, &t), Ok(()));
    assert_eq!(m.receive(joined(2, "Bob"), &b, &u, &t), Ok(()));
    assert_eq!(m.receive(GameEvent::BeginGame { goes_first: 2 }, &b, &u, &t), Ok(()));
    assert_eq!(m.state.stage, Stage::InGame);
    let drained = m.drain();
    assert_eq!(
        drained,
        vec![joined(1, "Alice"), joined(2, "Bob"), GameEvent::BeginGame { goes_first: 2 }]
    );
    assert!(m.drain().is_empty());
    assert_eq!(m.state.history.len(), 3);
}

#[test]
fn mirror_reports_divergence() {
    let (b, u, t) = tables();
    let mut m = ClientMirror::new();
    assert_eq!(
        m.receive(GameEvent::BeginGame { goes_first: 5 }, &b, &u, &t),
        Err(ReplicaError::Diverged)
    );
    assert_eq!(m.state.stage, Stage::PreGame);
    assert!(m.drain().is_empty());
}
