use vstd::prelude::*;

use crate::game::{Faction, GameModel, GameState, Player, PlayerId};

verus! {

/// `k` is the lowest registered id whose player plays `f`.
pub open spec fn is_first_of_faction(players: Map<PlayerId, Player>, f: Faction, k: PlayerId) -> bool {
    &&& players.contains_key(k)
    &&& players[k].faction == f
    &&& forall|j: PlayerId| #[trigger] players.contains_key(j) && players[j].faction == f ==> k <= j
}

/// The lowest registered id playing `f`, if anyone does.
pub open spec fn player_of_faction(players: Map<PlayerId, Player>, f: Faction) -> Option<PlayerId> {
    if exists|k: PlayerId| is_first_of_faction(players, f, k) {
        Some(choose|k: PlayerId| is_first_of_faction(players, f, k))
    } else {
        None
    }
}

impl GameModel {
    /// The volcano has been plugged with a boulder. No rule plugs it yet.
    pub open spec fn volcano_plugged(self) -> bool {
        false
    }

    /// Every dinosaur unit has fallen. No rule counts them yet.
    pub open spec fn dinos_all_dead(self) -> bool {
        false
    }

    /// Every dinosaur village has been destroyed. No rule counts them yet.
    pub open spec fn dino_villages_destroyed(self) -> bool {
        false
    }

    /// Who has won: the dinosaur player once the volcano is plugged, else
    /// the volcano player once every dinosaur and village is gone.
    pub open spec fn winner(self) -> Option<PlayerId> {
        if self.volcano_plugged() && player_of_faction(self.players, Faction::Dinosaur) is Some {
            player_of_faction(self.players, Faction::Dinosaur)
        } else if self.dinos_all_dead() && self.dino_villages_destroyed() {
            player_of_faction(self.players, Faction::Volcano)
        } else {
            None
        }
    }
}

impl GameState {
    /// The lowest registered id playing `f`, if anyone does.
    fn first_player_of(&self, f: Faction) -> (r: Option<PlayerId>)
        ensures
            r == player_of_faction(self@.players, f),
    {
        let mut best: Option<PlayerId> = None;
        for k in it: self.players.keys()
            invariant
                it.seq().unref().to_set() == self@.players.dom(),
                match best {
                    Some(b) => {
                        &&& self@.players.contains_key(b)
                        &&& self@.players[b].faction == f
                        &&& forall|i: int|
                            0 <= i < it.index() && self@.players[*it.seq()[i]].faction == f ==> b
                                <= *it.seq()[i]
                    },
                    None => forall|i: int|
                        0 <= i < it.index() ==> self@.players[*it.seq()[i]].faction != f,
                },
            ensures
                match best {
                    Some(b) => is_first_of_faction(self@.players, f, b),
                    None => forall|j: PlayerId| #[trigger]
                        self@.players.contains_key(j) ==> self@.players[j].faction != f,
                },
        {
            let player = self.players.get(k).unwrap();
            if player.faction == f {
                match best {
                    Some(b) => {
                        if *k < b {
                            best = Some(*k);
                        }
                    },
                    None => {
                        best = Some(*k);
                    },
                }
            }
        }
        best
    }

    /// Decides whether someone has won the match.
    pub fn determine_winner(&self) -> (r: Option<PlayerId>)
        ensures
            r == self@.winner(),
    {
        if self.volcano_has_been_plugged() {
            let dinosaur = self.first_player_of(Faction::Dinosaur);
            if dinosaur.is_some() {
                return dinosaur;
            }
        }
        if self.all_dino_dead() && self.all_dino_villages_destroyed() {
            return self.first_player_of(Faction::Volcano);
        }
        None
    }

    /// Whether the volcano has been plugged with a boulder.
    pub fn volcano_has_been_plugged(&self) -> (r: bool)
        ensures
            r == self@.volcano_plugged(),
    {
        false
    }

    /// Whether every dinosaur unit has fallen.
    pub fn all_dino_dead(&self) -> (r: bool)
        ensures
            r == self@.dinos_all_dead(),
    {
        false
    }

    /// Whether every dinosaur village has been destroyed.
    pub fn all_dino_villages_destroyed(&self) -> (r: bool)
        ensures
            r == self@.dino_villages_destroyed(),
    {
        false
    }

    /// The faction of a registered player.
    pub fn get_player_faction(&self, player_id: &PlayerId) -> (r: Faction)
        requires
            self@.players.contains_key(*player_id),
        ensures
            r == self@.players[*player_id].faction,
    {
        self.players.get(player_id).unwrap().faction
    }
}

} // verus!
