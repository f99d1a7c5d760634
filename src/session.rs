use vstd::prelude::*;

use crate::buildings::Buildings;
use crate::game::{tables, EndGameReason, GameEvent, GameModel, GameState, Player, PlayerId, Tables};
use crate::terrain::Terrain;
use crate::units::Units;

verus! {

/// A message that the server has decided to send.
#[derive(Debug, PartialEq)]
pub enum Outgoing {
    /// To one client only.
    Send { to: PlayerId, event: GameEvent },
    /// To every connected client.
    Broadcast { event: GameEvent },
}

/// What the server sends when it offers `e` in state `s`: the event to
/// everyone when it is legal, nothing otherwise.
pub open spec fn announce(s: GameModel, e: GameEvent, t: Tables) -> Seq<Outgoing> {
    if s.valid_event(e, t) {
        seq![Outgoing::Broadcast { event: e }]
    } else {
        Seq::empty()
    }
}

/// The message that tells client `to` that player `k` has joined.
pub open spec fn introduction(players: Map<PlayerId, Player>, to: PlayerId, k: PlayerId) -> Outgoing {
    Outgoing::Send {
        to,
        event: GameEvent::PlayerJoined { player_id: k, name: players[k].name },
    }
}

/// `msgs` introduces every player of `players` to client `to`, in some
/// order. As there are as many messages as players, each is introduced
/// exactly once and nothing else is sent.
pub open spec fn is_roster_for(players: Map<PlayerId, Player>, to: PlayerId, msgs: Seq<Outgoing>) -> bool {
    &&& msgs.len() == players.len()
    &&& forall|k: PlayerId|
        #[trigger] players.contains_key(k) ==> exists|i: int|
            0 <= i < msgs.len() && #[trigger] msgs[i] == introduction(players, to, k)
}

impl GameState {
    /// One introduction of each registered player, addressed to `to`.
    fn roster(&self, to: PlayerId) -> (out: Vec<Outgoing>)
        ensures
            is_roster_for(self@.players, to, out@),
    {
        let mut out: Vec<Outgoing> = Vec::new();
        for k in it: self.players.keys()
            invariant
                it.seq().unref().to_set() == self@.players.dom(),
                it.seq().len() == self@.players.dom().len(),
                forall|k: PlayerId|
                    #[trigger] self@.players.contains_key(k) ==> exists|j: int|
                        0 <= j < it.seq().len() && *it.seq()[j] == k,
                out@.len() == it.index(),
                forall|i: int|
                    0 <= i < it.index() ==> out@[i] == introduction(
                        self@.players,
                        to,
                        *#[trigger] it.seq()[i],
                    ),
            ensures
                is_roster_for(self@.players, to, out@),
        {
            let name = self.players.get(k).unwrap().name.clone();
            out.push(Outgoing::Send { to, event: GameEvent::PlayerJoined { player_id: *k, name } });
        }
        out
    }

    /// Offers `event` through validation: consumes it and queues it for
    /// everyone when it is legal, drops it otherwise.
    fn offer(
        &mut self,
        event: GameEvent,
        buildings: &Buildings,
        units: &Units,
        terrain: &Terrain,
        out: &mut Vec<Outgoing>,
    )
        ensures
            final(self)@ == old(self)@.offer(event, tables(buildings, units, terrain)),
            final(out)@ == old(out)@ + announce(old(self)@, event, tables(buildings, units, terrain)),
    {
        if self.validate(&event, buildings, units, terrain) {
            self.consume(&event, buildings, units, terrain);
            out.push(Outgoing::Broadcast { event });
        } else {
            assert(old(out)@ + Seq::<Outgoing>::empty() =~= old(out)@);
        }
    }

    /// A client `id` named `name` has connected: introduce the players
    /// already present to it, register it, and begin the match once two
    /// players are registered, the newcomer moving first.
    pub fn on_client_connected(
        &mut self,
        id: PlayerId,
        name: String,
        buildings: &Buildings,
        units: &Units,
        terrain: &Terrain,
    ) -> (out: Vec<Outgoing>)
        ensures
            ({
                let t = tables(buildings, units, terrain);
                let s0 = old(self)@;
                let n = s0.players.len() as int;
                let join = GameEvent::PlayerJoined { player_id: id, name };
                let s1 = s0.offer(join, t);
                let begin = GameEvent::BeginGame { goes_first: id };
                let starts = s1.players.len() == 2;
                &&& final(self)@ == if starts {
                    s1.offer(begin, t)
                } else {
                    s1
                }
                &&& is_roster_for(s0.players, id, out@.take(n))
                &&& out@.skip(n) == announce(s0, join, t) + if starts {
                    announce(s1, begin, t)
                } else {
                    Seq::empty()
                }
            }),
    {
        let ghost n = self@.players.len() as int;
        let mut out = self.roster(id);
        let ghost intro = out@;
        self.offer(GameEvent::PlayerJoined { player_id: id, name }, buildings, units, terrain, &mut out);
        if self.players.len() == 2 {
            self.offer(GameEvent::BeginGame { goes_first: id }, buildings, units, terrain, &mut out);
        } else {
            assert(out@ + Seq::<Outgoing>::empty() =~= out@);
        }
        assert(out@.take(n) =~= intro);
        out
    }

    /// Client `id` has left: it is removed and the match ends, since it
    /// cannot go on with one participant.
    pub fn on_client_disconnected(
        &mut self,
        id: PlayerId,
        buildings: &Buildings,
        units: &Units,
        terrain: &Terrain,
    ) -> (out: Vec<Outgoing>)
        ensures
            ({
                let t = tables(buildings, units, terrain);
                let s0 = old(self)@;
                let left = GameEvent::PlayerDisconnected { player_id: id };
                let end = GameEvent::EndGame { reason: EndGameReason::PlayerLeft { player_id: id } };
                let s1 = s0.offer(left, t);
                &&& final(self)@ == s1.offer(end, t)
                &&& out@ == announce(s0, left, t) + announce(s1, end, t)
            }),
    {
        let mut out: Vec<Outgoing> = Vec::new();
        self.offer(GameEvent::PlayerDisconnected { player_id: id }, buildings, units, terrain, &mut out);
        self.offer(
            GameEvent::EndGame { reason: EndGameReason::PlayerLeft { player_id: id } },
            buildings,
            units,
            terrain,
            &mut out,
        );
        out
    }

    /// A client has sent `event`: a legal one is consumed and passed on to
    /// everyone, and a winner, if there now is one, is announced and the
    /// match ended here as on every replica; an illegal one is dropped and
    /// changes nothing.
    pub fn on_client_event(
        &mut self,
        event: GameEvent,
        buildings: &Buildings,
        units: &Units,
        terrain: &Terrain,
    ) -> (out: Vec<Outgoing>)
        ensures
            ({
                let t = tables(buildings, units, terrain);
                let s0 = old(self)@;
                let s1 = s0.after(event, t);
                if s0.valid_event(event, t) {
                    match s1.winner() {
                        Some(w) => {
                            let end = GameEvent::EndGame { reason: EndGameReason::PlayerWon { winner: w } };
                            &&& final(self)@ == s1.offer(end, t)
                            &&& out@ == seq![Outgoing::Broadcast { event }] + announce(s1, end, t)
                        },
                        None => {
                            &&& final(self)@ == s1
                            &&& out@ == seq![Outgoing::Broadcast { event }]
                        },
                    }
                } else {
                    &&& final(self)@ == s0
                    &&& out@.len() == 0
                }
            }),
    {
        let mut out: Vec<Outgoing> = Vec::new();
        if !self.validate(&event, buildings, units, terrain) {
            return out;
        }
        self.consume(&event, buildings, units, terrain);
        out.push(Outgoing::Broadcast { event });
        if let Some(winner) = self.determine_winner() {
            self.offer(
                GameEvent::EndGame { reason: EndGameReason::PlayerWon { winner } },
                buildings,
                units,
                terrain,
                &mut out,
            );
        }
        out
    }
}

/// Why a replica refused an event from the server.
#[derive(Clone, Copy, Debug, PartialEq, Eq, Structural)]
pub enum ReplicaError {
    /// The event is not legal in the replica's state: the replica no longer
    /// follows the server.
    Diverged,
}

/// A client's copy of the match, kept in step by the server's events, with
/// the events applied since presentation code last looked.
pub struct ClientMirror {
    pub state: GameState,
    pub pending: Vec<GameEvent>,
}

impl ClientMirror {
    /// A replica of a match that nobody has joined yet.
    pub fn new() -> (r: Self)
        ensures
            r.state@ == GameModel::initial(),
            r.pending@.len() == 0,
    {
        ClientMirror { state: GameState::default(), pending: Vec::new() }
    }

    /// Applies an event broadcast by the server and queues it for
    /// presentation.
    pub fn receive(
        &mut self,
        event: GameEvent,
        buildings: &Buildings,
        units: &Units,
        terrain: &Terrain,
    ) -> (r: Result<(), ReplicaError>)
        ensures
            ({
                let t = tables(buildings, units, terrain);
                if old(self).state@.valid_event(event, t) {
                    &&& r is Ok
                    &&& final(self).state@ == old(self).state@.after(event, t)
                    &&& final(self).pending@ == old(self).pending@.push(event)
                } else {
                    &&& r == Err::<(), ReplicaError>(ReplicaError::Diverged)
                    &&& final(self).state@ == old(self).state@
                    &&& final(self).pending@ == old(self).pending@
                }
            }),
    {
        if !self.state.validate(&event, buildings, units, terrain) {
            return Err(ReplicaError::Diverged);
        }
        self.state.consume(&event, buildings, units, terrain);
        self.pending.push(event);
        Ok(())
    }

    /// Hands out every queued event, oldest first, and forgets them.
    pub fn drain(&mut self) -> (r: Vec<GameEvent>)
        ensures
            r@ == old(self).pending@,
            final(self).pending@.len() == 0,
            final(self).state@ == old(self).state@,
    {
        let mut r: Vec<GameEvent> = Vec::new();
        std::mem::swap(&mut r, &mut self.pending);
        r
    }
}

} // verus!
