//! The lobby: sessions waiting for a chance to contribute, keyed by session id.
use std::collections::HashMap;
use vstd::prelude::*;

use crate::session::{SessionId, SessionInfo};

verus! {

broadcast use vstd::std_specs::hash::group_hash_axioms;

/// Registry of waiting sessions. Each session id appears at most once.
pub struct Lobby {
    sessions: HashMap<u64, SessionInfo>,
}

impl View for Lobby {
    type V = Map<u64, SessionInfo>;

    closed spec fn view(&self) -> Map<u64, SessionInfo> {
        self.sessions@
    }
}

impl Lobby {
    /// An empty lobby.
    pub fn new() -> (r: Lobby)
        ensures
            r@ == Map::<u64, SessionInfo>::empty(),
    {
        Lobby { sessions: HashMap::new() }
    }

    /// Number of waiting sessions.
    pub fn len(&self) -> (r: usize)
        ensures
            r as nat == self@.len(),
    {
        proof {
            vstd::std_specs::hash::axiom_hashmap_view_finite_dom(self.sessions);
        }
        self.sessions.len()
    }

    /// Whether `id` is waiting in the lobby.
    pub fn contains(&self, id: SessionId) -> (r: bool)
        ensures
            r == self@.contains_key(id.0),
    {
        self.sessions.contains_key(&id.0)
    }

    /// The bookkeeping of session `id`, if it is waiting.
    pub fn get(&self, id: SessionId) -> (r: Option<&SessionInfo>)
        ensures
            r == (if self@.contains_key(id.0) {
                Some(&self@[id.0])
            } else {
                None::<&SessionInfo>
            }),
    {
        self.sessions.get(&id.0)
    }

    /// Registers `info` under `id`, replacing what was there.
    pub fn insert(&mut self, id: SessionId, info: SessionInfo)
        ensures
            final(self)@ == old(self)@.insert(id.0, info),
    {
        self.sessions.insert(id.0, info);
    }

    /// Takes the session `id` out of the lobby, handing back its bookkeeping.
    pub fn remove(&mut self, id: SessionId) -> (r: Option<SessionInfo>)
        ensures
            final(self)@ == old(self)@.remove(id.0),
            r == (if old(self)@.contains_key(id.0) {
                Some(old(self)@[id.0])
            } else {
                None::<SessionInfo>
            }),
    {
        self.sessions.remove(&id.0)
    }
}

} // verus!
