//! Coordinator state and the operations that move sessions between the lobby
//! and the contribution slot. Every operation here is meant to run under one
//! exclusive-access section of the shared state.
use vstd::prelude::*;

use crate::lobby::Lobby;
use crate::responses::{StatusResponse, TryContributeError};
use crate::session::{is_rate_limited, rate_limited, CheckinConfig, SessionId, SessionInfo};

verus! {

/// The abstract state of the coordinator.
pub ghost struct CoordinatorModel {
    pub lobby: Map<u64, SessionInfo>,
    pub participant: Option<(SessionId, String)>,
    pub num_contributions: nat,
}

/// Bookkeeping of a session after an attempt that the rate limiter let through.
pub open spec fn checked_in(info: SessionInfo, now: u64) -> SessionInfo {
    SessionInfo { is_first_ping_attempt: false, last_ping_time: now, ..info }
}

impl CoordinatorModel {
    /// No session is both waiting in the lobby and holding the slot.
    pub open spec fn wf(self) -> bool {
        match self.participant {
            Some(p) => !self.lobby.contains_key(p.0.0),
            None => true,
        }
    }

    /// Whether the slot is held by `id`.
    pub open spec fn holds_slot(self, id: SessionId) -> bool {
        match self.participant {
            Some(p) => p.0 == id,
            None => false,
        }
    }

    /// Why an attempt by `id` at `now` fails, if it does. An unknown session
    /// comes first, then the rate limiter, then an occupied slot.
    pub open spec fn admission_error(self, id: SessionId, now: u64, config: CheckinConfig) -> Option<
        TryContributeError,
    > {
        if !self.lobby.contains_key(id.0) {
            Some(TryContributeError::UnknownSessionId)
        } else if is_rate_limited(self.lobby[id.0], now, config) {
            Some(TryContributeError::RateLimited)
        } else if self.participant is Some {
            Some(TryContributeError::AnotherContributionInProgress)
        } else {
            None
        }
    }

    /// The state after an attempt by `id` at `now`. A rejected check does
    /// not touch the state; an attempt that passes it is recorded, and, when
    /// the slot is free, moves the session from the lobby into the slot.
    pub open spec fn after_attempt(self, id: SessionId, now: u64, config: CheckinConfig) -> CoordinatorModel {
        match self.admission_error(id, now, config) {
            Some(TryContributeError::AnotherContributionInProgress) => CoordinatorModel {
                lobby: self.lobby.insert(id.0, checked_in(self.lobby[id.0], now)),
                ..self
            },
            Some(_) => self,
            None => CoordinatorModel {
                lobby: self.lobby.remove(id.0),
                participant: Some((id, self.lobby[id.0].unique_identifier)),
                ..self
            },
        }
    }

    /// The state after the deadline check for an admission of `id`: the
    /// slot is cleared only if `id` still holds it.
    pub open spec fn after_deadline(self, id: SessionId) -> CoordinatorModel {
        if self.holds_slot(id) {
            CoordinatorModel { participant: None, ..self }
        } else {
            self
        }
    }
}

/// The shared coordinator state: waiting sessions, the contribution slot and
/// the number of completed contributions.
pub struct CoordinatorState {
    pub lobby: Lobby,
    pub participant: Option<(SessionId, String)>,
    pub num_contributions: usize,
}

impl View for CoordinatorState {
    type V = CoordinatorModel;

    open spec fn view(&self) -> CoordinatorModel {
        CoordinatorModel {
            lobby: self.lobby@,
            participant: self.participant,
            num_contributions: self.num_contributions as nat,
        }
    }
}

/// A granted admission: who now holds the slot.
#[derive(Debug)]
pub struct Admission {
    pub session_id: SessionId,
    pub unique_identifier: String,
}

impl CoordinatorState {
    pub open spec fn wf(&self) -> bool {
        self@.wf()
    }

    /// A coordinator with an empty lobby, a free slot and no contributions.
    pub fn new() -> (r: CoordinatorState)
        ensures
            r.wf(),
            r@.lobby == Map::<u64, SessionInfo>::empty(),
            r@.participant is None,
            r@.num_contributions == 0,
    {
        CoordinatorState { lobby: Lobby::new(), participant: None, num_contributions: 0 }
    }

    /// Registers a session in the lobby. The session that holds the slot
    /// cannot be registered again; `false` reports that nothing changed.
    pub fn add_to_lobby(&mut self, id: SessionId, info: SessionInfo) -> (r: bool)
        requires
            old(self).wf(),
        ensures
            final(self).wf(),
            r == !old(self)@.holds_slot(id),
            r ==> final(self)@ == (CoordinatorModel { lobby: old(self)@.lobby.insert(id.0, info), ..old(self)@ }),
            !r ==> final(self)@ == old(self)@,
    {
        if let Some(p) = &self.participant {
            if p.0 == id {
                return false;
            }
        }
        self.lobby.insert(id, info);
        true
    }

    /// Vacates the slot, as the completion path does once a contribution has
    /// been accepted.
    pub fn clear_current_contributor(&mut self)
        requires
            old(self).wf(),
        ensures
            final(self).wf(),
            final(self)@ == (CoordinatorModel { participant: None, ..old(self)@ }),
    {
        self.participant = None;
    }
}

/// One admission attempt by `session_id` at time `now`.
///
/// Fails with `UnknownSessionId` when the session is not in the lobby, with
/// `RateLimited` when it comes too early, and with
/// `AnotherContributionInProgress` when the slot is taken; otherwise the
/// session leaves the lobby and takes the slot.
pub fn try_contribute(state: &mut CoordinatorState, session_id: SessionId, now: u64, config: &CheckinConfig) -> (r:
    Result<Admission, TryContributeError>)
    requires
        old(state).wf(),
        config.wf(),
    ensures
        final(state).wf(),
        final(state)@ == old(state)@.after_attempt(session_id, now, *config),
        match r {
            Ok(a) => {
                &&& old(state)@.admission_error(session_id, now, *config) is None
                &&& a.session_id == session_id
                &&& a.unique_identifier == old(state)@.lobby[session_id.0].unique_identifier
            },
            Err(e) => old(state)@.admission_error(session_id, now, *config) == Some(e),
        },
{
    let ghost before = state@;
    let mut info = match state.lobby.remove(session_id) {
        Some(info) => info,
        None => {
            assert(state@.lobby =~= before.lobby);
            return Err(TryContributeError::UnknownSessionId);
        },
    };
    if rate_limited(&info, now, config) {
        state.lobby.insert(session_id, info);
        assert(state@.lobby =~= before.lobby);
        return Err(TryContributeError::RateLimited);
    }
    info.is_first_ping_attempt = false;
    info.last_ping_time = now;
    if state.participant.is_some() {
        state.lobby.insert(session_id, info);
        assert(state@.lobby =~= before.lobby.insert(session_id.0, checked_in(before.lobby[session_id.0], now)));
        return Err(TryContributeError::AnotherContributionInProgress);
    }
    let unique_identifier = info.unique_identifier;
    state.participant = Some((session_id, unique_identifier.clone()));
    Ok(Admission { session_id, unique_identifier })
}

/// The check that runs when the compute deadline of an admission of
/// `session_id` has passed. If that session still holds the slot it is
/// stalled: the slot is cleared and its unique identifier returned, so that
/// the expiry can be recorded. Otherwise the slot was already vacated (and
/// perhaps taken by someone else) and nothing changes.
pub fn remove_participant_on_deadline(state: &mut CoordinatorState, session_id: SessionId) -> (r: Option<String>)
    requires
        old(state).wf(),
    ensures
        final(state).wf(),
        final(state)@ == old(state)@.after_deadline(session_id),
        r == (if old(state)@.holds_slot(session_id) {
            Some(old(state)@.participant->Some_0.1)
        } else {
            None::<String>
        }),
{
    let stalled = match &state.participant {
        Some(p) => p.0 == session_id,
        None => false,
    };
    if !stalled {
        return None;
    }
    match state.participant.take() {
        Some(p) => Some(p.1),
        None => None,
    }
}

/// Snapshot of the lobby size and the number of completed contributions.
pub fn status(state: &CoordinatorState) -> (r: StatusResponse)
    ensures
        r.lobby_size as nat == state@.lobby.len(),
        r.num_contributions == state.num_contributions,
{
    StatusResponse { lobby_size: state.lobby.len(), num_contributions: state.num_contributions }
}

} // verus!
