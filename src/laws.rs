//! Properties of the admission protocol, stated over the coordinator's model
//! and proved from the definitions that the operations' contracts use.
use vstd::prelude::*;

use crate::coordinator::CoordinatorModel;
use crate::responses::TryContributeError;
use crate::session::{is_rate_limited, CheckinConfig, SessionId, SessionInfo};

verus! {

/// The state after a run of attempts, each a session and a time, applied in order.
pub open spec fn after_attempts(s: CoordinatorModel, attempts: Seq<(SessionId, u64)>, config: CheckinConfig) -> CoordinatorModel
    decreases attempts.len(),
{
    if attempts.len() == 0 {
        s
    } else {
        after_attempts(s.after_attempt(attempts[0].0, attempts[0].1, config), attempts.drop_first(), config)
    }
}

/// How many attempts of a run are admitted into the slot.
pub open spec fn admissions(s: CoordinatorModel, attempts: Seq<(SessionId, u64)>, config: CheckinConfig) -> nat
    decreases attempts.len(),
{
    if attempts.len() == 0 {
        0
    } else {
        (if s.admission_error(attempts[0].0, attempts[0].1, config) is None { 1nat } else { 0nat })
            + admissions(s.after_attempt(attempts[0].0, attempts[0].1, config), attempts.drop_first(), config)
    }
}

/// A single attempt keeps every session out of the lobby while it holds the
/// slot, and never changes an occupied slot.
pub proof fn lemma_attempt_keeps_slot(s: CoordinatorModel, id: SessionId, now: u64, config: CheckinConfig)
    requires
        s.wf(),
    ensures
        s.after_attempt(id, now, config).wf(),
        s.participant is Some ==> s.after_attempt(id, now, config).participant == s.participant,
        s.participant is Some ==> s.admission_error(id, now, config) is Some,
{
}

/// Whatever attempts arrive, and in whatever order, the slot has at most one
/// occupant, no session is both waiting and holding the slot, an occupant is
/// never displaced by an attempt, and at most one attempt of the run is
/// admitted (none while the slot is taken).
pub proof fn lemma_single_occupant(s: CoordinatorModel, attempts: Seq<(SessionId, u64)>, config: CheckinConfig)
    requires
        s.wf(),
    ensures
        after_attempts(s, attempts, config).wf(),
        s.participant is Some ==> after_attempts(s, attempts, config).participant == s.participant,
        s.participant is Some ==> admissions(s, attempts, config) == 0,
        admissions(s, attempts, config) <= 1,
    decreases attempts.len(),
{
    if attempts.len() > 0 {
        let next = s.after_attempt(attempts[0].0, attempts[0].1, config);
        lemma_attempt_keeps_slot(s, attempts[0].0, attempts[0].1, config);
        lemma_single_occupant(next, attempts.drop_first(), config);
        if s.admission_error(attempts[0].0, attempts[0].1, config) is None {
            assert(next.participant is Some);
        }
    }
}

/// An admitted session has left the lobby and holds the slot.
pub proof fn lemma_admitted_leaves_lobby(s: CoordinatorModel, id: SessionId, now: u64, config: CheckinConfig)
    requires
        s.wf(),
        s.admission_error(id, now, config) is None,
    ensures
        !s.after_attempt(id, now, config).lobby.contains_key(id.0),
        s.after_attempt(id, now, config).holds_slot(id),
{
}

/// After the deadline check for `id`, `id` no longer holds the slot; and a
/// check for a session that does not hold it changes nothing, so a stale
/// check never evicts a later occupant.
pub proof fn lemma_deadline_releases_only_its_own(s: CoordinatorModel, id: SessionId)
    requires
        s.wf(),
    ensures
        s.after_deadline(id).wf(),
        !s.after_deadline(id).holds_slot(id),
        !s.holds_slot(id) ==> s.after_deadline(id) == s,
{
}

/// A session's first attempt is never rate-limited, whenever it comes.
pub proof fn lemma_first_attempt_not_limited(s: CoordinatorModel, id: SessionId, now: u64, config: CheckinConfig)
    requires
        s.lobby.contains_key(id.0),
        s.lobby[id.0].is_first_ping_attempt,
    ensures
        !is_rate_limited(s.lobby[id.0], now, config),
        s.admission_error(id, now, config) != Some(TryContributeError::RateLimited),
{
}

/// A later attempt is rejected exactly when less than the minimum interval,
/// the frequency less the tolerance, has passed since the last allowed one.
pub proof fn lemma_rate_limit_threshold(info: SessionInfo, now: u64, config: CheckinConfig)
    requires
        !info.is_first_ping_attempt,
    ensures
        is_rate_limited(info, now, config) <==> now - info.last_ping_time < (config.frequency_secs
            - config.tolerance_secs) * 1000,
{
}

/// An unknown session is reported as such even when the slot is taken; a
/// known session that comes too early is reported as rate-limited even when
/// the slot is taken.
pub proof fn lemma_error_precedence(s: CoordinatorModel, id: SessionId, now: u64, config: CheckinConfig)
    ensures
        !s.lobby.contains_key(id.0) ==> s.admission_error(id, now, config) == Some(
            TryContributeError::UnknownSessionId,
        ),
        s.lobby.contains_key(id.0) && is_rate_limited(s.lobby[id.0], now, config) ==> s.admission_error(
            id,
            now,
            config,
        ) == Some(TryContributeError::RateLimited),
{
}

/// Across attempts, the recorded time of a session's last allowed attempt
/// never goes back, and no other session's bookkeeping changes.
pub proof fn lemma_ping_time_monotonic(s: CoordinatorModel, id: SessionId, other: SessionId, now: u64, config: CheckinConfig)
    requires
        config.wf(),
        s.lobby.contains_key(id.0),
        !s.lobby[id.0].is_first_ping_attempt,
        s.after_attempt(id, now, config).lobby.contains_key(id.0),
    ensures
        s.after_attempt(id, now, config).lobby[id.0].last_ping_time >= s.lobby[id.0].last_ping_time,
        other != id && s.lobby.contains_key(other.0) ==> s.after_attempt(id, now, config).lobby.contains_key(other.0)
            && s.after_attempt(id, now, config).lobby[other.0] == s.lobby[other.0],
{
}

} // verus!
