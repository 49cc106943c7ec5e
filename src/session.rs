//! Session identity, per-session check-in bookkeeping and the rate limiter.
use vstd::prelude::*;

verus! {

/// Opaque identifier of one authenticated connection.
#[derive(Clone, Copy, Debug, PartialEq, Eq, Structural, Hash)]
pub struct SessionId(pub u64);

/// Check-in bookkeeping for a session waiting in the lobby.
///
/// Timestamps are monotonic readings in milliseconds.
#[derive(Debug)]
pub struct SessionInfo {
    /// Stable participant identity, used as the persistence key.
    pub unique_identifier: String,
    /// True until the session's first admission attempt.
    pub is_first_ping_attempt: bool,
    /// Time of the last admission attempt that the rate limiter let through.
    pub last_ping_time: u64,
}

impl SessionInfo {
    /// Bookkeeping for a freshly registered session that has not yet tried
    /// to contribute.
    pub fn new(unique_identifier: String, registered_at: u64) -> (r: SessionInfo)
        ensures
            r.unique_identifier@ == unique_identifier@,
            r.is_first_ping_attempt,
            r.last_ping_time == registered_at,
    {
        SessionInfo { unique_identifier, is_first_ping_attempt: true, last_ping_time: registered_at }
    }
}

/// Check-in policy: sessions are expected to check in every
/// `frequency_secs` seconds, give or take `tolerance_secs`; a contributor
/// may hold the slot for `compute_deadline_secs` seconds.
#[derive(Clone, Copy, Debug)]
pub struct CheckinConfig {
    pub frequency_secs: u64,
    pub tolerance_secs: u64,
    pub compute_deadline_secs: u64,
}

impl CheckinConfig {
    /// The tolerance is smaller than the frequency.
    pub open spec fn wf(&self) -> bool {
        self.tolerance_secs < self.frequency_secs
    }

    /// Minimum time, in milliseconds, between two allowed attempts.
    pub open spec fn min_interval_ms(&self) -> int {
        (self.frequency_secs - self.tolerance_secs) * 1000
    }
}

/// A non-first attempt at `now` comes too early when less than the minimum
/// interval has passed since the last allowed attempt.
pub open spec fn is_rate_limited(info: SessionInfo, now: u64, config: CheckinConfig) -> bool {
    !info.is_first_ping_attempt && (now as int) < info.last_ping_time + config.min_interval_ms()
}

/// Decides whether an admission attempt at `now` is rejected as too early.
/// This is a pure check: it records nothing.
pub fn rate_limited(info: &SessionInfo, now: u64, config: &CheckinConfig) -> (r: bool)
    requires
        config.wf(),
    ensures
        r == is_rate_limited(*info, now, *config),
{
    if info.is_first_ping_attempt {
        return false;
    }
    if now < info.last_ping_time {
        return true;
    }
    let min_interval: u128 = ((config.frequency_secs - config.tolerance_secs) as u128) * 1000;
    ((now - info.last_ping_time) as u128) < min_interval
}

} // verus!
