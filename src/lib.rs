//! Admission coordinator for a sequential contribution ceremony: a lobby of
//! waiting sessions, a single contribution slot, a check-in rate limiter and
//! the deadline check that evicts a stalled contributor.
pub mod coordinator;
pub mod laws;
pub mod lobby;
pub mod responses;
pub mod session;

pub use coordinator::{
    remove_participant_on_deadline, status, try_contribute, Admission, CoordinatorModel,
    CoordinatorState,
};
pub use lobby::Lobby;
pub use responses::{JwtInfoResponse, StatusResponse, TryContributeError, TryContributeResponse};
pub use session::{CheckinConfig, SessionId, SessionInfo};
