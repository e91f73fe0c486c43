//! Status codes and layout versions of the runtime tuning interface.
use vstd::prelude::*;

verus! {

/// The value was stored (possibly clamped into its range).
pub const TUNING_STATUS_APPLIED: u32 = 0;
/// No parameter has that id; nothing changed.
pub const TUNING_STATUS_UNKNOWN_PARAM: u32 = 1;
/// The value was refused (not finite, or the game takes no settings); nothing changed.
pub const TUNING_STATUS_REJECTED: u32 = 2;

/// Parameter-id layout of Pong, whose parameters can be read but not set.
pub const PONG_TUNING_SCHEMA_VERSION: u32 = 1;
/// Parameter-id layout of Arkanoid (ids 0 to 12).
pub const ARKANOID_TUNING_SCHEMA_VERSION: u32 = 2;

/// Pong's readable parameters: the ball's position.
#[derive(Clone, Copy, Debug, PartialEq, Eq, Structural)]
pub enum PongTuningParam {
    BallX,
    BallY,
}

impl PongTuningParam {
    /// The parameter with this id, if any.
    pub fn from_id(id: u32) -> (r: Option<PongTuningParam>)
        ensures
            id == 0 ==> r == Some(PongTuningParam::BallX),
            id == 1 ==> r == Some(PongTuningParam::BallY),
            id > 1 ==> r is None,
    {
        match id {
            0 => Some(PongTuningParam::BallX),
            1 => Some(PongTuningParam::BallY),
            _ => None,
        }
    }
}

} // verus!
