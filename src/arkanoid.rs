//! Arkanoid's discrete rules: the tuning parameter ids, the checks a tuning
//! request passes before any value is touched, and the paddle's bounce zones.
use vstd::prelude::*;
use crate::tuning::{TUNING_STATUS_REJECTED, TUNING_STATUS_UNKNOWN_PARAM};

verus! {

/// Number of equal-width bounce zones across the paddle.
pub const ZONE_COUNT: usize = 8;

#[derive(Clone, Copy, Debug, PartialEq, Eq, Structural)]
pub enum ArkanoidTuningParam {
    PaddleWidth,
    PaddleHeight,
    PaddleSpeed,
    BallRadius,
    BallSpeed,
    BounceZone0Angle,
    BounceZone1Angle,
    BounceZone2Angle,
    BounceZone3Angle,
    BounceZone4Angle,
    BounceZone5Angle,
    BounceZone6Angle,
    BounceZone7Angle,
}

impl ArkanoidTuningParam {
    pub open spec fn spec_id(self) -> u32 {
        match self {
            ArkanoidTuningParam::PaddleWidth => 0,
            ArkanoidTuningParam::PaddleHeight => 1,
            ArkanoidTuningParam::PaddleSpeed => 2,
            ArkanoidTuningParam::BallRadius => 3,
            ArkanoidTuningParam::BallSpeed => 4,
            ArkanoidTuningParam::BounceZone0Angle => 5,
            ArkanoidTuningParam::BounceZone1Angle => 6,
            ArkanoidTuningParam::BounceZone2Angle => 7,
            ArkanoidTuningParam::BounceZone3Angle => 8,
            ArkanoidTuningParam::BounceZone4Angle => 9,
            ArkanoidTuningParam::BounceZone5Angle => 10,
            ArkanoidTuningParam::BounceZone6Angle => 11,
            ArkanoidTuningParam::BounceZone7Angle => 12,
        }
    }

    /// The parameter's id on the tuning interface.
    pub fn id(self) -> (r: u32)
        ensures
            r == self.spec_id(),
    {
        match self {
            ArkanoidTuningParam::PaddleWidth => 0,
            ArkanoidTuningParam::PaddleHeight => 1,
            ArkanoidTuningParam::PaddleSpeed => 2,
            ArkanoidTuningParam::BallRadius => 3,
            ArkanoidTuningParam::BallSpeed => 4,
            ArkanoidTuningParam::BounceZone0Angle => 5,
            ArkanoidTuningParam::BounceZone1Angle => 6,
            ArkanoidTuningParam::BounceZone2Angle => 7,
            ArkanoidTuningParam::BounceZone3Angle => 8,
            ArkanoidTuningParam::BounceZone4Angle => 9,
            ArkanoidTuningParam::BounceZone5Angle => 10,
            ArkanoidTuningParam::BounceZone6Angle => 11,
            ArkanoidTuningParam::BounceZone7Angle => 12,
        }
    }

    /// The parameter with this id: ids 0 to 12 exist, no other.
    pub fn from_id(id: u32) -> (r: Option<ArkanoidTuningParam>)
        ensures
            match r {
                Some(p) => p.spec_id() == id,
                None => id > 12,
            },
    {
        match id {
            0 => Some(ArkanoidTuningParam::PaddleWidth),
            1 => Some(ArkanoidTuningParam::PaddleHeight),
            2 => Some(ArkanoidTuningParam::PaddleSpeed),
            3 => Some(ArkanoidTuningParam::BallRadius),
            4 => Some(ArkanoidTuningParam::BallSpeed),
            5 => Some(ArkanoidTuningParam::BounceZone0Angle),
            6 => Some(ArkanoidTuningParam::BounceZone1Angle),
            7 => Some(ArkanoidTuningParam::BounceZone2Angle),
            8 => Some(ArkanoidTuningParam::BounceZone3Angle),
            9 => Some(ArkanoidTuningParam::BounceZone4Angle),
            10 => Some(ArkanoidTuningParam::BounceZone5Angle),
            11 => Some(ArkanoidTuningParam::BounceZone6Angle),
            12 => Some(ArkanoidTuningParam::BounceZone7Angle),
            _ => None,
        }
    }
}

/// The bounce zone a parameter sets the angle of, if it is a zone angle.
pub fn zone_angle_index(param: ArkanoidTuningParam) -> (r: Option<usize>)
    ensures
        param.spec_id() >= 5 ==> r == Some((param.spec_id() - 5) as usize),
        param.spec_id() < 5 ==> r is None,
{
    match param {
        ArkanoidTuningParam::BounceZone0Angle => Some(0),
        ArkanoidTuningParam::BounceZone1Angle => Some(1),
        ArkanoidTuningParam::BounceZone2Angle => Some(2),
        ArkanoidTuningParam::BounceZone3Angle => Some(3),
        ArkanoidTuningParam::BounceZone4Angle => Some(4),
        ArkanoidTuningParam::BounceZone5Angle => Some(5),
        ArkanoidTuningParam::BounceZone6Angle => Some(6),
        ArkanoidTuningParam::BounceZone7Angle => Some(7),
        _ => None,
    }
}

/// The checks of a tuning request, in order: a value that is not finite is
/// rejected, then an unknown id is reported; otherwise the parameter to set.
pub fn check_tuning_request(value_is_finite: bool, param_id: u32) -> (r: Result<ArkanoidTuningParam, u32>)
    ensures
        !value_is_finite ==> r == Err::<ArkanoidTuningParam, u32>(TUNING_STATUS_REJECTED),
        value_is_finite && param_id > 12 ==> r == Err::<ArkanoidTuningParam, u32>(TUNING_STATUS_UNKNOWN_PARAM),
        value_is_finite && param_id <= 12 ==> (r is Ok && r->Ok_0.spec_id() == param_id),
{
    if !value_is_finite {
        return Err(TUNING_STATUS_REJECTED);
    }
    match ArkanoidTuningParam::from_id(param_id) {
        Some(p) => Ok(p),
        None => Err(TUNING_STATUS_UNKNOWN_PARAM),
    }
}

/// Compiled-in bounce angle of each zone, in degrees from the horizontal:
/// steep at the paddle's ends, shallow in its middle.
pub open spec fn spec_default_zone_angle(zone: int) -> int {
    if zone == 0 || zone == 7 {
        15
    } else if zone == 1 || zone == 6 {
        20
    } else if zone == 2 || zone == 5 {
        30
    } else {
        60
    }
}

pub fn default_zone_angle(zone: usize) -> (r: u32)
    requires
        zone < ZONE_COUNT,
    ensures
        r == spec_default_zone_angle(zone as int),
{
    match zone {
        0 | 7 => 15,
        1 | 6 => 20,
        2 | 5 => 30,
        _ => 60,
    }
}

/// The zone for a hit whose scaled offset from the paddle's left edge rounds
/// down to `raw`; hits at or past the right edge fall in the last zone.
pub fn bounce_zone(raw: usize) -> (r: usize)
    ensures
        r == (if raw < ZONE_COUNT { raw } else { (ZONE_COUNT - 1) as usize }),
{
    if raw < ZONE_COUNT {
        raw
    } else {
        ZONE_COUNT - 1
    }
}

pub open spec fn spec_zone_direction(zone: int) -> int {
    if zone < 4 { -1 } else { 1 }
}

/// Horizontal sign of the bounce: the left half of the paddle sends the ball
/// left, the right half sends it right.
pub fn zone_direction(zone: usize) -> (r: i32)
    ensures
        r == spec_zone_direction(zone as int),
{
    if zone < 4 { -1 } else { 1 }
}

/// With the compiled-in table, the leftmost zone bounces at the steepest angle
/// toward the left, the rightmost at the steepest toward the right, and the two
/// central zones at the shallowest angle (60 degrees); the table is symmetric.
pub proof fn lemma_default_bounce_zones()
    ensures
        forall|z: int| 0 <= z < 8 ==> spec_default_zone_angle(0) <= #[trigger] spec_default_zone_angle(z),
        forall|z: int| 0 <= z < 8 ==> #[trigger] spec_default_zone_angle(z) <= spec_default_zone_angle(3),
        spec_default_zone_angle(3) == 60 && spec_default_zone_angle(4) == 60,
        spec_zone_direction(0) == -1 && spec_zone_direction(7) == 1,
        forall|z: int| 0 <= z < 8 ==> #[trigger] spec_default_zone_angle(z) == spec_default_zone_angle(7 - z),
{
}

/// Field order of Arkanoid's snapshot buffer.
#[derive(Clone, Copy, Debug, PartialEq, Eq, Structural)]
pub enum SnapshotField {
    PaddleX,
    PaddleY,
    PaddleWidth,
    PaddleHeight,
    BallX,
    BallY,
    BallSize,
}

/// Number of fields in Arkanoid's snapshot buffer.
pub const SNAPSHOT_LEN: usize = 7;

impl SnapshotField {
    /// The field's position in the snapshot buffer.
    pub fn idx(self) -> (r: usize)
        ensures
            r < SNAPSHOT_LEN,
            r == match self {
                SnapshotField::PaddleX => 0usize,
                SnapshotField::PaddleY => 1usize,
                SnapshotField::PaddleWidth => 2usize,
                SnapshotField::PaddleHeight => 3usize,
                SnapshotField::BallX => 4usize,
                SnapshotField::BallY => 5usize,
                SnapshotField::BallSize => 6usize,
            },
    {
        match self {
            SnapshotField::PaddleX => 0,
            SnapshotField::PaddleY => 1,
            SnapshotField::PaddleWidth => 2,
            SnapshotField::PaddleHeight => 3,
            SnapshotField::BallX => 4,
            SnapshotField::BallY => 5,
            SnapshotField::BallSize => 6,
        }
    }
}

} // verus!
