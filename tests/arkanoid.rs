use arcade_engine::arkanoid::{
    bounce_zone, check_tuning_request, default_zone_angle, zone_angle_index, zone_direction,
    ArkanoidTuningParam, SnapshotField, SNAPSHOT_LEN, ZONE_COUNT,
};
use arcade_engine::tuning::{
    PongTuningParam, TUNING_STATUS_APPLIED, TUNING_STATUS_REJECTED, TUNING_STATUS_UNKNOWN_PARAM,
};

#[test]
fn parameter_ids_round_trip() {
    for id in 0..13u32 {
        let param = ArkanoidTuningParam::from_id(id).unwrap();
        assert_eq!(param.id(), id);
    }
    assert_eq!(ArkanoidTuningParam::from_id(3), Some(ArkanoidTuningParam::BallRadius));
    assert_eq!(ArkanoidTuningParam::from_id(12), Some(ArkanoidTuningParam::BounceZone7Angle));
    assert_eq!(ArkanoidTuningParam::from_id(13), None);
}

#[test]
fn unknown_parameter_returns_unknown_status() {
    assert_eq!(check_tuning_request(true, 1000), Err(TUNING_STATUS_UNKNOWN_PARAM));
    assert_eq!(ArkanoidTuningParam::from_id(1000), None);
}

#[test]
fn non_finite_values_are_rejected_before_the_id_is_read() {
    assert_eq!(check_tuning_request(f32::NAN.is_finite(), 2), Err(TUNING_STATUS_REJECTED));
    assert_eq!(check_tuning_request(f32::INFINITY.is_finite(), 1000), Err(TUNING_STATUS_REJECTED));
    assert_eq!(check_tuning_request(true, 4), Ok(ArkanoidTuningParam::BallSpeed));
}

#[test]
fn status_codes() {
    assert_eq!(TUNING_STATUS_APPLIED, 0);
    assert_eq!(TUNING_STATUS_UNKNOWN_PARAM, 1);
    assert_eq!(TUNING_STATUS_REJECTED, 2);
}

#[test]
fn zone_parameters_map_to_their_zone() {
    assert_eq!(zone_angle_index(ArkanoidTuningParam::BounceZone0Angle), Some(0));
    assert_eq!(zone_angle_index(ArkanoidTuningParam::BounceZone5Angle), Some(5));
    assert_eq!(zone_angle_index(ArkanoidTuningParam::BallSpeed), None);
    assert_eq!(zone_angle_index(ArkanoidTuningParam::PaddleWidth), None);
}

#[test]
fn default_bounce_table() {
    let table: Vec<u32> = (0..ZONE_COUNT).map(default_zone_angle).collect();
    assert_eq!(table, vec![15, 20, 30, 60, 60, 30, 20, 15]);
}

#[test]
fn leftmost_zone_is_steepest_toward_the_left() {
    let zone = bounce_zone(0);
    assert_eq!(zone, 0);
    assert_eq!(zone_direction(zone), -1);
    assert!((0..ZONE_COUNT).all(|z| default_zone_angle(zone) <= default_zone_angle(z)));
}

#[test]
fn central_zones_bounce_at_sixty_degrees() {
    assert_eq!(default_zone_angle(3), 60);
    assert_eq!(default_zone_angle(4), 60);
    assert_eq!(zone_direction(3), -1);
    assert_eq!(zone_direction(4), 1);
}

#[test]
fn hits_past_the_right_edge_fall_in_the_last_zone() {
    assert_eq!(bounce_zone(7), 7);
    assert_eq!(bounce_zone(8), 7);
    assert_eq!(bounce_zone(usize::MAX), 7);
    assert_eq!(zone_direction(7), 1);
}

#[test]
fn arkanoid_snapshot_layout() {
    assert_eq!(SNAPSHOT_LEN, 7);
    assert_eq!(SnapshotField::PaddleX.idx(), 0);
    assert_eq!(SnapshotField::BallSize.idx(), 6);
}

#[test]
fn pong_parameters() {
    assert_eq!(PongTuningParam::from_id(0), Some(PongTuningParam::BallX));
    assert_eq!(PongTuningParam::from_id(1), Some(PongTuningParam::BallY));
    assert_eq!(PongTuningParam::from_id(2), None);
}
