use arcade_engine::input::INPUT_ACTION;
use arcade_engine::pong::{
    opponent, phase_code, winner_code, PongPhase, PongPlayer, ScoreOutcome, Scoreboard,
    SnapshotField, DEFAULT_WINNING_SCORE, SNAPSHOT_LEN,
};

#[test]
fn new_scoreboard_holds_start_of_game_values() {
    let board = Scoreboard::new();
    assert_eq!(board.player_one_score, 0);
    assert_eq!(board.player_two_score, 0);
    assert_eq!(board.phase, PongPhase::Playing);
    assert_eq!(board.winner, None);
    assert_eq!(board.conceded_by, None);
    assert_eq!(board.winning_score, 11);
    assert_eq!(DEFAULT_WINNING_SCORE, 11);
}

#[test]
fn player_one_conceding_credits_player_two() {
    let mut board = Scoreboard::new();
    board.concede(PongPlayer::One);
    assert_eq!(board.resolve_scoring(), ScoreOutcome::Point(PongPlayer::Two));
    assert_eq!(board.player_two_score, 1);
    assert_eq!(board.player_one_score, 0);
    assert_eq!(board.phase, PongPhase::Playing);
}

#[test]
fn player_two_conceding_credits_player_one() {
    let mut board = Scoreboard::new();
    board.concede(PongPlayer::Two);
    assert_eq!(board.resolve_scoring(), ScoreOutcome::Point(PongPlayer::One));
    assert_eq!(board.player_one_score, 1);
    assert_eq!(board.player_two_score, 0);
}

#[test]
fn no_concession_scores_nothing() {
    let mut board = Scoreboard::new();
    assert_eq!(board.resolve_scoring(), ScoreOutcome::NoPoint);
    assert_eq!(board, Scoreboard::new());
}

#[test]
fn reaching_winning_score_ends_the_game() {
    let mut board = Scoreboard::new();
    board.player_one_score = 10;
    board.concede(PongPlayer::Two);
    assert_eq!(board.resolve_scoring(), ScoreOutcome::GameWon(PongPlayer::One));
    assert_eq!(board.player_one_score, 11);
    assert_eq!(board.phase, PongPhase::GameOver);
    assert_eq!(board.winner, Some(PongPlayer::One));

    let after = board;
    assert_eq!(board.resolve_scoring(), ScoreOutcome::NoPoint);
    assert_eq!(board, after);
}

#[test]
fn scores_accumulate_over_points() {
    let mut board = Scoreboard::new();
    for _ in 0..3 {
        board.concede(PongPlayer::Two);
        board.resolve_scoring();
        board.take_launch_side(true);
    }
    board.concede(PongPlayer::One);
    board.resolve_scoring();
    assert_eq!(board.player_one_score, 3);
    assert_eq!(board.player_two_score, 1);
}

#[test]
fn action_restarts_only_a_finished_game() {
    let mut board = Scoreboard::new();
    board.player_two_score = 10;
    board.concede(PongPlayer::One);
    board.resolve_scoring();
    assert_eq!(board.phase, PongPhase::GameOver);

    assert!(!board.handle_restart(0));
    assert_eq!(board.phase, PongPhase::GameOver);

    assert!(board.handle_restart(INPUT_ACTION));
    assert_eq!(board, Scoreboard::new());
    assert_eq!(board.player_one_score, 0);
    assert_eq!(board.player_two_score, 0);
    assert_eq!(board.phase, PongPhase::Playing);
}

#[test]
fn action_is_ignored_during_play() {
    let mut board = Scoreboard::new();
    board.player_one_score = 4;
    let before = board;
    assert!(!board.handle_restart(INPUT_ACTION));
    assert_eq!(board, before);
}

#[test]
fn serve_goes_toward_the_conceding_player_and_clears_the_concession() {
    let mut board = Scoreboard::new();
    board.concede(PongPlayer::One);
    assert_eq!(board.take_launch_side(false), 1);
    assert_eq!(board.conceded_by, None);

    board.concede(PongPlayer::Two);
    assert_eq!(board.take_launch_side(true), -1);
    assert_eq!(board.conceded_by, None);

    assert_eq!(board.take_launch_side(true), 1);
    assert_eq!(board.take_launch_side(false), -1);
}

#[test]
fn random_launch_side_is_one_of_the_two_sides() {
    let mut board = Scoreboard::new();
    for _ in 0..20 {
        let side = board.launch_side();
        assert!(side == 1 || side == -1);
    }
    board.concede(PongPlayer::Two);
    assert_eq!(board.launch_side(), -1);
    assert_eq!(board.conceded_by, None);
}

#[test]
fn ball_visibility_needs_play_and_no_pending_serve() {
    let mut board = Scoreboard::new();
    assert!(board.ball_visible(false));
    assert!(!board.ball_visible(true));
    board.phase = PongPhase::GameOver;
    assert!(!board.ball_visible(false));
}

#[test]
fn snapshot_codes_and_layout() {
    assert_eq!(phase_code(PongPhase::Playing), 0);
    assert_eq!(phase_code(PongPhase::GameOver), 1);
    assert_eq!(winner_code(None), 0);
    assert_eq!(winner_code(Some(PongPlayer::One)), 1);
    assert_eq!(winner_code(Some(PongPlayer::Two)), 2);
    assert_eq!(opponent(PongPlayer::One), PongPlayer::Two);
    assert_eq!(SNAPSHOT_LEN, 17);
    assert_eq!(SnapshotField::BallX.idx(), 0);
    assert_eq!(SnapshotField::PlayerOneScore.idx(), 8);
    assert_eq!(SnapshotField::Winner.idx(), 13);
    assert_eq!(SnapshotField::PaddleHeight.idx(), 16);
}
