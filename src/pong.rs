//! Pong's discrete rules: scores, the Playing/GameOver state machine, the
//! restart control and the side a serve goes to.
//!
//! The continuous part of the game (positions, velocities, timers) is kept by
//! the caller; these rules decide what happens to the score and the phase.
use vstd::prelude::*;
use crate::input::{has_bit, INPUT_ACTION};

verus! {

/// Points needed to win a game.
pub const DEFAULT_WINNING_SCORE: u32 = 11;

#[derive(Clone, Copy, Debug, PartialEq, Eq, Structural)]
pub enum PongPhase {
    Playing,
    GameOver,
}

#[derive(Clone, Copy, Debug, PartialEq, Eq, Structural)]
pub enum PongPlayer {
    One,
    Two,
}

/// What one round of scoring decided.
#[derive(Clone, Copy, Debug, PartialEq, Eq, Structural)]
pub enum ScoreOutcome {
    /// Nobody conceded (or the game is already over): nothing changed.
    NoPoint,
    /// The player scored and play goes on after a serve delay.
    Point(PongPlayer),
    /// The player scored and reached the winning score.
    GameWon(PongPlayer),
}

/// Field order of Pong's snapshot buffer.
#[derive(Clone, Copy, Debug, PartialEq, Eq, Structural)]
pub enum SnapshotField {
    BallX,
    BallY,
    BallVx,
    BallVy,
    Paddle1X,
    Paddle1Y,
    Paddle2X,
    Paddle2Y,
    PlayerOneScore,
    PlayerTwoScore,
    FieldWidth,
    FieldHeight,
    GamePhase,
    Winner,
    BallVisible,
    PaddleWidth,
    PaddleHeight,
}

/// Number of fields in Pong's snapshot buffer.
pub const SNAPSHOT_LEN: usize = 17;

impl SnapshotField {
    pub open spec fn spec_idx(self) -> int {
        match self {
            SnapshotField::BallX => 0,
            SnapshotField::BallY => 1,
            SnapshotField::BallVx => 2,
            SnapshotField::BallVy => 3,
            SnapshotField::Paddle1X => 4,
            SnapshotField::Paddle1Y => 5,
            SnapshotField::Paddle2X => 6,
            SnapshotField::Paddle2Y => 7,
            SnapshotField::PlayerOneScore => 8,
            SnapshotField::PlayerTwoScore => 9,
            SnapshotField::FieldWidth => 10,
            SnapshotField::FieldHeight => 11,
            SnapshotField::GamePhase => 12,
            SnapshotField::Winner => 13,
            SnapshotField::BallVisible => 14,
            SnapshotField::PaddleWidth => 15,
            SnapshotField::PaddleHeight => 16,
        }
    }

    /// The field's position in the snapshot buffer.
    pub fn idx(self) -> (r: usize)
        ensures
            r == self.spec_idx(),
            r < SNAPSHOT_LEN,
    {
        match self {
            SnapshotField::BallX => 0,
            SnapshotField::BallY => 1,
            SnapshotField::BallVx => 2,
            SnapshotField::BallVy => 3,
            SnapshotField::Paddle1X => 4,
            SnapshotField::Paddle1Y => 5,
            SnapshotField::Paddle2X => 6,
            SnapshotField::Paddle2Y => 7,
            SnapshotField::PlayerOneScore => 8,
            SnapshotField::PlayerTwoScore => 9,
            SnapshotField::FieldWidth => 10,
            SnapshotField::FieldHeight => 11,
            SnapshotField::GamePhase => 12,
            SnapshotField::Winner => 13,
            SnapshotField::BallVisible => 14,
            SnapshotField::PaddleWidth => 15,
            SnapshotField::PaddleHeight => 16,
        }
    }
}

pub open spec fn spec_opponent(p: PongPlayer) -> PongPlayer {
    match p {
        PongPlayer::One => PongPlayer::Two,
        PongPlayer::Two => PongPlayer::One,
    }
}

/// The other player: the one who scores when `p` concedes.
pub fn opponent(p: PongPlayer) -> (r: PongPlayer)
    ensures
        r == spec_opponent(p),
{
    match p {
        PongPlayer::One => PongPlayer::Two,
        PongPlayer::Two => PongPlayer::One,
    }
}

/// Snapshot code of a phase: 0 while playing, 1 once over.
pub fn phase_code(phase: PongPhase) -> (r: u32)
    ensures
        r == (if phase == PongPhase::Playing { 0u32 } else { 1u32 }),
{
    match phase {
        PongPhase::Playing => 0,
        PongPhase::GameOver => 1,
    }
}

/// Snapshot code of the winner: 0 for none, else the player's number.
pub fn winner_code(winner: Option<PongPlayer>) -> (r: u32)
    ensures
        r == match winner {
            None => 0u32,
            Some(PongPlayer::One) => 1u32,
            Some(PongPlayer::Two) => 2u32,
        },
{
    match winner {
        None => 0,
        Some(PongPlayer::One) => 1,
        Some(PongPlayer::Two) => 2,
    }
}

/// `s + 1`, held at the largest `u32`.
pub open spec fn bumped(s: u32) -> u32 {
    if s < u32::MAX { (s + 1) as u32 } else { s }
}

/// The side a serve is launched toward: 1 when player one conceded, -1 when
/// player two did, and the coin's side (1 for `true`) at the start of a game.
pub open spec fn spec_launch_side(conceded_by: Option<PongPlayer>, coin: bool) -> int {
    match conceded_by {
        Some(PongPlayer::One) => 1,
        Some(PongPlayer::Two) => -1,
        None => if coin { 1 } else { -1 },
    }
}

/// Relies on rand::random::<bool>, a fair coin drawn from the thread's
/// generator: nothing is known of which side comes up.
#[verifier::external_body]
fn coin_flip() -> (r: bool) {
    rand::random::<bool>()
}

/// Scores, phase and the pending concession of one Pong game.
#[derive(Clone, Copy, Debug, PartialEq, Eq, Structural)]
pub struct Scoreboard {
    pub player_one_score: u32,
    pub player_two_score: u32,
    pub phase: PongPhase,
    pub winner: Option<PongPlayer>,
    pub conceded_by: Option<PongPlayer>,
    pub winning_score: u32,
}

impl Scoreboard {
    /// Start-of-game values.
    pub open spec fn initial() -> Scoreboard {
        Scoreboard {
            player_one_score: 0,
            player_two_score: 0,
            phase: PongPhase::Playing,
            winner: None,
            conceded_by: None,
            winning_score: DEFAULT_WINNING_SCORE,
        }
    }

    pub open spec fn score_of(self, p: PongPlayer) -> u32 {
        match p {
            PongPlayer::One => self.player_one_score,
            PongPlayer::Two => self.player_two_score,
        }
    }

    /// One round of scoring. While playing, a pending concession gives the
    /// opponent a point; reaching the winning score ends the game with that
    /// player as winner. The concession stays pending until the next serve.
    pub open spec fn scored(self) -> (Scoreboard, ScoreOutcome) {
        match self.conceded_by {
            Some(c) if self.phase == PongPhase::Playing => {
                let scorer = spec_opponent(c);
                let b = match scorer {
                    PongPlayer::One => Scoreboard { player_one_score: bumped(self.player_one_score), ..self },
                    PongPlayer::Two => Scoreboard { player_two_score: bumped(self.player_two_score), ..self },
                };
                if b.score_of(scorer) >= b.winning_score {
                    (
                        Scoreboard { phase: PongPhase::GameOver, winner: Some(scorer), ..b },
                        ScoreOutcome::GameWon(scorer),
                    )
                } else {
                    (b, ScoreOutcome::Point(scorer))
                }
            },
            _ => (self, ScoreOutcome::NoPoint),
        }
    }

    /// The restart control: Action while the game is over starts a new game.
    pub open spec fn restarted(self, bits: u32) -> (Scoreboard, bool) {
        if self.phase == PongPhase::GameOver && has_bit(bits, INPUT_ACTION) {
            (Scoreboard::initial(), true)
        } else {
            (self, false)
        }
    }

    pub fn new() -> (r: Scoreboard)
        ensures
            r == Scoreboard::initial(),
    {
        Scoreboard {
            player_one_score: 0,
            player_two_score: 0,
            phase: PongPhase::Playing,
            winner: None,
            conceded_by: None,
            winning_score: DEFAULT_WINNING_SCORE,
        }
    }

    /// Puts every value back to the start of a game.
    pub fn reset(&mut self)
        ensures
            *final(self) == Scoreboard::initial(),
    {
        *self = Scoreboard::new();
    }

    /// The ball is in play only while the game is on and no serve is pending.
    pub fn ball_visible(&self, serve_pending: bool) -> (r: bool)
        ensures
            r == (self.phase == PongPhase::Playing && !serve_pending),
    {
        self.phase == PongPhase::Playing && !serve_pending
    }

    /// Records that `player` let the ball past their side.
    pub fn concede(&mut self, player: PongPlayer)
        ensures
            *final(self) == (Scoreboard { conceded_by: Some(player), ..*old(self) }),
    {
        self.conceded_by = Some(player);
    }

    /// Applies a pending concession; see [`Scoreboard::scored`].
    pub fn resolve_scoring(&mut self) -> (r: ScoreOutcome)
        ensures
            (*final(self), r) == old(self).scored(),
    {
        if self.phase != PongPhase::Playing {
            return ScoreOutcome::NoPoint;
        }
        let conceder = match self.conceded_by {
            Some(p) => p,
            None => return ScoreOutcome::NoPoint,
        };
        let scorer = opponent(conceder);
        let score = match scorer {
            PongPlayer::One => {
                self.player_one_score = self.player_one_score.saturating_add(1);
                self.player_one_score
            },
            PongPlayer::Two => {
                self.player_two_score = self.player_two_score.saturating_add(1);
                self.player_two_score
            },
        };
        if score >= self.winning_score {
            self.phase = PongPhase::GameOver;
            self.winner = Some(scorer);
            ScoreOutcome::GameWon(scorer)
        } else {
            ScoreOutcome::Point(scorer)
        }
    }

    /// Starts a new game when Action is held while the game is over; returns
    /// whether it did.
    pub fn handle_restart(&mut self, bits: u32) -> (r: bool)
        ensures
            (*final(self), r) == old(self).restarted(bits),
    {
        if self.phase == PongPhase::GameOver && crate::input::action_pressed(bits) {
            self.reset();
            true
        } else {
            false
        }
    }

    /// Consumes the pending concession and returns the serve side for it,
    /// using `coin` when nobody conceded.
    pub fn take_launch_side(&mut self, coin: bool) -> (r: i32)
        ensures
            r == spec_launch_side(old(self).conceded_by, coin),
            *final(self) == (Scoreboard { conceded_by: None, ..*old(self) }),
    {
        let conceded = self.conceded_by;
        self.conceded_by = None;
        match conceded {
            Some(PongPlayer::One) => 1,
            Some(PongPlayer::Two) => -1,
            None => if coin { 1 } else { -1 },
        }
    }

    /// Consumes the pending concession and returns the serve side: toward the
    /// player who conceded, or a random side at the start of a game.
    pub fn launch_side(&mut self) -> (r: i32)
        ensures
            r == 1 || r == -1,
            old(self).conceded_by is Some ==> r == spec_launch_side(old(self).conceded_by, true),
            *final(self) == (Scoreboard { conceded_by: None, ..*old(self) }),
    {
        let coin = coin_flip();
        self.take_launch_side(coin)
    }
}

/// Once a game is over, scoring changes nothing, and only the Action control
/// leaves that state; with Action held it comes back to a fresh game.
pub proof fn lemma_game_over_is_terminal(b: Scoreboard, bits: u32)
    requires
        b.phase == PongPhase::GameOver,
    ensures
        b.scored() == (b, ScoreOutcome::NoPoint),
        !has_bit(bits, INPUT_ACTION) ==> b.restarted(bits) == (b, false),
        has_bit(bits, INPUT_ACTION) ==> b.restarted(bits) == (Scoreboard::initial(), true),
{
}

/// While a game is on, the restart control does nothing, whatever the bits.
pub proof fn lemma_restart_ignored_during_play(b: Scoreboard, bits: u32)
    requires
        b.phase == PongPhase::Playing,
    ensures
        b.restarted(bits) == (b, false),
{
}

/// A concession by player one is a point for player two and a concession by
/// player two a point for player one; the other score is untouched. Reaching
/// the winning score ends the game with the scorer as winner, and only then.
pub proof fn lemma_scoring_credits_opponent(b: Scoreboard, conceder: PongPlayer)
    requires
        b.phase == PongPhase::Playing,
        b.conceded_by == Some(conceder),
        b.score_of(spec_opponent(conceder)) < u32::MAX,
    ensures
        b.scored().0.score_of(spec_opponent(conceder)) == b.score_of(spec_opponent(conceder)) + 1,
        b.scored().0.score_of(conceder) == b.score_of(conceder),
        (b.scored().0.phase == PongPhase::GameOver) == (b.score_of(spec_opponent(conceder)) + 1
            >= b.winning_score),
        b.scored().0.phase == PongPhase::GameOver ==> b.scored().0.winner == Some(spec_opponent(conceder)),
{
}

/// After a point, the next serve consumes the concession and goes toward the
/// player who conceded.
pub proof fn lemma_serve_after_point(b: Scoreboard, coin: bool)
    requires
        b.phase == PongPhase::Playing,
        b.conceded_by is Some,
        b.scored().1 is Point,
    ensures
        spec_launch_side(b.scored().0.conceded_by, coin) == (if b.conceded_by == Some(PongPlayer::One) {
            1int
        } else {
            -1int
        }),
{
}

} // verus!
