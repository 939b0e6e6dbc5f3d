//! A match from its start to its end.

use vstd::prelude::*;
use crate::entity::Visual;
use crate::game_state::GameState;
use crate::scene::{length, Input, Player, Scene, Verdict};

verus! {

/// Whether a match is still played.
#[derive(Clone, Copy, Debug, PartialEq, Eq, Structural)]
pub enum Status {
    Running,
    Terminated,
}

/// A match: the state of play, and whether it goes on. A match begins
/// running, ends with the tick in which a player wins, and never resumes.
/// Only a tick changes it.
#[derive(Clone, Copy, Debug, PartialEq, Eq)]
pub struct Game {
    state: GameState,
    status: Status,
}

impl Game {
    /// The state of play.
    pub closed spec fn current_state(&self) -> GameState {
        self.state
    }

    /// Whether the match is still played.
    pub closed spec fn current_status(&self) -> Status {
        self.status
    }

    /// Starts a match on a playfield of `width` by `height` pixels, with the
    /// given images for the paddles and the ball.
    pub fn start(width: i32, height: i32, player1: Visual, player2: Visual, ball: Visual) -> (game:
        Game)
        ensures
            game.current_status() == Status::Running,
            game.current_state()@ == Scene::opening(
                length(width),
                length(height),
                player1,
                player2,
                ball,
            ),
            game.current_state().player1.visual == player1,
            game.current_state().player2.visual == player2,
            game.current_state().ball.visual == ball,
            game.current_state().wf() == (player1.wf() && player2.wf() && ball.wf()),
            game.current_state().in_range(),
    {
        Game { state: GameState::new(width, height, player1, player2, ball), status: Status::Running }
    }

    /// The state of play.
    pub fn state(&self) -> (state: GameState)
        ensures
            state == self.current_state(),
    {
        self.state
    }

    /// Whether the match is still played.
    pub fn status(&self) -> (status: Status)
        ensures
            status == self.current_status(),
    {
        self.status
    }

    /// Whether the match is still played.
    pub fn is_running(&self) -> (running: bool)
        ensures
            running == (self.current_status() == Status::Running),
    {
        match self.status {
            Status::Running => true,
            Status::Terminated => false,
        }
    }

    /// Plays one tick of a running match with the keys of `input` held, and
    /// ends the match if a player wins by it. A match that has ended is left
    /// as it is, and no player wins again.
    pub fn tick(&mut self, input: Input) -> (verdict: Verdict)
        requires
            old(self).current_status() == Status::Running ==> old(self).current_state().wf()
                && old(self).current_state().in_range(),
        ensures
            old(self).current_status() == Status::Terminated ==> {
                &&& final(self).current_state() == old(self).current_state()
                &&& final(self).current_status() == Status::Terminated
                &&& verdict == (Verdict { player2_wins: false, player1_wins: false })
            },
            old(self).current_status() == Status::Running ==> {
                &&& final(self).current_state()@ == old(self).current_state()@.step(input)
                &&& final(self).current_state().player1.visual == old(
                    self,
                ).current_state().player1.visual
                &&& final(self).current_state().player2.visual == old(
                    self,
                ).current_state().player2.visual
                &&& final(self).current_state().ball.visual == old(
                    self,
                ).current_state().ball.visual
                &&& final(self).current_state().wf()
                &&& verdict == old(self).current_state()@.step(input).verdict()
                &&& final(self).current_status() == if verdict.is_final() {
                    Status::Terminated
                } else {
                    Status::Running
                }
            },
    {
        match self.status {
            Status::Terminated => Verdict { player2_wins: false, player1_wins: false },
            Status::Running => {
                let verdict = self.state.update(input);
                if verdict.ends_match() {
                    self.status = Status::Terminated;
                }
                verdict
            },
        }
    }

    /// Brings the state of play to grain 1, rounding every length of its
    /// entities toward zero, so that a running match whose grain has grown
    /// beyond the limit of a tick can go on. Whether the match is still
    /// played does not change.
    pub fn coarsen(&mut self)
        requires
            old(self).current_state().wf(),
            old(self).current_state().player1.has_magnitudes(),
            old(self).current_state().player2.has_magnitudes(),
            old(self).current_state().ball.has_magnitudes(),
        ensures
            final(self).current_status() == old(self).current_status(),
            final(self).current_state().player1@ == old(
                self,
            ).current_state().player1@.coarsened(),
            final(self).current_state().player2@ == old(
                self,
            ).current_state().player2@.coarsened(),
            final(self).current_state().ball@ == old(self).current_state().ball@.coarsened(),
            final(self).current_state().player1.visual == old(
                self,
            ).current_state().player1.visual,
            final(self).current_state().player2.visual == old(
                self,
            ).current_state().player2.visual,
            final(self).current_state().ball.visual == old(self).current_state().ball.visual,
            final(self).current_state().width == old(self).current_state().width,
            final(self).current_state().height == old(self).current_state().height,
            final(self).current_state().wf(),
    {
        self.state = self.state.coarsened();
    }
}

/// The message that announces the win of `player`.
pub fn win_message(player: Player) -> (message: &'static str)
    ensures
        message@ == match player {
            Player::One => "Player 1 wins!"@,
            Player::Two => "Player 2 wins!"@,
        },
{
    match player {
        Player::One => "Player 1 wins!",
        Player::Two => "Player 2 wins!",
    }
}

} // verus!
