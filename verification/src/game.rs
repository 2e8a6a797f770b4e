//! The screen flow and the per-frame update: menu, play and death screens,
//! physics gating by accumulated frame time, scoring, obstacle spawning and
//! the death conditions.

use vstd::prelude::*;
use crate::obstacle::{gap_size_for, spec_hit, Obstacle};
use crate::player::{player_stepped, Player};
use crate::{FRAME_DURATION_US, SCREEN_HEIGHT, SCREEN_WIDTH};

verus! {

/// Which screen the game is on.
#[derive(Clone, Copy, Debug, PartialEq, Eq, Structural)]
pub enum GameMode {
    Menu,
    Playing,
    End,
}

/// The one key signal recognized in a frame, already decoded from the
/// backend's key codes: start (or restart) a game, quit, or flap.
#[derive(Clone, Copy, Debug, PartialEq, Eq, Structural)]
pub enum Signal {
    Play,
    Quit,
    Flap,
}

/// The whole game: the player, the single active obstacle, the score, the
/// current screen, and the render time accumulated toward the next physics
/// tick (in microseconds).
#[derive(Clone, Copy, Debug, PartialEq, Eq, Structural)]
pub struct State {
    pub player: Player,
    pub frame_time: u64,
    pub obstacle: Obstacle,
    pub mode: GameMode,
    pub score: i32,
}

/// The player after the flap input of a frame: a flap signal overrides the
/// velocity with the upward impulse, any other input leaves the player as
/// it is.
pub open spec fn flap_applied(p: Player, key: Option<Signal>) -> Player {
    if key == Some(Signal::Flap) {
        Player { velocity_half: -8i32, ..p }
    } else {
        p
    }
}

/// The player after the movement phase of one playing frame: a physics tick
/// if the accumulated frame time passes the threshold, then the flap input.
pub open spec fn advanced_player(pre: State, elapsed: int, key: Option<Signal>) -> Player {
    let moved = if pre.frame_time + elapsed > FRAME_DURATION_US {
        player_stepped(pre.player)
    } else {
        pre.player
    };
    flap_applied(moved, key)
}

/// What holds of a freshly spawned obstacle: it stands in the given column
/// with a gap center somewhere in the band it is drawn from and the gap
/// size the given score generates.
pub open spec fn spawned(o: Obstacle, x: int, score: int) -> bool {
    &&& o.x == x
    &&& 10 <= o.gap_y < 40
    &&& o.gap_size == gap_size_for(score)
}

/// What holds of a freshly restarted game: the player at rest at column 2,
/// row 25, the frame-time accumulator empty, the score back at zero, play
/// running, and a fresh obstacle one screen width out.
pub open spec fn restarted(post: State) -> bool {
    &&& post.player == (Player { x: 2i32, y: 25i32, velocity_half: 0i32, current_frame: 0usize })
    &&& post.frame_time == 0
    &&& post.mode == GameMode::Playing
    &&& spawned(post.obstacle, SCREEN_WIDTH as int, 0)
    &&& post.score == 0
}

/// One frame on the menu screen: a play signal starts the game, a quit
/// signal asks the caller to exit, anything else changes nothing.
pub open spec fn menu_step(pre: State, key: Option<Signal>, post: State, quit: bool) -> bool {
    match key {
        Some(Signal::Play) => post == (State { mode: GameMode::Playing, ..pre }) && !quit,
        Some(Signal::Quit) => post == pre && quit,
        _ => post == pre && !quit,
    }
}

/// One frame on the death screen: a play signal restarts the game from
/// scratch, a quit signal asks the caller to exit, anything else changes
/// nothing.
pub open spec fn dead_step(pre: State, key: Option<Signal>, post: State, quit: bool) -> bool {
    match key {
        Some(Signal::Play) => restarted(post) && !quit,
        Some(Signal::Quit) => post == pre && quit,
        _ => post == pre && !quit,
    }
}

/// One playing frame: the player moves (physics tick if due, then the flap
/// input); passing the obstacle scores one point and spawns the next
/// obstacle one screen width ahead of the player at the new score; falling
/// below the field or hitting the (possibly fresh) obstacle ends the game.
pub open spec fn play_step(pre: State, elapsed: int, key: Option<Signal>, post: State) -> bool {
    let p = advanced_player(pre, elapsed, key);
    let passed = p.x > pre.obstacle.x;
    &&& post.player == p
    &&& post.frame_time == (if pre.frame_time + elapsed > FRAME_DURATION_US {
        0int
    } else {
        pre.frame_time + elapsed
    })
    &&& post.score == (if passed {
        pre.score + 1int
    } else {
        pre.score as int
    })
    &&& (if passed {
        spawned(post.obstacle, p.x + SCREEN_WIDTH, post.score as int)
    } else {
        post.obstacle == pre.obstacle
    })
    &&& post.mode == (if p.y > SCREEN_HEIGHT || spec_hit(post.obstacle, p) {
        GameMode::End
    } else {
        pre.mode
    })
}

/// Screen-flow law: a play signal on the menu screen enters play, and a
/// later playing frame whose moved player leaves the field or hits the
/// obstacle ends the game, the score frozen at what the scoring rule left
/// it that frame.
pub proof fn lemma_menu_play_death(
    menu: State,
    playing: State,
    quit: bool,
    elapsed: int,
    key: Option<Signal>,
    end: State,
)
    requires
        menu.mode == GameMode::Menu,
        menu_step(menu, Some(Signal::Play), playing, quit),
        play_step(playing, elapsed, key, end),
        advanced_player(playing, elapsed, key).y > SCREEN_HEIGHT || spec_hit(
            end.obstacle,
            advanced_player(playing, elapsed, key),
        ),
    ensures
        playing.mode == GameMode::Playing,
        end.mode == GameMode::End,
        end.score == (if advanced_player(playing, elapsed, key).x > playing.obstacle.x {
            playing.score + 1int
        } else {
            playing.score as int
        }),
{
}

impl State {
    /// The game's invariant: the player and the obstacle well formed, the
    /// score never negative, the frame-time accumulator never past the
    /// tick threshold.
    pub open spec fn wf(self) -> bool {
        &&& self.player.wf()
        &&& self.obstacle.wf()
        &&& 0 <= self.score
        &&& self.frame_time <= FRAME_DURATION_US
    }

    /// A fresh game on the menu screen: the player at rest at column 5,
    /// row 25, no score, and a first obstacle one screen width out.
    pub fn new() -> (s: State)
        ensures
            s.player == (Player { x: 5i32, y: 25i32, velocity_half: 0i32, current_frame: 0usize }),
            s.frame_time == 0,
            s.mode == GameMode::Menu,
            s.score == 0,
            spawned(s.obstacle, SCREEN_WIDTH as int, 0),
            s.wf(),
    {
        State {
            player: Player::new(5, 25),
            frame_time: 0,
            obstacle: Obstacle::new(SCREEN_WIDTH, 0),
            mode: GameMode::Menu,
            score: 0,
        }
    }

    /// One frame on the menu screen; the result asks the caller to exit.
    pub fn main_menu(&mut self, key: Option<Signal>) -> (quit: bool)
        ensures
            menu_step(*old(self), key, *final(self), quit),
            old(self).wf() ==> final(self).wf(),
    {
        match key {
            Some(Signal::Play) => {
                self.mode = GameMode::Playing;
                false
            },
            Some(Signal::Quit) => true,
            _ => false,
        }
    }

    /// One frame on the death screen; the result asks the caller to exit.
    pub fn dead(&mut self, key: Option<Signal>) -> (quit: bool)
        ensures
            dead_step(*old(self), key, *final(self), quit),
            old(self).wf() ==> final(self).wf(),
    {
        match key {
            Some(Signal::Play) => {
                self.restart();
                false
            },
            Some(Signal::Quit) => true,
            _ => false,
        }
    }

    /// A full restart: fresh player, fresh obstacle, score and frame-time
    /// accumulator back at zero, play running.
    pub fn restart(&mut self)
        ensures
            restarted(*final(self)),
            final(self).wf(),
    {
        self.player = Player::new(2, 25);
        self.frame_time = 0;
        self.mode = GameMode::Playing;
        self.obstacle = Obstacle::new(SCREEN_WIDTH, 0);
        self.score = 0;
    }

    /// One playing frame: accumulate the elapsed render time and run a
    /// physics tick when it passes the threshold, apply a flap signal,
    /// score and respawn the obstacle when it is passed, and end the game
    /// on a death condition.
    pub fn play(&mut self, elapsed: u32, key: Option<Signal>)
        requires
            old(self).wf(),
            old(self).player.x + 1 + SCREEN_WIDTH <= i32::MAX,
            old(self).player.y < i32::MAX,
            old(self).score < i32::MAX,
        ensures
            play_step(*old(self), elapsed as int, key, *final(self)),
            final(self).wf(),
    {
        self.frame_time = self.frame_time + (elapsed as u64);
        if self.frame_time > FRAME_DURATION_US {
            self.frame_time = 0;
            self.player.gravity_and_move();
        }
        if let Some(Signal::Flap) = key {
            self.player.flap();
        }
        if self.player.x > self.obstacle.x {
            self.score = self.score + 1;
            self.obstacle = Obstacle::new(self.player.x + SCREEN_WIDTH, self.score);
        }
        if self.player.y > SCREEN_HEIGHT || self.obstacle.hit_obstacle(&self.player) {
            self.mode = GameMode::End;
        }
    }

    /// One frame of the whole game, dispatched on the current screen; the
    /// result asks the caller to exit the process.
    pub fn tick(&mut self, elapsed: u32, key: Option<Signal>) -> (quit: bool)
        requires
            old(self).wf(),
            old(self).mode == GameMode::Playing ==> old(self).player.x + 1 + SCREEN_WIDTH
                <= i32::MAX && old(self).player.y < i32::MAX && old(self).score < i32::MAX,
        ensures
            final(self).wf(),
            match old(self).mode {
                GameMode::Menu => menu_step(*old(self), key, *final(self), quit),
                GameMode::Playing => play_step(*old(self), elapsed as int, key, *final(self))
                    && !quit,
                GameMode::End => dead_step(*old(self), key, *final(self), quit),
            },
    {
        match self.mode {
            GameMode::Menu => self.main_menu(key),
            GameMode::Playing => {
                self.play(elapsed, key);
                false
            },
            GameMode::End => self.dead(key),
        }
    }
}

} // verus!
