use vstd::prelude::*;
use crate::direction::SnakeDirection;
use crate::flow::{counted_down, GameFlow, GameState, MenuButtonAction};
use crate::grid::Grid;
use crate::logic::{framed, fresh_game, FrameOutcome, Game};

verus! {

/// The whole program's state: the screen flow, and the game played on the
/// game screen (kept while its results show).
#[derive(Debug)]
pub struct Session {
    pub flow: GameFlow,
    pub grid: Grid,
    pub game: Option<Game>,
}

impl Session {
    pub open spec fn wf(self) -> bool {
        &&& self.flow.wf()
        &&& self.grid.wf()
        &&& self.grid.cell_count() > 1
        &&& self.game.is_some() ==> self.game.unwrap().wf() && self.game.unwrap().grid == self.grid
        &&& self.flow.state == GameState::Game ==> self.game.is_some()
            && self.game.unwrap().is_running()
        &&& self.flow.state == GameState::Results ==> self.game.is_some()
            && !self.game.unwrap().is_running()
    }

    /// A session at start-up: the splash screen, no game yet.
    pub fn new(grid: Grid) -> (s: Session)
        requires
            grid.wf(),
            grid.cell_count() > 1,
        ensures
            s.wf(),
            s.grid == grid,
            s.game.is_none(),
            s.flow.state == GameState::Splash,
            !s.flow.already_played,
    {
        Session { flow: GameFlow::new(), grid, game: None }
    }

    /// Hand `delta` nanoseconds to whatever runs: the game, on the game
    /// screen while not paused, moving to the results once it ends; else the
    /// screen timers.
    pub fn update(&mut self, delta: u64) -> (r: FrameOutcome)
        requires
            old(self).wf(),
        ensures
            final(self).wf(),
            final(self).grid == old(self).grid,
            old(self).flow.runs_simulation() ==> {
                &&& final(self).game.is_some()
                &&& framed(old(self).game.unwrap(), final(self).game.unwrap(), delta, r)
                &&& final(self).flow.state == if final(self).game.unwrap().is_running() {
                    GameState::Game
                } else {
                    GameState::Results
                }
                &&& final(self).flow.mode == old(self).flow.mode
                &&& final(self).flow.splash == old(self).flow.splash
                &&& final(self).flow.results == old(self).flow.results
                &&& final(self).flow.already_played == old(self).flow.already_played
            },
            !old(self).flow.runs_simulation() ==> {
                &&& r == FrameOutcome::Idle
                &&& final(self).game == old(self).game
                &&& exists|changed: bool| #[trigger]
                    counted_down(old(self).flow, final(self).flow, delta, changed)
            },
    {
        if self.flow.simulation_runs() {
            let mut game = self.game.take().unwrap();
            let r = game.frame(delta);
            let running = game.event.is_none();
            self.game = Some(game);
            if !running {
                self.flow.end_game();
            }
            r
        } else {
            let changed = self.flow.countdown(delta);
            assert(counted_down(old(self).flow, self.flow, delta, changed));
            FrameOutcome::Idle
        }
    }

    /// A heading key was pressed: queued for the next tick while the game
    /// runs unpaused, dropped otherwise.
    pub fn press(&mut self, d: SnakeDirection)
        requires
            old(self).wf(),
        ensures
            final(self).wf(),
            final(self).flow == old(self).flow,
            final(self).grid == old(self).grid,
            old(self).flow.runs_simulation() ==> {
                let pre = old(self).game.unwrap();
                let post = final(self).game.unwrap();
                &&& final(self).game.is_some()
                &&& post.input.0@ == pre.input.0@.push(d)
                &&& post.grid == pre.grid
                &&& post.head == pre.head
                &&& post.body() == pre.body()
                &&& post.apple == pre.apple
                &&& post.scoreboard == pre.scoreboard
                &&& post.timer == pre.timer
                &&& post.event == pre.event
            },
            !old(self).flow.runs_simulation() ==> final(self).game == old(self).game,
    {
        if self.flow.simulation_runs() {
            let mut game = self.game.take().unwrap();
            game.input.push(d);
            self.game = Some(game);
        }
    }

    /// The pause key: the game screen switches between running and paused.
    pub fn toggle_pause(&mut self)
        requires
            old(self).wf(),
        ensures
            final(self).wf(),
            final(self).grid == old(self).grid,
            final(self).game == old(self).game,
            final(self).flow.state == old(self).flow.state,
            final(self).flow.splash == old(self).flow.splash,
            final(self).flow.results == old(self).flow.results,
            final(self).flow.already_played == old(self).flow.already_played,
            final(self).flow.mode == if old(self).flow.state == GameState::Game {
                old(self).flow.mode.toggled()
            } else {
                old(self).flow.mode
            },
    {
        self.flow.toggle_pause();
    }

    /// A menu button was pressed: Play begins a new game on the game screen;
    /// Quit asks to leave the program, which the returned flag says.
    pub fn menu_action(&mut self, action: MenuButtonAction) -> (quit: bool)
        requires
            old(self).wf(),
        ensures
            final(self).wf(),
            final(self).grid == old(self).grid,
            quit == (old(self).flow.state == GameState::Menu && action == MenuButtonAction::Quit),
            (old(self).flow.state == GameState::Menu && action == MenuButtonAction::Play) ==> {
                &&& final(self).flow.state == GameState::Game
                &&& final(self).flow.already_played
                &&& final(self).game.is_some()
                &&& fresh_game(final(self).game.unwrap(), old(self).grid)
            },
            !(old(self).flow.state == GameState::Menu && action == MenuButtonAction::Play) ==> {
                &&& final(self).flow == old(self).flow
                &&& final(self).game == old(self).game
            },
    {
        let starts = self.flow.state == GameState::Menu && action == MenuButtonAction::Play;
        let quit = self.flow.menu_action(action);
        if starts {
            self.game = Some(Game::new(self.grid));
        }
        quit
    }
}

} // verus!
